//! Exporting Figma vector nodes as SVG.

use vstd::prelude::*;
use crate::keyed::KeyedMap;
use crate::strategy::{PathComplexity, SvgConfig};
use crate::string_map::StringMap;
use crate::text::{cat2, chars_of, find_chars, first_occurrence, occurs_at, owned, starts_with_at, string_of};

verus! {

/// An error of exporting SVG from Figma.
#[derive(Debug, Clone)]
pub enum SvgExportError {
    ApiError(String),
    FileError(String),
    InvalidSvg(String),
}

impl SvgExportError {
    /// The message of the error.
    pub fn to_string(&self) -> (r: String)
        ensures
            r@ == match self {
                SvgExportError::ApiError(s) => "Failed to fetch SVG from Figma API: "@ + s@,
                SvgExportError::FileError(s) => "Failed to write external file: "@ + s@,
                SvgExportError::InvalidSvg(s) => "Invalid SVG content: "@ + s@,
            },
    {
        match self {
            SvgExportError::ApiError(s) => cat2("Failed to fetch SVG from Figma API: ", s.as_str()),
            SvgExportError::FileError(s) => cat2("Failed to write external file: ", s.as_str()),
            SvgExportError::InvalidSvg(s) => cat2("Invalid SVG content: ", s.as_str()),
        }
    }
}

/// The number of non-overlapping occurrences of `p` in `s` from `i` on,
/// found from left to right.
pub open spec fn count_from(s: Seq<char>, p: Seq<char>, i: int) -> nat
    decreases s.len() - i,
{
    if p.len() == 0 || i < 0 || i + p.len() > s.len() {
        0
    } else if occurs_at(s, p, i) {
        1 + count_from(s, p, i + p.len())
    } else {
        count_from(s, p, i + 1)
    }
}

/// The complexity of SVG markup with `paths` path elements and `length`
/// bytes.
pub open spec fn svg_complexity(paths: nat, length: nat) -> PathComplexity {
    if paths <= 1 && length < 200 {
        PathComplexity::Simple
    } else if paths <= 5 && length < 1000 {
        PathComplexity::Complex
    } else {
        PathComplexity::VeryComplex
    }
}

/// The text between `start` and the next `"` after it, in `s`.
pub open spec fn quoted_after(s: Seq<char>, start: Seq<char>) -> Option<Seq<char>> {
    match first_occurrence(s, start) {
        None => None,
        Some(b) => {
            let rest = s.skip(b + start.len());
            match first_occurrence(rest, seq!['"']) {
                None => None,
                Some(e) => Some(rest.take(e)),
            }
        },
    }
}

/// The text between `start` and the next `"` after it.
fn text_quoted_after(s: &str, start: &str) -> (r: Option<String>)
    ensures
        match r {
            Some(t) => quoted_after(s@, start@) == Some(t@),
            None => quoted_after(s@, start@) is None,
        },
{
    let chars = chars_of(s);
    let pat = chars_of(start);
    match find_chars(&chars, &pat) {
        None => None,
        Some(b) => {
            let n = chars.len();
            assert(b + pat.len() <= n);
            let rest = s.substring_char(b + pat.len(), s.unicode_len());
            let rchars = chars_of(rest);
            let mut q: Vec<char> = Vec::new();
            q.push('"');
            assert(q@ == seq!['"']);
            match find_chars(&rchars, &q) {
                None => None,
                Some(e) => Some(owned(rest.substring_char(0, e))),
            }
        },
    }
}

/// What an export gives: the SVG, whether it went to an external file and
/// where, the text of its `viewBox`, and its first path data.
#[derive(Debug)]
pub struct SvgExportResult {
    pub svg_content: String,
    pub is_external: bool,
    pub external_path: Option<String>,
    /// The text of the `viewBox` attribute, whose numbers the caller reads.
    pub viewbox: Option<String>,
    pub path_data: Option<String>,
}

/// The views of the parts of an export result.
pub type ExportView = (Seq<char>, bool, Option<Seq<char>>, Option<Seq<char>>, Option<Seq<char>>);

/// The view of an optional string.
pub open spec fn opt_view(o: Option<String>) -> Option<Seq<char>> {
    match o {
        Some(s) => Some(s@),
        None => None,
    }
}

/// The views of the parts of an export result.
pub open spec fn export_view(r: SvgExportResult) -> ExportView {
    (r.svg_content@, r.is_external, opt_view(r.external_path), opt_view(r.viewbox), opt_view(r.path_data))
}

fn copy_opt(o: &Option<String>) -> (r: Option<String>)
    ensures
        opt_view(r) == opt_view(*o),
{
    match o {
        Some(s) => Some(s.clone()),
        None => None,
    }
}

impl SvgExportResult {
    /// A copy of the result.
    pub fn duplicate(&self) -> (r: SvgExportResult)
        ensures
            export_view(r) == export_view(*self),
    {
        SvgExportResult {
            svg_content: self.svg_content.clone(),
            is_external: self.is_external,
            external_path: copy_opt(&self.external_path),
            viewbox: copy_opt(&self.viewbox),
            path_data: copy_opt(&self.path_data),
        }
    }
}

/// The SVG that the export service gives for every node: a placeholder of
/// one path.
pub open spec fn placeholder_svg() -> Seq<char> {
    "<svg viewBox=\"0 0 100 100\"><path d=\"M10,10 L90,90\"/></svg>"@
}

/// The complexity of the placeholder SVG, by its paths and bytes.
#[verifier::opaque]
pub open spec fn placeholder_complexity() -> PathComplexity {
    svg_complexity(count_from(placeholder_svg(), "<path"@, 0), vstd::utf8::encode_utf8(placeholder_svg()).len())
}

/// Exports vector nodes as SVG, inline or to external files, and caches what
/// it exports.
#[derive(Debug)]
pub struct FigmaSvgExporter {
    config: SvgConfig,
    svg_cache: KeyedMap<SvgExportResult>,
    external_paths: StringMap,
}

impl FigmaSvgExporter {
    /// An exporter with the given options and nothing exported.
    pub fn new(config: SvgConfig) -> (r: FigmaSvgExporter)
        ensures
            r.use_external() == config.use_external_paths,
            r.path_base() == config.external_path_base@,
            r.cache() == Map::<Seq<char>, SvgExportResult>::empty(),
            r.externals() == Map::<Seq<char>, Seq<char>>::empty(),
    {
        FigmaSvgExporter { config, svg_cache: KeyedMap::new(), external_paths: StringMap::new() }
    }

    /// Whether moderately complex SVG goes to external files.
    pub closed spec fn use_external(&self) -> bool {
        self.config.use_external_paths
    }

    /// The directory of external files.
    pub closed spec fn path_base(&self) -> Seq<char> {
        self.config.external_path_base@
    }

    /// The exports made, by file key and node id.
    pub closed spec fn cache(&self) -> Map<Seq<char>, SvgExportResult> {
        self.svg_cache@
    }

    /// The external file of each node exported to one.
    pub closed spec fn externals(&self) -> Map<Seq<char>, Seq<char>> {
        self.external_paths@
    }

    /// The external file entries, in the order they were made.
    pub closed spec fn external_entries(&self) -> Seq<(String, String)> {
        self.external_paths.entries()
    }

    /// The SVG of a node, from the export service.
    fn fetch_figma_svg(&self, _file_key: &str, _node_id: &str) -> (r: Result<String, SvgExportError>)
        ensures
            r matches Ok(s) && s@ == placeholder_svg(),
    {
        Ok(owned("<svg viewBox=\"0 0 100 100\"><path d=\"M10,10 L90,90\"/></svg>"))
    }

    /// The complexity of SVG markup, by its number of `<path` elements and
    /// its length in bytes.
    pub fn analyze_svg_complexity(&self, svg_content: &str) -> (r: PathComplexity)
        ensures
            r == svg_complexity(count_from(svg_content@, "<path"@, 0), vstd::utf8::encode_utf8(svg_content@).len()),
    {
        let chars = chars_of(svg_content);
        let pat = chars_of("<path");
        proof {
            reveal_strlit("<path");
        }
        let mut count: usize = 0;
        let mut i: usize = 0;
        while pat.len() <= chars.len() - i
            invariant
                pat@ == "<path"@,
                pat@.len() == 5,
                chars@ == svg_content@,
                i <= chars.len(),
                count <= i,
                count + count_from(chars@, pat@, i as int) == count_from(chars@, pat@, 0),
            decreases chars.len() - i,
        {
            if starts_with_at(&chars, &pat, i) {
                count += 1;
                i += pat.len();
            } else {
                i += 1;
            }
        }
        let length = svg_content.as_bytes().len();
        if count <= 1 && length < 200 {
            PathComplexity::Simple
        } else if count <= 5 && length < 1000 {
            PathComplexity::Complex
        } else {
            PathComplexity::VeryComplex
        }
    }

    /// Whether SVG of the given complexity goes to an external file: never
    /// simple SVG, always very complex SVG, and complex SVG as configured.
    pub fn should_use_external_paths(&self, complexity: PathComplexity) -> (r: bool)
        ensures
            r == match complexity {
                PathComplexity::Simple => false,
                PathComplexity::Complex => self.use_external(),
                PathComplexity::VeryComplex => true,
            },
    {
        match complexity {
            PathComplexity::Simple => false,
            PathComplexity::Complex => self.config.use_external_paths,
            PathComplexity::VeryComplex => true,
        }
    }

    /// The text of the `viewBox` attribute of SVG markup.
    pub fn extract_viewbox(&self, svg_content: &str) -> (r: Option<String>)
        ensures
            opt_view(r) == quoted_after(svg_content@, "viewBox=\""@),
    {
        text_quoted_after(svg_content, "viewBox=\"")
    }

    /// The first path data (`d="..."`) of SVG markup.
    pub fn extract_path_data(&self, svg_content: &str) -> (r: Option<String>)
        ensures
            opt_view(r) == quoted_after(svg_content@, "d=\""@),
    {
        text_quoted_after(svg_content, "d=\"")
    }

    /// Records the external file of a node, under the external directory,
    /// and gives the export that refers to it.
    pub fn export_to_external_file(&mut self, svg_content: &str, node_id: &str) -> (r: SvgExportResult)
        ensures
            export_view(r) == (
                svg_content@,
                true,
                Some(external_file(old(self).path_base(), node_id@)),
                quoted_after(svg_content@, "viewBox=\""@),
                quoted_after(svg_content@, "d=\""@),
            ),
            final(self).externals() == old(self).externals().insert(node_id@, external_file(old(self).path_base(), node_id@)),
            final(self).cache() == old(self).cache(),
            final(self).use_external() == old(self).use_external(),
            final(self).path_base() == old(self).path_base(),
    {
        let mut file_path = self.config.external_path_base.clone();
        file_path.append("/");
        file_path.append(node_id);
        file_path.append(".svg");
        self.external_paths.insert(owned(node_id), file_path.clone());
        SvgExportResult {
            svg_content: owned(svg_content),
            is_external: true,
            external_path: Some(file_path),
            viewbox: self.extract_viewbox(svg_content),
            path_data: self.extract_path_data(svg_content),
        }
    }

    /// Exports a vector node, or gives the export made before for the same
    /// file and node: SVG that is complex enough goes to an external file.
    pub fn export_vector_node(&mut self, node_id: &str, file_key: &str) -> (r: Result<SvgExportResult, SvgExportError>)
        ensures
            r is Ok,
            old(self).cache().dom().contains(cache_key(file_key@, node_id@)) ==> {
                &&& export_view(r.unwrap()) == export_view(old(self).cache()[cache_key(file_key@, node_id@)])
                &&& final(self).cache() == old(self).cache()
                &&& final(self).externals() == old(self).externals()
            },
            !old(self).cache().dom().contains(cache_key(file_key@, node_id@)) ==> {
                &&& exported_as(*old(self), node_id@, export_view(r.unwrap()))
                &&& final(self).cache().dom() == old(self).cache().dom().insert(cache_key(file_key@, node_id@))
                &&& export_view(final(self).cache()[cache_key(file_key@, node_id@)]) == export_view(r.unwrap())
            },
            final(self).use_external() == old(self).use_external(),
            final(self).path_base() == old(self).path_base(),
    {
        let mut key = owned(file_key);
        key.append("_");
        key.append(node_id);
        match self.svg_cache.get(key.as_str()) {
            Some(cached) => {
                return Ok(cached.duplicate());
            },
            None => {},
        }
        let result = match self.export_fresh(file_key, node_id) {
            Ok(r) => r,
            Err(e) => {
                return Err(e);
            },
        };
        let copy = result.duplicate();
        self.svg_cache.insert(key, result);
        Ok(copy)
    }

    /// Exports a vector node without looking in the cache.
    fn export_fresh(&mut self, file_key: &str, node_id: &str) -> (r: Result<SvgExportResult, SvgExportError>)
        ensures
            r is Ok,
            exported_as(*old(self), node_id@, export_view(r.unwrap())),
            final(self).cache() == old(self).cache(),
            final(self).use_external() == old(self).use_external(),
            final(self).path_base() == old(self).path_base(),
    {
        let svg_content = match self.fetch_figma_svg(file_key, node_id) {
            Ok(s) => s,
            Err(e) => {
                return Err(e);
            },
        };
        let complexity = self.analyze_svg_complexity(svg_content.as_str());
        assert(complexity == placeholder_complexity()) by {
            reveal(placeholder_complexity);
        }
        let r = if self.should_use_external_paths(complexity) {
            self.export_to_external_file(svg_content.as_str(), node_id)
        } else {
            let viewbox = self.extract_viewbox(svg_content.as_str());
            let path_data = self.extract_path_data(svg_content.as_str());
            SvgExportResult { svg_content, is_external: false, external_path: None, viewbox, path_data }
        };
        Ok(r)
    }

    /// The external file of a node, if it was exported to one.
    pub fn get_external_path(&self, node_id: &str) -> (r: Option<&String>)
        ensures
            match r {
                Some(p) => self.externals().dom().contains(node_id@) && self.externals()[node_id@] == p@,
                None => !self.externals().dom().contains(node_id@),
            },
    {
        self.external_paths.get(node_id)
    }

    /// A TypeScript module whose default export maps each node exported to
    /// a file to that file.
    pub fn generate_path_mapping(&self) -> (r: String)
        ensures
            r@ == "export default {\n"@ + mapping_lines(self.external_entries()) + "};\n"@,
    {
        let entries = self.external_paths.pairs();
        let mut r = owned("export default {\n");
        let mut i: usize = 0;
        while i < entries.len()
            invariant
                i <= entries@.len(),
                entries@ == self.external_entries(),
                r@ == "export default {\n"@ + mapping_lines(entries@.take(i as int)),
            decreases entries@.len() - i,
        {
            assert(entries@.take(i + 1).drop_last() == entries@.take(i as int));
            r.append("  ");
            r.append(entries[i].0.as_str());
            r.append(": \"");
            r.append(entries[i].1.as_str());
            r.append("\",\n");
            i += 1;
        }
        assert(entries@.take(entries@.len() as int) == entries@);
        r.append("};\n");
        r
    }
}

/// The key of an export in the cache.
pub open spec fn cache_key(file_key: Seq<char>, node_id: Seq<char>) -> Seq<char> {
    file_key + "_"@ + node_id
}

/// The external file of a node.
pub open spec fn external_file(base: Seq<char>, node_id: Seq<char>) -> Seq<char> {
    base + "/"@ + node_id + ".svg"@
}

/// The lines of the path mapping module, one per entry.
pub open spec fn mapping_lines(entries: Seq<(String, String)>) -> Seq<char>
    decreases entries.len(),
{
    if entries.len() == 0 {
        seq![]
    } else {
        mapping_lines(entries.drop_last()) + "  "@ + entries.last().0@ + ": \""@ + entries.last().1@ + "\",\n"@
    }
}

/// Whether `v` is the export of the placeholder SVG for a node by the
/// exporter `x`: external where its complexity calls for it, inline
/// otherwise.
pub open spec fn exported_as(x: FigmaSvgExporter, node_id: Seq<char>, v: ExportView) -> bool {
    let svg = placeholder_svg();
    let external = match placeholder_complexity() {
        PathComplexity::Simple => false,
        PathComplexity::Complex => x.use_external(),
        PathComplexity::VeryComplex => true,
    };
    &&& v.0 == svg
    &&& v.1 == external
    &&& v.2 == if external { Some(external_file(x.path_base(), node_id)) } else { None }
    &&& v.3 == quoted_after(svg, "viewBox=\""@)
    &&& v.4 == quoted_after(svg, "d=\""@)
}

} // verus!
