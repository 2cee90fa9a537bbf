//! The assets a TSX module refers to: which strings are asset paths, where
//! they lead, and how references are rewritten to moved assets.
//!
//! Whether a candidate file exists is asked of the caller through a
//! function; the contracts state what is chosen whatever it answers.

use vstd::prelude::*;
use crate::html_assets::{lowercase, to_lowercase};
use crate::paths::{extension_of, file_name_of, join, joined_path, parent_path, path_extension, path_file_name, path_parent};
use crate::string_map::StringMap;
use crate::text::{cat2, has_char, owned, push_string, starts_with, str_eq, str_has_char, str_starts_with, views};

verus! {

/// The kind of an asset, by its extension.
#[derive(Debug, Clone)]
pub enum AssetType {
    Image,
    Video,
    Audio,
    Document,
    /// Any other extension, in lowercase, or `no_extension`.
    Other(String),
}

/// Where a reference to an asset was found.
#[derive(Debug, Clone, Copy, PartialEq, Eq, Structural)]
pub enum ReferenceType {
    ImportStatement,
    JsxAttribute,
    StringLiteral,
}

/// A reference to an asset and the file it leads to.
#[derive(Debug, Clone)]
pub struct AssetReference {
    pub original_path: String,
    pub resolved_path: String,
    pub asset_type: AssetType,
    pub reference_type: ReferenceType,
}

/// An error of moving assets: a bad path, or the message of an I/O error.
#[derive(Debug, Clone)]
pub enum AssetVisitorError {
    InvalidPath(String),
    FileSystemError(String),
}

impl AssetVisitorError {
    /// The message of the error.
    pub fn to_string(&self) -> (r: String)
        ensures
            r@ == match self {
                AssetVisitorError::InvalidPath(s) => "Invalid asset path: "@ + s@,
                AssetVisitorError::FileSystemError(s) => "File system error: "@ + s@,
            },
    {
        match self {
            AssetVisitorError::InvalidPath(s) => cat2("Invalid asset path: ", s.as_str()),
            AssetVisitorError::FileSystemError(s) => cat2("File system error: ", s.as_str()),
        }
    }
}

/// The lowercase extensions that mark a path as an asset.
pub open spec fn tracked_extension(e: Seq<char>) -> bool {
    ||| e == "png"@ ||| e == "jpg"@ ||| e == "jpeg"@ ||| e == "gif"@ ||| e == "svg"@ ||| e == "webp"@
    ||| e == "ico"@ ||| e == "mp4"@ ||| e == "webm"@ ||| e == "ogg"@ ||| e == "mp3"@ ||| e == "wav"@
    ||| e == "pdf"@ ||| e == "doc"@ ||| e == "docx"@
}

/// Whether a path names an asset: its extension, in lowercase, is tracked.
pub open spec fn is_asset(path: Seq<char>) -> bool {
    match path_extension(path) {
        Some(e) => tracked_extension(lowercase(e)),
        None => false,
    }
}

/// Whether `t` is the asset type of a path with the extension `ext`.
pub open spec fn type_of_extension(ext: Option<Seq<char>>, t: AssetType) -> bool {
    match ext {
        None => t matches AssetType::Other(s) && s@ == "no_extension"@,
        Some(e) => {
            let l = lowercase(e);
            if l == "png"@ || l == "jpg"@ || l == "jpeg"@ || l == "gif"@ || l == "svg"@ || l == "webp"@ || l == "ico"@ {
                t is Image
            } else if l == "mp4"@ || l == "webm"@ || l == "ogg"@ {
                t is Video
            } else if l == "mp3"@ || l == "wav"@ {
                t is Audio
            } else if l == "pdf"@ || l == "doc"@ || l == "docx"@ {
                t is Document
            } else {
                t matches AssetType::Other(s) && s@ == l
            }
        },
    }
}

/// The path behind the `@/` alias: what follows it.
pub open spec fn ts_alias(path: Seq<char>) -> Option<Seq<char>> {
    if starts_with(path, "@/"@) {
        Some(path.skip(2))
    } else {
        None
    }
}

/// `dir` joined with `name`.
pub open spec fn j(dir: Seq<char>, name: Seq<char>) -> Seq<char> {
    joined_path(Some(dir), name)
}

/// `name` in the subdirectory `sub` of `dir`, or in `dir` itself for an
/// empty `sub`.
pub open spec fn under(dir: Seq<char>, sub: Seq<char>, name: Seq<char>) -> Seq<char> {
    if sub.len() == 0 {
        j(dir, name)
    } else {
        j(j(dir, sub), name)
    }
}

/// The parent of a path, or the path itself where it has none.
pub open spec fn parent_or(p: Seq<char>, other: Seq<char>) -> Seq<char> {
    match path_parent(p) {
        Some(d) => d,
        None => other,
    }
}

/// The directories of the project searched for a bare file name.
pub open spec fn project_dirs() -> Seq<Seq<char>> {
    seq![""@, "public"@, "public/assets"@, "assets"@, "static"@]
}

/// The directories searched, from the module's directory and from the base
/// directory, for a bare file name.
pub open spec fn relative_dirs() -> Seq<Seq<char>> {
    seq![
        ""@, "assets"@, "assets/images"@, "assets/videos"@, "assets/audio"@, "images"@, "videos"@, "audio"@,
        "media"@, "../assets"@, "../public/assets"@,
    ]
}

/// The places tried, in order, for an absolute web path (without its `/`).
pub open spec fn absolute_candidates(root: Seq<char>, base: Seq<char>, rest: Seq<char>) -> Seq<Seq<char>> {
    seq![j(j(root, "public"@), rest), j(j(root, "assets"@), rest), j(j(root, "static"@), rest), j(root, rest), j(base, rest)]
}

/// The places tried, in order, for a bare file name.
pub open spec fn filename_candidates(root: Seq<char>, dir: Seq<char>, base: Seq<char>, name: Seq<char>) -> Seq<Seq<char>> {
    project_dirs().map_values(|d: Seq<char>| under(root, d, name)) + relative_dirs().map_values(
        |d: Seq<char>| under(dir, d, name),
    ) + relative_dirs().map_values(|d: Seq<char>| under(base, d, name))
}

/// Whether `file_exists` answered `b` for some string with the view `v`.
pub open spec fn answered<F: Fn(&String) -> bool>(file_exists: F, v: Seq<char>, b: bool) -> bool {
    exists|c: String| c@ == v && #[trigger] file_exists.ensures((&c,), b)
}

/// Whether `r` is the first candidate for which `file_exists` answered yes, or
/// the fallback where it answered no for all.
pub open spec fn first_existing<F: Fn(&String) -> bool>(
    file_exists: F,
    cands: Seq<Seq<char>>,
    fallback: Seq<char>,
    r: Seq<char>,
) -> bool {
    ||| exists|k: int|
        0 <= k < cands.len() && r == cands[k] && answered(file_exists, cands[k], true) && forall|i: int|
            0 <= i < k ==> answered(file_exists, #[trigger] cands[i], false)
    ||| r == fallback && forall|i: int| 0 <= i < cands.len() ==> answered(file_exists, #[trigger] cands[i], false)
}

/// The first candidate that exists, or the fallback.
fn pick_existing<F: Fn(&String) -> bool>(cands: Vec<String>, fallback: String, file_exists: &F) -> (r: String)
    requires
        forall|s: &String| #[trigger] file_exists.requires((s,)),
    ensures
        first_existing(*file_exists, views(cands@), fallback@, r@),
{
    let ghost vs = views(cands@);
    let mut i: usize = 0;
    while i < cands.len()
        invariant
            i <= cands.len(),
            vs == views(cands@),
            forall|s: &String| #[trigger] file_exists.requires((s,)),
            forall|k: int| 0 <= k < i ==> answered(*file_exists, #[trigger] vs[k], false),
        decreases cands.len() - i,
    {
        let b = file_exists(&cands[i]);
        assert(answered(*file_exists, vs[i as int], b));
        if b {
            let r = cands[i].clone();
            assert(first_existing(*file_exists, vs, fallback@, r@)) by {
                assert(0 <= i < vs.len() && r@ == vs[i as int]);
            }
            return r;
        }
        i += 1;
    }
    fallback
}

/// A literal rewritten by a mapping: its new path where the mapping has one.
pub open spec fn rewritten(m: Map<Seq<char>, Seq<char>>, lit: Seq<char>) -> Seq<char> {
    if m.dom().contains(lit) {
        m[lit]
    } else {
        lit
    }
}

/// Once a path is mapped, a literal holding it is rewritten to the new path,
/// and literals holding other paths are rewritten as before.
pub proof fn law_mapped_path_rewrites(m: Map<Seq<char>, Seq<char>>, old_path: Seq<char>, new_path: Seq<char>, lit: Seq<char>)
    ensures
        rewritten(m.insert(old_path, new_path), old_path) == new_path,
        lit != old_path ==> rewritten(m.insert(old_path, new_path), lit) == rewritten(m, lit),
{
}

/// Collects the asset references of a module, resolves them to files and
/// rewrites them by a mapping of paths.
#[derive(Debug)]
pub struct AssetVisitor {
    current_file: String,
    base_dir: String,
    target_dir: String,
    assets: Vec<AssetReference>,
    path_mappings: StringMap,
}

impl AssetVisitor {
    /// A visitor for the module at `current_file`, with `base_dir` the
    /// directory that `@/` stands for, moving assets to `target_dir`.
    pub fn new(current_file: &str, base_dir: &str, target_dir: &str) -> (r: AssetVisitor)
        ensures
            r.current_file() == current_file@,
            r.base_dir() == base_dir@,
            r.target_dir() == target_dir@,
            r.found().len() == 0,
            r.mappings() == Map::<Seq<char>, Seq<char>>::empty(),
    {
        AssetVisitor {
            current_file: owned(current_file),
            base_dir: owned(base_dir),
            target_dir: owned(target_dir),
            assets: Vec::new(),
            path_mappings: StringMap::new(),
        }
    }

    /// The module being visited.
    pub closed spec fn current_file(&self) -> Seq<char> {
        self.current_file@
    }

    /// The directory that `@/` stands for.
    pub closed spec fn base_dir(&self) -> Seq<char> {
        self.base_dir@
    }

    /// The directory assets are moved to.
    pub closed spec fn target_dir(&self) -> Seq<char> {
        self.target_dir@
    }

    /// The references found so far, in order.
    pub closed spec fn found(&self) -> Seq<AssetReference> {
        self.assets@
    }

    /// The mapping from old paths to new ones.
    pub closed spec fn mappings(&self) -> Map<Seq<char>, Seq<char>> {
        self.path_mappings@
    }

    /// The project root: the parent of the base directory, or the base
    /// directory itself.
    pub open spec fn project_root(&self) -> Seq<char> {
        parent_or(self.base_dir(), self.base_dir())
    }

    /// The directory of the module, or the base directory.
    pub open spec fn module_dir(&self) -> Seq<char> {
        parent_or(self.current_file(), self.base_dir())
    }

    /// Whether `r` is where `path` resolves to, given the answers of
    /// `file_exists`: an absolute path is tried under `public`, `assets`,
    /// `static`, the project root and the base directory; a path with
    /// directories is taken from the base directory (after `@/`) or from the
    /// module's directory; a bare file name is tried in the usual asset
    /// directories. Where nothing exists, `public` is assumed.
    pub open spec fn resolves_to<F: Fn(&String) -> bool>(&self, path: Seq<char>, file_exists: F, r: Seq<char>) -> bool {
        let alias = ts_alias(path);
        let p = match alias {
            Some(a) => a,
            None => path,
        };
        if starts_with(p, "/"@) {
            let rest = p.skip(1);
            first_existing(
                file_exists,
                absolute_candidates(self.project_root(), self.base_dir(), rest),
                j(j(self.project_root(), "public"@), rest),
                r,
            )
        } else if has_char(p, '/') || has_char(p, '\\') {
            r == if alias is Some {
                j(self.base_dir(), p)
            } else {
                j(self.module_dir(), p)
            }
        } else {
            first_existing(
                file_exists,
                filename_candidates(self.project_root(), self.module_dir(), self.base_dir(), p),
                j(j(self.project_root(), "public"@), p),
                r,
            )
        }
    }

    /// The references found so far.
    pub fn assets(&self) -> (r: &Vec<AssetReference>)
        ensures
            r@ == self.found(),
    {
        &self.assets
    }

    /// The mapping from old paths to new ones.
    pub fn path_mappings(&self) -> (r: &StringMap)
        ensures
            r@ == self.mappings(),
    {
        &self.path_mappings
    }

    /// Maps `old_path` to `new_path`.
    pub fn add_path_mapping(&mut self, old_path: String, new_path: String)
        ensures
            final(self).mappings() == old(self).mappings().insert(old_path@, new_path@),
            final(self).found() == old(self).found(),
            final(self).current_file() == old(self).current_file(),
            final(self).base_dir() == old(self).base_dir(),
            final(self).target_dir() == old(self).target_dir(),
    {
        self.path_mappings.insert(old_path, new_path);
    }

    /// Whether `path` names an asset, by its extension.
    pub fn is_asset_path(&self, path: &str) -> (r: bool)
        ensures
            r == is_asset(path@),
    {
        match extension_of(path) {
            Some(e) => {
                let l = to_lowercase(e.as_str());
                let l = l.as_str();
                str_eq(l, "png") || str_eq(l, "jpg") || str_eq(l, "jpeg") || str_eq(l, "gif") || str_eq(l, "svg")
                    || str_eq(l, "webp") || str_eq(l, "ico") || str_eq(l, "mp4") || str_eq(l, "webm")
                    || str_eq(l, "ogg") || str_eq(l, "mp3") || str_eq(l, "wav") || str_eq(l, "pdf")
                    || str_eq(l, "doc") || str_eq(l, "docx")
            },
            None => false,
        }
    }

    /// The path behind the `@/` alias, if `path` uses it.
    pub fn resolve_ts_path_alias(&self, path: &str) -> (r: Option<String>)
        ensures
            match r {
                Some(s) => ts_alias(path@) == Some(s@),
                None => ts_alias(path@) is None,
            },
    {
        if str_starts_with(path, "@/") {
            proof {
                reveal_strlit("@/");
            }
            let rest = path.substring_char(2, path.unicode_len());
            Some(owned(rest))
        } else {
            None
        }
    }

    fn root(&self) -> (r: String)
        ensures
            r@ == self.project_root(),
    {
        match parent_path(self.base_dir.as_str()) {
            Some(d) => d,
            None => self.base_dir.clone(),
        }
    }

    fn module_directory(&self) -> (r: String)
        ensures
            r@ == self.module_dir(),
    {
        match parent_path(self.current_file.as_str()) {
            Some(d) => d,
            None => self.base_dir.clone(),
        }
    }

    /// Where an absolute web path (`/...`) leads: the first of the usual
    /// places that exist, or under `public`.
    pub fn resolve_absolute_path<F: Fn(&String) -> bool>(&self, path: &str, file_exists: &F) -> (r: String)
        requires
            forall|s: &String| #[trigger] file_exists.requires((s,)),
        ensures
            first_existing(
                *file_exists,
                absolute_candidates(
                    self.project_root(),
                    self.base_dir(),
                    if starts_with(path@, "/"@) { path@.skip(1) } else { path@ },
                ),
                j(j(self.project_root(), "public"@), if starts_with(path@, "/"@) { path@.skip(1) } else { path@ }),
                r@,
            ),
    {
        let rest = if str_starts_with(path, "/") {
            proof {
                reveal_strlit("/");
            }
            path.substring_char(1, path.unicode_len())
        } else {
            path
        };
        let root = self.root();
        let mut cands: Vec<String> = Vec::new();
        push_string(&mut cands, join(join(root.as_str(), "public").as_str(), rest));
        push_string(&mut cands, join(join(root.as_str(), "assets").as_str(), rest));
        push_string(&mut cands, join(join(root.as_str(), "static").as_str(), rest));
        push_string(&mut cands, join(root.as_str(), rest));
        push_string(&mut cands, join(self.base_dir.as_str(), rest));
        let fallback = join(join(root.as_str(), "public").as_str(), rest);
        assert(views(cands@) =~= absolute_candidates(self.project_root(), self.base_dir(), rest@));
        pick_existing(cands, fallback, file_exists)
    }

    fn push_under(cands: &mut Vec<String>, dir: &str, sub: &str, name: &str)
        ensures
            views(final(cands)@) == views(old(cands)@).push(under(dir@, sub@, name@)),
    {
        if sub.unicode_len() == 0 {
            push_string(cands, join(dir, name));
        } else {
            push_string(cands, join(join(dir, sub).as_str(), name));
        }
    }

    fn push_relative(cands: &mut Vec<String>, dir: &str, name: &str)
        ensures
            views(final(cands)@) == views(old(cands)@) + relative_dirs().map_values(|d: Seq<char>| under(dir@, d, name@)),
    {
        let ghost start = views(cands@);
        Self::push_under(cands, dir, "", name);
        Self::push_under(cands, dir, "assets", name);
        Self::push_under(cands, dir, "assets/images", name);
        Self::push_under(cands, dir, "assets/videos", name);
        Self::push_under(cands, dir, "assets/audio", name);
        Self::push_under(cands, dir, "images", name);
        Self::push_under(cands, dir, "videos", name);
        Self::push_under(cands, dir, "audio", name);
        Self::push_under(cands, dir, "media", name);
        Self::push_under(cands, dir, "../assets", name);
        Self::push_under(cands, dir, "../public/assets", name);
        assert(views(cands@) =~= start + relative_dirs().map_values(|d: Seq<char>| under(dir@, d, name@)));
    }

    /// Where a bare file name leads: the first of the usual asset places
    /// that exists, or under `public`.
    pub fn resolve_filename<F: Fn(&String) -> bool>(&self, filename: &str, file_exists: &F) -> (r: String)
        requires
            forall|s: &String| #[trigger] file_exists.requires((s,)),
        ensures
            first_existing(
                *file_exists,
                filename_candidates(self.project_root(), self.module_dir(), self.base_dir(), filename@),
                j(j(self.project_root(), "public"@), filename@),
                r@,
            ),
    {
        let root = self.root();
        let dir = self.module_directory();
        let mut cands: Vec<String> = Vec::new();
        Self::push_under(&mut cands, root.as_str(), "", filename);
        Self::push_under(&mut cands, root.as_str(), "public", filename);
        Self::push_under(&mut cands, root.as_str(), "public/assets", filename);
        Self::push_under(&mut cands, root.as_str(), "assets", filename);
        Self::push_under(&mut cands, root.as_str(), "static", filename);
        assert(views(cands@) =~= project_dirs().map_values(|d: Seq<char>| under(root@, d, filename@)));
        Self::push_relative(&mut cands, dir.as_str(), filename);
        Self::push_relative(&mut cands, self.base_dir.as_str(), filename);
        let fallback = join(join(root.as_str(), "public").as_str(), filename);
        pick_existing(cands, fallback, file_exists)
    }

    /// Where `path` leads from the module.
    pub fn resolve_path<F: Fn(&String) -> bool>(&self, path: &str, file_exists: &F) -> (r: String)
        requires
            forall|s: &String| #[trigger] file_exists.requires((s,)),
        ensures
            self.resolves_to(path@, *file_exists, r@),
    {
        let alias = self.resolve_ts_path_alias(path);
        let p = match &alias {
            Some(a) => a.clone(),
            None => owned(path),
        };
        if str_starts_with(p.as_str(), "/") {
            proof {
                reveal_strlit("/");
            }
            self.resolve_absolute_path(p.as_str(), file_exists)
        } else if str_has_char(p.as_str(), '/') || str_has_char(p.as_str(), '\\') {
            match alias {
                Some(_) => join(self.base_dir.as_str(), p.as_str()),
                None => {
                    let dir = self.module_directory();
                    join(dir.as_str(), p.as_str())
                },
            }
        } else {
            self.resolve_filename(p.as_str(), file_exists)
        }
    }

    /// The kind of asset `path` names, by its extension.
    pub fn get_asset_type(&self, path: &str) -> (r: AssetType)
        ensures
            type_of_extension(path_extension(path@), r),
    {
        match extension_of(path) {
            None => AssetType::Other(owned("no_extension")),
            Some(e) => {
                let l = to_lowercase(e.as_str());
                let s = l.as_str();
                if str_eq(s, "png") || str_eq(s, "jpg") || str_eq(s, "jpeg") || str_eq(s, "gif") || str_eq(s, "svg")
                    || str_eq(s, "webp") || str_eq(s, "ico") {
                    AssetType::Image
                } else if str_eq(s, "mp4") || str_eq(s, "webm") || str_eq(s, "ogg") {
                    AssetType::Video
                } else if str_eq(s, "mp3") || str_eq(s, "wav") {
                    AssetType::Audio
                } else if str_eq(s, "pdf") || str_eq(s, "doc") || str_eq(s, "docx") {
                    AssetType::Document
                } else {
                    AssetType::Other(l)
                }
            },
        }
    }

    /// Records `path` as a reference of the given kind, with the file it
    /// leads to, if it names an asset.
    pub fn extract_asset<F: Fn(&String) -> bool>(&mut self, path: &str, reference_type: ReferenceType, file_exists: &F)
        requires
            forall|s: &String| #[trigger] file_exists.requires((s,)),
        ensures
            is_asset(path@) ==> {
                &&& final(self).found().len() == old(self).found().len() + 1
                &&& final(self).found().take(old(self).found().len() as int) == old(self).found()
                &&& final(self).found().last().original_path@ == path@
                &&& old(self).resolves_to(path@, *file_exists, final(self).found().last().resolved_path@)
                &&& type_of_extension(path_extension(path@), final(self).found().last().asset_type)
                &&& final(self).found().last().reference_type == reference_type
            },
            !is_asset(path@) ==> final(self).found() == old(self).found(),
            final(self).mappings() == old(self).mappings(),
            final(self).current_file() == old(self).current_file(),
            final(self).base_dir() == old(self).base_dir(),
            final(self).target_dir() == old(self).target_dir(),
    {
        if self.is_asset_path(path) {
            let resolved_path = self.resolve_path(path, file_exists);
            let asset_type = self.get_asset_type(path);
            self.assets.push(AssetReference { original_path: owned(path), resolved_path, asset_type, reference_type });
            assert(self.assets@.take(old(self).assets@.len() as int) =~= old(self).assets@);
        }
    }

    /// Rewrites a string literal that the mapping has an entry for.
    pub fn update_string_literal(&self, lit: &mut String)
        ensures
            self.mappings().dom().contains(old(lit)@) ==> final(lit)@ == self.mappings()[old(lit)@],
            !self.mappings().dom().contains(old(lit)@) ==> *final(lit) == *old(lit),
            final(lit)@ == rewritten(self.mappings(), old(lit)@),
    {
        match self.path_mappings.get(lit.as_str()) {
            Some(new_path) => {
                *lit = new_path.clone();
            },
            None => {},
        }
    }

    /// Visits the source of an import declaration: it is recorded as a
    /// reference and rewritten by the mapping.
    pub fn visit_import_source<F: Fn(&String) -> bool>(&mut self, src: &mut String, file_exists: &F)
        requires
            forall|s: &String| #[trigger] file_exists.requires((s,)),
        ensures
            is_asset(old(src)@) ==> final(self).found().len() == old(self).found().len() + 1
                && final(self).found().last().reference_type == ReferenceType::ImportStatement
                && final(self).found().last().original_path@ == old(src)@,
            !is_asset(old(src)@) ==> final(self).found() == old(self).found(),
            final(self).mappings() == old(self).mappings(),
            old(self).mappings().dom().contains(old(src)@) ==> final(src)@ == old(self).mappings()[old(src)@],
            !old(self).mappings().dom().contains(old(src)@) ==> *final(src) == *old(src),
    {
        let path = src.clone();
        self.extract_asset(path.as_str(), ReferenceType::ImportStatement, file_exists);
        self.update_string_literal(src);
    }

    /// Visits a JSX attribute whose value is a string literal (`Some`) or
    /// anything else (`None`): under a name that commonly holds an asset, the
    /// literal is recorded as a reference and rewritten by the mapping.
    pub fn visit_jsx_attr<F: Fn(&String) -> bool>(&mut self, name: &str, value: &mut Option<String>, file_exists: &F)
        requires
            forall|s: &String| #[trigger] file_exists.requires((s,)),
        ensures
            (asset_attribute(name@) && (*old(value)) is Some) ==> {
                let v = (*old(value)).unwrap()@;
                &&& is_asset(v) ==> final(self).found().len() == old(self).found().len() + 1
                    && final(self).found().last().reference_type == ReferenceType::JsxAttribute
                    && final(self).found().last().original_path@ == v
                &&& !is_asset(v) ==> final(self).found() == old(self).found()
                &&& (*final(value)) is Some
                &&& old(self).mappings().dom().contains(v) ==> (*final(value)).unwrap()@ == old(self).mappings()[v]
                &&& !old(self).mappings().dom().contains(v) ==> *final(value) == *old(value)
            },
            !(asset_attribute(name@) && (*old(value)) is Some) ==> final(self).found() == old(self).found()
                && *final(value) == *old(value),
            final(self).mappings() == old(self).mappings(),
    {
        if is_asset_attribute(name) {
            match value {
                Some(v) => {
                    let path = v.clone();
                    self.extract_asset(path.as_str(), ReferenceType::JsxAttribute, file_exists);
                    self.update_string_literal(v);
                },
                None => {},
            }
        }
    }

    /// Visits a string literal: an asset path is recorded; the literal is
    /// rewritten by the mapping.
    pub fn visit_str<F: Fn(&String) -> bool>(&mut self, value: &mut String, file_exists: &F)
        requires
            forall|s: &String| #[trigger] file_exists.requires((s,)),
        ensures
            is_asset(old(value)@) ==> final(self).found().len() == old(self).found().len() + 1
                && final(self).found().last().reference_type == ReferenceType::StringLiteral
                && final(self).found().last().original_path@ == old(value)@,
            !is_asset(old(value)@) ==> final(self).found() == old(self).found(),
            final(self).mappings() == old(self).mappings(),
            old(self).mappings().dom().contains(old(value)@) ==> final(value)@ == old(self).mappings()[old(value)@],
            !old(self).mappings().dom().contains(old(value)@) ==> *final(value) == *old(value),
    {
        let path = value.clone();
        if self.is_asset_path(path.as_str()) {
            self.extract_asset(path.as_str(), ReferenceType::StringLiteral, file_exists);
        }
        self.update_string_literal(value);
    }

    /// Visits a part of a template literal: an asset path is recorded and
    /// rewritten by the mapping; other parts are left alone.
    pub fn visit_tpl_quasi<F: Fn(&String) -> bool>(&mut self, raw: &mut String, file_exists: &F)
        requires
            forall|s: &String| #[trigger] file_exists.requires((s,)),
        ensures
            is_asset(old(raw)@) ==> final(self).found().len() == old(self).found().len() + 1
                && final(self).found().last().reference_type == ReferenceType::StringLiteral
                && final(self).found().last().original_path@ == old(raw)@
                && (old(self).mappings().dom().contains(old(raw)@) ==> final(raw)@ == old(self).mappings()[old(raw)@])
                && (!old(self).mappings().dom().contains(old(raw)@) ==> *final(raw) == *old(raw)),
            !is_asset(old(raw)@) ==> final(self).found() == old(self).found() && *final(raw) == *old(raw),
            final(self).mappings() == old(self).mappings(),
    {
        let path = raw.clone();
        if self.is_asset_path(path.as_str()) {
            self.extract_asset(path.as_str(), ReferenceType::StringLiteral, file_exists);
            self.update_string_literal(raw);
        }
    }
}

/// Whether an attribute commonly holds an asset path.
pub open spec fn asset_attribute(name: Seq<char>) -> bool {
    ||| name == "src"@ ||| name == "href"@ ||| name == "poster"@ ||| name == "srcset"@ ||| name == "content"@
    ||| name == "data-bg-image"@ ||| name == "data-icon"@ ||| name == "data-image"@ ||| name == "data-video"@
    ||| name == "data-audio"@ ||| name == "data-background"@ ||| name == "data-poster"@
    ||| name == "backgroundImage"@ ||| name == "background"@ ||| name == "icon"@ ||| name == "image"@
    ||| name == "url"@ ||| name == "path"@ ||| name == "file"@ ||| name == "media"@
}

/// Whether an attribute commonly holds an asset path.
pub fn is_asset_attribute(name: &str) -> (r: bool)
    ensures
        r == asset_attribute(name@),
{
    str_eq(name, "src") || str_eq(name, "href") || str_eq(name, "poster") || str_eq(name, "srcset")
        || str_eq(name, "content") || str_eq(name, "data-bg-image") || str_eq(name, "data-icon")
        || str_eq(name, "data-image") || str_eq(name, "data-video") || str_eq(name, "data-audio")
        || str_eq(name, "data-background") || str_eq(name, "data-poster") || str_eq(name, "backgroundImage")
        || str_eq(name, "background") || str_eq(name, "icon") || str_eq(name, "image") || str_eq(name, "url")
        || str_eq(name, "path") || str_eq(name, "file") || str_eq(name, "media")
}

impl AssetReference {
    /// Where the asset goes in `target_dir`: under its file name, or as
    /// `unknown_asset` where its path has none.
    pub fn generate_target_path(&self, target_dir: &str) -> (r: String)
        ensures
            r@ == match path_file_name(self.resolved_path@) {
                Some(f) => j(target_dir@, f),
                None => j(target_dir@, "unknown_asset"@),
            },
    {
        match file_name_of(self.resolved_path.as_str()) {
            Some(f) => join(target_dir, f.as_str()),
            None => join(target_dir, "unknown_asset"),
        }
    }
}

} // verus!
