//! The assets an HTML document refers to, and which files count as assets.

use vstd::prelude::*;
use crate::html::find_attr;
use crate::paths::{joined_path, join_path, parent_path, path_parent};
use crate::text::{cat2, owned, str_eq, str_starts_with, starts_with};

verus! {

/// The named result of `str::to_lowercase`: the Unicode lowercase mapping of
/// the text, character by character but for the final sigma, which depends
/// on its neighbours.
pub uninterp spec fn lowercase(s: Seq<char>) -> Seq<char>;

/// `str::to_lowercase`; its result is `lowercase(s)`, whose Unicode tables
/// are not restated here.
#[verifier::external_body]
pub(crate) fn to_lowercase(s: &str) -> (r: String)
    ensures
        r@ == lowercase(s@),
        (forall|i: int| 0 <= i < s@.len() ==> (s@[i] as u32) < 128) ==> r@ == s@.map_values(|c: char|
            if 'A' <= c && c <= 'Z' { ((c as u32) + 32) as char } else { c }),
{
    s.to_lowercase()
}

/// The directory of a file: its parent, or the empty path where it has none.
pub open spec fn parent_dir(p: Seq<char>) -> Seq<char> {
    match path_parent(p) {
        Some(d) => d,
        None => seq![],
    }
}

/// A reference to an asset: the path as written, the element and attribute
/// it is written in.
pub type AssetRef = (Seq<char>, Seq<char>, Seq<char>);

/// The references made by the attributes named `a` or `b`, in order.
pub open spec fn refs_named(attrs: Seq<(String, String)>, a: Seq<char>, b: Seq<char>, element: Seq<char>) -> Seq<AssetRef>
    decreases attrs.len(),
{
    if attrs.len() == 0 {
        seq![]
    } else {
        let rest = refs_named(attrs.drop_last(), a, b, element);
        let last = attrs.last();
        if last.0@ == a || last.0@ == b {
            rest.push((last.1@, element, last.0@))
        } else {
            rest
        }
    }
}

/// The reference made by the first attribute named `attr`, if any.
pub open spec fn first_ref(attrs: Seq<(String, String)>, attr: Seq<char>, element: Seq<char>) -> Seq<AssetRef> {
    match crate::html::attr_value(attrs, attr) {
        Some(v) => seq![(v, element, attr)],
        None => seq![],
    }
}

/// Whether some `rel` attribute is `stylesheet`, in any case.
pub open spec fn is_stylesheet_link(attrs: Seq<(String, String)>) -> bool {
    exists|i: int| 0 <= i < attrs.len() && attrs[i].0@ == "rel"@ && lowercase(#[trigger] attrs[i].1@) == "stylesheet"@
}

/// The asset references of an element with the given tag and attributes.
pub open spec fn asset_refs(tag: Seq<char>, attrs: Seq<(String, String)>) -> Seq<AssetRef> {
    if tag == "img"@ {
        refs_named(attrs, "src"@, "srcset"@, "img"@)
    } else if tag == "link"@ {
        if is_stylesheet_link(attrs) {
            first_ref(attrs, "href"@, "link"@)
        } else {
            seq![]
        }
    } else if tag == "script"@ {
        first_ref(attrs, "src"@, "script"@)
    } else if tag == "video"@ || tag == "audio"@ {
        refs_named(attrs, "src"@, "poster"@, tag)
    } else if tag == "source"@ {
        refs_named(attrs, "src"@, "srcset"@, "source"@)
    } else if tag == "object"@ {
        first_ref(attrs, "data"@, "object"@)
    } else if tag == "embed"@ || tag == "track"@ || tag == "iframe"@ {
        first_ref(attrs, "src"@, tag)
    } else {
        seq![]
    }
}

/// Every attribute named `a` or `b` gives a reference in `refs_named`, and
/// every reference there comes from such an attribute.
proof fn lemma_refs_named(attrs: Seq<(String, String)>, a: Seq<char>, b: Seq<char>, element: Seq<char>)
    ensures
        forall|i: int| 0 <= i < attrs.len() && (attrs[i].0@ == a || attrs[i].0@ == b) ==> #[trigger] refs_named(attrs,
            a, b, element).contains((attrs[i].1@, element, attrs[i].0@)),
        forall|k: int| 0 <= k < refs_named(attrs, a, b, element).len() ==> {
            let r = #[trigger] refs_named(attrs, a, b, element)[k];
            r.1 == element && (r.2 == a || r.2 == b)
        },
    decreases attrs.len(),
{
    if attrs.len() > 0 {
        let rest = attrs.drop_last();
        lemma_refs_named(rest, a, b, element);
        let rr = refs_named(rest, a, b, element);
        let all = refs_named(attrs, a, b, element);
        assert forall|i: int| 0 <= i < attrs.len() && (attrs[i].0@ == a || attrs[i].0@ == b) implies #[trigger] all.contains(
            (attrs[i].1@, element, attrs[i].0@)) by {
            if i < attrs.len() - 1 {
                assert(rest[i] == attrs[i]);
                assert(rr.contains((rest[i].1@, element, rest[i].0@)));
                let j = choose|j: int| 0 <= j < rr.len() && rr[j] == (rest[i].1@, element, rest[i].0@);
                assert(all[j] == rr[j]);
            } else {
                assert(all[all.len() - 1] == (attrs[i].1@, element, attrs[i].0@));
            }
        }
    }
}

/// The references an element makes: a `script`, `embed`, `track` or
/// `iframe` one reference for its first `src`, an `object` one for its first
/// `data`, a stylesheet `link` one for its first `href`, each as the value,
/// the element and the attribute; an `img` or `source` one for each `src`
/// and `srcset`, a `video` or `audio` one for each `src` and `poster`, each
/// from such an attribute and naming the element; any other element none.
pub proof fn law_element_asset_refs(tag: Seq<char>, attrs: Seq<(String, String)>)
    ensures
        tag == "script"@ || tag == "embed"@ || tag == "track"@ || tag == "iframe"@ ==> asset_refs(tag, attrs)
            == match crate::html::attr_value(attrs, "src"@) {
            Some(v) => seq![(v, tag, "src"@)],
            None => Seq::<AssetRef>::empty(),
        },
        tag == "object"@ ==> asset_refs(tag, attrs) == match crate::html::attr_value(attrs, "data"@) {
            Some(v) => seq![(v, tag, "data"@)],
            None => Seq::<AssetRef>::empty(),
        },
        tag == "link"@ ==> asset_refs(tag, attrs) == if is_stylesheet_link(attrs) {
            match crate::html::attr_value(attrs, "href"@) {
                Some(v) => seq![(v, tag, "href"@)],
                None => Seq::<AssetRef>::empty(),
            }
        } else {
            Seq::<AssetRef>::empty()
        },
        ({
            let (a, b) = if tag == "video"@ || tag == "audio"@ { ("src"@, "poster"@) } else { ("src"@, "srcset"@) };
            tag == "img"@ || tag == "source"@ || tag == "video"@ || tag == "audio"@ ==> {
                &&& forall|i: int| 0 <= i < attrs.len() && (attrs[i].0@ == a || attrs[i].0@ == b) ==> #[trigger] asset_refs(
                    tag, attrs).contains((attrs[i].1@, tag, attrs[i].0@))
                &&& forall|k: int| 0 <= k < asset_refs(tag, attrs).len() ==> {
                    let r = #[trigger] asset_refs(tag, attrs)[k];
                    r.1 == tag && (r.2 == a || r.2 == b)
                }
            }
        }),
        !(tag == "img"@ || tag == "link"@ || tag == "script"@ || tag == "video"@ || tag == "audio"@ || tag == "source"@
            || tag == "object"@ || tag == "embed"@ || tag == "track"@ || tag == "iframe"@) ==> asset_refs(tag, attrs).len()
            == 0,
{
    reveal_strlit("img");
    reveal_strlit("link");
    reveal_strlit("script");
    reveal_strlit("video");
    reveal_strlit("audio");
    reveal_strlit("source");
    reveal_strlit("object");
    reveal_strlit("embed");
    reveal_strlit("track");
    reveal_strlit("iframe");
    assert("img"@.len() == 3 && "link"@.len() == 4 && "script"@.len() == 6 && "video"@.len() == 5
        && "audio"@.len() == 5 && "source"@.len() == 6 && "object"@.len() == 6 && "embed"@.len() == 5
        && "track"@.len() == 5 && "iframe"@.len() == 6);
    assert("script"@[0] == 's' && "source"@[0] == 's' && "script"@[1] == 'c' && "source"@[1] == 'o'
        && "object"@[0] == 'o' && "iframe"@[0] == 'i' && "video"@[0] == 'v' && "audio"@[0] == 'a'
        && "embed"@[0] == 'e' && "track"@[0] == 't');
    if tag == "img"@ || tag == "source"@ {
        lemma_refs_named(attrs, "src"@, "srcset"@, tag);
    }
    if tag == "video"@ || tag == "audio"@ {
        lemma_refs_named(attrs, "src"@, "poster"@, tag);
    }
}

/// `path` without a leading `./`.
pub open spec fn without_dot_slash(path: Seq<char>) -> Seq<char> {
    if starts_with(path, "./"@) {
        path.skip(2)
    } else {
        path
    }
}

/// Where an asset path leads from a document in `dir`: an absolute path
/// stands for itself; a relative one, without a leading `./`, is taken from
/// `dir`.
pub open spec fn asset_file(path: Seq<char>, dir: Seq<char>) -> Seq<char> {
    if starts_with(path, "/"@) {
        path
    } else {
        joined_path(Some(dir), without_dot_slash(path))
    }
}

/// An asset referred to by a document.
#[derive(Debug, Clone)]
pub struct Asset {
    /// The path as written.
    pub path: String,
    /// The element that refers to it.
    pub element: String,
    /// The attribute that refers to it.
    pub attribute: String,
    /// The file it leads to.
    pub file: String,
}

/// The description of an asset reference.
pub open spec fn asset_description(a: Asset) -> Seq<char> {
    "Asset reference:\n  \u{2192} '"@ + a.path@ + "'\n\nReferenced in:\n  \u{2192} <"@ + a.element@ + "> "@
        + a.attribute@ + " attribute\n  \u{2192} at "@ + a.file@ + "\n"@
}

impl Asset {
    /// The asset at `path`, written in `element`'s `attribute`, in a
    /// document in `dir`.
    pub fn extract(path: &str, dir: &str, element: &str, attribute: &str) -> (r: Asset)
        ensures
            r.path@ == path@,
            r.element@ == element@,
            r.attribute@ == attribute@,
            r.file@ == asset_file(path@, dir@),
    {
        let file = if str_starts_with(path, "/") {
            owned(path)
        } else {
            let rel = if str_starts_with(path, "./") {
                proof {
                    reveal_strlit("./");
                }
                path.substring_char(2, path.unicode_len())
            } else {
                path
            };
            assert(rel@ == without_dot_slash(path@)) by {
                reveal_strlit("./");
            }
            join_path(&Some(owned(dir)), rel)
        };
        Asset { path: owned(path), element: owned(element), attribute: owned(attribute), file }
    }

    /// The asset with the file it leads to replaced, as by its canonical
    /// path.
    pub fn with_file(self, file: String) -> (r: Asset)
        ensures
            r.path == self.path,
            r.element == self.element,
            r.attribute == self.attribute,
            r.file == file,
    {
        Asset { path: self.path, element: self.element, attribute: self.attribute, file }
    }

    /// The description of the reference, as it is displayed.
    pub fn describe(&self) -> (r: String)
        ensures
            r@ == asset_description(*self),
    {
        let mut r = owned("Asset reference:\n  \u{2192} '");
        r.append(self.path.as_str());
        r.append("'\n\nReferenced in:\n  \u{2192} <");
        r.append(self.element.as_str());
        r.append("> ");
        r.append(self.attribute.as_str());
        r.append(" attribute\n  \u{2192} at ");
        r.append(self.file.as_str());
        r.append("\n");
        r
    }
}

/// Collects the assets that the elements of a document refer to.
#[derive(Debug)]
pub struct AssetVisitor {
    current_dir: String,
    assets: Vec<Asset>,
}

/// The views of the references of a list of assets.
pub open spec fn refs_of(assets: Seq<Asset>) -> Seq<AssetRef> {
    assets.map_values(|a: Asset| (a.path@, a.element@, a.attribute@))
}

impl AssetVisitor {
    /// A visitor for the document at `current_file`.
    pub fn new(current_file: &str) -> (r: AssetVisitor)
        ensures
            r.found().len() == 0,
            r.dir() == parent_dir(current_file@),
    {
        let current_dir = match parent_path(current_file) {
            Some(d) => d,
            None => String::new(),
        };
        AssetVisitor { current_dir, assets: Vec::new() }
    }

    /// The directory of the document.
    pub closed spec fn dir(&self) -> Seq<char> {
        self.current_dir@
    }

    /// The assets found so far, in order.
    pub closed spec fn found(&self) -> Seq<Asset> {
        self.assets@
    }

    /// The assets found so far, in order.
    pub fn assets(&self) -> (r: &Vec<Asset>)
        ensures
            r@ == self.found(),
    {
        &self.assets
    }

    fn extract(&mut self, path: &str, element: &str, attribute: &str)
        ensures
            final(self).found() == old(self).found().push(final(self).found().last()),
            final(self).found().last().path@ == path@,
            final(self).found().last().element@ == element@,
            final(self).found().last().attribute@ == attribute@,
            final(self).found().last().file@ == asset_file(path@, old(self).dir()),
            final(self).dir() == old(self).dir(),
    {
        let a = Asset::extract(path, self.current_dir.as_str(), element, attribute);
        self.assets.push(a);
    }

    fn extract_named(&mut self, attrs: &Vec<(String, String)>, a: &str, b: &str, element: &str)
        ensures
            refs_of(final(self).found()) == refs_of(old(self).found()) + refs_named(attrs@, a@, b@, element@),
            final(self).found().take(old(self).found().len() as int) == old(self).found(),
            forall|k: int| old(self).found().len() <= k < final(self).found().len()
                ==> (#[trigger] final(self).found()[k]).file@ == asset_file(final(self).found()[k].path@, old(self).dir()),
            final(self).dir() == old(self).dir(),
    {
        let mut i: usize = 0;
        while i < attrs.len()
            invariant
                i <= attrs.len(),
                refs_of(self.found()) == refs_of(old(self).found()) + refs_named(attrs@.take(i as int), a@, b@, element@),
                self.found().take(old(self).found().len() as int) == old(self).found(),
                forall|k: int| old(self).found().len() <= k < self.found().len()
                    ==> (#[trigger] self.found()[k]).file@ == asset_file(self.found()[k].path@, old(self).dir()),
                self.dir() == old(self).dir(),
            decreases attrs.len() - i,
        {
            assert(attrs@.take(i + 1).drop_last() == attrs@.take(i as int));
            let name = attrs[i].0.as_str();
            if str_eq(name, a) || str_eq(name, b) {
                let ghost before = self.found();
                self.extract(attrs[i].1.as_str(), element, name);
                assert(refs_of(self.found()) =~= refs_of(before).push((attrs@[i as int].1@, element@, attrs@[i as int].0@)));
                assert(self.found().take(old(self).found().len() as int) =~= old(self).found());
            }
            i += 1;
        }
        assert(attrs@.take(attrs.len() as int) == attrs@);
    }

    fn extract_first(&mut self, attrs: &Vec<(String, String)>, attr: &str, element: &str)
        ensures
            refs_of(final(self).found()) == refs_of(old(self).found()) + first_ref(attrs@, attr@, element@),
            final(self).found().take(old(self).found().len() as int) == old(self).found(),
            forall|k: int| old(self).found().len() <= k < final(self).found().len()
                ==> (#[trigger] final(self).found()[k]).file@ == asset_file(final(self).found()[k].path@, old(self).dir()),
            final(self).dir() == old(self).dir(),
    {
        match find_attr(attrs, attr) {
            Some(i) => {
                let ghost before = self.found();
                self.extract(attrs[i].1.as_str(), element, attr);
                assert(refs_of(self.found()) =~= refs_of(before) + first_ref(attrs@, attr@, element@));
                assert(self.found().take(old(self).found().len() as int) =~= old(self).found());
            },
            None => {
                assert(refs_of(self.found()) =~= refs_of(old(self).found()) + first_ref(attrs@, attr@, element@));
                assert(self.found().take(old(self).found().len() as int) =~= old(self).found());
            },
        }
    }

    fn has_stylesheet_rel(attrs: &Vec<(String, String)>) -> (r: bool)
        ensures
            r == is_stylesheet_link(attrs@),
    {
        let mut i: usize = 0;
        while i < attrs.len()
            invariant
                i <= attrs.len(),
                forall|j: int| 0 <= j < i ==> !(attrs@[j].0@ == "rel"@ && lowercase(#[trigger] attrs@[j].1@) == "stylesheet"@),
            decreases attrs.len() - i,
        {
            if str_eq(attrs[i].0.as_str(), "rel") {
                let low = to_lowercase(attrs[i].1.as_str());
                if str_eq(low.as_str(), "stylesheet") {
                    assert(attrs@[i as int].0@ == "rel"@ && lowercase(attrs@[i as int].1@) == "stylesheet"@);
                    return true;
                }
            }
            i += 1;
        }
        false
    }

    /// Visits an element: each asset reference it makes is added, in the
    /// order of its attributes, with the file it leads to from the
    /// document's directory. Traversal goes on.
    pub fn visit_element(&mut self, tag: &str, attrs: &Vec<(String, String)>) -> (r: bool)
        ensures
            r,
            refs_of(final(self).found()) == refs_of(old(self).found()) + asset_refs(tag@, attrs@),
            final(self).found().take(old(self).found().len() as int) == old(self).found(),
            forall|k: int| old(self).found().len() <= k < final(self).found().len()
                ==> (#[trigger] final(self).found()[k]).file@ == asset_file(final(self).found()[k].path@, old(self).dir()),
            final(self).dir() == old(self).dir(),
    {
        if str_eq(tag, "img") {
            self.extract_named(attrs, "src", "srcset", "img");
        } else if str_eq(tag, "link") {
            if Self::has_stylesheet_rel(attrs) {
                self.extract_first(attrs, "href", "link");
            } else {
                assert(refs_of(self.found()) =~= refs_of(old(self).found()) + asset_refs(tag@, attrs@));
                assert(self.found().take(old(self).found().len() as int) =~= old(self).found());
            }
        } else if str_eq(tag, "script") {
            self.extract_first(attrs, "src", "script");
        } else if str_eq(tag, "video") || str_eq(tag, "audio") {
            self.extract_named(attrs, "src", "poster", tag);
        } else if str_eq(tag, "source") {
            self.extract_named(attrs, "src", "srcset", "source");
        } else if str_eq(tag, "object") {
            self.extract_first(attrs, "data", "object");
        } else if str_eq(tag, "embed") || str_eq(tag, "track") || str_eq(tag, "iframe") {
            self.extract_first(attrs, "src", tag);
        } else {
            assert(refs_of(self.found()) =~= refs_of(old(self).found()) + asset_refs(tag@, attrs@));
            assert(self.found().take(old(self).found().len() as int) =~= old(self).found());
        }
        true
    }
}

/// Whether a directory is left out of the search for unused assets.
pub open spec fn skipped_dir(name: Seq<char>) -> bool {
    name == "node_modules"@ || name == "target"@ || name == ".git"@
}

/// The file extensions that count as assets, in lowercase.
pub open spec fn asset_extension(ext: Seq<char>) -> bool {
    ||| ext == "png"@ ||| ext == "jpg"@ ||| ext == "jpeg"@ ||| ext == "gif"@ ||| ext == "svg"@
    ||| ext == "webp"@ ||| ext == "mp3"@ ||| ext == "wav"@ ||| ext == "ogg"@ ||| ext == "mp4"@
    ||| ext == "webm"@ ||| ext == "ogv"@ ||| ext == "pdf"@ ||| ext == "doc"@ ||| ext == "docx"@
}

/// Whether a directory with this name is left out of the search.
pub fn is_skipped_dir(name: &str) -> (r: bool)
    ensures
        r == skipped_dir(name@),
{
    str_eq(name, "node_modules") || str_eq(name, "target") || str_eq(name, ".git")
}

/// Whether a file with this extension is an asset, in any case.
pub fn is_asset_extension(ext: &str) -> (r: bool)
    ensures
        r == asset_extension(lowercase(ext@)),
{
    let e = to_lowercase(ext);
    let e = e.as_str();
    str_eq(e, "png") || str_eq(e, "jpg") || str_eq(e, "jpeg") || str_eq(e, "gif") || str_eq(e, "svg")
        || str_eq(e, "webp") || str_eq(e, "mp3") || str_eq(e, "wav") || str_eq(e, "ogg") || str_eq(e, "mp4")
        || str_eq(e, "webm") || str_eq(e, "ogv") || str_eq(e, "pdf") || str_eq(e, "doc") || str_eq(e, "docx")
}


/// The paths among `candidates` that are not in `used`, in order.
pub open spec fn unused_paths(candidates: Seq<Seq<char>>, used: Seq<Seq<char>>) -> Seq<Seq<char>>
    decreases candidates.len(),
{
    if candidates.len() == 0 {
        Seq::empty()
    } else {
        let rest = unused_paths(candidates.drop_last(), used);
        if used.contains(candidates.last()) {
            rest
        } else {
            rest.push(candidates.last())
        }
    }
}

/// The canonical paths of the asset files that documents use, each once.
#[derive(Debug)]
pub struct UsedAssets {
    paths: Vec<String>,
}

impl UsedAssets {
    /// No path occurs twice.
    #[verifier::type_invariant]
    closed spec fn distinct(&self) -> bool {
        forall|a: int, b: int| 0 <= a < b < self.paths@.len() ==> self.paths@[a]@ != self.paths@[b]@
    }

    /// The used paths, in the order they were first registered.
    pub closed spec fn used(&self) -> Seq<Seq<char>> {
        self.paths@.map_values(|p: String| p@)
    }

    /// No path is used yet.
    pub fn new() -> (r: UsedAssets)
        ensures
            r.used().len() == 0,
    {
        UsedAssets { paths: Vec::new() }
    }

    /// Whether `path` is used.
    pub fn is_used(&self, path: &str) -> (r: bool)
        ensures
            r == self.used().contains(path@),
    {
        let mut i: usize = 0;
        while i < self.paths.len()
            invariant
                i <= self.paths@.len(),
                forall|k: int| 0 <= k < i ==> self.paths@[k]@ != path@,
            decreases self.paths@.len() - i,
        {
            if str_eq(self.paths[i].as_str(), path) {
                assert(self.used()[i as int] == path@);
                return true;
            }
            i += 1;
        }
        proof {
            if self.used().contains(path@) {
                let k = choose|k: int| 0 <= k < self.used().len() && self.used()[k] == path@;
                assert(self.paths@[k]@ == path@);
            }
        }
        false
    }

    /// Marks `path` as used; a path already used stays where it is.
    pub fn register(&mut self, path: String)
        ensures
            old(self).used().contains(path@) ==> final(self).used() == old(self).used(),
            !old(self).used().contains(path@) ==> final(self).used() == old(self).used().push(path@),
            forall|a: int, b: int| 0 <= a < b < final(self).used().len() ==> final(self).used()[a] != final(self).used()[b],
    {
        proof { use_type_invariant(&*self); }
        if !self.is_used(path.as_str()) {
            let ghost before = self.used();
            let ghost p = path@;
            let mut paths: Vec<String> = Vec::new();
            std::mem::swap(&mut paths, &mut self.paths);
            paths.push(path);
            proof {
                assert forall|a: int, b: int| 0 <= a < b < paths@.len() implies paths@[a]@ != paths@[b]@ by {
                    if b == paths@.len() - 1 {
                        assert(before[a] == paths@[a]@);
                    }
                }
            }
            self.paths = paths;
            assert(self.used() =~= before.push(p));
        }
        proof {
            use_type_invariant(&*self);
            assert forall|a: int, b: int| 0 <= a < b < self.used().len() implies self.used()[a] != self.used()[b] by {
                assert(self.used()[a] == self.paths@[a]@);
                assert(self.used()[b] == self.paths@[b]@);
            }
        }
    }

    /// The used paths, in the order they were first registered.
    pub fn paths(&self) -> (r: &Vec<String>)
        ensures
            r@.map_values(|p: String| p@) == self.used(),
    {
        &self.paths
    }

    /// The paths among `candidates` that are not used, in order.
    pub fn unused(&self, candidates: &Vec<String>) -> (r: Vec<String>)
        ensures
            r@.map_values(|p: String| p@) == unused_paths(candidates@.map_values(|p: String| p@), self.used()),
    {
        let ghost cands = candidates@.map_values(|p: String| p@);
        let mut out: Vec<String> = Vec::new();
        let mut i: usize = 0;
        while i < candidates.len()
            invariant
                i <= candidates@.len(),
                cands == candidates@.map_values(|p: String| p@),
                out@.map_values(|p: String| p@) == unused_paths(cands.take(i as int), self.used()),
            decreases candidates@.len() - i,
        {
            let ghost before = out@.map_values(|p: String| p@);
            assert(cands.take(i + 1).drop_last() == cands.take(i as int));
            if !self.is_used(candidates[i].as_str()) {
                out.push(candidates[i].clone());
                assert(out@.map_values(|p: String| p@) =~= before.push(cands[i as int]));
            }
            i += 1;
        }
        assert(cands.take(candidates@.len() as int) == cands);
        out
    }
}

} // verus!
