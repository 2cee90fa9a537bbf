//! Moving inline SVG out of an HTML document: each `svg` element is kept
//! aside under a fresh id and replaced by an element that loads it.

use vstd::prelude::*;
use crate::html::HtmlNode;
use crate::ids::{new_uuid, lemma_hyphenated_len};
use crate::paths::{joined_path, join_path};
use crate::text::{cat2, owned, str_eq};

verus! {

/// How an extracted SVG is loaded back.
#[derive(Clone, Copy, Debug, PartialEq, Eq, Structural)]
pub enum SvgImportType {
    /// An `object` element: best for interactive SVGs.
    Object,
    /// An `img` element: the simplest, treats the SVG as an image.
    Img,
    /// An `embed` element: like `object`, but older.
    Embed,
}

/// The lowercase name of an import type.
pub open spec fn import_type_name(t: SvgImportType) -> Seq<char> {
    match t {
        SvgImportType::Object => "object"@,
        SvgImportType::Img => "img"@,
        SvgImportType::Embed => "embed"@,
    }
}

impl SvgImportType {
    /// The lowercase name of the import type, as it is displayed.
    pub fn as_str(&self) -> (r: &'static str)
        ensures
            r@ == import_type_name(*self),
    {
        match self {
            SvgImportType::Object => "object",
            SvgImportType::Img => "img",
            SvgImportType::Embed => "embed",
        }
    }

    /// The import type whose lowercase name is `s`, exactly.
    pub fn parse(s: &str) -> (r: Option<SvgImportType>)
        ensures
            match r {
                Some(t) => import_type_name(t) == s@,
                None => forall|t: SvgImportType| import_type_name(t) != s@,
            },
    {
        if str_eq(s, "object") {
            Some(SvgImportType::Object)
        } else if str_eq(s, "img") {
            Some(SvgImportType::Img)
        } else if str_eq(s, "embed") {
            Some(SvgImportType::Embed)
        } else {
            None
        }
    }
}

/// The text of the attributes of an opening tag: ` name="value"` each.
pub open spec fn attrs_text(attrs: Seq<(String, String)>) -> Seq<char>
    decreases attrs.len(),
{
    if attrs.len() == 0 {
        seq![]
    } else {
        attrs_text(attrs.drop_last()) + " "@ + attrs.last().0@ + "=\""@ + attrs.last().1@ + "\""@
    }
}

/// The markup of an SVG element with the given attributes and inner HTML.
pub open spec fn svg_markup(attrs: Seq<(String, String)>, inner: Seq<char>) -> Seq<char> {
    "<svg"@ + attrs_text(attrs) + ">"@ + inner + "</svg>"@
}

/// The views of a list of attributes.
pub open spec fn attr_views(attrs: Seq<(String, String)>) -> Seq<(Seq<char>, Seq<char>)> {
    attrs.map_values(|a: (String, String)| (a.0@, a.1@))
}

/// The tag and attributes of the element that loads the SVG stored under
/// `id`, from `dir`.
pub open spec fn replacement_of(t: SvgImportType, id: Seq<char>, dir: Option<Seq<char>>) -> (
    Seq<char>,
    Seq<(Seq<char>, Seq<char>)>,
) {
    let file = id + ".svg"@;
    match t {
        SvgImportType::Object => (
            "object"@,
            seq![("data"@, joined_path(dir, file)), ("type"@, "image/svg+xml"@), ("id"@, id)],
        ),
        SvgImportType::Img => ("img"@, seq![("src"@, file), ("id"@, id)]),
        SvgImportType::Embed => (
            "embed"@,
            seq![("src"@, file), ("type"@, "image/svg+xml"@), ("id"@, id)],
        ),
    }
}

/// Whether `n` is an element without children with the given tag and
/// attributes.
pub open spec fn is_empty_element(n: HtmlNode, tag: Seq<char>, attrs: Seq<(Seq<char>, Seq<char>)>) -> bool {
    match n {
        HtmlNode::Element { name, attrs: a, children } => name@ == tag && attr_views(a@) == attrs
            && children@.len() == 0,
        HtmlNode::Text(_) => false,
    }
}

/// Extracts each `svg` element of a document.
#[derive(Debug)]
pub struct SvgExtractVisitor {
    svgs: Vec<(String, String)>,
    import_type: SvgImportType,
    asset_dir: Option<String>,
}

impl SvgExtractVisitor {
    /// A visitor that loads SVGs back with `import_type`, from `asset_dir`.
    pub fn new(import_type: SvgImportType, asset_dir: Option<String>) -> (r: SvgExtractVisitor)
        ensures
            r.extracted().len() == 0,
            r.import_type() == import_type,
            r.asset_dir() == match asset_dir {
                Some(d) => Some(d@),
                None => None,
            },
    {
        SvgExtractVisitor { svgs: Vec::new(), import_type, asset_dir }
    }

    /// The SVGs extracted so far, with their ids, in the order found.
    pub closed spec fn extracted(&self) -> Seq<(String, String)> {
        self.svgs@
    }

    /// How SVGs are loaded back.
    pub closed spec fn import_type(&self) -> SvgImportType {
        self.import_type
    }

    /// The directory SVGs are loaded from.
    pub closed spec fn asset_dir(&self) -> Option<Seq<char>> {
        match self.asset_dir {
            Some(d) => Some(d@),
            None => None,
        }
    }

    /// The SVGs extracted so far: id and markup.
    pub fn svgs(&self) -> (r: &Vec<(String, String)>)
        ensures
            r@ == self.extracted(),
    {
        &self.svgs
    }

    /// The element that loads the SVG stored under `id`.
    fn create_replacement_element(&self, id: &str) -> (r: HtmlNode)
        ensures
            is_empty_element(
                r,
                replacement_of(self.import_type(), id@, self.asset_dir()).0,
                replacement_of(self.import_type(), id@, self.asset_dir()).1,
            ),
    {
        proof {
            reveal_strlit(".svg");
        }
        let file = cat2(id, ".svg");
        let mut attrs: Vec<(String, String)> = Vec::new();
        let name = match self.import_type {
            SvgImportType::Object => {
                attrs.push((owned("data"), join_path(&self.asset_dir, file.as_str())));
                attrs.push((owned("type"), owned("image/svg+xml")));
                attrs.push((owned("id"), owned(id)));
                owned("object")
            },
            SvgImportType::Img => {
                attrs.push((owned("src"), file));
                attrs.push((owned("id"), owned(id)));
                owned("img")
            },
            SvgImportType::Embed => {
                attrs.push((owned("src"), file));
                attrs.push((owned("type"), owned("image/svg+xml")));
                attrs.push((owned("id"), owned(id)));
                owned("embed")
            },
        };
        let r = HtmlNode::Element { name, attrs, children: Vec::new() };
        assert(attr_views(attrs@) =~= replacement_of(self.import_type(), id@, self.asset_dir()).1);
        r
    }

    /// Visits an element. An `svg` element is stored, as its markup with its
    /// attributes and the given inner HTML, under a fresh id, and is replaced
    /// by the element that loads it; traversal goes on either way.
    pub fn visit_element(&mut self, name: &str, attrs: &Vec<(String, String)>, inner_html: &str) -> (r: (
        Option<HtmlNode>,
        bool,
    ))
        ensures
            r.1,
            name@ == "svg"@ ==> {
                &&& final(self).extracted().len() == old(self).extracted().len() + 1
                &&& final(self).extracted().take(old(self).extracted().len() as int) == old(self).extracted()
                &&& final(self).extracted().last().0@.len() == 36
                &&& final(self).extracted().last().1@ == svg_markup(attrs@, inner_html@)
                &&& r.0 matches Some(n) && is_empty_element(
                    n,
                    replacement_of(old(self).import_type(), final(self).extracted().last().0@, old(self).asset_dir()).0,
                    replacement_of(old(self).import_type(), final(self).extracted().last().0@, old(self).asset_dir()).1,
                )
            },
            name@ != "svg"@ ==> final(self).extracted() == old(self).extracted() && r.0 is None,
            final(self).import_type() == old(self).import_type(),
            final(self).asset_dir() == old(self).asset_dir(),
    {
        if !str_eq(name, "svg") {
            return (None, true);
        }
        let id = new_uuid();
        proof {
            lemma_hyphenated_len(id);
        }
        let mut content = owned("<svg");
        let mut i: usize = 0;
        while i < attrs.len()
            invariant
                i <= attrs.len(),
                content@ == "<svg"@ + attrs_text(attrs@.take(i as int)),
            decreases attrs.len() - i,
        {
            assert(attrs@.take(i + 1).drop_last() == attrs@.take(i as int));
            content.append(" ");
            content.append(attrs[i].0.as_str());
            content.append("=\"");
            content.append(attrs[i].1.as_str());
            content.append("\"");
            i += 1;
        }
        assert(attrs@.take(attrs.len() as int) == attrs@);
        content.append(">");
        content.append(inner_html);
        content.append("</svg>");
        let node = self.create_replacement_element(id.hyphenated.as_str());
        self.svgs.push((id.hyphenated, content));
        assert(self.svgs@.take(old(self).svgs@.len() as int) =~= old(self).svgs@);
        (Some(node), true)
    }
}

} // verus!
