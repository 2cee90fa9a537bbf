//! Text of HTML documents: sanitizing text, collecting it by element id, and
//! wrapping it in rich-text elements.

use vstd::prelude::*;
use crate::string_map::StringMap;
use crate::text::{
    chars_of, join, join_strings, owned, replace_all, split_chars, split_on, str_eq, str_replace, string_of, trim_ws,
    trim_ws_chars, vviews, views,
};

verus! {

/// The trimmed lines of a text that are not empty, in order.
pub open spec fn clean_lines(lines: Seq<Seq<char>>) -> Seq<Seq<char>>
    decreases lines.len(),
{
    if lines.len() == 0 {
        seq![]
    } else {
        let rest = clean_lines(lines.drop_last());
        if trim_ws(lines.last()).len() == 0 {
            rest
        } else {
            rest.push(trim_ws(lines.last()))
        }
    }
}

/// Sanitized text: the trimmed, non-empty lines joined by spaces, with
/// non-breaking spaces made plain and double spaces made single.
///
/// Lines end at `\n`; a `\r` before it is whitespace and goes with the trim,
/// as `str::lines` would drop it.
pub open spec fn sanitized_text(text: Seq<char>) -> Seq<char> {
    replace_all(
        replace_all(join(clean_lines(split_on(text, '\n')), " "@), "\u{00A0}"@, " "@),
        "  "@,
        " "@,
    )
}

/// Sanitizes text content: drops blank lines, trims the others, joins them by
/// spaces, and normalizes spaces.
pub fn sanitize_text(text: &str) -> (r: String)
    ensures
        r@ == sanitized_text(text@),
{
    let chars = chars_of(text);
    let lines = split_chars(&chars, '\n');
    let mut kept: Vec<String> = Vec::new();
    let mut i: usize = 0;
    while i < lines.len()
        invariant
            i <= lines.len(),
            views(kept@) == clean_lines(vviews(lines@).take(i as int)),
        decreases lines.len() - i,
    {
        let t = trim_ws_chars(&lines[i]);
        proof {
            assert(vviews(lines@).take(i + 1).drop_last() == vviews(lines@).take(i as int));
            assert(vviews(lines@).take(i + 1).last() == lines@[i as int]@);
        }
        if t.len() > 0 {
            let ghost before = views(kept@);
            kept.push(string_of(&t));
            assert(views(kept@) =~= before.push(t@));
        }
        i += 1;
    }
    assert(vviews(lines@).take(lines.len() as int) == vviews(lines@));
    let joined = join_strings(&kept, " ");
    proof {
        reveal_strlit("\u{00A0}");
        reveal_strlit("  ");
    }
    let a = str_replace(joined.as_str(), "\u{00A0}", " ");
    str_replace(a.as_str(), "  ", " ")
}

/// A node of an HTML tree, as the text visitors see it.
#[derive(Debug)]
pub enum HtmlNode {
    Text(String),
    Element { name: String, attrs: Vec<(String, String)>, children: Vec<HtmlNode> },
}

/// A text node with the given content.
pub fn create_text_node(content: &str) -> (r: HtmlNode)
    ensures
        r matches HtmlNode::Text(t) && t@ == content@,
{
    HtmlNode::Text(owned(content))
}

/// Whether `out` is `orig` with its text sanitized, where it is a text node.
pub open spec fn sanitized_from(orig: HtmlNode, out: HtmlNode) -> bool {
    match orig {
        HtmlNode::Text(t) => out matches HtmlNode::Text(s) && s@ == sanitized_text(t@),
        other => out == other,
    }
}

/// The children with the content of each text node sanitized; other nodes
/// are copied as they are.
pub fn sanitize_children(children: Vec<HtmlNode>) -> (r: Vec<HtmlNode>)
    ensures
        r@.len() == children@.len(),
        forall|i: int| 0 <= i < children@.len() ==> sanitized_from(children@[i], #[trigger] r@[i]),
{
    let ghost orig = children@;
    let mut rest = children;
    let mut out: Vec<HtmlNode> = Vec::new();
    while rest.len() > 0
        invariant
            out@.len() + rest@.len() == orig.len(),
            rest@ == orig.skip(out@.len() as int),
            forall|k: int| 0 <= k < out@.len() ==> sanitized_from(orig[k], #[trigger] out@[k]),
        decreases rest.len(),
    {
        let node = rest.remove(0);
        assert(node == orig[out@.len() as int]);
        assert(rest@ == orig.skip(out@.len() + 1int));
        let n = match node {
            HtmlNode::Text(t) => {
                let s = sanitize_text(t.as_str());
                HtmlNode::Text(s)
            },
            other => other,
        };
        out.push(n);
    }
    out
}

/// Collects the text inside elements that have an `id`, by that id.
#[derive(Debug)]
pub struct TextCollectorVisitor {
    text_map: StringMap,
    current_id: Option<String>,
}

/// The value of the first attribute named `id`.
pub open spec fn id_attr(attrs: Seq<(String, String)>) -> Option<Seq<char>>
    decreases attrs.len(),
{
    if attrs.len() == 0 {
        None
    } else if attrs[0].0@ == "id"@ {
        Some(attrs[0].1@)
    } else {
        id_attr(attrs.drop_first())
    }
}

impl TextCollectorVisitor {
    /// A visitor with no text collected.
    pub fn new() -> (r: TextCollectorVisitor)
        ensures
            r.collected() == Map::<Seq<char>, Seq<char>>::empty(),
            r.current_id() is None,
    {
        TextCollectorVisitor { text_map: StringMap::new(), current_id: None }
    }

    /// The text collected so far, by element id.
    pub fn text_map(&self) -> (r: &StringMap)
        ensures
            r@ == self.collected(),
    {
        &self.text_map
    }

    /// The id of the element whose text is being collected.
    pub closed spec fn current_id(&self) -> Option<Seq<char>> {
        match self.current_id {
            Some(s) => Some(s@),
            None => None,
        }
    }

    /// The collected text, by element id.
    pub closed spec fn collected(&self) -> Map<Seq<char>, Seq<char>> {
        self.text_map@
    }

    /// Visits an element with the given attributes (local name, value): its
    /// `id`, or none, becomes the id that text is collected under. Traversal
    /// goes on.
    pub fn visit_element(&mut self, attrs: &Vec<(String, String)>) -> (r: bool)
        ensures
            r,
            final(self).current_id() == id_attr(attrs@),
            final(self).collected() == old(self).collected(),
    {
        let mut i: usize = 0;
        assert(attrs@.skip(0) == attrs@);
        while i < attrs.len()
            invariant
                i <= attrs.len(),
                id_attr(attrs@) == id_attr(attrs@.skip(i as int)),
                self.collected() == old(self).collected(),
            decreases attrs.len() - i,
        {
            assert(attrs@.skip(i as int).drop_first() == attrs@.skip(i + 1));
            assert(attrs@.skip(i as int)[0] == attrs@[i as int]);
            if str_eq(attrs[i].0.as_str(), "id") {
                self.current_id = Some(attrs[i].1.clone());
                return true;
            }
            i += 1;
        }
        assert(attrs@.skip(i as int).len() == 0);
        self.current_id = None;
        true
    }

    /// Visits a text node: its content is added to the text of the current
    /// id, if there is one. Traversal goes on.
    pub fn visit_text(&mut self, contents: &str) -> (r: bool)
        ensures
            r,
            final(self).current_id() == old(self).current_id(),
            final(self).collected() == match old(self).current_id() {
                Some(id) => old(self).collected().insert(
                    id,
                    if old(self).collected().dom().contains(id) {
                        old(self).collected()[id] + contents@
                    } else {
                        contents@
                    },
                ),
                None => old(self).collected(),
            },
    {
        match &self.current_id {
            Some(id) => {
                let key = id.clone();
                let updated = match self.text_map.get(id.as_str()) {
                    Some(existing) => {
                        let mut t = existing.clone();
                        t.append(contents);
                        t
                    },
                    None => owned(contents),
                };
                self.text_map.insert(key, updated);
            },
            None => {},
        }
        true
    }
}

} // verus!

verus! {

/// The value of the first attribute named `name`.
pub open spec fn attr_value(attrs: Seq<(String, String)>, name: Seq<char>) -> Option<Seq<char>>
    decreases attrs.len(),
{
    if attrs.len() == 0 {
        None
    } else if attrs[0].0@ == name {
        Some(attrs[0].1@)
    } else {
        attr_value(attrs.drop_first(), name)
    }
}

/// The position of the first attribute named `name`.
pub fn find_attr(attrs: &Vec<(String, String)>, name: &str) -> (r: Option<usize>)
    ensures
        match r {
            Some(i) => i < attrs@.len() && attr_value(attrs@, name@) == Some(attrs@[i as int].1@)
                && attrs@[i as int].0@ == name@,
            None => attr_value(attrs@, name@) is None,
        },
{
    let mut i: usize = 0;
    assert(attrs@.skip(0) == attrs@);
    while i < attrs.len()
        invariant
            i <= attrs.len(),
            attr_value(attrs@, name@) == attr_value(attrs@.skip(i as int), name@),
        decreases attrs.len() - i,
    {
        assert(attrs@.skip(i as int).drop_first() == attrs@.skip(i + 1));
        assert(attrs@.skip(i as int)[0] == attrs@[i as int]);
        if str_eq(attrs[i].0.as_str(), name) {
            return Some(i);
        }
        i += 1;
    }
    None
}

} // verus!

verus! {

/// Whether `out` is `orig` with the text of each text node sanitized.
pub open spec fn sanitized_list(orig: Seq<HtmlNode>, out: Seq<HtmlNode>) -> bool {
    out.len() == orig.len() && forall|i: int| 0 <= i < orig.len() ==> sanitized_from(orig[i], #[trigger] out[i])
}

/// Whether `n` is a `rich-text` element whose only attribute is `id` and
/// whose children are `children`.
pub open spec fn is_rich_text(n: HtmlNode, id: Seq<char>, children: Seq<HtmlNode>) -> bool {
    match n {
        HtmlNode::Element { name, attrs, children: c } => {
            &&& name@ == "rich-text"@
            &&& attrs@.len() == 1
            &&& attrs@[0].0@ == "id"@
            &&& attrs@[0].1@ == id
            &&& c@ == children
        },
        HtmlNode::Text(_) => false,
    }
}

/// Whether `n` is an element named `tag` with attributes `attrs` whose only
/// child is a `rich-text` element with the given id, wrapping the children
/// `orig` sanitized.
pub open spec fn wraps_rich_text(n: HtmlNode, tag: Seq<char>, attrs: Seq<(String, String)>, id: Seq<char>, orig: Seq<HtmlNode>) -> bool {
    match n {
        HtmlNode::Element { name, attrs: a, children } => {
            &&& name@ == tag
            &&& a@ == attrs
            &&& children@.len() == 1
            &&& match children@[0] {
                HtmlNode::Element { children: inner, .. } => is_rich_text(children@[0], id, inner@) && sanitized_list(orig, inner@),
                HtmlNode::Text(_) => false,
            }
        },
        HtmlNode::Text(_) => false,
    }
}

/// Whether `n` is a `rich-text` element with the given id around one text
/// node with the given content.
pub open spec fn is_rich_text_around(n: HtmlNode, id: Seq<char>, content: Seq<char>) -> bool {
    match n {
        HtmlNode::Element { children, .. } => {
            &&& is_rich_text(n, id, children@)
            &&& children@.len() == 1
            &&& match children@[0] {
                HtmlNode::Text(t) => t@ == content,
                _ => false,
            }
        },
        HtmlNode::Text(_) => false,
    }
}

/// Whether `v` is what `render` may give for the first child of `n`.
pub open spec fn first_child_rendered<F: Fn(&HtmlNode) -> String>(n: HtmlNode, render: F, v: String) -> bool {
    match n {
        HtmlNode::Element { children, .. } => children@.len() > 0 && render.ensures((&children@[0],), v),
        HtmlNode::Text(_) => false,
    }
}

/// Whether `n` is an element named `tag` with attributes `attrs` and the
/// children `orig` sanitized.
pub open spec fn is_sanitized_element(n: HtmlNode, tag: Seq<char>, attrs: Seq<(String, String)>, orig: Seq<HtmlNode>) -> bool {
    match n {
        HtmlNode::Element { name, attrs: a, children } => name@ == tag && a@ == attrs && sanitized_list(orig, children@),
        HtmlNode::Text(_) => false,
    }
}

/// Turns text, lists and paragraphs into `rich-text` elements with fresh
/// ids, and keeps the content of each under its id.
#[derive(Debug)]
pub struct RichTextTransformVisitor {
    rich_text_mappings: Vec<(String, String)>,
}

fn id_attrs(id: &str) -> (r: Vec<(String, String)>)
    ensures
        r@.len() == 1,
        r@[0].0@ == "id"@,
        r@[0].1@ == id@,
{
    let mut attrs: Vec<(String, String)> = Vec::new();
    attrs.push((owned("id"), owned(id)));
    attrs
}

impl RichTextTransformVisitor {
    /// A visitor with no mappings.
    pub fn new() -> (r: RichTextTransformVisitor)
        ensures
            r.mappings().len() == 0,
    {
        RichTextTransformVisitor { rich_text_mappings: Vec::new() }
    }

    /// The ids and content kept so far, in the order made.
    pub closed spec fn mappings(&self) -> Seq<(String, String)> {
        self.rich_text_mappings@
    }

    /// The ids and content kept so far.
    pub fn rich_text_mappings(&self) -> (r: &Vec<(String, String)>)
        ensures
            r@ == self.mappings(),
    {
        &self.rich_text_mappings
    }

    /// Visits a text node. Text that is not blank becomes a `rich-text`
    /// element with a fresh id around the sanitized text, which is kept under
    /// that id; its subtree is not visited further. Blank text is left alone.
    pub fn visit_text(&mut self, text: &str) -> (r: (Option<HtmlNode>, bool))
        ensures
            trim_ws(text@).len() != 0 ==> {
                &&& !r.1
                &&& final(self).mappings().len() == old(self).mappings().len() + 1
                &&& final(self).mappings().take(old(self).mappings().len() as int) == old(self).mappings()
                &&& final(self).mappings().last().1@ == sanitized_text(text@)
                &&& final(self).mappings().last().0@.len() == 36
                &&& r.0 matches Some(n) && is_rich_text_around(n, final(self).mappings().last().0@, sanitized_text(text@))
            },
            trim_ws(text@).len() == 0 ==> r.0 is None && r.1 && final(self).mappings() == old(self).mappings(),
    {
        let trimmed = crate::text::str_trim(text);
        if trimmed.unicode_len() == 0 {
            return (None, true);
        }
        let sanitized = sanitize_text(text);
        let id = crate::ids::new_uuid();
        proof {
            crate::ids::lemma_hyphenated_len(id);
        }
        let mut children: Vec<HtmlNode> = Vec::new();
        children.push(create_text_node(sanitized.as_str()));
        let node = HtmlNode::Element { name: owned("rich-text"), attrs: id_attrs(id.hyphenated.as_str()), children };
        self.rich_text_mappings.push((id.hyphenated, sanitized));
        assert(self.rich_text_mappings@.take(old(self).rich_text_mappings@.len() as int) =~= old(self).rich_text_mappings@);
        (Some(node), false)
    }

    /// Visits an element with its attributes and children. A list (`ul`,
    /// `ol`) or paragraph (`p`) keeps its tag and attributes, and gets as its
    /// only child a `rich-text` element with a fresh id around its children
    /// sanitized; that element's HTML, as `render` writes it, is kept under
    /// the id. A list item (`li`) gets its children sanitized. Traversal goes
    /// on below lists and other elements, not below paragraphs and list
    /// items; other elements are left alone.
    pub fn visit_element<F: Fn(&HtmlNode) -> String>(
        &mut self,
        name: &str,
        attrs: Vec<(String, String)>,
        children: Vec<HtmlNode>,
        render: F,
    ) -> (r: (Option<HtmlNode>, bool))
        requires
            forall|n: &HtmlNode| #[trigger] render.requires((n,)),
        ensures
            (name@ == "ul"@ || name@ == "ol"@ || name@ == "p"@) ==> {
                &&& r.1 == (name@ != "p"@)
                &&& final(self).mappings().len() == old(self).mappings().len() + 1
                &&& final(self).mappings().take(old(self).mappings().len() as int) == old(self).mappings()
                &&& final(self).mappings().last().0@.len() == 36
                &&& r.0 matches Some(n) && wraps_rich_text(n, name@, attrs@, final(self).mappings().last().0@, children@)
                &&& r.0 matches Some(n) && first_child_rendered(n, render, final(self).mappings().last().1)
            },
            name@ == "li"@ ==> {
                &&& !r.1
                &&& final(self).mappings() == old(self).mappings()
                &&& r.0 matches Some(n) && is_sanitized_element(n, "li"@, attrs@, children@)
            },
            !(name@ == "ul"@ || name@ == "ol"@ || name@ == "p"@ || name@ == "li"@) ==> r.0 is None && r.1
                && final(self).mappings() == old(self).mappings(),
    {
        let ghost orig = children@;
        proof {
            reveal_strlit("ul");
            reveal_strlit("ol");
            reveal_strlit("p");
            reveal_strlit("li");
            assert("ul"@.len() == 2);
            assert("p"@.len() == 1);
            assert("ul"@ != "p"@ && "ol"@ != "p"@ && "li"@ != "p"@);
            assert("ul"@[0] == 'u' && "ol"@[0] == 'o' && "li"@[0] == 'l');
            assert("ul"@ != "li"@ && "ol"@ != "li"@);
        }
        let is_list = str_eq(name, "ul") || str_eq(name, "ol");
        let is_paragraph = str_eq(name, "p");
        if is_list || is_paragraph {
            let sanitized = sanitize_children(children);
            let id = crate::ids::new_uuid();
            proof {
                crate::ids::lemma_hyphenated_len(id);
            }
            let rich = HtmlNode::Element { name: owned("rich-text"), attrs: id_attrs(id.hyphenated.as_str()), children: sanitized };
            let html = render(&rich);
            self.rich_text_mappings.push((id.hyphenated, html));
            assert(self.rich_text_mappings@.take(old(self).rich_text_mappings@.len() as int) =~= old(self).rich_text_mappings@);
            let mut wrapped: Vec<HtmlNode> = Vec::new();
            wrapped.push(rich);
            let node = HtmlNode::Element { name: owned(name), attrs, children: wrapped };
            (Some(node), is_list)
        } else if str_eq(name, "li") {
            let sanitized = sanitize_children(children);
            (Some(HtmlNode::Element { name: owned(name), attrs, children: sanitized }), false)
        } else {
            (None, true)
        }
    }
}

} // verus!
