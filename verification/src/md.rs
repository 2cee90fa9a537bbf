//! Markdown to HTML: transformers of the event stream of a Markdown parser.
//!
//! Events hold all that pulldown-cmark's events hold, as plain values; the
//! elements that no transformer here reads are carried in `StartTag` and
//! `EndTag`.

use vstd::prelude::*;
use crate::decimal::{dec_str, push_dec_digits};
use crate::keyed::KeyedMap;
use crate::text::{owned, string_of};
use crate::md_events::{MdEventV, copy_event, events_html, markdown_events, md_view, md_views, parse_markdown, render_html};
use vstd::multiset::Multiset;

verus! {

/// The level of a heading.
#[derive(Debug, Clone, Copy, PartialEq, Eq, Structural)]
pub enum MdHeadingLevel {
    H1,
    H2,
    H3,
    H4,
    H5,
    H6,
}

/// The tag name of a heading level.
pub open spec fn level_tag(l: MdHeadingLevel) -> Seq<char> {
    match l {
        MdHeadingLevel::H1 => "h1"@,
        MdHeadingLevel::H2 => "h2"@,
        MdHeadingLevel::H3 => "h3"@,
        MdHeadingLevel::H4 => "h4"@,
        MdHeadingLevel::H5 => "h5"@,
        MdHeadingLevel::H6 => "h6"@,
    }
}

impl MdHeadingLevel {
    /// The tag name of the level, as it is displayed.
    pub fn as_str(&self) -> (r: &'static str)
        ensures
            r@ == level_tag(*self),
    {
        match self {
            MdHeadingLevel::H1 => "h1",
            MdHeadingLevel::H2 => "h2",
            MdHeadingLevel::H3 => "h3",
            MdHeadingLevel::H4 => "h4",
            MdHeadingLevel::H5 => "h5",
            MdHeadingLevel::H6 => "h6",
        }
    }
}

/// How a code block is marked.
#[derive(Debug)]
pub enum MdCodeBlockKind {
    /// Fenced, with the info string after the opening fence.
    Fenced(String),
    /// Indented.
    Indented,
}

/// The id, classes and other attributes written after a heading.
#[derive(Debug)]
pub struct HeadingAttrs {
    pub id: Option<String>,
    pub classes: Vec<String>,
    pub attrs: Vec<(String, Option<String>)>,
}

/// The kind of a block quote.
#[derive(Debug, Clone, Copy, PartialEq, Eq, Structural)]
pub enum MdBlockQuoteKind {
    Note,
    Tip,
    Important,
    Warning,
    Caution,
}

/// How a metadata block is fenced.
#[derive(Debug, Clone, Copy, PartialEq, Eq, Structural)]
pub enum MdMetadataBlockKind {
    YamlStyle,
    PlusesStyle,
}

/// The alignment of a table column.
#[derive(Debug, Clone, Copy, PartialEq, Eq, Structural)]
pub enum MdAlignment {
    Unaligned,
    Left,
    Center,
    Right,
}

/// How a link or an image is written.
#[derive(Debug, Clone, Copy, PartialEq, Eq, Structural)]
pub enum MdLinkType {
    Inline,
    Reference,
    ReferenceUnknown,
    Collapsed,
    CollapsedUnknown,
    Shortcut,
    ShortcutUnknown,
    Autolink,
    Email,
    WikiLink { has_pothole: bool },
}

/// A link or an image: how it is written, where it leads, its title and
/// its reference id.
#[derive(Debug)]
pub struct MdLink {
    pub link_type: MdLinkType,
    pub dest_url: String,
    pub title: String,
    pub id: String,
}

/// The start of an element that the transformers pass through.
#[derive(Debug)]
pub enum MdTag {
    BlockQuote(Option<MdBlockQuoteKind>),
    HtmlBlock,
    /// A list, with the number of its first item where it is ordered.
    List(Option<u64>),
    Item,
    DefinitionList,
    DefinitionListTitle,
    DefinitionListDefinition,
    Table(Vec<MdAlignment>),
    TableHead,
    TableRow,
    TableCell,
    Emphasis,
    Strong,
    Strikethrough,
    Superscript,
    Subscript,
    Link(MdLink),
    Image(MdLink),
    MetadataBlock(MdMetadataBlockKind),
}

/// The end of an element that the transformers pass through.
#[derive(Debug, Clone, Copy, PartialEq, Eq, Structural)]
pub enum MdTagEnd {
    BlockQuote(Option<MdBlockQuoteKind>),
    HtmlBlock,
    /// The end of a list, ordered or not.
    List(bool),
    Item,
    DefinitionList,
    DefinitionListTitle,
    DefinitionListDefinition,
    Table,
    TableHead,
    TableRow,
    TableCell,
    Emphasis,
    Strong,
    Strikethrough,
    Superscript,
    Subscript,
    Link,
    Image,
    MetadataBlock(MdMetadataBlockKind),
}

/// An event of the Markdown event stream.
#[derive(Debug)]
pub enum MdEvent {
    StartParagraph,
    EndParagraph,
    StartHeading(MdHeadingLevel, HeadingAttrs),
    EndHeading(MdHeadingLevel),
    StartFootnoteDefinition(String),
    EndFootnoteDefinition,
    FootnoteReference(String),
    StartCodeBlock(MdCodeBlockKind),
    EndCodeBlock,
    /// Inline code.
    Code(String),
    Html(String),
    Text(String),
    /// The start of any other element.
    StartTag(MdTag),
    /// The end of any other element.
    EndTag(MdTagEnd),
    InlineMath(String),
    DisplayMath(String),
    InlineHtml(String),
    SoftBreak,
    HardBreak,
    Rule,
    /// The box of a task list item, checked or not.
    TaskListMarker(bool),
}

/// Transforms each event of a Markdown event stream.
pub trait MarkdownTransformer: Sized {
    /// Whether the transformer, as `self`, makes `out` of `event` and is
    /// `after` once it did.
    spec fn transforms(&self, event: MdEvent, out: MdEvent, after: Self) -> bool;

    /// The event that takes the place of `event`.
    fn transform_event(&mut self, event: MdEvent) -> (r: MdEvent)
        ensures
            old(self).transforms(event, r, *final(self)),
    ;
}

/// The classes of a heading level.
pub open spec fn heading_classes(l: MdHeadingLevel) -> Seq<char> {
    match l {
        MdHeadingLevel::H1 => "text-4xl font-bold mb-6"@,
        MdHeadingLevel::H2 => "text-3xl font-semibold mb-4"@,
        MdHeadingLevel::H3 => "text-2xl font-medium mb-3"@,
        _ => "text-xl font-medium mb-2"@,
    }
}

/// Whether `out` is what the Tailwind transformer makes of `event`:
/// paragraphs and headings become raw HTML tags with Tailwind classes; other
/// events are kept.
pub open spec fn tailwind_event(event: MdEvent, out: MdEvent) -> bool {
    match event {
        MdEvent::StartParagraph => out matches MdEvent::Html(h) && h@ == "<p class=\"text-gray-700 leading-relaxed mb-4\">"@,
        MdEvent::EndParagraph => out matches MdEvent::Html(h) && h@ == "</p>"@,
        MdEvent::StartHeading(l, _) => out matches MdEvent::Html(h) && h@ == "<"@ + level_tag(l) + " class=\""@
            + heading_classes(l) + "\">"@,
        MdEvent::EndHeading(l) => out matches MdEvent::Html(h) && h@ == "</"@ + level_tag(l) + ">"@,
        _ => out == event,
    }
}

/// Styles paragraphs and headings with Tailwind classes.
#[derive(Debug, Clone, Copy)]
pub struct TailwindTransformer;

impl MarkdownTransformer for TailwindTransformer {
    open spec fn transforms(&self, event: MdEvent, out: MdEvent, after: Self) -> bool {
        tailwind_event(event, out)
    }

    fn transform_event(&mut self, event: MdEvent) -> (r: MdEvent)
        ensures
            tailwind_event(event, r),
    {
        match event {
            MdEvent::StartParagraph => MdEvent::Html(owned("<p class=\"text-gray-700 leading-relaxed mb-4\">")),
            MdEvent::EndParagraph => MdEvent::Html(owned("</p>")),
            MdEvent::StartHeading(level, _) => {
                let class = match level {
                    MdHeadingLevel::H1 => "text-4xl font-bold mb-6",
                    MdHeadingLevel::H2 => "text-3xl font-semibold mb-4",
                    MdHeadingLevel::H3 => "text-2xl font-medium mb-3",
                    _ => "text-xl font-medium mb-2",
                };
                let mut h = owned("<");
                h.append(level.as_str());
                h.append(" class=\"");
                h.append(class);
                h.append("\">");
                MdEvent::Html(h)
            },
            MdEvent::EndHeading(level) => {
                let mut h = owned("</");
                h.append(level.as_str());
                h.append(">");
                MdEvent::Html(h)
            },
            other => other,
        }
    }
}

/// The Tailwind transformer opens each heading with its level's tag and
/// classes, which shrink with depth: `h1` `text-4xl font-bold mb-6`, `h2`
/// `text-3xl font-semibold mb-4`, `h3` `text-2xl font-medium mb-3`, and
/// `h4` to `h6` `text-xl font-medium mb-2`.
pub proof fn law_tailwind_heading_classes(t: TailwindTransformer, l: MdHeadingLevel, a: HeadingAttrs, out: MdEvent,
    after: TailwindTransformer)
    requires
        t.transforms(MdEvent::StartHeading(l, a), out, after),
    ensures
        out matches MdEvent::Html(h) && h@ == match l {
            MdHeadingLevel::H1 => "<h1 class=\"text-4xl font-bold mb-6\">"@,
            MdHeadingLevel::H2 => "<h2 class=\"text-3xl font-semibold mb-4\">"@,
            MdHeadingLevel::H3 => "<h3 class=\"text-2xl font-medium mb-3\">"@,
            MdHeadingLevel::H4 => "<h4 class=\"text-xl font-medium mb-2\">"@,
            MdHeadingLevel::H5 => "<h5 class=\"text-xl font-medium mb-2\">"@,
            MdHeadingLevel::H6 => "<h6 class=\"text-xl font-medium mb-2\">"@,
        },
{
    reveal_strlit("<");
    reveal_strlit(" class=\"");
    reveal_strlit("\">");
    reveal_strlit("h1");
    reveal_strlit("h2");
    reveal_strlit("h3");
    reveal_strlit("h4");
    reveal_strlit("h5");
    reveal_strlit("h6");
    reveal_strlit("text-4xl font-bold mb-6");
    reveal_strlit("text-3xl font-semibold mb-4");
    reveal_strlit("text-2xl font-medium mb-3");
    reveal_strlit("text-xl font-medium mb-2");
    reveal_strlit("<h1 class=\"text-4xl font-bold mb-6\">");
    reveal_strlit("<h2 class=\"text-3xl font-semibold mb-4\">");
    reveal_strlit("<h3 class=\"text-2xl font-medium mb-3\">");
    reveal_strlit("<h4 class=\"text-xl font-medium mb-2\">");
    reveal_strlit("<h5 class=\"text-xl font-medium mb-2\">");
    reveal_strlit("<h6 class=\"text-xl font-medium mb-2\">");
    let h = out->Html_0@;
    match l {
        MdHeadingLevel::H1 => assert(h =~= "<h1 class=\"text-4xl font-bold mb-6\">"@),
        MdHeadingLevel::H2 => assert(h =~= "<h2 class=\"text-3xl font-semibold mb-4\">"@),
        MdHeadingLevel::H3 => assert(h =~= "<h3 class=\"text-2xl font-medium mb-3\">"@),
        MdHeadingLevel::H4 => assert(h =~= "<h4 class=\"text-xl font-medium mb-2\">"@),
        MdHeadingLevel::H5 => assert(h =~= "<h5 class=\"text-xl font-medium mb-2\">"@),
        MdHeadingLevel::H6 => assert(h =~= "<h6 class=\"text-xl font-medium mb-2\">"@),
    }
}

/// The raw HTML that a reference to the footnote `name`, numbered `n`,
/// becomes.
pub open spec fn reference_html(name: Seq<char>, n: nat) -> Seq<char> {
    "<sup class=\"footnote-reference\" id=\"fr-"@ + name + "-"@ + name + "\"><a href=\"#fn-"@ + name + "\">["@
        + dec_str(n) + "]</a></sup>"@
}

/// Moves footnote definitions to the end of the document, numbered in the
/// order of their first reference, and turns references into links.
#[derive(Debug)]
pub struct FootnoteTransformer {
    collected_footnotes: Vec<Vec<MdEvent>>,
    current_footnote_buffer: Vec<Vec<MdEvent>>,
    footnote_reference_map: KeyedMap<(usize, usize)>,
}

impl Default for FootnoteTransformer {
    fn default() -> (r: FootnoteTransformer)
        ensures
            r.collected().len() == 0,
            r.open_definitions().len() == 0,
            r.references() == Map::<Seq<char>, (usize, usize)>::empty(),
    {
        FootnoteTransformer::new()
    }
}

/// Whether `out` is the empty text event.
pub open spec fn is_empty_text(out: MdEvent) -> bool {
    out matches MdEvent::Text(t) && t@.len() == 0
}

/// Whether the footnote transformer `a` can take `event`: an end of a
/// definition needs an open definition, and a reference needs room in the
/// numbers and counts.
pub open spec fn footnote_takes(a: FootnoteTransformer, event: MdEvent) -> bool {
    &&& (event is EndFootnoteDefinition ==> a.open_definitions().len() > 0)
    &&& (event matches MdEvent::FootnoteReference(name) ==> a.references().dom().len() + 1 <= usize::MAX
        && (a.references().dom().contains(name@) ==> a.references()[name@].1 + 1 <= usize::MAX))
}

/// Whether the footnote transformer, as `a`, makes `out` of `event` and is
/// `b` once it did: see `FootnoteTransformer::transform_event`.
pub open spec fn footnote_step(a: FootnoteTransformer, event: MdEvent, out: MdEvent, b: FootnoteTransformer) -> bool {
    match event {
        MdEvent::StartFootnoteDefinition(_) => is_empty_text(out) && b.collected() == a.collected()
            && b.references() == a.references()
            && b.open_definitions().len() == a.open_definitions().len() + 1
            && b.open_definitions().drop_last() == a.open_definitions()
            && b.open_definitions().last()@ == seq![event],
        MdEvent::EndFootnoteDefinition => is_empty_text(out) && b.references() == a.references()
            && b.open_definitions() == a.open_definitions().drop_last()
            && b.collected().len() == a.collected().len() + 1
            && b.collected().drop_last() == a.collected()
            && b.collected().last()@ == a.open_definitions().last()@.push(event),
        MdEvent::FootnoteReference(name) => {
            let refs = a.references();
            let number: nat = if refs.dom().contains(name@) { refs[name@].0 as nat } else { refs.dom().len() + 1 };
            let count: nat = if refs.dom().contains(name@) { refs[name@].1 as nat } else { 0 };
            &&& b.references().dom() == refs.dom().insert(name@)
            &&& b.references()[name@].0 == number
            &&& b.references()[name@].1 == count + 1
            &&& forall|k: Seq<char>| k != name@ && refs.dom().contains(k) ==> #[trigger] b.references()[k] == refs[k]
            &&& b.collected() == a.collected()
            &&& b.open_definitions() == a.open_definitions()
            &&& out matches MdEvent::Html(h) && h@ == reference_html(name@, number)
        },
        _ => if a.open_definitions().len() > 0 {
            &&& is_empty_text(out)
            &&& b.collected() == a.collected()
            &&& b.references() == a.references()
            &&& b.open_definitions().len() == a.open_definitions().len()
            &&& b.open_definitions().drop_last() == a.open_definitions().drop_last()
            &&& b.open_definitions().last()@ == a.open_definitions().last()@.push(event)
        } else {
            &&& out == event
            &&& b.collected() == a.collected()
            &&& b.references() == a.references()
            &&& b.open_definitions() == a.open_definitions()
        },
    }
}

impl FootnoteTransformer {
    /// A transformer that has seen nothing.
    pub fn new() -> (r: FootnoteTransformer)
        ensures
            r.collected().len() == 0,
            r.open_definitions().len() == 0,
            r.references() == Map::<Seq<char>, (usize, usize)>::empty(),
    {
        FootnoteTransformer {
            collected_footnotes: Vec::new(),
            current_footnote_buffer: Vec::new(),
            footnote_reference_map: KeyedMap::new(),
        }
    }

    /// The footnote definitions collected so far, each as its events.
    pub closed spec fn collected(&self) -> Seq<Vec<MdEvent>> {
        self.collected_footnotes@
    }

    /// The definitions being collected, innermost last.
    pub closed spec fn open_definitions(&self) -> Seq<Vec<MdEvent>> {
        self.current_footnote_buffer@
    }

    /// For each footnote name referred to: its number and how often it was
    /// referred to.
    pub closed spec fn references(&self) -> Map<Seq<char>, (usize, usize)> {
        self.footnote_reference_map@
    }

    /// Takes an event of the stream. A footnote definition and the events
    /// inside it are held back (each gives an empty text); a reference
    /// becomes a numbered link, the number of a name being fixed by the
    /// order in which names are first referred to; other events pass.
    pub fn transform_event(&mut self, event: MdEvent) -> (r: MdEvent)
        requires
            footnote_takes(*old(self), event),
        ensures
            footnote_step(*old(self), event, r, *final(self)),
    {
        let ghost ev = event;
        match event {
            MdEvent::StartFootnoteDefinition(name) => {
                let mut v: Vec<MdEvent> = Vec::new();
                v.push(MdEvent::StartFootnoteDefinition(name));
                self.current_footnote_buffer.push(v);
                assert(self.current_footnote_buffer@.drop_last() =~= old(self).current_footnote_buffer@);
                MdEvent::Text(String::new())
            },
            MdEvent::EndFootnoteDefinition => {
                let mut content = self.current_footnote_buffer.pop().unwrap();
                content.push(MdEvent::EndFootnoteDefinition);
                self.collected_footnotes.push(content);
                assert(self.collected_footnotes@.drop_last() =~= old(self).collected_footnotes@);
                MdEvent::Text(String::new())
            },
            MdEvent::FootnoteReference(name) => {
                let next = self.footnote_reference_map.len() + 1;
                let (number, count) = match self.footnote_reference_map.get(name.as_str()) {
                    Some(entry) => (entry.0, entry.1),
                    None => (next, 0usize),
                };
                self.footnote_reference_map.insert(name.clone(), (number, count + 1));
                let mut h: Vec<char> = Vec::new();
                let mut t = owned("<sup class=\"footnote-reference\" id=\"fr-");
                t.append(name.as_str());
                t.append("-");
                t.append(name.as_str());
                t.append("\"><a href=\"#fn-");
                t.append(name.as_str());
                t.append("\">[");
                push_dec_digits(number as u64, &mut h);
                t.append(string_of(&h).as_str());
                t.append("]</a></sup>");
                MdEvent::Html(t)
            },
            other => {
                if self.current_footnote_buffer.len() > 0 {
                    let mut last = self.current_footnote_buffer.pop().unwrap();
                    last.push(other);
                    self.current_footnote_buffer.push(last);
                    assert(self.current_footnote_buffer@.drop_last() =~= old(self).current_footnote_buffer@.drop_last());
                    MdEvent::Text(String::new())
                } else {
                    other
                }
            },
        }
    }

    /// The footnote definitions collected so far, each as its events.
    pub fn collected_footnotes(&self) -> (r: &Vec<Vec<MdEvent>>)
        ensures
            r@ == self.collected(),
    {
        &self.collected_footnotes
    }

    /// Whether the transformer can take `event`: an end of a definition
    /// needs an open definition, and a reference needs room in the numbers
    /// and counts.
    pub fn can_take(&self, event: &MdEvent) -> (r: bool)
        ensures
            r == footnote_takes(*self, *event),
    {
        match event {
            MdEvent::EndFootnoteDefinition => self.current_footnote_buffer.len() > 0,
            MdEvent::FootnoteReference(name) => {
                let n = self.footnote_reference_map.len();
                if n == usize::MAX {
                    return false;
                }
                match self.footnote_reference_map.get(name.as_str()) {
                    Some(entry) => entry.1 < usize::MAX,
                    None => true,
                }
            },
            _ => true,
        }
    }

    /// The name of a collected footnote, if it starts with its definition.
    pub closed spec fn name_of(&self, i: int) -> Option<Seq<char>> {
        let f = self.collected_footnotes@[i]@;
        if f.len() > 0 {
            match f[0] {
                MdEvent::StartFootnoteDefinition(n) => Some(n@),
                _ => None,
            }
        } else {
            None
        }
    }

    /// Whether the collected footnote `i` was referred to, and so is listed.
    pub open spec fn is_listed(&self, i: int) -> bool {
        match self.name_of(i) {
            Some(n) => self.references().dom().contains(n) && self.references()[n].1 != 0,
            None => false,
        }
    }

    /// The number of the collected footnote `i`, by its first reference.
    pub open spec fn number_of(&self, i: int) -> nat {
        match self.name_of(i) {
            Some(n) => if self.references().dom().contains(n) { self.references()[n].0 as nat } else { 0 },
            None => 0,
        }
    }

    /// The listed footnotes, by their position among the collected ones, in
    /// the order of their numbers; footnotes with one number keep their
    /// order.
    pub fn ordered_footnotes(&self) -> (r: Vec<usize>)
        ensures
            forall|k: int| 0 <= k < r@.len() ==> 0 <= #[trigger] r@[k] < self.collected().len() && self.is_listed(r@[k] as int),
            forall|i: int| 0 <= i < self.collected().len() && self.is_listed(i) ==> r@.contains(i as usize),
            forall|a: int, b: int| 0 <= a < b < r@.len() ==> ({
                let x = self.number_of(#[trigger] r@[a] as int);
                let y = self.number_of(#[trigger] r@[b] as int);
                x < y || (x == y && r@[a] < r@[b])
            }),
    {
        let mut keyed: Vec<(usize, usize)> = Vec::new();
        let mut i: usize = 0;
        while i < self.collected_footnotes.len()
            invariant
                i <= self.collected_footnotes@.len(),
                forall|k: int| 0 <= k < keyed@.len() ==> {
                    &&& 0 <= #[trigger] keyed@[k].1 < i
                    &&& self.is_listed(keyed@[k].1 as int)
                    &&& keyed@[k].0 == self.number_of(keyed@[k].1 as int)
                },
                forall|j: int| 0 <= j < i && self.is_listed(j) ==> exists|k: int| 0 <= k < keyed@.len() && #[trigger] keyed@[k].1 == j,
                forall|a: int, b: int| 0 <= a < b < keyed@.len() ==> #[trigger] keyed@[a].1 < #[trigger] keyed@[b].1,
            decreases self.collected_footnotes@.len() - i,
        {
            let f = &self.collected_footnotes[i];
            let mut listed = false;
            let mut key: usize = 0;
            if f.len() > 0 {
                match &f[0] {
                    MdEvent::StartFootnoteDefinition(name) => {
                        match self.footnote_reference_map.get(name.as_str()) {
                            Some(entry) => {
                                if entry.1 != 0 {
                                    listed = true;
                                    key = entry.0;
                                }
                            },
                            None => {},
                        }
                    },
                    _ => {},
                }
            }
            assert(listed == self.is_listed(i as int));
            assert(listed ==> key == self.number_of(i as int));
            let ghost before = keyed@;
            if listed {
                keyed.push((key, i));
                proof {
                    assert(keyed@[keyed@.len() - 1].1 == i);
                    assert forall|j: int| 0 <= j < i + 1 && self.is_listed(j) implies exists|k: int|
                        0 <= k < keyed@.len() && #[trigger] keyed@[k].1 == j by {
                        if j < i {
                            let k0 = choose|k: int| 0 <= k < before.len() && #[trigger] before[k].1 == j;
                            assert(keyed@[k0] == before[k0]);
                        } else {
                            assert(keyed@[keyed@.len() - 1].1 == j);
                        }
                    }
                }
            }
            i += 1;
        }
        let ghost keyed_view = keyed@;
        let sorted = sort_by_number(keyed);
        let mut r: Vec<usize> = Vec::new();
        let mut k: usize = 0;
        while k < sorted.len()
            invariant
                k <= sorted@.len(),
                r@.len() == k,
                forall|m: int| 0 <= m < k ==> #[trigger] r@[m] == sorted@[m].1,
            decreases sorted@.len() - k,
        {
            r.push(sorted[k].1);
            k += 1;
        }
        proof {
            assert forall|m: int| 0 <= m < r@.len() implies 0 <= #[trigger] r@[m] < self.collected().len() && self.is_listed(r@[m] as int) by {
                let x = sorted@[m];
                vstd::seq_lib::to_multiset_contains(sorted@, x);
                assert(sorted@.contains(x));
                vstd::seq_lib::to_multiset_contains(keyed@, x);
                let k = choose|k: int| 0 <= k < keyed@.len() && keyed@[k] == x;
                assert(keyed@[k].1 == r@[m]);
            }
            assert forall|m: int| 0 <= m < sorted@.len() implies (#[trigger] sorted@[m]).0 == self.number_of(sorted@[m].1 as int) by {
                let x = sorted@[m];
                vstd::seq_lib::to_multiset_contains(sorted@, x);
                assert(sorted@.contains(x));
                vstd::seq_lib::to_multiset_contains(keyed@, x);
                let k = choose|k: int| 0 <= k < keyed@.len() && keyed@[k] == x;
                assert(keyed@[k] == x);
            }
            assert forall|a: int, b: int| 0 <= a < b < r@.len() implies ({
                let x = self.number_of(#[trigger] r@[a] as int);
                let y = self.number_of(#[trigger] r@[b] as int);
                x < y || (x == y && r@[a] < r@[b])
            }) by {
                assert(sorted@[a].0 == self.number_of(sorted@[a].1 as int));
                assert(sorted@[b].0 == self.number_of(sorted@[b].1 as int));
                assert(sorted@[a].0 < sorted@[b].0 || (sorted@[a].0 == sorted@[b].0 && sorted@[a].1 < sorted@[b].1));
            }
            assert forall|j: int| 0 <= j < self.collected().len() && self.is_listed(j) implies r@.contains(j as usize) by {
                let k = choose|k: int| 0 <= k < keyed@.len() && #[trigger] keyed@[k].1 == j;
                let x = keyed@[k];
                vstd::seq_lib::to_multiset_contains(keyed@, x);
                assert(keyed@.contains(x));
                vstd::seq_lib::to_multiset_contains(sorted@, x);
                let m = choose|m: int| 0 <= m < sorted@.len() && sorted@[m] == x;
                assert(r@[m] == j);
            }
        }
        r
    }

    /// Whether `order` lists the positions of the footnotes referred to, each
    /// once, by number, then position.
    pub open spec fn is_footnote_order(&self, order: Seq<usize>) -> bool {
        &&& forall|k: int| 0 <= k < order.len() ==> 0 <= #[trigger] order[k] < self.collected().len()
            && self.is_listed(order[k] as int)
        &&& forall|i: int| 0 <= i < self.collected().len() && self.is_listed(i) ==> order.contains(i as usize)
        &&& forall|a: int, b: int| 0 <= a < b < order.len() ==> ({
            let x = self.number_of(#[trigger] order[a] as int);
            let y = self.number_of(#[trigger] order[b] as int);
            x < y || (x == y && order[a] < order[b])
        })
    }

    /// The views of the events of the footnotes at `order`, one footnote
    /// after the other.
    pub open spec fn listed_events(&self, order: Seq<usize>) -> Seq<MdEventV>
        decreases order.len(),
    {
        if order.len() == 0 {
            seq![]
        } else {
            self.listed_events(order.drop_last()) + md_views(self.collected()[order.last() as int]@)
        }
    }

    /// The HTML of the footnote list: the footnotes referred to, in the
    /// order of their numbers, rendered between a rule and the list's tags;
    /// nothing where no footnote was defined.
    pub fn get_footnotes_html(&self) -> (r: String)
        ensures
            footnotes_html_of(*self, r@),
    {
        if self.collected_footnotes.len() == 0 {
            return String::new();
        }
        let order = self.ordered_footnotes();
        assert(self.is_footnote_order(order@));
        let mut events: Vec<MdEvent> = Vec::new();
        let mut k: usize = 0;
        proof {
            assert(order@.take(0) =~= Seq::<usize>::empty());
            assert(md_views(events@) =~= Seq::<MdEventV>::empty());
        }
        while k < order.len()
            invariant
                k <= order@.len(),
                forall|q: int| 0 <= q < order@.len() ==> #[trigger] order@[q] < self.collected().len(),
                md_views(events@) == self.listed_events(order@.take(k as int)),
            decreases order@.len() - k,
        {
            let f = &self.collected_footnotes[order[k]];
            let ghost base = md_views(events@);
            let mut j: usize = 0;
            proof {
                assert(md_views(f@.take(0)) =~= Seq::<MdEventV>::empty());
                assert(base + md_views(f@.take(0)) =~= base);
            }
            while j < f.len()
                invariant
                    j <= f@.len(),
                    md_views(events@) == base + md_views(f@.take(j as int)),
                decreases f@.len() - j,
            {
                let ghost before = events@;
                events.push(copy_event(&f[j]));
                proof {
                    assert(md_views(events@) =~= md_views(before).push(md_view(f@[j as int])));
                    assert(f@.take(j + 1) =~= f@.take(j as int).push(f@[j as int]));
                    assert(md_views(f@.take(j + 1)) =~= md_views(f@.take(j as int)).push(md_view(f@[j as int])));
                    assert(base + md_views(f@.take(j + 1)) =~= (base + md_views(f@.take(j as int))).push(
                        md_view(f@[j as int])));
                }
                j += 1;
            }
            proof {
                assert(f@.take(f@.len() as int) =~= f@);
                assert(order@.take(k + 1).drop_last() =~= order@.take(k as int));
                assert(order@.take(k + 1).last() == order@[k as int]);
            }
            k += 1;
        }
        assert(order@.take(order@.len() as int) =~= order@);
        let body = render_html(events);
        let mut r = owned("<hr><ol class=\"footnotes-list\">\n");
        r.append(body.as_str());
        r.append("</ol>\n");
        assert(r@ == "<hr><ol class=\"footnotes-list\">\n"@ + events_html(self.listed_events(order@)) + "</ol>\n"@);
        assert(self.is_footnote_order(order@));
        r
    }
}

/// Whether `html` is the footnote list of `f`; see
/// `FootnoteTransformer::get_footnotes_html`.
pub open spec fn footnotes_html_of(f: FootnoteTransformer, html: Seq<char>) -> bool {
    if f.collected().len() == 0 {
        html.len() == 0
    } else {
        exists|order: Seq<usize>| f.is_footnote_order(order) && html == "<hr><ol class=\"footnotes-list\">\n"@
            + events_html(f.listed_events(order)) + "</ol>\n"@
    }
}

/// Whether the footnote transformer `f` has seen nothing.
pub open spec fn fresh_footnotes(f: FootnoteTransformer) -> bool {
    &&& f.collected().len() == 0
    &&& f.open_definitions().len() == 0
    &&& f.references() == Map::<Seq<char>, (usize, usize)>::empty()
}

/// Whether step `q` of a run holds: the footnote transformer `fs[q]` takes
/// `evs[q]`, making `mids[q]` and becoming `fs[q + 1]`, and then the
/// transformer `ts[q]` makes `outs[q]` of that and becomes `ts[q + 1]`.
pub open spec fn etch_step<T: MarkdownTransformer>(evs: Seq<MdEvent>, fs: Seq<FootnoteTransformer>, mids: Seq<MdEvent>,
    ts: Seq<T>, outs: Seq<MdEvent>, q: int) -> bool {
    &&& footnote_takes(fs[q], evs[q])
    &&& footnote_step(fs[q], evs[q], mids[q], fs[q + 1])
    &&& ts[q].transforms(mids[q], outs[q], ts[q + 1])
}

/// Whether the events `evs` go through a footnote transformer that has seen
/// nothing and then through the transformer `ts[0]`, giving `outs`, the
/// states of the two being `fs` and `ts` along the way.
pub open spec fn etch_run<T: MarkdownTransformer>(evs: Seq<MdEvent>, fs: Seq<FootnoteTransformer>, mids: Seq<MdEvent>,
    ts: Seq<T>, outs: Seq<MdEvent>) -> bool {
    &&& fs.len() == evs.len() + 1
    &&& ts.len() == evs.len() + 1
    &&& mids.len() == evs.len()
    &&& outs.len() == evs.len()
    &&& fresh_footnotes(fs[0])
    &&& forall|q: int| 0 <= q < evs.len() ==> #[trigger] etch_step(evs, fs, mids, ts, outs, q)
}

/// Whether step `q` of the footnote transformer alone holds.
pub open spec fn footnote_run_step(evs: Seq<MdEvent>, fs: Seq<FootnoteTransformer>, mids: Seq<MdEvent>, q: int) -> bool {
    &&& footnote_takes(fs[q], evs[q])
    &&& footnote_step(fs[q], evs[q], mids[q], fs[q + 1])
}

/// Whether a footnote transformer that has seen nothing gets stuck on
/// `evs`: it takes the events before some `k` but cannot take `evs[k]` (an
/// end of a definition with none open, or a reference past the counters).
pub open spec fn footnotes_stuck(evs: Seq<MdEvent>) -> bool {
    exists|k: int, fs: Seq<FootnoteTransformer>, mids: Seq<MdEvent>| {
        &&& 0 <= k < evs.len()
        &&& fs.len() == k + 1
        &&& mids.len() == k
        &&& fresh_footnotes(fs[0])
        &&& (forall|q: int| 0 <= q < k ==> #[trigger] footnote_run_step(evs, fs, mids, q))
        &&& !footnote_takes(fs[k], evs[k])
    }
}

/// The HTML of Markdown text: each event that pulldown-cmark parses goes
/// through the footnote transformer and then `transformer`; the events are
/// rendered, and the footnote list follows. `None` where the footnote
/// transformer cannot take an event.
pub fn etch<T: MarkdownTransformer>(md: &str, transformer: &mut T) -> (r: Option<String>)
    ensures
        match r {
            Some(h) => exists|evs: Seq<MdEvent>, fs: Seq<FootnoteTransformer>, mids: Seq<MdEvent>, ts: Seq<T>,
                outs: Seq<MdEvent>, notes: Seq<char>| {
                &&& md_views(evs) == markdown_events(md@)
                &&& etch_run(evs, fs, mids, ts, outs)
                &&& ts[0] == *old(transformer)
                &&& ts[evs.len() as int] == *final(transformer)
                &&& footnotes_html_of(fs[evs.len() as int], notes)
                &&& h@ == events_html(md_views(outs)) + notes
            },
            None => exists|evs: Seq<MdEvent>| md_views(evs) == markdown_events(md@) && footnotes_stuck(evs),
        },
{
    let events = parse_markdown(md);
    let ghost evs = events@;
    let n = events.len();
    let mut footnotes = FootnoteTransformer::new();
    let mut outs: Vec<MdEvent> = Vec::new();
    let ghost mut fs: Seq<FootnoteTransformer> = seq![footnotes];
    let ghost mut mids: Seq<MdEvent> = seq![];
    let ghost mut ts: Seq<T> = seq![*transformer];
    let mut rest = events;
    let mut i: usize = 0;
    proof {
        assert(rest@ =~= evs.skip(0));
    }
    while i < n
        invariant
            n == evs.len(),
            md_views(evs) == markdown_events(md@),
            i <= n,
            rest@ == evs.skip(i as int),
            fs.len() == i + 1,
            ts.len() == i + 1,
            mids.len() == i,
            outs@.len() == i,
            fresh_footnotes(fs[0]),
            fs[i as int] == footnotes,
            ts[0] == *old(transformer),
            ts[i as int] == *transformer,
            forall|q: int| 0 <= q < i ==> #[trigger] etch_step(evs, fs, mids, ts, outs@, q),
        decreases n - i,
    {
        let e = rest.remove(0);
        proof {
            assert(e == evs[i as int]);
            assert(rest@ =~= evs.skip(i + 1));
        }
        if !footnotes.can_take(&e) {
            proof {
                assert forall|q: int| 0 <= q < i implies #[trigger] footnote_run_step(evs, fs, mids, q) by {
                    assert(etch_step(evs, fs, mids, ts, outs@, q));
                }
                assert(!footnote_takes(fs[i as int], evs[i as int]));
                assert(footnotes_stuck(evs));
            }
            return None;
        }
        let ghost e0 = e;
        let m = footnotes.transform_event(e);
        let ghost m0 = m;
        let o = transformer.transform_event(m);
        let ghost o0 = o;
        let ghost outs_before = outs@;
        outs.push(o);
        proof {
            let fs1 = fs.push(footnotes);
            let mids1 = mids.push(m0);
            let ts1 = ts.push(*transformer);
            assert forall|q: int| 0 <= q < i + 1 implies #[trigger] etch_step(evs, fs1, mids1, ts1, outs@, q) by {
                if q < i {
                    assert(etch_step(evs, fs, mids, ts, outs_before, q));
                    assert(outs@[q] == outs_before[q]);
                } else {
                    assert(outs@[q] == o0);
                }
            }
            fs = fs1;
            mids = mids1;
            ts = ts1;
        }
        i += 1;
    }
    let notes = footnotes.get_footnotes_html();
    let ghost outs_final = outs@;
    let mut html = render_html(outs);
    html.append(notes.as_str());
    proof {
        assert(etch_run(evs, fs, mids, ts, outs_final));
    }
    Some(html)
}

/// A transformer that keeps every event.
#[derive(Debug, Clone, Copy)]
pub struct KeepEvents;

impl MarkdownTransformer for KeepEvents {
    open spec fn transforms(&self, event: MdEvent, out: MdEvent, after: Self) -> bool {
        out == event
    }

    fn transform_event(&mut self, event: MdEvent) -> (r: MdEvent) {
        event
    }
}

/// Transformers run one after the other on each event: `first`, then
/// `second`.
#[derive(Debug)]
pub struct TransformerPipeline<A, B> {
    pub first: A,
    pub second: B,
}

impl TransformerPipeline<KeepEvents, KeepEvents> {
    /// A pipeline that keeps every event.
    pub fn new() -> (r: TransformerPipeline<KeepEvents, KeepEvents>) {
        TransformerPipeline { first: KeepEvents, second: KeepEvents }
    }
}

impl<A, B> TransformerPipeline<A, B> {
    /// The pipeline followed by `transformer`.
    pub fn add<C>(self, transformer: C) -> (r: TransformerPipeline<TransformerPipeline<A, B>, C>)
        ensures
            r.first == self,
            r.second == transformer,
    {
        TransformerPipeline { first: self, second: transformer }
    }
}

impl<A: MarkdownTransformer, B: MarkdownTransformer> MarkdownTransformer for TransformerPipeline<A, B> {
    open spec fn transforms(&self, event: MdEvent, out: MdEvent, after: Self) -> bool {
        exists|mid: MdEvent| #[trigger] self.first.transforms(event, mid, after.first)
            && self.second.transforms(mid, out, after.second)
    }

    fn transform_event(&mut self, event: MdEvent) -> (r: MdEvent) {
        let ghost a0 = self.first;
        let mid = self.first.transform_event(event);
        let ghost m = mid;
        let r = self.second.transform_event(mid);
        assert(a0.transforms(event, m, self.first));
        r
    }
}

/// Markdown text to render.
#[derive(Debug)]
pub struct Etcher {
    md: String,
}

impl Default for Etcher {
    fn default() -> (r: Etcher)
        ensures
            r.text().len() == 0,
    {
        Etcher { md: String::new() }
    }
}

impl Etcher {
    /// The text `md`.
    pub fn new(md: &str) -> (r: Etcher)
        ensures
            r.text() == md@,
    {
        Etcher { md: owned(md) }
    }

    /// The text.
    pub closed spec fn text(&self) -> Seq<char> {
        self.md@
    }

    /// The etcher with a pulldown-cmark option on. Every option is on
    /// already (the text is parsed with `Options::all()`), so nothing
    /// changes.
    pub fn with_option(self, _option: pulldown_cmark::Options) -> (r: Etcher)
        ensures
            r.text() == self.text(),
    {
        self
    }

    /// The text as HTML, each event through the footnote transformer and
    /// then `transformer`; see `etch`.
    pub fn parse<T: MarkdownTransformer>(&self, transformer: &mut T) -> (r: Option<String>)
        ensures
            match r {
                Some(h) => exists|evs: Seq<MdEvent>, fs: Seq<FootnoteTransformer>, mids: Seq<MdEvent>, ts: Seq<T>,
                    outs: Seq<MdEvent>, notes: Seq<char>| {
                    &&& md_views(evs) == markdown_events(self.text())
                    &&& etch_run(evs, fs, mids, ts, outs)
                    &&& ts[0] == *old(transformer)
                    &&& ts[evs.len() as int] == *final(transformer)
                    &&& footnotes_html_of(fs[evs.len() as int], notes)
                    &&& h@ == events_html(md_views(outs)) + notes
                },
                None => exists|evs: Seq<MdEvent>| md_views(evs) == markdown_events(self.text()) && footnotes_stuck(evs),
            },
    {
        etch(self.md.as_str(), transformer)
    }

    /// The text as HTML with paragraphs and headings styled by Tailwind
    /// classes; see `parse`.
    pub fn parse_with_tailwind(&self) -> (r: Option<String>)
        ensures
            match r {
                Some(h) => exists|evs: Seq<MdEvent>, fs: Seq<FootnoteTransformer>, mids: Seq<MdEvent>,
                    ts: Seq<TailwindTransformer>, outs: Seq<MdEvent>, notes: Seq<char>| {
                    &&& md_views(evs) == markdown_events(self.text())
                    &&& etch_run(evs, fs, mids, ts, outs)
                    &&& footnotes_html_of(fs[evs.len() as int], notes)
                    &&& h@ == events_html(md_views(outs)) + notes
                },
                None => exists|evs: Seq<MdEvent>| md_views(evs) == markdown_events(self.text()) && footnotes_stuck(evs),
            },
    {
        let mut t = TailwindTransformer;
        self.parse(&mut t)
    }

    /// The text as HTML through `pipeline`; see `parse`.
    pub fn parse_with_pipeline<A: MarkdownTransformer, B: MarkdownTransformer>(&self,
        pipeline: &mut TransformerPipeline<A, B>) -> (r: Option<String>)
        ensures
            match r {
                Some(h) => exists|evs: Seq<MdEvent>, fs: Seq<FootnoteTransformer>, mids: Seq<MdEvent>,
                    ts: Seq<TransformerPipeline<A, B>>, outs: Seq<MdEvent>, notes: Seq<char>| {
                    &&& md_views(evs) == markdown_events(self.text())
                    &&& etch_run(evs, fs, mids, ts, outs)
                    &&& ts[0] == *old(pipeline)
                    &&& ts[evs.len() as int] == *final(pipeline)
                    &&& footnotes_html_of(fs[evs.len() as int], notes)
                    &&& h@ == events_html(md_views(outs)) + notes
                },
                None => exists|evs: Seq<MdEvent>| md_views(evs) == markdown_events(self.text()) && footnotes_stuck(evs),
            },
    {
        self.parse(pipeline)
    }
}

/// Pairs of a number and a position, sorted by number, then position.
fn sort_by_number(items: Vec<(usize, usize)>) -> (r: Vec<(usize, usize)>)
    requires
        forall|a: int, b: int| 0 <= a < b < items@.len() ==> #[trigger] items@[a].1 < #[trigger] items@[b].1,
    ensures
        r@.to_multiset() == items@.to_multiset(),
        forall|a: int, b: int| 0 <= a < b < r@.len() ==> #[trigger] r@[a].0 < #[trigger] r@[b].0
            || (r@[a].0 == r@[b].0 && r@[a].1 < r@[b].1),
{
    let ghost orig = items@;
    let mut out: Vec<(usize, usize)> = Vec::new();
    let mut i: usize = 0;
    proof {
        broadcast use vstd::multiset::group_multiset_axioms, vstd::seq_lib::group_to_multiset_ensures;
        assert(out@ =~= orig.take(0));
    }
    while i < items.len()
        invariant
            i <= items@.len(),
            items@ == orig,
            forall|a: int, b: int| 0 <= a < b < orig.len() ==> #[trigger] orig[a].1 < #[trigger] orig[b].1,
            out@.to_multiset() == orig.take(i as int).to_multiset(),
            forall|a: int, b: int| 0 <= a < b < out@.len() ==> #[trigger] out@[a].0 < #[trigger] out@[b].0
                || (out@[a].0 == out@[b].0 && out@[a].1 < out@[b].1),
            forall|k: int| 0 <= k < out@.len() ==> exists|j: int| 0 <= j < i && #[trigger] out@[k] == orig[j],
        decreases items@.len() - i,
    {
        let x = items[i];
        let mut p: usize = 0;
        while p < out.len() && out[p].0 <= x.0
            invariant
                p <= out@.len(),
                forall|k: int| 0 <= k < p ==> #[trigger] out@[k].0 <= x.0,
            decreases out@.len() - p,
        {
            p += 1;
        }
        let ghost out0 = out@;
        proof {
            assert forall|k: int| 0 <= k < out0.len() implies #[trigger] out0[k].1 < x.1 by {
                let j = choose|j: int| 0 <= j < i && out0[k] == orig[j];
                assert(orig[j].1 < orig[i as int].1);
            }
            if p < out0.len() {
                assert forall|k: int| p <= k < out0.len() implies x.0 < #[trigger] out0[k].0 by {
                    if k > p {
                        assert(out0[p as int].0 < out0[k].0 || out0[p as int].0 == out0[k].0);
                    }
                }
            }
        }
        out.insert(p, x);
        proof {
            assert(out@ == out0.insert(p as int, x));
            assert forall|a: int, b: int| 0 <= a < b < out@.len() implies #[trigger] out@[a].0 < #[trigger] out@[b].0
                || (out@[a].0 == out@[b].0 && out@[a].1 < out@[b].1) by {
                if b < p {
                    assert(out@[a] == out0[a] && out@[b] == out0[b]);
                } else if b == p {
                    assert(out@[a] == out0[a] && out@[b] == x);
                } else if a < p {
                    assert(out@[a] == out0[a] && out@[b] == out0[b - 1]);
                } else if a == p {
                    assert(out@[a] == x && out@[b] == out0[b - 1]);
                } else {
                    assert(out@[a] == out0[a - 1] && out@[b] == out0[b - 1]);
                }
            }
            assert forall|k: int| 0 <= k < out@.len() implies exists|j: int| 0 <= j < i + 1 && #[trigger] out@[k] == orig[j] by {
                if k < p {
                    assert(out@[k] == out0[k]);
                } else if k == p {
                    assert(out@[k] == orig[i as int]);
                } else {
                    assert(out@[k] == out0[k - 1]);
                }
            }
            assert(orig.take(i + 1) == orig.take(i as int).push(x));
            vstd::seq_lib::to_multiset_insert(out0, p as int, x);
            vstd::seq_lib::to_multiset_build(orig.take(i as int), x);
        }
        i += 1;
    }
    assert(orig.take(items@.len() as int) == orig);
    out
}

} // verus!
