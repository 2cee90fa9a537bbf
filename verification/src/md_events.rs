//! Markdown parsed and rendered with pulldown-cmark, its events taken into
//! the library's event model and back.

use vstd::prelude::*;
use crate::md::{HeadingAttrs, MdAlignment, MdBlockQuoteKind, MdCodeBlockKind, MdEvent, MdHeadingLevel, MdLink,
    MdLinkType, MdMetadataBlockKind, MdTag, MdTagEnd};
use crate::text::views;

verus! {

#[verifier::external_type_specification]
#[verifier::external_body]
pub struct ExInlineStr(pulldown_cmark::InlineStr);

#[verifier::external_type_specification]
pub struct ExCowStr<'a>(pulldown_cmark::CowStr<'a>);

/// The named text of an inline string: its characters.
pub uninterp spec fn inline_text(s: pulldown_cmark::InlineStr) -> Seq<char>;

/// The text of a copy-on-write string.
pub open spec fn cow_text(c: pulldown_cmark::CowStr) -> Seq<char> {
    match c {
        pulldown_cmark::CowStr::Boxed(b) => b@,
        pulldown_cmark::CowStr::Borrowed(s) => s@,
        pulldown_cmark::CowStr::Inlined(i) => inline_text(i),
    }
}

/// `InlineStr`'s text as a string (through `Deref<Target = str>`).
#[verifier::external_body]
fn inline_string(s: &pulldown_cmark::InlineStr) -> (r: String)
    ensures
        r@ == inline_text(*s),
{
    String::from(&**s)
}

/// The text of a copy-on-write string, owned.
pub fn cow_string(c: &pulldown_cmark::CowStr) -> (r: String)
    ensures
        r@ == cow_text(*c),
{
    match c {
        pulldown_cmark::CowStr::Boxed(b) => String::from_str(&**b),
        pulldown_cmark::CowStr::Borrowed(s) => String::from_str(s),
        pulldown_cmark::CowStr::Inlined(i) => inline_string(i),
    }
}

#[verifier::external_type_specification]
#[verifier::external_body]
pub struct ExOptions(pulldown_cmark::Options);

#[verifier::external_type_specification]
pub struct ExHeadingLevel(pulldown_cmark::HeadingLevel);

#[verifier::external_type_specification]
pub struct ExBlockQuoteKind(pulldown_cmark::BlockQuoteKind);

#[verifier::external_type_specification]
pub struct ExMetadataBlockKind(pulldown_cmark::MetadataBlockKind);

#[verifier::external_type_specification]
pub struct ExLinkType(pulldown_cmark::LinkType);

#[verifier::external_type_specification]
pub struct ExAlignment(pulldown_cmark::Alignment);

#[verifier::external_type_specification]
pub struct ExCodeBlockKind<'a>(pulldown_cmark::CodeBlockKind<'a>);

#[verifier::external_type_specification]
pub struct ExTag<'a>(pulldown_cmark::Tag<'a>);

#[verifier::external_type_specification]
pub struct ExTagEnd(pulldown_cmark::TagEnd);

#[verifier::external_type_specification]
pub struct ExEvent<'a>(pulldown_cmark::Event<'a>);

/// The view of the attributes of a heading.
pub struct HeadingAttrsV {
    pub id: Option<Seq<char>>,
    pub classes: Seq<Seq<char>>,
    pub attrs: Seq<(Seq<char>, Option<Seq<char>>)>,
}

/// The view of a link or an image.
pub struct LinkV {
    pub link_type: MdLinkType,
    pub dest_url: Seq<char>,
    pub title: Seq<char>,
    pub id: Seq<char>,
}

/// The view of the start of an element passed through.
pub enum MdTagV {
    BlockQuote(Option<MdBlockQuoteKind>),
    HtmlBlock,
    List(Option<u64>),
    Item,
    DefinitionList,
    DefinitionListTitle,
    DefinitionListDefinition,
    Table(Seq<MdAlignment>),
    TableHead,
    TableRow,
    TableCell,
    Emphasis,
    Strong,
    Strikethrough,
    Superscript,
    Subscript,
    Link(LinkV),
    Image(LinkV),
    MetadataBlock(MdMetadataBlockKind),
}

/// The view of how a code block is marked.
pub enum CodeBlockKindV {
    Fenced(Seq<char>),
    Indented,
}

/// The view of an event: its texts by their characters.
pub enum MdEventV {
    StartParagraph,
    EndParagraph,
    StartHeading(MdHeadingLevel, HeadingAttrsV),
    EndHeading(MdHeadingLevel),
    StartFootnoteDefinition(Seq<char>),
    EndFootnoteDefinition,
    FootnoteReference(Seq<char>),
    StartCodeBlock(CodeBlockKindV),
    EndCodeBlock,
    Code(Seq<char>),
    Html(Seq<char>),
    Text(Seq<char>),
    StartTag(MdTagV),
    EndTag(MdTagEnd),
    InlineMath(Seq<char>),
    DisplayMath(Seq<char>),
    InlineHtml(Seq<char>),
    SoftBreak,
    HardBreak,
    Rule,
    TaskListMarker(bool),
}

/// The view of an optional text.
pub open spec fn opt_view(o: Option<String>) -> Option<Seq<char>> {
    match o {
        Some(s) => Some(s@),
        None => None,
    }
}

/// The views of attribute pairs.
pub open spec fn pairs_view(v: Seq<(String, Option<String>)>) -> Seq<(Seq<char>, Option<Seq<char>>)> {
    v.map_values(|p: (String, Option<String>)| (p.0@, opt_view(p.1)))
}

/// The view of heading attributes.
pub open spec fn heading_attrs_view(h: HeadingAttrs) -> HeadingAttrsV {
    HeadingAttrsV { id: opt_view(h.id), classes: views(h.classes@), attrs: pairs_view(h.attrs@) }
}

/// The view of a link.
pub open spec fn link_view(l: MdLink) -> LinkV {
    LinkV { link_type: l.link_type, dest_url: l.dest_url@, title: l.title@, id: l.id@ }
}

/// The view of the start of an element.
pub open spec fn tag_view(t: MdTag) -> MdTagV {
    match t {
        MdTag::BlockQuote(k) => MdTagV::BlockQuote(k),
        MdTag::HtmlBlock => MdTagV::HtmlBlock,
        MdTag::List(n) => MdTagV::List(n),
        MdTag::Item => MdTagV::Item,
        MdTag::DefinitionList => MdTagV::DefinitionList,
        MdTag::DefinitionListTitle => MdTagV::DefinitionListTitle,
        MdTag::DefinitionListDefinition => MdTagV::DefinitionListDefinition,
        MdTag::Table(a) => MdTagV::Table(a@),
        MdTag::TableHead => MdTagV::TableHead,
        MdTag::TableRow => MdTagV::TableRow,
        MdTag::TableCell => MdTagV::TableCell,
        MdTag::Emphasis => MdTagV::Emphasis,
        MdTag::Strong => MdTagV::Strong,
        MdTag::Strikethrough => MdTagV::Strikethrough,
        MdTag::Superscript => MdTagV::Superscript,
        MdTag::Subscript => MdTagV::Subscript,
        MdTag::Link(l) => MdTagV::Link(link_view(l)),
        MdTag::Image(l) => MdTagV::Image(link_view(l)),
        MdTag::MetadataBlock(k) => MdTagV::MetadataBlock(k),
    }
}

/// The view of an event.
pub open spec fn md_view(e: MdEvent) -> MdEventV {
    match e {
        MdEvent::StartParagraph => MdEventV::StartParagraph,
        MdEvent::EndParagraph => MdEventV::EndParagraph,
        MdEvent::StartHeading(l, a) => MdEventV::StartHeading(l, heading_attrs_view(a)),
        MdEvent::EndHeading(l) => MdEventV::EndHeading(l),
        MdEvent::StartFootnoteDefinition(n) => MdEventV::StartFootnoteDefinition(n@),
        MdEvent::EndFootnoteDefinition => MdEventV::EndFootnoteDefinition,
        MdEvent::FootnoteReference(n) => MdEventV::FootnoteReference(n@),
        MdEvent::StartCodeBlock(k) => MdEventV::StartCodeBlock(match k {
            MdCodeBlockKind::Fenced(lang) => CodeBlockKindV::Fenced(lang@),
            MdCodeBlockKind::Indented => CodeBlockKindV::Indented,
        }),
        MdEvent::EndCodeBlock => MdEventV::EndCodeBlock,
        MdEvent::Code(t) => MdEventV::Code(t@),
        MdEvent::Html(t) => MdEventV::Html(t@),
        MdEvent::Text(t) => MdEventV::Text(t@),
        MdEvent::StartTag(t) => MdEventV::StartTag(tag_view(t)),
        MdEvent::EndTag(t) => MdEventV::EndTag(t),
        MdEvent::InlineMath(t) => MdEventV::InlineMath(t@),
        MdEvent::DisplayMath(t) => MdEventV::DisplayMath(t@),
        MdEvent::InlineHtml(t) => MdEventV::InlineHtml(t@),
        MdEvent::SoftBreak => MdEventV::SoftBreak,
        MdEvent::HardBreak => MdEventV::HardBreak,
        MdEvent::Rule => MdEventV::Rule,
        MdEvent::TaskListMarker(b) => MdEventV::TaskListMarker(b),
    }
}

/// The views of events.
pub open spec fn md_views(s: Seq<MdEvent>) -> Seq<MdEventV> {
    s.map_values(|e: MdEvent| md_view(e))
}

/// The level of a pulldown-cmark heading.
pub open spec fn level_of(l: pulldown_cmark::HeadingLevel) -> MdHeadingLevel {
    match l {
        pulldown_cmark::HeadingLevel::H1 => MdHeadingLevel::H1,
        pulldown_cmark::HeadingLevel::H2 => MdHeadingLevel::H2,
        pulldown_cmark::HeadingLevel::H3 => MdHeadingLevel::H3,
        pulldown_cmark::HeadingLevel::H4 => MdHeadingLevel::H4,
        pulldown_cmark::HeadingLevel::H5 => MdHeadingLevel::H5,
        pulldown_cmark::HeadingLevel::H6 => MdHeadingLevel::H6,
    }
}

/// The kind of a pulldown-cmark block quote.
pub open spec fn quote_kind_of(k: Option<pulldown_cmark::BlockQuoteKind>) -> Option<MdBlockQuoteKind> {
    match k {
        Some(pulldown_cmark::BlockQuoteKind::Note) => Some(MdBlockQuoteKind::Note),
        Some(pulldown_cmark::BlockQuoteKind::Tip) => Some(MdBlockQuoteKind::Tip),
        Some(pulldown_cmark::BlockQuoteKind::Important) => Some(MdBlockQuoteKind::Important),
        Some(pulldown_cmark::BlockQuoteKind::Warning) => Some(MdBlockQuoteKind::Warning),
        Some(pulldown_cmark::BlockQuoteKind::Caution) => Some(MdBlockQuoteKind::Caution),
        _ => Option::None,
    }
}

/// The kind of a pulldown-cmark metadata block.
pub open spec fn metadata_kind_of(k: pulldown_cmark::MetadataBlockKind) -> MdMetadataBlockKind {
    match k {
        pulldown_cmark::MetadataBlockKind::YamlStyle => MdMetadataBlockKind::YamlStyle,
        pulldown_cmark::MetadataBlockKind::PlusesStyle => MdMetadataBlockKind::PlusesStyle,
    }
}

/// The alignment of a pulldown-cmark table column.
pub open spec fn alignment_of(a: pulldown_cmark::Alignment) -> MdAlignment {
    match a {
        pulldown_cmark::Alignment::Left => MdAlignment::Left,
        pulldown_cmark::Alignment::Center => MdAlignment::Center,
        pulldown_cmark::Alignment::Right => MdAlignment::Right,
        _ => MdAlignment::Unaligned,
    }
}

/// The type of a pulldown-cmark link.
pub open spec fn link_type_of(t: pulldown_cmark::LinkType) -> MdLinkType {
    match t {
        pulldown_cmark::LinkType::Inline => MdLinkType::Inline,
        pulldown_cmark::LinkType::Reference => MdLinkType::Reference,
        pulldown_cmark::LinkType::ReferenceUnknown => MdLinkType::ReferenceUnknown,
        pulldown_cmark::LinkType::Collapsed => MdLinkType::Collapsed,
        pulldown_cmark::LinkType::CollapsedUnknown => MdLinkType::CollapsedUnknown,
        pulldown_cmark::LinkType::Shortcut => MdLinkType::Shortcut,
        pulldown_cmark::LinkType::ShortcutUnknown => MdLinkType::ShortcutUnknown,
        pulldown_cmark::LinkType::Autolink => MdLinkType::Autolink,
        pulldown_cmark::LinkType::Email => MdLinkType::Email,
        pulldown_cmark::LinkType::WikiLink { has_pothole } => MdLinkType::WikiLink { has_pothole },
    }
}

/// The texts of copy-on-write strings.
pub open spec fn cow_texts(v: Seq<pulldown_cmark::CowStr>) -> Seq<Seq<char>> {
    v.map_values(|c: pulldown_cmark::CowStr| cow_text(c))
}

/// The view of an optional copy-on-write string.
pub open spec fn opt_cow_text(o: Option<pulldown_cmark::CowStr>) -> Option<Seq<char>> {
    match o {
        Some(c) => Some(cow_text(c)),
        _ => Option::None,
    }
}

/// The texts of attribute pairs of copy-on-write strings.
pub open spec fn cow_pairs(v: Seq<(pulldown_cmark::CowStr, Option<pulldown_cmark::CowStr>)>) -> Seq<(Seq<char>, Option<Seq<char>>)> {
    v.map_values(|p: (pulldown_cmark::CowStr, Option<pulldown_cmark::CowStr>)| (cow_text(p.0), opt_cow_text(p.1)))
}

/// The end of an element passed through, by its pulldown-cmark end.
pub open spec fn tag_end_of(t: pulldown_cmark::TagEnd) -> MdTagEnd {
    match t {
        pulldown_cmark::TagEnd::BlockQuote(k) => MdTagEnd::BlockQuote(quote_kind_of(k)),
        pulldown_cmark::TagEnd::HtmlBlock => MdTagEnd::HtmlBlock,
        pulldown_cmark::TagEnd::List(o) => MdTagEnd::List(o),
        pulldown_cmark::TagEnd::Item => MdTagEnd::Item,
        pulldown_cmark::TagEnd::DefinitionList => MdTagEnd::DefinitionList,
        pulldown_cmark::TagEnd::DefinitionListTitle => MdTagEnd::DefinitionListTitle,
        pulldown_cmark::TagEnd::DefinitionListDefinition => MdTagEnd::DefinitionListDefinition,
        pulldown_cmark::TagEnd::Table => MdTagEnd::Table,
        pulldown_cmark::TagEnd::TableHead => MdTagEnd::TableHead,
        pulldown_cmark::TagEnd::TableRow => MdTagEnd::TableRow,
        pulldown_cmark::TagEnd::TableCell => MdTagEnd::TableCell,
        pulldown_cmark::TagEnd::Emphasis => MdTagEnd::Emphasis,
        pulldown_cmark::TagEnd::Strong => MdTagEnd::Strong,
        pulldown_cmark::TagEnd::Strikethrough => MdTagEnd::Strikethrough,
        pulldown_cmark::TagEnd::Superscript => MdTagEnd::Superscript,
        pulldown_cmark::TagEnd::Subscript => MdTagEnd::Subscript,
        pulldown_cmark::TagEnd::Link => MdTagEnd::Link,
        pulldown_cmark::TagEnd::Image => MdTagEnd::Image,
        pulldown_cmark::TagEnd::MetadataBlock(k) => MdTagEnd::MetadataBlock(metadata_kind_of(k)),
        _ => MdTagEnd::Item,
    }
}

/// The view of a pulldown-cmark event.
pub open spec fn event_view(e: pulldown_cmark::Event) -> MdEventV {
    match e {
        pulldown_cmark::Event::Start(tag) => match tag {
            pulldown_cmark::Tag::Paragraph => MdEventV::StartParagraph,
            pulldown_cmark::Tag::Heading { level, id, classes, attrs } => MdEventV::StartHeading(level_of(level),
                HeadingAttrsV { id: opt_cow_text(id), classes: cow_texts(classes@), attrs: cow_pairs(attrs@) }),
            pulldown_cmark::Tag::BlockQuote(k) => MdEventV::StartTag(MdTagV::BlockQuote(quote_kind_of(k))),
            pulldown_cmark::Tag::CodeBlock(k) => MdEventV::StartCodeBlock(match k {
                pulldown_cmark::CodeBlockKind::Fenced(lang) => CodeBlockKindV::Fenced(cow_text(lang)),
                pulldown_cmark::CodeBlockKind::Indented => CodeBlockKindV::Indented,
            }),
            pulldown_cmark::Tag::HtmlBlock => MdEventV::StartTag(MdTagV::HtmlBlock),
            pulldown_cmark::Tag::List(n) => MdEventV::StartTag(MdTagV::List(n)),
            pulldown_cmark::Tag::Item => MdEventV::StartTag(MdTagV::Item),
            pulldown_cmark::Tag::FootnoteDefinition(n) => MdEventV::StartFootnoteDefinition(cow_text(n)),
            pulldown_cmark::Tag::DefinitionList => MdEventV::StartTag(MdTagV::DefinitionList),
            pulldown_cmark::Tag::DefinitionListTitle => MdEventV::StartTag(MdTagV::DefinitionListTitle),
            pulldown_cmark::Tag::DefinitionListDefinition => MdEventV::StartTag(MdTagV::DefinitionListDefinition),
            pulldown_cmark::Tag::Table(a) => MdEventV::StartTag(MdTagV::Table(a@.map_values(
                |x: pulldown_cmark::Alignment| alignment_of(x)))),
            pulldown_cmark::Tag::TableHead => MdEventV::StartTag(MdTagV::TableHead),
            pulldown_cmark::Tag::TableRow => MdEventV::StartTag(MdTagV::TableRow),
            pulldown_cmark::Tag::TableCell => MdEventV::StartTag(MdTagV::TableCell),
            pulldown_cmark::Tag::Emphasis => MdEventV::StartTag(MdTagV::Emphasis),
            pulldown_cmark::Tag::Strong => MdEventV::StartTag(MdTagV::Strong),
            pulldown_cmark::Tag::Strikethrough => MdEventV::StartTag(MdTagV::Strikethrough),
            pulldown_cmark::Tag::Superscript => MdEventV::StartTag(MdTagV::Superscript),
            pulldown_cmark::Tag::Subscript => MdEventV::StartTag(MdTagV::Subscript),
            pulldown_cmark::Tag::Link { link_type, dest_url, title, id } => MdEventV::StartTag(MdTagV::Link(LinkV {
                link_type: link_type_of(link_type), dest_url: cow_text(dest_url), title: cow_text(title), id: cow_text(id),
            })),
            pulldown_cmark::Tag::Image { link_type, dest_url, title, id } => MdEventV::StartTag(MdTagV::Image(LinkV {
                link_type: link_type_of(link_type), dest_url: cow_text(dest_url), title: cow_text(title), id: cow_text(id),
            })),
            pulldown_cmark::Tag::MetadataBlock(k) => MdEventV::StartTag(MdTagV::MetadataBlock(metadata_kind_of(k))),
        },
        pulldown_cmark::Event::End(t) => match t {
            pulldown_cmark::TagEnd::Paragraph => MdEventV::EndParagraph,
            pulldown_cmark::TagEnd::Heading(l) => MdEventV::EndHeading(level_of(l)),
            pulldown_cmark::TagEnd::CodeBlock => MdEventV::EndCodeBlock,
            pulldown_cmark::TagEnd::FootnoteDefinition => MdEventV::EndFootnoteDefinition,
            _ => MdEventV::EndTag(tag_end_of(t)),
        },
        pulldown_cmark::Event::Text(c) => MdEventV::Text(cow_text(c)),
        pulldown_cmark::Event::Code(c) => MdEventV::Code(cow_text(c)),
        pulldown_cmark::Event::InlineMath(c) => MdEventV::InlineMath(cow_text(c)),
        pulldown_cmark::Event::DisplayMath(c) => MdEventV::DisplayMath(cow_text(c)),
        pulldown_cmark::Event::Html(c) => MdEventV::Html(cow_text(c)),
        pulldown_cmark::Event::InlineHtml(c) => MdEventV::InlineHtml(cow_text(c)),
        pulldown_cmark::Event::FootnoteReference(c) => MdEventV::FootnoteReference(cow_text(c)),
        pulldown_cmark::Event::SoftBreak => MdEventV::SoftBreak,
        pulldown_cmark::Event::HardBreak => MdEventV::HardBreak,
        pulldown_cmark::Event::Rule => MdEventV::Rule,
        pulldown_cmark::Event::TaskListMarker(b) => MdEventV::TaskListMarker(b),
    }
}

/// The views of pulldown-cmark events.
pub open spec fn events_view(s: Seq<pulldown_cmark::Event>) -> Seq<MdEventV> {
    s.map_values(|e: pulldown_cmark::Event| event_view(e))
}


/// `CowStr::from(String)`: the owned string, boxed.
#[verifier::external_body]
fn cow_of(s: String) -> (r: pulldown_cmark::CowStr<'static>)
    ensures
        cow_text(r) == s@,
{
    pulldown_cmark::CowStr::from(s)
}

/// The texts of copy-on-write strings, owned.
fn cow_strings(v: &Vec<pulldown_cmark::CowStr>) -> (r: Vec<String>)
    ensures
        views(r@) == cow_texts(v@),
{
    let mut out: Vec<String> = Vec::new();
    let mut i: usize = 0;
    while i < v.len()
        invariant
            i <= v.len(),
            views(out@) == cow_texts(v@.take(i as int)),
        decreases v.len() - i,
    {
        let ghost before = out@;
        out.push(cow_string(&v[i]));
        assert(views(out@) =~= views(before).push(cow_text(v@[i as int])));
        assert(v@.take(i + 1) =~= v@.take(i as int).push(v@[i as int]));
        assert(cow_texts(v@.take(i + 1)) =~= cow_texts(v@.take(i as int)).push(cow_text(v@[i as int])));
        i += 1;
    }
    assert(v@.take(v.len() as int) =~= v@);
    out
}

/// Owned strings as copy-on-write strings.
fn strings_cow(v: Vec<String>) -> (r: Vec<pulldown_cmark::CowStr<'static>>)
    ensures
        cow_texts(r@) == views(v@),
{
    let mut out: Vec<pulldown_cmark::CowStr<'static>> = Vec::new();
    let mut i: usize = 0;
    while i < v.len()
        invariant
            i <= v.len(),
            cow_texts(out@) == views(v@.take(i as int)),
        decreases v.len() - i,
    {
        let ghost before = out@;
        out.push(cow_of(v[i].clone()));
        assert(cow_texts(out@) =~= cow_texts(before).push(v@[i as int]@));
        assert(v@.take(i + 1) =~= v@.take(i as int).push(v@[i as int]));
        assert(views(v@.take(i + 1)) =~= views(v@.take(i as int)).push(v@[i as int]@));
        i += 1;
    }
    assert(v@.take(v.len() as int) =~= v@);
    out
}

/// An optional copy-on-write string, owned.
fn opt_cow_string(o: &Option<pulldown_cmark::CowStr>) -> (r: Option<String>)
    ensures
        opt_view(r) == opt_cow_text(*o),
{
    match o {
        Some(c) => Some(cow_string(c)),
        Option::None => Option::None,
    }
}

/// An optional owned string as a copy-on-write string.
fn opt_string_cow(o: Option<String>) -> (r: Option<pulldown_cmark::CowStr<'static>>)
    ensures
        opt_cow_text(r) == opt_view(o),
{
    match o {
        Some(s) => Some(cow_of(s)),
        Option::None => Option::None,
    }
}

/// Attribute pairs of copy-on-write strings, owned.
fn cow_pair_strings(v: &Vec<(pulldown_cmark::CowStr, Option<pulldown_cmark::CowStr>)>) -> (r: Vec<(String, Option<String>)>)
    ensures
        pairs_view(r@) == cow_pairs(v@),
{
    let mut out: Vec<(String, Option<String>)> = Vec::new();
    let mut i: usize = 0;
    while i < v.len()
        invariant
            i <= v.len(),
            pairs_view(out@) == cow_pairs(v@.take(i as int)),
        decreases v.len() - i,
    {
        let ghost before = out@;
        let p = (cow_string(&v[i].0), opt_cow_string(&v[i].1));
        out.push(p);
        assert(pairs_view(out@) =~= pairs_view(before).push((cow_text(v@[i as int].0), opt_cow_text(v@[i as int].1))));
        assert(v@.take(i + 1) =~= v@.take(i as int).push(v@[i as int]));
        assert(cow_pairs(v@.take(i + 1)) =~= cow_pairs(v@.take(i as int)).push((cow_text(v@[i as int].0),
            opt_cow_text(v@[i as int].1))));
        i += 1;
    }
    assert(v@.take(v.len() as int) =~= v@);
    out
}

/// Owned attribute pairs as copy-on-write strings.
fn pair_strings_cow(v: Vec<(String, Option<String>)>) -> (r: Vec<(pulldown_cmark::CowStr<'static>, Option<pulldown_cmark::CowStr<'static>>)>)
    ensures
        cow_pairs(r@) == pairs_view(v@),
{
    let mut out: Vec<(pulldown_cmark::CowStr<'static>, Option<pulldown_cmark::CowStr<'static>>)> = Vec::new();
    let mut i: usize = 0;
    while i < v.len()
        invariant
            i <= v.len(),
            cow_pairs(out@) == pairs_view(v@.take(i as int)),
        decreases v.len() - i,
    {
        let ghost before = out@;
        let k = cow_of(v[i].0.clone());
        let val = match &v[i].1 {
            Some(x) => Some(cow_of(x.clone())),
            Option::None => Option::None,
        };
        out.push((k, val));
        assert(cow_pairs(out@) =~= cow_pairs(before).push((v@[i as int].0@, opt_view(v@[i as int].1))));
        assert(v@.take(i + 1) =~= v@.take(i as int).push(v@[i as int]));
        assert(pairs_view(v@.take(i + 1)) =~= pairs_view(v@.take(i as int)).push((v@[i as int].0@,
            opt_view(v@[i as int].1))));
        i += 1;
    }
    assert(v@.take(v.len() as int) =~= v@);
    out
}

/// Column alignments of pulldown-cmark.
fn alignments_md(v: &Vec<pulldown_cmark::Alignment>) -> (r: Vec<MdAlignment>)
    ensures
        r@ == v@.map_values(|x: pulldown_cmark::Alignment| alignment_of(x)),
{
    let mut out: Vec<MdAlignment> = Vec::new();
    let mut i: usize = 0;
    while i < v.len()
        invariant
            i <= v.len(),
            out@ == v@.take(i as int).map_values(|x: pulldown_cmark::Alignment| alignment_of(x)),
        decreases v.len() - i,
    {
        let a = match v[i] {
            pulldown_cmark::Alignment::Left => MdAlignment::Left,
            pulldown_cmark::Alignment::Center => MdAlignment::Center,
            pulldown_cmark::Alignment::Right => MdAlignment::Right,
            _ => MdAlignment::Unaligned,
        };
        out.push(a);
        assert(v@.take(i + 1) =~= v@.take(i as int).push(v@[i as int]));
        assert(out@ =~= v@.take(i + 1).map_values(|x: pulldown_cmark::Alignment| alignment_of(x)));
        i += 1;
    }
    assert(v@.take(v.len() as int) =~= v@);
    out
}

/// Column alignments as pulldown-cmark's.
fn alignments_raw(v: Vec<MdAlignment>) -> (r: Vec<pulldown_cmark::Alignment>)
    ensures
        r@.map_values(|x: pulldown_cmark::Alignment| alignment_of(x)) == v@,
{
    let mut out: Vec<pulldown_cmark::Alignment> = Vec::new();
    let mut i: usize = 0;
    while i < v.len()
        invariant
            i <= v.len(),
            out@.map_values(|x: pulldown_cmark::Alignment| alignment_of(x)) == v@.take(i as int),
        decreases v.len() - i,
    {
        let a = match v[i] {
            MdAlignment::Left => pulldown_cmark::Alignment::Left,
            MdAlignment::Center => pulldown_cmark::Alignment::Center,
            MdAlignment::Right => pulldown_cmark::Alignment::Right,
            MdAlignment::Unaligned => pulldown_cmark::Alignment::None,
        };
        let ghost before = out@;
        out.push(a);
        assert(v@.take(i + 1) =~= v@.take(i as int).push(v@[i as int]));
        assert(out@.map_values(|x: pulldown_cmark::Alignment| alignment_of(x)) =~= before.map_values(
            |x: pulldown_cmark::Alignment| alignment_of(x)).push(v@[i as int]));
        i += 1;
    }
    assert(v@.take(v.len() as int) =~= v@);
    out
}

/// A heading level of pulldown-cmark.
fn level_md(l: pulldown_cmark::HeadingLevel) -> (r: MdHeadingLevel)
    ensures
        r == level_of(l),
{
    match l {
        pulldown_cmark::HeadingLevel::H1 => MdHeadingLevel::H1,
        pulldown_cmark::HeadingLevel::H2 => MdHeadingLevel::H2,
        pulldown_cmark::HeadingLevel::H3 => MdHeadingLevel::H3,
        pulldown_cmark::HeadingLevel::H4 => MdHeadingLevel::H4,
        pulldown_cmark::HeadingLevel::H5 => MdHeadingLevel::H5,
        pulldown_cmark::HeadingLevel::H6 => MdHeadingLevel::H6,
    }
}

/// A heading level as pulldown-cmark's.
fn level_raw(l: MdHeadingLevel) -> (r: pulldown_cmark::HeadingLevel)
    ensures
        level_of(r) == l,
{
    match l {
        MdHeadingLevel::H1 => pulldown_cmark::HeadingLevel::H1,
        MdHeadingLevel::H2 => pulldown_cmark::HeadingLevel::H2,
        MdHeadingLevel::H3 => pulldown_cmark::HeadingLevel::H3,
        MdHeadingLevel::H4 => pulldown_cmark::HeadingLevel::H4,
        MdHeadingLevel::H5 => pulldown_cmark::HeadingLevel::H5,
        MdHeadingLevel::H6 => pulldown_cmark::HeadingLevel::H6,
    }
}

/// A block quote kind of pulldown-cmark.
fn quote_kind_md(k: Option<pulldown_cmark::BlockQuoteKind>) -> (r: Option<MdBlockQuoteKind>)
    ensures
        r == quote_kind_of(k),
{
    match k {
        Some(pulldown_cmark::BlockQuoteKind::Note) => Some(MdBlockQuoteKind::Note),
        Some(pulldown_cmark::BlockQuoteKind::Tip) => Some(MdBlockQuoteKind::Tip),
        Some(pulldown_cmark::BlockQuoteKind::Important) => Some(MdBlockQuoteKind::Important),
        Some(pulldown_cmark::BlockQuoteKind::Warning) => Some(MdBlockQuoteKind::Warning),
        Some(pulldown_cmark::BlockQuoteKind::Caution) => Some(MdBlockQuoteKind::Caution),
        _ => Option::None,
    }
}

/// A block quote kind as pulldown-cmark's.
fn quote_kind_raw(k: Option<MdBlockQuoteKind>) -> (r: Option<pulldown_cmark::BlockQuoteKind>)
    ensures
        quote_kind_of(r) == k,
{
    match k {
        Some(MdBlockQuoteKind::Note) => Some(pulldown_cmark::BlockQuoteKind::Note),
        Some(MdBlockQuoteKind::Tip) => Some(pulldown_cmark::BlockQuoteKind::Tip),
        Some(MdBlockQuoteKind::Important) => Some(pulldown_cmark::BlockQuoteKind::Important),
        Some(MdBlockQuoteKind::Warning) => Some(pulldown_cmark::BlockQuoteKind::Warning),
        Some(MdBlockQuoteKind::Caution) => Some(pulldown_cmark::BlockQuoteKind::Caution),
        _ => Option::None,
    }
}

/// A metadata block kind of pulldown-cmark.
fn metadata_md(k: pulldown_cmark::MetadataBlockKind) -> (r: MdMetadataBlockKind)
    ensures
        r == metadata_kind_of(k),
{
    match k {
        pulldown_cmark::MetadataBlockKind::YamlStyle => MdMetadataBlockKind::YamlStyle,
        pulldown_cmark::MetadataBlockKind::PlusesStyle => MdMetadataBlockKind::PlusesStyle,
    }
}

/// A metadata block kind as pulldown-cmark's.
fn metadata_raw(k: MdMetadataBlockKind) -> (r: pulldown_cmark::MetadataBlockKind)
    ensures
        metadata_kind_of(r) == k,
{
    match k {
        MdMetadataBlockKind::YamlStyle => pulldown_cmark::MetadataBlockKind::YamlStyle,
        MdMetadataBlockKind::PlusesStyle => pulldown_cmark::MetadataBlockKind::PlusesStyle,
    }
}

/// A link type of pulldown-cmark.
fn link_type_md(t: pulldown_cmark::LinkType) -> (r: MdLinkType)
    ensures
        r == link_type_of(t),
{
    match t {
        pulldown_cmark::LinkType::Inline => MdLinkType::Inline,
        pulldown_cmark::LinkType::Reference => MdLinkType::Reference,
        pulldown_cmark::LinkType::ReferenceUnknown => MdLinkType::ReferenceUnknown,
        pulldown_cmark::LinkType::Collapsed => MdLinkType::Collapsed,
        pulldown_cmark::LinkType::CollapsedUnknown => MdLinkType::CollapsedUnknown,
        pulldown_cmark::LinkType::Shortcut => MdLinkType::Shortcut,
        pulldown_cmark::LinkType::ShortcutUnknown => MdLinkType::ShortcutUnknown,
        pulldown_cmark::LinkType::Autolink => MdLinkType::Autolink,
        pulldown_cmark::LinkType::Email => MdLinkType::Email,
        pulldown_cmark::LinkType::WikiLink { has_pothole } => MdLinkType::WikiLink { has_pothole },
    }
}

/// A link type as pulldown-cmark's.
fn link_type_raw(t: MdLinkType) -> (r: pulldown_cmark::LinkType)
    ensures
        link_type_of(r) == t,
{
    match t {
        MdLinkType::Inline => pulldown_cmark::LinkType::Inline,
        MdLinkType::Reference => pulldown_cmark::LinkType::Reference,
        MdLinkType::ReferenceUnknown => pulldown_cmark::LinkType::ReferenceUnknown,
        MdLinkType::Collapsed => pulldown_cmark::LinkType::Collapsed,
        MdLinkType::CollapsedUnknown => pulldown_cmark::LinkType::CollapsedUnknown,
        MdLinkType::Shortcut => pulldown_cmark::LinkType::Shortcut,
        MdLinkType::ShortcutUnknown => pulldown_cmark::LinkType::ShortcutUnknown,
        MdLinkType::Autolink => pulldown_cmark::LinkType::Autolink,
        MdLinkType::Email => pulldown_cmark::LinkType::Email,
        MdLinkType::WikiLink { has_pothole } => pulldown_cmark::LinkType::WikiLink { has_pothole },
    }
}

/// The end of an element passed through, as pulldown-cmark's.
fn tag_end_raw(t: MdTagEnd) -> (r: pulldown_cmark::TagEnd)
    ensures
        tag_end_of(r) == t,
        !(r is Paragraph || r is Heading || r is CodeBlock || r is FootnoteDefinition),
{
    match t {
        MdTagEnd::BlockQuote(k) => pulldown_cmark::TagEnd::BlockQuote(quote_kind_raw(k)),
        MdTagEnd::HtmlBlock => pulldown_cmark::TagEnd::HtmlBlock,
        MdTagEnd::List(o) => pulldown_cmark::TagEnd::List(o),
        MdTagEnd::Item => pulldown_cmark::TagEnd::Item,
        MdTagEnd::DefinitionList => pulldown_cmark::TagEnd::DefinitionList,
        MdTagEnd::DefinitionListTitle => pulldown_cmark::TagEnd::DefinitionListTitle,
        MdTagEnd::DefinitionListDefinition => pulldown_cmark::TagEnd::DefinitionListDefinition,
        MdTagEnd::Table => pulldown_cmark::TagEnd::Table,
        MdTagEnd::TableHead => pulldown_cmark::TagEnd::TableHead,
        MdTagEnd::TableRow => pulldown_cmark::TagEnd::TableRow,
        MdTagEnd::TableCell => pulldown_cmark::TagEnd::TableCell,
        MdTagEnd::Emphasis => pulldown_cmark::TagEnd::Emphasis,
        MdTagEnd::Strong => pulldown_cmark::TagEnd::Strong,
        MdTagEnd::Strikethrough => pulldown_cmark::TagEnd::Strikethrough,
        MdTagEnd::Superscript => pulldown_cmark::TagEnd::Superscript,
        MdTagEnd::Subscript => pulldown_cmark::TagEnd::Subscript,
        MdTagEnd::Link => pulldown_cmark::TagEnd::Link,
        MdTagEnd::Image => pulldown_cmark::TagEnd::Image,
        MdTagEnd::MetadataBlock(k) => pulldown_cmark::TagEnd::MetadataBlock(metadata_raw(k)),
    }
}

/// The end of an element passed through, from pulldown-cmark's.
fn tag_end_md(t: pulldown_cmark::TagEnd) -> (r: MdTagEnd)
    ensures
        r == tag_end_of(t),
{
    match t {
        pulldown_cmark::TagEnd::BlockQuote(k) => MdTagEnd::BlockQuote(quote_kind_md(k)),
        pulldown_cmark::TagEnd::HtmlBlock => MdTagEnd::HtmlBlock,
        pulldown_cmark::TagEnd::List(o) => MdTagEnd::List(o),
        pulldown_cmark::TagEnd::DefinitionList => MdTagEnd::DefinitionList,
        pulldown_cmark::TagEnd::DefinitionListTitle => MdTagEnd::DefinitionListTitle,
        pulldown_cmark::TagEnd::DefinitionListDefinition => MdTagEnd::DefinitionListDefinition,
        pulldown_cmark::TagEnd::Table => MdTagEnd::Table,
        pulldown_cmark::TagEnd::TableHead => MdTagEnd::TableHead,
        pulldown_cmark::TagEnd::TableRow => MdTagEnd::TableRow,
        pulldown_cmark::TagEnd::TableCell => MdTagEnd::TableCell,
        pulldown_cmark::TagEnd::Emphasis => MdTagEnd::Emphasis,
        pulldown_cmark::TagEnd::Strong => MdTagEnd::Strong,
        pulldown_cmark::TagEnd::Strikethrough => MdTagEnd::Strikethrough,
        pulldown_cmark::TagEnd::Superscript => MdTagEnd::Superscript,
        pulldown_cmark::TagEnd::Subscript => MdTagEnd::Subscript,
        pulldown_cmark::TagEnd::Link => MdTagEnd::Link,
        pulldown_cmark::TagEnd::Image => MdTagEnd::Image,
        pulldown_cmark::TagEnd::MetadataBlock(k) => MdTagEnd::MetadataBlock(metadata_md(k)),
        _ => MdTagEnd::Item,
    }
}

/// A link of pulldown-cmark.
fn link_md(link_type: pulldown_cmark::LinkType, dest_url: &pulldown_cmark::CowStr, title: &pulldown_cmark::CowStr,
    id: &pulldown_cmark::CowStr) -> (r: MdLink)
    ensures
        link_view(r) == (LinkV { link_type: link_type_of(link_type), dest_url: cow_text(*dest_url),
            title: cow_text(*title), id: cow_text(*id) }),
{
    MdLink { link_type: link_type_md(link_type), dest_url: cow_string(dest_url), title: cow_string(title), id: cow_string(id) }
}

/// The library's event for a pulldown-cmark event.
pub fn md_event(e: &pulldown_cmark::Event) -> (r: MdEvent)
    ensures
        md_view(r) == event_view(*e),
{
    match e {
        pulldown_cmark::Event::Start(tag) => match tag {
            pulldown_cmark::Tag::Paragraph => MdEvent::StartParagraph,
            pulldown_cmark::Tag::Heading { level, id, classes, attrs } => MdEvent::StartHeading(level_md(*level),
                HeadingAttrs { id: opt_cow_string(id), classes: cow_strings(classes), attrs: cow_pair_strings(attrs) }),
            pulldown_cmark::Tag::BlockQuote(k) => MdEvent::StartTag(MdTag::BlockQuote(quote_kind_md(*k))),
            pulldown_cmark::Tag::CodeBlock(k) => MdEvent::StartCodeBlock(match k {
                pulldown_cmark::CodeBlockKind::Fenced(lang) => MdCodeBlockKind::Fenced(cow_string(lang)),
                pulldown_cmark::CodeBlockKind::Indented => MdCodeBlockKind::Indented,
            }),
            pulldown_cmark::Tag::HtmlBlock => MdEvent::StartTag(MdTag::HtmlBlock),
            pulldown_cmark::Tag::List(n) => MdEvent::StartTag(MdTag::List(*n)),
            pulldown_cmark::Tag::Item => MdEvent::StartTag(MdTag::Item),
            pulldown_cmark::Tag::FootnoteDefinition(n) => MdEvent::StartFootnoteDefinition(cow_string(n)),
            pulldown_cmark::Tag::DefinitionList => MdEvent::StartTag(MdTag::DefinitionList),
            pulldown_cmark::Tag::DefinitionListTitle => MdEvent::StartTag(MdTag::DefinitionListTitle),
            pulldown_cmark::Tag::DefinitionListDefinition => MdEvent::StartTag(MdTag::DefinitionListDefinition),
            pulldown_cmark::Tag::Table(a) => MdEvent::StartTag(MdTag::Table(alignments_md(a))),
            pulldown_cmark::Tag::TableHead => MdEvent::StartTag(MdTag::TableHead),
            pulldown_cmark::Tag::TableRow => MdEvent::StartTag(MdTag::TableRow),
            pulldown_cmark::Tag::TableCell => MdEvent::StartTag(MdTag::TableCell),
            pulldown_cmark::Tag::Emphasis => MdEvent::StartTag(MdTag::Emphasis),
            pulldown_cmark::Tag::Strong => MdEvent::StartTag(MdTag::Strong),
            pulldown_cmark::Tag::Strikethrough => MdEvent::StartTag(MdTag::Strikethrough),
            pulldown_cmark::Tag::Superscript => MdEvent::StartTag(MdTag::Superscript),
            pulldown_cmark::Tag::Subscript => MdEvent::StartTag(MdTag::Subscript),
            pulldown_cmark::Tag::Link { link_type, dest_url, title, id } => MdEvent::StartTag(MdTag::Link(
                link_md(*link_type, dest_url, title, id))),
            pulldown_cmark::Tag::Image { link_type, dest_url, title, id } => MdEvent::StartTag(MdTag::Image(
                link_md(*link_type, dest_url, title, id))),
            pulldown_cmark::Tag::MetadataBlock(k) => MdEvent::StartTag(MdTag::MetadataBlock(metadata_md(*k))),
        },
        pulldown_cmark::Event::End(t) => match t {
            pulldown_cmark::TagEnd::Paragraph => MdEvent::EndParagraph,
            pulldown_cmark::TagEnd::Heading(l) => MdEvent::EndHeading(level_md(*l)),
            pulldown_cmark::TagEnd::CodeBlock => MdEvent::EndCodeBlock,
            pulldown_cmark::TagEnd::FootnoteDefinition => MdEvent::EndFootnoteDefinition,
            _ => MdEvent::EndTag(tag_end_md(*t)),
        },
        pulldown_cmark::Event::Text(c) => MdEvent::Text(cow_string(c)),
        pulldown_cmark::Event::Code(c) => MdEvent::Code(cow_string(c)),
        pulldown_cmark::Event::InlineMath(c) => MdEvent::InlineMath(cow_string(c)),
        pulldown_cmark::Event::DisplayMath(c) => MdEvent::DisplayMath(cow_string(c)),
        pulldown_cmark::Event::Html(c) => MdEvent::Html(cow_string(c)),
        pulldown_cmark::Event::InlineHtml(c) => MdEvent::InlineHtml(cow_string(c)),
        pulldown_cmark::Event::FootnoteReference(c) => MdEvent::FootnoteReference(cow_string(c)),
        pulldown_cmark::Event::SoftBreak => MdEvent::SoftBreak,
        pulldown_cmark::Event::HardBreak => MdEvent::HardBreak,
        pulldown_cmark::Event::Rule => MdEvent::Rule,
        pulldown_cmark::Event::TaskListMarker(b) => MdEvent::TaskListMarker(*b),
    }
}

/// A link as the fields of a pulldown-cmark link.
fn link_raw(l: MdLink) -> (r: (pulldown_cmark::LinkType, pulldown_cmark::CowStr<'static>, pulldown_cmark::CowStr<'static>,
    pulldown_cmark::CowStr<'static>))
    ensures
        link_type_of(r.0) == l.link_type,
        cow_text(r.1) == l.dest_url@,
        cow_text(r.2) == l.title@,
        cow_text(r.3) == l.id@,
{
    (link_type_raw(l.link_type), cow_of(l.dest_url), cow_of(l.title), cow_of(l.id))
}

/// The pulldown-cmark event for an event of the library.
pub fn raw_event(m: MdEvent) -> (r: pulldown_cmark::Event<'static>)
    ensures
        event_view(r) == md_view(m),
{
    match m {
        MdEvent::StartParagraph => pulldown_cmark::Event::Start(pulldown_cmark::Tag::Paragraph),
        MdEvent::EndParagraph => pulldown_cmark::Event::End(pulldown_cmark::TagEnd::Paragraph),
        MdEvent::StartHeading(l, a) => pulldown_cmark::Event::Start(pulldown_cmark::Tag::Heading {
            level: level_raw(l),
            id: opt_string_cow(a.id),
            classes: strings_cow(a.classes),
            attrs: pair_strings_cow(a.attrs),
        }),
        MdEvent::EndHeading(l) => pulldown_cmark::Event::End(pulldown_cmark::TagEnd::Heading(level_raw(l))),
        MdEvent::StartFootnoteDefinition(n) => pulldown_cmark::Event::Start(pulldown_cmark::Tag::FootnoteDefinition(cow_of(n))),
        MdEvent::EndFootnoteDefinition => pulldown_cmark::Event::End(pulldown_cmark::TagEnd::FootnoteDefinition),
        MdEvent::FootnoteReference(n) => pulldown_cmark::Event::FootnoteReference(cow_of(n)),
        MdEvent::StartCodeBlock(k) => pulldown_cmark::Event::Start(pulldown_cmark::Tag::CodeBlock(match k {
            MdCodeBlockKind::Fenced(lang) => pulldown_cmark::CodeBlockKind::Fenced(cow_of(lang)),
            MdCodeBlockKind::Indented => pulldown_cmark::CodeBlockKind::Indented,
        })),
        MdEvent::EndCodeBlock => pulldown_cmark::Event::End(pulldown_cmark::TagEnd::CodeBlock),
        MdEvent::Code(t) => pulldown_cmark::Event::Code(cow_of(t)),
        MdEvent::Html(t) => pulldown_cmark::Event::Html(cow_of(t)),
        MdEvent::Text(t) => pulldown_cmark::Event::Text(cow_of(t)),
        MdEvent::StartTag(t) => pulldown_cmark::Event::Start(match t {
            MdTag::BlockQuote(k) => pulldown_cmark::Tag::BlockQuote(quote_kind_raw(k)),
            MdTag::HtmlBlock => pulldown_cmark::Tag::HtmlBlock,
            MdTag::List(n) => pulldown_cmark::Tag::List(n),
            MdTag::Item => pulldown_cmark::Tag::Item,
            MdTag::DefinitionList => pulldown_cmark::Tag::DefinitionList,
            MdTag::DefinitionListTitle => pulldown_cmark::Tag::DefinitionListTitle,
            MdTag::DefinitionListDefinition => pulldown_cmark::Tag::DefinitionListDefinition,
            MdTag::Table(a) => pulldown_cmark::Tag::Table(alignments_raw(a)),
            MdTag::TableHead => pulldown_cmark::Tag::TableHead,
            MdTag::TableRow => pulldown_cmark::Tag::TableRow,
            MdTag::TableCell => pulldown_cmark::Tag::TableCell,
            MdTag::Emphasis => pulldown_cmark::Tag::Emphasis,
            MdTag::Strong => pulldown_cmark::Tag::Strong,
            MdTag::Strikethrough => pulldown_cmark::Tag::Strikethrough,
            MdTag::Superscript => pulldown_cmark::Tag::Superscript,
            MdTag::Subscript => pulldown_cmark::Tag::Subscript,
            MdTag::Link(l) => {
                let (link_type, dest_url, title, id) = link_raw(l);
                pulldown_cmark::Tag::Link { link_type, dest_url, title, id }
            },
            MdTag::Image(l) => {
                let (link_type, dest_url, title, id) = link_raw(l);
                pulldown_cmark::Tag::Image { link_type, dest_url, title, id }
            },
            MdTag::MetadataBlock(k) => pulldown_cmark::Tag::MetadataBlock(metadata_raw(k)),
        }),
        MdEvent::EndTag(t) => pulldown_cmark::Event::End(tag_end_raw(t)),
        MdEvent::InlineMath(t) => pulldown_cmark::Event::InlineMath(cow_of(t)),
        MdEvent::DisplayMath(t) => pulldown_cmark::Event::DisplayMath(cow_of(t)),
        MdEvent::InlineHtml(t) => pulldown_cmark::Event::InlineHtml(cow_of(t)),
        MdEvent::SoftBreak => pulldown_cmark::Event::SoftBreak,
        MdEvent::HardBreak => pulldown_cmark::Event::HardBreak,
        MdEvent::Rule => pulldown_cmark::Event::Rule,
        MdEvent::TaskListMarker(b) => pulldown_cmark::Event::TaskListMarker(b),
    }
}

/// The named result of parsing Markdown with pulldown-cmark and all its
/// extensions: the views of the events, in order.
pub uninterp spec fn markdown_events(md: Seq<char>) -> Seq<MdEventV>;

/// The named result of rendering events as HTML with pulldown-cmark.
pub uninterp spec fn events_html(events: Seq<MdEventV>) -> Seq<char>;

/// `Parser::new_ext` with all options (`Options::all()`), collected: the
/// events are those that `markdown_events` names for the text.
#[verifier::external_body]
fn parse_raw<'a>(md: &'a str) -> (r: Vec<pulldown_cmark::Event<'a>>)
    ensures
        events_view(r@) == markdown_events(md@),
{
    pulldown_cmark::Parser::new_ext(md, pulldown_cmark::Options::all()).collect()
}

/// `pulldown_cmark::html::push_html` into an empty string: the HTML is
/// `events_html` of the events' views, which hold all that it reads of them.
#[verifier::external_body]
fn render_raw(events: Vec<pulldown_cmark::Event<'static>>) -> (r: String)
    ensures
        r@ == events_html(events_view(events@)),
{
    let mut html = String::new();
    pulldown_cmark::html::push_html(&mut html, events.into_iter());
    html
}

/// The events of Markdown text, as pulldown-cmark parses it with all its
/// extensions.
pub fn parse_markdown(md: &str) -> (r: Vec<MdEvent>)
    ensures
        md_views(r@) == markdown_events(md@),
{
    let raw = parse_raw(md);
    let mut out: Vec<MdEvent> = Vec::new();
    let mut i: usize = 0;
    while i < raw.len()
        invariant
            i <= raw.len(),
            md_views(out@) == events_view(raw@.take(i as int)),
        decreases raw.len() - i,
    {
        let ghost before = out@;
        let e = md_event(&raw[i]);
        out.push(e);
        assert(md_views(out@) =~= md_views(before).push(event_view(raw@[i as int])));
        assert(raw@.take(i + 1) =~= raw@.take(i as int).push(raw@[i as int]));
        assert(events_view(raw@.take(i + 1)) =~= events_view(raw@.take(i as int)).push(event_view(raw@[i as int])));
        i += 1;
    }
    assert(raw@.take(raw.len() as int) =~= raw@);
    out
}

/// The HTML of events, as pulldown-cmark renders them.
pub fn render_html(events: Vec<MdEvent>) -> (r: String)
    ensures
        r@ == events_html(md_views(events@)),
{
    let ghost evs0 = events@;
    let ghost views0 = md_views(evs0);
    let mut raw: Vec<pulldown_cmark::Event<'static>> = Vec::new();
    let mut rest = events;
    proof {
        assert(events_view(raw@) =~= views0.take(0));
        assert(rest@ =~= evs0.skip(0));
    }
    while rest.len() > 0
        invariant
            views0 == md_views(evs0),
            raw@.len() <= evs0.len(),
            rest@ == evs0.skip(raw@.len() as int),
            events_view(raw@) == views0.take(raw@.len() as int),
        decreases rest.len(),
    {
        let ghost j = raw@.len() as int;
        let ghost before = raw@;
        let m = rest.remove(0);
        proof {
            assert(m == evs0[j]);
            assert(rest@ =~= evs0.skip(j + 1));
        }
        let e = raw_event(m);
        raw.push(e);
        proof {
            assert(events_view(raw@) =~= events_view(before).push(event_view(e)));
            assert(views0.take(j + 1) =~= views0.take(j).push(views0[j]));
        }
    }
    assert(views0.take(evs0.len() as int) =~= views0);
    render_raw(raw)
}

/// A copy of a list of strings.
fn copy_strings(v: &Vec<String>) -> (r: Vec<String>)
    ensures
        views(r@) == views(v@),
{
    let mut out: Vec<String> = Vec::new();
    let mut i: usize = 0;
    while i < v.len()
        invariant
            i <= v.len(),
            views(out@) == views(v@.take(i as int)),
        decreases v.len() - i,
    {
        let ghost before = out@;
        out.push(v[i].clone());
        assert(views(out@) =~= views(before).push(v@[i as int]@));
        assert(v@.take(i + 1) =~= v@.take(i as int).push(v@[i as int]));
        assert(views(v@.take(i + 1)) =~= views(v@.take(i as int)).push(v@[i as int]@));
        i += 1;
    }
    assert(v@.take(v.len() as int) =~= v@);
    out
}

/// A copy of attribute pairs.
fn copy_pairs(v: &Vec<(String, Option<String>)>) -> (r: Vec<(String, Option<String>)>)
    ensures
        pairs_view(r@) == pairs_view(v@),
{
    let mut out: Vec<(String, Option<String>)> = Vec::new();
    let mut i: usize = 0;
    while i < v.len()
        invariant
            i <= v.len(),
            pairs_view(out@) == pairs_view(v@.take(i as int)),
        decreases v.len() - i,
    {
        let ghost before = out@;
        let val = match &v[i].1 {
            Some(x) => Some(x.clone()),
            Option::None => Option::None,
        };
        out.push((v[i].0.clone(), val));
        assert(pairs_view(out@) =~= pairs_view(before).push((v@[i as int].0@, opt_view(v@[i as int].1))));
        assert(v@.take(i + 1) =~= v@.take(i as int).push(v@[i as int]));
        assert(pairs_view(v@.take(i + 1)) =~= pairs_view(v@.take(i as int)).push((v@[i as int].0@,
            opt_view(v@[i as int].1))));
        i += 1;
    }
    assert(v@.take(v.len() as int) =~= v@);
    out
}

/// A copy of a link.
fn copy_link(l: &MdLink) -> (r: MdLink)
    ensures
        link_view(r) == link_view(*l),
{
    MdLink { link_type: l.link_type, dest_url: l.dest_url.clone(), title: l.title.clone(), id: l.id.clone() }
}

/// A copy of an event.
pub fn copy_event(e: &MdEvent) -> (r: MdEvent)
    ensures
        md_view(r) == md_view(*e),
{
    match e {
        MdEvent::StartParagraph => MdEvent::StartParagraph,
        MdEvent::EndParagraph => MdEvent::EndParagraph,
        MdEvent::StartHeading(l, a) => {
            let id = match &a.id {
                Some(x) => Some(x.clone()),
                Option::None => Option::None,
            };
            MdEvent::StartHeading(*l, HeadingAttrs { id, classes: copy_strings(&a.classes), attrs: copy_pairs(&a.attrs) })
        },
        MdEvent::EndHeading(l) => MdEvent::EndHeading(*l),
        MdEvent::StartFootnoteDefinition(n) => MdEvent::StartFootnoteDefinition(n.clone()),
        MdEvent::EndFootnoteDefinition => MdEvent::EndFootnoteDefinition,
        MdEvent::FootnoteReference(n) => MdEvent::FootnoteReference(n.clone()),
        MdEvent::StartCodeBlock(k) => MdEvent::StartCodeBlock(match k {
            MdCodeBlockKind::Fenced(lang) => MdCodeBlockKind::Fenced(lang.clone()),
            MdCodeBlockKind::Indented => MdCodeBlockKind::Indented,
        }),
        MdEvent::EndCodeBlock => MdEvent::EndCodeBlock,
        MdEvent::Code(t) => MdEvent::Code(t.clone()),
        MdEvent::Html(t) => MdEvent::Html(t.clone()),
        MdEvent::Text(t) => MdEvent::Text(t.clone()),
        MdEvent::StartTag(t) => MdEvent::StartTag(match t {
            MdTag::BlockQuote(k) => MdTag::BlockQuote(*k),
            MdTag::HtmlBlock => MdTag::HtmlBlock,
            MdTag::List(n) => MdTag::List(*n),
            MdTag::Item => MdTag::Item,
            MdTag::DefinitionList => MdTag::DefinitionList,
            MdTag::DefinitionListTitle => MdTag::DefinitionListTitle,
            MdTag::DefinitionListDefinition => MdTag::DefinitionListDefinition,
            MdTag::Table(a) => {
                let mut v: Vec<MdAlignment> = Vec::new();
                let mut i: usize = 0;
                while i < a.len()
                    invariant
                        i <= a.len(),
                        v@ == a@.take(i as int),
                    decreases a.len() - i,
                {
                    v.push(a[i]);
                    assert(a@.take(i + 1) =~= a@.take(i as int).push(a@[i as int]));
                    i += 1;
                }
                assert(a@.take(a.len() as int) =~= a@);
                MdTag::Table(v)
            },
            MdTag::TableHead => MdTag::TableHead,
            MdTag::TableRow => MdTag::TableRow,
            MdTag::TableCell => MdTag::TableCell,
            MdTag::Emphasis => MdTag::Emphasis,
            MdTag::Strong => MdTag::Strong,
            MdTag::Strikethrough => MdTag::Strikethrough,
            MdTag::Superscript => MdTag::Superscript,
            MdTag::Subscript => MdTag::Subscript,
            MdTag::Link(l) => MdTag::Link(copy_link(l)),
            MdTag::Image(l) => MdTag::Image(copy_link(l)),
            MdTag::MetadataBlock(k) => MdTag::MetadataBlock(*k),
        }),
        MdEvent::EndTag(t) => MdEvent::EndTag(*t),
        MdEvent::InlineMath(t) => MdEvent::InlineMath(t.clone()),
        MdEvent::DisplayMath(t) => MdEvent::DisplayMath(t.clone()),
        MdEvent::InlineHtml(t) => MdEvent::InlineHtml(t.clone()),
        MdEvent::SoftBreak => MdEvent::SoftBreak,
        MdEvent::HardBreak => MdEvent::HardBreak,
        MdEvent::Rule => MdEvent::Rule,
        MdEvent::TaskListMarker(b) => MdEvent::TaskListMarker(*b),
    }
}

} // verus!
