//! Syntax highlighting of Rust code in a Markdown event stream, with
//! syntect's syntaxes and class-based HTML.

use vstd::prelude::*;
use syntect::html::{ClassStyle, ClassedHTMLGenerator};
use syntect::parsing::SyntaxSet;
use crate::md::{MdCodeBlockKind, MarkdownTransformer, MdEvent};
use crate::text::{chars_of, str_eq, string_of, views};

verus! {

#[verifier::external_type_specification]
#[verifier::external_body]
pub struct ExSyntaxSet(SyntaxSet);

/// `SyntaxSet::load_defaults_newlines`: the syntaxes that syntect comes
/// with, for lines that keep their newline. Nothing is stated of what they
/// hold.
#[verifier::external_body]
fn default_syntaxes() -> (r: SyntaxSet) {
    SyntaxSet::load_defaults_newlines()
}

/// The named result of highlighting `lines` with syntect's class-based HTML
/// generator: with the syntax of `set` for files with `extension`, each line
/// read in turn, then the HTML finalized; `None` where `set` has no syntax
/// for the extension or a line cannot be read.
pub uninterp spec fn classed_html(set: SyntaxSet, extension: Seq<char>, lines: Seq<Seq<char>>) -> Option<Seq<char>>;

/// `SyntaxSet::find_syntax_by_extension`, then
/// `ClassedHTMLGenerator::new_with_class_style` with space-separated scope
/// classes, `parse_html_for_line_which_includes_newline` on each line and
/// `finalize`: the HTML is `classed_html` of the set, the extension and the
/// lines; `None` where no syntax is found or syntect reports an error.
#[verifier::external_body]
fn classed_html_of_lines(set: &SyntaxSet, extension: &str, lines: &Vec<String>) -> (r: Option<String>)
    ensures
        match r {
            Some(h) => classed_html(*set, extension@, views(lines@)) == Some(h@),
            None => classed_html(*set, extension@, views(lines@)) is None,
        },
{
    let syntax = set.find_syntax_by_extension(extension)?;
    let mut generator = ClassedHTMLGenerator::new_with_class_style(syntax, set, ClassStyle::Spaced);
    for line in lines {
        generator.parse_html_for_line_which_includes_newline(line).ok()?;
    }
    Some(generator.finalize())
}

/// The concatenation of `lines`.
pub open spec fn joined(lines: Seq<Seq<char>>) -> Seq<char>
    decreases lines.len(),
{
    if lines.len() == 0 {
        Seq::empty()
    } else {
        joined(lines.drop_last()) + lines.last()
    }
}

/// Whether `line` is a line of text: not empty, with no newline but,
/// possibly, its last character.
pub open spec fn is_line(line: Seq<char>) -> bool {
    &&& line.len() > 0
    &&& forall|j: int| 0 <= j < line.len() - 1 ==> line[j] != '\n'
}

/// Whether `lines` are the lines of `s`, each with its newline: together
/// they make `s`, and each but the last ends in a newline.
pub open spec fn lines_of(s: Seq<char>, lines: Seq<Seq<char>>) -> bool {
    &&& joined(lines) == s
    &&& forall|k: int| 0 <= k < lines.len() ==> is_line(#[trigger] lines[k])
    &&& forall|k: int| 0 <= k < lines.len() - 1 ==> #[trigger] lines[k].last() == '\n'
}

/// The concatenation of lines of text is at least as long as there are
/// lines; it ends in the last character of the last line.
proof fn lemma_joined_len(lines: Seq<Seq<char>>)
    requires
        forall|k: int| 0 <= k < lines.len() ==> is_line(#[trigger] lines[k]),
    ensures
        joined(lines).len() >= lines.len(),
        lines.len() > 0 ==> joined(lines).last() == lines.last().last(),
    decreases lines.len(),
{
    if lines.len() > 0 {
        let rest = lines.drop_last();
        assert forall|k: int| 0 <= k < rest.len() implies is_line(#[trigger] rest[k]) by {
            assert(rest[k] == lines[k]);
        }
        lemma_joined_len(rest);
    }
}

/// A text has one split into lines: `lines_of` pins the lines down.
pub proof fn lemma_lines_of_unique(s: Seq<char>, a: Seq<Seq<char>>, b: Seq<Seq<char>>)
    requires
        lines_of(s, a),
        lines_of(s, b),
    ensures
        a == b,
    decreases a.len(),
{
    lemma_joined_len(a);
    lemma_joined_len(b);
    if s.len() == 0 {
        assert(a =~= b);
    } else {
        let (ra, rb) = (a.drop_last(), b.drop_last());
        let (la, lb) = (a.last(), b.last());
        assert forall|k: int| 0 <= k < ra.len() implies is_line(#[trigger] ra[k]) by {
            assert(ra[k] == a[k]);
        }
        assert forall|k: int| 0 <= k < rb.len() implies is_line(#[trigger] rb[k]) by {
            assert(rb[k] == b[k]);
        }
        lemma_joined_len(ra);
        lemma_joined_len(rb);
        assert(s == joined(ra) + la);
        assert(s == joined(rb) + lb);
        // The last line of each split is as long as that of the other.
        if la.len() < lb.len() {
            assert(ra.len() > 0);
            assert(ra.last() == a[a.len() - 2]);
            assert(a[a.len() - 2].last() == '\n');
            let p = s.len() - la.len() - 1;
            assert(s[p] == joined(ra).last());
            let j = lb.len() - la.len() - 1;
            assert(s[p] == lb[j]);
            assert(false);
        }
        if lb.len() < la.len() {
            assert(rb.len() > 0);
            assert(rb.last() == b[b.len() - 2]);
            assert(b[b.len() - 2].last() == '\n');
            let p = s.len() - lb.len() - 1;
            assert(s[p] == joined(rb).last());
            let j = la.len() - lb.len() - 1;
            assert(s[p] == la[j]);
            assert(false);
        }
        assert(la =~= s.subrange(s.len() - la.len(), s.len() as int));
        assert(lb =~= s.subrange(s.len() - lb.len(), s.len() as int));
        assert(joined(ra) =~= s.take(s.len() - la.len()));
        assert(joined(rb) =~= s.take(s.len() - lb.len()));
        let t = s.take(s.len() - la.len());
        assert forall|k: int| 0 <= k < ra.len() - 1 implies #[trigger] ra[k].last() == '\n' by {
            assert(ra[k] == a[k]);
        }
        assert forall|k: int| 0 <= k < rb.len() - 1 implies #[trigger] rb[k].last() == '\n' by {
            assert(rb[k] == b[k]);
        }
        lemma_lines_of_unique(t, ra, rb);
        assert(a =~= ra.push(la));
        assert(b =~= rb.push(lb));
    }
}

/// The lines of `s`, each with the newline that ends it; the last one has
/// none where `s` does not end in a newline.
pub fn lines_with_endings(s: &str) -> (r: Vec<String>)
    ensures
        lines_of(s@, r@.map_values(|l: String| l@)),
{
    let chars = chars_of(s);
    let mut lines: Vec<String> = Vec::new();
    let mut current: Vec<char> = Vec::new();
    let mut i: usize = 0;
    while i < chars.len()
        invariant
            i <= chars.len(),
            chars@ == s@,
            joined(lines@.map_values(|l: String| l@)) + current@ == s@.take(i as int),
            forall|k: int| 0 <= k < lines@.len() ==> is_line(#[trigger] lines@[k]@),
            forall|k: int| 0 <= k < lines@.len() ==> #[trigger] lines@[k]@.last() == '\n',
            forall|j: int| 0 <= j < current@.len() ==> current@[j] != '\n',
        decreases chars.len() - i,
    {
        let c = chars[i];
        let ghost before = lines@.map_values(|l: String| l@);
        current.push(c);
        assert(s@.take(i + 1) == s@.take(i as int).push(c));
        if c == '\n' {
            let line = string_of(&current);
            lines.push(line);
            proof {
                let after = lines@.map_values(|l: String| l@);
                assert(after.drop_last() == before);
                assert(after.last() == current@);
            }
            current = Vec::new();
        }
        i += 1;
    }
    if current.len() > 0 {
        let ghost before = lines@.map_values(|l: String| l@);
        let line = string_of(&current);
        lines.push(line);
        proof {
            let after = lines@.map_values(|l: String| l@);
            assert(after.drop_last() == before);
        }
    }
    assert(s@.take(chars.len() as int) == s@);
    lines
}

/// Whether `html` is what highlighting `code` as Rust with the syntaxes
/// `set` gives: the classed HTML of the lines of `code`, each with its
/// newline (`lemma_lines_of_unique`: there is one such split), or `None`
/// where syntect gives none.
pub open spec fn highlighted(set: SyntaxSet, code: Seq<char>, html: Option<Seq<char>>) -> bool {
    exists|lines: Seq<Seq<char>>| #[trigger] lines_of(code, lines) && classed_html(set, "rs"@, lines) == html
}

/// Whether `out` is what an event holding `code` becomes once highlighted
/// with the syntaxes `set`: the HTML of the code where highlighting gives
/// one, else `event` itself.
pub open spec fn highlighted_or_kept(set: SyntaxSet, code: Seq<char>, event: MdEvent, out: MdEvent) -> bool {
    ||| exists|h: Seq<char>| highlighted(set, code, Some(h)) && #[trigger] out_is_html(out, h)
    ||| highlighted(set, code, None) && out == event
}

/// Whether `out` is the raw HTML `h`.
pub open spec fn out_is_html(out: MdEvent, h: Seq<char>) -> bool {
    out matches MdEvent::Html(o) && o@ == h
}

/// Whether `out` and `in_block_after` are what the Rust transformer, with
/// the syntaxes `set`, makes of `event` when it is inside a Rust code block
/// exactly when `in_block`: the start of a code block fenced as `rust`, or
/// indented, opens a Rust block and the end of a code block closes it; text
/// inside a Rust block, and inline code, are highlighted; all else passes.
pub open spec fn rust_step(set: SyntaxSet, in_block: bool, event: MdEvent, out: MdEvent, in_block_after: bool) -> bool {
    match event {
        MdEvent::StartCodeBlock(kind) => out == event && in_block_after == match kind {
            MdCodeBlockKind::Fenced(lang) => lang@ == "rust"@,
            MdCodeBlockKind::Indented => true,
        },
        MdEvent::EndCodeBlock => out == event && !in_block_after,
        MdEvent::Text(code) => in_block_after == in_block && if in_block {
            highlighted_or_kept(set, code@, event, out)
        } else {
            out == event
        },
        MdEvent::Code(code) => in_block_after == in_block && highlighted_or_kept(set, code@, event, out),
        _ => out == event && in_block_after == in_block,
    }
}

/// The event that takes the place of `event` once its code was
/// highlighted: the HTML where highlighting gave one, else `event`.
pub fn highlighted_event(event: MdEvent, html: Option<String>) -> (r: MdEvent)
    ensures
        r == match html {
            Some(h) => MdEvent::Html(h),
            None => event,
        },
{
    match html {
        Some(h) => MdEvent::Html(h),
        None => event,
    }
}

/// Highlights Rust code, in fenced `rust` blocks, indented blocks and
/// inline code, as HTML with a class for each scope.
pub struct RustTransformer {
    syntax_set: SyntaxSet,
    in_rust_block: bool,
}

impl RustTransformer {
    /// A transformer outside any code block, with syntect's syntaxes.
    pub fn new() -> (r: RustTransformer)
        ensures
            !r.in_block(),
    {
        RustTransformer { syntax_set: default_syntaxes(), in_rust_block: false }
    }

    /// Whether the transformer is inside a Rust code block.
    pub closed spec fn in_block(&self) -> bool {
        self.in_rust_block
    }

    /// The syntaxes the transformer highlights with.
    pub closed spec fn syntaxes(&self) -> SyntaxSet {
        self.syntax_set
    }

    /// The HTML of `code` highlighted as Rust, line by line; `None` where
    /// the syntaxes have none for `.rs` files or a line cannot be read.
    pub fn highlight(&self, code: &str) -> (r: Option<String>)
        ensures
            highlighted(self.syntaxes(), code@, match r {
                Some(h) => Some(h@),
                None => None,
            }),
    {
        let lines = lines_with_endings(code);
        assert(views(lines@) =~= lines@.map_values(|l: String| l@));
        let r = classed_html_of_lines(&self.syntax_set, "rs", &lines);
        proof {
            reveal_strlit("rs");
            assert(lines_of(code@, views(lines@)));
        }
        r
    }
}

impl Default for RustTransformer {
    fn default() -> (r: RustTransformer)
        ensures
            !r.in_block(),
    {
        RustTransformer::new()
    }
}

impl MarkdownTransformer for RustTransformer {
    open spec fn transforms(&self, event: MdEvent, out: MdEvent, after: Self) -> bool {
        &&& rust_step(self.syntaxes(), self.in_block(), event, out, after.in_block())
        &&& after.syntaxes() == self.syntaxes()
    }

    fn transform_event(&mut self, event: MdEvent) -> (r: MdEvent)
        ensures
            rust_step(old(self).syntaxes(), old(self).in_block(), event, r, final(self).in_block()),
            final(self).syntaxes() == old(self).syntaxes(),
    {
        match event {
            MdEvent::StartCodeBlock(kind) => {
                self.in_rust_block = match &kind {
                    MdCodeBlockKind::Fenced(lang) => str_eq(lang.as_str(), "rust"),
                    MdCodeBlockKind::Indented => true,
                };
                MdEvent::StartCodeBlock(kind)
            },
            MdEvent::EndCodeBlock => {
                self.in_rust_block = false;
                MdEvent::EndCodeBlock
            },
            MdEvent::Text(code) => {
                if self.in_rust_block {
                    let html = self.highlight(code.as_str());
                    proof {
                        if html is Some {
                            assert(out_is_html(MdEvent::Html(html->0), html->0@));
                        }
                    }
                    highlighted_event(MdEvent::Text(code), html)
                } else {
                    MdEvent::Text(code)
                }
            },
            MdEvent::Code(code) => {
                let html = self.highlight(code.as_str());
                proof {
                    if html is Some {
                        assert(out_is_html(MdEvent::Html(html->0), html->0@));
                    }
                }
                highlighted_event(MdEvent::Code(code), html)
            },
            other => other,
        }
    }
}

} // verus!
