//! Clean-up of SVG markup exported by Figma: its configuration, and the
//! simplification of path data.
//!
//! Path data is simplified by three rewrites, applied one after the other,
//! each over the whole path from left to right without overlaps:
//! - `M x,y M x,y` (a move to where the pen already is) becomes `M x,y`;
//! - `L x1,y L x2,y` (two lines at the same height) becomes `L x1,y H x2`;
//! - `L x,y1 L x,y2` (two lines at the same abscissa) becomes `L x,y1 V y2`.
//! A coordinate is a run of digits, dots and minus signs; blanks may stand
//! around the comma and after each command letter, and at least one blank
//! separates the two commands.

use vstd::prelude::*;
use crate::text::{chars_of, string_of, is_whitespace, unicode_whitespace, occurs_at, starts_with_at, str_eq, owned};
use crate::jsx::{JsxAttr, JsxChild, JsxElement, JsxValue, NodeV, ValueV, attr_view, attrs_view, children_view, el_view,
    el, str_attr, str_attr_of, copy_attr, copy_element, child_view, text_child, lemma_children_view_push};

verus! {

/// Which steps the clean-up of Figma SVG markup performs.
#[derive(Debug, Clone, Copy)]
pub struct FigmaSvgConfig {
    /// Rewrite superscript and subscript text as `tspan` elements.
    pub fix_superscripts: bool,
    /// Simplify the data of `d` attributes.
    pub optimize_paths: bool,
    /// Collect text elements for a conversion to HTML.
    pub extract_text_elements: bool,
}

impl Default for FigmaSvgConfig {
    /// Superscripts fixed and paths simplified; no text extraction.
    fn default() -> (r: Self)
        ensures
            r.fix_superscripts,
            r.optimize_paths,
            !r.extract_text_elements,
    {
        FigmaSvgConfig { fix_superscripts: true, optimize_paths: true, extract_text_elements: false }
    }
}

/// The kinds of character runs that path data is read in.
#[derive(Debug, Clone, Copy, PartialEq, Eq, Structural)]
pub enum RunKind {
    /// Unicode whitespace.
    Blank,
    /// Digits, dots and minus signs.
    Number,
}

/// Whether `c` belongs to runs of kind `k`.
pub open spec fn in_run(k: RunKind, c: char) -> bool {
    match k {
        RunKind::Blank => unicode_whitespace(c),
        RunKind::Number => ('0' <= c && c <= '9') || c == '.' || c == '-',
    }
}

/// The length of the longest run of kind `k` that starts at `i` in `s`.
pub open spec fn run_len(s: Seq<char>, i: int, k: RunKind) -> nat
    decreases s.len() - i,
{
    if 0 <= i < s.len() && in_run(k, s[i]) {
        1 + run_len(s, i + 1, k)
    } else {
        0
    }
}

/// A run stays inside the text.
pub proof fn lemma_run_len_bound(s: Seq<char>, i: int, k: RunKind)
    requires
        0 <= i <= s.len(),
    ensures
        i + run_len(s, i, k) <= s.len(),
    decreases s.len() - i,
{
    if i < s.len() && in_run(k, s[i]) {
        lemma_run_len_bound(s, i + 1, k);
    }
}

/// The three rewrites of path data.
#[derive(Debug, Clone, Copy, PartialEq, Eq, Structural)]
pub enum PathRule {
    /// `M x,y M x,y` to `M x,y`.
    RedundantMove,
    /// `L x1,y L x2,y` to `L x1,y H x2`.
    Horizontal,
    /// `L x,y1 L x,y2` to `L x,y1 V y2`.
    Vertical,
}

/// The command letter that both commands of a rule start with.
pub open spec fn rule_letter(rule: PathRule) -> char {
    match rule {
        PathRule::RedundantMove => 'M',
        _ => 'L',
    }
}

/// The positions in `s` of the first command of a rule that starts at `i`:
/// where the abscissa starts and ends, where the ordinate starts and ends,
/// and where the second command's letter stands.
pub open spec fn head(s: Seq<char>, i: int) -> (int, int, int, int, int) {
    let a = i + 1 + run_len(s, i + 1, RunKind::Blank);
    let b = a + run_len(s, a, RunKind::Number);
    let c = b + run_len(s, b, RunKind::Blank);
    let d = c + 1 + run_len(s, c + 1, RunKind::Blank);
    let e = d + run_len(s, d, RunKind::Number);
    let f = e + run_len(s, e, RunKind::Blank);
    (a, b, d, e, f)
}

/// Whether the first command of a rule, followed by the letter of the second,
/// starts at `i` in `s`.
pub open spec fn head_ok(rule: PathRule, s: Seq<char>, i: int) -> bool {
    let (a, b, d, e, f) = head(s, i);
    let c = b + run_len(s, b, RunKind::Blank);
    &&& 0 <= i < s.len()
    &&& s[i] == rule_letter(rule)
    &&& b > a
    &&& c < s.len()
    &&& s[c] == ','
    &&& e > d
    &&& f > e
    &&& f < s.len()
    &&& s[f] == rule_letter(rule)
}

/// A match of `rule` at `i` in `s`: where it ends and what replaces it.
pub open spec fn rule_at(rule: PathRule, s: Seq<char>, i: int) -> Option<(int, Seq<char>)> {
    let (a, b, d, e, f) = head(s, i);
    let x = s.subrange(a, b);
    let y = s.subrange(d, e);
    let g = f + 1 + run_len(s, f + 1, RunKind::Blank);
    if !head_ok(rule, s, i) {
        None
    } else {
        match rule {
            PathRule::RedundantMove => {
                let h = g + x.len() + run_len(s, g + x.len(), RunKind::Blank);
                let k = h + 1 + run_len(s, h + 1, RunKind::Blank);
                if occurs_at(s, x, g) && h < s.len() && s[h] == ',' && occurs_at(s, y, k) {
                    Some((k + y.len(), seq!['M', ' '] + x + seq![','] + y))
                } else {
                    None
                }
            },
            PathRule::Horizontal => {
                let z = g + run_len(s, g, RunKind::Number);
                let h = z + run_len(s, z, RunKind::Blank);
                let k = h + 1 + run_len(s, h + 1, RunKind::Blank);
                if z > g && h < s.len() && s[h] == ',' && occurs_at(s, y, k) {
                    Some((k + y.len(), seq!['L', ' '] + x + seq![','] + y + seq![' ', 'H', ' '] + s.subrange(g, z)))
                } else {
                    None
                }
            },
            PathRule::Vertical => {
                let h = g + x.len() + run_len(s, g + x.len(), RunKind::Blank);
                let k = h + 1 + run_len(s, h + 1, RunKind::Blank);
                let z = k + run_len(s, k, RunKind::Number);
                if occurs_at(s, x, g) && h < s.len() && s[h] == ',' && z > k {
                    Some((z, seq!['L', ' '] + x + seq![','] + y + seq![' ', 'V', ' '] + s.subrange(k, z)))
                } else {
                    None
                }
            },
        }
    }
}

/// A match ends after it starts and inside the text.
pub proof fn lemma_rule_end(rule: PathRule, s: Seq<char>, i: int)
    requires
        rule_at(rule, s, i) is Some,
    ensures
        i < rule_at(rule, s, i).unwrap().0 <= s.len(),
{
    let (a, b, d, e, f) = head(s, i);
    let x = s.subrange(a, b);
    let g = f + 1 + run_len(s, f + 1, RunKind::Blank);
    if rule == PathRule::Vertical {
        let h = g + x.len() + run_len(s, g + x.len(), RunKind::Blank);
        lemma_run_len_bound(s, h + 1, RunKind::Blank);
        let k = h + 1 + run_len(s, h + 1, RunKind::Blank);
        lemma_run_len_bound(s, k, RunKind::Number);
    }
}

proof fn lemma_rule_shrinks(rule: PathRule, s: Seq<char>, i: int)
    requires
        rule_at(rule, s, i) is Some,
    ensures
        rule_at(rule, s, i).unwrap().1.len() <= rule_at(rule, s, i).unwrap().0 - i,
{
    let (a, b, d, e, f) = head(s, i);
    lemma_run_len_bound(s, i + 1, RunKind::Blank);
    lemma_run_len_bound(s, a, RunKind::Number);
    let c = b + run_len(s, b, RunKind::Blank);
    lemma_run_len_bound(s, b, RunKind::Blank);
    lemma_run_len_bound(s, c + 1, RunKind::Blank);
    lemma_run_len_bound(s, d, RunKind::Number);
    let x = s.subrange(a, b);
    let y = s.subrange(d, e);
    assert(x.len() == b - a);
    assert(y.len() == e - d);
    let g = f + 1 + run_len(s, f + 1, RunKind::Blank);
    if rule == PathRule::Horizontal {
        lemma_run_len_bound(s, f + 1, RunKind::Blank);
        lemma_run_len_bound(s, g, RunKind::Number);
        let z = g + run_len(s, g, RunKind::Number);
        assert(s.subrange(g, z).len() == z - g);
    } else if rule == PathRule::Vertical {
        let h = g + x.len() + run_len(s, g + x.len(), RunKind::Blank);
        lemma_run_len_bound(s, h + 1, RunKind::Blank);
        let k = h + 1 + run_len(s, h + 1, RunKind::Blank);
        lemma_run_len_bound(s, k, RunKind::Number);
        let z = k + run_len(s, k, RunKind::Number);
        assert(s.subrange(k, z).len() == z - k);
    }
}

proof fn lemma_apply_rule_len(rule: PathRule, s: Seq<char>, i: int)
    requires
        0 <= i <= s.len(),
    ensures
        apply_rule(rule, s, i).len() <= s.len() - i,
    decreases s.len() - i,
{
    if i < s.len() {
        match rule_at(rule, s, i) {
            Some(m) => {
                lemma_rule_end(rule, s, i);
                lemma_rule_shrinks(rule, s, i);
                lemma_apply_rule_len(rule, s, m.0);
            },
            None => {
                lemma_apply_rule_len(rule, s, i + 1);
            },
        }
    }
}

/// Simplification never makes path data longer.
pub proof fn law_optimized_path_no_longer(p: Seq<char>)
    ensures
        optimized_path(p).len() <= p.len(),
{
    let moved = apply_rule(PathRule::RedundantMove, p, 0);
    lemma_apply_rule_len(PathRule::RedundantMove, p, 0);
    let horizontal = apply_rule(PathRule::Horizontal, moved, 0);
    lemma_apply_rule_len(PathRule::Horizontal, moved, 0);
    lemma_apply_rule_len(PathRule::Vertical, horizontal, 0);
}

/// `s` from `i` on, with every match of `rule` replaced, left to right.
pub open spec fn apply_rule(rule: PathRule, s: Seq<char>, i: int) -> Seq<char>
    decreases s.len() - i,
{
    if i < 0 || i >= s.len() {
        seq![]
    } else {
        match rule_at(rule, s, i) {
            Some(m) => {
                proof {
                    lemma_rule_end(rule, s, i);
                }
                m.1 + apply_rule(rule, s, m.0)
            },
            None => seq![s[i]] + apply_rule(rule, s, i + 1),
        }
    }
}

/// Simplified path data: the three rewrites, one after the other.
pub open spec fn optimized_path(p: Seq<char>) -> Seq<char> {
    let moved = apply_rule(PathRule::RedundantMove, p, 0);
    let horizontal = apply_rule(PathRule::Horizontal, moved, 0);
    apply_rule(PathRule::Vertical, horizontal, 0)
}

fn is_run_char(k: RunKind, c: char) -> (r: bool)
    ensures
        r == in_run(k, c),
{
    match k {
        RunKind::Blank => is_whitespace(c),
        RunKind::Number => ('0' <= c && c <= '9') || c == '.' || c == '-',
    }
}

/// The end of the longest run of kind `k` from `i`.
fn run_end(s: &Vec<char>, i: usize, k: RunKind) -> (r: usize)
    requires
        i <= s.len(),
    ensures
        r == i + run_len(s@, i as int, k),
        r <= s.len(),
{
    let mut j = i;
    while j < s.len() && is_run_char(k, s[j])
        invariant
            i <= j <= s.len(),
            run_len(s@, i as int, k) == (j - i) + run_len(s@, j as int, k),
        decreases s.len() - j,
    {
        j += 1;
    }
    j
}

fn slice_chars(s: &Vec<char>, a: usize, b: usize) -> (r: Vec<char>)
    requires
        a <= b <= s.len(),
    ensures
        r@ == s@.subrange(a as int, b as int),
{
    let mut r: Vec<char> = Vec::new();
    let mut j = a;
    while j < b
        invariant
            a <= j <= b <= s.len(),
            r@ == s@.subrange(a as int, j as int),
        decreases b - j,
    {
        r.push(s[j]);
        j += 1;
        assert(r@ =~= s@.subrange(a as int, j as int));
    }
    r
}

fn append_chars(out: &mut Vec<char>, v: &Vec<char>)
    ensures
        final(out)@ == old(out)@ + v@,
{
    let mut j: usize = 0;
    while j < v.len()
        invariant
            j <= v.len(),
            out@ == old(out)@ + v@.take(j as int),
        decreases v.len() - j,
    {
        out.push(v[j]);
        j += 1;
        assert(v@.take(j as int) == v@.take(j - 1).push(v@[j - 1]));
    }
    assert(v@.take(v.len() as int) == v@);
}

/// `letter x,y`, then `sep letter z` where there is a second letter.
fn replacement(first: char, x: &Vec<char>, y: &Vec<char>, second: Option<(char, Vec<char>)>) -> (r: Vec<char>)
    ensures
        r@ == match second {
            None => seq![first, ' '] + x@ + seq![','] + y@,
            Some((l, z)) => seq![first, ' '] + x@ + seq![','] + y@ + seq![' ', l, ' '] + z@,
        },
{
    let mut r: Vec<char> = Vec::new();
    r.push(first);
    r.push(' ');
    append_chars(&mut r, x);
    r.push(',');
    append_chars(&mut r, y);
    match second {
        None => {
            assert(r@ =~= seq![first, ' '] + x@ + seq![','] + y@);
        },
        Some((l, z)) => {
            let ghost before = r@;
            r.push(' ');
            r.push(l);
            r.push(' ');
            append_chars(&mut r, &z);
            assert(before =~= seq![first, ' '] + x@ + seq![','] + y@);
            assert(r@ =~= seq![first, ' '] + x@ + seq![','] + y@ + seq![' ', l, ' '] + z@);
        },
    }
    r
}

/// The match of `rule` at `i`, if any.
fn match_rule(rule: PathRule, s: &Vec<char>, i: usize) -> (r: Option<(usize, Vec<char>)>)
    requires
        i < s.len(),
    ensures
        match rule_at(rule, s@, i as int) {
            Some(m) => r is Some && r.unwrap().0 == m.0 && r.unwrap().1@ == m.1,
            None => r is None,
        },
{
    let letter = match rule {
        PathRule::RedundantMove => 'M',
        _ => 'L',
    };
    if s[i] != letter {
        return None;
    }
    let a = run_end(s, i + 1, RunKind::Blank);
    let b = run_end(s, a, RunKind::Number);
    if b == a {
        return None;
    }
    let c = run_end(s, b, RunKind::Blank);
    if c >= s.len() || s[c] != ',' {
        return None;
    }
    let d = run_end(s, c + 1, RunKind::Blank);
    let e = run_end(s, d, RunKind::Number);
    if e == d {
        return None;
    }
    let f = run_end(s, e, RunKind::Blank);
    if f == e || f >= s.len() || s[f] != letter {
        return None;
    }
    assert(head_ok(rule, s@, i as int));
    let g = run_end(s, f + 1, RunKind::Blank);
    let x = slice_chars(s, a, b);
    let y = slice_chars(s, d, e);
    match rule {
        PathRule::RedundantMove => {
            if !starts_with_at(s, &x, g) {
                return None;
            }
            let h = run_end(s, g + x.len(), RunKind::Blank);
            if h >= s.len() || s[h] != ',' {
                return None;
            }
            let k = run_end(s, h + 1, RunKind::Blank);
            if !starts_with_at(s, &y, k) {
                return None;
            }
            Some((k + y.len(), replacement('M', &x, &y, None)))
        },
        PathRule::Horizontal => {
            let z = run_end(s, g, RunKind::Number);
            if z == g {
                return None;
            }
            let h = run_end(s, z, RunKind::Blank);
            if h >= s.len() || s[h] != ',' {
                return None;
            }
            let k = run_end(s, h + 1, RunKind::Blank);
            if !starts_with_at(s, &y, k) {
                return None;
            }
            let zs = slice_chars(s, g, z);
            Some((k + y.len(), replacement('L', &x, &y, Some(('H', zs)))))
        },
        PathRule::Vertical => {
            if !starts_with_at(s, &x, g) {
                return None;
            }
            let h = run_end(s, g + x.len(), RunKind::Blank);
            if h >= s.len() || s[h] != ',' {
                return None;
            }
            let k = run_end(s, h + 1, RunKind::Blank);
            let z = run_end(s, k, RunKind::Number);
            if z == k {
                return None;
            }
            let zs = slice_chars(s, k, z);
            Some((z, replacement('L', &x, &y, Some(('V', zs)))))
        },
    }
}

/// Every match of `rule` in `s` replaced, left to right.
fn apply_rule_chars(rule: PathRule, s: &Vec<char>) -> (r: Vec<char>)
    ensures
        r@ == apply_rule(rule, s@, 0),
{
    let mut out: Vec<char> = Vec::new();
    let mut i: usize = 0;
    while i < s.len()
        invariant
            i <= s.len(),
            out@ + apply_rule(rule, s@, i as int) == apply_rule(rule, s@, 0),
        decreases s.len() - i,
    {
        let ghost before = out@;
        match match_rule(rule, s, i) {
            Some((end, rep)) => {
                proof {
                    lemma_rule_end(rule, s@, i as int);
                }
                append_chars(&mut out, &rep);
                assert(out@ + apply_rule(rule, s@, end as int) == before + apply_rule(rule, s@, i as int));
                i = end;
            },
            None => {
                out.push(s[i]);
                assert(out@ + apply_rule(rule, s@, i + 1) == before + apply_rule(rule, s@, i as int));
                i = i + 1;
            },
        }
    }
    assert(apply_rule(rule, s@, i as int) == Seq::<char>::empty());
    out
}

/// Simplifies path data: redundant moves are dropped, and lines at the same
/// height or abscissa become horizontal or vertical lines.
pub fn optimize_path_data(path_data: &str) -> (r: String)
    ensures
        r@ == optimized_path(path_data@),
{
    let p = chars_of(path_data);
    let moved = apply_rule_chars(PathRule::RedundantMove, &p);
    let horizontal = apply_rule_chars(PathRule::Horizontal, &moved);
    let vertical = apply_rule_chars(PathRule::Vertical, &horizontal);
    string_of(&vertical)
}

/// An attribute after path simplification: the data of a `d` attribute with
/// a string value is simplified where `optimize` holds; any other attribute
/// is unchanged.
pub open spec fn optimized_attr(optimize: bool, a: (Seq<char>, Option<ValueV>)) -> (Seq<char>, Option<ValueV>) {
    match a.1 {
        Some(ValueV::Str(v)) => if optimize && a.0 == seq!['d'] {
            (a.0, Some(ValueV::Str(optimized_path(v))))
        } else {
            a
        },
        _ => a,
    }
}

/// Cleans up SVG markup exported by Figma, as its configuration says.
#[derive(Debug, Clone)]
pub struct FigmaSvgVisitor {
    config: FigmaSvgConfig,
    text_fixes: Vec<TextFix>,
}

impl FigmaSvgVisitor {
    /// The configuration in use.
    pub closed spec fn spec_config(&self) -> FigmaSvgConfig {
        self.config
    }

    /// A visitor with the default configuration.
    pub fn new() -> (r: FigmaSvgVisitor)
        ensures
            r.spec_fixes().len() == 0,
            r.spec_config().fix_superscripts,
            r.spec_config().optimize_paths,
            !r.spec_config().extract_text_elements,
    {
        FigmaSvgVisitor::with_config(FigmaSvgConfig::default())
    }

    /// The text fixes recorded so far, by their views.
    pub closed spec fn spec_fixes(&self) -> Seq<FixV> {
        self.text_fixes@.map_values(|f: TextFix| fix_view(f))
    }

    /// A visitor with the given configuration.
    pub fn with_config(config: FigmaSvgConfig) -> (r: FigmaSvgVisitor)
        ensures
            r.spec_config() == config,
            r.spec_fixes().len() == 0,
    {
        FigmaSvgVisitor { config, text_fixes: Vec::new() }
    }

    /// The configuration in use.
    pub fn config(&self) -> (r: FigmaSvgConfig)
        ensures
            r == self.spec_config(),
    {
        self.config
    }

    /// Simplifies path data; see `optimize_path_data`.
    pub fn optimize_path_data(&self, path_data: &str) -> (r: String)
        ensures
            r@ == optimized_path(path_data@),
    {
        optimize_path_data(path_data)
    }

    /// Simplifies the data of a `d` attribute, where paths are to be
    /// simplified.
    pub fn visit_jsx_attr(&mut self, attr: &mut JsxAttr)
        ensures
            final(self).spec_config() == old(self).spec_config(),
            final(self).spec_fixes() == old(self).spec_fixes(),
            attr_view(*final(attr)) == optimized_attr(old(self).spec_config().optimize_paths, attr_view(*old(attr))),
    {
        proof {
            reveal_strlit("d");
            assert("d"@ =~= seq!['d']);
        }
        if self.config.optimize_paths && str_eq(attr.name.as_str(), "d") {
            let optimized = match &attr.value {
                Some(JsxValue::Str(v)) => Some(optimize_path_data(v.as_str())),
                _ => None,
            };
            if let Some(o) = optimized {
                attr.value = Some(JsxValue::Str(o));
            }
        }
    }
}

/// Whether an attribute is one that a `tspan` for a superscript or
/// subscript sets itself: `dy`, `font-size` or `baseline-shift`.
pub open spec fn is_shift_attr(name: Seq<char>) -> bool {
    name == "dy"@ || name == "font-size"@ || name == "baseline-shift"@
}

/// The attributes of a text element that its `tspan` keeps: all but the
/// shift attributes, in order.
pub open spec fn kept_attrs(attrs: Seq<(Seq<char>, Option<ValueV>)>) -> Seq<(Seq<char>, Option<ValueV>)>
    decreases attrs.len(),
{
    if attrs.len() == 0 {
        seq![]
    } else if is_shift_attr(attrs.last().0) {
        kept_attrs(attrs.drop_last())
    } else {
        kept_attrs(attrs.drop_last()).push(attrs.last())
    }
}

/// A `tspan` with the given shift, at 0.8em, that keeps the other
/// attributes of the text element it replaces, around its text.
pub open spec fn shifted_tspan(dy: Seq<char>, content: Seq<char>, original: Seq<(Seq<char>, Option<ValueV>)>) -> NodeV {
    el(
        "tspan"@,
        seq![str_attr("dy"@, dy), str_attr("font-size"@, "0.8em"@)] + kept_attrs(original),
        seq![NodeV::Text(content)],
    )
}

/// A `tspan` with the given shift; see `shifted_tspan`.
fn create_shifted_tspan(dy: &str, content: &str, original_attrs: &Vec<JsxAttr>) -> (r: JsxElement)
    ensures
        el_view(r) == shifted_tspan(dy@, content@, attrs_view(original_attrs@)),
{
    let mut attrs: Vec<JsxAttr> = Vec::new();
    attrs.push(str_attr_of("dy", dy));
    attrs.push(str_attr_of("font-size", "0.8em"));
    let ghost head = attrs_view(attrs@);
    assert(head =~= seq![str_attr("dy"@, dy@), str_attr("font-size"@, "0.8em"@)]);
    let ghost ov = attrs_view(original_attrs@);
    let mut i: usize = 0;
    assert(ov.take(0) =~= Seq::<(Seq<char>, Option<ValueV>)>::empty());
    assert(attrs_view(attrs@) =~= head + kept_attrs(ov.take(0)));
    while i < original_attrs.len()
        invariant
            i <= original_attrs.len(),
            ov == attrs_view(original_attrs@),
            attrs_view(attrs@) == head + kept_attrs(ov.take(i as int)),
        decreases original_attrs.len() - i,
    {
        let ghost next = ov.take(i + 1);
        assert(next.drop_last() =~= ov.take(i as int));
        assert(next.last() == attr_view(original_attrs@[i as int]));
        let name = original_attrs[i].name.as_str();
        if !(str_eq(name, "dy") || str_eq(name, "font-size") || str_eq(name, "baseline-shift")) {
            let a = copy_attr(&original_attrs[i]);
            let ghost before = attrs@;
            attrs.push(a);
            assert(attrs_view(attrs@) =~= attrs_view(before).push(attr_view(a)));
            assert(attrs_view(attrs@) =~= head + kept_attrs(next));
        }
        i += 1;
    }
    assert(ov.take(original_attrs.len() as int) =~= ov);
    let mut children: Vec<JsxChild> = Vec::new();
    let c = text_child(content);
    proof {
        lemma_children_view_push(children@, c);
        assert(children_view(children@) =~= Seq::<NodeV>::empty());
    }
    children.push(c);
    assert(children_view(children@) =~= seq![NodeV::Text(content@)]);
    JsxElement { name: owned("tspan"), attrs, children }
}

impl FigmaSvgVisitor {
    /// The `tspan` that shows a superscript: raised by 0.3em.
    pub fn create_superscript_tspan(&self, content: &str, original_attrs: &Vec<JsxAttr>) -> (r: JsxElement)
        ensures
            el_view(r) == shifted_tspan("-0.3em"@, content@, attrs_view(original_attrs@)),
    {
        create_shifted_tspan("-0.3em", content, original_attrs)
    }

    /// The `tspan` that shows a subscript: lowered by 0.3em.
    pub fn create_subscript_tspan(&self, content: &str, original_attrs: &Vec<JsxAttr>) -> (r: JsxElement)
        ensures
            el_view(r) == shifted_tspan("0.3em"@, content@, attrs_view(original_attrs@)),
    {
        create_shifted_tspan("0.3em", content, original_attrs)
    }
}

/// A text element that needs superscript or subscript formatting: its id
/// (or `text_<n>`, `n` the number of fixes before it, where it has none),
/// which of the two it is, and its attributes before the fix.
#[derive(Debug, Clone)]
pub struct TextFix {
    pub element_id: String,
    pub is_superscript: bool,
    pub is_subscript: bool,
    pub original_attrs: Vec<JsxAttr>,
}

/// The view of a text fix.
pub type FixV = (Seq<char>, bool, bool, Seq<(Seq<char>, Option<ValueV>)>);

/// The view of a text fix.
pub open spec fn fix_view(f: TextFix) -> FixV {
    (f.element_id@, f.is_superscript, f.is_subscript, attrs_view(f.original_attrs@))
}

/// The id a fix records: the element's id where it has a non-empty one,
/// else `text_<n>`.
pub open spec fn fix_id(attrs: Seq<(Seq<char>, Option<ValueV>)>, n: nat) -> Seq<char> {
    match crate::tsx::callbacks::element_id(attrs) {
        Some(id) => if id.len() > 0 { id } else { "text_"@ + crate::decimal::dec_str(n) },
        None => "text_"@ + crate::decimal::dec_str(n),
    }
}

/// The text of the first text child, or nothing.
pub open spec fn first_text(cs: Seq<NodeV>) -> Seq<char>
    decreases cs.len(),
{
    if cs.len() == 0 {
        seq![]
    } else {
        match cs[0] {
            NodeV::Text(t) => t,
            _ => first_text(cs.drop_first()),
        }
    }
}


/// Whether a `baseline-shift` value raises the text: `super`, or a value
/// that starts with `+`.
pub open spec fn raises(v: Seq<char>) -> bool {
    v == "super"@ || crate::text::starts_with(v, "+"@)
}

/// Whether a `baseline-shift` value lowers the text: `sub`, or a value that
/// starts with `-`.
pub open spec fn lowers(v: Seq<char>) -> bool {
    v == "sub"@ || crate::text::starts_with(v, "-"@)
}

/// What a `baseline-shift` value says: whether it makes a superscript and
/// whether a subscript; a raise is read first.
pub fn baseline_shift(value: &str) -> (r: (bool, bool))
    ensures
        r == (raises(value@), !raises(value@) && lowers(value@)),
{
    let up = str_eq(value, "super") || crate::text::str_starts_with(value, "+");
    if up {
        (true, false)
    } else {
        (false, str_eq(value, "sub") || crate::text::str_starts_with(value, "-"))
    }
}

/// The shifts read from an element's attributes, and those of its
/// children, by position; a child past the end has none.
#[derive(Debug)]
pub struct ShiftTree {
    pub superscript: bool,
    pub subscript: bool,
    pub children: Vec<ShiftTree>,
}

impl ShiftTree {
    /// No shift, here or below.
    pub fn none() -> (r: ShiftTree)
        ensures
            !r.superscript,
            !r.subscript,
            r.children@.len() == 0,
    {
        ShiftTree { superscript: false, subscript: false, children: Vec::new() }
    }
}

/// The attributes with their path data simplified where `optimize` says.
pub open spec fn optimized_attrs(optimize: bool, attrs: Seq<(Seq<char>, Option<ValueV>)>) -> Seq<(Seq<char>, Option<ValueV>)> {
    attrs.map_values(|a: (Seq<char>, Option<ValueV>)| optimized_attr(optimize, a))
}

/// The shifts of the child at `i`: `(superscript, subscript, children)`.
pub open spec fn shift_at(ts: Seq<ShiftTree>, i: int) -> (bool, bool, Seq<ShiftTree>) {
    if 0 <= i < ts.len() {
        (ts[i].superscript, ts[i].subscript, ts[i].children@)
    } else {
        (false, false, seq![])
    }
}

/// What visiting `n` makes of it and of the fixes `fixes`, with `sup` and
/// `sub` the shifts read from it and `ts` those of its children: a `text`
/// or `tspan` element with a shift becomes the shifted `tspan` and is
/// recorded (where superscripts are fixed); every element's path data is
/// simplified (where paths are optimized); the children of an element that
/// was not rewritten are visited in order.
pub open spec fn tree_fixed(cfg: FigmaSvgConfig, fixes: Seq<FixV>, n: NodeV, sup: bool, sub: bool, ts: Seq<ShiftTree>) -> (NodeV, Seq<FixV>)
    decreases n, 0nat,
{
    match n {
        NodeV::Text(_) => (n, fixes),
        NodeV::El { name, attrs, children } => {
            if cfg.fix_superscripts && (name == "text"@ || name == "tspan"@) && (sup || sub) {
                let t = shifted_tspan(if sup { "-0.3em"@ } else { "0.3em"@ }, first_text(children), attrs);
                (el(t->El_name, optimized_attrs(cfg.optimize_paths, t->El_attrs), t->El_children),
                    fixes.push((fix_id(attrs, fixes.len()), sup, sub, attrs)))
            } else {
                let (cs, f) = children_fixed(cfg, fixes, children, ts);
                (el(name, optimized_attrs(cfg.optimize_paths, attrs), cs), f)
            }
        },
    }
}

/// What visiting the children `cs` in order makes of them and of `fixes`.
pub open spec fn children_fixed(cfg: FigmaSvgConfig, fixes: Seq<FixV>, cs: Seq<NodeV>, ts: Seq<ShiftTree>) -> (Seq<NodeV>, Seq<FixV>)
    decreases cs, cs.len(),
{
    if cs.len() == 0 {
        (seq![], fixes)
    } else {
        let (done, f1) = children_fixed(cfg, fixes, cs.drop_last(), ts);
        let sh = shift_at(ts, cs.len() - 1);
        let (x, f2) = tree_fixed(cfg, f1, cs[cs.len() - 1], sh.0, sh.1, sh.2);
        (done.push(x), f2)
    }
}


impl FigmaSvgVisitor {
    /// Visits an element and the elements inside it, as `tree_fixed` says:
    /// `shifts` holds the shifts read from the element's attributes and,
    /// by position, from its children's (the reading of `dy` and
    /// `font-size` numbers is left to the caller).
    pub fn visit_jsx_element(&mut self, element: &mut JsxElement, shifts: &ShiftTree)
        ensures
            final(self).spec_config() == old(self).spec_config(),
            (el_view(*final(element)), final(self).spec_fixes()) == tree_fixed(old(self).spec_config(),
                old(self).spec_fixes(), el_view(*old(element)), shifts.superscript, shifts.subscript, shifts.children@),
    {
        let r = self.fixed_element(&*element, shifts.superscript, shifts.subscript, &shifts.children);
        *element = r;
    }

    /// The attributes with their path data simplified, as configured.
    fn optimized_attrs_of(&mut self, attrs: &Vec<JsxAttr>) -> (r: Vec<JsxAttr>)
        ensures
            final(self).spec_config() == old(self).spec_config(),
            final(self).spec_fixes() == old(self).spec_fixes(),
            attrs_view(r@) == optimized_attrs(old(self).spec_config().optimize_paths, attrs_view(attrs@)),
    {
        let ghost cfg = self.spec_config();
        let ghost f0 = self.spec_fixes();
        let mut out: Vec<JsxAttr> = Vec::new();
        let mut i: usize = 0;
        while i < attrs.len()
            invariant
                i <= attrs.len(),
                self.spec_config() == cfg,
                self.spec_fixes() == f0,
                attrs_view(out@) == optimized_attrs(cfg.optimize_paths, attrs_view(attrs@.take(i as int))),
            decreases attrs.len() - i,
        {
            let mut a = copy_attr(&attrs[i]);
            self.visit_jsx_attr(&mut a);
            let ghost ov = attrs_view(out@);
            out.push(a);
            assert(attrs_view(out@) =~= ov.push(attr_view(a)));
            assert(attrs@.take(i + 1) =~= attrs@.take(i as int).push(attrs@[i as int]));
            assert(attrs_view(attrs@.take(i + 1)) =~= attrs_view(attrs@.take(i as int)).push(attr_view(attrs@[i as int])));
            assert(optimized_attrs(cfg.optimize_paths, attrs_view(attrs@.take(i + 1))) =~= optimized_attrs(
                cfg.optimize_paths, attrs_view(attrs@.take(i as int))).push(optimized_attr(cfg.optimize_paths,
                attr_view(attrs@[i as int]))));
            i += 1;
        }
        assert(attrs@.take(attrs.len() as int) =~= attrs@);
        out
    }

    /// `e` visited; see `visit_jsx_element`.
    fn fixed_element(&mut self, e: &JsxElement, sup: bool, sub: bool, ts: &Vec<ShiftTree>) -> (r: JsxElement)
        ensures
            final(self).spec_config() == old(self).spec_config(),
            (el_view(r), final(self).spec_fixes()) == tree_fixed(old(self).spec_config(), old(self).spec_fixes(),
                el_view(*e), sup, sub, ts@),
        decreases e,
    {
        let ghost cfg = self.spec_config();
        let ghost f0 = self.spec_fixes();
        proof {
            reveal_strlit("text");
            reveal_strlit("tspan");
        }
        let is_text = str_eq(e.name.as_str(), "text") || str_eq(e.name.as_str(), "tspan");
        if self.config.fix_superscripts && is_text && (sup || sub) {
            let mut fixed = copy_element(e);
            self.fix_text_element(&mut fixed, sup, sub);
            let attrs = self.optimized_attrs_of(&fixed.attrs);
            return JsxElement { name: fixed.name, attrs, children: fixed.children };
        }
        let attrs = self.optimized_attrs_of(&e.attrs);
        let none = ShiftTree::none();
        let mut done: Vec<JsxChild> = Vec::new();
        let mut i: usize = 0;
        proof {
            assert(children_view(e.children@.take(0)) =~= Seq::<NodeV>::empty());
            assert(children_view(done@) =~= Seq::<NodeV>::empty());
        }
        while i < e.children.len()
            invariant
                i <= e.children.len(),
                self.spec_config() == cfg,
                !none.superscript && !none.subscript && none.children@.len() == 0,
                (children_view(done@), self.spec_fixes()) == children_fixed(cfg, f0,
                    children_view(e.children@.take(i as int)), ts@),
            decreases e.children.len() - i,
        {
            let ghost fb = self.spec_fixes();
            let ghost xs = children_view(e.children@.take(i as int));
            let d = match &e.children[i] {
                JsxChild::Element(x) => {
                    assert(decreases_to!(e => e.children));
                    assert(decreases_to!(e.children => e.children@));
                    assert(decreases_to!(e.children@ => e.children@[i as int]));
                    assert(decreases_to!(e.children@[i as int] => e.children@[i as int]->Element_0));
                    let t = if i < ts.len() { &ts[i] } else { &none };
                    proof {
                        assert(none.children@ =~= Seq::<ShiftTree>::empty());
                        assert(shift_at(ts@, i as int) == (t.superscript, t.subscript, t.children@));
                    }
                    JsxChild::Element(self.fixed_element(x, t.superscript, t.subscript, &t.children))
                },
                JsxChild::Text(t) => JsxChild::Text(owned(t.as_str())),
            };
            proof {
                let c = e.children@[i as int];
                crate::jsx::lemma_children_view_len(e.children@.take(i as int));
                assert(e.children@.take(i + 1) =~= e.children@.take(i as int).push(c));
                lemma_children_view_push(e.children@.take(i as int), c);
                lemma_children_view_push(done@, d);
                let ys = children_view(e.children@.take(i + 1));
                assert(ys.drop_last() =~= xs);
                assert(ys[ys.len() - 1] == child_view(c));
                let sh = shift_at(ts@, i as int);
                assert((child_view(d), self.spec_fixes()) == tree_fixed(cfg, fb, child_view(c), sh.0, sh.1, sh.2));
            }
            done.push(d);
            i += 1;
        }
        proof {
            assert(e.children@.take(i as int) =~= e.children@);
        }
        JsxElement { name: owned(e.name.as_str()), attrs, children: done }
    }
}

impl FigmaSvgVisitor {
    /// The text fixes recorded so far.
    pub fn get_text_fixes(&self) -> (r: &Vec<TextFix>)
        ensures
            r@.map_values(|f: TextFix| fix_view(f)) == self.spec_fixes(),
    {
        &self.text_fixes
    }

    /// Rewrites a `text` or `tspan` element as a superscript or subscript
    /// `tspan`, as the flags say (superscript first), and records the fix;
    /// other elements, and all where superscripts are not fixed or neither
    /// flag holds, are left as they are. The flags come from the element's
    /// shift attributes (`baseline-shift`, `dy`, `font-size`).
    pub fn fix_text_element(&mut self, element: &mut JsxElement, is_superscript: bool, is_subscript: bool)
        ensures
            final(self).spec_config() == old(self).spec_config(),
            ({
                let before = el_view(*old(element));
                let applies = old(self).spec_config().fix_superscripts && (old(element).name@ == "text"@
                    || old(element).name@ == "tspan"@) && (is_superscript || is_subscript);
                &&& applies ==> final(self).spec_fixes() == old(self).spec_fixes().push((
                    fix_id(attrs_view(old(element).attrs@), old(self).spec_fixes().len()),
                    is_superscript,
                    is_subscript,
                    attrs_view(old(element).attrs@),
                ))
                &&& applies ==> el_view(*final(element)) == shifted_tspan(
                    if is_superscript { "-0.3em"@ } else { "0.3em"@ },
                    first_text(crate::jsx::children_view(old(element).children@)),
                    attrs_view(old(element).attrs@),
                )
                &&& !applies ==> final(self).spec_fixes() == old(self).spec_fixes() && *final(element) == *old(element)
            }),
    {
        let is_text = str_eq(element.name.as_str(), "text") || str_eq(element.name.as_str(), "tspan");
        if !(self.config.fix_superscripts && is_text && (is_superscript || is_subscript)) {
            return;
        }
        let n = self.text_fixes.len();
        let id = crate::tsx::callbacks::find_id(&element.attrs);
        let element_id = match id {
            Some(v) => if v.unicode_len() > 0 { v } else { numbered_id(n) },
            None => numbered_id(n),
        };
        let content = first_text_of(&element.children);
        let original = crate::jsx::copy_attrs(&element.attrs);
        let replacement = if is_superscript {
            self.create_superscript_tspan(content.as_str(), &element.attrs)
        } else {
            self.create_subscript_tspan(content.as_str(), &element.attrs)
        };
        let fix = TextFix { element_id, is_superscript, is_subscript, original_attrs: original };
        let ghost fixes0 = self.spec_fixes();
        self.text_fixes.push(fix);
        assert(self.spec_fixes() =~= fixes0.push(fix_view(fix)));
        *element = replacement;
    }
}

/// `text_<n>`.
fn numbered_id(n: usize) -> (r: String)
    ensures
        r@ == "text_"@ + crate::decimal::dec_str(n as nat),
{
    let mut v = chars_of("text_");
    crate::decimal::push_dec_digits(n as u64, &mut v);
    string_of(&v)
}

/// The text of the first text child, or nothing.
fn first_text_of(children: &Vec<JsxChild>) -> (r: String)
    ensures
        r@ == first_text(crate::jsx::children_view(children@)),
{
    let ghost cv = crate::jsx::children_view(children@);
    proof {
        crate::jsx::lemma_children_view_len(children@);
        assert(cv.skip(0) =~= cv);
    }
    let mut i: usize = 0;
    while i < children.len()
        invariant
            i <= children.len(),
            cv == crate::jsx::children_view(children@),
            cv.len() == children@.len(),
            forall|k: int| 0 <= k < children@.len() ==> cv[k] == crate::jsx::child_view(#[trigger] children@[k]),
            first_text(cv) == first_text(cv.skip(i as int)),
        decreases children.len() - i,
    {
        let ghost rest = cv.skip(i as int);
        assert(rest[0] == cv[i as int]);
        assert(rest.drop_first() =~= cv.skip(i + 1));
        match &children[i] {
            JsxChild::Text(t) => {
                return owned(t.as_str());
            },
            _ => {},
        }
        i += 1;
    }
    assert(cv.skip(i as int).len() == 0);
    String::new()
}

} // verus!
