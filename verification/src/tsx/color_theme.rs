//! Rewriting of the colors in the `className` attributes of JSX elements:
//! a pattern finds the colors, a function gives their new values, and the
//! colors found are collected.

use vstd::prelude::*;
use crate::html_assets::{lowercase, to_lowercase};
use crate::jsx::{JsxAttr, JsxChild, JsxElement, JsxValue, NodeV, ValueV, attr_view, attrs_view, child_view,
    children_view, el_view, lemma_children_view_push};
use crate::text::{owned, replaced, str_eq, str_replace_any, views, lemma_replaced_self};

verus! {

#[verifier::external_type_specification]
#[verifier::external_body]
pub struct ExRegex(regex::Regex);

/// The named result of `regex::Regex::new`: whether the pattern compiles,
/// which depends on its syntax and on the default size limit.
pub uninterp spec fn regex_compiles(pattern: Seq<char>) -> bool;

/// The named result of `regex::Regex::captures_iter` on a compiled
/// pattern: for each successive non-overlapping match, the text of the whole
/// match and of the first group, where that group took part.
pub uninterp spec fn regex_captures(pattern: Seq<char>, haystack: Seq<char>) -> Seq<(Seq<char>, Option<Seq<char>>)>;

/// A compiled pattern, with its source text.
#[derive(Debug)]
pub struct CompiledPattern {
    source: String,
    regex: regex::Regex,
}

impl CompiledPattern {
    /// The source text of the pattern.
    pub closed spec fn spec_source(&self) -> Seq<char> {
        self.source@
    }
}

/// `regex::Regex::new`: the pattern compiled, or nothing where it does not
/// compile (`regex_compiles`). The result keeps the source text it was
/// compiled from.
#[verifier::external_body]
fn compile_pattern(pattern: &str) -> (r: Option<CompiledPattern>)
    ensures
        r is Some <==> regex_compiles(pattern@),
        r is Some ==> r.unwrap().spec_source() == pattern@,
{
    match regex::Regex::new(pattern) {
        Ok(regex) => Some(CompiledPattern { source: pattern.to_string(), regex }),
        Err(_) => None,
    }
}

/// The views of a list of captures.
pub open spec fn capture_views(v: Seq<(String, Option<String>)>) -> Seq<(Seq<char>, Option<Seq<char>>)> {
    v.map_values(|c: (String, Option<String>)| (c.0@, match c.1 {
        Some(g) => Some(g@),
        None => None,
    }))
}

/// `regex::Regex::captures_iter` on a compiled pattern: the text of each
/// match and of its first group; the list is `regex_captures` of the source
/// text the pattern was compiled from.
#[verifier::external_body]
fn captures_of(pattern: &CompiledPattern, haystack: &str) -> (r: Vec<(String, Option<String>)>)
    ensures
        capture_views(r@) == regex_captures(pattern.spec_source(), haystack@),
{
    let mut out = Vec::new();
    for caps in pattern.regex.captures_iter(haystack) {
        let group = match caps.get(1) {
            Some(m) => Some(m.as_str().to_string()),
            None => None,
        };
        out.push((caps[0].to_string(), group));
    }
    out
}

/// The colors that the captures find: the lowercase text of each first
/// group.
pub open spec fn colors_of(caps: Seq<(Seq<char>, Option<Seq<char>>)>) -> Set<Seq<char>>
    decreases caps.len(),
{
    if caps.len() == 0 {
        Set::empty()
    } else {
        let rest = colors_of(caps.drop_last());
        match caps.last().1 {
            Some(g) => rest.insert(lowercase(g)),
            None => rest,
        }
    }
}

/// A class string after its colors are rewritten, one capture after the
/// other: in the text of the match, the color is replaced by its update,
/// and the text of the match is then replaced by that, everywhere in the
/// string. `updates[i]` is the update of the color of capture `i`.
pub open spec fn themed(input: Seq<char>, caps: Seq<(Seq<char>, Option<Seq<char>>)>, updates: Seq<Seq<char>>) -> Seq<char>
    decreases caps.len(),
{
    if caps.len() == 0 {
        input
    } else {
        let r = themed(input, caps.drop_last(), updates);
        match caps.last().1 {
            Some(g) => replaced(r, caps.last().0, replaced(caps.last().0, g, updates[caps.len() - 1])),
            None => r,
        }
    }
}

proof fn lemma_themed_prefix(input: Seq<char>, caps: Seq<(Seq<char>, Option<Seq<char>>)>, u1: Seq<Seq<char>>, u2: Seq<Seq<char>>)
    requires
        u1.len() >= caps.len(),
        u2.len() >= caps.len(),
        forall|k: int| 0 <= k < caps.len() ==> u1[k] == u2[k],
    ensures
        themed(input, caps, u1) == themed(input, caps, u2),
    decreases caps.len(),
{
    if caps.len() > 0 {
        lemma_themed_prefix(input, caps.drop_last(), u1, u2);
    }
}

/// Whether each update is what the update function gave for the color of
/// its capture.
pub open spec fn updates_from<F: Fn(&str) -> String>(f: F, caps: Seq<(Seq<char>, Option<Seq<char>>)>, updates: Seq<Seq<char>>) -> bool {
    &&& updates.len() == caps.len()
    &&& forall|i: int| 0 <= i < caps.len() && (#[trigger] caps[i]).1 is Some ==> exists|s: &str, u: String|
        s@ == caps[i].1.unwrap() && u@ == updates[i] && f.ensures((s,), u)
}

/// Updates the colors in JSX class names, and collects the colors found.
pub struct ColorThemeVisitor<F: Fn(&str) -> String> {
    colors: Vec<String>,
    pattern: CompiledPattern,
    update_fn: F,
}

impl<F: Fn(&str) -> String> ColorThemeVisitor<F> {
    #[verifier::type_invariant]
    closed spec fn inv(&self) -> bool {
        views(self.colors@).no_duplicates()
    }

    /// The colors found so far, in lowercase.
    pub closed spec fn spec_colors(&self) -> Set<Seq<char>> {
        views(self.colors@).to_set()
    }

    /// The source text of the pattern that finds the colors.
    pub closed spec fn spec_pattern(&self) -> Seq<char> {
        self.pattern.spec_source()
    }

    /// The function that updates a color.
    pub closed spec fn spec_update_fn(&self) -> F {
        self.update_fn
    }

    /// A visitor with the given pattern, whose first group is the color, and
    /// update function, that has found no color yet.
    pub fn new(pattern: &str, update_fn: F) -> (r: Self)
        requires
            regex_compiles(pattern@),
        ensures
            r.spec_colors() == Set::<Seq<char>>::empty(),
            r.spec_pattern() == pattern@,
            r.spec_update_fn() == update_fn,
    {
        let compiled = compile_pattern(pattern).unwrap();
        let r = ColorThemeVisitor { colors: Vec::new(), pattern: compiled, update_fn };
        assert(views(r.colors@) =~= Seq::<Seq<char>>::empty());
        r
    }

    /// A visitor as `new` makes it, or nothing where the pattern does not
    /// compile.
    pub fn try_new(pattern: &str, update_fn: F) -> (r: Option<Self>)
        ensures
            r is Some <==> regex_compiles(pattern@),
            r is Some ==> r.unwrap().spec_colors() == Set::<Seq<char>>::empty() && r.unwrap().spec_pattern() == pattern@
                && r.unwrap().spec_update_fn() == update_fn,
    {
        match compile_pattern(pattern) {
            Some(compiled) => {
                let r = ColorThemeVisitor { colors: Vec::new(), pattern: compiled, update_fn };
                assert(views(r.colors@) =~= Seq::<Seq<char>>::empty());
                Some(r)
            },
            None => None,
        }
    }

    /// The colors found so far, in lowercase, each once.
    pub fn colors(&self) -> (r: &Vec<String>)
        ensures
            views(r@).to_set() == self.spec_colors(),
            views(r@).no_duplicates(),
    {
        proof {
            use_type_invariant(self);
        }
        &self.colors
    }

    /// Adds a color to those found.
    fn add_color(&mut self, c: String)
        ensures
            final(self).spec_colors() == old(self).spec_colors().insert(c@),
            final(self).spec_pattern() == old(self).spec_pattern(),
            final(self).spec_update_fn() == old(self).spec_update_fn(),
    {
        proof {
            use_type_invariant(&*self);
        }
        let mut i: usize = 0;
        while i < self.colors.len()
            invariant
                i <= self.colors@.len(),
                forall|j: int| 0 <= j < i ==> self.colors@[j]@ != c@,
            decreases self.colors@.len() - i,
        {
            if str_eq(self.colors[i].as_str(), c.as_str()) {
                assert(views(self.colors@)[i as int] == c@);
                assert(views(self.colors@).to_set() =~= views(self.colors@).to_set().insert(c@));
                return;
            }
            i += 1;
        }
        let ghost before = views(self.colors@);
        proof {
            assert(!before.contains(c@)) by {
                if before.contains(c@) {
                    let j = choose|j: int| 0 <= j < before.len() && before[j] == c@;
                    assert(self.colors@[j]@ == c@);
                }
            }
        }
        let mut colors: Vec<String> = Vec::new();
        std::mem::swap(&mut colors, &mut self.colors);
        let ghost cv = c@;
        colors.push(c);
        proof {
            let after = views(colors@);
            assert(after =~= before.push(cv));
            assert(after.no_duplicates()) by {
                assert forall|a: int, b: int| 0 <= a < after.len() && 0 <= b < after.len() && a != b implies after[a] != after[b] by {
                    if a < before.len() && b < before.len() {
                        assert(before[a] != before[b]);
                    } else if a == before.len() {
                        assert(before.contains(before[b]));
                    } else {
                        assert(before.contains(before[a]));
                    }
                }
            }
            assert(after.to_set() =~= before.to_set().insert(cv)) by {
                assert forall|x: Seq<char>| after.contains(x) <==> before.contains(x) || x == cv by {
                    if after.contains(x) {
                        let j = choose|j: int| 0 <= j < after.len() && after[j] == x;
                        if j < before.len() {
                            assert(before[j] == x);
                        }
                    }
                    if before.contains(x) {
                        let j = choose|j: int| 0 <= j < before.len() && before[j] == x;
                        assert(after[j] == x);
                    }
                    if x == cv {
                        assert(after[before.len() as int] == x);
                    }
                }
            }
        }
        self.colors = colors;
    }
}

/// Whether an attribute after the rewrite is the attribute before: a
/// `className` attribute with a string value has its class string themed,
/// with updates that the function gave; any other attribute is unchanged.
pub open spec fn attr_themed<F: Fn(&str) -> String>(f: F, pattern: Seq<char>, before: (Seq<char>, Option<ValueV>), after: (Seq<char>, Option<ValueV>)) -> bool {
    match before.1 {
        Some(ValueV::Str(v)) => if before.0 == "className"@ {
            &&& after.0 == before.0
            &&& exists|updates: Seq<Seq<char>>| updates_from(f, regex_captures(pattern, v), updates)
                && after.1 == Some(ValueV::Str(themed(v, regex_captures(pattern, v), updates)))
        } else {
            after == before
        },
        _ => after == before,
    }
}

/// Whether each attribute after the rewrite is the one before at its place,
/// themed.
pub open spec fn attrs_themed<F: Fn(&str) -> String>(f: F, pattern: Seq<char>, before: Seq<(Seq<char>, Option<ValueV>)>, after: Seq<(Seq<char>, Option<ValueV>)>) -> bool {
    &&& before.len() == after.len()
    &&& forall|i: int| 0 <= i < before.len() ==> attr_themed(f, pattern, #[trigger] before[i], after[i])
}

/// The colors that the `className` attributes with string values hold.
pub open spec fn attrs_colors(pattern: Seq<char>, attrs: Seq<(Seq<char>, Option<ValueV>)>) -> Set<Seq<char>>
    decreases attrs.len(),
{
    if attrs.len() == 0 {
        Set::empty()
    } else {
        let rest = attrs_colors(pattern, attrs.drop_last());
        let a = attrs.last();
        match a.1 {
            Some(ValueV::Str(v)) => if a.0 == "className"@ {
                rest.union(colors_of(regex_captures(pattern, v)))
            } else {
                rest
            },
            _ => rest,
        }
    }
}

/// Whether the tree `after` is `before` with the class names of every
/// element, nested ones too, themed.
pub open spec fn tree_themed<F: Fn(&str) -> String>(f: F, pattern: Seq<char>, before: NodeV, after: NodeV) -> bool
    decreases before,
{
    match before {
        NodeV::El { name, attrs, children } => match after {
            NodeV::El { name: name2, attrs: attrs2, children: children2 } => {
                &&& name2 == name
                &&& attrs_themed(f, pattern, attrs, attrs2)
                &&& all_themed(f, pattern, children, children2)
            },
            NodeV::Text(_) => false,
        },
        NodeV::Text(t) => after == NodeV::Text(t),
    }
}

/// Whether each tree of `after` is the tree of `before` at its place,
/// themed.
pub open spec fn all_themed<F: Fn(&str) -> String>(f: F, pattern: Seq<char>, before: Seq<NodeV>, after: Seq<NodeV>) -> bool
    decreases before,
{
    if before.len() == 0 {
        after.len() == 0
    } else {
        after.len() > 0 && tree_themed(f, pattern, before[0], after[0]) && all_themed(f, pattern, before.drop_first(), after.drop_first())
    }
}

/// The colors that the class names of a tree hold.
pub open spec fn tree_colors(pattern: Seq<char>, n: NodeV) -> Set<Seq<char>>
    decreases n,
{
    match n {
        NodeV::El { name, attrs, children } => attrs_colors(pattern, attrs).union(all_colors(pattern, children)),
        NodeV::Text(_) => Set::empty(),
    }
}

/// The colors that the class names of a list of trees hold.
pub open spec fn all_colors(pattern: Seq<char>, cs: Seq<NodeV>) -> Set<Seq<char>>
    decreases cs,
{
    if cs.len() == 0 {
        Set::empty()
    } else {
        tree_colors(pattern, cs[0]).union(all_colors(pattern, cs.drop_first()))
    }
}

proof fn lemma_all_push<F: Fn(&str) -> String>(f: F, pattern: Seq<char>, b: Seq<NodeV>, a: Seq<NodeV>, x: NodeV, y: NodeV)
    requires
        all_themed(f, pattern, b, a),
        tree_themed(f, pattern, x, y),
    ensures
        all_themed(f, pattern, b.push(x), a.push(y)),
        all_colors(pattern, b.push(x)) == all_colors(pattern, b).union(tree_colors(pattern, x)),
    decreases b.len(),
{
    if b.len() == 0 {
        assert(b.push(x).drop_first() =~= Seq::<NodeV>::empty());
        assert(a.push(y).drop_first() =~= Seq::<NodeV>::empty());
        assert(all_themed(f, pattern, b.push(x).drop_first(), a.push(y).drop_first()));
        assert(b.push(x)[0] == x && a.push(y)[0] == y);
        assert(all_colors(pattern, b.push(x).drop_first()) =~= Set::<Seq<char>>::empty());
        assert(all_colors(pattern, b) =~= Set::<Seq<char>>::empty());
        assert(all_colors(pattern, b.push(x)) =~= all_colors(pattern, b).union(tree_colors(pattern, x)));
    } else {
        lemma_all_push(f, pattern, b.drop_first(), a.drop_first(), x, y);
        assert(b.push(x).drop_first() =~= b.drop_first().push(x));
        assert(a.push(y).drop_first() =~= a.drop_first().push(y));
        assert(b.push(x)[0] == b[0] && a.push(y)[0] == a[0]);
        assert(all_colors(pattern, b.push(x)) =~= all_colors(pattern, b).union(tree_colors(pattern, x)));
    }
}

impl<F: Fn(&str) -> String> ColorThemeVisitor<F> {
    /// Rewrites the colors of a class string, and collects them.
    pub fn transform_class_string(&mut self, input: &str) -> (r: String)
        requires
            forall|s: &str| #[trigger] old(self).spec_update_fn().requires((s,)),
        ensures
            final(self).spec_pattern() == old(self).spec_pattern(),
            final(self).spec_update_fn() == old(self).spec_update_fn(),
            final(self).spec_colors() == old(self).spec_colors().union(colors_of(regex_captures(old(self).spec_pattern(), input@))),
            exists|updates: Seq<Seq<char>>| updates_from(old(self).spec_update_fn(), regex_captures(old(self).spec_pattern(), input@), updates)
                && r@ == themed(input@, regex_captures(old(self).spec_pattern(), input@), updates),
    {
        let ghost f = self.spec_update_fn();
        let ghost c0 = self.spec_colors();
        let caps = captures_of(&self.pattern, input);
        let ghost cv = capture_views(caps@);
        let mut result = owned(input);
        let ghost mut updates: Seq<Seq<char>> = seq![];
        let mut i: usize = 0;
        assert(cv.take(0) =~= Seq::<(Seq<char>, Option<Seq<char>>)>::empty());
        assert(c0.union(colors_of(cv.take(0))) =~= c0);
        while i < caps.len()
            invariant
                i <= caps@.len(),
                cv == capture_views(caps@),
                cv == regex_captures(old(self).spec_pattern(), input@),
                f == self.spec_update_fn(),
                self.spec_pattern() == old(self).spec_pattern(),
                forall|s: &str| #[trigger] f.requires((s,)),
                updates_from(f, cv.take(i as int), updates),
                result@ == themed(input@, cv.take(i as int), updates),
                self.spec_colors() == c0.union(colors_of(cv.take(i as int))),
            decreases caps@.len() - i,
        {
            let ghost prev = cv.take(i as int);
            let ghost next = cv.take(i + 1);
            assert(next.drop_last() =~= prev);
            assert(next.last() == cv[i as int]);
            match &caps[i].1 {
                Some(g) => {
                    let gs: &str = g.as_str();
                    self.add_color(to_lowercase(gs));
                    let u = (self.update_fn)(gs);
                    let rep = str_replace_any(caps[i].0.as_str(), gs, u.as_str());
                    result = str_replace_any(result.as_str(), caps[i].0.as_str(), rep.as_str());
                    proof {
                        let updates1 = updates.push(u@);
                        lemma_themed_prefix(input@, prev, updates, updates1);
                        assert(themed(input@, next, updates1) == replaced(themed(input@, prev, updates1), cv[i as int].0,
                            replaced(cv[i as int].0, g@, updates1[i as int])));
                        assert forall|k: int| 0 <= k < next.len() && (#[trigger] next[k]).1 is Some implies exists|s: &str, w: String|
                            s@ == next[k].1.unwrap() && w@ == updates1[k] && f.ensures((s,), w) by {
                            if k < i {
                                assert(prev[k] == next[k]);
                                assert(updates1[k] == updates[k]);
                            } else {
                                assert(gs@ == next[k].1.unwrap() && u@ == updates1[k] && f.ensures((gs,), u));
                            }
                        }
                        assert(self.spec_colors() =~= c0.union(colors_of(next)));
                        updates = updates1;
                    }
                },
                None => {
                    proof {
                        let updates1 = updates.push(seq![]);
                        lemma_themed_prefix(input@, prev, updates, updates1);
                        assert forall|k: int| 0 <= k < next.len() && (#[trigger] next[k]).1 is Some implies exists|s: &str, w: String|
                            s@ == next[k].1.unwrap() && w@ == updates1[k] && f.ensures((s,), w) by {
                            assert(k < i);
                            assert(prev[k] == next[k]);
                            assert(updates1[k] == updates[k]);
                        }
                        assert(self.spec_colors() =~= c0.union(colors_of(next)));
                        updates = updates1;
                    }
                },
            }
            i += 1;
        }
        assert(cv.take(caps@.len() as int) =~= cv);
        result
    }
}

impl<F: Fn(&str) -> String> ColorThemeVisitor<F> {
    /// Rewrites the colors in the class names of an element and of every
    /// element nested in it, and collects them.
    pub fn visit_jsx_element(&mut self, node: &mut JsxElement)
        requires
            forall|s: &str| #[trigger] old(self).spec_update_fn().requires((s,)),
        ensures
            final(self).spec_pattern() == old(self).spec_pattern(),
            final(self).spec_update_fn() == old(self).spec_update_fn(),
            final(self).spec_colors() == old(self).spec_colors().union(tree_colors(old(self).spec_pattern(), el_view(*old(node)))),
            tree_themed(old(self).spec_update_fn(), old(self).spec_pattern(), el_view(*old(node)), el_view(*final(node))),
    {
        let r = self.theme(&*node);
        *node = r;
    }

    /// The attributes of an element, their class names themed.
    fn theme_attrs(&mut self, attrs: &Vec<JsxAttr>) -> (r: Vec<JsxAttr>)
        requires
            forall|s: &str| #[trigger] old(self).spec_update_fn().requires((s,)),
        ensures
            final(self).spec_pattern() == old(self).spec_pattern(),
            final(self).spec_update_fn() == old(self).spec_update_fn(),
            final(self).spec_colors() == old(self).spec_colors().union(attrs_colors(old(self).spec_pattern(), attrs_view(attrs@))),
            attrs_themed(old(self).spec_update_fn(), old(self).spec_pattern(), attrs_view(attrs@), attrs_view(r@)),
    {
        let ghost f = self.spec_update_fn();
        let ghost p = self.spec_pattern();
        let ghost c0 = self.spec_colors();
        let ghost av = attrs_view(attrs@);
        let mut out: Vec<JsxAttr> = Vec::new();
        let mut i: usize = 0;
        assert(av.take(0) =~= Seq::<(Seq<char>, Option<ValueV>)>::empty());
        assert(c0.union(attrs_colors(p, av.take(0))) =~= c0);
        while i < attrs.len()
            invariant
                i <= attrs@.len(),
                av == attrs_view(attrs@),
                f == self.spec_update_fn(),
                p == self.spec_pattern(),
                forall|s: &str| #[trigger] f.requires((s,)),
                attrs_view(out@).len() == i,
                forall|k: int| 0 <= k < i ==> attr_themed(f, p, #[trigger] av[k], attrs_view(out@)[k]),
                self.spec_colors() == c0.union(attrs_colors(p, av.take(i as int))),
            decreases attrs@.len() - i,
        {
            proof {
                reveal_strlit("className");
            }
            let ghost prev = av.take(i as int);
            let ghost next = av.take(i + 1);
            assert(next.drop_last() =~= prev);
            assert(next.last() == av[i as int]);
            assert(av[i as int] == attr_view(attrs@[i as int]));
            let a = &attrs[i];
            let is_class = str_eq(a.name.as_str(), "className");
            let na = match &a.value {
                Some(JsxValue::Str(v)) => {
                    if is_class {
                        let t = self.transform_class_string(v.as_str());
                        let na = JsxAttr { name: owned(a.name.as_str()), value: Some(JsxValue::Str(t)) };
                        assert(self.spec_colors() =~= c0.union(attrs_colors(p, next)));
                        na
                    } else {
                        let na = crate::jsx::copy_attr(a);
                        assert(self.spec_colors() =~= c0.union(attrs_colors(p, next)));
                        na
                    }
                },
                _ => {
                    let na = crate::jsx::copy_attr(a);
                    assert(self.spec_colors() =~= c0.union(attrs_colors(p, next)));
                    na
                },
            };
            assert(attr_themed(f, p, av[i as int], attr_view(na)));
            let ghost before = out@;
            out.push(na);
            assert(attrs_view(out@) =~= attrs_view(before).push(attr_view(na)));
            i += 1;
        }
        assert(av.take(attrs@.len() as int) =~= av);
        out
    }

    /// `e`, its class names themed.
    fn theme(&mut self, e: &JsxElement) -> (r: JsxElement)
        requires
            forall|s: &str| #[trigger] old(self).spec_update_fn().requires((s,)),
        ensures
            final(self).spec_pattern() == old(self).spec_pattern(),
            final(self).spec_update_fn() == old(self).spec_update_fn(),
            final(self).spec_colors() == old(self).spec_colors().union(tree_colors(old(self).spec_pattern(), el_view(*e))),
            tree_themed(old(self).spec_update_fn(), old(self).spec_pattern(), el_view(*e), el_view(r)),
        decreases e,
    {
        let ghost f = self.spec_update_fn();
        let ghost p = self.spec_pattern();
        let ghost c0 = self.spec_colors();
        let attrs = self.theme_attrs(&e.attrs);
        let ghost c1 = self.spec_colors();
        let mut done: Vec<JsxChild> = Vec::new();
        let mut i: usize = 0;
        proof {
            assert(children_view(done@) =~= Seq::<NodeV>::empty());
            assert(children_view(e.children@.take(0)) =~= Seq::<NodeV>::empty());
            assert(all_colors(p, Seq::<NodeV>::empty()) =~= Set::<Seq<char>>::empty());
            assert(c1.union(all_colors(p, children_view(e.children@.take(0)))) =~= c1);
        }
        while i < e.children.len()
            invariant
                i <= e.children.len(),
                f == self.spec_update_fn(),
                p == self.spec_pattern(),
                forall|s: &str| #[trigger] f.requires((s,)),
                all_themed(f, p, children_view(e.children@.take(i as int)), children_view(done@)),
                self.spec_colors() == c1.union(all_colors(p, children_view(e.children@.take(i as int)))),
            decreases e.children.len() - i,
        {
            let d = match &e.children[i] {
                JsxChild::Element(x) => {
                    assert(decreases_to!(e => e.children));
                    assert(decreases_to!(e.children => e.children@));
                    assert(decreases_to!(e.children@ => e.children@[i as int]));
                    assert(decreases_to!(e.children@[i as int] => e.children@[i as int]->Element_0));
                    JsxChild::Element(self.theme(x))
                },
                JsxChild::Text(t) => JsxChild::Text(owned(t.as_str())),
            };
            proof {
                let c = e.children@[i as int];
                assert(tree_themed(f, p, child_view(c), child_view(d)));
                lemma_children_view_push(done@, d);
                assert(e.children@.take(i + 1) =~= e.children@.take(i as int).push(c));
                lemma_children_view_push(e.children@.take(i as int), c);
                lemma_all_push(f, p, children_view(e.children@.take(i as int)), children_view(done@), child_view(c), child_view(d));
                assert(self.spec_colors() =~= c1.union(all_colors(p, children_view(e.children@.take(i + 1)))));
            }
            done.push(d);
            i += 1;
        }
        proof {
            assert(e.children@.take(i as int) =~= e.children@);
            assert(self.spec_colors() =~= c0.union(tree_colors(p, el_view(*e))));
        }
        JsxElement { name: owned(e.name.as_str()), attrs, children: done }
    }
}

/// An update function that gives back each color as it is leaves class
/// strings unchanged.
pub proof fn law_identity_update_keeps_classes(input: Seq<char>, caps: Seq<(Seq<char>, Option<Seq<char>>)>, updates: Seq<Seq<char>>)
    requires
        updates.len() >= caps.len(),
        forall|i: int| 0 <= i < caps.len() && (#[trigger] caps[i]).1 is Some ==> updates[i] == caps[i].1.unwrap(),
    ensures
        themed(input, caps, updates) == input,
    decreases caps.len(),
{
    if caps.len() > 0 {
        let rest = caps.drop_last();
        assert forall|i: int| 0 <= i < rest.len() && (#[trigger] rest[i]).1 is Some implies updates[i] == rest[i].1.unwrap() by {
            assert(rest[i] == caps[i]);
        }
        law_identity_update_keeps_classes(input, rest, updates);
        let last = caps.last();
        assert(last == caps[caps.len() - 1]);
        match last.1 {
            Some(g) => {
                lemma_replaced_self(last.0, g);
                lemma_replaced_self(input, last.0);
            },
            None => {},
        }
    }
}

} // verus!
