//! Glow filters for SVG elements, by element id: the element refers to the
//! filter, and the SVG element around it defines the filter components.

use vstd::prelude::*;
use crate::decimal::Decimal;
use crate::keyed::KeyedMap;
use crate::jsx::{JsxAttr, JsxChild, JsxElement, JsxValue, NodeV, ValueV, attr_view, attrs_view, child_view,
    children_view, el_view, el, str_attr, copy_attrs, lemma_children_view_push, str_attr_of};
use crate::text::{owned, str_eq, cat3};
use crate::tsx::imports::{ImportDecl, ImportSpecifier, SpecifierV, TsxModule, imports_view, import_view, prepend_imports};

verus! {

/// The props of a glow filter component. Numbers are exact decimals.
#[derive(Debug, Clone)]
pub struct GlowFilterProps {
    pub id: String,
    pub color: String,
    pub intensity: Option<Decimal>,
    pub animated: Option<bool>,
    pub duration: Option<Decimal>,
    pub delay: Option<Decimal>,
    /// `linear`, `easeIn`, `easeOut`, `easeInOut`, `circIn`, `circOut` or
    /// `backOut`.
    pub easing: Option<String>,
    pub glow_layers: Option<u32>,
    pub max_intensity: Option<Decimal>,
    pub pulsing: Option<bool>,
    pub interactive: Option<bool>,
    /// The name of a function to call on hover.
    pub on_hover: Option<String>,
}

/// The decimal with the given digits and no fraction.
pub open spec fn whole(n: u64) -> Decimal {
    Decimal { negative: false, digits: n, exponent: 0 }
}

impl Default for GlowFilterProps {
    /// A white glow of intensity 1 over 1 second, not animated, in three
    /// layers of intensity up to 2, eased in and out.
    fn default() -> (r: Self)
        ensures
            r.id@.len() == 0,
            r.color@ == "#ffffff"@,
            r.intensity == Some(whole(1)),
            r.animated == Some(false),
            r.duration == Some(whole(1)),
            r.delay == Some(whole(0)),
            r.easing is Some && r.easing.unwrap()@ == "easeInOut"@,
            r.glow_layers == Some(3u32),
            r.max_intensity == Some(whole(2)),
            r.pulsing == Some(false),
            r.interactive == Some(false),
            r.on_hover is None,
    {
        GlowFilterProps {
            id: String::new(),
            color: owned("#ffffff"),
            intensity: Some(Decimal { negative: false, digits: 1, exponent: 0 }),
            animated: Some(false),
            duration: Some(Decimal { negative: false, digits: 1, exponent: 0 }),
            delay: Some(Decimal { negative: false, digits: 0, exponent: 0 }),
            easing: Some(owned("easeInOut")),
            glow_layers: Some(3),
            max_intensity: Some(Decimal { negative: false, digits: 2, exponent: 0 }),
            pulsing: Some(false),
            interactive: Some(false),
            on_hover: None,
        }
    }
}

/// A number prop, where there is a number.
pub open spec fn opt_number(name: Seq<char>, v: Option<Decimal>) -> Seq<(Seq<char>, Option<ValueV>)> {
    match v {
        Some(d) => seq![(name, Some(ValueV::Expr(d.render())))],
        None => seq![],
    }
}

/// A boolean prop, where there is a value.
pub open spec fn opt_bool(name: Seq<char>, v: Option<bool>) -> Seq<(Seq<char>, Option<ValueV>)> {
    match v {
        Some(b) => seq![(name, Some(ValueV::Bool(b)))],
        None => seq![],
    }
}

/// A count prop, where there is a count.
pub open spec fn opt_count(name: Seq<char>, v: Option<u32>) -> Seq<(Seq<char>, Option<ValueV>)> {
    match v {
        Some(n) => seq![(name, Some(ValueV::Number(n as nat)))],
        None => seq![],
    }
}

/// The glow filter component of the props: its id and color, then the
/// intensity, `animated`, duration, `pulsing`, `interactive` and layer count
/// that it has.
pub open spec fn glow_filter(p: GlowFilterProps) -> NodeV {
    el(
        "GlowFilter"@,
        seq![str_attr("id"@, p.id@), str_attr("color"@, p.color@)] + opt_number("intensity"@, p.intensity)
            + opt_bool("animated"@, p.animated) + opt_number("duration"@, p.duration) + opt_bool("pulsing"@, p.pulsing)
            + opt_bool("interactive"@, p.interactive) + opt_count("glowLayers"@, p.glow_layers),
        seq![],
    )
}

/// The attribute that applies a filter to an element.
pub open spec fn filter_attr(p: GlowFilterProps) -> (Seq<char>, Option<ValueV>) {
    str_attr("filter"@, "url(#"@ + p.id@ + ")"@)
}

/// The id of an element: the value of its first `id` attribute with a
/// string value.
pub open spec fn first_id(attrs: Seq<(Seq<char>, Option<ValueV>)>) -> Option<Seq<char>>
    decreases attrs.len(),
{
    if attrs.len() == 0 {
        None
    } else {
        match attrs[0].1 {
            Some(ValueV::Str(v)) => if attrs[0].0 == "id"@ { Some(v) } else { first_id(attrs.drop_first()) },
            _ => first_id(attrs.drop_first()),
        }
    }
}

/// A tree with its filters applied, inside an SVG element or not, with the
/// filter components waiting for the SVG element around; and the components
/// waiting after it. An element whose id has a filter gets the filter
/// attribute, and inside an SVG element its component waits. An SVG element
/// starts with none waiting, and defines those waiting at its end in a
/// `defs` element before its children.
pub open spec fn filtered(m: Map<Seq<char>, GlowFilterProps>, n: NodeV, inside: bool, pending: Seq<NodeV>) -> (NodeV, Seq<NodeV>)
    decreases n,
{
    match n {
        NodeV::El { name, attrs, children } => {
            let is_svg = name == "svg"@;
            let in1 = is_svg || inside;
            let p1 = if is_svg { seq![] } else { pending };
            let (attrs2, p2) = match first_id(attrs) {
                Some(id) => if m.contains_key(id) {
                    (attrs.push(filter_attr(m[id])), if in1 { p1.push(glow_filter(m[id])) } else { p1 })
                } else {
                    (attrs, p1)
                },
                None => (attrs, p1),
            };
            let (kids, p3) = filtered_all(m, children, in1, p2);
            if is_svg && p3.len() > 0 {
                (NodeV::El { name, attrs: attrs2, children: seq![el("defs"@, seq![], p3)] + kids }, seq![])
            } else {
                (NodeV::El { name, attrs: attrs2, children: kids }, p3)
            }
        },
        NodeV::Text(t) => (NodeV::Text(t), pending),
    }
}

/// A list of trees with their filters applied, one after the other.
pub open spec fn filtered_all(m: Map<Seq<char>, GlowFilterProps>, cs: Seq<NodeV>, inside: bool, pending: Seq<NodeV>) -> (Seq<NodeV>, Seq<NodeV>)
    decreases cs,
{
    if cs.len() == 0 {
        (seq![], pending)
    } else {
        let (c0, p1) = filtered(m, cs[0], inside, pending);
        let (rest, p2) = filtered_all(m, cs.drop_first(), inside, p1);
        (seq![c0] + rest, p2)
    }
}

proof fn lemma_filtered_all_push(m: Map<Seq<char>, GlowFilterProps>, cs: Seq<NodeV>, c: NodeV, inside: bool, pending: Seq<NodeV>)
    ensures
        ({
            let (a, p) = filtered_all(m, cs, inside, pending);
            let (b, q) = filtered(m, c, inside, p);
            filtered_all(m, cs.push(c), inside, pending) == (a.push(b), q)
        }),
    decreases cs.len(),
{
    if cs.len() == 0 {
        assert(cs.push(c).drop_first() =~= Seq::<NodeV>::empty());
        let (b, q) = filtered(m, c, inside, pending);
        assert(filtered_all(m, cs.push(c).drop_first(), inside, q) == (Seq::<NodeV>::empty(), q));
        assert(seq![b] + Seq::<NodeV>::empty() =~= Seq::<NodeV>::empty().push(b));
    } else {
        let (c0, p1) = filtered(m, cs[0], inside, pending);
        lemma_filtered_all_push(m, cs.drop_first(), c, inside, p1);
        assert(cs.push(c).drop_first() =~= cs.drop_first().push(c));
        assert(cs.push(c)[0] == cs[0]);
        let (rest, p2) = filtered_all(m, cs.drop_first(), inside, p1);
        let (b, q) = filtered(m, c, inside, p2);
        assert(seq![c0] + rest.push(b) =~= (seq![c0] + rest).push(b));
    }
}

/// The import of the glow filter component.
pub open spec fn glow_filter_import() -> (Seq<SpecifierV>, Seq<char>) {
    (seq![SpecifierV::Named("GlowFilter"@)], "@/components/filters/glow-filter"@)
}

/// The imports of a module after the visit: the glow filter component first
/// where filters are registered, else the imports as they were.
pub open spec fn imports_after(filters: Map<Seq<char>, GlowFilterProps>, imports: Seq<(Seq<SpecifierV>, Seq<char>)>) -> Seq<(Seq<SpecifierV>, Seq<char>)> {
    if filters.dom().len() > 0 {
        seq![glow_filter_import()] + imports
    } else {
        imports
    }
}

/// Visiting a module adds exactly one import where filters are registered:
/// the named `GlowFilter` from the glow filter module, before the others;
/// without filters the imports stay as they are.
pub proof fn law_one_glow_filter_import(filters: Map<Seq<char>, GlowFilterProps>, imports: Seq<(Seq<SpecifierV>, Seq<char>)>)
    ensures
        filters.dom().len() > 0 ==> {
            let after = imports_after(filters, imports);
            &&& after.len() == imports.len() + 1
            &&& after[0] == (seq![SpecifierV::Named("GlowFilter"@)], "@/components/filters/glow-filter"@)
            &&& after[0].0.len() == 1
            &&& after.subrange(1, after.len() as int) == imports
        },
        filters.dom().len() == 0 ==> imports_after(filters, imports) == imports,
{
    let after = imports_after(filters, imports);
    if filters.dom().len() > 0 {
        assert(after.subrange(1, after.len() as int) =~= imports);
    }
}

/// Applies glow filters to SVG elements by their ids.
#[derive(Debug)]
pub struct FilterVisitor {
    /// The glow filter of each element id.
    pub glow_filters: KeyedMap<GlowFilterProps>,
}

impl Default for FilterVisitor {
    /// A visitor with no filters.
    fn default() -> (r: Self)
        ensures
            r.glow_filters@ == Map::<Seq<char>, GlowFilterProps>::empty(),
    {
        FilterVisitor { glow_filters: KeyedMap::new() }
    }
}

fn push_number(attrs: &mut Vec<JsxAttr>, name: &str, v: Option<Decimal>)
    ensures
        attrs_view(final(attrs)@) == attrs_view(old(attrs)@) + opt_number(name@, v),
{
    let ghost before = attrs@;
    match v {
        Some(d) => {
            let a = JsxAttr { name: owned(name), value: Some(JsxValue::Expr(d.to_text())) };
            attrs.push(a);
            assert(attrs_view(attrs@) =~= attrs_view(before).push(attr_view(a)));
        },
        None => {},
    }
    assert(attrs_view(attrs@) =~= attrs_view(before) + opt_number(name@, v));
}

fn push_bool(attrs: &mut Vec<JsxAttr>, name: &str, v: Option<bool>)
    ensures
        attrs_view(final(attrs)@) == attrs_view(old(attrs)@) + opt_bool(name@, v),
{
    let ghost before = attrs@;
    match v {
        Some(b) => {
            let a = JsxAttr { name: owned(name), value: Some(JsxValue::Bool(b)) };
            attrs.push(a);
            assert(attrs_view(attrs@) =~= attrs_view(before).push(attr_view(a)));
        },
        None => {},
    }
    assert(attrs_view(attrs@) =~= attrs_view(before) + opt_bool(name@, v));
}

fn push_count(attrs: &mut Vec<JsxAttr>, name: &str, v: Option<u32>)
    ensures
        attrs_view(final(attrs)@) == attrs_view(old(attrs)@) + opt_count(name@, v),
{
    let ghost before = attrs@;
    match v {
        Some(n) => {
            let a = JsxAttr { name: owned(name), value: Some(JsxValue::Number(n as u64)) };
            attrs.push(a);
            assert(attrs_view(attrs@) =~= attrs_view(before).push(attr_view(a)));
        },
        None => {},
    }
    assert(attrs_view(attrs@) =~= attrs_view(before) + opt_count(name@, v));
}

/// The id of an element; see `first_id`.
fn find_first_id(attrs: &Vec<JsxAttr>) -> (r: Option<String>)
    ensures
        match first_id(attrs_view(attrs@)) {
            Some(id) => r is Some && r.unwrap()@ == id,
            None => r is None,
        },
{
    let ghost av = attrs_view(attrs@);
    let mut i: usize = 0;
    assert(av.skip(0) =~= av);
    while i < attrs.len()
        invariant
            i <= attrs.len(),
            av == attrs_view(attrs@),
            first_id(av) == first_id(av.skip(i as int)),
        decreases attrs.len() - i,
    {
        let ghost rest = av.skip(i as int);
        assert(rest[0] == attr_view(attrs@[i as int]));
        assert(rest.drop_first() =~= av.skip(i + 1));
        if str_eq(attrs[i].name.as_str(), "id") {
            match &attrs[i].value {
                Some(JsxValue::Str(v)) => {
                    return Some(owned(v.as_str()));
                },
                _ => {},
            }
        }
        i += 1;
    }
    assert(av.skip(i as int).len() == 0);
    None
}

impl FilterVisitor {
    /// A visitor with the given filters.
    pub fn new(glow_filters: KeyedMap<GlowFilterProps>) -> (r: FilterVisitor)
        ensures
            r.glow_filters@ == glow_filters@,
    {
        FilterVisitor { glow_filters }
    }

    /// Applies a glow filter to the element with id `element_id`, in place
    /// of an earlier filter of that id.
    pub fn register_glow_filter(&mut self, element_id: String, filter: GlowFilterProps)
        ensures
            final(self).glow_filters@ == old(self).glow_filters@.insert(element_id@, filter),
    {
        self.glow_filters.insert(element_id, filter);
    }

    /// The glow filter component of the props.
    pub fn create_glow_filter_component(&self, props: &GlowFilterProps) -> (r: JsxElement)
        ensures
            el_view(r) == glow_filter(*props),
    {
        let mut attrs: Vec<JsxAttr> = Vec::new();
        let ghost start = attrs_view(attrs@);
        attrs.push(str_attr_of("id", props.id.as_str()));
        attrs.push(str_attr_of("color", props.color.as_str()));
        assert(attrs_view(attrs@) =~= seq![str_attr("id"@, props.id@), str_attr("color"@, props.color@)]);
        push_number(&mut attrs, "intensity", props.intensity);
        push_bool(&mut attrs, "animated", props.animated);
        push_number(&mut attrs, "duration", props.duration);
        push_bool(&mut attrs, "pulsing", props.pulsing);
        push_bool(&mut attrs, "interactive", props.interactive);
        push_count(&mut attrs, "glowLayers", props.glow_layers);
        let children: Vec<JsxChild> = Vec::new();
        assert(children_view(children@) =~= Seq::<NodeV>::empty());
        JsxElement { name: owned("GlowFilter"), attrs, children }
    }
}

/// The views of a list of elements.
pub open spec fn els_view(v: Seq<JsxElement>) -> Seq<NodeV> {
    v.map_values(|e: JsxElement| el_view(e))
}

proof fn lemma_children_view_append(a: Seq<JsxChild>, b: Seq<JsxChild>)
    ensures
        children_view(a + b) == children_view(a) + children_view(b),
    decreases a.len(),
{
    if a.len() == 0 {
        assert(a + b =~= b);
        assert(children_view(a) =~= Seq::<NodeV>::empty());
        assert(children_view(a) + children_view(b) =~= children_view(b));
    } else {
        lemma_children_view_append(a.drop_first(), b);
        assert((a + b).drop_first() =~= a.drop_first() + b);
        assert((a + b)[0] == a[0]);
        assert(children_view(a + b) =~= children_view(a) + children_view(b));
    }
}

/// The elements of a list as children, in order.
fn into_children(v: Vec<JsxElement>) -> (r: Vec<JsxChild>)
    ensures
        children_view(r@) == els_view(v@),
{
    let ghost all = v@;
    let mut rest = v;
    let mut out: Vec<JsxChild> = Vec::new();
    let ghost mut k: int = 0;
    proof {
        assert(all.skip(0) =~= all);
        assert(children_view(out@) =~= els_view(all.take(0)));
    }
    while rest.len() > 0
        invariant
            0 <= k <= all.len(),
            rest@ == all.skip(k),
            children_view(out@) == els_view(all.take(k)),
        decreases rest.len(),
    {
        let x = rest.remove(0);
        assert(x == all[k]);
        let c = JsxChild::Element(x);
        proof {
            lemma_children_view_push(out@, c);
            assert(all.take(k + 1) =~= all.take(k).push(all[k]));
            assert(els_view(all.take(k + 1)) =~= els_view(all.take(k)).push(el_view(all[k])));
            assert(rest@ =~= all.skip(k + 1));
        }
        out.push(c);
        proof {
            k = k + 1;
        }
    }
    assert(all.take(k) =~= all);
    out
}

/// After an element outside any SVG element, no filter component is left
/// waiting.
pub proof fn law_nothing_waits_outside_svg(m: Map<Seq<char>, GlowFilterProps>, n: NodeV)
    ensures
        filtered(m, n, false, seq![]).1 == Seq::<NodeV>::empty(),
    decreases n,
{
    match n {
        NodeV::El { name, attrs, children } => {
            if name != "svg"@ {
                lemma_nothing_waits_all(m, children);
            }
        },
        NodeV::Text(_) => {},
    }
}

proof fn lemma_nothing_waits_all(m: Map<Seq<char>, GlowFilterProps>, cs: Seq<NodeV>)
    ensures
        filtered_all(m, cs, false, seq![]).1 == Seq::<NodeV>::empty(),
    decreases cs,
{
    if cs.len() > 0 {
        law_nothing_waits_outside_svg(m, cs[0]);
        lemma_nothing_waits_all(m, cs.drop_first());
    }
}

impl FilterVisitor {
    /// `e` with its filters applied, inside an SVG element or not, with the
    /// components waiting in `pending`; see `filtered`.
    fn filter_el(&self, e: &JsxElement, inside: bool, pending: &mut Vec<JsxElement>) -> (r: JsxElement)
        ensures
            (el_view(r), els_view(final(pending)@)) == filtered(self.glow_filters@, el_view(*e), inside, els_view(old(pending)@)),
        decreases e,
    {
        let ghost m = self.glow_filters@;
        let ghost p0 = els_view(pending@);
        let is_svg = str_eq(e.name.as_str(), "svg");
        let in1 = is_svg || inside;
        let mut work: Vec<JsxElement> = Vec::new();
        if !is_svg {
            std::mem::swap(&mut work, pending);
        }
        let ghost p1 = els_view(work@);
        assert(p1 == if is_svg { Seq::<NodeV>::empty() } else { p0 });
        let mut attrs = copy_attrs(&e.attrs);
        let ghost av = attrs_view(e.attrs@);
        match find_first_id(&e.attrs) {
            Some(id) => {
                match self.glow_filters.get(id.as_str()) {
                    Some(f) => {
                        let ghost before = attrs@;
                        let fa = JsxAttr { name: owned("filter"), value: Some(JsxValue::Str(cat3("url(#", f.id.as_str(), ")"))) };
                        attrs.push(fa);
                        assert(attrs_view(attrs@) =~= attrs_view(before).push(attr_view(fa)));
                        if in1 {
                            let g = self.create_glow_filter_component(f);
                            let ghost wb = work@;
                            work.push(g);
                            assert(els_view(work@) =~= els_view(wb).push(el_view(g)));
                        }
                    },
                    None => {},
                }
            },
            None => {},
        }
        let ghost p2 = els_view(work@);
        let mut done: Vec<JsxChild> = Vec::new();
        let mut i: usize = 0;
        proof {
            assert(children_view(done@) =~= Seq::<NodeV>::empty());
            assert(children_view(e.children@.take(0)) =~= Seq::<NodeV>::empty());
            assert(filtered_all(m, Seq::<NodeV>::empty(), in1, p2) == (Seq::<NodeV>::empty(), p2));
        }
        while i < e.children.len()
            invariant
                i <= e.children.len(),
                m == self.glow_filters@,
                (children_view(done@), els_view(work@)) == filtered_all(m, children_view(e.children@.take(i as int)), in1, p2),
            decreases e.children.len() - i,
        {
            let ghost wb = els_view(work@);
            let d = match &e.children[i] {
                JsxChild::Element(x) => {
                    assert(decreases_to!(e => e.children));
                    assert(decreases_to!(e.children => e.children@));
                    assert(decreases_to!(e.children@ => e.children@[i as int]));
                    assert(decreases_to!(e.children@[i as int] => e.children@[i as int]->Element_0));
                    JsxChild::Element(self.filter_el(x, in1, &mut work))
                },
                JsxChild::Text(t) => JsxChild::Text(owned(t.as_str())),
            };
            proof {
                let c = e.children@[i as int];
                assert((child_view(d), els_view(work@)) == filtered(m, child_view(c), in1, wb));
                lemma_children_view_push(done@, d);
                assert(e.children@.take(i + 1) =~= e.children@.take(i as int).push(c));
                lemma_children_view_push(e.children@.take(i as int), c);
                lemma_filtered_all_push(m, children_view(e.children@.take(i as int)), child_view(c), in1, p2);
            }
            done.push(d);
            i += 1;
        }
        proof {
            assert(e.children@.take(i as int) =~= e.children@);
        }
        let ghost p3 = els_view(work@);
        let ghost kids = children_view(done@);
        if is_svg && work.len() > 0 {
            let defs_children = into_children(work);
            let defs = JsxElement { name: owned("defs"), attrs: Vec::new(), children: defs_children };
            assert(attrs_view(defs.attrs@) =~= Seq::<(Seq<char>, Option<ValueV>)>::empty());
            let ghost dv = el_view(defs);
            let ghost dg = defs;
            assert(dv == el("defs"@, seq![], p3));
            let mut children: Vec<JsxChild> = Vec::new();
            children.push(JsxChild::Element(defs));
            let ghost first = children@;
            let ghost done_before = done@;
            children.append(&mut done);
            proof {
                assert(children@ == first + done_before);
                lemma_children_view_append(first, done_before);
                assert(children_view(first) =~= seq![dv]) by {
                    assert(first.len() == 1 && first[0] == JsxChild::Element(dg));
                    assert(child_view(first[0]) == dv);
                    assert(first.drop_first() =~= Seq::<JsxChild>::empty());
                    assert(children_view(first.drop_first()) =~= Seq::<NodeV>::empty());
                }
            }
            *pending = Vec::new();
            assert(els_view(pending@) =~= Seq::<NodeV>::empty());
            JsxElement { name: owned(e.name.as_str()), attrs, children }
        } else {
            if is_svg {
                *pending = Vec::new();
                assert(els_view(pending@) =~= Seq::<NodeV>::empty());
                assert(p3 =~= Seq::<NodeV>::empty());
            } else {
                *pending = work;
            }
            JsxElement { name: owned(e.name.as_str()), attrs, children: done }
        }
    }
}

impl FilterVisitor {
    /// Applies the filters to an element outside any SVG element, and to
    /// the elements inside it.
    pub fn visit_jsx_element(&mut self, node: &mut JsxElement)
        ensures
            final(self).glow_filters@ == old(self).glow_filters@,
            el_view(*final(node)) == filtered(old(self).glow_filters@, el_view(*old(node)), false, seq![]).0,
    {
        let mut pending: Vec<JsxElement> = Vec::new();
        assert(els_view(pending@) =~= Seq::<NodeV>::empty());
        let r = self.filter_el(&*node, false, &mut pending);
        *node = r;
    }

    /// Imports the glow filter component where there are filters, before
    /// the module's own imports, and applies the filters to the module's
    /// elements.
    pub fn visit_module(&mut self, module: &mut TsxModule)
        ensures
            final(self).glow_filters@ == old(self).glow_filters@,
            imports_view(final(module).imports@) == imports_after(old(self).glow_filters@, imports_view(old(module).imports@)),
            final(module).elements@.len() == old(module).elements@.len(),
            forall|i: int| 0 <= i < old(module).elements@.len() ==> el_view(#[trigger] final(module).elements@[i])
                == filtered(old(self).glow_filters@, el_view(old(module).elements@[i]), false, seq![]).0,
    {
        if !self.glow_filters.is_empty() {
            let d = ImportDecl { specifiers: vec![ImportSpecifier::Named(owned("GlowFilter"))], src: owned("@/components/filters/glow-filter") };
            assert(import_view(d).0 =~= seq![SpecifierV::Named("GlowFilter"@)]);
            let ghost dv = import_view(d);
            assert(dv == glow_filter_import());
            let front = vec![d];
            assert(imports_view(front@) =~= seq![dv]);
            prepend_imports(&mut module.imports, front);
        }
        let ghost elements0 = module.elements@;
        let ghost imports1 = module.imports@;
        let mut k: usize = 0;
        while k < module.elements.len()
            invariant
                k <= module.elements@.len(),
                module.elements@.len() == elements0.len(),
                module.imports@ == imports1,
                forall|j: int| k <= j < elements0.len() ==> module.elements@[j] == elements0[j],
                forall|j: int| 0 <= j < k ==> el_view(#[trigger] module.elements@[j])
                    == filtered(self.glow_filters@, el_view(elements0[j]), false, seq![]).0,
            decreases module.elements@.len() - k,
        {
            let mut pending: Vec<JsxElement> = Vec::new();
            assert(els_view(pending@) =~= Seq::<NodeV>::empty());
            let r = self.filter_el(&module.elements[k], false, &mut pending);
            module.elements.set(k, r);
            k += 1;
        }
    }
}

} // verus!
