//! Animation of JSX elements with Framer Motion: elements with a registered
//! animation become `motion` elements with its props, and pass it on to the
//! elements inside them where it says so.

use vstd::prelude::*;
use crate::keyed::KeyedMap;
use crate::jsx::{JsxAttr, JsxChild, JsxElement, JsxValue, NodeV, ValueV, attr_view, attrs_view, child_view,
    children_view, el_view, copy_attrs, lemma_children_view_push};
use crate::text::{owned, cat2};
use crate::tsx::callbacks::{element_id, find_id};
use crate::tsx::imports::{ImportDecl, ImportSpecifier, TsxModule, imports_view, import_view, specifier_view, SpecifierV,
    prepend_imports};

verus! {

/// The props of an animation, each an expression by its source text (such
/// as a JSON value), and whether the elements inside an animated element
/// take its animation.
#[derive(Debug, Clone)]
pub struct AnimationConfig {
    pub initial: Option<String>,
    pub animate: Option<String>,
    pub exit: Option<String>,
    pub variants: Option<String>,
    pub transition: Option<String>,
    pub inherit_children: bool,
}

impl Default for AnimationConfig {
    /// No props; children inherit.
    fn default() -> (r: Self)
        ensures
            r.initial is None,
            r.animate is None,
            r.exit is None,
            r.variants is None,
            r.transition is None,
            r.inherit_children,
    {
        AnimationConfig { initial: None, animate: None, exit: None, variants: None, transition: None, inherit_children: true }
    }
}

/// Kinds of animations.
#[derive(Debug, Clone, Copy, PartialEq, Eq)]
pub enum AnimationType {
    PathDrawing,
    FadeIn,
    Scale,
}

/// An attribute with an expression value, where there is one.
pub open spec fn opt_expr_attr(name: Seq<char>, v: Option<String>) -> Seq<(Seq<char>, Option<ValueV>)> {
    match v {
        Some(e) => seq![(name, Some(ValueV::Expr(e@)))],
        None => seq![],
    }
}

/// The props that an animation adds: `initial`, `animate`, `exit` and
/// `transition`, those that it has, in that order.
pub open spec fn motion_props(c: AnimationConfig) -> Seq<(Seq<char>, Option<ValueV>)> {
    opt_expr_attr("initial"@, c.initial) + opt_expr_attr("animate"@, c.animate) + opt_expr_attr("exit"@, c.exit)
        + opt_expr_attr("transition"@, c.transition)
}

/// The animation registered for an element, by its attributes.
pub open spec fn own_animation(m: Map<Seq<char>, AnimationConfig>, attrs: Seq<(Seq<char>, Option<ValueV>)>) -> Option<AnimationConfig> {
    match element_id(attrs) {
        Some(id) => if m.contains_key(id) { Some(m[id]) } else { None },
        None => None,
    }
}

/// The animation an element takes: its own, else the one passed down to it.
pub open spec fn animation_of(own: Option<AnimationConfig>, parent: Option<AnimationConfig>) -> Option<AnimationConfig> {
    match own {
        Some(c) => Some(c),
        None => parent,
    }
}

/// The animation an element passes down: its own where that one is
/// inherited, else the one passed down to it.
pub open spec fn passed_down(own: Option<AnimationConfig>, parent: Option<AnimationConfig>) -> Option<AnimationConfig> {
    match own {
        Some(c) => if c.inherit_children { Some(c) } else { parent },
        None => parent,
    }
}

/// A tree after animation, with `parent` passed down to its root: an
/// element that takes an animation is renamed `motion.<name>` and gets the
/// animation's props after its own attributes.
pub open spec fn animated(m: Map<Seq<char>, AnimationConfig>, parent: Option<AnimationConfig>, n: NodeV) -> NodeV
    decreases n,
{
    match n {
        NodeV::El { name, attrs, children } => {
            let own = own_animation(m, attrs);
            let kids = animated_all(m, passed_down(own, parent), children);
            match animation_of(own, parent) {
                Some(c) => NodeV::El { name: "motion."@ + name, attrs: attrs + motion_props(c), children: kids },
                None => NodeV::El { name, attrs, children: kids },
            }
        },
        NodeV::Text(t) => NodeV::Text(t),
    }
}

/// A list of trees after animation, each with `parent` passed down.
pub open spec fn animated_all(m: Map<Seq<char>, AnimationConfig>, parent: Option<AnimationConfig>, cs: Seq<NodeV>) -> Seq<NodeV>
    decreases cs,
{
    if cs.len() == 0 {
        seq![]
    } else {
        seq![animated(m, parent, cs[0])] + animated_all(m, parent, cs.drop_first())
    }
}

proof fn lemma_animated_all_push(m: Map<Seq<char>, AnimationConfig>, parent: Option<AnimationConfig>, cs: Seq<NodeV>, c: NodeV)
    ensures
        animated_all(m, parent, cs.push(c)) == animated_all(m, parent, cs).push(animated(m, parent, c)),
    decreases cs.len(),
{
    if cs.len() == 0 {
        assert(cs.push(c).drop_first() =~= Seq::<NodeV>::empty());
        assert(animated_all(m, parent, cs.push(c).drop_first()) =~= Seq::<NodeV>::empty());
        assert(animated_all(m, parent, cs) =~= Seq::<NodeV>::empty());
        assert(animated_all(m, parent, cs.push(c)) =~= seq![animated(m, parent, c)]);
    } else {
        lemma_animated_all_push(m, parent, cs.drop_first(), c);
        assert(cs.push(c).drop_first() =~= cs.drop_first().push(c));
        assert(animated_all(m, parent, cs.push(c)) =~= animated_all(m, parent, cs).push(animated(m, parent, c)));
    }
}

/// The import of `motion` from `framer-motion`.
pub open spec fn motion_import() -> (Seq<SpecifierV>, Seq<char>) {
    (seq![SpecifierV::Named("motion"@)], "framer-motion"@)
}

/// Turns elements with registered animations into `motion` elements.
#[derive(Debug)]
pub struct FramerMotionVisitor {
    /// The animation of each element id.
    pub animations: KeyedMap<AnimationConfig>,
}

impl Default for FramerMotionVisitor {
    /// A visitor with no animations.
    fn default() -> (r: Self)
        ensures
            r.animations@ == Map::<Seq<char>, AnimationConfig>::empty(),
    {
        FramerMotionVisitor { animations: KeyedMap::new() }
    }
}

fn push_expr_attr(attrs: &mut Vec<JsxAttr>, name: &str, v: &Option<String>)
    ensures
        attrs_view(final(attrs)@) == attrs_view(old(attrs)@) + opt_expr_attr(name@, *v),
{
    let ghost before = attrs@;
    match v {
        Some(e) => {
            let a = JsxAttr { name: owned(name), value: Some(JsxValue::Expr(owned(e.as_str()))) };
            attrs.push(a);
            assert(attrs_view(attrs@) =~= attrs_view(before).push(attr_view(a)));
        },
        None => {},
    }
    assert(attrs_view(attrs@) =~= attrs_view(before) + opt_expr_attr(name@, *v));
}

impl FramerMotionVisitor {
    /// A visitor with the given animations.
    pub fn new(animations: KeyedMap<AnimationConfig>) -> (r: FramerMotionVisitor)
        ensures
            r.animations@ == animations@,
    {
        FramerMotionVisitor { animations }
    }

    /// Animates the element with id `element_id`, in place of an earlier
    /// animation of that id.
    pub fn register_animation(&mut self, element_id: String, config: AnimationConfig)
        ensures
            final(self).animations@ == old(self).animations@.insert(element_id@, config),
    {
        self.animations.insert(element_id, config);
    }

    /// Imports `motion` before the module's own imports, and animates its
    /// elements.
    pub fn visit_module(&mut self, module: &mut TsxModule)
        ensures
            final(self).animations@ == old(self).animations@,
            imports_view(final(module).imports@) == seq![motion_import()] + imports_view(old(module).imports@),
            final(module).elements@.len() == old(module).elements@.len(),
            forall|i: int| 0 <= i < old(module).elements@.len() ==> el_view(#[trigger] final(module).elements@[i])
                == animated(old(self).animations@, None, el_view(old(module).elements@[i])),
    {
        let d = ImportDecl { specifiers: vec![ImportSpecifier::Named(owned("motion"))], src: owned("framer-motion") };
        assert(import_view(d).0 =~= seq![SpecifierV::Named("motion"@)]);
        let ghost dv = import_view(d);
        assert(dv == motion_import());
        let front = vec![d];
        assert(imports_view(front@) =~= seq![dv]);
        prepend_imports(&mut module.imports, front);
        let ghost elements0 = module.elements@;
        let ghost imports1 = module.imports@;
        let mut k: usize = 0;
        while k < module.elements.len()
            invariant
                k <= module.elements@.len(),
                module.imports@ == imports1,
                module.elements@.len() == elements0.len(),
                forall|j: int| k <= j < elements0.len() ==> module.elements@[j] == elements0[j],
                forall|j: int| 0 <= j < k ==> el_view(#[trigger] module.elements@[j]) == animated(self.animations@, None, el_view(elements0[j])),
            decreases module.elements@.len() - k,
        {
            let r = self.animate(&module.elements[k], None);
            module.elements.set(k, r);
            k += 1;
        }
    }

    /// Animates an element, and the elements inside it, with no animation
    /// passed down to it.
    pub fn visit_jsx_element(&mut self, node: &mut JsxElement)
        ensures
            final(self).animations@ == old(self).animations@,
            el_view(*final(node)) == animated(old(self).animations@, None, el_view(*old(node))),
    {
        let r = self.animate(&*node, None);
        *node = r;
    }

    /// `e` after animation, with `parent` passed down to it.
    fn animate<'a>(&'a self, e: &JsxElement, parent: Option<&'a AnimationConfig>) -> (r: JsxElement)
        ensures
            el_view(r) == animated(self.animations@, deref_opt(parent), el_view(*e)),
        decreases e,
    {
        let ghost m = self.animations@;
        let mut attrs = copy_attrs(&e.attrs);
        let id = find_id(&e.attrs);
        let own: Option<&'a AnimationConfig> = match &id {
            Some(id) => self.animations.get(id.as_str()),
            None => None,
        };
        assert(match own {
            Some(c) => own_animation(m, attrs_view(e.attrs@)) == Some(*c),
            None => own_animation(m, attrs_view(e.attrs@)) is None,
        });
        let config: Option<&AnimationConfig> = match own {
            Some(c) => Some(c),
            None => parent,
        };
        let name = match config {
            Some(c) => {
                push_expr_attr(&mut attrs, "initial", &c.initial);
                push_expr_attr(&mut attrs, "animate", &c.animate);
                push_expr_attr(&mut attrs, "exit", &c.exit);
                push_expr_attr(&mut attrs, "transition", &c.transition);
                assert(attrs_view(attrs@) =~= attrs_view(e.attrs@) + motion_props(*c));
                cat2("motion.", e.name.as_str())
            },
            None => owned(e.name.as_str()),
        };
        let down: Option<&'a AnimationConfig> = match own {
            Some(c) => if c.inherit_children { Some(c) } else { parent },
            None => parent,
        };
        let ghost dv = deref_opt(down);
        assert(dv == passed_down(own_animation(m, attrs_view(e.attrs@)), deref_opt(parent)));
        let mut done: Vec<JsxChild> = Vec::new();
        let mut i: usize = 0;
        proof {
            assert(children_view(done@) =~= Seq::<NodeV>::empty());
            assert(children_view(e.children@.take(0)) =~= Seq::<NodeV>::empty());
            assert(animated_all(m, dv, Seq::<NodeV>::empty()) =~= Seq::<NodeV>::empty());
        }
        while i < e.children.len()
            invariant
                i <= e.children.len(),
                m == self.animations@,
                dv == deref_opt(down),
                children_view(done@) == animated_all(m, dv, children_view(e.children@.take(i as int))),
            decreases e.children.len() - i,
        {
            let d = match &e.children[i] {
                JsxChild::Element(x) => {
                    assert(decreases_to!(e => e.children));
                    assert(decreases_to!(e.children => e.children@));
                    assert(decreases_to!(e.children@ => e.children@[i as int]));
                    assert(decreases_to!(e.children@[i as int] => e.children@[i as int]->Element_0));
                    JsxChild::Element(self.animate(x, down))
                },
                JsxChild::Text(t) => JsxChild::Text(owned(t.as_str())),
            };
            proof {
                let c = e.children@[i as int];
                assert(child_view(d) == animated(m, dv, child_view(c)));
                lemma_children_view_push(done@, d);
                assert(e.children@.take(i + 1) =~= e.children@.take(i as int).push(c));
                lemma_children_view_push(e.children@.take(i as int), c);
                lemma_animated_all_push(m, dv, children_view(e.children@.take(i as int)), child_view(c));
            }
            done.push(d);
            i += 1;
        }
        proof {
            assert(e.children@.take(i as int) =~= e.children@);
        }
        JsxElement { name, attrs, children: done }
    }
}

/// The animation a reference leads to, if any.
pub open spec fn deref_opt(o: Option<&AnimationConfig>) -> Option<AnimationConfig> {
    match o {
        Some(c) => Some(*c),
        None => None,
    }
}

/// With no animation registered and none passed down, animation leaves a
/// tree as it is.
pub proof fn law_no_animation_changes_nothing(n: NodeV)
    ensures
        animated(Map::empty(), None, n) == n,
    decreases n,
{
    match n {
        NodeV::El { name, attrs, children } => {
            lemma_no_animation_all(children);
        },
        NodeV::Text(_) => {},
    }
}

proof fn lemma_no_animation_all(cs: Seq<NodeV>)
    ensures
        animated_all(Map::empty(), None, cs) == cs,
    decreases cs,
{
    if cs.len() > 0 {
        law_no_animation_changes_nothing(cs[0]);
        lemma_no_animation_all(cs.drop_first());
        assert(seq![cs[0]] + cs.drop_first() =~= cs);
    }
}

} // verus!
