//! Injection of event handlers into JSX elements, by element id.

use vstd::prelude::*;
use crate::keyed::KeyedMap;
use crate::jsx::{JsxAttr, JsxChild, JsxElement, JsxValue, NodeV, ValueV, attr_view, attrs_view, child_view,
    children_view, el_view, copy_attrs};
use crate::text::{owned, str_eq};
use crate::tsx::events::{Action, Callback, handler_name};

verus! {

/// The id of an element: the string value of its last `id` attribute that
/// has a string value.
pub open spec fn element_id(attrs: Seq<(Seq<char>, Option<ValueV>)>) -> Option<Seq<char>>
    decreases attrs.len(),
{
    if attrs.len() == 0 {
        None
    } else {
        let a = attrs.last();
        match a.1 {
            Some(ValueV::Str(v)) => if a.0 == seq!['i', 'd'] {
                Some(v)
            } else {
                element_id(attrs.drop_last())
            },
            _ => element_id(attrs.drop_last()),
        }
    }
}

/// The attribute that runs a callback: the event's handler prop, whose
/// value calls the action.
pub open spec fn handler_attr(cb: Callback) -> (Seq<char>, Option<ValueV>) {
    match cb.action {
        Action::Toast(o) => (handler_name(cb.trigger), Some(ValueV::Handler { func: seq!['t', 'o', 'a', 's', 't'], arg: o.message@ })),
    }
}

/// The attributes that run a list of callbacks, in order.
pub open spec fn handler_attrs(cbs: Seq<Callback>) -> Seq<(Seq<char>, Option<ValueV>)> {
    cbs.map_values(|cb: Callback| handler_attr(cb))
}

/// The attributes of an element after injection: the handlers of the
/// callbacks registered for its id follow its own attributes.
pub open spec fn injected_attrs(m: Map<Seq<char>, Seq<Callback>>, attrs: Seq<(Seq<char>, Option<ValueV>)>) -> Seq<(Seq<char>, Option<ValueV>)> {
    match element_id(attrs) {
        Some(id) => if m.contains_key(id) {
            attrs + handler_attrs(m[id])
        } else {
            attrs
        },
        None => attrs,
    }
}

/// A tree after injection: every element, nested ones too, gets the
/// handlers registered for its id.
pub open spec fn with_callbacks(m: Map<Seq<char>, Seq<Callback>>, n: NodeV) -> NodeV
    decreases n,
{
    match n {
        NodeV::El { name, attrs, children } => NodeV::El {
            name,
            attrs: injected_attrs(m, attrs),
            children: with_callbacks_all(m, children),
        },
        NodeV::Text(t) => NodeV::Text(t),
    }
}

/// A list of trees after injection.
pub open spec fn with_callbacks_all(m: Map<Seq<char>, Seq<Callback>>, cs: Seq<NodeV>) -> Seq<NodeV>
    decreases cs,
{
    if cs.len() == 0 {
        seq![]
    } else {
        seq![with_callbacks(m, cs[0])] + with_callbacks_all(m, cs.drop_first())
    }
}

proof fn lemma_with_callbacks_all_push(m: Map<Seq<char>, Seq<Callback>>, cs: Seq<NodeV>, c: NodeV)
    ensures
        with_callbacks_all(m, cs.push(c)) == with_callbacks_all(m, cs).push(with_callbacks(m, c)),
    decreases cs.len(),
{
    if cs.len() == 0 {
        assert(cs.push(c).drop_first() =~= Seq::<NodeV>::empty());
        assert(with_callbacks_all(m, cs.push(c).drop_first()) =~= Seq::<NodeV>::empty());
        assert(with_callbacks_all(m, cs) =~= Seq::<NodeV>::empty());
        assert(with_callbacks_all(m, cs.push(c)) =~= seq![with_callbacks(m, c)]);
    } else {
        lemma_with_callbacks_all_push(m, cs.drop_first(), c);
        assert(cs.push(c).drop_first() =~= cs.drop_first().push(c));
        assert(with_callbacks_all(m, cs.push(c)) =~= with_callbacks_all(m, cs).push(with_callbacks(m, c)));
    }
}

/// The callbacks of one element.
#[derive(Debug, Clone)]
pub struct ElementCallbacks {
    pub element_id: String,
    pub callbacks: Vec<Callback>,
}

/// The callbacks by element id, each list by its view.
pub open spec fn callbacks_view(m: Map<Seq<char>, Vec<Callback>>) -> Map<Seq<char>, Seq<Callback>> {
    m.map_values(|v: Vec<Callback>| v@)
}

/// Adds event handlers to the JSX elements whose ids have callbacks.
#[derive(Debug)]
pub struct InjectCallbacksVisitor {
    /// The callbacks of each element id, in the order of registration.
    pub callbacks: KeyedMap<Vec<Callback>>,
}

impl Default for InjectCallbacksVisitor {
    /// A visitor with no callbacks.
    fn default() -> (r: Self)
        ensures
            r.callbacks@ == Map::<Seq<char>, Vec<Callback>>::empty(),
    {
        InjectCallbacksVisitor { callbacks: KeyedMap::new() }
    }
}

impl InjectCallbacksVisitor {
    /// The callbacks by element id.
    pub open spec fn spec_callbacks(&self) -> Map<Seq<char>, Seq<Callback>> {
        callbacks_view(self.callbacks@)
    }

    /// A visitor with the given callbacks.
    pub fn new(callbacks: KeyedMap<Vec<Callback>>) -> (r: InjectCallbacksVisitor)
        ensures
            r.callbacks@ == callbacks@,
    {
        InjectCallbacksVisitor { callbacks }
    }

    /// Registers a callback for an element id, after those already there.
    pub fn register_callback(&mut self, id: String, callback: Callback)
        ensures
            final(self).spec_callbacks() == old(self).spec_callbacks().insert(
                id@,
                if old(self).spec_callbacks().contains_key(id@) {
                    old(self).spec_callbacks()[id@].push(callback)
                } else {
                    seq![callback]
                },
            ),
    {
        let ghost before = self.callbacks@;
        match self.callbacks.replace(id.as_str(), Vec::new()) {
            Some(mut list) => {
                let ghost old_list = list@;
                list.push(callback);
                let ghost mid = self.callbacks@;
                let _ = self.callbacks.replace(id.as_str(), list);
                assert(self.callbacks@ == before.insert(id@, list));
                assert(callbacks_view(self.callbacks@) =~= callbacks_view(before).insert(id@, old_list.push(callback)));
            },
            None => {
                let mut list: Vec<Callback> = Vec::new();
                list.push(callback);
                self.callbacks.insert(id, list);
                assert(callbacks_view(self.callbacks@) =~= callbacks_view(before).insert(id@, seq![callback]));
            },
        }
    }

    /// Adds to an element, and to every element nested in it, the handlers
    /// of the callbacks registered for its id, after its own attributes.
    pub fn visit_jsx_element(&mut self, node: &mut JsxElement)
        ensures
            *final(self) == *old(self),
            el_view(*final(node)) == with_callbacks(old(self).spec_callbacks(), el_view(*old(node))),
    {
        let r = self.inject(&*node);
        *node = r;
    }

    /// `e` after injection.
    fn inject(&self, e: &JsxElement) -> (r: JsxElement)
        ensures
            el_view(r) == with_callbacks(self.spec_callbacks(), el_view(*e)),
        decreases e,
    {
        let ghost m = self.spec_callbacks();
        let mut attrs = copy_attrs(&e.attrs);
        let id = find_id(&attrs);
        match id {
            Some(id) => {
                match self.callbacks.get(id.as_str()) {
                    Some(list) => {
                        push_handlers(&mut attrs, list);
                    },
                    None => {},
                }
            },
            None => {},
        }
        assert(attrs_view(attrs@) == injected_attrs(m, attrs_view(e.attrs@)));
        let mut done: Vec<JsxChild> = Vec::new();
        let mut i: usize = 0;
        proof {
            assert(children_view(done@) =~= with_callbacks_all(m, children_view(e.children@.take(0))));
        }
        while i < e.children.len()
            invariant
                i <= e.children.len(),
                m == self.spec_callbacks(),
                children_view(done@) == with_callbacks_all(m, children_view(e.children@.take(i as int))),
            decreases e.children.len() - i,
        {
            let d = match &e.children[i] {
                JsxChild::Element(x) => {
                    assert(decreases_to!(e => e.children));
                    assert(decreases_to!(e.children => e.children@));
                    assert(decreases_to!(e.children@ => e.children@[i as int]));
                    assert(decreases_to!(e.children@[i as int] => e.children@[i as int]->Element_0));
                    JsxChild::Element(self.inject(x))
                },
                JsxChild::Text(t) => JsxChild::Text(owned(t.as_str())),
            };
            proof {
                let c = e.children@[i as int];
                assert(child_view(d) == with_callbacks(m, child_view(c)));
                lemma_children_view_push_local(done@, d);
                assert(e.children@.take(i + 1) =~= e.children@.take(i as int).push(c));
                lemma_children_view_push_local(e.children@.take(i as int), c);
                lemma_with_callbacks_all_push(m, children_view(e.children@.take(i as int)), child_view(c));
            }
            done.push(d);
            i += 1;
        }
        proof {
            assert(e.children@.take(i as int) =~= e.children@);
        }
        JsxElement { name: owned(e.name.as_str()), attrs, children: done }
    }
}

proof fn lemma_children_view_push_local(cs: Seq<JsxChild>, c: JsxChild)
    ensures
        children_view(cs.push(c)) == children_view(cs).push(child_view(c)),
{
    crate::jsx::lemma_children_view_push(cs, c);
}

/// The id of an element, by its attributes; see `element_id`.
pub fn find_id(attrs: &Vec<JsxAttr>) -> (r: Option<String>)
    ensures
        match element_id(attrs_view(attrs@)) {
            Some(id) => r is Some && r.unwrap()@ == id,
            None => r is None,
        },
{
    let mut found: Option<String> = None;
    let mut i: usize = 0;
    assert(attrs_view(attrs@).take(0) =~= Seq::<(Seq<char>, Option<ValueV>)>::empty());
    while i < attrs.len()
        invariant
            i <= attrs.len(),
            match element_id(attrs_view(attrs@).take(i as int)) {
                Some(id) => found is Some && found.unwrap()@ == id,
                None => found is None,
            },
        decreases attrs.len() - i,
    {
        proof {
            reveal_strlit("id");
            assert("id"@ =~= seq!['i', 'd']);
        }
        let ghost prefix = attrs_view(attrs@).take(i + 1);
        assert(prefix.drop_last() =~= attrs_view(attrs@).take(i as int));
        assert(prefix.last() == attr_view(attrs@[i as int]));
        let is_id = str_eq(attrs[i].name.as_str(), "id");
        match &attrs[i].value {
            Some(JsxValue::Str(v)) => {
                if is_id {
                    found = Some(owned(v.as_str()));
                    assert(element_id(prefix) == Some(v@));
                } else {
                    assert(element_id(prefix) == element_id(prefix.drop_last()));
                }
            },
            _ => {
                assert(element_id(prefix) == element_id(prefix.drop_last()));
            },
        }
        i += 1;
    }
    assert(attrs_view(attrs@).take(attrs.len() as int) =~= attrs_view(attrs@));
    found
}

/// The attribute that runs a callback.
fn handler_attr_of(cb: &Callback) -> (r: JsxAttr)
    ensures
        attr_view(r) == handler_attr(*cb),
{
    proof {
        reveal_strlit("toast");
        assert("toast"@ =~= seq!['t', 'o', 'a', 's', 't']);
    }
    match &cb.action {
        Action::Toast(o) => JsxAttr {
            name: cb.trigger.to_handler_name(),
            value: Some(JsxValue::Handler { func: owned("toast"), arg: owned(o.message.as_str()) }),
        },
    }
}

/// Appends the handlers of `cbs` to `attrs`, in order.
fn push_handlers(attrs: &mut Vec<JsxAttr>, cbs: &Vec<Callback>)
    ensures
        attrs_view(final(attrs)@) == attrs_view(old(attrs)@) + handler_attrs(cbs@),
{
    let ghost base = attrs_view(attrs@);
    let mut j: usize = 0;
    assert(handler_attrs(cbs@.take(0)) =~= Seq::<(Seq<char>, Option<ValueV>)>::empty());
    assert(attrs_view(attrs@) =~= base + handler_attrs(cbs@.take(0)));
    while j < cbs.len()
        invariant
            j <= cbs.len(),
            attrs_view(attrs@) == base + handler_attrs(cbs@.take(j as int)),
        decreases cbs.len() - j,
    {
        let a = handler_attr_of(&cbs[j]);
        let ghost before = attrs@;
        attrs.push(a);
        assert(attrs_view(attrs@) =~= attrs_view(before).push(attr_view(a)));
        assert(handler_attrs(cbs@.take(j + 1)) =~= handler_attrs(cbs@.take(j as int)).push(handler_attr(cbs@[j as int])));
        j += 1;
    }
    assert(cbs@.take(cbs.len() as int) =~= cbs@);
}

/// After a callback is registered for an element's id, the element's
/// handlers are those it had, then the handler of that callback.
pub proof fn law_registered_callback_runs_last(m: Map<Seq<char>, Seq<Callback>>, id: Seq<char>, cb: Callback, attrs: Seq<(Seq<char>, Option<ValueV>)>)
    requires
        element_id(attrs) == Some(id),
    ensures
        ({
            let m2 = m.insert(id, if m.contains_key(id) { m[id].push(cb) } else { seq![cb] });
            &&& injected_attrs(m2, attrs).last() == handler_attr(cb)
            &&& injected_attrs(m2, attrs).drop_last() == injected_attrs(m, attrs)
        }),
{
    let m2 = m.insert(id, if m.contains_key(id) { m[id].push(cb) } else { seq![cb] });
    if m.contains_key(id) {
        assert(handler_attrs(m[id].push(cb)) =~= handler_attrs(m[id]).push(handler_attr(cb)));
        assert((attrs + handler_attrs(m[id]).push(handler_attr(cb))).drop_last() =~= attrs + handler_attrs(m[id]));
    } else {
        assert(handler_attrs(seq![cb]) =~= seq![handler_attr(cb)]);
        assert((attrs + seq![handler_attr(cb)]).drop_last() =~= attrs);
    }
}

} // verus!
