//! Tagging of JSX elements with random UUIDs in a `data-uuid` attribute.

use vstd::prelude::*;
use crate::ids::{new_uuid, hyphenated_of, is_lower_hex};
use crate::jsx::{JsxAttr, JsxChild, JsxElement, JsxValue, NodeV, ValueV, attr_view, attrs_view, child_view,
    children_view, el_view, copy_attrs, lemma_children_view_push};
use crate::text::{owned, str_eq};

verus! {

/// The name of the attribute that holds an element's UUID.
pub open spec fn uuid_attr_name() -> Seq<char> {
    seq!['d', 'a', 't', 'a', '-', 'u', 'u', 'i', 'd']
}

/// What to do with an element that already has a `data-uuid` attribute.
#[derive(Debug, Clone, Copy, PartialEq, Eq, Structural)]
pub enum InjectUuidPolicy {
    /// Replace it by a new one.
    Overwrite,
    /// Keep it, and add none.
    KeepExisting,
}

/// Whether an attribute list has a `data-uuid` attribute.
pub open spec fn has_uuid(attrs: Seq<(Seq<char>, Option<ValueV>)>) -> bool {
    exists|i: int| 0 <= i < attrs.len() && #[trigger] attrs[i].0 == uuid_attr_name()
}

/// An attribute list without its `data-uuid` attributes.
pub open spec fn without_uuid(attrs: Seq<(Seq<char>, Option<ValueV>)>) -> Seq<(Seq<char>, Option<ValueV>)>
    decreases attrs.len(),
{
    if attrs.len() == 0 {
        attrs
    } else if attrs.last().0 == uuid_attr_name() {
        without_uuid(attrs.drop_last())
    } else {
        without_uuid(attrs.drop_last()).push(attrs.last())
    }
}

/// Whether `s` is the hyphenated text of a UUID.
pub open spec fn is_uuid_text(s: Seq<char>) -> bool {
    exists|simple: Seq<char>|
        simple.len() == 32 && (forall|i: int| 0 <= i < 32 ==> is_lower_hex(#[trigger] simple[i]))
            && s == hyphenated_of(simple)
}

/// Whether `after` is `before` with a UUID added as the policy says: kept as
/// it is where the policy keeps an existing UUID and there is one; else the
/// attributes (without their `data-uuid` ones, for `Overwrite`), then a new
/// `data-uuid` attribute whose value is the text of a UUID.
pub open spec fn attrs_tagged(policy: InjectUuidPolicy, before: Seq<(Seq<char>, Option<ValueV>)>, after: Seq<(Seq<char>, Option<ValueV>)>) -> bool {
    if policy == InjectUuidPolicy::KeepExisting && has_uuid(before) {
        after == before
    } else {
        let kept = if policy == InjectUuidPolicy::Overwrite { without_uuid(before) } else { before };
        &&& after.len() == kept.len() + 1
        &&& after.drop_last() == kept
        &&& after.last().0 == uuid_attr_name()
        &&& match after.last().1 {
            Some(ValueV::Str(u)) => is_uuid_text(u),
            _ => false,
        }
    }
}

/// Whether the tree `after` is `before` with every element, nested ones
/// too, tagged as the policy says.
pub open spec fn tree_tagged(policy: InjectUuidPolicy, before: NodeV, after: NodeV) -> bool
    decreases before,
{
    match before {
        NodeV::El { name, attrs, children } => match after {
            NodeV::El { name: name2, attrs: attrs2, children: children2 } => {
                &&& name2 == name
                &&& attrs_tagged(policy, attrs, attrs2)
                &&& all_tagged(policy, children, children2)
            },
            NodeV::Text(_) => false,
        },
        NodeV::Text(t) => after == NodeV::Text(t),
    }
}

/// Whether each tree of `after` is the tree of `before` at its place,
/// tagged.
pub open spec fn all_tagged(policy: InjectUuidPolicy, before: Seq<NodeV>, after: Seq<NodeV>) -> bool
    decreases before,
{
    if before.len() == 0 {
        after.len() == 0
    } else {
        after.len() > 0 && tree_tagged(policy, before[0], after[0]) && all_tagged(policy, before.drop_first(), after.drop_first())
    }
}

proof fn lemma_all_tagged_push(policy: InjectUuidPolicy, b: Seq<NodeV>, a: Seq<NodeV>, x: NodeV, y: NodeV)
    requires
        all_tagged(policy, b, a),
        tree_tagged(policy, x, y),
    ensures
        all_tagged(policy, b.push(x), a.push(y)),
    decreases b.len(),
{
    if b.len() == 0 {
        assert(b.push(x).drop_first() =~= Seq::<NodeV>::empty());
        assert(a.push(y).drop_first() =~= Seq::<NodeV>::empty());
        assert(all_tagged(policy, b.push(x).drop_first(), a.push(y).drop_first()));
        assert(b.push(x)[0] == x && a.push(y)[0] == y);
    } else {
        lemma_all_tagged_push(policy, b.drop_first(), a.drop_first(), x, y);
        assert(b.push(x).drop_first() =~= b.drop_first().push(x));
        assert(a.push(y).drop_first() =~= a.drop_first().push(y));
        assert(b.push(x)[0] == b[0] && a.push(y)[0] == a[0]);
    }
}

/// Tags JSX elements with random UUIDs.
#[derive(Debug, Clone, Copy)]
pub struct InjectUuidVisitor {
    policy: InjectUuidPolicy,
}

impl InjectUuidVisitor {
    /// The policy in use.
    pub closed spec fn spec_policy(&self) -> InjectUuidPolicy {
        self.policy
    }

    /// A visitor with the given policy.
    pub fn new(policy: InjectUuidPolicy) -> (r: InjectUuidVisitor)
        ensures
            r.spec_policy() == policy,
    {
        InjectUuidVisitor { policy }
    }

    /// Tags an element and every element nested in it, children first.
    pub fn visit_jsx_element(&mut self, node: &mut JsxElement)
        ensures
            *final(self) == *old(self),
            tree_tagged(old(self).spec_policy(), el_view(*old(node)), el_view(*final(node))),
    {
        let r = self.tag(&*node);
        *node = r;
    }

    /// `e`, tagged.
    fn tag(&self, e: &JsxElement) -> (r: JsxElement)
        ensures
            tree_tagged(self.spec_policy(), el_view(*e), el_view(r)),
        decreases e,
    {
        let mut done: Vec<JsxChild> = Vec::new();
        let mut i: usize = 0;
        proof {
            assert(children_view(done@) =~= Seq::<NodeV>::empty());
            assert(children_view(e.children@.take(0)) =~= Seq::<NodeV>::empty());
        }
        while i < e.children.len()
            invariant
                i <= e.children.len(),
                all_tagged(self.spec_policy(), children_view(e.children@.take(i as int)), children_view(done@)),
            decreases e.children.len() - i,
        {
            let d = match &e.children[i] {
                JsxChild::Element(x) => {
                    assert(decreases_to!(e => e.children));
                    assert(decreases_to!(e.children => e.children@));
                    assert(decreases_to!(e.children@ => e.children@[i as int]));
                    assert(decreases_to!(e.children@[i as int] => e.children@[i as int]->Element_0));
                    JsxChild::Element(self.tag(x))
                },
                JsxChild::Text(t) => JsxChild::Text(owned(t.as_str())),
            };
            proof {
                let c = e.children@[i as int];
                assert(tree_tagged(self.spec_policy(), child_view(c), child_view(d)));
                lemma_children_view_push(done@, d);
                assert(e.children@.take(i + 1) =~= e.children@.take(i as int).push(c));
                lemma_children_view_push(e.children@.take(i as int), c);
                lemma_all_tagged_push(self.spec_policy(), children_view(e.children@.take(i as int)), children_view(done@), child_view(c), child_view(d));
            }
            done.push(d);
            i += 1;
        }
        proof {
            assert(e.children@.take(i as int) =~= e.children@);
        }
        let attrs = tag_attrs(self.policy, &e.attrs);
        JsxElement { name: owned(e.name.as_str()), attrs, children: done }
    }
}

/// Whether an attribute list has a `data-uuid` attribute.
fn find_uuid_attr(attrs: &Vec<JsxAttr>) -> (r: bool)
    ensures
        r == has_uuid(attrs_view(attrs@)),
{
    let mut i: usize = 0;
    while i < attrs.len()
        invariant
            i <= attrs.len(),
            forall|j: int| 0 <= j < i ==> attrs_view(attrs@)[j].0 != uuid_attr_name(),
        decreases attrs.len() - i,
    {
        proof {
            reveal_strlit("data-uuid");
            assert("data-uuid"@ =~= uuid_attr_name());
        }
        if str_eq(attrs[i].name.as_str(), "data-uuid") {
            assert(attrs_view(attrs@)[i as int].0 == uuid_attr_name());
            return true;
        }
        i += 1;
    }
    false
}

/// An attribute list without its `data-uuid` attributes.
fn drop_uuid_attrs(attrs: &Vec<JsxAttr>) -> (r: Vec<JsxAttr>)
    ensures
        attrs_view(r@) == without_uuid(attrs_view(attrs@)),
{
    let mut r: Vec<JsxAttr> = Vec::new();
    let mut i: usize = 0;
    proof {
        assert(attrs_view(attrs@).take(0) =~= Seq::<(Seq<char>, Option<ValueV>)>::empty());
        assert(attrs_view(r@) =~= Seq::<(Seq<char>, Option<ValueV>)>::empty());
    }
    while i < attrs.len()
        invariant
            i <= attrs.len(),
            attrs_view(r@) == without_uuid(attrs_view(attrs@).take(i as int)),
        decreases attrs.len() - i,
    {
        proof {
            reveal_strlit("data-uuid");
            assert("data-uuid"@ =~= uuid_attr_name());
        }
        let ghost prefix = attrs_view(attrs@).take(i + 1);
        assert(prefix.drop_last() =~= attrs_view(attrs@).take(i as int));
        assert(prefix.last() == attr_view(attrs@[i as int]));
        if !str_eq(attrs[i].name.as_str(), "data-uuid") {
            let a = crate::jsx::copy_attr(&attrs[i]);
            let ghost before = r@;
            r.push(a);
            assert(attrs_view(r@) =~= attrs_view(before).push(attr_view(a)));
        }
        i += 1;
    }
    assert(attrs_view(attrs@).take(attrs.len() as int) =~= attrs_view(attrs@));
    r
}

/// The attributes of an element, tagged as the policy says.
fn tag_attrs(policy: InjectUuidPolicy, attrs: &Vec<JsxAttr>) -> (r: Vec<JsxAttr>)
    ensures
        attrs_tagged(policy, attrs_view(attrs@), attrs_view(r@)),
{
    let has = find_uuid_attr(attrs);
    if has && policy == InjectUuidPolicy::KeepExisting {
        return copy_attrs(attrs);
    }
    let mut kept = if policy == InjectUuidPolicy::Overwrite {
        drop_uuid_attrs(attrs)
    } else {
        copy_attrs(attrs)
    };
    let u = new_uuid();
    let ghost simple = u.simple@;
    let ghost text = u.hyphenated@;
    let ghost base = attrs_view(kept@);
    let a = JsxAttr { name: owned("data-uuid"), value: Some(JsxValue::Str(u.hyphenated)) };
    kept.push(a);
    proof {
        reveal_strlit("data-uuid");
        assert("data-uuid"@ =~= uuid_attr_name());
        assert(attrs_view(kept@) =~= base.push(attr_view(a)));
        assert(attrs_view(kept@).drop_last() =~= base);
        assert(is_uuid_text(text)) by {
            assert(forall|i: int| 0 <= i < 32 ==> is_lower_hex(#[trigger] simple[i]));
            assert(text == hyphenated_of(simple));
        }
    }
    kept
}

/// Tagging with `KeepExisting` is stable: every element has a UUID after a
/// first pass, so a second pass keeps its attributes as they are.
pub proof fn law_keep_existing_is_stable(before: Seq<(Seq<char>, Option<ValueV>)>, once: Seq<(Seq<char>, Option<ValueV>)>, twice: Seq<(Seq<char>, Option<ValueV>)>)
    requires
        attrs_tagged(InjectUuidPolicy::KeepExisting, before, once),
        attrs_tagged(InjectUuidPolicy::KeepExisting, once, twice),
    ensures
        twice == once,
{
    if !has_uuid(before) {
        assert(once[once.len() - 1].0 == uuid_attr_name());
        assert(has_uuid(once));
    }
}

/// The number of `data-uuid` attributes of a list.
pub open spec fn uuid_count(attrs: Seq<(Seq<char>, Option<ValueV>)>) -> nat
    decreases attrs.len(),
{
    if attrs.len() == 0 {
        0
    } else {
        uuid_count(attrs.drop_last()) + if attrs.last().0 == uuid_attr_name() { 1nat } else { 0nat }
    }
}

proof fn lemma_without_uuid_count(attrs: Seq<(Seq<char>, Option<ValueV>)>)
    ensures
        uuid_count(without_uuid(attrs)) == 0,
    decreases attrs.len(),
{
    if attrs.len() > 0 {
        lemma_without_uuid_count(attrs.drop_last());
        let w = without_uuid(attrs.drop_last());
        if attrs.last().0 != uuid_attr_name() {
            assert(without_uuid(attrs).drop_last() =~= w);
        }
    }
}

/// After tagging with `Overwrite`, an element has exactly one `data-uuid`
/// attribute, the last one.
pub proof fn law_overwrite_leaves_one_uuid(before: Seq<(Seq<char>, Option<ValueV>)>, after: Seq<(Seq<char>, Option<ValueV>)>)
    requires
        attrs_tagged(InjectUuidPolicy::Overwrite, before, after),
    ensures
        uuid_count(after) == 1,
        after.last().0 == uuid_attr_name(),
{
    lemma_without_uuid_count(before);
    assert(after.drop_last() == without_uuid(before));
}

} // verus!
