//! A model of JSX trees: elements with attributes and children, and text.
//!
//! Components are built as such trees; printing them as TSX is left to the
//! code generator that the caller uses.

use vstd::prelude::*;
use crate::text::owned;

verus! {

/// The value of a JSX attribute.
#[derive(Debug, Clone)]
pub enum JsxValue {
    /// A string literal.
    Str(String),
    /// A number literal.
    Number(u64),
    /// A boolean literal.
    Bool(bool),
    /// An identifier expression, such as a variable.
    Ident(String),
    /// The object `{ __html: "..." }` with the given HTML.
    InnerHtml(String),
    /// The event handler `(e) => { func("arg"); }`.
    Handler { func: String, arg: String },
    /// An expression given by its source text, such as a JSON value.
    Expr(String),
    /// The event handler `(e) => { func({ key: "value", other: null }); }`:
    /// a call with an object of string or null properties, in order.
    Call { func: String, props: Vec<(String, Option<String>)> },
}

/// An attribute: its name and, unless it is a bare flag, its value.
#[derive(Debug, Clone)]
pub struct JsxAttr {
    pub name: String,
    pub value: Option<JsxValue>,
}

/// A child of an element.
#[derive(Debug)]
pub enum JsxChild {
    Element(JsxElement),
    Text(String),
}

/// An element with its attributes and children.
#[derive(Debug)]
pub struct JsxElement {
    pub name: String,
    pub attrs: Vec<JsxAttr>,
    pub children: Vec<JsxChild>,
}

/// The view of an attribute value.
pub enum ValueV {
    Str(Seq<char>),
    Number(nat),
    Bool(bool),
    Ident(Seq<char>),
    InnerHtml(Seq<char>),
    Handler { func: Seq<char>, arg: Seq<char> },
    Expr(Seq<char>),
    Call { func: Seq<char>, props: Seq<(Seq<char>, Option<Seq<char>>)> },
}

/// The view of the properties of a call.
pub open spec fn props_view(props: Seq<(String, Option<String>)>) -> Seq<(Seq<char>, Option<Seq<char>>)> {
    props.map_values(|p: (String, Option<String>)| (p.0@, match p.1 {
        Some(v) => Some(v@),
        None => None,
    }))
}

/// The view of a tree: names, attributes and texts by their characters.
pub enum NodeV {
    El { name: Seq<char>, attrs: Seq<(Seq<char>, Option<ValueV>)>, children: Seq<NodeV> },
    Text(Seq<char>),
}

/// The view of an attribute value.
pub open spec fn value_view(v: JsxValue) -> ValueV {
    match v {
        JsxValue::Str(s) => ValueV::Str(s@),
        JsxValue::Number(n) => ValueV::Number(n as nat),
        JsxValue::Bool(b) => ValueV::Bool(b),
        JsxValue::Ident(s) => ValueV::Ident(s@),
        JsxValue::InnerHtml(s) => ValueV::InnerHtml(s@),
        JsxValue::Handler { func, arg } => ValueV::Handler { func: func@, arg: arg@ },
        JsxValue::Expr(s) => ValueV::Expr(s@),
        JsxValue::Call { func, props } => ValueV::Call { func: func@, props: props_view(props@) },
    }
}

/// The view of an attribute.
pub open spec fn attr_view(a: JsxAttr) -> (Seq<char>, Option<ValueV>) {
    (a.name@, match a.value {
        Some(v) => Some(value_view(v)),
        None => None,
    })
}

/// The views of attributes.
pub open spec fn attrs_view(attrs: Seq<JsxAttr>) -> Seq<(Seq<char>, Option<ValueV>)> {
    attrs.map_values(|a: JsxAttr| attr_view(a))
}

/// The view of an element.
pub open spec fn el_view(e: JsxElement) -> NodeV
    decreases e,
{
    NodeV::El { name: e.name@, attrs: attrs_view(e.attrs@), children: children_view(e.children@) }
}

/// The view of a child.
pub open spec fn child_view(c: JsxChild) -> NodeV
    decreases c,
{
    match c {
        JsxChild::Element(e) => el_view(e),
        JsxChild::Text(t) => NodeV::Text(t@),
    }
}

/// The views of children.
pub open spec fn children_view(cs: Seq<JsxChild>) -> Seq<NodeV>
    decreases cs,
{
    if cs.len() == 0 {
        seq![]
    } else {
        seq![child_view(cs[0])] + children_view(cs.drop_first())
    }
}

/// An element view with no attributes.
pub open spec fn el(name: Seq<char>, attrs: Seq<(Seq<char>, Option<ValueV>)>, children: Seq<NodeV>) -> NodeV {
    NodeV::El { name, attrs, children }
}

/// An attribute view with a string value.
pub open spec fn str_attr(name: Seq<char>, value: Seq<char>) -> (Seq<char>, Option<ValueV>) {
    (name, Some(ValueV::Str(value)))
}

/// A bare flag attribute view.
pub open spec fn flag(name: Seq<char>) -> (Seq<char>, Option<ValueV>) {
    (name, None)
}

/// The views of a sequence of two children.
pub proof fn lemma_children_view_len(cs: Seq<JsxChild>)
    ensures
        children_view(cs).len() == cs.len(),
        forall|i: int| 0 <= i < cs.len() ==> children_view(cs)[i] == child_view(cs[i]),
    decreases cs.len(),
{
    if cs.len() > 0 {
        lemma_children_view_len(cs.drop_first());
    }
}

/// An attribute with a string value.
pub fn str_attr_of(name: &str, value: &str) -> (r: JsxAttr)
    ensures
        attr_view(r) == str_attr(name@, value@),
{
    JsxAttr { name: owned(name), value: Some(JsxValue::Str(owned(value))) }
}

/// A bare flag attribute.
pub fn flag_of(name: &str) -> (r: JsxAttr)
    ensures
        attr_view(r) == flag(name@),
{
    JsxAttr { name: owned(name), value: None }
}

/// An element.
pub fn element(name: &str, attrs: Vec<JsxAttr>, children: Vec<JsxChild>) -> (r: JsxElement)
    ensures
        r.name@ == name@,
        r.attrs@ == attrs@,
        r.children@ == children@,
        el_view(r) == el(name@, attrs_view(attrs@), children_view(children@)),
{
    JsxElement { name: owned(name), attrs, children }
}

/// The views of children after one more.
pub proof fn lemma_children_view_push(cs: Seq<JsxChild>, c: JsxChild)
    ensures
        children_view(cs.push(c)) == children_view(cs).push(child_view(c)),
    decreases cs.len(),
{
    if cs.len() == 0 {
        assert(cs.push(c).drop_first() =~= Seq::<JsxChild>::empty());
        assert(children_view(Seq::<JsxChild>::empty()) == Seq::<NodeV>::empty());
        assert(children_view(cs.push(c)) =~= seq![child_view(c)]);
        assert(children_view(cs) =~= Seq::<NodeV>::empty());
    } else {
        lemma_children_view_push(cs.drop_first(), c);
        assert(cs.push(c).drop_first() =~= cs.drop_first().push(c));
        assert(children_view(cs.push(c)) =~= children_view(cs).push(child_view(c)));
    }
}

/// Adds a child to a list of children.
pub fn push_child(v: &mut Vec<JsxChild>, c: JsxChild)
    ensures
        children_view(final(v)@) == children_view(old(v)@).push(child_view(c)),
{
    proof {
        lemma_children_view_push(v@, c);
    }
    v.push(c);
}

/// Adds an attribute to a list of attributes.
pub fn push_attr(v: &mut Vec<JsxAttr>, a: JsxAttr)
    ensures
        attrs_view(final(v)@) == attrs_view(old(v)@).push(attr_view(a)),
{
    v.push(a);
    assert(attrs_view(v@) =~= attrs_view(old(v)@).push(attr_view(a)));
}

/// No children.
pub fn no_children() -> (r: Vec<JsxChild>)
    ensures
        children_view(r@) == Seq::<NodeV>::empty(),
{
    let r: Vec<JsxChild> = Vec::new();
    assert(children_view(r@) =~= Seq::<NodeV>::empty());
    r
}

/// No attributes.
pub fn no_attrs() -> (r: Vec<JsxAttr>)
    ensures
        attrs_view(r@) == Seq::<(Seq<char>, Option<ValueV>)>::empty(),
{
    let r: Vec<JsxAttr> = Vec::new();
    assert(attrs_view(r@) =~= Seq::<(Seq<char>, Option<ValueV>)>::empty());
    r
}

/// A text child.
pub fn text_child(t: &str) -> (r: JsxChild)
    ensures
        child_view(r) == NodeV::Text(t@),
{
    JsxChild::Text(owned(t))
}

/// An element with one text child.
pub fn text_element(name: &str, attrs: Vec<JsxAttr>, t: &str) -> (r: JsxElement)
    ensures
        el_view(r) == el(name@, attrs_view(attrs@), seq![NodeV::Text(t@)]),
{
    let mut children = no_children();
    push_child(&mut children, text_child(t));
    element(name, attrs, children)
}

/// An attribute with a number value.
pub fn number_attr_of(name: &str, n: u64) -> (r: JsxAttr)
    ensures
        attr_view(r) == (name@, Some(ValueV::Number(n as nat))),
{
    JsxAttr { name: owned(name), value: Some(JsxValue::Number(n)) }
}

/// One attribute list of a single attribute.
pub fn one_attr(a: JsxAttr) -> (r: Vec<JsxAttr>)
    ensures
        attrs_view(r@) == seq![attr_view(a)],
{
    let mut v = no_attrs();
    push_attr(&mut v, a);
    v
}

/// The view of an optional string attribute: one attribute where there is a
/// value, none otherwise.
pub open spec fn opt_str_attr(name: Seq<char>, v: Option<String>) -> Seq<(Seq<char>, Option<ValueV>)> {
    match v {
        Some(s) => seq![str_attr(name, s@)],
        None => seq![],
    }
}

/// The view of an optional number attribute.
pub open spec fn opt_number_attr(name: Seq<char>, v: Option<u32>) -> Seq<(Seq<char>, Option<ValueV>)> {
    match v {
        Some(n) => seq![(name, Some(ValueV::Number(n as nat)))],
        None => seq![],
    }
}

/// A copy of an attribute value.
pub fn copy_value(v: &JsxValue) -> (r: JsxValue)
    ensures
        value_view(r) == value_view(*v),
{
    match v {
        JsxValue::Str(s) => JsxValue::Str(owned(s.as_str())),
        JsxValue::Number(n) => JsxValue::Number(*n),
        JsxValue::Bool(b) => JsxValue::Bool(*b),
        JsxValue::Ident(s) => JsxValue::Ident(owned(s.as_str())),
        JsxValue::InnerHtml(s) => JsxValue::InnerHtml(owned(s.as_str())),
        JsxValue::Handler { func, arg } => JsxValue::Handler { func: owned(func.as_str()), arg: owned(arg.as_str()) },
        JsxValue::Expr(s) => JsxValue::Expr(owned(s.as_str())),
        JsxValue::Call { func, props } => JsxValue::Call { func: owned(func.as_str()), props: copy_props(props) },
    }
}

/// A copy of the properties of a call.
pub fn copy_props(props: &Vec<(String, Option<String>)>) -> (r: Vec<(String, Option<String>)>)
    ensures
        props_view(r@) == props_view(props@),
{
    let mut r: Vec<(String, Option<String>)> = Vec::new();
    let mut i: usize = 0;
    while i < props.len()
        invariant
            i <= props.len(),
            props_view(r@) == props_view(props@.take(i as int)),
        decreases props.len() - i,
    {
        let v = match &props[i].1 {
            Some(x) => Some(owned(x.as_str())),
            None => None,
        };
        let p = (owned(props[i].0.as_str()), v);
        let ghost before = r@;
        r.push(p);
        assert(props_view(r@) =~= props_view(before).push((p.0@, match p.1 {
            Some(x) => Some(x@),
            None => None,
        })));
        assert(props@.take(i + 1) =~= props@.take(i as int).push(props@[i as int]));
        assert(props_view(props@.take(i + 1)) =~= props_view(props@.take(i as int)).push((props@[i as int].0@, match props@[i as int].1 {
            Some(x) => Some(x@),
            None => None,
        })));
        i += 1;
    }
    assert(props@.take(props.len() as int) =~= props@);
    r
}

/// A copy of an attribute.
pub fn copy_attr(a: &JsxAttr) -> (r: JsxAttr)
    ensures
        attr_view(r) == attr_view(*a),
{
    let value = match &a.value {
        Some(v) => Some(copy_value(v)),
        None => None,
    };
    JsxAttr { name: owned(a.name.as_str()), value }
}

/// A copy of a list of attributes.
pub fn copy_attrs(attrs: &Vec<JsxAttr>) -> (r: Vec<JsxAttr>)
    ensures
        attrs_view(r@) == attrs_view(attrs@),
{
    let mut r: Vec<JsxAttr> = Vec::new();
    let mut i: usize = 0;
    while i < attrs.len()
        invariant
            i <= attrs.len(),
            attrs_view(r@) == attrs_view(attrs@.take(i as int)),
        decreases attrs.len() - i,
    {
        let a = copy_attr(&attrs[i]);
        let ghost before = r@;
        r.push(a);
        assert(attrs_view(r@) =~= attrs_view(before).push(attr_view(a)));
        assert(attrs@.take(i + 1) =~= attrs@.take(i as int).push(attrs@[i as int]));
        assert(attrs_view(attrs@.take(i + 1)) =~= attrs_view(attrs@.take(i as int)).push(attr_view(attrs@[i as int])));
        i += 1;
    }
    assert(attrs@.take(attrs.len() as int) =~= attrs@);
    r
}

/// A copy of an element and everything in it.
pub fn copy_element(e: &JsxElement) -> (r: JsxElement)
    ensures
        el_view(r) == el_view(*e),
    decreases e,
{
    let attrs = copy_attrs(&e.attrs);
    let mut children: Vec<JsxChild> = Vec::new();
    let mut i: usize = 0;
    proof {
        assert(children_view(children@) =~= Seq::<NodeV>::empty());
        assert(children_view(e.children@.take(0)) =~= Seq::<NodeV>::empty());
    }
    while i < e.children.len()
        invariant
            i <= e.children.len(),
            children_view(children@) == children_view(e.children@.take(i as int)),
        decreases e.children.len() - i,
    {
        let c = match &e.children[i] {
            JsxChild::Element(x) => {
                assert(decreases_to!(e => e.children));
                assert(decreases_to!(e.children => e.children@));
                assert(decreases_to!(e.children@ => e.children@[i as int]));
                assert(decreases_to!(e.children@[i as int] => e.children@[i as int]->Element_0));
                JsxChild::Element(copy_element(x))
            },
            JsxChild::Text(t) => JsxChild::Text(owned(t.as_str())),
        };
        proof {
            lemma_children_view_push(children@, c);
            assert(e.children@.take(i + 1) =~= e.children@.take(i as int).push(e.children@[i as int]));
            lemma_children_view_push(e.children@.take(i as int), e.children@[i as int]);
        }
        children.push(c);
        i += 1;
    }
    proof {
        assert(e.children@.take(i as int) =~= e.children@);
    }
    JsxElement { name: owned(e.name.as_str()), attrs, children }
}

} // verus!
