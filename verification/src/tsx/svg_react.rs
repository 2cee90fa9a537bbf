//! ElementEvent handlers for React components made from Figma exports: UI actions
//! run on events of elements, by element id, and the imports of the action
//! functions.

use vstd::prelude::*;
use crate::keyed::KeyedMap;
use crate::jsx::{JsxAttr, JsxChild, JsxElement, JsxValue, NodeV, ValueV, attr_view, attrs_view, child_view,
    children_view, el_view, copy_attrs, lemma_children_view_push, props_view};
use crate::text::{owned, views};
use crate::tsx::callbacks::{element_id, find_id};
use crate::tsx::events::{ElementEvent, handler_name};
use crate::tsx::imports::{SpecifierV, TsxModule, imports_view, prepend_imports};
use crate::tsx::shadcn_ui::{import_sets, add_import, add_imports, add_action_import, action_import_decls, action_decls_ok};

verus! {

/// Opens a modal.
#[derive(Debug, Clone, Default)]
pub struct OpenModalOptions {
    pub id: String,
}

/// Closes a modal.
#[derive(Debug, Clone, Default)]
pub struct CloseModalOptions {
    pub id: String,
}

/// Opens or closes a modal.
#[derive(Debug, Clone, Default)]
pub struct ToggleModalOptions {
    pub id: String,
}

/// Opens a sheet, on a side (`top`, `right`, `bottom` or `left`).
#[derive(Debug, Clone, Default)]
pub struct OpenSheetOptions {
    pub id: String,
    pub side: Option<String>,
}

/// Closes a sheet.
#[derive(Debug, Clone, Default)]
pub struct CloseSheetOptions {
    pub id: String,
}

/// Shows a toast.
#[derive(Debug, Clone, Default)]
pub struct ShowToastOptions {
    pub title: String,
    pub description: Option<String>,
    pub variant: Option<String>,
}

/// Selects a tab of a tab group.
#[allow(non_snake_case)]
#[derive(Debug, Clone, Default)]
pub struct SelectTabOptions {
    pub tabGroupId: String,
    pub tabId: String,
}

/// Opens or closes an accordion.
#[derive(Debug, Clone, Default)]
pub struct ToggleAccordionOptions {
    pub id: String,
}

/// Opens a dropdown menu.
#[derive(Debug, Clone, Default)]
pub struct OpenDropdownOptions {
    pub id: String,
}

/// Closes a dropdown menu.
#[derive(Debug, Clone, Default)]
pub struct CloseDropdownOptions {
    pub id: String,
}

/// A UI action, with its options.
#[derive(Debug, Clone)]
pub enum Action {
    OpenModal(OpenModalOptions),
    CloseModal(CloseModalOptions),
    ToggleModal(ToggleModalOptions),
    OpenSheet(OpenSheetOptions),
    CloseSheet(CloseSheetOptions),
    ShowToast(ShowToastOptions),
    SelectTab(SelectTabOptions),
    ToggleAccordion(ToggleAccordionOptions),
    OpenDropdown(OpenDropdownOptions),
    CloseDropdown(CloseDropdownOptions),
}

/// An action run on an event.
#[derive(Debug, Clone)]
pub struct Callback {
    pub trigger: ElementEvent,
    pub action: Action,
}

impl Callback {
    /// The callback that runs `action` on `trigger`.
    pub fn new(trigger: ElementEvent, action: Action) -> (r: Callback)
        ensures
            r.trigger == trigger,
            r.action == action,
    {
        Callback { trigger, action }
    }
}

/// The callbacks of one element.
#[derive(Debug, Clone)]
pub struct ElementCallbacks {
    pub element_id: String,
    pub callbacks: Vec<Callback>,
}

/// The view of an optional string.
pub open spec fn opt_view(o: Option<String>) -> Option<Seq<char>> {
    match o {
        Some(s) => Some(s@),
        None => None,
    }
}

/// The function an action calls, by name.
pub open spec fn action_name(a: Action) -> Seq<char> {
    match a {
        Action::OpenModal(_) => "openModal"@,
        Action::CloseModal(_) => "closeModal"@,
        Action::ToggleModal(_) => "toggleModal"@,
        Action::OpenSheet(_) => "openSheet"@,
        Action::CloseSheet(_) => "closeSheet"@,
        Action::ShowToast(_) => "showToast"@,
        Action::SelectTab(_) => "selectTab"@,
        Action::ToggleAccordion(_) => "toggleAccordion"@,
        Action::OpenDropdown(_) => "openDropdown"@,
        Action::CloseDropdown(_) => "closeDropdown"@,
    }
}

/// The properties of the object an action's function is called with: the
/// fields of its options, by name in sorted order, an absent one as null.
pub open spec fn action_props(a: Action) -> Seq<(Seq<char>, Option<Seq<char>>)> {
    match a {
        Action::OpenModal(o) => seq![("id"@, Some(o.id@))],
        Action::CloseModal(o) => seq![("id"@, Some(o.id@))],
        Action::ToggleModal(o) => seq![("id"@, Some(o.id@))],
        Action::OpenSheet(o) => seq![("id"@, Some(o.id@)), ("side"@, opt_view(o.side))],
        Action::CloseSheet(o) => seq![("id"@, Some(o.id@))],
        Action::ShowToast(o) => seq![("description"@, opt_view(o.description)), ("title"@, Some(o.title@)), ("variant"@, opt_view(o.variant))],
        Action::SelectTab(o) => seq![("tabGroupId"@, Some(o.tabGroupId@)), ("tabId"@, Some(o.tabId@))],
        Action::ToggleAccordion(o) => seq![("id"@, Some(o.id@))],
        Action::OpenDropdown(o) => seq![("id"@, Some(o.id@))],
        Action::CloseDropdown(o) => seq![("id"@, Some(o.id@))],
    }
}

/// The attribute that runs a callback: the event's handler prop, calling the
/// action's function with its properties.
pub open spec fn handler_attr(cb: Callback) -> (Seq<char>, Option<ValueV>) {
    (handler_name(cb.trigger), Some(ValueV::Call { func: action_name(cb.action), props: action_props(cb.action) }))
}

/// The attributes that run a list of callbacks, in order.
pub open spec fn handler_attrs(cbs: Seq<Callback>) -> Seq<(Seq<char>, Option<ValueV>)> {
    cbs.map_values(|cb: Callback| handler_attr(cb))
}

/// The attributes of an element after the handlers of the callbacks of its
/// id are added after its own.
pub open spec fn handled_attrs(m: Map<Seq<char>, Seq<Callback>>, attrs: Seq<(Seq<char>, Option<ValueV>)>) -> Seq<(Seq<char>, Option<ValueV>)> {
    match element_id(attrs) {
        Some(id) => if m.contains_key(id) {
            attrs + handler_attrs(m[id])
        } else {
            attrs
        },
        None => attrs,
    }
}

/// A tree after every element, nested ones too, gets the handlers of its id.
pub open spec fn with_handlers(m: Map<Seq<char>, Seq<Callback>>, n: NodeV) -> NodeV
    decreases n,
{
    match n {
        NodeV::El { name, attrs, children } => NodeV::El {
            name,
            attrs: handled_attrs(m, attrs),
            children: with_handlers_all(m, children),
        },
        NodeV::Text(t) => NodeV::Text(t),
    }
}

/// A list of trees after handlers are added.
pub open spec fn with_handlers_all(m: Map<Seq<char>, Seq<Callback>>, cs: Seq<NodeV>) -> Seq<NodeV>
    decreases cs,
{
    if cs.len() == 0 {
        seq![]
    } else {
        seq![with_handlers(m, cs[0])] + with_handlers_all(m, cs.drop_first())
    }
}

proof fn lemma_with_handlers_all_push(m: Map<Seq<char>, Seq<Callback>>, cs: Seq<NodeV>, c: NodeV)
    ensures
        with_handlers_all(m, cs.push(c)) == with_handlers_all(m, cs).push(with_handlers(m, c)),
    decreases cs.len(),
{
    if cs.len() == 0 {
        assert(cs.push(c).drop_first() =~= Seq::<NodeV>::empty());
        assert(with_handlers_all(m, cs.push(c).drop_first()) =~= Seq::<NodeV>::empty());
        assert(with_handlers_all(m, cs) =~= Seq::<NodeV>::empty());
        assert(with_handlers_all(m, cs.push(c)) =~= seq![with_handlers(m, c)]);
    } else {
        lemma_with_handlers_all_push(m, cs.drop_first(), c);
        assert(cs.push(c).drop_first() =~= cs.drop_first().push(c));
        assert(with_handlers_all(m, cs.push(c)) =~= with_handlers_all(m, cs).push(with_handlers(m, c)));
    }
}

/// The names of the functions of the callbacks, list by list.
pub open spec fn callback_names(entries: Seq<(String, Vec<Callback>)>) -> Seq<Seq<char>>
    decreases entries.len(),
{
    if entries.len() == 0 {
        seq![]
    } else {
        callback_names(entries.drop_last()) + entries.last().1@.map_values(|cb: Callback| action_name(cb.action))
    }
}

/// The sources of the action functions, and what each provides, that a
/// module imports by default.
pub open spec fn default_action_pairs() -> Seq<(Seq<char>, Seq<char>)> {
    let modal = "@/components/ui/modal"@;
    let sheet = "@/components/ui/sheet"@;
    let dropdown = "@/components/ui/dropdown-menu"@;
    seq![
        ("openModal"@, modal), ("closeModal"@, modal), ("toggleModal"@, modal),
        ("openSheet"@, sheet), ("closeSheet"@, sheet),
        ("showToast"@, "@/components/ui/toast"@),
        ("selectTab"@, "@/components/ui/tabs"@),
        ("toggleAccordion"@, "@/components/ui/accordion"@),
        ("openDropdown"@, dropdown), ("closeDropdown"@, dropdown),
    ]
}

/// The callbacks by element id, each list by its view.
pub open spec fn callbacks_view(m: Map<Seq<char>, Vec<Callback>>) -> Map<Seq<char>, Seq<Callback>> {
    m.map_values(|v: Vec<Callback>| v@)
}

/// Adds event handlers that run UI actions to the elements whose ids have
/// callbacks, and imports the action functions.
#[derive(Debug)]
pub struct FigmaExportVisitor {
    functions: KeyedMap<Vec<Callback>>,
    action_imports: KeyedMap<Vec<String>>,
}

fn name_of(a: &Action) -> (r: &'static str)
    ensures
        r@ == action_name(*a),
{
    match a {
        Action::OpenModal(_) => "openModal",
        Action::CloseModal(_) => "closeModal",
        Action::ToggleModal(_) => "toggleModal",
        Action::OpenSheet(_) => "openSheet",
        Action::CloseSheet(_) => "closeSheet",
        Action::ShowToast(_) => "showToast",
        Action::SelectTab(_) => "selectTab",
        Action::ToggleAccordion(_) => "toggleAccordion",
        Action::OpenDropdown(_) => "openDropdown",
        Action::CloseDropdown(_) => "closeDropdown",
    }
}

fn prop(key: &str, value: &String) -> (r: (String, Option<String>))
    ensures
        r.0@ == key@,
        r.1 is Some && r.1.unwrap()@ == value@,
{
    (owned(key), Some(owned(value.as_str())))
}

fn opt_prop(key: &str, value: &Option<String>) -> (r: (String, Option<String>))
    ensures
        r.0@ == key@,
        opt_view(r.1) == opt_view(*value),
{
    let v = match value {
        Some(x) => Some(owned(x.as_str())),
        None => None,
    };
    (owned(key), v)
}

/// The properties of the object an action's function is called with.
fn props_of(a: &Action) -> (r: Vec<(String, Option<String>)>)
    ensures
        props_view(r@) == action_props(*a),
{
    let r = match a {
        Action::OpenModal(o) => vec![prop("id", &o.id)],
        Action::CloseModal(o) => vec![prop("id", &o.id)],
        Action::ToggleModal(o) => vec![prop("id", &o.id)],
        Action::OpenSheet(o) => vec![prop("id", &o.id), opt_prop("side", &o.side)],
        Action::CloseSheet(o) => vec![prop("id", &o.id)],
        Action::ShowToast(o) => vec![opt_prop("description", &o.description), prop("title", &o.title), opt_prop("variant", &o.variant)],
        Action::SelectTab(o) => vec![prop("tabGroupId", &o.tabGroupId), prop("tabId", &o.tabId)],
        Action::ToggleAccordion(o) => vec![prop("id", &o.id)],
        Action::OpenDropdown(o) => vec![prop("id", &o.id)],
        Action::CloseDropdown(o) => vec![prop("id", &o.id)],
    };
    assert(props_view(r@) =~= action_props(*a));
    r
}

/// The attribute that runs a callback.
fn handler_attr_of(cb: &Callback) -> (r: JsxAttr)
    ensures
        attr_view(r) == handler_attr(*cb),
{
    JsxAttr {
        name: cb.trigger.to_handler_name(),
        value: Some(JsxValue::Call { func: owned(name_of(&cb.action)), props: props_of(&cb.action) }),
    }
}

/// Appends the handlers of `cbs` to `attrs`, in order.
fn push_handlers(attrs: &mut Vec<JsxAttr>, cbs: &Vec<Callback>)
    ensures
        attrs_view(final(attrs)@) == attrs_view(old(attrs)@) + handler_attrs(cbs@),
{
    let ghost base = attrs_view(attrs@);
    let mut j: usize = 0;
    assert(handler_attrs(cbs@.take(0)) =~= Seq::<(Seq<char>, Option<ValueV>)>::empty());
    assert(attrs_view(attrs@) =~= base + handler_attrs(cbs@.take(0)));
    while j < cbs.len()
        invariant
            j <= cbs.len(),
            attrs_view(attrs@) == base + handler_attrs(cbs@.take(j as int)),
        decreases cbs.len() - j,
    {
        let a = handler_attr_of(&cbs[j]);
        let ghost before = attrs@;
        attrs.push(a);
        assert(attrs_view(attrs@) =~= attrs_view(before).push(attr_view(a)));
        assert(handler_attrs(cbs@.take(j + 1)) =~= handler_attrs(cbs@.take(j as int)).push(handler_attr(cbs@[j as int])));
        j += 1;
    }
    assert(cbs@.take(cbs.len() as int) =~= cbs@);
}

impl FigmaExportVisitor {
    /// The callbacks by element id.
    pub closed spec fn spec_callbacks(&self) -> Map<Seq<char>, Seq<Callback>> {
        callbacks_view(self.functions@)
    }

    /// The lists of callbacks, in the order their ids were first registered.
    pub closed spec fn spec_callback_entries(&self) -> Seq<(String, Vec<Callback>)> {
        self.functions.entries()
    }

    /// The names imported from each source, as sets.
    pub closed spec fn spec_imports(&self) -> Map<Seq<char>, Set<Seq<char>>> {
        import_sets(self.action_imports@)
    }

    /// The sources of imports, with their names, in the order they were
    /// first registered.
    pub closed spec fn spec_import_entries(&self) -> Seq<(String, Vec<String>)> {
        self.action_imports.entries()
    }

    /// A visitor with no callbacks and no import sources.
    pub fn new() -> (r: FigmaExportVisitor)
        ensures
            r.spec_callbacks() == Map::<Seq<char>, Seq<Callback>>::empty(),
            r.spec_imports() == Map::<Seq<char>, Set<Seq<char>>>::empty(),
    {
        let r = FigmaExportVisitor { functions: KeyedMap::new(), action_imports: KeyedMap::new() };
        assert(r.spec_callbacks() =~= Map::<Seq<char>, Seq<Callback>>::empty());
        assert(r.spec_imports() =~= Map::<Seq<char>, Set<Seq<char>>>::empty());
        r
    }

    /// Registers a callback for an element id, after those already there.
    pub fn register_callback(&mut self, id: String, callback: Callback)
        ensures
            final(self).spec_callbacks() == old(self).spec_callbacks().insert(
                id@,
                if old(self).spec_callbacks().contains_key(id@) {
                    old(self).spec_callbacks()[id@].push(callback)
                } else {
                    seq![callback]
                },
            ),
            final(self).spec_import_entries() == old(self).spec_import_entries(),
    {
        let ghost before = self.functions@;
        match self.functions.replace(id.as_str(), Vec::new()) {
            Some(mut list) => {
                let ghost old_list = list@;
                list.push(callback);
                let _ = self.functions.replace(id.as_str(), list);
                assert(callbacks_view(self.functions@) =~= callbacks_view(before).insert(id@, old_list.push(callback)));
            },
            None => {
                let mut list: Vec<Callback> = Vec::new();
                list.push(callback);
                self.functions.insert(id, list);
                assert(callbacks_view(self.functions@) =~= callbacks_view(before).insert(id@, seq![callback]));
            },
        }
    }

    /// Records that `action_name` is imported from `import_path`.
    pub fn register_action_import(&mut self, action_name: &str, import_path: &str)
        ensures
            final(self).spec_imports() == add_import(old(self).spec_imports(), action_name@, import_path@),
            final(self).spec_callback_entries() == old(self).spec_callback_entries(),
    {
        add_action_import(&mut self.action_imports, action_name, import_path);
    }

    /// Records the default sources of the action functions.
    pub fn register_default_imports(&mut self)
        ensures
            final(self).spec_imports() == add_imports(old(self).spec_imports(), default_action_pairs()),
            final(self).spec_callback_entries() == old(self).spec_callback_entries(),
    {
        let modal = "@/components/ui/modal";
        let sheet = "@/components/ui/sheet";
        let dropdown = "@/components/ui/dropdown-menu";
        let pairs: Vec<(&str, &str)> = vec![
            ("openModal", modal), ("closeModal", modal), ("toggleModal", modal),
            ("openSheet", sheet), ("closeSheet", sheet),
            ("showToast", "@/components/ui/toast"),
            ("selectTab", "@/components/ui/tabs"),
            ("toggleAccordion", "@/components/ui/accordion"),
            ("openDropdown", dropdown), ("closeDropdown", dropdown),
        ];
        let ghost spec_pairs = pairs@.map_values(|p: (&str, &str)| (p.0@, p.1@));
        assert(spec_pairs =~= default_action_pairs());
        let ghost start = self.spec_imports();
        let mut i: usize = 0;
        assert(spec_pairs.take(0) =~= Seq::<(Seq<char>, Seq<char>)>::empty());
        while i < pairs.len()
            invariant
                i <= pairs.len(),
                spec_pairs == pairs@.map_values(|p: (&str, &str)| (p.0@, p.1@)),
                self.spec_imports() == add_imports(start, spec_pairs.take(i as int)),
                self.spec_callback_entries() == old(self).spec_callback_entries(),
            decreases pairs.len() - i,
        {
            let (action, path) = pairs[i];
            self.register_action_import(action, path);
            assert(spec_pairs.take(i + 1).drop_last() =~= spec_pairs.take(i as int));
            i += 1;
        }
        assert(spec_pairs.take(pairs.len() as int) =~= spec_pairs);
    }

    /// The names of the functions that the registered callbacks call, list
    /// by list, with repeats.
    fn used_actions(&self) -> (r: Vec<String>)
        ensures
            views(r@) == callback_names(self.functions.entries()),
    {
        let pairs = self.functions.pairs();
        let mut used: Vec<String> = Vec::new();
        let mut i: usize = 0;
        assert(pairs@.take(0) =~= Seq::<(String, Vec<Callback>)>::empty());
        while i < pairs.len()
            invariant
                i <= pairs@.len(),
                pairs@ == self.functions.entries(),
                views(used@) == callback_names(pairs@.take(i as int)),
            decreases pairs@.len() - i,
        {
            let list = &pairs[i].1;
            let ghost base = views(used@);
            let mut j: usize = 0;
            while j < list.len()
                invariant
                    j <= list@.len(),
                    views(used@) == base + list@.take(j as int).map_values(|cb: Callback| action_name(cb.action)),
                decreases list@.len() - j,
            {
                let ghost before = used@;
                used.push(owned(name_of(&list[j].action)));
                assert(views(used@) =~= views(before).push(action_name(list@[j as int].action)));
                assert(list@.take(j + 1).map_values(|cb: Callback| action_name(cb.action)) =~= list@.take(j as int).map_values(
                    |cb: Callback| action_name(cb.action),
                ).push(action_name(list@[j as int].action)));
                j += 1;
            }
            assert(list@.take(list@.len() as int) =~= list@);
            assert(pairs@.take(i + 1).drop_last() =~= pairs@.take(i as int));
            i += 1;
        }
        assert(pairs@.take(pairs@.len() as int) =~= pairs@);
        used
    }

    /// Adds to an element, and to every element nested in it, the handlers
    /// of the callbacks registered for its id, after its own attributes.
    pub fn visit_jsx_element(&mut self, node: &mut JsxElement)
        ensures
            final(self).spec_callback_entries() == old(self).spec_callback_entries(),
            final(self).spec_import_entries() == old(self).spec_import_entries(),
            el_view(*final(node)) == with_handlers(old(self).spec_callbacks(), el_view(*old(node))),
    {
        let r = self.handle(&*node);
        *node = r;
    }

    /// `e` with handlers.
    fn handle(&self, e: &JsxElement) -> (r: JsxElement)
        ensures
            el_view(r) == with_handlers(self.spec_callbacks(), el_view(*e)),
        decreases e,
    {
        let ghost m = self.spec_callbacks();
        let mut attrs = copy_attrs(&e.attrs);
        let id = find_id(&attrs);
        match id {
            Some(id) => {
                match self.functions.get(id.as_str()) {
                    Some(list) => {
                        push_handlers(&mut attrs, list);
                    },
                    None => {},
                }
            },
            None => {},
        }
        assert(attrs_view(attrs@) == handled_attrs(m, attrs_view(e.attrs@)));
        let mut done: Vec<JsxChild> = Vec::new();
        let mut i: usize = 0;
        proof {
            assert(children_view(done@) =~= with_handlers_all(m, children_view(e.children@.take(0))));
        }
        while i < e.children.len()
            invariant
                i <= e.children.len(),
                m == self.spec_callbacks(),
                children_view(done@) == with_handlers_all(m, children_view(e.children@.take(i as int))),
            decreases e.children.len() - i,
        {
            let d = match &e.children[i] {
                JsxChild::Element(x) => {
                    assert(decreases_to!(e => e.children));
                    assert(decreases_to!(e.children => e.children@));
                    assert(decreases_to!(e.children@ => e.children@[i as int]));
                    assert(decreases_to!(e.children@[i as int] => e.children@[i as int]->Element_0));
                    JsxChild::Element(self.handle(x))
                },
                JsxChild::Text(t) => JsxChild::Text(owned(t.as_str())),
            };
            proof {
                let c = e.children@[i as int];
                assert(child_view(d) == with_handlers(m, child_view(c)));
                lemma_children_view_push(done@, d);
                assert(e.children@.take(i + 1) =~= e.children@.take(i as int).push(c));
                lemma_children_view_push(e.children@.take(i as int), c);
                lemma_with_handlers_all_push(m, children_view(e.children@.take(i as int)), child_view(c));
            }
            done.push(d);
            i += 1;
        }
        proof {
            assert(e.children@.take(i as int) =~= e.children@);
        }
        JsxElement { name: owned(e.name.as_str()), attrs, children: done }
    }

    /// Adds handlers to the elements of a module and imports the action
    /// functions its callbacks call: where no import source is registered,
    /// the default ones are first; the imports go before the module's own.
    pub fn visit_module(&mut self, module: &mut TsxModule)
        ensures
            final(self).spec_callback_entries() == old(self).spec_callback_entries(),
            final(self).spec_imports() == if old(self).spec_imports().dom().len() == 0 {
                add_imports(old(self).spec_imports(), default_action_pairs())
            } else {
                old(self).spec_imports()
            },
            final(module).elements@.len() == old(module).elements@.len(),
            forall|i: int| 0 <= i < old(module).elements@.len() ==> el_view(#[trigger] final(module).elements@[i])
                == with_handlers(old(self).spec_callbacks(), el_view(old(module).elements@[i])),
            exists|acts: Seq<(Seq<SpecifierV>, Seq<char>)>| {
                &&& action_decls_ok(final(self).spec_import_entries(), callback_names(old(self).spec_callback_entries()).to_set(), acts)
                &&& imports_view(final(module).imports@) == acts + imports_view(old(module).imports@)
            },
    {
        assert(self.spec_imports().dom() =~= self.action_imports@.dom());
        if self.action_imports.is_empty() {
            self.register_default_imports();
        }
        let used = self.used_actions();
        let ghost elements0 = module.elements@;
        let mut k: usize = 0;
        while k < module.elements.len()
            invariant
                k <= module.elements@.len(),
                module.elements@.len() == elements0.len(),
                module.imports@ == old(module).imports@,
                forall|j: int| k <= j < elements0.len() ==> module.elements@[j] == elements0[j],
                forall|j: int| 0 <= j < k ==> el_view(#[trigger] module.elements@[j]) == with_handlers(self.spec_callbacks(), el_view(elements0[j])),
            decreases module.elements@.len() - k,
        {
            let r = self.handle(&module.elements[k]);
            module.elements.set(k, r);
            k += 1;
        }
        let decls = action_import_decls(&self.action_imports, &used);
        let ghost a = imports_view(decls@);
        let ghost o = imports_view(module.imports@);
        prepend_imports(&mut module.imports, decls);
        assert(imports_view(module.imports@) == a + o);
        assert(action_decls_ok(self.action_imports.entries(), callback_names(old(self).functions.entries()).to_set(), a));
    }
}

} // verus!
