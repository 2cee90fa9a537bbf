//! Wrapping of JSX elements, by element id, in shadcn/ui components, and
//! the imports that the wrapped module then needs.

use vstd::prelude::*;
use crate::keyed::KeyedMap;
use crate::shadcn::{ButtonOptions, DialogOptions, DrawerOptions, HoverCardOptions, SheetOptions, TooltipOptions,
    LinkOptions, AccordionOptions, CarouselOptions, RoutingLibrary, hover_card, tooltip, button, sheet, drawer,
    accordion, carousel, link, dialog, svg_read, create_hover_card_component, create_tooltip_component,
    create_button_component, create_sheet_component, create_drawer_component, create_accordion_component,
    create_carousel_component, create_link_component};
use crate::jsx::{JsxChild, JsxElement, NodeV, attrs_view, child_view, children_view, el_view, copy_attrs,
    copy_element, lemma_children_view_push};
use crate::tsx::callbacks::{element_id, find_id};
use crate::tsx::imports::{ImportDecl, ImportSpecifier, SpecifierV, TsxModule, import_view, imports_view, specifier_view,
    prepend_imports};
use crate::text::{owned, str_eq, views, ends_with, str_ends_with};
use crate::shadcn::{DialogContent, opt_seq};
use crate::tsx::dialog::{derive_import_local_name, import_local_name};
use crate::order::{lex_lt, str_lt, lemma_lex_total, lemma_lex_transitive, lemma_lex_irreflexive};

verus! {

/// The component that an element is wrapped in, with its options.
#[derive(Debug)]
pub enum ComponentWrapper {
    Dialog(DialogOptions),
    HoverCard(HoverCardOptions),
    Sheet(SheetOptions),
    Tooltip(TooltipOptions),
    Link(LinkOptions),
    Drawer(DrawerOptions),
    Button(ButtonOptions),
    Accordion(AccordionOptions),
    Carousel(CarouselOptions),
}

/// The options of the Sonner toaster: its position (`top-left`,
/// `top-right`, `bottom-left` or `bottom-right`), theme (`light`, `dark`
/// or `system`), whether toasts expand, whether they have a close button,
/// and the offset from the edges.
#[derive(Debug, Clone, Default)]
pub struct SonnerOptions {
    pub id: String,
    pub position: Option<String>,
    pub theme: Option<String>,
    pub expand: Option<bool>,
    pub close_button: Option<bool>,
    pub offset: Option<String>,
}

/// The options of a toast: its title, description and variant, the label
/// and function of its action button, and how long it shows, in
/// milliseconds.
#[derive(Debug, Clone, Default)]
pub struct ToastOptions {
    pub id: String,
    pub title: Option<String>,
    pub description: Option<String>,
    pub variant: Option<String>,
    pub action_label: Option<String>,
    pub action: Option<String>,
    pub duration: Option<u32>,
}

/// The names each import source provides, as sets.
pub open spec fn import_sets(m: Map<Seq<char>, Vec<String>>) -> Map<Seq<char>, Set<Seq<char>>> {
    m.map_values(|v: Vec<String>| views(v@).to_set())
}

/// `m` with `action` added to the names imported from `path`.
pub open spec fn add_import(m: Map<Seq<char>, Set<Seq<char>>>, action: Seq<char>, path: Seq<char>) -> Map<Seq<char>, Set<Seq<char>>> {
    m.insert(path, if m.contains_key(path) { m[path].insert(action) } else { Set::empty().insert(action) })
}

/// `m` with each `(action, path)` pair added, in order.
pub open spec fn add_imports(m: Map<Seq<char>, Set<Seq<char>>>, pairs: Seq<(Seq<char>, Seq<char>)>) -> Map<Seq<char>, Set<Seq<char>>>
    decreases pairs.len(),
{
    if pairs.len() == 0 {
        m
    } else {
        add_import(add_imports(m, pairs.drop_last()), pairs.last().0, pairs.last().1)
    }
}

/// The module that provides the link component of a routing library; none
/// for plain `a` elements.
pub open spec fn link_source(lib: RoutingLibrary) -> Option<Seq<char>> {
    match lib {
        RoutingLibrary::NextJs => Some("next/link"@),
        RoutingLibrary::Wouter => Some("wouter"@),
        RoutingLibrary::ReactRouter => Some("react-router-dom"@),
        RoutingLibrary::Native => None,
    }
}

/// The sources of the components, and what each provides, that a module
/// imports by default.
pub open spec fn default_import_pairs() -> Seq<(Seq<char>, Seq<char>)> {
    let dialog = "@/components/ui/circular-dialog"@;
    let sheet = "@/components/ui/sheet"@;
    let drawer = "@/components/ui/drawer"@;
    let popover = "@/components/ui/popover"@;
    let hover_card = "@/components/ui/hover-card"@;
    let tooltip = "@/components/ui/tooltip"@;
    let accordion = "@/components/ui/accordion"@;
    let carousel = "@/components/ui/carousel"@;
    seq![
        ("Dialog"@, dialog), ("DialogTrigger"@, dialog), ("DialogContent"@, dialog), ("DialogHeader"@, dialog),
        ("DialogTitle"@, dialog), ("DialogDescription"@, dialog), ("DialogFooter"@, dialog),
        ("Sheet"@, sheet), ("SheetClose"@, sheet), ("SheetContent"@, sheet), ("SheetDescription"@, sheet),
        ("SheetHeader"@, sheet), ("SheetTitle"@, sheet), ("SheetTrigger"@, sheet), ("SheetHeader"@, sheet),
        ("Drawer"@, drawer), ("DrawerClose"@, drawer), ("DrawerContent"@, drawer), ("DrawerDescription"@, drawer),
        ("DrawerFooter"@, drawer), ("DrawerHeader"@, drawer), ("DrawerTitle"@, drawer), ("DrawerTrigger"@, drawer),
        ("Popover"@, popover), ("PopoverContent"@, popover), ("PopoverTrigger"@, popover),
        ("HoverCard"@, hover_card), ("HoverCardContent"@, hover_card), ("HoverCardTrigger"@, hover_card),
        ("toast"@, "sonner"@),
        ("Button"@, "@/components/ui/button"@),
        ("Tooltip"@, tooltip), ("TooltipTrigger"@, tooltip), ("TooltipContent"@, tooltip),
        ("Accordion"@, accordion), ("AccordionItem"@, accordion), ("AccordionTrigger"@, accordion),
        ("AccordionContent"@, accordion),
        ("Carousel"@, carousel), ("CarouselContent"@, carousel), ("CarouselItem"@, carousel),
        ("CarouselPrevious"@, carousel), ("CarouselNext"@, carousel),
    ]
}

/// Wraps elements in shadcn/ui components and imports what they use.
#[derive(Debug)]
pub struct InjectShadcnUiVisitor {
    /// The component each element id is wrapped in.
    pub component_wrappers: KeyedMap<ComponentWrapper>,
    /// The names imported from each source.
    pub action_imports: KeyedMap<Vec<String>>,
}

impl Default for InjectShadcnUiVisitor {
    /// A visitor with no wrappers and no import sources.
    fn default() -> (r: Self)
        ensures
            r.component_wrappers@ == Map::<Seq<char>, ComponentWrapper>::empty(),
            r.action_imports@ == Map::<Seq<char>, Vec<String>>::empty(),
    {
        InjectShadcnUiVisitor { component_wrappers: KeyedMap::new(), action_imports: KeyedMap::new() }
    }
}

impl InjectShadcnUiVisitor {
    /// The names imported from each source, as sets.
    pub open spec fn spec_imports(&self) -> Map<Seq<char>, Set<Seq<char>>> {
        import_sets(self.action_imports@)
    }

    /// A visitor with the given wrappers and imports.
    pub fn new(component_wrappers: KeyedMap<ComponentWrapper>, action_imports: KeyedMap<Vec<String>>) -> (r: InjectShadcnUiVisitor)
        ensures
            r.component_wrappers@ == component_wrappers@,
            r.action_imports@ == action_imports@,
    {
        InjectShadcnUiVisitor { component_wrappers, action_imports }
    }

    /// Wraps the element with id `id` in `wrapper`, in place of an earlier
    /// wrapper of that id.
    pub fn register_component_wrapper(&mut self, id: String, wrapper: ComponentWrapper)
        ensures
            final(self).component_wrappers@ == old(self).component_wrappers@.insert(id@, wrapper),
            final(self).action_imports@ == old(self).action_imports@,
    {
        self.component_wrappers.insert(id, wrapper);
    }

    /// Records that `action_name` is imported from `import_path`.
    pub fn register_action_import(&mut self, action_name: &str, import_path: &str)
        ensures
            final(self).spec_imports() == add_import(old(self).spec_imports(), action_name@, import_path@),
            final(self).component_wrappers == old(self).component_wrappers,
    {
        add_action_import(&mut self.action_imports, action_name, import_path);
    }

    /// Records the import of the link component of a routing library.
    pub fn register_link_imports(&mut self, routing_library: &RoutingLibrary)
        ensures
            final(self).spec_imports() == match link_source(*routing_library) {
                Some(path) => add_import(old(self).spec_imports(), "Link"@, path),
                None => old(self).spec_imports(),
            },
            final(self).component_wrappers == old(self).component_wrappers,
    {
        match routing_library {
            RoutingLibrary::NextJs => self.register_action_import("Link", "next/link"),
            RoutingLibrary::Wouter => self.register_action_import("Link", "wouter"),
            RoutingLibrary::ReactRouter => self.register_action_import("Link", "react-router-dom"),
            RoutingLibrary::Native => {},
        }
    }

    /// Records the default sources of the shadcn/ui components and of the
    /// toast function.
    pub fn register_default_imports(&mut self)
        ensures
            final(self).spec_imports() == add_imports(old(self).spec_imports(), default_import_pairs()),
            final(self).component_wrappers == old(self).component_wrappers,
    {
        let dialog = "@/components/ui/circular-dialog";
        let sheet = "@/components/ui/sheet";
        let drawer = "@/components/ui/drawer";
        let popover = "@/components/ui/popover";
        let hover_card = "@/components/ui/hover-card";
        let tooltip = "@/components/ui/tooltip";
        let accordion = "@/components/ui/accordion";
        let carousel = "@/components/ui/carousel";
        let pairs: Vec<(&str, &str)> = vec![
            ("Dialog", dialog), ("DialogTrigger", dialog), ("DialogContent", dialog), ("DialogHeader", dialog),
            ("DialogTitle", dialog), ("DialogDescription", dialog), ("DialogFooter", dialog),
            ("Sheet", sheet), ("SheetClose", sheet), ("SheetContent", sheet), ("SheetDescription", sheet),
            ("SheetHeader", sheet), ("SheetTitle", sheet), ("SheetTrigger", sheet), ("SheetHeader", sheet),
            ("Drawer", drawer), ("DrawerClose", drawer), ("DrawerContent", drawer), ("DrawerDescription", drawer),
            ("DrawerFooter", drawer), ("DrawerHeader", drawer), ("DrawerTitle", drawer), ("DrawerTrigger", drawer),
            ("Popover", popover), ("PopoverContent", popover), ("PopoverTrigger", popover),
            ("HoverCard", hover_card), ("HoverCardContent", hover_card), ("HoverCardTrigger", hover_card),
            ("toast", "sonner"),
            ("Button", "@/components/ui/button"),
            ("Tooltip", tooltip), ("TooltipTrigger", tooltip), ("TooltipContent", tooltip),
            ("Accordion", accordion), ("AccordionItem", accordion), ("AccordionTrigger", accordion),
            ("AccordionContent", accordion),
            ("Carousel", carousel), ("CarouselContent", carousel), ("CarouselItem", carousel),
            ("CarouselPrevious", carousel), ("CarouselNext", carousel),
        ];
        let ghost spec_pairs = pairs@.map_values(|p: (&str, &str)| (p.0@, p.1@));
        assert(spec_pairs =~= default_import_pairs());
        let ghost start = self.spec_imports();
        let mut i: usize = 0;
        assert(spec_pairs.take(0) =~= Seq::<(Seq<char>, Seq<char>)>::empty());
        while i < pairs.len()
            invariant
                i <= pairs.len(),
                spec_pairs == pairs@.map_values(|p: (&str, &str)| (p.0@, p.1@)),
                self.spec_imports() == add_imports(start, spec_pairs.take(i as int)),
                self.component_wrappers == old(self).component_wrappers,
            decreases pairs.len() - i,
        {
            let (action, path) = pairs[i];
            self.register_action_import(action, path);
            assert(spec_pairs.take(i + 1).drop_last() =~= spec_pairs.take(i as int));
            i += 1;
        }
        assert(spec_pairs.take(pairs.len() as int) =~= spec_pairs);
    }
}

/// Records in `imports` that `action_name` is imported from `import_path`.
pub fn add_action_import(imports: &mut KeyedMap<Vec<String>>, action_name: &str, import_path: &str)
    ensures
        import_sets(final(imports)@) == add_import(import_sets(old(imports)@), action_name@, import_path@),
{
    let ghost before = imports@;
    match imports.replace(import_path, Vec::new()) {
        Some(mut list) => {
            let ghost old_list = list@;
            if !contains_name(&list, action_name) {
                list.push(owned(action_name));
                assert(views(list@) =~= views(old_list).push(action_name@));
                assert(views(list@).to_set() =~= views(old_list).to_set().insert(action_name@)) by {
                    assert forall|x: Seq<char>| views(list@).contains(x) <==> views(old_list).contains(x) || x == action_name@ by {
                        if views(list@).contains(x) {
                            let j = choose|j: int| 0 <= j < views(list@).len() && views(list@)[j] == x;
                            if j < old_list.len() {
                                assert(views(old_list)[j] == x);
                            }
                        }
                        if views(old_list).contains(x) {
                            let j = choose|j: int| 0 <= j < views(old_list).len() && views(old_list)[j] == x;
                            assert(views(list@)[j] == x);
                        }
                        if x == action_name@ {
                            assert(views(list@)[old_list.len() as int] == x);
                        }
                    }
                }
            } else {
                assert(views(list@).to_set() =~= views(old_list).to_set().insert(action_name@));
            }
            let ghost new_vec = list;
            let _ = imports.replace(import_path, list);
            assert(imports@ == before.insert(import_path@, new_vec));
            assert(import_sets(imports@) =~= add_import(import_sets(before), action_name@, import_path@));
        },
        None => {
            let mut list: Vec<String> = Vec::new();
            list.push(owned(action_name));
            let ghost new_list = list@;
            imports.insert(owned(import_path), list);
            assert(views(new_list) =~= seq![action_name@]);
            assert(views(new_list).to_set() =~= Set::<Seq<char>>::empty().insert(action_name@)) by {
                assert(views(new_list)[0] == action_name@);
            }
            assert(import_sets(imports@) =~= add_import(import_sets(before), action_name@, import_path@));
        },
    }
}

/// Whether `name` is among `list`.
fn contains_name(list: &Vec<String>, name: &str) -> (r: bool)
    ensures
        r == views(list@).contains(name@),
{
    let mut i: usize = 0;
    while i < list.len()
        invariant
            i <= list.len(),
            forall|j: int| 0 <= j < i ==> list@[j]@ != name@,
        decreases list.len() - i,
    {
        if str_eq(list[i].as_str(), name) {
            assert(views(list@)[i as int] == name@);
            return true;
        }
        i += 1;
    }
    assert(!views(list@).contains(name@)) by {
        if views(list@).contains(name@) {
            let j = choose|j: int| 0 <= j < views(list@).len() && views(list@)[j] == name@;
            assert(list@[j]@ == name@);
        }
    }
    false
}

/// Whether `after` is the trigger `trigger` wrapped in the component `w`;
/// for a dialog, with what reading the SVG file it names gave.
pub open spec fn wrapped<F: Fn(&String) -> Option<String>>(w: ComponentWrapper, read_file: F, trigger: NodeV, after: NodeV) -> bool {
    match w {
        ComponentWrapper::Dialog(o) => exists|svg: Option<String>| svg_read(o, read_file, svg) && after == dialog(trigger, o, svg),
        ComponentWrapper::HoverCard(o) => after == hover_card(trigger, o),
        ComponentWrapper::Sheet(o) => after == sheet(trigger, o),
        ComponentWrapper::Tooltip(o) => after == tooltip(trigger, o),
        ComponentWrapper::Link(o) => after == link(trigger, o),
        ComponentWrapper::Drawer(o) => after == drawer(trigger, o),
        ComponentWrapper::Button(o) => after == button(trigger, o),
        ComponentWrapper::Accordion(o) => after == accordion(o),
        ComponentWrapper::Carousel(o) => after == carousel(o),
    }
}

/// The wrapper of an element, by its attributes, where its id has one.
pub open spec fn wrapper_id(m: Map<Seq<char>, ComponentWrapper>, attrs: Seq<(Seq<char>, Option<crate::jsx::ValueV>)>) -> Option<Seq<char>> {
    match element_id(attrs) {
        Some(id) => if m.contains_key(id) { Some(id) } else { None },
        None => None,
    }
}

/// Whether the tree `after` is `before` with each element whose id has a
/// wrapper wrapped in it, as a whole; the elements inside a wrapped element
/// are left as they are, and other elements keep their name and attributes.
pub open spec fn tree_wrapped<F: Fn(&String) -> Option<String>>(m: Map<Seq<char>, ComponentWrapper>, read_file: F, before: NodeV, after: NodeV) -> bool
    decreases before,
{
    match before {
        NodeV::El { name, attrs, children } => match wrapper_id(m, attrs) {
            Some(id) => wrapped(m[id], read_file, before, after),
            None => match after {
                NodeV::El { name: name2, attrs: attrs2, children: children2 } => {
                    &&& name2 == name
                    &&& attrs2 == attrs
                    &&& all_wrapped(m, read_file, children, children2)
                },
                NodeV::Text(_) => false,
            },
        },
        NodeV::Text(t) => after == NodeV::Text(t),
    }
}

/// Whether each tree of `after` is the tree of `before` at its place,
/// wrapped.
pub open spec fn all_wrapped<F: Fn(&String) -> Option<String>>(m: Map<Seq<char>, ComponentWrapper>, read_file: F, before: Seq<NodeV>, after: Seq<NodeV>) -> bool
    decreases before,
{
    if before.len() == 0 {
        after.len() == 0
    } else {
        after.len() > 0 && tree_wrapped(m, read_file, before[0], after[0]) && all_wrapped(m, read_file, before.drop_first(), after.drop_first())
    }
}

proof fn lemma_all_wrapped_push<F: Fn(&String) -> Option<String>>(m: Map<Seq<char>, ComponentWrapper>, f: F, b: Seq<NodeV>, a: Seq<NodeV>, x: NodeV, y: NodeV)
    requires
        all_wrapped(m, f, b, a),
        tree_wrapped(m, f, x, y),
    ensures
        all_wrapped(m, f, b.push(x), a.push(y)),
    decreases b.len(),
{
    if b.len() == 0 {
        assert(b.push(x).drop_first() =~= Seq::<NodeV>::empty());
        assert(a.push(y).drop_first() =~= Seq::<NodeV>::empty());
        assert(all_wrapped(m, f, b.push(x).drop_first(), a.push(y).drop_first()));
        assert(b.push(x)[0] == x && a.push(y)[0] == y);
    } else {
        lemma_all_wrapped_push(m, f, b.drop_first(), a.drop_first(), x, y);
        assert(b.push(x).drop_first() =~= b.drop_first().push(x));
        assert(a.push(y).drop_first() =~= a.drop_first().push(y));
        assert(b.push(x)[0] == b[0] && a.push(y)[0] == a[0]);
    }
}

impl ComponentWrapper {
    /// The trigger element wrapped in this component.
    pub fn generate_component<F: Fn(&String) -> Option<String>>(&self, trigger_element: JsxElement, read_file: &F) -> (r: JsxElement)
        requires
            forall|p: &String| #[trigger] read_file.requires((p,)),
        ensures
            wrapped(*self, *read_file, el_view(trigger_element), el_view(r)),
    {
        match self {
            ComponentWrapper::Dialog(o) => o.jsx_element(trigger_element, read_file),
            ComponentWrapper::HoverCard(o) => create_hover_card_component(trigger_element, o),
            ComponentWrapper::Sheet(o) => create_sheet_component(trigger_element, o),
            ComponentWrapper::Tooltip(o) => create_tooltip_component(trigger_element, o),
            ComponentWrapper::Link(o) => create_link_component(trigger_element, o),
            ComponentWrapper::Drawer(o) => create_drawer_component(trigger_element, o),
            ComponentWrapper::Button(o) => create_button_component(trigger_element, o),
            ComponentWrapper::Accordion(o) => create_accordion_component(trigger_element, o),
            ComponentWrapper::Carousel(o) => create_carousel_component(trigger_element, o),
        }
    }
}

impl InjectShadcnUiVisitor {
    /// Wraps an element, or elements nested in it, in the components
    /// registered for their ids. `read_file` reads the SVG files that
    /// dialogs show.
    pub fn visit_jsx_element<F: Fn(&String) -> Option<String>>(&mut self, node: &mut JsxElement, read_file: &F)
        requires
            forall|p: &String| #[trigger] read_file.requires((p,)),
        ensures
            final(self).component_wrappers@ == old(self).component_wrappers@,
            final(self).action_imports@ == old(self).action_imports@,
            tree_wrapped(old(self).component_wrappers@, *read_file, el_view(*old(node)), el_view(*final(node))),
    {
        let r = self.wrap_tree(&*node, read_file);
        *node = r;
    }

    /// `e`, wrapped.
    fn wrap_tree<F: Fn(&String) -> Option<String>>(&self, e: &JsxElement, read_file: &F) -> (r: JsxElement)
        requires
            forall|p: &String| #[trigger] read_file.requires((p,)),
        ensures
            tree_wrapped(self.component_wrappers@, *read_file, el_view(*e), el_view(r)),
        decreases e,
    {
        let ghost m = self.component_wrappers@;
        let id = find_id(&e.attrs);
        match id {
            Some(id) => {
                match self.component_wrappers.get(id.as_str()) {
                    Some(w) => {
                        let trigger = copy_element(e);
                        return w.generate_component(trigger, read_file);
                    },
                    None => {},
                }
            },
            None => {},
        }
        assert(wrapper_id(m, attrs_view(e.attrs@)) is None);
        let attrs = copy_attrs(&e.attrs);
        let mut done: Vec<JsxChild> = Vec::new();
        let mut i: usize = 0;
        proof {
            assert(children_view(done@) =~= Seq::<NodeV>::empty());
            assert(children_view(e.children@.take(0)) =~= Seq::<NodeV>::empty());
        }
        while i < e.children.len()
            invariant
                i <= e.children.len(),
                m == self.component_wrappers@,
                forall|p: &String| #[trigger] read_file.requires((p,)),
                all_wrapped(m, *read_file, children_view(e.children@.take(i as int)), children_view(done@)),
            decreases e.children.len() - i,
        {
            let d = match &e.children[i] {
                JsxChild::Element(x) => {
                    assert(decreases_to!(e => e.children));
                    assert(decreases_to!(e.children => e.children@));
                    assert(decreases_to!(e.children@ => e.children@[i as int]));
                    assert(decreases_to!(e.children@[i as int] => e.children@[i as int]->Element_0));
                    JsxChild::Element(self.wrap_tree(x, read_file))
                },
                JsxChild::Text(t) => JsxChild::Text(owned(t.as_str())),
            };
            proof {
                let c = e.children@[i as int];
                assert(tree_wrapped(m, *read_file, child_view(c), child_view(d)));
                lemma_children_view_push(done@, d);
                assert(e.children@.take(i + 1) =~= e.children@.take(i as int).push(c));
                lemma_children_view_push(e.children@.take(i as int), c);
                lemma_all_wrapped_push(m, *read_file, children_view(e.children@.take(i as int)), children_view(done@), child_view(c), child_view(d));
            }
            done.push(d);
            i += 1;
        }
        proof {
            assert(e.children@.take(i as int) =~= e.children@);
        }
        JsxElement { name: owned(e.name.as_str()), attrs, children: done }
    }
}

/// Whether the strings are in strictly increasing order.
pub open spec fn strictly_sorted(s: Seq<Seq<char>>) -> bool {
    forall|i: int, j: int| 0 <= i < j < s.len() ==> lex_lt(#[trigger] s[i], #[trigger] s[j])
}

/// Inserts `s` into a strictly sorted list where it is not there yet.
fn insert_sorted(out: &mut Vec<String>, s: String)
    requires
        strictly_sorted(views(old(out)@)),
    ensures
        strictly_sorted(views(final(out)@)),
        views(final(out)@).to_set() == views(old(out)@).to_set().insert(s@),
{
    let ghost out0 = views(out@);
    let mut p: usize = 0;
    while p < out.len() && str_lt(out[p].as_str(), s.as_str())
        invariant
            p <= out.len(),
            out0 == views(out@),
            forall|k: int| 0 <= k < p ==> lex_lt(#[trigger] out0[k], s@),
        decreases out.len() - p,
    {
        p += 1;
    }
    if p < out.len() && str_eq(out[p].as_str(), s.as_str()) {
        assert(views(out@).to_set() =~= out0.to_set().insert(s@)) by {
            assert(out0[p as int] == s@);
        }
        return;
    }
    proof {
        if p < out0.len() {
            lemma_lex_total(out0[p as int], s@);
        }
    }
    let ghost sv = s@;
    out.insert(p, s);
    proof {
        let n = views(out@);
        assert(n =~= out0.insert(p as int, sv));
        assert forall|i: int, j: int| 0 <= i < j < n.len() implies lex_lt(#[trigger] n[i], #[trigger] n[j]) by {
            if j < p {
                assert(n[i] == out0[i] && n[j] == out0[j]);
            } else if j == p {
                assert(n[i] == out0[i] && n[j] == sv);
            } else if i < p {
                assert(n[i] == out0[i] && n[j] == out0[j - 1]);
                assert(lex_lt(out0[i], sv));
                if j - 1 == p as int {
                    lemma_lex_transitive(out0[i], sv, out0[j - 1]);
                } else {
                    assert(lex_lt(out0[p as int], out0[j - 1]));
                    lemma_lex_transitive(sv, out0[p as int], out0[j - 1]);
                    lemma_lex_transitive(out0[i], sv, out0[j - 1]);
                }
            } else if i == p {
                assert(n[i] == sv && n[j] == out0[j - 1]);
                if j - 1 > p as int {
                    assert(lex_lt(out0[p as int], out0[j - 1]));
                    lemma_lex_transitive(sv, out0[p as int], out0[j - 1]);
                }
            } else {
                assert(n[i] == out0[i - 1] && n[j] == out0[j - 1]);
            }
        }
        assert(n.to_set() =~= out0.to_set().insert(sv)) by {
            assert forall|x: Seq<char>| n.contains(x) <==> out0.contains(x) || x == sv by {
                if n.contains(x) {
                    let k = choose|k: int| 0 <= k < n.len() && n[k] == x;
                    if k < p {
                        assert(out0[k] == x);
                    } else if k > p {
                        assert(out0[k - 1] == x);
                    }
                }
                if out0.contains(x) {
                    let k = choose|k: int| 0 <= k < out0.len() && out0[k] == x;
                    if k < p {
                        assert(n[k] == x);
                    } else {
                        assert(n[k + 1] == x);
                    }
                }
                if x == sv {
                    assert(n[p as int] == x);
                }
            }
        }
    }
}

/// The names of the components that a wrapper uses.
pub open spec fn wrapper_actions(w: ComponentWrapper) -> Seq<Seq<char>> {
    match w {
        ComponentWrapper::Dialog(_) => seq!["Dialog"@, "DialogTrigger"@, "DialogContent"@, "DialogHeader"@, "DialogTitle"@,
            "DialogDescription"@, "DialogFooter"@, "Button"@],
        ComponentWrapper::Drawer(_) => seq!["Drawer"@, "DrawerClose"@, "DrawerContent"@, "DrawerDescription"@, "DrawerFooter"@,
            "DrawerHeader"@, "DrawerTitle"@, "DrawerTrigger"@, "Button"@],
        ComponentWrapper::Tooltip(_) => seq!["Tooltip"@, "TooltipTrigger"@, "TooltipContent"@, "Button"@],
        ComponentWrapper::Link(o) => if o.as_button { seq!["Link"@, "Button"@] } else { seq!["Link"@] },
        ComponentWrapper::Sheet(_) => seq!["Sheet"@, "SheetTrigger"@, "SheetContent"@, "SheetHeader"@, "SheetTitle"@,
            "SheetDescription"@, "Button"@],
        ComponentWrapper::HoverCard(_) => seq!["HoverCard"@, "HoverCardTrigger"@, "HoverCardContent"@, "Button"@],
        ComponentWrapper::Button(_) => seq!["Button"@],
        ComponentWrapper::Accordion(_) => seq!["Accordion"@, "AccordionItem"@, "AccordionTrigger"@, "AccordionContent"@],
        ComponentWrapper::Carousel(_) => seq!["Carousel"@, "CarouselContent"@, "CarouselItem"@, "CarouselPrevious"@,
            "CarouselNext"@],
    }
}

/// The names of the components that the wrappers use, wrapper by wrapper.
pub open spec fn used_names(entries: Seq<(String, ComponentWrapper)>) -> Seq<Seq<char>>
    decreases entries.len(),
{
    if entries.len() == 0 {
        seq![]
    } else {
        used_names(entries.drop_last()) + wrapper_actions(entries.last().1)
    }
}

/// The names of the components that a wrapper uses.
fn wrapper_action_names(w: &ComponentWrapper) -> (r: Vec<&'static str>)
    ensures
        r@.map_values(|s: &str| s@) == wrapper_actions(*w),
{
    let r: Vec<&'static str> = match w {
        ComponentWrapper::Dialog(_) => vec!["Dialog", "DialogTrigger", "DialogContent", "DialogHeader", "DialogTitle",
            "DialogDescription", "DialogFooter", "Button"],
        ComponentWrapper::Drawer(_) => vec!["Drawer", "DrawerClose", "DrawerContent", "DrawerDescription", "DrawerFooter",
            "DrawerHeader", "DrawerTitle", "DrawerTrigger", "Button"],
        ComponentWrapper::Tooltip(_) => vec!["Tooltip", "TooltipTrigger", "TooltipContent", "Button"],
        ComponentWrapper::Link(o) => if o.as_button { vec!["Link", "Button"] } else { vec!["Link"] },
        ComponentWrapper::Sheet(_) => vec!["Sheet", "SheetTrigger", "SheetContent", "SheetHeader", "SheetTitle",
            "SheetDescription", "Button"],
        ComponentWrapper::HoverCard(_) => vec!["HoverCard", "HoverCardTrigger", "HoverCardContent", "Button"],
        ComponentWrapper::Button(_) => vec!["Button"],
        ComponentWrapper::Accordion(_) => vec!["Accordion", "AccordionItem", "AccordionTrigger", "AccordionContent"],
        ComponentWrapper::Carousel(_) => vec!["Carousel", "CarouselContent", "CarouselItem", "CarouselPrevious",
            "CarouselNext"],
    };
    assert(r@.map_values(|s: &str| s@) =~= wrapper_actions(*w));
    r
}

impl InjectShadcnUiVisitor {
    /// The names of the components that the registered wrappers use, wrapper
    /// by wrapper, with repeats.
    pub fn used_actions(&self) -> (r: Vec<String>)
        ensures
            views(r@) == used_names(self.component_wrappers.entries()),
    {
        let pairs = self.component_wrappers.pairs();
        let mut used: Vec<String> = Vec::new();
        let mut i: usize = 0;
        assert(pairs@.take(0) =~= Seq::<(String, ComponentWrapper)>::empty());
        while i < pairs.len()
            invariant
                i <= pairs@.len(),
                pairs@ == self.component_wrappers.entries(),
                views(used@) == used_names(pairs@.take(i as int)),
            decreases pairs@.len() - i,
        {
            let names = wrapper_action_names(&pairs[i].1);
            let ghost base = views(used@);
            let mut j: usize = 0;
            while j < names.len()
                invariant
                    j <= names@.len(),
                    views(used@) == base + names@.take(j as int).map_values(|s: &str| s@),
                decreases names@.len() - j,
            {
                let ghost before = used@;
                used.push(owned(names[j]));
                assert(views(used@) =~= views(before).push(names@[j as int]@));
                assert(names@.take(j + 1).map_values(|s: &str| s@) =~= names@.take(j as int).map_values(|s: &str| s@).push(names@[j as int]@));
                j += 1;
            }
            assert(names@.take(names@.len() as int) =~= names@);
            assert(pairs@.take(i + 1).drop_last() =~= pairs@.take(i as int));
            i += 1;
        }
        assert(pairs@.take(pairs@.len() as int) =~= pairs@);
        used
    }
}

/// The names that specifiers bring in.
pub open spec fn specifier_names(specs: Seq<SpecifierV>) -> Seq<Seq<char>> {
    specs.map_values(|sp: SpecifierV| match sp {
        SpecifierV::Default(n) => n,
        SpecifierV::Named(n) => n,
    })
}

/// Whether every specifier is a named one.
pub open spec fn all_named(specs: Seq<SpecifierV>) -> bool {
    forall|i: int| 0 <= i < specs.len() ==> #[trigger] specs[i] is Named
}

/// Whether `decls` are the imports of the used names, source by source in
/// the order of `entries`: for each source that provides a used name, one
/// declaration of the used names it provides, named, each once, in sorted
/// order.
pub open spec fn action_decls_ok(entries: Seq<(String, Vec<String>)>, used: Set<Seq<char>>, decls: Seq<(Seq<SpecifierV>, Seq<char>)>) -> bool
    decreases entries.len(),
{
    if entries.len() == 0 {
        decls.len() == 0
    } else {
        let picked = views(entries.last().1@).to_set().intersect(used);
        if picked == Set::<Seq<char>>::empty() {
            action_decls_ok(entries.drop_last(), used, decls)
        } else {
            &&& decls.len() > 0
            &&& action_decls_ok(entries.drop_last(), used, decls.drop_last())
            &&& decls.last().1 == entries.last().0@
            &&& all_named(decls.last().0)
            &&& strictly_sorted(specifier_names(decls.last().0))
            &&& specifier_names(decls.last().0).to_set() == picked
        }
    }
}

proof fn lemma_views_take_set(v: Seq<String>, j: int)
    requires
        0 <= j < v.len(),
    ensures
        views(v.take(j + 1)).to_set() == views(v.take(j)).to_set().insert(v[j]@),
{
    let a = views(v.take(j));
    let b = views(v.take(j + 1));
    assert(b =~= a.push(v[j]@));
    assert forall|x: Seq<char>| b.contains(x) <==> a.contains(x) || x == v[j]@ by {
        if b.contains(x) {
            let k = choose|k: int| 0 <= k < b.len() && b[k] == x;
            if k < j {
                assert(a[k] == x);
            }
        }
        if a.contains(x) {
            let k = choose|k: int| 0 <= k < a.len() && a[k] == x;
            assert(b[k] == x);
        }
        if x == v[j]@ {
            assert(b[j] == x);
        }
    }
    assert(b.to_set() =~= a.to_set().insert(v[j]@));
}

/// The named specifiers of a list of names.
fn named_specifiers(names: &Vec<String>) -> (r: Vec<ImportSpecifier>)
    ensures
        r@.map_values(|sp: ImportSpecifier| specifier_view(sp)).len() == names@.len(),
        all_named(r@.map_values(|sp: ImportSpecifier| specifier_view(sp))),
        specifier_names(r@.map_values(|sp: ImportSpecifier| specifier_view(sp))) == views(names@),
{
    let mut r: Vec<ImportSpecifier> = Vec::new();
    let mut i: usize = 0;
    while i < names.len()
        invariant
            i <= names@.len(),
            r@.len() == i,
            forall|k: int| 0 <= k < i ==> #[trigger] specifier_view(r@[k]) == SpecifierV::Named(names@[k]@),
        decreases names@.len() - i,
    {
        r.push(ImportSpecifier::Named(owned(names[i].as_str())));
        i += 1;
    }
    let ghost sv = r@.map_values(|sp: ImportSpecifier| specifier_view(sp));
    assert(specifier_names(sv) =~= views(names@));
    r
}

/// The import declarations of the names in `used`, one per source of
/// `imports` that provides any of them, in the order of the sources.
pub fn action_import_decls(imports: &KeyedMap<Vec<String>>, used: &Vec<String>) -> (r: Vec<ImportDecl>)
    ensures
        action_decls_ok(imports.entries(), views(used@).to_set(), imports_view(r@)),
{
    let ghost used_set = views(used@).to_set();
    let pairs = imports.pairs();
    let mut decls: Vec<ImportDecl> = Vec::new();
    let mut i: usize = 0;
    assert(imports_view(decls@) =~= Seq::<(Seq<SpecifierV>, Seq<char>)>::empty());
    assert(pairs@.take(0) =~= Seq::<(String, Vec<String>)>::empty());
    while i < pairs.len()
        invariant
            i <= pairs@.len(),
            pairs@ == imports.entries(),
            used_set == views(used@).to_set(),
            action_decls_ok(pairs@.take(i as int), used_set, imports_view(decls@)),
        decreases pairs@.len() - i,
    {
        let list = &pairs[i].1;
        let mut names: Vec<String> = Vec::new();
        let mut j: usize = 0;
        assert(views(list@.take(0)).to_set() =~= Set::<Seq<char>>::empty());
        assert(views(names@).to_set() =~= Set::<Seq<char>>::empty());
        while j < list.len()
            invariant
                j <= list@.len(),
                used_set == views(used@).to_set(),
                strictly_sorted(views(names@)),
                views(names@).to_set() == views(list@.take(j as int)).to_set().intersect(used_set),
            decreases list@.len() - j,
        {
            proof {
                lemma_views_take_set(list@, j as int);
            }
            if contains_name(used, list[j].as_str()) {
                insert_sorted(&mut names, owned(list[j].as_str()));
                assert(views(names@).to_set() =~= views(list@.take(j + 1)).to_set().intersect(used_set));
            } else {
                assert(views(names@).to_set() =~= views(list@.take(j + 1)).to_set().intersect(used_set));
            }
            j += 1;
        }
        assert(list@.take(list@.len() as int) =~= list@);
        let ghost picked = views(list@).to_set().intersect(used_set);
        assert(pairs@.take(i + 1).drop_last() =~= pairs@.take(i as int));
        assert(pairs@.take(i + 1).last() == pairs@[i as int]);
        if names.len() > 0 {
            assert(picked.contains(views(names@)[0]));
            let specifiers = named_specifiers(&names);
            let d = ImportDecl { specifiers, src: owned(pairs[i].0.as_str()) };
            let ghost before = decls@;
            decls.push(d);
            assert(imports_view(decls@) =~= imports_view(before).push(import_view(d)));
            assert(imports_view(decls@).drop_last() =~= imports_view(before));
        } else {
            assert(views(names@) =~= Seq::<Seq<char>>::empty());
            assert(picked =~= Set::<Seq<char>>::empty());
        }
        i += 1;
    }
    assert(pairs@.take(pairs@.len() as int) =~= pairs@);
    decls
}

impl InjectShadcnUiVisitor {
    /// The import declarations of the names in `used`, one per source that
    /// provides any of them.
    pub fn get_action_imports(&self, used: &Vec<String>) -> (r: Vec<ImportDecl>)
        ensures
            action_decls_ok(self.action_imports.entries(), views(used@).to_set(), imports_view(r@)),
    {
        action_import_decls(&self.action_imports, used)
    }
}

/// The component that a wrapper imports from a module of its own: the
/// module, the local name, and the specifier. A dialog imports the
/// component it shows, or the TSX or JSX file it names.
pub open spec fn wrapper_import(w: ComponentWrapper) -> Option<(Seq<char>, Seq<char>, SpecifierV)> {
    match w {
        ComponentWrapper::Dialog(o) => match o.content {
            Some(DialogContent::TsxImport { import_path, import_name }) => {
                let local = import_local_name(import_path@, opt_seq(import_name));
                Some((import_path@, local, match import_name {
                    Some(n) => SpecifierV::Named(n@),
                    None => SpecifierV::Default(local),
                }))
            },
            Some(DialogContent::Uri(u)) => if ends_with(u@, ".tsx"@) || ends_with(u@, ".jsx"@) {
                let local = import_local_name(u@, None);
                Some((u@, local, SpecifierV::Default(local)))
            } else {
                None
            },
            _ => None,
        },
        _ => None,
    }
}

/// The imports of the wrappers from `k` on, in order, each module and local
/// name once; `seen` holds those imported before.
pub open spec fn wrapper_decls(entries: Seq<(String, ComponentWrapper)>, k: int, seen: Set<(Seq<char>, Seq<char>)>) -> Seq<(Seq<SpecifierV>, Seq<char>)>
    decreases entries.len() - k,
{
    if k < 0 || k >= entries.len() {
        seq![]
    } else {
        match wrapper_import(entries[k].1) {
            Some(imp) => if seen.contains((imp.0, imp.1)) {
                wrapper_decls(entries, k + 1, seen)
            } else {
                seq![(seq![imp.2], imp.0)] + wrapper_decls(entries, k + 1, seen.insert((imp.0, imp.1)))
            },
            None => wrapper_decls(entries, k + 1, seen),
        }
    }
}

/// The pairs of a list as a set of views.
pub open spec fn pair_set(v: Seq<(String, String)>) -> Set<(Seq<char>, Seq<char>)> {
    v.map_values(|p: (String, String)| (p.0@, p.1@)).to_set()
}

fn contains_pair(v: &Vec<(String, String)>, a: &str, b: &str) -> (r: bool)
    ensures
        r == pair_set(v@).contains((a@, b@)),
{
    let ghost m = v@.map_values(|p: (String, String)| (p.0@, p.1@));
    let mut i: usize = 0;
    while i < v.len()
        invariant
            i <= v@.len(),
            m == v@.map_values(|p: (String, String)| (p.0@, p.1@)),
            forall|k: int| 0 <= k < i ==> #[trigger] m[k] != (a@, b@),
        decreases v@.len() - i,
    {
        if str_eq(v[i].0.as_str(), a) && str_eq(v[i].1.as_str(), b) {
            assert(m[i as int] == (a@, b@));
            return true;
        }
        i += 1;
    }
    assert(!m.contains((a@, b@))) by {
        if m.contains((a@, b@)) {
            let k = choose|k: int| 0 <= k < m.len() && m[k] == (a@, b@);
            assert(m[k] != (a@, b@));
        }
    }
    false
}

fn push_pair(v: &mut Vec<(String, String)>, a: String, b: String)
    ensures
        pair_set(final(v)@) == pair_set(old(v)@).insert((a@, b@)),
{
    let ghost m0 = old(v)@.map_values(|p: (String, String)| (p.0@, p.1@));
    let ghost e = (a@, b@);
    v.push((a, b));
    let ghost m = v@.map_values(|p: (String, String)| (p.0@, p.1@));
    assert(m =~= m0.push(e));
    assert forall|x: (Seq<char>, Seq<char>)| m.contains(x) <==> m0.contains(x) || x == e by {
        if m.contains(x) {
            let k = choose|k: int| 0 <= k < m.len() && m[k] == x;
            if k < m0.len() {
                assert(m0[k] == x);
            }
        }
        if m0.contains(x) {
            let k = choose|k: int| 0 <= k < m0.len() && m0[k] == x;
            assert(m[k] == x);
        }
        if x == e {
            assert(m[m0.len() as int] == x);
        }
    }
    assert(m.to_set() =~= m0.to_set().insert(e));
}

/// What a wrapper imports from a module of its own; see `wrapper_import`.
fn wrapper_import_of(w: &ComponentWrapper) -> (r: Option<(String, String, ImportSpecifier)>)
    ensures
        match wrapper_import(*w) {
            Some(imp) => r is Some && r.unwrap().0@ == imp.0 && r.unwrap().1@ == imp.1 && specifier_view(r.unwrap().2) == imp.2,
            None => r is None,
        },
{
    match w {
        ComponentWrapper::Dialog(o) => match &o.content {
            Some(DialogContent::TsxImport { import_path, import_name }) => {
                let name: Option<&str> = match import_name {
                    Some(n) => Some(n.as_str()),
                    None => None,
                };
                let local = derive_import_local_name(import_path.as_str(), name);
                let spec = match import_name {
                    Some(n) => ImportSpecifier::Named(owned(n.as_str())),
                    None => ImportSpecifier::Default(owned(local.as_str())),
                };
                Some((owned(import_path.as_str()), local, spec))
            },
            Some(DialogContent::Uri(u)) => {
                if str_ends_with(u.as_str(), ".tsx") || str_ends_with(u.as_str(), ".jsx") {
                    let local = derive_import_local_name(u.as_str(), None);
                    let spec = ImportSpecifier::Default(owned(local.as_str()));
                    Some((owned(u.as_str()), local, spec))
                } else {
                    None
                }
            },
            _ => None,
        },
        _ => None,
    }
}

impl InjectShadcnUiVisitor {
    /// The imports of the components that the wrappers take from modules of
    /// their own, such as the component a dialog shows.
    pub fn get_wrapper_specific_imports(&self) -> (r: Vec<ImportDecl>)
        ensures
            imports_view(r@) == wrapper_decls(self.component_wrappers.entries(), 0, Set::empty()),
    {
        let pairs = self.component_wrappers.pairs();
        let ghost entries = pairs@;
        let mut seen: Vec<(String, String)> = Vec::new();
        let mut decls: Vec<ImportDecl> = Vec::new();
        let mut i: usize = 0;
        assert(pair_set(seen@) =~= Set::<(Seq<char>, Seq<char>)>::empty()) by {
            assert(seen@.map_values(|p: (String, String)| (p.0@, p.1@)) =~= Seq::<(Seq<char>, Seq<char>)>::empty());
        }
        assert(imports_view(decls@) =~= Seq::<(Seq<SpecifierV>, Seq<char>)>::empty());
        while i < pairs.len()
            invariant
                i <= entries.len(),
                entries == pairs@,
                entries == self.component_wrappers.entries(),
                imports_view(decls@) + wrapper_decls(entries, i as int, pair_set(seen@)) == wrapper_decls(entries, 0, Set::empty()),
            decreases entries.len() - i,
        {
            let ghost before = decls@;
            let ghost seen0 = pair_set(seen@);
            match wrapper_import_of(&pairs[i].1) {
                Some((path, local, spec)) => {
                    if !contains_pair(&seen, path.as_str(), local.as_str()) {
                        let ghost key = (path@, local@);
                        let d = ImportDecl { specifiers: vec![spec], src: owned(path.as_str()) };
                        push_pair(&mut seen, path, local);
                        decls.push(d);
                        assert(import_view(d).0 =~= seq![specifier_view(spec)]);
                        assert(imports_view(decls@) =~= imports_view(before).push(import_view(d)));
                        assert(imports_view(decls@) + wrapper_decls(entries, i + 1, pair_set(seen@))
                            =~= imports_view(before) + wrapper_decls(entries, i as int, seen0));
                    }
                },
                None => {},
            }
            i += 1;
        }
        assert(wrapper_decls(entries, i as int, pair_set(seen@)) =~= Seq::<(Seq<SpecifierV>, Seq<char>)>::empty());
        decls
    }
}

/// The routing library of a link, Next.js where none is given.
pub open spec fn library_of(o: LinkOptions) -> RoutingLibrary {
    match o.routing_library {
        Some(l) => l,
        None => RoutingLibrary::NextJs,
    }
}

/// The routing libraries of the link wrappers, in order.
pub open spec fn link_libs(entries: Seq<(String, ComponentWrapper)>) -> Seq<RoutingLibrary>
    decreases entries.len(),
{
    if entries.len() == 0 {
        seq![]
    } else {
        let rest = link_libs(entries.drop_last());
        match entries.last().1 {
            ComponentWrapper::Link(o) => rest.push(library_of(o)),
            _ => rest,
        }
    }
}

/// The imports of the link components of routing libraries.
pub open spec fn link_pairs(libs: Seq<RoutingLibrary>) -> Seq<(Seq<char>, Seq<char>)>
    decreases libs.len(),
{
    if libs.len() == 0 {
        seq![]
    } else {
        let rest = link_pairs(libs.drop_last());
        match link_source(libs.last()) {
            Some(p) => rest.push(("Link"@, p)),
            None => rest,
        }
    }
}

impl InjectShadcnUiVisitor {
    /// The routing libraries of the link wrappers, in order.
    fn link_libraries(&self) -> (r: Vec<RoutingLibrary>)
        ensures
            r@ == link_libs(self.component_wrappers.entries()),
    {
        let pairs = self.component_wrappers.pairs();
        let mut libs: Vec<RoutingLibrary> = Vec::new();
        let mut i: usize = 0;
        assert(pairs@.take(0) =~= Seq::<(String, ComponentWrapper)>::empty());
        while i < pairs.len()
            invariant
                i <= pairs@.len(),
                pairs@ == self.component_wrappers.entries(),
                libs@ == link_libs(pairs@.take(i as int)),
            decreases pairs@.len() - i,
        {
            assert(pairs@.take(i + 1).drop_last() =~= pairs@.take(i as int));
            match &pairs[i].1 {
                ComponentWrapper::Link(o) => {
                    let lib = match o.routing_library {
                        Some(l) => l,
                        None => RoutingLibrary::NextJs,
                    };
                    libs.push(lib);
                },
                _ => {},
            }
            i += 1;
        }
        assert(pairs@.take(pairs@.len() as int) =~= pairs@);
        libs
    }

    /// Wraps the elements of a module and adds the imports they need: where
    /// no import source is registered, the default ones are first; the link
    /// components of the routing libraries in use are added; then the
    /// imports of the used names, and those of the components the wrappers
    /// take from modules of their own, go before the module's own imports.
    pub fn visit_module<F: Fn(&String) -> Option<String>>(&mut self, module: &mut TsxModule, read_file: &F)
        requires
            forall|p: &String| #[trigger] read_file.requires((p,)),
        ensures
            final(self).component_wrappers@ == old(self).component_wrappers@,
            final(self).component_wrappers.entries() == old(self).component_wrappers.entries(),
            final(self).spec_imports() == add_imports(
                if old(self).action_imports@.dom().len() == 0 {
                    add_imports(old(self).spec_imports(), default_import_pairs())
                } else {
                    old(self).spec_imports()
                },
                link_pairs(link_libs(old(self).component_wrappers.entries())),
            ),
            final(module).elements@.len() == old(module).elements@.len(),
            forall|i: int| 0 <= i < old(module).elements@.len() ==> tree_wrapped(
                old(self).component_wrappers@,
                *read_file,
                el_view(#[trigger] old(module).elements@[i]),
                el_view(final(module).elements@[i]),
            ),
            exists|acts: Seq<(Seq<SpecifierV>, Seq<char>)>| {
                &&& action_decls_ok(final(self).action_imports.entries(), used_names(old(self).component_wrappers.entries()).to_set(), acts)
                &&& imports_view(final(module).imports@) == acts + wrapper_decls(old(self).component_wrappers.entries(), 0, Set::empty())
                    + imports_view(old(module).imports@)
            },
    {
        if self.action_imports.is_empty() {
            self.register_default_imports();
        }
        let ghost base = self.spec_imports();
        let used = self.used_actions();
        let libs = self.link_libraries();
        let mut i: usize = 0;
        assert(libs@.take(0) =~= Seq::<RoutingLibrary>::empty());
        while i < libs.len()
            invariant
                i <= libs@.len(),
                libs@ == link_libs(old(self).component_wrappers.entries()),
                self.component_wrappers == old(self).component_wrappers,
                self.spec_imports() == add_imports(base, link_pairs(libs@.take(i as int))),
            decreases libs@.len() - i,
        {
            assert(libs@.take(i + 1).drop_last() =~= libs@.take(i as int));
            assert(libs@.take(i + 1).last() == libs@[i as int]);
            let ghost prev = link_pairs(libs@.take(i as int));
            self.register_link_imports(&libs[i]);
            proof {
                match link_source(libs@[i as int]) {
                    Some(p) => {
                        assert(link_pairs(libs@.take(i + 1)) == prev.push(("Link"@, p)));
                        assert(prev.push(("Link"@, p)).drop_last() =~= prev);
                    },
                    None => {
                        assert(link_pairs(libs@.take(i + 1)) == prev);
                    },
                }
            }
            i += 1;
        }
        assert(libs@.take(libs@.len() as int) =~= libs@);
        let ghost elements0 = module.elements@;
        let mut k: usize = 0;
        while k < module.elements.len()
            invariant
                k <= module.elements@.len(),
                module.elements@.len() == elements0.len(),
                module.imports@ == old(module).imports@,
                self.component_wrappers == old(self).component_wrappers,
                forall|p: &String| #[trigger] read_file.requires((p,)),
                forall|j: int| k <= j < elements0.len() ==> module.elements@[j] == elements0[j],
                forall|j: int| 0 <= j < k ==> tree_wrapped(
                    old(self).component_wrappers@,
                    *read_file,
                    el_view(#[trigger] elements0[j]),
                    el_view(module.elements@[j]),
                ),
            decreases module.elements@.len() - k,
        {
            let r = self.wrap_tree(&module.elements[k], read_file);
            module.elements.set(k, r);
            k += 1;
        }
        let acts = self.get_action_imports(&used);
        let mut imports = acts;
        let ghost a = imports_view(imports@);
        let mut extra = self.get_wrapper_specific_imports();
        let ghost w = imports_view(extra@);
        let ghost a_decls = imports@;
        let ghost w_decls = extra@;
        imports.append(&mut extra);
        assert(imports_view(imports@) =~= a + w) by {
            assert(imports@ == a_decls + w_decls);
        }
        let ghost o = imports_view(module.imports@);
        prepend_imports(&mut module.imports, imports);
        assert(imports_view(module.imports@) == a + w + o);
        assert(action_decls_ok(self.action_imports.entries(), used_names(old(self).component_wrappers.entries()).to_set(), a));
    }
}

/// Registering an import that is already registered changes nothing.
pub proof fn law_import_registration_idempotent(m: Map<Seq<char>, Set<Seq<char>>>, action: Seq<char>, path: Seq<char>)
    ensures
        add_import(add_import(m, action, path), action, path) == add_import(m, action, path),
{
    let once = add_import(m, action, path);
    assert(once[path].insert(action) =~= once[path]);
    assert(add_import(once, action, path) =~= once);
}

/// The imports registered do not depend on the order of registration.
pub proof fn law_import_registration_commutes(m: Map<Seq<char>, Set<Seq<char>>>, a: Seq<char>, p: Seq<char>, b: Seq<char>, q: Seq<char>)
    ensures
        add_import(add_import(m, a, p), b, q) == add_import(add_import(m, b, q), a, p),
{
    let left = add_import(add_import(m, a, p), b, q);
    let right = add_import(add_import(m, b, q), a, p);
    if p == q {
        let base = if m.contains_key(p) { m[p] } else { Set::<Seq<char>>::empty() };
        assert(left[p] =~= base.insert(a).insert(b));
        assert(right[p] =~= base.insert(b).insert(a));
        assert(base.insert(a).insert(b) =~= base.insert(b).insert(a));
        assert(left.dom() =~= right.dom());
        assert forall|k: Seq<char>| left.contains_key(k) implies left[k] == right[k] by {
            if k != p {
                assert(left[k] == m[k]);
                assert(right[k] == m[k]);
            }
        }
        assert(left =~= right);
    } else {
        let bp = if m.contains_key(p) { m[p] } else { Set::<Seq<char>>::empty() };
        let bq = if m.contains_key(q) { m[q] } else { Set::<Seq<char>>::empty() };
        assert(left[p] =~= bp.insert(a));
        assert(right[p] =~= bp.insert(a));
        assert(left[q] =~= bq.insert(b));
        assert(right[q] =~= bq.insert(b));
        assert(left.dom() =~= right.dom());
        assert forall|k: Seq<char>| left.contains_key(k) implies left[k] == right[k] by {
            if k != p && k != q {
                assert(left[k] == m[k]);
                assert(right[k] == m[k]);
            }
        }
        assert(left =~= right);
    }
}

} // verus!
