//! shadcn/ui components wrapped around elements of a design, built as JSX
//! trees.

use vstd::prelude::*;
use crate::jsx::{
    attr_view, attrs_view, child_view, children_view, el, el_view, element, flag, flag_of, no_attrs, no_children, number_attr_of,
    one_attr, opt_number_attr, opt_str_attr, push_attr, push_child, str_attr, str_attr_of, text_element, JsxAttr,
    JsxChild, JsxElement, JsxValue, NodeV, ValueV,
};
use crate::string_map::StringMap;
use crate::text::{ends_with, owned, str_ends_with};
use crate::tsx::dialog::{derive_import_local_name, import_local_name};

verus! {

/// A `div` whose inner HTML is `content`.
pub open spec fn inner_html_div(content: Seq<char>) -> NodeV {
    el("div"@, seq![("dangerouslySetInnerHTML"@, Some(ValueV::InnerHtml(content)))], seq![])
}

/// A `div` element whose inner HTML is `content`.
pub fn dangerous_html_node(content: String) -> (r: JsxElement)
    ensures
        el_view(r) == inner_html_div(content@),
{
    let attrs = one_attr(JsxAttr { name: owned("dangerouslySetInnerHTML"), value: Some(JsxValue::InnerHtml(content)) });
    element("div", attrs, no_children())
}

/// The `Trigger` part of a component around the trigger element.
pub open spec fn trigger_part(name: Seq<char>, trigger: NodeV) -> NodeV {
    el(name, seq![flag("asChild"@)], seq![trigger])
}

fn trigger_of(name: &str, trigger: JsxElement) -> (r: JsxElement)
    ensures
        el_view(r) == trigger_part(name@, el_view(trigger)),
{
    let mut children = no_children();
    push_child(&mut children, JsxChild::Element(trigger));
    element(name, one_attr(flag_of("asChild")), children)
}

/// A text child of the given text.
pub open spec fn one_text(t: Seq<char>) -> Seq<NodeV> {
    seq![NodeV::Text(t)]
}

// ---------------------------------------------------------------- hover card

/// The options of a hover card.
#[derive(Debug, Clone)]
pub struct HoverCardOptions {
    pub id: String,
    pub trigger_id: Option<String>,
    pub title: Option<String>,
    pub description: Option<String>,
    pub content: Option<String>,
    pub open_delay: Option<u32>,
    pub close_delay: Option<u32>,
}

/// The content of a hover card: its title, description and HTML, each where
/// given.
pub open spec fn hover_card_content(o: HoverCardOptions) -> Seq<NodeV> {
    (match o.title {
        Some(t) => seq![el("div"@, seq![str_attr("className"@, "font-medium"@)], one_text(t@))],
        None => seq![],
    }) + (match o.description {
        Some(d) => seq![el("p"@, seq![str_attr("className"@, "text-sm text-muted-foreground"@)], one_text(d@))],
        None => seq![],
    }) + (match o.content {
        Some(c) => seq![inner_html_div(c@)],
        None => seq![],
    })
}

/// The hover card around a trigger.
pub open spec fn hover_card(trigger: NodeV, o: HoverCardOptions) -> NodeV {
    el(
        "HoverCard"@,
        opt_number_attr("openDelay"@, o.open_delay) + opt_number_attr("closeDelay"@, o.close_delay),
        seq![
            trigger_part("HoverCardTrigger"@, trigger),
            el("HoverCardContent"@, seq![str_attr("className"@, "w-80 p-4"@)], hover_card_content(o)),
        ],
    )
}

/// A hover card that shows the options' title, description and HTML when
/// the trigger element is hovered.
pub fn create_hover_card_component(trigger_element: JsxElement, options: &HoverCardOptions) -> (r: JsxElement)
    ensures
        el_view(r) == hover_card(el_view(trigger_element), *options),
{
    let ghost tv = el_view(trigger_element);
    let mut attrs = no_attrs();
    match options.open_delay {
        Some(d) => push_attr(&mut attrs, number_attr_of("openDelay", d as u64)),
        None => {},
    }
    match options.close_delay {
        Some(d) => push_attr(&mut attrs, number_attr_of("closeDelay", d as u64)),
        None => {},
    }
    assert(attrs_view(attrs@) =~= opt_number_attr("openDelay"@, options.open_delay) + opt_number_attr("closeDelay"@, options.close_delay));
    let trigger = trigger_of("HoverCardTrigger", trigger_element);
    let mut content = no_children();
    match &options.title {
        Some(t) => push_child(&mut content, JsxChild::Element(text_element("div", one_attr(str_attr_of("className", "font-medium")), t.as_str()))),
        None => {},
    }
    match &options.description {
        Some(d) => push_child(
            &mut content,
            JsxChild::Element(text_element("p", one_attr(str_attr_of("className", "text-sm text-muted-foreground")), d.as_str())),
        ),
        None => {},
    }
    match &options.content {
        Some(c) => push_child(&mut content, JsxChild::Element(dangerous_html_node(c.clone()))),
        None => {},
    }
    assert(children_view(content@) =~= hover_card_content(*options));
    let content_el = element("HoverCardContent", one_attr(str_attr_of("className", "w-80 p-4")), content);
    let mut children = no_children();
    push_child(&mut children, JsxChild::Element(trigger));
    push_child(&mut children, JsxChild::Element(content_el));
    assert(children_view(children@) =~= seq![trigger_part("HoverCardTrigger"@, tv), el("HoverCardContent"@, seq![str_attr("className"@, "w-80 p-4"@)], hover_card_content(*options))]);
    element("HoverCard", attrs, children)
}

// ---------------------------------------------------------------- tooltip

/// The options of a tooltip.
#[derive(Debug, Clone)]
pub struct TooltipOptions {
    pub id: String,
    pub trigger_id: Option<String>,
    pub content: String,
    pub side: Option<String>,
    pub align: Option<String>,
    pub delay_duration: Option<u32>,
    pub skip_delay_duration: Option<u32>,
}

impl TooltipOptions {
    /// Options with no content, side, alignment or delays.
    pub fn new() -> (r: TooltipOptions)
        ensures
            r.id@.len() == 0,
            r.trigger_id is None,
            r.content@.len() == 0,
            r.side is None,
            r.align is None,
            r.delay_duration is None,
            r.skip_delay_duration is None,
    {
        TooltipOptions {
            id: String::new(),
            trigger_id: None,
            content: String::new(),
            side: None,
            align: None,
            delay_duration: None,
            skip_delay_duration: None,
        }
    }
}

/// The tooltip around a trigger.
pub open spec fn tooltip(trigger: NodeV, o: TooltipOptions) -> NodeV {
    el(
        "Tooltip"@,
        seq![],
        seq![
            trigger_part("TooltipTrigger"@, trigger),
            el("TooltipContent"@, opt_str_attr("side"@, o.side) + opt_str_attr("align"@, o.align), one_text(o.content@)),
        ],
    )
}

/// A tooltip with the options' content, on the given side and alignment.
pub fn create_tooltip_component(trigger_element: JsxElement, options: &TooltipOptions) -> (r: JsxElement)
    ensures
        el_view(r) == tooltip(el_view(trigger_element), *options),
{
    let ghost tv = el_view(trigger_element);
    let mut attrs = no_attrs();
    match &options.side {
        Some(s) => push_attr(&mut attrs, str_attr_of("side", s.as_str())),
        None => {},
    }
    match &options.align {
        Some(a) => push_attr(&mut attrs, str_attr_of("align", a.as_str())),
        None => {},
    }
    assert(attrs_view(attrs@) =~= opt_str_attr("side"@, options.side) + opt_str_attr("align"@, options.align));
    let trigger = trigger_of("TooltipTrigger", trigger_element);
    let content = text_element("TooltipContent", attrs, options.content.as_str());
    let mut children = no_children();
    push_child(&mut children, JsxChild::Element(trigger));
    push_child(&mut children, JsxChild::Element(content));
    assert(children_view(children@) =~= seq![
        trigger_part("TooltipTrigger"@, tv),
        el("TooltipContent"@, opt_str_attr("side"@, options.side) + opt_str_attr("align"@, options.align), one_text(options.content@)),
    ]);
    element("Tooltip", no_attrs(), children)
}

/// A tooltip is a `Tooltip` holding the trigger and then a `TooltipContent`
/// with the options' content; the content carries a `side` attribute with
/// the requested side exactly when a side is requested, and an `align`
/// attribute with the requested alignment exactly when one is requested.
pub proof fn law_tooltip_side_and_align(trigger: NodeV, o: TooltipOptions)
    ensures
        ({
            let t = tooltip(trigger, o);
            &&& t is El && t->name == "Tooltip"@
            &&& t->children.len() == 2
            &&& t->children[0] == el("TooltipTrigger"@, seq![flag("asChild"@)], seq![trigger])
            &&& ({
                let c = t->children[1];
                &&& c is El && c->name == "TooltipContent"@
                &&& c->children == seq![NodeV::Text(o.content@)]
                &&& (o.side matches Some(s) ==> c->attrs.contains(("side"@, Some(ValueV::Str(s@)))))
                &&& (o.align matches Some(a) ==> c->attrs.contains(("align"@, Some(ValueV::Str(a@)))))
                &&& (o.side is None ==> forall|i: int| 0 <= i < c->attrs.len() ==> #[trigger] c->attrs[i].0 != "side"@)
                &&& (o.align is None ==> forall|i: int| 0 <= i < c->attrs.len() ==> #[trigger] c->attrs[i].0 != "align"@)
            })
        }),
{
    reveal_strlit("side");
    reveal_strlit("align");
    let t = tooltip(trigger, o);
    let c = t->children[1];
    let sa = opt_str_attr("side"@, o.side);
    let aa = opt_str_attr("align"@, o.align);
    assert(c->attrs == sa + aa);
    if o.side is Some {
        assert(c->attrs[0] == ("side"@, Some(ValueV::Str(o.side->0@))));
    }
    if o.align is Some {
        let k = sa.len() as int;
        assert(c->attrs[k] == ("align"@, Some(ValueV::Str(o.align->0@))));
    }
    assert("side"@ != "align"@) by {
        assert("side"@.len() != "align"@.len());
    }
}

// ---------------------------------------------------------------- button

/// The options of a button.
#[derive(Debug, Clone)]
pub struct ButtonOptions {
    pub id: String,
    pub label: String,
    pub variant: Option<String>,
    pub action: Option<String>,
}

/// The button made of a trigger: labelled with the options' label, or
/// holding the trigger where the label is empty.
pub open spec fn button(trigger: NodeV, o: ButtonOptions) -> NodeV {
    el(
        "Button"@,
        opt_str_attr("variant"@, o.variant),
        if o.label@.len() > 0 { one_text(o.label@) } else { seq![trigger] },
    )
}

/// A button in the options' variant.
pub fn create_button_component(trigger_element: JsxElement, options: &ButtonOptions) -> (r: JsxElement)
    ensures
        el_view(r) == button(el_view(trigger_element), *options),
{
    let mut attrs = no_attrs();
    match &options.variant {
        Some(v) => push_attr(&mut attrs, str_attr_of("variant", v.as_str())),
        None => {},
    }
    assert(attrs_view(attrs@) =~= opt_str_attr("variant"@, options.variant));
    let mut children = no_children();
    if options.label.unicode_len() > 0 {
        push_child(&mut children, crate::jsx::text_child(options.label.as_str()));
    } else {
        push_child(&mut children, JsxChild::Element(trigger_element));
    }
    element("Button", attrs, children)
}

// ---------------------------------------------------------------- sheet

/// A button of a sheet's footer.
#[derive(Debug, Clone)]
pub struct SheetButton {
    pub label: String,
    pub variant: Option<String>,
    pub action: Option<String>,
}

/// The options of a sheet.
#[derive(Debug, Clone)]
pub struct SheetOptions {
    pub id: String,
    pub trigger_id: Option<String>,
    pub title: Option<String>,
    pub description: Option<String>,
    /// `top`, `right`, `bottom` or `left`.
    pub side: Option<String>,
    pub content: Option<String>,
    pub has_footer: Option<bool>,
    pub footer_buttons: Option<Vec<SheetButton>>,
}

/// The header of a sheet: its title and description, each where given.
pub open spec fn sheet_header(o: SheetOptions) -> Seq<NodeV> {
    (match o.title {
        Some(t) => seq![el("SheetTitle"@, seq![], one_text(t@))],
        None => seq![],
    }) + (match o.description {
        Some(d) => seq![el("SheetDescription"@, seq![], one_text(d@))],
        None => seq![],
    })
}

/// The content of a sheet: a header where there is a title or description,
/// and the HTML where given.
pub open spec fn sheet_content(o: SheetOptions) -> Seq<NodeV> {
    (if o.title is Some || o.description is Some { seq![el("SheetHeader"@, seq![], sheet_header(o))] } else { seq![] })
        + (match o.content {
        Some(c) => seq![inner_html_div(c@)],
        None => seq![],
    })
}

/// The sheet around a trigger.
pub open spec fn sheet(trigger: NodeV, o: SheetOptions) -> NodeV {
    el(
        "Sheet"@,
        seq![],
        seq![trigger_part("SheetTrigger"@, trigger), el("SheetContent"@, opt_str_attr("side"@, o.side), sheet_content(o))],
    )
}

/// A sheet that slides in from the options' side with their title,
/// description and HTML.
pub fn create_sheet_component(trigger_element: JsxElement, options: &SheetOptions) -> (r: JsxElement)
    ensures
        el_view(r) == sheet(el_view(trigger_element), *options),
{
    let ghost tv = el_view(trigger_element);
    let trigger = trigger_of("SheetTrigger", trigger_element);
    let mut attrs = no_attrs();
    match &options.side {
        Some(s) => push_attr(&mut attrs, str_attr_of("side", s.as_str())),
        None => {},
    }
    assert(attrs_view(attrs@) =~= opt_str_attr("side"@, options.side));
    let mut content = no_children();
    if options.title.is_some() || options.description.is_some() {
        let mut header = no_children();
        match &options.title {
            Some(t) => push_child(&mut header, JsxChild::Element(text_element("SheetTitle", no_attrs(), t.as_str()))),
            None => {},
        }
        match &options.description {
            Some(d) => push_child(&mut header, JsxChild::Element(text_element("SheetDescription", no_attrs(), d.as_str()))),
            None => {},
        }
        assert(children_view(header@) =~= sheet_header(*options));
        push_child(&mut content, JsxChild::Element(element("SheetHeader", no_attrs(), header)));
    }
    match &options.content {
        Some(c) => push_child(&mut content, JsxChild::Element(dangerous_html_node(c.clone()))),
        None => {},
    }
    assert(children_view(content@) =~= sheet_content(*options));
    let content_el = element("SheetContent", attrs, content);
    let mut children = no_children();
    push_child(&mut children, JsxChild::Element(trigger));
    push_child(&mut children, JsxChild::Element(content_el));
    assert(children_view(children@) =~= seq![
        trigger_part("SheetTrigger"@, tv),
        el("SheetContent"@, opt_str_attr("side"@, options.side), sheet_content(*options)),
    ]);
    element("Sheet", no_attrs(), children)
}

// ---------------------------------------------------------------- drawer

/// The options of a drawer.
#[derive(Debug, Clone)]
pub struct DrawerOptions {
    pub id: String,
    pub title: Option<String>,
    pub description: Option<String>,
}

/// The header of a drawer: its title and description, each where given.
pub open spec fn drawer_header(o: DrawerOptions) -> Seq<NodeV> {
    (match o.title {
        Some(t) => seq![el("DrawerTitle"@, seq![], one_text(t@))],
        None => seq![],
    }) + (match o.description {
        Some(d) => seq![el("DrawerDescription"@, seq![], one_text(d@))],
        None => seq![],
    })
}

/// The footer of a drawer: an outline `Close` button.
pub open spec fn drawer_footer() -> NodeV {
    el(
        "DrawerFooter"@,
        seq![],
        seq![el("DrawerClose"@, seq![flag("asChild"@)], seq![el("Button"@, seq![str_attr("variant"@, "outline"@)], one_text("Close"@))])],
    )
}

/// The drawer around a trigger.
pub open spec fn drawer(trigger: NodeV, o: DrawerOptions) -> NodeV {
    el(
        "Drawer"@,
        seq![],
        seq![
            trigger_part("DrawerTrigger"@, trigger),
            el(
                "DrawerContent"@,
                seq![],
                (if o.title is Some || o.description is Some { seq![el("DrawerHeader"@, seq![], drawer_header(o))] } else { seq![] })
                    + seq![drawer_footer()],
            ),
        ],
    )
}

/// A drawer with the options' title and description and a close button.
pub fn create_drawer_component(trigger_element: JsxElement, options: &DrawerOptions) -> (r: JsxElement)
    ensures
        el_view(r) == drawer(el_view(trigger_element), *options),
{
    let ghost tv = el_view(trigger_element);
    let trigger = trigger_of("DrawerTrigger", trigger_element);
    let mut content = no_children();
    if options.title.is_some() || options.description.is_some() {
        let mut header = no_children();
        match &options.title {
            Some(t) => push_child(&mut header, JsxChild::Element(text_element("DrawerTitle", no_attrs(), t.as_str()))),
            None => {},
        }
        match &options.description {
            Some(d) => push_child(&mut header, JsxChild::Element(text_element("DrawerDescription", no_attrs(), d.as_str()))),
            None => {},
        }
        assert(children_view(header@) =~= drawer_header(*options));
        push_child(&mut content, JsxChild::Element(element("DrawerHeader", no_attrs(), header)));
    }
    let close_button = text_element("Button", one_attr(str_attr_of("variant", "outline")), "Close");
    let mut close_children = no_children();
    push_child(&mut close_children, JsxChild::Element(close_button));
    let close = element("DrawerClose", one_attr(flag_of("asChild")), close_children);
    let mut footer_children = no_children();
    push_child(&mut footer_children, JsxChild::Element(close));
    let footer = element("DrawerFooter", no_attrs(), footer_children);
    assert(el_view(footer) == drawer_footer());
    push_child(&mut content, JsxChild::Element(footer));
    assert(children_view(content@) =~= (if options.title is Some || options.description is Some {
        seq![el("DrawerHeader"@, seq![], drawer_header(*options))]
    } else {
        seq![]
    }) + seq![drawer_footer()]);
    let content_el = element("DrawerContent", no_attrs(), content);
    let mut children = no_children();
    push_child(&mut children, JsxChild::Element(trigger));
    push_child(&mut children, JsxChild::Element(content_el));
    assert(children_view(children@) =~= seq![trigger_part("DrawerTrigger"@, tv), el_view(content_el)]);
    element("Drawer", no_attrs(), children)
}

// ---------------------------------------------------------------- accordion

/// An item of an accordion.
#[derive(Debug, Clone)]
pub struct AccordionItem {
    pub id: String,
    pub title: String,
    pub content: String,
}

/// The options of an accordion.
#[derive(Debug, Clone)]
pub struct AccordionOptions {
    pub id: String,
    /// `single` or `multiple`.
    pub type_: Option<String>,
    pub collapsible: Option<bool>,
    pub items: Vec<AccordionItem>,
}

/// One item of an accordion: a trigger with its title, and its content.
pub open spec fn accordion_item(item: AccordionItem) -> NodeV {
    el(
        "AccordionItem"@,
        seq![str_attr("value"@, item.id@)],
        seq![el("AccordionTrigger"@, seq![], one_text(item.title@)), el("AccordionContent"@, seq![], one_text(item.content@))],
    )
}

/// The items of an accordion.
pub open spec fn accordion_items(items: Seq<AccordionItem>) -> Seq<NodeV> {
    items.map_values(|i: AccordionItem| accordion_item(i))
}

/// The accordion of the options' items.
pub open spec fn accordion(o: AccordionOptions) -> NodeV {
    el(
        "Accordion"@,
        opt_str_attr("type"@, o.type_) + match o.collapsible {
            Some(b) => seq![("collapsible"@, Some(ValueV::Bool(b)))],
            None => seq![],
        },
        accordion_items(o.items@),
    )
}

/// An accordion of the options' items; the element it is registered on is
/// replaced.
pub fn create_accordion_component(_trigger_element: JsxElement, options: &AccordionOptions) -> (r: JsxElement)
    ensures
        el_view(r) == accordion(*options),
{
    let mut attrs = no_attrs();
    match &options.type_ {
        Some(t) => push_attr(&mut attrs, str_attr_of("type", t.as_str())),
        None => {},
    }
    match options.collapsible {
        Some(b) => push_attr(&mut attrs, JsxAttr { name: owned("collapsible"), value: Some(JsxValue::Bool(b)) }),
        None => {},
    }
    let mut children = no_children();
    let mut i: usize = 0;
    while i < options.items.len()
        invariant
            i <= options.items@.len(),
            children_view(children@) == accordion_items(options.items@.take(i as int)),
        decreases options.items@.len() - i,
    {
        let item = &options.items[i];
        let trigger = text_element("AccordionTrigger", no_attrs(), item.title.as_str());
        let content = text_element("AccordionContent", no_attrs(), item.content.as_str());
        let mut item_children = no_children();
        push_child(&mut item_children, JsxChild::Element(trigger));
        push_child(&mut item_children, JsxChild::Element(content));
        assert(children_view(item_children@) =~= seq![
            el("AccordionTrigger"@, seq![], one_text(item.title@)),
            el("AccordionContent"@, seq![], one_text(item.content@)),
        ]);
        let item_el = element("AccordionItem", one_attr(str_attr_of("value", item.id.as_str())), item_children);
        assert(el_view(item_el) == accordion_item(*item));
        push_child(&mut children, JsxChild::Element(item_el));
        assert(accordion_items(options.items@.take(i + 1)) =~= accordion_items(options.items@.take(i as int)).push(accordion_item(options.items@[i as int])));
        i += 1;
    }
    assert(options.items@.take(options.items@.len() as int) == options.items@);
    assert(attrs_view(attrs@) =~= opt_str_attr("type"@, options.type_) + match options.collapsible {
        Some(b) => seq![("collapsible"@, Some(ValueV::Bool(b)))],
        None => seq![],
    });
    element("Accordion", attrs, children)
}

// ---------------------------------------------------------------- carousel

/// An item of a carousel.
#[derive(Debug, Clone)]
pub struct CarouselItem {
    pub id: String,
    pub content: String,
}

/// The options of a carousel.
#[derive(Debug, Clone)]
pub struct CarouselOptions {
    pub id: String,
    /// `horizontal` or `vertical`.
    pub orientation: Option<String>,
    /// Whether previous and next buttons are shown; they are by default.
    pub show_navigation: Option<bool>,
    pub items: Vec<CarouselItem>,
}

/// One item of a carousel.
pub open spec fn carousel_item(item: CarouselItem) -> NodeV {
    el("CarouselItem"@, seq![], seq![el("div"@, seq![str_attr("className"@, "p-1"@)], one_text(item.content@))])
}

/// The items of a carousel.
pub open spec fn carousel_items(items: Seq<CarouselItem>) -> Seq<NodeV> {
    items.map_values(|i: CarouselItem| carousel_item(i))
}

/// The carousel of the options' items.
pub open spec fn carousel(o: CarouselOptions) -> NodeV {
    el(
        "Carousel"@,
        opt_str_attr("orientation"@, o.orientation) + seq![str_attr("className"@, "w-full max-w-xs @container/carousel"@)],
        seq![el("CarouselContent"@, seq![], carousel_items(o.items@))] + if o.show_navigation != Some(false) {
            seq![el("CarouselPrevious"@, seq![], seq![]), el("CarouselNext"@, seq![], seq![])]
        } else {
            seq![]
        },
    )
}

/// A carousel of the options' items, with navigation unless turned off; the
/// element it is registered on is replaced.
pub fn create_carousel_component(_trigger_element: JsxElement, options: &CarouselOptions) -> (r: JsxElement)
    ensures
        el_view(r) == carousel(*options),
{
    let mut attrs = no_attrs();
    match &options.orientation {
        Some(o) => push_attr(&mut attrs, str_attr_of("orientation", o.as_str())),
        None => {},
    }
    push_attr(&mut attrs, str_attr_of("className", "w-full max-w-xs @container/carousel"));
    assert(attrs_view(attrs@) =~= opt_str_attr("orientation"@, options.orientation) + seq![str_attr("className"@, "w-full max-w-xs @container/carousel"@)]);
    let mut items = no_children();
    let mut i: usize = 0;
    while i < options.items.len()
        invariant
            i <= options.items@.len(),
            children_view(items@) == carousel_items(options.items@.take(i as int)),
        decreases options.items@.len() - i,
    {
        let item = &options.items[i];
        let inner = text_element("div", one_attr(str_attr_of("className", "p-1")), item.content.as_str());
        let mut item_children = no_children();
        push_child(&mut item_children, JsxChild::Element(inner));
        let item_el = element("CarouselItem", no_attrs(), item_children);
        assert(el_view(item_el) == carousel_item(*item));
        push_child(&mut items, JsxChild::Element(item_el));
        assert(carousel_items(options.items@.take(i + 1)) =~= carousel_items(options.items@.take(i as int)).push(carousel_item(options.items@[i as int])));
        i += 1;
    }
    assert(options.items@.take(options.items@.len() as int) == options.items@);
    let content = element("CarouselContent", no_attrs(), items);
    let mut children = no_children();
    push_child(&mut children, JsxChild::Element(content));
    let show = match options.show_navigation {
        Some(b) => b,
        None => true,
    };
    if show {
        push_child(&mut children, JsxChild::Element(element("CarouselPrevious", no_attrs(), no_children())));
        push_child(&mut children, JsxChild::Element(element("CarouselNext", no_attrs(), no_children())));
    }
    assert(children_view(children@) =~= seq![el("CarouselContent"@, seq![], carousel_items(options.items@))] + if options.show_navigation != Some(false) {
        seq![el("CarouselPrevious"@, seq![], seq![]), el("CarouselNext"@, seq![], seq![])]
    } else {
        seq![]
    });
    element("Carousel", attrs, children)
}

// ---------------------------------------------------------------- dialog

/// What a dialog shows below its header.
#[derive(Debug, Clone)]
pub enum DialogContent {
    /// Inline HTML.
    RawHtml(String),
    /// A component imported from a module, its default export where no name
    /// is given.
    TsxImport { import_path: String, import_name: Option<String> },
    /// A file: an SVG is inlined; a TSX or JSX module is rendered as its
    /// component.
    Uri(String),
}

/// A button of a dialog.
#[derive(Debug, Clone)]
pub struct DialogButton {
    pub label: String,
    pub variant: Option<String>,
    pub action: Option<String>,
}

/// The options of a dialog.
#[derive(Debug)]
pub struct DialogOptions {
    pub id: String,
    pub title: Option<String>,
    pub description: Option<String>,
    pub content: Option<DialogContent>,
    /// Attributes of the dialog's content element.
    pub attributes: Option<StringMap>,
}

/// The header of a dialog: its title as HTML and its description, each
/// where given.
pub open spec fn dialog_header(o: DialogOptions) -> Seq<NodeV> {
    (match o.title {
        Some(t) => seq![inner_html_div(t@)],
        None => seq![],
    }) + (match o.description {
        Some(d) => seq![el("DialogDescription"@, seq![], one_text(d@))],
        None => seq![],
    })
}

/// The element of an imported component.
pub open spec fn component_of(path: Seq<char>, name: Option<Seq<char>>) -> NodeV {
    el(import_local_name(path, name), seq![], seq![])
}

/// The view of an optional string.
pub open spec fn opt_seq(o: Option<String>) -> Option<Seq<char>> {
    match o {
        Some(s) => Some(s@),
        None => None,
    }
}

/// What a dialog shows below its header; `svg` is the text of an SVG file
/// that it names, where it could be read.
pub open spec fn dialog_body(c: Option<DialogContent>, svg: Option<String>) -> Seq<NodeV> {
    match c {
        None => seq![],
        Some(DialogContent::RawHtml(h)) => seq![inner_html_div(h@)],
        Some(DialogContent::TsxImport { import_path, import_name }) => seq![component_of(import_path@, opt_seq(import_name))],
        Some(DialogContent::Uri(u)) => if ends_with(u@, ".svg"@) {
            match svg {
                Some(t) => seq![inner_html_div(t@)],
                None => seq![],
            }
        } else if ends_with(u@, ".tsx"@) || ends_with(u@, ".jsx"@) {
            seq![component_of(u@, None)]
        } else {
            seq![]
        },
    }
}

/// The attributes of a dialog's content element.
pub open spec fn dialog_content_attrs(o: DialogOptions) -> Seq<(Seq<char>, Option<ValueV>)> {
    seq![str_attr("className"@, "sm:max-w-[425px]"@)] + match o.attributes {
        Some(m) => m.entries().map_values(|e: (String, String)| str_attr(e.0@, e.1@)),
        None => seq![],
    }
}

/// The dialog around a trigger.
pub open spec fn dialog(trigger: NodeV, o: DialogOptions, svg: Option<String>) -> NodeV {
    el(
        "Dialog"@,
        seq![],
        seq![
            trigger_part("DialogTrigger"@, trigger),
            el(
                "DialogContent"@,
                dialog_content_attrs(o),
                (if o.title is Some || o.description is Some { seq![el("DialogHeader"@, seq![], dialog_header(o))] } else { seq![] })
                    + dialog_body(o.content, svg),
            ),
        ],
    )
}

/// Whether `svg` is what reading the SVG file that the dialog names gave;
/// nothing is read for other content.
pub open spec fn svg_read<F: Fn(&String) -> Option<String>>(o: DialogOptions, read_file: F, svg: Option<String>) -> bool {
    match o.content {
        Some(DialogContent::Uri(u)) => if ends_with(u@, ".svg"@) {
            read_file.ensures((&u,), svg)
        } else {
            svg is None
        },
        _ => svg is None,
    }
}

fn component_element(path: &str, name: Option<&str>) -> (r: JsxElement)
    ensures
        el_view(r) == component_of(
            path@,
            match name {
                Some(n) => Some(n@),
                None => None,
            },
        ),
{
    let local = derive_import_local_name(path, name);
    element(local.as_str(), no_attrs(), no_children())
}

impl DialogOptions {
    /// A dialog that opens from the trigger element, with the options'
    /// title, description and content. `read_file` reads an SVG file that
    /// the content names; where it gives nothing, no content is shown.
    pub fn jsx_element<F: Fn(&String) -> Option<String>>(&self, trigger_element: JsxElement, read_file: &F) -> (r: JsxElement)
        requires
            forall|p: &String| #[trigger] read_file.requires((p,)),
        ensures
            exists|svg: Option<String>| svg_read(*self, *read_file, svg) && el_view(r) == dialog(el_view(trigger_element), *self, svg),
    {
        let ghost tv = el_view(trigger_element);
        let trigger = trigger_of("DialogTrigger", trigger_element);
        let mut content = no_children();
        if self.title.is_some() || self.description.is_some() {
            let mut header = no_children();
            match &self.title {
                Some(t) => push_child(&mut header, JsxChild::Element(dangerous_html_node(t.clone()))),
                None => {},
            }
            match &self.description {
                Some(d) => push_child(&mut header, JsxChild::Element(text_element("DialogDescription", no_attrs(), d.as_str()))),
                None => {},
            }
            assert(children_view(header@) =~= dialog_header(*self));
            if header.len() > 0 {
                push_child(&mut content, JsxChild::Element(element("DialogHeader", no_attrs(), header)));
            }
        }
        let ghost before = children_view(content@);
        let mut svg: Option<String> = None;
        match &self.content {
            Some(DialogContent::RawHtml(h)) => push_child(&mut content, JsxChild::Element(dangerous_html_node(h.clone()))),
            Some(DialogContent::TsxImport { import_path, import_name }) => {
                let name: Option<&str> = match import_name {
                    Some(n) => Some(n.as_str()),
                    None => None,
                };
                push_child(&mut content, JsxChild::Element(component_element(import_path.as_str(), name)));
            },
            Some(DialogContent::Uri(u)) => {
                if str_ends_with(u.as_str(), ".svg") {
                    let read = read_file(u);
                    match &read {
                        Some(t) => push_child(&mut content, JsxChild::Element(dangerous_html_node(t.clone()))),
                        None => {},
                    }
                    svg = read;
                } else if str_ends_with(u.as_str(), ".tsx") || str_ends_with(u.as_str(), ".jsx") {
                    push_child(&mut content, JsxChild::Element(component_element(u.as_str(), None)));
                }
            },
            None => {},
        }
        assert(children_view(content@) =~= before + dialog_body(self.content, svg));
        let mut attrs = one_attr(str_attr_of("className", "sm:max-w-[425px]"));
        match &self.attributes {
            Some(m) => {
                let pairs = m.pairs();
                let ghost start = attrs_view(attrs@);
                let mut i: usize = 0;
                while i < pairs.len()
                    invariant
                        i <= pairs@.len(),
                        pairs@ == m.entries(),
                        attrs_view(attrs@) == start + pairs@.take(i as int).map_values(|e: (String, String)| str_attr(e.0@, e.1@)),
                    decreases pairs@.len() - i,
                {
                    push_attr(&mut attrs, str_attr_of(pairs[i].0.as_str(), pairs[i].1.as_str()));
                    assert(pairs@.take(i + 1).map_values(|e: (String, String)| str_attr(e.0@, e.1@)) =~= pairs@.take(i as int).map_values(
                        |e: (String, String)| str_attr(e.0@, e.1@),
                    ).push(str_attr(pairs@[i as int].0@, pairs@[i as int].1@)));
                    i += 1;
                }
                assert(pairs@.take(pairs@.len() as int) == pairs@);
            },
            None => {},
        }
        assert(attrs_view(attrs@) =~= dialog_content_attrs(*self));
        let content_el = element("DialogContent", attrs, content);
        let mut children = no_children();
        push_child(&mut children, JsxChild::Element(trigger));
        push_child(&mut children, JsxChild::Element(content_el));
        assert(children_view(children@) =~= seq![trigger_part("DialogTrigger"@, tv), el_view(content_el)]);
        let r = element("Dialog", no_attrs(), children);
        assert(svg_read(*self, *read_file, svg) && el_view(r) == dialog(tv, *self, svg));
        r
    }
}

// ---------------------------------------------------------------- link

/// The routing library whose link component is used.
#[derive(Debug, Clone, Copy, PartialEq, Eq, Structural)]
pub enum RoutingLibrary {
    NextJs,
    Wouter,
    ReactRouter,
    /// The plain HTML `a` element.
    Native,
}

impl Default for RoutingLibrary {
    fn default() -> (r: RoutingLibrary)
        ensures
            r == RoutingLibrary::NextJs,
    {
        RoutingLibrary::NextJs
    }
}

/// The options of a link.
#[derive(Debug, Clone)]
pub struct LinkOptions {
    pub id: String,
    pub href: String,
    pub target: Option<String>,
    pub rel: Option<String>,
    pub as_button: bool,
    pub variant: Option<String>,
    pub size: Option<String>,
    pub routing_library: Option<RoutingLibrary>,
    pub class_name: Option<String>,
    pub replace: bool,
    /// Whether a Next.js link prefetches its page.
    pub prefetch: bool,
}

impl Default for LinkOptions {
    fn default() -> (r: LinkOptions)
        ensures
            r.id@.len() == 0,
            r.href@.len() == 0,
            r.target is None,
            r.rel is None,
            !r.as_button,
            r.variant is None,
            r.size is None,
            r.routing_library is None,
            r.class_name is None,
            !r.replace,
            !r.prefetch,
    {
        LinkOptions {
            id: String::new(),
            href: String::new(),
            target: None,
            rel: None,
            as_button: false,
            variant: None,
            size: None,
            routing_library: None,
            class_name: None,
            replace: false,
            prefetch: false,
        }
    }
}

/// A `true` flag attribute, written as an expression.
pub open spec fn true_attr(name: Seq<char>) -> (Seq<char>, Option<ValueV>) {
    (name, Some(ValueV::Bool(true)))
}

/// The attributes of a link for its routing library.
pub open spec fn link_attrs(lib: RoutingLibrary, o: LinkOptions) -> Seq<(Seq<char>, Option<ValueV>)> {
    let replace = if o.replace { seq![true_attr("replace"@)] } else { seq![] };
    match lib {
        RoutingLibrary::NextJs => seq![str_attr("href"@, o.href@)] + (if o.prefetch { seq![true_attr("prefetch"@)] } else { seq![] })
            + replace,
        RoutingLibrary::Wouter => seq![str_attr("href"@, o.href@)] + replace + opt_str_attr("className"@, o.class_name),
        RoutingLibrary::ReactRouter => seq![str_attr("to"@, o.href@)] + replace + opt_str_attr("className"@, o.class_name),
        RoutingLibrary::Native => seq![str_attr("href"@, o.href@)] + opt_str_attr("target"@, o.target) + opt_str_attr("rel"@, o.rel)
            + opt_str_attr("className"@, o.class_name),
    }
}

/// The link around a trigger, for the options' routing library (Next.js by
/// default).
pub open spec fn link(trigger: NodeV, o: LinkOptions) -> NodeV {
    let lib = match o.routing_library {
        Some(l) => l,
        None => RoutingLibrary::NextJs,
    };
    el(if lib == RoutingLibrary::Native { "a"@ } else { "Link"@ }, link_attrs(lib, o), seq![trigger])
}

fn true_attr_of(name: &str) -> (r: JsxAttr)
    ensures
        attr_view(r) == true_attr(name@),
{
    JsxAttr { name: owned(name), value: Some(JsxValue::Bool(true)) }
}

fn push_opt_str(attrs: &mut Vec<JsxAttr>, name: &str, v: &Option<String>)
    ensures
        attrs_view(final(attrs)@) == attrs_view(old(attrs)@) + opt_str_attr(name@, *v),
{
    match v {
        Some(s) => push_attr(attrs, str_attr_of(name, s.as_str())),
        None => {},
    }
    assert(attrs_view(attrs@) =~= attrs_view(old(attrs)@) + opt_str_attr(name@, *v));
}

/// A link to the options' page around the trigger element.
pub fn create_link_component(trigger_element: JsxElement, options: &LinkOptions) -> (r: JsxElement)
    ensures
        el_view(r) == link(el_view(trigger_element), *options),
{
    let ghost tv = el_view(trigger_element);
    let lib = match options.routing_library {
        Some(l) => l,
        None => RoutingLibrary::NextJs,
    };
    let mut attrs = no_attrs();
    let name = match lib {
        RoutingLibrary::NextJs => {
            push_attr(&mut attrs, str_attr_of("href", options.href.as_str()));
            if options.prefetch {
                push_attr(&mut attrs, true_attr_of("prefetch"));
            }
            if options.replace {
                push_attr(&mut attrs, true_attr_of("replace"));
            }
            "Link"
        },
        RoutingLibrary::Wouter => {
            push_attr(&mut attrs, str_attr_of("href", options.href.as_str()));
            if options.replace {
                push_attr(&mut attrs, true_attr_of("replace"));
            }
            push_opt_str(&mut attrs, "className", &options.class_name);
            "Link"
        },
        RoutingLibrary::ReactRouter => {
            push_attr(&mut attrs, str_attr_of("to", options.href.as_str()));
            if options.replace {
                push_attr(&mut attrs, true_attr_of("replace"));
            }
            push_opt_str(&mut attrs, "className", &options.class_name);
            "Link"
        },
        RoutingLibrary::Native => {
            push_attr(&mut attrs, str_attr_of("href", options.href.as_str()));
            push_opt_str(&mut attrs, "target", &options.target);
            push_opt_str(&mut attrs, "rel", &options.rel);
            push_opt_str(&mut attrs, "className", &options.class_name);
            "a"
        },
    };
    assert(attrs_view(attrs@) =~= link_attrs(lib, *options));
    let mut children = no_children();
    push_child(&mut children, JsxChild::Element(trigger_element));
    element(name, attrs, children)
}

} // verus!
