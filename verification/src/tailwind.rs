//! Tailwind CSS classes and inline styles for Figma layers.

use vstd::prelude::*;
use crate::decimal::Decimal;
use crate::figma::{
    CounterAxisAlignItems, Effect, EllipseNode, FrameNode, GroupNode, LineNode, RectangleNode, TextAlignHorizontal,
    TextDecoration, TextNode, VectorNode, GridChildHorizontalAlign, GridChildVerticalAlign,
    LayoutAlign, LayoutMode, LayoutPositioning, LayoutSizingHorizontal, LayoutSizingVertical,
    PrimaryAxisAlignItems, Rotation,
};
use crate::string_map::StringMap;
use crate::text::{chars_of, class_pred, replace_all, replace_chars, trim_by, trim_class_chars, trim_ws, CharClass, cat2, cat3, extend_strings, join, join_strings, owned, push_str, push_string, string_of, views};

verus! {

/// The classes, inline styles and CSS variables that style one layer.
#[derive(Debug)]
pub struct TailwindStyles {
    /// Tailwind CSS classes.
    pub classes: Vec<String>,
    /// Inline CSS for properties that Tailwind cannot express.
    pub inline_styles: StringMap,
    /// CSS custom properties.
    pub css_variables: StringMap,
}

/// What a set of styles holds: its classes by their text, its inline
/// styles and its CSS variables.
pub type StylesView = (Seq<Seq<char>>, Map<Seq<char>, Seq<char>>, Map<Seq<char>, Seq<char>>);

/// The styles `a` with the styles `b` merged in: classes of `b` after those
/// of `a`; styles and variables of `b` over those of `a`.
pub open spec fn merged(a: StylesView, b: StylesView) -> StylesView {
    (a.0 + b.0, a.1.union_prefer_right(b.1), a.2.union_prefer_right(b.2))
}

/// No styles at all.
pub open spec fn no_styles() -> StylesView {
    (seq![], Map::empty(), Map::empty())
}

/// Merging no styles, on either side, changes nothing.
pub proof fn law_merge_identity(a: StylesView)
    ensures
        merged(a, no_styles()) == a,
        merged(no_styles(), a) == a,
{
    assert(merged(a, no_styles()).0 =~= a.0);
    assert(merged(a, no_styles()).1 =~= a.1);
    assert(merged(a, no_styles()).2 =~= a.2);
    assert(merged(no_styles(), a).0 =~= a.0);
    assert(merged(no_styles(), a).1 =~= a.1);
    assert(merged(no_styles(), a).2 =~= a.2);
}

/// Merging is associative: merging `b` then `c` into `a` gives what merging
/// `c` into `b` and that into `a` gives.
pub proof fn law_merge_associative(a: StylesView, b: StylesView, c: StylesView)
    ensures
        merged(merged(a, b), c) == merged(a, merged(b, c)),
{
    assert(merged(merged(a, b), c).0 =~= merged(a, merged(b, c)).0);
    assert(merged(merged(a, b), c).1 =~= merged(a, merged(b, c)).1);
    assert(merged(merged(a, b), c).2 =~= merged(a, merged(b, c)).2);
}

/// After a merge, every class of both sides is there, and each style or
/// variable of the merged-in side has its value.
pub proof fn law_merge_keeps_all(a: StylesView, b: StylesView)
    ensures
        forall|i: int| 0 <= i < a.0.len() ==> merged(a, b).0[i] == a.0[i],
        forall|i: int| 0 <= i < b.0.len() ==> merged(a, b).0[a.0.len() + i] == b.0[i],
        forall|k: Seq<char>| b.1.dom().contains(k) ==> merged(a, b).1.dom().contains(k) && merged(a, b).1[k] == b.1[k],
        forall|k: Seq<char>| b.2.dom().contains(k) ==> merged(a, b).2.dom().contains(k) && merged(a, b).2[k] == b.2[k],
        forall|k: Seq<char>| a.1.dom().contains(k) ==> merged(a, b).1.dom().contains(k),
{
}

impl TailwindStyles {
    /// What the styles hold.
    pub open spec fn styles_view(&self) -> StylesView {
        (views(self.classes@), self.inline_styles@, self.css_variables@)
    }

    /// Styles with no class, inline style or variable.
    pub fn new() -> (r: TailwindStyles)
        ensures
            r.classes@.len() == 0,
            r.inline_styles@ == Map::<Seq<char>, Seq<char>>::empty(),
            r.css_variables@ == Map::<Seq<char>, Seq<char>>::empty(),
            r.styles_view() == no_styles(),
    {
        let r = TailwindStyles { classes: Vec::new(), inline_styles: StringMap::new(), css_variables: StringMap::new() };
        assert(views(r.classes@) =~= seq![]);
        r
    }

    /// All classes as one space-separated string.
    pub fn class_string(&self) -> (r: String)
        ensures
            r@ == join(views(self.classes@), " "@),
    {
        join_strings(&self.classes, " ")
    }

    /// Whether there is no class, inline style or variable.
    pub fn is_empty(&self) -> (r: bool)
        ensures
            r == (self.classes@.len() == 0 && self.inline_styles@.dom().len() == 0
                && self.css_variables@.dom().len() == 0),
    {
        self.classes.len() == 0 && self.inline_styles.is_empty() && self.css_variables.is_empty()
    }

    /// Adds the styles of `other`: its classes after these, and its inline
    /// styles and variables over these.
    pub fn merge(&mut self, other: TailwindStyles)
        ensures
            final(self).classes@ == old(self).classes@ + other.classes@,
            final(self).inline_styles@ == old(self).inline_styles@.union_prefer_right(other.inline_styles@),
            final(self).css_variables@ == old(self).css_variables@.union_prefer_right(other.css_variables@),
            final(self).styles_view() == merged(old(self).styles_view(), other.styles_view()),
    {
        let TailwindStyles { classes, inline_styles, css_variables } = other;
        extend_strings(&mut self.classes, classes);
        self.inline_styles.extend(inline_styles);
        self.css_variables.extend(css_variables);
    }
}

impl Default for TailwindStyles {
    fn default() -> (r: TailwindStyles)
        ensures
            r.classes@.len() == 0,
            r.inline_styles@ == Map::<Seq<char>, Seq<char>>::empty(),
            r.css_variables@ == Map::<Seq<char>, Seq<char>>::empty(),
    {
        TailwindStyles::new()
    }
}

/// The class `prefix` + the number's text + `suffix`.
pub open spec fn dec_class(prefix: Seq<char>, d: Decimal, suffix: Seq<char>) -> Seq<char> {
    prefix + d.render() + suffix
}

fn make_dec_class(prefix: &str, d: &Decimal, suffix: &str) -> (r: String)
    ensures
        r@ == dec_class(prefix@, *d, suffix@),
{
    let t = d.to_text();
    cat3(prefix, t.as_str(), suffix)
}

/// One class with the number in pixels, where there is a number.
pub open spec fn opt_px(prefix: Seq<char>, d: Option<Decimal>) -> Seq<Seq<char>> {
    match d {
        Some(x) => seq![dec_class(prefix, x, "px]"@)],
        None => seq![],
    }
}

/// One class with the number in pixels, where there is a number above zero.
pub open spec fn opt_px_pos(prefix: Seq<char>, d: Option<Decimal>) -> Seq<Seq<char>> {
    match d {
        Some(x) => if x.above(0) { seq![dec_class(prefix, x, "px]"@)] } else { seq![] },
        None => seq![],
    }
}

fn push_opt_px(classes: &mut Vec<String>, prefix: &str, d: &Option<Decimal>, only_positive: bool)
    ensures
        views(final(classes)@) == views(old(classes)@) + (if only_positive { opt_px_pos(prefix@, *d) } else { opt_px(prefix@, *d) }),
{
    match d {
        Some(x) => {
            if !only_positive || x.gt_int(0) {
                push_string(classes, make_dec_class(prefix, x, "px]"));
            } else {
                assert(views(classes@) == views(old(classes)@) + Seq::<Seq<char>>::empty());
            }
        },
        None => {
            assert(views(classes@) == views(old(classes)@) + Seq::<Seq<char>>::empty());
        },
    }
}

/// The class of a count (`prefix` + the count as an integer), where the count
/// is above zero.
pub open spec fn count_class(prefix: Seq<char>, d: Option<Decimal>) -> Seq<Seq<char>> {
    match d {
        Some(x) => if x.above(0) {
            seq![prefix + crate::decimal::dec_str(x.trunc_to(usize::MAX as int) as nat)]
        } else {
            seq![]
        },
        None => seq![],
    }
}

/// The class `prefix` + the text + `]`, where the text is not empty.
pub open spec fn sizing_class(prefix: Seq<char>, s: Option<String>) -> Seq<Seq<char>> {
    match s {
        Some(t) => if t@.len() > 0 { seq![prefix + t@ + "]"@] } else { seq![] },
        None => seq![],
    }
}

/// The classes of a frame's grid layout.
pub open spec fn frame_grid(f: &FrameNode) -> Seq<Seq<char>> {
    count_class("grid-cols-"@, f.grid_column_count) + count_class("grid-rows-"@, f.grid_row_count)
        + sizing_class("grid-cols-["@, f.grid_columns_sizing) + sizing_class("grid-rows-["@, f.grid_rows_sizing)
        + opt_px_pos("gap-x-["@, f.grid_column_gap) + opt_px_pos("gap-y-["@, f.grid_row_gap)
        + (if f.grid_column_count is None && f.grid_columns_sizing is None {
            seq!["grid-cols-[max-content]"@]
        } else {
            seq![]
        })
        + (if f.grid_row_count is None && f.grid_rows_sizing is None {
            seq!["grid-rows-[max-content]"@]
        } else {
            seq![]
        })
}

/// The classes of a frame's layout mode.
pub open spec fn layout_mode_part(f: &FrameNode) -> Seq<Seq<char>> {
    match f.layout_mode {
        Some(LayoutMode::Horizontal) => seq!["flex"@, "flex-row"@],
        Some(LayoutMode::Vertical) => seq!["flex"@, "flex-col"@],
        Some(LayoutMode::Grid) => seq!["grid"@] + frame_grid(f),
        _ => seq!["relative"@],
    }
}

/// The class of a frame's alignment along the primary axis.
pub open spec fn primary_part(f: &FrameNode) -> Seq<Seq<char>> {
    let grid = f.layout_mode == Some(LayoutMode::Grid);
    match f.primary_axis_align_items {
        Some(PrimaryAxisAlignItems::Min) => seq![if grid { "justify-items-start"@ } else { "justify-start"@ }],
        Some(PrimaryAxisAlignItems::Center) => seq![if grid { "justify-items-center"@ } else { "justify-center"@ }],
        Some(PrimaryAxisAlignItems::Max) => seq![if grid { "justify-items-end"@ } else { "justify-end"@ }],
        Some(PrimaryAxisAlignItems::SpaceBetween) => seq![if grid { "justify-items-stretch"@ } else { "justify-between"@ }],
        None => seq![],
    }
}

/// The class of a frame's alignment along the counter axis.
pub open spec fn counter_part(f: &FrameNode) -> Seq<Seq<char>> {
    match f.counter_axis_align_items {
        Some(CounterAxisAlignItems::Min) => seq!["items-start"@],
        Some(CounterAxisAlignItems::Center) => seq!["items-center"@],
        Some(CounterAxisAlignItems::Max) => seq!["items-end"@],
        Some(CounterAxisAlignItems::Baseline) => seq!["items-baseline"@],
        None => seq![],
    }
}

/// The classes of a frame's layout mode and child alignment.
pub open spec fn frame_layout(f: &FrameNode) -> Seq<Seq<char>> {
    layout_mode_part(f) + primary_part(f) + counter_part(f)
}

/// The alignment classes of a frame as a grid child.
pub open spec fn frame_grid_child(f: &FrameNode) -> Seq<Seq<char>> {
    let h: Seq<Seq<char>> = match f.grid_child_horizontal_align {
        Some(GridChildHorizontalAlign::Min) => seq!["justify-self-start"@],
        Some(GridChildHorizontalAlign::Center) => seq!["justify-self-center"@],
        Some(GridChildHorizontalAlign::Max) => seq!["justify-self-end"@],
        Some(GridChildHorizontalAlign::Auto) => seq!["justify-self-start"@],
        None => seq![],
    };
    let v: Seq<Seq<char>> = match f.grid_child_vertical_align {
        Some(GridChildVerticalAlign::Min) => seq!["self-start"@],
        Some(GridChildVerticalAlign::Center) => seq!["self-center"@],
        Some(GridChildVerticalAlign::Max) => seq!["self-end"@],
        Some(GridChildVerticalAlign::Auto) => seq!["self-start"@],
        None => seq![],
    };
    h + v
}

/// The horizontal sizing class of a frame.
pub open spec fn sizing_h_part(f: &FrameNode) -> Seq<Seq<char>> {
    match f.layout_sizing_horizontal {
        Some(LayoutSizingHorizontal::Fixed) => match f.size {
            Some(v) => seq![dec_class("w-["@, v.x, "px]"@)],
            None => seq![],
        },
        Some(LayoutSizingHorizontal::Hug) => seq!["w-fit"@],
        Some(LayoutSizingHorizontal::Fill) => seq!["w-full"@],
        None => seq![],
    }
}

/// The vertical sizing class of a frame.
pub open spec fn sizing_v_part(f: &FrameNode) -> Seq<Seq<char>> {
    match f.layout_sizing_vertical {
        Some(LayoutSizingVertical::Fixed) => match f.size {
            Some(s) => seq![dec_class("h-["@, s.y, "px]"@)],
            None => seq![],
        },
        Some(LayoutSizingVertical::Hug) => seq!["h-fit"@],
        Some(LayoutSizingVertical::Fill) => seq!["h-full"@],
        None => seq![],
    }
}

/// The flex-grow class of a frame.
pub open spec fn grow_part(f: &FrameNode) -> Seq<Seq<char>> {
    match f.layout_grow {
        Some(g) => if g.above(0) {
            if g.equals(1) { seq!["flex-1"@] } else { seq![dec_class("flex-["@, g, "]"@)] }
        } else {
            seq![]
        },
        None => seq![],
    }
}

/// The minimum and maximum size classes of a frame.
pub open spec fn limits_part(f: &FrameNode) -> Seq<Seq<char>> {
    opt_px("min-w-["@, f.min_width) + opt_px("max-w-["@, f.max_width) + opt_px("min-h-["@, f.min_height)
        + opt_px("max-h-["@, f.max_height)
}

/// The sizing classes of a frame.
pub open spec fn frame_sizing(f: &FrameNode) -> Seq<Seq<char>> {
    sizing_h_part(f) + sizing_v_part(f) + grow_part(f) + limits_part(f)
}

/// Zero.
pub open spec fn zero() -> Decimal {
    Decimal { negative: false, digits: 0, exponent: 0 }
}

/// A number, or zero where there is none.
pub open spec fn or_zero(d: Option<Decimal>) -> Decimal {
    match d {
        Some(x) => x,
        None => zero(),
    }
}

/// Whether the four paddings are one value above zero. The paddings are
/// compared by their text, which for values above zero is their value.
pub open spec fn uniform_padding(f: &FrameNode) -> bool {
    let pt = or_zero(f.padding_top);
    let pr = or_zero(f.padding_right);
    let pb = or_zero(f.padding_bottom);
    let pl = or_zero(f.padding_left);
    pt.render() == pr.render() && pr.render() == pb.render() && pb.render() == pl.render() && pt.above(0)
}

/// One class with the number in pixels, where the number is above zero.
pub open spec fn px_if_pos(prefix: Seq<char>, d: Decimal) -> Seq<Seq<char>> {
    if d.above(0) { seq![dec_class(prefix, d, "px]"@)] } else { seq![] }
}

/// The padding classes of a frame: one class where the four paddings agree,
/// else one per side above zero.
pub open spec fn padding_part(f: &FrameNode) -> Seq<Seq<char>> {
    let pt = or_zero(f.padding_top);
    let pr = or_zero(f.padding_right);
    let pb = or_zero(f.padding_bottom);
    let pl = or_zero(f.padding_left);
    if uniform_padding(f) {
        seq![dec_class("p-["@, pt, "px]"@)]
    } else {
        px_if_pos("pt-["@, pt) + px_if_pos("pr-["@, pr) + px_if_pos("pb-["@, pb) + px_if_pos("pl-["@, pl)
    }
}

/// The padding and gap classes of a frame.
pub open spec fn frame_spacing(f: &FrameNode) -> Seq<Seq<char>> {
    padding_part(f) + opt_px_pos("gap-["@, f.item_spacing)
}

/// The Tailwind class of a corner radius.
pub open spec fn rounded(radius: Decimal) -> Seq<Seq<char>> {
    if radius.at_most(0) {
        seq![]
    } else {
        let n = radius.trunc_to(u8::MAX as int);
        if n == 0 {
            seq![]
        } else if n == 2 {
            seq!["rounded-sm"@]
        } else if n == 4 {
            seq!["rounded"@]
        } else if n == 6 {
            seq!["rounded-md"@]
        } else if n == 8 {
            seq!["rounded-lg"@]
        } else if n == 12 {
            seq!["rounded-xl"@]
        } else if n == 16 {
            seq!["rounded-2xl"@]
        } else if n == 24 {
            seq!["rounded-3xl"@]
        } else if radius.at_least(9999) {
            seq!["rounded-full"@]
        } else {
            seq![dec_class("rounded-["@, radius, "px]"@)]
        }
    }
}

/// The classes of a corner radius.
pub fn rounded_classes(radius: &Decimal) -> (r: Vec<String>)
    ensures
        views(r@) == rounded(*radius),
{
    let mut v: Vec<String> = Vec::new();
    if radius.le_int(0) {
        return v;
    }
    let n = radius.trunc_u8();
    if n == 0 {
    } else if n == 2 {
        push_str(&mut v, "rounded-sm");
    } else if n == 4 {
        push_str(&mut v, "rounded");
    } else if n == 6 {
        push_str(&mut v, "rounded-md");
    } else if n == 8 {
        push_str(&mut v, "rounded-lg");
    } else if n == 12 {
        push_str(&mut v, "rounded-xl");
    } else if n == 16 {
        push_str(&mut v, "rounded-2xl");
    } else if n == 24 {
        push_str(&mut v, "rounded-3xl");
    } else if radius.ge_int(9999) {
        push_str(&mut v, "rounded-full");
    } else {
        push_string(&mut v, make_dec_class("rounded-[", radius, "px]"));
    }
    assert(views(v@) =~= rounded(*radius));
    v
}

/// The Tailwind class of an opacity, given as `(opacity * 100.0) as u8`, for
/// the values that Tailwind names.
pub open spec fn opacity_class_spec(percent: u8) -> Option<Seq<char>> {
    if percent == 0 {
        Some("opacity-0"@)
    } else if percent == 5 {
        Some("opacity-5"@)
    } else if percent == 10 {
        Some("opacity-10"@)
    } else if percent == 20 {
        Some("opacity-20"@)
    } else if percent == 25 {
        Some("opacity-25"@)
    } else if percent == 30 {
        Some("opacity-30"@)
    } else if percent == 40 {
        Some("opacity-40"@)
    } else if percent == 50 {
        Some("opacity-50"@)
    } else if percent == 60 {
        Some("opacity-60"@)
    } else if percent == 70 {
        Some("opacity-70"@)
    } else if percent == 75 {
        Some("opacity-75"@)
    } else if percent == 80 {
        Some("opacity-80"@)
    } else if percent == 90 {
        Some("opacity-90"@)
    } else if percent == 95 {
        Some("opacity-95"@)
    } else {
        None
    }
}

/// The Tailwind class of an opacity percentage, where Tailwind names it.
pub fn opacity_class(percent: u8) -> (r: Option<String>)
    ensures
        match r {
            Some(s) => opacity_class_spec(percent) == Some(s@),
            None => opacity_class_spec(percent) is None,
        },
{
    let s = if percent == 0 {
        "opacity-0"
    } else if percent == 5 {
        "opacity-5"
    } else if percent == 10 {
        "opacity-10"
    } else if percent == 20 {
        "opacity-20"
    } else if percent == 25 {
        "opacity-25"
    } else if percent == 30 {
        "opacity-30"
    } else if percent == 40 {
        "opacity-40"
    } else if percent == 50 {
        "opacity-50"
    } else if percent == 60 {
        "opacity-60"
    } else if percent == 70 {
        "opacity-70"
    } else if percent == 75 {
        "opacity-75"
    } else if percent == 80 {
        "opacity-80"
    } else if percent == 90 {
        "opacity-90"
    } else if percent == 95 {
        "opacity-95"
    } else {
        return None;
    };
    Some(owned(s))
}

/// The class of one effect.
pub open spec fn effect_class(e: Effect) -> Seq<Seq<char>> {
    match e {
        Effect::DropShadow { visible, radius } => if !visible {
            seq![]
        } else if radius.at_most(2) {
            seq!["shadow-sm"@]
        } else if radius.at_most(4) {
            seq!["shadow"@]
        } else if radius.at_most(8) {
            seq!["shadow-md"@]
        } else if radius.at_most(16) {
            seq!["shadow-lg"@]
        } else if radius.at_most(24) {
            seq!["shadow-xl"@]
        } else {
            seq!["shadow-2xl"@]
        },
        Effect::InnerShadow { visible } => if visible { seq!["shadow-inner"@] } else { seq![] },
        Effect::LayerBlur { visible, radius } => if !visible || !radius.above(0) {
            seq![]
        } else if radius.at_most(4) {
            seq!["blur-sm"@]
        } else if radius.at_most(8) {
            seq!["blur"@]
        } else if radius.at_most(12) {
            seq!["blur-md"@]
        } else if radius.at_most(16) {
            seq!["blur-lg"@]
        } else if radius.at_most(24) {
            seq!["blur-xl"@]
        } else {
            seq!["blur-2xl"@]
        },
        Effect::BackgroundBlur { visible, radius } => if !visible || !radius.above(0) {
            seq![]
        } else if radius.at_most(4) {
            seq!["backdrop-blur-sm"@]
        } else if radius.at_most(8) {
            seq!["backdrop-blur"@]
        } else if radius.at_most(12) {
            seq!["backdrop-blur-md"@]
        } else if radius.at_most(16) {
            seq!["backdrop-blur-lg"@]
        } else if radius.at_most(24) {
            seq!["backdrop-blur-xl"@]
        } else {
            seq!["backdrop-blur-2xl"@]
        },
        Effect::Texture => seq![],
        Effect::Noise => seq![],
    }
}

/// The classes of a list of effects, in order.
pub open spec fn effects_classes(effects: Seq<Effect>) -> Seq<Seq<char>>
    decreases effects.len(),
{
    if effects.len() == 0 {
        seq![]
    } else {
        effects_classes(effects.drop_last()) + effect_class(effects.last())
    }
}

fn push_effect_class(classes: &mut Vec<String>, e: &Effect)
    ensures
        views(final(classes)@) == views(old(classes)@) + effect_class(*e),
{
    let ghost empty = Seq::<Seq<char>>::empty();
    match e {
        Effect::DropShadow { visible, radius } => {
            if !*visible {
                assert(views(classes@) == views(old(classes)@) + empty);
            } else if radius.le_int(2) {
                push_str(classes, "shadow-sm");
            } else if radius.le_int(4) {
                push_str(classes, "shadow");
            } else if radius.le_int(8) {
                push_str(classes, "shadow-md");
            } else if radius.le_int(16) {
                push_str(classes, "shadow-lg");
            } else if radius.le_int(24) {
                push_str(classes, "shadow-xl");
            } else {
                push_str(classes, "shadow-2xl");
            }
        },
        Effect::InnerShadow { visible } => {
            if *visible {
                push_str(classes, "shadow-inner");
            } else {
                assert(views(classes@) == views(old(classes)@) + empty);
            }
        },
        Effect::LayerBlur { visible, radius } => {
            if !*visible || !radius.gt_int(0) {
                assert(views(classes@) == views(old(classes)@) + empty);
            } else if radius.le_int(4) {
                push_str(classes, "blur-sm");
            } else if radius.le_int(8) {
                push_str(classes, "blur");
            } else if radius.le_int(12) {
                push_str(classes, "blur-md");
            } else if radius.le_int(16) {
                push_str(classes, "blur-lg");
            } else if radius.le_int(24) {
                push_str(classes, "blur-xl");
            } else {
                push_str(classes, "blur-2xl");
            }
        },
        Effect::BackgroundBlur { visible, radius } => {
            if !*visible || !radius.gt_int(0) {
                assert(views(classes@) == views(old(classes)@) + empty);
            } else if radius.le_int(4) {
                push_str(classes, "backdrop-blur-sm");
            } else if radius.le_int(8) {
                push_str(classes, "backdrop-blur");
            } else if radius.le_int(12) {
                push_str(classes, "backdrop-blur-md");
            } else if radius.le_int(16) {
                push_str(classes, "backdrop-blur-lg");
            } else if radius.le_int(24) {
                push_str(classes, "backdrop-blur-xl");
            } else {
                push_str(classes, "backdrop-blur-2xl");
            }
        },
        Effect::Texture => {
            assert(views(classes@) == views(old(classes)@) + empty);
        },
        Effect::Noise => {
            assert(views(classes@) == views(old(classes)@) + empty);
        },
    }
}

/// The classes of a list of effects: shadows and blurs by their radius.
pub fn effects_to_classes(effects: &Vec<Effect>) -> (r: Vec<String>)
    ensures
        views(r@) == effects_classes(effects@),
{
    let mut classes: Vec<String> = Vec::new();
    let mut i: usize = 0;
    while i < effects.len()
        invariant
            i <= effects.len(),
            views(classes@) == effects_classes(effects@.take(i as int)),
        decreases effects.len() - i,
    {
        push_effect_class(&mut classes, &effects[i]);
        i += 1;
        assert(effects@.take(i as int).drop_last() == effects@.take(i - 1));
    }
    assert(effects@.take(effects.len() as int) == effects@);
    classes
}

/// The background class of a frame.
pub open spec fn fills_part(f: &FrameNode) -> Seq<Seq<char>> {
    if f.fills > 0 { seq!["bg-white"@] } else { seq![] }
}

/// The border classes of a frame.
pub open spec fn strokes_part(f: &FrameNode) -> Seq<Seq<char>> {
    match f.strokes {
        Some(n) => if n > 0 {
            match f.stroke_weight {
                Some(w) => if w.above(0) {
                    seq![dec_class("border-["@, w, "px]"@), "border-solid"@, "border-gray-300"@]
                } else {
                    seq![]
                },
                None => seq![],
            }
        } else {
            seq![]
        },
        None => seq![],
    }
}

/// The corner classes of a frame.
pub open spec fn corner_part(f: &FrameNode) -> Seq<Seq<char>> {
    match f.corner_radius {
        Some(r) => if r.above(0) { rounded(r) } else { seq![] },
        None => seq![],
    }
}

/// The opacity class of a frame.
pub open spec fn opacity_part(f: &FrameNode) -> Seq<Seq<char>> {
    match f.opacity {
        Some(o) => if o.value.below(1) {
            match opacity_class_spec(o.percent) {
                Some(c) => seq![c],
                None => seq![],
            }
        } else {
            seq![]
        },
        None => seq![],
    }
}

/// The fill, border, corner, opacity and effect classes of a frame.
pub open spec fn frame_visual(f: &FrameNode) -> Seq<Seq<char>> {
    fills_part(f) + strokes_part(f) + corner_part(f) + opacity_part(f) + effects_classes(f.effects@)
}

/// The class of a layer's alignment inside its parent's auto-layout.
pub open spec fn align_class(a: LayoutAlign) -> Option<Seq<char>> {
    match a {
        LayoutAlign::Inherit => None,
        LayoutAlign::Stretch => Some("self-stretch"@),
        LayoutAlign::Min => Some("self-start"@),
        LayoutAlign::Center => Some("self-center"@),
        LayoutAlign::Max => Some("self-end"@),
    }
}

/// The class of absolute positioning.
pub open spec fn absolute_class(p: Option<LayoutPositioning>) -> Seq<Seq<char>> {
    match p {
        Some(LayoutPositioning::Absolute) => seq!["absolute"@],
        _ => seq![],
    }
}

/// The class of a rotation other than zero.
pub open spec fn rotation_class(r: Option<Rotation>) -> Seq<Seq<char>> {
    match r {
        Some(rot) => if !rot.radians.equals(0) { seq![dec_class("rotate-["@, rot.degrees, "deg]"@)] } else { seq![] },
        None => seq![],
    }
}

/// The classes of an optional alignment class.
pub open spec fn opt_class(c: Option<Seq<char>>) -> Seq<Seq<char>> {
    match c {
        Some(x) => seq![x],
        None => seq![],
    }
}

/// The position classes of a frame. An `Inherit` alignment ends the list
/// after the positioning class.
pub open spec fn frame_position(f: &FrameNode) -> Seq<Seq<char>> {
    match f.layout_align {
        Some(LayoutAlign::Inherit) => absolute_class(f.layout_positioning),
        Some(a) => absolute_class(f.layout_positioning) + opt_class(align_class(a)) + rotation_class(f.rotation),
        None => absolute_class(f.layout_positioning) + rotation_class(f.rotation),
    }
}

/// The classes of the outer element of a frame: positioning and rotation.
pub open spec fn frame_positioning(f: &FrameNode) -> Seq<Seq<char>> {
    absolute_class(f.layout_positioning) + rotation_class(f.rotation)
}

/// The classes of the inner element of a frame: layout, sizing, spacing,
/// visuals and alignment.
pub open spec fn frame_layout_and_content(f: &FrameNode) -> Seq<Seq<char>> {
    frame_layout(f) + frame_sizing(f) + frame_spacing(f) + frame_visual(f) + match f.layout_align {
        Some(a) => opt_class(align_class(a)),
        None => seq![],
    }
}

/// All classes of a frame.
pub open spec fn frame_classes(f: &FrameNode) -> Seq<Seq<char>> {
    frame_layout(f) + frame_sizing(f) + frame_spacing(f) + frame_visual(f) + frame_position(f)
}

/// The inline styles of a frame: an opacity that has no Tailwind class.
pub open spec fn frame_inline_styles(f: &FrameNode) -> Map<Seq<char>, Seq<char>> {
    match f.opacity {
        Some(o) => if o.value.below(1) && opacity_class_spec(o.percent) is None {
            Map::<Seq<char>, Seq<char>>::empty().insert("opacity"@, o.value.render())
        } else {
            Map::empty()
        },
        None => Map::empty(),
    }
}

/// The CSS variables of a frame: its counter-axis spacing.
pub open spec fn frame_css_variables(f: &FrameNode) -> Map<Seq<char>, Seq<char>> {
    match f.counter_axis_spacing {
        Some(c) => if c.above(0) {
            Map::<Seq<char>, Seq<char>>::empty().insert("--counter-axis-spacing"@, c.render() + "px"@)
        } else {
            Map::empty()
        },
        None => Map::empty(),
    }
}

/// Styles of a design layer as Tailwind classes, grouped by concern.
pub trait TailwindStyleExt {
    /// The classes of `to_tailwind`.
    spec fn spec_classes(&self) -> Seq<Seq<char>>;

    /// The inline styles of `to_tailwind`.
    spec fn spec_inline_styles(&self) -> Map<Seq<char>, Seq<char>>;

    /// The CSS variables of `to_tailwind`.
    spec fn spec_css_variables(&self) -> Map<Seq<char>, Seq<char>>;

    spec fn spec_layout(&self) -> Seq<Seq<char>>;

    spec fn spec_sizing(&self) -> Seq<Seq<char>>;

    spec fn spec_spacing(&self) -> Seq<Seq<char>>;

    spec fn spec_visual(&self) -> Seq<Seq<char>>;

    spec fn spec_position(&self) -> Seq<Seq<char>>;

    spec fn spec_grid(&self) -> Seq<Seq<char>>;

    spec fn spec_grid_child(&self) -> Seq<Seq<char>>;

    spec fn spec_positioning(&self) -> Seq<Seq<char>>;

    spec fn spec_layout_and_content(&self) -> Seq<Seq<char>>;

    /// All styles of the layer.
    fn to_tailwind(&self) -> (r: TailwindStyles)
        ensures
            views(r.classes@) == self.spec_classes(),
            r.inline_styles@ == self.spec_inline_styles(),
            r.css_variables@ == self.spec_css_variables(),
    ;

    /// The classes of the layer.
    fn to_tailwind_classes(&self) -> (r: Vec<String>)
        ensures
            views(r@) == self.spec_classes(),
    {
        self.to_tailwind().classes
    }

    /// The classes of the layer as one space-separated string.
    fn to_tailwind_class_string(&self) -> (r: String)
        ensures
            r@ == join(self.spec_classes(), " "@),
    {
        self.to_tailwind().class_string()
    }

    /// Layout mode and alignment of the children.
    fn layout_classes(&self) -> (r: Vec<String>)
        ensures
            views(r@) == self.spec_layout(),
    ;

    /// Width, height, flex growth and size limits.
    fn sizing_classes(&self) -> (r: Vec<String>)
        ensures
            views(r@) == self.spec_sizing(),
    ;

    /// Padding and gaps.
    fn spacing_classes(&self) -> (r: Vec<String>)
        ensures
            views(r@) == self.spec_spacing(),
    ;

    /// Background, border, corners, opacity and effects.
    fn visual_classes(&self) -> (r: Vec<String>)
        ensures
            views(r@) == self.spec_visual(),
    ;

    /// Positioning, alignment in the parent and rotation.
    fn position_classes(&self) -> (r: Vec<String>)
        ensures
            views(r@) == self.spec_position(),
    ;

    /// Appends the classes of the layer's grid layout.
    fn add_grid_classes(&self, classes: &mut Vec<String>)
        ensures
            views(final(classes)@) == views(old(classes)@) + self.spec_grid(),
    ;

    /// The alignment classes of the layer as a grid child.
    fn get_grid_child_classes(&self) -> (r: Vec<String>)
        ensures
            views(r@) == self.spec_grid_child(),
    ;

    /// The classes of the outer element: positioning relative to the parent.
    fn positioning_classes(&self) -> (r: Vec<String>)
        ensures
            views(r@) == self.spec_positioning(),
    ;

    /// The classes of the inner element: layout of the children and content.
    fn layout_and_content_classes(&self) -> (r: Vec<String>)
        ensures
            views(r@) == self.spec_layout_and_content(),
    ;
}

impl TailwindStyleExt for FrameNode {
    open spec fn spec_classes(&self) -> Seq<Seq<char>> {
        frame_classes(self)
    }

    open spec fn spec_inline_styles(&self) -> Map<Seq<char>, Seq<char>> {
        frame_inline_styles(self)
    }

    open spec fn spec_css_variables(&self) -> Map<Seq<char>, Seq<char>> {
        frame_css_variables(self)
    }

    open spec fn spec_layout(&self) -> Seq<Seq<char>> {
        frame_layout(self)
    }

    open spec fn spec_sizing(&self) -> Seq<Seq<char>> {
        frame_sizing(self)
    }

    open spec fn spec_spacing(&self) -> Seq<Seq<char>> {
        frame_spacing(self)
    }

    open spec fn spec_visual(&self) -> Seq<Seq<char>> {
        frame_visual(self)
    }

    open spec fn spec_position(&self) -> Seq<Seq<char>> {
        frame_position(self)
    }

    open spec fn spec_grid(&self) -> Seq<Seq<char>> {
        frame_grid(self)
    }

    open spec fn spec_grid_child(&self) -> Seq<Seq<char>> {
        frame_grid_child(self)
    }

    open spec fn spec_positioning(&self) -> Seq<Seq<char>> {
        frame_positioning(self)
    }

    open spec fn spec_layout_and_content(&self) -> Seq<Seq<char>> {
        frame_layout_and_content(self)
    }

    fn to_tailwind(&self) -> (r: TailwindStyles) {
        let mut styles = TailwindStyles::new();
        let classes = concat(
            concat(concat(concat(self.layout_classes(), self.sizing_classes()), self.spacing_classes()),
                self.visual_classes()),
            self.position_classes(),
        );
        styles.classes = classes;
        add_inline_styles(self, &mut styles);
        assert(styles.inline_styles@ =~= frame_inline_styles(self));
        assert(styles.css_variables@ =~= frame_css_variables(self));
        assert(self.spec_classes() == frame_classes(self));
        assert(self.spec_inline_styles() == frame_inline_styles(self));
        assert(self.spec_css_variables() == frame_css_variables(self));
        styles
    }

    fn layout_classes(&self) -> (r: Vec<String>) {
        let r = concat(concat(self.layout_mode_classes(), self.primary_align_classes()), self.counter_align_classes());
        assert(self.spec_layout() == frame_layout(self));
        r
    }

    fn add_grid_classes(&self, classes: &mut Vec<String>) {
        let all = grid_classes_of(self);
        extend_strings(classes, all);
        assert(self.spec_grid() == frame_grid(self));
    }

    fn get_grid_child_classes(&self) -> (r: Vec<String>) {
        let h = match self.grid_child_horizontal_align {
            Some(GridChildHorizontalAlign::Min) => lit("justify-self-start"),
            Some(GridChildHorizontalAlign::Center) => lit("justify-self-center"),
            Some(GridChildHorizontalAlign::Max) => lit("justify-self-end"),
            Some(GridChildHorizontalAlign::Auto) => lit("justify-self-start"),
            None => no_classes(),
        };
        let v = match self.grid_child_vertical_align {
            Some(GridChildVerticalAlign::Min) => lit("self-start"),
            Some(GridChildVerticalAlign::Center) => lit("self-center"),
            Some(GridChildVerticalAlign::Max) => lit("self-end"),
            Some(GridChildVerticalAlign::Auto) => lit("self-start"),
            None => no_classes(),
        };
        assert(self.spec_grid_child() == frame_grid_child(self));
        concat(h, v)
    }

    fn sizing_classes(&self) -> (r: Vec<String>) {
        let r = concat(concat(concat(self.sizing_h(), self.sizing_v()), self.grow()), self.limits());
        assert(self.spec_sizing() == frame_sizing(self));
        r
    }

    fn spacing_classes(&self) -> (r: Vec<String>) {
        let r = concat(self.padding(), px_pos_classes("gap-[", &self.item_spacing));
        assert(self.spec_spacing() == frame_spacing(self));
        r
    }

    fn visual_classes(&self) -> (r: Vec<String>) {
        let fills = if self.fills > 0 { lit("bg-white") } else { no_classes() };
        let r = concat(concat(concat(concat(fills, self.strokes_classes()), self.corner_classes()),
            self.opacity_classes()), effects_to_classes(&self.effects));
        assert(self.spec_visual() == frame_visual(self));
        r
    }

    fn position_classes(&self) -> (r: Vec<String>) {
        let pos = absolute_classes(self.layout_positioning);
        assert(self.spec_position() == frame_position(self));
        match self.layout_align {
            Some(LayoutAlign::Inherit) => pos,
            Some(a) => concat(concat(pos, align_classes(a)), rotation_classes(&self.rotation)),
            None => concat(pos, rotation_classes(&self.rotation)),
        }
    }

    fn positioning_classes(&self) -> (r: Vec<String>) {
        assert(self.spec_positioning() == frame_positioning(self));
        concat(absolute_classes(self.layout_positioning), rotation_classes(&self.rotation))
    }

    fn layout_and_content_classes(&self) -> (r: Vec<String>) {
        let align = match self.layout_align {
            Some(a) => align_classes(a),
            None => no_classes(),
        };
        let r = concat(
            concat(concat(concat(self.layout_classes(), self.sizing_classes()), self.spacing_classes()),
                self.visual_classes()),
            align,
        );
        assert(self.spec_layout_and_content() == frame_layout_and_content(self));
        r
    }
}

impl FrameNode {
    fn layout_mode_classes(&self) -> (r: Vec<String>)
        ensures
            views(r@) == layout_mode_part(self),
    {
        match self.layout_mode {
            Some(LayoutMode::Horizontal) => concat(lit("flex"), lit("flex-row")),
            Some(LayoutMode::Vertical) => concat(lit("flex"), lit("flex-col")),
            Some(LayoutMode::Grid) => concat(lit("grid"), grid_classes_of(self)),
            _ => lit("relative"),
        }
    }

    fn primary_align_classes(&self) -> (r: Vec<String>)
        ensures
            views(r@) == primary_part(self),
    {
        let grid = match self.layout_mode {
            Some(LayoutMode::Grid) => true,
            _ => false,
        };
        match self.primary_axis_align_items {
            Some(PrimaryAxisAlignItems::Min) => lit(if grid { "justify-items-start" } else { "justify-start" }),
            Some(PrimaryAxisAlignItems::Center) => lit(if grid { "justify-items-center" } else { "justify-center" }),
            Some(PrimaryAxisAlignItems::Max) => lit(if grid { "justify-items-end" } else { "justify-end" }),
            Some(PrimaryAxisAlignItems::SpaceBetween) => lit(if grid { "justify-items-stretch" } else { "justify-between" }),
            None => no_classes(),
        }
    }

    fn counter_align_classes(&self) -> (r: Vec<String>)
        ensures
            views(r@) == counter_part(self),
    {
        match self.counter_axis_align_items {
            Some(CounterAxisAlignItems::Min) => lit("items-start"),
            Some(CounterAxisAlignItems::Center) => lit("items-center"),
            Some(CounterAxisAlignItems::Max) => lit("items-end"),
            Some(CounterAxisAlignItems::Baseline) => lit("items-baseline"),
            None => no_classes(),
        }
    }

    fn sizing_h(&self) -> (r: Vec<String>)
        ensures
            views(r@) == sizing_h_part(self),
    {
        match self.layout_sizing_horizontal {
            Some(LayoutSizingHorizontal::Fixed) => match &self.size {
                Some(v) => class_vec(make_dec_class("w-[", &v.x, "px]")),
                None => no_classes(),
            },
            Some(LayoutSizingHorizontal::Hug) => lit("w-fit"),
            Some(LayoutSizingHorizontal::Fill) => lit("w-full"),
            None => no_classes(),
        }
    }

    fn sizing_v(&self) -> (r: Vec<String>)
        ensures
            views(r@) == sizing_v_part(self),
    {
        match self.layout_sizing_vertical {
            Some(LayoutSizingVertical::Fixed) => match &self.size {
                Some(s) => class_vec(make_dec_class("h-[", &s.y, "px]")),
                None => no_classes(),
            },
            Some(LayoutSizingVertical::Hug) => lit("h-fit"),
            Some(LayoutSizingVertical::Fill) => lit("h-full"),
            None => no_classes(),
        }
    }

    fn grow(&self) -> (r: Vec<String>)
        ensures
            views(r@) == grow_part(self),
    {
        match &self.layout_grow {
            Some(g) => if g.gt_int(0) {
                if g.eq_int(1) {
                    lit("flex-1")
                } else {
                    class_vec(make_dec_class("flex-[", g, "]"))
                }
            } else {
                no_classes()
            },
            None => no_classes(),
        }
    }

    fn limits(&self) -> (r: Vec<String>)
        ensures
            views(r@) == limits_part(self),
    {
        concat(
            concat(concat(px_classes("min-w-[", &self.min_width), px_classes("max-w-[", &self.max_width)),
                px_classes("min-h-[", &self.min_height)),
            px_classes("max-h-[", &self.max_height),
        )
    }

    fn padding(&self) -> (r: Vec<String>)
        ensures
            views(r@) == padding_part(self),
    {
        let z = Decimal { negative: false, digits: 0, exponent: 0 };
        let pt = match self.padding_top { Some(x) => x, None => z };
        let pr = match self.padding_right { Some(x) => x, None => z };
        let pb = match self.padding_bottom { Some(x) => x, None => z };
        let pl = match self.padding_left { Some(x) => x, None => z };
        if pt.same_text(&pr) && pr.same_text(&pb) && pb.same_text(&pl) && pt.gt_int(0) {
            class_vec(make_dec_class("p-[", &pt, "px]"))
        } else {
            concat(
                concat(concat(px_if_pos_classes("pt-[", &pt), px_if_pos_classes("pr-[", &pr)),
                    px_if_pos_classes("pb-[", &pb)),
                px_if_pos_classes("pl-[", &pl),
            )
        }
    }

    fn strokes_classes(&self) -> (r: Vec<String>)
        ensures
            views(r@) == strokes_part(self),
    {
        match self.strokes {
            Some(n) => if n > 0 {
                match &self.stroke_weight {
                    Some(w) => if w.gt_int(0) {
                        concat(concat(class_vec(make_dec_class("border-[", w, "px]")), lit("border-solid")),
                            lit("border-gray-300"))
                    } else {
                        no_classes()
                    },
                    None => no_classes(),
                }
            } else {
                no_classes()
            },
            None => no_classes(),
        }
    }

    fn corner_classes(&self) -> (r: Vec<String>)
        ensures
            views(r@) == corner_part(self),
    {
        match &self.corner_radius {
            Some(r) => if r.gt_int(0) { rounded_classes(r) } else { no_classes() },
            None => no_classes(),
        }
    }

    fn opacity_classes(&self) -> (r: Vec<String>)
        ensures
            views(r@) == opacity_part(self),
    {
        match &self.opacity {
            Some(o) => if o.value.lt_int(1) {
                match opacity_class(o.percent) {
                    Some(c) => class_vec(c),
                    None => no_classes(),
                }
            } else {
                no_classes()
            },
            None => no_classes(),
        }
    }
}

fn grid_classes_of(f: &FrameNode) -> (r: Vec<String>)
    ensures
        views(r@) == frame_grid(f),
{
    let counts = concat(
        count_classes("grid-cols-", &f.grid_column_count),
        count_classes("grid-rows-", &f.grid_row_count),
    );
    let sizings = concat(
        sizing_classes_of("grid-cols-[", &f.grid_columns_sizing),
        sizing_classes_of("grid-rows-[", &f.grid_rows_sizing),
    );
    let gaps = concat(px_pos_classes("gap-x-[", &f.grid_column_gap), px_pos_classes("gap-y-[", &f.grid_row_gap));
    let cols_default = if f.grid_column_count.is_none() && f.grid_columns_sizing.is_none() {
        lit("grid-cols-[max-content]")
    } else {
        no_classes()
    };
    let rows_default = if f.grid_row_count.is_none() && f.grid_rows_sizing.is_none() {
        lit("grid-rows-[max-content]")
    } else {
        no_classes()
    };
    concat(concat(concat(concat(counts, sizings), gaps), cols_default), rows_default)
}

/// The layout classes of a text layer.
pub open spec fn text_layout(t: &TextNode) -> Seq<Seq<char>> {
    seq!["block"@] + match t.style.text_align_horizontal {
        Some(TextAlignHorizontal::Left) => seq!["text-left"@],
        Some(TextAlignHorizontal::Center) => seq!["text-center"@],
        Some(TextAlignHorizontal::Right) => seq!["text-right"@],
        Some(TextAlignHorizontal::Justified) => seq!["text-justify"@],
        None => seq![],
    }
}

/// The sizing classes of a text layer.
pub open spec fn text_sizing(t: &TextNode) -> Seq<Seq<char>> {
    match t.size {
        Some(v) => seq![dec_class("w-["@, v.x, "px]"@), dec_class("h-["@, v.y, "px]"@)],
        None => seq![],
    }
}

/// The letter-spacing class of a text layer, in ems of 16 pixels.
pub open spec fn text_spacing(t: &TextNode) -> Seq<Seq<char>> {
    match t.style.letter_spacing {
        Some(ls) => if !ls.px.equals(0) { seq![dec_class("tracking-["@, ls.per_16, "em]"@)] } else { seq![] },
        None => seq![],
    }
}

/// The Tailwind class of a font weight.
pub open spec fn weight_class(n: int) -> Seq<char> {
    if n == 100 {
        "font-thin"@
    } else if n == 200 {
        "font-extralight"@
    } else if n == 300 {
        "font-light"@
    } else if n == 400 {
        "font-normal"@
    } else if n == 500 {
        "font-medium"@
    } else if n == 600 {
        "font-semibold"@
    } else if n == 700 {
        "font-bold"@
    } else if n == 800 {
        "font-extrabold"@
    } else if n == 900 {
        "font-black"@
    } else {
        "font-normal"@
    }
}

/// The font weight class of a text layer.
pub open spec fn weight_part(t: &TextNode) -> Seq<Seq<char>> {
    match t.style.font_weight {
        Some(w) => seq![weight_class(w.trunc_to(u16::MAX as int))],
        None => seq![],
    }
}

/// The font size, decoration and italic classes of a text layer.
pub open spec fn font_part(t: &TextNode) -> Seq<Seq<char>> {
    (match t.style.font_size {
        Some(fs) => seq![dec_class("text-["@, fs, "px]"@)],
        None => seq![],
    }) + (match t.style.text_decoration {
        Some(TextDecoration::Underline) => seq!["underline"@],
        Some(TextDecoration::Strikethrough) => seq!["line-through"@],
        _ => seq![],
    }) + (if t.style.italic == Some(true) { seq!["italic"@] } else { seq![] })
}

/// The letter-spacing class (in ems of the font size) and the color class of a
/// text layer.
pub open spec fn tracking_color_part(t: &TextNode) -> Seq<Seq<char>> {
    (match t.style.letter_spacing {
        Some(ls) => seq![dec_class("tracking-["@, ls.per_font_size, "em]"@)],
        None => seq![],
    }) + (match t.style.fill_color {
        Some(c) => seq!["text-["@ + c@ + "]"@],
        None => seq![],
    })
}

/// The visual classes of a text layer.
pub open spec fn text_visual(t: &TextNode) -> Seq<Seq<char>> {
    weight_part(t) + font_part(t) + tracking_color_part(t)
}

/// A font family name without surrounding whitespace and quotes, with inner
/// single quotes escaped.
pub open spec fn clean_font_family(s: Seq<char>) -> Seq<char> {
    replace_all(trim_by(trim_ws(s), class_pred(CharClass::Quote)), "'"@, "\\'"@)
}

/// The line-height and font-family classes of a text layer.
pub open spec fn text_inline_classes(t: &TextNode) -> Seq<Seq<char>> {
    (match t.style.line_height {
        Some(lh) => match lh.per_font_size {
            Some(ratio) => seq![dec_class("leading-["@, ratio, "]"@)],
            None => seq![dec_class("leading-["@, lh.px, "px]"@)],
        },
        None => seq![],
    }) + (match t.style.font_family {
        Some(ff) => seq!["font-['"@ + clean_font_family(ff@) + "']"@],
        None => seq![],
    })
}

/// All classes of a text layer.
pub open spec fn text_classes(t: &TextNode) -> Seq<Seq<char>> {
    text_layout(t) + text_sizing(t) + text_spacing(t) + text_visual(t) + text_inline_classes(t)
}

/// The escaped, trimmed font family name.
fn clean_font_family_of(s: &String) -> (r: String)
    ensures
        r@ == clean_font_family(s@),
{
    let v = chars_of(s.as_str());
    let t = trim_class_chars(&v, CharClass::Whitespace);
    let q = trim_class_chars(&t, CharClass::Quote);
    let from = chars_of("'");
    let to = chars_of("\\'");
    proof {
        reveal_strlit("'");
    }
    let e = replace_chars(&q, &from, &to);
    string_of(&e)
}

/// Appends the classes that stand for a text layer's line height and font
/// family.
pub fn add_text_inline_styles(text: &TextNode, styles: &mut TailwindStyles)
    ensures
        views(final(styles).classes@) == views(old(styles).classes@) + text_inline_classes(text),
        final(styles).inline_styles@ == old(styles).inline_styles@,
        final(styles).css_variables@ == old(styles).css_variables@,
{
    let lh = match &text.style.line_height {
        Some(lh) => match &lh.per_font_size {
            Some(ratio) => class_vec(make_dec_class("leading-[", ratio, "]")),
            None => class_vec(make_dec_class("leading-[", &lh.px, "px]")),
        },
        None => no_classes(),
    };
    let ff = match &text.style.font_family {
        Some(f) => {
            let clean = clean_font_family_of(f);
            class_vec(cat3("font-['", clean.as_str(), "']"))
        },
        None => no_classes(),
    };
    extend_strings(&mut styles.classes, concat(lh, ff));
}

/// The first visual class of a text layer with a font weight is its weight
/// class, and it follows the weight: 100 `font-thin`, 200
/// `font-extralight`, 300 `font-light`, 400 `font-normal`, 500
/// `font-medium`, 600 `font-semibold`, 700 `font-bold`, 800
/// `font-extrabold`, 900 `font-black`; `font-normal` comes only from 400
/// and from weights without a name.
pub proof fn law_text_weight_class(t: TextNode)
    requires
        t.style.font_weight is Some,
    ensures
        ({
            let n = t.style.font_weight->0.trunc_to(u16::MAX as int);
            let v = t.spec_visual();
            &&& v.len() >= 1
            &&& n == 100 ==> v[0] == "font-thin"@
            &&& n == 200 ==> v[0] == "font-extralight"@
            &&& n == 300 ==> v[0] == "font-light"@
            &&& n == 400 ==> v[0] == "font-normal"@
            &&& n == 500 ==> v[0] == "font-medium"@
            &&& n == 600 ==> v[0] == "font-semibold"@
            &&& n == 700 ==> v[0] == "font-bold"@
            &&& n == 800 ==> v[0] == "font-extrabold"@
            &&& n == 900 ==> v[0] == "font-black"@
            &&& (v[0] == "font-normal"@ <==> !(n == 100 || n == 200 || n == 300 || n == 500 || n == 600 || n == 700
                || n == 800 || n == 900))
        }),
{
    reveal_strlit("font-thin");
    reveal_strlit("font-extralight");
    reveal_strlit("font-light");
    reveal_strlit("font-normal");
    reveal_strlit("font-medium");
    reveal_strlit("font-semibold");
    reveal_strlit("font-bold");
    reveal_strlit("font-extrabold");
    reveal_strlit("font-black");
    let v = t.spec_visual();
    assert(v == weight_part(&t) + font_part(&t) + tracking_color_part(&t));
    assert(v[0] == weight_part(&t)[0]);
    let c = weight_class(t.style.font_weight->0.trunc_to(u16::MAX as int));
    if c == "font-normal"@ {
        assert(c[5] == 'n' && c.len() == 11);
    }
}

impl TextNode {
    fn weight_classes(&self) -> (r: Vec<String>)
        ensures
            views(r@) == weight_part(self),
    {
        match &self.style.font_weight {
            Some(w) => {
                let n = w.trunc_u16();
                lit(if n == 100 {
                    "font-thin"
                } else if n == 200 {
                    "font-extralight"
                } else if n == 300 {
                    "font-light"
                } else if n == 400 {
                    "font-normal"
                } else if n == 500 {
                    "font-medium"
                } else if n == 600 {
                    "font-semibold"
                } else if n == 700 {
                    "font-bold"
                } else if n == 800 {
                    "font-extrabold"
                } else if n == 900 {
                    "font-black"
                } else {
                    "font-normal"
                })
            },
            None => no_classes(),
        }
    }

    fn font_classes(&self) -> (r: Vec<String>)
        ensures
            views(r@) == font_part(self),
    {
        let size = match &self.style.font_size {
            Some(fs) => class_vec(make_dec_class("text-[", fs, "px]")),
            None => no_classes(),
        };
        let decoration = match self.style.text_decoration {
            Some(TextDecoration::Underline) => lit("underline"),
            Some(TextDecoration::Strikethrough) => lit("line-through"),
            _ => no_classes(),
        };
        let italic = match self.style.italic {
            Some(true) => lit("italic"),
            _ => no_classes(),
        };
        concat(concat(size, decoration), italic)
    }

    fn tracking_color_classes(&self) -> (r: Vec<String>)
        ensures
            views(r@) == tracking_color_part(self),
    {
        let tracking = match &self.style.letter_spacing {
            Some(ls) => class_vec(make_dec_class("tracking-[", &ls.per_font_size, "em]")),
            None => no_classes(),
        };
        let color = match &self.style.fill_color {
            Some(c) => class_vec(cat3("text-[", c.as_str(), "]")),
            None => no_classes(),
        };
        concat(tracking, color)
    }
}

impl TailwindStyleExt for TextNode {
    open spec fn spec_classes(&self) -> Seq<Seq<char>> {
        text_classes(self)
    }

    open spec fn spec_inline_styles(&self) -> Map<Seq<char>, Seq<char>> {
        Map::empty()
    }

    open spec fn spec_css_variables(&self) -> Map<Seq<char>, Seq<char>> {
        Map::empty()
    }

    open spec fn spec_layout(&self) -> Seq<Seq<char>> {
        text_layout(self)
    }

    open spec fn spec_sizing(&self) -> Seq<Seq<char>> {
        text_sizing(self)
    }

    open spec fn spec_spacing(&self) -> Seq<Seq<char>> {
        text_spacing(self)
    }

    open spec fn spec_visual(&self) -> Seq<Seq<char>> {
        text_visual(self)
    }

    open spec fn spec_position(&self) -> Seq<Seq<char>> {
        seq![]
    }

    open spec fn spec_grid(&self) -> Seq<Seq<char>> {
        seq![]
    }

    open spec fn spec_grid_child(&self) -> Seq<Seq<char>> {
        seq![]
    }

    open spec fn spec_positioning(&self) -> Seq<Seq<char>> {
        seq![]
    }

    open spec fn spec_layout_and_content(&self) -> Seq<Seq<char>> {
        text_layout(self) + text_sizing(self) + text_spacing(self) + text_visual(self)
    }

    fn to_tailwind(&self) -> (r: TailwindStyles) {
        proof {
            assert(self.spec_inline_styles() == Map::<Seq<char>, Seq<char>>::empty());
            assert(self.spec_css_variables() == Map::<Seq<char>, Seq<char>>::empty());
            assert(self.spec_position() == Seq::<Seq<char>>::empty());
            assert(self.spec_grid() == Seq::<Seq<char>>::empty());
            assert(self.spec_grid_child() == Seq::<Seq<char>>::empty());
            assert(self.spec_positioning() == Seq::<Seq<char>>::empty());
        }
        let mut styles = TailwindStyles::new();
        styles.classes = concat(
            concat(concat(concat(self.layout_classes(), self.sizing_classes()), self.spacing_classes()),
                self.visual_classes()),
            self.position_classes(),
        );
        let ghost before = views(styles.classes@);
        add_text_inline_styles(self, &mut styles);
        assert(self.spec_classes() == text_classes(self));
        assert(before =~= text_layout(self) + text_sizing(self) + text_spacing(self) + text_visual(self) + Seq::<Seq<char>>::empty());
        assert(views(styles.classes@) =~= text_classes(self));
        styles
    }

    fn layout_classes(&self) -> (r: Vec<String>) {
        proof {
            assert(self.spec_inline_styles() == Map::<Seq<char>, Seq<char>>::empty());
            assert(self.spec_css_variables() == Map::<Seq<char>, Seq<char>>::empty());
            assert(self.spec_position() == Seq::<Seq<char>>::empty());
            assert(self.spec_grid() == Seq::<Seq<char>>::empty());
            assert(self.spec_grid_child() == Seq::<Seq<char>>::empty());
            assert(self.spec_positioning() == Seq::<Seq<char>>::empty());
        }
        let align = match self.style.text_align_horizontal {
            Some(TextAlignHorizontal::Left) => lit("text-left"),
            Some(TextAlignHorizontal::Center) => lit("text-center"),
            Some(TextAlignHorizontal::Right) => lit("text-right"),
            Some(TextAlignHorizontal::Justified) => lit("text-justify"),
            None => no_classes(),
        };
        assert(self.spec_layout() == text_layout(self));
        concat(lit("block"), align)
    }

    fn sizing_classes(&self) -> (r: Vec<String>) {
        proof {
            assert(self.spec_inline_styles() == Map::<Seq<char>, Seq<char>>::empty());
            assert(self.spec_css_variables() == Map::<Seq<char>, Seq<char>>::empty());
            assert(self.spec_position() == Seq::<Seq<char>>::empty());
            assert(self.spec_grid() == Seq::<Seq<char>>::empty());
            assert(self.spec_grid_child() == Seq::<Seq<char>>::empty());
            assert(self.spec_positioning() == Seq::<Seq<char>>::empty());
        }
        assert(self.spec_sizing() == text_sizing(self));
        match &self.size {
            Some(v) => concat(class_vec(make_dec_class("w-[", &v.x, "px]")), class_vec(make_dec_class("h-[", &v.y, "px]"))),
            None => no_classes(),
        }
    }

    fn spacing_classes(&self) -> (r: Vec<String>) {
        proof {
            assert(self.spec_inline_styles() == Map::<Seq<char>, Seq<char>>::empty());
            assert(self.spec_css_variables() == Map::<Seq<char>, Seq<char>>::empty());
            assert(self.spec_position() == Seq::<Seq<char>>::empty());
            assert(self.spec_grid() == Seq::<Seq<char>>::empty());
            assert(self.spec_grid_child() == Seq::<Seq<char>>::empty());
            assert(self.spec_positioning() == Seq::<Seq<char>>::empty());
        }
        assert(self.spec_spacing() == text_spacing(self));
        match &self.style.letter_spacing {
            Some(ls) => if !ls.px.eq_int(0) {
                class_vec(make_dec_class("tracking-[", &ls.per_16, "em]"))
            } else {
                no_classes()
            },
            None => no_classes(),
        }
    }

    fn visual_classes(&self) -> (r: Vec<String>) {
        proof {
            assert(self.spec_inline_styles() == Map::<Seq<char>, Seq<char>>::empty());
            assert(self.spec_css_variables() == Map::<Seq<char>, Seq<char>>::empty());
            assert(self.spec_position() == Seq::<Seq<char>>::empty());
            assert(self.spec_grid() == Seq::<Seq<char>>::empty());
            assert(self.spec_grid_child() == Seq::<Seq<char>>::empty());
            assert(self.spec_positioning() == Seq::<Seq<char>>::empty());
        }
        assert(self.spec_visual() == text_visual(self));
        concat(concat(self.weight_classes(), self.font_classes()), self.tracking_color_classes())
    }

    fn position_classes(&self) -> (r: Vec<String>) {
        proof {
            assert(self.spec_inline_styles() == Map::<Seq<char>, Seq<char>>::empty());
            assert(self.spec_css_variables() == Map::<Seq<char>, Seq<char>>::empty());
            assert(self.spec_position() == Seq::<Seq<char>>::empty());
            assert(self.spec_grid() == Seq::<Seq<char>>::empty());
            assert(self.spec_grid_child() == Seq::<Seq<char>>::empty());
            assert(self.spec_positioning() == Seq::<Seq<char>>::empty());
        }
        no_classes()
    }

    fn add_grid_classes(&self, classes: &mut Vec<String>) {
        proof {
            assert(self.spec_inline_styles() == Map::<Seq<char>, Seq<char>>::empty());
            assert(self.spec_css_variables() == Map::<Seq<char>, Seq<char>>::empty());
            assert(self.spec_position() == Seq::<Seq<char>>::empty());
            assert(self.spec_grid() == Seq::<Seq<char>>::empty());
            assert(self.spec_grid_child() == Seq::<Seq<char>>::empty());
            assert(self.spec_positioning() == Seq::<Seq<char>>::empty());
        }
        assert(views(classes@) =~= views(old(classes)@) + self.spec_grid());
    }

    fn get_grid_child_classes(&self) -> (r: Vec<String>) {
        proof {
            assert(self.spec_inline_styles() == Map::<Seq<char>, Seq<char>>::empty());
            assert(self.spec_css_variables() == Map::<Seq<char>, Seq<char>>::empty());
            assert(self.spec_position() == Seq::<Seq<char>>::empty());
            assert(self.spec_grid() == Seq::<Seq<char>>::empty());
            assert(self.spec_grid_child() == Seq::<Seq<char>>::empty());
            assert(self.spec_positioning() == Seq::<Seq<char>>::empty());
        }
        no_classes()
    }

    fn positioning_classes(&self) -> (r: Vec<String>) {
        proof {
            assert(self.spec_inline_styles() == Map::<Seq<char>, Seq<char>>::empty());
            assert(self.spec_css_variables() == Map::<Seq<char>, Seq<char>>::empty());
            assert(self.spec_position() == Seq::<Seq<char>>::empty());
            assert(self.spec_grid() == Seq::<Seq<char>>::empty());
            assert(self.spec_grid_child() == Seq::<Seq<char>>::empty());
            assert(self.spec_positioning() == Seq::<Seq<char>>::empty());
        }
        no_classes()
    }

    fn layout_and_content_classes(&self) -> (r: Vec<String>) {
        proof {
            assert(self.spec_inline_styles() == Map::<Seq<char>, Seq<char>>::empty());
            assert(self.spec_css_variables() == Map::<Seq<char>, Seq<char>>::empty());
            assert(self.spec_position() == Seq::<Seq<char>>::empty());
            assert(self.spec_grid() == Seq::<Seq<char>>::empty());
            assert(self.spec_grid_child() == Seq::<Seq<char>>::empty());
            assert(self.spec_positioning() == Seq::<Seq<char>>::empty());
        }
        assert(self.spec_layout_and_content() == text_layout(self) + text_sizing(self) + text_spacing(self)
            + text_visual(self));
        concat(concat(concat(self.layout_classes(), self.sizing_classes()), self.spacing_classes()),
            self.visual_classes())
    }
}

impl TailwindStyleExt for GroupNode {
    open spec fn spec_classes(&self) -> Seq<Seq<char>> {
        seq!["relative"@]
    }

    open spec fn spec_inline_styles(&self) -> Map<Seq<char>, Seq<char>> {
        Map::empty()
    }

    open spec fn spec_css_variables(&self) -> Map<Seq<char>, Seq<char>> {
        Map::empty()
    }

    open spec fn spec_layout(&self) -> Seq<Seq<char>> {
        seq!["relative"@]
    }

    open spec fn spec_sizing(&self) -> Seq<Seq<char>> {
        seq![]
    }

    open spec fn spec_spacing(&self) -> Seq<Seq<char>> {
        seq![]
    }

    open spec fn spec_visual(&self) -> Seq<Seq<char>> {
        seq![]
    }

    open spec fn spec_position(&self) -> Seq<Seq<char>> {
        seq![]
    }

    open spec fn spec_grid(&self) -> Seq<Seq<char>> {
        seq![]
    }

    open spec fn spec_grid_child(&self) -> Seq<Seq<char>> {
        seq![]
    }

    open spec fn spec_positioning(&self) -> Seq<Seq<char>> {
        seq![]
    }

    open spec fn spec_layout_and_content(&self) -> Seq<Seq<char>> {
        seq!["relative"@]
    }

    fn to_tailwind(&self) -> (r: TailwindStyles) {
        proof {
            assert(self.spec_classes() == seq!["relative"@]);
            assert(self.spec_inline_styles() == Map::<Seq<char>, Seq<char>>::empty());
            assert(self.spec_css_variables() == Map::<Seq<char>, Seq<char>>::empty());
            assert(self.spec_layout() == seq!["relative"@]);
            assert(self.spec_sizing() == Seq::<Seq<char>>::empty());
            assert(self.spec_spacing() == Seq::<Seq<char>>::empty());
            assert(self.spec_visual() == Seq::<Seq<char>>::empty());
            assert(self.spec_position() == Seq::<Seq<char>>::empty());
            assert(self.spec_grid() == Seq::<Seq<char>>::empty());
            assert(self.spec_grid_child() == Seq::<Seq<char>>::empty());
            assert(self.spec_positioning() == Seq::<Seq<char>>::empty());
            assert(self.spec_layout_and_content() == seq!["relative"@]);
        }
        let mut styles = TailwindStyles::new();
        styles.classes = lit("relative");
        styles
    }

    fn layout_classes(&self) -> (r: Vec<String>) {
        proof {
            assert(self.spec_classes() == seq!["relative"@]);
            assert(self.spec_inline_styles() == Map::<Seq<char>, Seq<char>>::empty());
            assert(self.spec_css_variables() == Map::<Seq<char>, Seq<char>>::empty());
            assert(self.spec_layout() == seq!["relative"@]);
            assert(self.spec_sizing() == Seq::<Seq<char>>::empty());
            assert(self.spec_spacing() == Seq::<Seq<char>>::empty());
            assert(self.spec_visual() == Seq::<Seq<char>>::empty());
            assert(self.spec_position() == Seq::<Seq<char>>::empty());
            assert(self.spec_grid() == Seq::<Seq<char>>::empty());
            assert(self.spec_grid_child() == Seq::<Seq<char>>::empty());
            assert(self.spec_positioning() == Seq::<Seq<char>>::empty());
            assert(self.spec_layout_and_content() == seq!["relative"@]);
        }
        lit("relative")
    }

    fn sizing_classes(&self) -> (r: Vec<String>) {
        proof {
            assert(self.spec_classes() == seq!["relative"@]);
            assert(self.spec_inline_styles() == Map::<Seq<char>, Seq<char>>::empty());
            assert(self.spec_css_variables() == Map::<Seq<char>, Seq<char>>::empty());
            assert(self.spec_layout() == seq!["relative"@]);
            assert(self.spec_sizing() == Seq::<Seq<char>>::empty());
            assert(self.spec_spacing() == Seq::<Seq<char>>::empty());
            assert(self.spec_visual() == Seq::<Seq<char>>::empty());
            assert(self.spec_position() == Seq::<Seq<char>>::empty());
            assert(self.spec_grid() == Seq::<Seq<char>>::empty());
            assert(self.spec_grid_child() == Seq::<Seq<char>>::empty());
            assert(self.spec_positioning() == Seq::<Seq<char>>::empty());
            assert(self.spec_layout_and_content() == seq!["relative"@]);
        }
        no_classes()
    }

    fn spacing_classes(&self) -> (r: Vec<String>) {
        proof {
            assert(self.spec_classes() == seq!["relative"@]);
            assert(self.spec_inline_styles() == Map::<Seq<char>, Seq<char>>::empty());
            assert(self.spec_css_variables() == Map::<Seq<char>, Seq<char>>::empty());
            assert(self.spec_layout() == seq!["relative"@]);
            assert(self.spec_sizing() == Seq::<Seq<char>>::empty());
            assert(self.spec_spacing() == Seq::<Seq<char>>::empty());
            assert(self.spec_visual() == Seq::<Seq<char>>::empty());
            assert(self.spec_position() == Seq::<Seq<char>>::empty());
            assert(self.spec_grid() == Seq::<Seq<char>>::empty());
            assert(self.spec_grid_child() == Seq::<Seq<char>>::empty());
            assert(self.spec_positioning() == Seq::<Seq<char>>::empty());
            assert(self.spec_layout_and_content() == seq!["relative"@]);
        }
        no_classes()
    }

    fn visual_classes(&self) -> (r: Vec<String>) {
        proof {
            assert(self.spec_classes() == seq!["relative"@]);
            assert(self.spec_inline_styles() == Map::<Seq<char>, Seq<char>>::empty());
            assert(self.spec_css_variables() == Map::<Seq<char>, Seq<char>>::empty());
            assert(self.spec_layout() == seq!["relative"@]);
            assert(self.spec_sizing() == Seq::<Seq<char>>::empty());
            assert(self.spec_spacing() == Seq::<Seq<char>>::empty());
            assert(self.spec_visual() == Seq::<Seq<char>>::empty());
            assert(self.spec_position() == Seq::<Seq<char>>::empty());
            assert(self.spec_grid() == Seq::<Seq<char>>::empty());
            assert(self.spec_grid_child() == Seq::<Seq<char>>::empty());
            assert(self.spec_positioning() == Seq::<Seq<char>>::empty());
            assert(self.spec_layout_and_content() == seq!["relative"@]);
        }
        no_classes()
    }

    fn position_classes(&self) -> (r: Vec<String>) {
        proof {
            assert(self.spec_classes() == seq!["relative"@]);
            assert(self.spec_inline_styles() == Map::<Seq<char>, Seq<char>>::empty());
            assert(self.spec_css_variables() == Map::<Seq<char>, Seq<char>>::empty());
            assert(self.spec_layout() == seq!["relative"@]);
            assert(self.spec_sizing() == Seq::<Seq<char>>::empty());
            assert(self.spec_spacing() == Seq::<Seq<char>>::empty());
            assert(self.spec_visual() == Seq::<Seq<char>>::empty());
            assert(self.spec_position() == Seq::<Seq<char>>::empty());
            assert(self.spec_grid() == Seq::<Seq<char>>::empty());
            assert(self.spec_grid_child() == Seq::<Seq<char>>::empty());
            assert(self.spec_positioning() == Seq::<Seq<char>>::empty());
            assert(self.spec_layout_and_content() == seq!["relative"@]);
        }
        no_classes()
    }

    fn add_grid_classes(&self, classes: &mut Vec<String>) {
        proof {
            assert(self.spec_classes() == seq!["relative"@]);
            assert(self.spec_inline_styles() == Map::<Seq<char>, Seq<char>>::empty());
            assert(self.spec_css_variables() == Map::<Seq<char>, Seq<char>>::empty());
            assert(self.spec_layout() == seq!["relative"@]);
            assert(self.spec_sizing() == Seq::<Seq<char>>::empty());
            assert(self.spec_spacing() == Seq::<Seq<char>>::empty());
            assert(self.spec_visual() == Seq::<Seq<char>>::empty());
            assert(self.spec_position() == Seq::<Seq<char>>::empty());
            assert(self.spec_grid() == Seq::<Seq<char>>::empty());
            assert(self.spec_grid_child() == Seq::<Seq<char>>::empty());
            assert(self.spec_positioning() == Seq::<Seq<char>>::empty());
            assert(self.spec_layout_and_content() == seq!["relative"@]);
        }
        assert(views(classes@) =~= views(old(classes)@) + self.spec_grid());
    }

    fn get_grid_child_classes(&self) -> (r: Vec<String>) {
        proof {
            assert(self.spec_classes() == seq!["relative"@]);
            assert(self.spec_inline_styles() == Map::<Seq<char>, Seq<char>>::empty());
            assert(self.spec_css_variables() == Map::<Seq<char>, Seq<char>>::empty());
            assert(self.spec_layout() == seq!["relative"@]);
            assert(self.spec_sizing() == Seq::<Seq<char>>::empty());
            assert(self.spec_spacing() == Seq::<Seq<char>>::empty());
            assert(self.spec_visual() == Seq::<Seq<char>>::empty());
            assert(self.spec_position() == Seq::<Seq<char>>::empty());
            assert(self.spec_grid() == Seq::<Seq<char>>::empty());
            assert(self.spec_grid_child() == Seq::<Seq<char>>::empty());
            assert(self.spec_positioning() == Seq::<Seq<char>>::empty());
            assert(self.spec_layout_and_content() == seq!["relative"@]);
        }
        no_classes()
    }

    fn positioning_classes(&self) -> (r: Vec<String>) {
        proof {
            assert(self.spec_classes() == seq!["relative"@]);
            assert(self.spec_inline_styles() == Map::<Seq<char>, Seq<char>>::empty());
            assert(self.spec_css_variables() == Map::<Seq<char>, Seq<char>>::empty());
            assert(self.spec_layout() == seq!["relative"@]);
            assert(self.spec_sizing() == Seq::<Seq<char>>::empty());
            assert(self.spec_spacing() == Seq::<Seq<char>>::empty());
            assert(self.spec_visual() == Seq::<Seq<char>>::empty());
            assert(self.spec_position() == Seq::<Seq<char>>::empty());
            assert(self.spec_grid() == Seq::<Seq<char>>::empty());
            assert(self.spec_grid_child() == Seq::<Seq<char>>::empty());
            assert(self.spec_positioning() == Seq::<Seq<char>>::empty());
            assert(self.spec_layout_and_content() == seq!["relative"@]);
        }
        no_classes()
    }

    fn layout_and_content_classes(&self) -> (r: Vec<String>) {
        proof {
            assert(self.spec_classes() == seq!["relative"@]);
            assert(self.spec_inline_styles() == Map::<Seq<char>, Seq<char>>::empty());
            assert(self.spec_css_variables() == Map::<Seq<char>, Seq<char>>::empty());
            assert(self.spec_layout() == seq!["relative"@]);
            assert(self.spec_sizing() == Seq::<Seq<char>>::empty());
            assert(self.spec_spacing() == Seq::<Seq<char>>::empty());
            assert(self.spec_visual() == Seq::<Seq<char>>::empty());
            assert(self.spec_position() == Seq::<Seq<char>>::empty());
            assert(self.spec_grid() == Seq::<Seq<char>>::empty());
            assert(self.spec_grid_child() == Seq::<Seq<char>>::empty());
            assert(self.spec_positioning() == Seq::<Seq<char>>::empty());
            assert(self.spec_layout_and_content() == seq!["relative"@]);
        }
        let r = concat(lit("relative"), self.visual_classes());
        assert(views(r@) =~= seq!["relative"@]);
        r
    }
}

/// One class.
fn lit(s: &str) -> (r: Vec<String>)
    ensures
        views(r@) == seq![s@],
{
    class_vec(owned(s))
}

/// One class.
fn class_vec(s: String) -> (r: Vec<String>)
    ensures
        views(r@) == seq![s@],
{
    let mut v: Vec<String> = Vec::new();
    push_string(&mut v, s);
    assert(views(v@) =~= seq![s@]);
    v
}

/// No class.
fn no_classes() -> (r: Vec<String>)
    ensures
        views(r@) == Seq::<Seq<char>>::empty(),
{
    let v: Vec<String> = Vec::new();
    assert(views(v@) =~= Seq::<Seq<char>>::empty());
    v
}

/// The classes of `a` followed by those of `b`.
fn concat(a: Vec<String>, b: Vec<String>) -> (r: Vec<String>)
    ensures
        views(r@) == views(a@) + views(b@),
{
    let mut a = a;
    extend_strings(&mut a, b);
    a
}

fn px_classes(prefix: &str, d: &Option<Decimal>) -> (r: Vec<String>)
    ensures
        views(r@) == opt_px(prefix@, *d),
{
    match d {
        Some(x) => class_vec(make_dec_class(prefix, x, "px]")),
        None => no_classes(),
    }
}

fn px_pos_classes(prefix: &str, d: &Option<Decimal>) -> (r: Vec<String>)
    ensures
        views(r@) == opt_px_pos(prefix@, *d),
{
    match d {
        Some(x) => px_if_pos_classes(prefix, x),
        None => no_classes(),
    }
}

fn px_if_pos_classes(prefix: &str, x: &Decimal) -> (r: Vec<String>)
    ensures
        views(r@) == px_if_pos(prefix@, *x),
{
    if x.gt_int(0) {
        class_vec(make_dec_class(prefix, x, "px]"))
    } else {
        no_classes()
    }
}

fn count_classes(prefix: &str, d: &Option<Decimal>) -> (r: Vec<String>)
    ensures
        views(r@) == count_class(prefix@, *d),
{
    match d {
        Some(c) => if c.gt_int(0) {
            let n = c.trunc_usize();
            let mut v: Vec<char> = Vec::new();
            crate::decimal::push_dec_digits(n as u64, &mut v);
            let digits = string_of(&v);
            class_vec(cat2(prefix, digits.as_str()))
        } else {
            no_classes()
        },
        None => no_classes(),
    }
}

fn sizing_classes_of(prefix: &str, s: &Option<String>) -> (r: Vec<String>)
    ensures
        views(r@) == sizing_class(prefix@, *s),
{
    match s {
        Some(t) => if t.as_str().unicode_len() > 0 {
            class_vec(cat3(prefix, t.as_str(), "]"))
        } else {
            no_classes()
        },
        None => no_classes(),
    }
}

fn absolute_classes(p: Option<LayoutPositioning>) -> (r: Vec<String>)
    ensures
        views(r@) == absolute_class(p),
{
    match p {
        Some(LayoutPositioning::Absolute) => lit("absolute"),
        _ => no_classes(),
    }
}

fn align_classes(a: LayoutAlign) -> (r: Vec<String>)
    ensures
        views(r@) == opt_class(align_class(a)),
{
    match a {
        LayoutAlign::Inherit => no_classes(),
        LayoutAlign::Stretch => lit("self-stretch"),
        LayoutAlign::Min => lit("self-start"),
        LayoutAlign::Center => lit("self-center"),
        LayoutAlign::Max => lit("self-end"),
    }
}

fn rotation_classes(rotation: &Option<Rotation>) -> (r: Vec<String>)
    ensures
        views(r@) == rotation_class(*rotation),
{
    match rotation {
        Some(r) => if !r.radians.eq_int(0) {
            class_vec(make_dec_class("rotate-[", &r.degrees, "deg]"))
        } else {
            no_classes()
        },
        None => no_classes(),
    }
}

/// Adds the inline styles and CSS variables of a frame that Tailwind classes
/// cannot express.
pub fn add_inline_styles(frame: &FrameNode, styles: &mut TailwindStyles)
    ensures
        final(styles).classes@ == old(styles).classes@,
        final(styles).inline_styles@ == old(styles).inline_styles@.union_prefer_right(frame_inline_styles(frame)),
        final(styles).css_variables@ == old(styles).css_variables@.union_prefer_right(frame_css_variables(frame)),
{
    match &frame.opacity {
        Some(o) => {
            if o.value.lt_int(1) && opacity_class(o.percent).is_none() {
                styles.inline_styles.insert(owned("opacity"), o.value.to_text());
            }
        },
        None => {},
    }
    assert(styles.inline_styles@ =~= old(styles).inline_styles@.union_prefer_right(frame_inline_styles(frame)));
    match &frame.counter_axis_spacing {
        Some(c) => {
            if c.gt_int(0) {
                let t = c.to_text();
                styles.css_variables.insert(owned("--counter-axis-spacing"), cat2(t.as_str(), "px"));
            }
        },
        None => {},
    }
    assert(styles.css_variables@ =~= old(styles).css_variables@.union_prefer_right(frame_css_variables(frame)));
}

impl TailwindStyleExt for RectangleNode {
    open spec fn spec_classes(&self) -> Seq<Seq<char>> {
        seq!["inline-block"@]
    }

    open spec fn spec_inline_styles(&self) -> Map<Seq<char>, Seq<char>> {
        Map::empty()
    }

    open spec fn spec_css_variables(&self) -> Map<Seq<char>, Seq<char>> {
        Map::empty()
    }

    open spec fn spec_layout(&self) -> Seq<Seq<char>> {
        seq!["inline-block"@]
    }

    open spec fn spec_sizing(&self) -> Seq<Seq<char>> {
        seq![]
    }

    open spec fn spec_spacing(&self) -> Seq<Seq<char>> {
        seq![]
    }

    open spec fn spec_visual(&self) -> Seq<Seq<char>> {
        seq![]
    }

    open spec fn spec_position(&self) -> Seq<Seq<char>> {
        seq![]
    }

    open spec fn spec_grid(&self) -> Seq<Seq<char>> {
        seq![]
    }

    open spec fn spec_grid_child(&self) -> Seq<Seq<char>> {
        seq![]
    }

    open spec fn spec_positioning(&self) -> Seq<Seq<char>> {
        seq![]
    }

    open spec fn spec_layout_and_content(&self) -> Seq<Seq<char>> {
        seq!["inline-block"@]
    }

    fn to_tailwind(&self) -> (r: TailwindStyles) {
        proof {
            assert(self.spec_classes() == seq!["inline-block"@]);
            assert(self.spec_inline_styles() == Map::<Seq<char>, Seq<char>>::empty());
            assert(self.spec_css_variables() == Map::<Seq<char>, Seq<char>>::empty());
            assert(self.spec_layout() == seq!["inline-block"@]);
            assert(self.spec_sizing() == Seq::<Seq<char>>::empty());
            assert(self.spec_spacing() == Seq::<Seq<char>>::empty());
            assert(self.spec_visual() == Seq::<Seq<char>>::empty());
            assert(self.spec_position() == Seq::<Seq<char>>::empty());
            assert(self.spec_grid() == Seq::<Seq<char>>::empty());
            assert(self.spec_grid_child() == Seq::<Seq<char>>::empty());
            assert(self.spec_positioning() == Seq::<Seq<char>>::empty());
            assert(self.spec_layout_and_content() == seq!["inline-block"@]);
        }
        let mut styles = TailwindStyles::new();
        styles.classes = lit("inline-block");
        styles
    }

    fn layout_classes(&self) -> (r: Vec<String>) {
        proof {
            assert(self.spec_classes() == seq!["inline-block"@]);
            assert(self.spec_inline_styles() == Map::<Seq<char>, Seq<char>>::empty());
            assert(self.spec_css_variables() == Map::<Seq<char>, Seq<char>>::empty());
            assert(self.spec_layout() == seq!["inline-block"@]);
            assert(self.spec_sizing() == Seq::<Seq<char>>::empty());
            assert(self.spec_spacing() == Seq::<Seq<char>>::empty());
            assert(self.spec_visual() == Seq::<Seq<char>>::empty());
            assert(self.spec_position() == Seq::<Seq<char>>::empty());
            assert(self.spec_grid() == Seq::<Seq<char>>::empty());
            assert(self.spec_grid_child() == Seq::<Seq<char>>::empty());
            assert(self.spec_positioning() == Seq::<Seq<char>>::empty());
            assert(self.spec_layout_and_content() == seq!["inline-block"@]);
        }
        lit("inline-block")
    }

    fn sizing_classes(&self) -> (r: Vec<String>) {
        proof {
            assert(self.spec_classes() == seq!["inline-block"@]);
            assert(self.spec_inline_styles() == Map::<Seq<char>, Seq<char>>::empty());
            assert(self.spec_css_variables() == Map::<Seq<char>, Seq<char>>::empty());
            assert(self.spec_layout() == seq!["inline-block"@]);
            assert(self.spec_sizing() == Seq::<Seq<char>>::empty());
            assert(self.spec_spacing() == Seq::<Seq<char>>::empty());
            assert(self.spec_visual() == Seq::<Seq<char>>::empty());
            assert(self.spec_position() == Seq::<Seq<char>>::empty());
            assert(self.spec_grid() == Seq::<Seq<char>>::empty());
            assert(self.spec_grid_child() == Seq::<Seq<char>>::empty());
            assert(self.spec_positioning() == Seq::<Seq<char>>::empty());
            assert(self.spec_layout_and_content() == seq!["inline-block"@]);
        }
        no_classes()
    }

    fn spacing_classes(&self) -> (r: Vec<String>) {
        proof {
            assert(self.spec_classes() == seq!["inline-block"@]);
            assert(self.spec_inline_styles() == Map::<Seq<char>, Seq<char>>::empty());
            assert(self.spec_css_variables() == Map::<Seq<char>, Seq<char>>::empty());
            assert(self.spec_layout() == seq!["inline-block"@]);
            assert(self.spec_sizing() == Seq::<Seq<char>>::empty());
            assert(self.spec_spacing() == Seq::<Seq<char>>::empty());
            assert(self.spec_visual() == Seq::<Seq<char>>::empty());
            assert(self.spec_position() == Seq::<Seq<char>>::empty());
            assert(self.spec_grid() == Seq::<Seq<char>>::empty());
            assert(self.spec_grid_child() == Seq::<Seq<char>>::empty());
            assert(self.spec_positioning() == Seq::<Seq<char>>::empty());
            assert(self.spec_layout_and_content() == seq!["inline-block"@]);
        }
        no_classes()
    }

    fn visual_classes(&self) -> (r: Vec<String>) {
        proof {
            assert(self.spec_classes() == seq!["inline-block"@]);
            assert(self.spec_inline_styles() == Map::<Seq<char>, Seq<char>>::empty());
            assert(self.spec_css_variables() == Map::<Seq<char>, Seq<char>>::empty());
            assert(self.spec_layout() == seq!["inline-block"@]);
            assert(self.spec_sizing() == Seq::<Seq<char>>::empty());
            assert(self.spec_spacing() == Seq::<Seq<char>>::empty());
            assert(self.spec_visual() == Seq::<Seq<char>>::empty());
            assert(self.spec_position() == Seq::<Seq<char>>::empty());
            assert(self.spec_grid() == Seq::<Seq<char>>::empty());
            assert(self.spec_grid_child() == Seq::<Seq<char>>::empty());
            assert(self.spec_positioning() == Seq::<Seq<char>>::empty());
            assert(self.spec_layout_and_content() == seq!["inline-block"@]);
        }
        no_classes()
    }

    fn position_classes(&self) -> (r: Vec<String>) {
        proof {
            assert(self.spec_classes() == seq!["inline-block"@]);
            assert(self.spec_inline_styles() == Map::<Seq<char>, Seq<char>>::empty());
            assert(self.spec_css_variables() == Map::<Seq<char>, Seq<char>>::empty());
            assert(self.spec_layout() == seq!["inline-block"@]);
            assert(self.spec_sizing() == Seq::<Seq<char>>::empty());
            assert(self.spec_spacing() == Seq::<Seq<char>>::empty());
            assert(self.spec_visual() == Seq::<Seq<char>>::empty());
            assert(self.spec_position() == Seq::<Seq<char>>::empty());
            assert(self.spec_grid() == Seq::<Seq<char>>::empty());
            assert(self.spec_grid_child() == Seq::<Seq<char>>::empty());
            assert(self.spec_positioning() == Seq::<Seq<char>>::empty());
            assert(self.spec_layout_and_content() == seq!["inline-block"@]);
        }
        no_classes()
    }

    fn add_grid_classes(&self, classes: &mut Vec<String>) {
        proof {
            assert(self.spec_classes() == seq!["inline-block"@]);
            assert(self.spec_inline_styles() == Map::<Seq<char>, Seq<char>>::empty());
            assert(self.spec_css_variables() == Map::<Seq<char>, Seq<char>>::empty());
            assert(self.spec_layout() == seq!["inline-block"@]);
            assert(self.spec_sizing() == Seq::<Seq<char>>::empty());
            assert(self.spec_spacing() == Seq::<Seq<char>>::empty());
            assert(self.spec_visual() == Seq::<Seq<char>>::empty());
            assert(self.spec_position() == Seq::<Seq<char>>::empty());
            assert(self.spec_grid() == Seq::<Seq<char>>::empty());
            assert(self.spec_grid_child() == Seq::<Seq<char>>::empty());
            assert(self.spec_positioning() == Seq::<Seq<char>>::empty());
            assert(self.spec_layout_and_content() == seq!["inline-block"@]);
        }
        assert(views(classes@) =~= views(old(classes)@) + self.spec_grid());
    }

    fn get_grid_child_classes(&self) -> (r: Vec<String>) {
        proof {
            assert(self.spec_classes() == seq!["inline-block"@]);
            assert(self.spec_inline_styles() == Map::<Seq<char>, Seq<char>>::empty());
            assert(self.spec_css_variables() == Map::<Seq<char>, Seq<char>>::empty());
            assert(self.spec_layout() == seq!["inline-block"@]);
            assert(self.spec_sizing() == Seq::<Seq<char>>::empty());
            assert(self.spec_spacing() == Seq::<Seq<char>>::empty());
            assert(self.spec_visual() == Seq::<Seq<char>>::empty());
            assert(self.spec_position() == Seq::<Seq<char>>::empty());
            assert(self.spec_grid() == Seq::<Seq<char>>::empty());
            assert(self.spec_grid_child() == Seq::<Seq<char>>::empty());
            assert(self.spec_positioning() == Seq::<Seq<char>>::empty());
            assert(self.spec_layout_and_content() == seq!["inline-block"@]);
        }
        no_classes()
    }

    fn positioning_classes(&self) -> (r: Vec<String>) {
        proof {
            assert(self.spec_classes() == seq!["inline-block"@]);
            assert(self.spec_inline_styles() == Map::<Seq<char>, Seq<char>>::empty());
            assert(self.spec_css_variables() == Map::<Seq<char>, Seq<char>>::empty());
            assert(self.spec_layout() == seq!["inline-block"@]);
            assert(self.spec_sizing() == Seq::<Seq<char>>::empty());
            assert(self.spec_spacing() == Seq::<Seq<char>>::empty());
            assert(self.spec_visual() == Seq::<Seq<char>>::empty());
            assert(self.spec_position() == Seq::<Seq<char>>::empty());
            assert(self.spec_grid() == Seq::<Seq<char>>::empty());
            assert(self.spec_grid_child() == Seq::<Seq<char>>::empty());
            assert(self.spec_positioning() == Seq::<Seq<char>>::empty());
            assert(self.spec_layout_and_content() == seq!["inline-block"@]);
        }
        no_classes()
    }

    fn layout_and_content_classes(&self) -> (r: Vec<String>) {
        proof {
            assert(self.spec_classes() == seq!["inline-block"@]);
            assert(self.spec_inline_styles() == Map::<Seq<char>, Seq<char>>::empty());
            assert(self.spec_css_variables() == Map::<Seq<char>, Seq<char>>::empty());
            assert(self.spec_layout() == seq!["inline-block"@]);
            assert(self.spec_sizing() == Seq::<Seq<char>>::empty());
            assert(self.spec_spacing() == Seq::<Seq<char>>::empty());
            assert(self.spec_visual() == Seq::<Seq<char>>::empty());
            assert(self.spec_position() == Seq::<Seq<char>>::empty());
            assert(self.spec_grid() == Seq::<Seq<char>>::empty());
            assert(self.spec_grid_child() == Seq::<Seq<char>>::empty());
            assert(self.spec_positioning() == Seq::<Seq<char>>::empty());
            assert(self.spec_layout_and_content() == seq!["inline-block"@]);
        }
        let r = concat(concat(concat(self.layout_classes(), self.sizing_classes()), self.spacing_classes()),
            self.visual_classes());
        assert(views(r@) =~= seq!["inline-block"@]);
        r
    }
}

impl TailwindStyleExt for EllipseNode {
    open spec fn spec_classes(&self) -> Seq<Seq<char>> {
        seq!["inline-block"@]
    }

    open spec fn spec_inline_styles(&self) -> Map<Seq<char>, Seq<char>> {
        Map::empty()
    }

    open spec fn spec_css_variables(&self) -> Map<Seq<char>, Seq<char>> {
        Map::empty()
    }

    open spec fn spec_layout(&self) -> Seq<Seq<char>> {
        seq!["inline-block"@]
    }

    open spec fn spec_sizing(&self) -> Seq<Seq<char>> {
        seq![]
    }

    open spec fn spec_spacing(&self) -> Seq<Seq<char>> {
        seq![]
    }

    open spec fn spec_visual(&self) -> Seq<Seq<char>> {
        seq![]
    }

    open spec fn spec_position(&self) -> Seq<Seq<char>> {
        seq![]
    }

    open spec fn spec_grid(&self) -> Seq<Seq<char>> {
        seq![]
    }

    open spec fn spec_grid_child(&self) -> Seq<Seq<char>> {
        seq![]
    }

    open spec fn spec_positioning(&self) -> Seq<Seq<char>> {
        seq![]
    }

    open spec fn spec_layout_and_content(&self) -> Seq<Seq<char>> {
        seq!["inline-block"@]
    }

    fn to_tailwind(&self) -> (r: TailwindStyles) {
        proof {
            assert(self.spec_classes() == seq!["inline-block"@]);
            assert(self.spec_inline_styles() == Map::<Seq<char>, Seq<char>>::empty());
            assert(self.spec_css_variables() == Map::<Seq<char>, Seq<char>>::empty());
            assert(self.spec_layout() == seq!["inline-block"@]);
            assert(self.spec_sizing() == Seq::<Seq<char>>::empty());
            assert(self.spec_spacing() == Seq::<Seq<char>>::empty());
            assert(self.spec_visual() == Seq::<Seq<char>>::empty());
            assert(self.spec_position() == Seq::<Seq<char>>::empty());
            assert(self.spec_grid() == Seq::<Seq<char>>::empty());
            assert(self.spec_grid_child() == Seq::<Seq<char>>::empty());
            assert(self.spec_positioning() == Seq::<Seq<char>>::empty());
            assert(self.spec_layout_and_content() == seq!["inline-block"@]);
        }
        let mut styles = TailwindStyles::new();
        styles.classes = lit("inline-block");
        styles
    }

    fn layout_classes(&self) -> (r: Vec<String>) {
        proof {
            assert(self.spec_classes() == seq!["inline-block"@]);
            assert(self.spec_inline_styles() == Map::<Seq<char>, Seq<char>>::empty());
            assert(self.spec_css_variables() == Map::<Seq<char>, Seq<char>>::empty());
            assert(self.spec_layout() == seq!["inline-block"@]);
            assert(self.spec_sizing() == Seq::<Seq<char>>::empty());
            assert(self.spec_spacing() == Seq::<Seq<char>>::empty());
            assert(self.spec_visual() == Seq::<Seq<char>>::empty());
            assert(self.spec_position() == Seq::<Seq<char>>::empty());
            assert(self.spec_grid() == Seq::<Seq<char>>::empty());
            assert(self.spec_grid_child() == Seq::<Seq<char>>::empty());
            assert(self.spec_positioning() == Seq::<Seq<char>>::empty());
            assert(self.spec_layout_and_content() == seq!["inline-block"@]);
        }
        lit("inline-block")
    }

    fn sizing_classes(&self) -> (r: Vec<String>) {
        proof {
            assert(self.spec_classes() == seq!["inline-block"@]);
            assert(self.spec_inline_styles() == Map::<Seq<char>, Seq<char>>::empty());
            assert(self.spec_css_variables() == Map::<Seq<char>, Seq<char>>::empty());
            assert(self.spec_layout() == seq!["inline-block"@]);
            assert(self.spec_sizing() == Seq::<Seq<char>>::empty());
            assert(self.spec_spacing() == Seq::<Seq<char>>::empty());
            assert(self.spec_visual() == Seq::<Seq<char>>::empty());
            assert(self.spec_position() == Seq::<Seq<char>>::empty());
            assert(self.spec_grid() == Seq::<Seq<char>>::empty());
            assert(self.spec_grid_child() == Seq::<Seq<char>>::empty());
            assert(self.spec_positioning() == Seq::<Seq<char>>::empty());
            assert(self.spec_layout_and_content() == seq!["inline-block"@]);
        }
        no_classes()
    }

    fn spacing_classes(&self) -> (r: Vec<String>) {
        proof {
            assert(self.spec_classes() == seq!["inline-block"@]);
            assert(self.spec_inline_styles() == Map::<Seq<char>, Seq<char>>::empty());
            assert(self.spec_css_variables() == Map::<Seq<char>, Seq<char>>::empty());
            assert(self.spec_layout() == seq!["inline-block"@]);
            assert(self.spec_sizing() == Seq::<Seq<char>>::empty());
            assert(self.spec_spacing() == Seq::<Seq<char>>::empty());
            assert(self.spec_visual() == Seq::<Seq<char>>::empty());
            assert(self.spec_position() == Seq::<Seq<char>>::empty());
            assert(self.spec_grid() == Seq::<Seq<char>>::empty());
            assert(self.spec_grid_child() == Seq::<Seq<char>>::empty());
            assert(self.spec_positioning() == Seq::<Seq<char>>::empty());
            assert(self.spec_layout_and_content() == seq!["inline-block"@]);
        }
        no_classes()
    }

    fn visual_classes(&self) -> (r: Vec<String>) {
        proof {
            assert(self.spec_classes() == seq!["inline-block"@]);
            assert(self.spec_inline_styles() == Map::<Seq<char>, Seq<char>>::empty());
            assert(self.spec_css_variables() == Map::<Seq<char>, Seq<char>>::empty());
            assert(self.spec_layout() == seq!["inline-block"@]);
            assert(self.spec_sizing() == Seq::<Seq<char>>::empty());
            assert(self.spec_spacing() == Seq::<Seq<char>>::empty());
            assert(self.spec_visual() == Seq::<Seq<char>>::empty());
            assert(self.spec_position() == Seq::<Seq<char>>::empty());
            assert(self.spec_grid() == Seq::<Seq<char>>::empty());
            assert(self.spec_grid_child() == Seq::<Seq<char>>::empty());
            assert(self.spec_positioning() == Seq::<Seq<char>>::empty());
            assert(self.spec_layout_and_content() == seq!["inline-block"@]);
        }
        no_classes()
    }

    fn position_classes(&self) -> (r: Vec<String>) {
        proof {
            assert(self.spec_classes() == seq!["inline-block"@]);
            assert(self.spec_inline_styles() == Map::<Seq<char>, Seq<char>>::empty());
            assert(self.spec_css_variables() == Map::<Seq<char>, Seq<char>>::empty());
            assert(self.spec_layout() == seq!["inline-block"@]);
            assert(self.spec_sizing() == Seq::<Seq<char>>::empty());
            assert(self.spec_spacing() == Seq::<Seq<char>>::empty());
            assert(self.spec_visual() == Seq::<Seq<char>>::empty());
            assert(self.spec_position() == Seq::<Seq<char>>::empty());
            assert(self.spec_grid() == Seq::<Seq<char>>::empty());
            assert(self.spec_grid_child() == Seq::<Seq<char>>::empty());
            assert(self.spec_positioning() == Seq::<Seq<char>>::empty());
            assert(self.spec_layout_and_content() == seq!["inline-block"@]);
        }
        no_classes()
    }

    fn add_grid_classes(&self, classes: &mut Vec<String>) {
        proof {
            assert(self.spec_classes() == seq!["inline-block"@]);
            assert(self.spec_inline_styles() == Map::<Seq<char>, Seq<char>>::empty());
            assert(self.spec_css_variables() == Map::<Seq<char>, Seq<char>>::empty());
            assert(self.spec_layout() == seq!["inline-block"@]);
            assert(self.spec_sizing() == Seq::<Seq<char>>::empty());
            assert(self.spec_spacing() == Seq::<Seq<char>>::empty());
            assert(self.spec_visual() == Seq::<Seq<char>>::empty());
            assert(self.spec_position() == Seq::<Seq<char>>::empty());
            assert(self.spec_grid() == Seq::<Seq<char>>::empty());
            assert(self.spec_grid_child() == Seq::<Seq<char>>::empty());
            assert(self.spec_positioning() == Seq::<Seq<char>>::empty());
            assert(self.spec_layout_and_content() == seq!["inline-block"@]);
        }
        assert(views(classes@) =~= views(old(classes)@) + self.spec_grid());
    }

    fn get_grid_child_classes(&self) -> (r: Vec<String>) {
        proof {
            assert(self.spec_classes() == seq!["inline-block"@]);
            assert(self.spec_inline_styles() == Map::<Seq<char>, Seq<char>>::empty());
            assert(self.spec_css_variables() == Map::<Seq<char>, Seq<char>>::empty());
            assert(self.spec_layout() == seq!["inline-block"@]);
            assert(self.spec_sizing() == Seq::<Seq<char>>::empty());
            assert(self.spec_spacing() == Seq::<Seq<char>>::empty());
            assert(self.spec_visual() == Seq::<Seq<char>>::empty());
            assert(self.spec_position() == Seq::<Seq<char>>::empty());
            assert(self.spec_grid() == Seq::<Seq<char>>::empty());
            assert(self.spec_grid_child() == Seq::<Seq<char>>::empty());
            assert(self.spec_positioning() == Seq::<Seq<char>>::empty());
            assert(self.spec_layout_and_content() == seq!["inline-block"@]);
        }
        no_classes()
    }

    fn positioning_classes(&self) -> (r: Vec<String>) {
        proof {
            assert(self.spec_classes() == seq!["inline-block"@]);
            assert(self.spec_inline_styles() == Map::<Seq<char>, Seq<char>>::empty());
            assert(self.spec_css_variables() == Map::<Seq<char>, Seq<char>>::empty());
            assert(self.spec_layout() == seq!["inline-block"@]);
            assert(self.spec_sizing() == Seq::<Seq<char>>::empty());
            assert(self.spec_spacing() == Seq::<Seq<char>>::empty());
            assert(self.spec_visual() == Seq::<Seq<char>>::empty());
            assert(self.spec_position() == Seq::<Seq<char>>::empty());
            assert(self.spec_grid() == Seq::<Seq<char>>::empty());
            assert(self.spec_grid_child() == Seq::<Seq<char>>::empty());
            assert(self.spec_positioning() == Seq::<Seq<char>>::empty());
            assert(self.spec_layout_and_content() == seq!["inline-block"@]);
        }
        no_classes()
    }

    fn layout_and_content_classes(&self) -> (r: Vec<String>) {
        proof {
            assert(self.spec_classes() == seq!["inline-block"@]);
            assert(self.spec_inline_styles() == Map::<Seq<char>, Seq<char>>::empty());
            assert(self.spec_css_variables() == Map::<Seq<char>, Seq<char>>::empty());
            assert(self.spec_layout() == seq!["inline-block"@]);
            assert(self.spec_sizing() == Seq::<Seq<char>>::empty());
            assert(self.spec_spacing() == Seq::<Seq<char>>::empty());
            assert(self.spec_visual() == Seq::<Seq<char>>::empty());
            assert(self.spec_position() == Seq::<Seq<char>>::empty());
            assert(self.spec_grid() == Seq::<Seq<char>>::empty());
            assert(self.spec_grid_child() == Seq::<Seq<char>>::empty());
            assert(self.spec_positioning() == Seq::<Seq<char>>::empty());
            assert(self.spec_layout_and_content() == seq!["inline-block"@]);
        }
        let r = concat(concat(concat(self.layout_classes(), self.sizing_classes()), self.spacing_classes()),
            self.visual_classes());
        assert(views(r@) =~= seq!["inline-block"@]);
        r
    }
}

impl TailwindStyleExt for LineNode {
    open spec fn spec_classes(&self) -> Seq<Seq<char>> {
        seq!["inline-block"@]
    }

    open spec fn spec_inline_styles(&self) -> Map<Seq<char>, Seq<char>> {
        Map::empty()
    }

    open spec fn spec_css_variables(&self) -> Map<Seq<char>, Seq<char>> {
        Map::empty()
    }

    open spec fn spec_layout(&self) -> Seq<Seq<char>> {
        seq!["inline-block"@]
    }

    open spec fn spec_sizing(&self) -> Seq<Seq<char>> {
        seq![]
    }

    open spec fn spec_spacing(&self) -> Seq<Seq<char>> {
        seq![]
    }

    open spec fn spec_visual(&self) -> Seq<Seq<char>> {
        seq![]
    }

    open spec fn spec_position(&self) -> Seq<Seq<char>> {
        seq![]
    }

    open spec fn spec_grid(&self) -> Seq<Seq<char>> {
        seq![]
    }

    open spec fn spec_grid_child(&self) -> Seq<Seq<char>> {
        seq![]
    }

    open spec fn spec_positioning(&self) -> Seq<Seq<char>> {
        seq![]
    }

    open spec fn spec_layout_and_content(&self) -> Seq<Seq<char>> {
        seq!["inline-block"@]
    }

    fn to_tailwind(&self) -> (r: TailwindStyles) {
        proof {
            assert(self.spec_classes() == seq!["inline-block"@]);
            assert(self.spec_inline_styles() == Map::<Seq<char>, Seq<char>>::empty());
            assert(self.spec_css_variables() == Map::<Seq<char>, Seq<char>>::empty());
            assert(self.spec_layout() == seq!["inline-block"@]);
            assert(self.spec_sizing() == Seq::<Seq<char>>::empty());
            assert(self.spec_spacing() == Seq::<Seq<char>>::empty());
            assert(self.spec_visual() == Seq::<Seq<char>>::empty());
            assert(self.spec_position() == Seq::<Seq<char>>::empty());
            assert(self.spec_grid() == Seq::<Seq<char>>::empty());
            assert(self.spec_grid_child() == Seq::<Seq<char>>::empty());
            assert(self.spec_positioning() == Seq::<Seq<char>>::empty());
            assert(self.spec_layout_and_content() == seq!["inline-block"@]);
        }
        let mut styles = TailwindStyles::new();
        styles.classes = lit("inline-block");
        styles
    }

    fn layout_classes(&self) -> (r: Vec<String>) {
        proof {
            assert(self.spec_classes() == seq!["inline-block"@]);
            assert(self.spec_inline_styles() == Map::<Seq<char>, Seq<char>>::empty());
            assert(self.spec_css_variables() == Map::<Seq<char>, Seq<char>>::empty());
            assert(self.spec_layout() == seq!["inline-block"@]);
            assert(self.spec_sizing() == Seq::<Seq<char>>::empty());
            assert(self.spec_spacing() == Seq::<Seq<char>>::empty());
            assert(self.spec_visual() == Seq::<Seq<char>>::empty());
            assert(self.spec_position() == Seq::<Seq<char>>::empty());
            assert(self.spec_grid() == Seq::<Seq<char>>::empty());
            assert(self.spec_grid_child() == Seq::<Seq<char>>::empty());
            assert(self.spec_positioning() == Seq::<Seq<char>>::empty());
            assert(self.spec_layout_and_content() == seq!["inline-block"@]);
        }
        lit("inline-block")
    }

    fn sizing_classes(&self) -> (r: Vec<String>) {
        proof {
            assert(self.spec_classes() == seq!["inline-block"@]);
            assert(self.spec_inline_styles() == Map::<Seq<char>, Seq<char>>::empty());
            assert(self.spec_css_variables() == Map::<Seq<char>, Seq<char>>::empty());
            assert(self.spec_layout() == seq!["inline-block"@]);
            assert(self.spec_sizing() == Seq::<Seq<char>>::empty());
            assert(self.spec_spacing() == Seq::<Seq<char>>::empty());
            assert(self.spec_visual() == Seq::<Seq<char>>::empty());
            assert(self.spec_position() == Seq::<Seq<char>>::empty());
            assert(self.spec_grid() == Seq::<Seq<char>>::empty());
            assert(self.spec_grid_child() == Seq::<Seq<char>>::empty());
            assert(self.spec_positioning() == Seq::<Seq<char>>::empty());
            assert(self.spec_layout_and_content() == seq!["inline-block"@]);
        }
        no_classes()
    }

    fn spacing_classes(&self) -> (r: Vec<String>) {
        proof {
            assert(self.spec_classes() == seq!["inline-block"@]);
            assert(self.spec_inline_styles() == Map::<Seq<char>, Seq<char>>::empty());
            assert(self.spec_css_variables() == Map::<Seq<char>, Seq<char>>::empty());
            assert(self.spec_layout() == seq!["inline-block"@]);
            assert(self.spec_sizing() == Seq::<Seq<char>>::empty());
            assert(self.spec_spacing() == Seq::<Seq<char>>::empty());
            assert(self.spec_visual() == Seq::<Seq<char>>::empty());
            assert(self.spec_position() == Seq::<Seq<char>>::empty());
            assert(self.spec_grid() == Seq::<Seq<char>>::empty());
            assert(self.spec_grid_child() == Seq::<Seq<char>>::empty());
            assert(self.spec_positioning() == Seq::<Seq<char>>::empty());
            assert(self.spec_layout_and_content() == seq!["inline-block"@]);
        }
        no_classes()
    }

    fn visual_classes(&self) -> (r: Vec<String>) {
        proof {
            assert(self.spec_classes() == seq!["inline-block"@]);
            assert(self.spec_inline_styles() == Map::<Seq<char>, Seq<char>>::empty());
            assert(self.spec_css_variables() == Map::<Seq<char>, Seq<char>>::empty());
            assert(self.spec_layout() == seq!["inline-block"@]);
            assert(self.spec_sizing() == Seq::<Seq<char>>::empty());
            assert(self.spec_spacing() == Seq::<Seq<char>>::empty());
            assert(self.spec_visual() == Seq::<Seq<char>>::empty());
            assert(self.spec_position() == Seq::<Seq<char>>::empty());
            assert(self.spec_grid() == Seq::<Seq<char>>::empty());
            assert(self.spec_grid_child() == Seq::<Seq<char>>::empty());
            assert(self.spec_positioning() == Seq::<Seq<char>>::empty());
            assert(self.spec_layout_and_content() == seq!["inline-block"@]);
        }
        no_classes()
    }

    fn position_classes(&self) -> (r: Vec<String>) {
        proof {
            assert(self.spec_classes() == seq!["inline-block"@]);
            assert(self.spec_inline_styles() == Map::<Seq<char>, Seq<char>>::empty());
            assert(self.spec_css_variables() == Map::<Seq<char>, Seq<char>>::empty());
            assert(self.spec_layout() == seq!["inline-block"@]);
            assert(self.spec_sizing() == Seq::<Seq<char>>::empty());
            assert(self.spec_spacing() == Seq::<Seq<char>>::empty());
            assert(self.spec_visual() == Seq::<Seq<char>>::empty());
            assert(self.spec_position() == Seq::<Seq<char>>::empty());
            assert(self.spec_grid() == Seq::<Seq<char>>::empty());
            assert(self.spec_grid_child() == Seq::<Seq<char>>::empty());
            assert(self.spec_positioning() == Seq::<Seq<char>>::empty());
            assert(self.spec_layout_and_content() == seq!["inline-block"@]);
        }
        no_classes()
    }

    fn add_grid_classes(&self, classes: &mut Vec<String>) {
        proof {
            assert(self.spec_classes() == seq!["inline-block"@]);
            assert(self.spec_inline_styles() == Map::<Seq<char>, Seq<char>>::empty());
            assert(self.spec_css_variables() == Map::<Seq<char>, Seq<char>>::empty());
            assert(self.spec_layout() == seq!["inline-block"@]);
            assert(self.spec_sizing() == Seq::<Seq<char>>::empty());
            assert(self.spec_spacing() == Seq::<Seq<char>>::empty());
            assert(self.spec_visual() == Seq::<Seq<char>>::empty());
            assert(self.spec_position() == Seq::<Seq<char>>::empty());
            assert(self.spec_grid() == Seq::<Seq<char>>::empty());
            assert(self.spec_grid_child() == Seq::<Seq<char>>::empty());
            assert(self.spec_positioning() == Seq::<Seq<char>>::empty());
            assert(self.spec_layout_and_content() == seq!["inline-block"@]);
        }
        assert(views(classes@) =~= views(old(classes)@) + self.spec_grid());
    }

    fn get_grid_child_classes(&self) -> (r: Vec<String>) {
        proof {
            assert(self.spec_classes() == seq!["inline-block"@]);
            assert(self.spec_inline_styles() == Map::<Seq<char>, Seq<char>>::empty());
            assert(self.spec_css_variables() == Map::<Seq<char>, Seq<char>>::empty());
            assert(self.spec_layout() == seq!["inline-block"@]);
            assert(self.spec_sizing() == Seq::<Seq<char>>::empty());
            assert(self.spec_spacing() == Seq::<Seq<char>>::empty());
            assert(self.spec_visual() == Seq::<Seq<char>>::empty());
            assert(self.spec_position() == Seq::<Seq<char>>::empty());
            assert(self.spec_grid() == Seq::<Seq<char>>::empty());
            assert(self.spec_grid_child() == Seq::<Seq<char>>::empty());
            assert(self.spec_positioning() == Seq::<Seq<char>>::empty());
            assert(self.spec_layout_and_content() == seq!["inline-block"@]);
        }
        no_classes()
    }

    fn positioning_classes(&self) -> (r: Vec<String>) {
        proof {
            assert(self.spec_classes() == seq!["inline-block"@]);
            assert(self.spec_inline_styles() == Map::<Seq<char>, Seq<char>>::empty());
            assert(self.spec_css_variables() == Map::<Seq<char>, Seq<char>>::empty());
            assert(self.spec_layout() == seq!["inline-block"@]);
            assert(self.spec_sizing() == Seq::<Seq<char>>::empty());
            assert(self.spec_spacing() == Seq::<Seq<char>>::empty());
            assert(self.spec_visual() == Seq::<Seq<char>>::empty());
            assert(self.spec_position() == Seq::<Seq<char>>::empty());
            assert(self.spec_grid() == Seq::<Seq<char>>::empty());
            assert(self.spec_grid_child() == Seq::<Seq<char>>::empty());
            assert(self.spec_positioning() == Seq::<Seq<char>>::empty());
            assert(self.spec_layout_and_content() == seq!["inline-block"@]);
        }
        no_classes()
    }

    fn layout_and_content_classes(&self) -> (r: Vec<String>) {
        proof {
            assert(self.spec_classes() == seq!["inline-block"@]);
            assert(self.spec_inline_styles() == Map::<Seq<char>, Seq<char>>::empty());
            assert(self.spec_css_variables() == Map::<Seq<char>, Seq<char>>::empty());
            assert(self.spec_layout() == seq!["inline-block"@]);
            assert(self.spec_sizing() == Seq::<Seq<char>>::empty());
            assert(self.spec_spacing() == Seq::<Seq<char>>::empty());
            assert(self.spec_visual() == Seq::<Seq<char>>::empty());
            assert(self.spec_position() == Seq::<Seq<char>>::empty());
            assert(self.spec_grid() == Seq::<Seq<char>>::empty());
            assert(self.spec_grid_child() == Seq::<Seq<char>>::empty());
            assert(self.spec_positioning() == Seq::<Seq<char>>::empty());
            assert(self.spec_layout_and_content() == seq!["inline-block"@]);
        }
        let r = concat(concat(concat(self.layout_classes(), self.sizing_classes()), self.spacing_classes()),
            self.visual_classes());
        assert(views(r@) =~= seq!["inline-block"@]);
        r
    }
}

impl TailwindStyleExt for VectorNode {
    open spec fn spec_classes(&self) -> Seq<Seq<char>> {
        seq!["inline-block"@]
    }

    open spec fn spec_inline_styles(&self) -> Map<Seq<char>, Seq<char>> {
        Map::empty()
    }

    open spec fn spec_css_variables(&self) -> Map<Seq<char>, Seq<char>> {
        Map::empty()
    }

    open spec fn spec_layout(&self) -> Seq<Seq<char>> {
        seq!["inline-block"@]
    }

    open spec fn spec_sizing(&self) -> Seq<Seq<char>> {
        seq![]
    }

    open spec fn spec_spacing(&self) -> Seq<Seq<char>> {
        seq![]
    }

    open spec fn spec_visual(&self) -> Seq<Seq<char>> {
        seq![]
    }

    open spec fn spec_position(&self) -> Seq<Seq<char>> {
        seq![]
    }

    open spec fn spec_grid(&self) -> Seq<Seq<char>> {
        seq![]
    }

    open spec fn spec_grid_child(&self) -> Seq<Seq<char>> {
        seq![]
    }

    open spec fn spec_positioning(&self) -> Seq<Seq<char>> {
        seq![]
    }

    open spec fn spec_layout_and_content(&self) -> Seq<Seq<char>> {
        seq!["inline-block"@]
    }

    fn to_tailwind(&self) -> (r: TailwindStyles) {
        proof {
            assert(self.spec_classes() == seq!["inline-block"@]);
            assert(self.spec_inline_styles() == Map::<Seq<char>, Seq<char>>::empty());
            assert(self.spec_css_variables() == Map::<Seq<char>, Seq<char>>::empty());
            assert(self.spec_layout() == seq!["inline-block"@]);
            assert(self.spec_sizing() == Seq::<Seq<char>>::empty());
            assert(self.spec_spacing() == Seq::<Seq<char>>::empty());
            assert(self.spec_visual() == Seq::<Seq<char>>::empty());
            assert(self.spec_position() == Seq::<Seq<char>>::empty());
            assert(self.spec_grid() == Seq::<Seq<char>>::empty());
            assert(self.spec_grid_child() == Seq::<Seq<char>>::empty());
            assert(self.spec_positioning() == Seq::<Seq<char>>::empty());
            assert(self.spec_layout_and_content() == seq!["inline-block"@]);
        }
        let mut styles = TailwindStyles::new();
        styles.classes = lit("inline-block");
        styles
    }

    fn layout_classes(&self) -> (r: Vec<String>) {
        proof {
            assert(self.spec_classes() == seq!["inline-block"@]);
            assert(self.spec_inline_styles() == Map::<Seq<char>, Seq<char>>::empty());
            assert(self.spec_css_variables() == Map::<Seq<char>, Seq<char>>::empty());
            assert(self.spec_layout() == seq!["inline-block"@]);
            assert(self.spec_sizing() == Seq::<Seq<char>>::empty());
            assert(self.spec_spacing() == Seq::<Seq<char>>::empty());
            assert(self.spec_visual() == Seq::<Seq<char>>::empty());
            assert(self.spec_position() == Seq::<Seq<char>>::empty());
            assert(self.spec_grid() == Seq::<Seq<char>>::empty());
            assert(self.spec_grid_child() == Seq::<Seq<char>>::empty());
            assert(self.spec_positioning() == Seq::<Seq<char>>::empty());
            assert(self.spec_layout_and_content() == seq!["inline-block"@]);
        }
        lit("inline-block")
    }

    fn sizing_classes(&self) -> (r: Vec<String>) {
        proof {
            assert(self.spec_classes() == seq!["inline-block"@]);
            assert(self.spec_inline_styles() == Map::<Seq<char>, Seq<char>>::empty());
            assert(self.spec_css_variables() == Map::<Seq<char>, Seq<char>>::empty());
            assert(self.spec_layout() == seq!["inline-block"@]);
            assert(self.spec_sizing() == Seq::<Seq<char>>::empty());
            assert(self.spec_spacing() == Seq::<Seq<char>>::empty());
            assert(self.spec_visual() == Seq::<Seq<char>>::empty());
            assert(self.spec_position() == Seq::<Seq<char>>::empty());
            assert(self.spec_grid() == Seq::<Seq<char>>::empty());
            assert(self.spec_grid_child() == Seq::<Seq<char>>::empty());
            assert(self.spec_positioning() == Seq::<Seq<char>>::empty());
            assert(self.spec_layout_and_content() == seq!["inline-block"@]);
        }
        no_classes()
    }

    fn spacing_classes(&self) -> (r: Vec<String>) {
        proof {
            assert(self.spec_classes() == seq!["inline-block"@]);
            assert(self.spec_inline_styles() == Map::<Seq<char>, Seq<char>>::empty());
            assert(self.spec_css_variables() == Map::<Seq<char>, Seq<char>>::empty());
            assert(self.spec_layout() == seq!["inline-block"@]);
            assert(self.spec_sizing() == Seq::<Seq<char>>::empty());
            assert(self.spec_spacing() == Seq::<Seq<char>>::empty());
            assert(self.spec_visual() == Seq::<Seq<char>>::empty());
            assert(self.spec_position() == Seq::<Seq<char>>::empty());
            assert(self.spec_grid() == Seq::<Seq<char>>::empty());
            assert(self.spec_grid_child() == Seq::<Seq<char>>::empty());
            assert(self.spec_positioning() == Seq::<Seq<char>>::empty());
            assert(self.spec_layout_and_content() == seq!["inline-block"@]);
        }
        no_classes()
    }

    fn visual_classes(&self) -> (r: Vec<String>) {
        proof {
            assert(self.spec_classes() == seq!["inline-block"@]);
            assert(self.spec_inline_styles() == Map::<Seq<char>, Seq<char>>::empty());
            assert(self.spec_css_variables() == Map::<Seq<char>, Seq<char>>::empty());
            assert(self.spec_layout() == seq!["inline-block"@]);
            assert(self.spec_sizing() == Seq::<Seq<char>>::empty());
            assert(self.spec_spacing() == Seq::<Seq<char>>::empty());
            assert(self.spec_visual() == Seq::<Seq<char>>::empty());
            assert(self.spec_position() == Seq::<Seq<char>>::empty());
            assert(self.spec_grid() == Seq::<Seq<char>>::empty());
            assert(self.spec_grid_child() == Seq::<Seq<char>>::empty());
            assert(self.spec_positioning() == Seq::<Seq<char>>::empty());
            assert(self.spec_layout_and_content() == seq!["inline-block"@]);
        }
        no_classes()
    }

    fn position_classes(&self) -> (r: Vec<String>) {
        proof {
            assert(self.spec_classes() == seq!["inline-block"@]);
            assert(self.spec_inline_styles() == Map::<Seq<char>, Seq<char>>::empty());
            assert(self.spec_css_variables() == Map::<Seq<char>, Seq<char>>::empty());
            assert(self.spec_layout() == seq!["inline-block"@]);
            assert(self.spec_sizing() == Seq::<Seq<char>>::empty());
            assert(self.spec_spacing() == Seq::<Seq<char>>::empty());
            assert(self.spec_visual() == Seq::<Seq<char>>::empty());
            assert(self.spec_position() == Seq::<Seq<char>>::empty());
            assert(self.spec_grid() == Seq::<Seq<char>>::empty());
            assert(self.spec_grid_child() == Seq::<Seq<char>>::empty());
            assert(self.spec_positioning() == Seq::<Seq<char>>::empty());
            assert(self.spec_layout_and_content() == seq!["inline-block"@]);
        }
        no_classes()
    }

    fn add_grid_classes(&self, classes: &mut Vec<String>) {
        proof {
            assert(self.spec_classes() == seq!["inline-block"@]);
            assert(self.spec_inline_styles() == Map::<Seq<char>, Seq<char>>::empty());
            assert(self.spec_css_variables() == Map::<Seq<char>, Seq<char>>::empty());
            assert(self.spec_layout() == seq!["inline-block"@]);
            assert(self.spec_sizing() == Seq::<Seq<char>>::empty());
            assert(self.spec_spacing() == Seq::<Seq<char>>::empty());
            assert(self.spec_visual() == Seq::<Seq<char>>::empty());
            assert(self.spec_position() == Seq::<Seq<char>>::empty());
            assert(self.spec_grid() == Seq::<Seq<char>>::empty());
            assert(self.spec_grid_child() == Seq::<Seq<char>>::empty());
            assert(self.spec_positioning() == Seq::<Seq<char>>::empty());
            assert(self.spec_layout_and_content() == seq!["inline-block"@]);
        }
        assert(views(classes@) =~= views(old(classes)@) + self.spec_grid());
    }

    fn get_grid_child_classes(&self) -> (r: Vec<String>) {
        proof {
            assert(self.spec_classes() == seq!["inline-block"@]);
            assert(self.spec_inline_styles() == Map::<Seq<char>, Seq<char>>::empty());
            assert(self.spec_css_variables() == Map::<Seq<char>, Seq<char>>::empty());
            assert(self.spec_layout() == seq!["inline-block"@]);
            assert(self.spec_sizing() == Seq::<Seq<char>>::empty());
            assert(self.spec_spacing() == Seq::<Seq<char>>::empty());
            assert(self.spec_visual() == Seq::<Seq<char>>::empty());
            assert(self.spec_position() == Seq::<Seq<char>>::empty());
            assert(self.spec_grid() == Seq::<Seq<char>>::empty());
            assert(self.spec_grid_child() == Seq::<Seq<char>>::empty());
            assert(self.spec_positioning() == Seq::<Seq<char>>::empty());
            assert(self.spec_layout_and_content() == seq!["inline-block"@]);
        }
        no_classes()
    }

    fn positioning_classes(&self) -> (r: Vec<String>) {
        proof {
            assert(self.spec_classes() == seq!["inline-block"@]);
            assert(self.spec_inline_styles() == Map::<Seq<char>, Seq<char>>::empty());
            assert(self.spec_css_variables() == Map::<Seq<char>, Seq<char>>::empty());
            assert(self.spec_layout() == seq!["inline-block"@]);
            assert(self.spec_sizing() == Seq::<Seq<char>>::empty());
            assert(self.spec_spacing() == Seq::<Seq<char>>::empty());
            assert(self.spec_visual() == Seq::<Seq<char>>::empty());
            assert(self.spec_position() == Seq::<Seq<char>>::empty());
            assert(self.spec_grid() == Seq::<Seq<char>>::empty());
            assert(self.spec_grid_child() == Seq::<Seq<char>>::empty());
            assert(self.spec_positioning() == Seq::<Seq<char>>::empty());
            assert(self.spec_layout_and_content() == seq!["inline-block"@]);
        }
        no_classes()
    }

    fn layout_and_content_classes(&self) -> (r: Vec<String>) {
        proof {
            assert(self.spec_classes() == seq!["inline-block"@]);
            assert(self.spec_inline_styles() == Map::<Seq<char>, Seq<char>>::empty());
            assert(self.spec_css_variables() == Map::<Seq<char>, Seq<char>>::empty());
            assert(self.spec_layout() == seq!["inline-block"@]);
            assert(self.spec_sizing() == Seq::<Seq<char>>::empty());
            assert(self.spec_spacing() == Seq::<Seq<char>>::empty());
            assert(self.spec_visual() == Seq::<Seq<char>>::empty());
            assert(self.spec_position() == Seq::<Seq<char>>::empty());
            assert(self.spec_grid() == Seq::<Seq<char>>::empty());
            assert(self.spec_grid_child() == Seq::<Seq<char>>::empty());
            assert(self.spec_positioning() == Seq::<Seq<char>>::empty());
            assert(self.spec_layout_and_content() == seq!["inline-block"@]);
        }
        let r = concat(concat(concat(self.layout_classes(), self.sizing_classes()), self.spacing_classes()),
            self.visual_classes());
        assert(views(r@) =~= seq!["inline-block"@]);
        r
    }
}

} // verus!
