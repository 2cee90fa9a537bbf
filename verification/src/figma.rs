//! The parts of Figma design nodes that the style rules read.
//!
//! Numbers are held as [`Decimal`]s, the exact decimal text of the design
//! file's values. Where a rule divides or multiplies a number before it prints
//! or compares it, the node holds the outcome of that arithmetic beside the
//! number (see [`Opacity`], [`Rotation`], [`LetterSpacing`], [`LineHeight`]).

use vstd::prelude::*;
use crate::decimal::Decimal;

verus! {

/// Auto-layout direction of a frame.
#[derive(Clone, Copy, Debug, PartialEq, Eq)]
pub enum LayoutMode {
    /// No auto-layout: children keep their own positions.
    Freeform,
    Horizontal,
    Vertical,
    Grid,
}

/// Alignment of children along the primary axis.
#[derive(Clone, Copy, Debug, PartialEq, Eq)]
pub enum PrimaryAxisAlignItems {
    Min,
    Center,
    Max,
    SpaceBetween,
}

/// Alignment of children along the counter axis.
#[derive(Clone, Copy, Debug, PartialEq, Eq)]
pub enum CounterAxisAlignItems {
    Min,
    Center,
    Max,
    Baseline,
}

/// Horizontal alignment of a grid child inside its cell.
#[derive(Clone, Copy, Debug, PartialEq, Eq)]
pub enum GridChildHorizontalAlign {
    Min,
    Center,
    Max,
    Auto,
}

/// Vertical alignment of a grid child inside its cell.
#[derive(Clone, Copy, Debug, PartialEq, Eq)]
pub enum GridChildVerticalAlign {
    Min,
    Center,
    Max,
    Auto,
}

/// Horizontal sizing of a layer inside auto-layout.
#[derive(Clone, Copy, Debug, PartialEq, Eq)]
pub enum LayoutSizingHorizontal {
    Fixed,
    Hug,
    Fill,
}

/// Vertical sizing of a layer inside auto-layout.
#[derive(Clone, Copy, Debug, PartialEq, Eq)]
pub enum LayoutSizingVertical {
    Fixed,
    Hug,
    Fill,
}

/// Whether a layer takes part in its parent's auto-layout.
#[derive(Clone, Copy, Debug, PartialEq, Eq)]
pub enum LayoutPositioning {
    Auto,
    Absolute,
}

/// How a child of an auto-layout frame aligns on the counter axis.
#[derive(Clone, Copy, Debug, PartialEq, Eq)]
pub enum LayoutAlign {
    Inherit,
    Stretch,
    Min,
    Center,
    Max,
}

/// Horizontal text alignment.
#[derive(Clone, Copy, Debug, PartialEq, Eq)]
pub enum TextAlignHorizontal {
    Left,
    Center,
    Right,
    Justified,
}

/// Text decoration.
#[derive(Clone, Copy, Debug, PartialEq, Eq)]
pub enum TextDecoration {
    /// No decoration.
    Plain,
    Strikethrough,
    Underline,
}

/// A width and a height.
#[derive(Clone, Copy, Debug, PartialEq, Eq)]
pub struct Vector {
    pub x: Decimal,
    pub y: Decimal,
}

/// A visual effect of a layer.
#[derive(Clone, Copy, Debug, PartialEq, Eq)]
pub enum Effect {
    DropShadow { visible: bool, radius: Decimal },
    InnerShadow { visible: bool },
    LayerBlur { visible: bool, radius: Decimal },
    BackgroundBlur { visible: bool, radius: Decimal },
    Texture,
    Noise,
}

/// A layer's opacity, with `percent`: the result of `(opacity * 100.0) as u8`
/// on the design file's floating-point value.
#[derive(Clone, Copy, Debug, PartialEq, Eq)]
pub struct Opacity {
    pub value: Decimal,
    pub percent: u8,
}

/// A rotation in radians, with `degrees`: `radians * 180.0 / PI` computed on
/// the design file's floating-point value.
#[derive(Clone, Copy, Debug, PartialEq, Eq)]
pub struct Rotation {
    pub radians: Decimal,
    pub degrees: Decimal,
}

/// Letter spacing in pixels, with `per_16`: `px / 16.0`, and `per_font_size`:
/// `px / font_size` (with a font size of 16 where the style has none), both
/// computed on the floating-point values.
#[derive(Clone, Copy, Debug, PartialEq, Eq)]
pub struct LetterSpacing {
    pub px: Decimal,
    pub per_16: Decimal,
    pub per_font_size: Decimal,
}

/// A line height in pixels, with `per_font_size`: `px / font_size`, present
/// exactly where the style has a font size.
#[derive(Clone, Copy, Debug, PartialEq, Eq)]
pub struct LineHeight {
    pub px: Decimal,
    pub per_font_size: Option<Decimal>,
}

/// The style properties of a frame that the style rules read.
#[derive(Clone, Debug)]
pub struct FrameNode {
    pub id: String,
    pub name: String,
    pub layout_mode: Option<LayoutMode>,
    pub primary_axis_align_items: Option<PrimaryAxisAlignItems>,
    pub counter_axis_align_items: Option<CounterAxisAlignItems>,
    pub grid_column_count: Option<Decimal>,
    pub grid_row_count: Option<Decimal>,
    pub grid_columns_sizing: Option<String>,
    pub grid_rows_sizing: Option<String>,
    pub grid_column_gap: Option<Decimal>,
    pub grid_row_gap: Option<Decimal>,
    pub grid_child_horizontal_align: Option<GridChildHorizontalAlign>,
    pub grid_child_vertical_align: Option<GridChildVerticalAlign>,
    pub layout_sizing_horizontal: Option<LayoutSizingHorizontal>,
    pub layout_sizing_vertical: Option<LayoutSizingVertical>,
    pub size: Option<Vector>,
    pub layout_grow: Option<Decimal>,
    pub min_width: Option<Decimal>,
    pub max_width: Option<Decimal>,
    pub min_height: Option<Decimal>,
    pub max_height: Option<Decimal>,
    pub padding_top: Option<Decimal>,
    pub padding_right: Option<Decimal>,
    pub padding_bottom: Option<Decimal>,
    pub padding_left: Option<Decimal>,
    pub item_spacing: Option<Decimal>,
    pub counter_axis_spacing: Option<Decimal>,
    /// The number of fill paints.
    pub fills: usize,
    /// The number of stroke paints, where the frame lists strokes.
    pub strokes: Option<usize>,
    pub stroke_weight: Option<Decimal>,
    pub corner_radius: Option<Decimal>,
    pub opacity: Option<Opacity>,
    pub effects: Vec<Effect>,
    pub layout_positioning: Option<LayoutPositioning>,
    pub layout_align: Option<LayoutAlign>,
    pub rotation: Option<Rotation>,
}

/// The type style of a text layer.
impl FrameNode {
    /// A frame with the given id and name and nothing else set: no layout,
    /// sizing, padding, spacing, fills, strokes, radius, opacity, effects,
    /// positioning or rotation.
    pub fn new(id: String, name: String) -> (r: FrameNode)
        ensures
            r.id == id,
            r.name == name,
            r.layout_mode is None,
            r.primary_axis_align_items is None,
            r.counter_axis_align_items is None,
            r.grid_column_count is None,
            r.grid_row_count is None,
            r.grid_columns_sizing is None,
            r.grid_rows_sizing is None,
            r.grid_column_gap is None,
            r.grid_row_gap is None,
            r.grid_child_horizontal_align is None,
            r.grid_child_vertical_align is None,
            r.layout_sizing_horizontal is None,
            r.layout_sizing_vertical is None,
            r.size is None,
            r.layout_grow is None,
            r.min_width is None,
            r.max_width is None,
            r.min_height is None,
            r.max_height is None,
            r.padding_top is None,
            r.padding_right is None,
            r.padding_bottom is None,
            r.padding_left is None,
            r.item_spacing is None,
            r.counter_axis_spacing is None,
            r.fills == 0,
            r.strokes is None,
            r.stroke_weight is None,
            r.corner_radius is None,
            r.opacity is None,
            r.effects@.len() == 0,
            r.layout_positioning is None,
            r.layout_align is None,
            r.rotation is None,
    {
        FrameNode {
            id,
            name,
            layout_mode: None,
            primary_axis_align_items: None,
            counter_axis_align_items: None,
            grid_column_count: None,
            grid_row_count: None,
            grid_columns_sizing: None,
            grid_rows_sizing: None,
            grid_column_gap: None,
            grid_row_gap: None,
            grid_child_horizontal_align: None,
            grid_child_vertical_align: None,
            layout_sizing_horizontal: None,
            layout_sizing_vertical: None,
            size: None,
            layout_grow: None,
            min_width: None,
            max_width: None,
            min_height: None,
            max_height: None,
            padding_top: None,
            padding_right: None,
            padding_bottom: None,
            padding_left: None,
            item_spacing: None,
            counter_axis_spacing: None,
            fills: 0,
            strokes: None,
            stroke_weight: None,
            corner_radius: None,
            opacity: None,
            effects: Vec::new(),
            layout_positioning: None,
            layout_align: None,
            rotation: None,
        }
    }
}

#[derive(Clone, Debug)]
pub struct TypeStyle {
    pub text_align_horizontal: Option<TextAlignHorizontal>,
    pub letter_spacing: Option<LetterSpacing>,
    pub font_weight: Option<Decimal>,
    pub font_size: Option<Decimal>,
    pub text_decoration: Option<TextDecoration>,
    pub italic: Option<bool>,
    /// The color of the first solid fill, as CSS text.
    pub fill_color: Option<String>,
    pub line_height: Option<LineHeight>,
    pub font_family: Option<String>,
}

/// The style properties of a text layer that the style rules read, and its
/// characters.
#[derive(Clone, Debug)]
pub struct TextNode {
    pub id: String,
    pub name: String,
    pub characters: String,
    pub size: Option<Vector>,
    pub style: TypeStyle,
}

/// A group of layers.
#[derive(Clone, Debug)]
pub struct GroupNode {
    pub id: String,
    pub name: String,
}

/// A rectangle layer.
#[derive(Clone, Debug)]
pub struct RectangleNode {
    pub id: String,
    pub name: String,
}

/// An ellipse layer.
#[derive(Clone, Debug)]
pub struct EllipseNode {
    pub id: String,
    pub name: String,
}

/// A line layer.
#[derive(Clone, Debug)]
pub struct LineNode {
    pub id: String,
    pub name: String,
}

/// A vector layer: its size, the path data of its fill geometry, and
/// whether it has fills.
#[derive(Clone, Debug)]
pub struct VectorNode {
    pub id: String,
    pub name: String,
    pub size: Option<Vector>,
    pub fill_geometry: Option<Vec<String>>,
    pub has_fills: bool,
}

} // verus!
