//! JSX for the vector layers of a design: inline SVG built from their path
//! data, and placeholders for SVG that is still being exported.

use vstd::prelude::*;
use crate::figma::{TextNode, VectorNode, Vector};
use crate::figma_export::{FigmaSvgExporter, SvgExportError, SvgExportResult, ExportView, export_view, exported_as, cache_key};
use crate::jsx::{JsxAttr, JsxChild, JsxElement, NodeV, ValueV, attr_view, attrs_view, children_view, el_view, el,
    str_attr, str_attr_of, element, no_attrs, no_children, push_attr, push_child, text_child};
use crate::text::{owned, cat2, cat3, views};

verus! {

/// The size attributes of a layer, where it has a size: width and height as
/// `Display` prints them, and, for inline SVG, the view box.
pub open spec fn size_attrs(size: Option<Vector>, with_view_box: bool) -> Seq<(Seq<char>, Option<ValueV>)> {
    match size {
        Some(s) => seq![str_attr("width"@, s.x.render()), str_attr("height"@, s.y.render())] + if with_view_box {
            seq![str_attr("viewBox"@, "0 0 "@ + s.x.render() + " "@ + s.y.render())]
        } else {
            seq![]
        },
        None => seq![],
    }
}

/// The path of inline vector SVG for path data: filled in the color of the
/// first fill (black) where the layer has fills.
pub open spec fn vector_path(d: Seq<char>, has_fills: bool) -> NodeV {
    el("path"@, seq![str_attr("d"@, d)] + if has_fills { seq![str_attr("fill"@, "#000000"@)] } else { seq![] }, seq![])
}

/// The paths of inline vector SVG: one per path of the fill geometry, or a
/// minimal placeholder path where there is none.
pub open spec fn vector_paths(geometry: Option<Vec<String>>, has_fills: bool) -> Seq<NodeV> {
    let paths: Seq<String> = match geometry {
        Some(g) => g@,
        None => seq![],
    };
    if paths.len() == 0 {
        seq![el("path"@, seq![str_attr("d"@, "M0,0"@), str_attr("fill"@, "currentColor"@)], seq![])]
    } else {
        views(paths).map_values(|d: Seq<char>| vector_path(d, has_fills))
    }
}

/// Inline SVG for a vector layer, with its path data embedded.
pub open spec fn inline_vector(v: VectorNode) -> NodeV {
    el(
        "svg"@,
        seq![str_attr("className"@, "inline-block"@), str_attr("data-name"@, v.name@), str_attr("data-vector"@, "true"@)]
            + size_attrs(v.size, true),
        vector_paths(v.fill_geometry, v.has_fills),
    )
}

/// The placeholder of a vector layer whose SVG is still being exported.
pub open spec fn svg_placeholder(v: VectorNode) -> NodeV {
    el(
        "svg"@,
        seq![str_attr("data-name"@, v.name@), str_attr("data-vector"@, "true"@), str_attr("data-pending"@, "true"@)]
            + size_attrs(v.size, false),
        seq![NodeV::Text("<!-- Loading SVG for vector: "@ + v.name@ + " -->"@)],
    )
}

fn push_size_attrs(attrs: &mut Vec<JsxAttr>, size: &Option<Vector>, with_view_box: bool)
    ensures
        attrs_view(final(attrs)@) == attrs_view(old(attrs)@) + size_attrs(*size, with_view_box),
{
    let ghost before = attrs_view(attrs@);
    match size {
        Some(s) => {
            let w = s.x.to_text();
            let h = s.y.to_text();
            push_attr(attrs, str_attr_of("width", w.as_str()));
            push_attr(attrs, str_attr_of("height", h.as_str()));
            if with_view_box {
                let mut vb = cat2("0 0 ", w.as_str());
                vb.append(" ");
                vb.append(h.as_str());
                push_attr(attrs, str_attr_of("viewBox", vb.as_str()));
            }
        },
        None => {},
    }
    assert(attrs_view(attrs@) =~= before + size_attrs(*size, with_view_box));
}

/// Inline SVG for a vector layer: an `svg` element with the layer's name,
/// size and view box, and a path for each path of its fill geometry.
pub fn create_inline_vector_jsx_element(vector: &VectorNode) -> (r: JsxElement)
    ensures
        el_view(r) == inline_vector(*vector),
{
    let mut attrs = no_attrs();
    push_attr(&mut attrs, str_attr_of("className", "inline-block"));
    push_attr(&mut attrs, str_attr_of("data-name", vector.name.as_str()));
    push_attr(&mut attrs, str_attr_of("data-vector", "true"));
    assert(attrs_view(attrs@) =~= seq![str_attr("className"@, "inline-block"@), str_attr("data-name"@, vector.name@), str_attr("data-vector"@, "true"@)]);
    push_size_attrs(&mut attrs, &vector.size, true);
    let mut children = no_children();
    match &vector.fill_geometry {
        Some(g) => {
            let mut i: usize = 0;
            while i < g.len()
                invariant
                    i <= g@.len(),
                    children_view(children@) == views(g@.take(i as int)).map_values(|d: Seq<char>| vector_path(d, vector.has_fills)),
                decreases g@.len() - i,
            {
                let mut pattrs = no_attrs();
                push_attr(&mut pattrs, str_attr_of("d", g[i].as_str()));
                if vector.has_fills {
                    push_attr(&mut pattrs, str_attr_of("fill", "#000000"));
                }
                assert(attrs_view(pattrs@) =~= seq![str_attr("d"@, g@[i as int]@)] + if vector.has_fills {
                    seq![str_attr("fill"@, "#000000"@)]
                } else {
                    seq![]
                });
                let p = element("path", pattrs, no_children());
                assert(el_view(p) == vector_path(g@[i as int]@, vector.has_fills));
                push_child(&mut children, JsxChild::Element(p));
                assert(views(g@.take(i + 1)) =~= views(g@.take(i as int)).push(g@[i as int]@));
                i += 1;
            }
            assert(g@.take(g@.len() as int) =~= g@);
        },
        None => {},
    }
    proof {
        crate::jsx::lemma_children_view_len(children@);
    }
    if children.len() == 0 {
        let ghost before = children@;
        let mut pattrs = no_attrs();
        push_attr(&mut pattrs, str_attr_of("d", "M0,0"));
        push_attr(&mut pattrs, str_attr_of("fill", "currentColor"));
        assert(attrs_view(pattrs@) =~= seq![str_attr("d"@, "M0,0"@), str_attr("fill"@, "currentColor"@)]);
        push_child(&mut children, JsxChild::Element(element("path", pattrs, no_children())));
        proof {
            match &vector.fill_geometry {
                Some(g) => {
                    assert(views(g@).map_values(|d: Seq<char>| vector_path(d, vector.has_fills)).len() == 0);
                    assert(g@.len() == 0);
                },
                None => {},
            }
            assert(children_view(before) =~= Seq::<NodeV>::empty());
        }
        assert(children_view(children@) =~= vector_paths(vector.fill_geometry, vector.has_fills));
    } else {
        proof {
            match &vector.fill_geometry {
                Some(g) => {
                    assert(g@.len() > 0);
                },
                None => {
                    assert(false);
                },
            }
        }
        assert(children_view(children@) =~= vector_paths(vector.fill_geometry, vector.has_fills));
    }
    element("svg", attrs, children)
}

/// The placeholder of a vector layer whose SVG is still being exported: an
/// `svg` element marked pending, with the layer's name and size.
pub fn create_svg_placeholder_jsx(vector: &VectorNode) -> (r: JsxElement)
    ensures
        el_view(r) == svg_placeholder(*vector),
{
    let mut attrs = no_attrs();
    push_attr(&mut attrs, str_attr_of("data-name", vector.name.as_str()));
    push_attr(&mut attrs, str_attr_of("data-vector", "true"));
    push_attr(&mut attrs, str_attr_of("data-pending", "true"));
    assert(attrs_view(attrs@) =~= seq![str_attr("data-name"@, vector.name@), str_attr("data-vector"@, "true"@), str_attr("data-pending"@, "true"@)]);
    push_size_attrs(&mut attrs, &vector.size, false);
    let mut children = no_children();
    let note = cat3("<!-- Loading SVG for vector: ", vector.name.as_str(), " -->");
    push_child(&mut children, text_child(note.as_str()));
    assert(children_view(children@) =~= seq![NodeV::Text("<!-- Loading SVG for vector: "@ + vector.name@ + " -->"@)]);
    element("svg", attrs, children)
}

/// The view of an optional string.
pub open spec fn opt_chars(o: Option<String>) -> Option<Seq<char>> {
    match o {
        Some(x) => Some(x@),
        None => None,
    }
}

/// The attributes that mark an element as a vector layer's.
pub open spec fn vector_marks(v: VectorNode) -> Seq<(Seq<char>, Option<ValueV>)> {
    seq![str_attr("data-name"@, v.name@), str_attr("data-vector"@, "true"@)]
}

/// The placeholder of a vector layer before its SVG content is known.
pub open spec fn vector_placeholder(v: VectorNode) -> NodeV {
    el("svg"@, vector_marks(v), seq![])
}

/// The children of SVG content included inline: a note where the content
/// goes.
pub open spec fn inline_svg_children(svg_content: Seq<char>) -> Seq<NodeV> {
    seq![NodeV::Text("<!-- SVG content would be parsed here -->"@)]
}

/// The SVG of a vector layer from its export: the layer's marks, the view
/// box where one is given, and a note of the external file or the inline
/// content.
pub open spec fn exported_vector(v: VectorNode, e: ExportView, view_box: Option<Seq<char>>) -> NodeV {
    el(
        "svg"@,
        vector_marks(v) + match view_box {
            Some(t) => seq![str_attr("viewBox"@, t)],
            None => seq![],
        },
        if e.1 {
            seq![NodeV::Text("<!-- External SVG: "@ + match e.2 {
                Some(p) => p,
                None => "unknown"@,
            } + " -->"@)]
        } else {
            inline_svg_children(e.0)
        },
    )
}

/// Whether `view_box` is what `format_view_box` gave for the `viewBox` text
/// of an export; no view box where the export has none.
pub open spec fn view_box_of<F: Fn(&String) -> Option<String>>(format_view_box: F, e: ExportView, view_box: Option<Seq<char>>) -> bool {
    match e.3 {
        Some(t) => exists|s: String, r: Option<String>| s@ == t && format_view_box.ensures((&s,), r) && view_box == opt_chars(r),
        None => view_box is None,
    }
}

fn vector_marks_of(vector: &VectorNode) -> (r: Vec<JsxAttr>)
    ensures
        attrs_view(r@) == vector_marks(*vector),
{
    let mut attrs = no_attrs();
    push_attr(&mut attrs, str_attr_of("data-name", vector.name.as_str()));
    push_attr(&mut attrs, str_attr_of("data-vector", "true"));
    assert(attrs_view(attrs@) =~= vector_marks(*vector));
    attrs
}

/// The placeholder of a vector layer before its SVG content is known: an
/// empty `svg` element with the layer's marks.
pub fn create_vector_jsx_placeholder(vector: &VectorNode) -> (r: JsxElement)
    ensures
        el_view(r) == vector_placeholder(*vector),
{
    element("svg", vector_marks_of(vector), no_children())
}

/// The children of SVG content included inline.
pub fn parse_svg_content_to_jsx(svg_content: &str) -> (r: Vec<JsxChild>)
    ensures
        children_view(r@) == inline_svg_children(svg_content@),
{
    let mut children = no_children();
    push_child(&mut children, text_child("<!-- SVG content would be parsed here -->"));
    assert(children_view(children@) =~= inline_svg_children(svg_content@));
    children
}

/// The SVG of a vector layer, exported (or taken from the exporter's cache)
/// for the design file: its view box is what `format_view_box` makes of the
/// export's `viewBox` text, where it makes something.
pub fn create_vector_jsx_with_svg_export<F: Fn(&String) -> Option<String>>(
    vector: &VectorNode,
    exporter: &mut FigmaSvgExporter,
    file_key: &str,
    format_view_box: &F,
) -> (r: Result<JsxElement, SvgExportError>)
    requires
        forall|s: &String| #[trigger] format_view_box.requires((s,)),
    ensures
        r is Ok,
        exists|e: ExportView, view_box: Option<Seq<char>>| {
            &&& (old(exporter).cache().dom().contains(cache_key(file_key@, vector.id@)) ==> e == export_view(
                old(exporter).cache()[cache_key(file_key@, vector.id@)],
            ))
            &&& (!old(exporter).cache().dom().contains(cache_key(file_key@, vector.id@)) ==> exported_as(*old(exporter), vector.id@, e))
            &&& view_box_of(*format_view_box, e, view_box)
            &&& el_view(r.unwrap()) == exported_vector(*vector, e, view_box)
        },
{
    let export = exporter.export_vector_node(vector.id.as_str(), file_key);
    let svg_export = match export {
        Ok(x) => x,
        Err(e) => {
            return Err(e);
        },
    };
    let ghost e = export_view(svg_export);
    let mut attrs = vector_marks_of(vector);
    let ghost marks = attrs_view(attrs@);
    let view_box: Option<String> = match &svg_export.viewbox {
        Some(t) => format_view_box(t),
        None => None,
    };
    let ghost vb: Option<Seq<char>> = opt_chars(view_box);
    match &view_box {
        Some(t) => push_attr(&mut attrs, str_attr_of("viewBox", t.as_str())),
        None => {},
    }
    assert(attrs_view(attrs@) =~= marks + match vb {
        Some(t) => seq![str_attr("viewBox"@, t)],
        None => seq![],
    });
    let children = if svg_export.is_external {
        let path = match &svg_export.external_path {
            Some(p) => owned(p.as_str()),
            None => owned("unknown"),
        };
        let mut children = no_children();
        push_child(&mut children, text_child(cat3("<!-- External SVG: ", path.as_str(), " -->").as_str()));
        assert(children_view(children@) =~= seq![NodeV::Text("<!-- External SVG: "@ + path@ + " -->"@)]);
        children
    } else {
        parse_svg_content_to_jsx(svg_export.svg_content.as_str())
    };
    let r = element("svg", attrs, children);
    assert(el_view(r) == exported_vector(*vector, e, vb));
    Ok(r)
}

/// Where JSX is rendered: in HTML, or inside an SVG group (SVG elements
/// only), at the group's offset.
#[derive(Debug, Clone, Copy, PartialEq)]
pub enum RenderContext {
    Html,
    Svg { parent_x: crate::decimal::Decimal, parent_y: crate::decimal::Decimal },
}

impl Default for RenderContext {
    /// HTML.
    fn default() -> (r: Self)
        ensures
            r == RenderContext::Html,
    {
        RenderContext::Html
    }
}

impl RenderContext {
    /// Whether rendering is inside an SVG group.
    pub fn is_svg(&self) -> (r: bool)
        ensures
            r == (*self is Svg),
    {
        match self {
            RenderContext::Svg { .. } => true,
            RenderContext::Html => false,
        }
    }

    /// Whether rendering is in HTML.
    pub fn is_html(&self) -> (r: bool)
        ensures
            r == (*self is Html),
    {
        match self {
            RenderContext::Html => true,
            RenderContext::Svg { .. } => false,
        }
    }
}

/// Conversion of a layer to JSX.
pub trait ToJsx {
    /// The JSX element of the layer in the given context.
    fn to_jsx_with_context(&self, context: RenderContext) -> JsxElement;

    /// The JSX element of the layer in HTML.
    fn to_jsx(&self) -> JsxElement;
}

impl ToJsx for VectorNode {
    /// The placeholder of the vector layer, in any context.
    fn to_jsx_with_context(&self, context: RenderContext) -> (r: JsxElement)
        ensures
            el_view(r) == vector_placeholder(*self),
    {
        create_vector_jsx_placeholder(self)
    }

    /// The placeholder of the vector layer.
    fn to_jsx(&self) -> (r: JsxElement)
        ensures
            el_view(r) == vector_placeholder(*self),
    {
        create_vector_jsx_placeholder(self)
    }
}

/// The paragraph of a text layer: its name and characters.
pub open spec fn text_paragraph(t: TextNode) -> NodeV {
    el("p"@, seq![str_attr("data-name"@, t.name@), str_attr("data-text"@, "true"@)], seq![NodeV::Text(t.characters@)])
}

/// Conversion of a text layer to JSX.
pub trait TextNodeExt {
    /// The paragraph of the text layer.
    fn to_jsx(&self) -> JsxElement;
}

impl TextNodeExt for TextNode {
    /// A `p` element with the layer's name and characters.
    fn to_jsx(&self) -> (r: JsxElement)
        ensures
            el_view(r) == text_paragraph(*self),
    {
        let mut attrs = no_attrs();
        push_attr(&mut attrs, str_attr_of("data-name", self.name.as_str()));
        push_attr(&mut attrs, str_attr_of("data-text", "true"));
        assert(attrs_view(attrs@) =~= seq![str_attr("data-name"@, self.name@), str_attr("data-text"@, "true"@)]);
        let mut children = no_children();
        push_child(&mut children, text_child(self.characters.as_str()));
        assert(children_view(children@) =~= seq![NodeV::Text(self.characters@)]);
        element("p", attrs, children)
    }
}

} // verus!
