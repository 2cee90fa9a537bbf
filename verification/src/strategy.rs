//! Choosing how a design node is rendered: as HTML, or as inline or external SVG.

use vstd::prelude::*;
use crate::text::str_eq;

verus! {

/// How a node is rendered.
#[derive(Clone, Copy, Debug, PartialEq, Eq, Structural)]
pub enum RenderingStrategy {
    /// An HTML element.
    Html,
    /// An SVG element with its content inline.
    SvgInline,
    /// An SVG element that refers to an external path file.
    SvgExternal,
    /// An HTML container with SVG children.
    Mixed,
}

/// The complexity of a vector path.
#[derive(Clone, Copy, Debug, PartialEq, Eq, Structural)]
pub enum PathComplexity {
    Simple,
    Complex,
    VeryComplex,
}

/// Decides the rendering of nodes from their type and content.
pub struct NodeAnalyzer;

/// Node types that are always SVG.
pub open spec fn always_svg(t: Seq<char>) -> bool {
    t == "Vector"@ || t == "Ellipse"@ || t == "Line"@ || t == "Star"@ || t == "RegularPolygon"@ || t == "Rectangle"@
}

/// Container types that are SVG when they hold vectors and no text.
pub open spec fn container_type(t: Seq<char>) -> bool {
    t == "Group"@ || t == "Frame"@ || t == "Component"@ || t == "Instance"@
}

/// Types that are never SVG.
pub open spec fn never_svg(t: Seq<char>) -> bool {
    t == "Text"@ || t == "Table"@ || t == "TableCell"@ || t == "Section"@
}

/// Types that are SVG when they hold vectors.
pub open spec fn mixed_type(t: Seq<char>) -> bool {
    t == "BooleanOperation"@ || t == "ShapeWithText"@ || t == "TextPath"@
}

/// Whether a node of type `t` is rendered as SVG.
pub open spec fn renders_as_svg(t: Seq<char>, has_vector_content: bool, has_text_content: bool) -> bool {
    if always_svg(t) {
        true
    } else if container_type(t) {
        has_vector_content && !has_text_content
    } else if never_svg(t) {
        false
    } else if mixed_type(t) {
        has_vector_content
    } else {
        false
    }
}

/// The strategy for a node.
pub open spec fn strategy_of(t: Seq<char>, has_children: bool, children_are_vectors: bool, has_text: bool) -> RenderingStrategy {
    if renders_as_svg(t, children_are_vectors, has_text) {
        if has_children && children_are_vectors { RenderingStrategy::SvgInline } else { RenderingStrategy::SvgExternal }
    } else if has_children && children_are_vectors {
        RenderingStrategy::Mixed
    } else {
        RenderingStrategy::Html
    }
}

fn is_one_of(t: &str, names: &[&str]) -> (r: bool)
    ensures
        r == exists|i: int| 0 <= i < names@.len() && t@ == names@[i]@,
{
    let mut i: usize = 0;
    while i < names.len()
        invariant
            i <= names@.len(),
            forall|j: int| 0 <= j < i ==> t@ != names@[j]@,
        decreases names.len() - i,
    {
        if str_eq(t, names[i]) {
            return true;
        }
        i += 1;
    }
    false
}

impl NodeAnalyzer {
    /// Whether a node of the given type is rendered as SVG.
    pub fn should_render_as_svg(node_type: &str, has_vector_content: bool, has_text_content: bool) -> (r: bool)
        ensures
            r == renders_as_svg(node_type@, has_vector_content, has_text_content),
    {
        let always = ["Vector", "Ellipse", "Line", "Star", "RegularPolygon", "Rectangle"];
        let containers = ["Group", "Frame", "Component", "Instance"];
        let never = ["Text", "Table", "TableCell", "Section"];
        let mixed = ["BooleanOperation", "ShapeWithText", "TextPath"];
        let a = is_one_of(node_type, &always);
        let c = is_one_of(node_type, &containers);
        let n = is_one_of(node_type, &never);
        let m = is_one_of(node_type, &mixed);
        proof {
            assert(a == always_svg(node_type@)) by {
                if a {
                    let i = choose|i: int| 0 <= i < always@.len() && node_type@ == always@[i]@;
                    assert(0 <= i < 6);
                }
                if always_svg(node_type@) {
                    if node_type@ == "Vector"@ { assert(node_type@ == always@[0]@); }
                    else if node_type@ == "Ellipse"@ { assert(node_type@ == always@[1]@); }
                    else if node_type@ == "Line"@ { assert(node_type@ == always@[2]@); }
                    else if node_type@ == "Star"@ { assert(node_type@ == always@[3]@); }
                    else if node_type@ == "RegularPolygon"@ { assert(node_type@ == always@[4]@); }
                    else { assert(node_type@ == always@[5]@); }
                }
            }
            assert(c == container_type(node_type@)) by {
                if c {
                    let i = choose|i: int| 0 <= i < containers@.len() && node_type@ == containers@[i]@;
                    assert(0 <= i < 4);
                }
                if container_type(node_type@) {
                    if node_type@ == "Group"@ { assert(node_type@ == containers@[0]@); }
                    else if node_type@ == "Frame"@ { assert(node_type@ == containers@[1]@); }
                    else if node_type@ == "Component"@ { assert(node_type@ == containers@[2]@); }
                    else { assert(node_type@ == containers@[3]@); }
                }
            }
            assert(n == never_svg(node_type@)) by {
                if n {
                    let i = choose|i: int| 0 <= i < never@.len() && node_type@ == never@[i]@;
                    assert(0 <= i < 4);
                }
                if never_svg(node_type@) {
                    if node_type@ == "Text"@ { assert(node_type@ == never@[0]@); }
                    else if node_type@ == "Table"@ { assert(node_type@ == never@[1]@); }
                    else if node_type@ == "TableCell"@ { assert(node_type@ == never@[2]@); }
                    else { assert(node_type@ == never@[3]@); }
                }
            }
            assert(m == mixed_type(node_type@)) by {
                if m {
                    let i = choose|i: int| 0 <= i < mixed@.len() && node_type@ == mixed@[i]@;
                    assert(0 <= i < 3);
                }
                if mixed_type(node_type@) {
                    if node_type@ == "BooleanOperation"@ { assert(node_type@ == mixed@[0]@); }
                    else if node_type@ == "ShapeWithText"@ { assert(node_type@ == mixed@[1]@); }
                    else { assert(node_type@ == mixed@[2]@); }
                }
            }
        }
        if a {
            true
        } else if c {
            has_vector_content && !has_text_content
        } else if n {
            false
        } else if m {
            has_vector_content
        } else {
            false
        }
    }

    /// Whether a path of the given complexity goes to an external file: all
    /// but simple paths do.
    pub fn should_use_external_paths(_node: &str, path_complexity: PathComplexity) -> (r: bool)
        ensures
            r == (path_complexity != PathComplexity::Simple),
    {
        match path_complexity {
            PathComplexity::Simple => false,
            PathComplexity::Complex => true,
            PathComplexity::VeryComplex => true,
        }
    }

    /// The rendering strategy of a node.
    pub fn analyze_node(node_type: &str, has_children: bool, children_are_vectors: bool, has_text: bool) -> (r: RenderingStrategy)
        ensures
            r == strategy_of(node_type@, has_children, children_are_vectors, has_text),
    {
        let is_vector_node = Self::should_render_as_svg(node_type, children_are_vectors, has_text);
        if is_vector_node {
            if has_children && children_are_vectors {
                RenderingStrategy::SvgInline
            } else {
                RenderingStrategy::SvgExternal
            }
        } else if has_children && children_are_vectors {
            RenderingStrategy::Mixed
        } else {
            RenderingStrategy::Html
        }
    }
}

/// The named result of `char::is_alphabetic`: whether the character has the
/// Unicode `Alphabetic` property.
pub uninterp spec fn unicode_alphabetic(c: char) -> bool;

/// `char::is_alphabetic`. Its result is `unicode_alphabetic(c)`; the Unicode
/// property table is not restated here.
#[verifier::external_body]
fn is_alphabetic(c: char) -> (r: bool)
    ensures
        r == unicode_alphabetic(c),
        (c as u32) < 128 ==> (r <==> (('a' <= c && c <= 'z') || ('A' <= c && c <= 'Z'))),
{
    c.is_alphabetic()
}

/// The number of alphabetic characters in `s`.
pub open spec fn alphabetic_count(s: Seq<char>) -> nat
    decreases s.len(),
{
    if s.len() == 0 {
        0
    } else {
        alphabetic_count(s.drop_last()) + if unicode_alphabetic(s.last()) { 1nat } else { 0nat }
    }
}

/// The complexity of a path with `commands` letters and `length` bytes.
pub open spec fn complexity_of(commands: nat, length: nat) -> PathComplexity {
    if commands <= 3 && length < 100 {
        PathComplexity::Simple
    } else if commands <= 10 && length < 500 {
        PathComplexity::Complex
    } else {
        PathComplexity::VeryComplex
    }
}

impl PathComplexity {
    /// The complexity of SVG path data, from its number of command letters
    /// and its length in bytes.
    pub fn from_path_data(path_data: &str) -> (r: PathComplexity)
        ensures
            r == complexity_of(alphabetic_count(path_data@), path_data.len() as nat),
    {
        let chars = crate::text::chars_of(path_data);
        let mut count: usize = 0;
        let mut i: usize = 0;
        while i < chars.len()
            invariant
                i <= chars.len(),
                chars@ == path_data@,
                count == alphabetic_count(chars@.take(i as int)),
                count <= i,
            decreases chars.len() - i,
        {
            if is_alphabetic(chars[i]) {
                count += 1;
            }
            i += 1;
            assert(chars@.take(i as int).drop_last() == chars@.take(i - 1));
        }
        assert(chars@.take(chars.len() as int) == chars@);
        let length = path_data.len();
        if count <= 3 && length < 100 {
            PathComplexity::Simple
        } else if count <= 10 && length < 500 {
            PathComplexity::Complex
        } else {
            PathComplexity::VeryComplex
        }
    }
}

/// Options of SVG output.
#[derive(Clone, Debug)]
pub struct SvgConfig {
    /// Whether paths go to external files.
    pub use_external_paths: bool,
    /// The directory of external SVG files.
    pub external_path_base: String,
    /// Whether the output is optimized.
    pub optimize: bool,
    /// Whether a `viewBox` is written.
    pub include_viewbox: bool,
}

impl Default for SvgConfig {
    fn default() -> (r: SvgConfig)
        ensures
            r.use_external_paths,
            r.external_path_base@ == "assets/svg"@,
            r.optimize,
            r.include_viewbox,
    {
        SvgConfig {
            use_external_paths: true,
            external_path_base: crate::text::owned("assets/svg"),
            optimize: true,
            include_viewbox: true,
        }
    }
}

} // verus!
