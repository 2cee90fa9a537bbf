//! React component source text for the root layers of a design.

use vstd::prelude::*;
use crate::text::{cat2, cat3, chars_of, owned, string_of, trim_end_by, trim_end_class_chars, trim_ws, trim_ws_chars, class_pred, CharClass};

verus! {

/// The named result of heck's `ToPascalCase::to_pascal_case`: the words of
/// `s`, each capitalized, joined without separators.
pub uninterp spec fn pascal_case(s: Seq<char>) -> Seq<char>;

/// heck's `to_pascal_case`. Its result is `pascal_case(s)`: heck's splitting
/// of the text into words and its Unicode case mapping are not restated here.
#[verifier::external_body]
fn to_pascal_case(s: &str) -> (r: String)
    ensures
        r@ == pascal_case(s@),
{
    heck::ToPascalCase::to_pascal_case(s)
}

/// The named result of `char::is_numeric`: whether the character is in a
/// Unicode number category.
pub uninterp spec fn unicode_numeric(c: char) -> bool;

/// `char::is_numeric`. Its result is `unicode_numeric(c)`; the Unicode
/// category table is not restated here.
#[verifier::external_body]
fn is_numeric(c: char) -> (r: bool)
    ensures
        r == unicode_numeric(c),
        (c as u32) < 128 ==> (r <==> ('0' <= c && c <= '9')),
{
    c.is_numeric()
}

/// `s` with slashes and dots turned into spaces, so that they separate words.
pub open spec fn separators_to_spaces(s: Seq<char>) -> Seq<char> {
    s.map_values(|c: char| if c == '/' || c == '.' { ' ' } else { c })
}

/// A component name from a Pascal-case name: `Component` for an empty name,
/// and `Component` before a name that starts with a number.
pub open spec fn component_name_from(pascal: Seq<char>) -> Seq<char> {
    if pascal.len() == 0 {
        "Component"@
    } else if unicode_numeric(pascal[0]) {
        "Component"@ + pascal
    } else {
        pascal
    }
}

/// A component name is never empty, and it starts with `C` (of
/// `Component`) or with the first character of the PascalCase name, which
/// is then not numeric.
pub proof fn law_component_name_valid(pascal: Seq<char>)
    ensures
        component_name_from(pascal).len() > 0,
        component_name_from(pascal)[0] == 'C' || !unicode_numeric(component_name_from(pascal)[0]),
{
    reveal_strlit("Component");
}

/// The React component name of a layer name.
pub open spec fn sanitized_component_name(name: Seq<char>) -> Seq<char> {
    component_name_from(pascal_case(separators_to_spaces(name)))
}

fn replace_separators(name: &str) -> (r: String)
    ensures
        r@ == separators_to_spaces(name@),
{
    let v = chars_of(name);
    let mut out: Vec<char> = Vec::new();
    let mut i: usize = 0;
    while i < v.len()
        invariant
            i <= v.len(),
            out@ == separators_to_spaces(v@.take(i as int)),
        decreases v.len() - i,
    {
        let c = v[i];
        out.push(if c == '/' || c == '.' { ' ' } else { c });
        i += 1;
        assert(separators_to_spaces(v@.take(i as int)) =~= separators_to_spaces(v@.take(i - 1)).push(
            if c == '/' || c == '.' { ' ' } else { c },
        ));
    }
    assert(v@.take(v.len() as int) == v@);
    string_of(&out)
}

/// A valid React component name from a Pascal-case name.
pub fn component_name_from_pascal(pascal: &str) -> (r: String)
    ensures
        r@ == component_name_from(pascal@),
{
    let v = chars_of(pascal);
    if v.len() == 0 {
        return owned("Component");
    }
    if is_numeric(v[0]) {
        cat2("Component", pascal)
    } else {
        owned(pascal)
    }
}

/// Turns a layer name such as `flow/burden/page` into a React component name
/// such as `FlowBurdenPage`.
pub fn sanitize_component_name(name: &str) -> (r: String)
    ensures
        r@ == sanitized_component_name(name@),
{
    let normalized = replace_separators(name);
    let pascal = to_pascal_case(normalized.as_str());
    component_name_from_pascal(pascal.as_str())
}

/// The code that the JSX printer emits for an expression statement, without
/// surrounding whitespace and without its trailing semicolons.
pub open spec fn emitted_jsx(code: Seq<char>) -> Seq<char> {
    trim_end_by(trim_ws(code), class_pred(CharClass::Semicolon))
}

/// Strips the statement's whitespace and trailing semicolons from printed JSX.
pub fn finish_emitted_jsx(code: &str) -> (r: String)
    ensures
        r@ == emitted_jsx(code@),
{
    let v = chars_of(code);
    let t = trim_ws_chars(&v);
    let e = trim_end_class_chars(&t, CharClass::Semicolon);
    string_of(&e)
}

/// Writes React components from the root layers of a design.
#[derive(Clone, Copy, Debug)]
pub struct TsxGenerator {
    /// Whether files import React.
    pub include_react_imports: bool,
    /// Whether each component goes to a file of its own.
    pub separate_files: bool,
    /// Whether only exportable layers become components.
    pub exportable_only: bool,
}

/// The import of React that starts a file.
pub open spec fn react_import() -> Seq<char> {
    "import React from 'react';\n\n"@
}

/// The function of a component that returns its JSX.
pub open spec fn component_function(name: Seq<char>, jsx: Seq<char>) -> Seq<char> {
    "export function "@ + name + "() {\n"@ + "  return (\n"@ + jsx + "\n  );\n"@ + "}\n"@
}

impl TsxGenerator {
    /// A generator that imports React and writes one file per component.
    pub fn new() -> (r: TsxGenerator)
        ensures
            r.include_react_imports,
            r.separate_files,
            !r.exportable_only,
    {
        TsxGenerator { include_react_imports: true, separate_files: true, exportable_only: false }
    }

    pub fn with_react_imports(self, enabled: bool) -> (r: TsxGenerator)
        ensures
            r == (TsxGenerator { include_react_imports: enabled, ..self }),
    {
        TsxGenerator { include_react_imports: enabled, ..self }
    }

    pub fn with_separate_files(self, separate: bool) -> (r: TsxGenerator)
        ensures
            r == (TsxGenerator { separate_files: separate, ..self }),
    {
        TsxGenerator { separate_files: separate, ..self }
    }

    pub fn with_exportable_only(self, exportable_only: bool) -> (r: TsxGenerator)
        ensures
            r == (TsxGenerator { exportable_only: exportable_only, ..self }),
    {
        TsxGenerator { exportable_only: exportable_only, ..self }
    }

    /// The extension of generated files.
    pub fn file_extension(&self) -> (r: &'static str)
        ensures
            r@ == "tsx"@,
    {
        "tsx"
    }

    /// The directory of generated files.
    pub fn output_directory(&self) -> (r: &'static str)
        ensures
            r@ == "tsx"@,
    {
        "tsx"
    }

    /// The function of a component whose JSX prints as `jsx`.
    pub fn generate_component_function(&self, component_name: &str, jsx: &str) -> (r: String)
        ensures
            r@ == component_function(component_name@, jsx@),
    {
        let mut content = cat3("export function ", component_name, "() {\n");
        content.append("  return (\n");
        content.append(jsx);
        content.append("\n  );\n");
        content.append("}\n");
        content
    }

    /// The file of one component: the React import where asked for, the
    /// component function, and its default export.
    pub fn generate_component_file(&self, component_name: &str, jsx: &str) -> (r: String)
        ensures
            r@ == (if self.include_react_imports { react_import() } else { Seq::empty() })
                + component_function(component_name@, jsx@) + "\nexport default "@ + component_name@ + ";\n"@,
    {
        let mut content = String::new();
        if self.include_react_imports {
            content.append("import React from 'react';\n\n");
        }
        let code = self.generate_component_function(component_name, jsx);
        content.append(code.as_str());
        content.append("\nexport default ");
        content.append(component_name);
        content.append(";\n");
        content
    }

    /// The file name and content for a root layer named `component_name`:
    /// the file keeps the layer's name, the component gets a valid name.
    pub fn separate_file(&self, component_name: &str, jsx: &str) -> (r: (String, String))
        ensures
            r.0@ == component_name@ + ".tsx"@,
            r.1@ == (if self.include_react_imports { react_import() } else { Seq::empty() })
                + component_function(sanitized_component_name(component_name@), jsx@) + "\nexport default "@
                + sanitized_component_name(component_name@) + ";\n"@,
    {
        let file_name = cat2(component_name, ".tsx");
        let sanitized = sanitize_component_name(component_name);
        let content = self.generate_component_file(sanitized.as_str(), jsx);
        (file_name, content)
    }
}

/// The functions of the components, each followed by a blank line.
pub open spec fn module_functions(components: Seq<(String, String)>) -> Seq<char>
    decreases components.len(),
{
    if components.len() == 0 {
        seq![]
    } else {
        let last = components.last();
        module_functions(components.drop_last()) + component_function(sanitized_component_name(last.0@), last.1@)
            + "\n\n"@
    }
}

/// The named exports of the components.
pub open spec fn module_exports(components: Seq<(String, String)>) -> Seq<char>
    decreases components.len(),
{
    if components.len() == 0 {
        seq![]
    } else {
        module_exports(components.drop_last()) + "export { "@ + sanitized_component_name(components.last().0@)
            + " };\n"@
    }
}

impl TsxGenerator {
    /// One file with all components: their functions, then their exports.
    /// Each entry is a layer name and the printed JSX of the layer.
    pub fn generate_module_file(&self, components: &Vec<(String, String)>) -> (r: String)
        ensures
            r@ == (if self.include_react_imports { react_import() } else { Seq::empty() })
                + module_functions(components@) + "// Exports\n"@ + module_exports(components@),
    {
        let mut content = String::new();
        if self.include_react_imports {
            content.append("import React from 'react';\n\n");
        }
        let ghost start = content@;
        let mut names: Vec<String> = Vec::new();
        let mut i: usize = 0;
        while i < components.len()
            invariant
                i <= components.len(),
                names@.len() == i,
                forall|j: int| 0 <= j < i ==> names@[j]@ == sanitized_component_name(components@[j].0@),
                content@ == start + module_functions(components@.take(i as int)),
            decreases components.len() - i,
        {
            let sanitized = sanitize_component_name(components[i].0.as_str());
            let code = self.generate_component_function(sanitized.as_str(), components[i].1.as_str());
            content.append(code.as_str());
            content.append("\n\n");
            names.push(sanitized);
            i += 1;
            assert(components@.take(i as int).drop_last() == components@.take(i - 1));
        }
        assert(components@.take(components.len() as int) == components@);
        content.append("// Exports\n");
        let ghost mid = content@;
        let mut k: usize = 0;
        while k < names.len()
            invariant
                k <= names.len() == components.len(),
                forall|j: int| 0 <= j < names.len() ==> names@[j]@ == sanitized_component_name(components@[j].0@),
                content@ == mid + module_exports(components@.take(k as int)),
            decreases names.len() - k,
        {
            content.append("export { ");
            content.append(names[k].as_str());
            content.append(" };\n");
            k += 1;
            assert(components@.take(k as int).drop_last() == components@.take(k - 1));
        }
        content
    }

    /// The single module file: its name and its content.
    pub fn single_file(&self, components: &Vec<(String, String)>) -> (r: (String, String))
        ensures
            r.0@ == "components.tsx"@,
            r.1@ == (if self.include_react_imports { react_import() } else { Seq::empty() })
                + module_functions(components@) + "// Exports\n"@ + module_exports(components@),
    {
        (owned("components.tsx"), self.generate_module_file(components))
    }
}

} // verus!
