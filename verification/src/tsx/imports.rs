//! Import declarations of a TSX module, and a module as its imports and the
//! JSX trees it renders.

use vstd::prelude::*;
use crate::jsx::JsxElement;

verus! {

/// What an import declaration brings in.
#[derive(Debug, Clone)]
pub enum ImportSpecifier {
    /// The default export, under a local name.
    Default(String),
    /// A named export, under its own name.
    Named(String),
}

/// An import declaration: its specifiers and the module it imports from.
#[derive(Debug, Clone)]
pub struct ImportDecl {
    pub specifiers: Vec<ImportSpecifier>,
    pub src: String,
}

/// The view of a specifier.
pub enum SpecifierV {
    Default(Seq<char>),
    Named(Seq<char>),
}

/// The view of a specifier.
pub open spec fn specifier_view(s: ImportSpecifier) -> SpecifierV {
    match s {
        ImportSpecifier::Default(n) => SpecifierV::Default(n@),
        ImportSpecifier::Named(n) => SpecifierV::Named(n@),
    }
}

/// The view of an import declaration: its specifiers and its source.
pub open spec fn import_view(d: ImportDecl) -> (Seq<SpecifierV>, Seq<char>) {
    (d.specifiers@.map_values(|s: ImportSpecifier| specifier_view(s)), d.src@)
}

/// The views of a list of import declarations.
pub open spec fn imports_view(ds: Seq<ImportDecl>) -> Seq<(Seq<SpecifierV>, Seq<char>)> {
    ds.map_values(|d: ImportDecl| import_view(d))
}

/// A TSX module: its import declarations, then the JSX trees it renders.
#[derive(Debug)]
pub struct TsxModule {
    pub imports: Vec<ImportDecl>,
    pub elements: Vec<JsxElement>,
}

/// Puts `front` before the declarations of `imports`, in order.
pub fn prepend_imports(imports: &mut Vec<ImportDecl>, front: Vec<ImportDecl>)
    ensures
        imports_view(final(imports)@) == imports_view(front@) + imports_view(old(imports)@),
{
    let mut all = front;
    let ghost f = all@;
    let mut rest: Vec<ImportDecl> = Vec::new();
    std::mem::swap(&mut rest, imports);
    let ghost r = rest@;
    all.append(&mut rest);
    assert(all@ == f + r);
    assert(imports_view(all@) =~= imports_view(f) + imports_view(r));
    *imports = all;
}

} // verus!
