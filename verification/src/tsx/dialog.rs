//! Names of the components that dialogs import.

use vstd::prelude::*;
use crate::text::{lemma_split_on_nonempty, owned, split_chars, split_on, string_of, vviews};

verus! {

/// The named result of `char::to_uppercase`: the Unicode uppercase mapping of
/// a character, which may be several characters.
pub uninterp spec fn uppercase(c: char) -> Seq<char>;

/// `char::to_uppercase`, collected; its result is `uppercase(c)`, whose
/// Unicode tables are not restated here.
#[verifier::external_body]
fn to_uppercase(c: char) -> (r: Vec<char>)
    ensures
        r@ == uppercase(c),
        (c as u32) < 128 ==> r@ == seq![if 'a' <= c && c <= 'z' { ((c as u32) - 32) as char } else { c }],
{
    c.to_uppercase().collect()
}

/// Whether a character separates words of a file name.
pub open spec fn is_word_break(c: char) -> bool {
    c == '-' || c == '_' || c == ' '
}

/// The words of `s` run together, each starting with its first character in
/// uppercase; `cap` says whether the first character starts a word.
pub open spec fn pascal_from(s: Seq<char>, cap: bool) -> Seq<char>
    decreases s.len(),
{
    if s.len() == 0 {
        seq![]
    } else if is_word_break(s[0]) {
        pascal_from(s.drop_first(), true)
    } else if cap {
        uppercase(s[0]) + pascal_from(s.drop_first(), false)
    } else {
        seq![s[0]] + pascal_from(s.drop_first(), false)
    }
}

/// The local name of an import: the named export if there is one; else the
/// part of the last path segment before its first `.`, in PascalCase, or
/// `Component` where that is empty.
pub open spec fn import_local_name(import_path: Seq<char>, import_name: Option<Seq<char>>) -> Seq<char> {
    match import_name {
        Some(n) => n,
        None => {
            let last = split_on(import_path, '/').last();
            let stem = split_on(last, '.')[0];
            let p = pascal_from(stem, true);
            if p.len() == 0 {
                "Component"@
            } else {
                p
            }
        },
    }
}

/// The local name of an import is never empty.
pub proof fn law_local_name_nonempty(import_path: Seq<char>, import_name: Option<Seq<char>>)
    requires
        import_name matches Some(n) ==> n.len() > 0,
    ensures
        import_local_name(import_path, import_name).len() > 0,
{
    reveal_strlit("Component");
}

/// A stable local identifier for an import, from its path and its named
/// export if any.
pub fn derive_import_local_name(import_path: &str, import_name: Option<&str>) -> (r: String)
    ensures
        r@ == import_local_name(
            import_path@,
            match import_name {
                Some(n) => Some(n@),
                None => None,
            },
        ),
{
    match import_name {
        Some(name) => {
            return owned(name);
        },
        None => {},
    }
    let chars = crate::text::chars_of(import_path);
    let segments = split_chars(&chars, '/');
    proof {
        lemma_split_on_nonempty(import_path@, '/');
    }
    let last = &segments[segments.len() - 1];
    assert(last@ == split_on(import_path@, '/').last());
    let parts = split_chars(last, '.');
    proof {
        lemma_split_on_nonempty(last@, '.');
    }
    let stem = &parts[0];
    assert(stem@ == split_on(last@, '.')[0]);
    let mut result: Vec<char> = Vec::new();
    let mut capitalize = true;
    let mut i: usize = 0;
    assert(stem@.skip(0) == stem@);
    while i < stem.len()
        invariant
            i <= stem.len(),
            result@ + pascal_from(stem@.skip(i as int), capitalize) == pascal_from(stem@, true),
        decreases stem.len() - i,
    {
        let ch = stem[i];
        assert(stem@.skip(i as int)[0] == ch);
        assert(stem@.skip(i as int).drop_first() == stem@.skip(i + 1));
        if ch == '-' || ch == '_' || ch == ' ' {
            capitalize = true;
        } else if capitalize {
            let up = to_uppercase(ch);
            let ghost before = result@;
            let mut k: usize = 0;
            while k < up.len()
                invariant
                    k <= up.len(),
                    result@ == before + up@.take(k as int),
                decreases up.len() - k,
            {
                result.push(up[k]);
                assert(up@.take(k + 1) == up@.take(k as int).push(up@[k as int]));
                k += 1;
            }
            assert(up@.take(up.len() as int) == up@);
            assert(result@ + pascal_from(stem@.skip(i + 1), false) =~= before + (uppercase(ch) + pascal_from(stem@.skip(i + 1), false)));
            capitalize = false;
        } else {
            let ghost before = result@;
            result.push(ch);
            assert(result@ + pascal_from(stem@.skip(i + 1), false) =~= before + (seq![ch] + pascal_from(stem@.skip(i + 1), false)));
        }
        i += 1;
    }
    assert(stem@.skip(stem.len() as int).len() == 0);
    assert(result@ + pascal_from(stem@.skip(i as int), capitalize) =~= result@);
    if result.len() == 0 {
        owned("Component")
    } else {
        string_of(&result)
    }
}

} // verus!
