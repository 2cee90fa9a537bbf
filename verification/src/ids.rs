//! Random identifiers, as text.

use vstd::prelude::*;

verus! {

/// Whether `c` is a lowercase hexadecimal digit.
pub open spec fn is_lower_hex(c: char) -> bool {
    ('0' <= c && c <= '9') || ('a' <= c && c <= 'f')
}

/// The hyphenated form of a 32-digit simple form: groups of 8, 4, 4, 4 and
/// 12 digits joined by `-`.
pub open spec fn hyphenated_of(simple: Seq<char>) -> Seq<char> {
    simple.subrange(0, 8) + "-"@ + simple.subrange(8, 12) + "-"@ + simple.subrange(12, 16) + "-"@
        + simple.subrange(16, 20) + "-"@ + simple.subrange(20, 32)
}

/// A UUID in its two text forms.
#[derive(Debug, Clone)]
pub struct UuidText {
    /// The hyphenated form, as `Display` writes it.
    pub hyphenated: String,
    /// The 32 digits without hyphens.
    pub simple: String,
}

/// Whether `u` holds the two forms of one UUID.
pub open spec fn well_formed_uuid(u: UuidText) -> bool {
    &&& u.simple@.len() == 32
    &&& forall|i: int| 0 <= i < 32 ==> is_lower_hex(#[trigger] u.simple@[i])
    &&& u.hyphenated@ == hyphenated_of(u.simple@)
}

/// `uuid::Uuid::new_v4`, in its hyphenated (`to_string`) and `simple` forms.
/// The digits are random; what is claimed is the shape of the two texts,
/// which the crate's formatting code writes as 32 lowercase hexadecimal digits,
/// with hyphens after the 8th, 12th, 16th and 20th in the hyphenated form.
#[verifier::external_body]
pub(crate) fn new_uuid() -> (r: UuidText)
    ensures
        well_formed_uuid(r),
{
    let u = uuid::Uuid::new_v4();
    UuidText { hyphenated: u.to_string(), simple: u.simple().to_string() }
}

} // verus!

verus! {

/// The hyphenated form of a UUID has 36 characters.
pub proof fn lemma_hyphenated_len(u: UuidText)
    requires
        well_formed_uuid(u),
    ensures
        u.hyphenated@.len() == 36,
{
    reveal_strlit("-");
}

} // verus!
