//! Fresh identifiers: random version-4 UUIDs from the `uuid` crate, and the
//! textual shapes that every one of them has.

use vstd::prelude::*;

verus! {

/// A lowercase hexadecimal digit.
pub open spec fn is_lower_hex_digit(c: char) -> bool {
    ('0' <= c && c <= '9') || ('a' <= c && c <= 'f')
}

/// The hex digit that carries a version-4 UUID's variant bits `10xx`.
pub open spec fn is_rfc_variant_digit(c: char) -> bool {
    c == '8' || c == '9' || c == 'a' || c == 'b'
}

/// The positions of the four hyphens in a hyphenated UUID.
pub open spec fn is_uuid_hyphen_position(i: int) -> bool {
    i == 8 || i == 13 || i == 18 || i == 23
}

/// The hyphenated lowercase text of a random (version 4) UUID, such as
/// `67e55044-10b1-426f-9247-bb680e5fe0c8`.
pub open spec fn is_hyphenated_uuid_v4(s: Seq<char>) -> bool {
    &&& s.len() == 36
    &&& forall|i: int|
        0 <= i < 36 ==> if is_uuid_hyphen_position(i) {
            s[i] == '-'
        } else {
            is_lower_hex_digit(#[trigger] s[i])
        }
    &&& s[14] == '4'
    &&& is_rfc_variant_digit(s[19])
}

/// The simple (unhyphenated) lowercase text of a random (version 4) UUID:
/// 32 hex digits.
pub open spec fn is_simple_uuid_v4(s: Seq<char>) -> bool {
    &&& s.len() == 32
    &&& forall|i: int| 0 <= i < 32 ==> is_lower_hex_digit(#[trigger] s[i])
    &&& s[12] == '4'
    &&& is_rfc_variant_digit(s[16])
}

/// Calls `uuid::Uuid::new_v4` and renders it with `to_string`. The result is
/// random; the contract claims only its shape, which `uuid`'s source fixes:
/// the hyphenated lowercase form, with version digit `4` and variant digit
/// among `8`, `9`, `a`, `b`.
#[verifier::external_body]
pub(crate) fn fresh_uuid_hyphenated() -> (r: String)
    ensures
        is_hyphenated_uuid_v4(r@),
{
    uuid::Uuid::new_v4().to_string()
}

/// Calls `uuid::Uuid::new_v4` and renders it with `simple().to_string()`.
/// The result is random; the contract claims only its shape: 32 lowercase hex
/// digits with version digit `4` and variant digit among `8`, `9`, `a`, `b`.
#[verifier::external_body]
pub(crate) fn fresh_uuid_simple() -> (r: String)
    ensures
        is_simple_uuid_v4(r@),
{
    uuid::Uuid::new_v4().simple().to_string()
}

} // verus!
