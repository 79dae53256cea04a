//! Attachment tokens: opaque, freshly drawn identifiers.

use vstd::prelude::*;

verus! {

/// One of `0` to `9`.
pub open spec fn is_digit(c: char) -> bool {
    '0' <= c && c <= '9'
}

/// One of `0` to `9` or `a` to `f`.
pub open spec fn is_lower_hex(c: char) -> bool {
    is_digit(c) || ('a' <= c && c <= 'f')
}

/// The shape of a token: 36 characters, a hyphen at each of the positions 8,
/// 13, 18 and 23, a lower-case hexadecimal digit everywhere else.
pub open spec fn is_token(text: Seq<char>) -> bool {
    &&& text.len() == 36
    &&& forall|i: int|
        0 <= i < 36 ==> if i == 8 || i == 13 || i == 18 || i == 23 {
            #[trigger] text[i] == '-'
        } else {
            is_lower_hex(#[trigger] text[i])
        }
}

/// Calls `uuid::Uuid::new_v4` and writes the identifier as text, in the
/// hyphenated lower-case form that `Uuid` displays as. The identifier is
/// random: the contract states the shape of the text and nothing of its
/// digits, so to the verifier two calls may or may not agree. The call panics
/// where the system has no random bytes to give.
#[verifier::external_body]
pub(crate) fn fresh() -> (r: String)
    ensures
        is_token(r@),
{
    uuid::Uuid::new_v4().to_string()
}

} // verus!
