//! Identifiers of agents and environments: 128-bit UUIDs held as integers.

use vstd::prelude::*;

verus! {

/// An agent's identifier, the 128-bit value of a UUID (big-endian bytes).
pub type AgentId = u128;

/// An environment's identifier, the 128-bit value of a UUID.
pub type EnvId = u128;

/// The version field of a UUID sits in bits 76..80, the variant in bits 62..64.
pub open spec fn has_v4_layout(id: u128) -> bool {
    id & 0xf000_c000_0000_0000_0000u128 == 0x4000_8000_0000_0000_0000u128
}

/// A nil UUID is the all-zero value.
pub open spec fn spec_is_nil(id: u128) -> bool {
    id == 0
}

/// Whether `id` is the nil UUID.
pub fn is_nil(id: AgentId) -> (r: bool)
    ensures
        r == spec_is_nil(id),
{
    id == 0
}

/// A UUID of version 4 is never nil: its version bits are set.
pub proof fn lemma_v4_not_nil(id: u128)
    requires
        has_v4_layout(id),
    ensures
        !spec_is_nil(id),
{
    assert(id == 0 ==> id & 0xf000_c000_0000_0000_0000u128 == 0) by (bit_vector);
}

/// Draws a random identifier through `uuid::Uuid::new_v4`.
///
/// The uuid crate masks a random 128-bit value so that the version nibble is 4
/// and the variant bits are `10`; that layout is all this contract claims.
/// Which value comes out is left free: it comes from the operating system's
/// random source.
#[verifier::external_body]
pub(crate) fn random_v4() -> (id: u128)
    ensures
        has_v4_layout(id),
{
    uuid::Uuid::new_v4().as_u128()
}

/// The lower-case hexadecimal digit of a value below 16.
pub open spec fn hex_lower(n: u128) -> char {
    if n < 10 {
        ((n + 48) as u32) as char
    } else {
        ((n + 87) as u32) as char
    }
}

/// The `k`-th hexadecimal digit of `id`, counted from the most significant.
pub open spec fn uuid_nibble(id: u128, k: int) -> u128 {
    (id >> ((124 - 4 * k) as u128)) & 0xf
}

/// The character at position `i` of the hyphenated form of a UUID.
pub open spec fn uuid_char_at(id: u128, i: int) -> char {
    if i == 8 || i == 13 || i == 18 || i == 23 {
        '-'
    } else {
        let k = if i < 8 {
            i
        } else if i < 13 {
            i - 1
        } else if i < 18 {
            i - 2
        } else if i < 23 {
            i - 3
        } else {
            i - 4
        };
        hex_lower(uuid_nibble(id, k))
    }
}

/// The hyphenated lower-case text of a UUID: 8-4-4-4-12 hex digits.
pub open spec fn uuid_text(id: u128) -> Seq<char> {
    Seq::new(36, |i: int| uuid_char_at(id, i))
}

/// Formats an identifier through `uuid::Uuid`'s `Display`.
///
/// The uuid crate prints the 16 big-endian bytes as lower-case hex digits,
/// with hyphens after the 8th, 12th, 16th and 20th digit; the contract states
/// exactly that text.
#[verifier::external_body]
pub(crate) fn uuid_string(id: u128) -> (s: String)
    ensures
        s@ == uuid_text(id),
{
    uuid::Uuid::from_u128(id).to_string()
}

} // verus!
