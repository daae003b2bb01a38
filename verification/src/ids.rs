//! Participant identities and the text forms derived from them.

use vstd::prelude::*;

verus! {

/// Lower-case hexadecimal digit for a nibble value in `0..16`.
pub open spec fn hex_digit(n: int) -> char {
    if n < 10 {
        (48 + n) as char
    } else {
        (87 + n) as char
    }
}

/// The `k`-th nibble (`0 <= k < 32`) of `v`, most significant first.
pub open spec fn nibble_of(v: u128, k: int) -> int {
    (v as int / vstd::arithmetic::power2::pow2((4 * (31 - k)) as nat) as int) % 16
}

/// Number of hex digits that precede text position `i` of the hyphenated form.
pub open spec fn uuid_digit_index(i: int) -> int {
    if i < 8 {
        i
    } else if i < 13 {
        i - 1
    } else if i < 18 {
        i - 2
    } else if i < 23 {
        i - 3
    } else {
        i - 4
    }
}

/// The hyphenated lower-case form of a 128-bit identifier, read big-endian:
/// 32 hex digits split 8-4-4-4-12 by hyphens.
pub open spec fn uuid_text(v: u128) -> Seq<char> {
    Seq::new(
        36,
        |i: int|
            if i == 8 || i == 13 || i == 18 || i == 23 {
                '-'
            } else {
                hex_digit(nibble_of(v, uuid_digit_index(i)))
            },
    )
}

/// Formats `v` through `uuid::Uuid::from_u128` and the `Display` impl of
/// `uuid::Uuid`, which writes the hyphenated lower-case form of the big-endian
/// bytes of `v`.
#[verifier::external_body]
fn uuid_hyphenated(v: u128) -> (s: String)
    ensures
        s@ == uuid_text(v),
{
    format!("{}", uuid::Uuid::from_u128(v))
}

/// Identity of a participant: the 128-bit value of its UUID.
#[derive(Debug, Clone, Copy, PartialEq, Eq, Structural, Hash)]
pub struct ParticipantId(pub u128);

impl ParticipantId {
    /// Builds the identity from the 128-bit value of a UUID.
    pub fn from_u128(value: u128) -> (id: ParticipantId)
        ensures
            id.0 == value,
    {
        ParticipantId(value)
    }

    /// The 128-bit value of the UUID.
    pub fn as_u128(&self) -> (v: u128)
        ensures
            v == self.0,
    {
        self.0
    }

    /// The text form, as the UUID would be displayed.
    pub fn to_string(&self) -> (s: String)
        ensures
            s@ == uuid_text(self.0),
    {
        uuid_hyphenated(self.0)
    }
}

} // verus!
