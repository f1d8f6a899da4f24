//! Session identifiers: random version 4 UUIDs, held as their 128 bits.
use vstd::arithmetic::power2::pow2;
use vstd::prelude::*;

verus! {

/// The lower-case hexadecimal digit for a value in `0..16`.
pub open spec fn hex_digit(d: int) -> char {
    if d < 10 {
        (d + 48) as char
    } else {
        (d + 87) as char
    }
}

/// The `i`-th hexadecimal digit of `bits`, counting from the most significant one (`0..32`).
pub open spec fn nibble(bits: u128, i: int) -> int {
    (bits as int / pow2((4 * (31 - i)) as nat) as int) % 16
}

/// Which digit of the 32 stands at position `k` of the hyphenated text.
pub open spec fn digit_at(k: int) -> int {
    if k < 8 {
        k
    } else if k < 13 {
        k - 1
    } else if k < 18 {
        k - 2
    } else if k < 23 {
        k - 3
    } else {
        k - 4
    }
}

/// The hyphenated lower-case text of a UUID, in groups of 8, 4, 4, 4 and 12 digits,
/// most significant digit first, as in `67e55044-10b1-426f-9247-bb680e5fe0c8`.
pub open spec fn uuid_text(bits: u128) -> Seq<char> {
    Seq::new(
        36,
        |k: int|
            if k == 8 || k == 13 || k == 18 || k == 23 {
                '-'
            } else {
                hex_digit(nibble(bits, digit_at(k)))
            },
    )
}

/// A UUID of version 4 (random) and of the RFC 4122 variant: its 13th digit is `4`
/// and the two high bits of its 17th digit are `10`.
pub open spec fn is_v4(bits: u128) -> bool {
    &&& nibble(bits, 12) == 4
    &&& nibble(bits, 16) / 4 == 2
}

/// The identifier of a Spark Connect session.
#[derive(Clone, Copy, Debug, PartialEq, Eq, Structural, Hash)]
pub struct SessionId(pub u128);

/// Calls `uuid::Uuid::new_v4` and returns the UUID's bits (`as_u128`, most
/// significant byte first). The bits are random but for the version and the variant,
/// which `new_v4` sets to 4 and RFC 4122; that is all that is stated. (`new_v4` panics
/// when the operating system gives no random bytes; nothing here rules that out.)
#[verifier::external_body]
fn random_v4_bits() -> (bits: u128)
    ensures
        is_v4(bits),
{
    uuid::Uuid::new_v4().as_u128()
}

/// Calls `to_string` on `uuid::Uuid::from_u128(bits)`: the `Display` of a UUID is its
/// hyphenated lower-case form, which `uuid_text` spells out.
#[verifier::external_body]
fn hyphenated(bits: u128) -> (text: String)
    ensures
        text@ == uuid_text(bits),
{
    uuid::Uuid::from_u128(bits).to_string()
}

impl SessionId {
    /// A fresh random session identifier.
    pub fn new_v4() -> (id: SessionId)
        ensures
            is_v4(id.0),
    {
        SessionId(random_v4_bits())
    }

    /// The identifier as the server reads it: the hyphenated UUID text.
    pub fn to_text(&self) -> (text: String)
        ensures
            text@ == uuid_text(self.0),
            text@.len() == 36,
    {
        hyphenated(self.0)
    }
}

} // verus!
