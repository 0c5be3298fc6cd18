//! Identifiers of graph elements and of the definitions they refer to.

use vstd::arithmetic::power::pow;
use vstd::prelude::*;

verus! {

/// A 128-bit universally unique identifier, held as the integer that its
/// sixteen bytes spell when read most significant byte first.
#[derive(Clone, Copy, Debug, PartialEq, Eq, Hash, Structural)]
pub struct Uuid {
    pub bits: u128,
}

/// The sixteen lower-case hexadecimal digits, each at the index of its value.
pub open spec fn hex_digits() -> Seq<char> {
    seq!['0', '1', '2', '3', '4', '5', '6', '7', '8', '9', 'a', 'b', 'c', 'd', 'e', 'f']
}

/// The value of the `index`-th of the 32 hexadecimal digits of `bits`,
/// counted from the most significant one.
pub open spec fn hex_value(bits: u128, index: int) -> int {
    (bits as int / pow(16, (31 - index) as nat)) % 16
}

/// Which of the 32 digits stands at position `position` of the 36-character
/// text, where positions 8, 13, 18 and 23 hold hyphens.
pub open spec fn digit_index(position: int) -> int {
    if position < 8 {
        position
    } else if position < 13 {
        position - 1
    } else if position < 18 {
        position - 2
    } else if position < 23 {
        position - 3
    } else {
        position - 4
    }
}

/// The canonical text of an identifier: its 32 lower-case hexadecimal digits,
/// most significant first, in groups of 8, 4, 4, 4 and 12 joined by hyphens.
pub open spec fn uuid_text(bits: u128) -> Seq<char> {
    Seq::new(
        36,
        |position: int|
            if position == 8 || position == 13 || position == 18 || position == 23 {
                '-'
            } else {
                hex_digits()[hex_value(bits, digit_index(position))]
            },
    )
}

/// Whether `bits` carries the markers of a randomly drawn identifier: version
/// nibble 4 and the two variant bits `10`.
pub open spec fn is_random_variant(bits: u128) -> bool {
    bits & 0x0000_0000_0000_f000_c000_0000_0000_0000u128
        == 0x0000_0000_0000_4000_8000_0000_0000_0000u128
}

/// Draws an identifier with `uuid::Uuid::new_v4` and hands back its value
/// through `as_u128`. The identifier is random; the contract claims only the
/// version and variant markers that every such identifier carries. The call
/// panics where the operating system gives no random bytes.
#[verifier::external_body]
fn draw_random_bits() -> (bits: u128)
    ensures
        is_random_variant(bits),
{
    uuid::Uuid::new_v4().as_u128()
}

/// Formats through the `Display` impl of `uuid::Uuid`, applied to
/// `uuid::Uuid::from_u128(bits)`. The contract claims the hyphenated
/// lower-case hexadecimal form.
#[verifier::external_body]
fn format_hyphenated(bits: u128) -> (text: String)
    ensures
        text@ == uuid_text(bits),
{
    uuid::Uuid::from_u128(bits).to_string()
}

impl Uuid {
    /// The identifier whose value is `bits`.
    pub fn from_u128(bits: u128) -> (id: Uuid)
        ensures
            id.bits == bits,
    {
        Uuid { bits }
    }

    /// The value of the identifier.
    pub fn as_u128(&self) -> (bits: u128)
        ensures
            bits == self.bits,
    {
        self.bits
    }

    /// The nil identifier, all of whose bits are zero.
    pub fn nil() -> (id: Uuid)
        ensures
            id.bits == 0,
    {
        Uuid { bits: 0 }
    }

    /// A freshly drawn random identifier. Which one is not determined; it is
    /// never the nil identifier.
    pub fn new_v4() -> (id: Uuid)
        ensures
            is_random_variant(id.bits),
            id.bits != 0,
    {
        let bits = draw_random_bits();
        assert(bits != 0) by (bit_vector)
            requires
                bits & 0x0000_0000_0000_f000_c000_0000_0000_0000u128
                    == 0x0000_0000_0000_4000_8000_0000_0000_0000u128,
        ;
        Uuid { bits }
    }

    /// The canonical hyphenated text of the identifier.
    pub fn to_string(&self) -> (text: String)
        ensures
            text@ == uuid_text(self.bits),
    {
        format_hyphenated(self.bits)
    }
}

} // verus!
