//! The identifier of a user: a 128-bit UUID and its canonical text.

use vstd::prelude::*;

verus! {

/// The bits of a UUID that were drawn at random: the version field holds 4 and
/// the variant field holds the two bits `10`.
pub open spec fn is_random_layout(bits: u128) -> bool {
    bits & 0x0000_0000_0000_f000_c000_0000_0000_0000u128
        == 0x0000_0000_0000_4000_8000_0000_0000_0000u128
}

/// The `index`-th group of four bits of `bits`, counted from the most
/// significant group.
pub open spec fn nibble(bits: u128, index: int) -> u128 {
    (bits >> ((124 - 4 * index) as u128)) & 0xfu128
}

/// The lower-case hexadecimal digit that stands for `value`.
pub open spec fn lower_hex_digit(value: u128) -> char {
    if value < 10 {
        (48 + value) as char
    } else {
        (87 + value) as char
    }
}

/// Whether a hyphen stands at `position` of the canonical text.
pub open spec fn is_hyphen_position(position: int) -> bool {
    position == 8 || position == 13 || position == 18 || position == 23
}

/// The index of the hexadecimal digit that stands at `position` of the
/// canonical text, the hyphens before it left out.
pub open spec fn digit_index(position: int) -> int {
    if position < 8 {
        position
    } else if position < 13 {
        position - 1
    } else if position < 18 {
        position - 2
    } else if position < 23 {
        position - 3
    } else {
        position - 4
    }
}

/// The canonical text of a UUID: 32 lower-case hexadecimal digits, most
/// significant first, in groups of 8, 4, 4, 4 and 12 with hyphens between.
pub open spec fn canonical_text(bits: u128) -> Seq<char> {
    Seq::new(
        36,
        |position: int|
            if is_hyphen_position(position) {
                '-'
            } else {
                lower_hex_digit(nibble(bits, digit_index(position)))
            },
    )
}

/// What `uuid::Uuid::parse_str` makes of a text: the 128 bits of the UUID it
/// reads, or `None` where it rejects the text.
pub uninterp spec fn parsed_uuid(text: Seq<char>) -> Option<u128>;

/// Whether a text can have `length` characters and be the text of a UUID: 32
/// digits alone, 36 with the hyphens, 38 in braces as well, 45 behind
/// `urn:uuid:`.
pub open spec fn is_uuid_text_length(length: nat) -> bool {
    length == 32 || length == 36 || length == 38 || length == 45
}

/// Draws a fresh identifier with `uuid::Uuid::new_v4`. Nothing is claimed of
/// the random bits; the version and variant fields are those of a random UUID,
/// which the function sets on every value it returns.
#[verifier::external_body]
fn random_uuid_bits() -> (bits: u128)
    ensures
        is_random_layout(bits),
{
    uuid::Uuid::new_v4().as_u128()
}

/// Formats a UUID with the `Display` impl of `uuid::Uuid`, which writes the
/// hyphenated lower-case form. The claim is that this is the canonical text and
/// that `uuid::Uuid::parse_str` reads the same UUID back from it.
#[verifier::external_body]
fn hyphenated_text(bits: u128) -> (text: String)
    ensures
        text@ == canonical_text(bits),
        parsed_uuid(text@) == Some(bits),
{
    uuid::Uuid::from_u128(bits).to_string()
}

/// Reads a UUID with `uuid::Uuid::parse_str`. The result is named: the
/// function accepts several spellings of a UUID. One thing is claimed of it
/// beside the name: the function first looks at the length of the text and
/// rejects every length but four, and a text that it accepts holds ASCII
/// alone, so that it has as many characters as bytes.
#[verifier::external_body]
fn parse_uuid_text(text: &str) -> (bits: Option<u128>)
    ensures
        bits == parsed_uuid(text@),
        bits is Some ==> is_uuid_text_length(text@.len()),
{
    match uuid::Uuid::parse_str(text) {
        Ok(id) => Some(id.as_u128()),
        Err(_) => None,
    }
}

/// The identifier of a user. Two identifiers are equal when their bits are.
#[derive(Debug, Clone, Copy, PartialEq, Eq, Structural, Hash)]
pub struct UserId(pub u128);

impl UserId {
    /// The identifier that a text stands for, if it is the text of one.
    pub open spec fn parsed(text: Seq<char>) -> Option<UserId> {
        match parsed_uuid(text) {
            Some(bits) => Some(UserId(bits)),
            None => None,
        }
    }

    /// The canonical text of this identifier.
    pub open spec fn text(self) -> Seq<char> {
        canonical_text(self.0)
    }

    /// A fresh random identifier.
    pub fn new() -> (id: Self)
        ensures
            is_random_layout(id.0),
    {
        UserId(random_uuid_bits())
    }

    /// Writes the identifier in its canonical form, from which `parse` reads
    /// it back.
    pub fn to_string(&self) -> (text: String)
        ensures
            text@ == self.text(),
            text@.len() == 36,
            Self::parsed(text@) == Some(*self),
    {
        hyphenated_text(self.0)
    }

    /// Reads an identifier from text. `None` where the text is not a UUID,
    /// which no text of another length than 32, 36, 38 or 45 characters is.
    pub fn parse(text: &str) -> (id: Option<Self>)
        ensures
            id == Self::parsed(text@),
            id is Some ==> is_uuid_text_length(text@.len()),
    {
        match parse_uuid_text(text) {
            Some(bits) => Some(UserId(bits)),
            None => None,
        }
    }
}

} // verus!
