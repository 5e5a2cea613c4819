//! Upload identifiers: 128-bit values written as hyphenated hexadecimal text.

use vstd::prelude::*;

verus! {

/// The lowercase hexadecimal digit for a value below sixteen.
pub open spec fn lower_hex_digit(n: int) -> char {
    seq![
        '0', '1', '2', '3', '4', '5', '6', '7', '8', '9', 'a', 'b', 'c', 'd', 'e', 'f',
    ][n]
}

/// The `k`-th group of four bits of `value`, counted from the most significant.
pub open spec fn nibble_at(value: u128, k: int) -> int {
    ((value >> ((4 * (31 - k)) as u128)) & 0xf) as int
}

/// Which hexadecimal digit stands at position `p` of the hyphenated text.
pub open spec fn digit_index(p: int) -> int {
    if p < 8 {
        p
    } else if p < 13 {
        p - 1
    } else if p < 18 {
        p - 2
    } else if p < 23 {
        p - 3
    } else {
        p - 4
    }
}

pub open spec fn is_hyphen_position(p: int) -> bool {
    p == 8 || p == 13 || p == 18 || p == 23
}

/// The 36 characters of an identifier: 32 lowercase hexadecimal digits, most
/// significant first, in groups of 8, 4, 4, 4 and 12 separated by hyphens.
pub open spec fn hyphenated_text(value: u128) -> Seq<char> {
    Seq::new(
        36,
        |p: int|
            if is_hyphen_position(p) {
                '-'
            } else {
                lower_hex_digit(nibble_at(value, digit_index(p)))
            },
    )
}

/// What `uuid::Uuid::parse_str` makes of a text: the identifier's value, or
/// nothing where it rejects the text.
pub uninterp spec fn parsed_uuid(text: Seq<char>) -> Option<u128>;

pub open spec fn is_hex_char(c: char) -> bool {
    ('0' <= c && c <= '9') || ('a' <= c && c <= 'f') || ('A' <= c && c <= 'F')
}

/// Whether `c` may stand at position `i` of the text of a random (version 4)
/// identifier.
pub open spec fn v4_char_allowed(i: int, c: char) -> bool {
    if is_hyphen_position(i) {
        c == '-'
    } else if i == 14 {
        c == '4'
    } else if i == 19 {
        c == '8' || c == '9' || c == 'a' || c == 'b' || c == 'A' || c == 'B'
    } else {
        is_hex_char(c)
    }
}

/// The texts that name a random (version 4) identifier: hyphenated, with the
/// version digit 4 and a variant digit of 8, 9, a or b, in either letter case.
pub open spec fn is_uuid_v4_text(text: Seq<char>) -> bool {
    &&& text.len() == 36
    &&& forall|i: int| 0 <= i < 36 ==> v4_char_allowed(i, #[trigger] text[i])
}

/// Whether `value` carries the version and variant bits of a random identifier.
pub open spec fn has_v4_bits(value: u128) -> bool {
    &&& (value >> 76u128) & 0xf == 4
    &&& (value >> 62u128) & 0x3 == 2
}

/// Calls `uuid::Uuid::from_u128` and formats the result with
/// `Uuid::hyphenated`. The crate writes the sixteen bytes, most significant
/// first, as lowercase hexadecimal digits with hyphens after the 8th, 12th,
/// 16th and 20th digit.
#[verifier::external_body]
fn uuid_hyphenated(value: u128) -> (text: String)
    ensures
        text@ == hyphenated_text(value),
{
    uuid::Uuid::from_u128(value).hyphenated().to_string()
}

/// Calls `uuid::Uuid::parse_str` and names its result. The crate's parser
/// reads back the hyphenated text that it writes for a value.
#[verifier::external_body]
fn uuid_parse(text: &str) -> (value: Option<u128>)
    ensures
        value == parsed_uuid(text@),
        forall|v: u128| text@ == hyphenated_text(v) ==> value == Some(v),
{
    match uuid::Uuid::parse_str(text) {
        Ok(parsed) => Some(parsed.as_u128()),
        Err(_) => None,
    }
}

/// Calls `uuid::Uuid::new_v4`, which draws 128 random bits from the operating
/// system and then sets the version field to 4 and the two variant bits to
/// `10`. Nothing is claimed of the other bits. The call does not return where
/// the operating system has no random bytes to give.
#[verifier::external_body]
fn uuid_random() -> (value: u128)
    ensures
        has_v4_bits(value),
{
    uuid::Uuid::new_v4().as_u128()
}

/// The identifier of one upload.
#[derive(Debug, Clone, Copy, PartialEq, Eq, Hash, Structural)]
pub struct EntryId {
    value: u128,
}

impl View for EntryId {
    type V = u128;

    closed spec fn view(&self) -> u128 {
        self.value
    }
}

impl EntryId {
    pub fn from_u128(value: u128) -> (id: Self)
        ensures
            id@ == value,
    {
        Self { value }
    }

    pub fn as_u128(&self) -> (value: u128)
        ensures
            value == self@,
    {
        self.value
    }

    /// A fresh random identifier.
    pub fn generate() -> (id: Self)
        ensures
            has_v4_bits(id@),
    {
        Self { value: uuid_random() }
    }

    /// The identifier as hyphenated lowercase text, as it appears in file names.
    pub fn hyphenated(&self) -> (text: String)
        ensures
            text@ == hyphenated_text(self@),
    {
        uuid_hyphenated(self.value)
    }

    /// Reads an identifier from any of the textual forms that the `uuid`
    /// crate accepts.
    pub fn parse(text: &str) -> (id: Option<Self>)
        ensures
            id is Some <==> parsed_uuid(text@) is Some,
            id matches Some(found) ==> parsed_uuid(text@) == Some(found@),
            forall|v: u128| text@ == hyphenated_text(v) ==> id is Some && id.unwrap()@ == v,
    {
        Self::from_parsed(uuid_parse(text))
    }

    /// Wraps a parser's result.
    pub fn from_parsed(parsed: Option<u128>) -> (id: Option<Self>)
        ensures
            id is Some <==> parsed is Some,
            id matches Some(found) ==> parsed == Some(found@),
    {
        match parsed {
            Some(value) => Some(Self { value }),
            None => None,
        }
    }
}

/// Why a request parameter was not taken as an identifier.
#[derive(Debug, Clone, Copy, PartialEq, Eq, Structural)]
pub enum UuidParseError {
    /// The text does not have the shape of a random identifier.
    Regex,
    /// The text has the shape, and the parser still rejected it.
    Convert,
}

fn is_hex(c: char) -> (b: bool)
    ensures
        b == is_hex_char(c),
{
    (c >= '0' && c <= '9') || (c >= 'a' && c <= 'f') || (c >= 'A' && c <= 'F')
}

fn char_allowed(i: usize, c: char) -> (b: bool)
    requires
        i < 36,
    ensures
        b == v4_char_allowed(i as int, c),
{
    if i == 8 || i == 13 || i == 18 || i == 23 {
        c == '-'
    } else if i == 14 {
        c == '4'
    } else if i == 19 {
        c == '8' || c == '9' || c == 'a' || c == 'b' || c == 'A' || c == 'B'
    } else {
        is_hex(c)
    }
}

/// Whether `text` has the shape of a random identifier.
pub fn has_uuid_v4_shape(text: &str) -> (b: bool)
    ensures
        b == is_uuid_v4_text(text@),
{
    if text.unicode_len() != 36 {
        return false;
    }
    let mut i: usize = 0;
    while i < 36
        invariant
            i <= 36,
            text@.len() == 36,
            forall|j: int| 0 <= j < i ==> v4_char_allowed(j, #[trigger] text@[j]),
        decreases 36 - i,
    {
        if !char_allowed(i, text.get_char(i)) {
            return false;
        }
        i += 1;
    }
    true
}

/// Decides what a parsed request parameter stands for, given the parser's word.
pub fn param_from_parsed(text: &str, parsed: Option<u128>) -> (id: Result<EntryId, UuidParseError>)
    ensures
        !is_uuid_v4_text(text@) ==> id == Err::<EntryId, UuidParseError>(UuidParseError::Regex),
        is_uuid_v4_text(text@) && parsed is None ==> id == Err::<EntryId, UuidParseError>(
            UuidParseError::Convert,
        ),
        is_uuid_v4_text(text@) && parsed is Some ==> id is Ok && id.unwrap()@ == parsed.unwrap(),
{
    if !has_uuid_v4_shape(text) {
        return Err(UuidParseError::Regex);
    }
    match parsed {
        Some(value) => Ok(EntryId { value }),
        None => Err(UuidParseError::Convert),
    }
}

/// Takes a request parameter as an identifier: it must have the shape of a
/// random identifier, and the parser must accept it.
pub fn parse_param(text: &str) -> (id: Result<EntryId, UuidParseError>)
    ensures
        !is_uuid_v4_text(text@) ==> id == Err::<EntryId, UuidParseError>(UuidParseError::Regex),
        is_uuid_v4_text(text@) && parsed_uuid(text@) is None ==> id == Err::<
            EntryId,
            UuidParseError,
        >(UuidParseError::Convert),
        is_uuid_v4_text(text@) && parsed_uuid(text@) is Some ==> id is Ok && id.unwrap()@
            == parsed_uuid(text@).unwrap(),
{
    param_from_parsed(text, uuid_parse(text))
}

} // verus!
