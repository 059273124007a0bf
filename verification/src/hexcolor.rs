//! Validation of the submitted color tag: a CSS-style hex color, `#`
//! followed by six hexadecimal digits, or nothing at all. The transport
//! layer hands the raw field here either as text or as bytes.

use crate::text::push_char;
use vstd::prelude::*;

verus! {

/// A validated color tag.
#[derive(Clone, Debug, PartialEq, Eq)]
pub struct HexColor(pub String);

/// Why a color field was rejected.
#[derive(Clone, Copy, Debug, PartialEq, Eq)]
pub enum ColorError {
    /// The field was neither empty nor exactly seven characters long.
    WrongLength,
    /// The field did not start with `#`.
    MissingHash,
    /// A character after the `#` was not a hexadecimal digit.
    BadDigit,
}

impl ColorError {
    /// The user-facing message for this rejection.
    pub fn message(&self) -> (r: String)
        ensures
            self is WrongLength ==> r@ == "must contain exactly 7 characters"@,
            self is MissingHash ==> r@ == "must start with '#'"@,
            self is BadDigit ==> r@ == "all 6 digits must be valid hex"@,
    {
        match self {
            ColorError::WrongLength => "must contain exactly 7 characters".to_owned(),
            ColorError::MissingHash => "must start with '#'".to_owned(),
            ColorError::BadDigit => "all 6 digits must be valid hex".to_owned(),
        }
    }
}

/// ASCII hexadecimal digits.
pub open spec fn hexdigit(c: char) -> bool {
    ('0' <= c && c <= '9') || ('a' <= c && c <= 'f') || ('A' <= c && c <= 'F')
}

/// A well-formed non-empty color value: `#` and six hex digits.
pub open spec fn color_ok(s: Seq<char>) -> bool {
    s.len() == 7 && s[0] == '#' && (forall|i: int| 1 <= i < 7 ==> hexdigit(#[trigger] s[i]))
}

/// An exec check for one hex-digit character.
pub(crate) fn is_hexdigit_char(c: char) -> (r: bool)
    ensures
        r == hexdigit(c),
{
    ('0' <= c && c <= '9') || ('a' <= c && c <= 'f') || ('A' <= c && c <= 'F')
}

impl HexColor {
    /// Validates a color submitted as a text field. An empty field is
    /// accepted as an empty tag; a well-formed value is accepted and kept.
    /// Every other input is rejected with the matching error, checked in
    /// order: length first, then the leading `#`, then the digits.
    pub fn from_value(field: &str) -> (r: Result<HexColor, ColorError>)
        ensures
            r is Ok <==> (field@.len() == 0 || color_ok(field@)),
            field@.len() == 0 ==> (r matches Ok(c) && c.0@ == Seq::<char>::empty()),
            color_ok(field@) ==> (r matches Ok(c) && c.0@ == field@),
            !(field@.len() == 0 || field@.len() == 7) ==> (r matches Err(e)
                && e is WrongLength),
            field@.len() == 7 && field@[0] != '#' ==> (r matches Err(e) && e is MissingHash),
            field@.len() == 7 && field@[0] == '#' && !color_ok(field@) ==> (r matches Err(e)
                && e is BadDigit),
    {
        let n = field.unicode_len();
        if n == 0 {
            return Ok(HexColor(String::new()));
        }
        if n != 7 {
            return Err(ColorError::WrongLength);
        }
        if field.get_char(0) != '#' {
            return Err(ColorError::MissingHash);
        }
        let mut i: usize = 1;
        while i < 7
            invariant
                1 <= i <= 7,
                field@.len() == 7,
                field@[0] == '#',
                forall|j: int| 1 <= j < i ==> hexdigit(#[trigger] field@[j]),
            decreases 7 - i,
        {
            if !is_hexdigit_char(field.get_char(i)) {
                return Err(ColorError::BadDigit);
            }
            i = i + 1;
        }
        Ok(HexColor(field.to_owned()))
    }

    /// The bytes of a well-formed non-empty color value.
    pub open spec fn color_ok_bytes(bs: Seq<u8>) -> bool {
        bs.len() == 7 && bs[0] == 35 && (forall|i: int|
            1 <= i < 7 ==> hexdigit(#[trigger] bs[i] as char))
    }

    /// Validates a color submitted as a raw byte field, as the transport
    /// hands it over after reading the stream. An empty field is accepted
    /// as an empty tag; a well-formed value is accepted and kept, decoded
    /// from its (all-ASCII) bytes. Everything else is rejected with the
    /// matching error, in the same order as `from_value`.
    pub fn from_data(bytes: &Vec<u8>) -> (r: Result<HexColor, ColorError>)
        ensures
            r is Ok <==> (bytes@.len() == 0 || Self::color_ok_bytes(bytes@)),
            bytes@.len() == 0 ==> (r matches Ok(c) && c.0@ == Seq::<char>::empty()),
            Self::color_ok_bytes(bytes@) ==> (r matches Ok(c) && c.0@ == bytes@.map_values(
                |b: u8| b as char,
            )),
            !(bytes@.len() == 0 || bytes@.len() == 7) ==> (r matches Err(e)
                && e is WrongLength),
            bytes@.len() == 7 && bytes@[0] != 35 ==> (r matches Err(e) && e is MissingHash),
            bytes@.len() == 7 && bytes@[0] == 35 && !Self::color_ok_bytes(bytes@) ==> (r
                matches Err(e) && e is BadDigit),
    {
        let n = bytes.len();
        if n == 0 {
            return Ok(HexColor(String::new()));
        }
        if n != 7 {
            return Err(ColorError::WrongLength);
        }
        if bytes[0] != 35 {
            return Err(ColorError::MissingHash);
        }
        let mut i: usize = 1;
        while i < 7
            invariant
                1 <= i <= 7,
                bytes@.len() == 7,
                bytes@[0] == 35,
                forall|j: int| 1 <= j < i ==> hexdigit(#[trigger] bytes@[j] as char),
            decreases 7 - i,
        {
            if !is_hexdigit_char(bytes[i] as char) {
                return Err(ColorError::BadDigit);
            }
            i = i + 1;
        }
        let mut s = String::new();
        let mut k: usize = 0;
        while k < 7
            invariant
                k <= 7,
                bytes@.len() == 7,
                s@ =~= bytes@.take(k as int).map_values(|b: u8| b as char),
            decreases 7 - k,
        {
            push_char(&mut s, bytes[k] as char);
            proof {
                assert(bytes@.take(k as int + 1) =~= bytes@.take(k as int).push(
                    bytes@[k as int],
                ));
            }
            k = k + 1;
        }
        proof {
            assert(bytes@.take(7) =~= bytes@);
        }
        Ok(HexColor(s))
    }
}

impl Default for HexColor {
    /// The tag a form gets when the field is absent: empty.
    fn default() -> (r: Self)
        ensures
            r.0@ == Seq::<char>::empty(),
    {
        HexColor(String::new())
    }
}

} // verus!
