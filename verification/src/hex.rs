//! A validated CSS-style hex color holder: the held value is exactly `#`
//! followed by six hexadecimal digits.

use crate::hexcolor::{color_ok, is_hexdigit_char};
use vstd::prelude::*;

verus! {

/// A stored color value that passed the check.
#[derive(Clone, Debug, PartialEq, Eq)]
pub struct Hex {
    pub inner: String,
}

/// Why a value was rejected.
#[derive(Clone, Debug)]
pub enum HexError {
    /// The offending value, kept for the message.
    Validation(String),
}

impl HexError {
    /// The user-facing message: the value followed by an explanation.
    pub fn message(&self) -> (r: String)
        ensures
            self matches HexError::Validation(v) ==> r@ == v@
                + " is an invalid CSS hex color code"@,
    {
        match self {
            HexError::Validation(v) => {
                let mut r = v.clone();
                r.append(" is an invalid CSS hex color code");
                r
            },
        }
    }
}

impl Hex {
    /// Accepts a value exactly when it is a well-formed color: seven
    /// characters, a leading `#`, six hex digits.
    pub fn validate(input: &str) -> (r: bool)
        ensures
            r == color_ok(input@),
    {
        let n = input.unicode_len();
        if n != 7 {
            return false;
        }
        if input.get_char(0) != '#' {
            return false;
        }
        let mut i: usize = 1;
        while i < 7
            invariant
                1 <= i <= 7,
                input@.len() == 7,
                input@[0] == '#',
                forall|j: int| 1 <= j < i ==> crate::hexcolor::hexdigit(#[trigger] input@[j]),
            decreases 7 - i,
        {
            if !is_hexdigit_char(input.get_char(i)) {
                return false;
            }
            i = i + 1;
        }
        true
    }

    /// Wraps a value that passes the check; rejects any other, keeping the
    /// offending value in the error.
    pub fn new(input: &str) -> (r: Result<Hex, HexError>)
        ensures
            color_ok(input@) ==> (r matches Ok(h) && h.inner@ == input@),
            !color_ok(input@) ==> (r matches Err(HexError::Validation(v)) && v@ == input@),
    {
        if Self::validate(input) {
            Ok(Hex { inner: input.to_owned() })
        } else {
            Err(HexError::Validation(input.to_owned()))
        }
    }

    /// Replaces the held value when the new one passes the check; keeps the
    /// old one and reports the rejected value otherwise.
    pub fn set(&mut self, input: &str) -> (r: Result<(), HexError>)
        ensures
            color_ok(input@) ==> r is Ok && final(self).inner@ == input@,
            !color_ok(input@) ==> (r matches Err(HexError::Validation(v)) && v@ == input@)
                && final(self).inner@ == old(self).inner@,
    {
        if Self::validate(input) {
            self.inner = input.to_owned();
            Ok(())
        } else {
            Err(HexError::Validation(input.to_owned()))
        }
    }

    /// The held value.
    pub fn get(&self) -> (r: &str)
        ensures
            r@ == self.inner@,
    {
        self.inner.as_str()
    }
}

} // verus!
