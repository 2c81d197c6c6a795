//! Classification of the characters an IBAN may contain.

use vstd::prelude::*;

verus! {

/// The kinds of character a BBAN grammar segment may require.
#[derive(Clone, Copy, Debug, PartialEq, Eq, Structural)]
pub enum CharacterClass {
    /// An ASCII uppercase letter, `A`–`Z`.
    Alpha,
    /// An ASCII digit, `0`–`9`.
    Digit,
    /// Either an ASCII uppercase letter or an ASCII digit.
    AlphaOrDigit,
}

/// `c` is an ASCII digit.
pub open spec fn spec_is_digit(c: char) -> bool {
    '0' <= c && c <= '9'
}

/// `c` is an ASCII uppercase letter.
pub open spec fn spec_is_upper(c: char) -> bool {
    'A' <= c && c <= 'Z'
}

/// `c` is an ASCII lowercase letter.
pub open spec fn spec_is_lower(c: char) -> bool {
    'a' <= c && c <= 'z'
}

/// The uppercase form of `c`: lowercase ASCII letters are folded, all else kept.
pub open spec fn spec_to_upper(c: char) -> char {
    if spec_is_lower(c) {
        ((c as u8) - 0x20) as char
    } else {
        c
    }
}

/// Whether `c` belongs to the class `cls`.
pub open spec fn spec_class_matches(cls: CharacterClass, c: char) -> bool {
    match cls {
        CharacterClass::Alpha => spec_is_upper(c),
        CharacterClass::Digit => spec_is_digit(c),
        CharacterClass::AlphaOrDigit => spec_is_upper(c) || spec_is_digit(c),
    }
}

pub fn is_digit(c: char) -> (r: bool)
    ensures
        r == spec_is_digit(c),
{
    '0' <= c && c <= '9'
}

pub fn is_upper(c: char) -> (r: bool)
    ensures
        r == spec_is_upper(c),
{
    'A' <= c && c <= 'Z'
}

pub fn is_lower(c: char) -> (r: bool)
    ensures
        r == spec_is_lower(c),
{
    'a' <= c && c <= 'z'
}

pub fn to_upper(c: char) -> (r: char)
    ensures
        r == spec_to_upper(c),
{
    if is_lower(c) {
        ((c as u8) - 0x20) as char
    } else {
        c
    }
}

impl CharacterClass {
    /// Whether `c` belongs to this class.
    pub fn matches(self, c: char) -> (r: bool)
        ensures
            r == spec_class_matches(self, c),
    {
        match self {
            CharacterClass::Alpha => is_upper(c),
            CharacterClass::Digit => is_digit(c),
            CharacterClass::AlphaOrDigit => is_upper(c) || is_digit(c),
        }
    }
}

} // verus!
