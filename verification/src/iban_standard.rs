//! Validation of a whole address against the general IBAN shape and its
//! checksum, without country-specific rules: a strict yes/no check and a
//! variant that reports where validation failed.

use vstd::prelude::*;

use crate::base_iban::reserved_check_digits;
use crate::checksum::{all_checksum_chars, compute_checksum, spec_checksum};
use crate::chars::{is_digit, is_upper, spec_is_digit, spec_is_upper};
use vstd::string::StrSliceExecFns;

verus! {

/// `s` is strict electronic text: length 5 to 34, two uppercase letters,
/// two digits, then uppercase letters or digits. Unlike the parsing
/// pipeline, no lowercase is accepted anywhere.
pub open spec fn spec_strict_electronic(s: Seq<char>) -> bool {
    &&& 5 <= s.len() <= 34
    &&& spec_is_upper(s[0])
    &&& spec_is_upper(s[1])
    &&& spec_is_digit(s[2])
    &&& spec_is_digit(s[3])
    &&& forall|i: int| 4 <= i < s.len() ==> spec_is_upper(#[trigger] s[i]) || spec_is_digit(s[i])
}

/// The character at position `k` agrees with the strict shape: digits
/// anywhere but in the country code, uppercase letters anywhere but in the
/// check digits, nothing else at all.
pub open spec fn spec_char_ok(s: Seq<char>, k: int) -> bool {
    if spec_is_digit(s[k]) {
        k >= 2
    } else if spec_is_upper(s[k]) {
        k < 2 || k >= 4
    } else {
        false
    }
}

/// Validate an address against the strict electronic shape, the reserved
/// check-digit values, and the MOD 97-10 checksum. The country-specific
/// BBAN format is not checked; for that, see
/// [`crate::validate_iban_country`].
pub fn validate_iban(address: &str) -> (r: bool)
    ensures
        r == (spec_strict_electronic(address@) && !reserved_check_digits(address@)
            && spec_checksum(address@) == 1),
{
    let n = address.unicode_len();
    if n < 5 || n > 34 {
        return false;
    }
    let mut i: usize = 0;
    while i < n
        invariant
            0 <= i <= n,
            n == address@.len(),
            5 <= n <= 34,
            forall|k: int| 0 <= k < i ==> spec_char_ok(address@, k),
        decreases n - i,
    {
        let c = address.get_char(i);
        let ok = if i < 2 {
            is_upper(c)
        } else if i < 4 {
            is_digit(c)
        } else {
            is_upper(c) || is_digit(c)
        };
        if !ok {
            proof {
                assert(!spec_char_ok(address@, i as int));
            }
            return false;
        }
        i = i + 1;
    }
    proof {
        assert forall|k: int| 0 <= k < address@.len() implies spec_is_upper(#[trigger] address@[k])
            || spec_is_digit(address@[k]) by {
            assert(spec_char_ok(address@, k));
        }
        assert(spec_strict_electronic(address@)) by {
            assert(spec_char_ok(address@, 0));
            assert(spec_char_ok(address@, 1));
            assert(spec_char_ok(address@, 2));
            assert(spec_char_ok(address@, 3));
        }
        assert(all_checksum_chars(address@));
    }
    let d2 = address.get_char(2);
    let d3 = address.get_char(3);
    if d2 == '0' && (d3 == '0' || d3 == '1') {
        return false;
    }
    compute_checksum(address) == 1
}

/// What validating an address reports: the first reason it fails, or that
/// it passes length, character and checksum checks.
#[derive(Clone, Copy, Debug, PartialEq, Eq, Structural, Hash)]
pub enum IbanValidationResult {
    /// The length, in characters, is below 5 or above 34.
    InvalidLength {
        /// The offending length.
        l: usize,
    },
    /// A character is out of place: a digit in the country code, a letter
    /// among the check digits, or anything outside `0`–`9` and `A`–`Z`.
    InvalidCharacter {
        /// The position of the first such character.
        i: usize,
        /// The character itself.
        c: char,
    },
    /// The shape is right but the MOD 97-10 remainder is not one, or the
    /// check digits are a reserved value.
    InvalidChecksum {
        /// The remainder that was computed.
        s: u8,
    },
    /// The address passes all three checks.
    Valid,
}

/// Validate an address and report the first failure: the length check, then
/// the per-character check in position order, then the reserved check-digit
/// values and the checksum.
pub fn validate_address(address: &str) -> (r: IbanValidationResult)
    ensures
        match r {
            IbanValidationResult::InvalidLength { l } => l == address@.len() && (l < 5 || l > 34),
            IbanValidationResult::InvalidCharacter { i, c } => 5 <= address@.len() <= 34 && 0 <= i
                < address@.len() && c == address@[i as int] && !spec_char_ok(address@, i as int)
                && forall|k: int| 0 <= k < i ==> spec_char_ok(address@, k),
            IbanValidationResult::InvalidChecksum { s } => 5 <= address@.len() <= 34 && (forall|
                k: int,
            |
                0 <= k < address@.len() ==> spec_char_ok(address@, k)) && s == spec_checksum(
                address@,
            ) && (s != 1 || reserved_check_digits(address@)),
            IbanValidationResult::Valid => 5 <= address@.len() <= 34 && (forall|k: int|
                0 <= k < address@.len() ==> spec_char_ok(address@, k)) && spec_checksum(address@)
                == 1 && !reserved_check_digits(address@),
        },
{
    let n = address.unicode_len();
    if n < 5 || n > 34 {
        return IbanValidationResult::InvalidLength { l: n };
    }
    let mut i: usize = 0;
    while i < n
        invariant
            0 <= i <= n,
            n == address@.len(),
            5 <= n <= 34,
            forall|k: int| 0 <= k < i ==> spec_char_ok(address@, k),
        decreases n - i,
    {
        let c = address.get_char(i);
        let ok = if is_digit(c) {
            i >= 2
        } else if is_upper(c) {
            i < 2 || i >= 4
        } else {
            false
        };
        if !ok {
            return IbanValidationResult::InvalidCharacter { i, c };
        }
        i = i + 1;
    }
    proof {
        assert forall|k: int| 0 <= k < address@.len() implies spec_is_upper(#[trigger] address@[k])
            || spec_is_digit(address@[k]) by {
            assert(spec_char_ok(address@, k));
        }
        assert(all_checksum_chars(address@));
    }
    let cs = compute_checksum(address);
    let d2 = address.get_char(2);
    let d3 = address.get_char(3);
    if cs != 1 || (d2 == '0' && (d3 == '0' || d3 == '1')) {
        IbanValidationResult::InvalidChecksum { s: cs as u8 }
    } else {
        IbanValidationResult::Valid
    }
}

} // verus!
