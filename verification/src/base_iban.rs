//! An IBAN that has passed format normalization and the MOD 97-10 checksum,
//! though not necessarily the country-specific BBAN check.

use vstd::prelude::*;

use vstd::arithmetic::div_mod::{lemma_fundamental_div_mod, lemma_fundamental_div_mod_converse};

use crate::checksum::{all_checksum_chars, compute_checksum, spec_checksum};
use crate::chars::{spec_is_digit, spec_is_lower, spec_is_upper, spec_to_upper};
use crate::format::{
    chars_of, display_of, fold_case, is_canonical_text, lemma_canonical_is_ascii,
    spec_normalize, strip_paper, strip_spaces, valid_electronic, validate_electronic,
    MAX_IBAN_LEN, MIN_IBAN_LEN,
};
use crate::text::string_from_chars;
use crate::IbanLike;
use vstd::string::StrSliceExecFns;

verus! {

/// The longest input the paper format can denote: a 34-character IBAN in
/// groups of four takes eight separators.
pub const MAX_PAPER_LEN: usize = 42;

/// The check digits are one of the two values the standard reserves as
/// always invalid.
pub open spec fn reserved_check_digits(s: Seq<char>) -> bool {
    s[2] == '0' && (s[3] == '0' || s[3] == '1')
}

/// `s` is a canonical string that a `BaseIban` may hold: canonical text,
/// unreserved check digits, and a MOD 97-10 remainder of one.
pub open spec fn spec_basic_valid(s: Seq<char>) -> bool {
    &&& is_canonical_text(s)
    &&& !reserved_check_digits(s)
    &&& spec_checksum(s) == 1
}

/// The value of the two check digits, read as a number.
pub open spec fn spec_check_digits(s: Seq<char>) -> int {
    (s[2] as int - 48) * 10 + (s[3] as int - 48)
}

/// Indicates that a string follows neither the electronic nor the paper
/// format of ISO 13616, or fails its checksum.
#[derive(Clone, Copy, Debug, PartialEq, Eq, Structural, Hash)]
pub enum ParseBaseIbanError {
    /// The string does not have the shape of an IBAN: wrong length, a
    /// character out of place, misaligned spacing, or reserved check digits.
    InvalidFormat,
    /// The string is well-formed but its MOD 97-10 remainder is not one.
    InvalidChecksum,
}

/// What parsing an input string yields: the canonical string, or the error
/// that each stage of the pipeline reports.
pub open spec fn spec_parse_basic(input: Seq<char>) -> Result<Seq<char>, ParseBaseIbanError> {
    match spec_normalize(input) {
        Option::None => Result::Err(ParseBaseIbanError::InvalidFormat),
        Option::Some(c) => if reserved_check_digits(c) {
            Result::Err(ParseBaseIbanError::InvalidFormat)
        } else if spec_checksum(c) != 1 {
            Result::Err(ParseBaseIbanError::InvalidChecksum)
        } else {
            Result::Ok(c)
        },
    }
}

/// Case folding a well-formed electronic string yields canonical text of the
/// same length, with the first four characters unchanged.
pub proof fn lemma_fold_case_canonical(s: Seq<char>)
    requires
        valid_electronic(s),
    ensures
        is_canonical_text(fold_case(s)),
        all_checksum_chars(fold_case(s)),
        fold_case(s).len() == s.len(),
        fold_case(s)[2] == s[2],
        fold_case(s)[3] == s[3],
{
    assert forall|i: int| 0 <= i < s.len() implies !spec_is_lower(#[trigger] fold_case(s)[i])
        && (spec_is_upper(fold_case(s)[i]) || spec_is_digit(fold_case(s)[i])) by {
        let c = s[i];
        if spec_is_lower(c) {
            assert(97 <= c as int <= 122);
            assert(spec_to_upper(c) as int == c as int - 32);
        }
    }
}

/// Checksum invariant: whatever string parses successfully has a MOD 97-10
/// remainder of exactly one, and its check digits are not a reserved value.
pub proof fn lemma_checksum_invariant(input: Seq<char>, c: Seq<char>)
    requires
        spec_parse_basic(input) == Result::<Seq<char>, ParseBaseIbanError>::Ok(c),
    ensures
        spec_checksum(c) == 1,
        !reserved_check_digits(c),
{
}

/// The reserved check-digit values `00` and `01` are rejected as a format
/// error, regardless of what the checksum of the string comes to.
pub proof fn lemma_reserved_check_digits_rejected(input: Seq<char>)
    requires
        spec_normalize(input) is Some,
        reserved_check_digits(spec_normalize(input)->Some_0),
    ensures
        spec_parse_basic(input) == Result::<Seq<char>, ParseBaseIbanError>::Err(
            ParseBaseIbanError::InvalidFormat,
        ),
{
}

/// Inputs longer than the longest paper rendering denote nothing.
proof fn lemma_too_long(s: Seq<char>)
    requires
        s.len() > MAX_PAPER_LEN,
    ensures
        spec_normalize(s) is None,
{
    let l = s.len() as int;
    lemma_fundamental_div_mod(l, 5);
    assert(strip_spaces(s).len() > MAX_IBAN_LEN);
}

/// Inputs shorter than the shortest IBAN denote nothing.
proof fn lemma_too_short(s: Seq<char>)
    requires
        s.len() < MIN_IBAN_LEN,
    ensures
        spec_normalize(s) is None,
{
    let l = s.len() as int;
    lemma_fundamental_div_mod_converse(l, 5, 0, l);
    assert(strip_spaces(s).len() < MIN_IBAN_LEN);
}

/// Represents an IBAN that passed the basic checks: it is in the electronic
/// or the paper format, its check digits are not a reserved value, and its
/// MOD 97-10 checksum holds. The country-specific BBAN shape is not checked;
/// for that, use [`crate::Iban`].
#[derive(Debug, Hash)]
pub struct BaseIban {
    /// The canonical string: uppercase letters and digits, no whitespace.
    s: String,
}

impl Clone for BaseIban {
    fn clone(&self) -> (r: Self)
        ensures
            r@ == self@,
    {
        proof {
            use_type_invariant(self);
        }
        BaseIban { s: self.s.clone() }
    }
}

impl View for BaseIban {
    type V = Seq<char>;

    closed spec fn view(&self) -> Seq<char> {
        self.s@
    }
}

impl PartialEq for BaseIban {
    fn eq(&self, other: &Self) -> (r: bool) {
        self.s == other.s
    }
}

impl Eq for BaseIban {

}

impl vstd::std_specs::cmp::PartialEqSpecImpl for BaseIban {
    open spec fn obeys_eq_spec() -> bool {
        true
    }

    open spec fn eq_spec(&self, other: &Self) -> bool {
        self@ == other@
    }
}

impl BaseIban {
    /// Every value of this type holds a canonical string with unreserved
    /// check digits whose MOD 97-10 remainder is one.
    #[verifier::type_invariant]
    pub open spec fn wf(self) -> bool {
        spec_basic_valid(self@)
    }

    /// Parse an IBAN from the electronic or the paper format, checking its
    /// shape, its reserved check-digit values, and its checksum, but not the
    /// country-specific BBAN format.
    pub fn parse_basic(s: &str) -> (r: Result<BaseIban, ParseBaseIbanError>)
        ensures
            match r {
                Result::Ok(b) => spec_parse_basic(s@) == Result::<_, ParseBaseIbanError>::Ok(b@),
                Result::Err(e) => spec_parse_basic(s@) == Result::<Seq<char>, _>::Err(e),
            },
    {
        let n = s.unicode_len();
        if n < MIN_IBAN_LEN {
            proof {
                lemma_too_short(s@);
            }
            return Result::Err(ParseBaseIbanError::InvalidFormat);
        }
        if n > MAX_PAPER_LEN {
            proof {
                lemma_too_long(s@);
            }
            return Result::Err(ParseBaseIbanError::InvalidFormat);
        }
        let v = chars_of(s);
        let canonical = match validate_electronic(&v) {
            Option::Some(c) => c,
            Option::None => match strip_paper(&v) {
                Option::Some(stripped) => match validate_electronic(&stripped) {
                    Option::Some(c) => c,
                    Option::None => {
                        return Result::Err(ParseBaseIbanError::InvalidFormat);
                    },
                },
                Option::None => {
                    return Result::Err(ParseBaseIbanError::InvalidFormat);
                },
            },
        };
        proof {
            match spec_normalize(s@) {
                Option::Some(c) => {
                    assert(c == canonical@);
                },
                Option::None => {
                    assert(false);
                },
            }
            if valid_electronic(s@) {
                lemma_fold_case_canonical(s@);
            } else {
                lemma_fold_case_canonical(strip_spaces(s@));
            }
        }
        if canonical[2] == '0' && (canonical[3] == '0' || canonical[3] == '1') {
            return Result::Err(ParseBaseIbanError::InvalidFormat);
        }
        let text = string_from_chars(&canonical);
        if compute_checksum(text.as_str()) != 1 {
            return Result::Err(ParseBaseIbanError::InvalidChecksum);
        }
        Result::Ok(BaseIban { s: text })
    }

    /// The canonical string, in the electronic format, as an owned value.
    pub fn to_canonical_string(&self) -> (r: String)
        ensures
            r@ == self@,
    {
        self.s.clone()
    }

    /// The paper rendering of the IBAN: groups of four characters separated
    /// by single spaces.
    pub fn to_display_string(&self) -> (r: String)
        ensures
            r@ == display_of(self@),
    {
        proof {
            use_type_invariant(self);
        }
        let spaced = crate::format::render_display(self.s.as_str());
        string_from_chars(&spaced)
    }
}

impl IbanLike for BaseIban {
    open spec fn canonical(&self) -> Seq<char> {
        self@
    }

    fn electronic_str(&self) -> (r: &str) {
        self.s.as_str()
    }

    fn country_code(&self) -> (r: &str) {
        proof {
            use_type_invariant(self);
            lemma_canonical_is_ascii(self@);
        }
        self.s.as_str().substring_ascii(0, 2)
    }

    fn check_digits_str(&self) -> (r: &str) {
        proof {
            use_type_invariant(self);
            lemma_canonical_is_ascii(self@);
        }
        self.s.as_str().substring_ascii(2, 4)
    }

    fn check_digits(&self) -> (r: u8) {
        proof {
            use_type_invariant(self);
        }
        let d2 = self.s.as_str().get_char(2);
        let d3 = self.s.as_str().get_char(3);
        (((d2 as u32) - 48) * 10 + ((d3 as u32) - 48)) as u8
    }

    fn bban_unchecked(&self) -> (r: &str) {
        proof {
            use_type_invariant(self);
            lemma_canonical_is_ascii(self@);
        }
        let s = self.s.as_str();
        let r = s.substring_ascii(4, s.unicode_len());
        proof {
            assert(self@.subrange(4, self@.len() as int) =~= self@.skip(4));
        }
        r
    }
}

impl core::str::FromStr for BaseIban {
    type Err = ParseBaseIbanError;

    fn from_str(address: &str) -> Result<Self, Self::Err> {
        BaseIban::parse_basic(address)
    }
}

} // verus!
