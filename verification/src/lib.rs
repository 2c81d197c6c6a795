//! Validation of International Bank Account Numbers per ISO 13616.
//!
//! Parsing proceeds in two stages. [`BaseIban::parse_basic`] normalizes a
//! string from the electronic or the paper format into canonical form and
//! checks the ISO 7064 MOD 97-10 checksum. [`validate_country`] then holds
//! the BBAN part against the country's registered grammar, yielding a fully
//! validated [`Iban`]. Errors of the second stage carry the [`BaseIban`], so
//! a caller can still use the country-agnostic accessors of [`IbanLike`].

use vstd::prelude::*;

pub mod base_iban;
pub mod chars;
pub mod checksum;
pub mod countries;
pub mod format;
pub mod iban_countries;
pub mod iban_standard;
mod text;

verus! {

pub use base_iban::{BaseIban, ParseBaseIbanError};
pub use chars::CharacterClass;
pub use iban_countries::{validate_iban_country, IbanCountryResult};
pub use iban_standard::{validate_address, validate_iban, IbanValidationResult};

use base_iban::{spec_basic_valid, spec_check_digits, spec_parse_basic};
use countries::{
    bban_matches, country_grammar, grammar_matches, lemma_total_nonneg, spec_country_grammar,
};
use format::{chars_of, display_of, lemma_normalize_canonical, lemma_normalize_display};
use vstd::string::StrSliceExecFns;

/// Shared accessors of [`Iban`] and [`BaseIban`]: views into the canonical
/// electronic-format string.
pub trait IbanLike: Sized {
    /// The canonical text of the address: uppercase letters and digits only.
    spec fn canonical(&self) -> Seq<char>;

    /// The address in the electronic format, without whitespace.
    fn electronic_str(&self) -> (r: &str)
        ensures
            r@ == self.canonical(),
    ;

    /// The two-letter country code: the first two characters.
    fn country_code(&self) -> (r: &str)
        ensures
            r@ == self.canonical().subrange(0, 2),
    ;

    /// The check digits, as text: the third and fourth character.
    fn check_digits_str(&self) -> (r: &str)
        ensures
            r@ == self.canonical().subrange(2, 4),
    ;

    /// The check digits, as a number.
    fn check_digits(&self) -> (r: u8)
        ensures
            r as int == spec_check_digits(self.canonical()),
    ;

    /// The BBAN part: everything after the first four characters. Whether it
    /// fits the country's format is only guaranteed by [`Iban`].
    fn bban_unchecked(&self) -> (r: &str)
        ensures
            r@ == self.canonical().skip(4),
    ;
}

/// The country code of `s` is present in the registry.
pub open spec fn spec_country_known(s: Seq<char>) -> bool {
    spec_country_grammar(s[0], s[1]) is Some
}

/// The country code of `s` is registered and the BBAN part fits the
/// country's grammar.
pub open spec fn spec_bban_ok(s: Seq<char>) -> bool {
    match spec_country_grammar(s[0], s[1]) {
        Option::Some(g) => grammar_matches(g, s.skip(4)),
        Option::None => false,
    }
}

/// `s` is the canonical text of a fully validated IBAN: basic validity plus
/// the country-specific BBAN check.
pub open spec fn spec_iban_valid(s: Seq<char>) -> bool {
    spec_basic_valid(s) && spec_bban_ok(s)
}

/// Represents a fully validated IBAN: it passed format normalization, the
/// MOD 97-10 checksum, and the country-specific BBAN grammar. Every `Iban`
/// is in particular a valid [`BaseIban`], never the reverse.
#[derive(Debug, Hash)]
pub struct Iban {
    /// The inner address, valid up to the BBAN check.
    base: BaseIban,
}

impl View for Iban {
    type V = Seq<char>;

    closed spec fn view(&self) -> Seq<char> {
        self.base@
    }
}

impl Iban {
    /// Every value of this type holds the canonical text of a fully
    /// validated IBAN.
    #[verifier::type_invariant]
    pub open spec fn wf(self) -> bool {
        spec_iban_valid(self@)
    }

    /// Parse and fully validate an IBAN, from the electronic or the paper
    /// format. The error preserves a [`BaseIban`] whenever the input passed
    /// the basic checks.
    pub fn parse(s: &str) -> (r: Result<Iban, ParseIbanError>)
        ensures
            match r {
                Result::Ok(ib) => spec_parse_basic(s@) == Result::<Seq<char>,
                    ParseBaseIbanError>::Ok(ib@) && spec_bban_ok(ib@),
                Result::Err(ParseIbanError::InvalidBaseIban { source }) => spec_parse_basic(s@)
                    == Result::<Seq<char>, ParseBaseIbanError>::Err(source),
                Result::Err(ParseIbanError::UnknownCountry(b)) => spec_parse_basic(s@)
                    == Result::<Seq<char>, ParseBaseIbanError>::Ok(b@) && !spec_country_known(b@),
                Result::Err(ParseIbanError::InvalidBban(b)) => spec_parse_basic(s@)
                    == Result::<Seq<char>, ParseBaseIbanError>::Ok(b@) && spec_country_known(b@)
                    && !spec_bban_ok(b@),
            },
    {
        match BaseIban::parse_basic(s) {
            Result::Ok(base) => validate_country(base),
            Result::Err(e) => Result::Err(ParseIbanError::InvalidBaseIban { source: e }),
        }
    }

    /// The BBAN part of the IBAN. In contrast to
    /// [`IbanLike::bban_unchecked`], the returned text is known to fit the
    /// country's registered format.
    pub fn bban(&self) -> (r: &str)
        ensures
            r@ == self@.skip(4),
    {
        self.bban_unchecked()
    }

    /// The canonical string, in the electronic format, as an owned value.
    pub fn to_canonical_string(&self) -> (r: String)
        ensures
            r@ == self@,
    {
        self.base.to_canonical_string()
    }

    /// The paper rendering of the IBAN: groups of four characters separated
    /// by single spaces.
    pub fn to_display_string(&self) -> (r: String)
        ensures
            r@ == display_of(self@),
    {
        self.base.to_display_string()
    }

    /// The bank identifier inside the BBAN, for the countries whose
    /// identifier position the registry data here carries; `None` otherwise.
    pub fn bank_identifier(&self) -> (r: Option<&str>)
        ensures
            match r {
                Option::Some(sub) => match spec_bank_range(self@[0], self@[1]) {
                    Option::Some(rg) => sub@ == self@.skip(4).subrange(rg.0, rg.1),
                    Option::None => false,
                },
                Option::None => spec_bank_range(self@[0], self@[1]) is None,
            },
    {
        proof {
            use_type_invariant(self);
        }
        self.identifier_slice(true)
    }

    /// The branch identifier inside the BBAN, for the countries whose
    /// identifier position the registry data here carries; `None` otherwise.
    pub fn branch_identifier(&self) -> (r: Option<&str>)
        ensures
            match r {
                Option::Some(sub) => match spec_branch_range(self@[0], self@[1]) {
                    Option::Some(rg) => sub@ == self@.skip(4).subrange(rg.0, rg.1),
                    Option::None => false,
                },
                Option::None => spec_branch_range(self@[0], self@[1]) is None,
            },
    {
        proof {
            use_type_invariant(self);
        }
        self.identifier_slice(false)
    }

    /// Slice the identifier range out of the BBAN; `bank` picks which of the
    /// two tables governs.
    fn identifier_slice(&self, bank: bool) -> (r: Option<&str>)
        requires
            spec_iban_valid(self@),
        ensures
            ({
                let table = if bank {
                    spec_bank_range(self@[0], self@[1])
                } else {
                    spec_branch_range(self@[0], self@[1])
                };
                match r {
                    Option::Some(sub) => match table {
                        Option::Some(rg) => sub@ == self@.skip(4).subrange(rg.0, rg.1),
                        Option::None => false,
                    },
                    Option::None => table is None,
                }
            }),
    {
        let es = self.base.electronic_str();
        let c0 = es.get_char(0);
        let c1 = es.get_char(1);
        let range: Option<(usize, usize)> = match (c0, c1) {
            ('A', 'D') => if bank {
                Option::Some((0, 4))
            } else {
                Option::Some((4, 8))
            },
            ('A', 'E') => if bank {
                Option::Some((0, 3))
            } else {
                Option::None
            },
            ('A', 'L') => if bank {
                Option::Some((0, 3))
            } else {
                Option::Some((3, 7))
            },
            _ => Option::None,
        };
        match range {
            Option::None => Option::None,
            Option::Some((from, to)) => {
                proof {
                    format::lemma_canonical_is_ascii(self@);
                    let g = spec_country_grammar(self@[0], self@[1])->Some_0;
                    lemma_total_nonneg(g.drop_first());
                    assert(self@.skip(4).len() == countries::grammar_total_len(g));
                    assert(countries::grammar_total_len(g) >= g[0].count);
                    assert(self@.skip(4).subrange(from as int, to as int) =~= self@.subrange(
                        4 + from,
                        4 + to,
                    ));
                }
                Option::Some(es.substring_ascii(4 + from, 4 + to))
            },
        }
    }
}

/// The position of the bank identifier inside the BBAN, for the countries
/// whose identifier data is carried here.
pub open spec fn spec_bank_range(c0: char, c1: char) -> Option<(int, int)> {
    match (c0, c1) {
        ('A', 'D') => Option::Some((0int, 4int)),
        ('A', 'E') => Option::Some((0int, 3int)),
        ('A', 'L') => Option::Some((0int, 3int)),
        _ => Option::None,
    }
}

/// The position of the branch identifier inside the BBAN, for the countries
/// whose identifier data is carried here.
pub open spec fn spec_branch_range(c0: char, c1: char) -> Option<(int, int)> {
    match (c0, c1) {
        ('A', 'D') => Option::Some((4int, 8int)),
        ('A', 'L') => Option::Some((3int, 7int)),
        _ => Option::None,
    }
}

impl Clone for Iban {
    fn clone(&self) -> (r: Self)
        ensures
            r@ == self@,
    {
        proof {
            use_type_invariant(self);
        }
        Iban { base: self.base.clone() }
    }
}

impl PartialEq for Iban {
    fn eq(&self, other: &Self) -> (r: bool) {
        self.base == other.base
    }
}

impl Eq for Iban {

}

impl vstd::std_specs::cmp::PartialEqSpecImpl for Iban {
    open spec fn obeys_eq_spec() -> bool {
        true
    }

    open spec fn eq_spec(&self, other: &Self) -> bool {
        self@ == other@
    }
}

impl IbanLike for Iban {
    open spec fn canonical(&self) -> Seq<char> {
        self@
    }

    fn electronic_str(&self) -> (r: &str) {
        self.base.electronic_str()
    }

    fn country_code(&self) -> (r: &str) {
        self.base.country_code()
    }

    fn check_digits_str(&self) -> (r: &str) {
        self.base.check_digits_str()
    }

    fn check_digits(&self) -> (r: u8) {
        self.base.check_digits()
    }

    fn bban_unchecked(&self) -> (r: &str) {
        self.base.bban_unchecked()
    }
}

impl From<Iban> for BaseIban {
    fn from(value: Iban) -> (r: BaseIban) {
        value.base
    }
}

impl vstd::std_specs::convert::FromSpecImpl<Iban> for BaseIban {
    open spec fn obeys_from_spec() -> bool {
        true
    }

    closed spec fn from_spec(v: Iban) -> BaseIban {
        v.base
    }
}

impl core::str::FromStr for Iban {
    type Err = ParseIbanError;

    fn from_str(address: &str) -> Result<Self, Self::Err> {
        Iban::parse(address)
    }
}

/// An error indicating that an IBAN could not be fully validated.
#[derive(Debug)]
pub enum ParseIbanError {
    /// The string already failed the basic format or checksum rules.
    InvalidBaseIban {
        /// What the basic parsing stage reported.
        source: ParseBaseIbanError,
    },
    /// The country is registered but the BBAN does not fit its format. The
    /// carried [`BaseIban`] still offers the country-agnostic accessors.
    InvalidBban(BaseIban),
    /// The country code is not present in the registry. The carried
    /// [`BaseIban`] still offers the country-agnostic accessors.
    UnknownCountry(BaseIban),
}

impl PartialEq for ParseIbanError {
    fn eq(&self, other: &Self) -> (r: bool) {
        match (self, other) {
            (
                ParseIbanError::InvalidBaseIban { source: a },
                ParseIbanError::InvalidBaseIban { source: b },
            ) => *a == *b,
            (ParseIbanError::InvalidBban(a), ParseIbanError::InvalidBban(b)) => *a == *b,
            (ParseIbanError::UnknownCountry(a), ParseIbanError::UnknownCountry(b)) => *a == *b,
            _ => false,
        }
    }
}

impl Eq for ParseIbanError {

}

impl vstd::std_specs::cmp::PartialEqSpecImpl for ParseIbanError {
    open spec fn obeys_eq_spec() -> bool {
        true
    }

    open spec fn eq_spec(&self, other: &Self) -> bool {
        match (self, other) {
            (
                ParseIbanError::InvalidBaseIban { source: a },
                ParseIbanError::InvalidBaseIban { source: b },
            ) => a == b,
            (ParseIbanError::InvalidBban(a), ParseIbanError::InvalidBban(b)) => a@ == b@,
            (ParseIbanError::UnknownCountry(a), ParseIbanError::UnknownCountry(b)) => a@ == b@,
            _ => false,
        }
    }
}

impl From<ParseBaseIbanError> for ParseIbanError {
    fn from(source: ParseBaseIbanError) -> (r: ParseIbanError) {
        ParseIbanError::InvalidBaseIban { source }
    }
}

impl vstd::std_specs::convert::FromSpecImpl<ParseBaseIbanError> for ParseIbanError {
    open spec fn obeys_from_spec() -> bool {
        true
    }

    open spec fn from_spec(source: ParseBaseIbanError) -> ParseIbanError {
        ParseIbanError::InvalidBaseIban { source }
    }
}

/// Hold the BBAN of a basically valid address against its country's
/// registered grammar. On failure the address is handed back inside the
/// error, so the country-agnostic accessors remain available.
pub fn validate_country(base: BaseIban) -> (r: Result<Iban, ParseIbanError>)
    ensures
        match r {
            Result::Ok(ib) => ib@ == base@ && spec_bban_ok(base@),
            Result::Err(ParseIbanError::UnknownCountry(b)) => b@ == base@ && !spec_country_known(
                base@,
            ),
            Result::Err(ParseIbanError::InvalidBban(b)) => b@ == base@ && spec_country_known(base@)
                && !spec_bban_ok(base@),
            Result::Err(ParseIbanError::InvalidBaseIban { .. }) => false,
        },
{
    proof {
        use_type_invariant(&base);
    }
    let es = base.electronic_str();
    let c0 = es.get_char(0);
    let c1 = es.get_char(1);
    match country_grammar(c0, c1) {
        Option::None => Result::Err(ParseIbanError::UnknownCountry(base)),
        Option::Some(g) => {
            let bb = chars_of(base.bban_unchecked());
            if bban_matches(&g, &bb) {
                Result::Ok(Iban { base })
            } else {
                Result::Err(ParseIbanError::InvalidBban(base))
            }
        },
    }
}

/// Round trip through the electronic format: parsing the canonical text of
/// a valid address yields exactly that address again, through both stages.
pub proof fn lemma_roundtrip_canonical(s: Seq<char>)
    requires
        spec_iban_valid(s),
    ensures
        spec_parse_basic(s) == Result::<Seq<char>, ParseBaseIbanError>::Ok(s),
        spec_bban_ok(s),
{
    lemma_normalize_canonical(s);
}

/// Round trip through the paper format: parsing the display rendering of a
/// valid address yields exactly that address again, through both stages.
pub proof fn lemma_roundtrip_display(s: Seq<char>)
    requires
        spec_iban_valid(s),
    ensures
        spec_parse_basic(display_of(s)) == Result::<Seq<char>, ParseBaseIbanError>::Ok(s),
        spec_bban_ok(s),
{
    lemma_normalize_display(s);
}

} // verus!
