//! Validation of a whole address against its country's registered format.

use vstd::prelude::*;

use crate::chars::{is_digit, spec_is_digit};
use crate::countries::{bban_matches, country_grammar, grammar_matches, spec_country_grammar};
use crate::format::chars_of;
use vstd::string::StrSliceExecFns;

verus! {

/// What validating the country format of an address reports.
#[derive(Clone, Copy, Debug, PartialEq, Eq, Structural, Hash)]
pub enum IbanCountryResult {
    /// The country was recognized and the address fits its format.
    Valid,
    /// The country was recognized but the address does not fit its format.
    Invalid,
    /// The country code is not present in the registry.
    CountryUnknown,
}

/// After its two-letter country code, `s` carries two check digits and a
/// BBAN that fits the country's registered grammar.
pub open spec fn spec_country_format_valid(s: Seq<char>) -> bool {
    &&& s.len() >= 4
    &&& spec_is_digit(s[2])
    &&& spec_is_digit(s[3])
    &&& match spec_country_grammar(s[0], s[1]) {
        Option::Some(g) => grammar_matches(g, s.skip(4)),
        Option::None => false,
    }
}

/// Validate the country-specific format of an address: the registry grammar
/// of its country code, preceded by two check digits. The general shape and
/// the checksum are not checked here; for those, see
/// [`crate::validate_iban`].
pub fn validate_iban_country(address: &str) -> (r: IbanCountryResult)
    requires
        address@.len() >= 2,
    ensures
        match r {
            IbanCountryResult::Valid => spec_country_grammar(address@[0], address@[1]) is Some
                && spec_country_format_valid(address@),
            IbanCountryResult::Invalid => spec_country_grammar(address@[0], address@[1]) is Some
                && !spec_country_format_valid(address@),
            IbanCountryResult::CountryUnknown => spec_country_grammar(
                address@[0],
                address@[1],
            ) is None,
        },
{
    let c0 = address.get_char(0);
    let c1 = address.get_char(1);
    match country_grammar(c0, c1) {
        Option::None => IbanCountryResult::CountryUnknown,
        Option::Some(g) => {
            let n = address.unicode_len();
            if n < 4 {
                return IbanCountryResult::Invalid;
            }
            if !(is_digit(address.get_char(2)) && is_digit(address.get_char(3))) {
                return IbanCountryResult::Invalid;
            }
            let all = chars_of(address);
            let mut bb: Vec<char> = Vec::new();
            let mut i: usize = 4;
            while i < n
                invariant
                    4 <= i <= n,
                    n == address@.len(),
                    all@ == address@,
                    bb@ =~= address@.subrange(4, i as int),
                decreases n - i,
            {
                bb.push(all[i]);
                i = i + 1;
            }
            proof {
                assert(bb@ =~= address@.skip(4));
            }
            if bban_matches(&g, &bb) {
                IbanCountryResult::Valid
            } else {
                IbanCountryResult::Invalid
            }
        },
    }
}

} // verus!
