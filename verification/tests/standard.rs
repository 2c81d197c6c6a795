//! The whole-address validators: the strict electronic check with checksum,
//! the country-format check, and the reporting variant.

use iban::{validate_address, validate_iban, validate_iban_country};
use iban::{IbanCountryResult, IbanValidationResult};

/// The strict electronic validator accepts a valid address.
#[test]
fn validate_iban_valid_address() {
    assert_eq!(validate_iban("DE44500105175407324931"), true);
}

/// The strict electronic validator rejects a failing checksum.
#[test]
fn validate_iban_invalid_checksum() {
    assert_eq!(validate_iban("DE4450010234607324931"), false);
}

/// The strict electronic validator rejects the reserved check digits even
/// where the remainder comes to one.
#[test]
fn validate_iban_reserved_check_digits() {
    assert_eq!(validate_iban("AH002"), false);
    assert_eq!(validate_iban("AM015"), false);
}

/// The strict electronic validator rejects lowercase and misshapen input.
#[test]
fn validate_iban_rejects_malformed() {
    for s in [
        "",
        "DE4",
        "de44500105175407324931",
        "DE44 5001 0517 5407 3249 31",
        "DE445001023460732493147896512575467",
        "4E44500105175407324931",
        "DEX4500105175407324931",
    ] {
        assert_eq!(validate_iban(s), false);
    }
}

/// A recognized country with a fitting format.
#[test]
fn validate_country_valid() {
    assert_eq!(
        validate_iban_country("DE44500105175407324931"),
        IbanCountryResult::Valid
    );
}

/// A recognized country with a format that does not fit.
#[test]
fn validate_country_invalid() {
    assert_eq!(
        validate_iban_country("DE44ABCDE5175407324931"),
        IbanCountryResult::Invalid
    );
}

/// A country code absent from the registry.
#[test]
fn validate_country_unknown() {
    assert_eq!(
        validate_iban_country("ZZ44500105175407324931"),
        IbanCountryResult::CountryUnknown
    );
}

/// The reporting validator accepts a valid address.
#[test]
fn validate_address_valid() {
    assert_eq!(
        validate_address("DE44500105175407324931"),
        IbanValidationResult::Valid
    );
}

/// The reporting validator names the offending length; four characters
/// leave no room for a BBAN and are already too short.
#[test]
fn validate_address_invalid_length() {
    assert_eq!(
        validate_address("DE4"),
        IbanValidationResult::InvalidLength { l: 3 }
    );
    assert_eq!(
        validate_address("DE44"),
        IbanValidationResult::InvalidLength { l: 4 }
    );
    assert_eq!(
        validate_address("DE445001023460732493147896512575467"),
        IbanValidationResult::InvalidLength { l: 35 }
    );
}

/// The reporting validator rejects the reserved check digits through the
/// checksum stage, handing back the remainder it computed.
#[test]
fn validate_address_reserved_check_digits() {
    assert_eq!(
        validate_address("AH002"),
        IbanValidationResult::InvalidChecksum { s: 1 }
    );
    assert_eq!(
        validate_address("AM015"),
        IbanValidationResult::InvalidChecksum { s: 1 }
    );
}

/// The reporting validator names the first offending character.
#[test]
fn validate_address_invalid_character() {
    assert_eq!(
        validate_address("DE44@0010234607324931"),
        IbanValidationResult::InvalidCharacter { i: 4, c: '@' }
    );
    assert_eq!(
        validate_address("0E44500105175407324931"),
        IbanValidationResult::InvalidCharacter { i: 0, c: '0' }
    );
    assert_eq!(
        validate_address("DEA4500105175407324931"),
        IbanValidationResult::InvalidCharacter { i: 2, c: 'A' }
    );
    assert_eq!(
        validate_address("tr330006100519786457465326"),
        IbanValidationResult::InvalidCharacter { i: 0, c: 't' }
    );
}

/// The reporting validator hands back the computed remainder.
#[test]
fn validate_address_invalid_checksum() {
    assert_eq!(
        validate_address("DE4450010234607324931"),
        IbanValidationResult::InvalidChecksum { s: 69 }
    );
}
