//! End-to-end scenarios through both validation stages, and edge cases of
//! the two input formats.

use iban::{BaseIban, Iban, IbanLike, ParseBaseIbanError, ParseIbanError};

/// A fully valid German IBAN, with every accessor checked.
#[test]
fn scenario_valid_electronic() {
    let iban: Iban = "DE44500105175407324931".parse().unwrap();
    assert_eq!(iban.country_code(), "DE");
    assert_eq!(iban.check_digits(), 44);
    assert_eq!(iban.check_digits_str(), "44");
    assert_eq!(iban.bban(), "500105175407324931");
    assert_eq!(iban.electronic_str(), "DE44500105175407324931");
    assert_eq!(iban.to_canonical_string(), "DE44500105175407324931");
    assert_eq!(iban.to_display_string(), "DE44 5001 0517 5407 3249 31");
}

/// The paper format is accepted and normalizes to canonical form.
#[test]
fn scenario_paper_format() {
    let iban: Iban = "LV80 BANK 0000 4351 9500 1".parse().unwrap();
    assert_eq!(iban.electronic_str(), "LV80BANK0000435195001");
}

/// A failing checksum is reported as such.
#[test]
fn scenario_invalid_checksum() {
    assert_eq!(
        "DE4450010234607324931".parse::<Iban>(),
        Err(ParseIbanError::InvalidBaseIban {
            source: ParseBaseIbanError::InvalidChecksum
        })
    );
}

/// Spacing that does not align to four-character groups is a format error.
#[test]
fn scenario_misaligned_spacing() {
    assert_eq!(
        "MR0 041 9".parse::<BaseIban>(),
        Err(ParseBaseIbanError::InvalidFormat)
    );
}

/// A checksum-valid address of an unregistered country: the basic stage
/// passes, the country stage reports the code as unknown, and the carried
/// address still answers the country-agnostic accessors.
#[test]
fn scenario_unknown_country() {
    let base: BaseIban = "ZZ07273912631298461".parse().unwrap();
    match "ZZ07273912631298461".parse::<Iban>() {
        Err(ParseIbanError::UnknownCountry(b)) => {
            assert_eq!(b, base);
            assert_eq!(b.country_code(), "ZZ");
            assert_eq!(b.check_digits(), 7);
            assert_eq!(b.bban_unchecked(), "273912631298461");
        }
        other => panic!("expected UnknownCountry, got {:?}", other),
    }
}

/// A checksum-valid address whose BBAN does not fit its country's grammar.
#[test]
fn scenario_invalid_bban() {
    let base: BaseIban = "AL84212110090000AB023569874".parse().unwrap();
    assert_eq!(
        "AL84212110090000AB023569874".parse::<Iban>(),
        Err(ParseIbanError::InvalidBban(base))
    );
}

/// Lowercase BBAN letters are accepted on input and folded to uppercase.
#[test]
fn lowercase_bban_is_folded() {
    let iban: Iban = "GB29nwbk60161331926819".parse().unwrap();
    assert_eq!(iban.electronic_str(), "GB29NWBK60161331926819");
}

/// A lowercase country code is rejected: only the BBAN may vary in case.
#[test]
fn lowercase_country_code_is_rejected() {
    assert_eq!(
        "gb29NWBK60161331926819".parse::<BaseIban>(),
        Err(ParseBaseIbanError::InvalidFormat)
    );
}

/// The reserved check-digit values are format errors even where the
/// checksum arithmetic would not object.
#[test]
fn reserved_check_digits_are_format_errors() {
    assert_eq!(
        "DE00370400440532013000".parse::<BaseIban>(),
        Err(ParseBaseIbanError::InvalidFormat)
    );
    assert_eq!(
        "DE01370400440532013000".parse::<BaseIban>(),
        Err(ParseBaseIbanError::InvalidFormat)
    );
}

/// Degenerate inputs are format errors, never panics.
#[test]
fn degenerate_inputs() {
    for s in [
        "",
        " ",
        "     ",
        "DE44",
        "DE44 5001 0517 5407 3249 31 ",
        "DE44500105175407324931500105175407324931",
        "DE4\u{e9}450010517540732493",
        "\u{1f600}\u{1f600}\u{1f600}\u{1f600}\u{1f600}",
    ] {
        assert_eq!(s.parse::<BaseIban>(), Err(ParseBaseIbanError::InvalidFormat));
    }
}

/// A paper-format length divisible by five implies a trailing separator,
/// which is invalid.
#[test]
fn paper_length_divisible_by_five() {
    assert_eq!(
        "BE68 5390 0754 7034 ".parse::<BaseIban>(),
        Err(ParseBaseIbanError::InvalidFormat)
    );
}

/// Round trip: canonical and display renderings parse back to the same
/// address.
#[test]
fn round_trip_both_formats() {
    let iban: Iban = "MT84MALT011000012345MTLCAST001S".parse().unwrap();
    let canonical = iban.to_canonical_string();
    let display = iban.to_display_string();
    assert_eq!(canonical.parse::<Iban>().unwrap(), iban);
    assert_eq!(display.parse::<Iban>().unwrap(), iban);
}

/// A paper-format BaseIban keeps its canonical and display forms in step.
#[test]
fn base_iban_paper_round_trip() {
    let base: BaseIban = "MR13 0002 0001 0100 0012 3456 753".parse().unwrap();
    assert_eq!(base.electronic_str(), "MR1300020001010000123456753");
    assert_eq!(base.to_display_string(), "MR13 0002 0001 0100 0012 3456 753");
    assert_eq!(base.country_code(), "MR");
    assert_eq!(base.check_digits_str(), "13");
    assert_eq!(base.check_digits(), 13);
    assert_eq!(base.bban_unchecked(), "00020001010000123456753");
    assert_eq!(
        base.to_display_string().parse::<BaseIban>().unwrap(),
        base
    );
}

/// The bank and branch identifier slices, where the registry data carries
/// their positions.
#[test]
fn bank_and_branch_identifiers() {
    let ad: Iban = "AD1200012030200359100100".parse().unwrap();
    assert_eq!(ad.bank_identifier(), Some("0001"));
    assert_eq!(ad.branch_identifier(), Some("2030"));

    let ae: Iban = "AE070331234567890123456".parse().unwrap();
    assert_eq!(ae.bank_identifier(), Some("033"));
    assert_eq!(ae.branch_identifier(), None);

    let al: Iban = "AL47212110090000000235698741".parse().unwrap();
    assert_eq!(al.bank_identifier(), Some("212"));
    assert_eq!(al.branch_identifier(), Some("1100"));

    let de: Iban = "DE44500105175407324931".parse().unwrap();
    assert_eq!(de.bank_identifier(), None);
    assert_eq!(de.branch_identifier(), None);
}

/// An Iban converts into the BaseIban it refines.
#[test]
fn iban_into_base() {
    let iban: Iban = "DE44500105175407324931".parse().unwrap();
    let base: BaseIban = iban.into();
    assert_eq!(base.electronic_str(), "DE44500105175407324931");
}

/// A base-stage error converts into the composite error type.
#[test]
fn base_error_into_parse_error() {
    assert_eq!(
        ParseIbanError::from(ParseBaseIbanError::InvalidChecksum),
        ParseIbanError::InvalidBaseIban {
            source: ParseBaseIbanError::InvalidChecksum
        }
    );
}
