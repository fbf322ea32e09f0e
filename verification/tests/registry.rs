//! Tests of the codebook registry, the value resolvers, and the
//! relative-reference parser.

use eob_mapper::codebook::{lookup, resolve_enum, find_code_display, CodebookField};
use eob_mapper::resolvers::{
    create_concept_for_codebook_value, create_concept_for_ndc, create_money_from_decimal,
    create_quantity_from_decimal, create_reference_to_npi,
};
use eob_mapper::request::parse_relative_reference_expected;
use eob_mapper::types::{Decimal, MapError};

#[test]
fn lookup_is_total_and_carries_the_coding_system() {
    let entry = lookup(CodebookField::DrugCvrgStusCd);
    assert_eq!(entry.key, "drug_cvrg_stus_cd");
    assert_eq!(
        entry.system,
        "https://bluebutton.cms.gov/resources/variables/drug_cvrg_stus_cd"
    );
    assert_eq!(entry.description, "Drug Coverage Status Code");
    assert_eq!(entry.codes.len(), 3);
    assert_eq!(entry.codes[0].code, "C");
    assert_eq!(entry.codes[0].display, "Covered");
}

#[test]
fn resolve_enum_accepts_a_legal_code() {
    let concept = match resolve_enum(CodebookField::DrugCvrgStusCd, &String::from("C")) {
        Ok(c) => c,
        Err(_) => panic!("expected the code to resolve"),
    };
    assert_eq!(concept.coding.len(), 1);
    assert_eq!(
        concept.coding[0].system,
        "https://bluebutton.cms.gov/resources/variables/drug_cvrg_stus_cd"
    );
    assert_eq!(concept.coding[0].code, "C");
    assert_eq!(concept.coding[0].display.as_deref(), Some("Covered"));
}

#[test]
fn resolve_enum_rejects_an_illegal_code() {
    match resolve_enum(CodebookField::DrugCvrgStusCd, &String::from("Q")) {
        Err(MapError::InvalidSourceData(msg)) => {
            assert_eq!(msg, "Invalid value for field drug_cvrg_stus_cd");
        }
        _ => panic!("expected an invalid-source-data failure"),
    }
}

#[test]
fn find_code_display_searches_the_legal_set() {
    assert_eq!(
        find_code_display(CodebookField::BrndGnrcCd, &String::from("B")).as_deref(),
        Some("Brand")
    );
    assert_eq!(find_code_display(CodebookField::BrndGnrcCd, &String::from("x")), None);
    // An amount field has no legal set at all.
    assert_eq!(find_code_display(CodebookField::LicsAmt, &String::from("B")), None);
}

#[test]
fn tolerant_concept_keeps_an_unknown_code_without_display() {
    let concept = create_concept_for_codebook_value(CodebookField::RxOrgnCd, &String::from("9"));
    assert_eq!(concept.coding[0].code, "9");
    assert!(concept.coding[0].display.is_none());
}

#[test]
fn money_is_tagged_with_the_fixed_currency() {
    let money = create_money_from_decimal(Decimal { unscaled: 1234, scale: 2 });
    assert_eq!(money.value, Decimal { unscaled: 1234, scale: 2 });
    assert_eq!(money.currency, "USD");
}

#[test]
fn quantity_preserves_the_exact_decimal() {
    let quantity = create_quantity_from_decimal(Decimal { unscaled: 605, scale: 1 });
    assert_eq!(quantity.value, Decimal { unscaled: 605, scale: 1 });
    assert!(quantity.extension.is_empty());
}

#[test]
fn ndc_concept_has_no_registry_validation() {
    let concept = create_concept_for_ndc(&String::from("00000000000"));
    assert_eq!(concept.coding[0].system, "http://hl7.org/fhir/sid/ndc");
    assert_eq!(concept.coding[0].code, "00000000000");
    assert!(concept.coding[0].display.is_none());
}

#[test]
fn npi_reference_carries_the_national_namespace() {
    let reference = create_reference_to_npi(&String::from("1023011079"));
    assert!(reference.reference.is_none());
    let id = reference.identifier.unwrap();
    assert_eq!(id.system, "http://hl7.org/fhir/sid/us-npi");
    assert_eq!(id.value, "1023011079");
}

#[test]
fn parses_a_well_formed_patient_reference() {
    assert_eq!(
        parse_relative_reference_expected("Patient/1234", "Patient").as_deref(),
        Some("1234")
    );
}

#[test]
fn rejects_malformed_references() {
    assert_eq!(parse_relative_reference_expected("Patient", "Patient"), None);
    assert_eq!(parse_relative_reference_expected("Observation/1", "Patient"), None);
    assert_eq!(parse_relative_reference_expected("Patient/1/2", "Patient"), None);
    assert_eq!(parse_relative_reference_expected("", "Patient"), None);
    assert_eq!(parse_relative_reference_expected("Patient:1234", "Patient"), None);
}

#[test]
fn accepts_an_empty_identifier_after_the_slash() {
    assert_eq!(
        parse_relative_reference_expected("Patient/", "Patient").as_deref(),
        Some("")
    );
}
