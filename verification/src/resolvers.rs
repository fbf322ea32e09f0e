//! Value resolvers: small pure constructors that turn a single source field
//! into the corresponding standardized substructure (coded concept,
//! quantity, money amount, reference, identifier, extension).

use vstd::prelude::*;
use vstd::string::StringExecFns;
use crate::types::Decimal;
use crate::codebook::{CodebookField, lookup, find_code_display, field_system, field_code_display};
use crate::structures::{
    Coding, Concept, Identifier, Extension, ExtensionValue, Quantity, Money, Reference,
    Adjudication, coding_is, concept_is, concept_is_codebook_value, identifier_is,
    reference_is_npi, money_is, extension_is_identifier, extension_is_coding,
    extension_is_quantity, concept_is_adjudication_category, adjudication_is_amount,
};

verus! {

/// The coding-system URI of national drug codes.
pub open spec fn ndc_system() -> Seq<char> {
    "http://hl7.org/fhir/sid/ndc"@
}

/// Builds field `f`'s namespaced identifier for `value`.
pub fn create_identifier(f: CodebookField, value: &String) -> (r: Identifier)
    ensures
        identifier_is(r, f, value@),
{
    let e = lookup(f);
    Identifier { system: e.system, value: value.clone() }
}

/// Builds a reference to a provider by its NPI.
pub fn create_reference_to_npi(npi: &String) -> (r: Reference)
    ensures
        reference_is_npi(r, npi@),
{
    Reference {
        reference: None,
        identifier: Some(Identifier {
            system: String::from_str("http://hl7.org/fhir/sid/us-npi"),
            value: npi.clone(),
        }),
        extension: Vec::new(),
    }
}

/// Builds the coding of `value` under field `f`'s coding system; the display
/// is the code's meaning when the code is in the field's legal set.
pub fn create_coding_for_codebook_value(f: CodebookField, value: &String) -> (r: Coding)
    ensures
        coding_is(r, field_system(f), value@, field_code_display(f, value@)),
{
    let e = lookup(f);
    let display = find_code_display(f, value);
    Coding { system: e.system, code: value.clone(), display }
}

/// Builds the single-coding concept of `value` under field `f`.
pub fn create_concept_for_codebook_value(f: CodebookField, value: &String) -> (r: Concept)
    ensures
        concept_is_codebook_value(r, f, value@),
{
    let coding_value = create_coding_for_codebook_value(f, value);
    let mut coding: Vec<Coding> = Vec::new();
    coding.push(coding_value);
    Concept { coding }
}

/// Builds an extension named by field `f` carrying an identifier for `value`.
pub fn create_extension_identifier(f: CodebookField, value: &String) -> (r: Extension)
    ensures
        extension_is_identifier(r, f, value@),
{
    let e = lookup(f);
    let id = create_identifier(f, value);
    Extension { url: e.system, value: ExtensionValue::Identifier(id) }
}

/// Builds an extension named by field `f` carrying a codebook coding.
pub fn create_extension_coding(f: CodebookField, value: &String) -> (r: Extension)
    ensures
        extension_is_coding(r, f, value@),
{
    let e = lookup(f);
    let coding = create_coding_for_codebook_value(f, value);
    Extension { url: e.system, value: ExtensionValue::Coding(coding) }
}

/// Builds an extension named by field `f` carrying a plain quantity.
pub fn create_extension_quantity(f: CodebookField, value: Decimal) -> (r: Extension)
    ensures
        extension_is_quantity(r, f, value),
{
    let e = lookup(f);
    let q = create_quantity_from_decimal(value);
    Extension { url: e.system, value: ExtensionValue::Quantity(q) }
}

/// Builds a quantity from an exact decimal amount, with no rounding.
pub fn create_quantity_from_decimal(value: Decimal) -> (r: Quantity)
    ensures
        r.value == value,
        r.extension@.len() == 0,
{
    Quantity { value, extension: Vec::new() }
}

/// Builds a money amount in the source system's fixed currency.
pub fn create_money_from_decimal(value: Decimal) -> (r: Money)
    ensures
        money_is(r, value),
{
    Money { value, currency: String::from_str("USD") }
}

/// Builds the adjudication category concept of field `f`.
pub fn create_adjudication_category_concept(f: CodebookField) -> (r: Concept)
    ensures
        concept_is_adjudication_category(r, f),
{
    let e = lookup(f);
    let mut coding: Vec<Coding> = Vec::new();
    coding.push(Coding {
        system: String::from_str("https://bluebutton.cms.gov/resources/codesystem/adjudication"),
        code: e.key,
        display: Some(e.description),
    });
    Concept { coding }
}

/// Builds an amount-only adjudication: field `f`'s category, no reason, and
/// the amount `value`.
pub fn create_adjudication_amount(f: CodebookField, value: Decimal) -> (r: Adjudication)
    ensures
        adjudication_is_amount(r, f, value),
{
    Adjudication {
        category: Some(create_adjudication_category_concept(f)),
        reason: None,
        amount: Some(create_money_from_decimal(value)),
    }
}

/// Builds the external-catalog concept of a national drug code. These codes
/// are externally governed, so no registry validation applies.
pub fn create_concept_for_ndc(ndc: &String) -> (r: Concept)
    ensures
        concept_is(r, ndc_system(), ndc@, None),
{
    let mut coding: Vec<Coding> = Vec::new();
    coding.push(Coding {
        system: String::from_str("http://hl7.org/fhir/sid/ndc"),
        code: ndc.clone(),
        display: None,
    });
    Concept { coding }
}

} // verus!
