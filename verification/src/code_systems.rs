//! Codes drawn from externally defined value sets (as opposed to the
//! internal codebook): invoice-group codes for compound claims and the
//! care-team role codes.

use vstd::prelude::*;
use vstd::string::StringExecFns;
use crate::structures::{Coding, Concept, concept_is};

verus! {

/// One code of an externally defined value set.
#[derive(Clone, Copy, PartialEq, Eq, Structural, Debug)]
pub enum ValueSetCode {
    /// Invoice grouping of a non-compound dispense.
    RxDispenseInvoice,
    /// Invoice grouping of a compound dispense.
    RxCompoundInvoice,
    /// The "primary" care-team role.
    PrimaryCareRole,
}

/// The coding-system URI of a value-set code.
pub open spec fn value_set_system(v: ValueSetCode) -> Seq<char> {
    match v {
        ValueSetCode::RxDispenseInvoice => "http://hl7.org/fhir/v3/ActCode"@,
        ValueSetCode::RxCompoundInvoice => "http://hl7.org/fhir/v3/ActCode"@,
        ValueSetCode::PrimaryCareRole => "http://hl7.org/fhir/claimcareteamrole"@,
    }
}

/// The code of a value-set code.
pub open spec fn value_set_code(v: ValueSetCode) -> Seq<char> {
    match v {
        ValueSetCode::RxDispenseInvoice => "RXDINV"@,
        ValueSetCode::RxCompoundInvoice => "RXCINV"@,
        ValueSetCode::PrimaryCareRole => "primary"@,
    }
}

/// The display text of a value-set code.
pub open spec fn value_set_display(v: ValueSetCode) -> Seq<char> {
    match v {
        ValueSetCode::RxDispenseInvoice => "Rx dispense invoice"@,
        ValueSetCode::RxCompoundInvoice => "Rx compound invoice"@,
        ValueSetCode::PrimaryCareRole => "Primary provider"@,
    }
}

/// `c` is the single-coding concept of the value-set code `v`.
pub open spec fn concept_is_value_set_code(c: Concept, v: ValueSetCode) -> bool {
    concept_is(c, value_set_system(v), value_set_code(v), Some(value_set_display(v)))
}

/// Builds the coded concept of one value-set code.
pub fn create_concept_for_value_set_code(v: ValueSetCode) -> (r: Concept)
    ensures
        concept_is_value_set_code(r, v),
{
    let (system, code, display) = match v {
        ValueSetCode::RxDispenseInvoice => (
            String::from_str("http://hl7.org/fhir/v3/ActCode"),
            String::from_str("RXDINV"),
            String::from_str("Rx dispense invoice"),
        ),
        ValueSetCode::RxCompoundInvoice => (
            String::from_str("http://hl7.org/fhir/v3/ActCode"),
            String::from_str("RXCINV"),
            String::from_str("Rx compound invoice"),
        ),
        ValueSetCode::PrimaryCareRole => (
            String::from_str("http://hl7.org/fhir/claimcareteamrole"),
            String::from_str("primary"),
            String::from_str("Primary provider"),
        ),
    };
    let mut coding: Vec<Coding> = Vec::new();
    coding.push(Coding { system, code, display: Some(display) });
    Concept { coding }
}

} // verus!
