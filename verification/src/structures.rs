//! The standardized output data model: the explanation-of-benefit resource
//! with its nested substructures, and the bundle that packages many
//! resources, together with the spec-level predicates the transformation
//! contracts are stated over.

use vstd::prelude::*;
use crate::types::{Date, Decimal};
use crate::codebook::{CodebookField, field_system, field_key, field_description, field_code_display};

verus! {

/// One coded value: coding-system URI, code, and optional display text.
pub struct Coding {
    pub system: String,
    pub code: String,
    pub display: Option<String>,
}

/// A coded concept: a list of codings (here always exactly one).
pub struct Concept {
    pub coding: Vec<Coding>,
}

/// A namespaced identifier.
pub struct Identifier {
    pub system: String,
    pub value: String,
}

/// An extension: a URI naming the extended element plus one value.
pub struct Extension {
    pub url: String,
    pub value: ExtensionValue,
}

/// The value carried by an extension.
pub enum ExtensionValue {
    Identifier(Identifier),
    Coding(Coding),
    Quantity(Quantity),
}

/// A quantity value, optionally annotated with extensions.
pub struct Quantity {
    pub value: Decimal,
    pub extension: Vec<Extension>,
}

/// A monetary amount tagged with its currency.
pub struct Money {
    pub value: Decimal,
    pub currency: String,
}

/// A reference to another resource, by relative URL or by identifier.
pub struct Reference {
    pub reference: Option<String>,
    pub identifier: Option<Identifier>,
    pub extension: Vec<Extension>,
}

/// Resource-level metadata.
#[derive(Clone, Copy, PartialEq, Eq, Structural, Debug)]
pub struct Meta {
    pub last_updated: Option<u64>,
}

/// One supplementary coded fact attached to a resource.
pub struct Information {
    pub sequence: usize,
    pub category: Concept,
}

/// One care-team entry: a provider reference with a role.
pub struct CareTeam {
    pub sequence: usize,
    pub provider: Reference,
    pub role: Concept,
}

/// One payment-determination entry of a line item.
pub struct Adjudication {
    pub category: Option<Concept>,
    pub reason: Option<Concept>,
    pub amount: Option<Money>,
}

/// The coding-qualified detail of a line item.
pub struct Detail {
    pub sequence: usize,
    pub detail_type: Option<Concept>,
}

/// The single line item of a resource.
pub struct Item {
    pub sequence: usize,
    pub care_team_link: Vec<usize>,
    pub serviced_date: Option<Date>,
    pub service: Option<Concept>,
    pub quantity: Option<Quantity>,
    pub adjudication: Vec<Adjudication>,
    pub detail: Vec<Detail>,
}

/// Insurance/coverage metadata of a resource.
pub struct Insurance {
    pub coverage: Option<Coverage>,
}

/// The coverage element, extended with plan-identifying identifiers.
pub struct Coverage {
    pub extension: Vec<Extension>,
}

/// The payment block of a resource.
pub struct Payment {
    pub date: Option<Date>,
}

/// One standardized explanation-of-benefit resource.
pub struct ExplanationOfBenefit {
    pub id: String,
    pub meta: Option<Meta>,
    pub status: String,
    pub patient: Reference,
    pub insurer: Option<Reference>,
    pub organization: Option<Reference>,
    pub facility: Option<Reference>,
    pub identifier: Vec<Identifier>,
    pub information: Vec<Information>,
    pub care_team: Vec<CareTeam>,
    pub insurance: Option<Insurance>,
    pub payment: Option<Payment>,
    pub item: Vec<Item>,
}

/// One entry of a bundle.
pub struct BundleEntry {
    pub resource: ExplanationOfBenefit,
}

/// One link of a bundle.
pub struct BundleLink {
    pub relation: String,
    pub url: String,
}

/// A paginated collection of resources plus collection-level metadata.
pub struct Bundle {
    pub id: String,
    pub meta: Option<Meta>,
    pub bundle_type: String,
    pub total: u32,
    pub link: Vec<BundleLink>,
    pub entry: Vec<BundleEntry>,
}

// ---------------------------------------------------------------------------
// Spec-level predicates pinning the contents of each substructure.
// ---------------------------------------------------------------------------

/// `c` is exactly one coding with the given system, code and display.
pub open spec fn coding_is(c: Coding, system: Seq<char>, code: Seq<char>, display: Option<Seq<char>>) -> bool {
    &&& c.system@ == system
    &&& c.code@ == code
    &&& match display {
        Some(d) => c.display matches Some(cd) && cd@ == d,
        None => c.display is None,
    }
}

/// `c` is a single-coding concept with the given system, code and display.
pub open spec fn concept_is(c: Concept, system: Seq<char>, code: Seq<char>, display: Option<Seq<char>>) -> bool {
    &&& c.coding@.len() == 1
    &&& coding_is(c.coding@[0], system, code, display)
}

/// `c` codes `value` under field `f`'s coding system; the display is the
/// code's meaning when the code is in the field's legal set, absent
/// otherwise.
pub open spec fn concept_is_codebook_value(c: Concept, f: CodebookField, value: Seq<char>) -> bool {
    concept_is(c, field_system(f), value, field_code_display(f, value))
}

/// `id` is field `f`'s namespaced identifier for `value`.
pub open spec fn identifier_is(id: Identifier, f: CodebookField, value: Seq<char>) -> bool {
    &&& id.system@ == field_system(f)
    &&& id.value@ == value
}

/// The national provider identifier namespace.
pub open spec fn npi_system() -> Seq<char> {
    "http://hl7.org/fhir/sid/us-npi"@
}

/// `r` references a provider by NPI, with no extensions.
pub open spec fn reference_is_npi(r: Reference, npi: Seq<char>) -> bool {
    &&& r.reference is None
    &&& r.identifier matches Some(id) && id.system@ == npi_system() && id.value@ == npi
    &&& r.extension@.len() == 0
}

/// `m` is the amount `value` in the source system's fixed currency.
pub open spec fn money_is(m: Money, value: Decimal) -> bool {
    &&& m.value == value
    &&& m.currency@ == "USD"@
}

/// `e` is an extension named by field `f` carrying an identifier for `value`.
pub open spec fn extension_is_identifier(e: Extension, f: CodebookField, value: Seq<char>) -> bool {
    &&& e.url@ == field_system(f)
    &&& e.value matches ExtensionValue::Identifier(id) && identifier_is(id, f, value)
}

/// `e` is an extension named by field `f` carrying a codebook coding.
pub open spec fn extension_is_coding(e: Extension, f: CodebookField, value: Seq<char>) -> bool {
    &&& e.url@ == field_system(f)
    &&& e.value matches ExtensionValue::Coding(c)
        && coding_is(c, field_system(f), value, field_code_display(f, value))
}

/// `e` is an extension named by field `f` carrying a plain quantity.
pub open spec fn extension_is_quantity(e: Extension, f: CodebookField, value: Decimal) -> bool {
    &&& e.url@ == field_system(f)
    &&& e.value matches ExtensionValue::Quantity(q)
        && q.value == value
        && q.extension@.len() == 0
}

/// The adjudication category namespace.
pub open spec fn adjudication_category_system() -> Seq<char> {
    "https://bluebutton.cms.gov/resources/codesystem/adjudication"@
}

/// `c` is the adjudication category concept of field `f`.
pub open spec fn concept_is_adjudication_category(c: Concept, f: CodebookField) -> bool {
    concept_is(c, adjudication_category_system(), field_key(f), Some(field_description(f)))
}

/// `a` is an amount-only adjudication: field `f`'s category, no reason, and
/// the amount `value`.
pub open spec fn adjudication_is_amount(a: Adjudication, f: CodebookField, value: Decimal) -> bool {
    &&& a.category matches Some(c) && concept_is_adjudication_category(c, f)
    &&& a.reason is None
    &&& a.amount matches Some(m) && money_is(m, value)
}

} // verus!
