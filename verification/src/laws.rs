//! The laws of the transformation, proved from the contracts alone: the
//! compound-code/detail-type correspondence, the mutual exclusion of the two
//! drug-payment adjudications, the care-team presence rule, the determinism
//! of the mapping, and the bundle count identity.

use vstd::prelude::*;
use crate::claims::ClaimRecord;
use crate::codebook::CodebookField;
use crate::code_systems::ValueSetCode;
use crate::structures::{
    Coding, Concept, Identifier, Extension, ExtensionValue, Money, Reference,
    Adjudication, Item, ExplanationOfBenefit, Bundle,
    concept_is, concept_is_adjudication_category,
};
use crate::mapper::{eob_matches, info_fields, info_entry_matches};
use crate::bundle::bundle_matches;

verus! {

// ---------------------------------------------------------------------------
// Detail type and compound code
// ---------------------------------------------------------------------------

/// For every mapped resource, the detail-type concept is present exactly
/// when the claim's compound code is non-zero.
pub proof fn lemma_detail_type_iff_compound(c: ClaimRecord, e: ExplanationOfBenefit)
    requires
        eob_matches(c, e),
    ensures
        e.item@[0].detail@[0].detail_type is Some <==> c.cmpnd_cd != 0,
{
}

// ---------------------------------------------------------------------------
// Mutual exclusion of the drug-payment adjudications
// ---------------------------------------------------------------------------

/// `a` carries the covered-amount adjudication category.
pub open spec fn is_covered_amount_adjudication(a: Adjudication) -> bool {
    a.category matches Some(cat)
        && concept_is_adjudication_category(cat, CodebookField::CvrdDPlanPdAmt)
}

/// `a` carries the not-covered-amount adjudication category.
pub open spec fn is_not_covered_amount_adjudication(a: Adjudication) -> bool {
    a.category matches Some(cat)
        && concept_is_adjudication_category(cat, CodebookField::NcvrdPlanPdAmt)
}

/// For every mapped resource, exactly one of the covered-amount and
/// not-covered-amount adjudications is present — the covered one exactly
/// when the coverage-status code equals the covered sentinel — and it is
/// the first entry, occurring nowhere else in the list.
pub proof fn lemma_exactly_one_drug_payment_adjudication(c: ClaimRecord, e: ExplanationOfBenefit)
    requires
        eob_matches(c, e),
    ensures
        is_covered_amount_adjudication(e.item@[0].adjudication@[0])
            <==> c.drug_cvrg_stus_cd@ == "C"@,
        is_not_covered_amount_adjudication(e.item@[0].adjudication@[0])
            <==> c.drug_cvrg_stus_cd@ != "C"@,
        forall|i: int| 0 < i < e.item@[0].adjudication@.len()
            ==> !is_covered_amount_adjudication(#[trigger] e.item@[0].adjudication@[i])
                && !is_not_covered_amount_adjudication(e.item@[0].adjudication@[i]),
{
    reveal_strlit("cvrd_d_plan_pd_amt");
    reveal_strlit("ncvrd_plan_pd_amt");
    reveal_strlit("gdc_blw_oopt_amt");
    reveal_strlit("gdc_abv_oopt_amt");
    reveal_strlit("ptnt_pay_amt");
    reveal_strlit("othr_troop_amt");
    reveal_strlit("lics_amt");
    reveal_strlit("plro_amt");
    reveal_strlit("tot_rx_cst_amt");
    reveal_strlit("rptd_gap_dscnt_num");
    assert("cvrd_d_plan_pd_amt"@.len() == 18);
    assert("ncvrd_plan_pd_amt"@.len() == 17);
    assert("gdc_blw_oopt_amt"@.len() == 16);
    assert("gdc_abv_oopt_amt"@.len() == 16);
    assert("ptnt_pay_amt"@.len() == 12);
    assert("othr_troop_amt"@.len() == 14);
    assert("lics_amt"@.len() == 8);
    assert("plro_amt"@.len() == 8);
    assert("tot_rx_cst_amt"@.len() == 14);
    assert("rptd_gap_dscnt_num"@.len() == 18);
    assert("cvrd_d_plan_pd_amt"@[0] != "rptd_gap_dscnt_num"@[0]);
    let adjs = e.item@[0].adjudication@;
    assert forall|i: int| 0 < i < adjs.len() implies !is_covered_amount_adjudication(
        #[trigger] adjs[i],
    ) && !is_not_covered_amount_adjudication(adjs[i]) by {
        assert(1 <= i < 9);
    }
}

// ---------------------------------------------------------------------------
// Care-team presence
// ---------------------------------------------------------------------------

/// For every mapped resource: an empty prescriber identifier adds no
/// care-team entry; a non-empty one adds exactly one, with the "primary"
/// role.
pub proof fn lemma_care_team_iff_prescriber(c: ClaimRecord, e: ExplanationOfBenefit)
    requires
        eob_matches(c, e),
    ensures
        c.prscrbr_id@.len() == 0 ==> e.care_team@.len() == 0,
        c.prscrbr_id@.len() > 0 ==> {
            &&& e.care_team@.len() == 1
            &&& crate::code_systems::concept_is_value_set_code(
                e.care_team@[0].role,
                ValueSetCode::PrimaryCareRole,
            )
        },
{
}

// ---------------------------------------------------------------------------
// Determinism of the mapping
// ---------------------------------------------------------------------------

/// Structural equality of codings, at the level of their values.
pub open spec fn coding_equiv(a: Coding, b: Coding) -> bool {
    &&& a.system@ == b.system@
    &&& a.code@ == b.code@
    &&& match (a.display, b.display) {
        (Some(x), Some(y)) => x@ == y@,
        (None, None) => true,
        _ => false,
    }
}

/// Structural equality of concepts.
pub open spec fn concept_equiv(a: Concept, b: Concept) -> bool {
    &&& a.coding@.len() == b.coding@.len()
    &&& forall|i: int| 0 <= i < a.coding@.len()
        ==> coding_equiv(#[trigger] a.coding@[i], b.coding@[i])
}

/// Structural equality of identifiers.
pub open spec fn identifier_equiv(a: Identifier, b: Identifier) -> bool {
    a.system@ == b.system@ && a.value@ == b.value@
}

/// Structural equality of extensions.
pub open spec fn extension_equiv(a: Extension, b: Extension) -> bool {
    &&& a.url@ == b.url@
    &&& match (a.value, b.value) {
        (ExtensionValue::Identifier(x), ExtensionValue::Identifier(y)) => identifier_equiv(x, y),
        (ExtensionValue::Coding(x), ExtensionValue::Coding(y)) => coding_equiv(x, y),
        (ExtensionValue::Quantity(x), ExtensionValue::Quantity(y)) => x.value == y.value
            && x.extension@ == y.extension@,
        _ => false,
    }
}

/// Structural equality of extension lists.
pub open spec fn extensions_equiv(a: Seq<Extension>, b: Seq<Extension>) -> bool {
    &&& a.len() == b.len()
    &&& forall|i: int| 0 <= i < a.len() ==> extension_equiv(#[trigger] a[i], b[i])
}

/// Structural equality of references.
pub open spec fn reference_equiv(a: Reference, b: Reference) -> bool {
    &&& match (a.reference, b.reference) {
        (Some(x), Some(y)) => x@ == y@,
        (None, None) => true,
        _ => false,
    }
    &&& match (a.identifier, b.identifier) {
        (Some(x), Some(y)) => identifier_equiv(x, y),
        (None, None) => true,
        _ => false,
    }
    &&& extensions_equiv(a.extension@, b.extension@)
}

/// Structural equality of optional references.
pub open spec fn opt_reference_equiv(a: Option<Reference>, b: Option<Reference>) -> bool {
    match (a, b) {
        (Some(x), Some(y)) => reference_equiv(x, y),
        (None, None) => true,
        _ => false,
    }
}

/// Structural equality of optional concepts.
pub open spec fn opt_concept_equiv(a: Option<Concept>, b: Option<Concept>) -> bool {
    match (a, b) {
        (Some(x), Some(y)) => concept_equiv(x, y),
        (None, None) => true,
        _ => false,
    }
}

/// Structural equality of money amounts.
pub open spec fn money_equiv(a: Money, b: Money) -> bool {
    a.value == b.value && a.currency@ == b.currency@
}

/// Structural equality of adjudications.
pub open spec fn adjudication_equiv(a: Adjudication, b: Adjudication) -> bool {
    &&& opt_concept_equiv(a.category, b.category)
    &&& opt_concept_equiv(a.reason, b.reason)
    &&& match (a.amount, b.amount) {
        (Some(x), Some(y)) => money_equiv(x, y),
        (None, None) => true,
        _ => false,
    }
}

/// Structural equality of items.
pub open spec fn item_equiv(a: Item, b: Item) -> bool {
    &&& a.sequence == b.sequence
    &&& a.care_team_link@ == b.care_team_link@
    &&& a.serviced_date == b.serviced_date
    &&& opt_concept_equiv(a.service, b.service)
    &&& match (a.quantity, b.quantity) {
        (Some(x), Some(y)) => x.value == y.value && extensions_equiv(x.extension@, y.extension@),
        (None, None) => true,
        _ => false,
    }
    &&& a.adjudication@.len() == b.adjudication@.len()
    &&& forall|i: int| 0 <= i < a.adjudication@.len()
        ==> adjudication_equiv(#[trigger] a.adjudication@[i], b.adjudication@[i])
    &&& a.detail@.len() == b.detail@.len()
    &&& forall|i: int| 0 <= i < a.detail@.len()
        ==> (#[trigger] a.detail@[i]).sequence == b.detail@[i].sequence
            && opt_concept_equiv(a.detail@[i].detail_type, b.detail@[i].detail_type)
}

/// Structural equality of whole resources: every field equal at the level
/// of its values.
pub open spec fn eob_equiv(a: ExplanationOfBenefit, b: ExplanationOfBenefit) -> bool {
    &&& a.id@ == b.id@
    &&& a.meta == b.meta
    &&& a.status@ == b.status@
    &&& reference_equiv(a.patient, b.patient)
    &&& opt_reference_equiv(a.insurer, b.insurer)
    &&& opt_reference_equiv(a.organization, b.organization)
    &&& opt_reference_equiv(a.facility, b.facility)
    &&& a.identifier@.len() == b.identifier@.len()
    &&& forall|i: int| 0 <= i < a.identifier@.len()
        ==> identifier_equiv(#[trigger] a.identifier@[i], b.identifier@[i])
    &&& a.information@.len() == b.information@.len()
    &&& forall|i: int| 0 <= i < a.information@.len()
        ==> (#[trigger] a.information@[i]).sequence == b.information@[i].sequence
            && concept_equiv(a.information@[i].category, b.information@[i].category)
    &&& a.care_team@.len() == b.care_team@.len()
    &&& forall|i: int| 0 <= i < a.care_team@.len()
        ==> (#[trigger] a.care_team@[i]).sequence == b.care_team@[i].sequence
            && reference_equiv(a.care_team@[i].provider, b.care_team@[i].provider)
            && concept_equiv(a.care_team@[i].role, b.care_team@[i].role)
    &&& match (a.insurance, b.insurance) {
        (Some(x), Some(y)) => match (x.coverage, y.coverage) {
            (Some(cx), Some(cy)) => extensions_equiv(cx.extension@, cy.extension@),
            (None, None) => true,
            _ => false,
        },
        (None, None) => true,
        _ => false,
    }
    &&& match (a.payment, b.payment) {
        (Some(x), Some(y)) => x.date == y.date,
        (None, None) => true,
        _ => false,
    }
    &&& a.item@.len() == b.item@.len()
    &&& forall|i: int| 0 <= i < a.item@.len() ==> item_equiv(#[trigger] a.item@[i], b.item@[i])
}

proof fn lemma_concept_equiv_from_is(
    a: Concept,
    b: Concept,
    system: Seq<char>,
    code: Seq<char>,
    display: Option<Seq<char>>,
)
    requires
        concept_is(a, system, code, display),
        concept_is(b, system, code, display),
    ensures
        concept_equiv(a, b),
{
    assert(coding_equiv(a.coding@[0], b.coding@[0]));
    assert forall|i: int| 0 <= i < a.coding@.len() implies coding_equiv(
        #[trigger] a.coding@[i],
        b.coding@[i],
    ) by {
        assert(i == 0);
    }
}

/// Idempotence of the mapping: the contract of the mapper fixes every field
/// of the resource as a function of the claim record, so any two resources
/// mapped from the same claim are structurally identical — there is no
/// hidden timestamp or random field beyond those sourced from the record.
#[verifier::rlimit(100)]
#[verifier::spinoff_prover]
pub proof fn lemma_mapping_deterministic(c: ClaimRecord, e1: ExplanationOfBenefit, e2: ExplanationOfBenefit)
    requires
        eob_matches(c, e1),
        eob_matches(c, e2),
    ensures
        eob_equiv(e1, e2),
{
    // Identifiers.
    assert forall|i: int| 0 <= i < e1.identifier@.len() implies identifier_equiv(
        #[trigger] e1.identifier@[i],
        e2.identifier@[i],
    ) by {
        assert(i == 0 || i == 1);
    }

    // Information entries: both lists code the same (field, value) pairs.
    assert forall|i: int| 0 <= i < e1.information@.len() implies (
        #[trigger] e1.information@[i]).sequence == e2.information@[i].sequence
        && concept_equiv(e1.information@[i].category, e2.information@[i].category) by {
        assert(info_entry_matches(e1.information@[i], i + 1, info_fields(c)[i]));
        assert(info_entry_matches(e2.information@[i], i + 1, info_fields(c)[i]));
        lemma_concept_equiv_from_is(
            e1.information@[i].category,
            e2.information@[i].category,
            crate::codebook::field_system(info_fields(c)[i].0),
            info_fields(c)[i].1,
            crate::codebook::field_code_display(info_fields(c)[i].0, info_fields(c)[i].1),
        );
    }

    // Care team.
    assert forall|i: int| 0 <= i < e1.care_team@.len() implies (
        #[trigger] e1.care_team@[i]).sequence == e2.care_team@[i].sequence
        && reference_equiv(e1.care_team@[i].provider, e2.care_team@[i].provider)
        && concept_equiv(e1.care_team@[i].role, e2.care_team@[i].role) by {
        assert(i == 0);
        lemma_concept_equiv_from_is(
            e1.care_team@[i].role,
            e2.care_team@[i].role,
            crate::code_systems::value_set_system(ValueSetCode::PrimaryCareRole),
            crate::code_systems::value_set_code(ValueSetCode::PrimaryCareRole),
            Some(crate::code_systems::value_set_display(ValueSetCode::PrimaryCareRole)),
        );
    }

    // Coverage extensions.
    let cov1 = e1.insurance->0.coverage->0;
    let cov2 = e2.insurance->0.coverage->0;
    assert forall|i: int| 0 <= i < cov1.extension@.len() implies extension_equiv(
        #[trigger] cov1.extension@[i],
        cov2.extension@[i],
    ) by {
        assert(i == 0 || i == 1);
    }

    // The single item.
    let it1 = e1.item@[0];
    let it2 = e2.item@[0];
    assert(it1.care_team_link@ =~= it2.care_team_link@);

    let sv1 = it1.service->0;
    let sv2 = it2.service->0;
    lemma_concept_equiv_from_is(
        sv1,
        sv2,
        crate::resolvers::ndc_system(),
        c.prod_srvc_id@,
        None,
    );

    let q1 = it1.quantity->0;
    let q2 = it2.quantity->0;
    assert forall|i: int| 0 <= i < q1.extension@.len() implies extension_equiv(
        #[trigger] q1.extension@[i],
        q2.extension@[i],
    ) by {
        assert(i == 0 || i == 1);
        let x = q1.extension@[i].value->Quantity_0;
        let y = q2.extension@[i].value->Quantity_0;
        assert(x.extension@ =~= y.extension@);
    }

    // Adjudications.
    assert forall|i: int| 0 <= i < it1.adjudication@.len() implies adjudication_equiv(
        #[trigger] it1.adjudication@[i],
        it2.adjudication@[i],
    ) by {
        assert(0 <= i < 9);
        let a1 = it1.adjudication@[i];
        let a2 = it2.adjudication@[i];
        lemma_concept_equiv_from_is(
            a1.category->0,
            a2.category->0,
            crate::structures::adjudication_category_system(),
            a1.category->0.coding@[0].code@,
            Some(a1.category->0.coding@[0].display->0@),
        );
        if i == 0 {
            lemma_concept_equiv_from_is(
                a1.reason->0,
                a2.reason->0,
                crate::codebook::field_system(CodebookField::DrugCvrgStusCd),
                c.drug_cvrg_stus_cd@,
                crate::codebook::field_code_display(CodebookField::DrugCvrgStusCd, c.drug_cvrg_stus_cd@),
            );
        }
    }

    // Details.
    assert forall|i: int| 0 <= i < it1.detail@.len() implies (
        #[trigger] it1.detail@[i]).sequence == it2.detail@[i].sequence
        && opt_concept_equiv(it1.detail@[i].detail_type, it2.detail@[i].detail_type) by {
        assert(i == 0);
        if c.cmpnd_cd == 1 {
            lemma_concept_equiv_from_is(
                it1.detail@[i].detail_type->0,
                it2.detail@[i].detail_type->0,
                crate::code_systems::value_set_system(ValueSetCode::RxDispenseInvoice),
                crate::code_systems::value_set_code(ValueSetCode::RxDispenseInvoice),
                Some(crate::code_systems::value_set_display(ValueSetCode::RxDispenseInvoice)),
            );
        } else if c.cmpnd_cd == 2 {
            lemma_concept_equiv_from_is(
                it1.detail@[i].detail_type->0,
                it2.detail@[i].detail_type->0,
                crate::code_systems::value_set_system(ValueSetCode::RxCompoundInvoice),
                crate::code_systems::value_set_code(ValueSetCode::RxCompoundInvoice),
                Some(crate::code_systems::value_set_display(ValueSetCode::RxCompoundInvoice)),
            );
        }
    }

    assert(item_equiv(e1.item@[0], e2.item@[0]));
    assert forall|i: int| 0 <= i < e1.item@.len() implies item_equiv(
        #[trigger] e1.item@[i],
        e2.item@[i],
    ) by {
        assert(i == 0);
    }
}

// ---------------------------------------------------------------------------
// Bundle count identity
// ---------------------------------------------------------------------------

/// For every assembled bundle, the total equals the number of entries.
pub proof fn lemma_bundle_total_equals_entries(claims: Seq<ClaimRecord>, b: Bundle)
    requires
        bundle_matches(claims, b),
    ensures
        b.total as int == b.entry@.len(),
{
}

} // verus!
