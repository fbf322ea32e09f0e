//! The claim mapper: produces one standardized explanation-of-benefit
//! resource from one claim record, by invoking the value resolvers in a
//! fixed, field-ordered sequence, applying the conditional-presence and
//! branching rules, and failing fast on any domain-rule violation.
//!
//! The contract of [`transform_claim_partd`] pins the whole output down:
//! mapping succeeds exactly on valid claims, and on success the resource
//! satisfies [`eob_matches`], which fixes every field of the resource as a
//! function of the claim record.

use vstd::prelude::*;
use vstd::string::StringExecFns;
use crate::types::MapError;
use crate::claims::ClaimRecord;
use crate::codebook::CodebookField;
use crate::code_systems::{ValueSetCode, concept_is_value_set_code, create_concept_for_value_set_code};
use crate::structures::{
    Identifier, Extension, Reference, Meta,
    Information, CareTeam, Adjudication, Detail, Item, Insurance, Coverage, Payment,
    ExplanationOfBenefit,
    concept_is, concept_is_codebook_value, identifier_is, reference_is_npi, money_is,
    extension_is_identifier, extension_is_coding, extension_is_quantity,
    concept_is_adjudication_category,
    adjudication_is_amount,
};
use crate::resolvers::{
    ndc_system, create_identifier, create_reference_to_npi, create_concept_for_codebook_value,
    create_extension_identifier, create_extension_coding, create_extension_quantity,
    create_quantity_from_decimal, create_money_from_decimal,
    create_adjudication_category_concept, create_adjudication_amount, create_concept_for_ndc,
};

verus! {

// ---------------------------------------------------------------------------
// Validity and error surface
// ---------------------------------------------------------------------------

/// The compound code is one of its three legal values.
pub open spec fn compound_code_valid(c: ClaimRecord) -> bool {
    c.cmpnd_cd == 0 || c.cmpnd_cd == 1 || c.cmpnd_cd == 2
}

/// The prescriber-qualifier code is the single accepted value (NPI).
pub open spec fn prescriber_qualifier_valid(c: ClaimRecord) -> bool {
    c.prscrbr_id_qlfyr_cd@ == "01"@
}

/// Mapping a claim succeeds exactly when both enumerated domain rules hold.
pub open spec fn claim_valid(c: ClaimRecord) -> bool {
    compound_code_valid(c) && prescriber_qualifier_valid(c)
}

/// The error an invalid claim is rejected with: the first violated rule, in
/// the mapper's fixed field order (compound code before prescriber
/// qualifier).
pub open spec fn claim_error_message(c: ClaimRecord) -> Seq<char> {
    if !compound_code_valid(c) {
        "Unsupported 'CMPND_CD' value."@
    } else {
        "Invalid PRSCRBR_ID_QLFYR_CD value."@
    }
}

/// `e` is the invalid-source-data error that claim `c` is rejected with.
pub open spec fn error_matches(c: ClaimRecord, e: MapError) -> bool {
    e matches MapError::InvalidSourceData(m) && m@ == claim_error_message(c)
}

// ---------------------------------------------------------------------------
// The expected shape of each part of the resource
// ---------------------------------------------------------------------------

/// The header fields that every mapping populates first.
pub open spec fn header_matches(c: ClaimRecord, e: ExplanationOfBenefit) -> bool {
    &&& e.id@ == c.pde_id@
    &&& e.meta matches Some(m) && m.last_updated == c.last_updated
    &&& e.status@ == "active"@
    &&& e.patient.reference matches Some(p) && p@ == "Patient/"@ + c.bene_id@
    &&& e.patient.identifier is None
    &&& e.patient.extension@.len() == 0
    &&& e.insurer matches Some(r)
        && r.reference is None
        && r.extension@.len() == 0
        && (r.identifier matches Some(id)
            && identifier_is(id, CodebookField::PlanCntrctRecId, c.plan_cntrct_rec_id@))
}

/// One supplementary information entry, as (field, source value).
pub open spec fn info_entry_matches(inf: Information, seqno: int, fv: (CodebookField, Seq<char>)) -> bool {
    &&& inf.sequence == seqno
    &&& concept_is_codebook_value(inf.category, fv.0, fv.1)
}

/// The information segment an optional claim field contributes: one entry
/// when the field is present, none when it is absent.
pub open spec fn opt_info(f: CodebookField, v: Option<String>) -> Seq<(CodebookField, Seq<char>)> {
    match v {
        Some(s) => seq![(f, s@)],
        None => seq![],
    }
}

/// The supplementary coded facts of a claim, in the mapper's fixed claim-field
/// order: required fields always appear, optional fields only when present.
pub open spec fn info_fields(c: ClaimRecord) -> Seq<(CodebookField, Seq<char>)> {
    seq![(CodebookField::DawProdSlctnCd, c.daw_prod_slctn_cd@)]
        + opt_info(CodebookField::DspnsngStusCd, c.dspnsng_stus_cd)
        + seq![(CodebookField::DrugCvrgStusCd, c.drug_cvrg_stus_cd@)]
        + opt_info(CodebookField::AdjstmtDltnCd, c.adjstmt_dltn_cd)
        + opt_info(CodebookField::NstdFrmtCd, c.nstd_frmt_cd)
        + opt_info(CodebookField::PrcngExcptnCd, c.prcng_excptn_cd)
        + opt_info(CodebookField::CtstrphcCvrgCd, c.ctstrphc_cvrg_cd)
        + opt_info(CodebookField::RxOrgnCd, c.rx_orgn_cd)
        + opt_info(CodebookField::BrndGnrcCd, c.brnd_gnrc_cd)
        + seq![(CodebookField::PhrmcySrvcTypeCd, c.phrmcy_srvc_type_cd@)]
        + seq![(CodebookField::PtntRsdncCd, c.ptnt_rsdnc_cd@)]
        + opt_info(CodebookField::SubmsnClrCd, c.submsn_clr_cd)
}

/// The information list codes exactly `fields`, with sequence numbers 1..n.
pub open spec fn information_list_matches(s: Seq<Information>, fields: Seq<(CodebookField, Seq<char>)>) -> bool {
    &&& s.len() == fields.len()
    &&& forall|i: int| 0 <= i < s.len() ==> info_entry_matches(#[trigger] s[i], i + 1, fields[i])
}

/// The care-team list: empty for an empty prescriber identifier, otherwise
/// exactly one entry with the "primary" role, linked by NPI.
pub open spec fn care_team_matches(ct: Seq<CareTeam>, c: ClaimRecord) -> bool {
    if c.prscrbr_id@.len() == 0 {
        ct.len() == 0
    } else {
        &&& ct.len() == 1
        &&& ct[0].sequence == 1
        &&& reference_is_npi(ct[0].provider, c.prscrbr_id@)
        &&& concept_is_value_set_code(ct[0].role, ValueSetCode::PrimaryCareRole)
    }
}

/// The single detail: its type concept is present exactly when the compound
/// code is non-zero, and names the invoice group of that compound type.
pub open spec fn detail_matches(d: Detail, cmpnd_cd: u8) -> bool {
    &&& d.sequence == 1
    &&& if cmpnd_cd == 0 {
        d.detail_type is None
    } else if cmpnd_cd == 1 {
        d.detail_type matches Some(t) && concept_is_value_set_code(t, ValueSetCode::RxDispenseInvoice)
    } else {
        cmpnd_cd == 2 && (d.detail_type matches Some(t)
            && concept_is_value_set_code(t, ValueSetCode::RxCompoundInvoice))
    }
}

/// The coverage-status sentinel that selects the covered branch.
pub open spec fn covered_sentinel() -> Seq<char> {
    "C"@
}

/// The drug-payment adjudication: the covered category and amount exactly
/// when the coverage-status code equals the covered sentinel, the
/// not-covered pair for every other value; the coverage-status code itself
/// is the reason.
pub open spec fn drug_payment_adjudication_matches(a: Adjudication, c: ClaimRecord) -> bool {
    &&& a.category matches Some(cat) && (if c.drug_cvrg_stus_cd@ == covered_sentinel() {
        concept_is_adjudication_category(cat, CodebookField::CvrdDPlanPdAmt)
    } else {
        concept_is_adjudication_category(cat, CodebookField::NcvrdPlanPdAmt)
    })
    &&& a.reason matches Some(r)
        && concept_is_codebook_value(r, CodebookField::DrugCvrgStusCd, c.drug_cvrg_stus_cd@)
    &&& a.amount matches Some(m) && money_is(
        m,
        if c.drug_cvrg_stus_cd@ == covered_sentinel() {
            c.cvrd_d_plan_pd_amt
        } else {
            c.ncvrd_plan_pd_amt
        },
    )
}

/// The full adjudication list: the drug-payment entry first, then the seven
/// amount-only adjudications in fixed order.
pub open spec fn adjudications_match(adjs: Seq<Adjudication>, c: ClaimRecord) -> bool {
    &&& adjs.len() == 9
    &&& drug_payment_adjudication_matches(adjs[0], c)
    &&& adjudication_is_amount(adjs[1], CodebookField::GdcBlwOoptAmt, c.gdc_blw_oopt_amt)
    &&& adjudication_is_amount(adjs[2], CodebookField::GdcAbvOoptAmt, c.gdc_abv_oopt_amt)
    &&& adjudication_is_amount(adjs[3], CodebookField::PtntPayAmt, c.ptnt_pay_amt)
    &&& adjudication_is_amount(adjs[4], CodebookField::OthrTroopAmt, c.othr_troop_amt)
    &&& adjudication_is_amount(adjs[5], CodebookField::LicsAmt, c.lics_amt)
    &&& adjudication_is_amount(adjs[6], CodebookField::PlroAmt, c.plro_amt)
    &&& adjudication_is_amount(adjs[7], CodebookField::TotRxCstAmt, c.tot_rx_cst_amt)
    &&& adjudication_is_amount(adjs[8], CodebookField::RptdGapDscntNum, c.rptd_gap_dscnt_num)
}

/// The single line item.
pub open spec fn item_matches(it: Item, c: ClaimRecord) -> bool {
    &&& it.sequence == 1
    &&& if c.prscrbr_id@.len() == 0 {
        it.care_team_link@.len() == 0
    } else {
        it.care_team_link@.len() == 1 && it.care_team_link@[0] == 1
    }
    &&& it.serviced_date == Some(c.srvc_dt)
    &&& it.service matches Some(s) && concept_is(s, ndc_system(), c.prod_srvc_id@, None)
    &&& it.quantity matches Some(q)
        && q.value == c.qty_dspnsd_num
        && q.extension@.len() == 2
        && extension_is_quantity(q.extension@[0], CodebookField::FillNum, c.fill_num)
        && extension_is_quantity(q.extension@[1], CodebookField::DaysSuplyNum, c.days_suply_num)
    &&& adjudications_match(it.adjudication@, c)
    &&& it.detail@.len() == 1 && detail_matches(it.detail@[0], c.cmpnd_cd)
}

/// The whole resource a valid claim maps to. Every field of the resource is
/// fixed as a function of the claim record.
pub open spec fn eob_matches(c: ClaimRecord, e: ExplanationOfBenefit) -> bool {
    &&& header_matches(c, e)
    &&& e.identifier@.len() == 2
    &&& identifier_is(e.identifier@[0], CodebookField::PdeId, c.pde_id@)
    &&& identifier_is(e.identifier@[1], CodebookField::RxSrvcRfrncNum, c.rx_srvc_rfrnc_num@)
    &&& e.insurance matches Some(ins) && (ins.coverage matches Some(cov)
        && cov.extension@.len() == 2
        && extension_is_identifier(cov.extension@[0], CodebookField::PlanCntrctRecId, c.plan_cntrct_rec_id@)
        && extension_is_identifier(cov.extension@[1], CodebookField::PlanPbpRecNum, c.plan_pbp_rec_num@))
    &&& match c.pd_dt {
        Some(d) => e.payment matches Some(p) && p.date == Some(d),
        None => e.payment is None,
    }
    &&& e.organization matches Some(o) && reference_is_npi(o, c.srvc_prvdr_id@)
    &&& e.facility matches Some(fac)
        && fac.reference is None
        && (fac.identifier matches Some(fid)
            && fid.system@ == "http://hl7.org/fhir/sid/us-npi"@
            && fid.value@ == c.srvc_prvdr_id@)
        && fac.extension@.len() == 1
        && extension_is_coding(fac.extension@[0], CodebookField::PhrmcySrvcTypeCd, c.phrmcy_srvc_type_cd@)
    &&& information_list_matches(e.information@, info_fields(c))
    &&& care_team_matches(e.care_team@, c)
    &&& e.item@.len() == 1 && item_matches(e.item@[0], c)
}

// ---------------------------------------------------------------------------
// Executable mapping
// ---------------------------------------------------------------------------

/// Populates the header fields every mapping starts from: identifier,
/// status, patient and insurer references, and resource metadata. Always
/// succeeds structurally; every other part of the resource starts empty.
pub fn map_claim_header_common(claim: &ClaimRecord) -> (e: ExplanationOfBenefit)
    ensures
        header_matches(*claim, e),
        e.identifier@.len() == 1,
        identifier_is(e.identifier@[0], CodebookField::PdeId, claim.pde_id@),
        e.information@.len() == 0,
        e.care_team@.len() == 0,
        e.insurance is None,
        e.payment is None,
        e.organization is None,
        e.facility is None,
        e.item@.len() == 0,
{
    let patient_ref = String::from_str("Patient/").concat(claim.bene_id.as_str());
    let mut identifier: Vec<Identifier> = Vec::new();
    identifier.push(create_identifier(CodebookField::PdeId, &claim.pde_id));
    ExplanationOfBenefit {
        id: claim.pde_id.clone(),
        meta: Some(Meta { last_updated: claim.last_updated }),
        status: String::from_str("active"),
        patient: Reference {
            reference: Some(patient_ref),
            identifier: None,
            extension: Vec::new(),
        },
        insurer: Some(Reference {
            reference: None,
            identifier: Some(create_identifier(
                CodebookField::PlanCntrctRecId,
                &claim.plan_cntrct_rec_id,
            )),
            extension: Vec::new(),
        }),
        organization: None,
        facility: None,
        identifier,
        information: Vec::new(),
        care_team: Vec::new(),
        insurance: None,
        payment: None,
        item: Vec::new(),
    }
}

/// Builds one supplementary information entry for field `f` with the given
/// sequence number.
pub fn create_information_with_code(seqno: usize, f: CodebookField, value: &String) -> (r: Information)
    ensures
        info_entry_matches(r, seqno as int, (f, value@)),
{
    Information { sequence: seqno, category: create_concept_for_codebook_value(f, value) }
}

fn push_info(
    infos: &mut Vec<Information>,
    fields: Ghost<Seq<(CodebookField, Seq<char>)>>,
    f: CodebookField,
    value: &String,
)
    requires
        information_list_matches(old(infos)@, fields@),
        old(infos)@.len() < usize::MAX,
    ensures
        information_list_matches(final(infos)@, fields@ + seq![(f, value@)]),
{
    let seqno = infos.len() + 1;
    infos.push(create_information_with_code(seqno, f, value));
    proof {
        let s = infos@;
        let nf = fields@ + seq![(f, value@)];
        assert forall|i: int| 0 <= i < s.len() implies info_entry_matches(#[trigger] s[i], i + 1, nf[i]) by {
            if i < s.len() - 1 {
                assert(info_entry_matches(s[i], i + 1, fields@[i]));
            }
        }
    }
}

fn push_opt_info(
    infos: &mut Vec<Information>,
    fields: Ghost<Seq<(CodebookField, Seq<char>)>>,
    f: CodebookField,
    value: &Option<String>,
)
    requires
        information_list_matches(old(infos)@, fields@),
        old(infos)@.len() < usize::MAX,
    ensures
        information_list_matches(final(infos)@, fields@ + opt_info(f, *value)),
{
    match value {
        Some(v) => {
            push_info(infos, fields, f, v);
        },
        None => {
            proof {
                assert(fields@ + opt_info(f, *value) =~= fields@);
            }
        },
    }
}

/// Builds the full list of supplementary information entries of a claim, in
/// the mapper's fixed claim-field order.
fn build_information_list(claim: &ClaimRecord) -> (infos: Vec<Information>)
    ensures
        information_list_matches(infos@, info_fields(*claim)),
{
    let mut infos: Vec<Information> = Vec::new();
    let ghost mut fields: Seq<(CodebookField, Seq<char>)> = seq![];
    assert(information_list_matches(infos@, fields));

    push_info(&mut infos, Ghost(fields), CodebookField::DawProdSlctnCd, &claim.daw_prod_slctn_cd);
    proof {
        fields = fields + seq![(CodebookField::DawProdSlctnCd, claim.daw_prod_slctn_cd@)];
    }
    push_opt_info(&mut infos, Ghost(fields), CodebookField::DspnsngStusCd, &claim.dspnsng_stus_cd);
    proof {
        fields = fields + opt_info(CodebookField::DspnsngStusCd, claim.dspnsng_stus_cd);
    }
    push_info(&mut infos, Ghost(fields), CodebookField::DrugCvrgStusCd, &claim.drug_cvrg_stus_cd);
    proof {
        fields = fields + seq![(CodebookField::DrugCvrgStusCd, claim.drug_cvrg_stus_cd@)];
    }
    push_opt_info(&mut infos, Ghost(fields), CodebookField::AdjstmtDltnCd, &claim.adjstmt_dltn_cd);
    proof {
        fields = fields + opt_info(CodebookField::AdjstmtDltnCd, claim.adjstmt_dltn_cd);
    }
    push_opt_info(&mut infos, Ghost(fields), CodebookField::NstdFrmtCd, &claim.nstd_frmt_cd);
    proof {
        fields = fields + opt_info(CodebookField::NstdFrmtCd, claim.nstd_frmt_cd);
    }
    push_opt_info(&mut infos, Ghost(fields), CodebookField::PrcngExcptnCd, &claim.prcng_excptn_cd);
    proof {
        fields = fields + opt_info(CodebookField::PrcngExcptnCd, claim.prcng_excptn_cd);
    }
    push_opt_info(&mut infos, Ghost(fields), CodebookField::CtstrphcCvrgCd, &claim.ctstrphc_cvrg_cd);
    proof {
        fields = fields + opt_info(CodebookField::CtstrphcCvrgCd, claim.ctstrphc_cvrg_cd);
    }
    push_opt_info(&mut infos, Ghost(fields), CodebookField::RxOrgnCd, &claim.rx_orgn_cd);
    proof {
        fields = fields + opt_info(CodebookField::RxOrgnCd, claim.rx_orgn_cd);
    }
    push_opt_info(&mut infos, Ghost(fields), CodebookField::BrndGnrcCd, &claim.brnd_gnrc_cd);
    proof {
        fields = fields + opt_info(CodebookField::BrndGnrcCd, claim.brnd_gnrc_cd);
    }
    // The pharmacy-service-type code appears a second time here, on purpose:
    // once on the facility reference and once as a standalone entry.
    push_info(&mut infos, Ghost(fields), CodebookField::PhrmcySrvcTypeCd, &claim.phrmcy_srvc_type_cd);
    proof {
        fields = fields + seq![(CodebookField::PhrmcySrvcTypeCd, claim.phrmcy_srvc_type_cd@)];
    }
    push_info(&mut infos, Ghost(fields), CodebookField::PtntRsdncCd, &claim.ptnt_rsdnc_cd);
    proof {
        fields = fields + seq![(CodebookField::PtntRsdncCd, claim.ptnt_rsdnc_cd@)];
    }
    push_opt_info(&mut infos, Ghost(fields), CodebookField::SubmsnClrCd, &claim.submsn_clr_cd);
    proof {
        fields = fields + opt_info(CodebookField::SubmsnClrCd, claim.submsn_clr_cd);
        assert(fields =~= info_fields(*claim));
    }
    infos
}

/// Builds the adjudication list of a claim: the drug-payment entry selected
/// by the coverage-status code, then the seven amount-only adjudications.
fn build_adjudications(claim: &ClaimRecord) -> (adjs: Vec<Adjudication>)
    ensures
        adjudications_match(adjs@, *claim),
{
    let covered = claim.drug_cvrg_stus_cd == String::from_str("C");
    let (category, amount) = if covered {
        (
            create_adjudication_category_concept(CodebookField::CvrdDPlanPdAmt),
            create_money_from_decimal(claim.cvrd_d_plan_pd_amt),
        )
    } else {
        (
            create_adjudication_category_concept(CodebookField::NcvrdPlanPdAmt),
            create_money_from_decimal(claim.ncvrd_plan_pd_amt),
        )
    };
    let mut adjudications: Vec<Adjudication> = Vec::new();
    adjudications.push(Adjudication {
        category: Some(category),
        reason: Some(create_concept_for_codebook_value(
            CodebookField::DrugCvrgStusCd,
            &claim.drug_cvrg_stus_cd,
        )),
        amount: Some(amount),
    });
    adjudications.push(create_adjudication_amount(CodebookField::GdcBlwOoptAmt, claim.gdc_blw_oopt_amt));
    adjudications.push(create_adjudication_amount(CodebookField::GdcAbvOoptAmt, claim.gdc_abv_oopt_amt));
    adjudications.push(create_adjudication_amount(CodebookField::PtntPayAmt, claim.ptnt_pay_amt));
    adjudications.push(create_adjudication_amount(CodebookField::OthrTroopAmt, claim.othr_troop_amt));
    adjudications.push(create_adjudication_amount(CodebookField::LicsAmt, claim.lics_amt));
    adjudications.push(create_adjudication_amount(CodebookField::PlroAmt, claim.plro_amt));
    adjudications.push(create_adjudication_amount(CodebookField::TotRxCstAmt, claim.tot_rx_cst_amt));
    adjudications.push(create_adjudication_amount(CodebookField::RptdGapDscntNum, claim.rptd_gap_dscnt_num));
    adjudications
}

/// Resolves the compound code into the single detail, or rejects the claim:
/// an exhaustive match over the three legal values, every other value is an
/// invalid-source-data failure.
fn build_detail(cmpnd_cd: u8) -> (r: Result<Detail, MapError>)
    ensures
        r is Ok <==> (cmpnd_cd == 0 || cmpnd_cd == 1 || cmpnd_cd == 2),
        r matches Ok(d) ==> detail_matches(d, cmpnd_cd),
        r matches Err(e) ==> e matches MapError::InvalidSourceData(m)
            && m@ == "Unsupported 'CMPND_CD' value."@,
{
    match cmpnd_cd {
        0 => Ok(Detail { sequence: 1, detail_type: None }),
        1 => Ok(Detail {
            sequence: 1,
            detail_type: Some(create_concept_for_value_set_code(ValueSetCode::RxDispenseInvoice)),
        }),
        2 => Ok(Detail {
            sequence: 1,
            detail_type: Some(create_concept_for_value_set_code(ValueSetCode::RxCompoundInvoice)),
        }),
        _ => Err(MapError::InvalidSourceData(String::from_str("Unsupported 'CMPND_CD' value."))),
    }
}

/// Transforms one claim record into one standardized resource, or rejects
/// the claim with an invalid-source-data error naming the violated rule.
///
/// Mapping succeeds if and only if the claim is valid: the compound code is
/// one of its three legal values and the prescriber-qualifier code is the
/// single accepted value. On success the resource is fully determined by
/// the claim record, as stated by [`eob_matches`].
#[verifier::rlimit(100)]
#[verifier::spinoff_prover]
pub fn transform_claim_partd(claim: &ClaimRecord) -> (r: Result<ExplanationOfBenefit, MapError>)
    ensures
        r is Ok <==> claim_valid(*claim),
        r matches Ok(e) ==> eob_matches(*claim, e),
        r matches Err(e) ==> error_matches(*claim, e),
{
    let mut eob = map_claim_header_common(claim);
    eob.identifier.push(create_identifier(CodebookField::RxSrvcRfrncNum, &claim.rx_srvc_rfrnc_num));

    // Insurance/coverage metadata from the two plan-identifying fields.
    let mut coverage_extension: Vec<Extension> = Vec::new();
    coverage_extension.push(create_extension_identifier(
        CodebookField::PlanCntrctRecId,
        &claim.plan_cntrct_rec_id,
    ));
    coverage_extension.push(create_extension_identifier(
        CodebookField::PlanPbpRecNum,
        &claim.plan_pbp_rec_num,
    ));
    eob.insurance = Some(Insurance { coverage: Some(Coverage { extension: coverage_extension }) });

    // Payment date, only when the claim has one.
    if let Some(pd_dt) = claim.pd_dt {
        eob.payment = Some(Payment { date: Some(pd_dt) });
    }

    // Organization and facility references from the service provider, with
    // the pharmacy-service-type coding attached to the facility.
    eob.organization = Some(create_reference_to_npi(&claim.srvc_prvdr_id));
    let mut facility = create_reference_to_npi(&claim.srvc_prvdr_id);
    let mut facility_extension: Vec<Extension> = Vec::new();
    facility_extension.push(create_extension_coding(
        CodebookField::PhrmcySrvcTypeCd,
        &claim.phrmcy_srvc_type_cd,
    ));
    facility.extension = facility_extension;
    eob.facility = Some(facility);

    // The supplementary information entries, in fixed claim-field order;
    // optional fields contribute an entry only when present.
    eob.information = build_information_list(claim);

    // The single detail, from the compound code: the mapper's first
    // domain-rule check, failing fast on an out-of-range value.
    let detail = match build_detail(claim.cmpnd_cd) {
        Ok(d) => d,
        Err(e) => {
            return Err(e);
        },
    };

    // The adjudication list: the two-way coverage branch, then the fixed
    // sequence of amount-only adjudications.
    let adjudications = build_adjudications(claim);

    // The prescriber-qualifier code admits exactly one legal value. The
    // accepted value maps to no output field: the validation is kept, the
    // mapping is a known incompleteness of the source schema.
    if !(claim.prscrbr_id_qlfyr_cd == String::from_str("01")) {
        return Err(MapError::InvalidSourceData(String::from_str("Invalid PRSCRBR_ID_QLFYR_CD value.")));
    }

    // A non-empty prescriber identifier adds one care-team entry with the
    // "primary" role, linked from the item.
    let mut care_team_link: Vec<usize> = Vec::new();
    if !claim.prscrbr_id.as_str().is_empty() {
        eob.care_team.push(CareTeam {
            sequence: 1,
            provider: create_reference_to_npi(&claim.prscrbr_id),
            role: create_concept_for_value_set_code(ValueSetCode::PrimaryCareRole),
        });
        care_team_link.push(1);
    }

    // Quantity dispensed, with the fill-number and days-supply quantities
    // attached to it.
    let mut quantity = create_quantity_from_decimal(claim.qty_dspnsd_num);
    let mut quantity_extension: Vec<Extension> = Vec::new();
    quantity_extension.push(create_extension_quantity(CodebookField::FillNum, claim.fill_num));
    quantity_extension.push(create_extension_quantity(CodebookField::DaysSuplyNum, claim.days_suply_num));
    quantity.extension = quantity_extension;

    let mut details: Vec<Detail> = Vec::new();
    details.push(detail);

    let item = Item {
        sequence: 1,
        care_team_link,
        serviced_date: Some(claim.srvc_dt),
        service: Some(create_concept_for_ndc(&claim.prod_srvc_id)),
        quantity: Some(quantity),
        adjudication: adjudications,
        detail: details,
    };
    eob.item.push(item);

    Ok(eob)
}

} // verus!
