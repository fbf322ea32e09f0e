//! The codebook registry: a static mapping from an internal field identifier
//! to its external coding metadata — coding-system URI, human-readable
//! description and, for enumerated fields, the closed set of legal source
//! codes with their meanings.
//!
//! The registry is pure: `lookup` is total over the field enumeration, and
//! `resolve_enum` fails exactly when the source code is not in the field's
//! legal set.

use vstd::prelude::*;
use vstd::string::StringExecFns;
use crate::types::MapError;
use crate::structures::{Coding, Concept, concept_is};

verus! {

/// The internal claim fields that carry external coding metadata.
#[derive(Clone, Copy, PartialEq, Eq, Structural, Debug)]
pub enum CodebookField {
    PdeId,
    RxSrvcRfrncNum,
    PlanCntrctRecId,
    PlanPbpRecNum,
    PhrmcySrvcTypeCd,
    DawProdSlctnCd,
    DspnsngStusCd,
    DrugCvrgStusCd,
    AdjstmtDltnCd,
    NstdFrmtCd,
    PrcngExcptnCd,
    CtstrphcCvrgCd,
    RxOrgnCd,
    BrndGnrcCd,
    PtntRsdncCd,
    SubmsnClrCd,
    PrscrbrIdQlfyrCd,
    CvrdDPlanPdAmt,
    NcvrdPlanPdAmt,
    GdcBlwOoptAmt,
    GdcAbvOoptAmt,
    PtntPayAmt,
    OthrTroopAmt,
    LicsAmt,
    PlroAmt,
    TotRxCstAmt,
    RptdGapDscntNum,
    FillNum,
    DaysSuplyNum,
}

/// One legal source code of an enumerated field, with its meaning.
pub struct CodeValue {
    pub code: String,
    pub display: String,
}

/// The coding metadata of one field: a stable key, a coding-system URI, a
/// description, and (for enumerated fields) the closed set of legal codes.
pub struct CodebookEntry {
    pub key: String,
    pub system: String,
    pub description: String,
    pub codes: Vec<CodeValue>,
}

/// The stable key of a field.
pub open spec fn field_key(f: CodebookField) -> Seq<char> {
    match f {
        CodebookField::PdeId => "pde_id"@,
        CodebookField::RxSrvcRfrncNum => "rx_srvc_rfrnc_num"@,
        CodebookField::PlanCntrctRecId => "plan_cntrct_rec_id"@,
        CodebookField::PlanPbpRecNum => "plan_pbp_rec_num"@,
        CodebookField::PhrmcySrvcTypeCd => "phrmcy_srvc_type_cd"@,
        CodebookField::DawProdSlctnCd => "daw_prod_slctn_cd"@,
        CodebookField::DspnsngStusCd => "dspnsng_stus_cd"@,
        CodebookField::DrugCvrgStusCd => "drug_cvrg_stus_cd"@,
        CodebookField::AdjstmtDltnCd => "adjstmt_dltn_cd"@,
        CodebookField::NstdFrmtCd => "nstd_frmt_cd"@,
        CodebookField::PrcngExcptnCd => "prcng_excptn_cd"@,
        CodebookField::CtstrphcCvrgCd => "ctstrphc_cvrg_cd"@,
        CodebookField::RxOrgnCd => "rx_orgn_cd"@,
        CodebookField::BrndGnrcCd => "brnd_gnrc_cd"@,
        CodebookField::PtntRsdncCd => "ptnt_rsdnc_cd"@,
        CodebookField::SubmsnClrCd => "submsn_clr_cd"@,
        CodebookField::PrscrbrIdQlfyrCd => "prscrbr_id_qlfyr_cd"@,
        CodebookField::CvrdDPlanPdAmt => "cvrd_d_plan_pd_amt"@,
        CodebookField::NcvrdPlanPdAmt => "ncvrd_plan_pd_amt"@,
        CodebookField::GdcBlwOoptAmt => "gdc_blw_oopt_amt"@,
        CodebookField::GdcAbvOoptAmt => "gdc_abv_oopt_amt"@,
        CodebookField::PtntPayAmt => "ptnt_pay_amt"@,
        CodebookField::OthrTroopAmt => "othr_troop_amt"@,
        CodebookField::LicsAmt => "lics_amt"@,
        CodebookField::PlroAmt => "plro_amt"@,
        CodebookField::TotRxCstAmt => "tot_rx_cst_amt"@,
        CodebookField::RptdGapDscntNum => "rptd_gap_dscnt_num"@,
        CodebookField::FillNum => "fill_num"@,
        CodebookField::DaysSuplyNum => "days_suply_num"@,
    }
}

/// The coding-system URI of a field: a fixed base followed by the key.
pub open spec fn field_system(f: CodebookField) -> Seq<char> {
    "https://bluebutton.cms.gov/resources/variables/"@ + field_key(f)
}

/// The human-readable description of a field.
pub open spec fn field_description(f: CodebookField) -> Seq<char> {
    match f {
        CodebookField::PdeId => "CCW Encrypted Part D Event Number"@,
        CodebookField::RxSrvcRfrncNum => "RX Service Reference Number"@,
        CodebookField::PlanCntrctRecId => "Plan Contract ID"@,
        CodebookField::PlanPbpRecNum => "Plan Benefit Package ID"@,
        CodebookField::PhrmcySrvcTypeCd => "Pharmacy service type code"@,
        CodebookField::DawProdSlctnCd => "Dispense as Written Product Selection Code"@,
        CodebookField::DspnsngStusCd => "Dispensing Status Code"@,
        CodebookField::DrugCvrgStusCd => "Drug Coverage Status Code"@,
        CodebookField::AdjstmtDltnCd => "Adjustment Deletion Code"@,
        CodebookField::NstdFrmtCd => "Non-Standard Format Code"@,
        CodebookField::PrcngExcptnCd => "Pricing Exception Code"@,
        CodebookField::CtstrphcCvrgCd => "Catastrophic Coverage Code"@,
        CodebookField::RxOrgnCd => "Prescription Origination Code"@,
        CodebookField::BrndGnrcCd => "Brand-Generic Code Reported by Submitting Plan"@,
        CodebookField::PtntRsdncCd => "Patient Residence Code"@,
        CodebookField::SubmsnClrCd => "Submission Clarification Code"@,
        CodebookField::PrscrbrIdQlfyrCd => "Prescriber ID Qualifier Code"@,
        CodebookField::CvrdDPlanPdAmt => "Amount paid by Part D plan for the PDE (drug is covered by Part D)"@,
        CodebookField::NcvrdPlanPdAmt => "Amount paid by Part D plan for the PDE (drug is not covered by Part D)"@,
        CodebookField::GdcBlwOoptAmt => "Gross Drug Cost Below Part D Out-of-Pocket Threshold"@,
        CodebookField::GdcAbvOoptAmt => "Gross Drug Cost Above Part D Out-of-Pocket Threshold"@,
        CodebookField::PtntPayAmt => "Amount Paid by Patient"@,
        CodebookField::OthrTroopAmt => "Other True Out-of-Pocket (TrOOP) Amount"@,
        CodebookField::LicsAmt => "Amount paid for the PDE by Part D low income subsidy"@,
        CodebookField::PlroAmt => "Reduction in patient liability due to payments by other payers (PLRO)"@,
        CodebookField::TotRxCstAmt => "Total drug cost (Part D)"@,
        CodebookField::RptdGapDscntNum => "Gap Discount Amount"@,
        CodebookField::FillNum => "Number of drug fills"@,
        CodebookField::DaysSuplyNum => "Days Supply"@,
    }
}

/// The closed set of legal codes of an enumerated field, as
/// (code, meaning) pairs; empty for fields that are not enumerated locally.
pub open spec fn field_codes(f: CodebookField) -> Seq<(Seq<char>, Seq<char>)> {
    match f {
        CodebookField::PhrmcySrvcTypeCd => seq![
            ("01"@, "Community/retail pharmacy"@),
            ("04"@, "Long-term care pharmacy"@),
            ("06"@, "Mail order pharmacy"@),
            ("99"@, "Other"@),
        ],
        CodebookField::DawProdSlctnCd => seq![
            ("0"@, "No Product Selection Indicated"@),
            ("1"@, "Substitution Not Allowed by Prescriber"@),
            ("2"@, "Substitution Allowed - Patient Requested"@),
        ],
        CodebookField::DspnsngStusCd => seq![
            ("P"@, "Partial fill"@),
            ("C"@, "Completion of partial fill"@),
        ],
        CodebookField::DrugCvrgStusCd => seq![
            ("C"@, "Covered"@),
            ("E"@, "Supplemental drugs (reported by plans that provide Enhanced coverage)"@),
            ("O"@, "Over-the-counter drugs"@),
        ],
        CodebookField::AdjstmtDltnCd => seq![
            ("A"@, "Adjustment"@),
            ("D"@, "Deletion"@),
            ("R"@, "Resubmitted"@),
        ],
        CodebookField::NstdFrmtCd => seq![
            ("X"@, "X12 837"@),
            ("B"@, "Beneficiary submitted claim"@),
            ("P"@, "Paper claim from provider"@),
        ],
        CodebookField::PrcngExcptnCd => seq![
            ("M"@, "Medicare is a secondary payer (MSP)"@),
            ("O"@, "Out of network pharmacy"@),
        ],
        CodebookField::CtstrphcCvrgCd => seq![
            ("A"@, "Attachment point met on this event"@),
            ("C"@, "Above attachment point"@),
        ],
        CodebookField::RxOrgnCd => seq![
            ("0"@, "Not specified"@),
            ("1"@, "Written"@),
            ("2"@, "Telephone"@),
            ("3"@, "Electronic"@),
            ("4"@, "Facsimile"@),
        ],
        CodebookField::BrndGnrcCd => seq![
            ("B"@, "Brand"@),
            ("G"@, "Generic Null/missing"@),
        ],
        CodebookField::PtntRsdncCd => seq![
            ("00"@, "Not specified, other patient residence not identified below"@),
            ("01"@, "Home"@),
            ("02"@, "Skilled Nursing Facility"@),
        ],
        CodebookField::SubmsnClrCd => seq![
            ("00"@, "Not specified"@),
            ("05"@, "Therapy change"@),
            ("08"@, "Process compound for approved ingredients"@),
        ],
        CodebookField::PrscrbrIdQlfyrCd => seq![
            ("01"@, "National Provider Identifier (NPI)"@),
        ],
        _ => seq![],
    }
}

/// An entry's contents, as the registry contracts speak of them.
pub open spec fn entry_matches(e: CodebookEntry, f: CodebookField) -> bool {
    &&& e.key@ == field_key(f)
    &&& e.system@ == field_system(f)
    &&& e.description@ == field_description(f)
    &&& e.codes@.len() == field_codes(f).len()
    &&& forall|i: int| 0 <= i < e.codes@.len()
        ==> (#[trigger] e.codes@[i]).code@ == field_codes(f)[i].0
            && e.codes@[i].display@ == field_codes(f)[i].1
}

/// Whether `code` is in the field's legal set, paired with its meaning.
pub open spec fn display_in(codes: Seq<(Seq<char>, Seq<char>)>, code: Seq<char>) -> Option<Seq<char>>
    decreases codes.len(),
{
    if codes.len() == 0 {
        None
    } else if codes[0].0 == code {
        Some(codes[0].1)
    } else {
        display_in(codes.drop_first(), code)
    }
}

/// The meaning of `code` in field `f`'s legal set, `None` when the code is
/// not legal for that field.
pub open spec fn field_code_display(f: CodebookField, code: Seq<char>) -> Option<Seq<char>> {
    display_in(field_codes(f), code)
}

/// The views of a list of legal codes, as the spec-level list of pairs.
pub open spec fn codes_view(s: Seq<CodeValue>) -> Seq<(Seq<char>, Seq<char>)> {
    s.map_values(|c: CodeValue| (c.code@, c.display@))
}

fn cv(code: &str, display: &str) -> (r: CodeValue)
    ensures
        r.code@ == code@,
        r.display@ == display@,
{
    CodeValue { code: code.to_owned(), display: display.to_owned() }
}

fn entry(key: &str, description: &str, codes: Vec<CodeValue>) -> (r: CodebookEntry)
    ensures
        r.key@ == key@,
        r.system@ == "https://bluebutton.cms.gov/resources/variables/"@ + key@,
        r.description@ == description@,
        r.codes == codes,
{
    let system = String::from_str("https://bluebutton.cms.gov/resources/variables/").concat(key);
    CodebookEntry {
        key: key.to_owned(),
        system,
        description: description.to_owned(),
        codes,
    }
}

/// Retrieves the coding metadata of one field. Total: every field of the
/// enumeration has an entry, so lookup never fails at runtime.
pub fn lookup(f: CodebookField) -> (r: CodebookEntry)
    ensures
        entry_matches(r, f),
{
    match f {
        CodebookField::PdeId => {
            let codes: Vec<CodeValue> = Vec::new();
            let r = entry("pde_id", "CCW Encrypted Part D Event Number", codes);
            assert(entry_matches(r, f));
            r
        },
        CodebookField::RxSrvcRfrncNum => {
            let codes: Vec<CodeValue> = Vec::new();
            let r = entry("rx_srvc_rfrnc_num", "RX Service Reference Number", codes);
            assert(entry_matches(r, f));
            r
        },
        CodebookField::PlanCntrctRecId => {
            let codes: Vec<CodeValue> = Vec::new();
            let r = entry("plan_cntrct_rec_id", "Plan Contract ID", codes);
            assert(entry_matches(r, f));
            r
        },
        CodebookField::PlanPbpRecNum => {
            let codes: Vec<CodeValue> = Vec::new();
            let r = entry("plan_pbp_rec_num", "Plan Benefit Package ID", codes);
            assert(entry_matches(r, f));
            r
        },
        CodebookField::PhrmcySrvcTypeCd => {
            let mut codes: Vec<CodeValue> = Vec::new();
            codes.push(cv("01", "Community/retail pharmacy"));
            codes.push(cv("04", "Long-term care pharmacy"));
            codes.push(cv("06", "Mail order pharmacy"));
            codes.push(cv("99", "Other"));
            let r = entry("phrmcy_srvc_type_cd", "Pharmacy service type code", codes);
            assert(entry_matches(r, f));
            r
        },
        CodebookField::DawProdSlctnCd => {
            let mut codes: Vec<CodeValue> = Vec::new();
            codes.push(cv("0", "No Product Selection Indicated"));
            codes.push(cv("1", "Substitution Not Allowed by Prescriber"));
            codes.push(cv("2", "Substitution Allowed - Patient Requested"));
            let r = entry("daw_prod_slctn_cd", "Dispense as Written Product Selection Code", codes);
            assert(entry_matches(r, f));
            r
        },
        CodebookField::DspnsngStusCd => {
            let mut codes: Vec<CodeValue> = Vec::new();
            codes.push(cv("P", "Partial fill"));
            codes.push(cv("C", "Completion of partial fill"));
            let r = entry("dspnsng_stus_cd", "Dispensing Status Code", codes);
            assert(entry_matches(r, f));
            r
        },
        CodebookField::DrugCvrgStusCd => {
            let mut codes: Vec<CodeValue> = Vec::new();
            codes.push(cv("C", "Covered"));
            codes.push(cv("E", "Supplemental drugs (reported by plans that provide Enhanced coverage)"));
            codes.push(cv("O", "Over-the-counter drugs"));
            let r = entry("drug_cvrg_stus_cd", "Drug Coverage Status Code", codes);
            assert(entry_matches(r, f));
            r
        },
        CodebookField::AdjstmtDltnCd => {
            let mut codes: Vec<CodeValue> = Vec::new();
            codes.push(cv("A", "Adjustment"));
            codes.push(cv("D", "Deletion"));
            codes.push(cv("R", "Resubmitted"));
            let r = entry("adjstmt_dltn_cd", "Adjustment Deletion Code", codes);
            assert(entry_matches(r, f));
            r
        },
        CodebookField::NstdFrmtCd => {
            let mut codes: Vec<CodeValue> = Vec::new();
            codes.push(cv("X", "X12 837"));
            codes.push(cv("B", "Beneficiary submitted claim"));
            codes.push(cv("P", "Paper claim from provider"));
            let r = entry("nstd_frmt_cd", "Non-Standard Format Code", codes);
            assert(entry_matches(r, f));
            r
        },
        CodebookField::PrcngExcptnCd => {
            let mut codes: Vec<CodeValue> = Vec::new();
            codes.push(cv("M", "Medicare is a secondary payer (MSP)"));
            codes.push(cv("O", "Out of network pharmacy"));
            let r = entry("prcng_excptn_cd", "Pricing Exception Code", codes);
            assert(entry_matches(r, f));
            r
        },
        CodebookField::CtstrphcCvrgCd => {
            let mut codes: Vec<CodeValue> = Vec::new();
            codes.push(cv("A", "Attachment point met on this event"));
            codes.push(cv("C", "Above attachment point"));
            let r = entry("ctstrphc_cvrg_cd", "Catastrophic Coverage Code", codes);
            assert(entry_matches(r, f));
            r
        },
        CodebookField::RxOrgnCd => {
            let mut codes: Vec<CodeValue> = Vec::new();
            codes.push(cv("0", "Not specified"));
            codes.push(cv("1", "Written"));
            codes.push(cv("2", "Telephone"));
            codes.push(cv("3", "Electronic"));
            codes.push(cv("4", "Facsimile"));
            let r = entry("rx_orgn_cd", "Prescription Origination Code", codes);
            assert(entry_matches(r, f));
            r
        },
        CodebookField::BrndGnrcCd => {
            let mut codes: Vec<CodeValue> = Vec::new();
            codes.push(cv("B", "Brand"));
            codes.push(cv("G", "Generic Null/missing"));
            let r = entry("brnd_gnrc_cd", "Brand-Generic Code Reported by Submitting Plan", codes);
            assert(entry_matches(r, f));
            r
        },
        CodebookField::PtntRsdncCd => {
            let mut codes: Vec<CodeValue> = Vec::new();
            codes.push(cv("00", "Not specified, other patient residence not identified below"));
            codes.push(cv("01", "Home"));
            codes.push(cv("02", "Skilled Nursing Facility"));
            let r = entry("ptnt_rsdnc_cd", "Patient Residence Code", codes);
            assert(entry_matches(r, f));
            r
        },
        CodebookField::SubmsnClrCd => {
            let mut codes: Vec<CodeValue> = Vec::new();
            codes.push(cv("00", "Not specified"));
            codes.push(cv("05", "Therapy change"));
            codes.push(cv("08", "Process compound for approved ingredients"));
            let r = entry("submsn_clr_cd", "Submission Clarification Code", codes);
            assert(entry_matches(r, f));
            r
        },
        CodebookField::PrscrbrIdQlfyrCd => {
            let mut codes: Vec<CodeValue> = Vec::new();
            codes.push(cv("01", "National Provider Identifier (NPI)"));
            let r = entry("prscrbr_id_qlfyr_cd", "Prescriber ID Qualifier Code", codes);
            assert(entry_matches(r, f));
            r
        },
        CodebookField::CvrdDPlanPdAmt => {
            let codes: Vec<CodeValue> = Vec::new();
            let r = entry("cvrd_d_plan_pd_amt", "Amount paid by Part D plan for the PDE (drug is covered by Part D)", codes);
            assert(entry_matches(r, f));
            r
        },
        CodebookField::NcvrdPlanPdAmt => {
            let codes: Vec<CodeValue> = Vec::new();
            let r = entry("ncvrd_plan_pd_amt", "Amount paid by Part D plan for the PDE (drug is not covered by Part D)", codes);
            assert(entry_matches(r, f));
            r
        },
        CodebookField::GdcBlwOoptAmt => {
            let codes: Vec<CodeValue> = Vec::new();
            let r = entry("gdc_blw_oopt_amt", "Gross Drug Cost Below Part D Out-of-Pocket Threshold", codes);
            assert(entry_matches(r, f));
            r
        },
        CodebookField::GdcAbvOoptAmt => {
            let codes: Vec<CodeValue> = Vec::new();
            let r = entry("gdc_abv_oopt_amt", "Gross Drug Cost Above Part D Out-of-Pocket Threshold", codes);
            assert(entry_matches(r, f));
            r
        },
        CodebookField::PtntPayAmt => {
            let codes: Vec<CodeValue> = Vec::new();
            let r = entry("ptnt_pay_amt", "Amount Paid by Patient", codes);
            assert(entry_matches(r, f));
            r
        },
        CodebookField::OthrTroopAmt => {
            let codes: Vec<CodeValue> = Vec::new();
            let r = entry("othr_troop_amt", "Other True Out-of-Pocket (TrOOP) Amount", codes);
            assert(entry_matches(r, f));
            r
        },
        CodebookField::LicsAmt => {
            let codes: Vec<CodeValue> = Vec::new();
            let r = entry("lics_amt", "Amount paid for the PDE by Part D low income subsidy", codes);
            assert(entry_matches(r, f));
            r
        },
        CodebookField::PlroAmt => {
            let codes: Vec<CodeValue> = Vec::new();
            let r = entry("plro_amt", "Reduction in patient liability due to payments by other payers (PLRO)", codes);
            assert(entry_matches(r, f));
            r
        },
        CodebookField::TotRxCstAmt => {
            let codes: Vec<CodeValue> = Vec::new();
            let r = entry("tot_rx_cst_amt", "Total drug cost (Part D)", codes);
            assert(entry_matches(r, f));
            r
        },
        CodebookField::RptdGapDscntNum => {
            let codes: Vec<CodeValue> = Vec::new();
            let r = entry("rptd_gap_dscnt_num", "Gap Discount Amount", codes);
            assert(entry_matches(r, f));
            r
        },
        CodebookField::FillNum => {
            let codes: Vec<CodeValue> = Vec::new();
            let r = entry("fill_num", "Number of drug fills", codes);
            assert(entry_matches(r, f));
            r
        },
        CodebookField::DaysSuplyNum => {
            let codes: Vec<CodeValue> = Vec::new();
            let r = entry("days_suply_num", "Days Supply", codes);
            assert(entry_matches(r, f));
            r
        },
    }
}

proof fn lemma_display_in_found(codes: Seq<(Seq<char>, Seq<char>)>, code: Seq<char>, i: int)
    requires
        0 <= i < codes.len(),
        forall|j: int| 0 <= j < i ==> (#[trigger] codes[j]).0 != code,
        codes[i].0 == code,
    ensures
        display_in(codes, code) == Some(codes[i].1),
    decreases i,
{
    if i > 0 {
        lemma_display_in_found(codes.drop_first(), code, i - 1);
    }
}

proof fn lemma_display_in_none(codes: Seq<(Seq<char>, Seq<char>)>, code: Seq<char>)
    requires
        forall|j: int| 0 <= j < codes.len() ==> (#[trigger] codes[j]).0 != code,
    ensures
        display_in(codes, code) is None,
    decreases codes.len(),
{
    if codes.len() > 0 {
        lemma_display_in_none(codes.drop_first(), code);
    }
}

/// Looks `code` up in field `f`'s legal set and returns its meaning, or
/// `None` when the code is not legal for that field.
pub fn find_code_display(f: CodebookField, code: &String) -> (r: Option<String>)
    ensures
        match r {
            Some(d) => field_code_display(f, code@) matches Some(sd) && sd == d@,
            None => field_code_display(f, code@) is None,
        },
{
    let e = lookup(f);
    let n = e.codes.len();
    let mut i: usize = 0;
    while i < n
        invariant
            n == e.codes@.len(),
            0 <= i <= n,
            entry_matches(e, f),
            forall|j: int| 0 <= j < i ==> field_codes(f)[j].0 != code@,
        decreases n - i,
    {
        if e.codes[i].code == *code {
            proof {
                lemma_display_in_found(field_codes(f), code@, i as int);
            }
            return Some(e.codes[i].display.clone());
        }
        i += 1;
    }
    proof {
        lemma_display_in_none(field_codes(f), code@);
    }
    None
}

/// Resolves an enumerated source code into a coded concept, failing with an
/// invalid-source-data error exactly when the code is not in field `f`'s
/// legal set.
pub fn resolve_enum(f: CodebookField, code: &String) -> (r: Result<Concept, MapError>)
    ensures
        r is Ok <==> field_code_display(f, code@) is Some,
        r matches Ok(c) ==> concept_is(c, field_system(f), code@, field_code_display(f, code@)),
        r matches Err(e) ==> e matches MapError::InvalidSourceData(m)
            && m@ == "Invalid value for field "@ + field_key(f),
{
    let e = lookup(f);
    match find_code_display(f, code) {
        Some(d) => {
            let mut coding: Vec<Coding> = Vec::new();
            coding.push(Coding { system: e.system, code: code.clone(), display: Some(d) });
            Ok(Concept { coding })
        },
        None => {
            let msg = String::from_str("Invalid value for field ").concat(e.key.as_str());
            Err(MapError::InvalidSourceData(msg))
        },
    }
}

} // verus!

