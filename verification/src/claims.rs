//! The internal claim record: an immutable, flat row describing a single
//! pharmacy-benefit event. Constructed per request from storage results by
//! the caller; the mapper only reads it.

use vstd::prelude::*;
use crate::types::{Date, Decimal};

verus! {

/// One internal claim record. Required fields are plain values; fields that
/// a claim may lack are `Option`s.
pub struct ClaimRecord {
    /// Stable event identifier.
    pub pde_id: String,
    /// The beneficiary (patient) identifier.
    pub bene_id: String,
    /// Prescription service reference number.
    pub rx_srvc_rfrnc_num: String,
    /// Plan contract identifier.
    pub plan_cntrct_rec_id: String,
    /// Plan benefit package number.
    pub plan_pbp_rec_num: String,
    /// Payment date, when the claim has been paid.
    pub pd_dt: Option<Date>,
    /// Service provider (pharmacy) identifier, an NPI.
    pub srvc_prvdr_id: String,
    /// Pharmacy service type code.
    pub phrmcy_srvc_type_cd: String,
    /// Dispense-as-written product selection code.
    pub daw_prod_slctn_cd: String,
    /// Dispensing status code.
    pub dspnsng_stus_cd: Option<String>,
    /// Drug coverage status code; `"C"` signals full coverage.
    pub drug_cvrg_stus_cd: String,
    /// Adjustment deletion code.
    pub adjstmt_dltn_cd: Option<String>,
    /// Non-standard format code.
    pub nstd_frmt_cd: Option<String>,
    /// Pricing exception code.
    pub prcng_excptn_cd: Option<String>,
    /// Catastrophic coverage code.
    pub ctstrphc_cvrg_cd: Option<String>,
    /// Prescription origination code.
    pub rx_orgn_cd: Option<String>,
    /// Brand-generic code.
    pub brnd_gnrc_cd: Option<String>,
    /// Patient residence code.
    pub ptnt_rsdnc_cd: String,
    /// Submission clarification code.
    pub submsn_clr_cd: Option<String>,
    /// Compound code: 0 (not a compound), 1 or 2 (the two compound types).
    pub cmpnd_cd: u8,
    /// Prescription fill date.
    pub srvc_dt: Date,
    /// Amount paid by the plan when the drug is covered.
    pub cvrd_d_plan_pd_amt: Decimal,
    /// Amount paid by the plan when the drug is not covered.
    pub ncvrd_plan_pd_amt: Decimal,
    /// Gross drug cost below the out-of-pocket threshold.
    pub gdc_blw_oopt_amt: Decimal,
    /// Gross drug cost above the out-of-pocket threshold.
    pub gdc_abv_oopt_amt: Decimal,
    /// Amount paid by the patient.
    pub ptnt_pay_amt: Decimal,
    /// Other true out-of-pocket amount.
    pub othr_troop_amt: Decimal,
    /// Low-income subsidy amount.
    pub lics_amt: Decimal,
    /// Other-payer liability reduction amount.
    pub plro_amt: Decimal,
    /// Total drug cost.
    pub tot_rx_cst_amt: Decimal,
    /// Reported gap discount amount.
    pub rptd_gap_dscnt_num: Decimal,
    /// Prescriber identifier qualifier code; only `"01"` (NPI) is accepted.
    pub prscrbr_id_qlfyr_cd: String,
    /// Prescriber identifier; may be empty.
    pub prscrbr_id: String,
    /// Product/service (drug) identifier, an NDC.
    pub prod_srvc_id: String,
    /// Quantity dispensed.
    pub qty_dspnsd_num: Decimal,
    /// Fill number.
    pub fill_num: Decimal,
    /// Days of supply.
    pub days_suply_num: Decimal,
    /// When the source row was last updated, as milliseconds since the epoch.
    pub last_updated: Option<u64>,
}

} // verus!
