//! Tests of the bundle assembler: counts, order, aggregate metadata, the
//! batch failure policy, and the empty-batch convention.

use eob_mapper::claims::ClaimRecord;
use eob_mapper::bundle::transform_claims_partd;
use eob_mapper::structures::Bundle;
use eob_mapper::types::{Date, Decimal, MapError};

fn dec(unscaled: i64, scale: u32) -> Decimal {
    Decimal { unscaled, scale }
}

fn claim(pde_id: &str, last_updated: Option<u64>) -> ClaimRecord {
    ClaimRecord {
        pde_id: String::from(pde_id),
        bene_id: String::from("567834"),
        rx_srvc_rfrnc_num: String::from("799999"),
        plan_cntrct_rec_id: String::from("H9999"),
        plan_pbp_rec_num: String::from("020"),
        pd_dt: None,
        srvc_prvdr_id: String::from("1023011079"),
        phrmcy_srvc_type_cd: String::from("01"),
        daw_prod_slctn_cd: String::from("0"),
        dspnsng_stus_cd: None,
        drug_cvrg_stus_cd: String::from("C"),
        adjstmt_dltn_cd: None,
        nstd_frmt_cd: None,
        prcng_excptn_cd: None,
        ctstrphc_cvrg_cd: None,
        rx_orgn_cd: None,
        brnd_gnrc_cd: None,
        ptnt_rsdnc_cd: String::from("02"),
        submsn_clr_cd: None,
        cmpnd_cd: 0,
        srvc_dt: Date { year: 2015, month: 5, day: 12 },
        cvrd_d_plan_pd_amt: dec(100, 2),
        ncvrd_plan_pd_amt: dec(0, 2),
        gdc_blw_oopt_amt: dec(0, 2),
        gdc_abv_oopt_amt: dec(0, 2),
        ptnt_pay_amt: dec(0, 2),
        othr_troop_amt: dec(0, 2),
        lics_amt: dec(0, 2),
        plro_amt: dec(0, 2),
        tot_rx_cst_amt: dec(0, 2),
        rptd_gap_dscnt_num: dec(0, 2),
        prscrbr_id_qlfyr_cd: String::from("01"),
        prscrbr_id: String::new(),
        prod_srvc_id: String::from("49884009902"),
        qty_dspnsd_num: dec(30, 0),
        fill_num: dec(1, 0),
        days_suply_num: dec(30, 0),
        last_updated,
    }
}

fn assemble_ok(claims: Vec<ClaimRecord>) -> Bundle {
    match transform_claims_partd(claims) {
        Ok(b) => b,
        Err(_) => panic!("expected the batch to assemble"),
    }
}

#[test]
fn three_valid_claims_give_total_three_in_input_order() {
    let claims = vec![
        claim("pde-1", Some(10)),
        claim("pde-2", Some(30)),
        claim("pde-3", Some(20)),
    ];
    let bundle = assemble_ok(claims);
    assert_eq!(bundle.total, 3);
    assert_eq!(bundle.entry.len(), 3);
    assert_eq!(bundle.entry[0].resource.id, "pde-1");
    assert_eq!(bundle.entry[1].resource.id, "pde-2");
    assert_eq!(bundle.entry[2].resource.id, "pde-3");
}

#[test]
fn bundle_metadata_is_searchset_with_self_link() {
    let bundle = assemble_ok(vec![claim("pde-1", Some(10))]);
    assert_eq!(bundle.bundle_type, "searchset");
    assert_eq!(bundle.link.len(), 1);
    assert_eq!(bundle.link[0].relation, "self");
    assert_eq!(bundle.link[0].url, "/v1/fhir/ExplanationOfBenefit");
}

#[test]
fn aggregate_last_updated_is_the_maximum() {
    let bundle = assemble_ok(vec![
        claim("pde-1", Some(10)),
        claim("pde-2", None),
        claim("pde-3", Some(90)),
        claim("pde-4", Some(40)),
    ]);
    assert_eq!(bundle.meta.unwrap().last_updated, Some(90));
}

#[test]
fn empty_batch_gives_empty_bundle_without_timestamp() {
    let bundle = assemble_ok(Vec::new());
    assert_eq!(bundle.total, 0);
    assert_eq!(bundle.entry.len(), 0);
    assert_eq!(bundle.meta.unwrap().last_updated, None);
}

#[test]
fn first_invalid_claim_aborts_the_whole_batch() {
    let mut second = claim("pde-2", Some(20));
    second.cmpnd_cd = 9;
    let claims = vec![claim("pde-1", Some(10)), second, claim("pde-3", Some(30))];
    match transform_claims_partd(claims) {
        Err(MapError::InvalidSourceData(msg)) => {
            assert_eq!(msg, "Unsupported 'CMPND_CD' value.");
        }
        _ => panic!("expected the batch to be rejected"),
    }
}
