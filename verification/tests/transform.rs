//! End-to-end tests of the claim mapper: success and failure surfaces, the
//! compound-code branch, the coverage branch, the care-team rule, and
//! idempotence on concrete claims.

use eob_mapper::claims::ClaimRecord;
use eob_mapper::mapper::transform_claim_partd;
use eob_mapper::structures::ExplanationOfBenefit;
use eob_mapper::types::{Date, Decimal, MapError};

fn dec(unscaled: i64, scale: u32) -> Decimal {
    Decimal { unscaled, scale }
}

fn sample_claim() -> ClaimRecord {
    ClaimRecord {
        pde_id: String::from("pde-1001"),
        bene_id: String::from("567834"),
        rx_srvc_rfrnc_num: String::from("799999"),
        plan_cntrct_rec_id: String::from("H9999"),
        plan_pbp_rec_num: String::from("020"),
        pd_dt: Some(Date { year: 2015, month: 5, day: 27 }),
        srvc_prvdr_id: String::from("1023011079"),
        phrmcy_srvc_type_cd: String::from("01"),
        daw_prod_slctn_cd: String::from("0"),
        dspnsng_stus_cd: None,
        drug_cvrg_stus_cd: String::from("C"),
        adjstmt_dltn_cd: None,
        nstd_frmt_cd: None,
        prcng_excptn_cd: None,
        ctstrphc_cvrg_cd: None,
        rx_orgn_cd: Some(String::from("3")),
        brnd_gnrc_cd: Some(String::from("G")),
        ptnt_rsdnc_cd: String::from("02"),
        submsn_clr_cd: Some(String::from("08")),
        cmpnd_cd: 0,
        srvc_dt: Date { year: 2015, month: 5, day: 12 },
        cvrd_d_plan_pd_amt: dec(12689, 3),
        ncvrd_plan_pd_amt: dec(0, 2),
        gdc_blw_oopt_amt: dec(99534, 2),
        gdc_abv_oopt_amt: dec(1525, 2),
        ptnt_pay_amt: dec(23558, 2),
        othr_troop_amt: dec(0, 2),
        lics_amt: dec(12245, 2),
        plro_amt: dec(0, 2),
        tot_rx_cst_amt: dec(55000, 2),
        rptd_gap_dscnt_num: dec(0, 2),
        prscrbr_id_qlfyr_cd: String::from("01"),
        prscrbr_id: String::from("1750384806"),
        prod_srvc_id: String::from("49884009902"),
        qty_dspnsd_num: dec(60, 0),
        fill_num: dec(3, 0),
        days_suply_num: dec(30, 0),
        last_updated: Some(1_500_000_000_000),
    }
}

fn map_ok(claim: &ClaimRecord) -> ExplanationOfBenefit {
    match transform_claim_partd(claim) {
        Ok(eob) => eob,
        Err(_) => panic!("expected the claim to map"),
    }
}

#[test]
fn maps_header_fields() {
    let eob = map_ok(&sample_claim());
    assert_eq!(eob.id, "pde-1001");
    assert_eq!(eob.status, "active");
    assert_eq!(eob.patient.reference.as_deref(), Some("Patient/567834"));
    assert_eq!(eob.meta.unwrap().last_updated, Some(1_500_000_000_000));
    assert_eq!(eob.identifier.len(), 2);
    assert_eq!(
        eob.identifier[0].system,
        "https://bluebutton.cms.gov/resources/variables/pde_id"
    );
    assert_eq!(eob.identifier[0].value, "pde-1001");
    assert_eq!(
        eob.identifier[1].system,
        "https://bluebutton.cms.gov/resources/variables/rx_srvc_rfrnc_num"
    );
    assert_eq!(eob.identifier[1].value, "799999");
}

#[test]
fn maps_exactly_one_item_and_detail() {
    let eob = map_ok(&sample_claim());
    assert_eq!(eob.item.len(), 1);
    assert_eq!(eob.item[0].sequence, 1);
    assert_eq!(eob.item[0].detail.len(), 1);
    assert_eq!(
        eob.item[0].serviced_date,
        Some(Date { year: 2015, month: 5, day: 12 })
    );
}

#[test]
fn compound_code_zero_has_no_detail_type() {
    let eob = map_ok(&sample_claim());
    assert!(eob.item[0].detail[0].detail_type.is_none());
}

#[test]
fn compound_code_one_yields_dispense_invoice() {
    let mut claim = sample_claim();
    claim.cmpnd_cd = 1;
    let eob = map_ok(&claim);
    let concept = eob.item[0].detail[0].detail_type.as_ref().unwrap();
    assert_eq!(concept.coding.len(), 1);
    assert_eq!(concept.coding[0].system, "http://hl7.org/fhir/v3/ActCode");
    assert_eq!(concept.coding[0].code, "RXDINV");
}

#[test]
fn compound_code_two_yields_compound_invoice() {
    let mut claim = sample_claim();
    claim.cmpnd_cd = 2;
    let eob = map_ok(&claim);
    let concept = eob.item[0].detail[0].detail_type.as_ref().unwrap();
    assert_eq!(concept.coding[0].code, "RXCINV");
}

#[test]
fn compound_code_out_of_range_fails() {
    let mut claim = sample_claim();
    claim.cmpnd_cd = 3;
    match transform_claim_partd(&claim) {
        Err(MapError::InvalidSourceData(msg)) => {
            assert_eq!(msg, "Unsupported 'CMPND_CD' value.");
        }
        _ => panic!("expected an invalid-source-data failure"),
    }
}

#[test]
fn prescriber_qualifier_other_than_npi_fails() {
    let mut claim = sample_claim();
    claim.prscrbr_id_qlfyr_cd = String::from("06");
    match transform_claim_partd(&claim) {
        Err(MapError::InvalidSourceData(msg)) => {
            assert_eq!(msg, "Invalid PRSCRBR_ID_QLFYR_CD value.");
        }
        _ => panic!("expected an invalid-source-data failure"),
    }
}

#[test]
fn covered_claim_gets_covered_adjudication() {
    // Coverage status "C" with a covered amount of 12.34.
    let mut claim = sample_claim();
    claim.drug_cvrg_stus_cd = String::from("C");
    claim.cvrd_d_plan_pd_amt = dec(1234, 2);
    let eob = map_ok(&claim);
    let adjs = &eob.item[0].adjudication;
    assert_eq!(adjs.len(), 9);
    let first = &adjs[0];
    let category = first.category.as_ref().unwrap();
    assert_eq!(category.coding[0].code, "cvrd_d_plan_pd_amt");
    let amount = first.amount.as_ref().unwrap();
    assert_eq!(amount.value, dec(1234, 2));
    assert_eq!(amount.currency, "USD");
    // No not-covered-amount adjudication anywhere in the list.
    for a in adjs.iter() {
        if let Some(cat) = &a.category {
            assert_ne!(cat.coding[0].code, "ncvrd_plan_pd_amt");
        }
    }
    // The reason carries the coverage-status code itself.
    let reason = first.reason.as_ref().unwrap();
    assert_eq!(reason.coding[0].code, "C");
    assert_eq!(reason.coding[0].display.as_deref(), Some("Covered"));
}

#[test]
fn unknown_coverage_status_routes_to_not_covered_without_failure() {
    // Any value other than "C" selects the not-covered branch; it is a
    // two-way branch, not an enumerated validation.
    let mut claim = sample_claim();
    claim.drug_cvrg_stus_cd = String::from("Z");
    claim.ncvrd_plan_pd_amt = dec(777, 2);
    let eob = map_ok(&claim);
    let first = &eob.item[0].adjudication[0];
    let category = first.category.as_ref().unwrap();
    assert_eq!(category.coding[0].code, "ncvrd_plan_pd_amt");
    assert_eq!(first.amount.as_ref().unwrap().value, dec(777, 2));
    // "Z" is not in the legal set, so the reason has no display text.
    let reason = first.reason.as_ref().unwrap();
    assert_eq!(reason.coding[0].code, "Z");
    assert!(reason.coding[0].display.is_none());
}

#[test]
fn misc_adjudication_amounts_in_fixed_order() {
    let claim = sample_claim();
    let eob = map_ok(&claim);
    let adjs = &eob.item[0].adjudication;
    let expected = [
        ("gdc_blw_oopt_amt", dec(99534, 2)),
        ("gdc_abv_oopt_amt", dec(1525, 2)),
        ("ptnt_pay_amt", dec(23558, 2)),
        ("othr_troop_amt", dec(0, 2)),
        ("lics_amt", dec(12245, 2)),
        ("plro_amt", dec(0, 2)),
        ("tot_rx_cst_amt", dec(55000, 2)),
        ("rptd_gap_dscnt_num", dec(0, 2)),
    ];
    for (k, (code, value)) in expected.iter().enumerate() {
        let a = &adjs[k + 1];
        assert_eq!(&a.category.as_ref().unwrap().coding[0].code, code);
        assert_eq!(a.amount.as_ref().unwrap().value, *value);
        assert!(a.reason.is_none());
    }
}

#[test]
fn empty_prescriber_adds_no_care_team() {
    let mut claim = sample_claim();
    claim.prscrbr_id = String::new();
    let eob = map_ok(&claim);
    assert_eq!(eob.care_team.len(), 0);
    assert_eq!(eob.item[0].care_team_link.len(), 0);
}

#[test]
fn nonempty_prescriber_adds_exactly_one_primary_care_team_entry() {
    let claim = sample_claim();
    let eob = map_ok(&claim);
    assert_eq!(eob.care_team.len(), 1);
    let entry = &eob.care_team[0];
    assert_eq!(entry.sequence, 1);
    assert_eq!(entry.role.coding[0].code, "primary");
    assert_eq!(
        entry.provider.identifier.as_ref().unwrap().system,
        "http://hl7.org/fhir/sid/us-npi"
    );
    assert_eq!(entry.provider.identifier.as_ref().unwrap().value, "1750384806");
    assert_eq!(eob.item[0].care_team_link, vec![1]);
}

#[test]
fn information_entries_in_claim_field_order() {
    let eob = map_ok(&sample_claim());
    // Required fields always appear; of the optional ones the sample sets
    // rx_orgn_cd, brnd_gnrc_cd and submsn_clr_cd.
    let codes: Vec<&str> = eob
        .information
        .iter()
        .map(|i| i.category.coding[0].code.as_str())
        .collect();
    assert_eq!(codes, vec!["0", "C", "3", "G", "01", "02", "08"]);
    let systems: Vec<&str> = eob
        .information
        .iter()
        .map(|i| i.category.coding[0].system.as_str())
        .collect();
    assert_eq!(
        systems,
        vec![
            "https://bluebutton.cms.gov/resources/variables/daw_prod_slctn_cd",
            "https://bluebutton.cms.gov/resources/variables/drug_cvrg_stus_cd",
            "https://bluebutton.cms.gov/resources/variables/rx_orgn_cd",
            "https://bluebutton.cms.gov/resources/variables/brnd_gnrc_cd",
            "https://bluebutton.cms.gov/resources/variables/phrmcy_srvc_type_cd",
            "https://bluebutton.cms.gov/resources/variables/ptnt_rsdnc_cd",
            "https://bluebutton.cms.gov/resources/variables/submsn_clr_cd",
        ]
    );
    for (k, info) in eob.information.iter().enumerate() {
        assert_eq!(info.sequence, k + 1);
    }
}

#[test]
fn pharmacy_service_type_mapped_twice() {
    // Once on the facility reference, once as a standalone entry.
    let eob = map_ok(&sample_claim());
    let facility = eob.facility.as_ref().unwrap();
    assert_eq!(facility.extension.len(), 1);
    assert_eq!(
        facility.extension[0].url,
        "https://bluebutton.cms.gov/resources/variables/phrmcy_srvc_type_cd"
    );
    let standalone = eob
        .information
        .iter()
        .filter(|i| {
            i.category.coding[0].system
                == "https://bluebutton.cms.gov/resources/variables/phrmcy_srvc_type_cd"
        })
        .count();
    assert_eq!(standalone, 1);
}

#[test]
fn quantity_carries_fill_and_days_supply() {
    let eob = map_ok(&sample_claim());
    let quantity = eob.item[0].quantity.as_ref().unwrap();
    assert_eq!(quantity.value, dec(60, 0));
    assert_eq!(quantity.extension.len(), 2);
    assert_eq!(
        quantity.extension[0].url,
        "https://bluebutton.cms.gov/resources/variables/fill_num"
    );
    assert_eq!(
        quantity.extension[1].url,
        "https://bluebutton.cms.gov/resources/variables/days_suply_num"
    );
}

#[test]
fn payment_date_present_only_when_paid() {
    let mut claim = sample_claim();
    let eob = map_ok(&claim);
    assert_eq!(
        eob.payment.as_ref().unwrap().date,
        Some(Date { year: 2015, month: 5, day: 27 })
    );
    claim.pd_dt = None;
    let eob = map_ok(&claim);
    assert!(eob.payment.is_none());
}

#[test]
fn mapping_twice_yields_identical_output() {
    let claim = sample_claim();
    let e1 = map_ok(&claim);
    let e2 = map_ok(&claim);
    assert_eq!(e1.id, e2.id);
    assert_eq!(e1.status, e2.status);
    assert_eq!(e1.meta, e2.meta);
    assert_eq!(e1.patient.reference, e2.patient.reference);
    assert_eq!(e1.identifier.len(), e2.identifier.len());
    assert_eq!(e1.information.len(), e2.information.len());
    for (a, b) in e1.information.iter().zip(e2.information.iter()) {
        assert_eq!(a.sequence, b.sequence);
        assert_eq!(a.category.coding[0].system, b.category.coding[0].system);
        assert_eq!(a.category.coding[0].code, b.category.coding[0].code);
        assert_eq!(a.category.coding[0].display, b.category.coding[0].display);
    }
    assert_eq!(e1.care_team.len(), e2.care_team.len());
    let (i1, i2) = (&e1.item[0], &e2.item[0]);
    assert_eq!(i1.serviced_date, i2.serviced_date);
    assert_eq!(i1.care_team_link, i2.care_team_link);
    assert_eq!(i1.adjudication.len(), i2.adjudication.len());
    for (a, b) in i1.adjudication.iter().zip(i2.adjudication.iter()) {
        assert_eq!(
            a.amount.as_ref().map(|m| m.value),
            b.amount.as_ref().map(|m| m.value)
        );
        assert_eq!(
            a.category.as_ref().map(|c| c.coding[0].code.clone()),
            b.category.as_ref().map(|c| c.coding[0].code.clone())
        );
    }
}
