//! State families, entity slots and slot dates.

use cobre_io::date::{decode_slot_date, encode_slot_date, Date};
use cobre_io::policy::records::{EntitySlot, StateFamily, ENTITY_SLOT_DELIVERY_DATE_SENTINEL};

#[test]
fn state_family_codes_match_policy_fbs_entity_type() {
    assert_eq!(StateFamily::HydroStorage.code(), 0);
    assert_eq!(StateFamily::HydroInflowLag.code(), 1);
    assert_eq!(StateFamily::AnticipatedThermalState.code(), 2);
    assert_eq!(StateFamily::HydroTransitBucket.code(), 3);
}

#[test]
fn state_family_from_code_round_trips_and_rejects_unknown() {
    for family in [
        StateFamily::HydroStorage,
        StateFamily::HydroInflowLag,
        StateFamily::AnticipatedThermalState,
        StateFamily::HydroTransitBucket,
    ] {
        assert_eq!(StateFamily::from_code(family.code()), Some(family));
    }
    assert_eq!(StateFamily::from_code(4), None);
    assert_eq!(StateFamily::from_code(u8::MAX), None);
}

#[test]
fn entity_slot_family_reads_the_raw_byte() {
    let slot = EntitySlot::anticipated(7, 0, true);
    assert_eq!(slot.family(), Some(StateFamily::AnticipatedThermalState));
}

#[test]
fn entity_slot_constructors_set_family_code_and_sentinel() {
    let storage = EntitySlot::storage(7, true);
    assert_eq!(storage.entity_type, StateFamily::HydroStorage.code());
    assert_eq!(storage.entity_id, 7);
    assert_eq!(storage.subindex, 0);
    assert!(storage.was_active);

    let inflow_lag = EntitySlot::inflow_lag(2, 3, false);
    assert_eq!(inflow_lag.entity_type, StateFamily::HydroInflowLag.code());
    assert_eq!(inflow_lag.entity_id, 2);
    assert_eq!(inflow_lag.subindex, 3);
    assert!(!inflow_lag.was_active);

    let transit_bucket = EntitySlot::transit_bucket(4, 5, true);
    assert_eq!(
        transit_bucket.entity_type,
        StateFamily::HydroTransitBucket.code()
    );
    assert_eq!(transit_bucket.entity_id, 4);
    assert_eq!(transit_bucket.subindex, 5);
    assert!(transit_bucket.was_active);

    let anticipated = EntitySlot::anticipated(6, 1, false);
    assert_eq!(
        anticipated.entity_type,
        StateFamily::AnticipatedThermalState.code()
    );
    assert_eq!(anticipated.entity_id, 6);
    assert_eq!(anticipated.subindex, 1);
    assert!(!anticipated.was_active);
}

#[test]
fn entity_slot_constructors_leave_new_dates_at_sentinel() {
    for slot in [
        EntitySlot::storage(1, true),
        EntitySlot::inflow_lag(1, 1, true),
        EntitySlot::transit_bucket(1, 1, true),
        EntitySlot::anticipated(1, 0, true),
    ] {
        assert_eq!(slot.reference_date, ENTITY_SLOT_DELIVERY_DATE_SENTINEL);
        assert_eq!(slot.interval_start, ENTITY_SLOT_DELIVERY_DATE_SENTINEL);
        assert_eq!(slot.interval_end, ENTITY_SLOT_DELIVERY_DATE_SENTINEL);
    }
}

#[test]
fn entity_slot_with_interval_sets_both_endpoints() {
    let dated = EntitySlot::transit_bucket(9, 2, true).with_interval(20_311_201, 20_320_101);
    assert_eq!(dated.interval_start, 20_311_201);
    assert_eq!(dated.interval_end, 20_320_101);
    assert_eq!(dated.reference_date, ENTITY_SLOT_DELIVERY_DATE_SENTINEL);
}

#[test]
fn entity_slot_with_reference_date_leaves_the_interval() {
    let dated = EntitySlot::inflow_lag(5, 3, true).with_reference_date(20_310_401);
    assert_eq!(dated.reference_date, 20_310_401);
    assert_eq!(dated.interval_start, ENTITY_SLOT_DELIVERY_DATE_SENTINEL);
    assert_eq!(dated.interval_end, ENTITY_SLOT_DELIVERY_DATE_SENTINEL);
}

#[test]
fn slot_date_codec_round_trips_and_rejects_non_dates() {
    for (year, month, day) in [(2031, 11, 10), (2024, 2, 29), (2030, 1, 1)] {
        let date = Date { year, month, day };
        assert_eq!(decode_slot_date(encode_slot_date(date)), Some(date));
    }
    for value in [i32::MIN, -1, 0, 20_240_230] {
        assert_eq!(decode_slot_date(value), None);
    }
}

#[test]
fn slot_dates_are_yyyymmdd_numbers() {
    assert_eq!(
        encode_slot_date(Date { year: 2031, month: 11, day: 10 }),
        20_311_110
    );
    assert_eq!(
        decode_slot_date(20_240_229),
        Some(Date { year: 2024, month: 2, day: 29 })
    );
    // 2023 has no February 29, and no month 13 exists.
    assert_eq!(decode_slot_date(20_230_229), None);
    assert_eq!(decode_slot_date(20_231_301), None);
}

#[test]
fn slot_dates_before_the_first_year_round_trip() {
    let date = Date { year: -1, month: 3, day: 5 };
    assert_eq!(encode_slot_date(date), -9_695);
    assert_eq!(decode_slot_date(-9_695), Some(date));
    let date = Date { year: 0, month: 12, day: 31 };
    assert_eq!(encode_slot_date(date), 1_231);
    assert_eq!(decode_slot_date(1_231), Some(date));
    let date = Date { year: -214_748, month: 1, day: 1 };
    assert_eq!(decode_slot_date(encode_slot_date(date)), Some(date));
    let date = Date { year: 214_748, month: 12, day: 31 };
    assert_eq!(encode_slot_date(date), 2_147_481_231);
    assert_eq!(decode_slot_date(2_147_481_231), Some(date));
}

#[test]
fn the_sentinels_name_no_slot_date() {
    assert_eq!(decode_slot_date(-1), None);
    assert_eq!(decode_slot_date(i32::MIN), None);
    assert_eq!(decode_slot_date(ENTITY_SLOT_DELIVERY_DATE_SENTINEL), None);
    assert_eq!(decode_slot_date(0), None);
    assert_eq!(decode_slot_date(i32::MAX), None);
}
