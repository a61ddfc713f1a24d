//! Initial conditions.

use cobre_io::date::Date;
use cobre_io::entities::EntityId;
use cobre_io::error::LoadError;
use cobre_io::float::Float64;
use cobre_io::initial_conditions::{
    convert, parse_initial_conditions, validate_raw, InitialConditions,
    RawAnticipatedCommitmentHistory, RawFutureAnticipatedDelivery, RawHydroPastDefluence,
    RawHydroStorage, RawInitialConditions, RawRecentObservation,
};
use cobre_io::text::Piece;
use cobre_io::windowed_history::{parse_iso_date, validate_windowed_records, WindowedRecord};
use serde_json::Value;

#[derive(Debug)]
enum Failure {
    Schema { field: String, message: String },
    Other(String),
}

fn render(message: &[Piece]) -> String {
    message
        .iter()
        .map(|p| match p {
            Piece::Text(s) => s.to_string(),
            Piece::Name(s) => s.clone(),
            Piece::Quoted(s) => format!("{s:?}"),
            Piece::Int(n) => n.to_string(),
            Piece::Count(n) => n.to_string(),
            Piece::Float(x) => format!("{}", f64::from_bits(x.bits)),
            Piece::Day(d) => format!("{:04}-{:02}-{:02}", d.year, d.month, d.day),
        })
        .collect()
}

fn failure(e: LoadError) -> Failure {
    match e {
        LoadError::SchemaError { field, message, .. } => Failure::Schema {
            field,
            message: render(&message),
        },
        other => Failure::Other(format!("{other:?}")),
    }
}

fn float(x: f64) -> Float64 {
    Float64 { bits: x.to_bits() }
}

fn value(x: Float64) -> f64 {
    f64::from_bits(x.bits)
}

fn date(year: i32, month: u32, day: u32) -> Date {
    Date { year, month, day }
}

// ── Reading the values of a file ─────────────────────────────────────────────

fn number(v: &Value, key: &str) -> Float64 {
    float(v.get(key).and_then(Value::as_f64).expect("number"))
}

fn id(v: &Value, key: &str) -> i32 {
    i32::try_from(v.get(key).and_then(Value::as_i64).expect("integer")).expect("i32")
}

fn text(v: &Value, key: &str) -> String {
    v.get(key).and_then(Value::as_str).expect("text").to_string()
}

fn list<T>(v: &Value, key: &str, item: impl Fn(&Value) -> T) -> Vec<T> {
    v.get(key)
        .map(|l| l.as_array().expect("array").iter().map(item).collect())
        .unwrap_or_default()
}

fn storage(v: &Value) -> RawHydroStorage {
    RawHydroStorage {
        hydro_id: id(v, "hydro_id"),
        value_hm3: number(v, "value_hm3"),
    }
}

fn parse(json: &str) -> Result<InitialConditions, Failure> {
    let v: Value = serde_json::from_str(json).expect("JSON");
    let raw = RawInitialConditions {
        storage: list(&v, "storage", storage),
        filling_storage: list(&v, "filling_storage", storage),
        recent_observations: list(&v, "recent_observations", |e| RawRecentObservation {
            hydro_id: id(e, "hydro_id"),
            start_date: text(e, "start_date"),
            end_date: text(e, "end_date"),
            value_m3s: number(e, "value_m3s"),
        }),
        past_anticipated_commitments: list(&v, "past_anticipated_commitments", |e| {
            RawAnticipatedCommitmentHistory {
                thermal_id: id(e, "thermal_id"),
                start_date: text(e, "start_date"),
                end_date: text(e, "end_date"),
                value_mw: number(e, "value_mw"),
            }
        }),
        past_defluences: list(&v, "past_defluences", |e| RawHydroPastDefluence {
            hydro_id: id(e, "hydro_id"),
            start_date: text(e, "start_date"),
            end_date: text(e, "end_date"),
            value_m3s: number(e, "value_m3s"),
        }),
        future_anticipated_deliveries: list(&v, "future_anticipated_deliveries", |e| {
            RawFutureAnticipatedDelivery {
                thermal_id: id(e, "thermal_id"),
                delivery_start: text(e, "delivery_start"),
                delivery_end: text(e, "delivery_end"),
                min_mw: number(e, "min_mw"),
                max_mw: number(e, "max_mw"),
            }
        }),
    };
    parse_initial_conditions(&raw, "initial_conditions.json").map_err(failure)
}

/// A valid file with two reservoirs in operation and one that is being filled.
const VALID_JSON: &str = r#"{
  "$schema": "https://raw.githubusercontent.com/cobre-rs/cobre/refs/heads/main/schemas/initial_conditions.schema.json",
  "storage": [
    { "hydro_id": 0, "value_hm3": 15000.0 },
    { "hydro_id": 1, "value_hm3": 8500.0 }
  ],
  "filling_storage": [
    { "hydro_id": 10, "value_hm3": 200.0 }
  ]
}"#;

// ── Rules ────────────────────────────────────────────────────────────────────

/// Given a valid `initial_conditions.json` with 2 storage entries and
/// 1 filling entry, `parse_initial_conditions` returns `Ok(ic)` with
/// correct field counts and entity IDs.
#[test]
fn test_parse_valid_initial_conditions() {

    let ic = parse(VALID_JSON).unwrap();

    assert_eq!(ic.storage.len(), 2);
    assert_eq!(ic.filling_storage.len(), 1);

    assert_eq!(ic.storage[0].hydro_id, EntityId(0));
    assert!(
        (value(ic.storage[0].value_hm3) - (15_000.0)).abs() < f64::EPSILON,
        "expected 15000.0, got {}",
        value(ic.storage[0].value_hm3)
    );
    assert_eq!(ic.storage[1].hydro_id, EntityId(1));
    assert!(
        (value(ic.storage[1].value_hm3) - (8_500.0)).abs() < f64::EPSILON,
        "expected 8500.0, got {}",
        value(ic.storage[1].value_hm3)
    );

    assert_eq!(ic.filling_storage[0].hydro_id, EntityId(10));
    assert!(
        (value(ic.filling_storage[0].value_hm3) - (200.0)).abs() < f64::EPSILON,
        "expected 200.0, got {}",
        value(ic.filling_storage[0].value_hm3)
    );
}

/// Given an `initial_conditions.json` with empty arrays, `parse_initial_conditions`
/// returns `Ok(ic)` with empty storage and `filling_storage` vectors.
#[test]
fn test_parse_empty_arrays() {
    let json = r#"{ "storage": [], "filling_storage": [] }"#;
    let ic = parse(json).unwrap();
    assert!(ic.storage.is_empty());
    assert!(ic.filling_storage.is_empty());
}

/// Given an `initial_conditions.json` with a negative `value_hm3` in
/// `storage`, `parse_initial_conditions` returns a schema error
/// with field containing `"value_hm3"`.
#[test]
fn test_negative_storage_value() {
    let json = r#"{
      "storage": [
        { "hydro_id": 0, "value_hm3": -1.0 }
      ],
      "filling_storage": []
    }"#;
    let err = parse(json).unwrap_err();
    match &err {
        Failure::Schema { field, message, .. } => {
            assert!(
                field.contains("value_hm3"),
                "field should contain 'value_hm3', got: {field}"
            );
            assert!(
                message.contains("value_hm3"),
                "message should mention value_hm3, got: {message}"
            );
        }
        other => panic!("expected SchemaError, got: {other:?}"),
    }
}

/// Given an `initial_conditions.json` with a negative `value_hm3` in
/// `filling_storage`, `parse_initial_conditions` returns
/// a schema error with field containing `"value_hm3"`.
#[test]
fn test_negative_filling_storage_value() {
    let json = r#"{
      "storage": [],
      "filling_storage": [
        { "hydro_id": 10, "value_hm3": -100.0 }
      ]
    }"#;
    let err = parse(json).unwrap_err();
    match &err {
        Failure::Schema { field, message, .. } => {
            assert!(
                field.contains("value_hm3"),
                "field should contain 'value_hm3', got: {field}"
            );
            assert!(
                message.contains("value_hm3"),
                "message should mention value_hm3, got: {message}"
            );
        }
        other => panic!("expected SchemaError, got: {other:?}"),
    }
}

/// Given an `initial_conditions.json` where the same `hydro_id` appears
/// twice in `storage`, `parse_initial_conditions` returns
/// a schema error mentioning "duplicate".
#[test]
fn test_duplicate_hydro_id_in_storage() {
    let json = r#"{
      "storage": [
        { "hydro_id": 5, "value_hm3": 1000.0 },
        { "hydro_id": 5, "value_hm3": 2000.0 }
      ],
      "filling_storage": []
    }"#;
    let err = parse(json).unwrap_err();
    match &err {
        Failure::Schema { field, message, .. } => {
            assert!(
                field.contains("storage"),
                "field should mention 'storage', got: {field}"
            );
            assert!(
                message.contains("duplicate"),
                "message should mention 'duplicate', got: {message}"
            );
        }
        other => panic!("expected SchemaError, got: {other:?}"),
    }
}

/// Given an `initial_conditions.json` where the same `hydro_id` appears
/// twice in `filling_storage`, `parse_initial_conditions` returns
/// a schema error mentioning "duplicate".
#[test]
fn test_duplicate_hydro_id_in_filling_storage() {
    let json = r#"{
      "storage": [],
      "filling_storage": [
        { "hydro_id": 10, "value_hm3": 100.0 },
        { "hydro_id": 10, "value_hm3": 200.0 }
      ]
    }"#;
    let err = parse(json).unwrap_err();
    match &err {
        Failure::Schema { field, message, .. } => {
            assert!(
                field.contains("filling_storage"),
                "field should mention 'filling_storage', got: {field}"
            );
            assert!(
                message.contains("duplicate"),
                "message should mention 'duplicate', got: {message}"
            );
        }
        other => panic!("expected SchemaError, got: {other:?}"),
    }
}

/// Given an `initial_conditions.json` where the same `hydro_id` appears in
/// both `storage` and `filling_storage`, `parse_initial_conditions` returns
/// a schema error mentioning mutual exclusion.
#[test]
fn test_hydro_id_in_both_lists() {
    let json = r#"{
      "storage": [
        { "hydro_id": 5, "value_hm3": 1000.0 }
      ],
      "filling_storage": [
        { "hydro_id": 5, "value_hm3": 100.0 }
      ]
    }"#;
    let err = parse(json).unwrap_err();
    match &err {
        Failure::Schema { field, message, .. } => {
            assert!(
                field.contains("filling_storage"),
                "field should mention 'filling_storage', got: {field}"
            );
            assert!(
                message.contains("storage") && message.contains("filling_storage"),
                "message should mention both arrays for mutual exclusion, got: {message}"
            );
        }
        other => panic!("expected SchemaError, got: {other:?}"),
    }
}

/// Zero storage value (exactly 0.0) is valid — the boundary is non-negative.
#[test]
fn test_zero_storage_value_is_valid() {
    let json = r#"{
      "storage": [
        { "hydro_id": 0, "value_hm3": 0.0 }
      ],
      "filling_storage": []
    }"#;
    let result = parse(json);
    assert!(
        result.is_ok(),
        "0.0 is non-negative and must be accepted, got: {result:?}"
    );
}

/// Filling storage value below dead volume is valid . Only non-negativity is
/// checked here; bounds against dead volume are deferred to Layer 3.
#[test]
fn test_filling_storage_below_dead_volume_is_valid() {
    let json = r#"{
      "storage": [],
      "filling_storage": [
        { "hydro_id": 10, "value_hm3": 1.0 }
      ]
    }"#;
    let result = parse(json);
    assert!(
        result.is_ok(),
        "filling storage values below dead volume are valid at this layer, got: {result:?}"
    );
}

/// Declaration-order invariance: arrays are sorted by `hydro_id` after loading.
#[test]
fn initial_conditions_test_declaration_order_invariance() {
    let json_ordered = r#"{
      "storage": [
        { "hydro_id": 0, "value_hm3": 1000.0 },
        { "hydro_id": 1, "value_hm3": 2000.0 }
      ],
      "filling_storage": []
    }"#;
    let json_reversed = r#"{
      "storage": [
        { "hydro_id": 1, "value_hm3": 2000.0 },
        { "hydro_id": 0, "value_hm3": 1000.0 }
      ],
      "filling_storage": []
    }"#;
    let ic1 = parse(json_ordered).unwrap();
    let ic2 = parse(json_reversed).unwrap();

    assert_eq!(
        ic1, ic2,
        "results must be identical regardless of input ordering"
    );
    assert_eq!(ic1.storage[0].hydro_id, EntityId(0));
    assert_eq!(ic1.storage[1].hydro_id, EntityId(1));
}

/// Given a `initial_conditions.json` without a `recent_observations` key,
/// `parse_initial_conditions` returns `Ok(ic)` with an empty
/// `recent_observations` vec.
#[test]
fn test_recent_observations_absent_defaults_to_empty() {

    let ic = parse(VALID_JSON).unwrap();
    assert!(
        ic.recent_observations.is_empty(),
        "absent recent_observations must default to empty vec"
    );
}

/// Given `"recent_observations": []`, `parse_initial_conditions` returns
/// `Ok(ic)` with an empty `recent_observations` vec.
#[test]
fn test_recent_observations_empty_array() {
    let json = r#"{
      "storage": [],
      "filling_storage": [],
      "recent_observations": []
    }"#;
    let ic = parse(json).unwrap();
    assert!(ic.recent_observations.is_empty());
}

/// Given two valid `recent_observations` entries for the same hydro with
/// adjacent (non-overlapping) date ranges, `parse_initial_conditions` returns
/// `Ok(ic)` with both entries, dates parsed as `NaiveDate`.
#[test]
fn test_recent_observations_valid_two_entries() {
    let json = r#"{
      "storage": [],
      "filling_storage": [],
      "recent_observations": [
        { "hydro_id": 0, "start_date": "2026-04-01", "end_date": "2026-04-04", "value_m3s": 500.0 },
        { "hydro_id": 0, "start_date": "2026-04-04", "end_date": "2026-04-11", "value_m3s": 480.0 }
      ]
    }"#;
    let ic = parse(json).unwrap();
    assert_eq!(ic.recent_observations.len(), 2);
    assert_eq!(ic.recent_observations[0].hydro_id, EntityId(0));
    assert_eq!(
        ic.recent_observations[0].start_date,
        date(2026, 4, 1)
    );
    assert_eq!(
        ic.recent_observations[0].end_date,
        date(2026, 4, 4)
    );
    assert!((value(ic.recent_observations[0].value_m3s) - (500.0)).abs() < f64::EPSILON);
    assert!((value(ic.recent_observations[1].value_m3s) - (480.0)).abs() < f64::EPSILON);
}

/// Given a `recent_observations` entry with an invalid `start_date` format
/// (slash-separated), `parse_initial_conditions` returns
/// a schema error with field containing `start_date`.
#[test]
fn test_recent_observations_invalid_start_date_format() {
    let json = r#"{
      "storage": [],
      "filling_storage": [],
      "recent_observations": [
        { "hydro_id": 0, "start_date": "2026/04/01", "end_date": "2026-04-04", "value_m3s": 500.0 }
      ]
    }"#;
    let err = parse(json).unwrap_err();
    match &err {
        Failure::Schema { field, .. } => {
            assert!(
                field.contains("start_date"),
                "field should mention 'start_date', got: {field}"
            );
        }
        other => panic!("expected SchemaError, got: {other:?}"),
    }
}

/// Given a `recent_observations` entry with an invalid `end_date` format,
/// `parse_initial_conditions` returns a schema error with
/// field containing `end_date`.
#[test]
fn test_recent_observations_invalid_end_date_format() {
    let json = r#"{
      "storage": [],
      "filling_storage": [],
      "recent_observations": [
        { "hydro_id": 0, "start_date": "2026-04-01", "end_date": "not-a-date", "value_m3s": 500.0 }
      ]
    }"#;
    let err = parse(json).unwrap_err();
    match &err {
        Failure::Schema { field, .. } => {
            assert!(
                field.contains("end_date"),
                "field should mention 'end_date', got: {field}"
            );
        }
        other => panic!("expected SchemaError, got: {other:?}"),
    }
}

/// Given a `recent_observations` entry where `end_date == start_date`,
/// `parse_initial_conditions` returns a schema error with
/// `message` containing "`end_date` must be after `start_date`".
#[test]
fn test_recent_observations_end_date_equals_start_date() {
    let json = r#"{
      "storage": [],
      "filling_storage": [],
      "recent_observations": [
        { "hydro_id": 0, "start_date": "2026-04-01", "end_date": "2026-04-01", "value_m3s": 500.0 }
      ]
    }"#;
    let err = parse(json).unwrap_err();
    match &err {
        Failure::Schema { message, .. } => {
            assert!(
                message.contains("end_date must be after start_date"),
                "message should contain 'end_date must be after start_date', got: {message}"
            );
            assert!(
                message.contains("hydro_id 0"),
                "message should name the entity, got: {message}"
            );
        }
        other => panic!("expected SchemaError, got: {other:?}"),
    }
}

/// Given a `recent_observations` entry where `end_date < start_date`,
/// `parse_initial_conditions` returns a schema error with
/// `message` containing "`end_date` must be after `start_date`".
#[test]
fn test_recent_observations_end_date_before_start_date() {
    let json = r#"{
      "storage": [],
      "filling_storage": [],
      "recent_observations": [
        { "hydro_id": 0, "start_date": "2026-04-05", "end_date": "2026-04-01", "value_m3s": 500.0 }
      ]
    }"#;
    let err = parse(json).unwrap_err();
    match &err {
        Failure::Schema { message, .. } => {
            assert!(
                message.contains("end_date must be after start_date"),
                "message should contain 'end_date must be after start_date', got: {message}"
            );
            assert!(
                message.contains("hydro_id 0"),
                "message should name the entity, got: {message}"
            );
        }
        other => panic!("expected SchemaError, got: {other:?}"),
    }
}

#[test]
fn test_recent_observations_negative_value_accepted() {
    let json = r#"{
      "storage": [],
      "filling_storage": [],
      "recent_observations": [
        { "hydro_id": 0, "start_date": "2026-04-01", "end_date": "2026-04-04", "value_m3s": -1.0 }
      ]
    }"#;
    let ic = parse(json).unwrap();
    assert_eq!(ic.recent_observations.len(), 1);
    assert!((value(ic.recent_observations[0].value_m3s) - (-1.0)).abs() < f64::EPSILON);
}

/// Given two `recent_observations` entries for the same hydro with
/// overlapping date ranges, `parse_initial_conditions` returns
/// a schema error with `message` containing "overlapping".
#[test]
fn test_recent_observations_overlapping_ranges() {
    let json = r#"{
      "storage": [],
      "filling_storage": [],
      "recent_observations": [
        { "hydro_id": 0, "start_date": "2026-04-01", "end_date": "2026-04-05", "value_m3s": 500.0 },
        { "hydro_id": 0, "start_date": "2026-04-03", "end_date": "2026-04-10", "value_m3s": 480.0 }
      ]
    }"#;
    let err = parse(json).unwrap_err();
    match &err {
        Failure::Schema { message, .. } => {
            assert!(
                message.contains("overlapping"),
                "message should contain 'overlapping', got: {message}"
            );
        }
        other => panic!("expected SchemaError, got: {other:?}"),
    }
}

/// Given two `recent_observations` entries for the same hydro where
/// `start == prev_end` (adjacent, exclusive-end convention), they are
/// accepted.
#[test]
fn test_recent_observations_adjacent_ranges_are_valid() {
    let json = r#"{
      "storage": [],
      "filling_storage": [],
      "recent_observations": [
        { "hydro_id": 0, "start_date": "2026-04-01", "end_date": "2026-04-04", "value_m3s": 500.0 },
        { "hydro_id": 0, "start_date": "2026-04-04", "end_date": "2026-04-11", "value_m3s": 480.0 }
      ]
    }"#;
    let result = parse(json);
    assert!(
        result.is_ok(),
        "adjacent ranges (start == prev_end) must be accepted, got: {result:?}"
    );
}

/// Given `recent_observations` entries for `hydro_id`s [1, 0] in that order,
/// the result is sorted by `(hydro_id, start_date)` with `hydro_id` 0 first.
#[test]
fn test_recent_observations_sorted_by_hydro_id_then_start_date() {
    let json = r#"{
      "storage": [],
      "filling_storage": [],
      "recent_observations": [
        { "hydro_id": 1, "start_date": "2026-04-01", "end_date": "2026-04-07", "value_m3s": 300.0 },
        { "hydro_id": 0, "start_date": "2026-04-04", "end_date": "2026-04-11", "value_m3s": 480.0 },
        { "hydro_id": 0, "start_date": "2026-04-01", "end_date": "2026-04-04", "value_m3s": 500.0 }
      ]
    }"#;
    let ic = parse(json).unwrap();
    assert_eq!(ic.recent_observations.len(), 3);
    assert_eq!(ic.recent_observations[0].hydro_id, EntityId(0));
    assert_eq!(
        ic.recent_observations[0].start_date,
        date(2026, 4, 1)
    );
    assert_eq!(ic.recent_observations[1].hydro_id, EntityId(0));
    assert_eq!(
        ic.recent_observations[1].start_date,
        date(2026, 4, 4)
    );
    assert_eq!(ic.recent_observations[2].hydro_id, EntityId(1));
}

/// Given `recent_observations` entries declared in reverse vs forward order,
/// the resulting `InitialConditions` values are equal (declaration-order
/// invariance).
#[test]
fn test_recent_observations_declaration_order_invariance() {
    let json_forward = r#"{
      "storage": [],
      "filling_storage": [],
      "recent_observations": [
        { "hydro_id": 0, "start_date": "2026-04-01", "end_date": "2026-04-04", "value_m3s": 500.0 },
        { "hydro_id": 0, "start_date": "2026-04-04", "end_date": "2026-04-11", "value_m3s": 480.0 }
      ]
    }"#;
    let json_reversed = r#"{
      "storage": [],
      "filling_storage": [],
      "recent_observations": [
        { "hydro_id": 0, "start_date": "2026-04-04", "end_date": "2026-04-11", "value_m3s": 480.0 },
        { "hydro_id": 0, "start_date": "2026-04-01", "end_date": "2026-04-04", "value_m3s": 500.0 }
      ]
    }"#;
    let ic1 = parse(json_forward).unwrap();
    let ic2 = parse(json_reversed).unwrap();
    assert_eq!(
        ic1, ic2,
        "results must be identical regardless of input ordering"
    );
    assert_eq!(
        ic1.recent_observations[0].start_date,
        date(2026, 4, 1)
    );
}

/// Given an `initial_conditions.json` with one `past_anticipated_commitments`
/// entry, `parse_initial_conditions` returns the correct parsed value.
#[test]
fn test_parse_past_anticipated_commitments_present() {
    let json = r#"{
      "storage": [],
      "filling_storage": [],
      "past_anticipated_commitments": [
        { "thermal_id": 1, "start_date": "2026-01-01", "end_date": "2026-02-01", "value_mw": 120.0 },
        { "thermal_id": 1, "start_date": "2026-02-01", "end_date": "2026-03-01", "value_mw": 180.0 }
      ]
    }"#;
    let ic = parse(json).unwrap();

    assert_eq!(ic.past_anticipated_commitments.len(), 2);
    assert_eq!(ic.past_anticipated_commitments[0].thermal_id, EntityId(1));
    assert_eq!(
        ic.past_anticipated_commitments[0].start_date,
        date(2026, 1, 1)
    );
    assert!((value(ic.past_anticipated_commitments[0].value_mw) - (120.0)).abs() < f64::EPSILON);
    assert!((value(ic.past_anticipated_commitments[1].value_mw) - (180.0)).abs() < f64::EPSILON);
}

/// Given an `initial_conditions.json` with no `past_anticipated_commitments`
/// key, `parse_initial_conditions` returns an empty vec.
#[test]
fn test_parse_past_anticipated_commitments_absent_defaults_empty() {

    let ic = parse(VALID_JSON).unwrap();
    assert!(
        ic.past_anticipated_commitments.is_empty(),
        "absent past_anticipated_commitments must default to empty vec"
    );
}

/// Given two JSON inputs identical except for entry order in
/// `past_anticipated_commitments`, the resulting vecs are identical
/// (sorted by `thermal_id` ascending — declaration-order invariance).
#[test]
fn test_past_anticipated_commitments_declaration_order_invariance() {
    let json_forward = r#"{
      "storage": [],
      "filling_storage": [],
      "past_anticipated_commitments": [
        { "thermal_id": 1, "start_date": "2026-01-01", "end_date": "2026-02-01", "value_mw": 120.0 },
        { "thermal_id": 1, "start_date": "2026-02-01", "end_date": "2026-03-01", "value_mw": 180.0 },
        { "thermal_id": 2, "start_date": "2026-01-01", "end_date": "2026-02-01", "value_mw": 50.0 }
      ]
    }"#;
    let json_reversed = r#"{
      "storage": [],
      "filling_storage": [],
      "past_anticipated_commitments": [
        { "thermal_id": 2, "start_date": "2026-01-01", "end_date": "2026-02-01", "value_mw": 50.0 },
        { "thermal_id": 1, "start_date": "2026-02-01", "end_date": "2026-03-01", "value_mw": 180.0 },
        { "thermal_id": 1, "start_date": "2026-01-01", "end_date": "2026-02-01", "value_mw": 120.0 }
      ]
    }"#;
    let ic1 = parse(json_forward).unwrap();
    let ic2 = parse(json_reversed).unwrap();

    assert_eq!(
        ic1.past_anticipated_commitments, ic2.past_anticipated_commitments,
        "results must be identical regardless of input ordering"
    );
    assert_eq!(ic1.past_anticipated_commitments[0].thermal_id, EntityId(1));
    assert_eq!(
        ic1.past_anticipated_commitments[0].start_date,
        date(2026, 1, 1)
    );
    assert_eq!(ic1.past_anticipated_commitments[1].thermal_id, EntityId(1));
    assert_eq!(
        ic1.past_anticipated_commitments[1].start_date,
        date(2026, 2, 1)
    );
    assert_eq!(ic1.past_anticipated_commitments[2].thermal_id, EntityId(2));
}

/// Given two windows sharing `(thermal_id: 5, start_date)` in
/// `past_anticipated_commitments`, `parse_initial_conditions` returns
/// a schema error with field containing
/// `"past_anticipated_commitments["` and message containing `"duplicate"`.
#[test]
fn test_duplicate_thermal_id_in_past_anticipated_commitments_rejected() {
    let json = r#"{
      "storage": [],
      "filling_storage": [],
      "past_anticipated_commitments": [
        { "thermal_id": 5, "start_date": "2026-01-01", "end_date": "2026-02-01", "value_mw": 100.0 },
        { "thermal_id": 5, "start_date": "2026-01-01", "end_date": "2026-02-01", "value_mw": 200.0 }
      ]
    }"#;
    let err = parse(json).unwrap_err();
    match &err {
        Failure::Schema { field, message, .. } => {
            assert!(
                field.contains("past_anticipated_commitments["),
                "field should contain 'past_anticipated_commitments[', got: {field}"
            );
            assert!(
                message.contains("duplicate"),
                "message should contain 'duplicate', got: {message}"
            );
        }
        other => panic!("expected SchemaError, got: {other:?}"),
    }
}

/// A thermal legitimately carries several windows at distinct start dates;
/// `parse_initial_conditions` accepts them (contrast with the shared
/// `(thermal_id, start_date)` duplicate rule).
#[test]
fn test_multiple_windows_same_thermal_distinct_starts_accepted() {
    let json = r#"{
      "storage": [],
      "filling_storage": [],
      "past_anticipated_commitments": [
        { "thermal_id": 3, "start_date": "2026-01-01", "end_date": "2026-02-01", "value_mw": 100.0 },
        { "thermal_id": 3, "start_date": "2026-02-01", "end_date": "2026-03-01", "value_mw": 200.0 }
      ]
    }"#;
    let ic = parse(json).unwrap();
    assert_eq!(ic.past_anticipated_commitments.len(), 2);
}

/// A commitment window whose `end_date <= start_date` is rejected by the
/// shared windowed-record validator.
#[test]
fn test_commitment_window_end_before_start_rejected() {
    let json = r#"{
      "storage": [],
      "filling_storage": [],
      "past_anticipated_commitments": [
        { "thermal_id": 7, "start_date": "2026-02-01", "end_date": "2026-01-01", "value_mw": 120.0 }
      ]
    }"#;
    let err = parse(json).unwrap_err();
    match &err {
        Failure::Schema { message, .. } => {
            assert!(
                message.contains("end_date must be after start_date"),
                "message should contain 'end_date must be after start_date', got: {message}"
            );
            assert!(
                message.contains("thermal_id 7"),
                "message should name the entity, got: {message}"
            );
        }
        other => panic!("expected SchemaError, got: {other:?}"),
    }
}

/// Two overlapping commitment windows for the same thermal are rejected by
/// the shared windowed-record validator.
#[test]
fn test_commitment_windows_overlapping_rejected() {
    let json = r#"{
      "storage": [],
      "filling_storage": [],
      "past_anticipated_commitments": [
        { "thermal_id": 7, "start_date": "2026-01-01", "end_date": "2026-02-15", "value_mw": 120.0 },
        { "thermal_id": 7, "start_date": "2026-02-01", "end_date": "2026-03-01", "value_mw": 130.0 }
      ]
    }"#;
    let err = parse(json).unwrap_err();
    match &err {
        Failure::Schema { message, .. } => {
            assert!(
                message.contains("overlapping"),
                "message should contain 'overlapping', got: {message}"
            );
            assert!(
                message.contains("thermal_id 7"),
                "message should name thermal_id (the commitment surface's own entity \
                 label), got: {message}"
            );
            assert!(
                !message.contains("hydro_id"),
                "message must not borrow the hydro surfaces' entity label, got: {message}"
            );
        }
        other => panic!("expected SchemaError, got: {other:?}"),
    }
}

/// Given a `initial_conditions.json` without a `past_defluences` key,
/// `parse_initial_conditions` returns `Ok(ic)` with an empty
/// `past_defluences` vec.
#[test]
fn test_past_defluences_absent_defaults_to_empty() {

    let ic = parse(VALID_JSON).unwrap();
    assert!(
        ic.past_defluences.is_empty(),
        "absent past_defluences must default to empty vec"
    );
}

/// Given two valid `past_defluences` windows for the same hydro with adjacent
/// (non-overlapping) date ranges plus one for another hydro, the entries are
/// parsed with dates as `NaiveDate` and sorted by `(hydro_id, start_date)`
/// (declaration-order invariance).
#[test]
fn test_parse_valid_past_defluences_windows_sorted() {
    let json = r#"{
      "storage": [],
      "filling_storage": [],
      "past_defluences": [
        { "hydro_id": 1, "start_date": "2023-12-30", "end_date": "2024-01-01", "value_m3s": 200.0 },
        { "hydro_id": 0, "start_date": "2023-12-25", "end_date": "2023-12-28", "value_m3s": 600.0 },
        { "hydro_id": 0, "start_date": "2023-12-28", "end_date": "2024-01-01", "value_m3s": 500.0 }
      ]
    }"#;
    let ic = parse(json).unwrap();
    assert_eq!(ic.past_defluences.len(), 3);
    assert_eq!(ic.past_defluences[0].hydro_id, EntityId(0));
    assert_eq!(
        ic.past_defluences[0].start_date,
        date(2023, 12, 25)
    );
    assert_eq!(ic.past_defluences[1].hydro_id, EntityId(0));
    assert_eq!(
        ic.past_defluences[1].start_date,
        date(2023, 12, 28)
    );
    assert_eq!(ic.past_defluences[2].hydro_id, EntityId(1));
    assert!((value(ic.past_defluences[2].value_m3s) - (200.0)).abs() < f64::EPSILON);
}

/// Given two `past_defluences` windows for the same hydro with overlapping
/// date ranges, `parse_initial_conditions` returns a schema error
/// with `message` containing "overlapping".
#[test]
fn test_past_defluences_overlapping_windows_rejected() {
    let json = r#"{
      "storage": [],
      "filling_storage": [],
      "past_defluences": [
        { "hydro_id": 0, "start_date": "2023-12-25", "end_date": "2023-12-30", "value_m3s": 500.0 },
        { "hydro_id": 0, "start_date": "2023-12-28", "end_date": "2024-01-01", "value_m3s": 480.0 }
      ]
    }"#;
    let err = parse(json).unwrap_err();
    match &err {
        Failure::Schema { message, .. } => {
            assert!(
                message.contains("overlapping"),
                "message should contain 'overlapping', got: {message}"
            );
        }
        other => panic!("expected SchemaError, got: {other:?}"),
    }
}

/// Given a `past_defluences` window where `end_date <= start_date`,
/// `parse_initial_conditions` returns a schema error with
/// `message` containing "`end_date` must be after `start_date`".
#[test]
fn test_past_defluences_end_before_start_rejected() {
    let json = r#"{
      "storage": [],
      "filling_storage": [],
      "past_defluences": [
        { "hydro_id": 0, "start_date": "2024-01-01", "end_date": "2023-12-30", "value_m3s": 500.0 }
      ]
    }"#;
    let err = parse(json).unwrap_err();
    match &err {
        Failure::Schema { message, .. } => {
            assert!(
                message.contains("end_date must be after start_date"),
                "message should contain 'end_date must be after start_date', got: {message}"
            );
            assert!(
                message.contains("hydro_id 0"),
                "message should name the entity, got: {message}"
            );
        }
        other => panic!("expected SchemaError, got: {other:?}"),
    }
}

/// Given a `past_defluences` window with `value_m3s: -1.0`,
/// `parse_initial_conditions` returns a schema error with
/// field containing `"value_m3s"`.
#[test]
fn test_past_defluences_negative_value_rejected() {
    let json = r#"{
      "storage": [],
      "filling_storage": [],
      "past_defluences": [
        { "hydro_id": 0, "start_date": "2023-12-30", "end_date": "2024-01-01", "value_m3s": -1.0 }
      ]
    }"#;
    let err = parse(json).unwrap_err();
    match &err {
        Failure::Schema { field, .. } => {
            assert!(
                field.contains("value_m3s"),
                "field should contain 'value_m3s', got: {field}"
            );
        }
        other => panic!("expected SchemaError, got: {other:?}"),
    }
}

// ── Deliveries after the horizon ─────────────────────────────────────────────

fn deliveries(entries: &str) -> Result<InitialConditions, Failure> {
    parse(&format!(
        r#"{{ "storage": [], "filling_storage": [], "future_anticipated_deliveries": [{entries}] }}"#
    ))
}

#[test]
fn future_deliveries_are_sorted() {
    let ic = deliveries(
        r#"{ "thermal_id": 2, "delivery_start": "2030-01-01", "delivery_end": "2030-02-01", "min_mw": 1.0, "max_mw": 2.0 },
           { "thermal_id": 1, "delivery_start": "2030-02-01", "delivery_end": "2030-03-01", "min_mw": 3.0, "max_mw": 3.0 },
           { "thermal_id": 1, "delivery_start": "2030-01-01", "delivery_end": "2030-02-01", "min_mw": 4.0, "max_mw": 5.0 }"#,
    )
    .unwrap();
    let keys: Vec<(i32, Date)> = ic
        .future_anticipated_deliveries
        .iter()
        .map(|d| (d.thermal_id.0, d.delivery_start))
        .collect();
    assert_eq!(
        keys,
        vec![
            (1, date(2030, 1, 1)),
            (1, date(2030, 2, 1)),
            (2, date(2030, 1, 1)),
        ]
    );
    assert_eq!(value(ic.future_anticipated_deliveries[0].max_mw), 5.0);
}

#[test]
fn a_future_delivery_with_crossed_bounds_is_rejected() {
    let err = deliveries(
        r#"{ "thermal_id": 2, "delivery_start": "2030-01-01", "delivery_end": "2030-02-01", "min_mw": 2.0, "max_mw": 1.0 }"#,
    )
    .unwrap_err();
    match err {
        Failure::Schema { field, .. } => {
            assert!(field.contains("future_anticipated_deliveries[0]"), "{field}")
        }
        other => panic!("expected a schema error, got: {other:?}"),
    }
}

#[test]
fn two_future_deliveries_from_one_day_are_rejected() {
    let err = deliveries(
        r#"{ "thermal_id": 2, "delivery_start": "2030-01-01", "delivery_end": "2030-02-01", "min_mw": 1.0, "max_mw": 2.0 },
           { "thermal_id": 2, "delivery_start": "2030-01-01", "delivery_end": "2030-02-01", "min_mw": 1.0, "max_mw": 2.0 }"#,
    )
    .unwrap_err();
    match err {
        Failure::Schema { field, message } => {
            assert!(field.contains("future_anticipated_deliveries[1]"), "{field}");
            assert!(message.contains("duplicate"), "{message}");
        }
        other => panic!("expected a schema error, got: {other:?}"),
    }
}

// ── Windows ──────────────────────────────────────────────────────────────────

#[test]
fn iso_dates_are_read() {
    assert_eq!(
        parse_iso_date("d".to_string(), "2024-02-29", "f.json").unwrap(),
        date(2024, 2, 29)
    );
    for bad in ["2023-02-29", "2024/02/29", "", "2024-13-01", "not-a-date"] {
        match failure(parse_iso_date("d".to_string(), bad, "f.json").unwrap_err()) {
            Failure::Schema { field, message } => {
                assert_eq!(field, "d");
                assert!(message.contains(&format!("{bad:?}")), "{message}");
            }
            other => panic!("expected a schema error, got: {other:?}"),
        }
    }
}

#[test]
fn a_window_with_a_value_that_is_not_finite_is_rejected() {
    let records = vec![WindowedRecord {
        entity_id: 7,
        start_date: date(2026, 1, 1),
        end_date: date(2026, 2, 1),
        value: float(f64::NAN),
    }];
    let err = validate_windowed_records(&records, "commitments", "thermal_id", "value_mw", "f.json")
        .unwrap_err();
    match failure(err) {
        Failure::Schema { field, message } => {
            assert_eq!(field, "commitments[0].value_mw");
            assert!(message.contains("finite"), "{message}");
        }
        other => panic!("expected a schema error, got: {other:?}"),
    }
}

/// Two files with the same entries, each list turned round, convert to the same
/// conditions: volumes by plant, the others by entity and start.
#[test]
fn conversion_sorts_each_list_and_ignores_its_order() {
    let turned = |turn: bool| {
        let mut storage: Vec<RawHydroStorage> = [(2, 20.0), (1, 10.0)]
            .iter()
            .map(|(hydro_id, v)| RawHydroStorage {
                hydro_id: *hydro_id,
                value_hm3: float(*v),
            })
            .collect();
        let mut filling_storage: Vec<RawHydroStorage> = [(4, 40.0), (3, 30.0)]
            .iter()
            .map(|(hydro_id, v)| RawHydroStorage {
                hydro_id: *hydro_id,
                value_hm3: float(*v),
            })
            .collect();
        let windows = [
            (2, "2024-01-01", "2024-01-08", 1.0),
            (1, "2024-01-08", "2024-01-15", 2.0),
            (1, "2024-01-01", "2024-01-08", 3.0),
        ];
        let mut recent_observations: Vec<RawRecentObservation> = windows
            .iter()
            .map(|(hydro_id, start, end, v)| RawRecentObservation {
                hydro_id: *hydro_id,
                start_date: start.to_string(),
                end_date: end.to_string(),
                value_m3s: float(*v),
            })
            .collect();
        let mut past_anticipated_commitments: Vec<RawAnticipatedCommitmentHistory> = windows
            .iter()
            .map(|(thermal_id, start, end, v)| RawAnticipatedCommitmentHistory {
                thermal_id: *thermal_id,
                start_date: start.to_string(),
                end_date: end.to_string(),
                value_mw: float(*v),
            })
            .collect();
        let mut past_defluences: Vec<RawHydroPastDefluence> = windows
            .iter()
            .map(|(hydro_id, start, end, v)| RawHydroPastDefluence {
                hydro_id: *hydro_id,
                start_date: start.to_string(),
                end_date: end.to_string(),
                value_m3s: float(*v),
            })
            .collect();
        let mut future_anticipated_deliveries: Vec<RawFutureAnticipatedDelivery> = windows
            .iter()
            .map(|(thermal_id, start, end, v)| RawFutureAnticipatedDelivery {
                thermal_id: *thermal_id,
                delivery_start: start.to_string(),
                delivery_end: end.to_string(),
                min_mw: float(*v),
                max_mw: float(100.0),
            })
            .collect();
        if turn {
            storage.reverse();
            filling_storage.reverse();
            recent_observations.reverse();
            past_anticipated_commitments.reverse();
            past_defluences.reverse();
            future_anticipated_deliveries.reverse();
        }
        let raw = RawInitialConditions {
            storage,
            filling_storage,
            past_anticipated_commitments,
            recent_observations,
            past_defluences,
            future_anticipated_deliveries,
        };
        let windows = validate_raw(&raw, "initial_conditions.json").expect("valid");
        convert(&raw, &windows)
    };
    let ic = turned(false);
    assert_eq!(ic, turned(true));
    assert_eq!(
        ic.storage.iter().map(|s| (s.hydro_id.0, value(s.value_hm3))).collect::<Vec<_>>(),
        vec![(1, 10.0), (2, 20.0)]
    );
    assert_eq!(
        ic.filling_storage.iter().map(|s| (s.hydro_id.0, value(s.value_hm3))).collect::<Vec<_>>(),
        vec![(3, 30.0), (4, 40.0)]
    );
    let expected = vec![
        (1, date(2024, 1, 1), 3.0),
        (1, date(2024, 1, 8), 2.0),
        (2, date(2024, 1, 1), 1.0),
    ];
    assert_eq!(
        ic.recent_observations
            .iter()
            .map(|o| (o.hydro_id.0, o.start_date, value(o.value_m3s)))
            .collect::<Vec<_>>(),
        expected
    );
    assert_eq!(
        ic.past_anticipated_commitments
            .iter()
            .map(|c| (c.thermal_id.0, c.start_date, value(c.value_mw)))
            .collect::<Vec<_>>(),
        expected
    );
    assert_eq!(
        ic.past_defluences
            .iter()
            .map(|d| (d.hydro_id.0, d.start_date, value(d.value_m3s)))
            .collect::<Vec<_>>(),
        expected
    );
    assert_eq!(
        ic.future_anticipated_deliveries
            .iter()
            .map(|d| (d.thermal_id.0, d.delivery_start, value(d.min_mw)))
            .collect::<Vec<_>>(),
        expected
    );
}

/// A volume must be at least zero, which what is no number is not.
#[test]
fn a_volume_that_is_no_number_is_rejected() {
    let raw = |v: f64| RawInitialConditions {
        storage: vec![RawHydroStorage {
            hydro_id: 1,
            value_hm3: float(v),
        }],
        filling_storage: vec![],
        past_anticipated_commitments: vec![],
        recent_observations: vec![],
        past_defluences: vec![],
        future_anticipated_deliveries: vec![],
    };
    for v in [f64::NAN, -f64::NAN, -1.0, f64::NEG_INFINITY] {
        match parse_initial_conditions(&raw(v), "initial_conditions.json").map_err(failure) {
            Err(Failure::Schema { field, message }) => {
                assert_eq!(field, "storage[0].value_hm3");
                assert!(message.contains("must be >= 0.0"), "{message}");
            }
            other => panic!("{v}: {other:?}"),
        }
    }
    for v in [0.0, -0.0, 5.0, f64::INFINITY] {
        assert!(parse_initial_conditions(&raw(v), "initial_conditions.json").is_ok(), "{v}");
    }
}
