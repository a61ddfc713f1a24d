//! Tables of extension inputs: productivity overrides, tailrace curves, reference
//! volumes, evaporation models and deviation points.

use cobre_io::entities::{EntityId, StudyPos};
use cobre_io::error::LoadError;
use cobre_io::extensions::evaporation_models::parse_evaporation_models;
use cobre_io::extensions::fpha_deviation_points::parse_fpha_deviation_points;
use cobre_io::extensions::hydro_energy_productivity::parse_hydro_energy_productivity;
use cobre_io::extensions::hydro_reference_volumes::build_hydro_reference_volumes_resolved;
use cobre_io::extensions::tailrace_curves::parse_tailrace_curves;
use cobre_io::float::Float64;
use cobre_io::table::{Cell, Cells, Column, Table};
use cobre_io::text::Piece;

fn float(x: f64) -> Float64 {
    Float64 { bits: x.to_bits() }
}

fn render(message: &[Piece]) -> String {
    message
        .iter()
        .map(|p| match p {
            Piece::Text(s) => s.to_string(),
            Piece::Name(s) => s.clone(),
            Piece::Quoted(s) => format!("{s:?}"),
            Piece::Int(n) => n.to_string(),
            Piece::Count(n) => n.to_string(),
            Piece::Float(x) => format!("{}", f64::from_bits(x.bits)),
            Piece::Day(d) => format!("{:04}-{:02}-{:02}", d.year, d.month, d.day),
        })
        .collect()
}

fn schema_error(e: LoadError) -> (String, String) {
    match e {
        LoadError::SchemaError { field, message, .. } => (field, render(&message)),
        other => panic!("expected SchemaError, got: {other:?}"),
    }
}

fn ints(name: &str, nullable: bool, values: &[Option<i32>]) -> Column {
    Column {
        name: name.to_string(),
        nullable,
        cells: Cells::Int32(
            values
                .iter()
                .map(|v| Cell {
                    value: v.unwrap_or(0),
                    null: v.is_none(),
                })
                .collect(),
        ),
    }
}

fn some_ints(name: &str, values: &[i32]) -> Column {
    let values: Vec<Option<i32>> = values.iter().map(|v| Some(*v)).collect();
    ints(name, false, &values)
}

fn numbers(name: &str, nullable: bool, values: &[Option<f64>]) -> Column {
    Column {
        name: name.to_string(),
        nullable,
        cells: Cells::Float64(
            values
                .iter()
                .map(|v| Cell {
                    value: float(v.unwrap_or(0.0)),
                    null: v.is_none(),
                })
                .collect(),
        ),
    }
}

fn some_numbers(name: &str, values: &[f64]) -> Column {
    let values: Vec<Option<f64>> = values.iter().map(|v| Some(*v)).collect();
    numbers(name, false, &values)
}

fn texts(name: &str, values: &[&str]) -> Column {
    Column {
        name: name.to_string(),
        nullable: false,
        cells: Cells::Utf8(
            values
                .iter()
                .map(|v| Cell {
                    value: v.to_string(),
                    null: false,
                })
                .collect(),
        ),
    }
}

// ── Productivity overrides ───────────────────────────────────────────────────

fn productivity(
    hydro_ids: &[i32],
    stage_ids: &[Option<i32>],
    rho_eqs: &[Option<f64>],
    v_refs: &[Option<f64>],
    q_refs: &[Option<f64>],
    rho_esps: &[Option<f64>],
) -> Vec<Table> {
    vec![Table {
        rows: hydro_ids.len(),
        columns: vec![
            some_ints("hydro_id", hydro_ids),
            ints("stage_id", true, stage_ids),
            numbers("equivalent_productivity_mw_per_m3s", true, rho_eqs),
            numbers("reference_volume_hm3", true, v_refs),
            numbers("reference_outflow_m3s", true, q_refs),
            numbers("specific_productivity_mw_per_m3s_per_m", true, rho_esps),
        ],
    }]
}

const PRODUCTIVITY: &str = "hydro_energy_productivity.parquet";

#[test]
fn test_round_trip_three_rows() {
    let batch = productivity(
        &[1, 1, 2],
        &[Some(0), None, None],
        &[Some(3.6), Some(4.0), Some(5.0)],
        &[None, Some(120.0), None],
        &[None, None, Some(200.0)],
        &[None, Some(0.009), None],
    );
    let rows = parse_hydro_energy_productivity(&batch, PRODUCTIVITY).unwrap();

    assert_eq!(rows.len(), 3, "expected 3 rows");
    // Sorted: (hydro=1, NULL) → (hydro=1, stage=0) → (hydro=2, NULL)
    assert_eq!(rows[0].hydro_id, EntityId(1));
    assert_eq!(rows[0].stage_id, None);
    assert_eq!(rows[1].hydro_id, EntityId(1));
    assert_eq!(rows[1].stage_id, Some(0));
    assert_eq!(rows[2].hydro_id, EntityId(2));
    assert_eq!(rows[2].stage_id, None);
    assert_eq!(rows[0].reference_volume_hm3, Some(float(120.0)));
    assert_eq!(
        rows[0].specific_productivity_mw_per_m3s_per_m,
        Some(float(0.009))
    );
    assert_eq!(rows[2].reference_outflow_m3s, Some(float(200.0)));
}

#[test]
fn test_zero_rho_eq_accepted() {
    let batch = productivity(&[1], &[Some(0)], &[Some(0.0)], &[None], &[None], &[None]);
    let rows = parse_hydro_energy_productivity(&batch, PRODUCTIVITY)
        .expect("zero ρ_eq must be accepted as a planned-outage marker");
    assert_eq!(rows.len(), 1);
    assert_eq!(
        rows[0].equivalent_productivity_mw_per_m3s,
        Some(float(0.0))
    );
}

#[test]
fn test_negative_rho_eq_rejected() {
    let batch = productivity(&[1], &[Some(0)], &[Some(-0.1)], &[None], &[None], &[None]);
    let err = parse_hydro_energy_productivity(&batch, PRODUCTIVITY).unwrap_err();
    let (field, _) = schema_error(err);
    assert!(
        field.contains("equivalent_productivity_mw_per_m3s"),
        "field should name the column, got: {field}"
    );
}

#[test]
fn test_negative_v_ref_rejected() {
    let batch = productivity(&[1], &[None], &[None], &[Some(-1.0)], &[None], &[None]);
    let err = parse_hydro_energy_productivity(&batch, PRODUCTIVITY).unwrap_err();
    let (field, _) = schema_error(err);
    assert!(
        field.contains("reference_volume_hm3"),
        "field should name the column, got: {field}"
    );
}

#[test]
fn test_nan_q_ref_rejected() {
    let batch = productivity(&[1], &[None], &[None], &[None], &[Some(f64::NAN)], &[None]);
    let err = parse_hydro_energy_productivity(&batch, PRODUCTIVITY).unwrap_err();
    assert!(
        matches!(err, LoadError::SchemaError { .. }),
        "expected SchemaError, got: {err:?}"
    );
}

#[test]
fn test_all_overrides_null_accepted() {
    let batch = productivity(&[1], &[Some(0)], &[None], &[None], &[None], &[None]);
    let rows = parse_hydro_energy_productivity(&batch, PRODUCTIVITY).unwrap();
    assert_eq!(rows.len(), 1);
    let row = &rows[0];
    assert_eq!(row.hydro_id, EntityId(1));
    assert_eq!(row.stage_id, Some(0));
    assert!(row.equivalent_productivity_mw_per_m3s.is_none());
    assert!(row.reference_volume_hm3.is_none());
    assert!(row.reference_outflow_m3s.is_none());
    assert!(row.specific_productivity_mw_per_m3s_per_m.is_none());
}

#[test]
fn test_null_hydro_id_rejected() {
    let mut batch = productivity(&[0], &[None], &[None], &[None], &[None], &[None]);
    batch[0].columns[0] = ints("hydro_id", true, &[None]);
    let err = parse_hydro_energy_productivity(&batch, PRODUCTIVITY).unwrap_err();
    let (field, _) = schema_error(err);
    assert!(
        field.contains("hydro_id"),
        "field should mention hydro_id, got: {field}"
    );
}

#[test]
fn test_zero_q_ref_accepted() {
    let batch = productivity(&[1], &[None], &[None], &[None], &[Some(0.0)], &[None]);
    let rows = parse_hydro_energy_productivity(&batch, PRODUCTIVITY).unwrap();
    assert_eq!(rows.len(), 1);
    assert_eq!(rows[0].reference_outflow_m3s, Some(float(0.0)));
}

#[test]
fn test_duplicate_keys_not_rejected_by_parser() {
    let batch = productivity(
        &[1, 1],
        &[Some(0), Some(0)],
        &[Some(3.6), Some(4.0)],
        &[None, None],
        &[None, None],
        &[None, None],
    );
    let rows = parse_hydro_energy_productivity(&batch, PRODUCTIVITY).unwrap();
    assert_eq!(rows.len(), 2);
    // Rows with one key keep their order.
    assert_eq!(
        rows[0].equivalent_productivity_mw_per_m3s,
        Some(float(3.6))
    );
}

#[test]
fn test_sort_order_null_stage_before_concrete() {
    let batch = productivity(
        &[2, 1, 1],
        &[None, Some(5), None],
        &[Some(1.0), Some(2.0), Some(3.0)],
        &[None, None, None],
        &[None, None, None],
        &[None, None, None],
    );
    let rows = parse_hydro_energy_productivity(&batch, PRODUCTIVITY).unwrap();

    // Expected order: (hydro=1, NULL) → (hydro=1, stage=5) → (hydro=2, NULL)
    assert_eq!(rows[0].hydro_id, EntityId(1));
    assert_eq!(rows[0].stage_id, None);
    assert_eq!(rows[1].hydro_id, EntityId(1));
    assert_eq!(rows[1].stage_id, Some(5));
    assert_eq!(rows[2].hydro_id, EntityId(2));
    assert_eq!(rows[2].stage_id, None);
}

#[test]
fn a_row_for_all_stages_comes_before_negative_stages() {
    let stages = |order: &[Option<i32>]| -> Vec<Option<i32>> {
        let nones = vec![None; order.len()];
        let batch = productivity(
            &vec![1; order.len()],
            order,
            &nones,
            &nones,
            &nones,
            &nones,
        );
        parse_hydro_energy_productivity(&batch, PRODUCTIVITY)
            .unwrap()
            .iter()
            .map(|r| r.stage_id)
            .collect()
    };
    assert_eq!(stages(&[Some(-1), None]), vec![None, Some(-1)]);
    assert_eq!(stages(&[None, Some(-1)]), vec![None, Some(-1)]);
    assert_eq!(
        stages(&[Some(3), Some(-2), None, Some(i32::MIN), Some(-1), Some(0)]),
        vec![None, Some(i32::MIN), Some(-2), Some(-1), Some(0), Some(3)]
    );
}

#[test]
fn a_zero_reference_volume_is_rejected() {
    let batch = productivity(&[1], &[None], &[None], &[Some(0.0)], &[None], &[None]);
    let (field, _) =
        schema_error(parse_hydro_energy_productivity(&batch, PRODUCTIVITY).unwrap_err());
    assert!(field.contains("reference_volume_hm3"), "{field}");
}

// ── Tailrace curves ──────────────────────────────────────────────────────────

const TAILRACE: &str = "tailrace_curves.parquet";

struct RowSpec {
    hydro_id: i32,
    family_id: i32,
    href_jus_m: Option<f64>,
    segment_id: i32,
    q_jus_inf_m3s: f64,
    q_jus_sup_m3s: f64,
    a_cf: [f64; 5],
}

fn tailrace(rows: &[RowSpec]) -> Table {
    let column = |name: &str, f: &dyn Fn(&RowSpec) -> f64| {
        some_numbers(name, &rows.iter().map(f).collect::<Vec<f64>>())
    };
    let ids = |name: &str, f: &dyn Fn(&RowSpec) -> i32| {
        some_ints(name, &rows.iter().map(f).collect::<Vec<i32>>())
    };
    let hrefs: Vec<Option<f64>> = rows.iter().map(|r| r.href_jus_m).collect();
    Table {
        rows: rows.len(),
        columns: vec![
            ids("hydro_id", &|r| r.hydro_id),
            ids("family_id", &|r| r.family_id),
            numbers("href_jus_m", true, &hrefs),
            ids("segment_id", &|r| r.segment_id),
            column("q_jus_inf_m3s", &|r| r.q_jus_inf_m3s),
            column("q_jus_sup_m3s", &|r| r.q_jus_sup_m3s),
            column("a_cf0", &|r| r.a_cf[0]),
            column("a_cf1", &|r| r.a_cf[1]),
            column("a_cf2", &|r| r.a_cf[2]),
            column("a_cf3", &|r| r.a_cf[3]),
            column("a_cf4", &|r| r.a_cf[4]),
        ],
    }
}

/// A valid segment with a fixed set of coefficients.
fn seg(hydro_id: i32, family_id: i32, href: Option<f64>, segment_id: i32) -> RowSpec {
    RowSpec {
        hydro_id,
        family_id,
        href_jus_m: href,
        segment_id,
        q_jus_inf_m3s: 0.0,
        q_jus_sup_m3s: 1500.0,
        a_cf: [320.0, 1.0e-3, -3.1521e-17, 0.0, 0.0],
    }
}

#[test]
fn test_segments_sorted_ascending() {
    let batch = tailrace(&[seg(1, 1, Some(885.3), 2), seg(1, 1, Some(885.3), 1)]);
    let rows = parse_tailrace_curves(&vec![batch], TAILRACE).unwrap();

    assert_eq!(rows.len(), 2);
    assert_eq!(rows[0].segment_id, 1);
    assert_eq!(rows[1].segment_id, 2);
    assert_eq!(rows[0].hydro_id, EntityId(1));
    assert_eq!(rows[0].href_jus_m, Some(float(885.3)));
}

#[test]
fn test_negative_coefficient_accepted() {
    let mut spec = seg(1, 1, Some(885.3), 1);
    spec.a_cf[2] = -3.1521e-17;
    let rows = parse_tailrace_curves(&vec![tailrace(&[spec])], TAILRACE).unwrap();

    assert_eq!(rows.len(), 1);
    assert_eq!(rows[0].a_cf2.bits, (-3.1521e-17_f64).to_bits());
}

#[test]
fn test_null_href_maps_to_none() {
    let rows = parse_tailrace_curves(&vec![tailrace(&[seg(1, 1, None, 1)])], TAILRACE).unwrap();

    assert_eq!(rows.len(), 1);
    assert_eq!(rows[0].href_jus_m, None);
}

#[test]
fn a_null_is_rejected_in_every_column_but_the_level() {
    for k in 0..11 {
        let mut batch = tailrace(&[seg(1, 1, Some(885.3), 1), seg(1, 1, Some(885.3), 2)]);
        let name = batch.columns[k].name.clone();
        match &mut batch.columns[k].cells {
            Cells::Int32(cells) => cells[1].null = true,
            Cells::Float64(cells) => cells[1].null = true,
            other => panic!("{other:?}"),
        }
        let result = parse_tailrace_curves(&vec![batch], TAILRACE);
        if name == "href_jus_m" {
            assert_eq!(result.unwrap()[1].href_jus_m, None);
        } else {
            let (field, message) = schema_error(result.unwrap_err());
            assert_eq!(field, format!("tailrace_curves[1].{name}"));
            assert_eq!(message, "value must not be null");
        }
    }
}

#[test]
fn a_null_is_named_before_a_bad_value_of_its_row() {
    let mut spec = seg(1, 1, Some(885.3), 1);
    spec.q_jus_inf_m3s = -1.0;
    let mut batch = tailrace(&[spec]);
    match &mut batch.columns[10].cells {
        Cells::Float64(cells) => cells[0].null = true,
        other => panic!("{other:?}"),
    }
    let (field, _) = schema_error(parse_tailrace_curves(&vec![batch], TAILRACE).unwrap_err());
    assert_eq!(field, "tailrace_curves[0].a_cf4");
}

#[test]
fn test_inverted_window_rejected() {
    let mut spec = seg(1, 1, Some(885.3), 1);
    spec.q_jus_inf_m3s = 1000.0;
    spec.q_jus_sup_m3s = 500.0;
    let err = parse_tailrace_curves(&vec![tailrace(&[spec])], TAILRACE).unwrap_err();

    let (field, _) = schema_error(err);
    assert!(
        field.contains("q_jus_sup_m3s"),
        "field should name q_jus_sup_m3s, got: {field}"
    );
    assert!(
        field.contains("[0]"),
        "field should name row 0, got: {field}"
    );
}

#[test]
fn tailrace_curves_test_declaration_order_invariance() {
    let order_one = tailrace(&[
        seg(7, 2, Some(900.0), 3),
        seg(7, 1, Some(885.0), 1),
        seg(3, 1, None, 2),
    ]);
    let order_two = tailrace(&[
        seg(3, 1, None, 2),
        seg(7, 2, Some(900.0), 3),
        seg(7, 1, Some(885.0), 1),
    ]);

    let rows_one = parse_tailrace_curves(&vec![order_one], TAILRACE).unwrap();
    let rows_two = parse_tailrace_curves(&vec![order_two], TAILRACE).unwrap();

    assert_eq!(rows_one, rows_two);
    for (x, y) in rows_one.iter().zip(rows_two.iter()) {
        assert_eq!(x.a_cf0.bits, y.a_cf0.bits);
        assert_eq!(x.a_cf2.bits, y.a_cf2.bits);
    }
}

#[test]
fn test_missing_coefficient_column() {
    let mut batch = tailrace(&[seg(1, 1, Some(885.3), 1)]);
    batch.columns.pop();
    let err = parse_tailrace_curves(&vec![batch], TAILRACE).unwrap_err();

    let (field, message) = schema_error(err);
    assert_eq!(field, "a_cf4");
    assert!(message.contains("missing column"), "{message}");
}

#[test]
fn test_wrong_type_segment_id() {
    let mut batch = tailrace(&[seg(1, 1, Some(885.3), 1)]);
    batch.columns[3] = some_numbers("segment_id", &[1.0]);
    let err = parse_tailrace_curves(&vec![batch], TAILRACE).unwrap_err();

    let (field, message) = schema_error(err);
    assert_eq!(field, "segment_id");
    assert_eq!(
        message,
        "column \"segment_id\" has type Float64 but Int32 is required"
    );
}

#[test]
fn test_nan_coefficient_rejected() {
    let mut spec = seg(1, 1, Some(885.3), 1);
    spec.a_cf[3] = f64::NAN;
    let err = parse_tailrace_curves(&vec![tailrace(&[spec])], TAILRACE).unwrap_err();

    let (field, _) = schema_error(err);
    assert!(field.contains("a_cf3"));
}

#[test]
fn test_infinite_bound_rejected() {
    let mut spec = seg(1, 1, Some(885.3), 1);
    spec.q_jus_inf_m3s = f64::INFINITY;
    spec.q_jus_sup_m3s = f64::INFINITY;
    let err = parse_tailrace_curves(&vec![tailrace(&[spec])], TAILRACE).unwrap_err();

    let (field, _) = schema_error(err);
    assert!(field.contains("q_jus_inf_m3s"));
}

#[test]
fn test_negative_bound_rejected() {
    let mut spec = seg(1, 1, Some(885.3), 1);
    spec.q_jus_inf_m3s = -10.0;
    let err = parse_tailrace_curves(&vec![tailrace(&[spec])], TAILRACE).unwrap_err();

    let (field, _) = schema_error(err);
    assert!(field.contains("q_jus_inf_m3s"));
}

#[test]
fn test_negative_href_rejected() {
    let err =
        parse_tailrace_curves(&vec![tailrace(&[seg(1, 1, Some(-5.0), 1)])], TAILRACE).unwrap_err();

    let (field, _) = schema_error(err);
    assert!(field.contains("href_jus_m"));
}

#[test]
fn test_empty_parquet_returns_empty_vec() {
    let rows = parse_tailrace_curves(&vec![tailrace(&[])], TAILRACE).unwrap();
    assert!(rows.is_empty());
}

#[test]
fn test_multiple_record_batches() {
    let batch1 = tailrace(&[seg(5, 1, None, 2), seg(5, 1, None, 1)]);
    let batch2 = tailrace(&[seg(5, 1, None, 3)]);
    let rows = parse_tailrace_curves(&vec![batch1, batch2], TAILRACE).unwrap();

    assert_eq!(rows.len(), 3);
    assert_eq!(rows[0].segment_id, 1);
    assert_eq!(rows[1].segment_id, 2);
    assert_eq!(rows[2].segment_id, 3);
}

#[test]
fn test_multiple_families_sorted() {
    let batch = tailrace(&[
        seg(1, 2, Some(900.0), 1),
        seg(1, 1, Some(885.0), 2),
        seg(1, 1, Some(885.0), 1),
    ]);
    let rows = parse_tailrace_curves(&vec![batch], TAILRACE).unwrap();

    assert_eq!(rows.len(), 3);
    assert_eq!((rows[0].family_id, rows[0].segment_id), (1, 1));
    assert_eq!((rows[1].family_id, rows[1].segment_id), (1, 2));
    assert_eq!((rows[2].family_id, rows[2].segment_id), (2, 1));
}

#[test]
fn rows_of_later_batches_are_counted_on() {
    let batch1 = tailrace(&[seg(5, 1, None, 2), seg(5, 1, None, 1)]);
    let mut bad = seg(5, 1, None, 3);
    bad.a_cf[0] = f64::NEG_INFINITY;
    let batch2 = tailrace(&[bad]);
    let (field, _) =
        schema_error(parse_tailrace_curves(&vec![batch1, batch2], TAILRACE).unwrap_err());
    assert!(field.contains("[2]") && field.contains("a_cf0"), "{field}");
}

// ── Reference volumes ────────────────────────────────────────────────────────

#[test]
fn resolved_constructor_returns_stored_value_directly() {
    let resolver = build_hydro_reference_volumes_resolved(
        &[
            (EntityId(42), StudyPos(0), float(800.0)),
            (EntityId(42), StudyPos(1), float(150.0)),
            (EntityId(7), StudyPos(0), float(1234.5)),
        ],
        float(999.0),
    );
    assert_eq!(resolver.get(EntityId(42), StudyPos(0)), float(800.0));
    assert_eq!(resolver.get(EntityId(42), StudyPos(1)), float(150.0));
    assert_eq!(resolver.get(EntityId(7), StudyPos(0)), float(1234.5));
}

#[test]
fn resolved_constructor_falls_back_to_default_for_unpopulated_key() {
    let resolver = build_hydro_reference_volumes_resolved(
        &[(EntityId(42), StudyPos(0), float(800.0))],
        float(999.0),
    );
    assert_eq!(resolver.get(EntityId(42), StudyPos(5)), float(999.0));
    assert_eq!(resolver.get(EntityId(99), StudyPos(0)), float(999.0));
}

#[test]
fn resolved_constructor_is_order_independent() {
    let forward = build_hydro_reference_volumes_resolved(
        &[
            (EntityId(1), StudyPos(0), float(10.0)),
            (EntityId(2), StudyPos(0), float(20.0)),
        ],
        float(0.0),
    );
    let reverse = build_hydro_reference_volumes_resolved(
        &[
            (EntityId(2), StudyPos(0), float(20.0)),
            (EntityId(1), StudyPos(0), float(10.0)),
        ],
        float(0.0),
    );
    assert_eq!(
        forward.get(EntityId(1), StudyPos(0)).bits,
        reverse.get(EntityId(1), StudyPos(0)).bits
    );
    assert_eq!(
        forward.get(EntityId(2), StudyPos(0)).bits,
        reverse.get(EntityId(2), StudyPos(0)).bits
    );
}

#[test]
fn the_order_of_volumes_does_not_matter_where_a_key_is_repeated_with_one_value() {
    let a = (EntityId(1), StudyPos(0), float(10.0));
    let b = (EntityId(2), StudyPos(0), float(20.0));
    for volumes in [[a, a, b], [a, b, a], [b, a, a]] {
        let resolver = build_hydro_reference_volumes_resolved(&volumes, float(0.0));
        assert_eq!(resolver.get(EntityId(1), StudyPos(0)), float(10.0));
        assert_eq!(resolver.get(EntityId(2), StudyPos(0)), float(20.0));
        assert_eq!(resolver.get(EntityId(1), StudyPos(1)), float(0.0));
    }
}

#[test]
fn the_last_volume_for_a_key_counts() {
    let resolver = build_hydro_reference_volumes_resolved(
        &[
            (EntityId(-1), StudyPos(usize::MAX), float(10.0)),
            (EntityId(-1), StudyPos(usize::MAX), float(20.0)),
        ],
        float(0.0),
    );
    assert_eq!(
        resolver.get(EntityId(-1), StudyPos(usize::MAX)),
        float(20.0)
    );
    assert_eq!(resolver.get(EntityId(0), StudyPos(usize::MAX)), float(0.0));
}

// ── Evaporation models and deviation points ──────────────────────────────────

fn evaporation(intercept: f64) -> Table {
    Table {
        rows: 1,
        columns: vec![
            some_ints("hydro_id", &[3]),
            ints("stage_id", true, &[None]),
            some_numbers("intercept_m3s", &[intercept]),
            some_numbers("volume_slope_m3s_per_hm3", &[0.5]),
            some_numbers("reference_volume_hm3", &[100.0]),
            texts("source", &["default_midpoint"]),
        ],
    }
}

#[test]
fn evaporation_models_are_read() {
    let rows = parse_evaporation_models(&vec![evaporation(1.0)], "e.parquet").unwrap();
    assert_eq!(rows.len(), 1);
    assert_eq!(rows[0].hydro_id, EntityId(3));
    assert_eq!(rows[0].source, "default_midpoint");
}

#[test]
fn a_missing_evaporation_column_is_named() {
    let mut table = evaporation(1.0);
    table.columns.pop();
    let (field, message) =
        schema_error(parse_evaporation_models(&vec![table], "e.parquet").unwrap_err());
    assert_eq!(field, "source");
    assert!(message.contains("source"), "{message}");
}

#[test]
fn an_infinite_evaporation_intercept_is_rejected() {
    let (field, _) = schema_error(
        parse_evaporation_models(&vec![evaporation(f64::INFINITY)], "e.parquet").unwrap_err(),
    );
    assert!(field.contains("intercept_m3s"), "{field}");
}

#[test]
fn a_deviation_point_column_of_another_type_is_named() {
    let table = Table {
        rows: 1,
        columns: vec![Column {
            name: "hydro_id".to_string(),
            nullable: false,
            cells: Cells::Other("Int64".to_string()),
        }],
    };
    let (field, message) =
        schema_error(parse_fpha_deviation_points(&vec![table], "d.parquet").unwrap_err());
    assert_eq!(field, "hydro_id");
    assert_eq!(
        message,
        "column \"hydro_id\" has type Int64 but Int32 is required"
    );
}
