//! Tables of hydro models: what is written and what is read back.

use cobre_io::entities::EntityId;
use cobre_io::extensions::evaporation_models::{parse_evaporation_models, EvaporationModelRow};
use cobre_io::extensions::fpha_deviation_points::{
    parse_fpha_deviation_points, FphaDeviationPointRow,
};
use cobre_io::extensions::fpha_hyperplanes::FphaHyperplaneRow;
use cobre_io::float::Float64;
use cobre_io::output::hydro_models::{
    build_evaporation_models_batch, build_fpha_deviation_points_batch,
    build_fpha_hyperplanes_batch,
};
use cobre_io::table::{Cells, Table};

fn float(x: f64) -> Float64 {
    Float64 { bits: x.to_bits() }
}

fn make_row(hydro_id: i32, plane_id: i32, gamma_0: f64, kappa: f64) -> FphaHyperplaneRow {
    FphaHyperplaneRow {
        hydro_id: EntityId(hydro_id),
        stage_id: None,
        plane_id,
        gamma_0: float(gamma_0),
        gamma_v: float(0.0023),
        gamma_q: float(0.892),
        gamma_s: float(-0.015),
        kappa: float(kappa),
        valid_v_min_hm3: None,
        valid_v_max_hm3: None,
        valid_q_max_m3s: None,
    }
}

fn cells<'a>(table: &'a Table, name: &str) -> &'a Cells {
    &table
        .columns
        .iter()
        .find(|c| c.name == name)
        .expect("column")
        .cells
}

fn integers(table: &Table, name: &str) -> Vec<Option<i32>> {
    match cells(table, name) {
        Cells::Int32(c) => c
            .iter()
            .map(|c| if c.null { None } else { Some(c.value) })
            .collect(),
        other => panic!("{name} holds {other:?}"),
    }
}

fn numbers(table: &Table, name: &str) -> Vec<Option<f64>> {
    match cells(table, name) {
        Cells::Float64(c) => c
            .iter()
            .map(|c| {
                if c.null {
                    None
                } else {
                    Some(f64::from_bits(c.value.bits))
                }
            })
            .collect(),
        other => panic!("{name} holds {other:?}"),
    }
}

fn fields(table: &Table) -> Vec<(String, &'static str, bool)> {
    table
        .columns
        .iter()
        .map(|c| {
            let kind = match &c.cells {
                Cells::Int8(_) => "Int8",
                Cells::Int32(_) => "Int32",
                Cells::Float64(_) => "Float64",
                Cells::Utf8(_) => "Utf8",
                Cells::Boolean(_) => "Boolean",
                Cells::Date32(_) => "Date32",
                Cells::Other(_) => "other",
            };
            (c.name.clone(), kind, c.nullable)
        })
        .collect()
}

fn expected(fields: &[(&str, &'static str, bool)]) -> Vec<(String, &'static str, bool)> {
    fields
        .iter()
        .map(|(n, k, nullable)| (n.to_string(), *k, *nullable))
        .collect()
}

// ── Hyperplanes ──────────────────────────────────────────────────────────────

#[test]
fn round_trip_5_rows_hydro_66() {
    let row = |plane_id: i32, g0: f64, gv: f64, gq: f64, gs: f64| FphaHyperplaneRow {
        hydro_id: EntityId(66),
        stage_id: None,
        plane_id,
        gamma_0: float(g0),
        gamma_v: float(gv),
        gamma_q: float(gq),
        gamma_s: float(gs),
        kappa: float(0.985),
        valid_v_min_hm3: None,
        valid_v_max_hm3: None,
        valid_q_max_m3s: None,
    };
    let rows = vec![
        row(0, 1250.5, 0.0023, 0.892, -0.015),
        row(1, 1180.2, 0.0031, 0.875, -0.012),
        row(2, 1320.8, 0.0018, 0.901, -0.018),
        row(3, 1095.4, 0.0042, 0.858, -0.010),
        row(4, 1410.1, 0.0012, 0.915, -0.022),
    ];

    let table = build_fpha_hyperplanes_batch(&rows);

    assert_eq!(table.rows, 5, "must have 5 rows");
    for (i, written) in rows.iter().enumerate() {
        assert_eq!(integers(&table, "hydro_id")[i], Some(written.hydro_id.0));
        assert_eq!(integers(&table, "plane_id")[i], Some(written.plane_id));
        assert_eq!(integers(&table, "stage_id")[i], written.stage_id);
        for (name, value) in [
            ("gamma_0", written.gamma_0),
            ("gamma_v", written.gamma_v),
            ("gamma_q", written.gamma_q),
            ("gamma_s", written.gamma_s),
            ("kappa", written.kappa),
        ] {
            assert_eq!(
                numbers(&table, name)[i],
                Some(f64::from_bits(value.bits)),
                "{name} mismatch"
            );
        }
    }
}

#[test]
fn empty_slice_produces_valid_parquet_with_zero_rows() {
    let table = build_fpha_hyperplanes_batch(&[]);
    assert_eq!(table.rows, 0, "must have 0 rows for empty input");
    assert_eq!(table.columns.len(), 11);
}

#[test]
fn schema_has_exactly_11_fields_with_correct_names_and_types() {
    let table = build_fpha_hyperplanes_batch(&[make_row(5, 0, 1000.0, 0.97)]);
    assert_eq!(
        fields(&table),
        expected(&[
            ("hydro_id", "Int32", false),
            ("stage_id", "Int32", true),
            ("plane_id", "Int32", false),
            ("gamma_0", "Float64", false),
            ("gamma_v", "Float64", false),
            ("gamma_q", "Float64", false),
            ("gamma_s", "Float64", false),
            ("kappa", "Float64", true),
            ("valid_v_min_hm3", "Float64", true),
            ("valid_v_max_hm3", "Float64", true),
            ("valid_q_max_m3s", "Float64", true),
        ])
    );
}

#[test]
fn nullable_columns_round_trip_as_none() {
    let table = build_fpha_hyperplanes_batch(&[FphaHyperplaneRow {
        hydro_id: EntityId(10),
        stage_id: None,
        plane_id: 0,
        gamma_0: float(500.0),
        gamma_v: float(0.001),
        gamma_q: float(0.85),
        gamma_s: float(-0.01),
        kappa: float(1.0),
        valid_v_min_hm3: None,
        valid_v_max_hm3: None,
        valid_q_max_m3s: None,
    }]);
    assert_eq!(integers(&table, "stage_id"), vec![None]);
    assert_eq!(numbers(&table, "valid_v_min_hm3"), vec![None]);
    assert_eq!(numbers(&table, "valid_v_max_hm3"), vec![None]);
    assert_eq!(numbers(&table, "valid_q_max_m3s"), vec![None]);
}

#[test]
fn hyperplanes_keep_the_values_that_they_have() {
    let mut row = make_row(1, 0, 100.0, 1.0);
    row.stage_id = Some(7);
    row.valid_v_min_hm3 = Some(float(1.0));
    row.valid_v_max_hm3 = Some(float(2.0));
    row.valid_q_max_m3s = Some(float(3.0));
    let table = build_fpha_hyperplanes_batch(&[row, make_row(2, 1, 5.0, 0.5)]);
    assert_eq!(integers(&table, "stage_id"), vec![Some(7), None]);
    assert_eq!(numbers(&table, "valid_v_min_hm3"), vec![Some(1.0), None]);
    assert_eq!(numbers(&table, "valid_v_max_hm3"), vec![Some(2.0), None]);
    assert_eq!(numbers(&table, "valid_q_max_m3s"), vec![Some(3.0), None]);
    assert_eq!(integers(&table, "hydro_id"), vec![Some(1), Some(2)]);
}

// ── Evaporation models ───────────────────────────────────────────────────────

fn evaporation_rows() -> Vec<EvaporationModelRow> {
    vec![
        EvaporationModelRow {
            hydro_id: EntityId(66),
            stage_id: None,
            intercept_m3s: float(12.5),
            volume_slope_m3s_per_hm3: float(0.0031),
            reference_volume_hm3: float(14_500.0),
            source: "default_midpoint".to_string(),
        },
        EvaporationModelRow {
            hydro_id: EntityId(66),
            stage_id: Some(3),
            intercept_m3s: float(9.75),
            volume_slope_m3s_per_hm3: float(0.0042),
            reference_volume_hm3: float(12_000.0),
            source: "user_supplied".to_string(),
        },
    ]
}

#[test]
fn evaporation_models_round_trips() {
    let rows = evaporation_rows();
    let table = build_evaporation_models_batch(&rows);
    let parsed = parse_evaporation_models(&vec![table], "evaporation_models.parquet")
        .expect("parse must succeed");
    assert_eq!(parsed, rows, "parsed rows must equal input field-for-field");
}

#[test]
fn evaporation_models_are_read_in_order() {
    let rows = evaporation_rows();
    let turned: Vec<EvaporationModelRow> = rows.iter().rev().cloned().collect();
    let table = build_evaporation_models_batch(&turned);
    let parsed = parse_evaporation_models(&vec![table], "evaporation_models.parquet")
        .expect("parse must succeed");
    assert_eq!(parsed, rows);
}

#[test]
fn evaporation_models_round_trip_in_every_split() {
    let rows = evaporation_rows();
    for k in 0..=rows.len() {
        let tables = vec![
            build_evaporation_models_batch(&rows[..k]),
            build_evaporation_models_batch(&rows[k..]),
        ];
        let parsed = parse_evaporation_models(&tables, "evaporation_models.parquet")
            .expect("parse must succeed");
        assert_eq!(parsed, rows, "first table of {k} rows");
    }
}

#[test]
fn evaporation_models_schema_has_expected_columns() {
    let table = build_evaporation_models_batch(&[EvaporationModelRow {
        hydro_id: EntityId(5),
        stage_id: None,
        intercept_m3s: float(1.0),
        volume_slope_m3s_per_hm3: float(0.001),
        reference_volume_hm3: float(100.0),
        source: "default_midpoint".to_string(),
    }]);
    assert_eq!(
        fields(&table),
        expected(&[
            ("hydro_id", "Int32", false),
            ("stage_id", "Int32", true),
            ("intercept_m3s", "Float64", false),
            ("volume_slope_m3s_per_hm3", "Float64", false),
            ("reference_volume_hm3", "Float64", false),
            ("source", "Utf8", false),
        ])
    );
}

#[test]
fn write_evaporation_models_empty_ok() {
    let table = build_evaporation_models_batch(&[]);
    let parsed = parse_evaporation_models(&vec![table], "evaporation_models.parquet")
        .expect("parse must succeed");
    assert!(parsed.is_empty(), "must have 0 rows for empty input");
}

// ── Deviation points ─────────────────────────────────────────────────────────

#[test]
fn fpha_deviation_points_round_trips() {
    let rows = vec![
        FphaDeviationPointRow {
            hydro_id: EntityId(66),
            stage_id: None,
            v: float(0.0),
            q: float(0.0),
            fph_exact: float(0.0),
            fpha_fitted: float(1.5),
            deviation: float(1.5),
            relative: float(0.0015),
        },
        FphaDeviationPointRow {
            hydro_id: EntityId(66),
            stage_id: Some(3),
            v: float(14_500.0),
            q: float(1_200.0),
            fph_exact: float(980.5),
            fpha_fitted: float(985.0),
            deviation: float(4.5),
            relative: float(0.0046),
        },
    ];

    let table = build_fpha_deviation_points_batch(&rows);
    let parsed = parse_fpha_deviation_points(&vec![table], "fpha_deviation_points.parquet")
        .expect("parse must succeed");
    assert_eq!(parsed, rows, "parsed rows must equal input field-for-field");
}

#[test]
fn fpha_deviation_points_schema_has_expected_columns() {
    let table = build_fpha_deviation_points_batch(&[FphaDeviationPointRow {
        hydro_id: EntityId(5),
        stage_id: None,
        v: float(100.0),
        q: float(50.0),
        fph_exact: float(40.0),
        fpha_fitted: float(41.0),
        deviation: float(1.0),
        relative: float(0.025),
    }]);
    assert_eq!(
        fields(&table),
        expected(&[
            ("hydro_id", "Int32", false),
            ("stage_id", "Int32", true),
            ("v", "Float64", false),
            ("q", "Float64", false),
            ("fph_exact", "Float64", false),
            ("fpha_fitted", "Float64", false),
            ("deviation", "Float64", false),
            ("relative", "Float64", false),
        ])
    );
}

#[test]
fn write_fpha_deviation_points_empty_ok() {
    let table = build_fpha_deviation_points_batch(&[]);
    let parsed = parse_fpha_deviation_points(&vec![table], "fpha_deviation_points.parquet")
        .expect("parse must succeed");
    assert!(parsed.is_empty(), "must have 0 rows for empty input");
}

#[test]
fn fpha_deviation_points_round_trip_in_every_split() {
    let rows: Vec<FphaDeviationPointRow> = [(1, None), (1, Some(0)), (1, Some(4)), (2, None)]
        .iter()
        .map(|(hydro_id, stage_id)| FphaDeviationPointRow {
            hydro_id: EntityId(*hydro_id),
            stage_id: *stage_id,
            v: float(10.0),
            q: float(20.0),
            fph_exact: float(30.0),
            fpha_fitted: float(31.0),
            deviation: float(1.0),
            relative: float(0.03),
        })
        .collect();
    for k in 0..=rows.len() {
        let tables = vec![
            build_fpha_deviation_points_batch(&rows[..k]),
            build_fpha_deviation_points_batch(&rows[k..]),
        ];
        let parsed = parse_fpha_deviation_points(&tables, "fpha_deviation_points.parquet")
            .expect("parse must succeed");
        assert_eq!(parsed, rows, "first table of {k} rows");
    }
}
