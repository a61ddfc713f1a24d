//! The tables of fixed deliveries and resolved constraints, and the lower-bound rule.

use cobre_io::date::{date32_days, Date};
use cobre_io::float::Float64;
use cobre_io::output::fixed_delivery::{
    build_fixed_delivery_batch, fixed_delivery_output, FixedDeliveryRow,
};
use cobre_io::output::gap_regime::values;
use cobre_io::output::generic_constraints_echo::{
    build_generic_constraint_echo_batch, GenericConstraintEchoRow,
};
use cobre_io::table::{Cells, Table};

fn float(x: f64) -> Float64 {
    Float64 { bits: x.to_bits() }
}

fn cells<'a>(table: &'a Table, name: &str) -> &'a Cells {
    &table
        .columns
        .iter()
        .find(|c| c.name == name)
        .expect("column")
        .cells
}

fn integers(table: &Table, name: &str) -> Vec<Option<i32>> {
    match cells(table, name) {
        Cells::Int32(c) => c
            .iter()
            .map(|c| if c.null { None } else { Some(c.value) })
            .collect(),
        other => panic!("{name} holds {other:?}"),
    }
}

fn numbers(table: &Table, name: &str) -> Vec<Option<f64>> {
    match cells(table, name) {
        Cells::Float64(c) => c
            .iter()
            .map(|c| {
                if c.null {
                    None
                } else {
                    Some(f64::from_bits(c.value.bits))
                }
            })
            .collect(),
        other => panic!("{name} holds {other:?}"),
    }
}

fn texts(table: &Table, name: &str) -> Vec<Option<String>> {
    match cells(table, name) {
        Cells::Utf8(c) => c
            .iter()
            .map(|c| {
                if c.null {
                    None
                } else {
                    Some(c.value.clone())
                }
            })
            .collect(),
        other => panic!("{name} holds {other:?}"),
    }
}

fn dates(table: &Table, name: &str) -> Vec<i32> {
    match cells(table, name) {
        Cells::Date32(c) => c.iter().map(|c| c.value).collect(),
        other => panic!("{name} holds {other:?}"),
    }
}

fn bools(table: &Table, name: &str) -> Vec<bool> {
    match cells(table, name) {
        Cells::Boolean(c) => c.iter().map(|c| c.value).collect(),
        other => panic!("{name} holds {other:?}"),
    }
}

fn some(x: &str) -> Option<String> {
    Some(x.to_string())
}

// ── Fixed deliveries ─────────────────────────────────────────────────────────

fn sample_deliveries() -> Vec<FixedDeliveryRow> {
    vec![
        FixedDeliveryRow {
            thermal_id: 3,
            start_date: Date { year: 2030, month: 1, day: 1 },
            end_date: Date { year: 2030, month: 6, day: 30 },
            value_mw: float(120.5),
        },
        FixedDeliveryRow {
            thermal_id: 7,
            start_date: Date { year: 2031, month: 7, day: 1 },
            end_date: Date { year: 2031, month: 12, day: 31 },
            value_mw: float(88.0),
        },
    ]
}

#[test]
fn fixed_delivery_round_trip_preserves_rows_in_order() {
    let rows = sample_deliveries();
    let batch = build_fixed_delivery_batch(&rows);

    assert_eq!(batch.columns.len(), 4, "must have 4 columns");
    assert_eq!(batch.rows, rows.len(), "one row per input record");

    for (i, row) in rows.iter().enumerate() {
        assert_eq!(integers(&batch, "thermal_id")[i], Some(row.thermal_id));
        assert_eq!(dates(&batch, "start_date")[i], date32_days(row.start_date));
        assert_eq!(dates(&batch, "end_date")[i], date32_days(row.end_date));
        assert_eq!(
            numbers(&batch, "value_mw")[i],
            Some(f64::from_bits(row.value_mw.bits))
        );
    }
    // 2030-01-01 is 21915 days after 1970-01-01.
    assert_eq!(dates(&batch, "start_date")[0], 21_915);
}

#[test]
fn fixed_delivery_empty_slice_writes_no_file_and_no_directory() {
    assert!(
        fixed_delivery_output(&[]).is_none(),
        "empty slice must not write the parquet file"
    );
    assert_eq!(
        fixed_delivery_output(&sample_deliveries()).expect("a table").rows,
        2
    );
}

#[test]
fn days_are_counted_from_1970() {
    assert_eq!(date32_days(Date { year: 1970, month: 1, day: 1 }), 0);
    assert_eq!(date32_days(Date { year: 1969, month: 12, day: 31 }), -1);
    assert_eq!(date32_days(Date { year: 2000, month: 2, day: 29 }), 11_016);
    assert_eq!(date32_days(Date { year: 2000, month: 3, day: 1 }), 11_017);
    assert_eq!(date32_days(Date { year: 1900, month: 3, day: 1 }), -25_508);
    assert_eq!(date32_days(Date { year: 1, month: 1, day: 1 }), -719_162);
    assert_eq!(date32_days(Date { year: 0, month: 12, day: 31 }), -719_163);
}

#[test]
fn later_dates_have_more_days() {
    let days = [
        Date { year: -262_143, month: 1, day: 1 },
        Date { year: -1, month: 12, day: 31 },
        Date { year: 0, month: 2, day: 29 },
        Date { year: 1999, month: 12, day: 31 },
        Date { year: 2000, month: 1, day: 1 },
        Date { year: 262_142, month: 12, day: 31 },
    ];
    for pair in days.windows(2) {
        assert!(pair[1].is_after(pair[0]));
        assert!(date32_days(pair[0]) < date32_days(pair[1]));
    }
}

// ── Resolved constraints ─────────────────────────────────────────────────────

fn sample_constraints() -> Vec<GenericConstraintEchoRow> {
    vec![
        GenericConstraintEchoRow {
            stage_id: 1,
            block_id: Some(0),
            constraint_id: 7,
            constraint_name: "reservoir_link".to_string(),
            term_index: Some(0),
            variable_kind: some("thermal_generation"),
            variable: some("thermal[3]"),
            coefficient: Some(float(1.5)),
            bound_lower: Some(float(10.0)),
            bound_upper: Some(float(50.0)),
            derived_shape: "band".to_string(),
            slack_enabled: true,
            slack_penalty: Some(float(1000.0)),
        },
        GenericConstraintEchoRow {
            stage_id: 1,
            block_id: None,
            constraint_id: 8,
            constraint_name: "import_cap".to_string(),
            term_index: Some(1),
            variable_kind: some("exchange"),
            variable: some("line[2]"),
            coefficient: Some(float(-1.0)),
            bound_lower: None,
            bound_upper: Some(float(200.0)),
            derived_shape: "cap".to_string(),
            slack_enabled: false,
            slack_penalty: None,
        },
        GenericConstraintEchoRow {
            stage_id: 2,
            block_id: Some(1),
            constraint_id: 9,
            constraint_name: "const_only".to_string(),
            term_index: None,
            variable_kind: None,
            variable: None,
            coefficient: None,
            bound_lower: Some(float(5.0)),
            bound_upper: None,
            derived_shape: "floor".to_string(),
            slack_enabled: false,
            slack_penalty: None,
        },
    ]
}

#[test]
fn generic_constraint_echo_round_trip_band_cap_floor_rows() {
    let batch = build_generic_constraint_echo_batch(&sample_constraints());
    assert_eq!(batch.columns.len(), 13, "must have 13 columns");
    assert_eq!(batch.rows, 3, "must have 3 rows");

    assert_eq!(integers(&batch, "stage_id"), vec![Some(1), Some(1), Some(2)]);
    assert_eq!(integers(&batch, "block_id"), vec![Some(0), None, Some(1)]);
    assert_eq!(
        integers(&batch, "constraint_id"),
        vec![Some(7), Some(8), Some(9)]
    );
    assert_eq!(
        texts(&batch, "constraint_name"),
        vec![some("reservoir_link"), some("import_cap"), some("const_only")]
    );
    assert_eq!(integers(&batch, "term_index"), vec![Some(0), Some(1), None]);
    assert_eq!(
        texts(&batch, "variable_kind"),
        vec![some("thermal_generation"), some("exchange"), None]
    );
    assert_eq!(
        texts(&batch, "variable"),
        vec![some("thermal[3]"), some("line[2]"), None]
    );
    assert_eq!(
        numbers(&batch, "coefficient"),
        vec![Some(1.5), Some(-1.0), None]
    );
    assert_eq!(
        numbers(&batch, "bound_lower"),
        vec![Some(10.0), None, Some(5.0)]
    );
    assert_eq!(
        numbers(&batch, "bound_upper"),
        vec![Some(50.0), Some(200.0), None]
    );
    assert_eq!(
        texts(&batch, "derived_shape"),
        vec![some("band"), some("cap"), some("floor")]
    );
    assert_eq!(bools(&batch, "slack_enabled"), vec![true, false, false]);
    assert_eq!(
        numbers(&batch, "slack_penalty"),
        vec![Some(1000.0), None, None]
    );
}

#[test]
fn generic_constraint_echo_empty_slice_produces_valid_zero_row_file() {
    let batch = build_generic_constraint_echo_batch(&[]);
    assert_eq!(
        batch.columns.len(),
        13,
        "empty file must still carry the full 13-column schema"
    );
    assert_eq!(batch.rows, 0, "empty slice must produce 0 rows");
}

// ── Lower-bound rule ─────────────────────────────────────────────────────────

fn percent(window: Option<(Float64, Float64)>) -> Option<f64> {
    window.map(|(current, start)| {
        let current = f64::from_bits(current.bits);
        let start = f64::from_bits(start.bits);
        (current - start) / current.abs().max(1.0) * 100.0
    })
}

#[test]
fn lb_stability_uses_monotone_best_bound_over_three_observations() {
    let bounds: Vec<Float64> = [100.0, 110.0, 105.0, 121.0]
        .iter()
        .map(|x| float(*x))
        .collect();

    let result: Vec<Option<f64>> = values(&bounds).into_iter().map(percent).collect();

    assert_eq!(result[0], None);
    assert_eq!(result[1], None);
    assert_eq!(result[2], Some(10.0 / 110.0 * 100.0));
    assert_eq!(result[3], Some(11.0 / 121.0 * 100.0));
}

#[test]
fn the_best_bound_never_decreases() {
    let bounds: Vec<Float64> = [-5.0, f64::NAN, -7.0, -3.0, -4.0]
        .iter()
        .map(|x| float(*x))
        .collect();
    let result = values(&bounds);
    assert_eq!(
        result,
        vec![
            None,
            None,
            Some((float(-5.0), float(-5.0))),
            Some((float(-3.0), float(-5.0))),
            Some((float(-3.0), float(-5.0))),
        ]
    );
}
