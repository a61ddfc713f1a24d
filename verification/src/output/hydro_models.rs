//! Tables of hydro models that a run writes.
//!
//! The tables of evaporation models and of deviation points are those that
//! [`crate::extensions`] reads: what is read of a written table is its rows, sorted.

use vstd::prelude::*;

use crate::extensions::evaporation_models;
use crate::extensions::evaporation_models::EvaporationModelRow;
use crate::extensions::fpha_deviation_points;
use crate::extensions::fpha_deviation_points::FphaDeviationPointRow;
use crate::extensions::fpha_hyperplanes::FphaHyperplaneRow;
use crate::float::Float64;
use crate::sorting;
use crate::table;
use crate::table::{Cell, Cells, Column, Table, TableView};
use crate::validation;

verus! {

// ── Hyperplanes ──────────────────────────────────────────────────────────────

/// The table of hyperplanes.
pub open spec fn fpha_hyperplanes_table(rows: Seq<FphaHyperplaneRow>) -> TableView {
    TableView {
        rows: rows.len(),
        columns: seq![
            table::ints_column(
                "hydro_id",
                false,
                Seq::new(rows.len(), |i: int| table::filled(rows[i].hydro_id.0)),
            ),
            table::ints_column(
                "stage_id",
                true,
                Seq::new(rows.len(), |i: int| table::int_cell(rows[i].stage_id)),
            ),
            table::ints_column(
                "plane_id",
                false,
                Seq::new(rows.len(), |i: int| table::filled(rows[i].plane_id)),
            ),
            table::floats_column(
                "gamma_0",
                false,
                Seq::new(rows.len(), |i: int| table::filled(rows[i].gamma_0)),
            ),
            table::floats_column(
                "gamma_v",
                false,
                Seq::new(rows.len(), |i: int| table::filled(rows[i].gamma_v)),
            ),
            table::floats_column(
                "gamma_q",
                false,
                Seq::new(rows.len(), |i: int| table::filled(rows[i].gamma_q)),
            ),
            table::floats_column(
                "gamma_s",
                false,
                Seq::new(rows.len(), |i: int| table::filled(rows[i].gamma_s)),
            ),
            table::floats_column(
                "kappa",
                true,
                Seq::new(rows.len(), |i: int| table::filled(rows[i].kappa)),
            ),
            table::floats_column(
                "valid_v_min_hm3",
                true,
                Seq::new(rows.len(), |i: int| table::float_cell(rows[i].valid_v_min_hm3)),
            ),
            table::floats_column(
                "valid_v_max_hm3",
                true,
                Seq::new(rows.len(), |i: int| table::float_cell(rows[i].valid_v_max_hm3)),
            ),
            table::floats_column(
                "valid_q_max_m3s",
                true,
                Seq::new(rows.len(), |i: int| table::float_cell(rows[i].valid_q_max_m3s)),
            ),
        ],
    }
}

/// Lays hyperplanes out in columns, in the order given.
pub fn build_fpha_hyperplanes_batch(rows: &[FphaHyperplaneRow]) -> (r: Table)
    ensures
        r@ == fpha_hyperplanes_table(rows@),
        r@.well_formed(),
{
    let mut hydro_id: Vec<Cell<i32>> = Vec::new();
    let mut stage_id: Vec<Cell<i32>> = Vec::new();
    let mut plane_id: Vec<Cell<i32>> = Vec::new();
    let mut gamma_0: Vec<Cell<Float64>> = Vec::new();
    let mut gamma_v: Vec<Cell<Float64>> = Vec::new();
    let mut gamma_q: Vec<Cell<Float64>> = Vec::new();
    let mut gamma_s: Vec<Cell<Float64>> = Vec::new();
    let mut kappa: Vec<Cell<Float64>> = Vec::new();
    let mut valid_v_min_hm3: Vec<Cell<Float64>> = Vec::new();
    let mut valid_v_max_hm3: Vec<Cell<Float64>> = Vec::new();
    let mut valid_q_max_m3s: Vec<Cell<Float64>> = Vec::new();
    for i in 0..rows.len()
        invariant
            hydro_id@.len() == i,
            stage_id@.len() == i,
            plane_id@.len() == i,
            gamma_0@.len() == i,
            gamma_v@.len() == i,
            gamma_q@.len() == i,
            gamma_s@.len() == i,
            kappa@.len() == i,
            valid_v_min_hm3@.len() == i,
            valid_v_max_hm3@.len() == i,
            valid_q_max_m3s@.len() == i,
            forall|j: int|
                0 <= j < i ==> #[trigger] hydro_id@[j] == table::filled(rows@[j].hydro_id.0),
            forall|j: int|
                0 <= j < i ==> #[trigger] stage_id@[j] == table::int_cell(rows@[j].stage_id),
            forall|j: int|
                0 <= j < i ==> #[trigger] plane_id@[j] == table::filled(rows@[j].plane_id),
            forall|j: int|
                0 <= j < i ==> #[trigger] gamma_0@[j] == table::filled(rows@[j].gamma_0),
            forall|j: int|
                0 <= j < i ==> #[trigger] gamma_v@[j] == table::filled(rows@[j].gamma_v),
            forall|j: int|
                0 <= j < i ==> #[trigger] gamma_q@[j] == table::filled(rows@[j].gamma_q),
            forall|j: int|
                0 <= j < i ==> #[trigger] gamma_s@[j] == table::filled(rows@[j].gamma_s),
            forall|j: int|
                0 <= j < i ==> #[trigger] kappa@[j] == table::filled(rows@[j].kappa),
            forall|j: int|
                0 <= j < i ==> #[trigger] valid_v_min_hm3@[j] == table::float_cell(rows@[j].valid_v_min_hm3),
            forall|j: int|
                0 <= j < i ==> #[trigger] valid_v_max_hm3@[j] == table::float_cell(rows@[j].valid_v_max_hm3),
            forall|j: int|
                0 <= j < i ==> #[trigger] valid_q_max_m3s@[j] == table::float_cell(rows@[j].valid_q_max_m3s),
    {
        let row: &FphaHyperplaneRow = &rows[i];
        hydro_id.push(table::fill(row.hydro_id.0));
        stage_id.push(table::fill_int(row.stage_id));
        plane_id.push(table::fill(row.plane_id));
        gamma_0.push(table::fill(row.gamma_0));
        gamma_v.push(table::fill(row.gamma_v));
        gamma_q.push(table::fill(row.gamma_q));
        gamma_s.push(table::fill(row.gamma_s));
        kappa.push(table::fill(row.kappa));
        valid_v_min_hm3.push(table::fill_float(row.valid_v_min_hm3));
        valid_v_max_hm3.push(table::fill_float(row.valid_v_max_hm3));
        valid_q_max_m3s.push(table::fill_float(row.valid_q_max_m3s));
    }
    proof {
        assert(hydro_id@ =~= Seq::new(rows@.len(), |i: int| table::filled(rows@[i].hydro_id.0)));
        assert(stage_id@ =~= Seq::new(rows@.len(), |i: int| table::int_cell(rows@[i].stage_id)));
        assert(plane_id@ =~= Seq::new(rows@.len(), |i: int| table::filled(rows@[i].plane_id)));
        assert(gamma_0@ =~= Seq::new(rows@.len(), |i: int| table::filled(rows@[i].gamma_0)));
        assert(gamma_v@ =~= Seq::new(rows@.len(), |i: int| table::filled(rows@[i].gamma_v)));
        assert(gamma_q@ =~= Seq::new(rows@.len(), |i: int| table::filled(rows@[i].gamma_q)));
        assert(gamma_s@ =~= Seq::new(rows@.len(), |i: int| table::filled(rows@[i].gamma_s)));
        assert(kappa@ =~= Seq::new(rows@.len(), |i: int| table::filled(rows@[i].kappa)));
        assert(valid_v_min_hm3@ =~= Seq::new(rows@.len(), |i: int| table::float_cell(rows@[i].valid_v_min_hm3)));
        assert(valid_v_max_hm3@ =~= Seq::new(rows@.len(), |i: int| table::float_cell(rows@[i].valid_v_max_hm3)));
        assert(valid_q_max_m3s@ =~= Seq::new(rows@.len(), |i: int| table::float_cell(rows@[i].valid_q_max_m3s)));
    }
    let columns: Vec<Column> = vec![
        table::column("hydro_id", false, Cells::Int32(hydro_id)),
        table::column("stage_id", true, Cells::Int32(stage_id)),
        table::column("plane_id", false, Cells::Int32(plane_id)),
        table::column("gamma_0", false, Cells::Float64(gamma_0)),
        table::column("gamma_v", false, Cells::Float64(gamma_v)),
        table::column("gamma_q", false, Cells::Float64(gamma_q)),
        table::column("gamma_s", false, Cells::Float64(gamma_s)),
        table::column("kappa", true, Cells::Float64(kappa)),
        table::column("valid_v_min_hm3", true, Cells::Float64(valid_v_min_hm3)),
        table::column("valid_v_max_hm3", true, Cells::Float64(valid_v_max_hm3)),
        table::column("valid_q_max_m3s", true, Cells::Float64(valid_q_max_m3s)),
    ];
    let r = Table { rows: rows.len(), columns };
    proof {
        assert(r@.columns =~= fpha_hyperplanes_table(rows@).columns);
    }
    r
}

// ── Evaporation models ───────────────────────────────────────────────────────

/// The table of evaporation models.
pub open spec fn evaporation_models_table(rows: Seq<EvaporationModelRow>) -> TableView {
    TableView {
        rows: rows.len(),
        columns: seq![
            table::ints_column(
                "hydro_id",
                false,
                Seq::new(rows.len(), |i: int| table::filled(rows[i].hydro_id.0)),
            ),
            table::ints_column(
                "stage_id",
                true,
                Seq::new(rows.len(), |i: int| table::int_cell(rows[i].stage_id)),
            ),
            table::floats_column(
                "intercept_m3s",
                false,
                Seq::new(rows.len(), |i: int| table::filled(rows[i].intercept_m3s)),
            ),
            table::floats_column(
                "volume_slope_m3s_per_hm3",
                false,
                Seq::new(rows.len(), |i: int| table::filled(rows[i].volume_slope_m3s_per_hm3)),
            ),
            table::floats_column(
                "reference_volume_hm3",
                false,
                Seq::new(rows.len(), |i: int| table::filled(rows[i].reference_volume_hm3)),
            ),
            table::texts_column(
                "source",
                false,
                Seq::new(rows.len(), |i: int| table::filled(rows[i].source@)),
            ),
        ],
    }
}

/// Lays evaporation models out in columns, in the order given.
pub fn build_evaporation_models_batch(rows: &[EvaporationModelRow]) -> (r: Table)
    ensures
        r@ == evaporation_models_table(rows@),
        r@.well_formed(),
{
    let mut hydro_id: Vec<Cell<i32>> = Vec::new();
    let mut stage_id: Vec<Cell<i32>> = Vec::new();
    let mut intercept_m3s: Vec<Cell<Float64>> = Vec::new();
    let mut volume_slope_m3s_per_hm3: Vec<Cell<Float64>> = Vec::new();
    let mut reference_volume_hm3: Vec<Cell<Float64>> = Vec::new();
    let mut source: Vec<Cell<String>> = Vec::new();
    for i in 0..rows.len()
        invariant
            hydro_id@.len() == i,
            stage_id@.len() == i,
            intercept_m3s@.len() == i,
            volume_slope_m3s_per_hm3@.len() == i,
            reference_volume_hm3@.len() == i,
            source@.len() == i,
            forall|j: int|
                0 <= j < i ==> #[trigger] hydro_id@[j] == table::filled(rows@[j].hydro_id.0),
            forall|j: int|
                0 <= j < i ==> #[trigger] stage_id@[j] == table::int_cell(rows@[j].stage_id),
            forall|j: int|
                0 <= j < i ==> #[trigger] intercept_m3s@[j] == table::filled(rows@[j].intercept_m3s),
            forall|j: int|
                0 <= j < i ==> #[trigger] volume_slope_m3s_per_hm3@[j] == table::filled(rows@[j].volume_slope_m3s_per_hm3),
            forall|j: int|
                0 <= j < i ==> #[trigger] reference_volume_hm3@[j] == table::filled(rows@[j].reference_volume_hm3),
            forall|j: int|
                0 <= j < i ==> table::cell_text(#[trigger] source@[j]) == table::filled(rows@[j].source@),
    {
        let row: &EvaporationModelRow = &rows[i];
        hydro_id.push(table::fill(row.hydro_id.0));
        stage_id.push(table::fill_int(row.stage_id));
        intercept_m3s.push(table::fill(row.intercept_m3s));
        volume_slope_m3s_per_hm3.push(table::fill(row.volume_slope_m3s_per_hm3));
        reference_volume_hm3.push(table::fill(row.reference_volume_hm3));
        source.push(table::fill_text(&row.source));
    }
    proof {
        assert(hydro_id@ =~= Seq::new(rows@.len(), |i: int| table::filled(rows@[i].hydro_id.0)));
        assert(stage_id@ =~= Seq::new(rows@.len(), |i: int| table::int_cell(rows@[i].stage_id)));
        assert(intercept_m3s@ =~= Seq::new(rows@.len(), |i: int| table::filled(rows@[i].intercept_m3s)));
        assert(volume_slope_m3s_per_hm3@ =~= Seq::new(rows@.len(), |i: int| table::filled(rows@[i].volume_slope_m3s_per_hm3)));
        assert(reference_volume_hm3@ =~= Seq::new(rows@.len(), |i: int| table::filled(rows@[i].reference_volume_hm3)));
        assert(table::cell_texts(source@) =~= Seq::new(rows@.len(), |i: int| table::filled(rows@[i].source@)));
    }
    let columns: Vec<Column> = vec![
        table::column("hydro_id", false, Cells::Int32(hydro_id)),
        table::column("stage_id", true, Cells::Int32(stage_id)),
        table::column("intercept_m3s", false, Cells::Float64(intercept_m3s)),
        table::column("volume_slope_m3s_per_hm3", false, Cells::Float64(volume_slope_m3s_per_hm3)),
        table::column("reference_volume_hm3", false, Cells::Float64(reference_volume_hm3)),
        table::column("source", false, Cells::Utf8(source)),
    ];
    let r = Table { rows: rows.len(), columns };
    proof {
        assert(r@.columns =~= evaporation_models_table(rows@).columns);
    }
    r
}

// ── Deviation points ─────────────────────────────────────────────────────────

/// The table of deviation points.
pub open spec fn fpha_deviation_points_table(rows: Seq<FphaDeviationPointRow>) -> TableView {
    TableView {
        rows: rows.len(),
        columns: seq![
            table::ints_column(
                "hydro_id",
                false,
                Seq::new(rows.len(), |i: int| table::filled(rows[i].hydro_id.0)),
            ),
            table::ints_column(
                "stage_id",
                true,
                Seq::new(rows.len(), |i: int| table::int_cell(rows[i].stage_id)),
            ),
            table::floats_column(
                "v",
                false,
                Seq::new(rows.len(), |i: int| table::filled(rows[i].v)),
            ),
            table::floats_column(
                "q",
                false,
                Seq::new(rows.len(), |i: int| table::filled(rows[i].q)),
            ),
            table::floats_column(
                "fph_exact",
                false,
                Seq::new(rows.len(), |i: int| table::filled(rows[i].fph_exact)),
            ),
            table::floats_column(
                "fpha_fitted",
                false,
                Seq::new(rows.len(), |i: int| table::filled(rows[i].fpha_fitted)),
            ),
            table::floats_column(
                "deviation",
                false,
                Seq::new(rows.len(), |i: int| table::filled(rows[i].deviation)),
            ),
            table::floats_column(
                "relative",
                false,
                Seq::new(rows.len(), |i: int| table::filled(rows[i].relative)),
            ),
        ],
    }
}

/// Lays deviation points out in columns, in the order given.
pub fn build_fpha_deviation_points_batch(rows: &[FphaDeviationPointRow]) -> (r: Table)
    ensures
        r@ == fpha_deviation_points_table(rows@),
        r@.well_formed(),
{
    let mut hydro_id: Vec<Cell<i32>> = Vec::new();
    let mut stage_id: Vec<Cell<i32>> = Vec::new();
    let mut v: Vec<Cell<Float64>> = Vec::new();
    let mut q: Vec<Cell<Float64>> = Vec::new();
    let mut fph_exact: Vec<Cell<Float64>> = Vec::new();
    let mut fpha_fitted: Vec<Cell<Float64>> = Vec::new();
    let mut deviation: Vec<Cell<Float64>> = Vec::new();
    let mut relative: Vec<Cell<Float64>> = Vec::new();
    for i in 0..rows.len()
        invariant
            hydro_id@.len() == i,
            stage_id@.len() == i,
            v@.len() == i,
            q@.len() == i,
            fph_exact@.len() == i,
            fpha_fitted@.len() == i,
            deviation@.len() == i,
            relative@.len() == i,
            forall|j: int|
                0 <= j < i ==> #[trigger] hydro_id@[j] == table::filled(rows@[j].hydro_id.0),
            forall|j: int|
                0 <= j < i ==> #[trigger] stage_id@[j] == table::int_cell(rows@[j].stage_id),
            forall|j: int|
                0 <= j < i ==> #[trigger] v@[j] == table::filled(rows@[j].v),
            forall|j: int|
                0 <= j < i ==> #[trigger] q@[j] == table::filled(rows@[j].q),
            forall|j: int|
                0 <= j < i ==> #[trigger] fph_exact@[j] == table::filled(rows@[j].fph_exact),
            forall|j: int|
                0 <= j < i ==> #[trigger] fpha_fitted@[j] == table::filled(rows@[j].fpha_fitted),
            forall|j: int|
                0 <= j < i ==> #[trigger] deviation@[j] == table::filled(rows@[j].deviation),
            forall|j: int|
                0 <= j < i ==> #[trigger] relative@[j] == table::filled(rows@[j].relative),
    {
        let row: &FphaDeviationPointRow = &rows[i];
        hydro_id.push(table::fill(row.hydro_id.0));
        stage_id.push(table::fill_int(row.stage_id));
        v.push(table::fill(row.v));
        q.push(table::fill(row.q));
        fph_exact.push(table::fill(row.fph_exact));
        fpha_fitted.push(table::fill(row.fpha_fitted));
        deviation.push(table::fill(row.deviation));
        relative.push(table::fill(row.relative));
    }
    proof {
        assert(hydro_id@ =~= Seq::new(rows@.len(), |i: int| table::filled(rows@[i].hydro_id.0)));
        assert(stage_id@ =~= Seq::new(rows@.len(), |i: int| table::int_cell(rows@[i].stage_id)));
        assert(v@ =~= Seq::new(rows@.len(), |i: int| table::filled(rows@[i].v)));
        assert(q@ =~= Seq::new(rows@.len(), |i: int| table::filled(rows@[i].q)));
        assert(fph_exact@ =~= Seq::new(rows@.len(), |i: int| table::filled(rows@[i].fph_exact)));
        assert(fpha_fitted@ =~= Seq::new(rows@.len(), |i: int| table::filled(rows@[i].fpha_fitted)));
        assert(deviation@ =~= Seq::new(rows@.len(), |i: int| table::filled(rows@[i].deviation)));
        assert(relative@ =~= Seq::new(rows@.len(), |i: int| table::filled(rows@[i].relative)));
    }
    let columns: Vec<Column> = vec![
        table::column("hydro_id", false, Cells::Int32(hydro_id)),
        table::column("stage_id", true, Cells::Int32(stage_id)),
        table::column("v", false, Cells::Float64(v)),
        table::column("q", false, Cells::Float64(q)),
        table::column("fph_exact", false, Cells::Float64(fph_exact)),
        table::column("fpha_fitted", false, Cells::Float64(fpha_fitted)),
        table::column("deviation", false, Cells::Float64(deviation)),
        table::column("relative", false, Cells::Float64(relative)),
    ];
    let r = Table { rows: rows.len(), columns };
    proof {
        assert(r@.columns =~= fpha_deviation_points_table(rows@).columns);
    }
    r
}

// ── Reading back ─────────────────────────────────────────────────────────────

/// The columns of the table have different names.
proof fn evaporation_columns(rows: Seq<EvaporationModelRow>)
    ensures
        evaporation_models_table(rows).named("hydro_id"@) == Some(evaporation_models_table(rows).columns[0].cells),
        evaporation_models_table(rows).named("stage_id"@) == Some(evaporation_models_table(rows).columns[1].cells),
        evaporation_models_table(rows).named("intercept_m3s"@) == Some(evaporation_models_table(rows).columns[2].cells),
        evaporation_models_table(rows).named("volume_slope_m3s_per_hm3"@) == Some(evaporation_models_table(rows).columns[3].cells),
        evaporation_models_table(rows).named("reference_volume_hm3"@) == Some(evaporation_models_table(rows).columns[4].cells),
        evaporation_models_table(rows).named("source"@) == Some(evaporation_models_table(rows).columns[5].cells),
{
    reveal_strlit("hydro_id");
    reveal_strlit("stage_id");
    reveal_strlit("intercept_m3s");
    reveal_strlit("volume_slope_m3s_per_hm3");
    reveal_strlit("reference_volume_hm3");
    reveal_strlit("source");
    assert("hydro_id"@.len() == 8);
    assert("stage_id"@.len() == 8);
    assert("intercept_m3s"@.len() == 13);
    assert("volume_slope_m3s_per_hm3"@.len() == 24);
    assert("reference_volume_hm3"@.len() == 20);
    assert("source"@.len() == 6);
    let columns = evaporation_models_table(rows).columns;
    assert("hydro_id"@[0] != "stage_id"@[0]);
    table::named_is_at(columns, "hydro_id"@, 6, 0);
    table::named_is_at(columns, "stage_id"@, 6, 1);
    table::named_is_at(columns, "intercept_m3s"@, 6, 2);
    table::named_is_at(columns, "volume_slope_m3s_per_hm3"@, 6, 3);
    table::named_is_at(columns, "reference_volume_hm3"@, 6, 4);
    table::named_is_at(columns, "source"@, 6, 5);
}

/// The columns of the table have different names.
proof fn deviation_columns(rows: Seq<FphaDeviationPointRow>)
    ensures
        fpha_deviation_points_table(rows).named("hydro_id"@) == Some(fpha_deviation_points_table(rows).columns[0].cells),
        fpha_deviation_points_table(rows).named("stage_id"@) == Some(fpha_deviation_points_table(rows).columns[1].cells),
        fpha_deviation_points_table(rows).named("v"@) == Some(fpha_deviation_points_table(rows).columns[2].cells),
        fpha_deviation_points_table(rows).named("q"@) == Some(fpha_deviation_points_table(rows).columns[3].cells),
        fpha_deviation_points_table(rows).named("fph_exact"@) == Some(fpha_deviation_points_table(rows).columns[4].cells),
        fpha_deviation_points_table(rows).named("fpha_fitted"@) == Some(fpha_deviation_points_table(rows).columns[5].cells),
        fpha_deviation_points_table(rows).named("deviation"@) == Some(fpha_deviation_points_table(rows).columns[6].cells),
        fpha_deviation_points_table(rows).named("relative"@) == Some(fpha_deviation_points_table(rows).columns[7].cells),
{
    reveal_strlit("hydro_id");
    reveal_strlit("stage_id");
    reveal_strlit("v");
    reveal_strlit("q");
    reveal_strlit("fph_exact");
    reveal_strlit("fpha_fitted");
    reveal_strlit("deviation");
    reveal_strlit("relative");
    assert("hydro_id"@.len() == 8);
    assert("stage_id"@.len() == 8);
    assert("v"@.len() == 1);
    assert("q"@.len() == 1);
    assert("fph_exact"@.len() == 9);
    assert("fpha_fitted"@.len() == 11);
    assert("deviation"@.len() == 9);
    assert("relative"@.len() == 8);
    let columns = fpha_deviation_points_table(rows).columns;
    assert("hydro_id"@[0] != "stage_id"@[0]);
    assert("hydro_id"@[0] != "relative"@[0]);
    assert("stage_id"@[0] != "relative"@[0]);
    assert("v"@[0] != "q"@[0]);
    assert("fph_exact"@[0] != "deviation"@[0]);
    table::named_is_at(columns, "hydro_id"@, 8, 0);
    table::named_is_at(columns, "stage_id"@, 8, 1);
    table::named_is_at(columns, "v"@, 8, 2);
    table::named_is_at(columns, "q"@, 8, 3);
    table::named_is_at(columns, "fph_exact"@, 8, 4);
    table::named_is_at(columns, "fpha_fitted"@, 8, 5);
    table::named_is_at(columns, "deviation"@, 8, 6);
    table::named_is_at(columns, "relative"@, 8, 7);
}

/// The numbers of a model are finite.
pub open spec fn finite_model(row: EvaporationModelRow) -> bool {
    row.intercept_m3s.finite() && row.volume_slope_m3s_per_hm3.finite()
        && row.reference_volume_hm3.finite()
}

proof fn evaporation_table_is_read(rows: Seq<EvaporationModelRow>)
    requires
        forall|i: int| 0 <= i < rows.len() ==> finite_model(#[trigger] rows[i]),
    ensures
        evaporation_models::table_finding(evaporation_models_table(rows)) is None,
        evaporation_models::rows_of()(evaporation_models_table(rows))
            == evaporation_models::row_views(rows),
{
    let t = evaporation_models_table(rows);
    evaporation_columns(rows);
    let expected = evaporation_models::expected_columns();
    let check = table::columns_check(t, expected, "missing required column \""@);
    validation::first_is_none(expected.len() as int, check);
    assert forall|k: int| 0 <= k < expected.len() implies (#[trigger] check(k)) is None by {
        assert(expected[0].name == "hydro_id"@);
        assert(expected[1].name == "intercept_m3s"@);
        assert(expected[2].name == "volume_slope_m3s_per_hm3"@);
        assert(expected[3].name == "reference_volume_hm3"@);
        assert(expected[4].name == "source"@);
        assert(expected[5].name == "stage_id"@);
    }
    let views = evaporation_models::row_views(rows);
    let read = evaporation_models::rows_of()(t);
    assert forall|i: int| 0 <= i < rows.len() implies (#[trigger] read[i]) == views[i] by {
        assert(read[i] == evaporation_models::row_of(t, i));
    }
    assert(read =~= views);
    let row_check = evaporation_models::row_check(t);
    validation::first_is_none(t.rows as int, row_check);
    assert forall|i: int| 0 <= i < t.rows implies (#[trigger] row_check(i)) is None by {
        assert(read[i] == evaporation_models::row_of(t, i));
        assert(finite_model(rows[i]));
    }
}

/// The tables of evaporation models into which the rows are split.
pub open spec fn evaporation_models_tables(parts: Seq<Seq<EvaporationModelRow>>) -> Seq<
    TableView,
> {
    parts.map_values(|rows: Seq<EvaporationModelRow>| evaporation_models_table(rows))
}

/// What is read of written evaporation models is their rows, sorted by plant and
/// stage, where their numbers are finite, however a reader splits the rows into
/// tables.
pub proof fn evaporation_models_round_trip(parts: Seq<Seq<EvaporationModelRow>>)
    requires
        forall|k: int, i: int|
            0 <= k < parts.len() && 0 <= i < parts[k].len() ==> finite_model(
                #[trigger] parts[k][i],
            ),
    ensures
        evaporation_models::file_finding(evaporation_models_tables(parts)) is None,
        sorting::sorted(
            table::rows_of_all(
                evaporation_models_tables(parts),
                evaporation_models::rows_of(),
                parts.len() as int,
            ),
        ) == sorting::sorted(evaporation_models::row_views(parts.flatten())),
{
    let tables = evaporation_models_tables(parts);
    let check = evaporation_models::tables_check(tables);
    assert forall|k: int| 0 <= k < parts.len() implies (#[trigger] check(k)) is None by {
        assert forall|i: int| 0 <= i < parts[k].len() implies finite_model(
            #[trigger] parts[k][i],
        ) by {}
        evaporation_table_is_read(parts[k]);
    }
    validation::first_is_none(tables.len() as int, check);
    evaporation_rows_join(parts, parts.len() as int);
    assert(parts.take(parts.len() as int) =~= parts);
    parts.lemma_flatten_and_flatten_alt_are_equivalent();
}

proof fn evaporation_rows_join(parts: Seq<Seq<EvaporationModelRow>>, n: int)
    requires
        0 <= n <= parts.len(),
        forall|k: int, i: int|
            0 <= k < parts.len() && 0 <= i < parts[k].len() ==> finite_model(
                #[trigger] parts[k][i],
            ),
    ensures
        table::rows_of_all(
            evaporation_models_tables(parts),
            evaporation_models::rows_of(),
            n,
        ) == evaporation_models::row_views(parts.take(n).flatten_alt()),
    decreases n,
{
    if n > 0 {
        let before = parts.take(n - 1);
        evaporation_rows_join(parts, n - 1);
        assert forall|i: int| 0 <= i < parts[n - 1].len() implies finite_model(
            #[trigger] parts[n - 1][i],
        ) by {}
        evaporation_table_is_read(parts[n - 1]);
        assert(parts.take(n).drop_last() =~= before);
        assert(evaporation_models::row_views(before.flatten_alt() + parts[n - 1])
            =~= evaporation_models::row_views(before.flatten_alt())
            + evaporation_models::row_views(parts[n - 1]));
    } else {
        assert(evaporation_models::row_views(parts.take(n).flatten_alt()) =~= Seq::empty());
    }
}

proof fn deviation_table_is_read(rows: Seq<FphaDeviationPointRow>)
    ensures
        fpha_deviation_points::columns_finding(fpha_deviation_points_table(rows)) is None,
        fpha_deviation_points::rows_of()(fpha_deviation_points_table(rows)) == rows,
{
    let t = fpha_deviation_points_table(rows);
    deviation_columns(rows);
    let expected = fpha_deviation_points::expected_columns();
    let check = table::columns_check(t, expected, "missing required column \""@);
    validation::first_is_none(expected.len() as int, check);
    assert forall|k: int| 0 <= k < expected.len() implies (#[trigger] check(k)) is None by {
        assert(expected[0].name == "hydro_id"@);
        assert(expected[1].name == "v"@);
        assert(expected[2].name == "q"@);
        assert(expected[3].name == "fph_exact"@);
        assert(expected[4].name == "fpha_fitted"@);
        assert(expected[5].name == "deviation"@);
        assert(expected[6].name == "relative"@);
        assert(expected[7].name == "stage_id"@);
    }
    let read = fpha_deviation_points::rows_of()(t);
    assert forall|i: int| 0 <= i < rows.len() implies (#[trigger] read[i]) == rows[i] by {
        assert(read[i] == fpha_deviation_points::row_of(t, i));
    }
    assert(read =~= rows);
}

/// The tables of deviation points into which the rows are split.
pub open spec fn fpha_deviation_points_tables(parts: Seq<Seq<FphaDeviationPointRow>>) -> Seq<
    TableView,
> {
    parts.map_values(|rows: Seq<FphaDeviationPointRow>| fpha_deviation_points_table(rows))
}

/// What is read of written deviation points is their rows, sorted by plant and
/// stage, however a reader splits the rows into tables.
pub proof fn fpha_deviation_points_round_trip(parts: Seq<Seq<FphaDeviationPointRow>>)
    ensures
        fpha_deviation_points::file_finding(fpha_deviation_points_tables(parts)) is None,
        sorting::sorted(
            table::rows_of_all(
                fpha_deviation_points_tables(parts),
                fpha_deviation_points::rows_of(),
                parts.len() as int,
            ),
        ) == sorting::sorted(parts.flatten()),
{
    let tables = fpha_deviation_points_tables(parts);
    let check = fpha_deviation_points::tables_check(tables);
    assert forall|k: int| 0 <= k < parts.len() implies (#[trigger] check(k)) is None by {
        deviation_table_is_read(parts[k]);
    }
    validation::first_is_none(tables.len() as int, check);
    deviation_rows_join(parts, parts.len() as int);
    assert(parts.take(parts.len() as int) =~= parts);
    parts.lemma_flatten_and_flatten_alt_are_equivalent();
}

proof fn deviation_rows_join(parts: Seq<Seq<FphaDeviationPointRow>>, n: int)
    requires
        0 <= n <= parts.len(),
    ensures
        table::rows_of_all(
            fpha_deviation_points_tables(parts),
            fpha_deviation_points::rows_of(),
            n,
        ) == parts.take(n).flatten_alt(),
    decreases n,
{
    if n > 0 {
        deviation_rows_join(parts, n - 1);
        deviation_table_is_read(parts[n - 1]);
        assert(parts.take(n).drop_last() =~= parts.take(n - 1));
    }
}

/// Row `i` of the table holds the fields of the `i`-th hyperplane, each in the column of its
/// name; a field without a value is a null.
pub proof fn hyperplane_columns_hold_their_fields(rows: Seq<FphaHyperplaneRow>, table: Table, i: int)
    requires
        table@ == fpha_hyperplanes_table(rows),
        0 <= i < rows.len(),
    ensures
        table.rows == rows.len(),
        table.columns@.len() == 11,
        table.columns@[0].name@ == "hydro_id"@ && table.columns@[0].nullable == false,
        match table.columns@[0].cells {
            Cells::Int32(cells) => cells@.len() == rows.len() && !cells@[i].null && cells@[i].value == rows[i].hydro_id.0,
            _ => false,
        },
        table.columns@[1].name@ == "stage_id"@ && table.columns@[1].nullable == true,
        match table.columns@[1].cells {
            Cells::Int32(cells) => cells@.len() == rows.len() && match rows[i].stage_id {
                    Some(x) => cells@[i] == (Cell { value: x, null: false }),
                    None => cells@[i].null,
                },
            _ => false,
        },
        table.columns@[2].name@ == "plane_id"@ && table.columns@[2].nullable == false,
        match table.columns@[2].cells {
            Cells::Int32(cells) => cells@.len() == rows.len() && !cells@[i].null && cells@[i].value == rows[i].plane_id,
            _ => false,
        },
        table.columns@[3].name@ == "gamma_0"@ && table.columns@[3].nullable == false,
        match table.columns@[3].cells {
            Cells::Float64(cells) => cells@.len() == rows.len() && !cells@[i].null && cells@[i].value == rows[i].gamma_0,
            _ => false,
        },
        table.columns@[4].name@ == "gamma_v"@ && table.columns@[4].nullable == false,
        match table.columns@[4].cells {
            Cells::Float64(cells) => cells@.len() == rows.len() && !cells@[i].null && cells@[i].value == rows[i].gamma_v,
            _ => false,
        },
        table.columns@[5].name@ == "gamma_q"@ && table.columns@[5].nullable == false,
        match table.columns@[5].cells {
            Cells::Float64(cells) => cells@.len() == rows.len() && !cells@[i].null && cells@[i].value == rows[i].gamma_q,
            _ => false,
        },
        table.columns@[6].name@ == "gamma_s"@ && table.columns@[6].nullable == false,
        match table.columns@[6].cells {
            Cells::Float64(cells) => cells@.len() == rows.len() && !cells@[i].null && cells@[i].value == rows[i].gamma_s,
            _ => false,
        },
        table.columns@[7].name@ == "kappa"@ && table.columns@[7].nullable == true,
        match table.columns@[7].cells {
            Cells::Float64(cells) => cells@.len() == rows.len() && !cells@[i].null && cells@[i].value == rows[i].kappa,
            _ => false,
        },
        table.columns@[8].name@ == "valid_v_min_hm3"@ && table.columns@[8].nullable == true,
        match table.columns@[8].cells {
            Cells::Float64(cells) => cells@.len() == rows.len() && match rows[i].valid_v_min_hm3 {
                    Some(x) => cells@[i] == (Cell { value: x, null: false }),
                    None => cells@[i].null,
                },
            _ => false,
        },
        table.columns@[9].name@ == "valid_v_max_hm3"@ && table.columns@[9].nullable == true,
        match table.columns@[9].cells {
            Cells::Float64(cells) => cells@.len() == rows.len() && match rows[i].valid_v_max_hm3 {
                    Some(x) => cells@[i] == (Cell { value: x, null: false }),
                    None => cells@[i].null,
                },
            _ => false,
        },
        table.columns@[10].name@ == "valid_q_max_m3s"@ && table.columns@[10].nullable == true,
        match table.columns@[10].cells {
            Cells::Float64(cells) => cells@.len() == rows.len() && match rows[i].valid_q_max_m3s {
                    Some(x) => cells@[i] == (Cell { value: x, null: false }),
                    None => cells@[i].null,
                },
            _ => false,
        },
{
    assert(table@.columns.len() == table.columns@.len());
    assert(table@.columns[0] == table.columns@[0]@);
    assert(table@.columns[1] == table.columns@[1]@);
    assert(table@.columns[2] == table.columns@[2]@);
    assert(table@.columns[3] == table.columns@[3]@);
    assert(table@.columns[4] == table.columns@[4]@);
    assert(table@.columns[5] == table.columns@[5]@);
    assert(table@.columns[6] == table.columns@[6]@);
    assert(table@.columns[7] == table.columns@[7]@);
    assert(table@.columns[8] == table.columns@[8]@);
    assert(table@.columns[9] == table.columns@[9]@);
    assert(table@.columns[10] == table.columns@[10]@);
}

/// Row `i` of the table holds the fields of the `i`-th model, each in the column of its
/// name; a field without a value is a null.
pub proof fn evaporation_columns_hold_their_fields(rows: Seq<EvaporationModelRow>, table: Table, i: int)
    requires
        table@ == evaporation_models_table(rows),
        0 <= i < rows.len(),
    ensures
        table.rows == rows.len(),
        table.columns@.len() == 6,
        table.columns@[0].name@ == "hydro_id"@ && table.columns@[0].nullable == false,
        match table.columns@[0].cells {
            Cells::Int32(cells) => cells@.len() == rows.len() && !cells@[i].null && cells@[i].value == rows[i].hydro_id.0,
            _ => false,
        },
        table.columns@[1].name@ == "stage_id"@ && table.columns@[1].nullable == true,
        match table.columns@[1].cells {
            Cells::Int32(cells) => cells@.len() == rows.len() && match rows[i].stage_id {
                    Some(x) => cells@[i] == (Cell { value: x, null: false }),
                    None => cells@[i].null,
                },
            _ => false,
        },
        table.columns@[2].name@ == "intercept_m3s"@ && table.columns@[2].nullable == false,
        match table.columns@[2].cells {
            Cells::Float64(cells) => cells@.len() == rows.len() && !cells@[i].null && cells@[i].value == rows[i].intercept_m3s,
            _ => false,
        },
        table.columns@[3].name@ == "volume_slope_m3s_per_hm3"@ && table.columns@[3].nullable == false,
        match table.columns@[3].cells {
            Cells::Float64(cells) => cells@.len() == rows.len() && !cells@[i].null && cells@[i].value == rows[i].volume_slope_m3s_per_hm3,
            _ => false,
        },
        table.columns@[4].name@ == "reference_volume_hm3"@ && table.columns@[4].nullable == false,
        match table.columns@[4].cells {
            Cells::Float64(cells) => cells@.len() == rows.len() && !cells@[i].null && cells@[i].value == rows[i].reference_volume_hm3,
            _ => false,
        },
        table.columns@[5].name@ == "source"@ && table.columns@[5].nullable == false,
        match table.columns@[5].cells {
            Cells::Utf8(cells) => cells@.len() == rows.len() && !cells@[i].null && cells@[i].value@ == rows[i].source@,
            _ => false,
        },
{
    assert(table@.columns.len() == table.columns@.len());
    assert(table@.columns[0] == table.columns@[0]@);
    assert(table@.columns[1] == table.columns@[1]@);
    assert(table@.columns[2] == table.columns@[2]@);
    assert(table@.columns[3] == table.columns@[3]@);
    assert(table@.columns[4] == table.columns@[4]@);
    assert(table@.columns[5] == table.columns@[5]@);
    assert(table.columns@[5].cells is Utf8);
    assert(table@.columns[5].cells->Utf8_0 == table::cell_texts(
        table.columns@[5].cells->Utf8_0@,
    ));
    assert(table::cell_texts(table.columns@[5].cells->Utf8_0@).len() == rows.len());
    assert(table::cell_texts(table.columns@[5].cells->Utf8_0@)[i] == table::cell_text(
        table.columns@[5].cells->Utf8_0@[i],
    ));
}

/// Row `i` of the table holds the fields of the `i`-th point, each in the column of its
/// name; a field without a value is a null.
pub proof fn deviation_columns_hold_their_fields(rows: Seq<FphaDeviationPointRow>, table: Table, i: int)
    requires
        table@ == fpha_deviation_points_table(rows),
        0 <= i < rows.len(),
    ensures
        table.rows == rows.len(),
        table.columns@.len() == 8,
        table.columns@[0].name@ == "hydro_id"@ && table.columns@[0].nullable == false,
        match table.columns@[0].cells {
            Cells::Int32(cells) => cells@.len() == rows.len() && !cells@[i].null && cells@[i].value == rows[i].hydro_id.0,
            _ => false,
        },
        table.columns@[1].name@ == "stage_id"@ && table.columns@[1].nullable == true,
        match table.columns@[1].cells {
            Cells::Int32(cells) => cells@.len() == rows.len() && match rows[i].stage_id {
                    Some(x) => cells@[i] == (Cell { value: x, null: false }),
                    None => cells@[i].null,
                },
            _ => false,
        },
        table.columns@[2].name@ == "v"@ && table.columns@[2].nullable == false,
        match table.columns@[2].cells {
            Cells::Float64(cells) => cells@.len() == rows.len() && !cells@[i].null && cells@[i].value == rows[i].v,
            _ => false,
        },
        table.columns@[3].name@ == "q"@ && table.columns@[3].nullable == false,
        match table.columns@[3].cells {
            Cells::Float64(cells) => cells@.len() == rows.len() && !cells@[i].null && cells@[i].value == rows[i].q,
            _ => false,
        },
        table.columns@[4].name@ == "fph_exact"@ && table.columns@[4].nullable == false,
        match table.columns@[4].cells {
            Cells::Float64(cells) => cells@.len() == rows.len() && !cells@[i].null && cells@[i].value == rows[i].fph_exact,
            _ => false,
        },
        table.columns@[5].name@ == "fpha_fitted"@ && table.columns@[5].nullable == false,
        match table.columns@[5].cells {
            Cells::Float64(cells) => cells@.len() == rows.len() && !cells@[i].null && cells@[i].value == rows[i].fpha_fitted,
            _ => false,
        },
        table.columns@[6].name@ == "deviation"@ && table.columns@[6].nullable == false,
        match table.columns@[6].cells {
            Cells::Float64(cells) => cells@.len() == rows.len() && !cells@[i].null && cells@[i].value == rows[i].deviation,
            _ => false,
        },
        table.columns@[7].name@ == "relative"@ && table.columns@[7].nullable == false,
        match table.columns@[7].cells {
            Cells::Float64(cells) => cells@.len() == rows.len() && !cells@[i].null && cells@[i].value == rows[i].relative,
            _ => false,
        },
{
    assert(table@.columns.len() == table.columns@.len());
    assert(table@.columns[0] == table.columns@[0]@);
    assert(table@.columns[1] == table.columns@[1]@);
    assert(table@.columns[2] == table.columns@[2]@);
    assert(table@.columns[3] == table.columns@[3]@);
    assert(table@.columns[4] == table.columns@[4]@);
    assert(table@.columns[5] == table.columns@[5]@);
    assert(table@.columns[6] == table.columns@[6]@);
    assert(table@.columns[7] == table.columns@[7]@);
}

} // verus!
