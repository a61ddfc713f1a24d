//! Deviations of fitted production functions at sampled points.
//!
//! Each row is one point of the grid of volumes and flows that a fit was sampled
//! on. [`parse_fpha_deviation_points`] sorts the rows by plant and stage, a fit for
//! all stages before those for one, and keeps the grid's order within a fit.

use vstd::prelude::*;

use crate::entities::EntityId;
use crate::error;
use crate::error::{Finding, LoadError};
use crate::extensions::evaporation_models;
use crate::float::Float64;
use crate::sorting;
use crate::sorting::{HasKey, Key, Keyed};
use crate::table;
use crate::table::{Cell, Expected, ExpectedView, Kind, Table, TableView};
use crate::validation;

verus! {

/// The deviation of a fit at one point, with no spillage.
#[derive(Clone, Copy, Debug, PartialEq, Eq)]
pub struct FphaDeviationPointRow {
    /// The plant.
    pub hydro_id: EntityId,
    /// The stage of the fit, or none for all stages.
    pub stage_id: Option<i32>,
    /// Volume of the grid point, in hm³.
    pub v: Float64,
    /// Turbined flow of the grid point, in m³/s.
    pub q: Float64,
    /// Exact production, in MW.
    pub fph_exact: Float64,
    /// Fitted production, in MW.
    pub fpha_fitted: Float64,
    /// Fitted less exact production, in MW.
    pub deviation: Float64,
    /// Absolute deviation relative to the grid's greatest exact production.
    pub relative: Float64,
}

impl HasKey for FphaDeviationPointRow {
    open spec fn key(&self) -> Key {
        evaporation_models::plant_stage_key(self.hydro_id, self.stage_id)
    }
}

impl Keyed for FphaDeviationPointRow {
    fn sort_key(&self) -> (r: (i64, i64, i64)) {
        evaporation_models::plant_stage_sort_key(self.hydro_id, self.stage_id)
    }
}

// ── Columns ──────────────────────────────────────────────────────────────────

/// The columns of the file.
pub open spec fn expected_columns() -> Seq<ExpectedView> {
    seq![
        table::required("hydro_id", Kind::Int32),
        table::required("v", Kind::Float64),
        table::required("q", Kind::Float64),
        table::required("fph_exact", Kind::Float64),
        table::required("fpha_fitted", Kind::Float64),
        table::required("deviation", Kind::Float64),
        table::required("relative", Kind::Float64),
        table::optional("stage_id", Kind::Int32),
    ]
}

fn expected() -> (r: Vec<Expected>)
    ensures
        table::expected_views(r@) == expected_columns(),
{
    let r: Vec<Expected> = vec![
        Expected { name: "hydro_id", kind: Kind::Int32, required: true },
        Expected { name: "v", kind: Kind::Float64, required: true },
        Expected { name: "q", kind: Kind::Float64, required: true },
        Expected { name: "fph_exact", kind: Kind::Float64, required: true },
        Expected { name: "fpha_fitted", kind: Kind::Float64, required: true },
        Expected { name: "deviation", kind: Kind::Float64, required: true },
        Expected { name: "relative", kind: Kind::Float64, required: true },
        Expected { name: "stage_id", kind: Kind::Int32, required: false },
    ];
    proof {
        assert(table::expected_views(r@) =~= expected_columns());
    }
    r
}

/// What is wrong with the columns of a table.
pub open spec fn columns_finding(table: TableView) -> Option<Finding> {
    table::columns_finding(table, expected_columns(), "missing required column \""@)
}

// ── Rows ─────────────────────────────────────────────────────────────────────

/// The point in row `i`.
pub open spec fn row_of(table: TableView, i: int) -> FphaDeviationPointRow {
    FphaDeviationPointRow {
        hydro_id: EntityId(table.int_at("hydro_id"@, i).value),
        stage_id: table.optional_int_at("stage_id"@, i),
        v: table.float_at("v"@, i).value,
        q: table.float_at("q"@, i).value,
        fph_exact: table.float_at("fph_exact"@, i).value,
        fpha_fitted: table.float_at("fpha_fitted"@, i).value,
        deviation: table.float_at("deviation"@, i).value,
        relative: table.float_at("relative"@, i).value,
    }
}

/// The points of a table.
pub open spec fn rows_of() -> spec_fn(TableView) -> Seq<FphaDeviationPointRow> {
    |table: TableView| Seq::new(table.rows, |i: int| row_of(table, i))
}

/// What is wrong with each table of a file.
pub open spec fn tables_check(tables: Seq<TableView>) -> spec_fn(int) -> Option<Finding> {
    |k: int| columns_finding(tables[k])
}

/// What is wrong with a file.
pub open spec fn file_finding(tables: Seq<TableView>) -> Option<Finding> {
    validation::first(tables.len() as int, tables_check(tables))
}

// ── Reading ──────────────────────────────────────────────────────────────────

proof fn columns_are_there(table: TableView)
    requires
        table.well_formed(),
        columns_finding(table) is None,
    ensures
        forall|k: int|
            0 <= k < 8 ==> {
                let e = #[trigger] expected_columns()[k];
                &&& e.required ==> table.named(e.name) is Some
                &&& table.named(e.name) matches Some(cells) ==> cells.of_kind(e.kind)
                    && cells.has_len(table.rows as int)
            },
{
    assert forall|k: int| 0 <= k < 8 implies {
        let e = #[trigger] expected_columns()[k];
        &&& e.required ==> table.named(e.name) is Some
        &&& table.named(e.name) matches Some(cells) ==> cells.of_kind(e.kind) && cells.has_len(
            table.rows as int,
        )
    } by {
        let e = expected_columns()[k];
        table::required_column_is_there(
            table,
            expected_columns(),
            "missing required column \""@,
            k,
        );
        table::named_has_len(table, e.name);
    }
}

/// Takes the points of one table.
fn read_table(batch: &Table, path: &str) -> (r: Result<Vec<FphaDeviationPointRow>, LoadError>)
    requires
        batch@.well_formed(),
    ensures
        error::reports(r, path@, columns_finding(batch@)),
        r matches Ok(rows) ==> rows@ == rows_of()(batch@),
{
    match table::check_columns(batch, &expected(), "missing required column \"", path) {
        Ok(_) => {},
        Err(e) => return Err(e),
    }
    let ghost view = batch@;
    proof {
        columns_are_there(view);
        assert(expected_columns()[0] == table::required("hydro_id", Kind::Int32));
        assert(expected_columns()[1] == table::required("v", Kind::Float64));
        assert(expected_columns()[2] == table::required("q", Kind::Float64));
        assert(expected_columns()[3] == table::required("fph_exact", Kind::Float64));
        assert(expected_columns()[4] == table::required("fpha_fitted", Kind::Float64));
        assert(expected_columns()[5] == table::required("deviation", Kind::Float64));
        assert(expected_columns()[6] == table::required("relative", Kind::Float64));
        assert(expected_columns()[7] == table::optional("stage_id", Kind::Int32));
    }
    let hydro_id: &Vec<Cell<i32>> = table::ints(batch, "hydro_id");
    let v: &Vec<Cell<Float64>> = table::floats(batch, "v");
    let q: &Vec<Cell<Float64>> = table::floats(batch, "q");
    let fph_exact: &Vec<Cell<Float64>> = table::floats(batch, "fph_exact");
    let fpha_fitted: &Vec<Cell<Float64>> = table::floats(batch, "fpha_fitted");
    let deviation: &Vec<Cell<Float64>> = table::floats(batch, "deviation");
    let relative: &Vec<Cell<Float64>> = table::floats(batch, "relative");
    let stage_id: Option<&Vec<Cell<i32>>> = table::optional_ints(batch, "stage_id");
    let mut rows: Vec<FphaDeviationPointRow> = Vec::new();
    for i in 0..batch.rows
        invariant
            view == batch@,
            hydro_id@ == view.named("hydro_id"@)->0->Int32_0,
            v@ == view.named("v"@)->0->Float64_0,
            q@ == view.named("q"@)->0->Float64_0,
            fph_exact@ == view.named("fph_exact"@)->0->Float64_0,
            fpha_fitted@ == view.named("fpha_fitted"@)->0->Float64_0,
            deviation@ == view.named("deviation"@)->0->Float64_0,
            relative@ == view.named("relative"@)->0->Float64_0,
            match stage_id {
                Some(cells) => view.named("stage_id"@) == Some(table::CellsView::Int32(cells@))
                    && cells@.len() == view.rows,
                None => view.named("stage_id"@) is None,
            },
            hydro_id@.len() == view.rows,
            v@.len() == view.rows,
            q@.len() == view.rows,
            fph_exact@.len() == view.rows,
            fpha_fitted@.len() == view.rows,
            deviation@.len() == view.rows,
            relative@.len() == view.rows,
            rows@ == rows_of()(view).take(i as int),
    {
        let stage: Option<i32> = match stage_id {
            Some(cells) => table::take(&cells[i]),
            None => None,
        };
        let row = FphaDeviationPointRow {
            hydro_id: EntityId(hydro_id[i].value),
            stage_id: stage,
            v: v[i].value,
            q: q[i].value,
            fph_exact: fph_exact[i].value,
            fpha_fitted: fpha_fitted[i].value,
            deviation: deviation[i].value,
            relative: relative[i].value,
        };
        assert(row == row_of(view, i as int));
        rows.push(row);
        proof {
            assert(rows@ =~= rows_of()(view).take(i + 1));
        }
    }
    proof {
        assert(rows@ =~= rows_of()(view));
    }
    Ok(rows)
}

/// Checks the tables of a file and gives its points, sorted by plant and stage.
pub fn parse_fpha_deviation_points(batches: &Vec<Table>, path: &str) -> (r: Result<
    Vec<FphaDeviationPointRow>,
    LoadError,
>)
    requires
        table::readable(table::table_views(batches@)),
    ensures
        error::reports(r, path@, file_finding(table::table_views(batches@))),
        r matches Ok(rows) ==> rows@ == sorting::sorted(
            table::rows_of_all(
                table::table_views(batches@),
                rows_of(),
                batches@.len() as int,
            ),
        ),
{
    let ghost views = table::table_views(batches@);
    let ghost check = tables_check(views);
    let mut rows: Vec<FphaDeviationPointRow> = Vec::new();
    for k in 0..batches.len()
        invariant
            views == table::table_views(batches@),
            check == tables_check(views),
            table::readable(views),
            forall|j: int| 0 <= j < k ==> (#[trigger] check(j)) is None,
            rows@ == table::rows_of_all(views, rows_of(), k as int),
    {
        proof {
            assert(views[k as int] == batches@[k as int]@);
            assert(views[k as int].well_formed());
        }
        let outcome = read_table(&batches[k], path);
        assert(error::reports(outcome, path@, check(k as int)));
        match outcome {
            Ok(more) => {
                let mut next: Vec<FphaDeviationPointRow> = more;
                rows.append(&mut next);
            },
            Err(e) => {
                proof {
                    validation::first_is_at(views.len() as int, check, k as int);
                }
                return Err(e);
            },
        }
    }
    proof {
        validation::first_is_none(views.len() as int, check);
    }
    Ok(sorting::sort_by_key(rows))
}

// ── What is read ─────────────────────────────────────────────────────────────

/// Each point that is read is a row of a table, given back: with the values of that row
/// in the columns of their names. They come in the order of their keys.
pub proof fn points_are_rows(batches: Seq<Table>, rows: Seq<FphaDeviationPointRow>, j: int) -> (at: (int, int))
    requires
        0 <= j < rows.len(),
        rows == sorting::sorted(
            table::rows_of_all(
                table::table_views(batches),
                rows_of(),
                batches.len() as int,
            ),
        ),
    ensures
        0 <= at.0 < batches.len(),
        0 <= at.1 < batches[at.0].rows,
        rows[j].hydro_id.0 == batches[at.0]@.int_at("hydro_id"@, at.1).value,
        match batches[at.0]@.named("stage_id"@) {
            Some(cells) => rows[j].stage_id == (if cells->Int32_0[at.1].null {
                None
            } else {
                Some(cells->Int32_0[at.1].value)
            }),
            None => rows[j].stage_id is None,
        },
        rows[j].v == batches[at.0]@.float_at("v"@, at.1).value,
        rows[j].q == batches[at.0]@.float_at("q"@, at.1).value,
        rows[j].fph_exact == batches[at.0]@.float_at("fph_exact"@, at.1).value,
        rows[j].fpha_fitted == batches[at.0]@.float_at("fpha_fitted"@, at.1).value,
        rows[j].deviation == batches[at.0]@.float_at("deviation"@, at.1).value,
        rows[j].relative == batches[at.0]@.float_at("relative"@, at.1).value,
        j > 0 ==> {
            let a = rows[j - 1];
            let b = rows[j];
            ||| a.hydro_id.0 < b.hydro_id.0
            ||| a.hydro_id == b.hydro_id && a.stage_id is None
            ||| a.hydro_id == b.hydro_id && a.stage_id is Some && b.stage_id is Some
                && a.stage_id->0 <= b.stage_id->0
        },
{
    let tables = table::table_views(batches);
    let all = table::rows_of_all(tables, rows_of(), tables.len() as int);
    sorting::sorted_is(all);
    if j > 0 {
        assert(sorting::at_most(sorting::sorted(all)[j - 1].key(), sorting::sorted(all)[j].key()));
    }
    let e = sorting::sorted_comes_from(all, j);
    let at = table::row_comes_from(tables, rows_of(), tables.len() as int, e);
    assert(tables[at.0] == batches[at.0]@);
    assert(rows_of()(tables[at.0])[at.1] == row_of(tables[at.0], at.1));
    at
}

/// Each row of each table is read, and is at the place that is given back.
pub proof fn points_are_all_read(batches: Seq<Table>, rows: Seq<FphaDeviationPointRow>, k: int, i: int) -> (j:
    int)
    requires
        0 <= k < batches.len(),
        0 <= i < batches[k].rows,
        rows == sorting::sorted(
            table::rows_of_all(
                table::table_views(batches),
                rows_of(),
                batches.len() as int,
            ),
        ),
    ensures
        rows.len() == table::rows_before(table::table_views(batches), batches.len() as int),
        0 <= j < rows.len(),
        rows[j].hydro_id.0 == batches[k]@.int_at("hydro_id"@, i).value,
        match batches[k]@.named("stage_id"@) {
            Some(cells) => rows[j].stage_id == (if cells->Int32_0[i].null {
                None
            } else {
                Some(cells->Int32_0[i].value)
            }),
            None => rows[j].stage_id is None,
        },
        rows[j].v == batches[k]@.float_at("v"@, i).value,
        rows[j].q == batches[k]@.float_at("q"@, i).value,
        rows[j].fph_exact == batches[k]@.float_at("fph_exact"@, i).value,
        rows[j].fpha_fitted == batches[k]@.float_at("fpha_fitted"@, i).value,
        rows[j].deviation == batches[k]@.float_at("deviation"@, i).value,
        rows[j].relative == batches[k]@.float_at("relative"@, i).value,
{
    let tables = table::table_views(batches);
    let all = table::rows_of_all(tables, rows_of(), tables.len() as int);
    assert(tables[k] == batches[k]@);
    rows_are_counted(tables, tables.len() as int);
    let e = table::row_is_listed(tables, rows_of(), tables.len() as int, k, i);
    let j = sorting::sorted_has(all, e);
    assert(rows_of()(tables[k])[i] == row_of(tables[k], i));
    j
}

proof fn rows_are_counted(tables: Seq<TableView>, n: int)
    requires
        0 <= n <= tables.len(),
    ensures
        table::rows_of_all(tables, rows_of(), n).len() == table::rows_before(tables, n),
    decreases n,
{
    if n > 0 {
        rows_are_counted(tables, n - 1);
    }
}

/// The columns of a table are accepted exactly where every column but that of the stage is there with
/// values of its type, and where that of the stage is there, it holds integers.
pub proof fn accepted_columns(table: TableView)
    ensures
        columns_finding(table) is None <==> {
            &&& table.named("hydro_id"@) is Some && table.named("hydro_id"@)->0 is Int32
            &&& table.named("v"@) is Some && table.named("v"@)->0 is Float64
            &&& table.named("q"@) is Some && table.named("q"@)->0 is Float64
            &&& table.named("fph_exact"@) is Some && table.named("fph_exact"@)->0 is Float64
            &&& table.named("fpha_fitted"@) is Some && table.named("fpha_fitted"@)->0 is Float64
            &&& table.named("deviation"@) is Some && table.named("deviation"@)->0 is Float64
            &&& table.named("relative"@) is Some && table.named("relative"@)->0 is Float64
            &&& table.named("stage_id"@) is Some ==> table.named("stage_id"@)->0 is Int32
        },
{
    let missing = "missing required column \""@;
    let check = table::columns_check(table, expected_columns(), missing);
    validation::first_is_none(expected_columns().len() as int, check);
    assert(expected_columns()[0] == table::required("hydro_id", Kind::Int32));
    assert(check(0) is None <==> table::column_finding(table, expected_columns()[0], missing) is None);
    assert(expected_columns()[1] == table::required("v", Kind::Float64));
    assert(check(1) is None <==> table::column_finding(table, expected_columns()[1], missing) is None);
    assert(expected_columns()[2] == table::required("q", Kind::Float64));
    assert(check(2) is None <==> table::column_finding(table, expected_columns()[2], missing) is None);
    assert(expected_columns()[3] == table::required("fph_exact", Kind::Float64));
    assert(check(3) is None <==> table::column_finding(table, expected_columns()[3], missing) is None);
    assert(expected_columns()[4] == table::required("fpha_fitted", Kind::Float64));
    assert(check(4) is None <==> table::column_finding(table, expected_columns()[4], missing) is None);
    assert(expected_columns()[5] == table::required("deviation", Kind::Float64));
    assert(check(5) is None <==> table::column_finding(table, expected_columns()[5], missing) is None);
    assert(expected_columns()[6] == table::required("relative", Kind::Float64));
    assert(check(6) is None <==> table::column_finding(table, expected_columns()[6], missing) is None);
    assert(expected_columns()[7] == table::optional("stage_id", Kind::Int32));
    assert(check(7) is None <==> table::column_finding(table, expected_columns()[7], missing) is None);
}

} // verus!
