//! Fitted linear evaporation models.
//!
//! Each row is the model of one plant at one stage, or at all stages.
//! [`parse_evaporation_models`] checks the rows and sorts them by plant and stage,
//! a row for all stages before those for one.

use vstd::prelude::*;

use crate::entities::EntityId;
use crate::error;
use crate::error::{Finding, LoadError};
use crate::float::Float64;
use crate::sorting;
use crate::sorting::{HasKey, Key, Keyed};
use crate::table;
use crate::table::{Cell, Expected, ExpectedView, Kind, Table, TableView};
use crate::text;
use crate::validation;

verus! {

/// The evaporation model of one plant: the outflow at a volume `v` is
/// `intercept_m3s + volume_slope_m3s_per_hm3 * v`.
#[derive(Clone, Debug, PartialEq)]
pub struct EvaporationModelRow {
    /// The plant.
    pub hydro_id: EntityId,
    /// The stage, or none for all stages.
    pub stage_id: Option<i32>,
    /// The constant term, in m³/s.
    pub intercept_m3s: Float64,
    /// The slope, in (m³/s)/hm³.
    pub volume_slope_m3s_per_hm3: Float64,
    /// The volume that the model was fitted around, in hm³.
    pub reference_volume_hm3: Float64,
    /// Where that volume comes from.
    pub source: String,
}

/// What an [`EvaporationModelRow`] holds.
#[verifier::ext_equal]
pub struct EvaporationModelView {
    /// The plant.
    pub hydro_id: EntityId,
    /// The stage, or none for all stages.
    pub stage_id: Option<i32>,
    /// The constant term.
    pub intercept_m3s: Float64,
    /// The slope.
    pub volume_slope_m3s_per_hm3: Float64,
    /// The volume that the model was fitted around.
    pub reference_volume_hm3: Float64,
    /// Where that volume comes from.
    pub source: Seq<char>,
}

impl View for EvaporationModelRow {
    type V = EvaporationModelView;

    open spec fn view(&self) -> EvaporationModelView {
        EvaporationModelView {
            hydro_id: self.hydro_id,
            stage_id: self.stage_id,
            intercept_m3s: self.intercept_m3s,
            volume_slope_m3s_per_hm3: self.volume_slope_m3s_per_hm3,
            reference_volume_hm3: self.reference_volume_hm3,
            source: self.source@,
        }
    }
}

/// The key of a plant and an optional stage: no stage comes before any.
pub open spec fn plant_stage_key(hydro_id: EntityId, stage_id: Option<i32>) -> Key {
    match stage_id {
        Some(stage) => (hydro_id.0 as int, 1, stage as int),
        None => (hydro_id.0 as int, 0, 0),
    }
}

/// The key of a plant and an optional stage.
pub(crate) fn plant_stage_sort_key(hydro_id: EntityId, stage_id: Option<i32>) -> (r: (i64, i64, i64))
    ensures
        r.0 == plant_stage_key(hydro_id, stage_id).0,
        r.1 == plant_stage_key(hydro_id, stage_id).1,
        r.2 == plant_stage_key(hydro_id, stage_id).2,
{
    match stage_id {
        Some(stage) => (hydro_id.0 as i64, 1, stage as i64),
        None => (hydro_id.0 as i64, 0, 0),
    }
}

impl HasKey for EvaporationModelView {
    open spec fn key(&self) -> Key {
        plant_stage_key(self.hydro_id, self.stage_id)
    }
}

impl HasKey for EvaporationModelRow {
    open spec fn key(&self) -> Key {
        plant_stage_key(self.hydro_id, self.stage_id)
    }
}

impl Keyed for EvaporationModelRow {
    fn sort_key(&self) -> (r: (i64, i64, i64)) {
        plant_stage_sort_key(self.hydro_id, self.stage_id)
    }
}

/// The views of rows.
pub open spec fn row_views(rows: Seq<EvaporationModelRow>) -> Seq<EvaporationModelView> {
    rows.map_values(|r: EvaporationModelRow| r@)
}

// ── Columns ──────────────────────────────────────────────────────────────────

/// The columns of the file.
pub open spec fn expected_columns() -> Seq<ExpectedView> {
    seq![
        table::required("hydro_id", Kind::Int32),
        table::required("intercept_m3s", Kind::Float64),
        table::required("volume_slope_m3s_per_hm3", Kind::Float64),
        table::required("reference_volume_hm3", Kind::Float64),
        table::required("source", Kind::Utf8),
        table::optional("stage_id", Kind::Int32),
    ]
}

fn expected() -> (r: Vec<Expected>)
    ensures
        table::expected_views(r@) == expected_columns(),
{
    let r: Vec<Expected> = vec![
        Expected { name: "hydro_id", kind: Kind::Int32, required: true },
        Expected { name: "intercept_m3s", kind: Kind::Float64, required: true },
        Expected { name: "volume_slope_m3s_per_hm3", kind: Kind::Float64, required: true },
        Expected { name: "reference_volume_hm3", kind: Kind::Float64, required: true },
        Expected { name: "source", kind: Kind::Utf8, required: true },
        Expected { name: "stage_id", kind: Kind::Int32, required: false },
    ];
    proof {
        assert(table::expected_views(r@) =~= expected_columns());
    }
    r
}

/// What is wrong with the columns of a table.
pub open spec fn columns_finding(table: TableView) -> Option<Finding> {
    table::columns_finding(table, expected_columns(), "missing required column \""@)
}

// ── Rows ─────────────────────────────────────────────────────────────────────

/// The model in row `i`.
pub open spec fn row_of(table: TableView, i: int) -> EvaporationModelView {
    EvaporationModelView {
        hydro_id: EntityId(table.int_at("hydro_id"@, i).value),
        stage_id: table.optional_int_at("stage_id"@, i),
        intercept_m3s: table.float_at("intercept_m3s"@, i).value,
        volume_slope_m3s_per_hm3: table.float_at("volume_slope_m3s_per_hm3"@, i).value,
        reference_volume_hm3: table.float_at("reference_volume_hm3"@, i).value,
        source: table.text_at("source"@, i).value,
    }
}

/// The models of a table.
pub open spec fn rows_of() -> spec_fn(TableView) -> Seq<EvaporationModelView> {
    |table: TableView| Seq::new(table.rows, |i: int| row_of(table, i))
}

/// What is wrong with a coefficient.
pub open spec fn coefficient_finding(index: int, column: &str, value: Float64) -> Option<Finding> {
    validation::number_finding(
        value.finite(),
        "evaporation_models"@,
        index,
        column@,
        "value must be finite, got "@,
        value,
    )
}

/// What is wrong with a model. `index` counts the rows of its table.
pub open spec fn row_finding(index: int, row: EvaporationModelView) -> Option<Finding> {
    validation::either(
        coefficient_finding(index, "intercept_m3s", row.intercept_m3s),
        validation::either(
            coefficient_finding(
                index,
                "volume_slope_m3s_per_hm3",
                row.volume_slope_m3s_per_hm3,
            ),
            coefficient_finding(index, "reference_volume_hm3", row.reference_volume_hm3),
        ),
    )
}

/// What is wrong with each row of a table.
pub open spec fn row_check(table: TableView) -> spec_fn(int) -> Option<Finding> {
    |i: int| row_finding(i, row_of(table, i))
}

/// What is wrong with a table.
pub open spec fn table_finding(table: TableView) -> Option<Finding> {
    validation::either(
        columns_finding(table),
        validation::first(table.rows as int, row_check(table)),
    )
}

/// What is wrong with each table of a file.
pub open spec fn tables_check(tables: Seq<TableView>) -> spec_fn(int) -> Option<Finding> {
    |k: int| table_finding(tables[k])
}

/// What is wrong with a file.
pub open spec fn file_finding(tables: Seq<TableView>) -> Option<Finding> {
    validation::first(tables.len() as int, tables_check(tables))
}

// ── Reading ──────────────────────────────────────────────────────────────────

fn validate_finite(value: Float64, row_idx: usize, column: &'static str, path: &str) -> (r: Result<
    (),
    LoadError,
>)
    ensures
        error::reports(r, path@, coefficient_finding(row_idx as int, column, value)),
{
    validation::check_number(
        value.is_finite(),
        "evaporation_models",
        row_idx,
        column,
        "value must be finite, got ",
        value,
        path,
    )
}

fn validate_row(row: &EvaporationModelRow, row_idx: usize, path: &str) -> (r: Result<
    (),
    LoadError,
>)
    ensures
        error::reports(r, path@, row_finding(row_idx as int, row@)),
{
    match validate_finite(row.intercept_m3s, row_idx, "intercept_m3s", path) {
        Ok(_) => {},
        Err(e) => return Err(e),
    }
    let slope = validate_finite(
        row.volume_slope_m3s_per_hm3,
        row_idx,
        "volume_slope_m3s_per_hm3",
        path,
    );
    match slope {
        Ok(_) => {},
        Err(e) => return Err(e),
    }
    validate_finite(row.reference_volume_hm3, row_idx, "reference_volume_hm3", path)
}

proof fn columns_are_there(table: TableView)
    requires
        table.well_formed(),
        columns_finding(table) is None,
    ensures
        forall|k: int|
            0 <= k < 6 ==> {
                let e = #[trigger] expected_columns()[k];
                &&& e.required ==> table.named(e.name) is Some
                &&& table.named(e.name) matches Some(cells) ==> cells.of_kind(e.kind)
                    && cells.has_len(table.rows as int)
            },
{
    assert forall|k: int| 0 <= k < 6 implies {
        let e = #[trigger] expected_columns()[k];
        &&& e.required ==> table.named(e.name) is Some
        &&& table.named(e.name) matches Some(cells) ==> cells.of_kind(e.kind) && cells.has_len(
            table.rows as int,
        )
    } by {
        let e = expected_columns()[k];
        table::required_column_is_there(
            table,
            expected_columns(),
            "missing required column \""@,
            k,
        );
        table::named_has_len(table, e.name);
    }
}

/// Takes the models of one table.
fn read_table(batch: &Table, path: &str) -> (r: Result<Vec<EvaporationModelRow>, LoadError>)
    requires
        batch@.well_formed(),
    ensures
        error::reports(r, path@, table_finding(batch@)),
        r matches Ok(rows) ==> row_views(rows@) == rows_of()(batch@),
{
    match table::check_columns(batch, &expected(), "missing required column \"", path) {
        Ok(_) => {},
        Err(e) => return Err(e),
    }
    let ghost view = batch@;
    proof {
        columns_are_there(view);
        assert(expected_columns()[0] == table::required("hydro_id", Kind::Int32));
        assert(expected_columns()[1] == table::required("intercept_m3s", Kind::Float64));
        assert(expected_columns()[2] == table::required(
            "volume_slope_m3s_per_hm3",
            Kind::Float64,
        ));
        assert(expected_columns()[3] == table::required("reference_volume_hm3", Kind::Float64));
        assert(expected_columns()[4] == table::required("source", Kind::Utf8));
        assert(expected_columns()[5] == table::optional("stage_id", Kind::Int32));
    }
    let hydro_id: &Vec<Cell<i32>> = table::ints(batch, "hydro_id");
    let intercept: &Vec<Cell<Float64>> = table::floats(batch, "intercept_m3s");
    let slope: &Vec<Cell<Float64>> = table::floats(batch, "volume_slope_m3s_per_hm3");
    let volume: &Vec<Cell<Float64>> = table::floats(batch, "reference_volume_hm3");
    let source: &Vec<Cell<String>> = table::texts(batch, "source");
    let stage_id: Option<&Vec<Cell<i32>>> = table::optional_ints(batch, "stage_id");
    let ghost check = row_check(view);
    let mut rows: Vec<EvaporationModelRow> = Vec::new();
    for i in 0..batch.rows
        invariant
            view == batch@,
            check == row_check(view),
            hydro_id@ == view.named("hydro_id"@)->0->Int32_0,
            intercept@ == view.named("intercept_m3s"@)->0->Float64_0,
            slope@ == view.named("volume_slope_m3s_per_hm3"@)->0->Float64_0,
            volume@ == view.named("reference_volume_hm3"@)->0->Float64_0,
            table::cell_texts(source@) == view.named("source"@)->0->Utf8_0,
            match stage_id {
                Some(cells) => view.named("stage_id"@) == Some(table::CellsView::Int32(cells@))
                    && cells@.len() == view.rows,
                None => view.named("stage_id"@) is None,
            },
            hydro_id@.len() == view.rows,
            intercept@.len() == view.rows,
            slope@.len() == view.rows,
            volume@.len() == view.rows,
            table::cell_texts(source@).len() == view.rows,
            columns_finding(view) is None,
            forall|j: int| 0 <= j < i ==> (#[trigger] check(j)) is None,
            row_views(rows@) == rows_of()(view).take(i as int),
    {
        let stage: Option<i32> = match stage_id {
            Some(cells) => table::take(&cells[i]),
            None => None,
        };
        let row = EvaporationModelRow {
            hydro_id: EntityId(hydro_id[i].value),
            stage_id: stage,
            intercept_m3s: intercept[i].value,
            volume_slope_m3s_per_hm3: slope[i].value,
            reference_volume_hm3: volume[i].value,
            source: source[i].value.clone(),
        };
        assert(table::cell_texts(source@)[i as int].value == source@[i as int].value@);
        assert(row@ == row_of(view, i as int));
        let outcome = validate_row(&row, i, path);
        assert(error::reports(outcome, path@, check(i as int)));
        match outcome {
            Ok(_) => {},
            Err(e) => {
                proof {
                    validation::first_is_at(view.rows as int, check, i as int);
                }
                return Err(e);
            },
        }
        let ghost before = rows@;
        rows.push(row);
        proof {
            assert(row_views(rows@) =~= row_views(before).push(row@));
            assert(row_views(rows@) =~= rows_of()(view).take(i + 1));
        }
    }
    proof {
        validation::first_is_none(view.rows as int, check);
        assert(row_views(rows@) =~= rows_of()(view));
    }
    Ok(rows)
}

/// Checks the tables of a file and gives its models, sorted by plant and stage.
pub fn parse_evaporation_models(batches: &Vec<Table>, path: &str) -> (r: Result<
    Vec<EvaporationModelRow>,
    LoadError,
>)
    requires
        table::readable(table::table_views(batches@)),
    ensures
        error::reports(r, path@, file_finding(table::table_views(batches@))),
        r matches Ok(rows) ==> row_views(rows@) == sorting::sorted(
            table::rows_of_all(
                table::table_views(batches@),
                rows_of(),
                batches@.len() as int,
            ),
        ),
{
    let ghost views = table::table_views(batches@);
    let ghost check = tables_check(views);
    let mut rows: Vec<EvaporationModelRow> = Vec::new();
    for k in 0..batches.len()
        invariant
            views == table::table_views(batches@),
            check == tables_check(views),
            table::readable(views),
            forall|j: int| 0 <= j < k ==> (#[trigger] check(j)) is None,
            row_views(rows@) == table::rows_of_all(views, rows_of(), k as int),
    {
        proof {
            assert(views[k as int] == batches@[k as int]@);
            assert(views[k as int].well_formed());
        }
        let outcome = read_table(&batches[k], path);
        assert(error::reports(outcome, path@, check(k as int)));
        match outcome {
            Ok(more) => {
                let ghost before = rows@;
                let ghost added = more@;
                let mut next: Vec<EvaporationModelRow> = more;
                rows.append(&mut next);
                proof {
                    assert(row_views(rows@) =~= row_views(before) + row_views(added));
                }
            },
            Err(e) => {
                proof {
                    validation::first_is_at(views.len() as int, check, k as int);
                }
                return Err(e);
            },
        }
    }
    proof {
        validation::first_is_none(views.len() as int, check);
        sorting::images_sort_alike(rows@, |r: EvaporationModelRow| r@);
    }
    Ok(sorting::sort_by_key(rows))
}

// ── What is read ─────────────────────────────────────────────────────────────

/// Each model that is read is a row of a table, given back: with the values of that row
/// in the columns of their names. They come in the order of their keys.
pub proof fn models_are_rows(batches: Seq<Table>, rows: Seq<EvaporationModelRow>, j: int) -> (at: (int, int))
    requires
        0 <= j < rows.len(),
        row_views(rows) == sorting::sorted(
            table::rows_of_all(
                table::table_views(batches),
                rows_of(),
                batches.len() as int,
            ),
        ),
    ensures
        0 <= at.0 < batches.len(),
        0 <= at.1 < batches[at.0].rows,
        rows[j].hydro_id.0 == batches[at.0]@.int_at("hydro_id"@, at.1).value,
        match batches[at.0]@.named("stage_id"@) {
            Some(cells) => rows[j].stage_id == (if cells->Int32_0[at.1].null {
                None
            } else {
                Some(cells->Int32_0[at.1].value)
            }),
            None => rows[j].stage_id is None,
        },
        rows[j].intercept_m3s == batches[at.0]@.float_at("intercept_m3s"@, at.1).value,
        rows[j].volume_slope_m3s_per_hm3 == batches[at.0]@.float_at("volume_slope_m3s_per_hm3"@, at.1).value,
        rows[j].reference_volume_hm3 == batches[at.0]@.float_at("reference_volume_hm3"@, at.1).value,
        rows[j].source@ == batches[at.0]@.text_at("source"@, at.1).value,
        j > 0 ==> {
            let a = rows[j - 1];
            let b = rows[j];
            ||| a.hydro_id.0 < b.hydro_id.0
            ||| a.hydro_id == b.hydro_id && a.stage_id is None
            ||| a.hydro_id == b.hydro_id && a.stage_id is Some && b.stage_id is Some
                && a.stage_id->0 <= b.stage_id->0
        },
{
    let tables = table::table_views(batches);
    let all = table::rows_of_all(tables, rows_of(), tables.len() as int);
    sorting::sorted_is(all);
    if j > 0 {
        assert(row_views(rows)[j - 1] == rows[j - 1]@);
        assert(sorting::at_most(sorting::sorted(all)[j - 1].key(), sorting::sorted(all)[j].key()));
    }
    let e = sorting::sorted_comes_from(all, j);
    let at = table::row_comes_from(tables, rows_of(), tables.len() as int, e);
    assert(tables[at.0] == batches[at.0]@);
    assert(rows_of()(tables[at.0])[at.1] == row_of(tables[at.0], at.1));
    assert(row_views(rows)[j] == rows[j]@);
    at
}

/// Each row of each table is read, and is at the place that is given back.
pub proof fn models_are_all_read(batches: Seq<Table>, rows: Seq<EvaporationModelRow>, k: int, i: int) -> (j:
    int)
    requires
        0 <= k < batches.len(),
        0 <= i < batches[k].rows,
        row_views(rows) == sorting::sorted(
            table::rows_of_all(
                table::table_views(batches),
                rows_of(),
                batches.len() as int,
            ),
        ),
    ensures
        rows.len() == table::rows_before(table::table_views(batches), batches.len() as int),
        0 <= j < rows.len(),
        rows[j].hydro_id.0 == batches[k]@.int_at("hydro_id"@, i).value,
        match batches[k]@.named("stage_id"@) {
            Some(cells) => rows[j].stage_id == (if cells->Int32_0[i].null {
                None
            } else {
                Some(cells->Int32_0[i].value)
            }),
            None => rows[j].stage_id is None,
        },
        rows[j].intercept_m3s == batches[k]@.float_at("intercept_m3s"@, i).value,
        rows[j].volume_slope_m3s_per_hm3 == batches[k]@.float_at("volume_slope_m3s_per_hm3"@, i).value,
        rows[j].reference_volume_hm3 == batches[k]@.float_at("reference_volume_hm3"@, i).value,
        rows[j].source@ == batches[k]@.text_at("source"@, i).value,
{
    let tables = table::table_views(batches);
    let all = table::rows_of_all(tables, rows_of(), tables.len() as int);
    assert(tables[k] == batches[k]@);
    rows_are_counted(tables, tables.len() as int);
    let e = table::row_is_listed(tables, rows_of(), tables.len() as int, k, i);
    let j = sorting::sorted_has(all, e);
    assert(rows_of()(tables[k])[i] == row_of(tables[k], i));
    assert(row_views(rows)[j] == rows[j]@);
    j
}

proof fn rows_are_counted(tables: Seq<TableView>, n: int)
    requires
        0 <= n <= tables.len(),
    ensures
        table::rows_of_all(tables, rows_of(), n).len() == table::rows_before(tables, n),
    decreases n,
{
    if n > 0 {
        rows_are_counted(tables, n - 1);
    }
}

/// A file is accepted exactly where each table has the columns and the three numbers of
/// each of its rows are finite.
pub proof fn accepted_files(tables: Seq<TableView>)
    ensures
        file_finding(tables) is None <==> forall|k: int|
            0 <= k < tables.len() ==> columns_finding(#[trigger] tables[k]) is None && forall|
                i: int,
            |
                0 <= i < tables[k].rows ==> {
                    &&& (#[trigger] tables[k].float_at("intercept_m3s"@, i)).value.finite()
                    &&& tables[k].float_at("volume_slope_m3s_per_hm3"@, i).value.finite()
                    &&& tables[k].float_at("reference_volume_hm3"@, i).value.finite()
                },
{
    let check = tables_check(tables);
    validation::first_is_none(tables.len() as int, check);
    assert forall|k: int| 0 <= k < tables.len() implies ((#[trigger] check(k)) is None <==>
        columns_finding(tables[k]) is None && forall|i: int|
        0 <= i < tables[k].rows ==> {
            &&& (#[trigger] tables[k].float_at("intercept_m3s"@, i)).value.finite()
            &&& tables[k].float_at("volume_slope_m3s_per_hm3"@, i).value.finite()
            &&& tables[k].float_at("reference_volume_hm3"@, i).value.finite()
        }) by {
        let rows = row_check(tables[k]);
        validation::first_is_none(tables[k].rows as int, rows);
        assert forall|i: int| 0 <= i < tables[k].rows implies ((#[trigger] rows(i)) is None <==> {
            &&& tables[k].float_at("intercept_m3s"@, i).value.finite()
            &&& tables[k].float_at("volume_slope_m3s_per_hm3"@, i).value.finite()
            &&& tables[k].float_at("reference_volume_hm3"@, i).value.finite()
        }) by {}
        if validation::first(tables[k].rows as int, rows) is None {
            assert forall|i: int| 0 <= i < tables[k].rows implies {
                &&& (#[trigger] tables[k].float_at("intercept_m3s"@, i)).value.finite()
                &&& tables[k].float_at("volume_slope_m3s_per_hm3"@, i).value.finite()
                &&& tables[k].float_at("reference_volume_hm3"@, i).value.finite()
            } by {
                assert(rows(i) is None);
            }
        }
    }
    if file_finding(tables) is None {
        assert forall|k: int| 0 <= k < tables.len() implies columns_finding(#[trigger] tables[k]) is None
            && forall|i: int|
            0 <= i < tables[k].rows ==> {
                &&& (#[trigger] tables[k].float_at("intercept_m3s"@, i)).value.finite()
                &&& tables[k].float_at("volume_slope_m3s_per_hm3"@, i).value.finite()
                &&& tables[k].float_at("reference_volume_hm3"@, i).value.finite()
            } by {
            assert(check(k) is None);
        }
    }
}

/// The columns of a table are accepted exactly where every column but that of the stage is there with
/// values of its type, and where that of the stage is there, it holds integers.
pub proof fn accepted_columns(table: TableView)
    ensures
        columns_finding(table) is None <==> {
            &&& table.named("hydro_id"@) is Some && table.named("hydro_id"@)->0 is Int32
            &&& table.named("intercept_m3s"@) is Some && table.named("intercept_m3s"@)->0 is Float64
            &&& table.named("volume_slope_m3s_per_hm3"@) is Some && table.named("volume_slope_m3s_per_hm3"@)->0 is Float64
            &&& table.named("reference_volume_hm3"@) is Some && table.named("reference_volume_hm3"@)->0 is Float64
            &&& table.named("source"@) is Some && table.named("source"@)->0 is Utf8
            &&& table.named("stage_id"@) is Some ==> table.named("stage_id"@)->0 is Int32
        },
{
    let missing = "missing required column \""@;
    let check = table::columns_check(table, expected_columns(), missing);
    validation::first_is_none(expected_columns().len() as int, check);
    assert(expected_columns()[0] == table::required("hydro_id", Kind::Int32));
    assert(check(0) is None <==> table::column_finding(table, expected_columns()[0], missing) is None);
    assert(expected_columns()[1] == table::required("intercept_m3s", Kind::Float64));
    assert(check(1) is None <==> table::column_finding(table, expected_columns()[1], missing) is None);
    assert(expected_columns()[2] == table::required("volume_slope_m3s_per_hm3", Kind::Float64));
    assert(check(2) is None <==> table::column_finding(table, expected_columns()[2], missing) is None);
    assert(expected_columns()[3] == table::required("reference_volume_hm3", Kind::Float64));
    assert(check(3) is None <==> table::column_finding(table, expected_columns()[3], missing) is None);
    assert(expected_columns()[4] == table::required("source", Kind::Utf8));
    assert(check(4) is None <==> table::column_finding(table, expected_columns()[4], missing) is None);
    assert(expected_columns()[5] == table::optional("stage_id", Kind::Int32));
    assert(check(5) is None <==> table::column_finding(table, expected_columns()[5], missing) is None);
}

/// What is reported of a file is a column that is wrong, in the table that is given back, or
/// the path of a cell that is, in the row that is given back: it is
/// not finite.
pub proof fn the_wrong_cell_is_reported(tables: Seq<TableView>) -> (at: (int, int))
    requires
        file_finding(tables) is Some,
    ensures
        0 <= at.0 < tables.len(),
        ({
            let f = file_finding(tables)->0;
            ||| columns_finding(tables[at.0]) == Some(f)
            ||| 0 <= at.1 < tables[at.0].rows && f.field == text::element_path(
                "evaporation_models"@,
                at.1,
                "intercept_m3s"@,
            ) && !tables[at.0].float_at("intercept_m3s"@, at.1).value.finite()
            ||| 0 <= at.1 < tables[at.0].rows && f.field == text::element_path(
                "evaporation_models"@,
                at.1,
                "volume_slope_m3s_per_hm3"@,
            ) && !tables[at.0].float_at("volume_slope_m3s_per_hm3"@, at.1).value.finite()
            ||| 0 <= at.1 < tables[at.0].rows && f.field == text::element_path(
                "evaporation_models"@,
                at.1,
                "reference_volume_hm3"@,
            ) && !tables[at.0].float_at("reference_volume_hm3"@, at.1).value.finite()
        }),
{
    let k = validation::the_first_bad_entry_is_reported(tables.len() as int, tables_check(tables));
    if columns_finding(tables[k]) is Some {
        (k, 0)
    } else {
        let i = validation::the_first_bad_entry_is_reported(
            tables[k].rows as int,
            row_check(tables[k]),
        );
        (k, i)
    }
}

} // verus!
