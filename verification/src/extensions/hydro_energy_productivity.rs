//! Overrides of a plant's energy productivity.
//!
//! Each row may override up to four quantities of a plant, at one stage or at all.
//! [`parse_hydro_energy_productivity`] checks the rows and sorts them by plant and
//! stage. A row for all stages comes before those of the same plant for one stage.

use vstd::prelude::*;

use crate::entities::EntityId;
use crate::error;
use crate::error::{Finding, LoadError};
use crate::extensions::evaporation_models;
use crate::float::Float64;
use crate::sorting;
use crate::sorting::{HasKey, Key, Keyed};
use crate::table;
use crate::table::{Cell, Expected, ExpectedView, Kind, Table, TableView};
use crate::text;
use crate::validation;

verus! {

/// The overrides of one plant.
#[derive(Clone, Copy, Debug, PartialEq, Eq)]
pub struct HydroEnergyProductivityRow {
    /// The plant.
    pub hydro_id: EntityId,
    /// The stage, or none for all stages.
    pub stage_id: Option<i32>,
    /// The equivalent productivity, in MW/(m³/s): finite and not negative. Zero
    /// stands for a planned outage.
    pub equivalent_productivity_mw_per_m3s: Option<Float64>,
    /// The reference volume, in hm³: finite and positive.
    pub reference_volume_hm3: Option<Float64>,
    /// The reference outflow, in m³/s: finite and not negative.
    pub reference_outflow_m3s: Option<Float64>,
    /// The specific productivity, in MW/(m³/s)/m: finite and not negative.
    pub specific_productivity_mw_per_m3s_per_m: Option<Float64>,
}

impl HasKey for HydroEnergyProductivityRow {
    open spec fn key(&self) -> Key {
        evaporation_models::plant_stage_key(self.hydro_id, self.stage_id)
    }
}

impl Keyed for HydroEnergyProductivityRow {
    fn sort_key(&self) -> (r: (i64, i64, i64)) {
        evaporation_models::plant_stage_sort_key(self.hydro_id, self.stage_id)
    }
}

// ── Columns ──────────────────────────────────────────────────────────────────

/// The columns of the file.
pub open spec fn expected_columns() -> Seq<ExpectedView> {
    seq![
        table::required("hydro_id", Kind::Int32),
        table::required("stage_id", Kind::Int32),
        table::required("equivalent_productivity_mw_per_m3s", Kind::Float64),
        table::required("reference_volume_hm3", Kind::Float64),
        table::required("reference_outflow_m3s", Kind::Float64),
        table::required("specific_productivity_mw_per_m3s_per_m", Kind::Float64),
    ]
}

fn expected() -> (r: Vec<Expected>)
    ensures
        table::expected_views(r@) == expected_columns(),
{
    let r: Vec<Expected> = vec![
        Expected { name: "hydro_id", kind: Kind::Int32, required: true },
        Expected { name: "stage_id", kind: Kind::Int32, required: true },
        Expected {
            name: "equivalent_productivity_mw_per_m3s",
            kind: Kind::Float64,
            required: true,
        },
        Expected { name: "reference_volume_hm3", kind: Kind::Float64, required: true },
        Expected { name: "reference_outflow_m3s", kind: Kind::Float64, required: true },
        Expected {
            name: "specific_productivity_mw_per_m3s_per_m",
            kind: Kind::Float64,
            required: true,
        },
    ];
    proof {
        assert(table::expected_views(r@) =~= expected_columns());
    }
    r
}

/// What is wrong with the columns of a table.
pub open spec fn columns_finding(table: TableView) -> Option<Finding> {
    table::columns_finding(table, expected_columns(), "missing column \""@)
}

// ── Rows ─────────────────────────────────────────────────────────────────────

/// The overrides in row `i`.
pub open spec fn row_of(table: TableView, i: int) -> HydroEnergyProductivityRow {
    HydroEnergyProductivityRow {
        hydro_id: EntityId(table.int_at("hydro_id"@, i).value),
        stage_id: table::present(table.int_at("stage_id"@, i)),
        equivalent_productivity_mw_per_m3s: table::present(
            table.float_at("equivalent_productivity_mw_per_m3s"@, i),
        ),
        reference_volume_hm3: table::present(table.float_at("reference_volume_hm3"@, i)),
        reference_outflow_m3s: table::present(table.float_at("reference_outflow_m3s"@, i)),
        specific_productivity_mw_per_m3s_per_m: table::present(
            table.float_at("specific_productivity_mw_per_m3s_per_m"@, i),
        ),
    }
}

/// The overrides of a table.
pub open spec fn rows_of() -> spec_fn(TableView) -> Seq<HydroEnergyProductivityRow> {
    |table: TableView| Seq::new(table.rows, |i: int| row_of(table, i))
}

/// What is wrong with an override that must not be negative.
pub open spec fn non_negative_finding(index: int, column: &str, value: Option<Float64>) -> Option<
    Finding,
> {
    match value {
        Some(x) => validation::number_finding(
            validation::non_negative(x),
            "hydro_energy_productivity"@,
            index,
            column@,
            "value must be finite and non-negative (>= 0.0), got "@,
            x,
        ),
        None => None,
    }
}

/// What is wrong with an override that must be positive.
pub open spec fn positive_finding(index: int, column: &str, value: Option<Float64>) -> Option<
    Finding,
> {
    match value {
        Some(x) => validation::number_finding(
            validation::positive(x),
            "hydro_energy_productivity"@,
            index,
            column@,
            "value must be finite and strictly positive (> 0.0), got "@,
            x,
        ),
        None => None,
    }
}

/// What is wrong with the overrides of a row.
pub open spec fn overrides_finding(index: int, row: HydroEnergyProductivityRow) -> Option<Finding> {
    validation::either(
        non_negative_finding(
            index,
            "equivalent_productivity_mw_per_m3s",
            row.equivalent_productivity_mw_per_m3s,
        ),
        validation::either(
            positive_finding(index, "reference_volume_hm3", row.reference_volume_hm3),
            validation::either(
                non_negative_finding(index, "reference_outflow_m3s", row.reference_outflow_m3s),
                non_negative_finding(
                    index,
                    "specific_productivity_mw_per_m3s_per_m",
                    row.specific_productivity_mw_per_m3s_per_m,
                ),
            ),
        ),
    )
}

/// What is wrong with a row whose plant is null.
pub open spec fn plant_finding(index: int, null: bool) -> Option<Finding> {
    validation::null_finding(null, "hydro_energy_productivity"@, index, "hydro_id"@)
}

/// What is wrong with each row of a table whose first row has number `base`.
pub open spec fn row_check(table: TableView, base: int) -> spec_fn(int) -> Option<Finding> {
    |i: int|
        validation::either(
            plant_finding(base + i, table.int_at("hydro_id"@, i).null),
            overrides_finding(base + i, row_of(table, i)),
        )
}

/// What is wrong with a table.
pub open spec fn table_finding(table: TableView, base: int) -> Option<Finding> {
    validation::either(
        columns_finding(table),
        validation::first(table.rows as int, row_check(table, base)),
    )
}

/// What is wrong with each table of a file.
pub open spec fn tables_check(tables: Seq<TableView>) -> spec_fn(int) -> Option<Finding> {
    |k: int| table_finding(tables[k], table::rows_before(tables, k) as int)
}

/// What is wrong with a file.
pub open spec fn file_finding(tables: Seq<TableView>) -> Option<Finding> {
    validation::first(tables.len() as int, tables_check(tables))
}

// ── Reading ──────────────────────────────────────────────────────────────────

fn validate_nonnegative(
    value: Option<Float64>,
    row_idx: usize,
    column: &'static str,
    path: &str,
) -> (r: Result<(), LoadError>)
    ensures
        error::reports(r, path@, non_negative_finding(row_idx as int, column, value)),
{
    match value {
        Some(x) => validation::check_number(
            validation::is_non_negative(x),
            "hydro_energy_productivity",
            row_idx,
            column,
            "value must be finite and non-negative (>= 0.0), got ",
            x,
            path,
        ),
        None => Ok(()),
    }
}

fn validate_strictly_positive(
    value: Option<Float64>,
    row_idx: usize,
    column: &'static str,
    path: &str,
) -> (r: Result<(), LoadError>)
    ensures
        error::reports(r, path@, positive_finding(row_idx as int, column, value)),
{
    match value {
        Some(x) => validation::check_number(
            validation::is_positive(x),
            "hydro_energy_productivity",
            row_idx,
            column,
            "value must be finite and strictly positive (> 0.0), got ",
            x,
            path,
        ),
        None => Ok(()),
    }
}

fn validate_plant(null: bool, row_idx: usize, path: &str) -> (r: Result<(), LoadError>)
    ensures
        error::reports(r, path@, plant_finding(row_idx as int, null)),
{
    validation::check_not_null(null, "hydro_energy_productivity", row_idx, "hydro_id", path)
}

fn validate_overrides(row: &HydroEnergyProductivityRow, row_idx: usize, path: &str) -> (r: Result<
    (),
    LoadError,
>)
    ensures
        error::reports(r, path@, overrides_finding(row_idx as int, *row)),
{
    let equivalent = validate_nonnegative(
        row.equivalent_productivity_mw_per_m3s,
        row_idx,
        "equivalent_productivity_mw_per_m3s",
        path,
    );
    match equivalent {
        Ok(_) => {},
        Err(e) => return Err(e),
    }
    let volume = validate_strictly_positive(
        row.reference_volume_hm3,
        row_idx,
        "reference_volume_hm3",
        path,
    );
    match volume {
        Ok(_) => {},
        Err(e) => return Err(e),
    }
    let outflow = validate_nonnegative(
        row.reference_outflow_m3s,
        row_idx,
        "reference_outflow_m3s",
        path,
    );
    match outflow {
        Ok(_) => {},
        Err(e) => return Err(e),
    }
    validate_nonnegative(
        row.specific_productivity_mw_per_m3s_per_m,
        row_idx,
        "specific_productivity_mw_per_m3s_per_m",
        path,
    )
}

proof fn columns_are_there(table: TableView)
    requires
        table.well_formed(),
        columns_finding(table) is None,
    ensures
        forall|k: int|
            0 <= k < 6 ==> {
                let e = #[trigger] expected_columns()[k];
                &&& table.named(e.name) is Some
                &&& table.named(e.name)->0.of_kind(e.kind)
                &&& table.named(e.name)->0.has_len(table.rows as int)
            },
{
    assert forall|k: int| 0 <= k < 6 implies {
        let e = #[trigger] expected_columns()[k];
        &&& table.named(e.name) is Some
        &&& table.named(e.name)->0.of_kind(e.kind)
        &&& table.named(e.name)->0.has_len(table.rows as int)
    } by {
        let e = expected_columns()[k];
        table::required_column_is_there(table, expected_columns(), "missing column \""@, k);
        table::named_has_len(table, e.name);
    }
}

/// Takes the overrides of one table, whose first row has number `base`.
fn read_table(batch: &Table, base: usize, path: &str) -> (r: Result<
    Vec<HydroEnergyProductivityRow>,
    LoadError,
>)
    requires
        batch@.well_formed(),
        base + batch@.rows <= usize::MAX,
    ensures
        error::reports(r, path@, table_finding(batch@, base as int)),
        r matches Ok(rows) ==> rows@ == rows_of()(batch@),
{
    match table::check_columns(batch, &expected(), "missing column \"", path) {
        Ok(_) => {},
        Err(e) => return Err(e),
    }
    let ghost view = batch@;
    proof {
        columns_are_there(view);
        assert(expected_columns()[0] == table::required("hydro_id", Kind::Int32));
        assert(expected_columns()[1] == table::required("stage_id", Kind::Int32));
        assert(expected_columns()[2] == table::required(
            "equivalent_productivity_mw_per_m3s",
            Kind::Float64,
        ));
        assert(expected_columns()[3] == table::required("reference_volume_hm3", Kind::Float64));
        assert(expected_columns()[4] == table::required("reference_outflow_m3s", Kind::Float64));
        assert(expected_columns()[5] == table::required(
            "specific_productivity_mw_per_m3s_per_m",
            Kind::Float64,
        ));
    }
    let hydro_id: &Vec<Cell<i32>> = table::ints(batch, "hydro_id");
    let stage_id: &Vec<Cell<i32>> = table::ints(batch, "stage_id");
    let rho_eq: &Vec<Cell<Float64>> = table::floats(batch, "equivalent_productivity_mw_per_m3s");
    let v_ref: &Vec<Cell<Float64>> = table::floats(batch, "reference_volume_hm3");
    let q_ref: &Vec<Cell<Float64>> = table::floats(batch, "reference_outflow_m3s");
    let rho_esp: &Vec<Cell<Float64>> = table::floats(
        batch,
        "specific_productivity_mw_per_m3s_per_m",
    );
    let ghost check = row_check(view, base as int);
    let mut rows: Vec<HydroEnergyProductivityRow> = Vec::new();
    for i in 0..batch.rows
        invariant
            view == batch@,
            base + view.rows <= usize::MAX,
            check == row_check(view, base as int),
            hydro_id@ == view.named("hydro_id"@)->0->Int32_0,
            stage_id@ == view.named("stage_id"@)->0->Int32_0,
            rho_eq@ == view.named("equivalent_productivity_mw_per_m3s"@)->0->Float64_0,
            v_ref@ == view.named("reference_volume_hm3"@)->0->Float64_0,
            q_ref@ == view.named("reference_outflow_m3s"@)->0->Float64_0,
            rho_esp@ == view.named("specific_productivity_mw_per_m3s_per_m"@)->0->Float64_0,
            hydro_id@.len() == view.rows,
            stage_id@.len() == view.rows,
            rho_eq@.len() == view.rows,
            v_ref@.len() == view.rows,
            q_ref@.len() == view.rows,
            rho_esp@.len() == view.rows,
            columns_finding(view) is None,
            forall|j: int| 0 <= j < i ==> (#[trigger] check(j)) is None,
            rows@ == rows_of()(view).take(i as int),
    {
        match validate_plant(hydro_id[i].null, base + i, path) {
            Ok(_) => {},
            Err(e) => {
                proof {
                    assert(check(i as int) is Some);
                    validation::first_is_at(view.rows as int, check, i as int);
                }
                return Err(e);
            },
        }
        let row = HydroEnergyProductivityRow {
            hydro_id: EntityId(hydro_id[i].value),
            stage_id: table::take(&stage_id[i]),
            equivalent_productivity_mw_per_m3s: table::take(&rho_eq[i]),
            reference_volume_hm3: table::take(&v_ref[i]),
            reference_outflow_m3s: table::take(&q_ref[i]),
            specific_productivity_mw_per_m3s_per_m: table::take(&rho_esp[i]),
        };
        assert(row == row_of(view, i as int));
        let outcome = validate_overrides(&row, base + i, path);
        assert(error::reports(outcome, path@, check(i as int)));
        match outcome {
            Ok(_) => {},
            Err(e) => {
                proof {
                    validation::first_is_at(view.rows as int, check, i as int);
                }
                return Err(e);
            },
        }
        rows.push(row);
        proof {
            assert(rows@ =~= rows_of()(view).take(i + 1));
        }
    }
    proof {
        validation::first_is_none(view.rows as int, check);
        assert(rows@ =~= rows_of()(view));
    }
    Ok(rows)
}

/// Checks the tables of a file and gives its overrides, sorted by plant and stage.
pub fn parse_hydro_energy_productivity(batches: &Vec<Table>, path: &str) -> (r: Result<
    Vec<HydroEnergyProductivityRow>,
    LoadError,
>)
    requires
        table::readable(table::table_views(batches@)),
    ensures
        error::reports(r, path@, file_finding(table::table_views(batches@))),
        r matches Ok(rows) ==> rows@ == sorting::sorted(
            table::rows_of_all(
                table::table_views(batches@),
                rows_of(),
                batches@.len() as int,
            ),
        ),
{
    let ghost views = table::table_views(batches@);
    let ghost check = tables_check(views);
    let mut rows: Vec<HydroEnergyProductivityRow> = Vec::new();
    for k in 0..batches.len()
        invariant
            views == table::table_views(batches@),
            check == tables_check(views),
            table::readable(views),
            forall|j: int| 0 <= j < k ==> (#[trigger] check(j)) is None,
            rows@.len() == table::rows_before(views, k as int),
            rows@ == table::rows_of_all(views, rows_of(), k as int),
    {
        proof {
            assert(views[k as int] == batches@[k as int]@);
            assert(views[k as int].well_formed());
            table::rows_before_grows(views, k + 1, views.len() as int);
        }
        let outcome = read_table(&batches[k], rows.len(), path);
        assert(error::reports(outcome, path@, check(k as int)));
        match outcome {
            Ok(more) => {
                let mut next: Vec<HydroEnergyProductivityRow> = more;
                rows.append(&mut next);
            },
            Err(e) => {
                proof {
                    validation::first_is_at(views.len() as int, check, k as int);
                }
                return Err(e);
            },
        }
    }
    proof {
        validation::first_is_none(views.len() as int, check);
    }
    Ok(sorting::sort_by_key(rows))
}

// ── What is accepted ─────────────────────────────────────────────────────────

/// A row keeps all rules.
pub open spec fn good_row(row: HydroEnergyProductivityRow) -> bool {
    &&& row.equivalent_productivity_mw_per_m3s matches Some(x) ==> validation::non_negative(x)
    &&& row.reference_volume_hm3 matches Some(x) ==> validation::positive(x)
    &&& row.reference_outflow_m3s matches Some(x) ==> validation::non_negative(x)
    &&& row.specific_productivity_mw_per_m3s_per_m matches Some(x) ==> validation::non_negative(x)
}

/// The overrides of a row are accepted exactly where those that are set are finite
/// and not negative, and the reference volume is positive. A row that sets none is
/// accepted.
pub proof fn accepted_rows(index: int, row: HydroEnergyProductivityRow)
    ensures
        overrides_finding(index, row) is None <==> good_row(row),
{
}

/// The overrides come back as a permutation of the file's: by ascending plant, within a
/// plant those for all stages before those for one, and these by ascending stage,
/// negative stages included.
pub proof fn rows_for_all_stages_come_first(rows: Seq<HydroEnergyProductivityRow>)
    ensures
        sorting::sorted(rows).to_multiset() == rows.to_multiset(),
        forall|i: int, j: int|
            0 <= i < j < rows.len() ==> {
                let a = #[trigger] sorting::sorted(rows)[i];
                let b = #[trigger] sorting::sorted(rows)[j];
                &&& a.hydro_id.0 <= b.hydro_id.0
                &&& a.hydro_id == b.hydro_id && b.stage_id is None ==> a.stage_id is None
                &&& a.hydro_id == b.hydro_id && a.stage_id is Some && b.stage_id is Some
                    ==> a.stage_id->0 <= b.stage_id->0
            },
{
    let sorted = sorting::sorted(rows);
    sorting::sorted_is(rows);
    sorting::sorting_keeps_records(rows, sorted);
    assert forall|i: int, j: int| 0 <= i < j < rows.len() implies {
        let a = #[trigger] sorted[i];
        let b = #[trigger] sorted[j];
        &&& a.hydro_id.0 <= b.hydro_id.0
        &&& a.hydro_id == b.hydro_id && b.stage_id is None ==> a.stage_id is None
        &&& a.hydro_id == b.hydro_id && a.stage_id is Some && b.stage_id is Some
            ==> a.stage_id->0 <= b.stage_id->0
    } by {
        assert(sorting::at_most(sorted[i].key(), sorted[j].key()));
    }
}

// ── What is read ─────────────────────────────────────────────────────────────

/// Each override that is read is a row of a table, given back: with the values of that row
/// in the columns of their names. They come in the order of their keys.
pub proof fn overrides_are_rows(batches: Seq<Table>, rows: Seq<HydroEnergyProductivityRow>, j: int) -> (at: (int, int))
    requires
        0 <= j < rows.len(),
        rows == sorting::sorted(
            table::rows_of_all(
                table::table_views(batches),
                rows_of(),
                batches.len() as int,
            ),
        ),
    ensures
        0 <= at.0 < batches.len(),
        0 <= at.1 < batches[at.0].rows,
        rows[j].hydro_id.0 == batches[at.0]@.int_at("hydro_id"@, at.1).value,
        rows[j].stage_id == (if batches[at.0]@.int_at("stage_id"@, at.1).null {
            None
        } else {
            Some(batches[at.0]@.int_at("stage_id"@, at.1).value)
        }),
        rows[j].equivalent_productivity_mw_per_m3s == (if batches[at.0]@.float_at("equivalent_productivity_mw_per_m3s"@, at.1).null {
            None
        } else {
            Some(batches[at.0]@.float_at("equivalent_productivity_mw_per_m3s"@, at.1).value)
        }),
        rows[j].reference_volume_hm3 == (if batches[at.0]@.float_at("reference_volume_hm3"@, at.1).null {
            None
        } else {
            Some(batches[at.0]@.float_at("reference_volume_hm3"@, at.1).value)
        }),
        rows[j].reference_outflow_m3s == (if batches[at.0]@.float_at("reference_outflow_m3s"@, at.1).null {
            None
        } else {
            Some(batches[at.0]@.float_at("reference_outflow_m3s"@, at.1).value)
        }),
        rows[j].specific_productivity_mw_per_m3s_per_m == (if batches[at.0]@.float_at("specific_productivity_mw_per_m3s_per_m"@, at.1).null {
            None
        } else {
            Some(batches[at.0]@.float_at("specific_productivity_mw_per_m3s_per_m"@, at.1).value)
        }),
        j > 0 ==> {
            let a = rows[j - 1];
            let b = rows[j];
            ||| a.hydro_id.0 < b.hydro_id.0
            ||| a.hydro_id == b.hydro_id && a.stage_id is None
            ||| a.hydro_id == b.hydro_id && a.stage_id is Some && b.stage_id is Some
                && a.stage_id->0 <= b.stage_id->0
        },
{
    let tables = table::table_views(batches);
    let all = table::rows_of_all(tables, rows_of(), tables.len() as int);
    sorting::sorted_is(all);
    if j > 0 {
        assert(sorting::at_most(sorting::sorted(all)[j - 1].key(), sorting::sorted(all)[j].key()));
    }
    let e = sorting::sorted_comes_from(all, j);
    let at = table::row_comes_from(tables, rows_of(), tables.len() as int, e);
    assert(tables[at.0] == batches[at.0]@);
    assert(rows_of()(tables[at.0])[at.1] == row_of(tables[at.0], at.1));
    at
}

/// Each row of each table is read, and is at the place that is given back.
pub proof fn overrides_are_all_read(batches: Seq<Table>, rows: Seq<HydroEnergyProductivityRow>, k: int, i: int) -> (j:
    int)
    requires
        0 <= k < batches.len(),
        0 <= i < batches[k].rows,
        rows == sorting::sorted(
            table::rows_of_all(
                table::table_views(batches),
                rows_of(),
                batches.len() as int,
            ),
        ),
    ensures
        rows.len() == table::rows_before(table::table_views(batches), batches.len() as int),
        0 <= j < rows.len(),
        rows[j].hydro_id.0 == batches[k]@.int_at("hydro_id"@, i).value,
        rows[j].stage_id == (if batches[k]@.int_at("stage_id"@, i).null {
            None
        } else {
            Some(batches[k]@.int_at("stage_id"@, i).value)
        }),
        rows[j].equivalent_productivity_mw_per_m3s == (if batches[k]@.float_at("equivalent_productivity_mw_per_m3s"@, i).null {
            None
        } else {
            Some(batches[k]@.float_at("equivalent_productivity_mw_per_m3s"@, i).value)
        }),
        rows[j].reference_volume_hm3 == (if batches[k]@.float_at("reference_volume_hm3"@, i).null {
            None
        } else {
            Some(batches[k]@.float_at("reference_volume_hm3"@, i).value)
        }),
        rows[j].reference_outflow_m3s == (if batches[k]@.float_at("reference_outflow_m3s"@, i).null {
            None
        } else {
            Some(batches[k]@.float_at("reference_outflow_m3s"@, i).value)
        }),
        rows[j].specific_productivity_mw_per_m3s_per_m == (if batches[k]@.float_at("specific_productivity_mw_per_m3s_per_m"@, i).null {
            None
        } else {
            Some(batches[k]@.float_at("specific_productivity_mw_per_m3s_per_m"@, i).value)
        }),
{
    let tables = table::table_views(batches);
    let all = table::rows_of_all(tables, rows_of(), tables.len() as int);
    assert(tables[k] == batches[k]@);
    rows_are_counted(tables, tables.len() as int);
    let e = table::row_is_listed(tables, rows_of(), tables.len() as int, k, i);
    let j = sorting::sorted_has(all, e);
    assert(rows_of()(tables[k])[i] == row_of(tables[k], i));
    j
}

proof fn rows_are_counted(tables: Seq<TableView>, n: int)
    requires
        0 <= n <= tables.len(),
    ensures
        table::rows_of_all(tables, rows_of(), n).len() == table::rows_before(tables, n),
    decreases n,
{
    if n > 0 {
        rows_are_counted(tables, n - 1);
    }
}

/// The first bad row of a file is reported, and by its number among all rows of the
/// file.
pub proof fn bad_rows_are_reported(tables: Seq<TableView>, k: int, i: int)
    requires
        0 <= k < tables.len(),
        0 <= i < tables[k].rows,
        forall|j: int|
            0 <= j < k ==> table_finding(
                #[trigger] tables[j],
                table::rows_before(tables, j) as int,
            ) is None,
        columns_finding(tables[k]) is None,
        forall|j: int|
            0 <= j < i ==> (#[trigger] row_check(
                tables[k],
                table::rows_before(tables, k) as int,
            )(j)) is None,
        !(!tables[k].int_at("hydro_id"@, i).null && good_row(row_of(tables[k], i))),
    ensures
        file_finding(tables) matches Some(finding) && exists|column: Seq<char>|
            finding.field == #[trigger] text::element_path(
                "hydro_energy_productivity"@,
                table::rows_before(tables, k) + i,
                column,
            ),
{
    let base = table::rows_before(tables, k) as int;
    let rows = row_check(tables[k], base);
    accepted_rows(table::rows_before(tables, k) + i, row_of(tables[k], i));
    assert(rows(i) is Some);
    validation::first_is_at(tables[k].rows as int, rows, i);
    let check = tables_check(tables);
    assert forall|j: int| 0 <= j < k implies (#[trigger] check(j)) is None by {
        assert(table_finding(tables[j], table::rows_before(tables, j) as int) is None);
    }
    assert(check(k) == rows(i));
    validation::first_is_at(tables.len() as int, check, k);
}

/// The columns of a table are accepted exactly where every column is there with values of its type.
pub proof fn accepted_columns(table: TableView)
    ensures
        columns_finding(table) is None <==> {
            &&& table.named("hydro_id"@) is Some && table.named("hydro_id"@)->0 is Int32
            &&& table.named("stage_id"@) is Some && table.named("stage_id"@)->0 is Int32
            &&& table.named("equivalent_productivity_mw_per_m3s"@) is Some && table.named("equivalent_productivity_mw_per_m3s"@)->0 is Float64
            &&& table.named("reference_volume_hm3"@) is Some && table.named("reference_volume_hm3"@)->0 is Float64
            &&& table.named("reference_outflow_m3s"@) is Some && table.named("reference_outflow_m3s"@)->0 is Float64
            &&& table.named("specific_productivity_mw_per_m3s_per_m"@) is Some && table.named("specific_productivity_mw_per_m3s_per_m"@)->0 is Float64
        },
{
    let missing = "missing column \""@;
    let check = table::columns_check(table, expected_columns(), missing);
    validation::first_is_none(expected_columns().len() as int, check);
    assert(expected_columns()[0] == table::required("hydro_id", Kind::Int32));
    assert(check(0) is None <==> table::column_finding(table, expected_columns()[0], missing) is None);
    assert(expected_columns()[1] == table::required("stage_id", Kind::Int32));
    assert(check(1) is None <==> table::column_finding(table, expected_columns()[1], missing) is None);
    assert(expected_columns()[2] == table::required("equivalent_productivity_mw_per_m3s", Kind::Float64));
    assert(check(2) is None <==> table::column_finding(table, expected_columns()[2], missing) is None);
    assert(expected_columns()[3] == table::required("reference_volume_hm3", Kind::Float64));
    assert(check(3) is None <==> table::column_finding(table, expected_columns()[3], missing) is None);
    assert(expected_columns()[4] == table::required("reference_outflow_m3s", Kind::Float64));
    assert(check(4) is None <==> table::column_finding(table, expected_columns()[4], missing) is None);
    assert(expected_columns()[5] == table::required("specific_productivity_mw_per_m3s_per_m", Kind::Float64));
    assert(check(5) is None <==> table::column_finding(table, expected_columns()[5], missing) is None);
}

/// A file is accepted exactly where the columns of every table are, and in every row
/// the plant is there, and each override is null or finite and not negative; the
/// reference volume is not zero either.
pub proof fn accepted_files(tables: Seq<TableView>)
    ensures
        file_finding(tables) is None <==> forall|k: int|
            0 <= k < tables.len() ==> columns_finding(#[trigger] tables[k]) is None && forall|
                i: int,
            |
                0 <= i < tables[k].rows ==> {
                    let plant = #[trigger] tables[k].int_at("hydro_id"@, i);
                    let eq = tables[k].float_at("equivalent_productivity_mw_per_m3s"@, i);
                    let volume = tables[k].float_at("reference_volume_hm3"@, i);
                    let outflow = tables[k].float_at("reference_outflow_m3s"@, i);
                    let specific = tables[k].float_at(
                        "specific_productivity_mw_per_m3s_per_m"@,
                        i,
                    );
                    &&& !plant.null
                    &&& eq.null || validation::non_negative(eq.value)
                    &&& volume.null || validation::positive(volume.value)
                    &&& outflow.null || validation::non_negative(outflow.value)
                    &&& specific.null || validation::non_negative(specific.value)
                },
{
    let check = tables_check(tables);
    validation::first_is_none(tables.len() as int, check);
    let good = |k: int, i: int|
        !tables[k].int_at("hydro_id"@, i).null && good_row(row_of(tables[k], i));
    assert forall|k: int| 0 <= k < tables.len() implies ((#[trigger] check(k)) is None <==>
        columns_finding(tables[k]) is None && forall|i: int|
        0 <= i < tables[k].rows ==> #[trigger] good(k, i)) by {
        let base = table::rows_before(tables, k) as int;
        let rows = row_check(tables[k], base);
        validation::first_is_none(tables[k].rows as int, rows);
        assert forall|i: int| 0 <= i < tables[k].rows implies ((#[trigger] rows(i)) is None
            <==> good(k, i)) by {
            accepted_rows(base + i, row_of(tables[k], i));
        }
        if validation::first(tables[k].rows as int, rows) is None {
            assert forall|i: int| 0 <= i < tables[k].rows implies #[trigger] good(k, i) by {
                assert(rows(i) is None);
            }
        }
    }
    if file_finding(tables) is None {
        assert forall|k: int, i: int|
            0 <= k < tables.len() && 0 <= i < tables[k].rows implies #[trigger] good(k, i) by {
            assert(check(k) is None);
        }
        assert forall|k: int| 0 <= k < tables.len() implies columns_finding(
            #[trigger] tables[k],
        ) is None by {
            assert(check(k) is None);
        }
        assert forall|k: int, i: int|
            0 <= k < tables.len() && 0 <= i < tables[k].rows implies !(
        #[trigger] tables[k].int_at("hydro_id"@, i)).null && good_row(row_of(tables[k], i)) by {
            assert(good(k, i));
        }
    } else {
        let k = choose|k: int| 0 <= k < tables.len() && (#[trigger] check(k)) is Some;
        if columns_finding(tables[k]) is None {
            let i = choose|i: int| 0 <= i < tables[k].rows && !#[trigger] good(k, i);
            let plant = tables[k].int_at("hydro_id"@, i);
            assert(!(!plant.null && good_row(row_of(tables[k], i))));
        }
    }
}

/// What is reported of a file is a column that is wrong, in the table that is given back, or
/// the path of a cell that is, in the row that is given back: the
/// plant is null, or an override is negative or not finite, or is a volume of zero.
pub proof fn the_wrong_cell_is_reported(tables: Seq<TableView>) -> (at: (int, int))
    requires
        file_finding(tables) is Some,
    ensures
        0 <= at.0 < tables.len(),
        ({
            let f = file_finding(tables)->0;
            ||| columns_finding(tables[at.0]) == Some(f)
            ||| 0 <= at.1 < tables[at.0].rows && f.field == text::element_path(
                "hydro_energy_productivity"@,
                table::rows_before(tables, at.0) + at.1,
                "hydro_id"@,
            ) && tables[at.0].int_at("hydro_id"@, at.1).null
            ||| 0 <= at.1 < tables[at.0].rows && f.field == text::element_path(
                "hydro_energy_productivity"@,
                table::rows_before(tables, at.0) + at.1,
                "equivalent_productivity_mw_per_m3s"@,
            ) && !tables[at.0].float_at("equivalent_productivity_mw_per_m3s"@, at.1).null && !validation::non_negative(tables[at.0].float_at("equivalent_productivity_mw_per_m3s"@, at.1).value)
            ||| 0 <= at.1 < tables[at.0].rows && f.field == text::element_path(
                "hydro_energy_productivity"@,
                table::rows_before(tables, at.0) + at.1,
                "reference_volume_hm3"@,
            ) && !tables[at.0].float_at("reference_volume_hm3"@, at.1).null && !validation::positive(tables[at.0].float_at("reference_volume_hm3"@, at.1).value)
            ||| 0 <= at.1 < tables[at.0].rows && f.field == text::element_path(
                "hydro_energy_productivity"@,
                table::rows_before(tables, at.0) + at.1,
                "reference_outflow_m3s"@,
            ) && !tables[at.0].float_at("reference_outflow_m3s"@, at.1).null && !validation::non_negative(tables[at.0].float_at("reference_outflow_m3s"@, at.1).value)
            ||| 0 <= at.1 < tables[at.0].rows && f.field == text::element_path(
                "hydro_energy_productivity"@,
                table::rows_before(tables, at.0) + at.1,
                "specific_productivity_mw_per_m3s_per_m"@,
            ) && !tables[at.0].float_at("specific_productivity_mw_per_m3s_per_m"@, at.1).null && !validation::non_negative(tables[at.0].float_at("specific_productivity_mw_per_m3s_per_m"@, at.1).value)
        }),
{
    let k = validation::the_first_bad_entry_is_reported(tables.len() as int, tables_check(tables));
    if columns_finding(tables[k]) is Some {
        (k, 0)
    } else {
        let i = validation::the_first_bad_entry_is_reported(
            tables[k].rows as int,
            row_check(tables[k], table::rows_before(tables, k) as int),
        );
        (k, i)
    }
}

} // verus!
