//! Piecewise-quartic tailrace-level curves.
//!
//! Each row is one segment of a curve: a window of flows and the coefficients of a
//! polynomial of degree four. [`parse_tailrace_curves`] checks the rows and sorts
//! them by plant, family and segment; no floating-point column takes part in the
//! order. Only the downstream level may be null.

use vstd::prelude::*;

use crate::entities::EntityId;
use crate::error;
use crate::error::{Finding, LoadError};
use crate::float::Float64;
use crate::sorting;
use crate::sorting::{HasKey, Key, Keyed};
use crate::table;
use crate::table::{Cell, Expected, ExpectedView, Kind, Table, TableView};
use crate::text;
use crate::text::{Piece, PieceView};
use crate::validation;

verus! {

/// One segment of a tailrace curve.
#[derive(Clone, Copy, Debug, PartialEq, Eq)]
pub struct TailraceCurveRow {
    /// The plant.
    pub hydro_id: EntityId,
    /// The family within the plant.
    pub family_id: i32,
    /// The downstream level of the family, in m, if it has one.
    pub href_jus_m: Option<Float64>,
    /// The segment within the family.
    pub segment_id: i32,
    /// The least flow, in m³/s.
    pub q_jus_inf_m3s: Float64,
    /// The greatest flow, in m³/s.
    pub q_jus_sup_m3s: Float64,
    /// The coefficient of degree 0.
    pub a_cf0: Float64,
    /// The coefficient of degree 1.
    pub a_cf1: Float64,
    /// The coefficient of degree 2.
    pub a_cf2: Float64,
    /// The coefficient of degree 3.
    pub a_cf3: Float64,
    /// The coefficient of degree 4.
    pub a_cf4: Float64,
}

impl HasKey for TailraceCurveRow {
    open spec fn key(&self) -> Key {
        (self.hydro_id.0 as int, self.family_id as int, self.segment_id as int)
    }
}

impl Keyed for TailraceCurveRow {
    fn sort_key(&self) -> (r: (i64, i64, i64)) {
        (self.hydro_id.0 as i64, self.family_id as i64, self.segment_id as i64)
    }
}

// ── Columns ──────────────────────────────────────────────────────────────────

/// The columns of the file.
pub open spec fn expected_columns() -> Seq<ExpectedView> {
    seq![
        table::required("hydro_id", Kind::Int32),
        table::required("family_id", Kind::Int32),
        table::required("segment_id", Kind::Int32),
        table::required("href_jus_m", Kind::Float64),
        table::required("q_jus_inf_m3s", Kind::Float64),
        table::required("q_jus_sup_m3s", Kind::Float64),
        table::required("a_cf0", Kind::Float64),
        table::required("a_cf1", Kind::Float64),
        table::required("a_cf2", Kind::Float64),
        table::required("a_cf3", Kind::Float64),
        table::required("a_cf4", Kind::Float64),
    ]
}

fn expected() -> (r: Vec<Expected>)
    ensures
        table::expected_views(r@) == expected_columns(),
{
    let r: Vec<Expected> = vec![
        Expected { name: "hydro_id", kind: Kind::Int32, required: true },
        Expected { name: "family_id", kind: Kind::Int32, required: true },
        Expected { name: "segment_id", kind: Kind::Int32, required: true },
        Expected { name: "href_jus_m", kind: Kind::Float64, required: true },
        Expected { name: "q_jus_inf_m3s", kind: Kind::Float64, required: true },
        Expected { name: "q_jus_sup_m3s", kind: Kind::Float64, required: true },
        Expected { name: "a_cf0", kind: Kind::Float64, required: true },
        Expected { name: "a_cf1", kind: Kind::Float64, required: true },
        Expected { name: "a_cf2", kind: Kind::Float64, required: true },
        Expected { name: "a_cf3", kind: Kind::Float64, required: true },
        Expected { name: "a_cf4", kind: Kind::Float64, required: true },
    ];
    proof {
        assert(table::expected_views(r@) =~= expected_columns());
    }
    r
}

/// What is wrong with the columns of a table.
pub open spec fn columns_finding(table: TableView) -> Option<Finding> {
    table::columns_finding(table, expected_columns(), "missing column \""@)
}

// ── Rows ─────────────────────────────────────────────────────────────────────

/// The segment in row `i`.
pub open spec fn row_of(table: TableView, i: int) -> TailraceCurveRow {
    TailraceCurveRow {
        hydro_id: EntityId(table.int_at("hydro_id"@, i).value),
        family_id: table.int_at("family_id"@, i).value,
        href_jus_m: if table.float_at("href_jus_m"@, i).null {
            None
        } else {
            Some(table.float_at("href_jus_m"@, i).value)
        },
        segment_id: table.int_at("segment_id"@, i).value,
        q_jus_inf_m3s: table.float_at("q_jus_inf_m3s"@, i).value,
        q_jus_sup_m3s: table.float_at("q_jus_sup_m3s"@, i).value,
        a_cf0: table.float_at("a_cf0"@, i).value,
        a_cf1: table.float_at("a_cf1"@, i).value,
        a_cf2: table.float_at("a_cf2"@, i).value,
        a_cf3: table.float_at("a_cf3"@, i).value,
        a_cf4: table.float_at("a_cf4"@, i).value,
    }
}

/// The segments of a table.
pub open spec fn rows_of() -> spec_fn(TableView) -> Seq<TailraceCurveRow> {
    |table: TableView| Seq::new(table.rows, |i: int| row_of(table, i))
}

/// What is wrong with a flow or a level.
pub open spec fn level_finding(index: int, column: &str, value: Float64) -> Option<Finding> {
    validation::number_finding(
        validation::non_negative(value),
        "tailrace_curves"@,
        index,
        column@,
        "value must be non-negative and finite, got "@,
        value,
    )
}

/// What is wrong with a coefficient.
pub open spec fn coefficient_finding(index: int, column: &str, value: Float64) -> Option<Finding> {
    validation::number_finding(
        value.finite(),
        "tailrace_curves"@,
        index,
        column@,
        "coefficient must be finite, got "@,
        value,
    )
}

/// What is wrong with a window of flows.
pub open spec fn window_finding(index: int, row: TailraceCurveRow) -> Option<Finding> {
    if row.q_jus_sup_m3s.below(row.q_jus_inf_m3s) {
        Some(
            Finding {
                field: text::element_path("tailrace_curves"@, index, "q_jus_sup_m3s"@),
                message: seq![
                    text::text("upper bound must be >= lower bound, got q_jus_sup_m3s="),
                    PieceView::Float(row.q_jus_sup_m3s),
                    text::text(" < q_jus_inf_m3s="),
                    PieceView::Float(row.q_jus_inf_m3s),
                ],
            },
        )
    } else {
        None
    }
}

/// What is wrong with a segment's level and window.
pub open spec fn levels_finding(index: int, row: TailraceCurveRow) -> Option<Finding> {
    validation::either(
        match row.href_jus_m {
            Some(value) => level_finding(index, "href_jus_m", value),
            None => None,
        },
        validation::either(
            level_finding(index, "q_jus_inf_m3s", row.q_jus_inf_m3s),
            validation::either(
                level_finding(index, "q_jus_sup_m3s", row.q_jus_sup_m3s),
                window_finding(index, row),
            ),
        ),
    )
}

/// What is wrong with a segment's coefficients.
pub open spec fn coefficients_finding(index: int, row: TailraceCurveRow) -> Option<Finding> {
    validation::either(
        coefficient_finding(index, "a_cf0", row.a_cf0),
        validation::either(
            coefficient_finding(index, "a_cf1", row.a_cf1),
            validation::either(
                coefficient_finding(index, "a_cf2", row.a_cf2),
                validation::either(
                    coefficient_finding(index, "a_cf3", row.a_cf3),
                    coefficient_finding(index, "a_cf4", row.a_cf4),
                ),
            ),
        ),
    )
}

/// What is wrong with a segment. `index` counts the rows of the file.
pub open spec fn row_finding(index: int, row: TailraceCurveRow) -> Option<Finding> {
    validation::either(levels_finding(index, row), coefficients_finding(index, row))
}

/// What is wrong with a null in a column that takes none.
pub open spec fn null_finding(index: int, column: &str, null: bool) -> Option<Finding> {
    validation::null_finding(null, "tailrace_curves"@, index, column@)
}

/// What is wrong with nulls in the place of a segment.
pub open spec fn place_nulls_finding(index: int, table: TableView, i: int) -> Option<Finding> {
    validation::either(
        null_finding(index, "hydro_id", table.int_at("hydro_id"@, i).null),
        validation::either(
            null_finding(index, "family_id", table.int_at("family_id"@, i).null),
            null_finding(index, "segment_id", table.int_at("segment_id"@, i).null),
        ),
    )
}

/// What is wrong with nulls in the window of a segment.
pub open spec fn window_nulls_finding(index: int, table: TableView, i: int) -> Option<Finding> {
    validation::either(
        null_finding(index, "q_jus_inf_m3s", table.float_at("q_jus_inf_m3s"@, i).null),
        null_finding(index, "q_jus_sup_m3s", table.float_at("q_jus_sup_m3s"@, i).null),
    )
}

/// What is wrong with nulls in the coefficients of a segment.
pub open spec fn coefficient_nulls_finding(index: int, table: TableView, i: int) -> Option<
    Finding,
> {
    validation::either(
        null_finding(index, "a_cf0", table.float_at("a_cf0"@, i).null),
        validation::either(
            null_finding(index, "a_cf1", table.float_at("a_cf1"@, i).null),
            validation::either(
                null_finding(index, "a_cf2", table.float_at("a_cf2"@, i).null),
                validation::either(
                    null_finding(index, "a_cf3", table.float_at("a_cf3"@, i).null),
                    null_finding(index, "a_cf4", table.float_at("a_cf4"@, i).null),
                ),
            ),
        ),
    )
}

/// What is wrong with the nulls of row `i`: the downstream level alone may be null.
pub open spec fn nulls_finding(index: int, table: TableView, i: int) -> Option<Finding> {
    validation::either(
        place_nulls_finding(index, table, i),
        validation::either(
            window_nulls_finding(index, table, i),
            coefficient_nulls_finding(index, table, i),
        ),
    )
}

/// What is wrong with each row of a table whose first row has number `base`.
pub open spec fn row_check(table: TableView, base: int) -> spec_fn(int) -> Option<Finding> {
    |i: int|
        validation::either(
            nulls_finding(base + i, table, i),
            row_finding(base + i, row_of(table, i)),
        )
}

/// What is wrong with a table.
pub open spec fn table_finding(table: TableView, base: int) -> Option<Finding> {
    validation::either(
        columns_finding(table),
        validation::first(table.rows as int, row_check(table, base)),
    )
}

/// What is wrong with each table of a file.
pub open spec fn tables_check(tables: Seq<TableView>) -> spec_fn(int) -> Option<Finding> {
    |k: int| table_finding(tables[k], table::rows_before(tables, k) as int)
}

/// What is wrong with a file.
pub open spec fn file_finding(tables: Seq<TableView>) -> Option<Finding> {
    validation::first(tables.len() as int, tables_check(tables))
}

// ── Reading ──────────────────────────────────────────────────────────────────

fn validate_non_negative(value: Float64, row_idx: usize, column: &'static str, path: &str) -> (r:
    Result<(), LoadError>)
    ensures
        error::reports(r, path@, level_finding(row_idx as int, column, value)),
{
    validation::check_number(
        validation::is_non_negative(value),
        "tailrace_curves",
        row_idx,
        column,
        "value must be non-negative and finite, got ",
        value,
        path,
    )
}

fn validate_finite(value: Float64, row_idx: usize, column: &'static str, path: &str) -> (r: Result<
    (),
    LoadError,
>)
    ensures
        error::reports(r, path@, coefficient_finding(row_idx as int, column, value)),
{
    validation::check_number(
        value.is_finite(),
        "tailrace_curves",
        row_idx,
        column,
        "coefficient must be finite, got ",
        value,
        path,
    )
}

fn validate_levels(row: &TailraceCurveRow, row_idx: usize, path: &str) -> (r: Result<
    (),
    LoadError,
>)
    ensures
        error::reports(r, path@, levels_finding(row_idx as int, *row)),
{
    match row.href_jus_m {
        Some(value) => {
            match validate_non_negative(value, row_idx, "href_jus_m", path) {
                Ok(_) => {},
                Err(e) => return Err(e),
            }
        },
        None => {},
    }
    match validate_non_negative(row.q_jus_inf_m3s, row_idx, "q_jus_inf_m3s", path) {
        Ok(_) => {},
        Err(e) => return Err(e),
    }
    match validate_non_negative(row.q_jus_sup_m3s, row_idx, "q_jus_sup_m3s", path) {
        Ok(_) => {},
        Err(e) => return Err(e),
    }
    if row.q_jus_sup_m3s.less_than(row.q_jus_inf_m3s) {
        let message: Vec<Piece> = vec![
            Piece::Text("upper bound must be >= lower bound, got q_jus_sup_m3s="),
            Piece::Float(row.q_jus_sup_m3s),
            Piece::Text(" < q_jus_inf_m3s="),
            Piece::Float(row.q_jus_inf_m3s),
        ];
        proof {
            assert(text::pieces(message@) =~= window_finding(row_idx as int, *row)->0.message);
        }
        return Err(
            LoadError::schema(
                path,
                text::element_path_text("tailrace_curves", row_idx, "q_jus_sup_m3s"),
                message,
            ),
        );
    }
    Ok(())
}

fn validate_row(row: &TailraceCurveRow, row_idx: usize, path: &str) -> (r: Result<(), LoadError>)
    ensures
        error::reports(r, path@, row_finding(row_idx as int, *row)),
{
    match validate_levels(row, row_idx, path) {
        Ok(_) => {},
        Err(e) => return Err(e),
    }
    match validate_finite(row.a_cf0, row_idx, "a_cf0", path) {
        Ok(_) => {},
        Err(e) => return Err(e),
    }
    match validate_finite(row.a_cf1, row_idx, "a_cf1", path) {
        Ok(_) => {},
        Err(e) => return Err(e),
    }
    match validate_finite(row.a_cf2, row_idx, "a_cf2", path) {
        Ok(_) => {},
        Err(e) => return Err(e),
    }
    match validate_finite(row.a_cf3, row_idx, "a_cf3", path) {
        Ok(_) => {},
        Err(e) => return Err(e),
    }
    validate_finite(row.a_cf4, row_idx, "a_cf4", path)
}

/// Which cells of a row are null, the downstream level left out.
struct Nulls {
    hydro_id: bool,
    family_id: bool,
    segment_id: bool,
    q_jus_inf_m3s: bool,
    q_jus_sup_m3s: bool,
    a_cf0: bool,
    a_cf1: bool,
    a_cf2: bool,
    a_cf3: bool,
    a_cf4: bool,
}

impl Nulls {
    spec fn are_of(self, table: TableView, i: int) -> bool {
        &&& self.hydro_id == table.int_at("hydro_id"@, i).null
        &&& self.family_id == table.int_at("family_id"@, i).null
        &&& self.segment_id == table.int_at("segment_id"@, i).null
        &&& self.q_jus_inf_m3s == table.float_at("q_jus_inf_m3s"@, i).null
        &&& self.q_jus_sup_m3s == table.float_at("q_jus_sup_m3s"@, i).null
        &&& self.a_cf0 == table.float_at("a_cf0"@, i).null
        &&& self.a_cf1 == table.float_at("a_cf1"@, i).null
        &&& self.a_cf2 == table.float_at("a_cf2"@, i).null
        &&& self.a_cf3 == table.float_at("a_cf3"@, i).null
        &&& self.a_cf4 == table.float_at("a_cf4"@, i).null
    }
}

fn validate_not_null(null: bool, row_idx: usize, column: &'static str, path: &str) -> (r: Result<
    (),
    LoadError,
>)
    ensures
        error::reports(r, path@, null_finding(row_idx as int, column, null)),
{
    validation::check_not_null(null, "tailrace_curves", row_idx, column, path)
}

fn validate_nulls(
    nulls: &Nulls,
    row_idx: usize,
    path: &str,
    Ghost(table): Ghost<TableView>,
    Ghost(i): Ghost<int>,
) -> (r: Result<(), LoadError>)
    requires
        nulls.are_of(table, i),
    ensures
        error::reports(r, path@, nulls_finding(row_idx as int, table, i)),
{
    match validate_not_null(nulls.hydro_id, row_idx, "hydro_id", path) {
        Ok(_) => {},
        Err(e) => return Err(e),
    }
    match validate_not_null(nulls.family_id, row_idx, "family_id", path) {
        Ok(_) => {},
        Err(e) => return Err(e),
    }
    match validate_not_null(nulls.segment_id, row_idx, "segment_id", path) {
        Ok(_) => {},
        Err(e) => return Err(e),
    }
    match validate_not_null(nulls.q_jus_inf_m3s, row_idx, "q_jus_inf_m3s", path) {
        Ok(_) => {},
        Err(e) => return Err(e),
    }
    match validate_not_null(nulls.q_jus_sup_m3s, row_idx, "q_jus_sup_m3s", path) {
        Ok(_) => {},
        Err(e) => return Err(e),
    }
    match validate_not_null(nulls.a_cf0, row_idx, "a_cf0", path) {
        Ok(_) => {},
        Err(e) => return Err(e),
    }
    match validate_not_null(nulls.a_cf1, row_idx, "a_cf1", path) {
        Ok(_) => {},
        Err(e) => return Err(e),
    }
    match validate_not_null(nulls.a_cf2, row_idx, "a_cf2", path) {
        Ok(_) => {},
        Err(e) => return Err(e),
    }
    match validate_not_null(nulls.a_cf3, row_idx, "a_cf3", path) {
        Ok(_) => {},
        Err(e) => return Err(e),
    }
    validate_not_null(nulls.a_cf4, row_idx, "a_cf4", path)
}

proof fn columns_are_there(table: TableView)
    requires
        table.well_formed(),
        columns_finding(table) is None,
    ensures
        forall|k: int|
            0 <= k < 11 ==> {
                let e = #[trigger] expected_columns()[k];
                &&& table.named(e.name) is Some
                &&& table.named(e.name)->0.of_kind(e.kind)
                &&& table.named(e.name)->0.has_len(table.rows as int)
            },
{
    assert forall|k: int| 0 <= k < 11 implies {
        let e = #[trigger] expected_columns()[k];
        &&& table.named(e.name) is Some
        &&& table.named(e.name)->0.of_kind(e.kind)
        &&& table.named(e.name)->0.has_len(table.rows as int)
    } by {
        let e = expected_columns()[k];
        table::required_column_is_there(table, expected_columns(), "missing column \""@, k);
        table::named_has_len(table, e.name);
    }
}

/// Takes the segments of one table, whose first row has number `base`.
fn read_table(batch: &Table, base: usize, path: &str) -> (r: Result<
    Vec<TailraceCurveRow>,
    LoadError,
>)
    requires
        batch@.well_formed(),
        base + batch@.rows <= usize::MAX,
    ensures
        error::reports(r, path@, table_finding(batch@, base as int)),
        r matches Ok(rows) ==> rows@ == rows_of()(batch@),
{
    match table::check_columns(batch, &expected(), "missing column \"", path) {
        Ok(_) => {},
        Err(e) => return Err(e),
    }
    let ghost view = batch@;
    proof {
        columns_are_there(view);
        assert(expected_columns()[0] == table::required("hydro_id", Kind::Int32));
        assert(expected_columns()[1] == table::required("family_id", Kind::Int32));
        assert(expected_columns()[2] == table::required("segment_id", Kind::Int32));
        assert(expected_columns()[3] == table::required("href_jus_m", Kind::Float64));
        assert(expected_columns()[4] == table::required("q_jus_inf_m3s", Kind::Float64));
        assert(expected_columns()[5] == table::required("q_jus_sup_m3s", Kind::Float64));
        assert(expected_columns()[6] == table::required("a_cf0", Kind::Float64));
        assert(expected_columns()[7] == table::required("a_cf1", Kind::Float64));
        assert(expected_columns()[8] == table::required("a_cf2", Kind::Float64));
        assert(expected_columns()[9] == table::required("a_cf3", Kind::Float64));
        assert(expected_columns()[10] == table::required("a_cf4", Kind::Float64));
    }
    let hydro_id: &Vec<Cell<i32>> = table::ints(batch, "hydro_id");
    let family_id: &Vec<Cell<i32>> = table::ints(batch, "family_id");
    let segment_id: &Vec<Cell<i32>> = table::ints(batch, "segment_id");
    let href: &Vec<Cell<Float64>> = table::floats(batch, "href_jus_m");
    let q_inf: &Vec<Cell<Float64>> = table::floats(batch, "q_jus_inf_m3s");
    let q_sup: &Vec<Cell<Float64>> = table::floats(batch, "q_jus_sup_m3s");
    let a_cf0: &Vec<Cell<Float64>> = table::floats(batch, "a_cf0");
    let a_cf1: &Vec<Cell<Float64>> = table::floats(batch, "a_cf1");
    let a_cf2: &Vec<Cell<Float64>> = table::floats(batch, "a_cf2");
    let a_cf3: &Vec<Cell<Float64>> = table::floats(batch, "a_cf3");
    let a_cf4: &Vec<Cell<Float64>> = table::floats(batch, "a_cf4");
    let ghost check = row_check(view, base as int);
    let mut rows: Vec<TailraceCurveRow> = Vec::new();
    for i in 0..batch.rows
        invariant
            view == batch@,
            base + view.rows <= usize::MAX,
            check == row_check(view, base as int),
            hydro_id@ == view.named("hydro_id"@)->0->Int32_0,
            family_id@ == view.named("family_id"@)->0->Int32_0,
            segment_id@ == view.named("segment_id"@)->0->Int32_0,
            href@ == view.named("href_jus_m"@)->0->Float64_0,
            q_inf@ == view.named("q_jus_inf_m3s"@)->0->Float64_0,
            q_sup@ == view.named("q_jus_sup_m3s"@)->0->Float64_0,
            a_cf0@ == view.named("a_cf0"@)->0->Float64_0,
            a_cf1@ == view.named("a_cf1"@)->0->Float64_0,
            a_cf2@ == view.named("a_cf2"@)->0->Float64_0,
            a_cf3@ == view.named("a_cf3"@)->0->Float64_0,
            a_cf4@ == view.named("a_cf4"@)->0->Float64_0,
            hydro_id@.len() == view.rows,
            family_id@.len() == view.rows,
            segment_id@.len() == view.rows,
            href@.len() == view.rows,
            q_inf@.len() == view.rows,
            q_sup@.len() == view.rows,
            a_cf0@.len() == view.rows,
            a_cf1@.len() == view.rows,
            a_cf2@.len() == view.rows,
            a_cf3@.len() == view.rows,
            a_cf4@.len() == view.rows,
            columns_finding(view) is None,
            forall|j: int| 0 <= j < i ==> (#[trigger] check(j)) is None,
            rows@ == rows_of()(view).take(i as int),
    {
        let nulls = Nulls {
            hydro_id: hydro_id[i].null,
            family_id: family_id[i].null,
            segment_id: segment_id[i].null,
            q_jus_inf_m3s: q_inf[i].null,
            q_jus_sup_m3s: q_sup[i].null,
            a_cf0: a_cf0[i].null,
            a_cf1: a_cf1[i].null,
            a_cf2: a_cf2[i].null,
            a_cf3: a_cf3[i].null,
            a_cf4: a_cf4[i].null,
        };
        match validate_nulls(&nulls, base + i, path, Ghost(view), Ghost(i as int)) {
            Ok(_) => {},
            Err(e) => {
                proof {
                    assert(check(i as int) is Some);
                    validation::first_is_at(view.rows as int, check, i as int);
                }
                return Err(e);
            },
        }
        let row = TailraceCurveRow {
            hydro_id: EntityId(hydro_id[i].value),
            family_id: family_id[i].value,
            href_jus_m: if href[i].null {
                None
            } else {
                Some(href[i].value)
            },
            segment_id: segment_id[i].value,
            q_jus_inf_m3s: q_inf[i].value,
            q_jus_sup_m3s: q_sup[i].value,
            a_cf0: a_cf0[i].value,
            a_cf1: a_cf1[i].value,
            a_cf2: a_cf2[i].value,
            a_cf3: a_cf3[i].value,
            a_cf4: a_cf4[i].value,
        };
        assert(row == row_of(view, i as int));
        let outcome = validate_row(&row, base + i, path);
        assert(error::reports(outcome, path@, check(i as int)));
        match outcome {
            Ok(_) => {},
            Err(e) => {
                proof {
                    validation::first_is_at(view.rows as int, check, i as int);
                }
                return Err(e);
            },
        }
        rows.push(row);
        proof {
            assert(rows@ =~= rows_of()(view).take(i + 1));
        }
    }
    proof {
        validation::first_is_none(view.rows as int, check);
        assert(rows@ =~= rows_of()(view));
    }
    Ok(rows)
}

/// Checks the tables of a file and gives its segments, sorted by plant, family and
/// segment.
pub fn parse_tailrace_curves(batches: &Vec<Table>, path: &str) -> (r: Result<
    Vec<TailraceCurveRow>,
    LoadError,
>)
    requires
        table::readable(table::table_views(batches@)),
    ensures
        error::reports(r, path@, file_finding(table::table_views(batches@))),
        r matches Ok(rows) ==> rows@ == sorting::sorted(
            table::rows_of_all(
                table::table_views(batches@),
                rows_of(),
                batches@.len() as int,
            ),
        ),
{
    let ghost views = table::table_views(batches@);
    let ghost check = tables_check(views);
    let mut rows: Vec<TailraceCurveRow> = Vec::new();
    for k in 0..batches.len()
        invariant
            views == table::table_views(batches@),
            check == tables_check(views),
            table::readable(views),
            forall|j: int| 0 <= j < k ==> (#[trigger] check(j)) is None,
            rows@.len() == table::rows_before(views, k as int),
            rows@ == table::rows_of_all(views, rows_of(), k as int),
    {
        proof {
            assert(views[k as int] == batches@[k as int]@);
            assert(views[k as int].well_formed());
            table::rows_before_grows(views, k + 1, views.len() as int);
        }
        let outcome = read_table(&batches[k], rows.len(), path);
        assert(error::reports(outcome, path@, check(k as int)));
        match outcome {
            Ok(more) => {
                let mut next: Vec<TailraceCurveRow> = more;
                rows.append(&mut next);
            },
            Err(e) => {
                proof {
                    validation::first_is_at(views.len() as int, check, k as int);
                }
                return Err(e);
            },
        }
    }
    proof {
        validation::first_is_none(views.len() as int, check);
    }
    Ok(sorting::sort_by_key(rows))
}

// ── What is accepted ─────────────────────────────────────────────────────────

/// A segment keeps all rules.
pub open spec fn good_row(row: TailraceCurveRow) -> bool {
    &&& row.href_jus_m matches Some(value) ==> validation::non_negative(value)
    &&& validation::non_negative(row.q_jus_inf_m3s)
    &&& validation::non_negative(row.q_jus_sup_m3s)
    &&& !row.q_jus_sup_m3s.below(row.q_jus_inf_m3s)
    &&& row.a_cf0.finite()
    &&& row.a_cf1.finite()
    &&& row.a_cf2.finite()
    &&& row.a_cf3.finite()
    &&& row.a_cf4.finite()
}

/// A segment is accepted exactly where its level and its window of flows are not
/// negative, the window is not inverted and all numbers are finite.
pub proof fn accepted_rows(index: int, row: TailraceCurveRow)
    ensures
        row_finding(index, row) is None <==> good_row(row),
{
}

/// No cell of row `i` is null but the downstream level.
pub open spec fn whole_row(table: TableView, i: int) -> bool {
    &&& !table.int_at("hydro_id"@, i).null
    &&& !table.int_at("family_id"@, i).null
    &&& !table.int_at("segment_id"@, i).null
    &&& !table.float_at("q_jus_inf_m3s"@, i).null
    &&& !table.float_at("q_jus_sup_m3s"@, i).null
    &&& !table.float_at("a_cf0"@, i).null
    &&& !table.float_at("a_cf1"@, i).null
    &&& !table.float_at("a_cf2"@, i).null
    &&& !table.float_at("a_cf3"@, i).null
    &&& !table.float_at("a_cf4"@, i).null
}

/// A row of a table is accepted exactly where no cell but the downstream level is null
/// and the segment keeps all rules.
pub proof fn accepted_cells(table: TableView, base: int, i: int)
    ensures
        row_check(table, base)(i) is None <==> whole_row(table, i) && good_row(row_of(table, i)),
{
    accepted_rows(base + i, row_of(table, i));
}

/// The order in which files list their segments does not matter, where no two are
/// of the same plant, family and place.
pub proof fn declaration_order_does_not_matter(
    a: Seq<TailraceCurveRow>,
    b: Seq<TailraceCurveRow>,
)
    requires
        a.to_multiset() == b.to_multiset(),
        sorting::distinct_keys(a),
    ensures
        sorting::sorted(a) == sorting::sorted(b),
{
    sorting::sorted_ignores_order(a, b);
}

// ── What is read ─────────────────────────────────────────────────────────────

/// Each segment that is read is a row of a table, given back: with the values of that row
/// in the columns of their names. They come in the order of their keys.
pub proof fn segments_are_rows(batches: Seq<Table>, rows: Seq<TailraceCurveRow>, j: int) -> (at: (int, int))
    requires
        0 <= j < rows.len(),
        rows == sorting::sorted(
            table::rows_of_all(
                table::table_views(batches),
                rows_of(),
                batches.len() as int,
            ),
        ),
    ensures
        0 <= at.0 < batches.len(),
        0 <= at.1 < batches[at.0].rows,
        rows[j].hydro_id.0 == batches[at.0]@.int_at("hydro_id"@, at.1).value,
        rows[j].family_id == batches[at.0]@.int_at("family_id"@, at.1).value,
        rows[j].segment_id == batches[at.0]@.int_at("segment_id"@, at.1).value,
        rows[j].href_jus_m == (if batches[at.0]@.float_at("href_jus_m"@, at.1).null {
            None
        } else {
            Some(batches[at.0]@.float_at("href_jus_m"@, at.1).value)
        }),
        rows[j].q_jus_inf_m3s == batches[at.0]@.float_at("q_jus_inf_m3s"@, at.1).value,
        rows[j].q_jus_sup_m3s == batches[at.0]@.float_at("q_jus_sup_m3s"@, at.1).value,
        rows[j].a_cf0 == batches[at.0]@.float_at("a_cf0"@, at.1).value,
        rows[j].a_cf1 == batches[at.0]@.float_at("a_cf1"@, at.1).value,
        rows[j].a_cf2 == batches[at.0]@.float_at("a_cf2"@, at.1).value,
        rows[j].a_cf3 == batches[at.0]@.float_at("a_cf3"@, at.1).value,
        rows[j].a_cf4 == batches[at.0]@.float_at("a_cf4"@, at.1).value,
        j > 0 ==> {
            let a = rows[j - 1];
            let b = rows[j];
            ||| a.hydro_id.0 < b.hydro_id.0
            ||| a.hydro_id == b.hydro_id && a.family_id < b.family_id
            ||| a.hydro_id == b.hydro_id && a.family_id == b.family_id && a.segment_id
                <= b.segment_id
        },
{
    let tables = table::table_views(batches);
    let all = table::rows_of_all(tables, rows_of(), tables.len() as int);
    sorting::sorted_is(all);
    if j > 0 {
        assert(sorting::at_most(sorting::sorted(all)[j - 1].key(), sorting::sorted(all)[j].key()));
    }
    let e = sorting::sorted_comes_from(all, j);
    let at = table::row_comes_from(tables, rows_of(), tables.len() as int, e);
    assert(tables[at.0] == batches[at.0]@);
    assert(rows_of()(tables[at.0])[at.1] == row_of(tables[at.0], at.1));
    at
}

/// Each row of each table is read, and is at the place that is given back.
pub proof fn segments_are_all_read(batches: Seq<Table>, rows: Seq<TailraceCurveRow>, k: int, i: int) -> (j:
    int)
    requires
        0 <= k < batches.len(),
        0 <= i < batches[k].rows,
        rows == sorting::sorted(
            table::rows_of_all(
                table::table_views(batches),
                rows_of(),
                batches.len() as int,
            ),
        ),
    ensures
        rows.len() == table::rows_before(table::table_views(batches), batches.len() as int),
        0 <= j < rows.len(),
        rows[j].hydro_id.0 == batches[k]@.int_at("hydro_id"@, i).value,
        rows[j].family_id == batches[k]@.int_at("family_id"@, i).value,
        rows[j].segment_id == batches[k]@.int_at("segment_id"@, i).value,
        rows[j].href_jus_m == (if batches[k]@.float_at("href_jus_m"@, i).null {
            None
        } else {
            Some(batches[k]@.float_at("href_jus_m"@, i).value)
        }),
        rows[j].q_jus_inf_m3s == batches[k]@.float_at("q_jus_inf_m3s"@, i).value,
        rows[j].q_jus_sup_m3s == batches[k]@.float_at("q_jus_sup_m3s"@, i).value,
        rows[j].a_cf0 == batches[k]@.float_at("a_cf0"@, i).value,
        rows[j].a_cf1 == batches[k]@.float_at("a_cf1"@, i).value,
        rows[j].a_cf2 == batches[k]@.float_at("a_cf2"@, i).value,
        rows[j].a_cf3 == batches[k]@.float_at("a_cf3"@, i).value,
        rows[j].a_cf4 == batches[k]@.float_at("a_cf4"@, i).value,
{
    let tables = table::table_views(batches);
    let all = table::rows_of_all(tables, rows_of(), tables.len() as int);
    assert(tables[k] == batches[k]@);
    rows_are_counted(tables, tables.len() as int);
    let e = table::row_is_listed(tables, rows_of(), tables.len() as int, k, i);
    let j = sorting::sorted_has(all, e);
    assert(rows_of()(tables[k])[i] == row_of(tables[k], i));
    j
}

proof fn rows_are_counted(tables: Seq<TableView>, n: int)
    requires
        0 <= n <= tables.len(),
    ensures
        table::rows_of_all(tables, rows_of(), n).len() == table::rows_before(tables, n),
    decreases n,
{
    if n > 0 {
        rows_are_counted(tables, n - 1);
    }
}

/// The first bad row of a file is reported, and by its number among all rows of the
/// file.
pub proof fn bad_rows_are_reported(tables: Seq<TableView>, k: int, i: int)
    requires
        0 <= k < tables.len(),
        0 <= i < tables[k].rows,
        forall|j: int|
            0 <= j < k ==> table_finding(
                #[trigger] tables[j],
                table::rows_before(tables, j) as int,
            ) is None,
        columns_finding(tables[k]) is None,
        forall|j: int|
            0 <= j < i ==> (#[trigger] row_check(
                tables[k],
                table::rows_before(tables, k) as int,
            )(j)) is None,
        !(whole_row(tables[k], i) && good_row(row_of(tables[k], i))),
    ensures
        file_finding(tables) matches Some(finding) && exists|column: Seq<char>|
            finding.field == #[trigger] text::element_path(
                "tailrace_curves"@,
                table::rows_before(tables, k) + i,
                column,
            ),
{
    let base = table::rows_before(tables, k) as int;
    let rows = row_check(tables[k], base);
    accepted_cells(tables[k], table::rows_before(tables, k) as int, i);
    assert(rows(i) is Some);
    validation::first_is_at(tables[k].rows as int, rows, i);
    let check = tables_check(tables);
    assert forall|j: int| 0 <= j < k implies (#[trigger] check(j)) is None by {
        assert(table_finding(tables[j], table::rows_before(tables, j) as int) is None);
    }
    assert(check(k) == rows(i));
    validation::first_is_at(tables.len() as int, check, k);
}

/// The columns of a table are accepted exactly where every column is there with values of its type.
pub proof fn accepted_columns(table: TableView)
    ensures
        columns_finding(table) is None <==> {
            &&& table.named("hydro_id"@) is Some && table.named("hydro_id"@)->0 is Int32
            &&& table.named("family_id"@) is Some && table.named("family_id"@)->0 is Int32
            &&& table.named("segment_id"@) is Some && table.named("segment_id"@)->0 is Int32
            &&& table.named("href_jus_m"@) is Some && table.named("href_jus_m"@)->0 is Float64
            &&& table.named("q_jus_inf_m3s"@) is Some && table.named("q_jus_inf_m3s"@)->0 is Float64
            &&& table.named("q_jus_sup_m3s"@) is Some && table.named("q_jus_sup_m3s"@)->0 is Float64
            &&& table.named("a_cf0"@) is Some && table.named("a_cf0"@)->0 is Float64
            &&& table.named("a_cf1"@) is Some && table.named("a_cf1"@)->0 is Float64
            &&& table.named("a_cf2"@) is Some && table.named("a_cf2"@)->0 is Float64
            &&& table.named("a_cf3"@) is Some && table.named("a_cf3"@)->0 is Float64
            &&& table.named("a_cf4"@) is Some && table.named("a_cf4"@)->0 is Float64
        },
{
    let missing = "missing column \""@;
    let check = table::columns_check(table, expected_columns(), missing);
    validation::first_is_none(expected_columns().len() as int, check);
    assert(expected_columns()[0] == table::required("hydro_id", Kind::Int32));
    assert(check(0) is None <==> table::column_finding(table, expected_columns()[0], missing) is None);
    assert(expected_columns()[1] == table::required("family_id", Kind::Int32));
    assert(check(1) is None <==> table::column_finding(table, expected_columns()[1], missing) is None);
    assert(expected_columns()[2] == table::required("segment_id", Kind::Int32));
    assert(check(2) is None <==> table::column_finding(table, expected_columns()[2], missing) is None);
    assert(expected_columns()[3] == table::required("href_jus_m", Kind::Float64));
    assert(check(3) is None <==> table::column_finding(table, expected_columns()[3], missing) is None);
    assert(expected_columns()[4] == table::required("q_jus_inf_m3s", Kind::Float64));
    assert(check(4) is None <==> table::column_finding(table, expected_columns()[4], missing) is None);
    assert(expected_columns()[5] == table::required("q_jus_sup_m3s", Kind::Float64));
    assert(check(5) is None <==> table::column_finding(table, expected_columns()[5], missing) is None);
    assert(expected_columns()[6] == table::required("a_cf0", Kind::Float64));
    assert(check(6) is None <==> table::column_finding(table, expected_columns()[6], missing) is None);
    assert(expected_columns()[7] == table::required("a_cf1", Kind::Float64));
    assert(check(7) is None <==> table::column_finding(table, expected_columns()[7], missing) is None);
    assert(expected_columns()[8] == table::required("a_cf2", Kind::Float64));
    assert(check(8) is None <==> table::column_finding(table, expected_columns()[8], missing) is None);
    assert(expected_columns()[9] == table::required("a_cf3", Kind::Float64));
    assert(check(9) is None <==> table::column_finding(table, expected_columns()[9], missing) is None);
    assert(expected_columns()[10] == table::required("a_cf4", Kind::Float64));
    assert(check(10) is None <==> table::column_finding(table, expected_columns()[10], missing) is None);
}

/// A row is accepted exactly where no cell but the downstream level is null, the level
/// and both flows are finite and not negative, the upper flow is not below the lower, and
/// the coefficients are finite.
pub proof fn accepted_numbers(table: TableView, base: int, i: int)
    ensures
        row_check(table, base)(i) is None <==> {
            let low = table.float_at("q_jus_inf_m3s"@, i);
            let high = table.float_at("q_jus_sup_m3s"@, i);
            let level = table.float_at("href_jus_m"@, i);
            &&& !table.int_at("hydro_id"@, i).null
            &&& !table.int_at("family_id"@, i).null
            &&& !table.int_at("segment_id"@, i).null
            &&& level.null || validation::non_negative(level.value)
            &&& !low.null && validation::non_negative(low.value)
            &&& !high.null && validation::non_negative(high.value)
            &&& !high.value.below(low.value)
            &&& !table.float_at("a_cf0"@, i).null && table.float_at("a_cf0"@, i).value.finite()
            &&& !table.float_at("a_cf1"@, i).null && table.float_at("a_cf1"@, i).value.finite()
            &&& !table.float_at("a_cf2"@, i).null && table.float_at("a_cf2"@, i).value.finite()
            &&& !table.float_at("a_cf3"@, i).null && table.float_at("a_cf3"@, i).value.finite()
            &&& !table.float_at("a_cf4"@, i).null && table.float_at("a_cf4"@, i).value.finite()
        },
{
    accepted_cells(table, base, i);
}

/// A file is accepted exactly where the columns and all rows of every table are.
pub proof fn accepted_files(tables: Seq<TableView>)
    ensures
        file_finding(tables) is None <==> forall|k: int|
            0 <= k < tables.len() ==> columns_finding(#[trigger] tables[k]) is None && forall|
                i: int,
            |
                0 <= i < tables[k].rows ==> (#[trigger] row_check(
                    tables[k],
                    table::rows_before(tables, k) as int,
                )(i)) is None,
{
    let check = tables_check(tables);
    validation::first_is_none(tables.len() as int, check);
    assert forall|k: int| 0 <= k < tables.len() implies ((#[trigger] check(k)) is None <==>
        columns_finding(tables[k]) is None && forall|i: int|
        0 <= i < tables[k].rows ==> (#[trigger] row_check(
            tables[k],
            table::rows_before(tables, k) as int,
        )(i)) is None) by {
        validation::first_is_none(
            tables[k].rows as int,
            row_check(tables[k], table::rows_before(tables, k) as int),
        );
    }
    if file_finding(tables) is None {
        assert forall|k: int| 0 <= k < tables.len() implies columns_finding(
            #[trigger] tables[k],
        ) is None && forall|i: int|
            0 <= i < tables[k].rows ==> (#[trigger] row_check(
                tables[k],
                table::rows_before(tables, k) as int,
            )(i)) is None by {
            assert(check(k) is None);
        }
    }
}

/// What is reported of a file is a column that is wrong, in the table that is given back, or
/// the path of a cell that is, in the row that is given back: it is
/// null and may not be, it is negative or not finite, or the upper flow is below the lower.
pub proof fn the_wrong_cell_is_reported(tables: Seq<TableView>) -> (at: (int, int))
    requires
        file_finding(tables) is Some,
    ensures
        0 <= at.0 < tables.len(),
        ({
            let f = file_finding(tables)->0;
            ||| columns_finding(tables[at.0]) == Some(f)
            ||| 0 <= at.1 < tables[at.0].rows && f.field == text::element_path(
                "tailrace_curves"@,
                table::rows_before(tables, at.0) + at.1,
                "hydro_id"@,
            ) && tables[at.0].int_at("hydro_id"@, at.1).null
            ||| 0 <= at.1 < tables[at.0].rows && f.field == text::element_path(
                "tailrace_curves"@,
                table::rows_before(tables, at.0) + at.1,
                "family_id"@,
            ) && tables[at.0].int_at("family_id"@, at.1).null
            ||| 0 <= at.1 < tables[at.0].rows && f.field == text::element_path(
                "tailrace_curves"@,
                table::rows_before(tables, at.0) + at.1,
                "segment_id"@,
            ) && tables[at.0].int_at("segment_id"@, at.1).null
            ||| 0 <= at.1 < tables[at.0].rows && f.field == text::element_path(
                "tailrace_curves"@,
                table::rows_before(tables, at.0) + at.1,
                "href_jus_m"@,
            ) && !tables[at.0].float_at("href_jus_m"@, at.1).null && !validation::non_negative(tables[at.0].float_at("href_jus_m"@, at.1).value)
            ||| 0 <= at.1 < tables[at.0].rows && f.field == text::element_path(
                "tailrace_curves"@,
                table::rows_before(tables, at.0) + at.1,
                "q_jus_inf_m3s"@,
            ) && (tables[at.0].float_at("q_jus_inf_m3s"@, at.1).null || !validation::non_negative(tables[at.0].float_at("q_jus_inf_m3s"@, at.1).value))
            ||| 0 <= at.1 < tables[at.0].rows && f.field == text::element_path(
                "tailrace_curves"@,
                table::rows_before(tables, at.0) + at.1,
                "q_jus_sup_m3s"@,
            ) && (tables[at.0].float_at("q_jus_sup_m3s"@, at.1).null || !validation::non_negative(tables[at.0].float_at("q_jus_sup_m3s"@, at.1).value) || tables[at.0].float_at("q_jus_sup_m3s"@, at.1).value.below(tables[at.0].float_at("q_jus_inf_m3s"@, at.1).value))
            ||| 0 <= at.1 < tables[at.0].rows && f.field == text::element_path(
                "tailrace_curves"@,
                table::rows_before(tables, at.0) + at.1,
                "a_cf0"@,
            ) && (tables[at.0].float_at("a_cf0"@, at.1).null || !tables[at.0].float_at("a_cf0"@, at.1).value.finite())
            ||| 0 <= at.1 < tables[at.0].rows && f.field == text::element_path(
                "tailrace_curves"@,
                table::rows_before(tables, at.0) + at.1,
                "a_cf1"@,
            ) && (tables[at.0].float_at("a_cf1"@, at.1).null || !tables[at.0].float_at("a_cf1"@, at.1).value.finite())
            ||| 0 <= at.1 < tables[at.0].rows && f.field == text::element_path(
                "tailrace_curves"@,
                table::rows_before(tables, at.0) + at.1,
                "a_cf2"@,
            ) && (tables[at.0].float_at("a_cf2"@, at.1).null || !tables[at.0].float_at("a_cf2"@, at.1).value.finite())
            ||| 0 <= at.1 < tables[at.0].rows && f.field == text::element_path(
                "tailrace_curves"@,
                table::rows_before(tables, at.0) + at.1,
                "a_cf3"@,
            ) && (tables[at.0].float_at("a_cf3"@, at.1).null || !tables[at.0].float_at("a_cf3"@, at.1).value.finite())
            ||| 0 <= at.1 < tables[at.0].rows && f.field == text::element_path(
                "tailrace_curves"@,
                table::rows_before(tables, at.0) + at.1,
                "a_cf4"@,
            ) && (tables[at.0].float_at("a_cf4"@, at.1).null || !tables[at.0].float_at("a_cf4"@, at.1).value.finite())
        }),
{
    let k = validation::the_first_bad_entry_is_reported(tables.len() as int, tables_check(tables));
    if columns_finding(tables[k]) is Some {
        (k, 0)
    } else {
        let i = validation::the_first_bad_entry_is_reported(
            tables[k].rows as int,
            row_check(tables[k], table::rows_before(tables, k) as int),
        );
        (k, i)
    }
}

} // verus!
