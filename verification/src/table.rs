//! Tables of columns, as Parquet files hold them.
//!
//! Readers and writers of files exchange [`Table`] values with the library: a
//! reader checks that a table has the columns that it needs and takes its rows from
//! them, and a writer lays its rows out in columns.

use vstd::prelude::*;

use crate::error;
use crate::error::{Finding, LoadError};
use crate::float::Float64;
use crate::text;
use crate::text::{Piece, PieceView};
use crate::validation;

verus! {

/// The type of a column's values.
#[derive(Clone, Copy, Debug, PartialEq, Eq, Structural)]
pub enum Kind {
    /// 8-bit integers.
    Int8,
    /// 32-bit integers.
    Int32,
    /// 64-bit floating-point numbers.
    Float64,
    /// Text.
    Utf8,
    /// Truth values.
    Boolean,
    /// Days since January 1, 1970.
    Date32,
}

impl Kind {
    /// The type's name.
    pub open spec fn text(self) -> Seq<char> {
        match self {
            Kind::Int8 => "Int8"@,
            Kind::Int32 => "Int32"@,
            Kind::Float64 => "Float64"@,
            Kind::Utf8 => "Utf8"@,
            Kind::Boolean => "Boolean"@,
            Kind::Date32 => "Date32"@,
        }
    }

    /// The type's name.
    pub fn name(self) -> (r: &'static str)
        ensures
            r@ == self.text(),
    {
        match self {
            Kind::Int8 => "Int8",
            Kind::Int32 => "Int32",
            Kind::Float64 => "Float64",
            Kind::Utf8 => "Utf8",
            Kind::Boolean => "Boolean",
            Kind::Date32 => "Date32",
        }
    }
}

/// One value of a column. A null has some value too, which means nothing.
#[derive(Clone, Copy, Debug, PartialEq, Eq)]
pub struct Cell<T> {
    /// The value.
    pub value: T,
    /// Whether the column marks it as null.
    pub null: bool,
}

/// The value of a cell, or nothing where it is null.
pub open spec fn present<T>(cell: Cell<T>) -> Option<T> {
    if cell.null {
        None
    } else {
        Some(cell.value)
    }
}

/// The value of a cell, or nothing where it is null.
pub(crate) fn take<T: Copy>(cell: &Cell<T>) -> (r: Option<T>)
    ensures
        r == present(*cell),
{
    if cell.null {
        None
    } else {
        Some(cell.value)
    }
}

/// The values of a column.
#[derive(Clone, Debug, PartialEq)]
pub enum Cells {
    /// 8-bit integers.
    Int8(Vec<Cell<i8>>),
    /// 32-bit integers.
    Int32(Vec<Cell<i32>>),
    /// 64-bit floating-point numbers.
    Float64(Vec<Cell<Float64>>),
    /// Text.
    Utf8(Vec<Cell<String>>),
    /// Truth values.
    Boolean(Vec<Cell<bool>>),
    /// Days since January 1, 1970.
    Date32(Vec<Cell<i32>>),
    /// Values of a type that no reader takes, by the type's name.
    Other(String),
}

/// What [`Cells`] hold.
#[verifier::ext_equal]
pub enum CellsView {
    /// 8-bit integers.
    Int8(Seq<Cell<i8>>),
    /// 32-bit integers.
    Int32(Seq<Cell<i32>>),
    /// 64-bit floating-point numbers.
    Float64(Seq<Cell<Float64>>),
    /// Text.
    Utf8(Seq<Cell<Seq<char>>>),
    /// Truth values.
    Boolean(Seq<Cell<bool>>),
    /// Days since January 1, 1970.
    Date32(Seq<Cell<i32>>),
    /// Values of another type.
    Other(Seq<char>),
}

/// The text of a cell.
pub open spec fn cell_text(cell: Cell<String>) -> Cell<Seq<char>> {
    Cell { value: cell.value@, null: cell.null }
}

/// The texts of cells.
pub open spec fn cell_texts(cells: Seq<Cell<String>>) -> Seq<Cell<Seq<char>>> {
    cells.map_values(|c: Cell<String>| cell_text(c))
}

impl View for Cells {
    type V = CellsView;

    open spec fn view(&self) -> CellsView {
        match self {
            Cells::Int8(c) => CellsView::Int8(c@),
            Cells::Int32(c) => CellsView::Int32(c@),
            Cells::Float64(c) => CellsView::Float64(c@),
            Cells::Utf8(c) => CellsView::Utf8(cell_texts(c@)),
            Cells::Boolean(c) => CellsView::Boolean(c@),
            Cells::Date32(c) => CellsView::Date32(c@),
            Cells::Other(name) => CellsView::Other(name@),
        }
    }
}

impl CellsView {
    /// The name of the values' type.
    pub open spec fn kind_text(self) -> Seq<char> {
        match self {
            CellsView::Int8(_) => Kind::Int8.text(),
            CellsView::Int32(_) => Kind::Int32.text(),
            CellsView::Float64(_) => Kind::Float64.text(),
            CellsView::Utf8(_) => Kind::Utf8.text(),
            CellsView::Boolean(_) => Kind::Boolean.text(),
            CellsView::Date32(_) => Kind::Date32.text(),
            CellsView::Other(name) => name,
        }
    }

    /// The values are of that type.
    pub open spec fn of_kind(self, kind: Kind) -> bool {
        match kind {
            Kind::Int8 => self is Int8,
            Kind::Int32 => self is Int32,
            Kind::Float64 => self is Float64,
            Kind::Utf8 => self is Utf8,
            Kind::Boolean => self is Boolean,
            Kind::Date32 => self is Date32,
        }
    }

    /// There are `n` values.
    pub open spec fn has_len(self, n: int) -> bool {
        match self {
            CellsView::Int8(c) => c.len() == n,
            CellsView::Int32(c) => c.len() == n,
            CellsView::Float64(c) => c.len() == n,
            CellsView::Utf8(c) => c.len() == n,
            CellsView::Boolean(c) => c.len() == n,
            CellsView::Date32(c) => c.len() == n,
            CellsView::Other(_) => true,
        }
    }
}

/// A column: its name, whether it may hold nulls, and its values.
#[derive(Clone, Debug, PartialEq)]
pub struct Column {
    /// The name.
    pub name: String,
    /// Whether the schema lets it hold nulls.
    pub nullable: bool,
    /// The values.
    pub cells: Cells,
}

/// What a [`Column`] holds.
#[verifier::ext_equal]
pub struct ColumnView {
    /// The name.
    pub name: Seq<char>,
    /// Whether the schema lets it hold nulls.
    pub nullable: bool,
    /// The values.
    pub cells: CellsView,
}

impl View for Column {
    type V = ColumnView;

    open spec fn view(&self) -> ColumnView {
        ColumnView { name: self.name@, nullable: self.nullable, cells: self.cells@ }
    }
}

/// A table.
#[derive(Clone, Debug, PartialEq)]
pub struct Table {
    /// How many rows it has.
    pub rows: usize,
    /// The columns.
    pub columns: Vec<Column>,
}

/// What a [`Table`] holds.
#[verifier::ext_equal]
pub struct TableView {
    /// How many rows it has.
    pub rows: nat,
    /// The columns.
    pub columns: Seq<ColumnView>,
}

impl View for Table {
    type V = TableView;

    open spec fn view(&self) -> TableView {
        TableView {
            rows: self.rows as nat,
            columns: self.columns@.map_values(|c: Column| c@),
        }
    }
}

impl TableView {
    /// Each column has one value per row.
    pub open spec fn well_formed(self) -> bool {
        forall|k: int|
            0 <= k < self.columns.len() ==> (#[trigger] self.columns[k]).cells.has_len(
                self.rows as int,
            )
    }

    /// The values of the first column with that name.
    pub open spec fn named(self, name: Seq<char>) -> Option<CellsView> {
        named_among(self.columns, name, self.columns.len() as int)
    }

    /// The 32-bit integer in row `i` of a column.
    pub open spec fn int_at(self, name: Seq<char>, i: int) -> Cell<i32> {
        self.named(name)->0->Int32_0[i]
    }

    /// The 32-bit integer in row `i` of a column that may be missing.
    pub open spec fn optional_int_at(self, name: Seq<char>, i: int) -> Option<i32> {
        match self.named(name) {
            Some(cells) => present(cells->Int32_0[i]),
            None => None,
        }
    }

    /// The number in row `i` of a column.
    pub open spec fn float_at(self, name: Seq<char>, i: int) -> Cell<Float64> {
        self.named(name)->0->Float64_0[i]
    }

    /// The text in row `i` of a column.
    pub open spec fn text_at(self, name: Seq<char>, i: int) -> Cell<Seq<char>> {
        self.named(name)->0->Utf8_0[i]
    }
}

/// The values of the first of `n` columns with that name.
pub open spec fn named_among(columns: Seq<ColumnView>, name: Seq<char>, n: int) -> Option<CellsView>
    decreases n,
{
    if n <= 0 {
        None
    } else {
        match named_among(columns, name, n - 1) {
            Some(cells) => Some(cells),
            None => if columns[n - 1].name == name {
                Some(columns[n - 1].cells)
            } else {
                None
            },
        }
    }
}

/// The first column with a name gives its values.
pub proof fn named_is_at(columns: Seq<ColumnView>, name: Seq<char>, n: int, k: int)
    requires
        0 <= k < n <= columns.len(),
        columns[k].name == name,
        forall|j: int| 0 <= j < k ==> (#[trigger] columns[j]).name != name,
    ensures
        named_among(columns, name, n) == Some(columns[k].cells),
    decreases n,
{
    if k < n - 1 {
        named_is_at(columns, name, n - 1, k);
    } else {
        named_is_absent(columns, name, k);
    }
}

/// No column with a name gives no values.
pub proof fn named_is_absent(columns: Seq<ColumnView>, name: Seq<char>, n: int)
    requires
        0 <= n <= columns.len(),
        forall|j: int| 0 <= j < n ==> (#[trigger] columns[j]).name != name,
    ensures
        named_among(columns, name, n) is None,
    decreases n,
{
    if n > 0 {
        named_is_absent(columns, name, n - 1);
    }
}

proof fn named_is_one(columns: Seq<ColumnView>, name: Seq<char>, n: int)
    requires
        0 <= n <= columns.len(),
    ensures
        named_among(columns, name, n) matches Some(cells) ==> exists|k: int|
            0 <= k < n && (#[trigger] columns[k]).cells == cells,
    decreases n,
{
    if n > 0 {
        named_is_one(columns, name, n - 1);
        if named_among(columns, name, n - 1) is None && columns[n - 1].name == name {
            assert(columns[n - 1].cells == columns[n - 1].cells);
        }
    }
}

/// In a well-formed table a named column has one value per row.
pub proof fn named_has_len(table: TableView, name: Seq<char>)
    requires
        table.well_formed(),
    ensures
        table.named(name) matches Some(cells) ==> cells.has_len(table.rows as int),
{
    named_is_one(table.columns, name, table.columns.len() as int);
}

/// The first column with that name.
pub(crate) fn find_column<'a>(table: &'a Table, name: &'static str) -> (r: Option<&'a Cells>)
    ensures
        match r {
            Some(cells) => table@.named(name@) == Some(cells@),
            None => table@.named(name@) is None,
        },
{
    let ghost columns = table@.columns;
    for k in 0..table.columns.len()
        invariant
            columns == table@.columns,
            forall|j: int| 0 <= j < k ==> (#[trigger] columns[j]).name != name@,
    {
        assert(columns[k as int] == table.columns@[k as int]@);
        if text::same_text(&table.columns[k].name, name) {
            proof {
                named_is_at(columns, name@, columns.len() as int, k as int);
            }
            return Some(&table.columns[k].cells);
        }
    }
    proof {
        named_is_absent(columns, name@, columns.len() as int);
    }
    None
}

impl Cells {
    /// The name of the values' type.
    pub fn kind_name(&self) -> (r: String)
        ensures
            r@ == self@.kind_text(),
    {
        match self {
            Cells::Int8(_) => Kind::Int8.name().to_owned(),
            Cells::Int32(_) => Kind::Int32.name().to_owned(),
            Cells::Float64(_) => Kind::Float64.name().to_owned(),
            Cells::Utf8(_) => Kind::Utf8.name().to_owned(),
            Cells::Boolean(_) => Kind::Boolean.name().to_owned(),
            Cells::Date32(_) => Kind::Date32.name().to_owned(),
            Cells::Other(name) => name.clone(),
        }
    }

    /// Whether the values are of that type.
    pub fn is_kind(&self, kind: Kind) -> (r: bool)
        ensures
            r == self@.of_kind(kind),
    {
        match (self, kind) {
            (Cells::Int8(_), Kind::Int8) => true,
            (Cells::Int32(_), Kind::Int32) => true,
            (Cells::Float64(_), Kind::Float64) => true,
            (Cells::Utf8(_), Kind::Utf8) => true,
            (Cells::Boolean(_), Kind::Boolean) => true,
            (Cells::Date32(_), Kind::Date32) => true,
            _ => false,
        }
    }
}

// ── Cells that a writer fills ────────────────────────────────────────────────

/// A cell with a value.
pub open spec fn filled<T>(value: T) -> Cell<T> {
    Cell { value, null: false }
}

/// A cell with an integer, or a null.
pub open spec fn int_cell(value: Option<i32>) -> Cell<i32> {
    match value {
        Some(x) => filled(x),
        None => Cell { value: 0, null: true },
    }
}

/// A cell with a number, or a null.
pub open spec fn float_cell(value: Option<Float64>) -> Cell<Float64> {
    match value {
        Some(x) => filled(x),
        None => Cell { value: Float64 { bits: 0 }, null: true },
    }
}

/// A cell with a text, or a null.
pub open spec fn text_cell(value: Option<Seq<char>>) -> Cell<Seq<char>> {
    match value {
        Some(x) => filled(x),
        None => Cell { value: Seq::empty(), null: true },
    }
}

/// A cell with a value.
pub(crate) fn fill<T>(value: T) -> (r: Cell<T>)
    ensures
        r == filled(value),
{
    Cell { value, null: false }
}

/// A cell with an integer, or a null.
pub(crate) fn fill_int(value: Option<i32>) -> (r: Cell<i32>)
    ensures
        r == int_cell(value),
{
    match value {
        Some(x) => Cell { value: x, null: false },
        None => Cell { value: 0, null: true },
    }
}

/// A cell with a number, or a null.
pub(crate) fn fill_float(value: Option<Float64>) -> (r: Cell<Float64>)
    ensures
        r == float_cell(value),
{
    match value {
        Some(x) => Cell { value: x, null: false },
        None => Cell { value: Float64 { bits: 0 }, null: true },
    }
}

/// The text in an optional string.
pub open spec fn optional_text(value: Option<String>) -> Option<Seq<char>> {
    match value {
        Some(s) => Some(s@),
        None => None,
    }
}

/// A cell with a copy of a text.
pub(crate) fn fill_text(value: &String) -> (r: Cell<String>)
    ensures
        cell_text(r) == filled(value@),
{
    Cell { value: value.clone(), null: false }
}

/// A cell with a copy of a text, or a null.
pub(crate) fn fill_optional_text(value: &Option<String>) -> (r: Cell<String>)
    ensures
        cell_text(r) == text_cell(optional_text(*value)),
{
    match value {
        Some(s) => Cell { value: s.clone(), null: false },
        None => Cell { value: String::new(), null: true },
    }
}

/// A column of small integers.
pub open spec fn smalls_column(name: &str, nullable: bool, cells: Seq<Cell<i8>>) -> ColumnView {
    ColumnView { name: name@, nullable, cells: CellsView::Int8(cells) }
}

/// A column of integers.
pub open spec fn ints_column(name: &str, nullable: bool, cells: Seq<Cell<i32>>) -> ColumnView {
    ColumnView { name: name@, nullable, cells: CellsView::Int32(cells) }
}

/// A column of numbers.
pub open spec fn floats_column(name: &str, nullable: bool, cells: Seq<Cell<Float64>>) -> ColumnView {
    ColumnView { name: name@, nullable, cells: CellsView::Float64(cells) }
}

/// A column of texts.
pub open spec fn texts_column(name: &str, nullable: bool, cells: Seq<Cell<Seq<char>>>) -> ColumnView {
    ColumnView { name: name@, nullable, cells: CellsView::Utf8(cells) }
}

/// A column of truth values.
pub open spec fn bools_column(name: &str, nullable: bool, cells: Seq<Cell<bool>>) -> ColumnView {
    ColumnView { name: name@, nullable, cells: CellsView::Boolean(cells) }
}

/// A column of dates.
pub open spec fn dates_column(name: &str, nullable: bool, cells: Seq<Cell<i32>>) -> ColumnView {
    ColumnView { name: name@, nullable, cells: CellsView::Date32(cells) }
}

/// A column.
pub(crate) fn column(name: &str, nullable: bool, cells: Cells) -> (r: Column)
    ensures
        r@ == (ColumnView { name: name@, nullable, cells: cells@ }),
{
    Column { name: name.to_owned(), nullable, cells }
}

// ── The columns that a reader needs ──────────────────────────────────────────

/// A column that a reader looks for.
#[derive(Clone, Copy, Debug)]
pub struct Expected {
    /// Its name.
    pub name: &'static str,
    /// The type of its values.
    pub kind: Kind,
    /// Whether the table must have it.
    pub required: bool,
}

/// What a reader looks for.
pub struct ExpectedView {
    /// The name.
    pub name: Seq<char>,
    /// The type of the values.
    pub kind: Kind,
    /// Whether the table must have it.
    pub required: bool,
}

impl View for Expected {
    type V = ExpectedView;

    open spec fn view(&self) -> ExpectedView {
        ExpectedView { name: self.name@, kind: self.kind, required: self.required }
    }
}

/// A column that must be there.
pub open spec fn required(name: &str, kind: Kind) -> ExpectedView {
    ExpectedView { name: name@, kind, required: true }
}

/// A column that may be missing.
pub open spec fn optional(name: &str, kind: Kind) -> ExpectedView {
    ExpectedView { name: name@, kind, required: false }
}

/// What is wrong with the column that a reader looks for. `missing` begins the
/// message for a column that is not there.
pub open spec fn column_finding(table: TableView, expected: ExpectedView, missing: Seq<char>) -> Option<
    Finding,
> {
    match table.named(expected.name) {
        None => if expected.required {
            Some(
                Finding {
                    field: expected.name,
                    message: seq![
                        PieceView::Text(missing),
                        PieceView::Text(expected.name),
                        text::text("\""),
                    ],
                },
            )
        } else {
            None
        },
        Some(cells) => if cells.of_kind(expected.kind) {
            None
        } else {
            Some(
                Finding {
                    field: expected.name,
                    message: seq![
                        text::text("column \""),
                        PieceView::Text(expected.name),
                        text::text("\" has type "),
                        PieceView::Text(cells.kind_text()),
                        text::text(" but "),
                        PieceView::Text(expected.kind.text()),
                        text::text(" is required"),
                    ],
                },
            )
        },
    }
}

/// What is wrong with each column that a reader looks for.
pub open spec fn columns_check(
    table: TableView,
    expected: Seq<ExpectedView>,
    missing: Seq<char>,
) -> spec_fn(int) -> Option<Finding> {
    |k: int| column_finding(table, expected[k], missing)
}

/// What is wrong with the first column that a reader looks for and does not find as
/// it needs it.
pub open spec fn columns_finding(
    table: TableView,
    expected: Seq<ExpectedView>,
    missing: Seq<char>,
) -> Option<Finding> {
    validation::first(expected.len() as int, columns_check(table, expected, missing))
}

/// The views of a list of expected columns.
pub open spec fn expected_views(expected: Seq<Expected>) -> Seq<ExpectedView> {
    expected.map_values(|e: Expected| e@)
}

fn check_column(table: &Table, expected: Expected, missing: &'static str, path: &str) -> (r: Result<
    (),
    LoadError,
>)
    ensures
        error::reports(r, path@, column_finding(table@, expected@, missing@)),
{
    let ghost finding = column_finding(table@, expected@, missing@);
    match find_column(table, expected.name) {
        None => {
            if expected.required {
                let message: Vec<Piece> = vec![
                    Piece::Text(missing),
                    Piece::Text(expected.name),
                    Piece::Text("\""),
                ];
                proof {
                    assert(text::pieces(message@) =~= finding->0.message);
                }
                Err(LoadError::schema(path, expected.name.to_owned(), message))
            } else {
                Ok(())
            }
        },
        Some(cells) => {
            if cells.is_kind(expected.kind) {
                Ok(())
            } else {
                let message: Vec<Piece> = vec![
                    Piece::Text("column \""),
                    Piece::Text(expected.name),
                    Piece::Text("\" has type "),
                    Piece::Name(cells.kind_name()),
                    Piece::Text(" but "),
                    Piece::Text(expected.kind.name()),
                    Piece::Text(" is required"),
                ];
                proof {
                    assert(text::pieces(message@) =~= finding->0.message);
                }
                Err(LoadError::schema(path, expected.name.to_owned(), message))
            }
        },
    }
}

/// Checks that a table has the columns that a reader looks for.
pub(crate) fn check_columns(
    table: &Table,
    expected: &Vec<Expected>,
    missing: &'static str,
    path: &str,
) -> (r: Result<(), LoadError>)
    ensures
        error::reports(
            r,
            path@,
            columns_finding(table@, expected_views(expected@), missing@),
        ),
{
    let ghost check = columns_check(table@, expected_views(expected@), missing@);
    for k in 0..expected.len()
        invariant
            check == columns_check(table@, expected_views(expected@), missing@),
            forall|j: int| 0 <= j < k ==> (#[trigger] check(j)) is None,
    {
        let outcome = check_column(table, expected[k], missing, path);
        assert(error::reports(outcome, path@, check(k as int)));
        match outcome {
            Ok(_) => {},
            Err(e) => {
                proof {
                    validation::first_is_at(expected@.len() as int, check, k as int);
                }
                return Err(e);
            },
        }
    }
    proof {
        validation::first_is_none(expected@.len() as int, check);
    }
    Ok(())
}

/// A table that passed the check has a required column of the type that was asked
/// for.
pub proof fn required_column_is_there(
    table: TableView,
    expected: Seq<ExpectedView>,
    missing: Seq<char>,
    k: int,
)
    requires
        columns_finding(table, expected, missing) is None,
        0 <= k < expected.len(),
    ensures
        expected[k].required ==> table.named(expected[k].name) is Some,
        table.named(expected[k].name) matches Some(cells) ==> cells.of_kind(expected[k].kind),
{
    let check = columns_check(table, expected, missing);
    validation::first_is_none(expected.len() as int, check);
    assert(check(k) is None);
}

/// The 32-bit integers of a column that is there.
pub(crate) fn ints<'a>(table: &'a Table, name: &'static str) -> (r: &'a Vec<Cell<i32>>)
    requires
        table@.named(name@) is Some,
        table@.named(name@)->0 is Int32,
    ensures
        r@ == table@.named(name@)->0->Int32_0,
{
    match find_column(table, name) {
        Some(Cells::Int32(cells)) => cells,
        _ => vstd::pervasive::unreached(),
    }
}

/// The numbers of a column that is there.
pub(crate) fn floats<'a>(table: &'a Table, name: &'static str) -> (r: &'a Vec<Cell<Float64>>)
    requires
        table@.named(name@) is Some,
        table@.named(name@)->0 is Float64,
    ensures
        r@ == table@.named(name@)->0->Float64_0,
{
    match find_column(table, name) {
        Some(Cells::Float64(cells)) => cells,
        _ => vstd::pervasive::unreached(),
    }
}

/// The texts of a column that is there.
pub(crate) fn texts<'a>(table: &'a Table, name: &'static str) -> (r: &'a Vec<Cell<String>>)
    requires
        table@.named(name@) is Some,
        table@.named(name@)->0 is Utf8,
    ensures
        cell_texts(r@) == table@.named(name@)->0->Utf8_0,
{
    match find_column(table, name) {
        Some(Cells::Utf8(cells)) => cells,
        _ => vstd::pervasive::unreached(),
    }
}

/// The 32-bit integers of a column that may be missing.
pub(crate) fn optional_ints<'a>(table: &'a Table, name: &'static str) -> (r: Option<
    &'a Vec<Cell<i32>>,
>)
    requires
        table@.named(name@) matches Some(cells) ==> cells is Int32,
    ensures
        match r {
            Some(cells) => table@.named(name@) == Some(CellsView::Int32(cells@)),
            None => table@.named(name@) is None,
        },
{
    match find_column(table, name) {
        Some(Cells::Int32(cells)) => Some(cells),
        Some(_) => vstd::pervasive::unreached(),
        None => None,
    }
}

// ── Files of several tables ──────────────────────────────────────────────────

/// The views of tables.
pub open spec fn table_views(tables: Seq<Table>) -> Seq<TableView> {
    tables.map_values(|t: Table| t@)
}

/// How many rows the first `n` tables have.
pub open spec fn rows_before(tables: Seq<TableView>, n: int) -> nat
    decreases n,
{
    if n <= 0 {
        0
    } else {
        rows_before(tables, n - 1) + tables[n - 1].rows
    }
}

/// The rows of the first `n` tables, one table after the other.
pub open spec fn rows_of_all<R>(
    tables: Seq<TableView>,
    rows_of: spec_fn(TableView) -> Seq<R>,
    n: int,
) -> Seq<R>
    decreases n,
{
    if n <= 0 {
        Seq::empty()
    } else {
        rows_of_all(tables, rows_of, n - 1) + rows_of(tables[n - 1])
    }
}

/// The tables are well formed, and a machine can count their rows.
pub open spec fn readable(tables: Seq<TableView>) -> bool {
    &&& forall|k: int| 0 <= k < tables.len() ==> (#[trigger] tables[k]).well_formed()
    &&& rows_before(tables, tables.len() as int) <= usize::MAX
}

/// Fewer tables have no more rows.
pub proof fn rows_before_grows(tables: Seq<TableView>, n: int, m: int)
    requires
        n <= m,
    ensures
        rows_before(tables, n) <= rows_before(tables, m),
    decreases m - n,
{
    if n < m && m > 0 {
        rows_before_grows(tables, n, m - 1);
    }
}

/// Each row of the first `n` tables is a row of one of them: the table and the row in it
/// are given back.
pub proof fn row_comes_from<R>(
    tables: Seq<TableView>,
    rows_of: spec_fn(TableView) -> Seq<R>,
    n: int,
    j: int,
) -> (at: (int, int))
    requires
        0 <= n <= tables.len(),
        0 <= j < rows_of_all(tables, rows_of, n).len(),
    ensures
        0 <= at.0 < n,
        0 <= at.1 < rows_of(tables[at.0]).len(),
        rows_of_all(tables, rows_of, n)[j] == rows_of(tables[at.0])[at.1],
    decreases n,
{
    let m = rows_of_all(tables, rows_of, n - 1).len();
    if j < m {
        row_comes_from(tables, rows_of, n - 1, j)
    } else {
        (n - 1, j - m)
    }
}

/// Each row of one of the first `n` tables is among all of them, at the place that is
/// given back.
pub proof fn row_is_listed<R>(
    tables: Seq<TableView>,
    rows_of: spec_fn(TableView) -> Seq<R>,
    n: int,
    k: int,
    i: int,
) -> (j: int)
    requires
        0 <= k < n <= tables.len(),
        0 <= i < rows_of(tables[k]).len(),
    ensures
        0 <= j < rows_of_all(tables, rows_of, n).len(),
        rows_of_all(tables, rows_of, n)[j] == rows_of(tables[k])[i],
    decreases n,
{
    let m = rows_of_all(tables, rows_of, n - 1).len();
    if k < n - 1 {
        row_is_listed(tables, rows_of, n - 1, k, i)
    } else {
        m + i
    }
}

/// The type of a column's values has the name of the type that was asked for exactly where it
/// is that type, unless it is one that the readers do not know. Different types have different
/// names.
pub proof fn types_are_told_by_their_names(cells: CellsView, kind: Kind, other: Kind)
    ensures
        cells !is Other ==> (cells.of_kind(kind) <==> cells.kind_text() == kind.text()),
        kind != other ==> kind.text() != other.text(),
        cells matches CellsView::Other(name) ==> cells.kind_text() == name && !cells.of_kind(kind),
{
    reveal_strlit("Int8");
    reveal_strlit("Int32");
    reveal_strlit("Float64");
    reveal_strlit("Utf8");
    reveal_strlit("Boolean");
    reveal_strlit("Date32");
    assert(Kind::Int8.text()[0] == 'I' && Kind::Int8.text().len() == 4);
    assert(Kind::Int32.text()[0] == 'I' && Kind::Int32.text().len() == 5);
    assert(Kind::Float64.text()[0] == 'F');
    assert(Kind::Utf8.text()[0] == 'U');
    assert(Kind::Boolean.text()[0] == 'B');
    assert(Kind::Date32.text()[0] == 'D');
}

/// What is reported of the columns of a table is the name of the first column that is wrong,
/// the one that is given back: it must be there and is not, or its values are of another type.
pub proof fn the_wrong_column_is_reported(
    table: TableView,
    expected: Seq<ExpectedView>,
    missing: Seq<char>,
) -> (k: int)
    requires
        columns_finding(table, expected, missing) is Some,
    ensures
        0 <= k < expected.len(),
        columns_finding(table, expected, missing)->0.field == expected[k].name,
        match table.named(expected[k].name) {
            None => expected[k].required,
            Some(cells) => !cells.of_kind(expected[k].kind),
        },
        forall|j: int|
            0 <= j < k ==> match table.named((#[trigger] expected[j]).name) {
                None => !expected[j].required,
                Some(cells) => cells.of_kind(expected[j].kind),
            },
{
    let check = columns_check(table, expected, missing);
    let k = validation::the_first_bad_entry_is_reported(expected.len() as int, check);
    assert forall|j: int| 0 <= j < k implies match table.named((#[trigger] expected[j]).name) {
        None => !expected[j].required,
        Some(cells) => cells.of_kind(expected[j].kind),
    } by {
        assert(check(j) is None);
    }
    k
}

} // verus!
