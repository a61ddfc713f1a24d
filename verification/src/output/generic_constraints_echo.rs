//! The generic constraints of a run, with every reference resolved.
//!
//! One row per term of a constraint at a stage and block. A constraint without terms
//! has one row, in which nothing is said of a term.

use vstd::prelude::*;

use crate::float::Float64;
use crate::table;
use crate::table::{Cell, Cells, Column, Table, TableView};

verus! {

/// One term of one constraint at one stage and block.
#[derive(Clone, Debug, PartialEq)]
pub struct GenericConstraintEchoRow {
    /// The stage.
    pub stage_id: i32,
    /// The block; none on a row for the whole stage.
    pub block_id: Option<i32>,
    /// The constraint.
    pub constraint_id: i32,
    /// The constraint's name.
    pub constraint_name: String,
    /// The term's position among the constraint's terms.
    pub term_index: Option<i32>,
    /// The kind of variable in the term.
    pub variable_kind: Option<String>,
    /// The variable in the term.
    pub variable: Option<String>,
    /// The variable's coefficient.
    pub coefficient: Option<Float64>,
    /// The lower bound; none where the constraint has none.
    pub bound_lower: Option<Float64>,
    /// The upper bound; none where the constraint has none.
    pub bound_upper: Option<Float64>,
    /// A label for which bounds there are.
    pub derived_shape: String,
    /// Whether the constraint may be violated at a price.
    pub slack_enabled: bool,
    /// That price; none where it may not.
    pub slack_penalty: Option<Float64>,
}

/// The table of resolved constraints.
pub open spec fn generic_constraint_echo_table(rows: Seq<GenericConstraintEchoRow>) -> TableView {
    TableView {
        rows: rows.len(),
        columns: seq![
            table::ints_column(
                "stage_id",
                false,
                Seq::new(rows.len(), |i: int| table::filled(rows[i].stage_id)),
            ),
            table::ints_column(
                "block_id",
                true,
                Seq::new(rows.len(), |i: int| table::int_cell(rows[i].block_id)),
            ),
            table::ints_column(
                "constraint_id",
                false,
                Seq::new(rows.len(), |i: int| table::filled(rows[i].constraint_id)),
            ),
            table::texts_column(
                "constraint_name",
                false,
                Seq::new(rows.len(), |i: int| table::filled(rows[i].constraint_name@)),
            ),
            table::ints_column(
                "term_index",
                true,
                Seq::new(rows.len(), |i: int| table::int_cell(rows[i].term_index)),
            ),
            table::texts_column(
                "variable_kind",
                true,
                Seq::new(rows.len(), |i: int| table::text_cell(table::optional_text(rows[i].variable_kind))),
            ),
            table::texts_column(
                "variable",
                true,
                Seq::new(rows.len(), |i: int| table::text_cell(table::optional_text(rows[i].variable))),
            ),
            table::floats_column(
                "coefficient",
                true,
                Seq::new(rows.len(), |i: int| table::float_cell(rows[i].coefficient)),
            ),
            table::floats_column(
                "bound_lower",
                true,
                Seq::new(rows.len(), |i: int| table::float_cell(rows[i].bound_lower)),
            ),
            table::floats_column(
                "bound_upper",
                true,
                Seq::new(rows.len(), |i: int| table::float_cell(rows[i].bound_upper)),
            ),
            table::texts_column(
                "derived_shape",
                false,
                Seq::new(rows.len(), |i: int| table::filled(rows[i].derived_shape@)),
            ),
            table::bools_column(
                "slack_enabled",
                false,
                Seq::new(rows.len(), |i: int| table::filled(rows[i].slack_enabled)),
            ),
            table::floats_column(
                "slack_penalty",
                true,
                Seq::new(rows.len(), |i: int| table::float_cell(rows[i].slack_penalty)),
            ),
        ],
    }
}

/// Lays resolved constraints out in columns, in the order given.
pub fn build_generic_constraint_echo_batch(rows: &[GenericConstraintEchoRow]) -> (r: Table)
    ensures
        r@ == generic_constraint_echo_table(rows@),
        r@.well_formed(),
{
    let mut stage_id: Vec<Cell<i32>> = Vec::new();
    let mut block_id: Vec<Cell<i32>> = Vec::new();
    let mut constraint_id: Vec<Cell<i32>> = Vec::new();
    let mut constraint_name: Vec<Cell<String>> = Vec::new();
    let mut term_index: Vec<Cell<i32>> = Vec::new();
    let mut variable_kind: Vec<Cell<String>> = Vec::new();
    let mut variable: Vec<Cell<String>> = Vec::new();
    let mut coefficient: Vec<Cell<Float64>> = Vec::new();
    let mut bound_lower: Vec<Cell<Float64>> = Vec::new();
    let mut bound_upper: Vec<Cell<Float64>> = Vec::new();
    let mut derived_shape: Vec<Cell<String>> = Vec::new();
    let mut slack_enabled: Vec<Cell<bool>> = Vec::new();
    let mut slack_penalty: Vec<Cell<Float64>> = Vec::new();
    for i in 0..rows.len()
        invariant
            stage_id@.len() == i,
            block_id@.len() == i,
            constraint_id@.len() == i,
            constraint_name@.len() == i,
            term_index@.len() == i,
            variable_kind@.len() == i,
            variable@.len() == i,
            coefficient@.len() == i,
            bound_lower@.len() == i,
            bound_upper@.len() == i,
            derived_shape@.len() == i,
            slack_enabled@.len() == i,
            slack_penalty@.len() == i,
            forall|j: int| 0 <= j < i ==> #[trigger] stage_id@[j] == table::filled(rows@[j].stage_id),
            forall|j: int| 0 <= j < i ==> #[trigger] block_id@[j] == table::int_cell(rows@[j].block_id),
            forall|j: int| 0 <= j < i ==> #[trigger] constraint_id@[j] == table::filled(rows@[j].constraint_id),
            forall|j: int| 0 <= j < i ==> table::cell_text(#[trigger] constraint_name@[j]) == table::filled(rows@[j].constraint_name@),
            forall|j: int| 0 <= j < i ==> #[trigger] term_index@[j] == table::int_cell(rows@[j].term_index),
            forall|j: int| 0 <= j < i ==> table::cell_text(#[trigger] variable_kind@[j]) == table::text_cell(table::optional_text(rows@[j].variable_kind)),
            forall|j: int| 0 <= j < i ==> table::cell_text(#[trigger] variable@[j]) == table::text_cell(table::optional_text(rows@[j].variable)),
            forall|j: int| 0 <= j < i ==> #[trigger] coefficient@[j] == table::float_cell(rows@[j].coefficient),
            forall|j: int| 0 <= j < i ==> #[trigger] bound_lower@[j] == table::float_cell(rows@[j].bound_lower),
            forall|j: int| 0 <= j < i ==> #[trigger] bound_upper@[j] == table::float_cell(rows@[j].bound_upper),
            forall|j: int| 0 <= j < i ==> table::cell_text(#[trigger] derived_shape@[j]) == table::filled(rows@[j].derived_shape@),
            forall|j: int| 0 <= j < i ==> #[trigger] slack_enabled@[j] == table::filled(rows@[j].slack_enabled),
            forall|j: int| 0 <= j < i ==> #[trigger] slack_penalty@[j] == table::float_cell(rows@[j].slack_penalty),
    {
        let row: &GenericConstraintEchoRow = &rows[i];
        stage_id.push(table::fill(row.stage_id));
        block_id.push(table::fill_int(row.block_id));
        constraint_id.push(table::fill(row.constraint_id));
        constraint_name.push(table::fill_text(&row.constraint_name));
        term_index.push(table::fill_int(row.term_index));
        variable_kind.push(table::fill_optional_text(&row.variable_kind));
        variable.push(table::fill_optional_text(&row.variable));
        coefficient.push(table::fill_float(row.coefficient));
        bound_lower.push(table::fill_float(row.bound_lower));
        bound_upper.push(table::fill_float(row.bound_upper));
        derived_shape.push(table::fill_text(&row.derived_shape));
        slack_enabled.push(table::fill(row.slack_enabled));
        slack_penalty.push(table::fill_float(row.slack_penalty));
    }
    proof {
        assert(stage_id@ =~= Seq::new(rows@.len(), |i: int| table::filled(rows@[i].stage_id)));
        assert(block_id@ =~= Seq::new(rows@.len(), |i: int| table::int_cell(rows@[i].block_id)));
        assert(constraint_id@ =~= Seq::new(rows@.len(), |i: int| table::filled(rows@[i].constraint_id)));
        assert(table::cell_texts(constraint_name@) =~= Seq::new(rows@.len(), |i: int| table::filled(rows@[i].constraint_name@)));
        assert(term_index@ =~= Seq::new(rows@.len(), |i: int| table::int_cell(rows@[i].term_index)));
        assert(table::cell_texts(variable_kind@) =~= Seq::new(rows@.len(), |i: int| table::text_cell(table::optional_text(rows@[i].variable_kind))));
        assert(table::cell_texts(variable@) =~= Seq::new(rows@.len(), |i: int| table::text_cell(table::optional_text(rows@[i].variable))));
        assert(coefficient@ =~= Seq::new(rows@.len(), |i: int| table::float_cell(rows@[i].coefficient)));
        assert(bound_lower@ =~= Seq::new(rows@.len(), |i: int| table::float_cell(rows@[i].bound_lower)));
        assert(bound_upper@ =~= Seq::new(rows@.len(), |i: int| table::float_cell(rows@[i].bound_upper)));
        assert(table::cell_texts(derived_shape@) =~= Seq::new(rows@.len(), |i: int| table::filled(rows@[i].derived_shape@)));
        assert(slack_enabled@ =~= Seq::new(rows@.len(), |i: int| table::filled(rows@[i].slack_enabled)));
        assert(slack_penalty@ =~= Seq::new(rows@.len(), |i: int| table::float_cell(rows@[i].slack_penalty)));
    }
    let columns: Vec<Column> = vec![
        table::column("stage_id", false, Cells::Int32(stage_id)),
        table::column("block_id", true, Cells::Int32(block_id)),
        table::column("constraint_id", false, Cells::Int32(constraint_id)),
        table::column("constraint_name", false, Cells::Utf8(constraint_name)),
        table::column("term_index", true, Cells::Int32(term_index)),
        table::column("variable_kind", true, Cells::Utf8(variable_kind)),
        table::column("variable", true, Cells::Utf8(variable)),
        table::column("coefficient", true, Cells::Float64(coefficient)),
        table::column("bound_lower", true, Cells::Float64(bound_lower)),
        table::column("bound_upper", true, Cells::Float64(bound_upper)),
        table::column("derived_shape", false, Cells::Utf8(derived_shape)),
        table::column("slack_enabled", false, Cells::Boolean(slack_enabled)),
        table::column("slack_penalty", true, Cells::Float64(slack_penalty)),
    ];
    let r = Table { rows: rows.len(), columns };
    proof {
        assert(r@.columns =~= generic_constraint_echo_table(rows@).columns);
    }
    r
}

/// Row `i` of the table holds the fields of the `i`-th row, each in the column of its
/// name; a field without a value is a null.
pub proof fn columns_hold_their_fields(rows: Seq<GenericConstraintEchoRow>, table: Table, i: int)
    requires
        table@ == generic_constraint_echo_table(rows),
        0 <= i < rows.len(),
    ensures
        table.rows == rows.len(),
        table.columns@.len() == 13,
        table.columns@[0].name@ == "stage_id"@ && table.columns@[0].nullable == false,
        match table.columns@[0].cells {
            Cells::Int32(cells) => cells@.len() == rows.len() && !cells@[i].null && cells@[i].value == rows[i].stage_id,
            _ => false,
        },
        table.columns@[1].name@ == "block_id"@ && table.columns@[1].nullable == true,
        match table.columns@[1].cells {
            Cells::Int32(cells) => cells@.len() == rows.len() && match rows[i].block_id {
                    Some(x) => cells@[i] == (Cell { value: x, null: false }),
                    None => cells@[i].null,
                },
            _ => false,
        },
        table.columns@[2].name@ == "constraint_id"@ && table.columns@[2].nullable == false,
        match table.columns@[2].cells {
            Cells::Int32(cells) => cells@.len() == rows.len() && !cells@[i].null && cells@[i].value == rows[i].constraint_id,
            _ => false,
        },
        table.columns@[3].name@ == "constraint_name"@ && table.columns@[3].nullable == false,
        match table.columns@[3].cells {
            Cells::Utf8(cells) => cells@.len() == rows.len() && !cells@[i].null && cells@[i].value@ == rows[i].constraint_name@,
            _ => false,
        },
        table.columns@[4].name@ == "term_index"@ && table.columns@[4].nullable == true,
        match table.columns@[4].cells {
            Cells::Int32(cells) => cells@.len() == rows.len() && match rows[i].term_index {
                    Some(x) => cells@[i] == (Cell { value: x, null: false }),
                    None => cells@[i].null,
                },
            _ => false,
        },
        table.columns@[5].name@ == "variable_kind"@ && table.columns@[5].nullable == true,
        match table.columns@[5].cells {
            Cells::Utf8(cells) => cells@.len() == rows.len() && match rows[i].variable_kind {
                    Some(x) => !cells@[i].null && cells@[i].value@ == x@,
                    None => cells@[i].null,
                },
            _ => false,
        },
        table.columns@[6].name@ == "variable"@ && table.columns@[6].nullable == true,
        match table.columns@[6].cells {
            Cells::Utf8(cells) => cells@.len() == rows.len() && match rows[i].variable {
                    Some(x) => !cells@[i].null && cells@[i].value@ == x@,
                    None => cells@[i].null,
                },
            _ => false,
        },
        table.columns@[7].name@ == "coefficient"@ && table.columns@[7].nullable == true,
        match table.columns@[7].cells {
            Cells::Float64(cells) => cells@.len() == rows.len() && match rows[i].coefficient {
                    Some(x) => cells@[i] == (Cell { value: x, null: false }),
                    None => cells@[i].null,
                },
            _ => false,
        },
        table.columns@[8].name@ == "bound_lower"@ && table.columns@[8].nullable == true,
        match table.columns@[8].cells {
            Cells::Float64(cells) => cells@.len() == rows.len() && match rows[i].bound_lower {
                    Some(x) => cells@[i] == (Cell { value: x, null: false }),
                    None => cells@[i].null,
                },
            _ => false,
        },
        table.columns@[9].name@ == "bound_upper"@ && table.columns@[9].nullable == true,
        match table.columns@[9].cells {
            Cells::Float64(cells) => cells@.len() == rows.len() && match rows[i].bound_upper {
                    Some(x) => cells@[i] == (Cell { value: x, null: false }),
                    None => cells@[i].null,
                },
            _ => false,
        },
        table.columns@[10].name@ == "derived_shape"@ && table.columns@[10].nullable == false,
        match table.columns@[10].cells {
            Cells::Utf8(cells) => cells@.len() == rows.len() && !cells@[i].null && cells@[i].value@ == rows[i].derived_shape@,
            _ => false,
        },
        table.columns@[11].name@ == "slack_enabled"@ && table.columns@[11].nullable == false,
        match table.columns@[11].cells {
            Cells::Boolean(cells) => cells@.len() == rows.len() && !cells@[i].null && cells@[i].value == rows[i].slack_enabled,
            _ => false,
        },
        table.columns@[12].name@ == "slack_penalty"@ && table.columns@[12].nullable == true,
        match table.columns@[12].cells {
            Cells::Float64(cells) => cells@.len() == rows.len() && match rows[i].slack_penalty {
                    Some(x) => cells@[i] == (Cell { value: x, null: false }),
                    None => cells@[i].null,
                },
            _ => false,
        },
{
    assert(table@.columns.len() == table.columns@.len());
    assert(table@.columns[0] == table.columns@[0]@);
    assert(table@.columns[1] == table.columns@[1]@);
    assert(table@.columns[2] == table.columns@[2]@);
    assert(table@.columns[3] == table.columns@[3]@);
    assert(table@.columns[4] == table.columns@[4]@);
    assert(table@.columns[5] == table.columns@[5]@);
    assert(table@.columns[6] == table.columns@[6]@);
    assert(table@.columns[7] == table.columns@[7]@);
    assert(table@.columns[8] == table.columns@[8]@);
    assert(table@.columns[9] == table.columns@[9]@);
    assert(table@.columns[10] == table.columns@[10]@);
    assert(table@.columns[11] == table.columns@[11]@);
    assert(table@.columns[12] == table.columns@[12]@);
    assert(table.columns@[3].cells is Utf8);
    assert(table@.columns[3].cells->Utf8_0 == table::cell_texts(
        table.columns@[3].cells->Utf8_0@,
    ));
    assert(table::cell_texts(table.columns@[3].cells->Utf8_0@).len() == rows.len());
    assert(table::cell_texts(table.columns@[3].cells->Utf8_0@)[i] == table::cell_text(
        table.columns@[3].cells->Utf8_0@[i],
    ));
    assert(table.columns@[5].cells is Utf8);
    assert(table@.columns[5].cells->Utf8_0 == table::cell_texts(
        table.columns@[5].cells->Utf8_0@,
    ));
    assert(table::cell_texts(table.columns@[5].cells->Utf8_0@).len() == rows.len());
    assert(table::cell_texts(table.columns@[5].cells->Utf8_0@)[i] == table::cell_text(
        table.columns@[5].cells->Utf8_0@[i],
    ));
    assert(table.columns@[6].cells is Utf8);
    assert(table@.columns[6].cells->Utf8_0 == table::cell_texts(
        table.columns@[6].cells->Utf8_0@,
    ));
    assert(table::cell_texts(table.columns@[6].cells->Utf8_0@).len() == rows.len());
    assert(table::cell_texts(table.columns@[6].cells->Utf8_0@)[i] == table::cell_text(
        table.columns@[6].cells->Utf8_0@[i],
    ));
    assert(table.columns@[10].cells is Utf8);
    assert(table@.columns[10].cells->Utf8_0 == table::cell_texts(
        table.columns@[10].cells->Utf8_0@,
    ));
    assert(table::cell_texts(table.columns@[10].cells->Utf8_0@).len() == rows.len());
    assert(table::cell_texts(table.columns@[10].cells->Utf8_0@)[i] == table::cell_text(
        table.columns@[10].cells->Utf8_0@[i],
    ));
}

} // verus!
