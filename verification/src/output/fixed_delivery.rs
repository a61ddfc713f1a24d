//! The commitments past the horizon that a run fixed.
//!
//! One row per anticipated plant and declared window. A run without such a window
//! writes no file.

use vstd::prelude::*;

use crate::date;
use crate::date::Date;
use crate::float::Float64;
use crate::table;
use crate::table::{Cell, Cells, Column, Table, TableView};

verus! {

/// One declared window of one anticipated plant.
#[derive(Clone, Copy, Debug, PartialEq)]
pub struct FixedDeliveryRow {
    /// The plant.
    pub thermal_id: i32,
    /// The window's first day of delivery.
    pub start_date: Date,
    /// The window's last day of delivery.
    pub end_date: Date,
    /// The committed delivery, in MW.
    pub value_mw: Float64,
}

/// The rows hold days of the calendar.
pub open spec fn valid_rows(rows: Seq<FixedDeliveryRow>) -> bool {
    forall|i: int|
        0 <= i < rows.len() ==> (#[trigger] rows[i]).start_date.valid() && rows[i].end_date.valid()
}

/// The table of fixed deliveries.
pub open spec fn fixed_delivery_table(rows: Seq<FixedDeliveryRow>) -> TableView {
    TableView {
        rows: rows.len(),
        columns: seq![
            table::ints_column(
                "thermal_id",
                false,
                Seq::new(rows.len(), |i: int| table::filled(rows[i].thermal_id)),
            ),
            table::dates_column(
                "start_date",
                false,
                Seq::new(rows.len(), |i: int| table::filled(date::date32(rows[i].start_date))),
            ),
            table::dates_column(
                "end_date",
                false,
                Seq::new(rows.len(), |i: int| table::filled(date::date32(rows[i].end_date))),
            ),
            table::floats_column(
                "value_mw",
                false,
                Seq::new(rows.len(), |i: int| table::filled(rows[i].value_mw)),
            ),
        ],
    }
}

/// Lays fixed deliveries out in columns, in the order given.
pub fn build_fixed_delivery_batch(rows: &[FixedDeliveryRow]) -> (r: Table)
    requires
        valid_rows(rows@),
    ensures
        r@ == fixed_delivery_table(rows@),
        r@.well_formed(),
{
    let mut thermal_id: Vec<Cell<i32>> = Vec::new();
    let mut start_date: Vec<Cell<i32>> = Vec::new();
    let mut end_date: Vec<Cell<i32>> = Vec::new();
    let mut value_mw: Vec<Cell<Float64>> = Vec::new();
    for i in 0..rows.len()
        invariant
            valid_rows(rows@),
            thermal_id@.len() == i,
            start_date@.len() == i,
            end_date@.len() == i,
            value_mw@.len() == i,
            forall|j: int| 0 <= j < i ==> #[trigger] thermal_id@[j] == table::filled(rows@[j].thermal_id),
            forall|j: int| 0 <= j < i ==> #[trigger] start_date@[j] == table::filled(date::date32(rows@[j].start_date)),
            forall|j: int| 0 <= j < i ==> #[trigger] end_date@[j] == table::filled(date::date32(rows@[j].end_date)),
            forall|j: int| 0 <= j < i ==> #[trigger] value_mw@[j] == table::filled(rows@[j].value_mw),
    {
        let row: &FixedDeliveryRow = &rows[i];
        thermal_id.push(table::fill(row.thermal_id));
        start_date.push(table::fill(date::date32_days(row.start_date)));
        end_date.push(table::fill(date::date32_days(row.end_date)));
        value_mw.push(table::fill(row.value_mw));
    }
    proof {
        assert(thermal_id@ =~= Seq::new(rows@.len(), |i: int| table::filled(rows@[i].thermal_id)));
        assert(start_date@ =~= Seq::new(rows@.len(), |i: int| table::filled(date::date32(rows@[i].start_date))));
        assert(end_date@ =~= Seq::new(rows@.len(), |i: int| table::filled(date::date32(rows@[i].end_date))));
        assert(value_mw@ =~= Seq::new(rows@.len(), |i: int| table::filled(rows@[i].value_mw)));
    }
    let columns: Vec<Column> = vec![
        table::column("thermal_id", false, Cells::Int32(thermal_id)),
        table::column("start_date", false, Cells::Date32(start_date)),
        table::column("end_date", false, Cells::Date32(end_date)),
        table::column("value_mw", false, Cells::Float64(value_mw)),
    ];
    let r = Table { rows: rows.len(), columns };
    proof {
        assert(r@.columns =~= fixed_delivery_table(rows@).columns);
    }
    r
}

/// The table that a run writes of its fixed deliveries: none where it has none.
pub fn fixed_delivery_output(rows: &[FixedDeliveryRow]) -> (r: Option<Table>)
    requires
        valid_rows(rows@),
    ensures
        match r {
            Some(table) => rows@.len() > 0 && table@ == fixed_delivery_table(rows@)
                && table@.well_formed(),
            None => rows@.len() == 0,
        },
{
    if rows.len() == 0 {
        None
    } else {
        Some(build_fixed_delivery_batch(rows))
    }
}

/// Row `i` of the table holds the fields of the `i`-th delivery, each in the column of its
/// name; a date
/// is its number of days since January 1, 1970.
pub proof fn columns_hold_their_fields(rows: Seq<FixedDeliveryRow>, table: Table, i: int)
    requires
        table@ == fixed_delivery_table(rows),
        0 <= i < rows.len(),
    ensures
        table.rows == rows.len(),
        table.columns@.len() == 4,
        table.columns@[0].name@ == "thermal_id"@ && table.columns@[0].nullable == false,
        match table.columns@[0].cells {
            Cells::Int32(cells) => cells@.len() == rows.len() && !cells@[i].null && cells@[i].value == rows[i].thermal_id,
            _ => false,
        },
        table.columns@[1].name@ == "start_date"@ && table.columns@[1].nullable == false,
        match table.columns@[1].cells {
            Cells::Date32(cells) => cells@.len() == rows.len() && !cells@[i].null && cells@[i].value == date::date32(rows[i].start_date),
            _ => false,
        },
        table.columns@[2].name@ == "end_date"@ && table.columns@[2].nullable == false,
        match table.columns@[2].cells {
            Cells::Date32(cells) => cells@.len() == rows.len() && !cells@[i].null && cells@[i].value == date::date32(rows[i].end_date),
            _ => false,
        },
        table.columns@[3].name@ == "value_mw"@ && table.columns@[3].nullable == false,
        match table.columns@[3].cells {
            Cells::Float64(cells) => cells@.len() == rows.len() && !cells@[i].null && cells@[i].value == rows[i].value_mw,
            _ => false,
        },
{
    assert(table@.columns.len() == table.columns@.len());
    assert(table@.columns[0] == table.columns@[0]@);
    assert(table@.columns[1] == table.columns@[1]@);
    assert(table@.columns[2] == table.columns@[2]@);
    assert(table@.columns[3] == table.columns@[3]@);
}

} // verus!
