//! Windows of dates that carry a value: `[start_date, end_date)` of one entity.

use vstd::prelude::*;

use crate::date;
use crate::date::Date;
use crate::error;
use crate::error::{Finding, LoadError};
use crate::float::Float64;
use crate::sorting;
use crate::sorting::{HasKey, Key, Keyed};
use crate::text;
use crate::text::{Piece, PieceView};
use crate::validation;

verus! {

/// One window of an entity.
#[derive(Clone, Copy, Debug, PartialEq, Eq, Structural)]
pub struct WindowedRecord {
    /// The entity.
    pub entity_id: i32,
    /// The first day.
    pub start_date: Date,
    /// The day after the last.
    pub end_date: Date,
    /// The value over the window.
    pub value: Float64,
}

// ── Dates ────────────────────────────────────────────────────────────────────

/// What is wrong with the text of a date.
pub open spec fn iso_date_finding(field: Seq<char>, value: Seq<char>) -> Option<Finding> {
    if date::date_of(value) is Some {
        None
    } else {
        Some(
            Finding {
                field,
                message: seq![
                    text::text("invalid ISO 8601 date \""),
                    PieceView::Text(value),
                    text::text("\", expected YYYY-MM-DD"),
                ],
            },
        )
    }
}

/// Reads the date in a field.
pub fn parse_iso_date(field: String, value: &str, path: &str) -> (r: Result<Date, LoadError>)
    ensures
        error::reports(r, path@, iso_date_finding(field@, value@)),
        r matches Ok(date) ==> date::date_of(value@) == Some(date) && date.valid(),
{
    match date::read_iso_date(value) {
        Some(date) => Ok(date),
        None => {
            let message: Vec<Piece> = vec![
                Piece::Text("invalid ISO 8601 date \""),
                Piece::Name(value.to_owned()),
                Piece::Text("\", expected YYYY-MM-DD"),
            ];
            proof {
                assert(text::pieces(message@) =~= iso_date_finding(field@, value@)->0.message);
            }
            Err(LoadError::schema(path, field, message))
        },
    }
}

// ── Windows ──────────────────────────────────────────────────────────────────

/// A window ends after it starts.
pub open spec fn proper(window: WindowedRecord) -> bool {
    window.start_date.number() < window.end_date.number()
}

/// What is wrong with the window at position `i`, whatever the others are.
pub open spec fn window_finding(
    records: Seq<WindowedRecord>,
    array: Seq<char>,
    entity: Seq<char>,
    value: Seq<char>,
    i: int,
) -> Option<Finding> {
    if !proper(records[i]) {
        Some(
            Finding {
                field: text::element_path(array, i, "end_date"@),
                message: seq![
                    text::text("end_date must be after start_date for "),
                    PieceView::Text(entity),
                    text::text(" "),
                    PieceView::Int(records[i].entity_id as int),
                    text::text(": start_date "),
                    PieceView::Day(records[i].start_date),
                    text::text(", end_date "),
                    PieceView::Day(records[i].end_date),
                ],
            },
        )
    } else if !records[i].value.finite() {
        Some(
            Finding {
                field: text::element_path(array, i, value),
                message: seq![
                    PieceView::Text(value),
                    text::text(" must be a finite number for "),
                    PieceView::Text(entity),
                    text::text(" "),
                    PieceView::Int(records[i].entity_id as int),
                    text::text(", got "),
                    PieceView::Float(records[i].value),
                ],
            },
        )
    } else {
        None
    }
}

/// What is wrong with each window by itself.
pub open spec fn window_check(
    records: Seq<WindowedRecord>,
    array: Seq<char>,
    entity: Seq<char>,
    value: Seq<char>,
) -> spec_fn(int) -> Option<Finding> {
    |i: int| window_finding(records, array, entity, value, i)
}

/// A window with its position in the list.
#[derive(Clone, Copy, Debug, PartialEq, Eq, Structural)]
pub struct PlacedWindow {
    /// The window.
    pub window: WindowedRecord,
    /// Its position.
    pub position: usize,
}

impl HasKey for PlacedWindow {
    open spec fn key(&self) -> Key {
        (self.window.entity_id as int, self.window.start_date.number(), 0)
    }
}

impl Keyed for PlacedWindow {
    fn sort_key(&self) -> (r: (i64, i64, i64)) {
        (self.window.entity_id as i64, self.window.start_date.order_number(), 0)
    }
}

/// The windows with their positions.
pub open spec fn placed(records: Seq<WindowedRecord>) -> Seq<PlacedWindow> {
    Seq::new(
        records.len(),
        |i: int| PlacedWindow { window: records[i], position: i as usize },
    )
}

/// The windows of each entity by start date.
pub open spec fn by_start(records: Seq<WindowedRecord>) -> Seq<PlacedWindow> {
    sorting::sorted(placed(records))
}

/// What is wrong with the window at place `k` in the order of entities and start
/// dates: it starts before the previous one of its entity ends.
pub open spec fn overlap_finding(
    windows: Seq<PlacedWindow>,
    array: Seq<char>,
    entity: Seq<char>,
    k: int,
) -> Option<Finding> {
    if k > 0 && windows[k].window.entity_id == windows[k - 1].window.entity_id
        && windows[k].window.start_date.number() < windows[k - 1].window.end_date.number() {
        Some(
            Finding {
                field: text::element_path(array, windows[k].position as int, "start_date"@),
                message: seq![
                    text::text("overlapping windows for "),
                    PieceView::Text(entity),
                    text::text(" "),
                    PieceView::Int(windows[k].window.entity_id as int),
                    text::text(": one starts on "),
                    PieceView::Day(windows[k].window.start_date),
                    text::text(" before another ends on "),
                    PieceView::Day(windows[k - 1].window.end_date),
                ],
            },
        )
    } else {
        None
    }
}

/// What is wrong with each window beside the one before.
pub open spec fn overlap_check(
    windows: Seq<PlacedWindow>,
    array: Seq<char>,
    entity: Seq<char>,
) -> spec_fn(int) -> Option<Finding> {
    |k: int| overlap_finding(windows, array, entity, k)
}

/// What is wrong with a list of windows: each ends after it starts and has a finite
/// value, and those of one entity do not overlap.
pub open spec fn windows_finding(
    records: Seq<WindowedRecord>,
    array: Seq<char>,
    entity: Seq<char>,
    value: Seq<char>,
) -> Option<Finding> {
    validation::either(
        validation::first(
            records.len() as int,
            window_check(records, array, entity, value),
        ),
        validation::first(records.len() as int, overlap_check(by_start(records), array, entity)),
    )
}

fn window_error(
    record: &WindowedRecord,
    index: usize,
    array: &str,
    entity: &'static str,
    value: &'static str,
    path: &str,
    Ghost(records): Ghost<Seq<WindowedRecord>>,
) -> (r: Option<LoadError>)
    requires
        index < records.len(),
        records[index as int] == *record,
    ensures
        match (r, window_finding(records, array@, entity@, value@, index as int)) {
            (Some(e), Some(f)) => e.says(path@, f.field, f.message),
            (None, None) => true,
            _ => false,
        },
{
    let ghost finding = window_finding(records, array@, entity@, value@, index as int);
    if !record.end_date.is_after(record.start_date) {
        let message: Vec<Piece> = vec![
            Piece::Text("end_date must be after start_date for "),
            Piece::Text(entity),
            Piece::Text(" "),
            Piece::Int(record.entity_id as i64),
            Piece::Text(": start_date "),
            Piece::Day(record.start_date),
            Piece::Text(", end_date "),
            Piece::Day(record.end_date),
        ];
        proof {
            assert(text::pieces(message@) =~= finding->0.message);
        }
        Some(LoadError::schema(path, text::element_path_text(array, index, "end_date"), message))
    } else if !record.value.is_finite() {
        let message: Vec<Piece> = vec![
            Piece::Text(value),
            Piece::Text(" must be a finite number for "),
            Piece::Text(entity),
            Piece::Text(" "),
            Piece::Int(record.entity_id as i64),
            Piece::Text(", got "),
            Piece::Float(record.value),
        ];
        proof {
            assert(text::pieces(message@) =~= finding->0.message);
        }
        Some(LoadError::schema(path, text::element_path_text(array, index, value), message))
    } else {
        None
    }
}

fn place_windows(records: &Vec<WindowedRecord>) -> (r: Vec<PlacedWindow>)
    ensures
        r@ == placed(records@),
{
    let mut r: Vec<PlacedWindow> = Vec::new();
    for i in 0..records.len()
        invariant
            r@ == placed(records@).take(i as int),
    {
        r.push(PlacedWindow { window: records[i], position: i });
        proof {
            assert(r@ =~= placed(records@).take(i + 1));
        }
    }
    proof {
        assert(r@ =~= placed(records@));
    }
    r
}

fn check_overlaps(
    records: &Vec<WindowedRecord>,
    array: &str,
    entity: &'static str,
    path: &str,
) -> (r: Result<(), LoadError>)
    ensures
        error::reports(
            r,
            path@,
            validation::first(
                records@.len() as int,
                overlap_check(by_start(records@), array@, entity@),
            ),
        ),
{
    let listed: Vec<PlacedWindow> = place_windows(records);
    let windows: Vec<PlacedWindow> = sorting::sort_by_key(listed);
    let ghost check = overlap_check(windows@, array@, entity@);
    proof {
        sorting::sorting_keeps_records(placed(records@), windows@);
        assert(check(0) is None);
    }
    let mut k: usize = 1;
    while k < windows.len()
        invariant
            windows@ == by_start(records@),
            windows@.len() == records@.len(),
            check == overlap_check(windows@, array@, entity@),
            1 <= k,
            forall|j: int| 0 <= j < k ==> (#[trigger] check(j)) is None,
        decreases windows.len() - k,
    {
        let before: PlacedWindow = windows[k - 1];
        let here: PlacedWindow = windows[k];
        if here.window.entity_id == before.window.entity_id && before.window.end_date.is_after(
            here.window.start_date,
        ) {
            let message: Vec<Piece> = vec![
                Piece::Text("overlapping windows for "),
                Piece::Text(entity),
                Piece::Text(" "),
                Piece::Int(here.window.entity_id as i64),
                Piece::Text(": one starts on "),
                Piece::Day(here.window.start_date),
                Piece::Text(" before another ends on "),
                Piece::Day(before.window.end_date),
            ];
            proof {
                assert(text::pieces(message@) =~= check(k as int)->0.message);
                validation::first_is_at(windows@.len() as int, check, k as int);
            }
            let field: String = text::element_path_text(array, here.position, "start_date");
            return Err(LoadError::schema(path, field, message));
        }
        assert(check(k as int) is None);
        k = k + 1;
    }
    proof {
        validation::first_is_none(windows@.len() as int, check);
    }
    Ok(())
}

/// Checks a list of windows. `entity` and `value` name the entity's id and the value
/// in messages.
pub fn validate_windowed_records(
    records: &Vec<WindowedRecord>,
    array: &str,
    entity: &'static str,
    value: &'static str,
    path: &str,
) -> (r: Result<(), LoadError>)
    ensures
        error::reports(r, path@, windows_finding(records@, array@, entity@, value@)),
{
    let ghost check = window_check(records@, array@, entity@, value@);
    for i in 0..records.len()
        invariant
            check == window_check(records@, array@, entity@, value@),
            forall|j: int| 0 <= j < i ==> (#[trigger] check(j)) is None,
    {
        match window_error(&records[i], i, array, entity, value, path, Ghost(records@)) {
            Some(e) => {
                proof {
                    validation::first_is_at(records@.len() as int, check, i as int);
                }
                return Err(e);
            },
            None => {
                assert(check(i as int) is None);
            },
        }
    }
    proof {
        validation::first_is_none(records@.len() as int, check);
    }
    check_overlaps(records, array, entity, path)
}

// ── What the check means ─────────────────────────────────────────────────────

/// Two windows share no day.
pub open spec fn disjoint(a: WindowedRecord, b: WindowedRecord) -> bool {
    a.end_date.number() <= b.start_date.number() || b.end_date.number() <= a.start_date.number()
}

/// A list of windows is accepted exactly where each ends after it starts and has a
/// finite value, and no two of one entity share a day. Windows that touch are
/// accepted.
pub proof fn accepted_windows(
    records: Seq<WindowedRecord>,
    array: Seq<char>,
    entity: Seq<char>,
    value: Seq<char>,
)
    requires
        records.len() <= usize::MAX,
    ensures
        windows_finding(records, array, entity, value) is None <==> {
            &&& forall|i: int|
                0 <= i < records.len() ==> proper(#[trigger] records[i])
                    && records[i].value.finite()
            &&& forall|i: int, j: int|
                0 <= i < j < records.len() && (#[trigger] records[i]).entity_id == (
                #[trigger] records[j]).entity_id ==> disjoint(records[i], records[j])
        },
{
    let check = window_check(records, array, entity, value);
    validation::first_is_none(records.len() as int, check);
    if forall|i: int| 0 <= i < records.len() ==> (#[trigger] check(i)) is None {
        assert forall|i: int| 0 <= i < records.len() implies proper(#[trigger] records[i])
            && records[i].value.finite() by {
            assert(check(i) is None);
        }
        overlaps_are_found(records, array, entity);
    } else {
        let i = choose|i: int| 0 <= i < records.len() && (#[trigger] check(i)) is Some;
        assert(!(proper(records[i]) && records[i].value.finite()));
    }
}

proof fn overlaps_are_found(records: Seq<WindowedRecord>, array: Seq<char>, entity: Seq<char>)
    requires
        records.len() <= usize::MAX,
        forall|i: int| 0 <= i < records.len() ==> proper(#[trigger] records[i]),
    ensures
        validation::first(
            records.len() as int,
            overlap_check(by_start(records), array, entity),
        ) is None <==> forall|i: int, j: int|
            0 <= i < j < records.len() && (#[trigger] records[i]).entity_id == (
            #[trigger] records[j]).entity_id ==> disjoint(records[i], records[j]),
{
    let listed = placed(records);
    let windows = by_start(records);
    let check = overlap_check(windows, array, entity);
    let n = records.len() as int;
    sorting::sorted_is(listed);
    sorting::sorting_keeps_records(listed, windows);
    validation::first_is_none(n, check);
    windows_are_records(records);
    if forall|k: int| 0 <= k < n ==> (#[trigger] check(k)) is None {
        assert forall|i: int, j: int|
            0 <= i < j < n && (#[trigger] records[i]).entity_id == (
            #[trigger] records[j]).entity_id implies disjoint(records[i], records[j]) by {
            record_is_sorted(records, i);
            record_is_sorted(records, j);
            let p = windows.index_of(listed[i]);
            let q = windows.index_of(listed[j]);
            assert(p != q) by {
                assert(listed[i].position != listed[j].position);
            }
            if p < q {
                chain_is_disjoint(windows, array, entity, p, q);
            } else {
                chain_is_disjoint(windows, array, entity, q, p);
            }
        }
    } else {
        let k = choose|k: int| 0 <= k < n && (#[trigger] check(k)) is Some;
        let a = windows[k - 1];
        let b = windows[k];
        assert(a == listed[a.position as int] && b == listed[b.position as int]);
        assert(sorting::at_most(a.key(), b.key()));
        positions_are_distinct(records, k - 1, k);
        let i = a.position as int;
        let j = b.position as int;
        assert(proper(records[i]) && proper(records[j]));
        assert(!disjoint(records[i], records[j]));
    }
}

/// Each sorted window is the record at its position.
proof fn windows_are_records(records: Seq<WindowedRecord>)
    requires
        records.len() <= usize::MAX,
    ensures
        forall|k: int|
            0 <= k < by_start(records).len() ==> {
                let w = #[trigger] by_start(records)[k];
                w.position < records.len() && w == placed(records)[w.position as int]
            },
{
    broadcast use vstd::seq_lib::group_to_multiset_ensures;

    let listed = placed(records);
    let windows = by_start(records);
    sorting::sorted_is(listed);
    sorting::sorting_keeps_records(listed, windows);
    assert forall|k: int| 0 <= k < windows.len() implies {
        let w = #[trigger] windows[k];
        w.position < records.len() && w == listed[w.position as int]
    } by {
        assert(windows.contains(windows[k]));
        assert(windows.to_multiset().count(windows[k]) > 0);
        assert(listed.contains(windows[k]));
        let i = listed.index_of(windows[k]);
        assert(listed[i] == windows[k]);
    }
}

proof fn record_is_sorted(records: Seq<WindowedRecord>, i: int)
    requires
        records.len() <= usize::MAX,
        0 <= i < records.len(),
    ensures
        by_start(records).contains(placed(records)[i]),
{
    broadcast use vstd::seq_lib::group_to_multiset_ensures;

    let listed = placed(records);
    sorting::sorted_is(listed);
    sorting::sorting_keeps_records(listed, by_start(records));
    assert(listed.contains(listed[i]));
    assert(listed.to_multiset().count(listed[i]) > 0);
}

/// Two places in the order hold records from different positions.
proof fn positions_are_distinct(records: Seq<WindowedRecord>, p: int, q: int)
    requires
        records.len() <= usize::MAX,
        0 <= p < q < records.len(),
    ensures
        by_start(records).len() == records.len(),
        by_start(records)[p].position != by_start(records)[q].position,
{
    broadcast use vstd::seq_lib::group_to_multiset_ensures;

    let listed = placed(records);
    let windows = by_start(records);
    sorting::sorted_is(listed);
    sorting::sorting_keeps_records(listed, windows);
    assert(listed.no_duplicates()) by {
        assert forall|i: int, j: int|
            0 <= i < listed.len() && 0 <= j < listed.len() && i != j implies listed[i]
            != listed[j] by {
            assert(listed[i].position != listed[j].position);
        }
    }
    listed.lemma_multiset_has_no_duplicates();
    windows.lemma_multiset_has_no_duplicates_conv();
    windows_are_records(records);
}

/// Where no window overlaps the next, none overlaps a later one of its entity.
proof fn chain_is_disjoint(
    windows: Seq<PlacedWindow>,
    array: Seq<char>,
    entity: Seq<char>,
    p: int,
    q: int,
)
    requires
        sorting::ascending(windows),
        0 <= p < q < windows.len(),
        windows[p].window.entity_id == windows[q].window.entity_id,
        forall|k: int| 0 <= k < windows.len() ==> proper((#[trigger] windows[k]).window),
        forall|k: int|
            0 <= k < windows.len() ==> (#[trigger] overlap_check(windows, array, entity)(
                k,
            )) is None,
    ensures
        windows[p].window.end_date.number() <= windows[q].window.start_date.number(),
    decreases q - p,
{
    let check = overlap_check(windows, array, entity);
    assert(check(q) is None);
    assert(sorting::at_most(windows[p].key(), windows[q].key()));
    if p < q - 1 {
        assert(sorting::at_most(windows[p].key(), windows[q - 1].key()));
        assert(sorting::at_most(windows[q - 1].key(), windows[q].key()));
        chain_is_disjoint(windows, array, entity, p, q - 1);
        assert(proper(windows[q - 1].window));
    }
}

proof fn days_compare_like_numbers(a: Date, b: Date)
    requires
        a.valid(),
        b.valid(),
    ensures
        date::date32(a) < date::date32(b) <==> a.number() < b.number(),
        date::date32(a) <= date::date32(b) <==> a.number() <= b.number(),
{
    date::numbers_order_dates(a, b);
    if a.number() < b.number() {
        date::days_order_dates(a, b);
    } else if b.number() < a.number() {
        date::days_order_dates(b, a);
    }
}

/// In an accepted list every window holds its first day, so it ends after it starts;
/// its value is finite; and no day is in two windows of one entity. A window holds the
/// days from its start date to the day before its end date.
pub proof fn no_day_is_in_two_windows(
    records: Seq<WindowedRecord>,
    array: Seq<char>,
    entity: Seq<char>,
    value: Seq<char>,
    i: int,
    j: int,
    day: Date,
)
    requires
        records.len() <= usize::MAX,
        windows_finding(records, array, entity, value) is None,
        0 <= i < records.len(),
        0 <= j < records.len(),
        records[i].start_date.valid() && records[i].end_date.valid(),
        records[j].start_date.valid() && records[j].end_date.valid(),
        day.valid(),
    ensures
        date::date32(records[i].start_date) < date::date32(records[i].end_date),
        records[i].value.finite(),
        i != j && records[i].entity_id == records[j].entity_id ==> !(date::date32(
            records[i].start_date,
        ) <= date::date32(day) < date::date32(records[i].end_date) && date::date32(
            records[j].start_date,
        ) <= date::date32(day) < date::date32(records[j].end_date)),
{
    accepted_windows(records, array, entity, value);
    assert(proper(records[i]));
    days_compare_like_numbers(records[i].start_date, records[i].end_date);
    days_compare_like_numbers(records[i].start_date, day);
    days_compare_like_numbers(records[j].start_date, day);
    days_compare_like_numbers(day, records[i].end_date);
    days_compare_like_numbers(day, records[j].end_date);
    if i < j && records[i].entity_id == records[j].entity_id {
        assert(disjoint(records[i], records[j]));
    }
    if j < i && records[i].entity_id == records[j].entity_id {
        assert(disjoint(records[j], records[i]));
    }
}

/// A list is accepted where each window ends after it starts and has a finite value,
/// and of two windows of one entity one ends before the other starts, or on that day.
pub proof fn separate_windows_are_accepted(
    records: Seq<WindowedRecord>,
    array: Seq<char>,
    entity: Seq<char>,
    value: Seq<char>,
)
    requires
        records.len() <= usize::MAX,
        forall|i: int|
            #![trigger records[i]]
            0 <= i < records.len() ==> records[i].start_date.valid()
                && records[i].end_date.valid() && records[i].value.finite() && date::date32(
                records[i].start_date,
            ) < date::date32(records[i].end_date),
        forall|i: int, j: int|
            0 <= i < j < records.len() && (#[trigger] records[i]).entity_id == (
            #[trigger] records[j]).entity_id ==> date::date32(records[i].end_date)
                <= date::date32(records[j].start_date) || date::date32(records[j].end_date)
                <= date::date32(records[i].start_date),
    ensures
        windows_finding(records, array, entity, value) is None,
{
    accepted_windows(records, array, entity, value);
    assert forall|i: int| 0 <= i < records.len() implies proper(#[trigger] records[i])
        && records[i].value.finite() by {
        days_compare_like_numbers(records[i].start_date, records[i].end_date);
    }
    assert forall|i: int, j: int|
        0 <= i < j < records.len() && (#[trigger] records[i]).entity_id == (
        #[trigger] records[j]).entity_id implies disjoint(records[i], records[j]) by {
        days_compare_like_numbers(records[i].end_date, records[j].start_date);
        days_compare_like_numbers(records[j].end_date, records[i].start_date);
    }
}

/// What is reported of a refused list is the path of a window that is wrong, the one
/// that is given back: its end date where it does not end after it starts, its value
/// where that is not finite, or its start date where another window of its entity has
/// started by then and not ended.
pub proof fn the_wrong_window_is_reported(
    records: Seq<WindowedRecord>,
    array: Seq<char>,
    entity: Seq<char>,
    value: Seq<char>,
) -> (i: int)
    requires
        records.len() <= usize::MAX,
        windows_finding(records, array, entity, value) is Some,
        forall|k: int|
            0 <= k < records.len() ==> (#[trigger] records[k]).start_date.valid()
                && records[k].end_date.valid(),
    ensures
        0 <= i < records.len(),
        ({
            let field = windows_finding(records, array, entity, value)->0.field;
            ||| field == text::element_path(array, i, "end_date"@) && date::date32(
                records[i].end_date,
            ) <= date::date32(records[i].start_date)
            ||| field == text::element_path(array, i, value) && !records[i].value.finite()
            ||| field == text::element_path(array, i, "start_date"@) && exists|j: int|
                0 <= j < records.len() && j != i && (#[trigger] records[j]).entity_id
                    == records[i].entity_id && date::date32(records[j].start_date)
                    <= date::date32(records[i].start_date) < date::date32(records[j].end_date)
        }),
{
    let n = records.len() as int;
    let check = window_check(records, array, entity, value);
    if validation::first(n, check) is Some {
        let i = validation::the_first_bad_entry_is_reported(n, check);
        days_compare_like_numbers(records[i].start_date, records[i].end_date);
        days_compare_like_numbers(records[i].end_date, records[i].start_date);
        i
    } else {
        let windows = by_start(records);
        let k = validation::the_first_bad_entry_is_reported(
            n,
            overlap_check(windows, array, entity),
        );
        sorting::sorted_is(placed(records));
        sorting::sorting_keeps_records(placed(records), windows);
        windows_are_records(records);
        positions_are_distinct(records, k - 1, k);
        assert(sorting::at_most(windows[k - 1].key(), windows[k].key()));
        let j = windows[k - 1].position as int;
        let i = windows[k].position as int;
        assert(windows[k - 1].window == records[j]);
        assert(windows[k].window == records[i]);
        days_compare_like_numbers(records[j].start_date, records[i].start_date);
        days_compare_like_numbers(records[i].start_date, records[j].end_date);
        i
    }
}

} // verus!
