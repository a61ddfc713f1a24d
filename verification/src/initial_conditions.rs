//! The initial state of a study: reservoir volumes, and windows of past and future
//! flows and deliveries.
//!
//! [`parse_initial_conditions`] checks the arrays of an input file and gives them
//! sorted by id and date, so that the order in which a file lists its entries does
//! not matter.

use vstd::prelude::*;

use crate::date;
use crate::date::Date;
use crate::entities::EntityId;
use crate::error;
use crate::error::{Finding, LoadError};
use crate::float::Float64;
use crate::sorting;
use crate::sorting::{HasKey, Key, Keyed};
use crate::text;
use crate::text::{Piece, PieceView};
use crate::validation;
use crate::windowed_history;
use crate::windowed_history::WindowedRecord;

verus! {

// ── What a file holds ────────────────────────────────────────────────────────

/// The volume of one reservoir, as a file gives it.
#[derive(Clone, Copy, Debug, PartialEq, Eq, Structural)]
pub struct RawHydroStorage {
    /// The hydro plant.
    pub hydro_id: i32,
    /// The volume, in hm³.
    pub value_hm3: Float64,
}

/// An inflow observed over a window, as a file gives it.
#[derive(Clone, Debug)]
pub struct RawRecentObservation {
    /// The hydro plant.
    pub hydro_id: i32,
    /// The first day, `YYYY-MM-DD`.
    pub start_date: String,
    /// The day after the last, `YYYY-MM-DD`.
    pub end_date: String,
    /// The mean inflow, in m³/s. Incremental inflows may be negative.
    pub value_m3s: Float64,
}

/// Power committed over a window, as a file gives it.
#[derive(Clone, Debug)]
pub struct RawAnticipatedCommitmentHistory {
    /// The thermal plant.
    pub thermal_id: i32,
    /// The first day, `YYYY-MM-DD`.
    pub start_date: String,
    /// The day after the last, `YYYY-MM-DD`.
    pub end_date: String,
    /// The power, in MW.
    pub value_mw: Float64,
}

/// A release over a window, as a file gives it.
#[derive(Clone, Debug)]
pub struct RawHydroPastDefluence {
    /// The upstream hydro plant.
    pub hydro_id: i32,
    /// The first day, `YYYY-MM-DD`.
    pub start_date: String,
    /// The day after the last, `YYYY-MM-DD`.
    pub end_date: String,
    /// The mean release, in m³/s.
    pub value_m3s: Float64,
}

/// A delivery after the study's horizon, as a file gives it.
#[derive(Clone, Debug)]
pub struct RawFutureAnticipatedDelivery {
    /// The thermal plant.
    pub thermal_id: i32,
    /// The first day, `YYYY-MM-DD`.
    pub delivery_start: String,
    /// The day after the last, `YYYY-MM-DD`.
    pub delivery_end: String,
    /// The least power, in MW.
    pub min_mw: Float64,
    /// The greatest power, in MW.
    pub max_mw: Float64,
}

/// An input file of initial conditions.
#[derive(Clone, Debug)]
pub struct RawInitialConditions {
    /// The volumes of reservoirs in operation.
    pub storage: Vec<RawHydroStorage>,
    /// The volumes of reservoirs that are being filled.
    pub filling_storage: Vec<RawHydroStorage>,
    /// Inflows observed before the study.
    pub recent_observations: Vec<RawRecentObservation>,
    /// Power committed before the study.
    pub past_anticipated_commitments: Vec<RawAnticipatedCommitmentHistory>,
    /// Releases before the study.
    pub past_defluences: Vec<RawHydroPastDefluence>,
    /// Deliveries after the study.
    pub future_anticipated_deliveries: Vec<RawFutureAnticipatedDelivery>,
}

// ── What a study takes from it ───────────────────────────────────────────────

/// The volume of one reservoir.
#[derive(Clone, Copy, Debug, PartialEq, Eq, Structural)]
pub struct HydroStorage {
    /// The hydro plant.
    pub hydro_id: EntityId,
    /// The volume, in hm³.
    pub value_hm3: Float64,
}

/// An inflow observed over a window.
#[derive(Clone, Copy, Debug, PartialEq, Eq, Structural)]
pub struct RecentObservation {
    /// The hydro plant.
    pub hydro_id: EntityId,
    /// The first day.
    pub start_date: Date,
    /// The day after the last.
    pub end_date: Date,
    /// The mean inflow, in m³/s.
    pub value_m3s: Float64,
}

/// Power committed over a window.
#[derive(Clone, Copy, Debug, PartialEq, Eq, Structural)]
pub struct AnticipatedCommitmentHistory {
    /// The thermal plant.
    pub thermal_id: EntityId,
    /// The first day.
    pub start_date: Date,
    /// The day after the last.
    pub end_date: Date,
    /// The power, in MW.
    pub value_mw: Float64,
}

/// A release over a window.
#[derive(Clone, Copy, Debug, PartialEq, Eq, Structural)]
pub struct HydroPastDefluence {
    /// The upstream hydro plant.
    pub hydro_id: EntityId,
    /// The first day.
    pub start_date: Date,
    /// The day after the last.
    pub end_date: Date,
    /// The mean release, in m³/s.
    pub value_m3s: Float64,
}

/// A delivery after the study's horizon.
#[derive(Clone, Copy, Debug, PartialEq, Eq, Structural)]
pub struct FutureAnticipatedDelivery {
    /// The thermal plant.
    pub thermal_id: EntityId,
    /// The first day.
    pub delivery_start: Date,
    /// The day after the last.
    pub delivery_end: Date,
    /// The least power, in MW.
    pub min_mw: Float64,
    /// The greatest power, in MW.
    pub max_mw: Float64,
}

/// The initial conditions of a study. Each list is sorted by id and date.
#[derive(Clone, Debug, PartialEq)]
pub struct InitialConditions {
    /// The volumes of reservoirs in operation.
    pub storage: Vec<HydroStorage>,
    /// The volumes of reservoirs that are being filled.
    pub filling_storage: Vec<HydroStorage>,
    /// Power committed before the study.
    pub past_anticipated_commitments: Vec<AnticipatedCommitmentHistory>,
    /// Inflows observed before the study.
    pub recent_observations: Vec<RecentObservation>,
    /// Releases before the study.
    pub past_defluences: Vec<HydroPastDefluence>,
    /// Deliveries after the study.
    pub future_anticipated_deliveries: Vec<FutureAnticipatedDelivery>,
}

impl HasKey for HydroStorage {
    open spec fn key(&self) -> Key {
        (self.hydro_id.0 as int, 0, 0)
    }
}

impl Keyed for HydroStorage {
    fn sort_key(&self) -> (r: (i64, i64, i64)) {
        (self.hydro_id.0 as i64, 0, 0)
    }
}

impl HasKey for RecentObservation {
    open spec fn key(&self) -> Key {
        (self.hydro_id.0 as int, self.start_date.number(), 0)
    }
}

impl Keyed for RecentObservation {
    fn sort_key(&self) -> (r: (i64, i64, i64)) {
        (self.hydro_id.0 as i64, self.start_date.order_number(), 0)
    }
}

impl HasKey for AnticipatedCommitmentHistory {
    open spec fn key(&self) -> Key {
        (self.thermal_id.0 as int, self.start_date.number(), 0)
    }
}

impl Keyed for AnticipatedCommitmentHistory {
    fn sort_key(&self) -> (r: (i64, i64, i64)) {
        (self.thermal_id.0 as i64, self.start_date.order_number(), 0)
    }
}

impl HasKey for HydroPastDefluence {
    open spec fn key(&self) -> Key {
        (self.hydro_id.0 as int, self.start_date.number(), 0)
    }
}

impl Keyed for HydroPastDefluence {
    fn sort_key(&self) -> (r: (i64, i64, i64)) {
        (self.hydro_id.0 as i64, self.start_date.order_number(), 0)
    }
}

impl HasKey for FutureAnticipatedDelivery {
    open spec fn key(&self) -> Key {
        (self.thermal_id.0 as int, self.delivery_start.number(), 0)
    }
}

impl Keyed for FutureAnticipatedDelivery {
    fn sort_key(&self) -> (r: (i64, i64, i64)) {
        (self.thermal_id.0 as i64, self.delivery_start.order_number(), 0)
    }
}

// ── Windows in a file ────────────────────────────────────────────────────────

/// A window as a file writes it.
#[verifier::ext_equal]
pub struct WindowText {
    /// The entity.
    pub entity_id: i32,
    /// The first day, as text.
    pub start: Seq<char>,
    /// The day after the last, as text.
    pub end: Seq<char>,
    /// The value.
    pub value: Float64,
}

/// An entry of a file that is a window.
pub trait RawWindow {
    /// The window.
    spec fn shown(&self) -> WindowText;

    /// The entity.
    fn entity(&self) -> (r: i32)
        ensures
            r == self.shown().entity_id,
    ;

    /// The first day, as text.
    fn start_text(&self) -> (r: &str)
        ensures
            r@ == self.shown().start,
    ;

    /// The day after the last, as text.
    fn end_text(&self) -> (r: &str)
        ensures
            r@ == self.shown().end,
    ;

    /// The value.
    fn amount(&self) -> (r: Float64)
        ensures
            r == self.shown().value,
    ;
}

impl RawWindow for RawRecentObservation {
    open spec fn shown(&self) -> WindowText {
        WindowText {
            entity_id: self.hydro_id,
            start: self.start_date@,
            end: self.end_date@,
            value: self.value_m3s,
        }
    }

    fn entity(&self) -> (r: i32) {
        self.hydro_id
    }

    fn start_text(&self) -> (r: &str) {
        self.start_date.as_str()
    }

    fn end_text(&self) -> (r: &str) {
        self.end_date.as_str()
    }

    fn amount(&self) -> (r: Float64) {
        self.value_m3s
    }
}

impl RawWindow for RawAnticipatedCommitmentHistory {
    open spec fn shown(&self) -> WindowText {
        WindowText {
            entity_id: self.thermal_id,
            start: self.start_date@,
            end: self.end_date@,
            value: self.value_mw,
        }
    }

    fn entity(&self) -> (r: i32) {
        self.thermal_id
    }

    fn start_text(&self) -> (r: &str) {
        self.start_date.as_str()
    }

    fn end_text(&self) -> (r: &str) {
        self.end_date.as_str()
    }

    fn amount(&self) -> (r: Float64) {
        self.value_mw
    }
}

impl RawWindow for RawHydroPastDefluence {
    open spec fn shown(&self) -> WindowText {
        WindowText {
            entity_id: self.hydro_id,
            start: self.start_date@,
            end: self.end_date@,
            value: self.value_m3s,
        }
    }

    fn entity(&self) -> (r: i32) {
        self.hydro_id
    }

    fn start_text(&self) -> (r: &str) {
        self.start_date.as_str()
    }

    fn end_text(&self) -> (r: &str) {
        self.end_date.as_str()
    }

    fn amount(&self) -> (r: Float64) {
        self.value_m3s
    }
}

/// The least power stands for the value of a delivery.
impl RawWindow for RawFutureAnticipatedDelivery {
    open spec fn shown(&self) -> WindowText {
        WindowText {
            entity_id: self.thermal_id,
            start: self.delivery_start@,
            end: self.delivery_end@,
            value: self.min_mw,
        }
    }

    fn entity(&self) -> (r: i32) {
        self.thermal_id
    }

    fn start_text(&self) -> (r: &str) {
        self.delivery_start.as_str()
    }

    fn end_text(&self) -> (r: &str) {
        self.delivery_end.as_str()
    }

    fn amount(&self) -> (r: Float64) {
        self.min_mw
    }
}

/// The windows of a list.
pub open spec fn shown_all<T: RawWindow>(entries: Seq<T>) -> Seq<WindowText> {
    entries.map_values(|e: T| e.shown())
}

/// A window with its dates read.
pub open spec fn window_of(w: WindowText) -> WindowedRecord {
    WindowedRecord {
        entity_id: w.entity_id,
        start_date: date::date_of(w.start)->0,
        end_date: date::date_of(w.end)->0,
        value: w.value,
    }
}

/// The windows with their dates read.
pub open spec fn windows_of(windows: Seq<WindowText>) -> Seq<WindowedRecord> {
    windows.map_values(|w: WindowText| window_of(w))
}

/// What is wrong with the dates of the window at position `i`.
pub open spec fn dates_finding(
    windows: Seq<WindowText>,
    array: Seq<char>,
    start: Seq<char>,
    end: Seq<char>,
    i: int,
) -> Option<Finding> {
    validation::either(
        windowed_history::iso_date_finding(text::element_path(array, i, start), windows[i].start),
        windowed_history::iso_date_finding(text::element_path(array, i, end), windows[i].end),
    )
}

/// What is wrong with the dates of each window.
pub open spec fn dates_check(
    windows: Seq<WindowText>,
    array: Seq<char>,
    start: Seq<char>,
    end: Seq<char>,
) -> spec_fn(int) -> Option<Finding> {
    |i: int| dates_finding(windows, array, start, end, i)
}

/// The dates of a window are dates.
pub open spec fn dated(w: WindowText) -> bool {
    date::date_of(w.start) is Some && date::date_of(w.end) is Some
}

/// Reads the dates of a list of windows.
fn parse_windows<T: RawWindow>(
    entries: &Vec<T>,
    array: &str,
    start: &str,
    end: &str,
    path: &str,
) -> (r: Result<Vec<WindowedRecord>, LoadError>)
    ensures
        error::reports(
            r,
            path@,
            validation::first(
                entries@.len() as int,
                dates_check(shown_all(entries@), array@, start@, end@),
            ),
        ),
        r matches Ok(windows) ==> windows@ == windows_of(shown_all(entries@)),
{
    let ghost shown = shown_all(entries@);
    let ghost check = dates_check(shown, array@, start@, end@);
    let mut windows: Vec<WindowedRecord> = Vec::new();
    for i in 0..entries.len()
        invariant
            shown == shown_all(entries@),
            check == dates_check(shown, array@, start@, end@),
            forall|j: int| 0 <= j < i ==> (#[trigger] check(j)) is None,
            windows@ == windows_of(shown).take(i as int),
    {
        let entry: &T = &entries[i];
        let first = windowed_history::parse_iso_date(
            text::element_path_text(array, i, start),
            entry.start_text(),
            path,
        );
        let start_date: Date = match first {
            Ok(date) => date,
            Err(e) => {
                proof {
                    validation::first_is_at(entries@.len() as int, check, i as int);
                }
                return Err(e);
            },
        };
        let second = windowed_history::parse_iso_date(
            text::element_path_text(array, i, end),
            entry.end_text(),
            path,
        );
        let end_date: Date = match second {
            Ok(date) => date,
            Err(e) => {
                proof {
                    validation::first_is_at(entries@.len() as int, check, i as int);
                }
                return Err(e);
            },
        };
        windows.push(
            WindowedRecord {
                entity_id: entry.entity(),
                start_date,
                end_date,
                value: entry.amount(),
            },
        );
        proof {
            assert(check(i as int) is None);
            assert(windows@ =~= windows_of(shown).take(i + 1));
        }
    }
    proof {
        validation::first_is_none(entries@.len() as int, check);
        assert(windows@ =~= windows_of(shown));
    }
    Ok(windows)
}

// ── Rules ────────────────────────────────────────────────────────────────────

/// What is wrong with a volume.
pub open spec fn volume_finding(entries: Seq<RawHydroStorage>, array: Seq<char>, i: int) -> Option<
    Finding,
> {
    if !validation::at_least_zero(entries[i].value_hm3) {
        Some(
            Finding {
                field: text::element_path(array, i, "value_hm3"@),
                message: seq![
                    text::text("value_hm3 must be >= 0.0, got "),
                    PieceView::Float(entries[i].value_hm3),
                ],
            },
        )
    } else {
        None
    }
}

/// What is wrong with each volume.
pub open spec fn volume_check(entries: Seq<RawHydroStorage>, array: Seq<char>) -> spec_fn(
    int,
) -> Option<Finding> {
    |i: int| volume_finding(entries, array, i)
}

/// Checks that no volume is negative.
fn validate_non_negative(entries: &Vec<RawHydroStorage>, array: &str, path: &str) -> (r: Result<
    (),
    LoadError,
>)
    ensures
        error::reports(
            r,
            path@,
            validation::first(entries@.len() as int, volume_check(entries@, array@)),
        ),
{
    let ghost check = volume_check(entries@, array@);
    for i in 0..entries.len()
        invariant
            check == volume_check(entries@, array@),
            forall|j: int| 0 <= j < i ==> (#[trigger] check(j)) is None,
    {
        let value: Float64 = entries[i].value_hm3;
        if !validation::is_at_least_zero(value) {
            let message: Vec<Piece> = vec![
                Piece::Text("value_hm3 must be >= 0.0, got "),
                Piece::Float(value),
            ];
            proof {
                assert(text::pieces(message@) =~= check(i as int)->0.message);
                validation::first_is_at(entries@.len() as int, check, i as int);
            }
            return Err(
                LoadError::schema(path, text::element_path_text(array, i, "value_hm3"), message),
            );
        }
        assert(check(i as int) is None);
    }
    proof {
        validation::first_is_none(entries@.len() as int, check);
    }
    Ok(())
}

/// The plants of a list of volumes.
pub open spec fn plants(entries: Seq<RawHydroStorage>) -> Seq<i32> {
    entries.map_values(|e: RawHydroStorage| e.hydro_id)
}

/// What is wrong with the plant of a volume: it is listed before.
pub open spec fn plant_finding(entries: Seq<RawHydroStorage>, array: Seq<char>, i: int) -> Option<
    Finding,
> {
    if validation::repeated(plants(entries), i) {
        Some(
            Finding {
                field: text::element_path(array, i, "hydro_id"@),
                message: seq![
                    text::text("duplicate hydro_id "),
                    PieceView::Int(entries[i].hydro_id as int),
                    text::text(" in "),
                    PieceView::Text(array),
                ],
            },
        )
    } else {
        None
    }
}

/// What is wrong with the plant of each volume.
pub open spec fn plant_check(entries: Seq<RawHydroStorage>, array: Seq<char>) -> spec_fn(
    int,
) -> Option<Finding> {
    |i: int| plant_finding(entries, array, i)
}

/// Checks that no plant is listed twice.
fn validate_no_duplicates(
    entries: &Vec<RawHydroStorage>,
    array: &'static str,
    path: &str,
) -> (r: Result<(), LoadError>)
    ensures
        error::reports(
            r,
            path@,
            validation::first(entries@.len() as int, plant_check(entries@, array@)),
        ),
{
    let ghost check = plant_check(entries@, array@);
    let ghost ids = plants(entries@);
    let mut keys: Vec<i128> = Vec::new();
    for i in 0..entries.len()
        invariant
            keys@.len() == i,
            forall|j: int| 0 <= j < i ==> #[trigger] keys@[j] == entries@[j].hydro_id,
    {
        keys.push(entries[i].hydro_id as i128);
    }
    proof {
        assert forall|i: int| 0 <= i < ids.len() implies #[trigger] validation::repeated(ids, i)
            == validation::repeated(keys@, i) by {
            if validation::repeated(ids, i) {
                let j = choose|j: int| 0 <= j < i && #[trigger] ids[j] == ids[i];
                assert(keys@[j] == keys@[i]);
            }
            if validation::repeated(keys@, i) {
                let j = choose|j: int| 0 <= j < i && #[trigger] keys@[j] == keys@[i];
                assert(ids[j] == ids[i]);
            }
        }
    }
    match validation::first_repeat(&keys) {
        Some(i) => {
            let message: Vec<Piece> = vec![
                Piece::Text("duplicate hydro_id "),
                Piece::Int(entries[i].hydro_id as i64),
                Piece::Text(" in "),
                Piece::Text(array),
            ];
            proof {
                assert(validation::repeated(ids, i as int));
                assert forall|j: int| 0 <= j < i implies (#[trigger] check(j)) is None by {
                    assert(!validation::repeated(keys@, j));
                    assert(!validation::repeated(ids, j));
                }
                assert(text::pieces(message@) =~= check(i as int)->0.message);
                validation::first_is_at(entries@.len() as int, check, i as int);
            }
            Err(LoadError::schema(path, text::element_path_text(array, i, "hydro_id"), message))
        },
        None => {
            proof {
                assert forall|j: int| 0 <= j < entries@.len() implies (
                #[trigger] check(j)) is None by {
                    assert(!validation::repeated(keys@, j));
                    assert(!validation::repeated(ids, j));
                }
                validation::first_is_none(entries@.len() as int, check);
            }
            Ok(())
        },
    }
}

/// What is wrong with the plant of a volume: it is in the other list too.
pub open spec fn exclusion_finding(
    storage: Seq<RawHydroStorage>,
    filling: Seq<RawHydroStorage>,
    i: int,
) -> Option<Finding> {
    if plants(storage).contains(filling[i].hydro_id) {
        Some(
            Finding {
                field: text::element_path("filling_storage"@, i, "hydro_id"@),
                message: seq![
                    text::text("hydro_id "),
                    PieceView::Int(filling[i].hydro_id as int),
                    text::text(
                        " appears in both storage and filling_storage; a hydro must appear in exactly one of the two arrays",
                    ),
                ],
            },
        )
    } else {
        None
    }
}

/// What is wrong with each plant that is being filled.
pub open spec fn exclusion_check(
    storage: Seq<RawHydroStorage>,
    filling: Seq<RawHydroStorage>,
) -> spec_fn(int) -> Option<Finding> {
    |i: int| exclusion_finding(storage, filling, i)
}

fn lists_plant(entries: &Vec<RawHydroStorage>, id: i32) -> (r: bool)
    ensures
        r == plants(entries@).contains(id),
{
    for i in 0..entries.len()
        invariant
            forall|j: int| 0 <= j < i ==> #[trigger] plants(entries@)[j] != id,
    {
        if entries[i].hydro_id == id {
            proof {
                assert(plants(entries@)[i as int] == id);
            }
            return true;
        }
    }
    false
}

/// Checks that no plant is both in operation and being filled.
fn validate_mutual_exclusion(
    storage: &Vec<RawHydroStorage>,
    filling: &Vec<RawHydroStorage>,
    path: &str,
) -> (r: Result<(), LoadError>)
    ensures
        error::reports(
            r,
            path@,
            validation::first(filling@.len() as int, exclusion_check(storage@, filling@)),
        ),
{
    let ghost check = exclusion_check(storage@, filling@);
    for i in 0..filling.len()
        invariant
            check == exclusion_check(storage@, filling@),
            forall|j: int| 0 <= j < i ==> (#[trigger] check(j)) is None,
    {
        let id: i32 = filling[i].hydro_id;
        if lists_plant(storage, id) {
            let message: Vec<Piece> = vec![
                Piece::Text("hydro_id "),
                Piece::Int(id as i64),
                Piece::Text(
                    " appears in both storage and filling_storage; a hydro must appear in exactly one of the two arrays",
                ),
            ];
            proof {
                assert(text::pieces(message@) =~= check(i as int)->0.message);
                validation::first_is_at(filling@.len() as int, check, i as int);
            }
            return Err(
                LoadError::schema(
                    path,
                    text::element_path_text("filling_storage", i, "hydro_id"),
                    message,
                ),
            );
        }
        assert(check(i as int) is None);
    }
    proof {
        validation::first_is_none(filling@.len() as int, check);
    }
    Ok(())
}

/// The entity and the start of each window.
pub open spec fn starts(windows: Seq<WindowedRecord>) -> Seq<(int, int)> {
    windows.map_values(|w: WindowedRecord| (w.entity_id as int, w.start_date.number()))
}

/// What is wrong with the start of a window: an earlier one of the same plant has
/// it.
pub open spec fn start_finding(
    windows: Seq<WindowedRecord>,
    array: Seq<char>,
    start: Seq<char>,
    i: int,
) -> Option<Finding> {
    if validation::repeated(starts(windows), i) {
        Some(
            Finding {
                field: text::element_path(array, i, start),
                message: seq![
                    text::text("duplicate (thermal_id "),
                    PieceView::Int(windows[i].entity_id as int),
                    text::text(", "),
                    PieceView::Text(start),
                    text::text(" "),
                    PieceView::Day(windows[i].start_date),
                    text::text(") in "),
                    PieceView::Text(array),
                ],
            },
        )
    } else {
        None
    }
}

/// What is wrong with the start of each window.
pub open spec fn start_check(
    windows: Seq<WindowedRecord>,
    array: Seq<char>,
    start: Seq<char>,
) -> spec_fn(int) -> Option<Finding> {
    |i: int| start_finding(windows, array, start, i)
}

/// Checks that no two windows of a plant start on the same day.
fn validate_no_duplicate_starts(
    windows: &Vec<WindowedRecord>,
    array: &'static str,
    start: &'static str,
    path: &str,
) -> (r: Result<(), LoadError>)
    ensures
        error::reports(
            r,
            path@,
            validation::first(windows@.len() as int, start_check(windows@, array@, start@)),
        ),
{
    let ghost check = start_check(windows@, array@, start@);
    let ghost pairs = starts(windows@);
    let mut keys: Vec<i128> = Vec::new();
    for i in 0..windows.len()
        invariant
            keys@.len() == i,
            forall|j: int|
                0 <= j < i ==> #[trigger] keys@[j] == windows@[j].entity_id * 0x1_0000_0000_0000_0000
                    + windows@[j].start_date.number(),
    {
        let number: i64 = windows[i].start_date.order_number();
        keys.push(windows[i].entity_id as i128 * 0x1_0000_0000_0000_0000 + number as i128);
    }
    proof {
        assert forall|i: int, j: int|
            0 <= i < pairs.len() && 0 <= j < pairs.len() implies (#[trigger] pairs[i]
            == #[trigger] pairs[j]) == (keys@[i] == keys@[j]) by {
            numbers_are_small(windows@[i].start_date);
            numbers_are_small(windows@[j].start_date);
        }
        assert forall|i: int| 0 <= i < pairs.len() implies #[trigger] validation::repeated(pairs, i)
            == validation::repeated(keys@, i) by {
            if validation::repeated(pairs, i) {
                let j = choose|j: int| 0 <= j < i && #[trigger] pairs[j] == pairs[i];
                assert(keys@[j] == keys@[i]);
            }
            if validation::repeated(keys@, i) {
                let j = choose|j: int| 0 <= j < i && #[trigger] keys@[j] == keys@[i];
                assert(pairs[j] == pairs[i]);
            }
        }
    }
    match validation::first_repeat(&keys) {
        Some(i) => {
            let message: Vec<Piece> = vec![
                Piece::Text("duplicate (thermal_id "),
                Piece::Int(windows[i].entity_id as i64),
                Piece::Text(", "),
                Piece::Text(start),
                Piece::Text(" "),
                Piece::Day(windows[i].start_date),
                Piece::Text(") in "),
                Piece::Text(array),
            ];
            proof {
                assert(validation::repeated(pairs, i as int));
                assert forall|j: int| 0 <= j < i implies (#[trigger] check(j)) is None by {
                    assert(!validation::repeated(keys@, j));
                    assert(!validation::repeated(pairs, j));
                }
                assert(text::pieces(message@) =~= check(i as int)->0.message);
                validation::first_is_at(windows@.len() as int, check, i as int);
            }
            Err(LoadError::schema(path, text::element_path_text(array, i, start), message))
        },
        None => {
            proof {
                assert forall|j: int| 0 <= j < windows@.len() implies (
                #[trigger] check(j)) is None by {
                    assert(!validation::repeated(keys@, j));
                    assert(!validation::repeated(pairs, j));
                }
                validation::first_is_none(windows@.len() as int, check);
            }
            Ok(())
        },
    }
}

proof fn numbers_are_small(date: Date)
    ensures
        -0x7fff_ffff_ffff_ffff <= date.number() <= 0x7fff_ffff_ffff_ffff,
{
}

/// What is wrong with a release: it is negative.
pub open spec fn release_finding(windows: Seq<WindowText>, i: int) -> Option<Finding> {
    if windows[i].value.below(validation::zero()) {
        Some(
            Finding {
                field: text::element_path("past_defluences"@, i, "value_m3s"@),
                message: seq![
                    text::text("past_defluences["),
                    PieceView::Int(i),
                    text::text("].value_m3s must be >= 0.0, got "),
                    PieceView::Float(windows[i].value),
                ],
            },
        )
    } else {
        None
    }
}

/// What is wrong with each release.
pub open spec fn release_check(windows: Seq<WindowText>) -> spec_fn(int) -> Option<Finding> {
    |i: int| release_finding(windows, i)
}

/// Checks that no release is negative.
fn validate_past_defluences_non_negative(
    entries: &Vec<RawHydroPastDefluence>,
    path: &str,
) -> (r: Result<(), LoadError>)
    ensures
        error::reports(
            r,
            path@,
            validation::first(entries@.len() as int, release_check(shown_all(entries@))),
        ),
{
    let ghost check = release_check(shown_all(entries@));
    for i in 0..entries.len()
        invariant
            check == release_check(shown_all(entries@)),
            forall|j: int| 0 <= j < i ==> (#[trigger] check(j)) is None,
    {
        let value: Float64 = entries[i].value_m3s;
        if value.less_than(Float64 { bits: 0 }) {
            let message: Vec<Piece> = vec![
                Piece::Text("past_defluences["),
                Piece::Count(i),
                Piece::Text("].value_m3s must be >= 0.0, got "),
                Piece::Float(value),
            ];
            proof {
                assert(text::pieces(message@) =~= check(i as int)->0.message);
                validation::first_is_at(entries@.len() as int, check, i as int);
            }
            return Err(
                LoadError::schema(
                    path,
                    text::element_path_text("past_defluences", i, "value_m3s"),
                    message,
                ),
            );
        }
        assert(check(i as int) is None);
    }
    proof {
        validation::first_is_none(entries@.len() as int, check);
    }
    Ok(())
}

/// What is wrong with the bounds of a delivery.
pub open spec fn bounds_finding(
    windows: Seq<WindowText>,
    greatest: Seq<Float64>,
    i: int,
) -> Option<Finding> {
    let field = text::element_path("future_anticipated_deliveries"@, i, "max_mw"@);
    if !greatest[i].finite() {
        Some(
            Finding {
                field,
                message: seq![
                    text::text("future_anticipated_deliveries["),
                    PieceView::Int(i),
                    text::text("].max_mw must be a finite number, got "),
                    PieceView::Float(greatest[i]),
                ],
            },
        )
    } else if greatest[i].below(windows[i].value) {
        Some(
            Finding {
                field,
                message: seq![
                    text::text("future_anticipated_deliveries["),
                    PieceView::Int(i),
                    text::text("]: max_mw ("),
                    PieceView::Float(greatest[i]),
                    text::text(") must be >= min_mw ("),
                    PieceView::Float(windows[i].value),
                    text::text(") for thermal_id "),
                    PieceView::Int(windows[i].entity_id as int),
                    text::text(", delivery_start "),
                    PieceView::Text(windows[i].start),
                ],
            },
        )
    } else {
        None
    }
}

/// What is wrong with the bounds of each delivery.
pub open spec fn bounds_check(windows: Seq<WindowText>, greatest: Seq<Float64>) -> spec_fn(
    int,
) -> Option<Finding> {
    |i: int| bounds_finding(windows, greatest, i)
}

/// The greatest power of each delivery.
pub open spec fn greatest_of(entries: Seq<RawFutureAnticipatedDelivery>) -> Seq<Float64> {
    entries.map_values(|e: RawFutureAnticipatedDelivery| e.max_mw)
}

/// Checks the bounds of the deliveries.
fn validate_future_delivery_bounds(
    entries: &Vec<RawFutureAnticipatedDelivery>,
    path: &str,
) -> (r: Result<(), LoadError>)
    ensures
        error::reports(
            r,
            path@,
            validation::first(
                entries@.len() as int,
                bounds_check(shown_all(entries@), greatest_of(entries@)),
            ),
        ),
{
    let ghost check = bounds_check(shown_all(entries@), greatest_of(entries@));
    for i in 0..entries.len()
        invariant
            check == bounds_check(shown_all(entries@), greatest_of(entries@)),
            forall|j: int| 0 <= j < i ==> (#[trigger] check(j)) is None,
    {
        let entry: &RawFutureAnticipatedDelivery = &entries[i];
        if !entry.max_mw.is_finite() {
            let message: Vec<Piece> = vec![
                Piece::Text("future_anticipated_deliveries["),
                Piece::Count(i),
                Piece::Text("].max_mw must be a finite number, got "),
                Piece::Float(entry.max_mw),
            ];
            proof {
                assert(text::pieces(message@) =~= check(i as int)->0.message);
                validation::first_is_at(entries@.len() as int, check, i as int);
            }
            return Err(
                LoadError::schema(
                    path,
                    text::element_path_text("future_anticipated_deliveries", i, "max_mw"),
                    message,
                ),
            );
        }
        if entry.max_mw.less_than(entry.min_mw) {
            let message: Vec<Piece> = vec![
                Piece::Text("future_anticipated_deliveries["),
                Piece::Count(i),
                Piece::Text("]: max_mw ("),
                Piece::Float(entry.max_mw),
                Piece::Text(") must be >= min_mw ("),
                Piece::Float(entry.min_mw),
                Piece::Text(") for thermal_id "),
                Piece::Int(entry.thermal_id as i64),
                Piece::Text(", delivery_start "),
                Piece::Name(entry.delivery_start.clone()),
            ];
            proof {
                assert(text::pieces(message@) =~= check(i as int)->0.message);
                validation::first_is_at(entries@.len() as int, check, i as int);
            }
            return Err(
                LoadError::schema(
                    path,
                    text::element_path_text("future_anticipated_deliveries", i, "max_mw"),
                    message,
                ),
            );
        }
        assert(check(i as int) is None);
    }
    proof {
        validation::first_is_none(entries@.len() as int, check);
    }
    Ok(())
}

// ── A whole file ─────────────────────────────────────────────────────────────

/// A delivery as a file writes it.
#[verifier::ext_equal]
pub struct DeliveryText {
    /// The window, with the least power.
    pub window: WindowText,
    /// The greatest power.
    pub max_mw: Float64,
}

/// What an input file holds.
#[verifier::ext_equal]
pub struct RawView {
    /// The volumes of reservoirs in operation.
    pub storage: Seq<RawHydroStorage>,
    /// The volumes of reservoirs that are being filled.
    pub filling_storage: Seq<RawHydroStorage>,
    /// Inflows observed before the study.
    pub recent_observations: Seq<WindowText>,
    /// Power committed before the study.
    pub past_anticipated_commitments: Seq<WindowText>,
    /// Releases before the study.
    pub past_defluences: Seq<WindowText>,
    /// Deliveries after the study.
    pub future_anticipated_deliveries: Seq<DeliveryText>,
}

impl View for RawFutureAnticipatedDelivery {
    type V = DeliveryText;

    open spec fn view(&self) -> DeliveryText {
        DeliveryText { window: self.shown(), max_mw: self.max_mw }
    }
}

impl View for RawInitialConditions {
    type V = RawView;

    open spec fn view(&self) -> RawView {
        RawView {
            storage: self.storage@,
            filling_storage: self.filling_storage@,
            recent_observations: shown_all(self.recent_observations@),
            past_anticipated_commitments: shown_all(self.past_anticipated_commitments@),
            past_defluences: shown_all(self.past_defluences@),
            future_anticipated_deliveries: self.future_anticipated_deliveries@.map_values(
                |e: RawFutureAnticipatedDelivery| e@,
            ),
        }
    }
}

/// The windows of deliveries.
pub open spec fn delivery_windows(deliveries: Seq<DeliveryText>) -> Seq<WindowText> {
    deliveries.map_values(|d: DeliveryText| d.window)
}

/// The greatest power of each delivery.
pub open spec fn delivery_maxima(deliveries: Seq<DeliveryText>) -> Seq<Float64> {
    deliveries.map_values(|d: DeliveryText| d.max_mw)
}

/// What is wrong with the volumes.
pub open spec fn storage_finding(raw: RawView) -> Option<Finding> {
    let storage = raw.storage;
    let filling = raw.filling_storage;
    let m = storage.len() as int;
    let n = filling.len() as int;
    validation::either(
        validation::first(m, volume_check(storage, "storage"@)),
        validation::either(
            validation::first(n, volume_check(filling, "filling_storage"@)),
            validation::either(
                validation::first(m, plant_check(storage, "storage"@)),
                validation::either(
                    validation::first(n, plant_check(filling, "filling_storage"@)),
                    validation::first(n, exclusion_check(storage, filling)),
                ),
            ),
        ),
    )
}

/// What is wrong with the observations.
pub open spec fn observations_finding(raw: RawView) -> Option<Finding> {
    let windows = raw.recent_observations;
    let array = "recent_observations"@;
    validation::either(
        validation::first(
            windows.len() as int,
            dates_check(windows, array, "start_date"@, "end_date"@),
        ),
        windowed_history::windows_finding(windows_of(windows), array, "hydro_id"@, "value_m3s"@),
    )
}

/// What is wrong with the commitments.
pub open spec fn commitments_finding(raw: RawView) -> Option<Finding> {
    let windows = raw.past_anticipated_commitments;
    let array = "past_anticipated_commitments"@;
    validation::either(
        validation::first(
            windows.len() as int,
            dates_check(windows, array, "start_date"@, "end_date"@),
        ),
        validation::either(
            validation::first(
                windows.len() as int,
                start_check(windows_of(windows), array, "start_date"@),
            ),
            windowed_history::windows_finding(
                windows_of(windows),
                array,
                "thermal_id"@,
                "value_mw"@,
            ),
        ),
    )
}

/// What is wrong with the releases.
pub open spec fn releases_finding(raw: RawView) -> Option<Finding> {
    let windows = raw.past_defluences;
    let array = "past_defluences"@;
    validation::either(
        validation::first(
            windows.len() as int,
            dates_check(windows, array, "start_date"@, "end_date"@),
        ),
        validation::either(
            windowed_history::windows_finding(
                windows_of(windows),
                array,
                "hydro_id"@,
                "value_m3s"@,
            ),
            validation::first(windows.len() as int, release_check(windows)),
        ),
    )
}

/// What is wrong with the deliveries.
pub open spec fn deliveries_finding(raw: RawView) -> Option<Finding> {
    let windows = delivery_windows(raw.future_anticipated_deliveries);
    let maxima = delivery_maxima(raw.future_anticipated_deliveries);
    let array = "future_anticipated_deliveries"@;
    validation::either(
        validation::first(
            windows.len() as int,
            dates_check(windows, array, "delivery_start"@, "delivery_end"@),
        ),
        validation::either(
            validation::first(
                windows.len() as int,
                start_check(windows_of(windows), array, "delivery_start"@),
            ),
            validation::either(
                windowed_history::windows_finding(
                    windows_of(windows),
                    array,
                    "thermal_id"@,
                    "min_mw"@,
                ),
                validation::first(windows.len() as int, bounds_check(windows, maxima)),
            ),
        ),
    )
}

/// What is wrong with a file.
pub open spec fn raw_finding(raw: RawView) -> Option<Finding> {
    validation::either(
        storage_finding(raw),
        validation::either(
            observations_finding(raw),
            validation::either(
                commitments_finding(raw),
                validation::either(releases_finding(raw), deliveries_finding(raw)),
            ),
        ),
    )
}

/// The windows of a file, with their dates read.
#[derive(Clone, Debug)]
pub struct ParsedWindows {
    /// Those of the recent observations.
    pub observations: Vec<WindowedRecord>,
    /// Those of the past anticipated commitments.
    pub commitments: Vec<WindowedRecord>,
    /// Those of the past defluences.
    pub releases: Vec<WindowedRecord>,
    /// Those of the future anticipated deliveries.
    pub deliveries: Vec<WindowedRecord>,
}

impl ParsedWindows {
    /// They are the windows of a file, in its order.
    pub open spec fn belong_to(self, raw: RawView) -> bool {
        &&& self.observations@ == windows_of(raw.recent_observations)
        &&& self.commitments@ == windows_of(raw.past_anticipated_commitments)
        &&& self.releases@ == windows_of(raw.past_defluences)
        &&& self.deliveries@ == windows_of(delivery_windows(raw.future_anticipated_deliveries))
    }
}

fn validate_storage(raw: &RawInitialConditions, path: &str) -> (r: Result<(), LoadError>)
    ensures
        error::reports(r, path@, storage_finding(raw@)),
{
    match validate_non_negative(&raw.storage, "storage", path) {
        Ok(_) => {},
        Err(e) => return Err(e),
    }
    match validate_non_negative(&raw.filling_storage, "filling_storage", path) {
        Ok(_) => {},
        Err(e) => return Err(e),
    }
    match validate_no_duplicates(&raw.storage, "storage", path) {
        Ok(_) => {},
        Err(e) => return Err(e),
    }
    match validate_no_duplicates(&raw.filling_storage, "filling_storage", path) {
        Ok(_) => {},
        Err(e) => return Err(e),
    }
    validate_mutual_exclusion(&raw.storage, &raw.filling_storage, path)
}

fn validate_observations(raw: &RawInitialConditions, path: &str) -> (r: Result<
    Vec<WindowedRecord>,
    LoadError,
>)
    ensures
        error::reports(r, path@, observations_finding(raw@)),
        r matches Ok(windows) ==> windows@ == windows_of(raw@.recent_observations),
{
    let parsed = parse_windows(
        &raw.recent_observations,
        "recent_observations",
        "start_date",
        "end_date",
        path,
    );
    let windows: Vec<WindowedRecord> = match parsed {
        Ok(windows) => windows,
        Err(e) => return Err(e),
    };
    let checked = windowed_history::validate_windowed_records(
        &windows,
        "recent_observations",
        "hydro_id",
        "value_m3s",
        path,
    );
    match checked {
        Ok(_) => Ok(windows),
        Err(e) => Err(e),
    }
}

fn validate_commitments(raw: &RawInitialConditions, path: &str) -> (r: Result<
    Vec<WindowedRecord>,
    LoadError,
>)
    ensures
        error::reports(r, path@, commitments_finding(raw@)),
        r matches Ok(windows) ==> windows@ == windows_of(raw@.past_anticipated_commitments),
{
    let parsed = parse_windows(
        &raw.past_anticipated_commitments,
        "past_anticipated_commitments",
        "start_date",
        "end_date",
        path,
    );
    let windows: Vec<WindowedRecord> = match parsed {
        Ok(windows) => windows,
        Err(e) => return Err(e),
    };
    let distinct = validate_no_duplicate_starts(
        &windows,
        "past_anticipated_commitments",
        "start_date",
        path,
    );
    match distinct {
        Ok(_) => {},
        Err(e) => return Err(e),
    }
    let checked = windowed_history::validate_windowed_records(
        &windows,
        "past_anticipated_commitments",
        "thermal_id",
        "value_mw",
        path,
    );
    match checked {
        Ok(_) => Ok(windows),
        Err(e) => Err(e),
    }
}

fn validate_releases(raw: &RawInitialConditions, path: &str) -> (r: Result<
    Vec<WindowedRecord>,
    LoadError,
>)
    ensures
        error::reports(r, path@, releases_finding(raw@)),
        r matches Ok(windows) ==> windows@ == windows_of(raw@.past_defluences),
{
    let parsed = parse_windows(
        &raw.past_defluences,
        "past_defluences",
        "start_date",
        "end_date",
        path,
    );
    let windows: Vec<WindowedRecord> = match parsed {
        Ok(windows) => windows,
        Err(e) => return Err(e),
    };
    let checked = windowed_history::validate_windowed_records(
        &windows,
        "past_defluences",
        "hydro_id",
        "value_m3s",
        path,
    );
    match checked {
        Ok(_) => {},
        Err(e) => return Err(e),
    }
    match validate_past_defluences_non_negative(&raw.past_defluences, path) {
        Ok(_) => Ok(windows),
        Err(e) => Err(e),
    }
}

fn validate_deliveries(raw: &RawInitialConditions, path: &str) -> (r: Result<
    Vec<WindowedRecord>,
    LoadError,
>)
    ensures
        error::reports(r, path@, deliveries_finding(raw@)),
        r matches Ok(windows) ==> windows@ == windows_of(
            delivery_windows(raw@.future_anticipated_deliveries),
        ),
{
    proof {
        assert(shown_all(raw.future_anticipated_deliveries@) =~= delivery_windows(
            raw@.future_anticipated_deliveries,
        ));
        assert(greatest_of(raw.future_anticipated_deliveries@) =~= delivery_maxima(
            raw@.future_anticipated_deliveries,
        ));
    }
    let parsed = parse_windows(
        &raw.future_anticipated_deliveries,
        "future_anticipated_deliveries",
        "delivery_start",
        "delivery_end",
        path,
    );
    let windows: Vec<WindowedRecord> = match parsed {
        Ok(windows) => windows,
        Err(e) => return Err(e),
    };
    let distinct = validate_no_duplicate_starts(
        &windows,
        "future_anticipated_deliveries",
        "delivery_start",
        path,
    );
    match distinct {
        Ok(_) => {},
        Err(e) => return Err(e),
    }
    let checked = windowed_history::validate_windowed_records(
        &windows,
        "future_anticipated_deliveries",
        "thermal_id",
        "min_mw",
        path,
    );
    match checked {
        Ok(_) => {},
        Err(e) => return Err(e),
    }
    match validate_future_delivery_bounds(&raw.future_anticipated_deliveries, path) {
        Ok(_) => Ok(windows),
        Err(e) => Err(e),
    }
}

/// Checks a file, and gives its windows with their dates read.
pub fn validate_raw(raw: &RawInitialConditions, path: &str) -> (r: Result<ParsedWindows, LoadError>)
    ensures
        error::reports(r, path@, raw_finding(raw@)),
        r matches Ok(windows) ==> windows.belong_to(raw@),
{
    match validate_storage(raw, path) {
        Ok(_) => {},
        Err(e) => return Err(e),
    }
    let observations: Vec<WindowedRecord> = match validate_observations(raw, path) {
        Ok(windows) => windows,
        Err(e) => return Err(e),
    };
    let commitments: Vec<WindowedRecord> = match validate_commitments(raw, path) {
        Ok(windows) => windows,
        Err(e) => return Err(e),
    };
    let releases: Vec<WindowedRecord> = match validate_releases(raw, path) {
        Ok(windows) => windows,
        Err(e) => return Err(e),
    };
    let deliveries: Vec<WindowedRecord> = match validate_deliveries(raw, path) {
        Ok(windows) => windows,
        Err(e) => return Err(e),
    };
    Ok(ParsedWindows { observations, commitments, releases, deliveries })
}

// ── Conversion ───────────────────────────────────────────────────────────────

/// A volume with its plant's id.
pub open spec fn storage_of(e: RawHydroStorage) -> HydroStorage {
    HydroStorage { hydro_id: EntityId(e.hydro_id), value_hm3: e.value_hm3 }
}

/// An observation from its window.
pub open spec fn observation_of(w: WindowedRecord) -> RecentObservation {
    RecentObservation {
        hydro_id: EntityId(w.entity_id),
        start_date: w.start_date,
        end_date: w.end_date,
        value_m3s: w.value,
    }
}

/// A commitment from its window.
pub open spec fn commitment_of(w: WindowedRecord) -> AnticipatedCommitmentHistory {
    AnticipatedCommitmentHistory {
        thermal_id: EntityId(w.entity_id),
        start_date: w.start_date,
        end_date: w.end_date,
        value_mw: w.value,
    }
}

/// A release from its window.
pub open spec fn release_of(w: WindowedRecord) -> HydroPastDefluence {
    HydroPastDefluence {
        hydro_id: EntityId(w.entity_id),
        start_date: w.start_date,
        end_date: w.end_date,
        value_m3s: w.value,
    }
}

/// A delivery from its window.
pub open spec fn delivery_of(d: DeliveryText) -> FutureAnticipatedDelivery {
    let w = window_of(d.window);
    FutureAnticipatedDelivery {
        thermal_id: EntityId(w.entity_id),
        delivery_start: w.start_date,
        delivery_end: w.end_date,
        min_mw: w.value,
        max_mw: d.max_mw,
    }
}

/// The volumes of a list.
pub open spec fn storages_of(entries: Seq<RawHydroStorage>) -> Seq<HydroStorage> {
    entries.map_values(|e: RawHydroStorage| storage_of(e))
}

/// The observations of a list.
pub open spec fn observations_of(windows: Seq<WindowText>) -> Seq<RecentObservation> {
    windows.map_values(|w: WindowText| observation_of(window_of(w)))
}

/// The commitments of a list.
pub open spec fn commitments_of(windows: Seq<WindowText>) -> Seq<AnticipatedCommitmentHistory> {
    windows.map_values(|w: WindowText| commitment_of(window_of(w)))
}

/// The releases of a list.
pub open spec fn releases_of(windows: Seq<WindowText>) -> Seq<HydroPastDefluence> {
    windows.map_values(|w: WindowText| release_of(window_of(w)))
}

/// The deliveries of a list.
pub open spec fn deliveries_of(deliveries: Seq<DeliveryText>) -> Seq<FutureAnticipatedDelivery> {
    deliveries.map_values(|d: DeliveryText| delivery_of(d))
}

/// The initial conditions are those of a file, each list sorted by id and date.
pub open spec fn come_from(ic: InitialConditions, raw: RawView) -> bool {
    &&& ic.storage@ == sorting::sorted(storages_of(raw.storage))
    &&& ic.filling_storage@ == sorting::sorted(storages_of(raw.filling_storage))
    &&& ic.past_anticipated_commitments@ == sorting::sorted(
        commitments_of(raw.past_anticipated_commitments),
    )
    &&& ic.recent_observations@ == sorting::sorted(observations_of(raw.recent_observations))
    &&& ic.past_defluences@ == sorting::sorted(releases_of(raw.past_defluences))
    &&& ic.future_anticipated_deliveries@ == sorting::sorted(
        deliveries_of(raw.future_anticipated_deliveries),
    )
}

fn convert_storage(entries: &Vec<RawHydroStorage>) -> (r: Vec<HydroStorage>)
    ensures
        r@ == sorting::sorted(storages_of(entries@)),
{
    let mut r: Vec<HydroStorage> = Vec::new();
    for i in 0..entries.len()
        invariant
            r@ == storages_of(entries@).take(i as int),
    {
        let e: RawHydroStorage = entries[i];
        r.push(HydroStorage { hydro_id: EntityId(e.hydro_id), value_hm3: e.value_hm3 });
        proof {
            assert(r@ =~= storages_of(entries@).take(i + 1));
        }
    }
    proof {
        assert(r@ =~= storages_of(entries@));
    }
    sorting::sort_by_key(r)
}

fn convert_observations(windows: &Vec<WindowedRecord>, Ghost(shown): Ghost<Seq<WindowText>>) -> (r:
    Vec<RecentObservation>)
    requires
        windows@ == windows_of(shown),
    ensures
        r@ == sorting::sorted(observations_of(shown)),
{
    let mut r: Vec<RecentObservation> = Vec::new();
    for i in 0..windows.len()
        invariant
            windows@ == windows_of(shown),
            r@ == observations_of(shown).take(i as int),
    {
        let w: WindowedRecord = windows[i];
        r.push(
            RecentObservation {
                hydro_id: EntityId(w.entity_id),
                start_date: w.start_date,
                end_date: w.end_date,
                value_m3s: w.value,
            },
        );
        proof {
            assert(r@ =~= observations_of(shown).take(i + 1));
        }
    }
    proof {
        assert(r@ =~= observations_of(shown));
    }
    sorting::sort_by_key(r)
}

fn convert_commitments(windows: &Vec<WindowedRecord>, Ghost(shown): Ghost<Seq<WindowText>>) -> (r:
    Vec<AnticipatedCommitmentHistory>)
    requires
        windows@ == windows_of(shown),
    ensures
        r@ == sorting::sorted(commitments_of(shown)),
{
    let mut r: Vec<AnticipatedCommitmentHistory> = Vec::new();
    for i in 0..windows.len()
        invariant
            windows@ == windows_of(shown),
            r@ == commitments_of(shown).take(i as int),
    {
        let w: WindowedRecord = windows[i];
        r.push(
            AnticipatedCommitmentHistory {
                thermal_id: EntityId(w.entity_id),
                start_date: w.start_date,
                end_date: w.end_date,
                value_mw: w.value,
            },
        );
        proof {
            assert(r@ =~= commitments_of(shown).take(i + 1));
        }
    }
    proof {
        assert(r@ =~= commitments_of(shown));
    }
    sorting::sort_by_key(r)
}

fn convert_releases(windows: &Vec<WindowedRecord>, Ghost(shown): Ghost<Seq<WindowText>>) -> (r: Vec<
    HydroPastDefluence,
>)
    requires
        windows@ == windows_of(shown),
    ensures
        r@ == sorting::sorted(releases_of(shown)),
{
    let mut r: Vec<HydroPastDefluence> = Vec::new();
    for i in 0..windows.len()
        invariant
            windows@ == windows_of(shown),
            r@ == releases_of(shown).take(i as int),
    {
        let w: WindowedRecord = windows[i];
        r.push(
            HydroPastDefluence {
                hydro_id: EntityId(w.entity_id),
                start_date: w.start_date,
                end_date: w.end_date,
                value_m3s: w.value,
            },
        );
        proof {
            assert(r@ =~= releases_of(shown).take(i + 1));
        }
    }
    proof {
        assert(r@ =~= releases_of(shown));
    }
    sorting::sort_by_key(r)
}

fn convert_deliveries(
    entries: &Vec<RawFutureAnticipatedDelivery>,
    windows: &Vec<WindowedRecord>,
    Ghost(shown): Ghost<Seq<DeliveryText>>,
) -> (r: Vec<FutureAnticipatedDelivery>)
    requires
        shown == entries@.map_values(|e: RawFutureAnticipatedDelivery| e@),
        windows@ == windows_of(delivery_windows(shown)),
    ensures
        r@ == sorting::sorted(deliveries_of(shown)),
{
    let mut r: Vec<FutureAnticipatedDelivery> = Vec::new();
    for i in 0..entries.len()
        invariant
            shown == entries@.map_values(|e: RawFutureAnticipatedDelivery| e@),
            windows@ == windows_of(delivery_windows(shown)),
            r@ == deliveries_of(shown).take(i as int),
    {
        let w: WindowedRecord = windows[i];
        r.push(
            FutureAnticipatedDelivery {
                thermal_id: EntityId(w.entity_id),
                delivery_start: w.start_date,
                delivery_end: w.end_date,
                min_mw: w.value,
                max_mw: entries[i].max_mw,
            },
        );
        proof {
            assert(r@ =~= deliveries_of(shown).take(i + 1));
        }
    }
    proof {
        assert(r@ =~= deliveries_of(shown));
    }
    sorting::sort_by_key(r)
}

/// The initial conditions of a checked file.
pub fn convert(raw: &RawInitialConditions, windows: &ParsedWindows) -> (r: InitialConditions)
    requires
        windows.belong_to(raw@),
    ensures
        come_from(r, raw@),
{
    InitialConditions {
        storage: convert_storage(&raw.storage),
        filling_storage: convert_storage(&raw.filling_storage),
        past_anticipated_commitments: convert_commitments(
            &windows.commitments,
            Ghost(raw@.past_anticipated_commitments),
        ),
        recent_observations: convert_observations(
            &windows.observations,
            Ghost(raw@.recent_observations),
        ),
        past_defluences: convert_releases(&windows.releases, Ghost(raw@.past_defluences)),
        future_anticipated_deliveries: convert_deliveries(
            &raw.future_anticipated_deliveries,
            &windows.deliveries,
            Ghost(raw@.future_anticipated_deliveries),
        ),
    }
}

/// Checks an input file and gives the initial conditions in it.
pub fn parse_initial_conditions(raw: &RawInitialConditions, path: &str) -> (r: Result<
    InitialConditions,
    LoadError,
>)
    ensures
        error::reports(r, path@, raw_finding(raw@)),
        r matches Ok(ic) ==> come_from(ic, raw@),
{
    match validate_raw(raw, path) {
        Ok(windows) => Ok(convert(raw, &windows)),
        Err(e) => Err(e),
    }
}

// ── What is accepted ─────────────────────────────────────────────────────────

/// Each volume is at least zero and no plant occurs twice.
pub open spec fn good_volumes(entries: Seq<RawHydroStorage>) -> bool {
    &&& forall|i: int|
        0 <= i < entries.len() ==> validation::at_least_zero((#[trigger] entries[i]).value_hm3)
    &&& plants(entries).no_duplicates()
}

/// Each window has dates, ends after it starts and has a finite value, and no two of
/// one entity share a day.
pub open spec fn good_windows(windows: Seq<WindowText>) -> bool {
    &&& forall|i: int| 0 <= i < windows.len() ==> dated(#[trigger] windows[i])
    &&& forall|i: int|
        0 <= i < windows.len() ==> windowed_history::proper(window_of(#[trigger] windows[i]))
            && windows[i].value.finite()
    &&& forall|i: int, j: int|
        0 <= i < j < windows.len() && (#[trigger] windows[i]).entity_id == (
        #[trigger] windows[j]).entity_id ==> windowed_history::disjoint(
            window_of(windows[i]),
            window_of(windows[j]),
        )
}

/// A file keeps all rules.
pub open spec fn acceptable(raw: RawView) -> bool {
    let deliveries = raw.future_anticipated_deliveries;
    &&& good_volumes(raw.storage)
    &&& good_volumes(raw.filling_storage)
    &&& forall|i: int, j: int|
        0 <= i < raw.storage.len() && 0 <= j < raw.filling_storage.len() ==> (
        #[trigger] raw.storage[i]).hydro_id != (#[trigger] raw.filling_storage[j]).hydro_id
    &&& good_windows(raw.recent_observations)
    &&& good_windows(raw.past_anticipated_commitments)
    &&& good_windows(raw.past_defluences)
    &&& forall|i: int|
        0 <= i < raw.past_defluences.len() ==> !(#[trigger] raw.past_defluences[i]).value.below(
            validation::zero(),
        )
    &&& good_windows(delivery_windows(deliveries))
    &&& forall|i: int|
        0 <= i < deliveries.len() ==> (#[trigger] deliveries[i]).max_mw.finite()
            && !deliveries[i].max_mw.below(deliveries[i].window.value)
}

/// The lists of a file are no longer than a machine can hold.
pub open spec fn addressable(raw: RawView) -> bool {
    &&& raw.recent_observations.len() <= usize::MAX
    &&& raw.past_anticipated_commitments.len() <= usize::MAX
    &&& raw.past_defluences.len() <= usize::MAX
    &&& raw.future_anticipated_deliveries.len() <= usize::MAX
}

/// A file is accepted exactly where it keeps all rules.
pub proof fn accepted_files(raw: RawView)
    requires
        addressable(raw),
    ensures
        raw_finding(raw) is None <==> acceptable(raw),
{
    volumes_are_checked(raw);
    let deliveries = raw.future_anticipated_deliveries;
    let windows = delivery_windows(deliveries);
    windows_are_checked(
        raw.recent_observations,
        "recent_observations"@,
        "start_date"@,
        "end_date"@,
        "hydro_id"@,
        "value_m3s"@,
    );
    windows_are_checked(
        raw.past_anticipated_commitments,
        "past_anticipated_commitments"@,
        "start_date"@,
        "end_date"@,
        "thermal_id"@,
        "value_mw"@,
    );
    good_windows_start_apart(
        raw.past_anticipated_commitments,
        "past_anticipated_commitments"@,
        "start_date"@,
    );
    windows_are_checked(
        raw.past_defluences,
        "past_defluences"@,
        "start_date"@,
        "end_date"@,
        "hydro_id"@,
        "value_m3s"@,
    );
    let releases = release_check(raw.past_defluences);
    validation::first_is_none(raw.past_defluences.len() as int, releases);
    assert(forall|i: int|
        0 <= i < raw.past_defluences.len() ==> ((#[trigger] releases(i)) is None <==>
            !raw.past_defluences[i].value.below(validation::zero())));
    assert(validation::first(raw.past_defluences.len() as int, releases) is None <==> forall|i: int|
        0 <= i < raw.past_defluences.len() ==> !(#[trigger] raw.past_defluences[i]).value.below(
            validation::zero(),
        )) by {
        if forall|i: int|
            0 <= i < raw.past_defluences.len() ==> (#[trigger] releases(i)) is None {
            assert forall|i: int| 0 <= i < raw.past_defluences.len() implies !(
            #[trigger] raw.past_defluences[i]).value.below(validation::zero()) by {
                assert(releases(i) is None);
            }
        }
    }
    windows_are_checked(
        windows,
        "future_anticipated_deliveries"@,
        "delivery_start"@,
        "delivery_end"@,
        "thermal_id"@,
        "min_mw"@,
    );
    good_windows_start_apart(windows, "future_anticipated_deliveries"@, "delivery_start"@);
    bounds_are_checked(deliveries);
}

proof fn volumes_are_checked(raw: RawView)
    ensures
        storage_finding(raw) is None <==> {
            &&& good_volumes(raw.storage)
            &&& good_volumes(raw.filling_storage)
            &&& forall|i: int, j: int|
                0 <= i < raw.storage.len() && 0 <= j < raw.filling_storage.len() ==> (
                #[trigger] raw.storage[i]).hydro_id != (
                #[trigger] raw.filling_storage[j]).hydro_id
        },
{
    list_is_checked(raw.storage, "storage"@);
    list_is_checked(raw.filling_storage, "filling_storage"@);
    let storage = raw.storage;
    let filling = raw.filling_storage;
    let check = exclusion_check(storage, filling);
    validation::first_is_none(filling.len() as int, check);
    if forall|j: int| 0 <= j < filling.len() ==> (#[trigger] check(j)) is None {
        assert forall|i: int, j: int|
            0 <= i < storage.len() && 0 <= j < filling.len() implies (
            #[trigger] storage[i]).hydro_id != (#[trigger] filling[j]).hydro_id by {
            assert(check(j) is None);
            assert(plants(storage)[i] == storage[i].hydro_id);
        }
    } else {
        let j = choose|j: int| 0 <= j < filling.len() && (#[trigger] check(j)) is Some;
        let i = plants(storage).index_of(filling[j].hydro_id);
        assert(storage[i].hydro_id == filling[j].hydro_id);
    }
}

proof fn list_is_checked(entries: Seq<RawHydroStorage>, array: Seq<char>)
    ensures
        validation::first(entries.len() as int, volume_check(entries, array)) is None
            && validation::first(entries.len() as int, plant_check(entries, array)) is None
            <==> good_volumes(entries),
{
    let n = entries.len() as int;
    let volumes = volume_check(entries, array);
    let ids = plant_check(entries, array);
    validation::first_is_none(n, volumes);
    validation::first_is_none(n, ids);
    validation::no_repeats_are_distinct(plants(entries));
    if validation::first(n, volumes) is None {
        assert forall|i: int| 0 <= i < n implies validation::at_least_zero(
            (#[trigger] entries[i]).value_hm3,
        ) by {
            assert(volumes(i) is None);
        }
    }
    if validation::first(n, ids) is None {
        assert forall|i: int| 0 <= i < n implies !#[trigger] validation::repeated(
            plants(entries),
            i,
        ) by {
            assert(ids(i) is None);
        }
    }
}

/// The checks on a list of windows come down to [`good_windows`].
proof fn windows_are_checked(
    windows: Seq<WindowText>,
    array: Seq<char>,
    start: Seq<char>,
    end: Seq<char>,
    entity: Seq<char>,
    value: Seq<char>,
)
    requires
        windows.len() <= usize::MAX,
    ensures
        validation::first(windows.len() as int, dates_check(windows, array, start, end)) is None
            && windowed_history::windows_finding(
            windows_of(windows),
            array,
            entity,
            value,
        ) is None <==> good_windows(windows),
{
    let n = windows.len() as int;
    let dates = dates_check(windows, array, start, end);
    let records = windows_of(windows);
    validation::first_is_none(n, dates);
    windowed_history::accepted_windows(records, array, entity, value);
    if validation::first(n, dates) is None {
        assert forall|i: int| 0 <= i < n implies dated(#[trigger] windows[i]) by {
            assert(dates(i) is None);
        }
    }
    if good_windows(windows) {
        assert forall|i: int| 0 <= i < records.len() implies windowed_history::proper(
            #[trigger] records[i],
        ) && records[i].value.finite() by {
            assert(dated(windows[i]));
            assert(windowed_history::proper(window_of(windows[i])));
        }
        assert forall|i: int, j: int|
            0 <= i < j < records.len() && (#[trigger] records[i]).entity_id == (
            #[trigger] records[j]).entity_id implies windowed_history::disjoint(
            records[i],
            records[j],
        ) by {
            assert(windows[i].entity_id == windows[j].entity_id);
        }
        assert forall|i: int| 0 <= i < n implies (#[trigger] dates(i)) is None by {
            assert(dated(windows[i]));
        }
    } else if validation::first(n, dates) is None {
        if windowed_history::windows_finding(records, array, entity, value) is None {
            assert forall|i: int| 0 <= i < n implies windowed_history::proper(
                window_of(#[trigger] windows[i]),
            ) && windows[i].value.finite() by {
                assert(windowed_history::proper(records[i]));
            }
            assert forall|i: int, j: int|
                0 <= i < j < n && (#[trigger] windows[i]).entity_id == (
                #[trigger] windows[j]).entity_id implies windowed_history::disjoint(
                window_of(windows[i]),
                window_of(windows[j]),
            ) by {
                assert(records[i].entity_id == records[j].entity_id);
            }
        }
    }
}

/// Good windows of one entity start on different days.
proof fn good_windows_start_apart(windows: Seq<WindowText>, array: Seq<char>, start: Seq<char>)
    ensures
        good_windows(windows) ==> validation::first(
            windows.len() as int,
            start_check(windows_of(windows), array, start),
        ) is None,
{
    let records = windows_of(windows);
    let check = start_check(records, array, start);
    validation::first_is_none(windows.len() as int, check);
    if good_windows(windows) {
        assert forall|i: int| 0 <= i < windows.len() implies (#[trigger] check(i)) is None by {
            if validation::repeated(starts(records), i) {
                let j = choose|j: int|
                    0 <= j < i && #[trigger] starts(records)[j] == starts(records)[i];
                assert(windows[j].entity_id == windows[i].entity_id);
                assert(windowed_history::proper(window_of(windows[i])));
                assert(windowed_history::proper(window_of(windows[j])));
                assert(windowed_history::disjoint(window_of(windows[j]), window_of(windows[i])));
            }
        }
    }
}

proof fn bounds_are_checked(deliveries: Seq<DeliveryText>)
    ensures
        validation::first(
            deliveries.len() as int,
            bounds_check(delivery_windows(deliveries), delivery_maxima(deliveries)),
        ) is None <==> forall|i: int|
            0 <= i < deliveries.len() ==> (#[trigger] deliveries[i]).max_mw.finite()
                && !deliveries[i].max_mw.below(deliveries[i].window.value),
{
    let n = deliveries.len() as int;
    let check = bounds_check(delivery_windows(deliveries), delivery_maxima(deliveries));
    validation::first_is_none(n, check);
    if validation::first(n, check) is None {
        assert forall|i: int| 0 <= i < n implies (#[trigger] deliveries[i]).max_mw.finite()
            && !deliveries[i].max_mw.below(deliveries[i].window.value) by {
            assert(check(i) is None);
        }
    } else {
        let i = choose|i: int| 0 <= i < n && (#[trigger] check(i)) is Some;
        assert(!(deliveries[i].max_mw.finite() && !deliveries[i].max_mw.below(
            deliveries[i].window.value,
        )));
    }
}

/// Each list holds the entries of the file, each as often as the file has it: volumes
/// by ascending plant, and the others by ascending entity and start. This holds of what
/// [`convert`] and [`parse_initial_conditions`] give.
pub proof fn lists_are_sorted(ic: InitialConditions, raw: RawView)
    requires
        come_from(ic, raw),
    ensures
        sorting::ascending(ic.storage@),
        ic.storage@.to_multiset() == storages_of(raw.storage).to_multiset(),
        sorting::ascending(ic.filling_storage@),
        ic.filling_storage@.to_multiset() == storages_of(raw.filling_storage).to_multiset(),
        sorting::ascending(ic.recent_observations@),
        ic.recent_observations@.to_multiset() == observations_of(
            raw.recent_observations,
        ).to_multiset(),
        sorting::ascending(ic.past_anticipated_commitments@),
        ic.past_anticipated_commitments@.to_multiset() == commitments_of(
            raw.past_anticipated_commitments,
        ).to_multiset(),
        sorting::ascending(ic.past_defluences@),
        ic.past_defluences@.to_multiset() == releases_of(raw.past_defluences).to_multiset(),
        sorting::ascending(ic.future_anticipated_deliveries@),
        ic.future_anticipated_deliveries@.to_multiset() == deliveries_of(
            raw.future_anticipated_deliveries,
        ).to_multiset(),
{
    sorted_is_kept(storages_of(raw.storage));
    sorted_is_kept(storages_of(raw.filling_storage));
    sorted_is_kept(observations_of(raw.recent_observations));
    sorted_is_kept(commitments_of(raw.past_anticipated_commitments));
    sorted_is_kept(releases_of(raw.past_defluences));
    sorted_is_kept(deliveries_of(raw.future_anticipated_deliveries));
}

proof fn sorted_is_kept<T: HasKey>(items: Seq<T>)
    ensures
        sorting::ascending(sorting::sorted(items)),
        sorting::sorted(items).to_multiset() == items.to_multiset(),
{
    sorting::sorted_is(items);
    sorting::sorting_keeps_records(items, sorting::sorted(items));
}

/// Two files with the same entries in another order.
pub open spec fn same_entries(a: RawView, b: RawView) -> bool {
    &&& a.storage.to_multiset() == b.storage.to_multiset()
    &&& a.filling_storage.to_multiset() == b.filling_storage.to_multiset()
    &&& a.recent_observations.to_multiset() == b.recent_observations.to_multiset()
    &&& a.past_anticipated_commitments.to_multiset()
        == b.past_anticipated_commitments.to_multiset()
    &&& a.past_defluences.to_multiset() == b.past_defluences.to_multiset()
    &&& a.future_anticipated_deliveries.to_multiset()
        == b.future_anticipated_deliveries.to_multiset()
}

/// The order in which an accepted file lists its entries does not matter to what
/// [`convert`] and [`parse_initial_conditions`] give.
pub proof fn declaration_order_does_not_matter(
    a: RawView,
    b: RawView,
    x: InitialConditions,
    y: InitialConditions,
)
    requires
        addressable(a),
        raw_finding(a) is None,
        same_entries(a, b),
        come_from(x, a),
        come_from(y, b),
    ensures
        x.storage@ == y.storage@,
        x.filling_storage@ == y.filling_storage@,
        x.recent_observations@ == y.recent_observations@,
        x.past_anticipated_commitments@ == y.past_anticipated_commitments@,
        x.past_defluences@ == y.past_defluences@,
        x.future_anticipated_deliveries@ == y.future_anticipated_deliveries@,
{
    accepted_files(a);
    volumes_ignore_order(a.storage, b.storage);
    volumes_ignore_order(a.filling_storage, b.filling_storage);
    good_windows_are_apart(a.recent_observations);
    good_windows_are_apart(a.past_anticipated_commitments);
    good_windows_are_apart(a.past_defluences);
    good_windows_are_apart(delivery_windows(a.future_anticipated_deliveries));
    sorting::images_keep_items(
        a.recent_observations,
        b.recent_observations,
        |w: WindowText| observation_of(window_of(w)),
    );
    sorting::sorted_ignores_order(
        observations_of(a.recent_observations),
        observations_of(b.recent_observations),
    );
    sorting::images_keep_items(
        a.past_anticipated_commitments,
        b.past_anticipated_commitments,
        |w: WindowText| commitment_of(window_of(w)),
    );
    sorting::sorted_ignores_order(
        commitments_of(a.past_anticipated_commitments),
        commitments_of(b.past_anticipated_commitments),
    );
    sorting::images_keep_items(
        a.past_defluences,
        b.past_defluences,
        |w: WindowText| release_of(window_of(w)),
    );
    sorting::sorted_ignores_order(
        releases_of(a.past_defluences),
        releases_of(b.past_defluences),
    );
    sorting::images_keep_items(
        a.future_anticipated_deliveries,
        b.future_anticipated_deliveries,
        |d: DeliveryText| delivery_of(d),
    );
    deliveries_are_apart(a.future_anticipated_deliveries);
    sorting::sorted_ignores_order(
        deliveries_of(a.future_anticipated_deliveries),
        deliveries_of(b.future_anticipated_deliveries),
    );
}

proof fn volumes_ignore_order(a: Seq<RawHydroStorage>, b: Seq<RawHydroStorage>)
    requires
        good_volumes(a),
        a.to_multiset() == b.to_multiset(),
    ensures
        sorting::sorted(storages_of(a)) == sorting::sorted(storages_of(b)),
{
    sorting::images_keep_items(a, b, |e: RawHydroStorage| storage_of(e));
    let items = storages_of(a);
    assert forall|i: int, j: int| 0 <= i < j < items.len() implies (#[trigger] items[i]).key() != (
    #[trigger] items[j]).key() by {
        assert(plants(a)[i] != plants(a)[j]);
    }
    sorting::sorted_ignores_order(items, storages_of(b));
}

proof fn good_windows_are_apart(windows: Seq<WindowText>)
    requires
        good_windows(windows),
    ensures
        sorting::distinct_keys(observations_of(windows)),
        sorting::distinct_keys(commitments_of(windows)),
        sorting::distinct_keys(releases_of(windows)),
        forall|i: int, j: int|
            0 <= i < j < windows.len() && (#[trigger] windows[i]).entity_id == (
            #[trigger] windows[j]).entity_id ==> window_of(windows[i]).start_date.number()
                != window_of(windows[j]).start_date.number(),
{
    assert forall|i: int, j: int|
        0 <= i < j < windows.len() && (#[trigger] windows[i]).entity_id == (
        #[trigger] windows[j]).entity_id implies window_of(windows[i]).start_date.number()
        != window_of(windows[j]).start_date.number() by {
        assert(windowed_history::proper(window_of(windows[i])));
        assert(windowed_history::proper(window_of(windows[j])));
        assert(windowed_history::disjoint(window_of(windows[i]), window_of(windows[j])));
    }
    let a = observations_of(windows);
    assert forall|i: int, j: int| 0 <= i < j < a.len() implies (#[trigger] a[i]).key() != (
    #[trigger] a[j]).key() by {
        assert(windows[i].entity_id != windows[j].entity_id || window_of(
            windows[i],
        ).start_date.number() != window_of(windows[j]).start_date.number());
    }
    let b = commitments_of(windows);
    assert forall|i: int, j: int| 0 <= i < j < b.len() implies (#[trigger] b[i]).key() != (
    #[trigger] b[j]).key() by {
        assert(windows[i].entity_id != windows[j].entity_id || window_of(
            windows[i],
        ).start_date.number() != window_of(windows[j]).start_date.number());
    }
    let c = releases_of(windows);
    assert forall|i: int, j: int| 0 <= i < j < c.len() implies (#[trigger] c[i]).key() != (
    #[trigger] c[j]).key() by {
        assert(windows[i].entity_id != windows[j].entity_id || window_of(
            windows[i],
        ).start_date.number() != window_of(windows[j]).start_date.number());
    }
}

proof fn deliveries_are_apart(deliveries: Seq<DeliveryText>)
    requires
        good_windows(delivery_windows(deliveries)),
    ensures
        sorting::distinct_keys(deliveries_of(deliveries)),
{
    let windows = delivery_windows(deliveries);
    good_windows_are_apart(windows);
    let d = deliveries_of(deliveries);
    assert forall|i: int, j: int| 0 <= i < j < d.len() implies (#[trigger] d[i]).key() != (
    #[trigger] d[j]).key() by {
        assert(windows[i].entity_id != windows[j].entity_id || window_of(
            windows[i],
        ).start_date.number() != window_of(windows[j]).start_date.number());
    }
}

// ── What is kept ─────────────────────────────────────────────────────────────

/// Each volume is that of an entry of the file, with its plant, at the place that is
/// given back.
pub proof fn storage_are_entries(raw: RawInitialConditions, ic: InitialConditions, i: int) -> (e: int)
    requires
        come_from(ic, raw@),
        0 <= i < ic.storage@.len(),
    ensures
        0 <= e < raw.storage@.len(),
        ic.storage@.len() == raw.storage@.len(),
        ic.storage@[i].hydro_id.0 == raw.storage@[e].hydro_id,
        ic.storage@[i].value_hm3 == raw.storage@[e].value_hm3,
{
    sorting::sorted_comes_from(storages_of(raw@.storage), i)
}

/// Each entry of the file has its plant and volume at the place that is given back.
pub proof fn storage_are_kept(raw: RawInitialConditions, ic: InitialConditions, e: int) -> (i: int)
    requires
        come_from(ic, raw@),
        0 <= e < raw.storage@.len(),
    ensures
        0 <= i < ic.storage@.len(),
        ic.storage@.len() == raw.storage@.len(),
        ic.storage@[i].hydro_id.0 == raw.storage@[e].hydro_id,
        ic.storage@[i].value_hm3 == raw.storage@[e].value_hm3,
{
    sorting::sorted_has(storages_of(raw@.storage), e)
}

/// Each volume is that of an entry of the file, with its plant, at the place that is
/// given back.
pub proof fn filling_storage_are_entries(raw: RawInitialConditions, ic: InitialConditions, i: int) -> (e: int)
    requires
        come_from(ic, raw@),
        0 <= i < ic.filling_storage@.len(),
    ensures
        0 <= e < raw.filling_storage@.len(),
        ic.filling_storage@.len() == raw.filling_storage@.len(),
        ic.filling_storage@[i].hydro_id.0 == raw.filling_storage@[e].hydro_id,
        ic.filling_storage@[i].value_hm3 == raw.filling_storage@[e].value_hm3,
{
    sorting::sorted_comes_from(storages_of(raw@.filling_storage), i)
}

/// Each entry of the file has its plant and volume at the place that is given back.
pub proof fn filling_storage_are_kept(raw: RawInitialConditions, ic: InitialConditions, e: int) -> (i: int)
    requires
        come_from(ic, raw@),
        0 <= e < raw.filling_storage@.len(),
    ensures
        0 <= i < ic.filling_storage@.len(),
        ic.filling_storage@.len() == raw.filling_storage@.len(),
        ic.filling_storage@[i].hydro_id.0 == raw.filling_storage@[e].hydro_id,
        ic.filling_storage@[i].value_hm3 == raw.filling_storage@[e].value_hm3,
{
    sorting::sorted_has(storages_of(raw@.filling_storage), e)
}

/// Each observed inflow that an accepted file gives is one of its entries, that at the place that
/// is given back: with its id and value, with the dates that its two texts name, and
/// with an end after its start.
pub proof fn observations_are_entries(raw: RawInitialConditions, ic: InitialConditions, i: int) -> (e:
    int)
    requires
        addressable(raw@),
        raw_finding(raw@) is None,
        come_from(ic, raw@),
        0 <= i < ic.recent_observations@.len(),
    ensures
        0 <= e < raw.recent_observations@.len(),
        ic.recent_observations@.len() == raw.recent_observations@.len(),
        ic.recent_observations@[i].hydro_id.0 == raw.recent_observations@[e].hydro_id,
        ic.recent_observations@[i].value_m3s == raw.recent_observations@[e].value_m3s,
        date::iso_date(raw.recent_observations@[e].start_date@) == Some(
            (
                ic.recent_observations@[i].start_date.year,
                ic.recent_observations@[i].start_date.month,
                ic.recent_observations@[i].start_date.day,
            ),
        ),
        date::iso_date(raw.recent_observations@[e].end_date@) == Some(
            (
                ic.recent_observations@[i].end_date.year,
                ic.recent_observations@[i].end_date.month,
                ic.recent_observations@[i].end_date.day,
            ),
        ),
        ic.recent_observations@[i].start_date.number() < ic.recent_observations@[i].end_date.number(),
{
    accepted_files(raw@);
    let all = observations_of(raw@.recent_observations);
    let e = sorting::sorted_comes_from(all, i);
    assert(dated(raw@.recent_observations[e]));
    assert(windowed_history::proper(window_of(raw@.recent_observations[e])));
    assert(raw@.recent_observations[e] == raw.recent_observations@[e].shown());
    e
}

/// Each entry of an accepted file is a observed inflow, at the place that is given back.
pub proof fn observations_are_kept(raw: RawInitialConditions, ic: InitialConditions, e: int) -> (i: int)
    requires
        addressable(raw@),
        raw_finding(raw@) is None,
        come_from(ic, raw@),
        0 <= e < raw.recent_observations@.len(),
    ensures
        0 <= i < ic.recent_observations@.len(),
        ic.recent_observations@.len() == raw.recent_observations@.len(),
        ic.recent_observations@[i].hydro_id.0 == raw.recent_observations@[e].hydro_id,
        ic.recent_observations@[i].value_m3s == raw.recent_observations@[e].value_m3s,
        date::iso_date(raw.recent_observations@[e].start_date@) == Some(
            (
                ic.recent_observations@[i].start_date.year,
                ic.recent_observations@[i].start_date.month,
                ic.recent_observations@[i].start_date.day,
            ),
        ),
        date::iso_date(raw.recent_observations@[e].end_date@) == Some(
            (
                ic.recent_observations@[i].end_date.year,
                ic.recent_observations@[i].end_date.month,
                ic.recent_observations@[i].end_date.day,
            ),
        ),
        ic.recent_observations@[i].start_date.number() < ic.recent_observations@[i].end_date.number(),
{
    accepted_files(raw@);
    let all = observations_of(raw@.recent_observations);
    let i = sorting::sorted_has(all, e);
    assert(dated(raw@.recent_observations[e]));
    assert(windowed_history::proper(window_of(raw@.recent_observations[e])));
    assert(raw@.recent_observations[e] == raw.recent_observations@[e].shown());
    i
}

/// Each commitment that an accepted file gives is one of its entries, that at the place that
/// is given back: with its id and value, with the dates that its two texts name, and
/// with an end after its start.
pub proof fn commitments_are_entries(raw: RawInitialConditions, ic: InitialConditions, i: int) -> (e:
    int)
    requires
        addressable(raw@),
        raw_finding(raw@) is None,
        come_from(ic, raw@),
        0 <= i < ic.past_anticipated_commitments@.len(),
    ensures
        0 <= e < raw.past_anticipated_commitments@.len(),
        ic.past_anticipated_commitments@.len() == raw.past_anticipated_commitments@.len(),
        ic.past_anticipated_commitments@[i].thermal_id.0 == raw.past_anticipated_commitments@[e].thermal_id,
        ic.past_anticipated_commitments@[i].value_mw == raw.past_anticipated_commitments@[e].value_mw,
        date::iso_date(raw.past_anticipated_commitments@[e].start_date@) == Some(
            (
                ic.past_anticipated_commitments@[i].start_date.year,
                ic.past_anticipated_commitments@[i].start_date.month,
                ic.past_anticipated_commitments@[i].start_date.day,
            ),
        ),
        date::iso_date(raw.past_anticipated_commitments@[e].end_date@) == Some(
            (
                ic.past_anticipated_commitments@[i].end_date.year,
                ic.past_anticipated_commitments@[i].end_date.month,
                ic.past_anticipated_commitments@[i].end_date.day,
            ),
        ),
        ic.past_anticipated_commitments@[i].start_date.number() < ic.past_anticipated_commitments@[i].end_date.number(),
{
    accepted_files(raw@);
    let all = commitments_of(raw@.past_anticipated_commitments);
    let e = sorting::sorted_comes_from(all, i);
    assert(dated(raw@.past_anticipated_commitments[e]));
    assert(windowed_history::proper(window_of(raw@.past_anticipated_commitments[e])));
    assert(raw@.past_anticipated_commitments[e] == raw.past_anticipated_commitments@[e].shown());
    e
}

/// Each entry of an accepted file is a commitment, at the place that is given back.
pub proof fn commitments_are_kept(raw: RawInitialConditions, ic: InitialConditions, e: int) -> (i: int)
    requires
        addressable(raw@),
        raw_finding(raw@) is None,
        come_from(ic, raw@),
        0 <= e < raw.past_anticipated_commitments@.len(),
    ensures
        0 <= i < ic.past_anticipated_commitments@.len(),
        ic.past_anticipated_commitments@.len() == raw.past_anticipated_commitments@.len(),
        ic.past_anticipated_commitments@[i].thermal_id.0 == raw.past_anticipated_commitments@[e].thermal_id,
        ic.past_anticipated_commitments@[i].value_mw == raw.past_anticipated_commitments@[e].value_mw,
        date::iso_date(raw.past_anticipated_commitments@[e].start_date@) == Some(
            (
                ic.past_anticipated_commitments@[i].start_date.year,
                ic.past_anticipated_commitments@[i].start_date.month,
                ic.past_anticipated_commitments@[i].start_date.day,
            ),
        ),
        date::iso_date(raw.past_anticipated_commitments@[e].end_date@) == Some(
            (
                ic.past_anticipated_commitments@[i].end_date.year,
                ic.past_anticipated_commitments@[i].end_date.month,
                ic.past_anticipated_commitments@[i].end_date.day,
            ),
        ),
        ic.past_anticipated_commitments@[i].start_date.number() < ic.past_anticipated_commitments@[i].end_date.number(),
{
    accepted_files(raw@);
    let all = commitments_of(raw@.past_anticipated_commitments);
    let i = sorting::sorted_has(all, e);
    assert(dated(raw@.past_anticipated_commitments[e]));
    assert(windowed_history::proper(window_of(raw@.past_anticipated_commitments[e])));
    assert(raw@.past_anticipated_commitments[e] == raw.past_anticipated_commitments@[e].shown());
    i
}

/// Each release that an accepted file gives is one of its entries, that at the place that
/// is given back: with its id and value, with the dates that its two texts name, and
/// with an end after its start.
pub proof fn releases_are_entries(raw: RawInitialConditions, ic: InitialConditions, i: int) -> (e:
    int)
    requires
        addressable(raw@),
        raw_finding(raw@) is None,
        come_from(ic, raw@),
        0 <= i < ic.past_defluences@.len(),
    ensures
        0 <= e < raw.past_defluences@.len(),
        ic.past_defluences@.len() == raw.past_defluences@.len(),
        ic.past_defluences@[i].hydro_id.0 == raw.past_defluences@[e].hydro_id,
        ic.past_defluences@[i].value_m3s == raw.past_defluences@[e].value_m3s,
        date::iso_date(raw.past_defluences@[e].start_date@) == Some(
            (
                ic.past_defluences@[i].start_date.year,
                ic.past_defluences@[i].start_date.month,
                ic.past_defluences@[i].start_date.day,
            ),
        ),
        date::iso_date(raw.past_defluences@[e].end_date@) == Some(
            (
                ic.past_defluences@[i].end_date.year,
                ic.past_defluences@[i].end_date.month,
                ic.past_defluences@[i].end_date.day,
            ),
        ),
        ic.past_defluences@[i].start_date.number() < ic.past_defluences@[i].end_date.number(),
{
    accepted_files(raw@);
    let all = releases_of(raw@.past_defluences);
    let e = sorting::sorted_comes_from(all, i);
    assert(dated(raw@.past_defluences[e]));
    assert(windowed_history::proper(window_of(raw@.past_defluences[e])));
    assert(raw@.past_defluences[e] == raw.past_defluences@[e].shown());
    e
}

/// Each entry of an accepted file is a release, at the place that is given back.
pub proof fn releases_are_kept(raw: RawInitialConditions, ic: InitialConditions, e: int) -> (i: int)
    requires
        addressable(raw@),
        raw_finding(raw@) is None,
        come_from(ic, raw@),
        0 <= e < raw.past_defluences@.len(),
    ensures
        0 <= i < ic.past_defluences@.len(),
        ic.past_defluences@.len() == raw.past_defluences@.len(),
        ic.past_defluences@[i].hydro_id.0 == raw.past_defluences@[e].hydro_id,
        ic.past_defluences@[i].value_m3s == raw.past_defluences@[e].value_m3s,
        date::iso_date(raw.past_defluences@[e].start_date@) == Some(
            (
                ic.past_defluences@[i].start_date.year,
                ic.past_defluences@[i].start_date.month,
                ic.past_defluences@[i].start_date.day,
            ),
        ),
        date::iso_date(raw.past_defluences@[e].end_date@) == Some(
            (
                ic.past_defluences@[i].end_date.year,
                ic.past_defluences@[i].end_date.month,
                ic.past_defluences@[i].end_date.day,
            ),
        ),
        ic.past_defluences@[i].start_date.number() < ic.past_defluences@[i].end_date.number(),
{
    accepted_files(raw@);
    let all = releases_of(raw@.past_defluences);
    let i = sorting::sorted_has(all, e);
    assert(dated(raw@.past_defluences[e]));
    assert(windowed_history::proper(window_of(raw@.past_defluences[e])));
    assert(raw@.past_defluences[e] == raw.past_defluences@[e].shown());
    i
}

/// Each delivery that an accepted file gives is one of its entries, that at the place that
/// is given back: with its id and value, with the dates that its two texts name, and
/// with an end after its start.
pub proof fn deliveries_are_entries(raw: RawInitialConditions, ic: InitialConditions, i: int) -> (e:
    int)
    requires
        addressable(raw@),
        raw_finding(raw@) is None,
        come_from(ic, raw@),
        0 <= i < ic.future_anticipated_deliveries@.len(),
    ensures
        0 <= e < raw.future_anticipated_deliveries@.len(),
        ic.future_anticipated_deliveries@.len() == raw.future_anticipated_deliveries@.len(),
        ic.future_anticipated_deliveries@[i].thermal_id.0 == raw.future_anticipated_deliveries@[e].thermal_id,
        ic.future_anticipated_deliveries@[i].min_mw == raw.future_anticipated_deliveries@[e].min_mw,
        ic.future_anticipated_deliveries@[i].max_mw == raw.future_anticipated_deliveries@[e].max_mw,
        date::iso_date(raw.future_anticipated_deliveries@[e].delivery_start@) == Some(
            (
                ic.future_anticipated_deliveries@[i].delivery_start.year,
                ic.future_anticipated_deliveries@[i].delivery_start.month,
                ic.future_anticipated_deliveries@[i].delivery_start.day,
            ),
        ),
        date::iso_date(raw.future_anticipated_deliveries@[e].delivery_end@) == Some(
            (
                ic.future_anticipated_deliveries@[i].delivery_end.year,
                ic.future_anticipated_deliveries@[i].delivery_end.month,
                ic.future_anticipated_deliveries@[i].delivery_end.day,
            ),
        ),
        ic.future_anticipated_deliveries@[i].delivery_start.number() < ic.future_anticipated_deliveries@[i].delivery_end.number(),
{
    accepted_files(raw@);
    let all = deliveries_of(raw@.future_anticipated_deliveries);
    let e = sorting::sorted_comes_from(all, i);
    assert(delivery_windows(raw@.future_anticipated_deliveries)[e] == raw@.future_anticipated_deliveries[e].window);
    assert(dated(delivery_windows(raw@.future_anticipated_deliveries)[e]));
    assert(windowed_history::proper(window_of(delivery_windows(raw@.future_anticipated_deliveries)[e])));
    assert(raw@.future_anticipated_deliveries[e] == raw.future_anticipated_deliveries@[e]@);
    e
}

/// Each entry of an accepted file is a delivery, at the place that is given back.
pub proof fn deliveries_are_kept(raw: RawInitialConditions, ic: InitialConditions, e: int) -> (i: int)
    requires
        addressable(raw@),
        raw_finding(raw@) is None,
        come_from(ic, raw@),
        0 <= e < raw.future_anticipated_deliveries@.len(),
    ensures
        0 <= i < ic.future_anticipated_deliveries@.len(),
        ic.future_anticipated_deliveries@.len() == raw.future_anticipated_deliveries@.len(),
        ic.future_anticipated_deliveries@[i].thermal_id.0 == raw.future_anticipated_deliveries@[e].thermal_id,
        ic.future_anticipated_deliveries@[i].min_mw == raw.future_anticipated_deliveries@[e].min_mw,
        ic.future_anticipated_deliveries@[i].max_mw == raw.future_anticipated_deliveries@[e].max_mw,
        date::iso_date(raw.future_anticipated_deliveries@[e].delivery_start@) == Some(
            (
                ic.future_anticipated_deliveries@[i].delivery_start.year,
                ic.future_anticipated_deliveries@[i].delivery_start.month,
                ic.future_anticipated_deliveries@[i].delivery_start.day,
            ),
        ),
        date::iso_date(raw.future_anticipated_deliveries@[e].delivery_end@) == Some(
            (
                ic.future_anticipated_deliveries@[i].delivery_end.year,
                ic.future_anticipated_deliveries@[i].delivery_end.month,
                ic.future_anticipated_deliveries@[i].delivery_end.day,
            ),
        ),
        ic.future_anticipated_deliveries@[i].delivery_start.number() < ic.future_anticipated_deliveries@[i].delivery_end.number(),
{
    accepted_files(raw@);
    let all = deliveries_of(raw@.future_anticipated_deliveries);
    let i = sorting::sorted_has(all, e);
    assert(delivery_windows(raw@.future_anticipated_deliveries)[e] == raw@.future_anticipated_deliveries[e].window);
    assert(dated(delivery_windows(raw@.future_anticipated_deliveries)[e]));
    assert(windowed_history::proper(window_of(delivery_windows(raw@.future_anticipated_deliveries)[e])));
    assert(raw@.future_anticipated_deliveries[e] == raw.future_anticipated_deliveries@[e]@);
    i
}

/// Volumes come by ascending plant, and the other lists by ascending plant and start.
pub proof fn lists_come_in_order(ic: InitialConditions, raw: RawView)
    requires
        come_from(ic, raw),
    ensures
        forall|i: int, j: int|
            0 <= i < j < ic.storage@.len() ==> (#[trigger] ic.storage@[i]).hydro_id.0 <= (
            #[trigger] ic.storage@[j]).hydro_id.0,
        forall|i: int, j: int|
            0 <= i < j < ic.filling_storage@.len() ==> (#[trigger] ic.filling_storage@[i]).hydro_id.0 <= (
            #[trigger] ic.filling_storage@[j]).hydro_id.0,
        forall|i: int, j: int|
            0 <= i < j < ic.recent_observations@.len() ==> {
                let a = #[trigger] ic.recent_observations@[i];
                let b = #[trigger] ic.recent_observations@[j];
                ||| a.hydro_id.0 < b.hydro_id.0
                ||| a.hydro_id == b.hydro_id && a.start_date.number() <= b.start_date.number()
            },
        forall|i: int, j: int|
            0 <= i < j < ic.past_anticipated_commitments@.len() ==> {
                let a = #[trigger] ic.past_anticipated_commitments@[i];
                let b = #[trigger] ic.past_anticipated_commitments@[j];
                ||| a.thermal_id.0 < b.thermal_id.0
                ||| a.thermal_id == b.thermal_id && a.start_date.number() <= b.start_date.number()
            },
        forall|i: int, j: int|
            0 <= i < j < ic.past_defluences@.len() ==> {
                let a = #[trigger] ic.past_defluences@[i];
                let b = #[trigger] ic.past_defluences@[j];
                ||| a.hydro_id.0 < b.hydro_id.0
                ||| a.hydro_id == b.hydro_id && a.start_date.number() <= b.start_date.number()
            },
        forall|i: int, j: int|
            0 <= i < j < ic.future_anticipated_deliveries@.len() ==> {
                let a = #[trigger] ic.future_anticipated_deliveries@[i];
                let b = #[trigger] ic.future_anticipated_deliveries@[j];
                ||| a.thermal_id.0 < b.thermal_id.0
                ||| a.thermal_id == b.thermal_id && a.delivery_start.number() <= b.delivery_start.number()
            },
{
    lists_are_sorted(ic, raw);
    assert(forall|i: int, j: int|
        0 <= i < j < ic.storage@.len() ==> sorting::at_most(
            (#[trigger] ic.storage@[i]).key(),
            (#[trigger] ic.storage@[j]).key(),
        ));
    assert(forall|i: int, j: int|
        0 <= i < j < ic.filling_storage@.len() ==> sorting::at_most(
            (#[trigger] ic.filling_storage@[i]).key(),
            (#[trigger] ic.filling_storage@[j]).key(),
        ));
    assert(forall|i: int, j: int|
        0 <= i < j < ic.recent_observations@.len() ==> sorting::at_most(
            (#[trigger] ic.recent_observations@[i]).key(),
            (#[trigger] ic.recent_observations@[j]).key(),
        ));
    assert(forall|i: int, j: int|
        0 <= i < j < ic.past_anticipated_commitments@.len() ==> sorting::at_most(
            (#[trigger] ic.past_anticipated_commitments@[i]).key(),
            (#[trigger] ic.past_anticipated_commitments@[j]).key(),
        ));
    assert(forall|i: int, j: int|
        0 <= i < j < ic.past_defluences@.len() ==> sorting::at_most(
            (#[trigger] ic.past_defluences@[i]).key(),
            (#[trigger] ic.past_defluences@[j]).key(),
        ));
    assert(forall|i: int, j: int|
        0 <= i < j < ic.future_anticipated_deliveries@.len() ==> sorting::at_most(
            (#[trigger] ic.future_anticipated_deliveries@[i]).key(),
            (#[trigger] ic.future_anticipated_deliveries@[j]).key(),
        ));
}

proof fn good_volumes_keep_the_rules(entries: Seq<RawHydroStorage>)
    ensures
        good_volumes(entries) <==> {
            &&& forall|i: int|
                0 <= i < entries.len() ==> (#[trigger] entries[i]).value_hm3.bits
                    <= 0x7ff0_0000_0000_0000 || entries[i].value_hm3.bits == 0x8000_0000_0000_0000
            &&& forall|i: int, j: int|
                0 <= i < j < entries.len() ==> (#[trigger] entries[i]).hydro_id != (
                #[trigger] entries[j]).hydro_id
        },
{
    let ids = plants(entries);
    assert forall|i: int| 0 <= i < entries.len() implies validation::at_least_zero(
        (#[trigger] entries[i]).value_hm3,
    ) == (entries[i].value_hm3.bits <= 0x7ff0_0000_0000_0000 || entries[i].value_hm3.bits
        == 0x8000_0000_0000_0000) by {
        validation::signs_are_read_from_the_bits(entries[i].value_hm3);
    }
    if good_volumes(entries) {
        assert forall|i: int, j: int| 0 <= i < j < entries.len() implies (
        #[trigger] entries[i]).hydro_id != (#[trigger] entries[j]).hydro_id by {
            assert(ids[i] != ids[j]);
        }
    }
    if forall|i: int, j: int|
        0 <= i < j < entries.len() ==> (#[trigger] entries[i]).hydro_id != (
        #[trigger] entries[j]).hydro_id {
        assert forall|i: int, j: int|
            0 <= i < ids.len() && 0 <= j < ids.len() && i != j implies ids[i] != ids[j] by {
            assert(ids[i] == entries[i].hydro_id && ids[j] == entries[j].hydro_id);
        }
    }
}

/// The volumes are accepted exactly where each is at least zero, infinity included, and no
/// plant is listed twice, neither in one of the two lists nor in both.
pub proof fn accepted_volumes(raw: RawInitialConditions)
    ensures
        storage_finding(raw@) is None <==> {
            &&& forall|i: int|
                0 <= i < raw.storage@.len() ==> (#[trigger] raw.storage@[i]).value_hm3.bits
                    <= 0x7ff0_0000_0000_0000 || raw.storage@[i].value_hm3.bits
                    == 0x8000_0000_0000_0000
            &&& forall|i: int|
                0 <= i < raw.filling_storage@.len() ==> (
                #[trigger] raw.filling_storage@[i]).value_hm3.bits <= 0x7ff0_0000_0000_0000
                    || raw.filling_storage@[i].value_hm3.bits == 0x8000_0000_0000_0000
            &&& forall|i: int, j: int|
                0 <= i < j < raw.storage@.len() ==> (#[trigger] raw.storage@[i]).hydro_id != (
                #[trigger] raw.storage@[j]).hydro_id
            &&& forall|i: int, j: int|
                0 <= i < j < raw.filling_storage@.len() ==> (
                #[trigger] raw.filling_storage@[i]).hydro_id != (
                #[trigger] raw.filling_storage@[j]).hydro_id
            &&& forall|i: int, j: int|
                0 <= i < raw.storage@.len() && 0 <= j < raw.filling_storage@.len() ==> (
                #[trigger] raw.storage@[i]).hydro_id != (
                #[trigger] raw.filling_storage@[j]).hydro_id
        },
{
    volumes_are_checked(raw@);
    good_volumes_keep_the_rules(raw.storage@);
    good_volumes_keep_the_rules(raw.filling_storage@);
}

/// What is reported of the volumes is the path of a volume that is wrong, at the place that
/// is given back: it is negative or no number, or its plant stands before it in its list, or
/// is in the other list too.
pub proof fn the_wrong_volume_is_reported(raw: RawInitialConditions) -> (i: int)
    requires
        storage_finding(raw@) is Some,
    ensures
        ({
            let field = storage_finding(raw@)->0.field;
            let storage = raw.storage@;
            let filling = raw.filling_storage@;
            ||| field == text::element_path("storage"@, i, "value_hm3"@) && 0 <= i < storage.len()
                && !validation::at_least_zero(storage[i].value_hm3)
            ||| field == text::element_path("filling_storage"@, i, "value_hm3"@) && 0 <= i
                < filling.len() && !validation::at_least_zero(filling[i].value_hm3)
            ||| field == text::element_path("storage"@, i, "hydro_id"@) && 0 <= i < storage.len()
                && exists|j: int| 0 <= j < i && (#[trigger] storage[j]).hydro_id
                == storage[i].hydro_id
            ||| field == text::element_path("filling_storage"@, i, "hydro_id"@) && 0 <= i
                < filling.len() && exists|j: int|
                0 <= j < i && (#[trigger] filling[j]).hydro_id == filling[i].hydro_id
            ||| field == text::element_path("filling_storage"@, i, "hydro_id"@) && 0 <= i
                < filling.len() && exists|j: int|
                0 <= j < storage.len() && (#[trigger] storage[j]).hydro_id == filling[i].hydro_id
        }),
{
    let storage = raw.storage@;
    let filling = raw.filling_storage@;
    let m = storage.len() as int;
    let n = filling.len() as int;
    if validation::first(m, volume_check(storage, "storage"@)) is Some {
        validation::the_first_bad_entry_is_reported(m, volume_check(storage, "storage"@))
    } else if validation::first(n, volume_check(filling, "filling_storage"@)) is Some {
        validation::the_first_bad_entry_is_reported(n, volume_check(filling, "filling_storage"@))
    } else if validation::first(m, plant_check(storage, "storage"@)) is Some {
        let i = validation::the_first_bad_entry_is_reported(m, plant_check(storage, "storage"@));
        let j = choose|j: int| 0 <= j < i && #[trigger] plants(storage)[j] == plants(storage)[i];
        assert(storage[j].hydro_id == storage[i].hydro_id);
        i
    } else if validation::first(n, plant_check(filling, "filling_storage"@)) is Some {
        let i = validation::the_first_bad_entry_is_reported(
            n,
            plant_check(filling, "filling_storage"@),
        );
        let j = choose|j: int| 0 <= j < i && #[trigger] plants(filling)[j] == plants(filling)[i];
        assert(filling[j].hydro_id == filling[i].hydro_id);
        i
    } else {
        let i = validation::the_first_bad_entry_is_reported(n, exclusion_check(storage, filling));
        let j = plants(storage).index_of(filling[i].hydro_id);
        assert(storage[j].hydro_id == filling[i].hydro_id);
        i
    }
}

/// In an accepted file the observations of a plant have finite values, each ends after it
/// starts, and two of them share no day: a day from the first of one on and before its end is
/// not one of the other.
pub proof fn observations_share_no_day(
    raw: RawInitialConditions,
    i: int,
    j: int,
    first: (Date, Date),
    second: (Date, Date),
    day: Date,
)
    requires
        addressable(raw@),
        raw_finding(raw@) is None,
        0 <= i < raw.recent_observations@.len(),
        0 <= j < raw.recent_observations@.len(),
        date::date_of(raw.recent_observations@[i].start_date@) == Some(first.0),
        date::date_of(raw.recent_observations@[i].end_date@) == Some(first.1),
        date::date_of(raw.recent_observations@[j].start_date@) == Some(second.0),
        date::date_of(raw.recent_observations@[j].end_date@) == Some(second.1),
    ensures
        raw.recent_observations@[i].value_m3s.finite(),
        first.0.number() < first.1.number(),
        i != j && raw.recent_observations@[i].hydro_id == raw.recent_observations@[j].hydro_id ==> !(
        first.0.number() <= day.number() < first.1.number() && second.0.number() <= day.number()
            < second.1.number()),
{
    accepted_files(raw@);
    let windows = raw@.recent_observations;
    assert(windows[i].entity_id == raw.recent_observations@[i].hydro_id);
    assert(windows[j].entity_id == raw.recent_observations@[j].hydro_id);
    assert(good_windows(windows));
    assert(windowed_history::proper(window_of(windows[i])));
    if i < j && windows[i].entity_id == windows[j].entity_id {
        assert(windowed_history::disjoint(window_of(windows[i]), window_of(windows[j])));
    }
    if j < i && windows[i].entity_id == windows[j].entity_id {
        assert(windowed_history::disjoint(window_of(windows[j]), window_of(windows[i])));
    }
}

/// In an accepted file the commitments of a plant have finite values, each ends after it
/// starts, and two of them share no day: a day from the first of one on and before its end is
/// not one of the other.
pub proof fn commitments_share_no_day(
    raw: RawInitialConditions,
    i: int,
    j: int,
    first: (Date, Date),
    second: (Date, Date),
    day: Date,
)
    requires
        addressable(raw@),
        raw_finding(raw@) is None,
        0 <= i < raw.past_anticipated_commitments@.len(),
        0 <= j < raw.past_anticipated_commitments@.len(),
        date::date_of(raw.past_anticipated_commitments@[i].start_date@) == Some(first.0),
        date::date_of(raw.past_anticipated_commitments@[i].end_date@) == Some(first.1),
        date::date_of(raw.past_anticipated_commitments@[j].start_date@) == Some(second.0),
        date::date_of(raw.past_anticipated_commitments@[j].end_date@) == Some(second.1),
    ensures
        raw.past_anticipated_commitments@[i].value_mw.finite(),
        first.0.number() < first.1.number(),
        i != j && raw.past_anticipated_commitments@[i].thermal_id == raw.past_anticipated_commitments@[j].thermal_id ==> !(
        first.0.number() <= day.number() < first.1.number() && second.0.number() <= day.number()
            < second.1.number()),
{
    accepted_files(raw@);
    let windows = raw@.past_anticipated_commitments;
    assert(windows[i].entity_id == raw.past_anticipated_commitments@[i].thermal_id);
    assert(windows[j].entity_id == raw.past_anticipated_commitments@[j].thermal_id);
    assert(good_windows(windows));
    assert(windowed_history::proper(window_of(windows[i])));
    if i < j && windows[i].entity_id == windows[j].entity_id {
        assert(windowed_history::disjoint(window_of(windows[i]), window_of(windows[j])));
    }
    if j < i && windows[i].entity_id == windows[j].entity_id {
        assert(windowed_history::disjoint(window_of(windows[j]), window_of(windows[i])));
    }
}

/// In an accepted file the releases of a plant have finite values, each ends after it
/// starts, and two of them share no day: a day from the first of one on and before its end is
/// not one of the other. A release is not negative either.
pub proof fn releases_share_no_day(
    raw: RawInitialConditions,
    i: int,
    j: int,
    first: (Date, Date),
    second: (Date, Date),
    day: Date,
)
    requires
        addressable(raw@),
        raw_finding(raw@) is None,
        0 <= i < raw.past_defluences@.len(),
        0 <= j < raw.past_defluences@.len(),
        date::date_of(raw.past_defluences@[i].start_date@) == Some(first.0),
        date::date_of(raw.past_defluences@[i].end_date@) == Some(first.1),
        date::date_of(raw.past_defluences@[j].start_date@) == Some(second.0),
        date::date_of(raw.past_defluences@[j].end_date@) == Some(second.1),
    ensures
        raw.past_defluences@[i].value_m3s.finite(),
        first.0.number() < first.1.number(),
        i != j && raw.past_defluences@[i].hydro_id == raw.past_defluences@[j].hydro_id ==> !(
        first.0.number() <= day.number() < first.1.number() && second.0.number() <= day.number()
            < second.1.number()),
        raw.past_defluences@[i].value_m3s.bits < 0x7ff0_0000_0000_0000
            || raw.past_defluences@[i].value_m3s.bits == 0x8000_0000_0000_0000,
{
    accepted_files(raw@);
    let windows = raw@.past_defluences;
    assert(windows[i].entity_id == raw.past_defluences@[i].hydro_id);
    assert(windows[j].entity_id == raw.past_defluences@[j].hydro_id);
    assert(good_windows(windows));
    assert(windowed_history::proper(window_of(windows[i])));
    assert(!raw@.past_defluences[i].value.below(validation::zero()));
    validation::signs_are_read_from_the_bits(raw.past_defluences@[i].value_m3s);
    if i < j && windows[i].entity_id == windows[j].entity_id {
        assert(windowed_history::disjoint(window_of(windows[i]), window_of(windows[j])));
    }
    if j < i && windows[i].entity_id == windows[j].entity_id {
        assert(windowed_history::disjoint(window_of(windows[j]), window_of(windows[i])));
    }
}

/// In an accepted file the deliveries of a plant have finite values, each ends after it
/// starts, and two of them share no day: a day from the first of one on and before its end is
/// not one of the other. The greatest power is finite and not
/// below the least.
pub proof fn deliveries_share_no_day(
    raw: RawInitialConditions,
    i: int,
    j: int,
    first: (Date, Date),
    second: (Date, Date),
    day: Date,
)
    requires
        addressable(raw@),
        raw_finding(raw@) is None,
        0 <= i < raw.future_anticipated_deliveries@.len(),
        0 <= j < raw.future_anticipated_deliveries@.len(),
        date::date_of(raw.future_anticipated_deliveries@[i].delivery_start@) == Some(first.0),
        date::date_of(raw.future_anticipated_deliveries@[i].delivery_end@) == Some(first.1),
        date::date_of(raw.future_anticipated_deliveries@[j].delivery_start@) == Some(second.0),
        date::date_of(raw.future_anticipated_deliveries@[j].delivery_end@) == Some(second.1),
    ensures
        raw.future_anticipated_deliveries@[i].min_mw.finite(),
        first.0.number() < first.1.number(),
        i != j && raw.future_anticipated_deliveries@[i].thermal_id == raw.future_anticipated_deliveries@[j].thermal_id ==> !(
        first.0.number() <= day.number() < first.1.number() && second.0.number() <= day.number()
            < second.1.number()),
        raw.future_anticipated_deliveries@[i].max_mw.finite(),
        !raw.future_anticipated_deliveries@[i].max_mw.below(
            raw.future_anticipated_deliveries@[i].min_mw,
        ),
{
    accepted_files(raw@);
    let windows = delivery_windows(raw@.future_anticipated_deliveries);
    assert(windows[i].entity_id == raw.future_anticipated_deliveries@[i].thermal_id);
    assert(windows[j].entity_id == raw.future_anticipated_deliveries@[j].thermal_id);
    assert(good_windows(windows));
    assert(windowed_history::proper(window_of(windows[i])));
    assert(raw@.future_anticipated_deliveries[i].max_mw.finite());
    if i < j && windows[i].entity_id == windows[j].entity_id {
        assert(windowed_history::disjoint(window_of(windows[i]), window_of(windows[j])));
    }
    if j < i && windows[i].entity_id == windows[j].entity_id {
        assert(windowed_history::disjoint(window_of(windows[j]), window_of(windows[i])));
    }
}

/// A file is accepted exactly where its volumes and each of its lists are.
pub proof fn every_list_is_checked(raw: RawInitialConditions)
    ensures
        raw_finding(raw@) is None <==> {
            &&& storage_finding(raw@) is None
            &&& observations_finding(raw@) is None
            &&& commitments_finding(raw@) is None
            &&& releases_finding(raw@) is None
            &&& deliveries_finding(raw@) is None
        },
        storage_finding(raw@) is Some ==> raw_finding(raw@) == storage_finding(raw@),
{
}

/// The observations are accepted where their dates can be read, each ends after it starts and
/// has a finite value, and of two of one plant one ends before the other starts, or on the
/// day on which it starts. Observations may be
/// negative.
pub proof fn good_observations_are_accepted(raw: RawInitialConditions)
    requires
        addressable(raw@),
        forall|i: int|
            0 <= i < raw.recent_observations@.len() ==> {
                let e = #[trigger] raw.recent_observations@[i];
                &&& date::date_of(e.start_date@) is Some
                &&& date::date_of(e.end_date@) is Some
                &&& date::date_of(e.start_date@)->0.number() < date::date_of(e.end_date@)->0.number()
                &&& e.value_m3s.finite()
            },
        forall|i: int, j: int|
            0 <= i < j < raw.recent_observations@.len() ==> {
                let a = #[trigger] raw.recent_observations@[i];
                let b = #[trigger] raw.recent_observations@[j];
                a.hydro_id == b.hydro_id ==> date::date_of(a.end_date@)->0.number() <= date::date_of(
                    b.start_date@,
                )->0.number() || date::date_of(b.end_date@)->0.number() <= date::date_of(
                    a.start_date@,
                )->0.number()
            },
    ensures
        observations_finding(raw@) is None,
{
    let windows = raw@.recent_observations;
    assert forall|i: int| 0 <= i < windows.len() implies dated(#[trigger] windows[i])
        && windowed_history::proper(window_of(windows[i])) && windows[i].value.finite() by {
        let e = raw.recent_observations@[i];
        assert(windows[i].start == e.start_date@ && windows[i].end == e.end_date@);
    }
    assert forall|i: int, j: int|
        0 <= i < j < windows.len() && (#[trigger] windows[i]).entity_id == (
        #[trigger] windows[j]).entity_id implies windowed_history::disjoint(
        window_of(windows[i]),
        window_of(windows[j]),
    ) by {
        let a = raw.recent_observations@[i];
        let b = raw.recent_observations@[j];
        assert(windows[i].start == a.start_date@ && windows[i].end == a.end_date@);
        assert(windows[j].start == b.start_date@ && windows[j].end == b.end_date@);
    }
    windows_are_checked(
        windows,
        "recent_observations"@,
        "start_date"@,
        "end_date"@,
        "hydro_id"@,
        "value_m3s"@,
    );
}

/// The commitments are accepted where their dates can be read, each ends after it starts and
/// has a finite value, and of two of one plant one ends before the other starts, or on the
/// day on which it starts. Commitments may be
/// negative.
pub proof fn good_commitments_are_accepted(raw: RawInitialConditions)
    requires
        addressable(raw@),
        forall|i: int|
            0 <= i < raw.past_anticipated_commitments@.len() ==> {
                let e = #[trigger] raw.past_anticipated_commitments@[i];
                &&& date::date_of(e.start_date@) is Some
                &&& date::date_of(e.end_date@) is Some
                &&& date::date_of(e.start_date@)->0.number() < date::date_of(e.end_date@)->0.number()
                &&& e.value_mw.finite()
            },
        forall|i: int, j: int|
            0 <= i < j < raw.past_anticipated_commitments@.len() ==> {
                let a = #[trigger] raw.past_anticipated_commitments@[i];
                let b = #[trigger] raw.past_anticipated_commitments@[j];
                a.thermal_id == b.thermal_id ==> date::date_of(a.end_date@)->0.number() <= date::date_of(
                    b.start_date@,
                )->0.number() || date::date_of(b.end_date@)->0.number() <= date::date_of(
                    a.start_date@,
                )->0.number()
            },
    ensures
        commitments_finding(raw@) is None,
{
    let windows = raw@.past_anticipated_commitments;
    assert forall|i: int| 0 <= i < windows.len() implies dated(#[trigger] windows[i])
        && windowed_history::proper(window_of(windows[i])) && windows[i].value.finite() by {
        let e = raw.past_anticipated_commitments@[i];
        assert(windows[i].start == e.start_date@ && windows[i].end == e.end_date@);
    }
    assert forall|i: int, j: int|
        0 <= i < j < windows.len() && (#[trigger] windows[i]).entity_id == (
        #[trigger] windows[j]).entity_id implies windowed_history::disjoint(
        window_of(windows[i]),
        window_of(windows[j]),
    ) by {
        let a = raw.past_anticipated_commitments@[i];
        let b = raw.past_anticipated_commitments@[j];
        assert(windows[i].start == a.start_date@ && windows[i].end == a.end_date@);
        assert(windows[j].start == b.start_date@ && windows[j].end == b.end_date@);
    }
    windows_are_checked(
        windows,
        "past_anticipated_commitments"@,
        "start_date"@,
        "end_date"@,
        "thermal_id"@,
        "value_mw"@,
    );
    good_windows_start_apart(windows, "past_anticipated_commitments"@, "start_date"@);
}

/// The releases are accepted where their dates can be read, each ends after it starts and
/// has a finite value, and of two of one plant one ends before the other starts, or on the
/// day on which it starts. Releases are
/// not negative.
pub proof fn good_releases_are_accepted(raw: RawInitialConditions)
    requires
        addressable(raw@),
        forall|i: int|
            0 <= i < raw.past_defluences@.len() ==> {
                let e = #[trigger] raw.past_defluences@[i];
                &&& date::date_of(e.start_date@) is Some
                &&& date::date_of(e.end_date@) is Some
                &&& date::date_of(e.start_date@)->0.number() < date::date_of(e.end_date@)->0.number()
                &&& e.value_m3s.finite()
                &&& e.value_m3s.bits < 0x7ff0_0000_0000_0000 || e.value_m3s.bits
                    == 0x8000_0000_0000_0000
            },
        forall|i: int, j: int|
            0 <= i < j < raw.past_defluences@.len() ==> {
                let a = #[trigger] raw.past_defluences@[i];
                let b = #[trigger] raw.past_defluences@[j];
                a.hydro_id == b.hydro_id ==> date::date_of(a.end_date@)->0.number() <= date::date_of(
                    b.start_date@,
                )->0.number() || date::date_of(b.end_date@)->0.number() <= date::date_of(
                    a.start_date@,
                )->0.number()
            },
    ensures
        releases_finding(raw@) is None,
{
    let windows = raw@.past_defluences;
    assert forall|i: int| 0 <= i < windows.len() implies dated(#[trigger] windows[i])
        && windowed_history::proper(window_of(windows[i])) && windows[i].value.finite() by {
        let e = raw.past_defluences@[i];
        assert(windows[i].start == e.start_date@ && windows[i].end == e.end_date@);
    }
    assert forall|i: int, j: int|
        0 <= i < j < windows.len() && (#[trigger] windows[i]).entity_id == (
        #[trigger] windows[j]).entity_id implies windowed_history::disjoint(
        window_of(windows[i]),
        window_of(windows[j]),
    ) by {
        let a = raw.past_defluences@[i];
        let b = raw.past_defluences@[j];
        assert(windows[i].start == a.start_date@ && windows[i].end == a.end_date@);
        assert(windows[j].start == b.start_date@ && windows[j].end == b.end_date@);
    }
    windows_are_checked(
        windows,
        "past_defluences"@,
        "start_date"@,
        "end_date"@,
        "hydro_id"@,
        "value_m3s"@,
    );
    let check = release_check(windows);
    validation::first_is_none(windows.len() as int, check);
    assert forall|i: int| 0 <= i < windows.len() implies (#[trigger] check(i)) is None by {
        assert(windows[i].value == raw.past_defluences@[i].value_m3s);
        validation::signs_are_read_from_the_bits(raw.past_defluences@[i].value_m3s);
    }
}

/// The deliveries are accepted where their dates can be read, each ends after it starts and
/// has a finite value, and of two of one plant one ends before the other starts, or on the
/// day on which it starts. The greatest
/// power of a delivery is finite and not below the least.
pub proof fn good_deliveries_are_accepted(raw: RawInitialConditions)
    requires
        addressable(raw@),
        forall|i: int|
            0 <= i < raw.future_anticipated_deliveries@.len() ==> {
                let e = #[trigger] raw.future_anticipated_deliveries@[i];
                &&& date::date_of(e.delivery_start@) is Some
                &&& date::date_of(e.delivery_end@) is Some
                &&& date::date_of(e.delivery_start@)->0.number() < date::date_of(e.delivery_end@)->0.number()
                &&& e.min_mw.finite()
                &&& e.max_mw.finite()
                &&& !e.max_mw.below(e.min_mw)
            },
        forall|i: int, j: int|
            0 <= i < j < raw.future_anticipated_deliveries@.len() ==> {
                let a = #[trigger] raw.future_anticipated_deliveries@[i];
                let b = #[trigger] raw.future_anticipated_deliveries@[j];
                a.thermal_id == b.thermal_id ==> date::date_of(a.delivery_end@)->0.number() <= date::date_of(
                    b.delivery_start@,
                )->0.number() || date::date_of(b.delivery_end@)->0.number() <= date::date_of(
                    a.delivery_start@,
                )->0.number()
            },
    ensures
        deliveries_finding(raw@) is None,
{
    let windows = delivery_windows(raw@.future_anticipated_deliveries);
    assert forall|i: int| 0 <= i < windows.len() implies dated(#[trigger] windows[i])
        && windowed_history::proper(window_of(windows[i])) && windows[i].value.finite() by {
        let e = raw.future_anticipated_deliveries@[i];
        assert(windows[i].start == e.delivery_start@ && windows[i].end == e.delivery_end@);
    }
    assert forall|i: int, j: int|
        0 <= i < j < windows.len() && (#[trigger] windows[i]).entity_id == (
        #[trigger] windows[j]).entity_id implies windowed_history::disjoint(
        window_of(windows[i]),
        window_of(windows[j]),
    ) by {
        let a = raw.future_anticipated_deliveries@[i];
        let b = raw.future_anticipated_deliveries@[j];
        assert(windows[i].start == a.delivery_start@ && windows[i].end == a.delivery_end@);
        assert(windows[j].start == b.delivery_start@ && windows[j].end == b.delivery_end@);
    }
    windows_are_checked(
        windows,
        "future_anticipated_deliveries"@,
        "delivery_start"@,
        "delivery_end"@,
        "thermal_id"@,
        "min_mw"@,
    );
    good_windows_start_apart(windows, "future_anticipated_deliveries"@, "delivery_start"@);
    let maxima = delivery_maxima(raw@.future_anticipated_deliveries);
    let check = bounds_check(windows, maxima);
    validation::first_is_none(windows.len() as int, check);
    assert forall|i: int| 0 <= i < windows.len() implies (#[trigger] check(i)) is None by {
        let e = raw.future_anticipated_deliveries@[i];
        assert(windows[i].value == e.min_mw && maxima[i] == e.max_mw);
    }
}

/// What is reported of dates that cannot be read is the path of such a date, in the window
/// that is given back.
pub proof fn the_unreadable_date_is_reported(
    windows: Seq<WindowText>,
    array: Seq<char>,
    start: Seq<char>,
    end: Seq<char>,
) -> (i: int)
    requires
        validation::first(windows.len() as int, dates_check(windows, array, start, end)) is Some,
    ensures
        0 <= i < windows.len(),
        ({
            let f = validation::first(
                windows.len() as int,
                dates_check(windows, array, start, end),
            )->0;
            ||| f.field == text::element_path(array, i, start) && date::date_of(
                windows[i].start,
            ) is None
            ||| f.field == text::element_path(array, i, end) && date::date_of(windows[i].end) is None
        }),
{
    validation::the_first_bad_entry_is_reported(
        windows.len() as int,
        dates_check(windows, array, start, end),
    )
}

/// What is reported of a list of windows is a path in that list.
proof fn windows_are_named(
    records: Seq<WindowedRecord>,
    array: Seq<char>,
    entity: Seq<char>,
    value: Seq<char>,
)
    ensures
        windowed_history::windows_finding(records, array, entity, value) matches Some(f)
            ==> f.field.len() >= array.len() && f.field.take(array.len() as int) == array,
{
    let n = records.len() as int;
    let by_themselves = windowed_history::window_check(records, array, entity, value);
    let windows = windowed_history::by_start(records);
    let overlaps = windowed_history::overlap_check(windows, array, entity);
    if validation::first(n, by_themselves) is Some {
        let i = validation::the_first_bad_entry_is_reported(n, by_themselves);
        paths_begin(array, i, "end_date"@);
        paths_begin(array, i, value);
    } else if validation::first(n, overlaps) is Some {
        let k = validation::the_first_bad_entry_is_reported(n, overlaps);
        paths_begin(array, windows[k].position as int, "start_date"@);
    }
}

proof fn paths_begin(array: Seq<char>, i: int, field: Seq<char>)
    ensures
        text::element_path(array, i, field).len() >= array.len(),
        text::element_path(array, i, field).take(array.len() as int) == array,
{
    assert(text::element_path(array, i, field).take(array.len() as int) =~= array);
}

/// What is reported of each list is a path in that list: the path begins with its name.
pub proof fn lists_are_reported_by_their_names(raw: RawInitialConditions)
    ensures
        observations_finding(raw@) matches Some(f) ==> f.field.len() >= "recent_observations"@.len()
            && f.field.take("recent_observations"@.len() as int) == "recent_observations"@,
        commitments_finding(raw@) matches Some(f) ==> f.field.len() >= "past_anticipated_commitments"@.len()
            && f.field.take("past_anticipated_commitments"@.len() as int) == "past_anticipated_commitments"@,
        releases_finding(raw@) matches Some(f) ==> f.field.len() >= "past_defluences"@.len()
            && f.field.take("past_defluences"@.len() as int) == "past_defluences"@,
        deliveries_finding(raw@) matches Some(f) ==> f.field.len() >= "future_anticipated_deliveries"@.len()
            && f.field.take("future_anticipated_deliveries"@.len() as int) == "future_anticipated_deliveries"@,
{
    if observations_finding(raw@) is Some {
        let windows = raw@.recent_observations;
        let array = "recent_observations"@;
        let n = windows.len() as int;
        let dates = dates_check(windows, array, "start_date"@, "end_date"@);
        if validation::first(n, dates) is Some {
            let i = validation::the_first_bad_entry_is_reported(n, dates);
            paths_begin(array, i, "start_date"@);
            paths_begin(array, i, "end_date"@);
        }
        windows_are_named(windows_of(windows), array, "hydro_id"@, "value_m3s"@);
    }
    if commitments_finding(raw@) is Some {
        let windows = raw@.past_anticipated_commitments;
        let array = "past_anticipated_commitments"@;
        let n = windows.len() as int;
        let dates = dates_check(windows, array, "start_date"@, "end_date"@);
        if validation::first(n, dates) is Some {
            let i = validation::the_first_bad_entry_is_reported(n, dates);
            paths_begin(array, i, "start_date"@);
            paths_begin(array, i, "end_date"@);
        }
        windows_are_named(windows_of(windows), array, "thermal_id"@, "value_mw"@);
        let starts = start_check(windows_of(windows), array, "start_date"@);
        if validation::first(n, starts) is Some {
            let i = validation::the_first_bad_entry_is_reported(n, starts);
            paths_begin(array, i, "start_date"@);
        }
    }
    if releases_finding(raw@) is Some {
        let windows = raw@.past_defluences;
        let array = "past_defluences"@;
        let n = windows.len() as int;
        let dates = dates_check(windows, array, "start_date"@, "end_date"@);
        if validation::first(n, dates) is Some {
            let i = validation::the_first_bad_entry_is_reported(n, dates);
            paths_begin(array, i, "start_date"@);
            paths_begin(array, i, "end_date"@);
        }
        windows_are_named(windows_of(windows), array, "hydro_id"@, "value_m3s"@);
        let negative = release_check(windows);
        if validation::first(n, negative) is Some {
            let i = validation::the_first_bad_entry_is_reported(n, negative);
            paths_begin(array, i, "value_m3s"@);
        }
    }
    if deliveries_finding(raw@) is Some {
        let windows = delivery_windows(raw@.future_anticipated_deliveries);
        let array = "future_anticipated_deliveries"@;
        let n = windows.len() as int;
        let dates = dates_check(windows, array, "delivery_start"@, "delivery_end"@);
        if validation::first(n, dates) is Some {
            let i = validation::the_first_bad_entry_is_reported(n, dates);
            paths_begin(array, i, "delivery_start"@);
            paths_begin(array, i, "delivery_end"@);
        }
        windows_are_named(windows_of(windows), array, "thermal_id"@, "min_mw"@);
        let starts = start_check(windows_of(windows), array, "delivery_start"@);
        if validation::first(n, starts) is Some {
            let i = validation::the_first_bad_entry_is_reported(n, starts);
            paths_begin(array, i, "delivery_start"@);
        }
        let maxima = delivery_maxima(raw@.future_anticipated_deliveries);
        let bounds = bounds_check(windows, maxima);
        if validation::first(n, bounds) is Some {
            let i = validation::the_first_bad_entry_is_reported(n, bounds);
            paths_begin(array, i, "max_mw"@);
        }
    }
}

} // verus!
