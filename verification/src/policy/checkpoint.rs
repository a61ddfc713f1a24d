//! A whole checkpoint: file names, the order of its parts and the checks on its
//! dates.

use vstd::prelude::*;
use vstd::string::StringExecFns;

use crate::date;
use crate::error::OutputError;
use crate::policy::records;
use crate::policy::records::{
    CheckpointManifest, EntitySlot, OwnedPolicyBasisRecord, PolicyCheckpoint, StageCutsReadResult,
    StageStatesReadResult,
};
use crate::sorting;
use crate::sorting::{HasKey, Key, Keyed};
use crate::text;

verus! {

// ── Dates ────────────────────────────────────────────────────────────────────

/// The family code of a transit bucket, whose `subindex` is a maturity lag. Only
/// there do later slots have later dates: the `subindex` of the other dated family
/// wraps across the horizon.
pub const ENTITY_TYPE_HYDRO_TRANSIT_BUCKET: u8 = 3;

/// A slot's date is absent or a day of the calendar.
pub open spec fn well_formed(date: i32) -> bool {
    date == records::ENTITY_SLOT_DELIVERY_DATE_SENTINEL || date::slot_date(date as int) is Some
}

/// Whether a slot's date is absent or a day of the calendar.
pub fn is_well_formed_delivery_date(delivery_date: i32) -> (r: bool)
    ensures
        r == well_formed(delivery_date),
{
    if delivery_date == records::ENTITY_SLOT_DELIVERY_DATE_SENTINEL {
        return true;
    }
    match date::decode_slot_date(delivery_date) {
        Some(_) => true,
        None => false,
    }
}

/// The text for a date that is no day of the calendar.
pub open spec fn malformed(pool: u32, subindex: u32, field: Seq<char>, date: i32) -> Seq<char> {
    "pool "@ + text::decimal(pool as nat) + " subindex "@ + text::decimal(subindex as nat)
        + " carries malformed "@ + field + " "@ + text::signed_decimal(date as int)
}

/// What is wrong with the dates of a slot.
pub open spec fn slot_error(pool: u32, slot: EntitySlot) -> Option<Seq<char>> {
    if !well_formed(slot.reference_date) {
        Some(malformed(pool, slot.subindex, "reference_date"@, slot.reference_date))
    } else if !well_formed(slot.interval_start) {
        Some(malformed(pool, slot.subindex, "interval_start"@, slot.interval_start))
    } else if !well_formed(slot.interval_end) {
        Some(malformed(pool, slot.subindex, "interval_end"@, slot.interval_end))
    } else {
        None
    }
}

/// What is wrong with the dates of the first slot that has an error, among the
/// first `n`.
pub open spec fn first_slot_error(pool: u32, slots: Seq<EntitySlot>, n: int) -> Option<Seq<char>>
    decreases n,
{
    if n <= 0 {
        None
    } else {
        match first_slot_error(pool, slots, n - 1) {
            Some(message) => Some(message),
            None => slot_error(pool, slots[n - 1]),
        }
    }
}

/// The arrival date of one transit bucket.
#[derive(Clone, Copy, Debug, PartialEq, Eq, Structural)]
pub struct TransitDate {
    /// The downstream plant.
    pub entity_id: i32,
    /// The maturity lag.
    pub subindex: u32,
    /// The start of the arrival interval.
    pub date: i32,
}

impl HasKey for TransitDate {
    open spec fn key(&self) -> Key {
        (self.entity_id as int, self.subindex as int, 0)
    }
}

impl Keyed for TransitDate {
    fn sort_key(&self) -> (r: (i64, i64, i64)) {
        (self.entity_id as i64, self.subindex as i64, 0)
    }
}

/// A slot is a transit bucket with a date.
pub open spec fn is_dated_bucket(slot: EntitySlot) -> bool {
    slot.entity_type == ENTITY_TYPE_HYDRO_TRANSIT_BUCKET && slot.interval_start
        != records::ENTITY_SLOT_DELIVERY_DATE_SENTINEL
}

/// The arrival date of a transit bucket.
pub open spec fn bucket_date(slot: EntitySlot) -> TransitDate {
    TransitDate { entity_id: slot.entity_id, subindex: slot.subindex, date: slot.interval_start }
}

/// The arrival dates of the transit buckets that have one.
pub open spec fn transit_dates(slots: Seq<EntitySlot>) -> Seq<TransitDate>
    decreases slots.len(),
{
    if slots.len() == 0 {
        Seq::empty()
    } else if is_dated_bucket(slots.last()) {
        transit_dates(slots.drop_last()).push(bucket_date(slots.last()))
    } else {
        transit_dates(slots.drop_last())
    }
}

/// Two neighbours are of one plant and the later one has the earlier date.
pub open spec fn descends(a: TransitDate, b: TransitDate) -> bool {
    a.entity_id == b.entity_id && b.date < a.date
}

/// The text for an arrival date before that of a lesser lag.
pub open spec fn descent_message(pool: u32, a: TransitDate, b: TransitDate) -> Seq<char> {
    "pool "@ + text::decimal(pool as nat) + " subindex "@ + text::decimal(b.subindex as nat)
        + " carries interval_start "@ + text::signed_decimal(b.date as int)
        + ", earlier than subindex "@ + text::decimal(a.subindex as nat) + "'s "@
        + text::signed_decimal(a.date as int)
}

/// What is wrong with the first of the first `n` dates, in order of plant and lag,
/// that descends.
pub open spec fn first_descent(pool: u32, dates: Seq<TransitDate>, n: int) -> Option<Seq<char>>
    decreases n,
{
    if n <= 1 {
        None
    } else {
        match first_descent(pool, dates, n - 1) {
            Some(message) => Some(message),
            None => if descends(dates[n - 2], dates[n - 1]) {
                Some(descent_message(pool, dates[n - 2], dates[n - 1]))
            } else {
                None
            },
        }
    }
}

/// What is wrong with the order of a pool's arrival dates.
pub open spec fn date_order_error(pool: u32, slots: Seq<EntitySlot>) -> Option<Seq<char>> {
    let dates = sorting::sorted(transit_dates(slots));
    first_descent(pool, dates, dates.len() as int)
}

/// What is wrong with a pool's dates.
pub open spec fn pool_error(pool: StageCutsReadResult) -> Option<Seq<char>> {
    match first_slot_error(
        pool.stage_id,
        pool.entity_manifest@,
        pool.entity_manifest@.len() as int,
    ) {
        Some(message) => Some(message),
        None => date_order_error(pool.stage_id, pool.entity_manifest@),
    }
}

/// What is wrong with the dates of the first pool that has an error, among the
/// first `n`.
pub open spec fn first_pool_error(pools: Seq<StageCutsReadResult>, n: int) -> Option<Seq<char>>
    decreases n,
{
    if n <= 0 {
        None
    } else {
        match first_pool_error(pools, n - 1) {
            Some(message) => Some(message),
            None => pool_error(pools[n - 1]),
        }
    }
}

/// The name that date errors carry.
pub open spec fn dates_context() -> Seq<char> {
    "policy_checkpoint_dates"@
}

/// A check's result: no error where there is no message, and else the error of the
/// dates with that message.
pub open spec fn answers<T>(result: Result<T, OutputError>, message: Option<Seq<char>>) -> bool {
    match (result, message) {
        (Ok(_), None) => true,
        (Err(e), Some(m)) => e.says(dates_context(), m),
        _ => false,
    }
}

fn malformed_error(pool: u32, subindex: u32, field: &str, date: i32) -> (r: OutputError)
    ensures
        r.says(dates_context(), malformed(pool, subindex, field@, date)),
{
    let mut message: String = String::from_str("pool ");
    message.append(text::decimal_text(pool as u64).as_str());
    message.append(" subindex ");
    message.append(text::decimal_text(subindex as u64).as_str());
    message.append(" carries malformed ");
    message.append(field);
    message.append(" ");
    message.append(text::signed_decimal_text(date as i64).as_str());
    OutputError::serialization("policy_checkpoint_dates", message)
}

fn descent_error(pool: u32, a: TransitDate, b: TransitDate) -> (r: OutputError)
    ensures
        r.says(dates_context(), descent_message(pool, a, b)),
{
    let mut message: String = String::from_str("pool ");
    message.append(text::decimal_text(pool as u64).as_str());
    message.append(" subindex ");
    message.append(text::decimal_text(b.subindex as u64).as_str());
    message.append(" carries interval_start ");
    message.append(text::signed_decimal_text(b.date as i64).as_str());
    message.append(", earlier than subindex ");
    message.append(text::decimal_text(a.subindex as u64).as_str());
    message.append("'s ");
    message.append(text::signed_decimal_text(a.date as i64).as_str());
    OutputError::serialization("policy_checkpoint_dates", message)
}

fn check_slot_dates(pool: u32, slot: &EntitySlot) -> (r: Result<(), OutputError>)
    ensures
        answers(r, slot_error(pool, *slot)),
{
    if !is_well_formed_delivery_date(slot.reference_date) {
        return Err(
            malformed_error(pool, slot.subindex, "reference_date", slot.reference_date),
        );
    }
    if !is_well_formed_delivery_date(slot.interval_start) {
        return Err(
            malformed_error(pool, slot.subindex, "interval_start", slot.interval_start),
        );
    }
    if !is_well_formed_delivery_date(slot.interval_end) {
        return Err(malformed_error(pool, slot.subindex, "interval_end", slot.interval_end));
    }
    Ok(())
}

fn collect_transit_dates(slots: &Vec<EntitySlot>) -> (r: Vec<TransitDate>)
    ensures
        r@ == transit_dates(slots@),
{
    let mut r: Vec<TransitDate> = Vec::new();
    proof {
        assert(slots@.take(0) =~= Seq::<EntitySlot>::empty());
    }
    for i in 0..slots.len()
        invariant
            r@ == transit_dates(slots@.take(i as int)),
    {
        let slot: &EntitySlot = &slots[i];
        proof {
            assert(slots@.take(i + 1).drop_last() =~= slots@.take(i as int));
        }
        if slot.entity_type == ENTITY_TYPE_HYDRO_TRANSIT_BUCKET && slot.interval_start
            != records::ENTITY_SLOT_DELIVERY_DATE_SENTINEL {
            r.push(
                TransitDate {
                    entity_id: slot.entity_id,
                    subindex: slot.subindex,
                    date: slot.interval_start,
                },
            );
        }
    }
    proof {
        assert(slots@.take(slots@.len() as int) =~= slots@);
    }
    r
}

proof fn descent_stays(pool: u32, dates: Seq<TransitDate>, n: int, m: int)
    requires
        n <= m,
        first_descent(pool, dates, n) is Some,
    ensures
        first_descent(pool, dates, m) == first_descent(pool, dates, n),
    decreases m - n,
{
    if n < m {
        descent_stays(pool, dates, n, m - 1);
    }
}

/// Checks that the arrival dates of each plant's transit buckets do not descend as
/// the lag grows.
pub fn check_transit_bucket_monotonicity(pool: &StageCutsReadResult) -> (r: Result<
    (),
    OutputError,
>)
    ensures
        answers(r, date_order_error(pool.stage_id, pool.entity_manifest@)),
{
    let dates: Vec<TransitDate> = sorting::sort_by_key(
        collect_transit_dates(&pool.entity_manifest),
    );
    let mut i: usize = 1;
    while i < dates.len()
        invariant
            dates@ == sorting::sorted(transit_dates(pool.entity_manifest@)),
            1 <= i,
            i <= dates@.len() || dates@.len() == 0,
            first_descent(pool.stage_id, dates@, i as int) is None,
        decreases dates.len() - i,
    {
        if dates[i].entity_id == dates[i - 1].entity_id && dates[i].date < dates[i - 1].date {
            proof {
                descent_stays(pool.stage_id, dates@, i + 1, dates@.len() as int);
            }
            return Err(descent_error(pool.stage_id, dates[i - 1], dates[i]));
        }
        i = i + 1;
    }
    Ok(())
}

proof fn slot_error_stays(pool: u32, slots: Seq<EntitySlot>, n: int, m: int)
    requires
        n <= m,
        first_slot_error(pool, slots, n) is Some,
    ensures
        first_slot_error(pool, slots, m) == first_slot_error(pool, slots, n),
    decreases m - n,
{
    if n < m {
        slot_error_stays(pool, slots, n, m - 1);
    }
}

fn check_pool_dates(pool: &StageCutsReadResult) -> (r: Result<(), OutputError>)
    ensures
        answers(r, pool_error(*pool)),
{
    for i in 0..pool.entity_manifest.len()
        invariant
            first_slot_error(pool.stage_id, pool.entity_manifest@, i as int) is None,
    {
        match check_slot_dates(pool.stage_id, &pool.entity_manifest[i]) {
            Ok(_) => {},
            Err(e) => {
                proof {
                    slot_error_stays(
                        pool.stage_id,
                        pool.entity_manifest@,
                        i + 1,
                        pool.entity_manifest@.len() as int,
                    );
                }
                return Err(e);
            },
        }
    }
    check_transit_bucket_monotonicity(pool)
}

proof fn pool_error_stays(pools: Seq<StageCutsReadResult>, n: int, m: int)
    requires
        n <= m,
        first_pool_error(pools, n) is Some,
    ensures
        first_pool_error(pools, m) == first_pool_error(pools, n),
    decreases m - n,
{
    if n < m {
        pool_error_stays(pools, n, m - 1);
    }
}

/// Checks the dates of a checkpoint: each is absent or a day of the calendar, and
/// within a pool the arrival dates of a plant's transit buckets do not descend as
/// the lag grows.
pub fn validate_checkpoint_dates(checkpoint: &PolicyCheckpoint) -> (r: Result<(), OutputError>)
    ensures
        answers(
            r,
            first_pool_error(checkpoint.stage_cuts@, checkpoint.stage_cuts@.len() as int),
        ),
{
    for i in 0..checkpoint.stage_cuts.len()
        invariant
            first_pool_error(checkpoint.stage_cuts@, i as int) is None,
    {
        match check_pool_dates(&checkpoint.stage_cuts[i]) {
            Ok(_) => {},
            Err(e) => {
                proof {
                    pool_error_stays(
                        checkpoint.stage_cuts@,
                        i + 1,
                        checkpoint.stage_cuts@.len() as int,
                    );
                }
                return Err(e);
            },
        }
    }
    Ok(())
}

proof fn slot_errors_are_found(pool: u32, slots: Seq<EntitySlot>, n: int)
    requires
        0 <= n <= slots.len(),
    ensures
        first_slot_error(pool, slots, n) is None <==> forall|i: int|
            0 <= i < n ==> well_formed((#[trigger] slots[i]).reference_date) && well_formed(
                slots[i].interval_start,
            ) && well_formed(slots[i].interval_end),
    decreases n,
{
    if n > 0 {
        slot_errors_are_found(pool, slots, n - 1);
    }
}

/// The first `n` dates do not descend within a plant.
pub open spec fn no_descent(dates: Seq<TransitDate>, n: int) -> bool {
    forall|i: int, j: int|
        0 <= i < j < n && (#[trigger] dates[i]).entity_id == (#[trigger] dates[j]).entity_id
            ==> dates[i].date <= dates[j].date
}

proof fn descents_are_found(pool: u32, dates: Seq<TransitDate>, n: int)
    requires
        sorting::ascending(dates),
        0 <= n <= dates.len(),
    ensures
        first_descent(pool, dates, n) is None <==> no_descent(dates, n),
    decreases n,
{
    if n > 1 {
        descents_are_found(pool, dates, n - 1);
        if first_descent(pool, dates, n) is None {
            assert forall|i: int, j: int|
                0 <= i < j < n && (#[trigger] dates[i]).entity_id == (
                #[trigger] dates[j]).entity_id implies dates[i].date <= dates[j].date by {
                if j == n - 1 && i < n - 2 {
                    assert(sorting::at_most(dates[i].key(), dates[n - 2].key()));
                    assert(sorting::at_most(dates[n - 2].key(), dates[n - 1].key()));
                }
            }
        }
    }
}

/// A pool's dates are accepted exactly where each is absent or a day of the
/// calendar and, by plant and lag, no arrival date is before an earlier one of the
/// same plant.
pub proof fn accepted_dates(pool: StageCutsReadResult)
    ensures
        pool_error(pool) is None <==> {
            let slots = pool.entity_manifest@;
            let dates = sorting::sorted(transit_dates(slots));
            &&& forall|i: int|
                0 <= i < slots.len() ==> well_formed((#[trigger] slots[i]).reference_date)
                    && well_formed(slots[i].interval_start) && well_formed(slots[i].interval_end)
            &&& no_descent(dates, dates.len() as int)
        },
{
    let slots = pool.entity_manifest@;
    let dates = sorting::sorted(transit_dates(slots));
    slot_errors_are_found(pool.stage_id, slots, slots.len() as int);
    sorting::sorted_is(transit_dates(slots));
    descents_are_found(pool.stage_id, dates, dates.len() as int);
}

proof fn buckets_are_collected(slots: Seq<EntitySlot>, i: int)
    requires
        0 <= i < slots.len(),
        is_dated_bucket(slots[i]),
    ensures
        transit_dates(slots).contains(bucket_date(slots[i])),
    decreases slots.len(),
{
    let dates = transit_dates(slots);
    if i == slots.len() - 1 {
        assert(dates[dates.len() - 1] == bucket_date(slots[i]));
    } else {
        buckets_are_collected(slots.drop_last(), i);
        let before = transit_dates(slots.drop_last());
        let at = before.index_of(bucket_date(slots[i]));
        assert(dates[at] == bucket_date(slots[i]));
    }
}

/// In an accepted pool, of two dated transit buckets of one plant the one with the
/// greater lag does not arrive earlier.
pub proof fn greater_lags_arrive_no_earlier(pool: StageCutsReadResult, i: int, j: int)
    requires
        pool_error(pool) is None,
        0 <= i < pool.entity_manifest@.len(),
        0 <= j < pool.entity_manifest@.len(),
        is_dated_bucket(pool.entity_manifest@[i]),
        is_dated_bucket(pool.entity_manifest@[j]),
        pool.entity_manifest@[i].entity_id == pool.entity_manifest@[j].entity_id,
        pool.entity_manifest@[i].subindex < pool.entity_manifest@[j].subindex,
    ensures
        pool.entity_manifest@[i].interval_start <= pool.entity_manifest@[j].interval_start,
{
    broadcast use vstd::seq_lib::group_to_multiset_ensures;

    let slots = pool.entity_manifest@;
    let listed = transit_dates(slots);
    let dates = sorting::sorted(listed);
    let a = bucket_date(slots[i]);
    let b = bucket_date(slots[j]);
    accepted_dates(pool);
    buckets_are_collected(slots, i);
    buckets_are_collected(slots, j);
    sorting::sorted_is(listed);
    sorting::sorting_keeps_records(listed, dates);
    assert(listed.to_multiset().count(a) > 0);
    assert(listed.to_multiset().count(b) > 0);
    assert(dates.contains(a));
    assert(dates.contains(b));
    let p = dates.index_of(a);
    let q = dates.index_of(b);
    if q < p {
        assert(sorting::at_most(dates[q].key(), dates[p].key()));
    }
    assert(p < q);
    assert(dates[p].entity_id == dates[q].entity_id);
}

// ── File names ───────────────────────────────────────────────────────────────

/// A number in decimal, with at least three digits.
pub open spec fn three_digits(n: nat) -> Seq<char> {
    if n < 10 {
        "00"@ + text::decimal(n)
    } else if n < 100 {
        "0"@ + text::decimal(n)
    } else {
        text::decimal(n)
    }
}

/// The name of a payload's file: its id with at least three digits, and `.bin`.
pub fn bin_file_name(id: u32) -> (r: String)
    ensures
        r@ == three_digits(id as nat) + ".bin"@,
{
    let digits: String = text::decimal_text(id as u64);
    if id < 10 {
        text::join3("00", digits.as_str(), ".bin")
    } else if id < 100 {
        text::join3("0", digits.as_str(), ".bin")
    } else {
        text::join2(digits.as_str(), ".bin")
    }
}

/// Whether a file in a payload directory holds a payload: other files are passed
/// over.
pub fn is_bin_file(name: &str) -> (r: bool)
    ensures
        r == text::ends_in(name@, ".bin"@),
{
    text::ends_in_text(name, ".bin")
}

/// A file with a payload's name is read as one.
pub proof fn payload_files_are_read(id: u32)
    ensures
        text::ends_in(three_digits(id as nat) + ".bin"@, ".bin"@),
{
    let name = three_digits(id as nat) + ".bin"@;
    let start = name.len() - ".bin"@.len();
    assert(name.subrange(start, start + ".bin"@.len()) =~= ".bin"@);
}

proof fn leading_digit(n: nat)
    requires
        n > 0,
    ensures
        text::decimal(n).len() > 0,
        text::decimal(n)[0] != '0',
    decreases n,
{
    if n >= 10 {
        leading_digit(n / 10);
    }
}

/// Payloads with different ids have files with different names.
pub proof fn file_names_are_distinct(a: u32, b: u32)
    requires
        three_digits(a as nat) + ".bin"@ == three_digits(b as nat) + ".bin"@,
    ensures
        a == b,
{
    reveal_strlit("00");
    reveal_strlit("0");
    let x = three_digits(a as nat);
    let y = three_digits(b as nat);
    let end = ".bin"@;
    assert(x =~= (x + end).subrange(0, (x + end).len() - end.len()));
    assert(y =~= (y + end).subrange(0, (y + end).len() - end.len()));
    if a > 0 {
        leading_digit(a as nat);
    }
    if b > 0 {
        leading_digit(b as nat);
    }
    three_digits_hold(a as nat);
    three_digits_hold(b as nat);
    text::decimal_is_injective(a as nat, b as nat);
}

/// How many zeros stand before a number's own digits.
spec fn zeros(n: nat) -> int {
    if n < 10 {
        2
    } else if n < 100 {
        1
    } else {
        0
    }
}

proof fn three_digits_hold(n: nat)
    ensures
        text::decimal(n) == three_digits(n).subrange(zeros(n), three_digits(n).len() as int),
        forall|i: int| 0 <= i < zeros(n) ==> three_digits(n)[i] == '0',
        n > 0 ==> three_digits(n)[zeros(n)] == text::decimal(n)[0],
        n < 10 ==> text::decimal(n).len() == 1,
        10 <= n < 100 ==> text::decimal(n).len() == 2,
        n >= 100 ==> text::decimal(n).len() >= 3,
{
    reveal_strlit("00");
    reveal_strlit("0");
    reveal_with_fuel(text::decimal, 3);
    if n >= 100 {
        digits_grow(n / 100);
        assert(n / 10 / 10 == n / 100);
    }
    assert(text::decimal(n) =~= three_digits(n).subrange(zeros(n), three_digits(n).len() as int));
}

proof fn digits_grow(n: nat)
    ensures
        text::decimal(n).len() >= 1,
    decreases n,
{
    if n >= 10 {
        digits_grow(n / 10);
    }
}

// ── Assembling a checkpoint ──────────────────────────────────────────────────

impl HasKey for StageCutsReadResult {
    open spec fn key(&self) -> Key {
        (self.stage_id as int, 0, 0)
    }
}

impl Keyed for StageCutsReadResult {
    fn sort_key(&self) -> (r: (i64, i64, i64)) {
        (self.stage_id as i64, 0, 0)
    }
}

impl HasKey for OwnedPolicyBasisRecord {
    open spec fn key(&self) -> Key {
        (self.stage_id as int, 0, 0)
    }
}

impl Keyed for OwnedPolicyBasisRecord {
    fn sort_key(&self) -> (r: (i64, i64, i64)) {
        (self.stage_id as i64, 0, 0)
    }
}

impl HasKey for StageStatesReadResult {
    open spec fn key(&self) -> Key {
        (self.stage_id as int, 0, 0)
    }
}

impl Keyed for StageStatesReadResult {
    fn sort_key(&self) -> (r: (i64, i64, i64)) {
        (self.stage_id as i64, 0, 0)
    }
}

/// Puts the parts of a checkpoint in the order of their ids, in whatever order they
/// were listed, and checks the dates.
pub fn assemble_checkpoint(
    metadata: CheckpointManifest,
    stage_cuts: Vec<StageCutsReadResult>,
    stage_bases: Vec<OwnedPolicyBasisRecord>,
    stage_states: Vec<StageStatesReadResult>,
) -> (r: Result<PolicyCheckpoint, OutputError>)
    ensures
        answers(
            r,
            first_pool_error(sorting::sorted(stage_cuts@), stage_cuts@.len() as int),
        ),
        r matches Ok(checkpoint) ==> {
            &&& checkpoint.metadata == metadata
            &&& checkpoint.stage_cuts@ == sorting::sorted(stage_cuts@)
            &&& checkpoint.stage_bases@ == sorting::sorted(stage_bases@)
            &&& checkpoint.stage_states@ == sorting::sorted(stage_states@)
        },
{
    let ghost listed = stage_cuts@;
    let checkpoint = PolicyCheckpoint {
        metadata,
        stage_cuts: sorting::sort_by_key(stage_cuts),
        stage_bases: sorting::sort_by_key(stage_bases),
        stage_states: sorting::sort_by_key(stage_states),
    };
    proof {
        sorting::sorting_keeps_records(listed, checkpoint.stage_cuts@);
    }
    match validate_checkpoint_dates(&checkpoint) {
        Ok(_) => Ok(checkpoint),
        Err(e) => Err(e),
    }
}

/// The pools of a checkpoint are those that were listed, by ascending id, and so are its
/// bases and its states.
pub proof fn parts_come_by_id(
    stage_cuts: Seq<StageCutsReadResult>,
    stage_bases: Seq<OwnedPolicyBasisRecord>,
    stage_states: Seq<StageStatesReadResult>,
)
    ensures
        sorting::sorted(stage_cuts).to_multiset() == stage_cuts.to_multiset(),
        sorting::sorted(stage_bases).to_multiset() == stage_bases.to_multiset(),
        sorting::sorted(stage_states).to_multiset() == stage_states.to_multiset(),
        forall|i: int, j: int|
            0 <= i < j < stage_cuts.len() ==> (
            #[trigger] sorting::sorted(stage_cuts)[i]).stage_id <= (
            #[trigger] sorting::sorted(stage_cuts)[j]).stage_id,
        forall|i: int, j: int|
            0 <= i < j < stage_bases.len() ==> (
            #[trigger] sorting::sorted(stage_bases)[i]).stage_id <= (
            #[trigger] sorting::sorted(stage_bases)[j]).stage_id,
        forall|i: int, j: int|
            0 <= i < j < stage_states.len() ==> (
            #[trigger] sorting::sorted(stage_states)[i]).stage_id <= (
            #[trigger] sorting::sorted(stage_states)[j]).stage_id,
{
    let a = sorting::sorted(stage_cuts);
    let b = sorting::sorted(stage_bases);
    let c = sorting::sorted(stage_states);
    sorting::sorted_is(stage_cuts);
    sorting::sorted_is(stage_bases);
    sorting::sorted_is(stage_states);
    sorting::sorting_keeps_records(stage_cuts, a);
    sorting::sorting_keeps_records(stage_bases, b);
    sorting::sorting_keeps_records(stage_states, c);
    assert forall|i: int, j: int| 0 <= i < j < stage_cuts.len() implies (
    #[trigger] a[i]).stage_id <= (#[trigger] a[j]).stage_id by {
        assert(sorting::at_most(a[i].key(), a[j].key()));
    }
    assert forall|i: int, j: int| 0 <= i < j < stage_bases.len() implies (
    #[trigger] b[i]).stage_id <= (#[trigger] b[j]).stage_id by {
        assert(sorting::at_most(b[i].key(), b[j].key()));
    }
    assert forall|i: int, j: int| 0 <= i < j < stage_states.len() implies (
    #[trigger] c[i]).stage_id <= (#[trigger] c[j]).stage_id by {
        assert(sorting::at_most(c[i].key(), c[j].key()));
    }
}

/// In an accepted checkpoint every date of every slot of every pool is absent, which is
/// the least number, or a day of the calendar.
pub proof fn accepted_checkpoints_have_dates(
    pools: Seq<StageCutsReadResult>,
    k: int,
    i: int,
)
    requires
        first_pool_error(pools, pools.len() as int) is None,
        0 <= k < pools.len(),
        0 <= i < pools[k].entity_manifest@.len(),
    ensures
        ({
            let slot = pools[k].entity_manifest@[i];
            &&& slot.reference_date == i32::MIN || date::slot_date(slot.reference_date as int) is Some
            &&& slot.interval_start == i32::MIN || date::slot_date(slot.interval_start as int) is Some
            &&& slot.interval_end == i32::MIN || date::slot_date(slot.interval_end as int) is Some
        }),
        forall|j: int|
            0 <= j < pools[k].entity_manifest@.len() ==> {
                let a = pools[k].entity_manifest@[i];
                let b = #[trigger] pools[k].entity_manifest@[j];
                a.entity_type == 3 && b.entity_type == 3 && a.entity_id == b.entity_id && a.subindex
                    < b.subindex && a.interval_start != i32::MIN && b.interval_start != i32::MIN
                    ==> a.interval_start <= b.interval_start
            },
{
    pools_are_checked(pools, pools.len() as int);
    assert(pool_error(pools[k]) is None);
    accepted_dates(pools[k]);
    let slots = pools[k].entity_manifest@;
    assert(well_formed(slots[i].reference_date));
    assert forall|j: int| 0 <= j < slots.len() implies {
        let a = slots[i];
        let b = #[trigger] slots[j];
        a.entity_type == 3 && b.entity_type == 3 && a.entity_id == b.entity_id && a.subindex
            < b.subindex && a.interval_start != i32::MIN && b.interval_start != i32::MIN
            ==> a.interval_start <= b.interval_start
    } by {
        let a = slots[i];
        let b = slots[j];
        if a.entity_type == 3 && b.entity_type == 3 && a.entity_id == b.entity_id && a.subindex
            < b.subindex && a.interval_start != i32::MIN && b.interval_start != i32::MIN {
            greater_lags_arrive_no_earlier(pools[k], i, j);
        }
    }
}

proof fn pools_are_checked(pools: Seq<StageCutsReadResult>, n: int)
    requires
        0 <= n <= pools.len(),
    ensures
        first_pool_error(pools, n) is None <==> forall|k: int|
            0 <= k < n ==> pool_error(#[trigger] pools[k]) is None,
    decreases n,
{
    if n > 0 {
        pools_are_checked(pools, n - 1);
    }
}

/// A checkpoint is accepted where every date is absent or a day of the calendar, and no
/// transit bucket of a plant arrives before another of that plant with no greater lag.
pub proof fn ordered_checkpoints_are_accepted(pools: Seq<StageCutsReadResult>)
    requires
        forall|k: int, i: int|
            0 <= k < pools.len() && 0 <= i < pools[k].entity_manifest@.len() ==> {
                let slot = #[trigger] pools[k].entity_manifest@[i];
                &&& slot.reference_date == i32::MIN || date::slot_date(
                    slot.reference_date as int,
                ) is Some
                &&& slot.interval_start == i32::MIN || date::slot_date(
                    slot.interval_start as int,
                ) is Some
                &&& slot.interval_end == i32::MIN || date::slot_date(slot.interval_end as int) is Some
            },
        forall|k: int, i: int, j: int|
            0 <= k < pools.len() && 0 <= i < pools[k].entity_manifest@.len() && 0 <= j
                < pools[k].entity_manifest@.len() ==> {
                let a = #[trigger] pools[k].entity_manifest@[i];
                let b = #[trigger] pools[k].entity_manifest@[j];
                a.entity_type == 3 && b.entity_type == 3 && a.entity_id == b.entity_id && a.subindex
                    <= b.subindex && a.interval_start != i32::MIN && b.interval_start != i32::MIN
                    ==> a.interval_start <= b.interval_start
            },
    ensures
        first_pool_error(pools, pools.len() as int) is None,
{
    pools_are_checked(pools, pools.len() as int);
    assert forall|k: int| 0 <= k < pools.len() implies pool_error(#[trigger] pools[k]) is None by {
        let slots = pools[k].entity_manifest@;
        let listed = transit_dates(slots);
        let dates = sorting::sorted(listed);
        accepted_dates(pools[k]);
        sorting::sorted_is(listed);
        assert forall|i: int| 0 <= i < slots.len() implies well_formed(
            (#[trigger] slots[i]).reference_date,
        ) && well_formed(slots[i].interval_start) && well_formed(slots[i].interval_end) by {
            assert(pools[k].entity_manifest@[i] == slots[i]);
        }
        assert forall|p: int, q: int|
            0 <= p < q < dates.len() && (#[trigger] dates[p]).entity_id == (
            #[trigger] dates[q]).entity_id implies dates[p].date <= dates[q].date by {
            assert(sorting::at_most(dates[p].key(), dates[q].key()));
            let x = sorting::sorted_comes_from(listed, p);
            let y = sorting::sorted_comes_from(listed, q);
            let i = bucket_comes_from(slots, x);
            let j = bucket_comes_from(slots, y);
            assert(pools[k].entity_manifest@[i] == slots[i]);
            assert(pools[k].entity_manifest@[j] == slots[j]);
        }
    }
}

proof fn bucket_comes_from(slots: Seq<EntitySlot>, x: int) -> (i: int)
    requires
        0 <= x < transit_dates(slots).len(),
    ensures
        0 <= i < slots.len(),
        is_dated_bucket(slots[i]),
        transit_dates(slots)[x] == bucket_date(slots[i]),
    decreases slots.len(),
{
    if is_dated_bucket(slots.last()) && x == transit_dates(slots).len() - 1 {
        slots.len() - 1
    } else {
        bucket_comes_from(slots.drop_last(), x)
    }
}

/// The name of a payload's file begins with the id's hundreds, tens and units; from one
/// thousand on, with the whole id. The rest is `.bin`.
pub proof fn names_begin_with_three_digits(id: nat)
    ensures
        id < 1000 ==> {
            let name = three_digits(id);
            &&& name.len() == 3
            &&& name[0] as int == '0' as int + id / 100
            &&& name[1] as int == '0' as int + id / 10 % 10
            &&& name[2] as int == '0' as int + id % 10
        },
        id >= 1000 ==> three_digits(id) == text::decimal(id),
{
    reveal_with_fuel(text::decimal, 3);
    reveal_strlit("00");
    reveal_strlit("0");
}

/// What is said of the dates of a pool's slots names the slot that is wrong, the one that is
/// given back: the pool, the slot's subindex, the field and the number in it, which is no day
/// of the calendar and does not stand for an absent date.
pub proof fn the_wrong_date_is_named(pool: u32, slots: Seq<EntitySlot>, n: int) -> (i: int)
    requires
        0 <= n <= slots.len(),
        first_slot_error(pool, slots, n) is Some,
    ensures
        0 <= i < n,
        ({
            let message = first_slot_error(pool, slots, n)->0;
            let slot = slots[i];
            let front = "pool "@ + text::decimal(pool as nat) + " subindex "@ + text::decimal(
                slot.subindex as nat,
            ) + " carries malformed "@;
            ||| message == front + "reference_date"@ + " "@ + text::signed_decimal(
                slot.reference_date as int,
            ) && slot.reference_date != i32::MIN && date::slot_date(
                slot.reference_date as int,
            ) is None
            ||| message == front + "interval_start"@ + " "@ + text::signed_decimal(
                slot.interval_start as int,
            ) && slot.interval_start != i32::MIN && date::slot_date(
                slot.interval_start as int,
            ) is None
            ||| message == front + "interval_end"@ + " "@ + text::signed_decimal(
                slot.interval_end as int,
            ) && slot.interval_end != i32::MIN && date::slot_date(
                slot.interval_end as int,
            ) is None
        }),
    decreases n,
{
    if first_slot_error(pool, slots, n - 1) is Some {
        the_wrong_date_is_named(pool, slots, n - 1)
    } else {
        n - 1
    }
}

proof fn descent_is_at(pool: u32, dates: Seq<TransitDate>, n: int) -> (k: int)
    requires
        0 <= n <= dates.len(),
        first_descent(pool, dates, n) is Some,
    ensures
        0 <= k < n - 1,
        descends(dates[k], dates[k + 1]),
        first_descent(pool, dates, n) == Some(descent_message(pool, dates[k], dates[k + 1])),
    decreases n,
{
    if first_descent(pool, dates, n - 1) is Some {
        descent_is_at(pool, dates, n - 1)
    } else {
        n - 2
    }
}

/// What is said of the order of a pool's arrival dates names two transit buckets of one plant,
/// those that are given back: the later one has no lesser lag, and arrives earlier.
pub proof fn the_descent_is_named(pool: u32, slots: Seq<EntitySlot>) -> (at: (int, int))
    requires
        date_order_error(pool, slots) is Some,
    ensures
        0 <= at.0 < slots.len(),
        0 <= at.1 < slots.len(),
        ({
            let a = slots[at.0];
            let b = slots[at.1];
            &&& a.entity_type == 3 && b.entity_type == 3
            &&& a.entity_id == b.entity_id
            &&& a.subindex <= b.subindex
            &&& b.interval_start < a.interval_start
            &&& a.interval_start != i32::MIN && b.interval_start != i32::MIN
            &&& date_order_error(pool, slots)->0 == "pool "@ + text::decimal(pool as nat)
                + " subindex "@ + text::decimal(b.subindex as nat) + " carries interval_start "@
                + text::signed_decimal(b.interval_start as int) + ", earlier than subindex "@
                + text::decimal(a.subindex as nat) + "'s "@ + text::signed_decimal(
                a.interval_start as int,
            )
        }),
{
    let listed = transit_dates(slots);
    let dates = sorting::sorted(listed);
    sorting::sorted_is(listed);
    let k = descent_is_at(pool, dates, dates.len() as int);
    assert(sorting::at_most(dates[k].key(), dates[k + 1].key()));
    let x = sorting::sorted_comes_from(listed, k);
    let y = sorting::sorted_comes_from(listed, k + 1);
    let i = bucket_comes_from(slots, x);
    let j = bucket_comes_from(slots, y);
    (i, j)
}

} // verus!
