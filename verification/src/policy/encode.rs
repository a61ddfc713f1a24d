//! Writing policy artifacts.
//!
//! Each `serialize_*` function builds a buffer with the FlatBuffers builder. The
//! `*_bytes` functions say which bytes these are, so that equal records give equal
//! buffers; and each buffer decodes to the record that was written.

use vstd::prelude::*;

use crate::flat::builder;
use crate::flat::builder::Builder;
use crate::flat::layout;
use crate::flat::layout::{Draft, Entry};
use crate::flat::objects;
use crate::flat::objects::{Encoded, Field};
use crate::flat::wire;
use crate::float::Float64;
use crate::policy::decode;
use crate::policy::decode::Stored;
use crate::policy::records;
use crate::policy::records::{
    BasisView, CutView, EntitySlot, OwnedPolicyBasisRecord, OwnedPolicyCutRecord,
    PolicyBasisRecord, StageCutsPayload, StageCutsReadResult, StageCutsView, StageStatesPayload,
    StageStatesReadResult, StageStatesView,
};
use crate::policy::schema;
use crate::policy::tables;

verus! {

// ── Root tables ──────────────────────────────────────────────────────────────

/// The finished buffer with the root table that has the fields `entries`.
pub open spec fn finished(d: Draft, entries: Seq<Entry>) -> Seq<u8> {
    d.table(entries).finish(d.table_at(entries), decode::identifier_bytes()).bytes
}

/// A reader of a finished buffer finds its root table.
pub proof fn finds_root(d: Draft, entries: Seq<Entry>)
    requires
        objects::ready(d),
        layout::proper_entries(entries),
        entries.len() <= 100,
        finished(d, entries).len() <= layout::MAX_BUFFER_LEN,
    ensures
        ({
            let buf = finished(d, entries);
            &&& objects::tabled(d, entries, buf)
            &&& layout::ends_in(buf, d.bytes)
            &&& decode::root_table(buf) == Ok::<(int, int), Seq<char>>(
                (objects::table_pos(d, entries, buf), objects::vtable_pos(d, entries, buf)),
            )
        }),
{
    let buf = finished(d, entries);
    layout::table_extends(d, entries);
    layout::finish_is_found(
        d.table(entries),
        d.table_at(entries),
        decode::identifier_bytes(),
    );
    layout::ends_in_chain(buf, d.table(entries).bytes, d.bytes);
    objects::finds_vtable(d, entries, buf);
}

/// A finished buffer takes no fewer bytes than what it is made of, and few more.
pub(crate) proof fn finished_len(d: Draft, entries: Seq<Entry>)
    requires
        objects::ready(d),
        layout::proper_entries(entries),
    ensures
        d.bytes.len() <= d.table(entries).bytes.len() <= finished(d, entries).len(),
        finished(d, entries).len() <= d.bytes.len() + layout::table_cost(entries) + 15,
{
    layout::table_extends(d, entries);
    layout::finish_len(d.table(entries), d.table_at(entries), decode::identifier_bytes());
}

/// Writes the root table and finishes the buffer.
pub(crate) fn finish_root(b: &mut Builder, fields: &Vec<Field>) -> (r: Vec<u8>)
    requires
        objects::ready(builder::draft(*old(b))),
        layout::proper_entries(objects::entries_of(fields@)),
        fields@.len() <= 100,
        forall|i: int|
            0 <= i < fields@.len() ==> (#[trigger] fields@[i]).leads_into(
                builder::written(*old(b)).len(),
            ),
        finished(builder::draft(*old(b)), objects::entries_of(fields@)).len()
            <= layout::MAX_BUFFER_LEN,
    ensures
        r@ == finished(builder::draft(*old(b)), objects::entries_of(fields@)),
{
    proof {
        layout::table_extends(builder::draft(*b), objects::entries_of(fields@));
        finished_len(builder::draft(*b), objects::entries_of(fields@));
        identifier_is_ascii();
    }
    let root: u32 = objects::build_table(b, fields);
    builder::finish(b, root, schema::POLICY_FILE_IDENTIFIER);
    builder::finished_data(b)
}

proof fn identifier_is_ascii()
    ensures
        vstd::utf8::encode_utf8(schema::POLICY_FILE_IDENTIFIER@) == decode::identifier_bytes(),
{
    reveal_strlit("CBVF");
    let chars = schema::POLICY_FILE_IDENTIFIER@;
    assert(chars =~= seq!['C', 'B', 'V', 'F']);
    vstd::utf8::is_ascii_chars_encode_utf8(chars);
    assert(vstd::utf8::encode_utf8(chars) =~= decode::identifier_bytes());
}

// ── Bases ────────────────────────────────────────────────────────────────────

/// The draft with a basis's column codes.
pub open spec fn basis_columns(basis: BasisView) -> Draft {
    layout::blank().block(basis.column_status.len(), basis.column_status, 1)
}

/// The draft with a basis's column and row codes.
pub open spec fn basis_rows(basis: BasisView) -> Draft {
    basis_columns(basis).block(basis.row_status.len(), basis.row_status, 1)
}

/// The fields of a basis's root table.
pub open spec fn basis_entries(basis: BasisView) -> Seq<Entry> {
    seq![
        objects::u32_entry(schema::BASIS_FIELD_STAGE_ID, basis.stage_id),
        objects::u32_entry(schema::BASIS_FIELD_ITERATION, basis.iteration),
        objects::u32_entry(schema::BASIS_FIELD_NUM_COLUMNS, basis.column_status.len() as u32),
        objects::u32_entry(schema::BASIS_FIELD_NUM_ROWS, basis.row_status.len() as u32),
        Entry::Offset(schema::BASIS_FIELD_COLUMN_STATUS, basis_columns(basis).bytes.len()),
        Entry::Offset(schema::BASIS_FIELD_ROW_STATUS, basis_rows(basis).bytes.len()),
        objects::u32_entry(schema::BASIS_FIELD_NUM_CUT_ROWS, basis.num_cut_rows),
    ]
}

/// The buffer of a basis.
pub open spec fn stage_basis_bytes(basis: BasisView) -> Seq<u8> {
    finished(basis_rows(basis), basis_entries(basis))
}

/// The buffer of a basis stays within the format's limit.
pub open spec fn stage_basis_fits(basis: BasisView) -> bool {
    stage_basis_bytes(basis).len() <= layout::MAX_BUFFER_LEN
}

/// The capacity that the builder of a basis starts with.
pub open spec fn stage_basis_capacity(basis: BasisView) -> nat {
    64 + basis.column_status.len() + basis.row_status.len()
}

/// A basis whose codes leave 111 bytes free stays within the limits.
pub proof fn small_bases_fit(basis: BasisView)
    requires
        basis.column_status.len() + basis.row_status.len() + 111 <= layout::MAX_BUFFER_LEN,
    ensures
        stage_basis_fits(basis),
        stage_basis_capacity(basis) <= builder::MAX_CAPACITY,
{
    basis_blocks_extend(basis);
    basis_entries_are_proper(basis);
    finished_len(basis_rows(basis), basis_entries(basis));
}

proof fn basis_entries_are_proper(basis: BasisView)
    ensures
        layout::proper_entries(basis_entries(basis)),
        layout::table_cost(basis_entries(basis)) == 74,
{
    wire::le_bytes_lengths();
    let entries = basis_entries(basis);
    reveal_with_fuel(layout::fields_cost, 8);
    reveal_with_fuel(layout::entries_vtable_size, 8);
}

proof fn basis_blocks_extend(basis: BasisView)
    ensures
        objects::ready(basis_columns(basis)),
        objects::ready(basis_rows(basis)),
        layout::ends_in(basis_rows(basis).bytes, basis_columns(basis).bytes),
        basis.column_status.len() < basis_columns(basis).bytes.len(),
        basis_columns(basis).bytes.len() <= basis.column_status.len() + 11,
        basis.row_status.len() < basis_rows(basis).bytes.len(),
        basis_columns(basis).bytes.len() <= basis_rows(basis).bytes.len(),
        basis_rows(basis).bytes.len() <= basis.column_status.len() + basis.row_status.len() + 22,
        layout::stands_at(
            basis_columns(basis).bytes,
            basis_columns(basis).bytes.len(),
            wire::le_bytes(basis.column_status.len(), 4) + basis.column_status,
        ),
        layout::stands_at(
            basis_rows(basis).bytes,
            basis_rows(basis).bytes.len(),
            wire::le_bytes(basis.row_status.len(), 4) + basis.row_status,
        ),
{
    layout::block_extends(layout::blank(), basis.column_status.len(), basis.column_status, 1);
    layout::block_extends(
        basis_columns(basis),
        basis.row_status.len(),
        basis.row_status,
        1,
    );
}

/// What is read of a written basis is that basis.
pub proof fn stage_basis_round_trips(basis: BasisView)
    requires
        stage_basis_fits(basis),
    ensures
        decode::decode_stage_basis(stage_basis_bytes(basis)) == Ok::<BasisView, Seq<char>>(basis),
{
    let d = basis_rows(basis);
    let c = basis_columns(basis);
    let entries = basis_entries(basis);
    let buf = stage_basis_bytes(basis);
    basis_blocks_extend(basis);
    basis_entries_are_proper(basis);
    finished_len(d, entries);
    finds_root(d, entries);
    layout::ends_in_chain(buf, d.bytes, c.bytes);
    layout::tail_stands(
        buf,
        c.bytes,
        c.bytes.len(),
        wire::le_bytes(basis.column_status.len(), 4) + basis.column_status,
    );
    layout::tail_stands(
        buf,
        d.bytes,
        d.bytes.len(),
        wire::le_bytes(basis.row_status.len(), 4) + basis.row_status,
    );
    layout::u8s_are_found(buf, c.bytes.len(), basis.column_status);
    layout::u8s_are_found(buf, d.bytes.len(), basis.row_status);
    objects::finds_u32(d, entries, buf, 0, schema::BASIS_FIELD_STAGE_ID, basis.stage_id);
    objects::finds_u32(d, entries, buf, 1, schema::BASIS_FIELD_ITERATION, basis.iteration);
    objects::finds_offset(
        d,
        entries,
        buf,
        4,
        schema::BASIS_FIELD_COLUMN_STATUS,
        c.bytes.len(),
    );
    objects::finds_offset(d, entries, buf, 5, schema::BASIS_FIELD_ROW_STATUS, d.bytes.len());
    objects::finds_u32(d, entries, buf, 6, schema::BASIS_FIELD_NUM_CUT_ROWS, basis.num_cut_rows);
}

/// Writes a solver basis. The numbers of columns and rows are those of the status
/// codes.
pub fn serialize_stage_basis<'a>(record: &PolicyBasisRecord<'a>) -> (r: Vec<u8>)
    requires
        builder::naturally_aligned(),
        stage_basis_fits(record@),
        stage_basis_capacity(record@) <= builder::MAX_CAPACITY,
    ensures
        r@ == stage_basis_bytes(record@),
        decode::decode_stage_basis(r@) == Ok::<BasisView, Seq<char>>(record@),
{
    let ghost basis = record@;
    proof {
        stage_basis_round_trips(basis);
        basis_blocks_extend(basis);
        basis_entries_are_proper(basis);
        finished_len(basis_rows(basis), basis_entries(basis));
    }
    let columns: usize = record.column_status.len();
    let rows: usize = record.row_status.len();
    let mut builder: Builder = builder::with_capacity(64 + columns + rows);
    let b: &mut Builder = &mut builder;
    let column_end: u32 = builder::create_u8_vector(b, record.column_status);
    let row_end: u32 = builder::create_u8_vector(b, record.row_status);
    let fields: Vec<Field> = vec![
        Field::U32(schema::BASIS_FIELD_STAGE_ID, record.stage_id),
        Field::U32(schema::BASIS_FIELD_ITERATION, record.iteration),
        Field::U32(schema::BASIS_FIELD_NUM_COLUMNS, columns as u32),
        Field::U32(schema::BASIS_FIELD_NUM_ROWS, rows as u32),
        Field::Offset(schema::BASIS_FIELD_COLUMN_STATUS, column_end),
        Field::Offset(schema::BASIS_FIELD_ROW_STATUS, row_end),
        Field::U32(schema::BASIS_FIELD_NUM_CUT_ROWS, record.num_cut_rows),
    ];
    proof {
        assert(objects::entries_of(fields@) =~= basis_entries(basis));
    }
    finish_root(b, &fields)
}

// ── Lists of entity slots ────────────────────────────────────────────────────

proof fn slots_cost(slots: Seq<EntitySlot>)
    ensures
        objects::cost_of(slots) == 66 * slots.len(),
    decreases slots.len(),
{
    if slots.len() > 0 {
        slots_cost(slots.drop_last());
    }
}

/// A list of entity slots in a field is found.
proof fn finds_entity_manifest(
    d: Draft,
    entries: Seq<Entry>,
    buf: Seq<u8>,
    i: int,
    slot: u16,
    start: Draft,
    list: Draft,
    slots: Seq<EntitySlot>,
)
    requires
        objects::tabled(d, entries, buf),
        objects::ready(start),
        0 <= i < entries.len(),
        layout::ends_in(buf, objects::put_all(slots, start).bytes),
        layout::ends_in(list.bytes, objects::put_all(slots, start).bytes),
        entries[i] == Entry::Offset(
            slot,
            list.offset_block(objects::offsets_of(slots, start)).bytes.len(),
        ),
        layout::ends_in(buf, list.offset_block(objects::offsets_of(slots, start)).bytes),
        list.offset_block(objects::offsets_of(slots, start)).bytes.len() <= d.bytes.len(),
    ensures
        decode::entity_manifest_field(
            buf,
            objects::table_pos(d, entries, buf),
            objects::vtable_pos(d, entries, buf),
            slot,
        ) == Ok::<Seq<EntitySlot>, Seq<char>>(slots),
{
    let targets = objects::offsets_of(slots, start);
    slots_cost(slots);
    objects::put_all_extends(slots, start);
    objects::put_all_is_found(slots, start, buf);
    assert forall|j: int| 0 <= j < targets.len() implies <EntitySlot as Stored>::at(
        buf,
        buf.len() - #[trigger] targets[j],
    ) == Some(slots[j]) by {
        assert(slots[j].found(buf, buf.len() - targets[j]));
    }
    tables::finds_list::<EntitySlot>(
        d,
        entries,
        buf,
        i,
        slot,
        decode::entity_manifest_errors(),
        list,
        targets,
        slots,
    );
}

/// Writes the vector that leads to objects written before.
pub(crate) fn build_offsets(b: &mut Builder, targets: &Vec<u32>) -> (r: u32)
    requires
        forall|i: int|
            0 <= i < targets@.len() ==> #[trigger] layout::u32_words(targets@)[i]
                <= builder::written(*old(b)).len(),
        builder::draft(*old(b)).offset_block(layout::u32_words(targets@)).bytes.len()
            <= layout::MAX_BUFFER_LEN,
    ensures
        builder::draft(*final(b)) == builder::draft(*old(b)).offset_block(
            layout::u32_words(targets@),
        ),
        r == builder::written(*final(b)).len(),
{
    proof {
        layout::offset_block_extends(builder::draft(*b), layout::u32_words(targets@));
        assert forall|i: int| 0 <= i < targets@.len() implies #[trigger] targets@[i]
            <= builder::written(*b).len() by {
            assert(layout::u32_words(targets@)[i] == targets@[i]);
        }
    }
    builder::create_offset_vector(b, targets.as_slice())
}

// ── Visited states ───────────────────────────────────────────────────────────

/// The draft with the entity slots.
pub open spec fn states_slots(states: StageStatesView) -> Draft {
    objects::put_all(states.entity_manifest, layout::blank())
}

/// The draft with the state vectors before them.
pub open spec fn states_data(states: StageStatesView) -> Draft {
    states_slots(states).block(
        states.data.len(),
        layout::words(layout::f64_words(states.data), 8),
        8,
    )
}

/// The draft with the list of entity slots before those.
pub open spec fn states_list(states: StageStatesView) -> Draft {
    states_data(states).offset_block(
        objects::offsets_of(states.entity_manifest, layout::blank()),
    )
}

/// The fields of the root table of visited states.
pub open spec fn states_entries(states: StageStatesView, data: nat, list: nat) -> Seq<Entry> {
    seq![
        objects::u32_entry(schema::STATES_FIELD_STAGE_ID, states.stage_id),
        objects::u32_entry(schema::STATES_FIELD_STATE_DIMENSION, states.state_dimension),
        objects::u32_entry(schema::STATES_FIELD_COUNT, states.count),
        Entry::Offset(schema::STATES_FIELD_DATA, data),
        Entry::Offset(schema::STATES_FIELD_ENTITY_MANIFEST, list),
        objects::i32_entry(schema::STATES_FIELD_NODE_ID, states.node_id),
    ]
}

/// The buffer of visited states.
pub open spec fn stage_states_bytes(states: StageStatesView) -> Seq<u8> {
    finished(
        states_list(states),
        states_entries(
            states,
            states_data(states).bytes.len(),
            states_list(states).bytes.len(),
        ),
    )
}

/// The buffer of visited states stays within the format's limit.
pub open spec fn stage_states_fits(states: StageStatesView) -> bool {
    stage_states_bytes(states).len() <= layout::MAX_BUFFER_LEN
}

/// The capacity that the builder of visited states starts with.
pub open spec fn stage_states_capacity(states: StageStatesView) -> nat {
    64 + 8 * states.data.len() + 32 * states.entity_manifest.len()
}

/// Visited states stay within the limits where 8 bytes per number and 70 per entity
/// slot leave 102 bytes free.
pub proof fn small_states_fit(states: StageStatesView)
    requires
        8 * states.data.len() + 70 * states.entity_manifest.len() + 102 <= layout::MAX_BUFFER_LEN,
    ensures
        stage_states_fits(states),
        stage_states_capacity(states) <= builder::MAX_CAPACITY,
{
    let data = states_data(states).bytes.len();
    let list = states_list(states).bytes.len();
    states_drafts_extend(states);
    states_entries_are_proper(states, data, list);
    finished_len(states_list(states), states_entries(states, data, list));
}

proof fn states_entries_are_proper(states: StageStatesView, data: nat, list: nat)
    ensures
        layout::proper_entries(states_entries(states, data, list)),
        layout::table_cost(states_entries(states, data, list)) == 65,
{
    wire::le_bytes_lengths();
    let entries = states_entries(states, data, list);
    reveal_with_fuel(layout::fields_cost, 7);
    reveal_with_fuel(layout::entries_vtable_size, 7);
}

proof fn states_drafts_extend(states: StageStatesView)
    ensures
        ({
            let slots = states_slots(states);
            let data = states_data(states);
            let list = states_list(states);
            let n = states.entity_manifest.len();
            &&& objects::ready(slots)
            &&& objects::ready(data)
            &&& objects::ready(list)
            &&& layout::ends_in(data.bytes, slots.bytes)
            &&& layout::ends_in(list.bytes, data.bytes)
            &&& data.bytes.len() <= list.bytes.len()
            &&& slots.bytes.len() <= 66 * n
            &&& slots.bytes.len() <= data.bytes.len() <= 66 * n + 8 * states.data.len() + 11
            &&& 8 * states.data.len() < data.bytes.len()
            &&& list.bytes.len() <= 70 * n + 8 * states.data.len() + 22
            &&& layout::stands_at(
                data.bytes,
                data.bytes.len(),
                wire::le_bytes(states.data.len(), 4) + layout::words(
                    layout::f64_words(states.data),
                    8,
                ),
            )
        }),
{
    slots_cost(states.entity_manifest);
    objects::put_all_extends(states.entity_manifest, layout::blank());
    layout::words_len(layout::f64_words(states.data), 8);
    layout::block_extends(
        states_slots(states),
        states.data.len(),
        layout::words(layout::f64_words(states.data), 8),
        8,
    );
    layout::offset_block_extends(
        states_data(states),
        objects::offsets_of(states.entity_manifest, layout::blank()),
    );
}

/// What is read of written visited states is those states.
pub proof fn stage_states_round_trips(states: StageStatesView)
    requires
        stage_states_fits(states),
    ensures
        decode::decode_stage_states(stage_states_bytes(states)) == Ok::<
            StageStatesView,
            Seq<char>,
        >(states),
{
    let slots = states_slots(states);
    let data = states_data(states);
    let d = states_list(states);
    let entries = states_entries(states, data.bytes.len(), d.bytes.len());
    let buf = stage_states_bytes(states);
    states_drafts_extend(states);
    states_entries_are_proper(states, data.bytes.len(), d.bytes.len());
    finished_len(d, entries);
    finds_root(d, entries);
    layout::ends_in_chain(buf, d.bytes, data.bytes);
    layout::ends_in_chain(buf, data.bytes, slots.bytes);
    layout::tail_stands(
        buf,
        data.bytes,
        data.bytes.len(),
        wire::le_bytes(states.data.len(), 4) + layout::words(layout::f64_words(states.data), 8),
    );
    layout::f64s_are_found(buf, data.bytes.len(), states.data);
    objects::finds_u32(d, entries, buf, 0, schema::STATES_FIELD_STAGE_ID, states.stage_id);
    objects::finds_u32(
        d,
        entries,
        buf,
        1,
        schema::STATES_FIELD_STATE_DIMENSION,
        states.state_dimension,
    );
    objects::finds_u32(d, entries, buf, 2, schema::STATES_FIELD_COUNT, states.count);
    objects::finds_offset(d, entries, buf, 3, schema::STATES_FIELD_DATA, data.bytes.len());
    finds_entity_manifest(
        d,
        entries,
        buf,
        4,
        schema::STATES_FIELD_ENTITY_MANIFEST,
        layout::blank(),
        data,
        states.entity_manifest,
    );
    objects::finds_i32(
        d,
        entries,
        buf,
        5,
        schema::STATES_FIELD_NODE_ID,
        states.node_id,
        records::STAGE_STATES_NODE_ID_SENTINEL,
    );
}

/// Writes visited states.
pub fn serialize_stage_states<'a>(payload: &StageStatesPayload<'a>) -> (r: Vec<u8>)
    requires
        builder::naturally_aligned(),
        stage_states_fits(payload@),
        stage_states_capacity(payload@) <= builder::MAX_CAPACITY,
    ensures
        r@ == stage_states_bytes(payload@),
        decode::decode_stage_states(r@) == Ok::<StageStatesView, Seq<char>>(payload@),
{
    let ghost states = payload@;
    proof {
        stage_states_round_trips(states);
        states_drafts_extend(states);
        slots_cost(states.entity_manifest);
        objects::put_all_extends(states.entity_manifest, layout::blank());
        assert(objects::values_of(payload.entity_manifest@) =~= states.entity_manifest);
        let data = states_data(states).bytes.len();
        let list = states_list(states).bytes.len();
        states_entries_are_proper(states, data, list);
        finished_len(states_list(states), states_entries(states, data, list));
    }
    let mut builder: Builder = builder::with_capacity(
        64 + 8 * payload.data.len() + 32 * payload.entity_manifest.len(),
    );
    let b: &mut Builder = &mut builder;
    let targets: Vec<u32> = objects::build_all(b, payload.entity_manifest);
    let data_end: u32 = builder::create_f64_vector(b, payload.data);
    let list_end: u32 = build_offsets(b, &targets);
    let fields: Vec<Field> = vec![
        Field::U32(schema::STATES_FIELD_STAGE_ID, payload.stage_id),
        Field::U32(schema::STATES_FIELD_STATE_DIMENSION, payload.state_dimension),
        Field::U32(schema::STATES_FIELD_COUNT, payload.count),
        Field::Offset(schema::STATES_FIELD_DATA, data_end),
        Field::Offset(schema::STATES_FIELD_ENTITY_MANIFEST, list_end),
        Field::I32(schema::STATES_FIELD_NODE_ID, payload.node_id),
    ];
    proof {
        assert(objects::entries_of(fields@) =~= states_entries(states, data_end as nat, list_end as nat));
    }
    finish_root(b, &fields)
}

// ── Pools of cuts ────────────────────────────────────────────────────────────

/// The draft with the cuts.
pub open spec fn pool_cuts(pool: StageCutsView) -> Draft {
    objects::put_all(pool.cuts, layout::blank())
}

/// The draft with the entity slots before them.
pub open spec fn pool_slots(pool: StageCutsView) -> Draft {
    objects::put_all(pool.entity_manifest, pool_cuts(pool))
}

/// The draft with the list of cuts before those.
pub open spec fn pool_cut_list(pool: StageCutsView) -> Draft {
    pool_slots(pool).offset_block(objects::offsets_of(pool.cuts, layout::blank()))
}

/// The draft with the indices of the active cuts before that.
pub open spec fn pool_active(pool: StageCutsView, active: Seq<u32>) -> Draft {
    pool_cut_list(pool).block(active.len(), layout::words(layout::u32_words(active), 4), 4)
}

/// The draft with the list of entity slots before those.
pub open spec fn pool_slot_list(pool: StageCutsView, active: Seq<u32>) -> Draft {
    pool_active(pool, active).offset_block(
        objects::offsets_of(pool.entity_manifest, pool_cuts(pool)),
    )
}

/// The fields of the root table of a pool of cuts.
pub open spec fn pool_entries(
    pool: StageCutsView,
    scale: Float64,
    cuts: nat,
    active: nat,
    slots: nat,
) -> Seq<Entry> {
    seq![
        objects::u32_entry(schema::STAGE_CUTS_FIELD_STAGE_ID, pool.stage_id),
        objects::u32_entry(schema::STAGE_CUTS_FIELD_STATE_DIMENSION, pool.state_dimension),
        objects::u32_entry(schema::STAGE_CUTS_FIELD_CAPACITY, pool.capacity),
        objects::u32_entry(schema::STAGE_CUTS_FIELD_WARM_START_COUNT, pool.warm_start_count),
        Entry::Offset(schema::STAGE_CUTS_FIELD_CUTS, cuts),
        Entry::Offset(schema::STAGE_CUTS_FIELD_ACTIVE_CUT_INDICES, active),
        objects::u32_entry(schema::STAGE_CUTS_FIELD_POPULATED_COUNT, pool.populated_count),
        Entry::Offset(schema::STAGE_CUTS_FIELD_ENTITY_MANIFEST, slots),
        objects::f64_entry(schema::STAGE_CUTS_FIELD_COST_SCALE_FACTOR, scale),
        objects::i32_entry(schema::STAGE_CUTS_FIELD_NODE_ID, pool.node_id),
        objects::i32_entry(schema::STAGE_CUTS_FIELD_GRAPH_STAGE_ID, pool.graph_stage_id),
        objects::i32_entry(schema::STAGE_CUTS_FIELD_PRICED_STATE_DATE, pool.priced_state_date),
    ]
}

/// The buffer of a pool of cuts that has a cost scale.
pub open spec fn stage_cuts_bytes(pool: StageCutsView, active: Seq<u32>) -> Seq<u8> {
    finished(
        pool_slot_list(pool, active),
        pool_entries(
            pool,
            pool.cost_scale_factor->0,
            pool_cut_list(pool).bytes.len(),
            pool_active(pool, active).bytes.len(),
            pool_slot_list(pool, active).bytes.len(),
        ),
    )
}

/// How many coefficients the cuts have in all.
pub open spec fn coefficient_count(cuts: Seq<CutView>) -> nat
    decreases cuts.len(),
{
    if cuts.len() == 0 {
        0
    } else {
        coefficient_count(cuts.drop_last()) + cuts.last().coefficients.len()
    }
}

/// The buffer of a pool of cuts stays within the format's limit.
pub open spec fn stage_cuts_fits(pool: StageCutsView, active: Seq<u32>) -> bool {
    stage_cuts_bytes(pool, active).len() <= layout::MAX_BUFFER_LEN
}

/// The buffer of a pool stays within the format's limit where 8 bytes per
/// coefficient, 99 per cut, 4 per active cut and 70 per entity slot leave 175 bytes
/// free.
pub proof fn small_pools_fit(pool: StageCutsView, active: Seq<u32>)
    requires
        8 * coefficient_count(pool.cuts) + 99 * pool.cuts.len() + 4 * active.len() + 70
            * pool.entity_manifest.len() + 175 <= layout::MAX_BUFFER_LEN,
    ensures
        stage_cuts_fits(pool, active),
{
    let cuts = pool_cut_list(pool).bytes.len();
    let actives = pool_active(pool, active).bytes.len();
    let slots = pool_slot_list(pool, active).bytes.len();
    cuts_cost(pool.cuts);
    pool_drafts_extend(pool, active);
    pool_entries_are_proper(pool, pool.cost_scale_factor->0, cuts, actives, slots);
    finished_len(
        pool_slot_list(pool, active),
        pool_entries(pool, pool.cost_scale_factor->0, cuts, actives, slots),
    );
}

/// The capacity that the builder of a pool starts with: 64 bytes, 96 per cut and 8
/// per coefficient by the state dimension, 4 per active cut and 32 per entity slot.
pub open spec fn stage_cuts_capacity(pool: StageCutsView, active: Seq<u32>) -> int {
    64 + pool.cuts.len() * (96 + 8 * pool.state_dimension) + 4 * active.len() + 32
        * pool.entity_manifest.len()
}

proof fn cuts_cost(cuts: Seq<CutView>)
    ensures
        objects::cost_of(cuts) == 8 * coefficient_count(cuts) + 95 * cuts.len(),
    decreases cuts.len(),
{
    if cuts.len() > 0 {
        cuts_cost(cuts.drop_last());
    }
}

proof fn pool_entries_are_proper(
    pool: StageCutsView,
    scale: Float64,
    cuts: nat,
    active: nat,
    slots: nat,
)
    ensures
        layout::proper_entries(pool_entries(pool, scale, cuts, active, slots)),
        layout::table_cost(pool_entries(pool, scale, cuts, active, slots)) == 127,
{
    wire::le_bytes_lengths();
    let entries = pool_entries(pool, scale, cuts, active, slots);
    assert forall|i: int| 0 <= i < entries.len() implies (#[trigger] entries[i]).slot() == 4 + 2 * i
        && layout::scalar_size(entries[i].size()) by {}
    reveal_with_fuel(layout::fields_cost, 13);
    reveal_with_fuel(layout::entries_vtable_size, 13);
}

proof fn pool_drafts_extend(pool: StageCutsView, active: Seq<u32>)
    ensures
        ({
            let cuts = pool_cuts(pool);
            let slots = pool_slots(pool);
            let cut_list = pool_cut_list(pool);
            let actives = pool_active(pool, active);
            let slot_list = pool_slot_list(pool, active);
            let n = 66 * pool.entity_manifest.len() + objects::cost_of(pool.cuts);
            &&& objects::ready(cuts)
            &&& objects::ready(slots)
            &&& objects::ready(cut_list)
            &&& objects::ready(actives)
            &&& objects::ready(slot_list)
            &&& layout::ends_in(slots.bytes, cuts.bytes)
            &&& layout::ends_in(cut_list.bytes, slots.bytes)
            &&& layout::ends_in(actives.bytes, cut_list.bytes)
            &&& layout::ends_in(slot_list.bytes, actives.bytes)
            &&& cuts.bytes.len() <= slots.bytes.len() <= cut_list.bytes.len()
            &&& cut_list.bytes.len() <= actives.bytes.len() <= slot_list.bytes.len()
            &&& cuts.bytes.len() <= objects::cost_of(pool.cuts)
            &&& slots.bytes.len() <= n
            &&& cut_list.bytes.len() <= n + 4 * pool.cuts.len() + 11
            &&& actives.bytes.len() <= n + 4 * pool.cuts.len() + 4 * active.len() + 22
            &&& slot_list.bytes.len() <= n + 4 * pool.cuts.len() + 4 * active.len() + 4
                * pool.entity_manifest.len() + 33
        }),
{
    cuts_cost(pool.cuts);
    slots_cost(pool.entity_manifest);
    objects::put_all_extends(pool.cuts, layout::blank());
    objects::put_all_extends(pool.entity_manifest, pool_cuts(pool));
    layout::offset_block_extends(
        pool_slots(pool),
        objects::offsets_of(pool.cuts, layout::blank()),
    );
    layout::words_len(layout::u32_words(active), 4);
    layout::block_extends(
        pool_cut_list(pool),
        active.len(),
        layout::words(layout::u32_words(active), 4),
        4,
    );
    layout::offset_block_extends(
        pool_active(pool, active),
        objects::offsets_of(pool.entity_manifest, pool_cuts(pool)),
    );
}

/// What is read of a written pool of cuts is that pool. The indices of the active
/// cuts are written but not read.
pub proof fn stage_cuts_round_trips(pool: StageCutsView, active: Seq<u32>)
    requires
        stage_cuts_fits(pool, active),
        pool.cost_scale_factor is Some,
    ensures
        decode::decode_stage_cuts(stage_cuts_bytes(pool, active)) == Ok::<
            StageCutsView,
            Seq<char>,
        >(pool),
{
    let cuts = pool_cuts(pool);
    let slots = pool_slots(pool);
    let cut_list = pool_cut_list(pool);
    let actives = pool_active(pool, active);
    let d = pool_slot_list(pool, active);
    let scale = pool.cost_scale_factor->0;
    let entries = pool_entries(
        pool,
        scale,
        cut_list.bytes.len(),
        actives.bytes.len(),
        d.bytes.len(),
    );
    let buf = stage_cuts_bytes(pool, active);
    cuts_cost(pool.cuts);
    pool_drafts_extend(pool, active);
    pool_entries_are_proper(
        pool,
        scale,
        cut_list.bytes.len(),
        actives.bytes.len(),
        d.bytes.len(),
    );
    finished_len(d, entries);
    finds_root(d, entries);
    layout::ends_in_chain(buf, d.bytes, actives.bytes);
    layout::ends_in_chain(buf, actives.bytes, cut_list.bytes);
    layout::ends_in_chain(buf, cut_list.bytes, slots.bytes);
    layout::ends_in_chain(buf, slots.bytes, cuts.bytes);
    layout::ends_in_chain(actives.bytes, cut_list.bytes, slots.bytes);
    finds_pool_scalars(pool, scale, d, entries, buf);
    let targets = objects::offsets_of(pool.cuts, layout::blank());
    objects::put_all_extends(pool.cuts, layout::blank());
    objects::put_all_is_found(pool.cuts, layout::blank(), buf);
    assert forall|j: int| 0 <= j < targets.len() implies <OwnedPolicyCutRecord as Stored>::at(
        buf,
        buf.len() - #[trigger] targets[j],
    ) == Some(pool.cuts[j]) by {
        assert(pool.cuts[j].found(buf, buf.len() - targets[j]));
    }
    tables::finds_list::<OwnedPolicyCutRecord>(
        d,
        entries,
        buf,
        4,
        schema::STAGE_CUTS_FIELD_CUTS,
        decode::cut_errors(),
        slots,
        targets,
        pool.cuts,
    );
    finds_entity_manifest(
        d,
        entries,
        buf,
        7,
        schema::STAGE_CUTS_FIELD_ENTITY_MANIFEST,
        cuts,
        actives,
        pool.entity_manifest,
    );
}

proof fn finds_pool_scalars(
    pool: StageCutsView,
    scale: Float64,
    d: Draft,
    entries: Seq<Entry>,
    buf: Seq<u8>,
)
    requires
        objects::tabled(d, entries, buf),
        entries == pool_entries(
            pool,
            scale,
            entries[4]->Offset_1,
            entries[5]->Offset_1,
            entries[7]->Offset_1,
        ),
    ensures
        ({
            let t = objects::table_pos(d, entries, buf);
            let v = objects::vtable_pos(d, entries, buf);
            &&& wire::u32_field(buf, t, v, schema::STAGE_CUTS_FIELD_STAGE_ID) == Some(pool.stage_id)
            &&& wire::u32_field(buf, t, v, schema::STAGE_CUTS_FIELD_STATE_DIMENSION)
                == Some(pool.state_dimension)
            &&& wire::u32_field(buf, t, v, schema::STAGE_CUTS_FIELD_CAPACITY) == Some(pool.capacity)
            &&& wire::u32_field(buf, t, v, schema::STAGE_CUTS_FIELD_WARM_START_COUNT)
                == Some(pool.warm_start_count)
            &&& wire::u32_field(buf, t, v, schema::STAGE_CUTS_FIELD_POPULATED_COUNT)
                == Some(pool.populated_count)
            &&& wire::f64_field(buf, t, v, schema::STAGE_CUTS_FIELD_COST_SCALE_FACTOR) == Some(
                Some(scale),
            )
            &&& wire::i32_field(
                buf,
                t,
                v,
                schema::STAGE_CUTS_FIELD_NODE_ID,
                records::STAGE_CUTS_NODE_ID_SENTINEL,
            ) == Some(pool.node_id)
            &&& wire::i32_field(
                buf,
                t,
                v,
                schema::STAGE_CUTS_FIELD_GRAPH_STAGE_ID,
                records::STAGE_CUTS_GRAPH_STAGE_ID_SENTINEL,
            ) == Some(pool.graph_stage_id)
            &&& wire::i32_field(
                buf,
                t,
                v,
                schema::STAGE_CUTS_FIELD_PRICED_STATE_DATE,
                records::STAGE_CUTS_PRICED_STATE_DATE_SENTINEL,
            ) == Some(pool.priced_state_date)
        }),
{
    objects::finds_u32(d, entries, buf, 0, schema::STAGE_CUTS_FIELD_STAGE_ID, pool.stage_id);
    objects::finds_u32(
        d,
        entries,
        buf,
        1,
        schema::STAGE_CUTS_FIELD_STATE_DIMENSION,
        pool.state_dimension,
    );
    objects::finds_u32(d, entries, buf, 2, schema::STAGE_CUTS_FIELD_CAPACITY, pool.capacity);
    objects::finds_u32(
        d,
        entries,
        buf,
        3,
        schema::STAGE_CUTS_FIELD_WARM_START_COUNT,
        pool.warm_start_count,
    );
    objects::finds_u32(
        d,
        entries,
        buf,
        6,
        schema::STAGE_CUTS_FIELD_POPULATED_COUNT,
        pool.populated_count,
    );
    objects::finds_f64(d, entries, buf, 8, schema::STAGE_CUTS_FIELD_COST_SCALE_FACTOR, scale);
    objects::finds_i32(
        d,
        entries,
        buf,
        9,
        schema::STAGE_CUTS_FIELD_NODE_ID,
        pool.node_id,
        records::STAGE_CUTS_NODE_ID_SENTINEL,
    );
    objects::finds_i32(
        d,
        entries,
        buf,
        10,
        schema::STAGE_CUTS_FIELD_GRAPH_STAGE_ID,
        pool.graph_stage_id,
        records::STAGE_CUTS_GRAPH_STAGE_ID_SENTINEL,
    );
    objects::finds_i32(
        d,
        entries,
        buf,
        11,
        schema::STAGE_CUTS_FIELD_PRICED_STATE_DATE,
        pool.priced_state_date,
        records::STAGE_CUTS_PRICED_STATE_DATE_SENTINEL,
    );
}

/// Writes a pool of cuts.
pub fn serialize_stage_cuts<'a>(payload: &StageCutsPayload<'a>) -> (r: Vec<u8>)
    requires
        builder::naturally_aligned(),
        stage_cuts_fits(payload@, payload.active_cut_indices@),
        stage_cuts_capacity(payload@, payload.active_cut_indices@) <= builder::MAX_CAPACITY,
    ensures
        r@ == stage_cuts_bytes(payload@, payload.active_cut_indices@),
        decode::decode_stage_cuts(r@) == Ok::<StageCutsView, Seq<char>>(payload@),
{
    proof {
        pools_are_ready(payload@, payload.active_cut_indices@);
    }
    let size: usize = stage_cuts_capacity_of(payload);
    let mut builder: Builder = builder::with_capacity(size);
    let b: &mut Builder = &mut builder;
    let (cuts_end, active_end, slots_end) = build_pool_lists(b, payload);
    let fields: Vec<Field> = pool_fields(payload, cuts_end, active_end, slots_end);
    finish_root(b, &fields)
}

/// What a pool within the limits gives the writer: each list ends before the root table,
/// and the finished buffer is read back.
proof fn pools_are_ready(pool: StageCutsView, active: Seq<u32>)
    requires
        stage_cuts_fits(pool, active),
        pool.cost_scale_factor is Some,
    ensures
        ({
            let cuts = pool_cut_list(pool).bytes.len();
            let actives = pool_active(pool, active).bytes.len();
            let slots = pool_slot_list(pool, active).bytes.len();
            let entries = pool_entries(pool, pool.cost_scale_factor->0, cuts, actives, slots);
            &&& objects::ready(pool_slot_list(pool, active))
            &&& layout::proper_entries(entries)
            &&& cuts <= actives <= slots <= layout::MAX_BUFFER_LEN
            &&& finished(pool_slot_list(pool, active), entries) == stage_cuts_bytes(pool, active)
        }),
        decode::decode_stage_cuts(stage_cuts_bytes(pool, active)) == Ok::<
            StageCutsView,
            Seq<char>,
        >(pool),
{
    let cuts = pool_cut_list(pool).bytes.len();
    let actives = pool_active(pool, active).bytes.len();
    let slots = pool_slot_list(pool, active).bytes.len();
    let scale = pool.cost_scale_factor->0;
    pool_drafts_extend(pool, active);
    pool_entries_are_proper(pool, scale, cuts, actives, slots);
    finished_len(pool_slot_list(pool, active), pool_entries(pool, scale, cuts, actives, slots));
    stage_cuts_round_trips(pool, active);
}

/// The fields of a pool's root table, which leads to lists that end at `cuts_end`,
/// `active_end` and `slots_end`.
fn pool_fields<'a>(
    payload: &StageCutsPayload<'a>,
    cuts_end: u32,
    active_end: u32,
    slots_end: u32,
) -> (r: Vec<Field>)
    ensures
        objects::entries_of(r@) == pool_entries(
            payload@,
            payload.cost_scale_factor,
            cuts_end as nat,
            active_end as nat,
            slots_end as nat,
        ),
        r@.len() == 12,
        forall|n: nat, i: int|
            cuts_end <= n && active_end <= n && slots_end <= n && 0 <= i < 12
                ==> #[trigger] r@[i].leads_into(n),
{
    let fields: Vec<Field> = vec![
        Field::U32(schema::STAGE_CUTS_FIELD_STAGE_ID, payload.stage_id),
        Field::U32(schema::STAGE_CUTS_FIELD_STATE_DIMENSION, payload.state_dimension),
        Field::U32(schema::STAGE_CUTS_FIELD_CAPACITY, payload.capacity),
        Field::U32(schema::STAGE_CUTS_FIELD_WARM_START_COUNT, payload.warm_start_count),
        Field::Offset(schema::STAGE_CUTS_FIELD_CUTS, cuts_end),
        Field::Offset(schema::STAGE_CUTS_FIELD_ACTIVE_CUT_INDICES, active_end),
        Field::U32(schema::STAGE_CUTS_FIELD_POPULATED_COUNT, payload.populated_count),
        Field::Offset(schema::STAGE_CUTS_FIELD_ENTITY_MANIFEST, slots_end),
        Field::F64(schema::STAGE_CUTS_FIELD_COST_SCALE_FACTOR, payload.cost_scale_factor),
        Field::I32(schema::STAGE_CUTS_FIELD_NODE_ID, payload.node_id),
        Field::I32(schema::STAGE_CUTS_FIELD_GRAPH_STAGE_ID, payload.graph_stage_id),
        Field::I32(schema::STAGE_CUTS_FIELD_PRICED_STATE_DATE, payload.priced_state_date),
    ];
    proof {
        assert(objects::entries_of(fields@) =~= pool_entries(
            payload@,
            payload.cost_scale_factor,
            cuts_end as nat,
            active_end as nat,
            slots_end as nat,
        ));
    }
    fields
}

/// Writes the cuts, the entity slots and the lists that lead to them.
fn build_pool_lists<'a>(b: &mut Builder, payload: &StageCutsPayload<'a>) -> (r: (u32, u32, u32))
    requires
        pool_slot_list(payload@, payload.active_cut_indices@).bytes.len()
            <= layout::MAX_BUFFER_LEN,
        builder::draft(*old(b)) == layout::blank(),
    ensures
        builder::draft(*final(b)) == pool_slot_list(payload@, payload.active_cut_indices@),
        r.0 == pool_cut_list(payload@).bytes.len(),
        r.1 == pool_active(payload@, payload.active_cut_indices@).bytes.len(),
        r.2 == pool_slot_list(payload@, payload.active_cut_indices@).bytes.len(),
{
    let ghost pool = payload@;
    let ghost active = payload.active_cut_indices@;
    proof {
        cuts_cost(pool.cuts);
        slots_cost(pool.entity_manifest);
        pool_drafts_extend(pool, active);
        objects::put_all_extends(pool.cuts, layout::blank());
        objects::put_all_extends(pool.entity_manifest, pool_cuts(pool));
        assert(objects::values_of(payload.cuts@) =~= pool.cuts);
        assert(objects::values_of(payload.entity_manifest@) =~= pool.entity_manifest);
    }
    let cut_targets: Vec<u32> = objects::build_all(b, payload.cuts);
    let slot_targets: Vec<u32> = objects::build_all(b, payload.entity_manifest);
    let cuts_end: u32 = build_offsets(b, &cut_targets);
    let active_end: u32 = builder::create_u32_vector(b, payload.active_cut_indices);
    let slots_end: u32 = build_offsets(b, &slot_targets);
    (cuts_end, active_end, slots_end)
}

fn stage_cuts_capacity_of<'a>(payload: &StageCutsPayload<'a>) -> (r: usize)
    requires
        stage_cuts_capacity(payload@, payload.active_cut_indices@) <= builder::MAX_CAPACITY,
    ensures
        r == stage_cuts_capacity(payload@, payload.active_cut_indices@),
{
    let cuts: usize = payload.cuts.len();
    let dimension: u64 = payload.state_dimension as u64;
    let active: usize = payload.active_cut_indices.len();
    let slots: usize = payload.entity_manifest.len();
    let ghost per_cut: int = 96 + 8 * payload.state_dimension;
    proof {
        assert(cuts * per_cut >= 0) by (nonlinear_arith)
            requires
                cuts >= 0,
                per_cut >= 0,
        ;
        assert(active <= 0x8000_0000 && slots <= 0x8000_0000);
        assert(cuts * per_cut <= 0x8000_0000);
    }
    let cut_bytes: u64 = cuts as u64 * (96 + 8 * dimension);
    (64 + cut_bytes + 4 * active as u64 + 32 * slots as u64) as usize
}

// ── What is read of what was written ─────────────────────────────────────────

/// What is read of a written basis has each of its fields.
pub proof fn read_bases_are_those_written<'a>(
    record: PolicyBasisRecord<'a>,
    read: OwnedPolicyBasisRecord,
)
    requires
        stage_basis_fits(record@),
        decode::decode_stage_basis(stage_basis_bytes(record@)) == Ok::<BasisView, Seq<char>>(read@),
    ensures
        read.stage_id == record.stage_id,
        read.iteration == record.iteration,
        read.column_status@ == record.column_status@,
        read.row_status@ == record.row_status@,
        read.num_cut_rows == record.num_cut_rows,
{
    stage_basis_round_trips(record@);
}

/// What is read of written states has each of their fields.
pub proof fn read_states_are_those_written<'a>(
    payload: StageStatesPayload<'a>,
    read: StageStatesReadResult,
)
    requires
        stage_states_fits(payload@),
        decode::decode_stage_states(stage_states_bytes(payload@)) == Ok::<
            StageStatesView,
            Seq<char>,
        >(read@),
    ensures
        read.stage_id == payload.stage_id,
        read.node_id == payload.node_id,
        read.state_dimension == payload.state_dimension,
        read.count == payload.count,
        read.data@ == payload.data@,
        read.entity_manifest@ == payload.entity_manifest@,
{
    stage_states_round_trips(payload@);
}

/// What is read of a written pool has each of its fields, and each of its cuts in its
/// place with each of that cut's fields.
pub proof fn read_pools_are_those_written<'a>(
    payload: StageCutsPayload<'a>,
    read: StageCutsReadResult,
)
    requires
        stage_cuts_fits(payload@, payload.active_cut_indices@),
        decode::decode_stage_cuts(stage_cuts_bytes(payload@, payload.active_cut_indices@)) == Ok::<
            StageCutsView,
            Seq<char>,
        >(read@),
    ensures
        read.stage_id == payload.stage_id,
        read.state_dimension == payload.state_dimension,
        read.capacity == payload.capacity,
        read.warm_start_count == payload.warm_start_count,
        read.populated_count == payload.populated_count,
        read.cost_scale_factor == Some(payload.cost_scale_factor),
        read.node_id == payload.node_id,
        read.graph_stage_id == payload.graph_stage_id,
        read.priced_state_date == payload.priced_state_date,
        read.entity_manifest@ == payload.entity_manifest@,
        read.cuts@.len() == payload.cuts@.len(),
        forall|i: int|
            0 <= i < read.cuts@.len() ==> {
                let a = payload.cuts@[i];
                let b = #[trigger] read.cuts@[i];
                &&& b.cut_id == a.cut_id
                &&& b.slot_index == a.slot_index
                &&& b.iteration == a.iteration
                &&& b.forward_pass_index == a.forward_pass_index
                &&& b.intercept == a.intercept
                &&& b.coefficients@ == a.coefficients@
                &&& b.is_active == a.is_active
            },
{
    stage_cuts_round_trips(payload@, payload.active_cut_indices@);
    assert(records::owned_cuts(read.cuts@) == payload.cut_views());
    assert(records::owned_cuts(read.cuts@).len() == payload.cut_views().len());
    assert forall|i: int| 0 <= i < read.cuts@.len() implies (#[trigger] read.cuts@[i])@
        == payload.cuts@[i]@ by {
        assert(records::owned_cuts(read.cuts@)[i] == read.cuts@[i]@);
        assert(payload.cut_views()[i] == payload.cuts@[i]@);
    }
}

/// What is set aside for a payload grows with its parts: a byte for each status of a basis;
/// 8 for each number of visited states and 32 for each entity slot; and of a pool 96 for each
/// cut, 8 for each of its coefficients, 4 for each active cut and 32 for each entity slot. A
/// payload without parts has 64.
pub proof fn every_part_counts_in_the_capacity(
    basis: BasisView,
    states: StageStatesView,
    pool: StageCutsView,
    active: Seq<u32>,
    fewer: StageCutsView,
)
    requires
        fewer.cuts == pool.cuts.drop_last(),
        pool.cuts.len() > 0,
        fewer.state_dimension == pool.state_dimension,
        fewer.entity_manifest == pool.entity_manifest,
    ensures
        stage_basis_capacity(basis) - 64 == basis.column_status.len() + basis.row_status.len(),
        stage_states_capacity(states) - 64 == 8 * states.data.len() + 32
            * states.entity_manifest.len(),
        stage_cuts_capacity(pool, active) - stage_cuts_capacity(fewer, active) == 96 + 8
            * pool.state_dimension,
        pool.cuts.len() == 1 ==> stage_cuts_capacity(fewer, active) == 64 + 4 * active.len() + 32
            * pool.entity_manifest.len(),
{
    let n = pool.cuts.len() as int;
    let each = 96 + 8 * pool.state_dimension;
    assert(n * each - (n - 1) * each == each) by (nonlinear_arith);
    assert(n == 1 ==> (n - 1) * each == 0) by (nonlinear_arith);
}

} // verus!
