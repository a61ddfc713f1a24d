//! Writing the tables and strings inside policy artifacts, and finding them again.

use vstd::prelude::*;

use crate::flat::builder;
use crate::flat::builder::Builder;
use crate::flat::layout;
use crate::flat::layout::{Draft, Entry};
use crate::flat::objects;
use crate::flat::objects::{Buildable, Encoded, Field};
use crate::flat::wire;
use crate::policy::decode;
use crate::policy::decode::Stored;
use crate::policy::records;
use crate::policy::records::{
    CutView, EntitySlot, HydroOrdersView, HydroSeasonOrders, ManifestEdge, ManifestNode,
    PolicyCutRecord, SeasonManifest, SeasonView,
};
use crate::policy::schema;

verus! {

// ── Entity slots ─────────────────────────────────────────────────────────────

/// The fields of an entity slot's table.
pub open spec fn entity_slot_entries(slot: EntitySlot) -> Seq<Entry> {
    seq![
        Entry::Scalar(schema::ENTITY_SLOT_FIELD_ENTITY_TYPE, seq![slot.entity_type]),
        objects::i32_entry(schema::ENTITY_SLOT_FIELD_ENTITY_ID, slot.entity_id),
        objects::u32_entry(schema::ENTITY_SLOT_FIELD_SUBINDEX, slot.subindex),
        Entry::Scalar(
            schema::ENTITY_SLOT_FIELD_WAS_ACTIVE,
            builder::flag_byte(slot.was_active),
        ),
        objects::i32_entry(schema::ENTITY_SLOT_FIELD_REFERENCE_DATE, slot.reference_date),
        objects::i32_entry(schema::ENTITY_SLOT_FIELD_INTERVAL_START, slot.interval_start),
        objects::i32_entry(schema::ENTITY_SLOT_FIELD_INTERVAL_END, slot.interval_end),
    ]
}

proof fn entity_slot_entries_are_proper(slot: EntitySlot)
    ensures
        layout::proper_entries(entity_slot_entries(slot)),
        layout::table_cost(entity_slot_entries(slot)) == 66,
{
    wire::le_bytes_lengths();
    let entries = entity_slot_entries(slot);
    reveal_with_fuel(layout::fields_cost, 8);
    reveal_with_fuel(layout::entries_vtable_size, 8);
}

impl Encoded for EntitySlot {
    open spec fn put(self, d: Draft) -> Draft {
        d.table(entity_slot_entries(self))
    }

    open spec fn put_at(self, d: Draft) -> nat {
        d.table_at(entity_slot_entries(self))
    }

    open spec fn cost(self) -> nat {
        66
    }

    open spec fn found(self, buf: Seq<u8>, pos: int) -> bool {
        decode::entity_slot_at(buf, pos) == Some(self)
    }

    proof fn put_extends(self, d: Draft) {
        entity_slot_entries_are_proper(self);
        layout::table_extends(d, entity_slot_entries(self));
    }

    proof fn put_is_found(self, d: Draft, buf: Seq<u8>) {
        let entries = entity_slot_entries(self);
        entity_slot_entries_are_proper(self);
        let sentinel = records::ENTITY_SLOT_DELIVERY_DATE_SENTINEL;
        objects::finds_vtable(d, entries, buf);
        objects::finds_u8(
            d,
            entries,
            buf,
            0,
            schema::ENTITY_SLOT_FIELD_ENTITY_TYPE,
            self.entity_type,
            0,
        );
        objects::finds_i32(
            d,
            entries,
            buf,
            1,
            schema::ENTITY_SLOT_FIELD_ENTITY_ID,
            self.entity_id,
            0,
        );
        objects::finds_u32(
            d,
            entries,
            buf,
            2,
            schema::ENTITY_SLOT_FIELD_SUBINDEX,
            self.subindex,
        );
        objects::finds_bool(
            d,
            entries,
            buf,
            3,
            schema::ENTITY_SLOT_FIELD_WAS_ACTIVE,
            self.was_active,
        );
        objects::finds_i32(
            d,
            entries,
            buf,
            4,
            schema::ENTITY_SLOT_FIELD_REFERENCE_DATE,
            self.reference_date,
            sentinel,
        );
        objects::finds_i32(
            d,
            entries,
            buf,
            5,
            schema::ENTITY_SLOT_FIELD_INTERVAL_START,
            self.interval_start,
            sentinel,
        );
        objects::finds_i32(
            d,
            entries,
            buf,
            6,
            schema::ENTITY_SLOT_FIELD_INTERVAL_END,
            self.interval_end,
            sentinel,
        );
    }
}

/// Writes an entity slot.
fn build_entity_slot_table(b: &mut Builder, slot: &EntitySlot) -> (r: u32)
    requires
        objects::ready(builder::draft(*old(b))),
        slot.put(builder::draft(*old(b))).bytes.len() <= layout::MAX_BUFFER_LEN,
    ensures
        builder::draft(*final(b)) == slot.put(builder::draft(*old(b))),
        r == slot.put_at(builder::draft(*old(b))),
{
    proof {
        entity_slot_entries_are_proper(*slot);
    }
    let fields: Vec<Field> = vec![
        Field::U8(schema::ENTITY_SLOT_FIELD_ENTITY_TYPE, slot.entity_type),
        Field::I32(schema::ENTITY_SLOT_FIELD_ENTITY_ID, slot.entity_id),
        Field::U32(schema::ENTITY_SLOT_FIELD_SUBINDEX, slot.subindex),
        Field::Bool(schema::ENTITY_SLOT_FIELD_WAS_ACTIVE, slot.was_active),
        Field::I32(schema::ENTITY_SLOT_FIELD_REFERENCE_DATE, slot.reference_date),
        Field::I32(schema::ENTITY_SLOT_FIELD_INTERVAL_START, slot.interval_start),
        Field::I32(schema::ENTITY_SLOT_FIELD_INTERVAL_END, slot.interval_end),
    ];
    proof {
        assert(objects::entries_of(fields@) =~= entity_slot_entries(*slot));
    }
    objects::build_table(b, &fields)
}

impl Buildable for EntitySlot {
    type Value = EntitySlot;

    open spec fn value(&self) -> EntitySlot {
        *self
    }

    fn build(&self, b: &mut Builder) -> (r: u32) {
        build_entity_slot_table(b, self)
    }
}

// ── Manifest nodes ────────────────────────────────────────────────────────

/// The fields of a manifest node's table.
pub open spec fn manifest_node_entries(node: ManifestNode) -> Seq<Entry> {
    seq![
        objects::i32_entry(schema::MANIFEST_NODE_FIELD_ID, node.id),
        objects::i32_entry(schema::MANIFEST_NODE_FIELD_STAGE_ID, node.stage_id),
        objects::u32_entry(schema::MANIFEST_NODE_FIELD_POOL_ID, node.pool_id),
    ]
}

proof fn manifest_node_entries_are_proper(node: ManifestNode)
    ensures
        layout::proper_entries(manifest_node_entries(node)),
        layout::table_cost(manifest_node_entries(node)) == 38,
{
    wire::le_bytes_lengths();
    let entries = manifest_node_entries(node);
    reveal_with_fuel(layout::fields_cost, 4);
    reveal_with_fuel(layout::entries_vtable_size, 4);
}

impl Encoded for ManifestNode {
    open spec fn put(self, d: Draft) -> Draft {
        d.table(manifest_node_entries(self))
    }

    open spec fn put_at(self, d: Draft) -> nat {
        d.table_at(manifest_node_entries(self))
    }

    open spec fn cost(self) -> nat {
        38
    }

    open spec fn found(self, buf: Seq<u8>, pos: int) -> bool {
        decode::manifest_node_at(buf, pos) == Some(self)
    }

    proof fn put_extends(self, d: Draft) {
        manifest_node_entries_are_proper(self);
        layout::table_extends(d, manifest_node_entries(self));
    }

    proof fn put_is_found(self, d: Draft, buf: Seq<u8>) {
        let entries = manifest_node_entries(self);
        manifest_node_entries_are_proper(self);
        objects::finds_vtable(d, entries, buf);
        objects::finds_i32(d, entries, buf, 0, schema::MANIFEST_NODE_FIELD_ID, self.id, 0);
        objects::finds_i32(
            d,
            entries,
            buf,
            1,
            schema::MANIFEST_NODE_FIELD_STAGE_ID,
            self.stage_id,
            0,
        );
        objects::finds_u32(d, entries, buf, 2, schema::MANIFEST_NODE_FIELD_POOL_ID, self.pool_id);
    }
}

/// Writes a node of the policy graph.
fn build_manifest_node_table(b: &mut Builder, node: &ManifestNode) -> (r: u32)
    requires
        objects::ready(builder::draft(*old(b))),
        node.put(builder::draft(*old(b))).bytes.len() <= layout::MAX_BUFFER_LEN,
    ensures
        builder::draft(*final(b)) == node.put(builder::draft(*old(b))),
        r == node.put_at(builder::draft(*old(b))),
{
    proof {
        manifest_node_entries_are_proper(*node);
    }
    let fields: Vec<Field> = vec![
        Field::I32(schema::MANIFEST_NODE_FIELD_ID, node.id),
        Field::I32(schema::MANIFEST_NODE_FIELD_STAGE_ID, node.stage_id),
        Field::U32(schema::MANIFEST_NODE_FIELD_POOL_ID, node.pool_id),
    ];
    proof {
        assert(objects::entries_of(fields@) =~= manifest_node_entries(*node));
    }
    objects::build_table(b, &fields)
}

impl Buildable for ManifestNode {
    type Value = ManifestNode;

    open spec fn value(&self) -> ManifestNode {
        *self
    }

    fn build(&self, b: &mut Builder) -> (r: u32) {
        build_manifest_node_table(b, self)
    }
}

// ── Manifest edges ────────────────────────────────────────────────────────

/// The fields of a manifest edge's table.
pub open spec fn manifest_edge_entries(edge: ManifestEdge) -> Seq<Entry> {
    seq![
        objects::i32_entry(schema::MANIFEST_EDGE_FIELD_SOURCE_ID, edge.source_id),
        objects::i32_entry(schema::MANIFEST_EDGE_FIELD_TARGET_ID, edge.target_id),
        objects::f64_entry(schema::MANIFEST_EDGE_FIELD_PROBABILITY, edge.probability),
    ]
}

proof fn manifest_edge_entries_are_proper(edge: ManifestEdge)
    ensures
        layout::proper_entries(manifest_edge_entries(edge)),
        layout::table_cost(manifest_edge_entries(edge)) == 46,
{
    wire::le_bytes_lengths();
    let entries = manifest_edge_entries(edge);
    reveal_with_fuel(layout::fields_cost, 4);
    reveal_with_fuel(layout::entries_vtable_size, 4);
}

impl Encoded for ManifestEdge {
    open spec fn put(self, d: Draft) -> Draft {
        d.table(manifest_edge_entries(self))
    }

    open spec fn put_at(self, d: Draft) -> nat {
        d.table_at(manifest_edge_entries(self))
    }

    open spec fn cost(self) -> nat {
        46
    }

    open spec fn found(self, buf: Seq<u8>, pos: int) -> bool {
        decode::manifest_edge_at(buf, pos) == Some(self)
    }

    proof fn put_extends(self, d: Draft) {
        manifest_edge_entries_are_proper(self);
        layout::table_extends(d, manifest_edge_entries(self));
    }

    proof fn put_is_found(self, d: Draft, buf: Seq<u8>) {
        let entries = manifest_edge_entries(self);
        manifest_edge_entries_are_proper(self);
        objects::finds_vtable(d, entries, buf);
        objects::finds_i32(
            d,
            entries,
            buf,
            0,
            schema::MANIFEST_EDGE_FIELD_SOURCE_ID,
            self.source_id,
            0,
        );
        objects::finds_i32(
            d,
            entries,
            buf,
            1,
            schema::MANIFEST_EDGE_FIELD_TARGET_ID,
            self.target_id,
            0,
        );
        objects::finds_f64(
            d,
            entries,
            buf,
            2,
            schema::MANIFEST_EDGE_FIELD_PROBABILITY,
            self.probability,
        );
    }
}

/// Writes an edge of the policy graph.
fn build_manifest_edge_table(b: &mut Builder, edge: &ManifestEdge) -> (r: u32)
    requires
        objects::ready(builder::draft(*old(b))),
        edge.put(builder::draft(*old(b))).bytes.len() <= layout::MAX_BUFFER_LEN,
    ensures
        builder::draft(*final(b)) == edge.put(builder::draft(*old(b))),
        r == edge.put_at(builder::draft(*old(b))),
{
    proof {
        manifest_edge_entries_are_proper(*edge);
    }
    let fields: Vec<Field> = vec![
        Field::I32(schema::MANIFEST_EDGE_FIELD_SOURCE_ID, edge.source_id),
        Field::I32(schema::MANIFEST_EDGE_FIELD_TARGET_ID, edge.target_id),
        Field::F64(schema::MANIFEST_EDGE_FIELD_PROBABILITY, edge.probability),
    ];
    proof {
        assert(objects::entries_of(fields@) =~= manifest_edge_entries(*edge));
    }
    objects::build_table(b, &fields)
}

impl Buildable for ManifestEdge {
    type Value = ManifestEdge;

    open spec fn value(&self) -> ManifestEdge {
        *self
    }

    fn build(&self, b: &mut Builder) -> (r: u32) {
        build_manifest_edge_table(b, self)
    }
}

// ── Strings ──────────────────────────────────────────────────────────────────

impl Encoded for Seq<char> {
    open spec fn put(self, d: Draft) -> Draft {
        d.block(
            vstd::utf8::encode_utf8(self).len(),
            vstd::utf8::encode_utf8(self).push(0),
            4,
        )
    }

    open spec fn put_at(self, d: Draft) -> nat {
        self.put(d).bytes.len()
    }

    open spec fn cost(self) -> nat {
        vstd::utf8::encode_utf8(self).len() + 12
    }

    open spec fn found(self, buf: Seq<u8>, pos: int) -> bool {
        wire::string_at(buf, pos) == Some(self)
    }

    proof fn put_extends(self, d: Draft) {
        let bytes = vstd::utf8::encode_utf8(self);
        layout::block_extends(d, bytes.len(), bytes.push(0), 4);
    }

    proof fn put_is_found(self, d: Draft, buf: Seq<u8>) {
        let bytes = vstd::utf8::encode_utf8(self);
        layout::block_extends(d, bytes.len(), bytes.push(0), 4);
        layout::tail_stands(
            buf,
            self.put(d).bytes,
            self.put_at(d),
            wire::le_bytes(bytes.len(), 4) + bytes.push(0),
        );
        layout::string_is_found(buf, self.put_at(d), self);
    }
}

impl Buildable for String {
    type Value = Seq<char>;

    open spec fn value(&self) -> Seq<char> {
        self@
    }

    fn build(&self, b: &mut Builder) -> (r: u32) {
        proof {
            self@.put_extends(builder::draft(*b));
        }
        builder::create_string(b, self.as_str())
    }
}

// ── Cuts ─────────────────────────────────────────────────────────────────────

/// The draft with a cut's coefficients put in front.
pub open spec fn cut_block(cut: CutView, d: Draft) -> Draft {
    d.block(
        cut.coefficients.len(),
        layout::words(layout::f64_words(cut.coefficients), 8),
        8,
    )
}

/// The fields of a cut's table, whose coefficients are at distance `coefficients`
/// from the end.
pub open spec fn cut_entries(cut: CutView, coefficients: nat) -> Seq<Entry> {
    seq![
        objects::u64_entry(schema::CUT_FIELD_CUT_ID, cut.cut_id),
        objects::u32_entry(schema::CUT_FIELD_SLOT_INDEX, cut.slot_index),
        objects::u32_entry(schema::CUT_FIELD_ITERATION, cut.iteration),
        objects::u32_entry(schema::CUT_FIELD_FORWARD_PASS_IDX, cut.forward_pass_index),
        objects::f64_entry(schema::CUT_FIELD_INTERCEPT, cut.intercept),
        Entry::Offset(schema::CUT_FIELD_COEFFICIENTS, coefficients),
        Entry::Scalar(schema::CUT_FIELD_IS_ACTIVE, builder::flag_byte(cut.is_active)),
    ]
}

proof fn cut_entries_are_proper(cut: CutView, coefficients: nat)
    ensures
        layout::proper_entries(cut_entries(cut, coefficients)),
        layout::table_cost(cut_entries(cut, coefficients)) == 84,
{
    wire::le_bytes_lengths();
    let entries = cut_entries(cut, coefficients);
    reveal_with_fuel(layout::fields_cost, 8);
    reveal_with_fuel(layout::entries_vtable_size, 8);
}

proof fn cut_block_extends(cut: CutView, d: Draft)
    requires
        objects::ready(d),
    ensures
        objects::ready(cut_block(cut, d)),
        layout::ends_in(cut_block(cut, d).bytes, d.bytes),
        d.bytes.len() < cut_block(cut, d).bytes.len(),
        d.bytes.len() + 8 * cut.coefficients.len() + 4 <= cut_block(cut, d).bytes.len(),
        cut_block(cut, d).bytes.len() <= d.bytes.len() + 8 * cut.coefficients.len() + 11,
        layout::stands_at(
            cut_block(cut, d).bytes,
            cut_block(cut, d).bytes.len(),
            wire::le_bytes(cut.coefficients.len(), 4) + layout::words(
                layout::f64_words(cut.coefficients),
                8,
            ),
        ),
{
    layout::words_len(layout::f64_words(cut.coefficients), 8);
    layout::block_extends(
        d,
        cut.coefficients.len(),
        layout::words(layout::f64_words(cut.coefficients), 8),
        8,
    );
}

impl Encoded for CutView {
    open spec fn put(self, d: Draft) -> Draft {
        cut_block(self, d).table(cut_entries(self, cut_block(self, d).bytes.len()))
    }

    open spec fn put_at(self, d: Draft) -> nat {
        cut_block(self, d).table_at(cut_entries(self, cut_block(self, d).bytes.len()))
    }

    open spec fn cost(self) -> nat {
        8 * self.coefficients.len() + 95
    }

    open spec fn found(self, buf: Seq<u8>, pos: int) -> bool {
        decode::cut_at(buf, pos) == Some(self)
    }

    proof fn put_extends(self, d: Draft) {
        let c = cut_block(self, d);
        let entries = cut_entries(self, c.bytes.len());
        cut_block_extends(self, d);
        cut_entries_are_proper(self, c.bytes.len());
        layout::table_extends(c, entries);
        layout::ends_in_chain(self.put(d).bytes, c.bytes, d.bytes);
    }

    proof fn put_is_found(self, d: Draft, buf: Seq<u8>) {
        let c = cut_block(self, d);
        let end = c.bytes.len();
        let entries = cut_entries(self, end);
        cut_block_extends(self, d);
        cut_entries_are_proper(self, end);
        layout::table_extends(c, entries);
        layout::ends_in_chain(buf, self.put(d).bytes, c.bytes);
        layout::tail_stands(
            buf,
            c.bytes,
            end,
            wire::le_bytes(self.coefficients.len(), 4) + layout::words(
                layout::f64_words(self.coefficients),
                8,
            ),
        );
        layout::f64s_are_found(buf, end, self.coefficients);
        objects::finds_vtable(c, entries, buf);
        objects::finds_u64(c, entries, buf, 0, schema::CUT_FIELD_CUT_ID, self.cut_id);
        objects::finds_u32(c, entries, buf, 1, schema::CUT_FIELD_SLOT_INDEX, self.slot_index);
        objects::finds_u32(c, entries, buf, 2, schema::CUT_FIELD_ITERATION, self.iteration);
        objects::finds_u32(
            c,
            entries,
            buf,
            3,
            schema::CUT_FIELD_FORWARD_PASS_IDX,
            self.forward_pass_index,
        );
        objects::finds_f64(c, entries, buf, 4, schema::CUT_FIELD_INTERCEPT, self.intercept);
        objects::finds_offset(c, entries, buf, 5, schema::CUT_FIELD_COEFFICIENTS, end);
        objects::finds_bool(c, entries, buf, 6, schema::CUT_FIELD_IS_ACTIVE, self.is_active);
    }
}

/// Writes a cut: its coefficients and then its table.
fn build_cut_table<'a>(b: &mut Builder, piece: &PolicyCutRecord<'a>) -> (r: u32)
    requires
        objects::ready(builder::draft(*old(b))),
        piece@.put(builder::draft(*old(b))).bytes.len() <= layout::MAX_BUFFER_LEN,
    ensures
        builder::draft(*final(b)) == piece@.put(builder::draft(*old(b))),
        r == piece@.put_at(builder::draft(*old(b))),
{
    proof {
        let c = cut_block(piece@, builder::draft(*b));
        cut_block_extends(piece@, builder::draft(*b));
        cut_entries_are_proper(piece@, c.bytes.len());
        layout::table_extends(c, cut_entries(piece@, c.bytes.len()));
    }
    let coefficients: u32 = builder::create_f64_vector(b, piece.coefficients);
    let fields: Vec<Field> = vec![
        Field::U64(schema::CUT_FIELD_CUT_ID, piece.cut_id),
        Field::U32(schema::CUT_FIELD_SLOT_INDEX, piece.slot_index),
        Field::U32(schema::CUT_FIELD_ITERATION, piece.iteration),
        Field::U32(schema::CUT_FIELD_FORWARD_PASS_IDX, piece.forward_pass_index),
        Field::F64(schema::CUT_FIELD_INTERCEPT, piece.intercept),
        Field::Offset(schema::CUT_FIELD_COEFFICIENTS, coefficients),
        Field::Bool(schema::CUT_FIELD_IS_ACTIVE, piece.is_active),
    ];
    proof {
        assert(objects::entries_of(fields@) =~= cut_entries(piece@, coefficients as nat));
    }
    objects::build_table(b, &fields)
}

impl<'a> Buildable for PolicyCutRecord<'a> {
    type Value = CutView;

    open spec fn value(&self) -> CutView {
        self@
    }

    fn build(&self, b: &mut Builder) -> (r: u32) {
        build_cut_table(b, self)
    }
}

// ── Season orders ────────────────────────────────────────────────────────────

/// The draft with a plant's orders put in front.
pub open spec fn orders_block(entry: HydroOrdersView, d: Draft) -> Draft {
    d.block(entry.orders.len(), layout::words(layout::u32_words(entry.orders), 4), 4)
}

/// The fields of a season orders' table, whose orders are at distance `orders` from
/// the end.
pub open spec fn hydro_orders_entries(entry: HydroOrdersView, orders: nat) -> Seq<Entry> {
    seq![
        objects::i32_entry(schema::HYDRO_SEASON_ORDERS_FIELD_HYDRO_ID, entry.hydro_id),
        Entry::Offset(schema::HYDRO_SEASON_ORDERS_FIELD_ORDERS, orders),
    ]
}

proof fn hydro_orders_entries_are_proper(entry: HydroOrdersView, orders: nat)
    ensures
        layout::proper_entries(hydro_orders_entries(entry, orders)),
        layout::table_cost(hydro_orders_entries(entry, orders)) == 29,
{
    wire::le_bytes_lengths();
    let entries = hydro_orders_entries(entry, orders);
    reveal_with_fuel(layout::fields_cost, 3);
    reveal_with_fuel(layout::entries_vtable_size, 3);
}

proof fn orders_block_extends(entry: HydroOrdersView, d: Draft)
    requires
        objects::ready(d),
    ensures
        objects::ready(orders_block(entry, d)),
        layout::ends_in(orders_block(entry, d).bytes, d.bytes),
        d.bytes.len() < orders_block(entry, d).bytes.len(),
        d.bytes.len() + 4 * entry.orders.len() + 4 <= orders_block(entry, d).bytes.len(),
        orders_block(entry, d).bytes.len() <= d.bytes.len() + 4 * entry.orders.len() + 11,
        layout::stands_at(
            orders_block(entry, d).bytes,
            orders_block(entry, d).bytes.len(),
            wire::le_bytes(entry.orders.len(), 4) + layout::words(
                layout::u32_words(entry.orders),
                4,
            ),
        ),
{
    layout::words_len(layout::u32_words(entry.orders), 4);
    layout::block_extends(
        d,
        entry.orders.len(),
        layout::words(layout::u32_words(entry.orders), 4),
        4,
    );
}

impl Encoded for HydroOrdersView {
    open spec fn put(self, d: Draft) -> Draft {
        orders_block(self, d).table(hydro_orders_entries(self, orders_block(self, d).bytes.len()))
    }

    open spec fn put_at(self, d: Draft) -> nat {
        orders_block(self, d).table_at(
            hydro_orders_entries(self, orders_block(self, d).bytes.len()),
        )
    }

    open spec fn cost(self) -> nat {
        4 * self.orders.len() + 40
    }

    open spec fn found(self, buf: Seq<u8>, pos: int) -> bool {
        decode::hydro_season_orders_at(buf, pos) == Some(self)
    }

    proof fn put_extends(self, d: Draft) {
        let c = orders_block(self, d);
        let entries = hydro_orders_entries(self, c.bytes.len());
        orders_block_extends(self, d);
        hydro_orders_entries_are_proper(self, c.bytes.len());
        layout::table_extends(c, entries);
        layout::ends_in_chain(self.put(d).bytes, c.bytes, d.bytes);
    }

    proof fn put_is_found(self, d: Draft, buf: Seq<u8>) {
        let c = orders_block(self, d);
        let end = c.bytes.len();
        let entries = hydro_orders_entries(self, end);
        orders_block_extends(self, d);
        hydro_orders_entries_are_proper(self, end);
        layout::table_extends(c, entries);
        layout::ends_in_chain(buf, self.put(d).bytes, c.bytes);
        layout::tail_stands(
            buf,
            c.bytes,
            end,
            wire::le_bytes(self.orders.len(), 4) + layout::words(
                layout::u32_words(self.orders),
                4,
            ),
        );
        layout::u32s_are_found(buf, end, self.orders);
        objects::finds_vtable(c, entries, buf);
        objects::finds_i32(
            c,
            entries,
            buf,
            0,
            schema::HYDRO_SEASON_ORDERS_FIELD_HYDRO_ID,
            self.hydro_id,
            0,
        );
        objects::finds_offset(c, entries, buf, 1, schema::HYDRO_SEASON_ORDERS_FIELD_ORDERS, end);
    }
}

/// Writes a plant's season orders: the orders and then the table.
fn build_hydro_season_orders_table(b: &mut Builder, entry: &HydroSeasonOrders) -> (r: u32)
    requires
        objects::ready(builder::draft(*old(b))),
        entry@.put(builder::draft(*old(b))).bytes.len() <= layout::MAX_BUFFER_LEN,
    ensures
        builder::draft(*final(b)) == entry@.put(builder::draft(*old(b))),
        r == entry@.put_at(builder::draft(*old(b))),
{
    proof {
        let c = orders_block(entry@, builder::draft(*b));
        orders_block_extends(entry@, builder::draft(*b));
        hydro_orders_entries_are_proper(entry@, c.bytes.len());
        layout::table_extends(c, hydro_orders_entries(entry@, c.bytes.len()));
    }
    let orders: u32 = builder::create_u32_vector(b, entry.orders.as_slice());
    let fields: Vec<Field> = vec![
        Field::I32(schema::HYDRO_SEASON_ORDERS_FIELD_HYDRO_ID, entry.hydro_id),
        Field::Offset(schema::HYDRO_SEASON_ORDERS_FIELD_ORDERS, orders),
    ];
    proof {
        assert(objects::entries_of(fields@) =~= hydro_orders_entries(entry@, orders as nat));
    }
    objects::build_table(b, &fields)
}

impl Buildable for HydroSeasonOrders {
    type Value = HydroOrdersView;

    open spec fn value(&self) -> HydroOrdersView {
        self@
    }

    fn build(&self, b: &mut Builder) -> (r: u32) {
        build_hydro_season_orders_table(b, self)
    }
}

// ── Lists in fields ──────────────────────────────────────────────────────────

/// A list in a field is found: where the field leads to the offset vector that was
/// put before the draft `list`, and each offset leads to its record.
pub proof fn finds_list<T: Stored>(
    d: Draft,
    entries: Seq<Entry>,
    buf: Seq<u8>,
    i: int,
    slot: u16,
    errors: decode::ListErrors,
    list: Draft,
    targets: Seq<nat>,
    items: Seq<T::Value>,
)
    requires
        objects::tabled(d, entries, buf),
        0 <= i < entries.len(),
        entries[i] == Entry::Offset(slot, list.offset_block(targets).bytes.len()),
        layout::ends_in(buf, list.offset_block(targets).bytes),
        list.offset_block(targets).bytes.len() <= d.bytes.len(),
        targets.len() == items.len(),
        forall|j: int| 0 <= j < targets.len() ==> #[trigger] targets[j] <= list.bytes.len(),
        forall|j: int|
            0 <= j < targets.len() ==> T::at(buf, buf.len() - #[trigger] targets[j]) == Some(
                items[j],
            ),
    ensures
        decode::list_field::<T>(
            buf,
            objects::table_pos(d, entries, buf),
            objects::vtable_pos(d, entries, buf),
            slot,
            errors,
        ) == Ok::<Seq<T::Value>, Seq<char>>(items),
{
    objects::finds_offset(
        d,
        entries,
        buf,
        i,
        slot,
        list.offset_block(targets).bytes.len(),
    );
    layout::targets_are_found(list, targets, buf);
    let positions = Seq::new(targets.len(), |j: int| buf.len() - targets[j]);
    let at = |pos: int| T::at(buf, pos);
    assert forall|j: int| 0 <= j < items.len() implies at(#[trigger] positions[j]) == Some(
        items[j],
    ) by {
        assert(positions[j] == buf.len() - targets[j]);
    }
    wire::read_all_in_order(at, positions, items);
}

// ── The season manifest ──────────────────────────────────────────────────────

/// The fields of a season manifest's table, whose list of orders is at distance
/// `orders` from the end.
pub open spec fn season_entries(season: SeasonView, orders: nat) -> Seq<Entry> {
    seq![
        Entry::Scalar(schema::SEASON_MANIFEST_FIELD_CYCLE_CODE, seq![season.cycle_code]),
        objects::u32_entry(schema::SEASON_MANIFEST_FIELD_N_SEASONS, season.n_seasons),
        Entry::Offset(schema::SEASON_MANIFEST_FIELD_HYDRO_ORDERS, orders),
    ]
}

proof fn season_entries_are_proper(season: SeasonView, orders: nat)
    ensures
        layout::proper_entries(season_entries(season, orders)),
        layout::table_cost(season_entries(season, orders)) == 32,
{
    wire::le_bytes_lengths();
    let entries = season_entries(season, orders);
    reveal_with_fuel(layout::fields_cost, 4);
    reveal_with_fuel(layout::entries_vtable_size, 4);
}

proof fn season_list_extends(season: SeasonView, d: Draft)
    requires
        objects::ready(d),
    ensures
        ({
            let list = objects::put_list(season.hydro_orders, d);
            &&& objects::ready(list)
            &&& layout::ends_in(list.bytes, objects::put_all(season.hydro_orders, d).bytes)
            &&& layout::ends_in(list.bytes, d.bytes)
            &&& d.bytes.len() < list.bytes.len()
            &&& list.bytes.len() <= d.bytes.len() + objects::cost_of(season.hydro_orders) + 4
                * season.hydro_orders.len() + 11
        }),
{
    let orders = season.hydro_orders;
    objects::put_all_extends(orders, d);
    let p = objects::put_all(orders, d);
    layout::offset_block_extends(p, objects::offsets_of(orders, d));
    layout::ends_in_chain(objects::put_list(orders, d).bytes, p.bytes, d.bytes);
}

impl Encoded for SeasonView {
    open spec fn put(self, d: Draft) -> Draft {
        let list = objects::put_list(self.hydro_orders, d);
        list.table(season_entries(self, list.bytes.len()))
    }

    open spec fn put_at(self, d: Draft) -> nat {
        let list = objects::put_list(self.hydro_orders, d);
        list.table_at(season_entries(self, list.bytes.len()))
    }

    open spec fn cost(self) -> nat {
        objects::cost_of(self.hydro_orders) + 4 * self.hydro_orders.len() + 43
    }

    open spec fn found(self, buf: Seq<u8>, pos: int) -> bool {
        decode::season_manifest_at(buf, pos) == Some(self)
    }

    proof fn put_extends(self, d: Draft) {
        let list = objects::put_list(self.hydro_orders, d);
        let entries = season_entries(self, list.bytes.len());
        season_list_extends(self, d);
        season_entries_are_proper(self, list.bytes.len());
        layout::table_extends(list, entries);
        layout::ends_in_chain(self.put(d).bytes, list.bytes, d.bytes);
    }

    proof fn put_is_found(self, d: Draft, buf: Seq<u8>) {
        let orders = self.hydro_orders;
        let p = objects::put_all(orders, d);
        let targets = objects::offsets_of(orders, d);
        let list = objects::put_list(orders, d);
        let end = list.bytes.len();
        let entries = season_entries(self, end);
        season_list_extends(self, d);
        season_entries_are_proper(self, end);
        layout::table_extends(list, entries);
        layout::ends_in_chain(buf, self.put(d).bytes, list.bytes);
        layout::ends_in_chain(buf, list.bytes, p.bytes);
        objects::put_all_extends(orders, d);
        objects::put_all_is_found(orders, d, buf);
        objects::finds_vtable(list, entries, buf);
        objects::finds_u8(
            list,
            entries,
            buf,
            0,
            schema::SEASON_MANIFEST_FIELD_CYCLE_CODE,
            self.cycle_code,
            records::SEASON_CYCLE_CODE_ABSENT,
        );
        objects::finds_u32(
            list,
            entries,
            buf,
            1,
            schema::SEASON_MANIFEST_FIELD_N_SEASONS,
            self.n_seasons,
        );
        assert forall|j: int| 0 <= j < targets.len() implies <HydroSeasonOrders as Stored>::at(
            buf,
            buf.len() - #[trigger] targets[j],
        ) == Some(orders[j]) by {
            assert(orders[j].found(buf, buf.len() - targets[j]));
        }
        finds_list::<HydroSeasonOrders>(
            list,
            entries,
            buf,
            2,
            schema::SEASON_MANIFEST_FIELD_HYDRO_ORDERS,
            decode::silent_errors(),
            p,
            targets,
            orders,
        );
    }
}

/// Writes a season manifest: the orders of each plant, their list and the table.
pub(crate) fn build_season_manifest_table(b: &mut Builder, season_manifest: &SeasonManifest) -> (r:
    u32)
    requires
        objects::ready(builder::draft(*old(b))),
        season_manifest@.put(builder::draft(*old(b))).bytes.len() <= layout::MAX_BUFFER_LEN,
    ensures
        builder::draft(*final(b)) == season_manifest@.put(builder::draft(*old(b))),
        r == season_manifest@.put_at(builder::draft(*old(b))),
{
    let ghost season = season_manifest@;
    let ghost before = builder::draft(*b);
    proof {
        let list = objects::put_list(season.hydro_orders, before);
        season_list_extends(season, before);
        season_entries_are_proper(season, list.bytes.len());
        layout::table_extends(list, season_entries(season, list.bytes.len()));
        objects::put_all_extends(season.hydro_orders, before);
        assert(objects::values_of(season_manifest.hydro_orders@) =~= season.hydro_orders);
    }
    let targets: Vec<u32> = objects::build_all(b, season_manifest.hydro_orders.as_slice());
    proof {
        layout::offset_block_extends(
            builder::draft(*b),
            objects::offsets_of(season.hydro_orders, before),
        );
        assert forall|i: int| 0 <= i < targets@.len() implies #[trigger] targets@[i]
            <= builder::written(*b).len() by {
            assert(layout::u32_words(targets@)[i] == targets@[i]);
        }
    }
    let orders: u32 = builder::create_offset_vector(b, targets.as_slice());
    let fields: Vec<Field> = vec![
        Field::U8(schema::SEASON_MANIFEST_FIELD_CYCLE_CODE, season_manifest.cycle_code),
        Field::U32(schema::SEASON_MANIFEST_FIELD_N_SEASONS, season_manifest.n_seasons),
        Field::Offset(schema::SEASON_MANIFEST_FIELD_HYDRO_ORDERS, orders),
    ];
    proof {
        assert(objects::entries_of(fields@) =~= season_entries(season, orders as nat));
    }
    objects::build_table(b, &fields)
}

} // verus!
