//! Reading policy artifacts.
//!
//! Each `deserialize_*` function is stated as what its record is in the wire
//! format: [`decode_stage_cuts`], [`decode_stage_basis`], [`decode_stage_states`]
//! and [`decode_checkpoint_manifest`] say which record, or which error, a buffer
//! stands for. A field that the buffer lacks is not an error: it has a default.

use vstd::prelude::*;

use crate::error::OutputError;
use crate::flat::wire;
use crate::float::Float64;
use crate::policy::records;
use crate::policy::records::{
    BasisView, CheckpointManifest, CutView, EntitySlot, GraphManifest, HydroOrdersView,
    HydroSeasonOrders, ManifestEdge, ManifestNode, ManifestView, OwnedPolicyBasisRecord,
    OwnedPolicyCutRecord, ProducerBlock, SeasonManifest, SeasonView, StageCutsReadResult,
    StageCutsView, StageStatesReadResult, StageStatesView,
};
use crate::policy::schema;
use crate::text;

verus! {

// ── Records in a buffer ──────────────────────────────────────────────────────

/// A record that a buffer can hold.
pub trait Stored: Sized {
    /// What the record stands for.
    type Value;

    /// What the record stands for.
    spec fn value(self) -> Self::Value;

    /// What the buffer holds at `pos`, if it is such a record.
    spec fn at(buf: Seq<u8>, pos: int) -> Option<Self::Value>;

    /// Reads the record at `pos`.
    fn read(buf: &[u8], pos: usize) -> (r: Option<Self>)
        ensures
            match r {
                Some(x) => Self::at(buf@, pos as int) == Some(x.value()),
                None => Self::at(buf@, pos as int) is None,
            },
    ;
}

/// What records stand for.
pub open spec fn values<T: Stored>(records: Seq<T>) -> Seq<T::Value> {
    records.map_values(|x: T| x.value())
}

/// The records at `positions`, or the index of the first that is none.
pub open spec fn records_at<T: Stored>(buf: Seq<u8>, positions: Seq<int>) -> Result<
    Seq<T::Value>,
    nat,
> {
    wire::read_all(|pos: int| T::at(buf, pos), positions)
}

/// Reads the records at `positions`.
fn read_records<T: Stored>(buf: &[u8], positions: &Vec<usize>) -> (r: Result<Vec<T>, usize>)
    ensures
        match r {
            Ok(v) => records_at::<T>(buf@, wire::ints(positions@)) == Ok::<Seq<T::Value>, nat>(
                values(v@),
            ),
            Err(i) => records_at::<T>(buf@, wire::ints(positions@)) == Err::<Seq<T::Value>, nat>(
                i as nat,
            ),
        },
{
    let ghost at = |pos: int| T::at(buf@, pos);
    let ghost all = wire::ints(positions@);
    let mut out: Vec<T> = Vec::new();
    proof {
        assert(values(out@) =~= Seq::empty());
    }
    for i in 0..positions.len()
        invariant
            at == (|pos: int| T::at(buf@, pos)),
            all == wire::ints(positions@),
            wire::read_all(at, all.take(i as int)) == Ok::<Seq<T::Value>, nat>(values(out@)),
    {
        proof {
            assert(all.take(i + 1).drop_last() =~= all.take(i as int));
            assert(all.take(i + 1).last() == positions@[i as int] as int);
        }
        match T::read(buf, positions[i]) {
            Some(x) => {
                let ghost before = out@;
                out.push(x);
                proof {
                    assert(values(out@) =~= values(before).push(x.value()));
                }
            },
            None => {
                proof {
                    wire::read_all_keeps_the_first_failure(at, all, i + 1);
                }
                return Err(i);
            },
        }
    }
    proof {
        assert(all.take(all.len() as int) =~= all);
    }
    Ok(out)
}

/// The texts with which a list of records can fail.
pub struct ListErrors {
    /// The field's offset leads nowhere.
    pub offset: Seq<char>,
    /// The vector does not fit in the buffer.
    pub header: Seq<char>,
    /// The text before the index of a record that cannot be read.
    pub before: Seq<char>,
    /// The text after it.
    pub after: Seq<char>,
}

/// The list of records in a field. An absent field is an empty list.
pub open spec fn list_field<T: Stored>(
    buf: Seq<u8>,
    table: int,
    vtable: int,
    slot: u16,
    errors: ListErrors,
) -> Result<Seq<T::Value>, Seq<char>> {
    match wire::field_at(buf, table, vtable, slot) {
        None => Ok(Seq::empty()),
        Some(pos) => match wire::target_of(buf, pos) {
            None => Err(errors.offset),
            Some(vector) => match wire::targets_at(buf, vector) {
                None => Err(errors.header),
                Some(positions) => match records_at::<T>(buf, positions) {
                    Ok(list) => Ok(list),
                    Err(index) => Err(errors.before + text::decimal(index) + errors.after),
                },
            },
        },
    }
}

/// A read's result is `expected`: the value, or a serialization error of `ctx` with
/// that message.
pub open spec fn agrees<T, V>(
    result: Result<T, OutputError>,
    ctx: Seq<char>,
    expected: Result<V, Seq<char>>,
    value: spec_fn(T) -> V,
) -> bool {
    match (result, expected) {
        (Ok(x), Ok(v)) => value(x) == v,
        (Err(e), Err(message)) => e.says(ctx, message),
        _ => false,
    }
}

/// Reads the list of records in a field.
fn read_list<T: Stored>(
    buf: &[u8],
    table_pos: usize,
    vtable_pos: usize,
    slot: u16,
    ctx: &str,
    offset: &str,
    header: &str,
    before: &str,
    after: &str,
) -> (r: Result<Vec<T>, OutputError>)
    ensures
        agrees(
            r,
            ctx@,
            list_field::<T>(
                buf@,
                table_pos as int,
                vtable_pos as int,
                slot,
                ListErrors { offset: offset@, header: header@, before: before@, after: after@ },
            ),
            |v: Vec<T>| values(v@),
        ),
{
    let pos: usize = match wire::field_pos(buf, table_pos, vtable_pos, slot) {
        Some(pos) => pos,
        None => {
            let out: Vec<T> = Vec::new();
            proof {
                assert(values(out@) =~= Seq::empty());
            }
            return Ok(out);
        },
    };
    let vector: usize = match wire::follow_uoffset(buf, pos) {
        Some(vector) => vector,
        None => return Err(OutputError::fixed(ctx, offset)),
    };
    let positions: Vec<usize> = match wire::read_table_vector_positions(buf, vector) {
        Some(positions) => positions,
        None => return Err(OutputError::fixed(ctx, header)),
    };
    match read_records::<T>(buf, &positions) {
        Ok(list) => Ok(list),
        Err(i) => {
            let index: String = text::decimal_text(i as u64);
            Err(OutputError::serialization(ctx, text::join3(before, index.as_str(), after)))
        },
    }
}

// ── Entity slots ─────────────────────────────────────────────────────────────

/// The entity slot that the table at `table` is.
pub open spec fn entity_slot_at(buf: Seq<u8>, table: int) -> Option<EntitySlot> {
    match wire::vtable_of(buf, table) {
        None => None,
        Some(vtable) => {
            let none = records::ENTITY_SLOT_DELIVERY_DATE_SENTINEL;
            match (
                wire::u8_field(buf, table, vtable, schema::ENTITY_SLOT_FIELD_ENTITY_TYPE, 0),
                wire::i32_field(buf, table, vtable, schema::ENTITY_SLOT_FIELD_ENTITY_ID, 0),
                wire::u32_field(buf, table, vtable, schema::ENTITY_SLOT_FIELD_SUBINDEX),
                wire::bool_field(buf, table, vtable, schema::ENTITY_SLOT_FIELD_WAS_ACTIVE),
                wire::i32_field(buf, table, vtable, schema::ENTITY_SLOT_FIELD_REFERENCE_DATE, none),
                wire::i32_field(buf, table, vtable, schema::ENTITY_SLOT_FIELD_INTERVAL_START, none),
                wire::i32_field(buf, table, vtable, schema::ENTITY_SLOT_FIELD_INTERVAL_END, none),
            ) {
                (Some(entity_type), Some(entity_id), Some(subindex), Some(was_active), Some(reference_date), Some(interval_start), Some(interval_end)) => Some(EntitySlot { entity_type, entity_id, subindex, was_active, reference_date, interval_start, interval_end }),
                _ => None,
            }
        },
    }
}

/// Reads an entity slot. Absent dates are the sentinel, since 0 could be a date.
pub fn deserialize_entity_slot_table(buf: &[u8], slot_table_pos: usize) -> (r: Option<EntitySlot>)
    ensures
        r == entity_slot_at(buf@, slot_table_pos as int),
{
    let t: usize = slot_table_pos;
    let v: usize = match wire::resolve_vtable_pos(buf, t) {
        Some(v) => v,
        None => return None,
    };
    let none: i32 = records::ENTITY_SLOT_DELIVERY_DATE_SENTINEL;
    match (
        wire::read_u8_field(buf, t, v, schema::ENTITY_SLOT_FIELD_ENTITY_TYPE, 0),
        wire::read_i32_field(buf, t, v, schema::ENTITY_SLOT_FIELD_ENTITY_ID, 0),
        wire::read_u32_field(buf, t, v, schema::ENTITY_SLOT_FIELD_SUBINDEX),
        wire::read_bool_field(buf, t, v, schema::ENTITY_SLOT_FIELD_WAS_ACTIVE),
        wire::read_i32_field(buf, t, v, schema::ENTITY_SLOT_FIELD_REFERENCE_DATE, none),
        wire::read_i32_field(buf, t, v, schema::ENTITY_SLOT_FIELD_INTERVAL_START, none),
        wire::read_i32_field(buf, t, v, schema::ENTITY_SLOT_FIELD_INTERVAL_END, none),
    ) {
        (Some(entity_type), Some(entity_id), Some(subindex), Some(was_active), Some(reference_date), Some(interval_start), Some(interval_end)) => Some(EntitySlot { entity_type, entity_id, subindex, was_active, reference_date, interval_start, interval_end }),
        _ => None,
    }
}

impl Stored for EntitySlot {
    type Value = EntitySlot;

    open spec fn value(self) -> EntitySlot {
        self
    }

    open spec fn at(buf: Seq<u8>, pos: int) -> Option<EntitySlot> {
        entity_slot_at(buf, pos)
    }

    fn read(buf: &[u8], pos: usize) -> (r: Option<EntitySlot>) {
        deserialize_entity_slot_table(buf, pos)
    }
}

/// The texts with which an entity manifest can fail.
pub open spec fn entity_manifest_errors() -> ListErrors {
    ListErrors {
        offset: "invalid uoffset for entity_manifest vector"@,
        header: "entity_manifest vector header truncated or corrupt"@,
        before: "entity_slot table "@,
        after: " truncated or corrupt"@,
    }
}

/// The entity manifest in a field.
pub open spec fn entity_manifest_field(
    buf: Seq<u8>,
    table: int,
    vtable: int,
    slot: u16,
) -> Result<Seq<EntitySlot>, Seq<char>> {
    list_field::<EntitySlot>(buf, table, vtable, slot, entity_manifest_errors())
}

/// Reads an entity manifest.
pub fn read_entity_manifest(
    buf: &[u8],
    table_pos: usize,
    vtable_pos: usize,
    slot: u16,
    ctx: &str,
) -> (r: Result<Vec<EntitySlot>, OutputError>)
    ensures
        agrees(
            r,
            ctx@,
            entity_manifest_field(buf@, table_pos as int, vtable_pos as int, slot),
            |v: Vec<EntitySlot>| v@,
        ),
{
    let r = read_list::<EntitySlot>(
        buf,
        table_pos,
        vtable_pos,
        slot,
        ctx,
        "invalid uoffset for entity_manifest vector",
        "entity_manifest vector header truncated or corrupt",
        "entity_slot table ",
        " truncated or corrupt",
    );
    proof {
        if r is Ok {
            assert(values(r->Ok_0@) =~= r->Ok_0@);
        }
    }
    r
}

// ── Manifest nodes and edges ─────────────────────────────────────────────────

/// The node that the table at `table` is.
pub open spec fn manifest_node_at(buf: Seq<u8>, table: int) -> Option<ManifestNode> {
    match wire::vtable_of(buf, table) {
        None => None,
        Some(vtable) => {
            match (
                wire::i32_field(buf, table, vtable, schema::MANIFEST_NODE_FIELD_ID, 0),
                wire::i32_field(buf, table, vtable, schema::MANIFEST_NODE_FIELD_STAGE_ID, 0),
                wire::u32_field(buf, table, vtable, schema::MANIFEST_NODE_FIELD_POOL_ID),
            ) {
                (Some(id), Some(stage_id), Some(pool_id)) => Some(ManifestNode { id, stage_id, pool_id }),
                _ => None,
            }
        },
    }
}

/// Reads a node.
pub fn deserialize_manifest_node_table(buf: &[u8], node_table_pos: usize) -> (r: Option<ManifestNode>)
    ensures
        r == manifest_node_at(buf@, node_table_pos as int),
{
    let t: usize = node_table_pos;
    let v: usize = match wire::resolve_vtable_pos(buf, t) {
        Some(v) => v,
        None => return None,
    };
    match (
        wire::read_i32_field(buf, t, v, schema::MANIFEST_NODE_FIELD_ID, 0),
        wire::read_i32_field(buf, t, v, schema::MANIFEST_NODE_FIELD_STAGE_ID, 0),
        wire::read_u32_field(buf, t, v, schema::MANIFEST_NODE_FIELD_POOL_ID),
    ) {
        (Some(id), Some(stage_id), Some(pool_id)) => Some(ManifestNode { id, stage_id, pool_id }),
        _ => None,
    }
}

impl Stored for ManifestNode {
    type Value = ManifestNode;

    open spec fn value(self) -> ManifestNode {
        self
    }

    open spec fn at(buf: Seq<u8>, pos: int) -> Option<ManifestNode> {
        manifest_node_at(buf, pos)
    }

    fn read(buf: &[u8], pos: usize) -> (r: Option<ManifestNode>) {
        deserialize_manifest_node_table(buf, pos)
    }
}

/// The edge that the table at `table` is.
pub open spec fn manifest_edge_at(buf: Seq<u8>, table: int) -> Option<ManifestEdge> {
    match wire::vtable_of(buf, table) {
        None => None,
        Some(vtable) => {
            match (
                wire::i32_field(buf, table, vtable, schema::MANIFEST_EDGE_FIELD_SOURCE_ID, 0),
                wire::i32_field(buf, table, vtable, schema::MANIFEST_EDGE_FIELD_TARGET_ID, 0),
                wire::f64_field_or_zero(buf, table, vtable, schema::MANIFEST_EDGE_FIELD_PROBABILITY),
            ) {
                (Some(source_id), Some(target_id), Some(probability)) => Some(ManifestEdge { source_id, target_id, probability }),
                _ => None,
            }
        },
    }
}

/// Reads an edge.
pub fn deserialize_manifest_edge_table(buf: &[u8], edge_table_pos: usize) -> (r: Option<ManifestEdge>)
    ensures
        r == manifest_edge_at(buf@, edge_table_pos as int),
{
    let t: usize = edge_table_pos;
    let v: usize = match wire::resolve_vtable_pos(buf, t) {
        Some(v) => v,
        None => return None,
    };
    match (
        wire::read_i32_field(buf, t, v, schema::MANIFEST_EDGE_FIELD_SOURCE_ID, 0),
        wire::read_i32_field(buf, t, v, schema::MANIFEST_EDGE_FIELD_TARGET_ID, 0),
        wire::read_f64_field_or_zero(buf, t, v, schema::MANIFEST_EDGE_FIELD_PROBABILITY),
    ) {
        (Some(source_id), Some(target_id), Some(probability)) => Some(ManifestEdge { source_id, target_id, probability }),
        _ => None,
    }
}

impl Stored for ManifestEdge {
    type Value = ManifestEdge;

    open spec fn value(self) -> ManifestEdge {
        self
    }

    open spec fn at(buf: Seq<u8>, pos: int) -> Option<ManifestEdge> {
        manifest_edge_at(buf, pos)
    }

    fn read(buf: &[u8], pos: usize) -> (r: Option<ManifestEdge>) {
        deserialize_manifest_edge_table(buf, pos)
    }
}

/// The texts with which a node list can fail.
pub open spec fn node_errors() -> ListErrors {
    ListErrors {
        offset: "invalid uoffset for nodes vector"@,
        header: "nodes vector header truncated"@,
        before: "manifest node table "@,
        after: " truncated"@,
    }
}

/// The texts with which an edge list can fail.
pub open spec fn edge_errors() -> ListErrors {
    ListErrors {
        offset: "invalid uoffset for edges vector"@,
        header: "edges vector header truncated"@,
        before: "manifest edge table "@,
        after: " truncated"@,
    }
}

/// Reads the nodes of the policy graph.
pub fn read_manifest_nodes(
    buf: &[u8],
    table_pos: usize,
    vtable_pos: usize,
    slot: u16,
    ctx: &str,
) -> (r: Result<Vec<ManifestNode>, OutputError>)
    ensures
        agrees(
            r,
            ctx@,
            list_field::<ManifestNode>(
                buf@,
                table_pos as int,
                vtable_pos as int,
                slot,
                node_errors(),
            ),
            |v: Vec<ManifestNode>| v@,
        ),
{
    let r = read_list::<ManifestNode>(
        buf,
        table_pos,
        vtable_pos,
        slot,
        ctx,
        "invalid uoffset for nodes vector",
        "nodes vector header truncated",
        "manifest node table ",
        " truncated",
    );
    proof {
        if r is Ok {
            assert(values(r->Ok_0@) =~= r->Ok_0@);
        }
    }
    r
}

/// Reads the edges of the policy graph.
pub fn read_manifest_edges(
    buf: &[u8],
    table_pos: usize,
    vtable_pos: usize,
    slot: u16,
    ctx: &str,
) -> (r: Result<Vec<ManifestEdge>, OutputError>)
    ensures
        agrees(
            r,
            ctx@,
            list_field::<ManifestEdge>(
                buf@,
                table_pos as int,
                vtable_pos as int,
                slot,
                edge_errors(),
            ),
            |v: Vec<ManifestEdge>| v@,
        ),
{
    let r = read_list::<ManifestEdge>(
        buf,
        table_pos,
        vtable_pos,
        slot,
        ctx,
        "invalid uoffset for edges vector",
        "edges vector header truncated",
        "manifest edge table ",
        " truncated",
    );
    proof {
        if r is Ok {
            assert(values(r->Ok_0@) =~= r->Ok_0@);
        }
    }
    r
}

// ── Strings and number vectors in fields ─────────────────────────────────────

impl Stored for String {
    type Value = Seq<char>;

    open spec fn value(self) -> Seq<char> {
        self@
    }

    open spec fn at(buf: Seq<u8>, pos: int) -> Option<Seq<char>> {
        wire::string_at(buf, pos)
    }

    fn read(buf: &[u8], pos: usize) -> (r: Option<String>) {
        wire::read_string(buf, pos)
    }
}

/// The string in a field. An absent field is an empty string.
pub open spec fn string_field(buf: Seq<u8>, table: int, vtable: int, slot: u16) -> Result<
    Seq<char>,
    Seq<char>,
> {
    match wire::field_at(buf, table, vtable, slot) {
        None => Ok(Seq::empty()),
        Some(pos) => match wire::target_of(buf, pos) {
            None => Err("invalid uoffset for string field"@),
            Some(at) => match wire::string_at(buf, at) {
                None => Err("string field truncated or not UTF-8"@),
                Some(s) => Ok(s),
            },
        },
    }
}

/// Reads the string in a field.
pub fn read_string_field(
    buf: &[u8],
    table_pos: usize,
    vtable_pos: usize,
    slot: u16,
    ctx: &str,
) -> (r: Result<String, OutputError>)
    ensures
        agrees(
            r,
            ctx@,
            string_field(buf@, table_pos as int, vtable_pos as int, slot),
            |s: String| s@,
        ),
{
    let pos: usize = match wire::field_pos(buf, table_pos, vtable_pos, slot) {
        Some(pos) => pos,
        None => return Ok(String::new()),
    };
    let at: usize = match wire::follow_uoffset(buf, pos) {
        Some(at) => at,
        None => return Err(OutputError::fixed(ctx, "invalid uoffset for string field")),
    };
    match wire::read_string(buf, at) {
        Some(s) => Ok(s),
        None => Err(OutputError::fixed(ctx, "string field truncated or not UTF-8")),
    }
}

/// The `u32` vector in a field. An absent field is an empty vector.
pub open spec fn u32_vector_field(buf: Seq<u8>, table: int, vtable: int, slot: u16) -> Result<
    Seq<u32>,
    Seq<char>,
> {
    match wire::field_at(buf, table, vtable, slot) {
        None => Ok(Seq::empty()),
        Some(pos) => match wire::target_of(buf, pos) {
            None => Err("invalid uoffset for uint32 vector"@),
            Some(at) => match wire::u32s_at(buf, at) {
                None => Err("uint32 vector truncated or corrupt"@),
                Some(s) => Ok(s),
            },
        },
    }
}

/// Reads the `u32` vector in a field.
pub fn read_u32_vector_field(
    buf: &[u8],
    table_pos: usize,
    vtable_pos: usize,
    slot: u16,
    ctx: &str,
) -> (r: Result<Vec<u32>, OutputError>)
    ensures
        agrees(
            r,
            ctx@,
            u32_vector_field(buf@, table_pos as int, vtable_pos as int, slot),
            |v: Vec<u32>| v@,
        ),
{
    let pos: usize = match wire::field_pos(buf, table_pos, vtable_pos, slot) {
        Some(pos) => pos,
        None => return Ok(Vec::new()),
    };
    let at: usize = match wire::follow_uoffset(buf, pos) {
        Some(at) => at,
        None => return Err(OutputError::fixed(ctx, "invalid uoffset for uint32 vector")),
    };
    match wire::read_u32_vector(buf, at) {
        Some(v) => Ok(v),
        None => Err(OutputError::fixed(ctx, "uint32 vector truncated or corrupt")),
    }
}

/// The texts with which a list of strings can fail.
pub open spec fn string_list_errors() -> ListErrors {
    ListErrors {
        offset: "invalid uoffset for string vector"@,
        header: "string vector header truncated"@,
        before: "string vector element "@,
        after: " truncated"@,
    }
}

/// Reads the list of strings in a field.
pub fn read_string_vector_field(
    buf: &[u8],
    table_pos: usize,
    vtable_pos: usize,
    slot: u16,
    ctx: &str,
) -> (r: Result<Vec<String>, OutputError>)
    ensures
        agrees(
            r,
            ctx@,
            list_field::<String>(
                buf@,
                table_pos as int,
                vtable_pos as int,
                slot,
                string_list_errors(),
            ),
            |v: Vec<String>| records::texts(v@),
        ),
{
    let r = read_list::<String>(
        buf,
        table_pos,
        vtable_pos,
        slot,
        ctx,
        "invalid uoffset for string vector",
        "string vector header truncated",
        "string vector element ",
        " truncated",
    );
    proof {
        if r is Ok {
            assert(values(r->Ok_0@) =~= records::texts(r->Ok_0@));
        }
    }
    r
}

// ── The season manifest ──────────────────────────────────────────────────────

/// The season orders that the table at `table` are.
pub open spec fn hydro_season_orders_at(buf: Seq<u8>, table: int) -> Option<HydroOrdersView> {
    match wire::vtable_of(buf, table) {
        None => None,
        Some(vtable) => match (
            wire::i32_field(buf, table, vtable, schema::HYDRO_SEASON_ORDERS_FIELD_HYDRO_ID, 0),
            u32_vector_field(buf, table, vtable, schema::HYDRO_SEASON_ORDERS_FIELD_ORDERS),
        ) {
            (Some(hydro_id), Ok(orders)) => Some(HydroOrdersView { hydro_id, orders }),
            _ => None,
        },
    }
}

/// Reads one hydro plant's season orders.
pub fn deserialize_hydro_season_orders_table(buf: &[u8], table_pos: usize) -> (r: Option<
    HydroSeasonOrders,
>)
    ensures
        match r {
            Some(x) => hydro_season_orders_at(buf@, table_pos as int) == Some(x@),
            None => hydro_season_orders_at(buf@, table_pos as int) is None,
        },
{
    let t: usize = table_pos;
    let v: usize = match wire::resolve_vtable_pos(buf, t) {
        Some(v) => v,
        None => return None,
    };
    let hydro_id: i32 = match wire::read_i32_field(
        buf,
        t,
        v,
        schema::HYDRO_SEASON_ORDERS_FIELD_HYDRO_ID,
        0,
    ) {
        Some(hydro_id) => hydro_id,
        None => return None,
    };
    let orders: Vec<u32> = match wire::field_pos(
        buf,
        t,
        v,
        schema::HYDRO_SEASON_ORDERS_FIELD_ORDERS,
    ) {
        None => Vec::new(),
        Some(pos) => match wire::follow_uoffset(buf, pos) {
            None => return None,
            Some(at) => match wire::read_u32_vector(buf, at) {
                None => return None,
                Some(orders) => orders,
            },
        },
    };
    Some(HydroSeasonOrders { hydro_id, orders })
}

impl Stored for HydroSeasonOrders {
    type Value = HydroOrdersView;

    open spec fn value(self) -> HydroOrdersView {
        self@
    }

    open spec fn at(buf: Seq<u8>, pos: int) -> Option<HydroOrdersView> {
        hydro_season_orders_at(buf, pos)
    }

    fn read(buf: &[u8], pos: usize) -> (r: Option<HydroSeasonOrders>) {
        deserialize_hydro_season_orders_table(buf, pos)
    }
}

/// The texts of a list whose failure has no text of its own.
pub open spec fn silent_errors() -> ListErrors {
    ListErrors { offset: ""@, header: ""@, before: ""@, after: ""@ }
}

/// The season manifest that the table at `table` is.
pub open spec fn season_manifest_at(buf: Seq<u8>, table: int) -> Option<SeasonView> {
    match wire::vtable_of(buf, table) {
        None => None,
        Some(vtable) => match (
            wire::u8_field(
                buf,
                table,
                vtable,
                schema::SEASON_MANIFEST_FIELD_CYCLE_CODE,
                records::SEASON_CYCLE_CODE_ABSENT,
            ),
            wire::u32_field(buf, table, vtable, schema::SEASON_MANIFEST_FIELD_N_SEASONS),
            list_field::<HydroSeasonOrders>(
                buf,
                table,
                vtable,
                schema::SEASON_MANIFEST_FIELD_HYDRO_ORDERS,
                silent_errors(),
            ),
        ) {
            (Some(cycle_code), Some(n_seasons), Ok(hydro_orders)) => Some(
                SeasonView { cycle_code, n_seasons, hydro_orders },
            ),
            _ => None,
        },
    }
}

/// Reads a season manifest, without a check of its shape.
pub fn deserialize_season_manifest_table(buf: &[u8], table_pos: usize) -> (r: Option<
    SeasonManifest,
>)
    ensures
        match r {
            Some(x) => season_manifest_at(buf@, table_pos as int) == Some(x@),
            None => season_manifest_at(buf@, table_pos as int) is None,
        },
{
    let t: usize = table_pos;
    let v: usize = match wire::resolve_vtable_pos(buf, t) {
        Some(v) => v,
        None => return None,
    };
    let cycle_code: u8 = match wire::read_u8_field(
        buf,
        t,
        v,
        schema::SEASON_MANIFEST_FIELD_CYCLE_CODE,
        records::SEASON_CYCLE_CODE_ABSENT,
    ) {
        Some(cycle_code) => cycle_code,
        None => return None,
    };
    let n_seasons: u32 = match wire::read_u32_field(
        buf,
        t,
        v,
        schema::SEASON_MANIFEST_FIELD_N_SEASONS,
    ) {
        Some(n_seasons) => n_seasons,
        None => return None,
    };
    let hydro_orders: Vec<HydroSeasonOrders> = match read_list::<HydroSeasonOrders>(
        buf,
        t,
        v,
        schema::SEASON_MANIFEST_FIELD_HYDRO_ORDERS,
        "",
        "",
        "",
        "",
        "",
    ) {
        Ok(list) => list,
        Err(_) => return None,
    };
    proof {
        assert(values(hydro_orders@) =~= records::order_views(hydro_orders@));
    }
    Some(SeasonManifest { cycle_code, n_seasons, hydro_orders })
}

/// The first place where the hydro ids do not ascend strictly, up to the first `n`
/// plants.
pub open spec fn first_descent(orders: Seq<HydroOrdersView>, n: int) -> Option<int>
    decreases n,
{
    if n <= 1 {
        None
    } else {
        match first_descent(orders, n - 1) {
            Some(i) => Some(i),
            None => if orders[n - 2].hydro_id >= orders[n - 1].hydro_id {
                Some(n - 2)
            } else {
                None
            },
        }
    }
}

/// The first of the first `n` plants that has not one order per season.
pub open spec fn first_incomplete(season: SeasonView, n: int) -> Option<int>
    decreases n,
{
    if n <= 0 {
        None
    } else {
        match first_incomplete(season, n - 1) {
            Some(i) => Some(i),
            None => if season.hydro_orders[n - 1].orders.len() != season.n_seasons {
                Some(n - 1)
            } else {
                None
            },
        }
    }
}

/// What is wrong with the shape of a season manifest, if anything: first that the
/// hydro ids do not ascend, then that a plant's orders are not one per season.
pub open spec fn season_shape_error(season: SeasonView) -> Option<Seq<char>> {
    let orders = season.hydro_orders;
    match first_descent(orders, orders.len() as int) {
        Some(i) => Some(
            "season_manifest hydro_orders not ascending by hydro_id: "@ + text::signed_decimal(
                orders[i].hydro_id as int,
            ) + " then "@ + text::signed_decimal(orders[i + 1].hydro_id as int),
        ),
        None => match first_incomplete(season, orders.len() as int) {
            Some(i) => Some(
                "season_manifest hydro_id "@ + text::signed_decimal(orders[i].hydro_id as int)
                    + " has "@ + text::decimal(orders[i].orders.len())
                    + " orders, expected n_seasons="@ + text::decimal(season.n_seasons as nat),
            ),
            None => None,
        },
    }
}

/// The shape check passes exactly where the ids ascend strictly and each plant has
/// one order per season.
pub proof fn season_shape_is_checked(season: SeasonView)
    ensures
        season_shape_error(season) is None <==> season.ascending() && season.complete(),
{
    let orders = season.hydro_orders;
    descents_are_found(orders, orders.len() as int);
    incompletes_are_found(season, orders.len() as int);
    assert(season.ascending() <==> ascending_to(orders, orders.len() as int));
}

spec fn ascending_to(orders: Seq<HydroOrdersView>, n: int) -> bool {
    forall|i: int, j: int|
        0 <= i < j < n ==> (#[trigger] orders[i]).hydro_id < (#[trigger] orders[j]).hydro_id
}

proof fn descents_are_found(orders: Seq<HydroOrdersView>, n: int)
    requires
        0 <= n <= orders.len(),
    ensures
        first_descent(orders, n) is None <==> ascending_to(orders, n),
    decreases n,
{
    if n > 1 {
        descents_are_found(orders, n - 1);
        if first_descent(orders, n) is None {
            assert forall|i: int, j: int| 0 <= i < j < n implies (#[trigger] orders[i]).hydro_id < (
            #[trigger] orders[j]).hydro_id by {
                if j == n - 1 && i < n - 2 {
                    assert(orders[i].hydro_id < orders[n - 2].hydro_id);
                }
            }
        } else if ascending_to(orders, n) {
            assert(ascending_to(orders, n - 1));
            assert(orders[n - 2].hydro_id < orders[n - 1].hydro_id);
        }
    }
}

proof fn incompletes_are_found(season: SeasonView, n: int)
    requires
        0 <= n <= season.hydro_orders.len(),
    ensures
        first_incomplete(season, n) is None <==> (forall|i: int|
            0 <= i < n ==> (#[trigger] season.hydro_orders[i]).orders.len() == season.n_seasons),
        first_incomplete(season, n) matches Some(i) ==> 0 <= i < n,
    decreases n,
{
    if n > 0 {
        incompletes_are_found(season, n - 1);
        if first_incomplete(season, n) is Some && first_incomplete(season, n - 1) is None {
            assert(season.hydro_orders[n - 1].orders.len() != season.n_seasons);
        }
    }
}

proof fn first_descent_stays(orders: Seq<HydroOrdersView>, n: int, m: int)
    requires
        first_descent(orders, n) is Some,
        n <= m,
    ensures
        first_descent(orders, m) == first_descent(orders, n),
    decreases m - n,
{
    if n < m {
        first_descent_stays(orders, n, m - 1);
    }
}

proof fn first_incomplete_stays(season: SeasonView, n: int, m: int)
    requires
        first_incomplete(season, n) is Some,
        n <= m,
    ensures
        first_incomplete(season, m) == first_incomplete(season, n),
    decreases m - n,
{
    if n < m {
        first_incomplete_stays(season, n, m - 1);
    }
}

/// Refuses a season manifest of the wrong shape.
pub fn validate_season_manifest_shape(manifest: &SeasonManifest, ctx: &str) -> (r: Result<
    (),
    OutputError,
>)
    ensures
        match season_shape_error(manifest@) {
            None => r is Ok,
            Some(message) => r matches Err(e) && e.says(ctx@, message),
        },
{
    let n: usize = manifest.hydro_orders.len();
    let ghost season = manifest@;
    let ghost orders = season.hydro_orders;
    let mut i: usize = 1;
    while i < n
        invariant
            n == manifest.hydro_orders.len(),
            season == manifest@,
            orders == season.hydro_orders,
            1 <= i,
            i <= n || n == 0,
            first_descent(orders, i as int) is None,
        decreases n - i,
    {
        let previous: i32 = manifest.hydro_orders[i - 1].hydro_id;
        let next: i32 = manifest.hydro_orders[i].hydro_id;
        if previous >= next {
            proof {
                first_descent_stays(orders, i + 1, orders.len() as int);
            }
            let mut message: String = text::join3(
                "season_manifest hydro_orders not ascending by hydro_id: ",
                text::signed_decimal_text(previous as i64).as_str(),
                " then ",
            );
            message =
            text::join2(message.as_str(), text::signed_decimal_text(next as i64).as_str());
            return Err(OutputError::serialization(ctx, message));
        }
        i = i + 1;
    }
    proof {
        assert(first_descent(orders, orders.len() as int) is None);
    }
    for i in 0..n
        invariant
            n == manifest.hydro_orders.len(),
            season == manifest@,
            orders == season.hydro_orders,
            first_descent(orders, orders.len() as int) is None,
            first_incomplete(season, i as int) is None,
    {
        let len: usize = manifest.hydro_orders[i].orders.len();
        if len as u64 != manifest.n_seasons as u64 {
            proof {
                first_incomplete_stays(season, i + 1, orders.len() as int);
            }
            let head: String = text::join3(
                "season_manifest hydro_id ",
                text::signed_decimal_text(manifest.hydro_orders[i].hydro_id as i64).as_str(),
                " has ",
            );
            let body: String = text::join3(
                head.as_str(),
                text::decimal_text(len as u64).as_str(),
                " orders, expected n_seasons=",
            );
            let message: String = text::join2(
                body.as_str(),
                text::decimal_text(manifest.n_seasons as u64).as_str(),
            );
            return Err(OutputError::serialization(ctx, message));
        }
    }
    Ok(())
}

/// The season manifest in a field. An absent field is the absent manifest; one of
/// the wrong shape is an error.
pub open spec fn season_manifest_field(buf: Seq<u8>, table: int, vtable: int, slot: u16) -> Result<
    SeasonView,
    Seq<char>,
> {
    match wire::field_at(buf, table, vtable, slot) {
        None => Ok(SeasonView::absent()),
        Some(pos) => match wire::target_of(buf, pos) {
            None => Err("invalid uoffset for season_manifest table"@),
            Some(at) => match season_manifest_at(buf, at) {
                None => Err("season_manifest table truncated or corrupt"@),
                Some(season) => match season_shape_error(season) {
                    Some(message) => Err(message),
                    None => Ok(season),
                },
            },
        },
    }
}

/// Reads the season manifest in a field.
pub fn read_season_manifest(
    buf: &[u8],
    table_pos: usize,
    vtable_pos: usize,
    slot: u16,
    ctx: &str,
) -> (r: Result<SeasonManifest, OutputError>)
    ensures
        agrees(
            r,
            ctx@,
            season_manifest_field(buf@, table_pos as int, vtable_pos as int, slot),
            |s: SeasonManifest| s@,
        ),
{
    let pos: usize = match wire::field_pos(buf, table_pos, vtable_pos, slot) {
        Some(pos) => pos,
        None => return Ok(SeasonManifest::default()),
    };
    let at: usize = match wire::follow_uoffset(buf, pos) {
        Some(at) => at,
        None => return Err(OutputError::fixed(ctx, "invalid uoffset for season_manifest table")),
    };
    let manifest: SeasonManifest = match deserialize_season_manifest_table(buf, at) {
        Some(manifest) => manifest,
        None => return Err(OutputError::fixed(ctx, "season_manifest table truncated or corrupt")),
    };
    match validate_season_manifest_shape(&manifest, ctx) {
        Ok(_) => Ok(manifest),
        Err(e) => Err(e),
    }
}

// ── Root tables ──────────────────────────────────────────────────────────────

/// The bytes of the file identifier.
pub open spec fn identifier_bytes() -> Seq<u8> {
    seq![67u8, 66u8, 86u8, 70u8]
}

/// Whether the buffer carries the file identifier.
pub open spec fn has_identifier(buf: Seq<u8>) -> bool {
    buf.len() >= 8 && buf.subrange(4, 8) == identifier_bytes()
}

/// The root table and its vtable, or why there is none.
pub open spec fn root_table(buf: Seq<u8>) -> Result<(int, int), Seq<char>> {
    if !has_identifier(buf) {
        Err("missing FlatBuffers file_identifier \"CBVF\"; not a 0.14+ policy artifact"@)
    } else {
        match wire::root_of(buf) {
            None => Err("buffer too short for root offset"@),
            Some(table) => match wire::vtable_of(buf, table) {
                None => Err("invalid soffset_to_vtable"@),
                Some(vtable) => Ok((table, vtable)),
            },
        }
    }
}

/// Refuses a buffer that does not carry the file identifier.
pub fn check_file_identifier(buf: &[u8], ctx: &str) -> (r: Result<(), OutputError>)
    ensures
        match r {
            Ok(_) => has_identifier(buf@),
            Err(e) => !has_identifier(buf@) && e.says(
                ctx@,
                "missing FlatBuffers file_identifier \"CBVF\"; not a 0.14+ policy artifact"@,
            ),
        },
{
    if buf.len() >= 8 && buf[4] == 67 && buf[5] == 66 && buf[6] == 86 && buf[7] == 70 {
        proof {
            assert(buf@.subrange(4, 8) =~= identifier_bytes());
        }
        Ok(())
    } else {
        proof {
            if has_identifier(buf@) {
                let id = buf@.subrange(4, 8);
                assert(id[0] == 67 && id[1] == 66 && id[2] == 86 && id[3] == 70);
            }
        }
        Err(
            OutputError::fixed(
                ctx,
                "missing FlatBuffers file_identifier \"CBVF\"; not a 0.14+ policy artifact",
            ),
        )
    }
}

/// Reads where the root table and its vtable are.
fn open_root(buf: &[u8], ctx: &str) -> (r: Result<(usize, usize), OutputError>)
    ensures
        agrees(r, ctx@, root_table(buf@), |p: (usize, usize)| (p.0 as int, p.1 as int)),
{
    match check_file_identifier(buf, ctx) {
        Ok(_) => {},
        Err(e) => return Err(e),
    }
    let table: usize = match wire::resolve_root(buf) {
        Some(table) => table,
        None => return Err(OutputError::fixed(ctx, "buffer too short for root offset")),
    };
    match wire::resolve_vtable_pos(buf, table) {
        Some(vtable) => Ok((table, vtable)),
        None => Err(OutputError::fixed(ctx, "invalid soffset_to_vtable")),
    }
}

/// A record, or the error for a buffer that ends before one of its scalar fields
/// does.
pub open spec fn whole<V>(record: Option<V>) -> Result<V, Seq<char>> {
    match record {
        Some(x) => Ok(x),
        None => Err("scalar field truncated"@),
    }
}

// ── Pools of cuts ────────────────────────────────────────────────────────────

/// The floating-point vector in a field of a cut. An absent field is an empty
/// vector.
pub open spec fn f64_vector_field(buf: Seq<u8>, table: int, vtable: int, slot: u16) -> Option<
    Seq<Float64>,
> {
    match wire::field_at(buf, table, vtable, slot) {
        None => Some(Seq::empty()),
        Some(pos) => match wire::target_of(buf, pos) {
            None => None,
            Some(at) => wire::f64s_at(buf, at),
        },
    }
}

/// The cut that the table at `table` is.
pub open spec fn cut_at(buf: Seq<u8>, table: int) -> Option<CutView> {
    match wire::vtable_of(buf, table) {
        None => None,
        Some(vtable) => match f64_vector_field(buf, table, vtable, schema::CUT_FIELD_COEFFICIENTS) {
            None => None,
            Some(coefficients) => match (
                wire::u64_field(buf, table, vtable, schema::CUT_FIELD_CUT_ID),
                wire::u32_field(buf, table, vtable, schema::CUT_FIELD_SLOT_INDEX),
                wire::u32_field(buf, table, vtable, schema::CUT_FIELD_ITERATION),
                wire::u32_field(buf, table, vtable, schema::CUT_FIELD_FORWARD_PASS_IDX),
                wire::f64_field_or_zero(buf, table, vtable, schema::CUT_FIELD_INTERCEPT),
                wire::bool_field(buf, table, vtable, schema::CUT_FIELD_IS_ACTIVE),
            ) {
                (Some(cut_id), Some(slot_index), Some(iteration), Some(forward_pass_index), Some(intercept), Some(is_active)) => Some(
                    CutView { cut_id, slot_index, iteration, forward_pass_index, intercept, coefficients, is_active },
                ),
                _ => None,
            },
        },
    }
}

/// Reads a cut.
pub fn deserialize_cut_table(buf: &[u8], cut_table_pos: usize) -> (r: Option<OwnedPolicyCutRecord>)
    ensures
        match r {
            Some(x) => cut_at(buf@, cut_table_pos as int) == Some(x@),
            None => cut_at(buf@, cut_table_pos as int) is None,
        },
{
    let t: usize = cut_table_pos;
    let v: usize = match wire::resolve_vtable_pos(buf, t) {
        Some(v) => v,
        None => return None,
    };
    let coefficients: Vec<Float64> = match wire::field_pos(
        buf,
        t,
        v,
        schema::CUT_FIELD_COEFFICIENTS,
    ) {
        None => Vec::new(),
        Some(pos) => match wire::follow_uoffset(buf, pos) {
            None => return None,
            Some(at) => match wire::read_f64_vector(buf, at) {
                None => return None,
                Some(list) => list,
            },
        },
    };
    match (
        wire::read_u64_field(buf, t, v, schema::CUT_FIELD_CUT_ID),
        wire::read_u32_field(buf, t, v, schema::CUT_FIELD_SLOT_INDEX),
        wire::read_u32_field(buf, t, v, schema::CUT_FIELD_ITERATION),
        wire::read_u32_field(buf, t, v, schema::CUT_FIELD_FORWARD_PASS_IDX),
        wire::read_f64_field_or_zero(buf, t, v, schema::CUT_FIELD_INTERCEPT),
        wire::read_bool_field(buf, t, v, schema::CUT_FIELD_IS_ACTIVE),
    ) {
        (Some(cut_id), Some(slot_index), Some(iteration), Some(forward_pass_index), Some(intercept), Some(is_active)) => Some(
            OwnedPolicyCutRecord { cut_id, slot_index, iteration, forward_pass_index, intercept, coefficients, is_active },
        ),
        _ => None,
    }
}

impl Stored for OwnedPolicyCutRecord {
    type Value = CutView;

    open spec fn value(self) -> CutView {
        self@
    }

    open spec fn at(buf: Seq<u8>, pos: int) -> Option<CutView> {
        cut_at(buf, pos)
    }

    fn read(buf: &[u8], pos: usize) -> (r: Option<OwnedPolicyCutRecord>) {
        deserialize_cut_table(buf, pos)
    }
}

/// The texts with which a list of cuts can fail.
pub open spec fn cut_errors() -> ListErrors {
    ListErrors {
        offset: "invalid uoffset for cuts vector"@,
        header: "cuts vector header truncated or corrupt"@,
        before: "affine-piece table "@,
        after: " truncated or corrupt"@,
    }
}

/// A pool with the given lists and the scalar fields of a root table, or nothing
/// where the buffer ends before one of the fields does.
pub open spec fn pool_of(
    buf: Seq<u8>,
    t: int,
    v: int,
    cuts: Seq<CutView>,
    entity_manifest: Seq<EntitySlot>,
) -> Option<StageCutsView> {
    match (
        wire::u32_field(buf, t, v, schema::STAGE_CUTS_FIELD_STAGE_ID),
        wire::u32_field(buf, t, v, schema::STAGE_CUTS_FIELD_STATE_DIMENSION),
        wire::u32_field(buf, t, v, schema::STAGE_CUTS_FIELD_CAPACITY),
        wire::u32_field(buf, t, v, schema::STAGE_CUTS_FIELD_WARM_START_COUNT),
        wire::u32_field(buf, t, v, schema::STAGE_CUTS_FIELD_POPULATED_COUNT),
        wire::f64_field(buf, t, v, schema::STAGE_CUTS_FIELD_COST_SCALE_FACTOR),
        wire::i32_field(buf, t, v, schema::STAGE_CUTS_FIELD_NODE_ID, records::STAGE_CUTS_NODE_ID_SENTINEL),
        wire::i32_field(buf, t, v, schema::STAGE_CUTS_FIELD_GRAPH_STAGE_ID, records::STAGE_CUTS_GRAPH_STAGE_ID_SENTINEL),
        wire::i32_field(buf, t, v, schema::STAGE_CUTS_FIELD_PRICED_STATE_DATE, records::STAGE_CUTS_PRICED_STATE_DATE_SENTINEL),
    ) {
        (Some(stage_id), Some(state_dimension), Some(capacity), Some(warm_start_count), Some(populated_count), Some(cost_scale_factor), Some(node_id), Some(graph_stage_id), Some(priced_state_date)) => Some(
                StageCutsView { stage_id, state_dimension, capacity, warm_start_count, populated_count, cost_scale_factor, node_id, graph_stage_id, priced_state_date, cuts, entity_manifest },
            ),
        _ => None,
    }
}

/// The pool of cuts that a buffer is, or why it is none.
pub open spec fn decode_stage_cuts(buf: Seq<u8>) -> Result<StageCutsView, Seq<char>> {
    match root_table(buf) {
        Err(message) => Err(message),
        Ok((t, v)) => match list_field::<OwnedPolicyCutRecord>(
            buf,
            t,
            v,
            schema::STAGE_CUTS_FIELD_CUTS,
            cut_errors(),
        ) {
            Err(message) => Err(message),
            Ok(cuts) => match entity_manifest_field(
                buf,
                t,
                v,
                schema::STAGE_CUTS_FIELD_ENTITY_MANIFEST,
            ) {
                Err(message) => Err(message),
                Ok(entity_manifest) => whole(pool_of(buf, t, v, cuts, entity_manifest)),
            },
        },
    }
}

/// Reads a pool of cuts.
pub fn deserialize_stage_cuts(buf: &[u8]) -> (r: Result<StageCutsReadResult, OutputError>)
    ensures
        agrees(r, "stage_cuts"@, decode_stage_cuts(buf@), |x: StageCutsReadResult| x@),
{
    let ctx: &'static str = "stage_cuts";
    let (t, v): (usize, usize) = match open_root(buf, ctx) {
        Ok(p) => p,
        Err(e) => return Err(e),
    };
    let cuts: Vec<OwnedPolicyCutRecord> = match read_list::<OwnedPolicyCutRecord>(
        buf,
        t,
        v,
        schema::STAGE_CUTS_FIELD_CUTS,
        ctx,
        "invalid uoffset for cuts vector",
        "cuts vector header truncated or corrupt",
        "affine-piece table ",
        " truncated or corrupt",
    ) {
        Ok(list) => list,
        Err(e) => return Err(e),
    };
    let entity_manifest: Vec<EntitySlot> = match read_entity_manifest(
        buf,
        t,
        v,
        schema::STAGE_CUTS_FIELD_ENTITY_MANIFEST,
        ctx,
    ) {
        Ok(list) => list,
        Err(e) => return Err(e),
    };
    proof {
        assert(values(cuts@) =~= records::owned_cuts(cuts@));
    }
    match (
        wire::read_u32_field(buf, t, v, schema::STAGE_CUTS_FIELD_STAGE_ID),
        wire::read_u32_field(buf, t, v, schema::STAGE_CUTS_FIELD_STATE_DIMENSION),
        wire::read_u32_field(buf, t, v, schema::STAGE_CUTS_FIELD_CAPACITY),
        wire::read_u32_field(buf, t, v, schema::STAGE_CUTS_FIELD_WARM_START_COUNT),
        wire::read_u32_field(buf, t, v, schema::STAGE_CUTS_FIELD_POPULATED_COUNT),
        wire::read_f64_field(buf, t, v, schema::STAGE_CUTS_FIELD_COST_SCALE_FACTOR),
        wire::read_i32_field(buf, t, v, schema::STAGE_CUTS_FIELD_NODE_ID, records::STAGE_CUTS_NODE_ID_SENTINEL),
        wire::read_i32_field(buf, t, v, schema::STAGE_CUTS_FIELD_GRAPH_STAGE_ID, records::STAGE_CUTS_GRAPH_STAGE_ID_SENTINEL),
        wire::read_i32_field(buf, t, v, schema::STAGE_CUTS_FIELD_PRICED_STATE_DATE, records::STAGE_CUTS_PRICED_STATE_DATE_SENTINEL),
    ) {
        (Some(stage_id), Some(state_dimension), Some(capacity), Some(warm_start_count), Some(populated_count), Some(cost_scale_factor), Some(node_id), Some(graph_stage_id), Some(priced_state_date)) => Ok(
                StageCutsReadResult { stage_id, state_dimension, capacity, warm_start_count, populated_count, cost_scale_factor, node_id, graph_stage_id, priced_state_date, cuts, entity_manifest },
            ),
        _ => Err(OutputError::fixed(ctx, "scalar field truncated")),
    }
}

// ── Bases ────────────────────────────────────────────────────────────────────

/// The byte vector in a field, with the texts of its errors. An absent field is an
/// empty vector.
pub open spec fn u8_vector_field(
    buf: Seq<u8>,
    table: int,
    vtable: int,
    slot: u16,
    offset: Seq<char>,
    truncated: Seq<char>,
) -> Result<Seq<u8>, Seq<char>> {
    match wire::field_at(buf, table, vtable, slot) {
        None => Ok(Seq::empty()),
        Some(pos) => match wire::target_of(buf, pos) {
            None => Err(offset),
            Some(at) => match wire::u8s_at(buf, at) {
                None => Err(truncated),
                Some(s) => Ok(s),
            },
        },
    }
}

fn read_u8_vector_field(
    buf: &[u8],
    table_pos: usize,
    vtable_pos: usize,
    slot: u16,
    ctx: &str,
    offset: &str,
    truncated: &str,
) -> (r: Result<Vec<u8>, OutputError>)
    ensures
        agrees(
            r,
            ctx@,
            u8_vector_field(
                buf@,
                table_pos as int,
                vtable_pos as int,
                slot,
                offset@,
                truncated@,
            ),
            |v: Vec<u8>| v@,
        ),
{
    let pos: usize = match wire::field_pos(buf, table_pos, vtable_pos, slot) {
        Some(pos) => pos,
        None => return Ok(Vec::new()),
    };
    let at: usize = match wire::follow_uoffset(buf, pos) {
        Some(at) => at,
        None => return Err(OutputError::fixed(ctx, offset)),
    };
    match wire::read_u8_vector(buf, at) {
        Some(v) => Ok(v),
        None => Err(OutputError::fixed(ctx, truncated)),
    }
}

/// A basis with the given statuses and the scalar fields of a root table, or nothing
/// where the buffer ends before one of the fields does.
pub open spec fn basis_of(
    buf: Seq<u8>,
    t: int,
    v: int,
    column_status: Seq<u8>,
    row_status: Seq<u8>,
) -> Option<BasisView> {
    match (
        wire::u32_field(buf, t, v, schema::BASIS_FIELD_STAGE_ID),
        wire::u32_field(buf, t, v, schema::BASIS_FIELD_ITERATION),
        wire::u32_field(buf, t, v, schema::BASIS_FIELD_NUM_CUT_ROWS),
    ) {
        (Some(stage_id), Some(iteration), Some(num_cut_rows)) => Some(
                BasisView { stage_id, iteration, num_cut_rows, column_status, row_status },
            ),
        _ => None,
    }
}

/// The solver basis that a buffer is, or why it is none.
pub open spec fn decode_stage_basis(buf: Seq<u8>) -> Result<BasisView, Seq<char>> {
    match root_table(buf) {
        Err(message) => Err(message),
        Ok((t, v)) => match u8_vector_field(
            buf,
            t,
            v,
            schema::BASIS_FIELD_COLUMN_STATUS,
            "invalid uoffset for column_status vector"@,
            "column_status vector truncated"@,
        ) {
            Err(message) => Err(message),
            Ok(column_status) => match u8_vector_field(
                buf,
                t,
                v,
                schema::BASIS_FIELD_ROW_STATUS,
                "invalid uoffset for row_status vector"@,
                "row_status vector truncated"@,
            ) {
                Err(message) => Err(message),
                Ok(row_status) => whole(basis_of(buf, t, v, column_status, row_status)),
            },
        },
    }
}

/// Reads a solver basis.
pub fn deserialize_stage_basis(buf: &[u8]) -> (r: Result<OwnedPolicyBasisRecord, OutputError>)
    ensures
        agrees(r, "stage_basis"@, decode_stage_basis(buf@), |x: OwnedPolicyBasisRecord| x@),
{
    let ctx: &'static str = "stage_basis";
    let (t, v): (usize, usize) = match open_root(buf, ctx) {
        Ok(p) => p,
        Err(e) => return Err(e),
    };
    let column_status: Vec<u8> = match read_u8_vector_field(
        buf,
        t,
        v,
        schema::BASIS_FIELD_COLUMN_STATUS,
        ctx,
        "invalid uoffset for column_status vector",
        "column_status vector truncated",
    ) {
        Ok(list) => list,
        Err(e) => return Err(e),
    };
    let row_status: Vec<u8> = match read_u8_vector_field(
        buf,
        t,
        v,
        schema::BASIS_FIELD_ROW_STATUS,
        ctx,
        "invalid uoffset for row_status vector",
        "row_status vector truncated",
    ) {
        Ok(list) => list,
        Err(e) => return Err(e),
    };
    match (
        wire::read_u32_field(buf, t, v, schema::BASIS_FIELD_STAGE_ID),
        wire::read_u32_field(buf, t, v, schema::BASIS_FIELD_ITERATION),
        wire::read_u32_field(buf, t, v, schema::BASIS_FIELD_NUM_CUT_ROWS),
    ) {
        (Some(stage_id), Some(iteration), Some(num_cut_rows)) => Ok(
                OwnedPolicyBasisRecord { stage_id, iteration, num_cut_rows, column_status, row_status },
            ),
        _ => Err(OutputError::fixed(ctx, "scalar field truncated")),
    }
}

// ── Visited states ───────────────────────────────────────────────────────────

/// The state vectors in a field. An absent field is an empty vector.
pub open spec fn state_data_field(buf: Seq<u8>, table: int, vtable: int) -> Result<
    Seq<Float64>,
    Seq<char>,
> {
    match wire::field_at(buf, table, vtable, schema::STATES_FIELD_DATA) {
        None => Ok(Seq::empty()),
        Some(pos) => match wire::target_of(buf, pos) {
            None => Err("invalid uoffset for data vector"@),
            Some(at) => match wire::f64s_at(buf, at) {
                None => Err("data vector truncated"@),
                Some(s) => Ok(s),
            },
        },
    }
}

/// Visited states with the given lists and the scalar fields of a root table, or
/// nothing where the buffer ends before one of the fields does.
pub open spec fn states_of(
    buf: Seq<u8>,
    t: int,
    v: int,
    data: Seq<Float64>,
    entity_manifest: Seq<EntitySlot>,
) -> Option<StageStatesView> {
    match (
        wire::u32_field(buf, t, v, schema::STATES_FIELD_STAGE_ID),
        wire::i32_field(buf, t, v, schema::STATES_FIELD_NODE_ID, records::STAGE_STATES_NODE_ID_SENTINEL),
        wire::u32_field(buf, t, v, schema::STATES_FIELD_STATE_DIMENSION),
        wire::u32_field(buf, t, v, schema::STATES_FIELD_COUNT),
    ) {
        (Some(stage_id), Some(node_id), Some(state_dimension), Some(count)) => Some(
                StageStatesView { stage_id, node_id, state_dimension, count, data, entity_manifest },
            ),
        _ => None,
    }
}

/// The visited states that a buffer is, or why it is none.
pub open spec fn decode_stage_states(buf: Seq<u8>) -> Result<StageStatesView, Seq<char>> {
    match root_table(buf) {
        Err(message) => Err(message),
        Ok((t, v)) => match state_data_field(buf, t, v) {
            Err(message) => Err(message),
            Ok(data) => match entity_manifest_field(
                buf,
                t,
                v,
                schema::STATES_FIELD_ENTITY_MANIFEST,
            ) {
                Err(message) => Err(message),
                Ok(entity_manifest) => whole(states_of(buf, t, v, data, entity_manifest)),
            },
        },
    }
}

/// Reads visited states.
pub fn deserialize_stage_states(buf: &[u8]) -> (r: Result<StageStatesReadResult, OutputError>)
    ensures
        agrees(r, "stage_states"@, decode_stage_states(buf@), |x: StageStatesReadResult| x@),
{
    let ctx: &'static str = "stage_states";
    let (t, v): (usize, usize) = match open_root(buf, ctx) {
        Ok(p) => p,
        Err(e) => return Err(e),
    };
    let data: Vec<Float64> = match wire::field_pos(buf, t, v, schema::STATES_FIELD_DATA) {
        None => Vec::new(),
        Some(pos) => match wire::follow_uoffset(buf, pos) {
            None => return Err(OutputError::fixed(ctx, "invalid uoffset for data vector")),
            Some(at) => match wire::read_f64_vector(buf, at) {
                None => return Err(OutputError::fixed(ctx, "data vector truncated")),
                Some(list) => list,
            },
        },
    };
    let entity_manifest: Vec<EntitySlot> = match read_entity_manifest(
        buf,
        t,
        v,
        schema::STATES_FIELD_ENTITY_MANIFEST,
        ctx,
    ) {
        Ok(list) => list,
        Err(e) => return Err(e),
    };
    match (
        wire::read_u32_field(buf, t, v, schema::STATES_FIELD_STAGE_ID),
        wire::read_i32_field(buf, t, v, schema::STATES_FIELD_NODE_ID, records::STAGE_STATES_NODE_ID_SENTINEL),
        wire::read_u32_field(buf, t, v, schema::STATES_FIELD_STATE_DIMENSION),
        wire::read_u32_field(buf, t, v, schema::STATES_FIELD_COUNT),
    ) {
        (Some(stage_id), Some(node_id), Some(state_dimension), Some(count)) => Ok(
                StageStatesReadResult { stage_id, node_id, state_dimension, count, data, entity_manifest },
            ),
        _ => Err(OutputError::fixed(ctx, "scalar field truncated")),
    }
}

// ── The checkpoint manifest ──────────────────────────────────────────────────

/// The parts of a checkpoint manifest that can fail to be read.
pub struct ManifestLists {
    /// The version of the program that wrote the checkpoint.
    pub cobre_version: Seq<char>,
    /// When it was written.
    pub created_at: Seq<char>,
    /// The nodes.
    pub nodes: Seq<ManifestNode>,
    /// The edges.
    pub edges: Seq<ManifestEdge>,
    /// The warm-start counts.
    pub warm_start_counts: Seq<u32>,
    /// The block mode.
    pub training_block_mode: Seq<char>,
    /// The block mode of each stage.
    pub training_block_mode_per_stage: Seq<Seq<char>>,
    /// The season manifest.
    pub season_manifest: SeasonView,
}

/// The strings, lists and the season manifest of a checkpoint manifest, or the
/// first error among them.
pub open spec fn manifest_lists(buf: Seq<u8>, t: int, v: int) -> Result<ManifestLists, Seq<char>> {
    match string_field(buf, t, v, schema::MANIFEST_FIELD_COBRE_VERSION) {
        Err(m) => Err(m),
        Ok(cobre_version) => match string_field(buf, t, v, schema::MANIFEST_FIELD_CREATED_AT) {
            Err(m) => Err(m),
            Ok(created_at) => match list_field::<ManifestNode>(
                buf,
                t,
                v,
                schema::MANIFEST_FIELD_NODES,
                node_errors(),
            ) {
                Err(m) => Err(m),
                Ok(nodes) => match list_field::<ManifestEdge>(
                    buf,
                    t,
                    v,
                    schema::MANIFEST_FIELD_EDGES,
                    edge_errors(),
                ) {
                    Err(m) => Err(m),
                    Ok(edges) => match u32_vector_field(
                        buf,
                        t,
                        v,
                        schema::MANIFEST_FIELD_WARM_START_COUNTS,
                    ) {
                        Err(m) => Err(m),
                        Ok(warm_start_counts) => match string_field(
                            buf,
                            t,
                            v,
                            schema::MANIFEST_FIELD_TRAINING_BLOCK_MODE,
                        ) {
                            Err(m) => Err(m),
                            Ok(training_block_mode) => match list_field::<String>(
                                buf,
                                t,
                                v,
                                schema::MANIFEST_FIELD_TRAINING_BLOCK_MODE_PER_STAGE,
                                string_list_errors(),
                            ) {
                                Err(m) => Err(m),
                                Ok(training_block_mode_per_stage) => match season_manifest_field(
                                    buf,
                                    t,
                                    v,
                                    schema::MANIFEST_FIELD_SEASON_MANIFEST,
                                ) {
                                    Err(m) => Err(m),
                                    Ok(season_manifest) => Ok(
                                        ManifestLists {
                                            cobre_version,
                                            created_at,
                                            nodes,
                                            edges,
                                            warm_start_counts,
                                            training_block_mode,
                                            training_block_mode_per_stage,
                                            season_manifest,
                                        },
                                    ),
                                },
                            },
                        },
                    },
                },
            },
        },
    }
}

/// The text with which a manifest of another version is refused.
pub open spec fn version_error(version: u32) -> Seq<char> {
    "unsupported checkpoint manifest format_version "@ + text::decimal(version as nat)
        + "; expected 2; re-export it with a current Cobre"@
}

/// The checkpoint manifest that a buffer is, or why it is none. The version is
/// checked before any list is read.
pub open spec fn decode_checkpoint_manifest(buf: Seq<u8>) -> Result<ManifestView, Seq<char>> {
    match root_table(buf) {
        Err(message) => Err(message),
        Ok((t, v)) => {
            match wire::u32_field(buf, t, v, schema::MANIFEST_FIELD_FORMAT_VERSION) {
                None => Err("scalar field truncated"@),
                Some(version) => if version != records::FORMAT_VERSION {
                    Err(version_error(version))
                } else {
                    match manifest_lists(buf, t, v) {
                        Err(message) => Err(message),
                        Ok(lists) => whole(manifest_of(buf, t, v, version, lists)),
                    }
                },
            }
        },
    }
}

/// The manifest with the given version and lists and the other scalar fields of a
/// root table, or nothing where the buffer ends before one of the fields does.
pub open spec fn manifest_of(
    buf: Seq<u8>,
    t: int,
    v: int,
    format_version: u32,
    lists: ManifestLists,
) -> Option<ManifestView> {
    match (
        wire::u32_field(buf, t, v, schema::MANIFEST_FIELD_NUM_STAGES),
        wire::u32_field(buf, t, v, schema::MANIFEST_FIELD_N_POOLS),
        wire::u32_field(buf, t, v, schema::MANIFEST_FIELD_COMPLETED_ITERATIONS),
        wire::f64_field_or_zero(buf, t, v, schema::MANIFEST_FIELD_FINAL_LOWER_BOUND),
        wire::f64_field(buf, t, v, schema::MANIFEST_FIELD_BEST_UPPER_BOUND),
        wire::u32_field(buf, t, v, schema::MANIFEST_FIELD_MAX_ITERATIONS),
    ) {
        (Some(num_stages), Some(n_pools), Some(completed_iterations), Some(final_lower_bound), Some(best_upper_bound), Some(max_iterations)) => match (
            wire::u32_field(buf, t, v, schema::MANIFEST_FIELD_FORWARD_PASSES),
            wire::u32_field(buf, t, v, schema::MANIFEST_FIELD_WARM_START_CUTS),
            wire::u64_field(buf, t, v, schema::MANIFEST_FIELD_RNG_SEED),
            wire::u64_field(buf, t, v, schema::MANIFEST_FIELD_TOTAL_VISITED_STATES),
            wire::f64_field(buf, t, v, schema::MANIFEST_FIELD_COST_SCALE_FACTOR),
        ) {
            (Some(forward_passes), Some(warm_start_cuts), Some(rng_seed), Some(total_visited_states), Some(cost_scale_factor)) => Some(
                ManifestView {
                    format_version,
                    cobre_version: lists.cobre_version,
                    created_at: lists.created_at,
                    num_stages,
                    n_pools,
                    nodes: lists.nodes,
                    edges: lists.edges,
                    completed_iterations,
                    final_lower_bound,
                    best_upper_bound,
                    max_iterations,
                    forward_passes,
                    warm_start_cuts,
                    warm_start_counts: lists.warm_start_counts,
                    rng_seed,
                    total_visited_states,
                    training_block_mode: lists.training_block_mode,
                    training_block_mode_per_stage: lists.training_block_mode_per_stage,
                    cost_scale_factor,
                    season_manifest: lists.season_manifest,
                },
            ),
            _ => None,
        },
        _ => None,
    }
}

/// Reads a checkpoint manifest.
pub fn deserialize_checkpoint_manifest(buf: &[u8]) -> (r: Result<CheckpointManifest, OutputError>)
    ensures
        agrees(
            r,
            "checkpoint_manifest"@,
            decode_checkpoint_manifest(buf@),
            |x: CheckpointManifest| x@,
        ),
{
    let ctx: &'static str = "checkpoint_manifest";
    let (t, v): (usize, usize) = match open_root(buf, ctx) {
        Ok(p) => p,
        Err(e) => return Err(e),
    };
    let format_version: u32 = match wire::read_u32_field(
        buf,
        t,
        v,
        schema::MANIFEST_FIELD_FORMAT_VERSION,
    ) {
        Some(format_version) => format_version,
        None => return Err(OutputError::fixed(ctx, "scalar field truncated")),
    };
    if format_version != records::FORMAT_VERSION {
        let version: String = text::decimal_text(format_version as u64);
        return Err(
            OutputError::serialization(
                ctx,
                text::join3(
                    "unsupported checkpoint manifest format_version ",
                    version.as_str(),
                    "; expected 2; re-export it with a current Cobre",
                ),
            ),
        );
    }
    let cobre_version: String = match read_string_field(
        buf,
        t,
        v,
        schema::MANIFEST_FIELD_COBRE_VERSION,
        ctx,
    ) {
        Ok(s) => s,
        Err(e) => return Err(e),
    };
    let created_at: String = match read_string_field(
        buf,
        t,
        v,
        schema::MANIFEST_FIELD_CREATED_AT,
        ctx,
    ) {
        Ok(s) => s,
        Err(e) => return Err(e),
    };
    let nodes: Vec<ManifestNode> = match read_manifest_nodes(
        buf,
        t,
        v,
        schema::MANIFEST_FIELD_NODES,
        ctx,
    ) {
        Ok(list) => list,
        Err(e) => return Err(e),
    };
    let edges: Vec<ManifestEdge> = match read_manifest_edges(
        buf,
        t,
        v,
        schema::MANIFEST_FIELD_EDGES,
        ctx,
    ) {
        Ok(list) => list,
        Err(e) => return Err(e),
    };
    let warm_start_counts: Vec<u32> = match read_u32_vector_field(
        buf,
        t,
        v,
        schema::MANIFEST_FIELD_WARM_START_COUNTS,
        ctx,
    ) {
        Ok(list) => list,
        Err(e) => return Err(e),
    };
    let training_block_mode: String = match read_string_field(
        buf,
        t,
        v,
        schema::MANIFEST_FIELD_TRAINING_BLOCK_MODE,
        ctx,
    ) {
        Ok(s) => s,
        Err(e) => return Err(e),
    };
    let training_block_mode_per_stage: Vec<String> = match read_string_vector_field(
        buf,
        t,
        v,
        schema::MANIFEST_FIELD_TRAINING_BLOCK_MODE_PER_STAGE,
        ctx,
    ) {
        Ok(list) => list,
        Err(e) => return Err(e),
    };
    let season_manifest: SeasonManifest = match read_season_manifest(
        buf,
        t,
        v,
        schema::MANIFEST_FIELD_SEASON_MANIFEST,
        ctx,
    ) {
        Ok(s) => s,
        Err(e) => return Err(e),
    };
    match (
        wire::read_u32_field(buf, t, v, schema::MANIFEST_FIELD_NUM_STAGES),
        wire::read_u32_field(buf, t, v, schema::MANIFEST_FIELD_N_POOLS),
        wire::read_u32_field(buf, t, v, schema::MANIFEST_FIELD_COMPLETED_ITERATIONS),
        wire::read_f64_field_or_zero(buf, t, v, schema::MANIFEST_FIELD_FINAL_LOWER_BOUND),
        wire::read_f64_field(buf, t, v, schema::MANIFEST_FIELD_BEST_UPPER_BOUND),
        wire::read_u32_field(buf, t, v, schema::MANIFEST_FIELD_MAX_ITERATIONS),
    ) {
        (Some(num_stages), Some(n_pools), Some(completed_iterations), Some(final_lower_bound), Some(best_upper_bound), Some(max_iterations)) => match (
            wire::read_u32_field(buf, t, v, schema::MANIFEST_FIELD_FORWARD_PASSES),
            wire::read_u32_field(buf, t, v, schema::MANIFEST_FIELD_WARM_START_CUTS),
            wire::read_u64_field(buf, t, v, schema::MANIFEST_FIELD_RNG_SEED),
            wire::read_u64_field(buf, t, v, schema::MANIFEST_FIELD_TOTAL_VISITED_STATES),
            wire::read_f64_field(buf, t, v, schema::MANIFEST_FIELD_COST_SCALE_FACTOR),
        ) {
            (Some(forward_passes), Some(warm_start_cuts), Some(rng_seed), Some(total_visited_states), Some(cost_scale_factor)) => Ok(
                CheckpointManifest {
                    format_version,
                    cobre_version,
                    created_at,
                    num_stages,
                    graph_manifest: GraphManifest { n_pools, nodes, edges },
                    producer: ProducerBlock {
                        completed_iterations,
                        final_lower_bound,
                        best_upper_bound,
                        max_iterations,
                        forward_passes,
                        warm_start_cuts,
                        warm_start_counts,
                        rng_seed,
                        total_visited_states,
                        training_block_mode,
                        training_block_mode_per_stage,
                        cost_scale_factor,
                    },
                    season_manifest,
                },
            ),
            _ => Err(OutputError::fixed(ctx, "scalar field truncated")),
        },
        _ => Err(OutputError::fixed(ctx, "scalar field truncated")),
    }
}

// ── What is refused and what is absent ───────────────────────────────────────

/// A buffer without the file identifier is refused by every reader, whatever else
/// it holds.
pub proof fn unmarked_buffers_are_refused(buf: Seq<u8>)
    requires
        !has_identifier(buf),
    ensures
        ({
            let message =
                "missing FlatBuffers file_identifier \"CBVF\"; not a 0.14+ policy artifact"@;
            &&& decode_stage_cuts(buf) == Err::<StageCutsView, Seq<char>>(message)
            &&& decode_stage_basis(buf) == Err::<BasisView, Seq<char>>(message)
            &&& decode_stage_states(buf) == Err::<StageStatesView, Seq<char>>(message)
            &&& decode_checkpoint_manifest(buf) == Err::<ManifestView, Seq<char>>(message)
        }),
{
}

proof fn read_seasons_have_their_shape(buf: Seq<u8>, t: int, v: int)
    requires
        manifest_lists(buf, t, v) is Ok,
    ensures
        season_shape_error(manifest_lists(buf, t, v)->Ok_0.season_manifest) is None,
{
    let season = season_manifest_field(buf, t, v, schema::MANIFEST_FIELD_SEASON_MANIFEST);
    assert(season matches Ok(x) ==> season_shape_error(x) is None);
}

proof fn manifests_keep_their_lists(
    buf: Seq<u8>,
    t: int,
    v: int,
    version: u32,
    lists: ManifestLists,
)
    requires
        manifest_of(buf, t, v, version, lists) is Some,
    ensures
        manifest_of(buf, t, v, version, lists)->0.format_version == version,
        manifest_of(buf, t, v, version, lists)->0.season_manifest == lists.season_manifest,
{
}

/// A manifest that is read has the current version, and its season orders ascend by
/// plant and are complete.
pub proof fn accepted_manifests(buf: Seq<u8>)
    requires
        decode_checkpoint_manifest(buf) is Ok,
    ensures
        decode_checkpoint_manifest(buf)->Ok_0.format_version == records::FORMAT_VERSION,
        season_shape_error(decode_checkpoint_manifest(buf)->Ok_0.season_manifest) is None,
{
    let (t, v) = root_table(buf)->Ok_0;
    let lists = manifest_lists(buf, t, v)->Ok_0;
    read_seasons_have_their_shape(buf, t, v);
    manifests_keep_their_lists(buf, t, v, records::FORMAT_VERSION, lists);
}

/// The buffer holds the `n` bytes of a field, where the field is there.
pub open spec fn in_buffer(buf: Seq<u8>, t: int, v: int, slot: u16, n: int) -> bool {
    wire::field_at(buf, t, v, slot) matches Some(pos) ==> pos + n <= buf.len()
}

/// A buffer that ends before a scalar field of a solver basis does is refused.
pub proof fn truncated_bases_are_refused(buf: Seq<u8>, t: int, v: int)
    requires
        root_table(buf) == Ok::<(int, int), Seq<char>>((t, v)),
        decode_stage_basis(buf) is Ok,
    ensures
        in_buffer(buf, t, v, schema::BASIS_FIELD_STAGE_ID, 4),
        in_buffer(buf, t, v, schema::BASIS_FIELD_ITERATION, 4),
        in_buffer(buf, t, v, schema::BASIS_FIELD_NUM_CUT_ROWS, 4),
{
}

/// A buffer that ends before a scalar field of visited states does is refused.
pub proof fn truncated_states_are_refused(buf: Seq<u8>, t: int, v: int)
    requires
        root_table(buf) == Ok::<(int, int), Seq<char>>((t, v)),
        decode_stage_states(buf) is Ok,
    ensures
        in_buffer(buf, t, v, schema::STATES_FIELD_STAGE_ID, 4),
        in_buffer(buf, t, v, schema::STATES_FIELD_NODE_ID, 4),
        in_buffer(buf, t, v, schema::STATES_FIELD_STATE_DIMENSION, 4),
        in_buffer(buf, t, v, schema::STATES_FIELD_COUNT, 4),
{
}

/// A buffer that ends before a scalar field of a pool of cuts does is refused.
pub proof fn truncated_pools_are_refused(buf: Seq<u8>, t: int, v: int)
    requires
        root_table(buf) == Ok::<(int, int), Seq<char>>((t, v)),
        decode_stage_cuts(buf) is Ok,
    ensures
        in_buffer(buf, t, v, schema::STAGE_CUTS_FIELD_STAGE_ID, 4),
        in_buffer(buf, t, v, schema::STAGE_CUTS_FIELD_STATE_DIMENSION, 4),
        in_buffer(buf, t, v, schema::STAGE_CUTS_FIELD_CAPACITY, 4),
        in_buffer(buf, t, v, schema::STAGE_CUTS_FIELD_WARM_START_COUNT, 4),
        in_buffer(buf, t, v, schema::STAGE_CUTS_FIELD_POPULATED_COUNT, 4),
        in_buffer(buf, t, v, schema::STAGE_CUTS_FIELD_COST_SCALE_FACTOR, 8),
        in_buffer(buf, t, v, schema::STAGE_CUTS_FIELD_NODE_ID, 4),
        in_buffer(buf, t, v, schema::STAGE_CUTS_FIELD_GRAPH_STAGE_ID, 4),
        in_buffer(buf, t, v, schema::STAGE_CUTS_FIELD_PRICED_STATE_DATE, 4),
{
}

/// A buffer that ends before a scalar field of a checkpoint manifest does is
/// refused.
pub proof fn truncated_manifests_are_refused(buf: Seq<u8>, t: int, v: int)
    requires
        root_table(buf) == Ok::<(int, int), Seq<char>>((t, v)),
        decode_checkpoint_manifest(buf) is Ok,
    ensures
        in_buffer(buf, t, v, schema::MANIFEST_FIELD_FORMAT_VERSION, 4),
        in_buffer(buf, t, v, schema::MANIFEST_FIELD_NUM_STAGES, 4),
        in_buffer(buf, t, v, schema::MANIFEST_FIELD_N_POOLS, 4),
        in_buffer(buf, t, v, schema::MANIFEST_FIELD_COMPLETED_ITERATIONS, 4),
        in_buffer(buf, t, v, schema::MANIFEST_FIELD_FINAL_LOWER_BOUND, 8),
        in_buffer(buf, t, v, schema::MANIFEST_FIELD_BEST_UPPER_BOUND, 8),
        in_buffer(buf, t, v, schema::MANIFEST_FIELD_MAX_ITERATIONS, 4),
        in_buffer(buf, t, v, schema::MANIFEST_FIELD_FORWARD_PASSES, 4),
        in_buffer(buf, t, v, schema::MANIFEST_FIELD_WARM_START_CUTS, 4),
        in_buffer(buf, t, v, schema::MANIFEST_FIELD_RNG_SEED, 8),
        in_buffer(buf, t, v, schema::MANIFEST_FIELD_TOTAL_VISITED_STATES, 8),
        in_buffer(buf, t, v, schema::MANIFEST_FIELD_COST_SCALE_FACTOR, 8),
{
    let lists = manifest_lists(buf, t, v)->Ok_0;
    whole_manifests_are_in_the_buffer(buf, t, v, records::FORMAT_VERSION, lists);
}

proof fn whole_manifests_are_in_the_buffer(
    buf: Seq<u8>,
    t: int,
    v: int,
    version: u32,
    lists: ManifestLists,
)
    requires
        manifest_of(buf, t, v, version, lists) is Some,
    ensures
        in_buffer(buf, t, v, schema::MANIFEST_FIELD_NUM_STAGES, 4),
        in_buffer(buf, t, v, schema::MANIFEST_FIELD_N_POOLS, 4),
        in_buffer(buf, t, v, schema::MANIFEST_FIELD_COMPLETED_ITERATIONS, 4),
        in_buffer(buf, t, v, schema::MANIFEST_FIELD_FINAL_LOWER_BOUND, 8),
        in_buffer(buf, t, v, schema::MANIFEST_FIELD_BEST_UPPER_BOUND, 8),
        in_buffer(buf, t, v, schema::MANIFEST_FIELD_MAX_ITERATIONS, 4),
        in_buffer(buf, t, v, schema::MANIFEST_FIELD_FORWARD_PASSES, 4),
        in_buffer(buf, t, v, schema::MANIFEST_FIELD_WARM_START_CUTS, 4),
        in_buffer(buf, t, v, schema::MANIFEST_FIELD_RNG_SEED, 8),
        in_buffer(buf, t, v, schema::MANIFEST_FIELD_TOTAL_VISITED_STATES, 8),
        in_buffer(buf, t, v, schema::MANIFEST_FIELD_COST_SCALE_FACTOR, 8),
{
}

/// A pool of cuts without one of the fields that came later reads as one whose
/// node, stage or date is not known, which no known one is taken for.
pub proof fn absent_cut_fields(buf: Seq<u8>, t: int, v: int)
    requires
        root_table(buf) == Ok::<(int, int), Seq<char>>((t, v)),
        decode_stage_cuts(buf) is Ok,
    ensures
        ({
            let cuts = decode_stage_cuts(buf)->Ok_0;
            &&& wire::field_at(buf, t, v, schema::STAGE_CUTS_FIELD_NODE_ID) is None
                ==> cuts.node_id == records::STAGE_CUTS_NODE_ID_SENTINEL
            &&& wire::field_at(buf, t, v, schema::STAGE_CUTS_FIELD_GRAPH_STAGE_ID) is None
                ==> cuts.graph_stage_id == records::STAGE_CUTS_GRAPH_STAGE_ID_SENTINEL
            &&& wire::field_at(buf, t, v, schema::STAGE_CUTS_FIELD_PRICED_STATE_DATE) is None
                ==> cuts.priced_state_date == records::STAGE_CUTS_PRICED_STATE_DATE_SENTINEL
            &&& wire::field_at(buf, t, v, schema::STAGE_CUTS_FIELD_COST_SCALE_FACTOR) is None
                ==> cuts.cost_scale_factor is None
            &&& wire::field_at(buf, t, v, schema::STAGE_CUTS_FIELD_ENTITY_MANIFEST) is None
                ==> cuts.entity_manifest.len() == 0
        }),
{
}

/// An entity slot without one of the date fields reads as one that has no such
/// date.
pub proof fn absent_slot_dates(buf: Seq<u8>, table: int, vtable: int)
    requires
        wire::vtable_of(buf, table) == Some(vtable),
        entity_slot_at(buf, table) is Some,
    ensures
        ({
            let slot = entity_slot_at(buf, table)->0;
            let none = records::ENTITY_SLOT_DELIVERY_DATE_SENTINEL;
            &&& wire::field_at(buf, table, vtable, schema::ENTITY_SLOT_FIELD_REFERENCE_DATE)
                is None ==> slot.reference_date == none
            &&& wire::field_at(buf, table, vtable, schema::ENTITY_SLOT_FIELD_INTERVAL_START)
                is None ==> slot.interval_start == none
            &&& wire::field_at(buf, table, vtable, schema::ENTITY_SLOT_FIELD_INTERVAL_END)
                is None ==> slot.interval_end == none
        }),
{
}

/// Visited states without a node read as states whose node is not known; absent
/// data is no data.
pub proof fn absent_states_fields(buf: Seq<u8>, t: int, v: int)
    requires
        root_table(buf) == Ok::<(int, int), Seq<char>>((t, v)),
        decode_stage_states(buf) is Ok,
    ensures
        ({
            let states = decode_stage_states(buf)->Ok_0;
            &&& wire::field_at(buf, t, v, schema::STATES_FIELD_NODE_ID) is None ==> states.node_id
                == records::STAGE_STATES_NODE_ID_SENTINEL
            &&& wire::field_at(buf, t, v, schema::STATES_FIELD_DATA) is None ==> states.data.len()
                == 0
            &&& wire::field_at(buf, t, v, schema::STATES_FIELD_ENTITY_MANIFEST) is None
                ==> states.entity_manifest.len() == 0
        }),
{
}

/// A manifest without an upper bound or a cost scale reads as one that has none,
/// not as one where they are zero; absent lists and texts read as empty.
pub proof fn absent_manifest_fields(buf: Seq<u8>, t: int, v: int)
    requires
        root_table(buf) == Ok::<(int, int), Seq<char>>((t, v)),
        decode_checkpoint_manifest(buf) is Ok,
    ensures
        ({
            let m = decode_checkpoint_manifest(buf)->Ok_0;
            &&& wire::field_at(buf, t, v, schema::MANIFEST_FIELD_BEST_UPPER_BOUND) is None
                ==> m.best_upper_bound is None
            &&& wire::field_at(buf, t, v, schema::MANIFEST_FIELD_COST_SCALE_FACTOR) is None
                ==> m.cost_scale_factor is None
            &&& wire::field_at(buf, t, v, schema::MANIFEST_FIELD_NODES) is None
                ==> m.nodes.len() == 0
            &&& wire::field_at(buf, t, v, schema::MANIFEST_FIELD_EDGES) is None
                ==> m.edges.len() == 0
            &&& wire::field_at(buf, t, v, schema::MANIFEST_FIELD_COBRE_VERSION) is None
                ==> m.cobre_version.len() == 0
            &&& wire::field_at(buf, t, v, schema::MANIFEST_FIELD_SEASON_MANIFEST) is None
                ==> m.season_manifest.hydro_orders.len() == 0
        }),
{
}

// ── Where each field stands ──────────────────────────────────────────────────

/// Each field of a basis is that of its own number in the table, two places of the vtable
/// each from 4 on.
pub proof fn basis_fields_have_their_slots(buf: Seq<u8>, t: int, v: int, basis: OwnedPolicyBasisRecord)
    requires
        root_table(buf) == Ok::<(int, int), Seq<char>>((t, v)),
        decode_stage_basis(buf) == Ok::<BasisView, Seq<char>>(basis@),
    ensures
        wire::u32_field(buf, t, v, 4) == Some(basis.stage_id),
        wire::u32_field(buf, t, v, 6) == Some(basis.iteration),
        match wire::field_at(buf, t, v, 12) {
            None => basis.column_status@.len() == 0,
            Some(pos) => wire::target_of(buf, pos) matches Some(at) && wire::u8s_at(buf, at) == Some(
                basis.column_status@,
            ),
        },
        match wire::field_at(buf, t, v, 14) {
            None => basis.row_status@.len() == 0,
            Some(pos) => wire::target_of(buf, pos) matches Some(at) && wire::u8s_at(buf, at) == Some(
                basis.row_status@,
            ),
        },
        wire::u32_field(buf, t, v, 16) == Some(basis.num_cut_rows),
{
}

/// Each field of visited states is that of its own number in the table, two places of the vtable
/// each from 4 on. No node is -1.
pub proof fn states_fields_have_their_slots(buf: Seq<u8>, t: int, v: int, states: StageStatesReadResult)
    requires
        root_table(buf) == Ok::<(int, int), Seq<char>>((t, v)),
        decode_stage_states(buf) == Ok::<StageStatesView, Seq<char>>(states@),
    ensures
        wire::u32_field(buf, t, v, 4) == Some(states.stage_id),
        wire::u32_field(buf, t, v, 6) == Some(states.state_dimension),
        wire::u32_field(buf, t, v, 8) == Some(states.count),
        match wire::field_at(buf, t, v, 10) {
            None => states.data@.len() == 0,
            Some(pos) => wire::target_of(buf, pos) matches Some(at) && wire::f64s_at(buf, at) == Some(
                states.data@,
            ),
        },
        entity_manifest_field(buf, t, v, 12) == Ok::<Seq<EntitySlot>, Seq<char>>(
            states.entity_manifest@,
        ),
        wire::i32_field(buf, t, v, 14, -1i32) == Some(states.node_id),
{
}

/// Each field of a pool is that of its own number in the table, two places of the vtable
/// each from 4 on. No node and no
/// stage are -1, and no date is the least number.
pub proof fn pool_fields_have_their_slots(buf: Seq<u8>, t: int, v: int, pool: StageCutsReadResult)
    requires
        root_table(buf) == Ok::<(int, int), Seq<char>>((t, v)),
        decode_stage_cuts(buf) == Ok::<StageCutsView, Seq<char>>(pool@),
    ensures
        wire::u32_field(buf, t, v, 4) == Some(pool.stage_id),
        wire::u32_field(buf, t, v, 6) == Some(pool.state_dimension),
        wire::u32_field(buf, t, v, 8) == Some(pool.capacity),
        wire::u32_field(buf, t, v, 10) == Some(pool.warm_start_count),
        list_field::<OwnedPolicyCutRecord>(buf, t, v, 12, cut_errors()) == Ok::<
            Seq<CutView>,
            Seq<char>,
        >(records::owned_cuts(pool.cuts@)),
        wire::u32_field(buf, t, v, 16) == Some(pool.populated_count),
        entity_manifest_field(buf, t, v, 18) == Ok::<Seq<EntitySlot>, Seq<char>>(
            pool.entity_manifest@,
        ),
        wire::f64_field(buf, t, v, 20) == Some(pool.cost_scale_factor),
        wire::i32_field(buf, t, v, 22, -1i32) == Some(pool.node_id),
        wire::i32_field(buf, t, v, 24, -1i32) == Some(pool.graph_stage_id),
        wire::i32_field(buf, t, v, 26, i32::MIN) == Some(pool.priced_state_date),
{
}

/// Each field of a cut is that of its own number in the table, two places of the vtable
/// each from 4 on.
pub proof fn cut_fields_have_their_slots(buf: Seq<u8>, t: int, v: int, cut: OwnedPolicyCutRecord)
    requires
        wire::vtable_of(buf, t) == Some(v),
        cut_at(buf, t) == Some(cut@),
    ensures
        wire::u64_field(buf, t, v, 4) == Some(cut.cut_id),
        wire::u32_field(buf, t, v, 6) == Some(cut.slot_index),
        wire::u32_field(buf, t, v, 8) == Some(cut.iteration),
        wire::u32_field(buf, t, v, 10) == Some(cut.forward_pass_index),
        wire::f64_field_or_zero(buf, t, v, 12) == Some(cut.intercept),
        match wire::field_at(buf, t, v, 14) {
            None => cut.coefficients@.len() == 0,
            Some(pos) => wire::target_of(buf, pos) matches Some(at) && wire::f64s_at(buf, at) == Some(
                cut.coefficients@,
            ),
        },
        wire::bool_field(buf, t, v, 16) == Some(cut.is_active),
{
}

/// Each field of an entity slot is that of its own number in the table, two places of the vtable
/// each from 4 on. Slots
/// 12 and 14 hold nothing.
pub proof fn entity_slot_fields_have_their_slots(buf: Seq<u8>, t: int, v: int, slot: EntitySlot)
    requires
        wire::vtable_of(buf, t) == Some(v),
        entity_slot_at(buf, t) == Some(slot),
    ensures
        wire::u8_field(buf, t, v, 4, 0) == Some(slot.entity_type),
        wire::i32_field(buf, t, v, 6, 0) == Some(slot.entity_id),
        wire::u32_field(buf, t, v, 8) == Some(slot.subindex),
        wire::bool_field(buf, t, v, 10) == Some(slot.was_active),
        wire::i32_field(buf, t, v, 16, i32::MIN) == Some(slot.reference_date),
        wire::i32_field(buf, t, v, 18, i32::MIN) == Some(slot.interval_start),
        wire::i32_field(buf, t, v, 20, i32::MIN) == Some(slot.interval_end),
{
}

/// Each field of a node is that of its own number in the table, two places of the vtable
/// each from 4 on.
pub proof fn node_fields_have_their_slots(buf: Seq<u8>, t: int, v: int, node: ManifestNode)
    requires
        wire::vtable_of(buf, t) == Some(v),
        manifest_node_at(buf, t) == Some(node),
    ensures
        wire::i32_field(buf, t, v, 4, 0) == Some(node.id),
        wire::i32_field(buf, t, v, 6, 0) == Some(node.stage_id),
        wire::u32_field(buf, t, v, 8) == Some(node.pool_id),
{
}

/// Each field of an edge is that of its own number in the table, two places of the vtable
/// each from 4 on.
pub proof fn edge_fields_have_their_slots(buf: Seq<u8>, t: int, v: int, edge: ManifestEdge)
    requires
        wire::vtable_of(buf, t) == Some(v),
        manifest_edge_at(buf, t) == Some(edge),
    ensures
        wire::i32_field(buf, t, v, 4, 0) == Some(edge.source_id),
        wire::i32_field(buf, t, v, 6, 0) == Some(edge.target_id),
        wire::f64_field_or_zero(buf, t, v, 8) == Some(edge.probability),
{
}

/// Each field of a plant's season orders is that of its own number in the table, two places of the vtable
/// each from 4 on.
pub proof fn season_order_fields_have_their_slots(buf: Seq<u8>, t: int, v: int, orders: HydroSeasonOrders)
    requires
        wire::vtable_of(buf, t) == Some(v),
        hydro_season_orders_at(buf, t) == Some(orders@),
    ensures
        wire::i32_field(buf, t, v, 4, 0) == Some(orders.hydro_id),
        match wire::field_at(buf, t, v, 6) {
            None => orders.orders@.len() == 0,
            Some(pos) => wire::target_of(buf, pos) matches Some(at) && wire::u32s_at(buf, at) == Some(
                orders.orders@,
            ),
        },
{
}

/// Each field of a season manifest is that of its own number in the table, two places of the vtable
/// each from 4 on.
pub proof fn season_fields_have_their_slots(buf: Seq<u8>, t: int, v: int, season: SeasonManifest)
    requires
        wire::vtable_of(buf, t) == Some(v),
        season_manifest_at(buf, t) == Some(season@),
    ensures
        wire::u8_field(buf, t, v, 4, records::SEASON_CYCLE_CODE_ABSENT) == Some(season.cycle_code),
        wire::u32_field(buf, t, v, 6) == Some(season.n_seasons),
        list_field::<HydroSeasonOrders>(buf, t, v, 8, silent_errors()) == Ok::<
            Seq<HydroOrdersView>,
            Seq<char>,
        >(records::order_views(season.hydro_orders@)),
{
}

/// Each field of a manifest is that of its own number in the table, two places of the vtable
/// each from 4 on.
pub proof fn manifest_fields_have_their_slots(buf: Seq<u8>, t: int, v: int, manifest: CheckpointManifest)
    requires
        root_table(buf) == Ok::<(int, int), Seq<char>>((t, v)),
        decode_checkpoint_manifest(buf) == Ok::<ManifestView, Seq<char>>(manifest@),
    ensures
        wire::u32_field(buf, t, v, 4) == Some(manifest.format_version),
        manifest.format_version == 2,
        string_field(buf, t, v, 6) == Ok::<Seq<char>, Seq<char>>(manifest.cobre_version@),
        string_field(buf, t, v, 8) == Ok::<Seq<char>, Seq<char>>(manifest.created_at@),
        string_field(buf, t, v, 36) == Ok::<Seq<char>, Seq<char>>(manifest.producer.training_block_mode@),
        wire::u32_field(buf, t, v, 10) == Some(manifest.num_stages),
        wire::u32_field(buf, t, v, 12) == Some(manifest.graph_manifest.n_pools),
        list_field::<ManifestNode>(buf, t, v, 14, node_errors()) == Ok::<
            Seq<ManifestNode>,
            Seq<char>,
        >(manifest.graph_manifest.nodes@),
        list_field::<ManifestEdge>(buf, t, v, 16, edge_errors()) == Ok::<
            Seq<ManifestEdge>,
            Seq<char>,
        >(manifest.graph_manifest.edges@),
        wire::u32_field(buf, t, v, 18) == Some(manifest.producer.completed_iterations),
        wire::f64_field_or_zero(buf, t, v, 20) == Some(manifest.producer.final_lower_bound),
        wire::f64_field(buf, t, v, 22) == Some(manifest.producer.best_upper_bound),
        wire::u32_field(buf, t, v, 24) == Some(manifest.producer.max_iterations),
        wire::u32_field(buf, t, v, 26) == Some(manifest.producer.forward_passes),
        wire::u32_field(buf, t, v, 28) == Some(manifest.producer.warm_start_cuts),
        u32_vector_field(buf, t, v, 30) == Ok::<Seq<u32>, Seq<char>>(
            manifest.producer.warm_start_counts@,
        ),
        wire::u64_field(buf, t, v, 32) == Some(manifest.producer.rng_seed),
        wire::u64_field(buf, t, v, 34) == Some(manifest.producer.total_visited_states),
        list_field::<String>(buf, t, v, 38, string_list_errors()) == Ok::<
            Seq<Seq<char>>,
            Seq<char>,
        >(records::texts(manifest.producer.training_block_mode_per_stage@)),
        wire::f64_field(buf, t, v, 40) == Some(manifest.producer.cost_scale_factor),
        season_manifest_field(buf, t, v, 42) == Ok::<SeasonView, Seq<char>>(
            manifest.season_manifest@,
        ),
{
}

/// The records of a list are those of the tables that it leads to, in its order.
pub proof fn lists_hold_their_tables<T: Stored>(buf: Seq<u8>, positions: Seq<int>, i: int)
    requires
        records_at::<T>(buf, positions) is Ok,
        0 <= i < positions.len(),
    ensures
        records_at::<T>(buf, positions)->Ok_0.len() == positions.len(),
        T::at(buf, positions[i]) == Some(records_at::<T>(buf, positions)->Ok_0[i]),
{
    all_are_read(|pos: int| T::at(buf, pos), positions, i);
}

proof fn all_are_read<T>(at: spec_fn(int) -> Option<T>, positions: Seq<int>, i: int)
    requires
        wire::read_all(at, positions) is Ok,
        0 <= i < positions.len(),
    ensures
        wire::read_all(at, positions)->Ok_0.len() == positions.len(),
        at(positions[i]) == Some(wire::read_all(at, positions)->Ok_0[i]),
    decreases positions.len(),
{
    let before = positions.drop_last();
    if before.len() > 0 {
        if i < before.len() {
            all_are_read(at, before, i);
        } else {
            all_are_read(at, before, 0);
        }
    } else {
        assert(wire::read_all(at, before) == Ok::<Seq<T>, nat>(Seq::empty()));
    }
}

/// The shape of a season manifest is accepted exactly where the ids of its hydro plants
/// ascend strictly and each plant has as many orders as there are seasons.
pub proof fn season_orders_are_checked(season: SeasonManifest)
    ensures
        season_shape_error(season@) is None <==> {
            let plants = season.hydro_orders@;
            &&& forall|i: int, j: int|
                0 <= i < j < plants.len() ==> (#[trigger] plants[i]).hydro_id < (
                #[trigger] plants[j]).hydro_id
            &&& forall|i: int|
                0 <= i < plants.len() ==> (#[trigger] plants[i]).orders@.len() == season.n_seasons
        },
{
    season_shape_is_checked(season@);
    let plants = season.hydro_orders@;
    let views = season@.hydro_orders;
    assert(views.len() == plants.len());
    assert(forall|i: int| 0 <= i < plants.len() ==> #[trigger] views[i] == plants[i]@);
    if season_shape_error(season@) is None {
        assert forall|i: int, j: int| 0 <= i < j < plants.len() implies (
        #[trigger] plants[i]).hydro_id < (#[trigger] plants[j]).hydro_id by {
            assert(views[i].hydro_id < views[j].hydro_id);
        }
        assert forall|i: int| 0 <= i < plants.len() implies (
        #[trigger] plants[i]).orders@.len() == season.n_seasons by {
            assert(views[i].orders.len() == season.n_seasons);
        }
    }
}

proof fn descent_is_at(orders: Seq<HydroOrdersView>, n: int)
    requires
        0 <= n <= orders.len(),
        first_descent(orders, n) is Some,
    ensures
        0 <= first_descent(orders, n)->0 < n - 1,
        orders[first_descent(orders, n)->0].hydro_id >= orders[first_descent(orders, n)->0
            + 1].hydro_id,
    decreases n,
{
    if n > 1 && first_descent(orders, n - 1) is Some {
        descent_is_at(orders, n - 1);
    }
}

proof fn incomplete_is_at(season: SeasonView, n: int)
    requires
        0 <= n <= season.hydro_orders.len(),
        first_incomplete(season, n) is Some,
    ensures
        0 <= first_incomplete(season, n)->0 < n,
        season.hydro_orders[first_incomplete(season, n)->0].orders.len() != season.n_seasons,
    decreases n,
{
    if n > 0 && first_incomplete(season, n - 1) is Some {
        incomplete_is_at(season, n - 1);
    }
}

/// What is said of a season manifest that is refused names the plant that is wrong, the one
/// that is given back: its id and that of the next, which is not greater, or its id, how
/// many orders it has and how many there should be.
pub proof fn the_wrong_plant_is_named(season: SeasonManifest) -> (i: int)
    requires
        season_shape_error(season@) is Some,
    ensures
        0 <= i < season.hydro_orders@.len(),
        ({
            let message = season_shape_error(season@)->0;
            let plants = season.hydro_orders@;
            ||| i + 1 < plants.len() && plants[i].hydro_id >= plants[i + 1].hydro_id && message
                == "season_manifest hydro_orders not ascending by hydro_id: "@
                + text::signed_decimal(plants[i].hydro_id as int) + " then "@
                + text::signed_decimal(plants[i + 1].hydro_id as int)
            ||| plants[i].orders@.len() != season.n_seasons && message
                == "season_manifest hydro_id "@ + text::signed_decimal(plants[i].hydro_id as int)
                + " has "@ + text::decimal(plants[i].orders@.len())
                + " orders, expected n_seasons="@ + text::decimal(season.n_seasons as nat)
        }),
{
    let plants = season.hydro_orders@;
    let views = season@.hydro_orders;
    let n = views.len() as int;
    assert(n == plants.len());
    assert(forall|i: int| 0 <= i < n ==> #[trigger] views[i] == plants[i]@);
    if first_descent(views, n) is Some {
        descent_is_at(views, n);
        let i = first_descent(views, n)->0;
        assert(views[i] == plants[i]@ && views[i + 1] == plants[i + 1]@);
        i
    } else {
        incomplete_is_at(season@, n);
        let i = first_incomplete(season@, n)->0;
        assert(views[i] == plants[i]@);
        i
    }
}

/// A buffer is marked exactly where its bytes from the fifth to the eighth are the letters
/// `CBVF`.
pub proof fn marks_are_the_letters(buf: Seq<u8>)
    ensures
        has_identifier(buf) <==> buf.len() >= 8 && buf[4] == 'C' as u8 && buf[5] == 'B' as u8
            && buf[6] == 'V' as u8 && buf[7] == 'F' as u8,
{
    if buf.len() >= 8 {
        let id = buf.subrange(4, 8);
        assert(id[0] == buf[4] && id[1] == buf[5] && id[2] == buf[6] && id[3] == buf[7]);
        if buf[4] == 67 && buf[5] == 66 && buf[6] == 86 && buf[7] == 70 {
            assert(id =~= identifier_bytes());
        }
    }
}

} // verus!
