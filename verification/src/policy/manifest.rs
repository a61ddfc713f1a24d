//! Writing a checkpoint manifest.

use vstd::prelude::*;

use crate::flat::builder;
use crate::flat::builder::Builder;
use crate::flat::layout;
use crate::flat::layout::{Draft, Entry};
use crate::flat::objects;
use crate::flat::objects::{Encoded, Field};
use crate::flat::wire;
use crate::float::Float64;
use crate::policy::decode;
use crate::policy::decode::Stored;
use crate::policy::encode;
use crate::policy::records;
use crate::policy::records::{
    CheckpointManifest, HydroOrdersView, ManifestEdge, ManifestNode, ManifestView,
};
use crate::policy::schema;
use crate::policy::tables;

verus! {

// ── The objects before the root table ────────────────────────────────────────

/// The draft with the nodes.
pub open spec fn nodes_draft(m: ManifestView) -> Draft {
    objects::put_all(m.nodes, layout::blank())
}

/// The draft with the edges in front.
pub open spec fn edges_draft(m: ManifestView) -> Draft {
    objects::put_all(m.edges, nodes_draft(m))
}

/// The draft with the season manifest in front.
pub open spec fn season_draft(m: ManifestView) -> Draft {
    m.season_manifest.put(edges_draft(m))
}

/// The draft with the program's version in front.
pub open spec fn version_draft(m: ManifestView) -> Draft {
    m.cobre_version.put(season_draft(m))
}

/// The draft with the creation time in front.
pub open spec fn created_draft(m: ManifestView) -> Draft {
    m.created_at.put(version_draft(m))
}

/// The draft with the block mode in front.
pub open spec fn mode_draft(m: ManifestView) -> Draft {
    m.training_block_mode.put(created_draft(m))
}

/// The draft with the block mode of each stage in front.
pub open spec fn modes_draft(m: ManifestView) -> Draft {
    objects::put_all(m.training_block_mode_per_stage, mode_draft(m))
}

/// The draft with the list of nodes in front.
pub open spec fn node_list(m: ManifestView) -> Draft {
    modes_draft(m).offset_block(objects::offsets_of(m.nodes, layout::blank()))
}

/// The draft with the list of edges in front.
pub open spec fn edge_list(m: ManifestView) -> Draft {
    node_list(m).offset_block(objects::offsets_of(m.edges, nodes_draft(m)))
}

/// The draft with the warm-start counts in front.
pub open spec fn counts_draft(m: ManifestView) -> Draft {
    edge_list(m).block(
        m.warm_start_counts.len(),
        layout::words(layout::u32_words(m.warm_start_counts), 4),
        4,
    )
}

/// The draft with the list of block modes in front.
pub open spec fn mode_list(m: ManifestView) -> Draft {
    counts_draft(m).offset_block(
        objects::offsets_of(m.training_block_mode_per_stage, mode_draft(m)),
    )
}

// ── The root table ───────────────────────────────────────────────────────────

/// How far from the buffer's end the objects begin that the root table leads to.
pub struct Ends {
    /// The program's version.
    pub cobre_version: nat,
    /// The creation time.
    pub created_at: nat,
    /// The list of nodes.
    pub nodes: nat,
    /// The list of edges.
    pub edges: nat,
    /// The warm-start counts.
    pub counts: nat,
    /// The block mode.
    pub mode: nat,
    /// The list of block modes.
    pub modes: nat,
    /// The season manifest.
    pub season: nat,
}

/// Where the objects of a manifest begin.
pub open spec fn ends_of(m: ManifestView) -> Ends {
    Ends {
        cobre_version: version_draft(m).bytes.len(),
        created_at: created_draft(m).bytes.len(),
        nodes: node_list(m).bytes.len(),
        edges: edge_list(m).bytes.len(),
        counts: counts_draft(m).bytes.len(),
        mode: mode_draft(m).bytes.len(),
        modes: mode_list(m).bytes.len(),
        season: m.season_manifest.put_at(edges_draft(m)),
    }
}

/// A floating-point field that is there only where there is a value.
pub open spec fn optional_entry(slot: u16, x: Option<Float64>) -> Seq<Entry> {
    match x {
        Some(f) => seq![objects::f64_entry(slot, f)],
        None => Seq::empty(),
    }
}

/// The fields before the upper bound.
pub open spec fn front_entries(m: ManifestView, e: Ends) -> Seq<Entry> {
    seq![
        objects::u32_entry(schema::MANIFEST_FIELD_FORMAT_VERSION, m.format_version),
        Entry::Offset(schema::MANIFEST_FIELD_COBRE_VERSION, e.cobre_version),
        Entry::Offset(schema::MANIFEST_FIELD_CREATED_AT, e.created_at),
        objects::u32_entry(schema::MANIFEST_FIELD_NUM_STAGES, m.num_stages),
        objects::u32_entry(schema::MANIFEST_FIELD_N_POOLS, m.n_pools),
        Entry::Offset(schema::MANIFEST_FIELD_NODES, e.nodes),
        Entry::Offset(schema::MANIFEST_FIELD_EDGES, e.edges),
        objects::u32_entry(schema::MANIFEST_FIELD_COMPLETED_ITERATIONS, m.completed_iterations),
        objects::f64_entry(schema::MANIFEST_FIELD_FINAL_LOWER_BOUND, m.final_lower_bound),
    ]
}

/// The fields between the upper bound and the cost scale.
pub open spec fn middle_entries(m: ManifestView, e: Ends) -> Seq<Entry> {
    seq![
        objects::u32_entry(schema::MANIFEST_FIELD_MAX_ITERATIONS, m.max_iterations),
        objects::u32_entry(schema::MANIFEST_FIELD_FORWARD_PASSES, m.forward_passes),
        objects::u32_entry(schema::MANIFEST_FIELD_WARM_START_CUTS, m.warm_start_cuts),
        Entry::Offset(schema::MANIFEST_FIELD_WARM_START_COUNTS, e.counts),
        objects::u64_entry(schema::MANIFEST_FIELD_RNG_SEED, m.rng_seed),
        objects::u64_entry(schema::MANIFEST_FIELD_TOTAL_VISITED_STATES, m.total_visited_states),
        Entry::Offset(schema::MANIFEST_FIELD_TRAINING_BLOCK_MODE, e.mode),
        Entry::Offset(schema::MANIFEST_FIELD_TRAINING_BLOCK_MODE_PER_STAGE, e.modes),
    ]
}

/// The fields of a manifest's root table.
pub open spec fn manifest_entries(m: ManifestView, e: Ends) -> Seq<Entry> {
    (front_entries(m, e) + optional_entry(
        schema::MANIFEST_FIELD_BEST_UPPER_BOUND,
        m.best_upper_bound,
    ) + middle_entries(m, e) + optional_entry(
        schema::MANIFEST_FIELD_COST_SCALE_FACTOR,
        m.cost_scale_factor,
    )).push(Entry::Offset(schema::MANIFEST_FIELD_SEASON_MANIFEST, e.season))
}

/// The buffer of a manifest.
pub open spec fn checkpoint_manifest_bytes(m: ManifestView) -> Seq<u8> {
    encode::finished(mode_list(m), manifest_entries(m, ends_of(m)))
}

// ── Sizes ────────────────────────────────────────────────────────────────────

/// How many bytes texts take in UTF-8.
pub open spec fn utf8_size(items: Seq<Seq<char>>) -> nat
    decreases items.len(),
{
    if items.len() == 0 {
        0
    } else {
        utf8_size(items.drop_last()) + vstd::utf8::encode_utf8(items.last()).len()
    }
}

/// How many orders hydro plants have in all.
pub open spec fn order_count(items: Seq<HydroOrdersView>) -> nat
    decreases items.len(),
{
    if items.len() == 0 {
        0
    } else {
        order_count(items.drop_last()) + items.last().orders.len()
    }
}

/// The most bytes that a manifest takes.
pub open spec fn checkpoint_manifest_size(m: ManifestView) -> nat {
    42 * m.nodes.len() + 50 * m.edges.len() + 4 * m.warm_start_counts.len()
        + vstd::utf8::encode_utf8(m.cobre_version).len() + vstd::utf8::encode_utf8(
        m.created_at,
    ).len() + vstd::utf8::encode_utf8(m.training_block_mode).len() + utf8_size(
        m.training_block_mode_per_stage,
    ) + 16 * m.training_block_mode_per_stage.len() + 4 * order_count(
        m.season_manifest.hydro_orders,
    ) + 44 * m.season_manifest.hydro_orders.len() + 369
}

/// The capacity that the builder of a manifest starts with: an estimate of what the
/// manifest takes.
pub open spec fn estimated_manifest_size(m: ManifestView) -> nat {
    128 + 32 * m.nodes.len() + 40 * m.edges.len() + vstd::utf8::encode_utf8(m.cobre_version).len()
        + vstd::utf8::encode_utf8(m.created_at).len() + vstd::utf8::encode_utf8(
        m.training_block_mode,
    ).len() + 4 * m.warm_start_counts.len() + utf8_size(m.training_block_mode_per_stage) + 8
        * m.training_block_mode_per_stage.len() + 4 * order_count(m.season_manifest.hydro_orders)
        + 16 * m.season_manifest.hydro_orders.len()
}

/// The buffer of a manifest stays within the format's limit.
pub open spec fn checkpoint_manifest_fits(m: ManifestView) -> bool {
    checkpoint_manifest_bytes(m).len() <= layout::MAX_BUFFER_LEN
}

/// A manifest whose parts take no more than the limit in all stays within the
/// limits.
pub proof fn small_manifests_fit(m: ManifestView)
    requires
        checkpoint_manifest_size(m) <= layout::MAX_BUFFER_LEN,
    ensures
        checkpoint_manifest_fits(m),
        estimated_manifest_size(m) <= builder::MAX_CAPACITY,
{
    let e = ends_of(m);
    manifest_costs(m);
    object_drafts_extend(m);
    list_drafts_extend(m);
    objects::put_all_extends(m.nodes, layout::blank());
    objects::put_all_extends(m.edges, nodes_draft(m));
    objects::put_all_extends(m.training_block_mode_per_stage, mode_draft(m));
    manifest_entries_are_proper(m, e);
    manifest_table_cost(m, e);
    encode::finished_len(mode_list(m), manifest_entries(m, e));
}

proof fn nodes_cost(items: Seq<ManifestNode>)
    ensures
        objects::cost_of(items) == 38 * items.len(),
    decreases items.len(),
{
    if items.len() > 0 {
        nodes_cost(items.drop_last());
    }
}

proof fn edges_cost(items: Seq<ManifestEdge>)
    ensures
        objects::cost_of(items) == 46 * items.len(),
    decreases items.len(),
{
    if items.len() > 0 {
        edges_cost(items.drop_last());
    }
}

proof fn texts_cost(items: Seq<Seq<char>>)
    ensures
        objects::cost_of(items) == utf8_size(items) + 12 * items.len(),
    decreases items.len(),
{
    if items.len() > 0 {
        texts_cost(items.drop_last());
    }
}

proof fn orders_cost(items: Seq<HydroOrdersView>)
    ensures
        objects::cost_of(items) == 4 * order_count(items) + 40 * items.len(),
    decreases items.len(),
{
    if items.len() > 0 {
        orders_cost(items.drop_last());
    }
}

proof fn manifest_costs(m: ManifestView)
    ensures
        objects::cost_of(m.nodes) + objects::cost_of(m.edges) + m.season_manifest.cost()
            + m.cobre_version.cost() + m.created_at.cost() + m.training_block_mode.cost()
            + objects::cost_of(m.training_block_mode_per_stage) + 4 * m.nodes.len() + 4
            * m.edges.len() + 4 * m.warm_start_counts.len() + 4
            * m.training_block_mode_per_stage.len() + 290 == checkpoint_manifest_size(m),
{
    nodes_cost(m.nodes);
    edges_cost(m.edges);
    texts_cost(m.training_block_mode_per_stage);
    orders_cost(m.season_manifest.hydro_orders);
}

/// Each draft up to the block modes ends in the one before.
proof fn object_drafts_extend(m: ManifestView)
    ensures
        objects::ready(nodes_draft(m)),
        objects::ready(edges_draft(m)),
        objects::ready(season_draft(m)),
        objects::ready(version_draft(m)),
        objects::ready(created_draft(m)),
        objects::ready(mode_draft(m)),
        objects::ready(modes_draft(m)),
        layout::ends_in(edges_draft(m).bytes, nodes_draft(m).bytes),
        layout::ends_in(season_draft(m).bytes, edges_draft(m).bytes),
        layout::ends_in(version_draft(m).bytes, season_draft(m).bytes),
        layout::ends_in(created_draft(m).bytes, version_draft(m).bytes),
        layout::ends_in(mode_draft(m).bytes, created_draft(m).bytes),
        layout::ends_in(modes_draft(m).bytes, mode_draft(m).bytes),
        nodes_draft(m).bytes.len() <= objects::cost_of(m.nodes),
        edges_draft(m).bytes.len() <= nodes_draft(m).bytes.len() + objects::cost_of(m.edges),
        ends_of(m).season <= season_draft(m).bytes.len() <= edges_draft(m).bytes.len()
            + m.season_manifest.cost(),
        version_draft(m).bytes.len() <= season_draft(m).bytes.len() + m.cobre_version.cost(),
        created_draft(m).bytes.len() <= version_draft(m).bytes.len() + m.created_at.cost(),
        mode_draft(m).bytes.len() <= created_draft(m).bytes.len() + m.training_block_mode.cost(),
        modes_draft(m).bytes.len() <= mode_draft(m).bytes.len() + objects::cost_of(
            m.training_block_mode_per_stage,
        ),
{
    objects::put_all_extends(m.nodes, layout::blank());
    objects::put_all_extends(m.edges, nodes_draft(m));
    m.season_manifest.put_extends(edges_draft(m));
    m.cobre_version.put_extends(season_draft(m));
    m.created_at.put_extends(version_draft(m));
    m.training_block_mode.put_extends(created_draft(m));
    objects::put_all_extends(m.training_block_mode_per_stage, mode_draft(m));
}

/// Each draft of the lists ends in the one before.
proof fn list_drafts_extend(m: ManifestView)
    requires
        objects::ready(modes_draft(m)),
    ensures
        objects::ready(node_list(m)),
        objects::ready(edge_list(m)),
        objects::ready(counts_draft(m)),
        objects::ready(mode_list(m)),
        layout::ends_in(node_list(m).bytes, modes_draft(m).bytes),
        layout::ends_in(edge_list(m).bytes, node_list(m).bytes),
        layout::ends_in(counts_draft(m).bytes, edge_list(m).bytes),
        layout::ends_in(mode_list(m).bytes, counts_draft(m).bytes),
        node_list(m).bytes.len() <= modes_draft(m).bytes.len() + 4 * objects::offsets_of(
            m.nodes,
            layout::blank(),
        ).len() + 11,
        edge_list(m).bytes.len() <= node_list(m).bytes.len() + 4 * objects::offsets_of(
            m.edges,
            nodes_draft(m),
        ).len() + 11,
        4 * m.warm_start_counts.len() < counts_draft(m).bytes.len(),
        counts_draft(m).bytes.len() <= edge_list(m).bytes.len() + 4 * m.warm_start_counts.len()
            + 11,
        mode_list(m).bytes.len() <= counts_draft(m).bytes.len() + 4 * objects::offsets_of(
            m.training_block_mode_per_stage,
            mode_draft(m),
        ).len() + 11,
        layout::stands_at(
            counts_draft(m).bytes,
            counts_draft(m).bytes.len(),
            wire::le_bytes(m.warm_start_counts.len(), 4) + layout::words(
                layout::u32_words(m.warm_start_counts),
                4,
            ),
        ),
{
    layout::offset_block_extends(
        modes_draft(m),
        objects::offsets_of(m.nodes, layout::blank()),
    );
    layout::offset_block_extends(node_list(m), objects::offsets_of(m.edges, nodes_draft(m)));
    layout::words_len(layout::u32_words(m.warm_start_counts), 4);
    layout::block_extends(
        edge_list(m),
        m.warm_start_counts.len(),
        layout::words(layout::u32_words(m.warm_start_counts), 4),
        4,
    );
    layout::offset_block_extends(
        counts_draft(m),
        objects::offsets_of(m.training_block_mode_per_stage, mode_draft(m)),
    );
}

/// Where the fields of a manifest's root table stand in their sequence.
proof fn manifest_entries_are_placed(m: ManifestView, e: Ends)
    ensures
        ({
            let entries = manifest_entries(m, e);
            let k: int = if m.best_upper_bound is Some { 1 } else { 0 };
            let l: int = if m.cost_scale_factor is Some { 1 } else { 0 };
            &&& entries.len() == 18 + k + l
            &&& forall|i: int| 0 <= i < 9 ==> #[trigger] entries[i] == front_entries(m, e)[i]
            &&& m.best_upper_bound is Some ==> entries[9] == objects::f64_entry(
                schema::MANIFEST_FIELD_BEST_UPPER_BOUND,
                m.best_upper_bound->0,
            )
            &&& forall|i: int|
                9 + k <= i < 17 + k ==> #[trigger] entries[i] == middle_entries(m, e)[i - 9 - k]
            &&& m.cost_scale_factor is Some ==> entries[17 + k] == objects::f64_entry(
                schema::MANIFEST_FIELD_COST_SCALE_FACTOR,
                m.cost_scale_factor->0,
            )
            &&& entries[17 + k + l] == Entry::Offset(
                schema::MANIFEST_FIELD_SEASON_MANIFEST,
                e.season,
            )
        }),
{
}

/// The slot of a field, given its place.
spec fn slot_at(i: int, upper: bool, scale: bool) -> int {
    let k: int = if upper { 1 } else { 0 };
    let l: int = if scale { 1 } else { 0 };
    if i < 9 + k {
        4 + 2 * i
    } else if i < 17 + k + l {
        6 + 2 * i - 2 * k
    } else {
        42
    }
}

proof fn manifest_entries_have_slots(m: ManifestView, e: Ends)
    ensures
        forall|i: int|
            0 <= i < manifest_entries(m, e).len() ==> (#[trigger] manifest_entries(m, e)[i]).slot()
                == slot_at(i, m.best_upper_bound is Some, m.cost_scale_factor is Some)
                && layout::scalar_size(manifest_entries(m, e)[i].size()),
{
    let entries = manifest_entries(m, e);
    let k: int = if m.best_upper_bound is Some { 1 } else { 0 };
    manifest_entries_are_placed(m, e);
    wire::le_bytes_lengths();
    let front = front_entries(m, e);
    let middle = middle_entries(m, e);
    assert forall|i: int| 0 <= i < 9 implies (#[trigger] front[i]).slot() == 4 + 2 * i
        && layout::scalar_size(front[i].size()) by {}
    assert forall|i: int| 0 <= i < 8 implies (#[trigger] middle[i]).slot() == 24 + 2 * i
        && layout::scalar_size(middle[i].size()) by {}
    assert forall|i: int| 0 <= i < entries.len() implies (#[trigger] entries[i]).slot() == slot_at(
        i,
        m.best_upper_bound is Some,
        m.cost_scale_factor is Some,
    ) && layout::scalar_size(entries[i].size()) by {
        if 9 + k <= i < 17 + k {
            assert(entries[i] == middle[i - 9 - k]);
        }
    }
}

proof fn manifest_entries_are_proper(m: ManifestView, e: Ends)
    ensures
        layout::proper_entries(manifest_entries(m, e)),
        manifest_entries(m, e).len() <= 100,
{
    manifest_entries_are_placed(m, e);
    manifest_entries_have_slots(m, e);
}

proof fn costs_add(a: Seq<Entry>, b: Seq<Entry>)
    ensures
        layout::fields_cost(a + b) == layout::fields_cost(a) + layout::fields_cost(b),
        layout::entries_vtable_size(a + b) == layout::wider(
            layout::entries_vtable_size(a),
            layout::entries_vtable_size(b),
        ),
        layout::entries_vtable_size(a) >= 4,
    decreases b.len(), a.len(),
{
    if b.len() == 0 {
        assert(a + b =~= a);
        if a.len() > 0 {
            costs_add(a.drop_last(), b);
        }
    } else {
        assert((a + b).drop_last() =~= a + b.drop_last());
        costs_add(a, b.drop_last());
    }
}

proof fn optional_cost(slot: u16, x: Option<Float64>)
    ensures
        layout::fields_cost(optional_entry(slot, x)) == if x is Some { 15int } else { 0 },
        layout::entries_vtable_size(optional_entry(slot, x)) <= slot + 2 || slot < 2,
{
    wire::le_bytes_lengths();
    reveal_with_fuel(layout::fields_cost, 2);
    reveal_with_fuel(layout::entries_vtable_size, 2);
}

proof fn manifest_table_cost(m: ManifestView, e: Ends)
    ensures
        layout::table_cost(manifest_entries(m, e)) <= 231,
        layout::fields_cost(manifest_entries(m, e)) <= 180,
{
    wire::le_bytes_lengths();
    let front = front_entries(m, e);
    let middle = middle_entries(m, e);
    let upper = optional_entry(schema::MANIFEST_FIELD_BEST_UPPER_BOUND, m.best_upper_bound);
    let scale = optional_entry(schema::MANIFEST_FIELD_COST_SCALE_FACTOR, m.cost_scale_factor);
    assert(layout::fields_cost(front) == 71 && layout::entries_vtable_size(front) == 22) by {
        reveal_with_fuel(layout::fields_cost, 10);
        reveal_with_fuel(layout::entries_vtable_size, 10);
    }
    assert(layout::fields_cost(middle) == 72 && layout::entries_vtable_size(middle) == 40) by {
        reveal_with_fuel(layout::fields_cost, 9);
        reveal_with_fuel(layout::entries_vtable_size, 9);
    }
    optional_cost(schema::MANIFEST_FIELD_BEST_UPPER_BOUND, m.best_upper_bound);
    optional_cost(schema::MANIFEST_FIELD_COST_SCALE_FACTOR, m.cost_scale_factor);
    costs_add(front, upper);
    costs_add(front + upper, middle);
    costs_add(front + upper + middle, scale);
    let all = front + upper + middle + scale;
    assert(manifest_entries(m, e).drop_last() =~= all);
}

// ── Reading a manifest back ──────────────────────────────────────────────────

proof fn buffer_ends_in_drafts(m: ManifestView, buf: Seq<u8>)
    requires
        layout::ends_in(buf, mode_list(m).bytes),
    ensures
        layout::ends_in(buf, nodes_draft(m).bytes),
        layout::ends_in(buf, edges_draft(m).bytes),
        layout::ends_in(buf, season_draft(m).bytes),
        layout::ends_in(buf, version_draft(m).bytes),
        layout::ends_in(buf, created_draft(m).bytes),
        layout::ends_in(buf, mode_draft(m).bytes),
        layout::ends_in(buf, modes_draft(m).bytes),
        layout::ends_in(buf, node_list(m).bytes),
        layout::ends_in(buf, edge_list(m).bytes),
        layout::ends_in(buf, counts_draft(m).bytes),
        layout::ends_in(counts_draft(m).bytes, modes_draft(m).bytes),
        layout::ends_in(node_list(m).bytes, edges_draft(m).bytes),
        layout::ends_in(modes_draft(m).bytes, nodes_draft(m).bytes),
{
    object_drafts_extend(m);
    list_drafts_extend(m);
    layout::ends_in_chain(buf, mode_list(m).bytes, counts_draft(m).bytes);
    layout::ends_in_chain(buf, counts_draft(m).bytes, edge_list(m).bytes);
    layout::ends_in_chain(buf, edge_list(m).bytes, node_list(m).bytes);
    layout::ends_in_chain(buf, node_list(m).bytes, modes_draft(m).bytes);
    layout::ends_in_chain(buf, modes_draft(m).bytes, mode_draft(m).bytes);
    layout::ends_in_chain(buf, mode_draft(m).bytes, created_draft(m).bytes);
    layout::ends_in_chain(buf, created_draft(m).bytes, version_draft(m).bytes);
    layout::ends_in_chain(buf, version_draft(m).bytes, season_draft(m).bytes);
    layout::ends_in_chain(buf, season_draft(m).bytes, edges_draft(m).bytes);
    layout::ends_in_chain(buf, edges_draft(m).bytes, nodes_draft(m).bytes);
    layout::ends_in_chain(counts_draft(m).bytes, edge_list(m).bytes, node_list(m).bytes);
    layout::ends_in_chain(counts_draft(m).bytes, node_list(m).bytes, modes_draft(m).bytes);
    let modes = modes_draft(m).bytes;
    layout::ends_in_chain(modes, mode_draft(m).bytes, created_draft(m).bytes);
    layout::ends_in_chain(modes, created_draft(m).bytes, version_draft(m).bytes);
    layout::ends_in_chain(modes, version_draft(m).bytes, season_draft(m).bytes);
    layout::ends_in_chain(modes, season_draft(m).bytes, edges_draft(m).bytes);
    layout::ends_in_chain(modes, edges_draft(m).bytes, nodes_draft(m).bytes);
    layout::ends_in_chain(node_list(m).bytes, modes, edges_draft(m).bytes);
}

/// The scalar fields of a written manifest are read back.
proof fn finds_scalars(m: ManifestView, e: Ends, d: Draft, buf: Seq<u8>)
    requires
        objects::tabled(d, manifest_entries(m, e), buf),
    ensures
        ({
            let t = objects::table_pos(d, manifest_entries(m, e), buf);
            let v = objects::vtable_pos(d, manifest_entries(m, e), buf);
            &&& wire::u32_field(buf, t, v, schema::MANIFEST_FIELD_FORMAT_VERSION)
                == Some(m.format_version)
            &&& wire::u32_field(buf, t, v, schema::MANIFEST_FIELD_NUM_STAGES) == Some(m.num_stages)
            &&& wire::u32_field(buf, t, v, schema::MANIFEST_FIELD_N_POOLS) == Some(m.n_pools)
            &&& wire::u32_field(buf, t, v, schema::MANIFEST_FIELD_COMPLETED_ITERATIONS)
                == Some(m.completed_iterations)
            &&& wire::f64_field(buf, t, v, schema::MANIFEST_FIELD_FINAL_LOWER_BOUND) == Some(
                Some(m.final_lower_bound),
            )
            &&& wire::u32_field(buf, t, v, schema::MANIFEST_FIELD_MAX_ITERATIONS)
                == Some(m.max_iterations)
            &&& wire::u32_field(buf, t, v, schema::MANIFEST_FIELD_FORWARD_PASSES)
                == Some(m.forward_passes)
            &&& wire::u32_field(buf, t, v, schema::MANIFEST_FIELD_WARM_START_CUTS)
                == Some(m.warm_start_cuts)
            &&& wire::u64_field(buf, t, v, schema::MANIFEST_FIELD_RNG_SEED) == Some(m.rng_seed)
            &&& wire::u64_field(buf, t, v, schema::MANIFEST_FIELD_TOTAL_VISITED_STATES)
                == Some(m.total_visited_states)
        }),
{
    let entries = manifest_entries(m, e);
    let k: int = if m.best_upper_bound is Some { 1 } else { 0 };
    manifest_entries_are_placed(m, e);
    objects::finds_u32(
        d,
        entries,
        buf,
        0,
        schema::MANIFEST_FIELD_FORMAT_VERSION,
        m.format_version,
    );
    objects::finds_u32(d, entries, buf, 3, schema::MANIFEST_FIELD_NUM_STAGES, m.num_stages);
    objects::finds_u32(d, entries, buf, 4, schema::MANIFEST_FIELD_N_POOLS, m.n_pools);
    objects::finds_u32(
        d,
        entries,
        buf,
        7,
        schema::MANIFEST_FIELD_COMPLETED_ITERATIONS,
        m.completed_iterations,
    );
    objects::finds_f64(
        d,
        entries,
        buf,
        8,
        schema::MANIFEST_FIELD_FINAL_LOWER_BOUND,
        m.final_lower_bound,
    );
    objects::finds_u32(
        d,
        entries,
        buf,
        9 + k,
        schema::MANIFEST_FIELD_MAX_ITERATIONS,
        m.max_iterations,
    );
    objects::finds_u32(
        d,
        entries,
        buf,
        10 + k,
        schema::MANIFEST_FIELD_FORWARD_PASSES,
        m.forward_passes,
    );
    objects::finds_u32(
        d,
        entries,
        buf,
        11 + k,
        schema::MANIFEST_FIELD_WARM_START_CUTS,
        m.warm_start_cuts,
    );
    objects::finds_u64(d, entries, buf, 13 + k, schema::MANIFEST_FIELD_RNG_SEED, m.rng_seed);
    objects::finds_u64(
        d,
        entries,
        buf,
        14 + k,
        schema::MANIFEST_FIELD_TOTAL_VISITED_STATES,
        m.total_visited_states,
    );
}

/// The optional fields of a written manifest are read back.
proof fn finds_options(m: ManifestView, e: Ends, d: Draft, buf: Seq<u8>)
    requires
        objects::tabled(d, manifest_entries(m, e), buf),
    ensures
        ({
            let t = objects::table_pos(d, manifest_entries(m, e), buf);
            let v = objects::vtable_pos(d, manifest_entries(m, e), buf);
            &&& wire::f64_field(buf, t, v, schema::MANIFEST_FIELD_BEST_UPPER_BOUND)
                == Some(m.best_upper_bound)
            &&& wire::f64_field(buf, t, v, schema::MANIFEST_FIELD_COST_SCALE_FACTOR)
                == Some(m.cost_scale_factor)
        }),
{
    let entries = manifest_entries(m, e);
    let k: int = if m.best_upper_bound is Some { 1 } else { 0 };
    manifest_entries_are_placed(m, e);
    manifest_entries_have_slots(m, e);
    match m.best_upper_bound {
        Some(x) => {
            objects::finds_f64(d, entries, buf, 9, schema::MANIFEST_FIELD_BEST_UPPER_BOUND, x);
        },
        None => {
            objects::finds_nothing(d, entries, buf, schema::MANIFEST_FIELD_BEST_UPPER_BOUND);
        },
    }
    match m.cost_scale_factor {
        Some(x) => {
            objects::finds_f64(
                d,
                entries,
                buf,
                17 + k,
                schema::MANIFEST_FIELD_COST_SCALE_FACTOR,
                x,
            );
        },
        None => {
            objects::finds_nothing(d, entries, buf, schema::MANIFEST_FIELD_COST_SCALE_FACTOR);
        },
    }
}

/// A text in a field is read back.
proof fn finds_text(
    d: Draft,
    entries: Seq<Entry>,
    buf: Seq<u8>,
    i: int,
    slot: u16,
    before: Draft,
    item: Seq<char>,
)
    requires
        objects::tabled(d, entries, buf),
        0 <= i < entries.len(),
        entries[i] == Entry::Offset(slot, item.put(before).bytes.len()),
        objects::ready(before),
        layout::ends_in(buf, item.put(before).bytes),
        item.put(before).bytes.len() <= d.bytes.len(),
    ensures
        decode::string_field(
            buf,
            objects::table_pos(d, entries, buf),
            objects::vtable_pos(d, entries, buf),
            slot,
        ) == Ok::<Seq<char>, Seq<char>>(item),
{
    objects::finds_offset(d, entries, buf, i, slot, item.put(before).bytes.len());
    item.put_is_found(before, buf);
    assert(item.found(buf, buf.len() - item.put_at(before)));
}

/// The texts of a written manifest are read back.
proof fn finds_texts(m: ManifestView, buf: Seq<u8>)
    requires
        objects::tabled(mode_list(m), manifest_entries(m, ends_of(m)), buf),
        layout::ends_in(buf, mode_list(m).bytes),
    ensures
        ({
            let t = objects::table_pos(mode_list(m), manifest_entries(m, ends_of(m)), buf);
            let v = objects::vtable_pos(mode_list(m), manifest_entries(m, ends_of(m)), buf);
            &&& decode::string_field(buf, t, v, schema::MANIFEST_FIELD_COBRE_VERSION) == Ok::<
                Seq<char>,
                Seq<char>,
            >(m.cobre_version)
            &&& decode::string_field(buf, t, v, schema::MANIFEST_FIELD_CREATED_AT) == Ok::<
                Seq<char>,
                Seq<char>,
            >(m.created_at)
            &&& decode::string_field(buf, t, v, schema::MANIFEST_FIELD_TRAINING_BLOCK_MODE)
                == Ok::<Seq<char>, Seq<char>>(m.training_block_mode)
        }),
{
    let d = mode_list(m);
    let e = ends_of(m);
    let entries = manifest_entries(m, e);
    let k: int = if m.best_upper_bound is Some { 1 } else { 0 };
    object_drafts_extend(m);
    list_drafts_extend(m);
    buffer_ends_in_drafts(m, buf);
    manifest_entries_are_placed(m, e);
    finds_text(
        d,
        entries,
        buf,
        1,
        schema::MANIFEST_FIELD_COBRE_VERSION,
        season_draft(m),
        m.cobre_version,
    );
    finds_text(
        d,
        entries,
        buf,
        2,
        schema::MANIFEST_FIELD_CREATED_AT,
        version_draft(m),
        m.created_at,
    );
    finds_text(
        d,
        entries,
        buf,
        15 + k,
        schema::MANIFEST_FIELD_TRAINING_BLOCK_MODE,
        created_draft(m),
        m.training_block_mode,
    );
}

/// The nodes of a written manifest are read back.
proof fn finds_nodes(m: ManifestView, buf: Seq<u8>)
    requires
        objects::tabled(mode_list(m), manifest_entries(m, ends_of(m)), buf),
        layout::ends_in(buf, mode_list(m).bytes),
    ensures
        decode::list_field::<ManifestNode>(
            buf,
            objects::table_pos(mode_list(m), manifest_entries(m, ends_of(m)), buf),
            objects::vtable_pos(mode_list(m), manifest_entries(m, ends_of(m)), buf),
            schema::MANIFEST_FIELD_NODES,
            decode::node_errors(),
        ) == Ok::<Seq<ManifestNode>, Seq<char>>(m.nodes),
{
    let e = ends_of(m);
    let targets = objects::offsets_of(m.nodes, layout::blank());
    object_drafts_extend(m);
    list_drafts_extend(m);
    buffer_ends_in_drafts(m, buf);
    manifest_entries_are_placed(m, e);
    objects::put_all_extends(m.nodes, layout::blank());
    objects::put_all_is_found(m.nodes, layout::blank(), buf);
    assert forall|j: int| 0 <= j < targets.len() implies <ManifestNode as Stored>::at(
        buf,
        buf.len() - #[trigger] targets[j],
    ) == Some(m.nodes[j]) by {
        assert(m.nodes[j].found(buf, buf.len() - targets[j]));
    }
    tables::finds_list::<ManifestNode>(
        mode_list(m),
        manifest_entries(m, e),
        buf,
        5,
        schema::MANIFEST_FIELD_NODES,
        decode::node_errors(),
        modes_draft(m),
        targets,
        m.nodes,
    );
}

/// The edges of a written manifest are read back.
proof fn finds_edges(m: ManifestView, buf: Seq<u8>)
    requires
        objects::tabled(mode_list(m), manifest_entries(m, ends_of(m)), buf),
        layout::ends_in(buf, mode_list(m).bytes),
    ensures
        decode::list_field::<ManifestEdge>(
            buf,
            objects::table_pos(mode_list(m), manifest_entries(m, ends_of(m)), buf),
            objects::vtable_pos(mode_list(m), manifest_entries(m, ends_of(m)), buf),
            schema::MANIFEST_FIELD_EDGES,
            decode::edge_errors(),
        ) == Ok::<Seq<ManifestEdge>, Seq<char>>(m.edges),
{
    let e = ends_of(m);
    let targets = objects::offsets_of(m.edges, nodes_draft(m));
    object_drafts_extend(m);
    list_drafts_extend(m);
    buffer_ends_in_drafts(m, buf);
    manifest_entries_are_placed(m, e);
    objects::put_all_extends(m.edges, nodes_draft(m));
    objects::put_all_is_found(m.edges, nodes_draft(m), buf);
    assert forall|j: int| 0 <= j < targets.len() implies <ManifestEdge as Stored>::at(
        buf,
        buf.len() - #[trigger] targets[j],
    ) == Some(m.edges[j]) by {
        assert(m.edges[j].found(buf, buf.len() - targets[j]));
    }
    tables::finds_list::<ManifestEdge>(
        mode_list(m),
        manifest_entries(m, e),
        buf,
        6,
        schema::MANIFEST_FIELD_EDGES,
        decode::edge_errors(),
        node_list(m),
        targets,
        m.edges,
    );
}

/// The block modes of a written manifest are read back.
proof fn finds_modes(m: ManifestView, buf: Seq<u8>)
    requires
        objects::tabled(mode_list(m), manifest_entries(m, ends_of(m)), buf),
        layout::ends_in(buf, mode_list(m).bytes),
    ensures
        decode::list_field::<String>(
            buf,
            objects::table_pos(mode_list(m), manifest_entries(m, ends_of(m)), buf),
            objects::vtable_pos(mode_list(m), manifest_entries(m, ends_of(m)), buf),
            schema::MANIFEST_FIELD_TRAINING_BLOCK_MODE_PER_STAGE,
            decode::string_list_errors(),
        ) == Ok::<Seq<Seq<char>>, Seq<char>>(m.training_block_mode_per_stage),
{
    let e = ends_of(m);
    let k: int = if m.best_upper_bound is Some { 1 } else { 0 };
    let items = m.training_block_mode_per_stage;
    let targets = objects::offsets_of(items, mode_draft(m));
    object_drafts_extend(m);
    list_drafts_extend(m);
    buffer_ends_in_drafts(m, buf);
    manifest_entries_are_placed(m, e);
    objects::put_all_extends(items, mode_draft(m));
    objects::put_all_is_found(items, mode_draft(m), buf);
    assert forall|j: int| 0 <= j < targets.len() implies <String as Stored>::at(
        buf,
        buf.len() - #[trigger] targets[j],
    ) == Some(items[j]) by {
        assert(items[j].found(buf, buf.len() - targets[j]));
    }
    tables::finds_list::<String>(
        mode_list(m),
        manifest_entries(m, e),
        buf,
        16 + k,
        schema::MANIFEST_FIELD_TRAINING_BLOCK_MODE_PER_STAGE,
        decode::string_list_errors(),
        counts_draft(m),
        targets,
        items,
    );
}

/// The warm-start counts are read back.
proof fn finds_counts(m: ManifestView, buf: Seq<u8>)
    requires
        objects::tabled(mode_list(m), manifest_entries(m, ends_of(m)), buf),
        layout::ends_in(buf, mode_list(m).bytes),
    ensures
        decode::u32_vector_field(
            buf,
            objects::table_pos(mode_list(m), manifest_entries(m, ends_of(m)), buf),
            objects::vtable_pos(mode_list(m), manifest_entries(m, ends_of(m)), buf),
            schema::MANIFEST_FIELD_WARM_START_COUNTS,
        ) == Ok::<Seq<u32>, Seq<char>>(m.warm_start_counts),
{
    let d = mode_list(m);
    let e = ends_of(m);
    let entries = manifest_entries(m, e);
    let k: int = if m.best_upper_bound is Some { 1 } else { 0 };
    object_drafts_extend(m);
    list_drafts_extend(m);
    buffer_ends_in_drafts(m, buf);
    manifest_entries_are_placed(m, e);
    objects::finds_offset(
        d,
        entries,
        buf,
        12 + k,
        schema::MANIFEST_FIELD_WARM_START_COUNTS,
        e.counts,
    );
    layout::tail_stands(
        buf,
        counts_draft(m).bytes,
        e.counts,
        wire::le_bytes(m.warm_start_counts.len(), 4) + layout::words(
            layout::u32_words(m.warm_start_counts),
            4,
        ),
    );
    layout::u32s_are_found(buf, e.counts, m.warm_start_counts);
}

/// The season manifest is read back, or refused for its shape.
proof fn finds_season(m: ManifestView, buf: Seq<u8>)
    requires
        objects::tabled(mode_list(m), manifest_entries(m, ends_of(m)), buf),
        layout::ends_in(buf, mode_list(m).bytes),
    ensures
        decode::season_manifest_field(
            buf,
            objects::table_pos(mode_list(m), manifest_entries(m, ends_of(m)), buf),
            objects::vtable_pos(mode_list(m), manifest_entries(m, ends_of(m)), buf),
            schema::MANIFEST_FIELD_SEASON_MANIFEST,
        ) == season_or_error(m.season_manifest),
{
    let d = mode_list(m);
    let e = ends_of(m);
    let entries = manifest_entries(m, e);
    let k: int = if m.best_upper_bound is Some { 1 } else { 0 };
    let l: int = if m.cost_scale_factor is Some { 1 } else { 0 };
    object_drafts_extend(m);
    list_drafts_extend(m);
    buffer_ends_in_drafts(m, buf);
    manifest_entries_are_placed(m, e);
    objects::finds_offset(
        d,
        entries,
        buf,
        17 + k + l,
        schema::MANIFEST_FIELD_SEASON_MANIFEST,
        e.season,
    );
    m.season_manifest.put_is_found(edges_draft(m), buf);
    assert(m.season_manifest.found(buf, buf.len() - e.season));
}

/// The season manifest, or the text with which its shape is refused.
spec fn season_or_error(season: records::SeasonView) -> Result<records::SeasonView, Seq<char>> {
    match decode::season_shape_error(season) {
        Some(message) => Err(message),
        None => Ok(season),
    }
}

/// What is read of the texts and lists one by one is what is read of them together.
proof fn lists_are_joined(m: ManifestView, buf: Seq<u8>, t: int, v: int)
    requires
        decode::string_field(buf, t, v, schema::MANIFEST_FIELD_COBRE_VERSION) == Ok::<
            Seq<char>,
            Seq<char>,
        >(m.cobre_version),
        decode::string_field(buf, t, v, schema::MANIFEST_FIELD_CREATED_AT) == Ok::<
            Seq<char>,
            Seq<char>,
        >(m.created_at),
        decode::string_field(buf, t, v, schema::MANIFEST_FIELD_TRAINING_BLOCK_MODE) == Ok::<
            Seq<char>,
            Seq<char>,
        >(m.training_block_mode),
        decode::list_field::<ManifestNode>(
            buf,
            t,
            v,
            schema::MANIFEST_FIELD_NODES,
            decode::node_errors(),
        ) == Ok::<Seq<ManifestNode>, Seq<char>>(m.nodes),
        decode::list_field::<ManifestEdge>(
            buf,
            t,
            v,
            schema::MANIFEST_FIELD_EDGES,
            decode::edge_errors(),
        ) == Ok::<Seq<ManifestEdge>, Seq<char>>(m.edges),
        decode::list_field::<String>(
            buf,
            t,
            v,
            schema::MANIFEST_FIELD_TRAINING_BLOCK_MODE_PER_STAGE,
            decode::string_list_errors(),
        ) == Ok::<Seq<Seq<char>>, Seq<char>>(m.training_block_mode_per_stage),
        decode::u32_vector_field(buf, t, v, schema::MANIFEST_FIELD_WARM_START_COUNTS) == Ok::<
            Seq<u32>,
            Seq<char>,
        >(m.warm_start_counts),
        decode::season_manifest_field(buf, t, v, schema::MANIFEST_FIELD_SEASON_MANIFEST)
            == season_or_error(m.season_manifest),
    ensures
        decode::manifest_lists(buf, t, v) == lists_or_error(m),
{
}

/// The texts, lists and the season manifest are read back.
#[verifier::rlimit(30)]
proof fn finds_lists(m: ManifestView, buf: Seq<u8>)
    requires
        objects::tabled(mode_list(m), manifest_entries(m, ends_of(m)), buf),
        layout::ends_in(buf, mode_list(m).bytes),
    ensures
        decode::manifest_lists(
            buf,
            objects::table_pos(mode_list(m), manifest_entries(m, ends_of(m)), buf),
            objects::vtable_pos(mode_list(m), manifest_entries(m, ends_of(m)), buf),
        ) == lists_or_error(m),
{
    finds_texts(m, buf);
    finds_nodes(m, buf);
    finds_edges(m, buf);
    finds_modes(m, buf);
    finds_counts(m, buf);
    finds_season(m, buf);
    lists_are_joined(
        m,
        buf,
        objects::table_pos(mode_list(m), manifest_entries(m, ends_of(m)), buf),
        objects::vtable_pos(mode_list(m), manifest_entries(m, ends_of(m)), buf),
    );
}

/// The texts, lists and the season manifest, or the text with which the shape of the
/// season manifest is refused.
spec fn lists_or_error(m: ManifestView) -> Result<decode::ManifestLists, Seq<char>> {
    match decode::season_shape_error(m.season_manifest) {
        Some(message) => Err(message),
        None => Ok(lists_of(m)),
    }
}

/// The texts, lists and the season manifest of a manifest.
spec fn lists_of(m: ManifestView) -> decode::ManifestLists {
    decode::ManifestLists {
        cobre_version: m.cobre_version,
        created_at: m.created_at,
        nodes: m.nodes,
        edges: m.edges,
        warm_start_counts: m.warm_start_counts,
        training_block_mode: m.training_block_mode,
        training_block_mode_per_stage: m.training_block_mode_per_stage,
        season_manifest: m.season_manifest,
    }
}

/// A manifest is its lists and the scalar fields of its root table.
proof fn finds_rest(m: ManifestView, e: Ends, d: Draft, buf: Seq<u8>)
    requires
        objects::tabled(d, manifest_entries(m, e), buf),
    ensures
        decode::manifest_of(
            buf,
            objects::table_pos(d, manifest_entries(m, e), buf),
            objects::vtable_pos(d, manifest_entries(m, e), buf),
            m.format_version,
            lists_of(m),
        ) == Some(m),
{
    finds_scalars(m, e, d, buf);
    finds_options(m, e, d, buf);
}

/// What is read of a written manifest is that manifest, where it has the format's
/// version and its season manifest has the proper shape.
pub proof fn checkpoint_manifest_round_trips(m: ManifestView)
    requires
        checkpoint_manifest_fits(m),
        m.format_version == records::FORMAT_VERSION,
        m.season_manifest.ascending(),
        m.season_manifest.complete(),
    ensures
        decode::decode_checkpoint_manifest(checkpoint_manifest_bytes(m)) == Ok::<
            ManifestView,
            Seq<char>,
        >(m),
{
    let e = ends_of(m);
    let d = mode_list(m);
    let entries = manifest_entries(m, e);
    let buf = checkpoint_manifest_bytes(m);
    object_drafts_extend(m);
    list_drafts_extend(m);
    manifest_entries_are_proper(m, e);
    encode::finds_root(d, entries);
    finds_scalars(m, e, d, buf);
    finds_lists(m, buf);
    finds_rest(m, e, d, buf);
    decode::season_shape_is_checked(m.season_manifest);
}

/// A manifest of the format's version whose season manifest has not the proper shape
/// is refused with the text for that shape.
pub proof fn bad_seasons_are_refused(m: ManifestView)
    requires
        checkpoint_manifest_fits(m),
        m.format_version == records::FORMAT_VERSION,
        decode::season_shape_error(m.season_manifest) is Some,
    ensures
        decode::decode_checkpoint_manifest(checkpoint_manifest_bytes(m)) == Err::<
            ManifestView,
            Seq<char>,
        >(decode::season_shape_error(m.season_manifest)->0),
        !(m.season_manifest.ascending() && m.season_manifest.complete()),
{
    let e = ends_of(m);
    let buf = checkpoint_manifest_bytes(m);
    object_drafts_extend(m);
    list_drafts_extend(m);
    manifest_entries_are_proper(m, e);
    encode::finds_root(mode_list(m), manifest_entries(m, e));
    finds_scalars(m, e, mode_list(m), buf);
    finds_lists(m, buf);
    decode::season_shape_is_checked(m.season_manifest);
}

/// Another version is refused, whatever else the manifest holds.
pub proof fn other_versions_are_refused(m: ManifestView)
    requires
        checkpoint_manifest_fits(m),
        m.format_version != records::FORMAT_VERSION,
    ensures
        decode::decode_checkpoint_manifest(checkpoint_manifest_bytes(m)) == Err::<
            ManifestView,
            Seq<char>,
        >(decode::version_error(m.format_version)),
{
    let e = ends_of(m);
    object_drafts_extend(m);
    list_drafts_extend(m);
    manifest_entries_are_proper(m, e);
    encode::finds_root(mode_list(m), manifest_entries(m, e));
    finds_scalars(m, e, mode_list(m), checkpoint_manifest_bytes(m));
}

// ── Writing ──────────────────────────────────────────────────────────────────

/// Where the objects of a manifest were written.
struct WrittenEnds {
    cobre_version: u32,
    created_at: u32,
    nodes: u32,
    edges: u32,
    counts: u32,
    mode: u32,
    modes: u32,
    season: u32,
}

impl WrittenEnds {
    spec fn ends(self) -> Ends {
        Ends {
            cobre_version: self.cobre_version as nat,
            created_at: self.created_at as nat,
            nodes: self.nodes as nat,
            edges: self.edges as nat,
            counts: self.counts as nat,
            mode: self.mode as nat,
            modes: self.modes as nat,
            season: self.season as nat,
        }
    }
}

/// Writes the nodes, the edges, the season manifest, the texts and the lists that
/// lead to them.
fn build_objects(b: &mut Builder, manifest: &CheckpointManifest) -> (r: WrittenEnds)
    requires
        mode_list(manifest@).bytes.len() <= layout::MAX_BUFFER_LEN,
        builder::draft(*old(b)) == layout::blank(),
    ensures
        builder::draft(*final(b)) == mode_list(manifest@),
        r.ends() == ends_of(manifest@),
{
    let ghost m = manifest@;
    let graph = &manifest.graph_manifest;
    let producer = &manifest.producer;
    proof {
        object_drafts_extend(m);
        list_drafts_extend(m);
        objects::put_all_extends(m.nodes, layout::blank());
        objects::put_all_extends(m.edges, nodes_draft(m));
        objects::put_all_extends(m.training_block_mode_per_stage, mode_draft(m));
        assert(objects::values_of(graph.nodes@) =~= m.nodes);
        assert(objects::values_of(graph.edges@) =~= m.edges);
        assert(objects::values_of(producer.training_block_mode_per_stage@)
            =~= m.training_block_mode_per_stage);
        assert(builder::draft(*b).bytes == builder::written(*b));
    }
    let node_targets: Vec<u32> = objects::build_all(b, graph.nodes.as_slice());
    let edge_targets: Vec<u32> = objects::build_all(b, graph.edges.as_slice());
    let season: u32 = tables::build_season_manifest_table(b, &manifest.season_manifest);
    let cobre_version: u32 = builder::create_string(b, manifest.cobre_version.as_str());
    let created_at: u32 = builder::create_string(b, manifest.created_at.as_str());
    let mode: u32 = builder::create_string(b, producer.training_block_mode.as_str());
    let mode_targets: Vec<u32> = objects::build_all(
        b,
        producer.training_block_mode_per_stage.as_slice(),
    );
    let (nodes, edges, counts, modes) = build_lists(
        b,
        manifest,
        &node_targets,
        &edge_targets,
        &mode_targets,
    );
    WrittenEnds { cobre_version, created_at, nodes, edges, counts, mode, modes, season }
}

/// Writes the lists that lead to objects written before, and the warm-start counts.
fn build_lists(
    b: &mut Builder,
    manifest: &CheckpointManifest,
    node_targets: &Vec<u32>,
    edge_targets: &Vec<u32>,
    mode_targets: &Vec<u32>,
) -> (r: (u32, u32, u32, u32))
    requires
        mode_list(manifest@).bytes.len() <= layout::MAX_BUFFER_LEN,
        builder::draft(*old(b)) == modes_draft(manifest@),
        layout::u32_words(node_targets@) == objects::offsets_of(
            manifest@.nodes,
            layout::blank(),
        ),
        layout::u32_words(edge_targets@) == objects::offsets_of(
            manifest@.edges,
            nodes_draft(manifest@),
        ),
        layout::u32_words(mode_targets@) == objects::offsets_of(
            manifest@.training_block_mode_per_stage,
            mode_draft(manifest@),
        ),
    ensures
        builder::draft(*final(b)) == mode_list(manifest@),
        r.0 == node_list(manifest@).bytes.len(),
        r.1 == edge_list(manifest@).bytes.len(),
        r.2 == counts_draft(manifest@).bytes.len(),
        r.3 == mode_list(manifest@).bytes.len(),
{
    let ghost m = manifest@;
    proof {
        object_drafts_extend(m);
        list_drafts_extend(m);
        objects::put_all_extends(m.nodes, layout::blank());
        objects::put_all_extends(m.edges, nodes_draft(m));
        objects::put_all_extends(m.training_block_mode_per_stage, mode_draft(m));
    }
    let nodes: u32 = encode::build_offsets(b, node_targets);
    let edges: u32 = encode::build_offsets(b, edge_targets);
    let counts: u32 = builder::create_u32_vector(
        b,
        manifest.producer.warm_start_counts.as_slice(),
    );
    let modes: u32 = encode::build_offsets(b, mode_targets);
    (nodes, edges, counts, modes)
}

/// The fields of a manifest's root table.
fn manifest_fields(manifest: &CheckpointManifest, ends: &WrittenEnds) -> (r: Vec<Field>)
    ensures
        objects::entries_of(r@) == manifest_entries(manifest@, ends.ends()),
        r@.len() <= 100,
{
    let ghost m = manifest@;
    let ghost e = ends.ends();
    let graph = &manifest.graph_manifest;
    let producer = &manifest.producer;
    let mut r: Vec<Field> = vec![
        Field::U32(schema::MANIFEST_FIELD_FORMAT_VERSION, manifest.format_version),
        Field::Offset(schema::MANIFEST_FIELD_COBRE_VERSION, ends.cobre_version),
        Field::Offset(schema::MANIFEST_FIELD_CREATED_AT, ends.created_at),
        Field::U32(schema::MANIFEST_FIELD_NUM_STAGES, manifest.num_stages),
        Field::U32(schema::MANIFEST_FIELD_N_POOLS, graph.n_pools),
        Field::Offset(schema::MANIFEST_FIELD_NODES, ends.nodes),
        Field::Offset(schema::MANIFEST_FIELD_EDGES, ends.edges),
        Field::U32(schema::MANIFEST_FIELD_COMPLETED_ITERATIONS, producer.completed_iterations),
        Field::F64(schema::MANIFEST_FIELD_FINAL_LOWER_BOUND, producer.final_lower_bound),
    ];
    proof {
        assert(objects::entries_of(r@) =~= front_entries(m, e));
    }
    push_optional(&mut r, schema::MANIFEST_FIELD_BEST_UPPER_BOUND, producer.best_upper_bound);
    let ghost before = r@;
    let mut middle: Vec<Field> = vec![
        Field::U32(schema::MANIFEST_FIELD_MAX_ITERATIONS, producer.max_iterations),
        Field::U32(schema::MANIFEST_FIELD_FORWARD_PASSES, producer.forward_passes),
        Field::U32(schema::MANIFEST_FIELD_WARM_START_CUTS, producer.warm_start_cuts),
        Field::Offset(schema::MANIFEST_FIELD_WARM_START_COUNTS, ends.counts),
        Field::U64(schema::MANIFEST_FIELD_RNG_SEED, producer.rng_seed),
        Field::U64(
            schema::MANIFEST_FIELD_TOTAL_VISITED_STATES,
            producer.total_visited_states,
        ),
        Field::Offset(schema::MANIFEST_FIELD_TRAINING_BLOCK_MODE, ends.mode),
        Field::Offset(schema::MANIFEST_FIELD_TRAINING_BLOCK_MODE_PER_STAGE, ends.modes),
    ];
    proof {
        assert(objects::entries_of(middle@) =~= middle_entries(m, e));
        assert(objects::entries_of(before + middle@) =~= objects::entries_of(before)
            + objects::entries_of(middle@));
    }
    r.append(&mut middle);
    push_optional(&mut r, schema::MANIFEST_FIELD_COST_SCALE_FACTOR, producer.cost_scale_factor);
    let ghost last = r@;
    r.push(Field::Offset(schema::MANIFEST_FIELD_SEASON_MANIFEST, ends.season));
    proof {
        assert(objects::entries_of(r@) =~= objects::entries_of(last).push(
            Entry::Offset(schema::MANIFEST_FIELD_SEASON_MANIFEST, e.season),
        ));
    }
    r
}

/// Adds a floating-point field where there is a value.
fn push_optional(fields: &mut Vec<Field>, slot: u16, x: Option<Float64>)
    ensures
        objects::entries_of(final(fields)@) == objects::entries_of(old(fields)@) + optional_entry(
            slot,
            x,
        ),
        final(fields)@.len() <= old(fields)@.len() + 1,
{
    if let Some(value) = x {
        fields.push(Field::F64(slot, value));
    }
    proof {
        assert(objects::entries_of(fields@) =~= objects::entries_of(old(fields)@) + optional_entry(
            slot,
            x,
        ));
    }
}

/// The capacity that the builder of a manifest starts with.
fn estimated_size(manifest: &CheckpointManifest) -> (r: usize)
    requires
        estimated_manifest_size(manifest@) <= builder::MAX_CAPACITY,
    ensures
        r == estimated_manifest_size(manifest@),
{
    let ghost m = manifest@;
    let producer = &manifest.producer;
    let modes = &producer.training_block_mode_per_stage;
    let orders = &manifest.season_manifest.hydro_orders;
    let mut size: usize = 128 + 32 * manifest.graph_manifest.nodes.len() + 40
        * manifest.graph_manifest.edges.len() + manifest.cobre_version.as_str().len()
        + manifest.created_at.as_str().len() + producer.training_block_mode.as_str().len() + 4
        * producer.warm_start_counts.len();
    let ghost start: int = size as int;
    proof {
        assert(m.training_block_mode_per_stage.take(0) =~= Seq::<Seq<char>>::empty());
        assert(m.season_manifest.hydro_orders.take(0) =~= Seq::<HydroOrdersView>::empty());
    }
    for i in 0..modes.len()
        invariant
            m == manifest@,
            estimated_manifest_size(m) <= builder::MAX_CAPACITY,
            modes@ == manifest.producer.training_block_mode_per_stage@,
            start + utf8_size(m.training_block_mode_per_stage) + 8
                * m.training_block_mode_per_stage.len() + 4 * order_count(
                m.season_manifest.hydro_orders,
            ) + 16 * m.season_manifest.hydro_orders.len() == estimated_manifest_size(m),
            size == start + utf8_size(m.training_block_mode_per_stage.take(i as int)) + 8 * i,
    {
        let ghost items = m.training_block_mode_per_stage;
        proof {
            assert(items.take(i + 1).drop_last() =~= items.take(i as int));
            assert(items[i as int] == modes@[i as int]@);
            utf8_size_grows(items, i + 1);
        }
        size = size + modes[i].as_str().len() + 8;
    }
    proof {
        assert(m.training_block_mode_per_stage.take(modes@.len() as int)
            =~= m.training_block_mode_per_stage);
    }
    let ghost middle: int = size as int;
    for i in 0..orders.len()
        invariant
            m == manifest@,
            estimated_manifest_size(m) <= builder::MAX_CAPACITY,
            orders@ == manifest.season_manifest.hydro_orders@,
            middle + 4 * order_count(m.season_manifest.hydro_orders) + 16
                * m.season_manifest.hydro_orders.len() == estimated_manifest_size(m),
            size == middle + 4 * order_count(m.season_manifest.hydro_orders.take(i as int)) + 16
                * i,
    {
        let ghost items = m.season_manifest.hydro_orders;
        proof {
            assert(items.take(i + 1).drop_last() =~= items.take(i as int));
            assert(items[i as int] == orders@[i as int]@);
            order_count_grows(items, i + 1);
        }
        size = size + 16 + 4 * orders[i].orders.len();
    }
    proof {
        assert(m.season_manifest.hydro_orders.take(orders@.len() as int)
            =~= m.season_manifest.hydro_orders);
    }
    size
}

proof fn utf8_size_grows(items: Seq<Seq<char>>, n: int)
    requires
        0 <= n <= items.len(),
    ensures
        utf8_size(items.take(n)) <= utf8_size(items),
    decreases items.len() - n,
{
    if n == items.len() {
        assert(items.take(n) =~= items);
    } else {
        assert(items.take(n + 1).drop_last() =~= items.take(n));
        utf8_size_grows(items, n + 1);
    }
}

proof fn order_count_grows(items: Seq<HydroOrdersView>, n: int)
    requires
        0 <= n <= items.len(),
    ensures
        order_count(items.take(n)) <= order_count(items),
    decreases items.len() - n,
{
    if n == items.len() {
        assert(items.take(n) =~= items);
    } else {
        assert(items.take(n + 1).drop_last() =~= items.take(n));
        order_count_grows(items, n + 1);
    }
}

/// Writes a checkpoint manifest. It is read back as it is where it has the format's
/// version, its hydro ids ascend and each plant has one order per season.
pub fn serialize_checkpoint_manifest(manifest: &CheckpointManifest) -> (r: Vec<u8>)
    requires
        builder::naturally_aligned(),
        checkpoint_manifest_fits(manifest@),
        estimated_manifest_size(manifest@) <= builder::MAX_CAPACITY,
    ensures
        r@ == checkpoint_manifest_bytes(manifest@),
        manifest@.format_version == records::FORMAT_VERSION
            && manifest@.season_manifest.ascending() && manifest@.season_manifest.complete()
            ==> decode::decode_checkpoint_manifest(r@) == Ok::<ManifestView, Seq<char>>(
            manifest@,
        ),
{
    let ghost m = manifest@;
    proof {
        object_drafts_extend(m);
        list_drafts_extend(m);
        manifest_entries_are_proper(m, ends_of(m));
        encode::finished_len(mode_list(m), manifest_entries(m, ends_of(m)));
        if m.format_version == records::FORMAT_VERSION && m.season_manifest.ascending()
            && m.season_manifest.complete() {
            checkpoint_manifest_round_trips(m);
        }
    }
    let size: usize = estimated_size(manifest);
    let mut builder: Builder = builder::with_capacity(size);
    let b: &mut Builder = &mut builder;
    let ends: WrittenEnds = build_objects(b, manifest);
    let fields: Vec<Field> = manifest_fields(manifest, &ends);
    proof {
        fields_lead_into(fields@, m, mode_list(m).bytes.len());
    }
    encode::finish_root(b, &fields)
}

/// The fields of a manifest's root table lead to what was written before it.
proof fn fields_lead_into(fields: Seq<Field>, m: ManifestView, n: nat)
    requires
        objects::entries_of(fields) == manifest_entries(m, ends_of(m)),
        n == mode_list(m).bytes.len(),
    ensures
        forall|i: int| 0 <= i < fields.len() ==> (#[trigger] fields[i]).leads_into(n),
{
    let entries = manifest_entries(m, ends_of(m));
    object_drafts_extend(m);
    list_drafts_extend(m);
    manifest_entries_are_placed(m, ends_of(m));
    assert forall|i: int| 0 <= i < fields.len() implies (#[trigger] fields[i]).leads_into(n) by {
        assert(entries[i] == fields[i].entry());
        let k: int = if m.best_upper_bound is Some { 1 } else { 0 };
        if 9 + k <= i < 17 + k {
            assert(entries[i] == middle_entries(m, ends_of(m))[i - 9 - k]);
        }
    }
}

/// What is read of a written manifest has each of its fields.
pub proof fn read_manifests_are_those_written(manifest: CheckpointManifest, read: CheckpointManifest)
    requires
        checkpoint_manifest_fits(manifest@),
        decode::decode_checkpoint_manifest(checkpoint_manifest_bytes(manifest@)) == Ok::<
            ManifestView,
            Seq<char>,
        >(read@),
        manifest.format_version == records::FORMAT_VERSION,
        manifest.season_manifest@.ascending(),
        manifest.season_manifest@.complete(),
    ensures
        read.format_version == manifest.format_version,
        read.cobre_version@ == manifest.cobre_version@,
        read.created_at@ == manifest.created_at@,
        read.num_stages == manifest.num_stages,
        read.graph_manifest.n_pools == manifest.graph_manifest.n_pools,
        read.graph_manifest.nodes@ == manifest.graph_manifest.nodes@,
        read.graph_manifest.edges@ == manifest.graph_manifest.edges@,
        read.producer.completed_iterations == manifest.producer.completed_iterations,
        read.producer.final_lower_bound == manifest.producer.final_lower_bound,
        read.producer.best_upper_bound == manifest.producer.best_upper_bound,
        read.producer.max_iterations == manifest.producer.max_iterations,
        read.producer.forward_passes == manifest.producer.forward_passes,
        read.producer.warm_start_cuts == manifest.producer.warm_start_cuts,
        read.producer.warm_start_counts@ == manifest.producer.warm_start_counts@,
        read.producer.rng_seed == manifest.producer.rng_seed,
        read.producer.total_visited_states == manifest.producer.total_visited_states,
        read.producer.training_block_mode@ == manifest.producer.training_block_mode@,
        read.producer.training_block_mode_per_stage@.len()
            == manifest.producer.training_block_mode_per_stage@.len(),
        forall|i: int|
            0 <= i < read.producer.training_block_mode_per_stage@.len() ==> (
            #[trigger] read.producer.training_block_mode_per_stage@[i])@
                == manifest.producer.training_block_mode_per_stage@[i]@,
        read.producer.cost_scale_factor == manifest.producer.cost_scale_factor,
        read.season_manifest.cycle_code == manifest.season_manifest.cycle_code,
        read.season_manifest.n_seasons == manifest.season_manifest.n_seasons,
        read.season_manifest.hydro_orders@.len() == manifest.season_manifest.hydro_orders@.len(),
        forall|i: int|
            0 <= i < read.season_manifest.hydro_orders@.len() ==> {
                let a = manifest.season_manifest.hydro_orders@[i];
                let b = #[trigger] read.season_manifest.hydro_orders@[i];
                b.hydro_id == a.hydro_id && b.orders@ == a.orders@
            },
{
    checkpoint_manifest_round_trips(manifest@);
    let a = manifest.producer.training_block_mode_per_stage@;
    let b = read.producer.training_block_mode_per_stage@;
    assert(records::texts(b).len() == records::texts(a).len());
    assert forall|i: int| 0 <= i < b.len() implies (#[trigger] b[i])@ == a[i]@ by {
        assert(records::texts(b)[i] == b[i]@);
        assert(records::texts(a)[i] == a[i]@);
    }
    let c = manifest.season_manifest.hydro_orders@;
    let d = read.season_manifest.hydro_orders@;
    assert(records::order_views(d).len() == records::order_views(c).len());
    assert forall|i: int| 0 <= i < d.len() implies (#[trigger] d[i]).hydro_id == c[i].hydro_id
        && d[i].orders@ == c[i].orders@ by {
        assert(records::order_views(d)[i] == d[i]@);
        assert(records::order_views(c)[i] == c[i]@);
    }
}

/// Two manifests differ in what is set aside for them by what their parts differ: 32 bytes for
/// a node, 40 for an edge, 4 for a warm-start count, 8 for the mode of a stage, 16 for the
/// orders of a hydro plant, 4 for each order, and a byte for each byte of a text. A manifest
/// without parts has 128.
pub proof fn every_part_counts_in_the_estimate(a: ManifestView, b: ManifestView)
    ensures
        estimated_manifest_size(a) - estimated_manifest_size(b) == 32 * (a.nodes.len()
            - b.nodes.len()) + 40 * (a.edges.len() - b.edges.len()) + 4 * (
        a.warm_start_counts.len() - b.warm_start_counts.len()) + 8 * (
        a.training_block_mode_per_stage.len() - b.training_block_mode_per_stage.len()) + 16 * (
        a.season_manifest.hydro_orders.len() - b.season_manifest.hydro_orders.len()) + 4 * (
        order_count(a.season_manifest.hydro_orders) - order_count(b.season_manifest.hydro_orders))
            + vstd::utf8::encode_utf8(a.cobre_version).len() - vstd::utf8::encode_utf8(
            b.cobre_version,
        ).len() + vstd::utf8::encode_utf8(a.created_at).len() - vstd::utf8::encode_utf8(
            b.created_at,
        ).len() + vstd::utf8::encode_utf8(a.training_block_mode).len() - vstd::utf8::encode_utf8(
            b.training_block_mode,
        ).len() + utf8_size(a.training_block_mode_per_stage) - utf8_size(
            b.training_block_mode_per_stage,
        ),
        estimated_manifest_size(a) >= 128,
        a.nodes.len() == 0 && a.edges.len() == 0 && a.warm_start_counts.len() == 0
            && a.training_block_mode_per_stage.len() == 0 && a.season_manifest.hydro_orders.len()
            == 0 && vstd::utf8::encode_utf8(a.cobre_version).len() == 0 && vstd::utf8::encode_utf8(
            a.created_at,
        ).len() == 0 && vstd::utf8::encode_utf8(a.training_block_mode).len() == 0
            ==> estimated_manifest_size(a) == 128,
{
}

} // verus!
