//! The vtable slots of the policy tables.
//!
//! The field with id `n` has slot `(n + 2) * 2`. Three ids are retired and never
//! used again: 7 of a cut, and 4 and 5 of an entity slot.

use vstd::prelude::*;

verus! {

/// The file identifier of every policy artifact.
pub const POLICY_FILE_IDENTIFIER: &'static str = "CBVF";

/// Cut: `cut_id`.
pub const CUT_FIELD_CUT_ID: u16 = 4;

/// Cut: `slot_index`.
pub const CUT_FIELD_SLOT_INDEX: u16 = 6;

/// Cut: `iteration`.
pub const CUT_FIELD_ITERATION: u16 = 8;

/// Cut: `forward_pass_idx`.
pub const CUT_FIELD_FORWARD_PASS_IDX: u16 = 10;

/// Cut: `intercept`.
pub const CUT_FIELD_INTERCEPT: u16 = 12;

/// Cut: `coefficients`.
pub const CUT_FIELD_COEFFICIENTS: u16 = 14;

/// Cut: `is_active`.
pub const CUT_FIELD_IS_ACTIVE: u16 = 16;

/// Entity slot: `entity_type`.
pub const ENTITY_SLOT_FIELD_ENTITY_TYPE: u16 = 4;

/// Entity slot: `entity_id`.
pub const ENTITY_SLOT_FIELD_ENTITY_ID: u16 = 6;

/// Entity slot: `subindex`.
pub const ENTITY_SLOT_FIELD_SUBINDEX: u16 = 8;

/// Entity slot: `was_active`.
pub const ENTITY_SLOT_FIELD_WAS_ACTIVE: u16 = 10;

/// Entity slot: `reference_date`.
pub const ENTITY_SLOT_FIELD_REFERENCE_DATE: u16 = 16;

/// Entity slot: `interval_start`.
pub const ENTITY_SLOT_FIELD_INTERVAL_START: u16 = 18;

/// Entity slot: `interval_end`.
pub const ENTITY_SLOT_FIELD_INTERVAL_END: u16 = 20;

/// Pool of cuts: `stage_id`.
pub const STAGE_CUTS_FIELD_STAGE_ID: u16 = 4;

/// Pool of cuts: `state_dimension`.
pub const STAGE_CUTS_FIELD_STATE_DIMENSION: u16 = 6;

/// Pool of cuts: `capacity`.
pub const STAGE_CUTS_FIELD_CAPACITY: u16 = 8;

/// Pool of cuts: `warm_start_count`.
pub const STAGE_CUTS_FIELD_WARM_START_COUNT: u16 = 10;

/// Pool of cuts: `cuts`.
pub const STAGE_CUTS_FIELD_CUTS: u16 = 12;

/// Pool of cuts: `active_cut_indices`.
pub const STAGE_CUTS_FIELD_ACTIVE_CUT_INDICES: u16 = 14;

/// Pool of cuts: `populated_count`.
pub const STAGE_CUTS_FIELD_POPULATED_COUNT: u16 = 16;

/// Pool of cuts: `entity_manifest`.
pub const STAGE_CUTS_FIELD_ENTITY_MANIFEST: u16 = 18;

/// Pool of cuts: `cost_scale_factor`.
pub const STAGE_CUTS_FIELD_COST_SCALE_FACTOR: u16 = 20;

/// Pool of cuts: `node_id`.
pub const STAGE_CUTS_FIELD_NODE_ID: u16 = 22;

/// Pool of cuts: `graph_stage_id`.
pub const STAGE_CUTS_FIELD_GRAPH_STAGE_ID: u16 = 24;

/// Pool of cuts: `priced_state_date`.
pub const STAGE_CUTS_FIELD_PRICED_STATE_DATE: u16 = 26;

/// Basis: `stage_id`.
pub const BASIS_FIELD_STAGE_ID: u16 = 4;

/// Basis: `iteration`.
pub const BASIS_FIELD_ITERATION: u16 = 6;

/// Basis: `num_columns`.
pub const BASIS_FIELD_NUM_COLUMNS: u16 = 8;

/// Basis: `num_rows`.
pub const BASIS_FIELD_NUM_ROWS: u16 = 10;

/// Basis: `column_status`.
pub const BASIS_FIELD_COLUMN_STATUS: u16 = 12;

/// Basis: `row_status`.
pub const BASIS_FIELD_ROW_STATUS: u16 = 14;

/// Basis: `num_cut_rows`.
pub const BASIS_FIELD_NUM_CUT_ROWS: u16 = 16;

/// Visited states: `stage_id`.
pub const STATES_FIELD_STAGE_ID: u16 = 4;

/// Visited states: `state_dimension`.
pub const STATES_FIELD_STATE_DIMENSION: u16 = 6;

/// Visited states: `count`.
pub const STATES_FIELD_COUNT: u16 = 8;

/// Visited states: `data`.
pub const STATES_FIELD_DATA: u16 = 10;

/// Visited states: `entity_manifest`.
pub const STATES_FIELD_ENTITY_MANIFEST: u16 = 12;

/// Visited states: `node_id`.
pub const STATES_FIELD_NODE_ID: u16 = 14;

/// Checkpoint manifest: `format_version`.
pub const MANIFEST_FIELD_FORMAT_VERSION: u16 = 4;

/// Checkpoint manifest: `cobre_version`.
pub const MANIFEST_FIELD_COBRE_VERSION: u16 = 6;

/// Checkpoint manifest: `created_at`.
pub const MANIFEST_FIELD_CREATED_AT: u16 = 8;

/// Checkpoint manifest: `num_stages`.
pub const MANIFEST_FIELD_NUM_STAGES: u16 = 10;

/// Checkpoint manifest: `n_pools`.
pub const MANIFEST_FIELD_N_POOLS: u16 = 12;

/// Checkpoint manifest: `nodes`.
pub const MANIFEST_FIELD_NODES: u16 = 14;

/// Checkpoint manifest: `edges`.
pub const MANIFEST_FIELD_EDGES: u16 = 16;

/// Checkpoint manifest: `completed_iterations`.
pub const MANIFEST_FIELD_COMPLETED_ITERATIONS: u16 = 18;

/// Checkpoint manifest: `final_lower_bound`.
pub const MANIFEST_FIELD_FINAL_LOWER_BOUND: u16 = 20;

/// Checkpoint manifest: `best_upper_bound`.
pub const MANIFEST_FIELD_BEST_UPPER_BOUND: u16 = 22;

/// Checkpoint manifest: `max_iterations`.
pub const MANIFEST_FIELD_MAX_ITERATIONS: u16 = 24;

/// Checkpoint manifest: `forward_passes`.
pub const MANIFEST_FIELD_FORWARD_PASSES: u16 = 26;

/// Checkpoint manifest: `warm_start_cuts`.
pub const MANIFEST_FIELD_WARM_START_CUTS: u16 = 28;

/// Checkpoint manifest: `warm_start_counts`.
pub const MANIFEST_FIELD_WARM_START_COUNTS: u16 = 30;

/// Checkpoint manifest: `rng_seed`.
pub const MANIFEST_FIELD_RNG_SEED: u16 = 32;

/// Checkpoint manifest: `total_visited_states`.
pub const MANIFEST_FIELD_TOTAL_VISITED_STATES: u16 = 34;

/// Checkpoint manifest: `training_block_mode`.
pub const MANIFEST_FIELD_TRAINING_BLOCK_MODE: u16 = 36;

/// Checkpoint manifest: `training_block_mode_per_stage`.
pub const MANIFEST_FIELD_TRAINING_BLOCK_MODE_PER_STAGE: u16 = 38;

/// Checkpoint manifest: `cost_scale_factor`.
pub const MANIFEST_FIELD_COST_SCALE_FACTOR: u16 = 40;

/// Checkpoint manifest: `season_manifest`.
pub const MANIFEST_FIELD_SEASON_MANIFEST: u16 = 42;

/// Manifest node: `id`.
pub const MANIFEST_NODE_FIELD_ID: u16 = 4;

/// Manifest node: `stage_id`.
pub const MANIFEST_NODE_FIELD_STAGE_ID: u16 = 6;

/// Manifest node: `pool_id`.
pub const MANIFEST_NODE_FIELD_POOL_ID: u16 = 8;

/// Manifest edge: `source_id`.
pub const MANIFEST_EDGE_FIELD_SOURCE_ID: u16 = 4;

/// Manifest edge: `target_id`.
pub const MANIFEST_EDGE_FIELD_TARGET_ID: u16 = 6;

/// Manifest edge: `probability`.
pub const MANIFEST_EDGE_FIELD_PROBABILITY: u16 = 8;

/// Season manifest: `cycle_code`.
pub const SEASON_MANIFEST_FIELD_CYCLE_CODE: u16 = 4;

/// Season manifest: `n_seasons`.
pub const SEASON_MANIFEST_FIELD_N_SEASONS: u16 = 6;

/// Season manifest: `hydro_orders`.
pub const SEASON_MANIFEST_FIELD_HYDRO_ORDERS: u16 = 8;

/// Season orders: `hydro_id`.
pub const HYDRO_SEASON_ORDERS_FIELD_HYDRO_ID: u16 = 4;

/// Season orders: `orders`.
pub const HYDRO_SEASON_ORDERS_FIELD_ORDERS: u16 = 6;

} // verus!
