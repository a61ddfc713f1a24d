//! The records of value-function artifacts.
//!
//! Input records ([`PolicyCutRecord`], [`PolicyBasisRecord`],
//! [`StageStatesPayload`], [`StageCutsPayload`]) borrow their data. What is read
//! back ([`OwnedPolicyCutRecord`], [`OwnedPolicyBasisRecord`],
//! [`StageCutsReadResult`], [`StageStatesReadResult`], [`PolicyCheckpoint`]) owns
//! it. The views of both are the same types, so that a contract can say that what
//! is read is what was written.

use vstd::prelude::*;

use crate::float::Float64;

verus! {

/// The version of the artifact format. A manifest of any other version is refused.
pub const FORMAT_VERSION: u32 = 2;

/// The value of an [`EntitySlot`] date that is not set: either the slot's family
/// has no such date, or the buffer is older than the field.
pub const ENTITY_SLOT_DELIVERY_DATE_SENTINEL: i32 = i32::MIN;

/// The node id of states that belong to no known node.
pub const STAGE_STATES_NODE_ID_SENTINEL: i32 = -1;

/// The node id of a pool that no single node owns.
pub const STAGE_CUTS_NODE_ID_SENTINEL: i32 = -1;

/// The graph-stage id of a pool whose stage is not known.
pub const STAGE_CUTS_GRAPH_STAGE_ID_SENTINEL: i32 = -1;

/// The priced-state date of a pool that has none. Not `-1`, which lies in the range
/// of encoded dates.
pub const STAGE_CUTS_PRICED_STATE_DATE_SENTINEL: i32 = i32::MIN;

/// The season cycle code of a monthly cycle.
pub const SEASON_CYCLE_CODE_MONTHLY: u8 = 0;

/// The season cycle code of a weekly cycle.
pub const SEASON_CYCLE_CODE_WEEKLY: u8 = 1;

/// The season cycle code of a cycle that is neither monthly nor weekly.
pub const SEASON_CYCLE_CODE_CUSTOM: u8 = 2;

/// The season cycle code where no season map is declared.
pub const SEASON_CYCLE_CODE_ABSENT: u8 = 255;

// ── Entity slots ─────────────────────────────────────────────────────────────

/// What a dimension of the state vector measures.
#[derive(Clone, Copy, Debug, PartialEq, Eq, Hash, Structural)]
pub enum StateFamily {
    /// Reservoir storage.
    HydroStorage,
    /// A lag of a hydro plant's inflow.
    HydroInflowLag,
    /// A commitment of an anticipated thermal plant.
    AnticipatedThermalState,
    /// Water on its way to a hydro plant.
    HydroTransitBucket,
}

impl StateFamily {
    /// The byte that stands for the family.
    pub open spec fn byte(self) -> u8 {
        match self {
            StateFamily::HydroStorage => 0,
            StateFamily::HydroInflowLag => 1,
            StateFamily::AnticipatedThermalState => 2,
            StateFamily::HydroTransitBucket => 3,
        }
    }

    /// The family that a byte stands for, if any.
    pub open spec fn of_byte(code: u8) -> Option<StateFamily> {
        if code == 0 {
            Some(StateFamily::HydroStorage)
        } else if code == 1 {
            Some(StateFamily::HydroInflowLag)
        } else if code == 2 {
            Some(StateFamily::AnticipatedThermalState)
        } else if code == 3 {
            Some(StateFamily::HydroTransitBucket)
        } else {
            None
        }
    }

    /// The byte that stands for the family.
    pub fn code(self) -> (r: u8)
        ensures
            r == self.byte(),
    {
        match self {
            StateFamily::HydroStorage => 0,
            StateFamily::HydroInflowLag => 1,
            StateFamily::AnticipatedThermalState => 2,
            StateFamily::HydroTransitBucket => 3,
        }
    }

    /// The family that `code` stands for, or `None` for an unknown byte.
    pub fn from_code(code: u8) -> (r: Option<StateFamily>)
        ensures
            r == Self::of_byte(code),
    {
        if code == 0 {
            Some(StateFamily::HydroStorage)
        } else if code == 1 {
            Some(StateFamily::HydroInflowLag)
        } else if code == 2 {
            Some(StateFamily::AnticipatedThermalState)
        } else if code == 3 {
            Some(StateFamily::HydroTransitBucket)
        } else {
            None
        }
    }
}

/// A family is found again by its byte, and no other byte finds one.
pub proof fn family_codes_round_trip(family: StateFamily, code: u8)
    ensures
        StateFamily::of_byte(family.byte()) == Some(family),
        StateFamily::of_byte(code) matches Some(f) ==> f.byte() == code,
        StateFamily::of_byte(code) is None <==> code > 3,
{
}

/// Which entity a dimension of the state vector belongs to.
#[derive(Clone, Copy, Debug, PartialEq, Eq, Structural)]
pub struct EntitySlot {
    /// The byte of the slot's [`StateFamily`].
    pub entity_type: u8,
    /// The entity's id.
    pub entity_id: i32,
    /// The index within the entity; its meaning depends on the family.
    pub subindex: u32,
    /// Whether the entity was active at the slot's stage.
    pub was_active: bool,
    /// The `YYYYMMDD` start date of the stage that an inflow lag refers to.
    pub reference_date: i32,
    /// The first day, `YYYYMMDD`, of the delivery or arrival interval.
    pub interval_start: i32,
    /// The day after the interval's last, `YYYYMMDD`.
    pub interval_end: i32,
}

/// A slot of a family whose dates are not set.
pub open spec fn undated_slot(
    family: StateFamily,
    entity_id: i32,
    subindex: u32,
    was_active: bool,
) -> EntitySlot {
    EntitySlot {
        entity_type: family.byte(),
        entity_id,
        subindex,
        was_active,
        reference_date: ENTITY_SLOT_DELIVERY_DATE_SENTINEL,
        interval_start: ENTITY_SLOT_DELIVERY_DATE_SENTINEL,
        interval_end: ENTITY_SLOT_DELIVERY_DATE_SENTINEL,
    }
}

impl EntitySlot {
    fn at_sentinel_dates(
        family: StateFamily,
        entity_id: i32,
        subindex: u32,
        was_active: bool,
    ) -> (r: EntitySlot)
        ensures
            r == undated_slot(family, entity_id, subindex, was_active),
    {
        EntitySlot {
            entity_type: family.code(),
            entity_id,
            subindex,
            was_active,
            reference_date: ENTITY_SLOT_DELIVERY_DATE_SENTINEL,
            interval_start: ENTITY_SLOT_DELIVERY_DATE_SENTINEL,
            interval_end: ENTITY_SLOT_DELIVERY_DATE_SENTINEL,
        }
    }

    /// A storage slot. Its subindex is always 0.
    pub fn storage(entity_id: i32, was_active: bool) -> (r: EntitySlot)
        ensures
            r == undated_slot(StateFamily::HydroStorage, entity_id, 0, was_active),
    {
        Self::at_sentinel_dates(StateFamily::HydroStorage, entity_id, 0, was_active)
    }

    /// An inflow-lag slot. Its subindex is the order of the lag, from 1.
    pub fn inflow_lag(entity_id: i32, lag_order: u32, was_active: bool) -> (r: EntitySlot)
        ensures
            r == undated_slot(StateFamily::HydroInflowLag, entity_id, lag_order, was_active),
    {
        Self::at_sentinel_dates(StateFamily::HydroInflowLag, entity_id, lag_order, was_active)
    }

    /// A transit-bucket slot of the downstream hydro. Its subindex is the lag.
    pub fn transit_bucket(downstream_entity_id: i32, maturity_lag: u32, was_active: bool) -> (r:
        EntitySlot)
        ensures
            r == undated_slot(
                StateFamily::HydroTransitBucket,
                downstream_entity_id,
                maturity_lag,
                was_active,
            ),
    {
        Self::at_sentinel_dates(
            StateFamily::HydroTransitBucket,
            downstream_entity_id,
            maturity_lag,
            was_active,
        )
    }

    /// An anticipated-thermal slot. Its subindex is the slot of the ring buffer.
    pub fn anticipated(entity_id: i32, ring_slot: u32, was_active: bool) -> (r: EntitySlot)
        ensures
            r == undated_slot(
                StateFamily::AnticipatedThermalState,
                entity_id,
                ring_slot,
                was_active,
            ),
    {
        Self::at_sentinel_dates(
            StateFamily::AnticipatedThermalState,
            entity_id,
            ring_slot,
            was_active,
        )
    }

    /// The slot with its reference date replaced.
    pub fn with_reference_date(self, reference_date: i32) -> (r: EntitySlot)
        ensures
            r == (EntitySlot { reference_date, ..self }),
    {
        EntitySlot {
            entity_type: self.entity_type,
            entity_id: self.entity_id,
            subindex: self.subindex,
            was_active: self.was_active,
            reference_date,
            interval_start: self.interval_start,
            interval_end: self.interval_end,
        }
    }

    /// The slot with its interval replaced.
    pub fn with_interval(self, start: i32, end: i32) -> (r: EntitySlot)
        ensures
            r == (EntitySlot { interval_start: start, interval_end: end, ..self }),
    {
        EntitySlot {
            entity_type: self.entity_type,
            entity_id: self.entity_id,
            subindex: self.subindex,
            was_active: self.was_active,
            reference_date: self.reference_date,
            interval_start: start,
            interval_end: end,
        }
    }

    /// The slot's family, or `None` for an unknown byte.
    pub fn family(&self) -> (r: Option<StateFamily>)
        ensures
            r == StateFamily::of_byte(self.entity_type),
    {
        StateFamily::from_code(self.entity_type)
    }
}

// ── Cuts ─────────────────────────────────────────────────────────────────────

/// What a cut record holds.
#[verifier::ext_equal]
pub struct CutView {
    /// Identifier of the cut across all iterations.
    pub cut_id: u64,
    /// Row position in the linear program.
    pub slot_index: u32,
    /// The iteration that made the cut.
    pub iteration: u32,
    /// The forward pass within that iteration.
    pub forward_pass_index: u32,
    /// The constant term.
    pub intercept: Float64,
    /// The gradient, one coefficient per state dimension.
    pub coefficients: Seq<Float64>,
    /// Whether the cut is in the linear program.
    pub is_active: bool,
}

/// One cut to write.
#[derive(Clone, Debug)]
pub struct PolicyCutRecord<'a> {
    /// Identifier of the cut across all iterations.
    pub cut_id: u64,
    /// Row position in the linear program.
    pub slot_index: u32,
    /// The iteration that made the cut.
    pub iteration: u32,
    /// The forward pass within that iteration.
    pub forward_pass_index: u32,
    /// The constant term.
    pub intercept: Float64,
    /// The gradient, one coefficient per state dimension.
    pub coefficients: &'a [Float64],
    /// Whether the cut is in the linear program.
    pub is_active: bool,
}

impl<'a> View for PolicyCutRecord<'a> {
    type V = CutView;

    open spec fn view(&self) -> CutView {
        CutView {
            cut_id: self.cut_id,
            slot_index: self.slot_index,
            iteration: self.iteration,
            forward_pass_index: self.forward_pass_index,
            intercept: self.intercept,
            coefficients: self.coefficients@,
            is_active: self.is_active,
        }
    }
}

/// One cut that was read.
#[derive(Clone, Debug, PartialEq)]
pub struct OwnedPolicyCutRecord {
    /// Identifier of the cut across all iterations.
    pub cut_id: u64,
    /// Row position in the linear program.
    pub slot_index: u32,
    /// The iteration that made the cut.
    pub iteration: u32,
    /// The forward pass within that iteration.
    pub forward_pass_index: u32,
    /// The constant term.
    pub intercept: Float64,
    /// The gradient, one coefficient per state dimension.
    pub coefficients: Vec<Float64>,
    /// Whether the cut is in the linear program.
    pub is_active: bool,
}

impl View for OwnedPolicyCutRecord {
    type V = CutView;

    open spec fn view(&self) -> CutView {
        CutView {
            cut_id: self.cut_id,
            slot_index: self.slot_index,
            iteration: self.iteration,
            forward_pass_index: self.forward_pass_index,
            intercept: self.intercept,
            coefficients: self.coefficients@,
            is_active: self.is_active,
        }
    }
}

/// The views of cuts that were read.
pub open spec fn owned_cuts(cuts: Seq<OwnedPolicyCutRecord>) -> Seq<CutView> {
    cuts.map_values(|c: OwnedPolicyCutRecord| c@)
}

/// What a pool of cuts holds.
#[verifier::ext_equal]
pub struct StageCutsView {
    /// The pool's id.
    pub stage_id: u32,
    /// The number of state dimensions.
    pub state_dimension: u32,
    /// How many slots the pool has.
    pub capacity: u32,
    /// How many slots came from an earlier artifact.
    pub warm_start_count: u32,
    /// How many slots are filled.
    pub populated_count: u32,
    /// The cuts.
    pub cuts: Seq<CutView>,
    /// The entity of each state dimension.
    pub entity_manifest: Seq<EntitySlot>,
    /// The cost scale of the study that wrote the pool.
    pub cost_scale_factor: Option<Float64>,
    /// The owning node.
    pub node_id: i32,
    /// The graph stage of the owning nodes.
    pub graph_stage_id: i32,
    /// The `YYYYMMDD` date that the cuts price.
    pub priced_state_date: i32,
}

/// A pool of cuts to write.
#[derive(Debug)]
pub struct StageCutsPayload<'a> {
    /// The pool's id.
    pub stage_id: u32,
    /// The number of state dimensions.
    pub state_dimension: u32,
    /// How many slots the pool has.
    pub capacity: u32,
    /// How many slots came from an earlier artifact.
    pub warm_start_count: u32,
    /// The cuts.
    pub cuts: &'a [PolicyCutRecord<'a>],
    /// The indices of the cuts that are in the linear program.
    pub active_cut_indices: &'a [u32],
    /// How many slots are filled.
    pub populated_count: u32,
    /// The entity of each state dimension; empty for none.
    pub entity_manifest: &'a [EntitySlot],
    /// The cost scale of the study that writes the pool.
    pub cost_scale_factor: Float64,
    /// The owning node.
    pub node_id: i32,
    /// The graph stage of the owning nodes.
    pub graph_stage_id: i32,
    /// The `YYYYMMDD` date that the cuts price.
    pub priced_state_date: i32,
}

impl<'a> StageCutsPayload<'a> {
    /// The views of the cuts.
    pub open spec fn cut_views(self) -> Seq<CutView> {
        Seq::new(self.cuts@.len(), |i: int| self.cuts@[i]@)
    }
}

/// The view is what a reader gets back of the pool. The indices of the active cuts are
/// written and never read, so they are no part of it: what is written is stated over
/// the view and `active_cut_indices` side by side.
impl<'a> View for StageCutsPayload<'a> {
    type V = StageCutsView;

    open spec fn view(&self) -> StageCutsView {
        StageCutsView {
            stage_id: self.stage_id,
            state_dimension: self.state_dimension,
            capacity: self.capacity,
            warm_start_count: self.warm_start_count,
            populated_count: self.populated_count,
            cuts: self.cut_views(),
            entity_manifest: self.entity_manifest@,
            cost_scale_factor: Some(self.cost_scale_factor),
            node_id: self.node_id,
            graph_stage_id: self.graph_stage_id,
            priced_state_date: self.priced_state_date,
        }
    }
}

/// A pool of cuts that was read. The indices of active cuts are not among it.
#[derive(Clone, Debug, PartialEq)]
pub struct StageCutsReadResult {
    /// The pool's id.
    pub stage_id: u32,
    /// The number of state dimensions.
    pub state_dimension: u32,
    /// How many slots the pool has.
    pub capacity: u32,
    /// How many slots came from an earlier artifact.
    pub warm_start_count: u32,
    /// How many slots are filled.
    pub populated_count: u32,
    /// The cuts.
    pub cuts: Vec<OwnedPolicyCutRecord>,
    /// The entity of each state dimension; empty where the buffer has none.
    pub entity_manifest: Vec<EntitySlot>,
    /// The cost scale of the study that wrote the pool, if the buffer has one.
    pub cost_scale_factor: Option<Float64>,
    /// The owning node.
    pub node_id: i32,
    /// The graph stage of the owning nodes.
    pub graph_stage_id: i32,
    /// The `YYYYMMDD` date that the cuts price.
    pub priced_state_date: i32,
}

impl View for StageCutsReadResult {
    type V = StageCutsView;

    open spec fn view(&self) -> StageCutsView {
        StageCutsView {
            stage_id: self.stage_id,
            state_dimension: self.state_dimension,
            capacity: self.capacity,
            warm_start_count: self.warm_start_count,
            populated_count: self.populated_count,
            cuts: owned_cuts(self.cuts@),
            entity_manifest: self.entity_manifest@,
            cost_scale_factor: self.cost_scale_factor,
            node_id: self.node_id,
            graph_stage_id: self.graph_stage_id,
            priced_state_date: self.priced_state_date,
        }
    }
}

// ── Bases ────────────────────────────────────────────────────────────────────

/// What a solver basis record holds.
#[verifier::ext_equal]
pub struct BasisView {
    /// The stage.
    pub stage_id: u32,
    /// The iteration that left the basis.
    pub iteration: u32,
    /// One status code per column.
    pub column_status: Seq<u8>,
    /// One status code per row.
    pub row_status: Seq<u8>,
    /// How many of the last rows are cut rows.
    pub num_cut_rows: u32,
}

/// A solver basis to write.
#[derive(Clone, Debug)]
pub struct PolicyBasisRecord<'a> {
    /// The stage.
    pub stage_id: u32,
    /// The iteration that left the basis.
    pub iteration: u32,
    /// One status code per column.
    pub column_status: &'a [u8],
    /// One status code per row.
    pub row_status: &'a [u8],
    /// How many of the last rows are cut rows.
    pub num_cut_rows: u32,
}

impl<'a> View for PolicyBasisRecord<'a> {
    type V = BasisView;

    open spec fn view(&self) -> BasisView {
        BasisView {
            stage_id: self.stage_id,
            iteration: self.iteration,
            column_status: self.column_status@,
            row_status: self.row_status@,
            num_cut_rows: self.num_cut_rows,
        }
    }
}

/// A solver basis that was read.
#[derive(Clone, Debug, PartialEq)]
pub struct OwnedPolicyBasisRecord {
    /// The stage.
    pub stage_id: u32,
    /// The iteration that left the basis.
    pub iteration: u32,
    /// One status code per column.
    pub column_status: Vec<u8>,
    /// One status code per row.
    pub row_status: Vec<u8>,
    /// How many of the last rows are cut rows.
    pub num_cut_rows: u32,
}

impl View for OwnedPolicyBasisRecord {
    type V = BasisView;

    open spec fn view(&self) -> BasisView {
        BasisView {
            stage_id: self.stage_id,
            iteration: self.iteration,
            column_status: self.column_status@,
            row_status: self.row_status@,
            num_cut_rows: self.num_cut_rows,
        }
    }
}

// ── Visited states ───────────────────────────────────────────────────────────

/// What a record of visited states holds.
#[verifier::ext_equal]
pub struct StageStatesView {
    /// The stage.
    pub stage_id: u32,
    /// The node.
    pub node_id: i32,
    /// The length of each state vector.
    pub state_dimension: u32,
    /// How many states there are.
    pub count: u32,
    /// The state vectors, one after the other.
    pub data: Seq<Float64>,
    /// The entity of each state dimension.
    pub entity_manifest: Seq<EntitySlot>,
}

/// Visited states to write.
#[derive(Clone, Debug)]
pub struct StageStatesPayload<'a> {
    /// The stage.
    pub stage_id: u32,
    /// The node.
    pub node_id: i32,
    /// The length of each state vector.
    pub state_dimension: u32,
    /// How many states there are.
    pub count: u32,
    /// The state vectors, one after the other.
    pub data: &'a [Float64],
    /// The entity of each state dimension; empty for none.
    pub entity_manifest: &'a [EntitySlot],
}

impl<'a> View for StageStatesPayload<'a> {
    type V = StageStatesView;

    open spec fn view(&self) -> StageStatesView {
        StageStatesView {
            stage_id: self.stage_id,
            node_id: self.node_id,
            state_dimension: self.state_dimension,
            count: self.count,
            data: self.data@,
            entity_manifest: self.entity_manifest@,
        }
    }
}

/// Visited states that were read.
#[derive(Clone, Debug, PartialEq)]
pub struct StageStatesReadResult {
    /// The stage.
    pub stage_id: u32,
    /// The node.
    pub node_id: i32,
    /// The length of each state vector.
    pub state_dimension: u32,
    /// How many states there are.
    pub count: u32,
    /// The state vectors, one after the other.
    pub data: Vec<Float64>,
    /// The entity of each state dimension; empty where the buffer has none.
    pub entity_manifest: Vec<EntitySlot>,
}

impl View for StageStatesReadResult {
    type V = StageStatesView;

    open spec fn view(&self) -> StageStatesView {
        StageStatesView {
            stage_id: self.stage_id,
            node_id: self.node_id,
            state_dimension: self.state_dimension,
            count: self.count,
            data: self.data@,
            entity_manifest: self.entity_manifest@,
        }
    }
}

// ── The checkpoint manifest ──────────────────────────────────────────────────

/// A node of the policy graph.
#[derive(Clone, Copy, Debug, PartialEq, Eq, Structural)]
pub struct ManifestNode {
    /// The node's id.
    pub id: i32,
    /// The stage it sits at.
    pub stage_id: i32,
    /// The pool that holds its cuts.
    pub pool_id: u32,
}

/// An edge of the policy graph.
#[derive(Clone, Copy, Debug, PartialEq, Eq, Structural)]
pub struct ManifestEdge {
    /// The node it leaves.
    pub source_id: i32,
    /// The node it enters.
    pub target_id: i32,
    /// The probability of taking it.
    pub probability: Float64,
}

/// The policy graph: its nodes with their pools, and its edges.
#[derive(Clone, Debug, PartialEq)]
pub struct GraphManifest {
    /// How many pools there are.
    pub n_pools: u32,
    /// The nodes.
    pub nodes: Vec<ManifestNode>,
    /// The edges.
    pub edges: Vec<ManifestEdge>,
}

impl Default for GraphManifest {
    /// The graph without nodes, edges and pools.
    fn default() -> (r: GraphManifest)
        ensures
            r.n_pools == 0,
            r.nodes@ == Seq::<ManifestNode>::empty(),
            r.edges@ == Seq::<ManifestEdge>::empty(),
    {
        GraphManifest { n_pools: 0, nodes: Vec::new(), edges: Vec::new() }
    }
}

/// What a hydro plant's season orders hold.
#[verifier::ext_equal]
pub struct HydroOrdersView {
    /// The hydro plant.
    pub hydro_id: i32,
    /// The order of each season.
    pub orders: Seq<u32>,
}

/// The autoregressive orders of one hydro plant, one per season.
#[derive(Clone, Debug, PartialEq)]
pub struct HydroSeasonOrders {
    /// The hydro plant.
    pub hydro_id: i32,
    /// The order of each season.
    pub orders: Vec<u32>,
}

impl View for HydroSeasonOrders {
    type V = HydroOrdersView;

    open spec fn view(&self) -> HydroOrdersView {
        HydroOrdersView { hydro_id: self.hydro_id, orders: self.orders@ }
    }
}

/// The views of season orders.
pub open spec fn order_views(orders: Seq<HydroSeasonOrders>) -> Seq<HydroOrdersView> {
    orders.map_values(|h: HydroSeasonOrders| h@)
}

/// What a season manifest holds.
#[verifier::ext_equal]
pub struct SeasonView {
    /// The season cycle's code.
    pub cycle_code: u8,
    /// How many seasons there are.
    pub n_seasons: u32,
    /// The orders of each hydro plant.
    pub hydro_orders: Seq<HydroOrdersView>,
}

impl SeasonView {
    /// The manifest where no season map is declared.
    pub open spec fn absent() -> SeasonView {
        SeasonView { cycle_code: SEASON_CYCLE_CODE_ABSENT, n_seasons: 0, hydro_orders: Seq::empty() }
    }

    /// The hydro ids ascend strictly.
    pub open spec fn ascending(self) -> bool {
        forall|i: int, j: int|
            0 <= i < j < self.hydro_orders.len() ==> (#[trigger] self.hydro_orders[i]).hydro_id < (
            #[trigger] self.hydro_orders[j]).hydro_id
    }

    /// Each hydro plant has one order per season.
    pub open spec fn complete(self) -> bool {
        forall|i: int|
            0 <= i < self.hydro_orders.len() ==> (#[trigger] self.hydro_orders[i]).orders.len()
                == self.n_seasons
    }
}

/// The season cycle and the autoregressive orders of a study.
#[derive(Clone, Debug, PartialEq)]
pub struct SeasonManifest {
    /// The season cycle's code.
    pub cycle_code: u8,
    /// How many seasons there are.
    pub n_seasons: u32,
    /// The orders of each hydro plant, by ascending hydro id.
    pub hydro_orders: Vec<HydroSeasonOrders>,
}

impl View for SeasonManifest {
    type V = SeasonView;

    open spec fn view(&self) -> SeasonView {
        SeasonView {
            cycle_code: self.cycle_code,
            n_seasons: self.n_seasons,
            hydro_orders: order_views(self.hydro_orders@),
        }
    }
}

impl Default for SeasonManifest {
    /// The manifest where no season map is declared.
    fn default() -> (r: SeasonManifest)
        ensures
            r@ == SeasonView::absent(),
    {
        let r = SeasonManifest {
            cycle_code: SEASON_CYCLE_CODE_ABSENT,
            n_seasons: 0,
            hydro_orders: Vec::new(),
        };
        proof {
            assert(r@.hydro_orders =~= Seq::empty());
        }
        r
    }
}

/// How the artifact was made.
#[derive(Clone, Debug, PartialEq)]
pub struct ProducerBlock {
    /// How many training iterations were completed.
    pub completed_iterations: u32,
    /// The lower bound after the last iteration.
    pub final_lower_bound: Float64,
    /// The last upper bound, if there is one.
    pub best_upper_bound: Option<Float64>,
    /// The iteration limit.
    pub max_iterations: u32,
    /// Forward passes per iteration.
    pub forward_passes: u32,
    /// How many cuts came from an earlier artifact.
    pub warm_start_cuts: u32,
    /// The same count per pool.
    pub warm_start_counts: Vec<u32>,
    /// The seed of the scenario sampler.
    pub rng_seed: u64,
    /// How many states were visited.
    pub total_visited_states: u64,
    /// The block mode of all stages, or `mixed`.
    pub training_block_mode: String,
    /// The block mode of each stage, for a mixed study.
    pub training_block_mode_per_stage: Vec<String>,
    /// The cost scale of the study, if it was recorded.
    pub cost_scale_factor: Option<Float64>,
}

/// The metadata of a whole checkpoint.
#[derive(Clone, Debug, PartialEq)]
pub struct CheckpointManifest {
    /// The format's version.
    pub format_version: u32,
    /// The version of the program that wrote the checkpoint.
    pub cobre_version: String,
    /// When it was written, in ISO 8601.
    pub created_at: String,
    /// How many stages the graph spans.
    pub num_stages: u32,
    /// The policy graph.
    pub graph_manifest: GraphManifest,
    /// How the artifact was made.
    pub producer: ProducerBlock,
    /// The season cycle and the autoregressive orders.
    pub season_manifest: SeasonManifest,
}

/// What a checkpoint manifest holds.
#[verifier::ext_equal]
pub struct ManifestView {
    /// The format's version.
    pub format_version: u32,
    /// The version of the program that wrote the checkpoint.
    pub cobre_version: Seq<char>,
    /// When it was written.
    pub created_at: Seq<char>,
    /// How many stages the graph spans.
    pub num_stages: u32,
    /// How many pools there are.
    pub n_pools: u32,
    /// The nodes of the graph.
    pub nodes: Seq<ManifestNode>,
    /// The edges of the graph.
    pub edges: Seq<ManifestEdge>,
    /// How many training iterations were completed.
    pub completed_iterations: u32,
    /// The lower bound after the last iteration.
    pub final_lower_bound: Float64,
    /// The last upper bound.
    pub best_upper_bound: Option<Float64>,
    /// The iteration limit.
    pub max_iterations: u32,
    /// Forward passes per iteration.
    pub forward_passes: u32,
    /// How many cuts came from an earlier artifact.
    pub warm_start_cuts: u32,
    /// The same count per pool.
    pub warm_start_counts: Seq<u32>,
    /// The seed of the scenario sampler.
    pub rng_seed: u64,
    /// How many states were visited.
    pub total_visited_states: u64,
    /// The block mode of all stages.
    pub training_block_mode: Seq<char>,
    /// The block mode of each stage.
    pub training_block_mode_per_stage: Seq<Seq<char>>,
    /// The cost scale of the study.
    pub cost_scale_factor: Option<Float64>,
    /// The season cycle and the autoregressive orders.
    pub season_manifest: SeasonView,
}

/// The texts of strings.
pub open spec fn texts(strings: Seq<String>) -> Seq<Seq<char>> {
    strings.map_values(|s: String| s@)
}

impl View for CheckpointManifest {
    type V = ManifestView;

    open spec fn view(&self) -> ManifestView {
        ManifestView {
            format_version: self.format_version,
            cobre_version: self.cobre_version@,
            created_at: self.created_at@,
            num_stages: self.num_stages,
            n_pools: self.graph_manifest.n_pools,
            nodes: self.graph_manifest.nodes@,
            edges: self.graph_manifest.edges@,
            completed_iterations: self.producer.completed_iterations,
            final_lower_bound: self.producer.final_lower_bound,
            best_upper_bound: self.producer.best_upper_bound,
            max_iterations: self.producer.max_iterations,
            forward_passes: self.producer.forward_passes,
            warm_start_cuts: self.producer.warm_start_cuts,
            warm_start_counts: self.producer.warm_start_counts@,
            rng_seed: self.producer.rng_seed,
            total_visited_states: self.producer.total_visited_states,
            training_block_mode: self.producer.training_block_mode@,
            training_block_mode_per_stage: texts(self.producer.training_block_mode_per_stage@),
            cost_scale_factor: self.producer.cost_scale_factor,
            season_manifest: self.season_manifest@,
        }
    }
}

/// A whole checkpoint that was read.
#[derive(Clone, Debug, PartialEq)]
pub struct PolicyCheckpoint {
    /// The manifest.
    pub metadata: CheckpointManifest,
    /// The pools of cuts, by ascending pool id.
    pub stage_cuts: Vec<StageCutsReadResult>,
    /// The bases, by ascending stage id.
    pub stage_bases: Vec<OwnedPolicyBasisRecord>,
    /// The visited states, by ascending stage id.
    pub stage_states: Vec<StageStatesReadResult>,
}

/// A slot without dates has the entity, the index and the state that it is given, the
/// byte of its family, and the least number for each date.
pub proof fn undated_slots_hold_what_they_are_given(
    family: StateFamily,
    entity_id: i32,
    subindex: u32,
    was_active: bool,
)
    ensures
        undated_slot(family, entity_id, subindex, was_active).entity_id == entity_id,
        undated_slot(family, entity_id, subindex, was_active).subindex == subindex,
        undated_slot(family, entity_id, subindex, was_active).was_active == was_active,
        undated_slot(family, entity_id, subindex, was_active).reference_date == i32::MIN,
        undated_slot(family, entity_id, subindex, was_active).interval_start == i32::MIN,
        undated_slot(family, entity_id, subindex, was_active).interval_end == i32::MIN,
        undated_slot(family, entity_id, subindex, was_active).entity_type == match family {
            StateFamily::HydroStorage => 0u8,
            StateFamily::HydroInflowLag => 1u8,
            StateFamily::AnticipatedThermalState => 2u8,
            StateFamily::HydroTransitBucket => 3u8,
        },
{
}

} // verus!
