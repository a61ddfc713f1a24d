//! The dictionary of state variables: what each entry of the state vector is.
//!
//! The entries are the storages of the hydro plants, then their past inflows, then
//! the decisions that anticipated thermal plants have made and not yet carried out.

use vstd::prelude::*;

use crate::system::{InflowModel, System, Thermal};

verus! {

/// One entry of the state vector.
#[derive(Clone, Copy, Debug, PartialEq, Eq, Structural)]
pub enum StateVariable {
    /// The storage of a hydro plant.
    Storage {
        /// The plant.
        hydro_id: i32,
    },
    /// A past inflow of a hydro plant.
    InflowLag {
        /// The plant.
        hydro_id: i32,
        /// How many stages ago, from 1.
        lag_index: usize,
    },
    /// A decision of an anticipated thermal plant. Slots from `lead_stages` on are
    /// padding.
    AnticipatedState {
        /// The plant.
        thermal_id: i32,
        /// The slot, from 0.
        slot_index: usize,
        /// How many stages ahead the plant decides.
        lead_stages: u32,
    },
}

impl StateVariable {
    /// The name of the entry's kind.
    pub open spec fn kind_text(self) -> Seq<char> {
        match self {
            StateVariable::Storage { .. } => "storage"@,
            StateVariable::InflowLag { .. } => "inflow_lag"@,
            StateVariable::AnticipatedState { .. } => "anticipated_state"@,
        }
    }

    /// The name of the entry's kind.
    pub fn kind_name(&self) -> (r: &'static str)
        ensures
            r@ == self.kind_text(),
    {
        match self {
            StateVariable::Storage { .. } => "storage",
            StateVariable::InflowLag { .. } => "inflow_lag",
            StateVariable::AnticipatedState { .. } => "anticipated_state",
        }
    }

    /// The type of entity that the entry belongs to.
    pub open spec fn entity_type_text(self) -> Seq<char> {
        match self {
            StateVariable::AnticipatedState { .. } => "thermal"@,
            _ => "hydro"@,
        }
    }

    /// The type of entity that the entry belongs to.
    pub fn entity_type(&self) -> (r: &'static str)
        ensures
            r@ == self.entity_type_text(),
    {
        match self {
            StateVariable::AnticipatedState { .. } => "thermal",
            _ => "hydro",
        }
    }

    /// The entity that the entry belongs to.
    pub open spec fn entity(self) -> i32 {
        match self {
            StateVariable::Storage { hydro_id } => hydro_id,
            StateVariable::InflowLag { hydro_id, .. } => hydro_id,
            StateVariable::AnticipatedState { thermal_id, .. } => thermal_id,
        }
    }

    /// The entity that the entry belongs to.
    pub fn entity_id(&self) -> (r: i32)
        ensures
            r == self.entity(),
    {
        match self {
            StateVariable::Storage { hydro_id } => *hydro_id,
            StateVariable::InflowLag { hydro_id, .. } => *hydro_id,
            StateVariable::AnticipatedState { thermal_id, .. } => *thermal_id,
        }
    }

    /// The entry's unit.
    pub open spec fn unit_text(self) -> Seq<char> {
        match self {
            StateVariable::Storage { .. } => "hm3"@,
            StateVariable::InflowLag { .. } => "m3/s"@,
            StateVariable::AnticipatedState { .. } => "MW"@,
        }
    }

    /// The entry's unit.
    pub fn unit(&self) -> (r: &'static str)
        ensures
            r@ == self.unit_text(),
    {
        match self {
            StateVariable::Storage { .. } => "hm3",
            StateVariable::InflowLag { .. } => "m3/s",
            StateVariable::AnticipatedState { .. } => "MW",
        }
    }
}

// ── Which entries there are ──────────────────────────────────────────────────

/// The storages.
pub open spec fn storage_entries(system: System) -> Seq<StateVariable> {
    Seq::new(
        system.hydros@.len(),
        |h: int| StateVariable::Storage { hydro_id: system.hydros@[h].id.0 },
    )
}

/// How many past inflows of a hydro plant the first `n` models look at: the most that
/// one of the plant's models does.
pub open spec fn highest_order(models: Seq<InflowModel>, hydro_id: i32, n: int) -> usize
    decreases n,
{
    if n <= 0 {
        0
    } else {
        let before = highest_order(models, hydro_id, n - 1);
        let model = models[n - 1];
        if model.hydro_id.0 == hydro_id && model.ar_order > before {
            model.ar_order
        } else {
            before
        }
    }
}

/// How many past inflows of the `h`-th hydro plant the state has.
pub open spec fn lags_of(system: System, h: int) -> usize {
    highest_order(
        system.inflow_models@,
        system.hydros@[h].id.0,
        system.inflow_models@.len() as int,
    )
}

/// The past inflows of the `h`-th hydro plant, the latest first.
pub open spec fn lag_entries(system: System, h: int) -> Seq<StateVariable> {
    Seq::new(
        lags_of(system, h) as nat,
        |l: int|
            StateVariable::InflowLag {
                hydro_id: system.hydros@[h].id.0,
                lag_index: (l + 1) as usize,
            },
    )
}

/// The past inflows of the first `n` hydro plants.
pub open spec fn all_lag_entries(system: System, n: int) -> Seq<StateVariable>
    decreases n,
{
    if n <= 0 {
        Seq::empty()
    } else {
        all_lag_entries(system, n - 1) + lag_entries(system, n - 1)
    }
}

/// The plants among the first `n` that decide ahead, and how many stages.
pub open spec fn anticipated(thermals: Seq<Thermal>, n: int) -> Seq<(i32, u32)>
    decreases n,
{
    if n <= 0 {
        Seq::empty()
    } else {
        match thermals[n - 1].lead_stages {
            Some(lead) => anticipated(thermals, n - 1).push((thermals[n - 1].id.0, lead)),
            None => anticipated(thermals, n - 1),
        }
    }
}

/// The plants of a system that decide ahead.
pub open spec fn anticipated_plants(system: System) -> Seq<(i32, u32)> {
    anticipated(system.thermals@, system.thermals@.len() as int)
}

/// The most stages that one of the first `n` plants decides ahead.
pub open spec fn longest_lead(plants: Seq<(i32, u32)>, n: int) -> u32
    decreases n,
{
    if n <= 0 {
        0
    } else {
        let before = longest_lead(plants, n - 1);
        if plants[n - 1].1 > before {
            plants[n - 1].1
        } else {
            before
        }
    }
}

/// How many slots each anticipated plant has.
pub open spec fn slots(system: System) -> u32 {
    longest_lead(anticipated_plants(system), anticipated_plants(system).len() as int)
}

/// The entries of one slot: one per plant.
pub open spec fn slot_entries(plants: Seq<(i32, u32)>, slot: int) -> Seq<StateVariable> {
    Seq::new(
        plants.len(),
        |p: int|
            StateVariable::AnticipatedState {
                thermal_id: plants[p].0,
                slot_index: slot as usize,
                lead_stages: plants[p].1,
            },
    )
}

/// The entries of the first `n` slots, slot by slot.
pub open spec fn all_slot_entries(plants: Seq<(i32, u32)>, n: int) -> Seq<StateVariable>
    decreases n,
{
    if n <= 0 {
        Seq::empty()
    } else {
        all_slot_entries(plants, n - 1) + slot_entries(plants, n - 1)
    }
}

/// The entries of a system's state vector.
pub open spec fn state_variables_of(system: System) -> Seq<StateVariable> {
    storage_entries(system) + all_lag_entries(system, system.hydros@.len() as int)
        + all_slot_entries(anticipated_plants(system), slots(system) as int)
}

// ── Listing them ─────────────────────────────────────────────────────────────

fn find_order(models: &Vec<InflowModel>, hydro_id: i32) -> (r: usize)
    ensures
        r == highest_order(models@, hydro_id, models@.len() as int),
{
    let mut order: usize = 0;
    for i in 0..models.len()
        invariant
            order == highest_order(models@, hydro_id, i as int),
    {
        if models[i].hydro_id.0 == hydro_id && models[i].ar_order > order {
            order = models[i].ar_order;
        }
    }
    order
}

fn find_anticipated(thermals: &Vec<Thermal>) -> (r: Vec<(i32, u32)>)
    ensures
        r@ == anticipated(thermals@, thermals@.len() as int),
{
    let mut plants: Vec<(i32, u32)> = Vec::new();
    for i in 0..thermals.len()
        invariant
            plants@ == anticipated(thermals@, i as int),
    {
        if let Some(lead) = thermals[i].lead_stages {
            plants.push((thermals[i].id.0, lead));
        }
    }
    plants
}

fn find_longest_lead(plants: &Vec<(i32, u32)>) -> (r: u32)
    ensures
        r == longest_lead(plants@, plants@.len() as int),
{
    let mut longest: u32 = 0;
    for i in 0..plants.len()
        invariant
            longest == longest_lead(plants@, i as int),
    {
        if plants[i].1 > longest {
            longest = plants[i].1;
        }
    }
    longest
}

fn push_lags(entries: &mut Vec<StateVariable>, system: &System, h: usize)
    requires
        h < system.hydros@.len(),
    ensures
        final(entries)@ == old(entries)@ + lag_entries(*system, h as int),
{
    let hydro_id: i32 = system.hydros[h].id.0;
    let order: usize = find_order(&system.inflow_models, hydro_id);
    let ghost before = entries@;
    let ghost lags = lag_entries(*system, h as int);
    proof {
        assert(before + lags.take(0) =~= before);
    }
    for l in 0..order
        invariant
            order == lags_of(*system, h as int),
            hydro_id == system.hydros@[h as int].id.0,
            lags == lag_entries(*system, h as int),
            entries@ == before + lags.take(l as int),
    {
        entries.push(StateVariable::InflowLag { hydro_id, lag_index: l + 1 });
        proof {
            assert(entries@ =~= before + lags.take(l + 1));
        }
    }
    proof {
        assert(lags.take(order as int) =~= lags);
    }
}

fn push_slot(entries: &mut Vec<StateVariable>, plants: &Vec<(i32, u32)>, slot: usize)
    ensures
        final(entries)@ == old(entries)@ + slot_entries(plants@, slot as int),
{
    let ghost before = entries@;
    let ghost all = slot_entries(plants@, slot as int);
    proof {
        assert(before + all.take(0) =~= before);
    }
    for p in 0..plants.len()
        invariant
            all == slot_entries(plants@, slot as int),
            entries@ == before + all.take(p as int),
    {
        entries.push(
            StateVariable::AnticipatedState {
                thermal_id: plants[p].0,
                slot_index: slot,
                lead_stages: plants[p].1,
            },
        );
        proof {
            assert(entries@ =~= before + all.take(p + 1));
        }
    }
    proof {
        assert(all.take(plants@.len() as int) =~= all);
    }
}

/// Lists the entries of a system's state vector.
pub fn state_variables(system: &System) -> (r: Vec<StateVariable>)
    ensures
        r@ == state_variables_of(*system),
{
    let mut r: Vec<StateVariable> = Vec::new();
    let ghost storages = storage_entries(*system);
    for h in 0..system.hydros.len()
        invariant
            storages == storage_entries(*system),
            r@ == storages.take(h as int),
    {
        r.push(StateVariable::Storage { hydro_id: system.hydros[h].id.0 });
        proof {
            assert(r@ =~= storages.take(h + 1));
        }
    }
    proof {
        assert(r@ =~= storages + all_lag_entries(*system, 0));
    }
    for h in 0..system.hydros.len()
        invariant
            r@ == storages + all_lag_entries(*system, h as int),
    {
        push_lags(&mut r, system, h);
        proof {
            assert(r@ =~= storages + all_lag_entries(*system, h + 1));
        }
    }
    let plants: Vec<(i32, u32)> = find_anticipated(&system.thermals);
    let k_max: usize = find_longest_lead(&plants) as usize;
    let ghost before = r@;
    proof {
        assert(r@ =~= before + all_slot_entries(plants@, 0));
    }
    for slot in 0..k_max
        invariant
            r@ == before + all_slot_entries(plants@, slot as int),
    {
        push_slot(&mut r, &plants, slot);
        proof {
            assert(r@ =~= before + all_slot_entries(plants@, slot + 1));
        }
    }
    r
}

// ── Laws ─────────────────────────────────────────────────────────────────────

/// How many past inflows the first `n` hydro plants have.
pub open spec fn lag_count(system: System, n: int) -> nat
    decreases n,
{
    if n <= 0 {
        0
    } else {
        lag_count(system, n - 1) + lags_of(system, n - 1) as nat
    }
}

proof fn lags_have_len(system: System, n: int)
    ensures
        all_lag_entries(system, n).len() == lag_count(system, n),
    decreases n,
{
    if n > 0 {
        lags_have_len(system, n - 1);
    }
}

proof fn slots_have_len(plants: Seq<(i32, u32)>, n: int)
    requires
        0 <= n,
    ensures
        all_slot_entries(plants, n).len() == n * plants.len(),
    decreases n,
{
    if n > 0 {
        slots_have_len(plants, n - 1);
        assert((n - 1) * plants.len() + plants.len() == n * plants.len()) by (nonlinear_arith);
    } else {
        assert(n * plants.len() == 0) by (nonlinear_arith)
            requires
                n == 0,
        ;
    }
}

proof fn slot_is_at(plants: Seq<(i32, u32)>, n: int, slot: int, p: int)
    requires
        0 <= slot < n,
        0 <= p < plants.len(),
    ensures
        0 <= slot * plants.len() + p < all_slot_entries(plants, n).len(),
        all_slot_entries(plants, n)[slot * plants.len() + p] == slot_entries(plants, slot)[p],
    decreases n,
{
    slots_have_len(plants, n - 1);
    slots_have_len(plants, n);
    assert(0 <= slot * plants.len()) by (nonlinear_arith)
        requires
            0 <= slot,
    ;
    assert(slot * plants.len() + p < n * plants.len()) by (nonlinear_arith)
        requires
            slot < n,
            p < plants.len(),
            0 <= p,
    ;
    if slot < n - 1 {
        slot_is_at(plants, n - 1, slot, p);
    }
}

/// The state vector has one entry per hydro plant, one per past inflow and one per
/// anticipated plant and slot.
pub proof fn state_vector_len(system: System)
    ensures
        state_variables_of(system).len() == system.hydros@.len() + lag_count(
            system,
            system.hydros@.len() as int,
        ) + slots(system) * anticipated_plants(system).len(),
{
    lags_have_len(system, system.hydros@.len() as int);
    slots_have_len(anticipated_plants(system), slots(system) as int);
}

/// The entries of anticipated plants are laid out slot by slot: the entry of plant
/// `p` in a slot is at `start + slot * plants + p`.
pub proof fn slots_come_one_after_the_other(system: System, slot: int, p: int)
    requires
        0 <= slot < slots(system),
        0 <= p < anticipated_plants(system).len(),
    ensures
        ({
            let plants = anticipated_plants(system);
            let start = system.hydros@.len() + lag_count(system, system.hydros@.len() as int);
            let at = start + slot * plants.len() + p;
            &&& 0 <= at < state_variables_of(system).len()
            &&& state_variables_of(system)[at] == (StateVariable::AnticipatedState {
                thermal_id: plants[p].0,
                slot_index: slot as usize,
                lead_stages: plants[p].1,
            })
        }),
{
    state_vector_len(system);
    lags_have_len(system, system.hydros@.len() as int);
    slot_is_at(anticipated_plants(system), slots(system) as int, slot, p);
}

/// No plant decides further ahead than there are slots.
pub proof fn every_lead_has_its_slots(system: System, p: int)
    requires
        0 <= p < anticipated_plants(system).len(),
    ensures
        anticipated_plants(system)[p].1 <= slots(system),
{
    lead_is_bounded(anticipated_plants(system), anticipated_plants(system).len() as int, p);
}

proof fn lead_is_bounded(plants: Seq<(i32, u32)>, n: int, p: int)
    requires
        0 <= p < n <= plants.len(),
    ensures
        plants[p].1 <= longest_lead(plants, n),
    decreases n,
{
    if p < n - 1 {
        lead_is_bounded(plants, n - 1, p);
    }
}

/// The first entries are the storages of the hydro plants, in the system's order: entry
/// `h` is that of the plant with the id of the `h`-th, and belongs to it.
pub proof fn storages_come_first(system: System, h: int)
    requires
        0 <= h < system.hydros@.len(),
    ensures
        h < state_variables_of(system).len(),
        state_variables_of(system)[h] == (StateVariable::Storage {
            hydro_id: system.hydros@[h].id.0,
        }),
        state_variables_of(system)[h].entity() == system.hydros@[h].id.0,
{
    lags_have_len(system, system.hydros@.len() as int);
}

/// How many past inflows of a plant the state has is the most that one of the inflow
/// models of that plant looks at, and zero where it has no model.
pub proof fn lags_are_the_highest_order(system: System, h: int)
    requires
        0 <= h < system.hydros@.len(),
    ensures
        forall|m: int|
            0 <= m < system.inflow_models@.len() && (
            #[trigger] system.inflow_models@[m]).hydro_id == system.hydros@[h].id
                ==> system.inflow_models@[m].ar_order <= lags_of(system, h),
        lags_of(system, h) == 0 || exists|m: int|
            0 <= m < system.inflow_models@.len() && (
            #[trigger] system.inflow_models@[m]).hydro_id == system.hydros@[h].id
                && system.inflow_models@[m].ar_order == lags_of(system, h),
{
    order_is_highest(
        system.inflow_models@,
        system.hydros@[h].id.0,
        system.inflow_models@.len() as int,
    );
    if lags_of(system, h) != 0 {
        let m = choose|m: int|
            0 <= m < system.inflow_models@.len() && (
            #[trigger] system.inflow_models@[m]).hydro_id.0 == system.hydros@[h].id.0
                && system.inflow_models@[m].ar_order == lags_of(system, h);
        assert(system.inflow_models@[m].hydro_id == system.hydros@[h].id);
    }
}

proof fn order_is_highest(models: Seq<InflowModel>, hydro_id: i32, n: int)
    requires
        0 <= n <= models.len(),
    ensures
        forall|m: int|
            0 <= m < n && (#[trigger] models[m]).hydro_id.0 == hydro_id ==> models[m].ar_order
                <= highest_order(models, hydro_id, n),
        highest_order(models, hydro_id, n) == 0 || exists|m: int|
            0 <= m < n && (#[trigger] models[m]).hydro_id.0 == hydro_id && models[m].ar_order
                == highest_order(models, hydro_id, n),
    decreases n,
{
    if n > 0 {
        order_is_highest(models, hydro_id, n - 1);
        let before = highest_order(models, hydro_id, n - 1);
        if models[n - 1].hydro_id.0 == hydro_id && models[n - 1].ar_order > before {
            assert(models[n - 1].ar_order == highest_order(models, hydro_id, n));
        } else if before != 0 {
            let m = choose|m: int|
                0 <= m < n - 1 && (#[trigger] models[m]).hydro_id.0 == hydro_id
                    && models[m].ar_order == before;
            assert(models[m].ar_order == highest_order(models, hydro_id, n));
        }
    }
}

/// After the storages come the past inflows, plant by plant in the system's order, each
/// plant's from one stage ago on: the inflow of the `h`-th plant `lag` stages ago stands
/// after those of the plants before it and its own later ones.
pub proof fn lags_follow_the_storages(system: System, h: int, lag: int)
    requires
        0 <= h < system.hydros@.len(),
        1 <= lag <= lags_of(system, h),
    ensures
        ({
            let at = system.hydros@.len() + lag_count(system, h) + lag - 1;
            &&& 0 <= at < state_variables_of(system).len()
            &&& state_variables_of(system)[at] == (StateVariable::InflowLag {
                hydro_id: system.hydros@[h].id.0,
                lag_index: lag as usize,
            })
            &&& state_variables_of(system)[at].entity() == system.hydros@[h].id.0
        }),
{
    let n = system.hydros@.len() as int;
    lags_have_len(system, n);
    lag_is_at(system, n, h, lag - 1);
}

proof fn lag_is_at(system: System, n: int, h: int, l: int)
    requires
        0 <= h < n,
        0 <= l < lags_of(system, h),
    ensures
        lag_count(system, h) + l < all_lag_entries(system, n).len(),
        all_lag_entries(system, n)[lag_count(system, h) + l] == lag_entries(system, h)[l],
    decreases n,
{
    lags_have_len(system, n - 1);
    if h < n - 1 {
        lag_is_at(system, n - 1, h, l);
    }
}

/// How many of the first `t` thermal plants decide ahead.
pub open spec fn deciding_ahead(thermals: Seq<Thermal>, t: int) -> nat
    decreases t,
{
    if t <= 0 {
        0
    } else if thermals[t - 1].lead_stages is Some {
        deciding_ahead(thermals, t - 1) + 1
    } else {
        deciding_ahead(thermals, t - 1)
    }
}

proof fn anticipated_have_len(thermals: Seq<Thermal>, n: int)
    ensures
        anticipated(thermals, n).len() == deciding_ahead(thermals, n),
    decreases n,
{
    if n > 0 {
        anticipated_have_len(thermals, n - 1);
    }
}

proof fn plant_is_at(thermals: Seq<Thermal>, n: int, t: int)
    requires
        0 <= t < n,
        thermals[t].lead_stages is Some,
    ensures
        deciding_ahead(thermals, t) < anticipated(thermals, n).len(),
        anticipated(thermals, n)[deciding_ahead(thermals, t) as int] == (
            thermals[t].id.0,
            thermals[t].lead_stages->0,
        ),
    decreases n,
{
    anticipated_have_len(thermals, n - 1);
    if t < n - 1 {
        plant_is_at(thermals, n - 1, t);
    }
}

proof fn plant_comes_from(thermals: Seq<Thermal>, n: int, p: int) -> (t: int)
    requires
        0 <= n <= thermals.len(),
        0 <= p < anticipated(thermals, n).len(),
    ensures
        0 <= t < n,
        thermals[t].lead_stages is Some,
        anticipated(thermals, n)[p] == (thermals[t].id.0, thermals[t].lead_stages->0),
    decreases n,
{
    if thermals[n - 1].lead_stages is Some && p == anticipated(thermals, n).len() - 1 {
        n - 1
    } else {
        plant_comes_from(thermals, n - 1, p)
    }
}

/// Last come the slots, slot by slot. In each, the thermal plants that decide ahead
/// follow each other in the system's order, each with its own id and its own lead, and
/// no slot is missing up to the longest lead.
pub proof fn slots_belong_to_their_plants(system: System, slot: int, t: int)
    requires
        0 <= slot < slots(system),
        0 <= t < system.thermals@.len(),
        system.thermals@[t].lead_stages is Some,
    ensures
        ({
            let thermals = system.thermals@;
            let start = system.hydros@.len() + lag_count(system, system.hydros@.len() as int);
            let at = start + slot * deciding_ahead(thermals, thermals.len() as int)
                + deciding_ahead(thermals, t);
            &&& 0 <= at < state_variables_of(system).len()
            &&& state_variables_of(system)[at] == (StateVariable::AnticipatedState {
                thermal_id: thermals[t].id.0,
                slot_index: slot as usize,
                lead_stages: thermals[t].lead_stages->0,
            })
            &&& state_variables_of(system)[at].entity() == thermals[t].id.0
        }),
{
    let n = system.thermals@.len() as int;
    plant_is_at(system.thermals@, n, t);
    anticipated_have_len(system.thermals@, n);
    slots_come_one_after_the_other(
        system,
        slot,
        deciding_ahead(system.thermals@, t) as int,
    );
}

/// There are as many slots as the longest lead has stages: none is longer, and one plant
/// has it where there are any.
pub proof fn slots_are_the_longest_lead(system: System)
    ensures
        forall|t: int|
            0 <= t < system.thermals@.len() && (#[trigger] system.thermals@[t]).lead_stages is Some
                ==> system.thermals@[t].lead_stages->0 <= slots(system),
        slots(system) == 0 || exists|t: int|
            0 <= t < system.thermals@.len() && (#[trigger] system.thermals@[t]).lead_stages == Some(
                slots(system),
            ),
{
    let n = system.thermals@.len() as int;
    let plants = anticipated_plants(system);
    assert forall|t: int|
        0 <= t < n && (
        #[trigger] system.thermals@[t]).lead_stages is Some implies system.thermals@[t].lead_stages->0
        <= slots(system) by {
        plant_is_at(system.thermals@, n, t);
        lead_is_bounded(
            plants,
            plants.len() as int,
            deciding_ahead(system.thermals@, t) as int,
        );
    }
    if slots(system) != 0 {
        let p = longest_is_reached(plants, plants.len() as int);
        let t = plant_comes_from(system.thermals@, n, p);
        assert(system.thermals@[t].lead_stages == Some(slots(system)));
    }
}

proof fn longest_is_reached(plants: Seq<(i32, u32)>, n: int) -> (p: int)
    requires
        0 <= n <= plants.len(),
        longest_lead(plants, n) != 0,
    ensures
        0 <= p < n,
        plants[p].1 == longest_lead(plants, n),
    decreases n,
{
    if plants[n - 1].1 > longest_lead(plants, n - 1) {
        n - 1
    } else {
        longest_is_reached(plants, n - 1)
    }
}

/// An entry of a thermal plant is in MW, one of a hydro plant is its storage in hm3 or
/// an inflow in m3/s, and the three kinds have their own names.
pub proof fn entries_are_labelled(entry: StateVariable)
    ensures
        entry.entity_type_text() == "thermal"@ <==> entry is AnticipatedState,
        entry.entity_type_text() == "hydro"@ <==> !(entry is AnticipatedState),
        entry.kind_text() == "storage"@ <==> entry is Storage,
        entry.kind_text() == "inflow_lag"@ <==> entry is InflowLag,
        entry.kind_text() == "anticipated_state"@ <==> entry is AnticipatedState,
        entry.unit_text() == "hm3"@ <==> entry is Storage,
        entry.unit_text() == "m3/s"@ <==> entry is InflowLag,
        entry.unit_text() == "MW"@ <==> entry is AnticipatedState,
{
    reveal_strlit("thermal");
    reveal_strlit("hydro");
    reveal_strlit("storage");
    reveal_strlit("inflow_lag");
    reveal_strlit("anticipated_state");
    reveal_strlit("hm3");
    reveal_strlit("m3/s");
    reveal_strlit("MW");
    assert("thermal"@.len() == 7 && "hydro"@.len() == 5);
    assert("storage"@.len() == 7 && "inflow_lag"@.len() == 10 && "anticipated_state"@.len() == 17);
    assert("hm3"@.len() == 3 && "m3/s"@.len() == 4 && "MW"@.len() == 2);
}

} // verus!
