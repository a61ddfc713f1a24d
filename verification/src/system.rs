//! What the dictionaries say of a system: its entities, its stages and its bounds.

use vstd::prelude::*;

use crate::entities::EntityId;
use crate::float::Float64;

verus! {

/// A hydro plant.
#[derive(Clone, Debug)]
pub struct Hydro {
    /// The plant.
    pub id: EntityId,
    /// Its name.
    pub name: String,
    /// The bus that it feeds.
    pub bus_id: EntityId,
}

/// A thermal plant.
#[derive(Clone, Debug)]
pub struct Thermal {
    /// The plant.
    pub id: EntityId,
    /// Its name.
    pub name: String,
    /// The bus that it feeds.
    pub bus_id: EntityId,
    /// How many stages ahead its dispatch is decided, where it is.
    pub lead_stages: Option<u32>,
}

/// A bus.
#[derive(Clone, Debug)]
pub struct Bus {
    /// The bus.
    pub id: EntityId,
    /// Its name.
    pub name: String,
}

/// A transmission line.
#[derive(Clone, Debug)]
pub struct Line {
    /// The line.
    pub id: EntityId,
    /// Its name.
    pub name: String,
}

/// A pumping station.
#[derive(Clone, Debug)]
pub struct PumpingStation {
    /// The station.
    pub id: EntityId,
    /// Its name.
    pub name: String,
    /// The bus that feeds it.
    pub bus_id: EntityId,
}

/// An energy contract.
#[derive(Clone, Debug)]
pub struct EnergyContract {
    /// The contract.
    pub id: EntityId,
    /// Its name.
    pub name: String,
    /// The bus that it is settled at.
    pub bus_id: EntityId,
}

/// A source whose generation cannot be controlled.
#[derive(Clone, Debug)]
pub struct NonControllableSource {
    /// The source.
    pub id: EntityId,
    /// Its name.
    pub name: String,
    /// The bus that it feeds.
    pub bus_id: EntityId,
}

/// A model of the inflow to a hydro plant at some stage.
#[derive(Clone, Copy, Debug)]
pub struct InflowModel {
    /// The plant.
    pub hydro_id: EntityId,
    /// How many past inflows the model looks at.
    pub ar_order: usize,
}

/// The bounds of a hydro plant at a stage.
#[derive(Clone, Copy, Debug)]
pub struct HydroStageBounds {
    /// The least storage, in hm3.
    pub min_storage_hm3: Float64,
    /// The greatest storage, in hm3.
    pub max_storage_hm3: Float64,
    /// The least turbined flow, in m3/s.
    pub min_turbined_m3s: Float64,
    /// The greatest turbined flow, in m3/s.
    pub max_turbined_m3s: Float64,
    /// The least outflow, in m3/s.
    pub min_outflow_m3s: Float64,
    /// The greatest outflow, in m3/s, where there is one.
    pub max_outflow_m3s: Option<Float64>,
    /// The least generation, in MW.
    pub min_generation_mw: Float64,
    /// The greatest generation, in MW.
    pub max_generation_mw: Float64,
}

/// The bounds of a thermal plant at a stage.
#[derive(Clone, Copy, Debug)]
pub struct ThermalStageBounds {
    /// The least generation, in MW.
    pub min_generation_mw: Float64,
    /// The greatest generation, in MW.
    pub max_generation_mw: Float64,
}

/// The bounds of a line at a stage.
#[derive(Clone, Copy, Debug)]
pub struct LineStageBounds {
    /// The greatest flow in the direct direction, in MW.
    pub direct_mw: Float64,
}

/// The bounds of a pumping station at a stage.
#[derive(Clone, Copy, Debug)]
pub struct PumpingStageBounds {
    /// The least flow, in m3/s.
    pub min_flow_m3s: Float64,
    /// The greatest flow, in m3/s.
    pub max_flow_m3s: Float64,
}

/// The bounds of a contract at a stage.
#[derive(Clone, Copy, Debug)]
pub struct ContractStageBounds {
    /// The least power, in MW.
    pub min_mw: Float64,
    /// The greatest power, in MW.
    pub max_mw: Float64,
}

/// The bounds of all entities: one list per entity, one entry per stage.
#[derive(Clone, Debug)]
pub struct ResolvedBounds {
    /// How many stages have bounds.
    pub n_stages: usize,
    /// The bounds of the hydro plants.
    pub hydros: Vec<Vec<HydroStageBounds>>,
    /// The bounds of the thermal plants.
    pub thermals: Vec<Vec<ThermalStageBounds>>,
    /// The bounds of the lines.
    pub lines: Vec<Vec<LineStageBounds>>,
    /// The bounds of the pumping stations.
    pub pumping_stations: Vec<Vec<PumpingStageBounds>>,
    /// The bounds of the contracts.
    pub contracts: Vec<Vec<ContractStageBounds>>,
}

/// A system. Its lists are in ascending order of the identifiers.
#[derive(Clone, Debug)]
pub struct System {
    /// The hydro plants.
    pub hydros: Vec<Hydro>,
    /// The thermal plants.
    pub thermals: Vec<Thermal>,
    /// The buses.
    pub buses: Vec<Bus>,
    /// The lines.
    pub lines: Vec<Line>,
    /// The pumping stations.
    pub pumping_stations: Vec<PumpingStation>,
    /// The contracts.
    pub contracts: Vec<EnergyContract>,
    /// The non-controllable sources.
    pub non_controllable_sources: Vec<NonControllableSource>,
    /// The identifiers of the stages, in order of time.
    pub stage_ids: Vec<i32>,
    /// The inflow models.
    pub inflow_models: Vec<InflowModel>,
    /// The bounds.
    pub bounds: ResolvedBounds,
}

/// There is one list per entity, with one entry per stage.
pub open spec fn covers<T>(bounds: Seq<Vec<T>>, entities: nat, stages: usize) -> bool {
    &&& bounds.len() == entities
    &&& forall|k: int| 0 <= k < bounds.len() ==> (#[trigger] bounds[k])@.len() == stages
}

impl System {
    /// Every entity has bounds at every stage that has them, and those stages have
    /// identifiers.
    pub open spec fn well_formed(self) -> bool {
        let n = self.bounds.n_stages;
        &&& n <= self.stage_ids@.len()
        &&& covers(self.bounds.hydros@, self.hydros@.len(), n)
        &&& covers(self.bounds.thermals@, self.thermals@.len(), n)
        &&& covers(self.bounds.lines@, self.lines@.len(), n)
        &&& covers(self.bounds.pumping_stations@, self.pumping_stations@.len(), n)
        &&& covers(self.bounds.contracts@, self.contracts@.len(), n)
    }

    /// The lists are in ascending order of the identifiers.
    pub open spec fn in_order(self) -> bool {
        &&& forall|i: int, j: int|
            0 <= i < j < self.hydros@.len() ==> (#[trigger] self.hydros@[i]).id.0 <= (
            #[trigger] self.hydros@[j]).id.0
        &&& forall|i: int, j: int|
            0 <= i < j < self.thermals@.len() ==> (#[trigger] self.thermals@[i]).id.0 <= (
            #[trigger] self.thermals@[j]).id.0
        &&& forall|i: int, j: int|
            0 <= i < j < self.buses@.len() ==> (#[trigger] self.buses@[i]).id.0 <= (
            #[trigger] self.buses@[j]).id.0
        &&& forall|i: int, j: int|
            0 <= i < j < self.lines@.len() ==> (#[trigger] self.lines@[i]).id.0 <= (
            #[trigger] self.lines@[j]).id.0
        &&& forall|i: int, j: int|
            0 <= i < j < self.pumping_stations@.len() ==> (#[trigger] self.pumping_stations@[i]).id.0
                <= (#[trigger] self.pumping_stations@[j]).id.0
        &&& forall|i: int, j: int|
            0 <= i < j < self.contracts@.len() ==> (#[trigger] self.contracts@[i]).id.0 <= (
            #[trigger] self.contracts@[j]).id.0
        &&& forall|i: int, j: int|
            0 <= i < j < self.non_controllable_sources@.len() ==> (
            #[trigger] self.non_controllable_sources@[i]).id.0 <= (
            #[trigger] self.non_controllable_sources@[j]).id.0
    }
}

} // verus!
