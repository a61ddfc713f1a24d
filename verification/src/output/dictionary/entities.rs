//! The dictionary of entities: one row per entity of a system.

use vstd::prelude::*;

use crate::output::dictionary::codes;
use crate::system::{
    Bus, EnergyContract, Hydro, Line, NonControllableSource, PumpingStation, System, Thermal,
};

verus! {

/// One row of the dictionary.
#[derive(Clone, Debug, PartialEq)]
pub struct EntityRow {
    /// What the entity is, by its code.
    pub entity_type_code: i8,
    /// The entity.
    pub entity_id: i32,
    /// Its name.
    pub name: String,
    /// Its bus: a bus stands at itself, and a line, which joins two, at -1.
    pub bus_id: i32,
    /// The system that it belongs to: there is one, 0.
    pub system_id: i32,
}

/// What an [`EntityRow`] holds.
#[verifier::ext_equal]
pub struct EntityRowView {
    /// What the entity is, by its code.
    pub entity_type_code: i8,
    /// The entity.
    pub entity_id: i32,
    /// Its name.
    pub name: Seq<char>,
    /// Its bus.
    pub bus_id: i32,
    /// The system that it belongs to.
    pub system_id: i32,
}

impl View for EntityRow {
    type V = EntityRowView;

    open spec fn view(&self) -> EntityRowView {
        EntityRowView {
            entity_type_code: self.entity_type_code,
            entity_id: self.entity_id,
            name: self.name@,
            bus_id: self.bus_id,
            system_id: self.system_id,
        }
    }
}

/// The views of rows.
pub open spec fn row_views(rows: Seq<EntityRow>) -> Seq<EntityRowView> {
    rows.map_values(|r: EntityRow| r@)
}

/// The row of an entity.
pub open spec fn entity_row(code: i8, id: i32, name: Seq<char>, bus: i32) -> EntityRowView {
    EntityRowView { entity_type_code: code, entity_id: id, name, bus_id: bus, system_id: 0 }
}

/// The rows of the hydro plants.
pub open spec fn hydro_rows(list: Seq<Hydro>) -> Seq<EntityRowView> {
    list.map_values(|h: Hydro| entity_row(codes::ENTITY_TYPE_HYDRO, h.id.0, h.name@, h.bus_id.0))
}

/// The rows of the thermal plants.
pub open spec fn thermal_rows(list: Seq<Thermal>) -> Seq<EntityRowView> {
    list.map_values(|h: Thermal| entity_row(codes::ENTITY_TYPE_THERMAL, h.id.0, h.name@, h.bus_id.0))
}

/// The rows of the buses.
pub open spec fn bus_rows(list: Seq<Bus>) -> Seq<EntityRowView> {
    list.map_values(|h: Bus| entity_row(codes::ENTITY_TYPE_BUS, h.id.0, h.name@, h.id.0))
}

/// The rows of the lines.
pub open spec fn line_rows(list: Seq<Line>) -> Seq<EntityRowView> {
    list.map_values(|h: Line| entity_row(codes::ENTITY_TYPE_LINE, h.id.0, h.name@, -1i32))
}

/// The rows of the pumping stations.
pub open spec fn pumping_station_rows(list: Seq<PumpingStation>) -> Seq<EntityRowView> {
    list.map_values(|h: PumpingStation| entity_row(codes::ENTITY_TYPE_PUMPING_STATION, h.id.0, h.name@, h.bus_id.0))
}

/// The rows of the contracts.
pub open spec fn contract_rows(list: Seq<EnergyContract>) -> Seq<EntityRowView> {
    list.map_values(|h: EnergyContract| entity_row(codes::ENTITY_TYPE_CONTRACT, h.id.0, h.name@, h.bus_id.0))
}

/// The rows of the non-controllable sources.
pub open spec fn non_controllable_rows(list: Seq<NonControllableSource>) -> Seq<EntityRowView> {
    list.map_values(|h: NonControllableSource| entity_row(codes::ENTITY_TYPE_NON_CONTROLLABLE, h.id.0, h.name@, h.bus_id.0))
}

/// The rows of a system: hydro plants, thermal plants, buses, lines, pumping
/// stations, contracts and non-controllable sources, each in the system's order.
pub open spec fn entity_rows_of(system: System) -> Seq<EntityRowView> {
    hydro_rows(system.hydros@)
        + thermal_rows(system.thermals@)
        + bus_rows(system.buses@)
        + line_rows(system.lines@)
        + pumping_station_rows(system.pumping_stations@)
        + contract_rows(system.contracts@)
        + non_controllable_rows(system.non_controllable_sources@)
}

fn push_hydros(rows: &mut Vec<EntityRow>, list: &Vec<Hydro>)
    ensures
        row_views(final(rows)@) == row_views(old(rows)@) + hydro_rows(list@),
{
    let ghost before = row_views(rows@);
    proof {
        assert(before + hydro_rows(list@).take(0) =~= before);
    }
    for i in 0..list.len()
        invariant
            row_views(rows@) == before + hydro_rows(list@).take(i as int),
    {
        let h: &Hydro = &list[i];
        let row = EntityRow {
            entity_type_code: codes::ENTITY_TYPE_HYDRO,
            entity_id: h.id.0,
            name: h.name.clone(),
            bus_id: h.bus_id.0,
            system_id: 0,
        };
        let ghost held = rows@;
        rows.push(row);
        proof {
            assert(row_views(rows@) =~= row_views(held).push(row@));
            assert(row_views(rows@) =~= before + hydro_rows(list@).take(i + 1));
        }
    }
    proof {
        assert(hydro_rows(list@).take(list@.len() as int) =~= hydro_rows(list@));
    }
}

fn push_thermals(rows: &mut Vec<EntityRow>, list: &Vec<Thermal>)
    ensures
        row_views(final(rows)@) == row_views(old(rows)@) + thermal_rows(list@),
{
    let ghost before = row_views(rows@);
    proof {
        assert(before + thermal_rows(list@).take(0) =~= before);
    }
    for i in 0..list.len()
        invariant
            row_views(rows@) == before + thermal_rows(list@).take(i as int),
    {
        let h: &Thermal = &list[i];
        let row = EntityRow {
            entity_type_code: codes::ENTITY_TYPE_THERMAL,
            entity_id: h.id.0,
            name: h.name.clone(),
            bus_id: h.bus_id.0,
            system_id: 0,
        };
        let ghost held = rows@;
        rows.push(row);
        proof {
            assert(row_views(rows@) =~= row_views(held).push(row@));
            assert(row_views(rows@) =~= before + thermal_rows(list@).take(i + 1));
        }
    }
    proof {
        assert(thermal_rows(list@).take(list@.len() as int) =~= thermal_rows(list@));
    }
}

fn push_buses(rows: &mut Vec<EntityRow>, list: &Vec<Bus>)
    ensures
        row_views(final(rows)@) == row_views(old(rows)@) + bus_rows(list@),
{
    let ghost before = row_views(rows@);
    proof {
        assert(before + bus_rows(list@).take(0) =~= before);
    }
    for i in 0..list.len()
        invariant
            row_views(rows@) == before + bus_rows(list@).take(i as int),
    {
        let h: &Bus = &list[i];
        let row = EntityRow {
            entity_type_code: codes::ENTITY_TYPE_BUS,
            entity_id: h.id.0,
            name: h.name.clone(),
            bus_id: h.id.0,
            system_id: 0,
        };
        let ghost held = rows@;
        rows.push(row);
        proof {
            assert(row_views(rows@) =~= row_views(held).push(row@));
            assert(row_views(rows@) =~= before + bus_rows(list@).take(i + 1));
        }
    }
    proof {
        assert(bus_rows(list@).take(list@.len() as int) =~= bus_rows(list@));
    }
}

fn push_lines(rows: &mut Vec<EntityRow>, list: &Vec<Line>)
    ensures
        row_views(final(rows)@) == row_views(old(rows)@) + line_rows(list@),
{
    let ghost before = row_views(rows@);
    proof {
        assert(before + line_rows(list@).take(0) =~= before);
    }
    for i in 0..list.len()
        invariant
            row_views(rows@) == before + line_rows(list@).take(i as int),
    {
        let h: &Line = &list[i];
        let row = EntityRow {
            entity_type_code: codes::ENTITY_TYPE_LINE,
            entity_id: h.id.0,
            name: h.name.clone(),
            bus_id: -1,
            system_id: 0,
        };
        let ghost held = rows@;
        rows.push(row);
        proof {
            assert(row_views(rows@) =~= row_views(held).push(row@));
            assert(row_views(rows@) =~= before + line_rows(list@).take(i + 1));
        }
    }
    proof {
        assert(line_rows(list@).take(list@.len() as int) =~= line_rows(list@));
    }
}

fn push_pumping_stations(rows: &mut Vec<EntityRow>, list: &Vec<PumpingStation>)
    ensures
        row_views(final(rows)@) == row_views(old(rows)@) + pumping_station_rows(list@),
{
    let ghost before = row_views(rows@);
    proof {
        assert(before + pumping_station_rows(list@).take(0) =~= before);
    }
    for i in 0..list.len()
        invariant
            row_views(rows@) == before + pumping_station_rows(list@).take(i as int),
    {
        let h: &PumpingStation = &list[i];
        let row = EntityRow {
            entity_type_code: codes::ENTITY_TYPE_PUMPING_STATION,
            entity_id: h.id.0,
            name: h.name.clone(),
            bus_id: h.bus_id.0,
            system_id: 0,
        };
        let ghost held = rows@;
        rows.push(row);
        proof {
            assert(row_views(rows@) =~= row_views(held).push(row@));
            assert(row_views(rows@) =~= before + pumping_station_rows(list@).take(i + 1));
        }
    }
    proof {
        assert(pumping_station_rows(list@).take(list@.len() as int) =~= pumping_station_rows(list@));
    }
}

fn push_contracts(rows: &mut Vec<EntityRow>, list: &Vec<EnergyContract>)
    ensures
        row_views(final(rows)@) == row_views(old(rows)@) + contract_rows(list@),
{
    let ghost before = row_views(rows@);
    proof {
        assert(before + contract_rows(list@).take(0) =~= before);
    }
    for i in 0..list.len()
        invariant
            row_views(rows@) == before + contract_rows(list@).take(i as int),
    {
        let h: &EnergyContract = &list[i];
        let row = EntityRow {
            entity_type_code: codes::ENTITY_TYPE_CONTRACT,
            entity_id: h.id.0,
            name: h.name.clone(),
            bus_id: h.bus_id.0,
            system_id: 0,
        };
        let ghost held = rows@;
        rows.push(row);
        proof {
            assert(row_views(rows@) =~= row_views(held).push(row@));
            assert(row_views(rows@) =~= before + contract_rows(list@).take(i + 1));
        }
    }
    proof {
        assert(contract_rows(list@).take(list@.len() as int) =~= contract_rows(list@));
    }
}

fn push_non_controllable_sources(rows: &mut Vec<EntityRow>, list: &Vec<NonControllableSource>)
    ensures
        row_views(final(rows)@) == row_views(old(rows)@) + non_controllable_rows(list@),
{
    let ghost before = row_views(rows@);
    proof {
        assert(before + non_controllable_rows(list@).take(0) =~= before);
    }
    for i in 0..list.len()
        invariant
            row_views(rows@) == before + non_controllable_rows(list@).take(i as int),
    {
        let h: &NonControllableSource = &list[i];
        let row = EntityRow {
            entity_type_code: codes::ENTITY_TYPE_NON_CONTROLLABLE,
            entity_id: h.id.0,
            name: h.name.clone(),
            bus_id: h.bus_id.0,
            system_id: 0,
        };
        let ghost held = rows@;
        rows.push(row);
        proof {
            assert(row_views(rows@) =~= row_views(held).push(row@));
            assert(row_views(rows@) =~= before + non_controllable_rows(list@).take(i + 1));
        }
    }
    proof {
        assert(non_controllable_rows(list@).take(list@.len() as int) =~= non_controllable_rows(list@));
    }
}

/// The dictionary's rows.
pub fn entity_rows(system: &System) -> (r: Vec<EntityRow>)
    ensures
        row_views(r@) == entity_rows_of(*system),
{
    let mut r: Vec<EntityRow> = Vec::new();
    push_hydros(&mut r, &system.hydros);
    push_thermals(&mut r, &system.thermals);
    push_buses(&mut r, &system.buses);
    push_lines(&mut r, &system.lines);
    push_pumping_stations(&mut r, &system.pumping_stations);
    push_contracts(&mut r, &system.contracts);
    push_non_controllable_sources(&mut r, &system.non_controllable_sources);
    proof {
        assert(row_views(r@) =~= entity_rows_of(*system));
    }
    r
}

/// There is one row per entity, and the rows are in ascending order of what the
/// entities are. Where the system's lists are in ascending order of the
/// identifiers, so are the rows of entities of one type.
pub proof fn entity_rows_are_in_order(system: System, i: int, j: int)
    requires
        0 <= i < j < entity_rows_of(system).len(),
    ensures
        entity_rows_of(system).len() == system.hydros@.len() + system.thermals@.len() + system.buses@.len() + system.lines@.len() + system.pumping_stations@.len() + system.contracts@.len() + system.non_controllable_sources@.len(),
        entity_rows_of(system)[i].entity_type_code <= entity_rows_of(system)[j].entity_type_code,
        system.in_order() && entity_rows_of(system)[i].entity_type_code == entity_rows_of(
            system,
        )[j].entity_type_code ==> entity_rows_of(system)[i].entity_id <= entity_rows_of(
            system,
        )[j].entity_id,
{
}

/// Every code in the rows has a label among the codes.
pub proof fn entity_codes_are_known(system: System, i: int)
    requires
        0 <= i < entity_rows_of(system).len(),
    ensures
        codes::labelled(codes::entity_type_codes(), entity_rows_of(system)[i].entity_type_code),
{
    let c = codes::entity_type_codes();
    assert(c[0].0 == codes::ENTITY_TYPE_HYDRO);
    assert(c[1].0 == codes::ENTITY_TYPE_THERMAL);
    assert(c[2].0 == codes::ENTITY_TYPE_BUS);
    assert(c[3].0 == codes::ENTITY_TYPE_LINE);
    assert(c[4].0 == codes::ENTITY_TYPE_PUMPING_STATION);
    assert(c[5].0 == codes::ENTITY_TYPE_CONTRACT);
    assert(c[6].0 == codes::ENTITY_TYPE_NON_CONTROLLABLE);
}

/// Every row is of system 0.
pub proof fn one_system(system: System, i: int)
    requires
        0 <= i < entity_rows_of(system).len(),
    ensures
        entity_rows_of(system)[i].system_id == 0,
{
}

// ── What each entity's row says ──────────────────────────────────────────────

/// The hydro plants come first, in the system's order: the row of each has its code, its own id and name,
/// and the bus of that entity.
pub proof fn hydros_have_their_rows(system: System, rows: Seq<EntityRow>, k: int)
    requires
        row_views(rows) == entity_rows_of(system),
        0 <= k < system.hydros@.len(),
    ensures
        ({
            let at = k;
            &&& 0 <= at < rows.len()
            &&& rows[at].entity_type_code == codes::ENTITY_TYPE_HYDRO
            &&& rows[at].entity_id == system.hydros@[k].id.0
            &&& rows[at].name@ == system.hydros@[k].name@
            &&& rows[at].bus_id == system.hydros@[k].bus_id.0
            &&& rows[at].system_id == 0
        }),
{
    let at = k;
    assert(row_views(rows).len() == rows.len());
    assert(row_views(rows)[at] == rows[at]@);
}

/// The thermal plants follow, in the system's order: the row of each has its code, its own id and name,
/// and the bus of that entity.
pub proof fn thermals_have_their_rows(system: System, rows: Seq<EntityRow>, k: int)
    requires
        row_views(rows) == entity_rows_of(system),
        0 <= k < system.thermals@.len(),
    ensures
        ({
            let at = system.hydros@.len() + k;
            &&& 0 <= at < rows.len()
            &&& rows[at].entity_type_code == codes::ENTITY_TYPE_THERMAL
            &&& rows[at].entity_id == system.thermals@[k].id.0
            &&& rows[at].name@ == system.thermals@[k].name@
            &&& rows[at].bus_id == system.thermals@[k].bus_id.0
            &&& rows[at].system_id == 0
        }),
{
    let at = system.hydros@.len() + k;
    assert(row_views(rows).len() == rows.len());
    assert(row_views(rows)[at] == rows[at]@);
}

/// The buses follow, in the system's order: the row of each has its code, its own id and name,
/// and itself as its bus.
pub proof fn buses_have_their_rows(system: System, rows: Seq<EntityRow>, k: int)
    requires
        row_views(rows) == entity_rows_of(system),
        0 <= k < system.buses@.len(),
    ensures
        ({
            let at = system.hydros@.len() + system.thermals@.len() + k;
            &&& 0 <= at < rows.len()
            &&& rows[at].entity_type_code == codes::ENTITY_TYPE_BUS
            &&& rows[at].entity_id == system.buses@[k].id.0
            &&& rows[at].name@ == system.buses@[k].name@
            &&& rows[at].bus_id == system.buses@[k].id.0
            &&& rows[at].system_id == 0
        }),
{
    let at = system.hydros@.len() + system.thermals@.len() + k;
    assert(row_views(rows).len() == rows.len());
    assert(row_views(rows)[at] == rows[at]@);
}

/// The lines follow, in the system's order: the row of each has its code, its own id and name,
/// and -1 as its bus.
pub proof fn lines_have_their_rows(system: System, rows: Seq<EntityRow>, k: int)
    requires
        row_views(rows) == entity_rows_of(system),
        0 <= k < system.lines@.len(),
    ensures
        ({
            let at = system.hydros@.len() + system.thermals@.len() + system.buses@.len() + k;
            &&& 0 <= at < rows.len()
            &&& rows[at].entity_type_code == codes::ENTITY_TYPE_LINE
            &&& rows[at].entity_id == system.lines@[k].id.0
            &&& rows[at].name@ == system.lines@[k].name@
            &&& rows[at].bus_id == -1
            &&& rows[at].system_id == 0
        }),
{
    let at = system.hydros@.len() + system.thermals@.len() + system.buses@.len() + k;
    assert(row_views(rows).len() == rows.len());
    assert(row_views(rows)[at] == rows[at]@);
}

/// The pumping stations follow, in the system's order: the row of each has its code, its own id and name,
/// and the bus of that entity.
pub proof fn pumping_stations_have_their_rows(system: System, rows: Seq<EntityRow>, k: int)
    requires
        row_views(rows) == entity_rows_of(system),
        0 <= k < system.pumping_stations@.len(),
    ensures
        ({
            let at = system.hydros@.len() + system.thermals@.len() + system.buses@.len() + system.lines@.len() + k;
            &&& 0 <= at < rows.len()
            &&& rows[at].entity_type_code == codes::ENTITY_TYPE_PUMPING_STATION
            &&& rows[at].entity_id == system.pumping_stations@[k].id.0
            &&& rows[at].name@ == system.pumping_stations@[k].name@
            &&& rows[at].bus_id == system.pumping_stations@[k].bus_id.0
            &&& rows[at].system_id == 0
        }),
{
    let at = system.hydros@.len() + system.thermals@.len() + system.buses@.len() + system.lines@.len() + k;
    assert(row_views(rows).len() == rows.len());
    assert(row_views(rows)[at] == rows[at]@);
}

/// The contracts follow, in the system's order: the row of each has its code, its own id and name,
/// and the bus of that entity.
pub proof fn contracts_have_their_rows(system: System, rows: Seq<EntityRow>, k: int)
    requires
        row_views(rows) == entity_rows_of(system),
        0 <= k < system.contracts@.len(),
    ensures
        ({
            let at = system.hydros@.len() + system.thermals@.len() + system.buses@.len() + system.lines@.len() + system.pumping_stations@.len() + k;
            &&& 0 <= at < rows.len()
            &&& rows[at].entity_type_code == codes::ENTITY_TYPE_CONTRACT
            &&& rows[at].entity_id == system.contracts@[k].id.0
            &&& rows[at].name@ == system.contracts@[k].name@
            &&& rows[at].bus_id == system.contracts@[k].bus_id.0
            &&& rows[at].system_id == 0
        }),
{
    let at = system.hydros@.len() + system.thermals@.len() + system.buses@.len() + system.lines@.len() + system.pumping_stations@.len() + k;
    assert(row_views(rows).len() == rows.len());
    assert(row_views(rows)[at] == rows[at]@);
}

/// The non-controllable sources come last, in the system's order: the row of each has its code, its own id and name,
/// and the bus of that entity.
pub proof fn non_controllable_sources_have_their_rows(system: System, rows: Seq<EntityRow>, k: int)
    requires
        row_views(rows) == entity_rows_of(system),
        0 <= k < system.non_controllable_sources@.len(),
    ensures
        ({
            let at = system.hydros@.len() + system.thermals@.len() + system.buses@.len() + system.lines@.len() + system.pumping_stations@.len() + system.contracts@.len() + k;
            &&& 0 <= at < rows.len()
            &&& rows[at].entity_type_code == codes::ENTITY_TYPE_NON_CONTROLLABLE
            &&& rows[at].entity_id == system.non_controllable_sources@[k].id.0
            &&& rows[at].name@ == system.non_controllable_sources@[k].name@
            &&& rows[at].bus_id == system.non_controllable_sources@[k].bus_id.0
            &&& rows[at].system_id == 0
        }),
{
    let at = system.hydros@.len() + system.thermals@.len() + system.buses@.len() + system.lines@.len() + system.pumping_stations@.len() + system.contracts@.len() + k;
    assert(row_views(rows).len() == rows.len());
    assert(row_views(rows)[at] == rows[at]@);
}

} // verus!
