//! The bounds of a system's entities at each stage, as a table.
//!
//! One row per entity, stage and bound. The bounds hold for the whole stage, so no
//! row names a block.

use vstd::prelude::*;

use crate::float::Float64;
use crate::output::dictionary::codes;
use crate::system::{
    ContractStageBounds, HydroStageBounds, LineStageBounds, PumpingStageBounds, System,
    ThermalStageBounds,
};
use crate::table;
use crate::table::{Cell, Cells, Column, Table, TableView};

verus! {

/// One bound of one entity at one stage.
#[derive(Clone, Copy, Debug, PartialEq)]
pub struct BoundRow {
    /// What the entity is, by its code.
    pub entity_type_code: i8,
    /// The entity.
    pub entity_id: i32,
    /// The stage.
    pub stage_id: i32,
    /// What is bounded, by its code.
    pub bound_type_code: i8,
    /// The bound.
    pub bound_value: Float64,
}

// ── Which rows there are ─────────────────────────────────────────────────────

/// A row.
pub open spec fn bound_row(entity: i8, id: i32, stage: i32, bound: i8, value: Float64) -> BoundRow {
    BoundRow {
        entity_type_code: entity,
        entity_id: id,
        stage_id: stage,
        bound_type_code: bound,
        bound_value: value,
    }
}

/// The number 0.
pub open spec fn zero() -> Float64 {
    Float64 { bits: 0 }
}

/// The rows of a hydro plant at a stage. The greatest outflow has a row only where
/// there is one.
pub open spec fn hydro_stage_rows(id: i32, stage: i32, b: HydroStageBounds) -> Seq<BoundRow> {
    let e = codes::ENTITY_TYPE_HYDRO;
    seq![
        bound_row(e, id, stage, codes::BOUND_STORAGE_MIN, b.min_storage_hm3),
        bound_row(e, id, stage, codes::BOUND_STORAGE_MAX, b.max_storage_hm3),
        bound_row(e, id, stage, codes::BOUND_TURBINED_MIN, b.min_turbined_m3s),
        bound_row(e, id, stage, codes::BOUND_TURBINED_MAX, b.max_turbined_m3s),
        bound_row(e, id, stage, codes::BOUND_OUTFLOW_MIN, b.min_outflow_m3s),
    ] + (match b.max_outflow_m3s {
        Some(x) => seq![bound_row(e, id, stage, codes::BOUND_OUTFLOW_MAX, x)],
        None => Seq::empty(),
    }) + seq![
        bound_row(e, id, stage, codes::BOUND_GENERATION_MIN, b.min_generation_mw),
        bound_row(e, id, stage, codes::BOUND_GENERATION_MAX, b.max_generation_mw),
    ]
}

/// The rows of a thermal plant at a stage.
pub open spec fn thermal_stage_rows(id: i32, stage: i32, b: ThermalStageBounds) -> Seq<BoundRow> {
    let e = codes::ENTITY_TYPE_THERMAL;
    seq![
        bound_row(e, id, stage, codes::BOUND_GENERATION_MIN, b.min_generation_mw),
        bound_row(e, id, stage, codes::BOUND_GENERATION_MAX, b.max_generation_mw),
    ]
}

/// The rows of a line at a stage.
pub open spec fn line_stage_rows(id: i32, stage: i32, b: LineStageBounds) -> Seq<BoundRow> {
    let e = codes::ENTITY_TYPE_LINE;
    seq![
        bound_row(e, id, stage, codes::BOUND_FLOW_MIN, zero()),
        bound_row(e, id, stage, codes::BOUND_FLOW_MAX, b.direct_mw),
    ]
}

/// The rows of a pumping station at a stage.
pub open spec fn pumping_stage_rows(id: i32, stage: i32, b: PumpingStageBounds) -> Seq<BoundRow> {
    let e = codes::ENTITY_TYPE_PUMPING_STATION;
    seq![
        bound_row(e, id, stage, codes::BOUND_FLOW_MIN, b.min_flow_m3s),
        bound_row(e, id, stage, codes::BOUND_FLOW_MAX, b.max_flow_m3s),
    ]
}

/// The rows of a contract at a stage.
pub open spec fn contract_stage_rows(id: i32, stage: i32, b: ContractStageBounds) -> Seq<BoundRow> {
    let e = codes::ENTITY_TYPE_CONTRACT;
    seq![
        bound_row(e, id, stage, codes::BOUND_FLOW_MIN, b.min_mw),
        bound_row(e, id, stage, codes::BOUND_FLOW_MAX, b.max_mw),
    ]
}

/// The rows that `part` gives for 0, 1 and so on before `n`, one after the other.
pub open spec fn joined(n: int, part: spec_fn(int) -> Seq<BoundRow>) -> Seq<BoundRow>
    decreases n,
{
    if n <= 0 {
        Seq::empty()
    } else {
        joined(n - 1, part) + part(n - 1)
    }
}

/// The rows of the `k`-th of the hydro plants, stage by stage.
pub open spec fn hydro_rows(system: System, k: int) -> Seq<BoundRow> {
    joined(
        system.bounds.n_stages as int,
        |s: int| hydro_stage_rows(system.hydros@[k].id.0, system.stage_ids@[s], system.bounds.hydros@[k]@[s]),
    )
}

/// The rows of the `k`-th of the thermal plants, stage by stage.
pub open spec fn thermal_rows(system: System, k: int) -> Seq<BoundRow> {
    joined(
        system.bounds.n_stages as int,
        |s: int| thermal_stage_rows(system.thermals@[k].id.0, system.stage_ids@[s], system.bounds.thermals@[k]@[s]),
    )
}

/// The rows of the `k`-th of the lines, stage by stage.
pub open spec fn line_rows(system: System, k: int) -> Seq<BoundRow> {
    joined(
        system.bounds.n_stages as int,
        |s: int| line_stage_rows(system.lines@[k].id.0, system.stage_ids@[s], system.bounds.lines@[k]@[s]),
    )
}

/// The rows of the `k`-th of the pumping stations, stage by stage.
pub open spec fn pumping_rows(system: System, k: int) -> Seq<BoundRow> {
    joined(
        system.bounds.n_stages as int,
        |s: int| pumping_stage_rows(system.pumping_stations@[k].id.0, system.stage_ids@[s], system.bounds.pumping_stations@[k]@[s]),
    )
}

/// The rows of the `k`-th of the contracts, stage by stage.
pub open spec fn contract_rows(system: System, k: int) -> Seq<BoundRow> {
    joined(
        system.bounds.n_stages as int,
        |s: int| contract_stage_rows(system.contracts@[k].id.0, system.stage_ids@[s], system.bounds.contracts@[k]@[s]),
    )
}

/// The rows of a system: hydro plants, thermal plants, lines, pumping stations and
/// contracts, each in the system's order.
pub open spec fn bound_rows_of(system: System) -> Seq<BoundRow> {
    joined(system.hydros@.len() as int, |k: int| hydro_rows(system, k))
        + joined(system.thermals@.len() as int, |k: int| thermal_rows(system, k))
        + joined(system.lines@.len() as int, |k: int| line_rows(system, k))
        + joined(system.pumping_stations@.len() as int, |k: int| pumping_rows(system, k))
        + joined(system.contracts@.len() as int, |k: int| contract_rows(system, k))
}

fn push_row(rows: &mut Vec<BoundRow>, entity: i8, id: i32, stage: i32, bound: i8, value: Float64)
    ensures
        final(rows)@ == old(rows)@.push(bound_row(entity, id, stage, bound, value)),
{
    rows.push(
        BoundRow {
            entity_type_code: entity,
            entity_id: id,
            stage_id: stage,
            bound_type_code: bound,
            bound_value: value,
        },
    );
}

fn push_hydro_stage(rows: &mut Vec<BoundRow>, id: i32, stage: i32, b: &HydroStageBounds)
    ensures
        final(rows)@ == old(rows)@ + hydro_stage_rows(id, stage, *b),
{
    let e: i8 = codes::ENTITY_TYPE_HYDRO;
    push_row(rows, e, id, stage, codes::BOUND_STORAGE_MIN, b.min_storage_hm3);
    push_row(rows, e, id, stage, codes::BOUND_STORAGE_MAX, b.max_storage_hm3);
    push_row(rows, e, id, stage, codes::BOUND_TURBINED_MIN, b.min_turbined_m3s);
    push_row(rows, e, id, stage, codes::BOUND_TURBINED_MAX, b.max_turbined_m3s);
    push_row(rows, e, id, stage, codes::BOUND_OUTFLOW_MIN, b.min_outflow_m3s);
    if let Some(max_outflow) = b.max_outflow_m3s {
        push_row(rows, e, id, stage, codes::BOUND_OUTFLOW_MAX, max_outflow);
    }
    push_row(rows, e, id, stage, codes::BOUND_GENERATION_MIN, b.min_generation_mw);
    push_row(rows, e, id, stage, codes::BOUND_GENERATION_MAX, b.max_generation_mw);
    proof {
        assert(rows@ =~= old(rows)@ + hydro_stage_rows(id, stage, *b));
    }
}

fn push_thermal_stage(rows: &mut Vec<BoundRow>, id: i32, stage: i32, b: &ThermalStageBounds)
    ensures
        final(rows)@ == old(rows)@ + thermal_stage_rows(id, stage, *b),
{
    let e: i8 = codes::ENTITY_TYPE_THERMAL;
    push_row(rows, e, id, stage, codes::BOUND_GENERATION_MIN, b.min_generation_mw);
    push_row(rows, e, id, stage, codes::BOUND_GENERATION_MAX, b.max_generation_mw);
    proof {
        assert(rows@ =~= old(rows)@ + thermal_stage_rows(id, stage, *b));
    }
}

fn push_line_stage(rows: &mut Vec<BoundRow>, id: i32, stage: i32, b: &LineStageBounds)
    ensures
        final(rows)@ == old(rows)@ + line_stage_rows(id, stage, *b),
{
    let e: i8 = codes::ENTITY_TYPE_LINE;
    push_row(rows, e, id, stage, codes::BOUND_FLOW_MIN, Float64 { bits: 0 });
    push_row(rows, e, id, stage, codes::BOUND_FLOW_MAX, b.direct_mw);
    proof {
        assert(rows@ =~= old(rows)@ + line_stage_rows(id, stage, *b));
    }
}

fn push_pumping_stage(rows: &mut Vec<BoundRow>, id: i32, stage: i32, b: &PumpingStageBounds)
    ensures
        final(rows)@ == old(rows)@ + pumping_stage_rows(id, stage, *b),
{
    let e: i8 = codes::ENTITY_TYPE_PUMPING_STATION;
    push_row(rows, e, id, stage, codes::BOUND_FLOW_MIN, b.min_flow_m3s);
    push_row(rows, e, id, stage, codes::BOUND_FLOW_MAX, b.max_flow_m3s);
    proof {
        assert(rows@ =~= old(rows)@ + pumping_stage_rows(id, stage, *b));
    }
}

fn push_contract_stage(rows: &mut Vec<BoundRow>, id: i32, stage: i32, b: &ContractStageBounds)
    ensures
        final(rows)@ == old(rows)@ + contract_stage_rows(id, stage, *b),
{
    let e: i8 = codes::ENTITY_TYPE_CONTRACT;
    push_row(rows, e, id, stage, codes::BOUND_FLOW_MIN, b.min_mw);
    push_row(rows, e, id, stage, codes::BOUND_FLOW_MAX, b.max_mw);
    proof {
        assert(rows@ =~= old(rows)@ + contract_stage_rows(id, stage, *b));
    }
}

fn push_hydros(rows: &mut Vec<BoundRow>, system: &System)
    requires
        system.well_formed(),
    ensures
        final(rows)@ == old(rows)@ + joined(
            system.hydros@.len() as int,
            |k: int| hydro_rows(*system, k),
        ),
{
    let ghost part = |k: int| hydro_rows(*system, k);
    let ghost before = rows@;
    for k in 0..system.hydros.len()
        invariant
            system.well_formed(),
            part == (|k: int| hydro_rows(*system, k)),
            rows@ == before + joined(k as int, part),
    {
        let id: i32 = system.hydros[k].id.0;
        let ghost stage_part = |s: int|
            hydro_stage_rows(
                system.hydros@[k as int].id.0,
                system.stage_ids@[s],
                system.bounds.hydros@[k as int]@[s],
            );
        let ghost held = rows@;
        for s in 0..system.bounds.n_stages
            invariant
                system.well_formed(),
                k < system.hydros@.len(),
                id == system.hydros@[k as int].id.0,
                stage_part == (|s: int|
                    hydro_stage_rows(
                        system.hydros@[k as int].id.0,
                        system.stage_ids@[s],
                        system.bounds.hydros@[k as int]@[s],
                    )),
                rows@ == held + joined(s as int, stage_part),
        {
            push_hydro_stage(rows, id, system.stage_ids[s], &system.bounds.hydros[k][s]);
            proof {
                assert(rows@ =~= held + joined(s + 1, stage_part));
            }
        }
        proof {
            assert(joined(system.bounds.n_stages as int, stage_part) == part(k as int));
            assert(rows@ =~= before + joined(k + 1, part));
        }
    }
}

fn push_thermals(rows: &mut Vec<BoundRow>, system: &System)
    requires
        system.well_formed(),
    ensures
        final(rows)@ == old(rows)@ + joined(
            system.thermals@.len() as int,
            |k: int| thermal_rows(*system, k),
        ),
{
    let ghost part = |k: int| thermal_rows(*system, k);
    let ghost before = rows@;
    for k in 0..system.thermals.len()
        invariant
            system.well_formed(),
            part == (|k: int| thermal_rows(*system, k)),
            rows@ == before + joined(k as int, part),
    {
        let id: i32 = system.thermals[k].id.0;
        let ghost stage_part = |s: int|
            thermal_stage_rows(
                system.thermals@[k as int].id.0,
                system.stage_ids@[s],
                system.bounds.thermals@[k as int]@[s],
            );
        let ghost held = rows@;
        for s in 0..system.bounds.n_stages
            invariant
                system.well_formed(),
                k < system.thermals@.len(),
                id == system.thermals@[k as int].id.0,
                stage_part == (|s: int|
                    thermal_stage_rows(
                        system.thermals@[k as int].id.0,
                        system.stage_ids@[s],
                        system.bounds.thermals@[k as int]@[s],
                    )),
                rows@ == held + joined(s as int, stage_part),
        {
            push_thermal_stage(rows, id, system.stage_ids[s], &system.bounds.thermals[k][s]);
            proof {
                assert(rows@ =~= held + joined(s + 1, stage_part));
            }
        }
        proof {
            assert(joined(system.bounds.n_stages as int, stage_part) == part(k as int));
            assert(rows@ =~= before + joined(k + 1, part));
        }
    }
}

fn push_lines(rows: &mut Vec<BoundRow>, system: &System)
    requires
        system.well_formed(),
    ensures
        final(rows)@ == old(rows)@ + joined(
            system.lines@.len() as int,
            |k: int| line_rows(*system, k),
        ),
{
    let ghost part = |k: int| line_rows(*system, k);
    let ghost before = rows@;
    for k in 0..system.lines.len()
        invariant
            system.well_formed(),
            part == (|k: int| line_rows(*system, k)),
            rows@ == before + joined(k as int, part),
    {
        let id: i32 = system.lines[k].id.0;
        let ghost stage_part = |s: int|
            line_stage_rows(
                system.lines@[k as int].id.0,
                system.stage_ids@[s],
                system.bounds.lines@[k as int]@[s],
            );
        let ghost held = rows@;
        for s in 0..system.bounds.n_stages
            invariant
                system.well_formed(),
                k < system.lines@.len(),
                id == system.lines@[k as int].id.0,
                stage_part == (|s: int|
                    line_stage_rows(
                        system.lines@[k as int].id.0,
                        system.stage_ids@[s],
                        system.bounds.lines@[k as int]@[s],
                    )),
                rows@ == held + joined(s as int, stage_part),
        {
            push_line_stage(rows, id, system.stage_ids[s], &system.bounds.lines[k][s]);
            proof {
                assert(rows@ =~= held + joined(s + 1, stage_part));
            }
        }
        proof {
            assert(joined(system.bounds.n_stages as int, stage_part) == part(k as int));
            assert(rows@ =~= before + joined(k + 1, part));
        }
    }
}

fn push_pumping_stations(rows: &mut Vec<BoundRow>, system: &System)
    requires
        system.well_formed(),
    ensures
        final(rows)@ == old(rows)@ + joined(
            system.pumping_stations@.len() as int,
            |k: int| pumping_rows(*system, k),
        ),
{
    let ghost part = |k: int| pumping_rows(*system, k);
    let ghost before = rows@;
    for k in 0..system.pumping_stations.len()
        invariant
            system.well_formed(),
            part == (|k: int| pumping_rows(*system, k)),
            rows@ == before + joined(k as int, part),
    {
        let id: i32 = system.pumping_stations[k].id.0;
        let ghost stage_part = |s: int|
            pumping_stage_rows(
                system.pumping_stations@[k as int].id.0,
                system.stage_ids@[s],
                system.bounds.pumping_stations@[k as int]@[s],
            );
        let ghost held = rows@;
        for s in 0..system.bounds.n_stages
            invariant
                system.well_formed(),
                k < system.pumping_stations@.len(),
                id == system.pumping_stations@[k as int].id.0,
                stage_part == (|s: int|
                    pumping_stage_rows(
                        system.pumping_stations@[k as int].id.0,
                        system.stage_ids@[s],
                        system.bounds.pumping_stations@[k as int]@[s],
                    )),
                rows@ == held + joined(s as int, stage_part),
        {
            push_pumping_stage(rows, id, system.stage_ids[s], &system.bounds.pumping_stations[k][s]);
            proof {
                assert(rows@ =~= held + joined(s + 1, stage_part));
            }
        }
        proof {
            assert(joined(system.bounds.n_stages as int, stage_part) == part(k as int));
            assert(rows@ =~= before + joined(k + 1, part));
        }
    }
}

fn push_contracts(rows: &mut Vec<BoundRow>, system: &System)
    requires
        system.well_formed(),
    ensures
        final(rows)@ == old(rows)@ + joined(
            system.contracts@.len() as int,
            |k: int| contract_rows(*system, k),
        ),
{
    let ghost part = |k: int| contract_rows(*system, k);
    let ghost before = rows@;
    for k in 0..system.contracts.len()
        invariant
            system.well_formed(),
            part == (|k: int| contract_rows(*system, k)),
            rows@ == before + joined(k as int, part),
    {
        let id: i32 = system.contracts[k].id.0;
        let ghost stage_part = |s: int|
            contract_stage_rows(
                system.contracts@[k as int].id.0,
                system.stage_ids@[s],
                system.bounds.contracts@[k as int]@[s],
            );
        let ghost held = rows@;
        for s in 0..system.bounds.n_stages
            invariant
                system.well_formed(),
                k < system.contracts@.len(),
                id == system.contracts@[k as int].id.0,
                stage_part == (|s: int|
                    contract_stage_rows(
                        system.contracts@[k as int].id.0,
                        system.stage_ids@[s],
                        system.bounds.contracts@[k as int]@[s],
                    )),
                rows@ == held + joined(s as int, stage_part),
        {
            push_contract_stage(rows, id, system.stage_ids[s], &system.bounds.contracts[k][s]);
            proof {
                assert(rows@ =~= held + joined(s + 1, stage_part));
            }
        }
        proof {
            assert(joined(system.bounds.n_stages as int, stage_part) == part(k as int));
            assert(rows@ =~= before + joined(k + 1, part));
        }
    }
}

/// The bounds of a system, one row per entity, stage and bound.
pub fn bound_rows(system: &System) -> (r: Vec<BoundRow>)
    requires
        system.well_formed(),
    ensures
        r@ == bound_rows_of(*system),
{
    let mut r: Vec<BoundRow> = Vec::new();
    push_hydros(&mut r, system);
    push_thermals(&mut r, system);
    push_lines(&mut r, system);
    push_pumping_stations(&mut r, system);
    push_contracts(&mut r, system);
    proof {
        assert(r@ =~= bound_rows_of(*system));
    }
    r
}

// ── What holds of the rows ───────────────────────────────────────────────────

/// What a row says a bound for: the entity, the stage and what is bounded.
pub open spec fn key(row: BoundRow) -> (i8, i32, i32, i8) {
    (row.entity_type_code, row.entity_id, row.stage_id, row.bound_type_code)
}

/// No bound is given twice.
pub open spec fn distinct(rows: Seq<BoundRow>) -> bool {
    forall|i: int, j: int|
        0 <= i < j < rows.len() ==> key(#[trigger] rows[i]) != key(#[trigger] rows[j])
}

/// No bound is given by both.
pub open spec fn apart(a: Seq<BoundRow>, b: Seq<BoundRow>) -> bool {
    forall|i: int, j: int|
        0 <= i < a.len() && 0 <= j < b.len() ==> key(#[trigger] a[i]) != key(#[trigger] b[j])
}

/// Every row is of one type of entity, and its codes have labels.
pub open spec fn of_type(rows: Seq<BoundRow>, entity: i8) -> bool {
    forall|i: int|
        0 <= i < rows.len() ==> (#[trigger] rows[i]).entity_type_code == entity && codes::labelled(
            codes::bound_type_codes(),
            rows[i].bound_type_code,
        )
}

/// Every row is of one entity.
pub open spec fn of_entity(rows: Seq<BoundRow>, id: i32) -> bool {
    forall|i: int| 0 <= i < rows.len() ==> (#[trigger] rows[i]).entity_id == id
}

/// Every row is of one stage.
pub open spec fn of_stage(rows: Seq<BoundRow>, stage: i32) -> bool {
    forall|i: int| 0 <= i < rows.len() ==> (#[trigger] rows[i]).stage_id == stage
}

/// The numbers are all different.
pub open spec fn all_different(ids: Seq<i32>) -> bool {
    forall|i: int, j: int| 0 <= i < j < ids.len() ==> #[trigger] ids[i] != #[trigger] ids[j]
}

proof fn sum_is_distinct(a: Seq<BoundRow>, b: Seq<BoundRow>)
    requires
        distinct(a),
        distinct(b),
        apart(a, b),
    ensures
        distinct(a + b),
{
}

proof fn joined_is_apart(n: int, part: spec_fn(int) -> Seq<BoundRow>, b: Seq<BoundRow>)
    requires
        forall|k: int| 0 <= k < n ==> apart(#[trigger] part(k), b),
    ensures
        apart(joined(n, part), b),
    decreases n,
{
    if n > 0 {
        joined_is_apart(n - 1, part, b);
        assert(apart(part(n - 1), b));
    }
}

proof fn joined_is_distinct(n: int, part: spec_fn(int) -> Seq<BoundRow>)
    requires
        forall|k: int| 0 <= k < n ==> distinct(#[trigger] part(k)),
        forall|k: int, m: int| 0 <= k < m < n ==> apart(#[trigger] part(k), #[trigger] part(m)),
    ensures
        distinct(joined(n, part)),
    decreases n,
{
    if n > 0 {
        joined_is_distinct(n - 1, part);
        joined_is_apart(n - 1, part, part(n - 1));
        sum_is_distinct(joined(n - 1, part), part(n - 1));
    }
}

proof fn joined_is_of_type(n: int, part: spec_fn(int) -> Seq<BoundRow>, entity: i8)
    requires
        forall|k: int| 0 <= k < n ==> of_type(#[trigger] part(k), entity),
    ensures
        of_type(joined(n, part), entity),
    decreases n,
{
    if n > 0 {
        joined_is_of_type(n - 1, part, entity);
        assert(of_type(part(n - 1), entity));
    }
}

proof fn joined_is_of_entity(n: int, part: spec_fn(int) -> Seq<BoundRow>, id: i32)
    requires
        forall|k: int| 0 <= k < n ==> of_entity(#[trigger] part(k), id),
    ensures
        of_entity(joined(n, part), id),
    decreases n,
{
    if n > 0 {
        joined_is_of_entity(n - 1, part, id);
        assert(of_entity(part(n - 1), id));
    }
}

/// What `part` gives for `k` stands in the joined rows.
proof fn joined_has(n: int, part: spec_fn(int) -> Seq<BoundRow>, k: int, row: BoundRow)
    requires
        0 <= k < n,
        part(k).contains(row),
    ensures
        joined(n, part).contains(row),
    decreases n,
{
    if k < n - 1 {
        joined_has(n - 1, part, k, row);
        let rest = joined(n - 1, part);
        let i = choose|i: int| 0 <= i < rest.len() && rest[i] == row;
        assert(joined(n, part)[i] == row);
    } else {
        let last = part(k);
        let i = choose|i: int| 0 <= i < last.len() && last[i] == row;
        assert(joined(n, part)[joined(n - 1, part).len() + i] == row);
    }
}

/// The rows of entities of one type, each at each stage.
proof fn rows_of_one_type(
    entity: i8,
    ids: Seq<i32>,
    stages: Seq<i32>,
    n: int,
    cell: spec_fn(int, int) -> Seq<BoundRow>,
    part: spec_fn(int) -> Seq<BoundRow>,
)
    requires
        0 <= n <= stages.len(),
        forall|k: int|
            0 <= k < ids.len() ==> #[trigger] part(k) == joined(n, |s: int| cell(k, s)),
        forall|k: int, s: int|
            0 <= k < ids.len() && 0 <= s < n ==> {
                &&& distinct(#[trigger] cell(k, s))
                &&& of_type(cell(k, s), entity)
                &&& of_entity(cell(k, s), ids[k])
                &&& of_stage(cell(k, s), stages[s])
            },
    ensures
        of_type(joined(ids.len() as int, part), entity),
        all_different(ids) && all_different(stages) ==> distinct(joined(ids.len() as int, part)),
{
    assert forall|k: int| 0 <= k < ids.len() implies of_type(#[trigger] part(k), entity)
        && of_entity(part(k), ids[k]) && (all_different(stages) ==> distinct(part(k))) by {
        let row = |s: int| cell(k, s);
        assert forall|s: int| 0 <= s < n implies of_type(#[trigger] row(s), entity) && of_entity(
            row(s),
            ids[k],
        ) && distinct(row(s)) by {
            assert(distinct(cell(k, s)));
        }
        joined_is_of_type(n, row, entity);
        joined_is_of_entity(n, row, ids[k]);
        if all_different(stages) {
            assert forall|s: int, t: int| 0 <= s < t < n implies apart(
                #[trigger] row(s),
                #[trigger] row(t),
            ) by {
                assert(of_stage(cell(k, s), stages[s]));
                assert(of_stage(cell(k, t), stages[t]));
                assert(stages[s] != stages[t]);
            }
            joined_is_distinct(n, row);
        }
    }
    joined_is_of_type(ids.len() as int, part, entity);
    if all_different(ids) && all_different(stages) {
        assert forall|k: int, m: int| 0 <= k < m < ids.len() implies apart(
            #[trigger] part(k),
            #[trigger] part(m),
        ) by {
            assert(ids[k] != ids[m]);
        }
        joined_is_distinct(ids.len() as int, part);
    }
}

proof fn bound_codes_have_labels()
    ensures
        forall|code: i8| 0 <= code <= 9 ==> #[trigger] codes::labelled(
            codes::bound_type_codes(),
            code,
        ),
{
    assert forall|code: i8| 0 <= code <= 9 implies #[trigger] codes::labelled(
        codes::bound_type_codes(),
        code,
    ) by {
        assert(codes::bound_type_codes()[code as int].0 == code);
    }
}

/// The identifiers of a system's hydros.
pub open spec fn hydro_ids(system: System) -> Seq<i32> {
    Seq::new(system.hydros@.len(), |k: int| system.hydros@[k].id.0)
}

proof fn hydro_rows_hold(system: System)
    requires
        system.well_formed(),
    ensures
        ({
            let rows = joined(system.hydros@.len() as int, |k: int| hydro_rows(system, k));
            &&& of_type(rows, codes::ENTITY_TYPE_HYDRO)
            &&& all_different(hydro_ids(system)) && all_different(system.stage_ids@) ==> distinct(rows)
        }),
{
    bound_codes_have_labels();
    let cell = |k: int, s: int|
        hydro_stage_rows(system.hydros@[k].id.0, system.stage_ids@[s], system.bounds.hydros@[k]@[s]);
    let part = |k: int| hydro_rows(system, k);
    assert forall|k: int| 0 <= k < system.hydros@.len() implies #[trigger] part(k) == joined(
        system.bounds.n_stages as int,
        |s: int| cell(k, s),
    ) by {
        joined_agrees(
            system.bounds.n_stages as int,
            |s: int| cell(k, s),
            |s: int|
                hydro_stage_rows(
                    system.hydros@[k].id.0,
                    system.stage_ids@[s],
                    system.bounds.hydros@[k]@[s],
                ),
        );
    }
    rows_of_one_type(
        codes::ENTITY_TYPE_HYDRO,
        hydro_ids(system),
        system.stage_ids@,
        system.bounds.n_stages as int,
        cell,
        part,
    );
}

/// The identifiers of a system's thermals.
pub open spec fn thermal_ids(system: System) -> Seq<i32> {
    Seq::new(system.thermals@.len(), |k: int| system.thermals@[k].id.0)
}

proof fn thermal_rows_hold(system: System)
    requires
        system.well_formed(),
    ensures
        ({
            let rows = joined(system.thermals@.len() as int, |k: int| thermal_rows(system, k));
            &&& of_type(rows, codes::ENTITY_TYPE_THERMAL)
            &&& all_different(thermal_ids(system)) && all_different(system.stage_ids@) ==> distinct(rows)
        }),
{
    bound_codes_have_labels();
    let cell = |k: int, s: int|
        thermal_stage_rows(system.thermals@[k].id.0, system.stage_ids@[s], system.bounds.thermals@[k]@[s]);
    let part = |k: int| thermal_rows(system, k);
    assert forall|k: int| 0 <= k < system.thermals@.len() implies #[trigger] part(k) == joined(
        system.bounds.n_stages as int,
        |s: int| cell(k, s),
    ) by {
        joined_agrees(
            system.bounds.n_stages as int,
            |s: int| cell(k, s),
            |s: int|
                thermal_stage_rows(
                    system.thermals@[k].id.0,
                    system.stage_ids@[s],
                    system.bounds.thermals@[k]@[s],
                ),
        );
    }
    rows_of_one_type(
        codes::ENTITY_TYPE_THERMAL,
        thermal_ids(system),
        system.stage_ids@,
        system.bounds.n_stages as int,
        cell,
        part,
    );
}

/// The identifiers of a system's lines.
pub open spec fn line_ids(system: System) -> Seq<i32> {
    Seq::new(system.lines@.len(), |k: int| system.lines@[k].id.0)
}

proof fn line_rows_hold(system: System)
    requires
        system.well_formed(),
    ensures
        ({
            let rows = joined(system.lines@.len() as int, |k: int| line_rows(system, k));
            &&& of_type(rows, codes::ENTITY_TYPE_LINE)
            &&& all_different(line_ids(system)) && all_different(system.stage_ids@) ==> distinct(rows)
        }),
{
    bound_codes_have_labels();
    let cell = |k: int, s: int|
        line_stage_rows(system.lines@[k].id.0, system.stage_ids@[s], system.bounds.lines@[k]@[s]);
    let part = |k: int| line_rows(system, k);
    assert forall|k: int| 0 <= k < system.lines@.len() implies #[trigger] part(k) == joined(
        system.bounds.n_stages as int,
        |s: int| cell(k, s),
    ) by {
        joined_agrees(
            system.bounds.n_stages as int,
            |s: int| cell(k, s),
            |s: int|
                line_stage_rows(
                    system.lines@[k].id.0,
                    system.stage_ids@[s],
                    system.bounds.lines@[k]@[s],
                ),
        );
    }
    rows_of_one_type(
        codes::ENTITY_TYPE_LINE,
        line_ids(system),
        system.stage_ids@,
        system.bounds.n_stages as int,
        cell,
        part,
    );
}

/// The identifiers of a system's pumping stations.
pub open spec fn pumping_ids(system: System) -> Seq<i32> {
    Seq::new(system.pumping_stations@.len(), |k: int| system.pumping_stations@[k].id.0)
}

proof fn pumping_rows_hold(system: System)
    requires
        system.well_formed(),
    ensures
        ({
            let rows = joined(system.pumping_stations@.len() as int, |k: int| pumping_rows(system, k));
            &&& of_type(rows, codes::ENTITY_TYPE_PUMPING_STATION)
            &&& all_different(pumping_ids(system)) && all_different(system.stage_ids@) ==> distinct(rows)
        }),
{
    bound_codes_have_labels();
    let cell = |k: int, s: int|
        pumping_stage_rows(system.pumping_stations@[k].id.0, system.stage_ids@[s], system.bounds.pumping_stations@[k]@[s]);
    let part = |k: int| pumping_rows(system, k);
    assert forall|k: int| 0 <= k < system.pumping_stations@.len() implies #[trigger] part(k) == joined(
        system.bounds.n_stages as int,
        |s: int| cell(k, s),
    ) by {
        joined_agrees(
            system.bounds.n_stages as int,
            |s: int| cell(k, s),
            |s: int|
                pumping_stage_rows(
                    system.pumping_stations@[k].id.0,
                    system.stage_ids@[s],
                    system.bounds.pumping_stations@[k]@[s],
                ),
        );
    }
    rows_of_one_type(
        codes::ENTITY_TYPE_PUMPING_STATION,
        pumping_ids(system),
        system.stage_ids@,
        system.bounds.n_stages as int,
        cell,
        part,
    );
}

/// The identifiers of a system's contracts.
pub open spec fn contract_ids(system: System) -> Seq<i32> {
    Seq::new(system.contracts@.len(), |k: int| system.contracts@[k].id.0)
}

proof fn contract_rows_hold(system: System)
    requires
        system.well_formed(),
    ensures
        ({
            let rows = joined(system.contracts@.len() as int, |k: int| contract_rows(system, k));
            &&& of_type(rows, codes::ENTITY_TYPE_CONTRACT)
            &&& all_different(contract_ids(system)) && all_different(system.stage_ids@) ==> distinct(rows)
        }),
{
    bound_codes_have_labels();
    let cell = |k: int, s: int|
        contract_stage_rows(system.contracts@[k].id.0, system.stage_ids@[s], system.bounds.contracts@[k]@[s]);
    let part = |k: int| contract_rows(system, k);
    assert forall|k: int| 0 <= k < system.contracts@.len() implies #[trigger] part(k) == joined(
        system.bounds.n_stages as int,
        |s: int| cell(k, s),
    ) by {
        joined_agrees(
            system.bounds.n_stages as int,
            |s: int| cell(k, s),
            |s: int|
                contract_stage_rows(
                    system.contracts@[k].id.0,
                    system.stage_ids@[s],
                    system.bounds.contracts@[k]@[s],
                ),
        );
    }
    rows_of_one_type(
        codes::ENTITY_TYPE_CONTRACT,
        contract_ids(system),
        system.stage_ids@,
        system.bounds.n_stages as int,
        cell,
        part,
    );
}

proof fn joined_agrees(
    n: int,
    a: spec_fn(int) -> Seq<BoundRow>,
    b: spec_fn(int) -> Seq<BoundRow>,
)
    requires
        forall|k: int| 0 <= k < n ==> #[trigger] a(k) == b(k),
    ensures
        joined(n, a) == joined(n, b),
    decreases n,
{
    if n > 0 {
        joined_agrees(n - 1, a, b);
        assert(a(n - 1) == b(n - 1));
    }
}

/// The entities of each type have different identifiers, and so have the stages.
pub open spec fn identified(system: System) -> bool {
    &&& all_different(system.stage_ids@)
    &&& all_different(hydro_ids(system))
    &&& all_different(thermal_ids(system))
    &&& all_different(line_ids(system))
    &&& all_different(pumping_ids(system))
    &&& all_different(contract_ids(system))
}

/// The sum of `count` for 0, 1 and so on before `n`.
pub open spec fn total(n: int, count: spec_fn(int) -> nat) -> nat
    decreases n,
{
    if n <= 0 {
        0
    } else {
        total(n - 1, count) + count(n - 1)
    }
}

/// How many of the stages of the `k`-th hydro plant have a greatest outflow.
pub open spec fn outflow_maxima_of(system: System, k: int) -> nat {
    total(
        system.bounds.n_stages as int,
        |s: int|
            if system.bounds.hydros@[k]@[s].max_outflow_m3s is Some {
                1nat
            } else {
                0nat
            },
    )
}

/// How many pairs of a hydro plant and a stage have a greatest outflow.
pub open spec fn outflow_maxima(system: System) -> nat {
    total(system.hydros@.len() as int, |k: int| outflow_maxima_of(system, k))
}

/// Rows of which each part has `m` and what `more` says are as many in all.
proof fn joined_len(
    n: int,
    part: spec_fn(int) -> Seq<BoundRow>,
    m: nat,
    more: spec_fn(int) -> nat,
)
    requires
        0 <= n,
        forall|k: int| 0 <= k < n ==> (#[trigger] part(k)).len() == m + more(k),
    ensures
        joined(n, part).len() == n * m + total(n, more),
    decreases n,
{
    if n > 0 {
        joined_len(n - 1, part, m, more);
        assert(part(n - 1).len() == m + more(n - 1));
        assert(n * m == (n - 1) * m + m) by (nonlinear_arith);
    } else {
        assert(n * m == 0) by (nonlinear_arith)
            requires
                n == 0,
        ;
    }
}

proof fn nothing_more(n: int)
    ensures
        total(n, |k: int| 0nat) == 0,
    decreases n,
{
    if n > 0 {
        nothing_more(n - 1);
    }
}

/// There are seven rows for each hydro plant and stage, one more where it has a
/// greatest outflow, and two for each stage of every thermal plant, line, pumping
/// station and contract.
pub proof fn bound_rows_len(system: System)
    ensures
        bound_rows_of(system).len() == system.bounds.n_stages * (7 * system.hydros@.len() + 2
            * system.thermals@.len() + 2 * system.lines@.len() + 2 * system.pumping_stations@.len()
            + 2 * system.contracts@.len()) + outflow_maxima(system),
{
    let n = system.bounds.n_stages as int;
    let none = |k: int| 0nat;
    nothing_more(n);
    let hydros = |k: int| hydro_rows(system, k);
    let maxima = |k: int| outflow_maxima_of(system, k);
    assert forall|k: int| #[trigger] hydros(k).len() == (7 * n) as nat + maxima(k) by {
        let part = |s: int|
            hydro_stage_rows(
                system.hydros@[k].id.0,
                system.stage_ids@[s],
                system.bounds.hydros@[k]@[s],
            );
        let flag = |s: int|
            if system.bounds.hydros@[k]@[s].max_outflow_m3s is Some {
                1nat
            } else {
                0nat
            };
        joined_len(n, part, 7, flag);
    }
    joined_len(system.hydros@.len() as int, hydros, (7 * n) as nat, maxima);
    let thermals = |k: int| thermal_rows(system, k);
    assert forall|k: int| #[trigger] thermals(k).len() == (2 * n) as nat + none(k) by {
        let part = |s: int|
            thermal_stage_rows(
                system.thermals@[k].id.0,
                system.stage_ids@[s],
                system.bounds.thermals@[k]@[s],
            );
        joined_len(n, part, 2, none);
    }
    joined_len(system.thermals@.len() as int, thermals, (2 * n) as nat, none);
    nothing_more(system.thermals@.len() as int);
    let lines = |k: int| line_rows(system, k);
    assert forall|k: int| #[trigger] lines(k).len() == (2 * n) as nat + none(k) by {
        let part = |s: int|
            line_stage_rows(
                system.lines@[k].id.0,
                system.stage_ids@[s],
                system.bounds.lines@[k]@[s],
            );
        joined_len(n, part, 2, none);
    }
    joined_len(system.lines@.len() as int, lines, (2 * n) as nat, none);
    nothing_more(system.lines@.len() as int);
    let stations = |k: int| pumping_rows(system, k);
    assert forall|k: int| #[trigger] stations(k).len() == (2 * n) as nat + none(k) by {
        let part = |s: int|
            pumping_stage_rows(
                system.pumping_stations@[k].id.0,
                system.stage_ids@[s],
                system.bounds.pumping_stations@[k]@[s],
            );
        joined_len(n, part, 2, none);
    }
    joined_len(system.pumping_stations@.len() as int, stations, (2 * n) as nat, none);
    nothing_more(system.pumping_stations@.len() as int);
    let contracts = |k: int| contract_rows(system, k);
    assert forall|k: int| #[trigger] contracts(k).len() == (2 * n) as nat + none(k) by {
        let part = |s: int|
            contract_stage_rows(
                system.contracts@[k].id.0,
                system.stage_ids@[s],
                system.bounds.contracts@[k]@[s],
            );
        joined_len(n, part, 2, none);
    }
    joined_len(system.contracts@.len() as int, contracts, (2 * n) as nat, none);
    nothing_more(system.contracts@.len() as int);
    let h = system.hydros@.len() as int;
    let t = system.thermals@.len() as int;
    let l = system.lines@.len() as int;
    let p = system.pumping_stations@.len() as int;
    let c = system.contracts@.len() as int;
    assert(h * (7 * n) + t * (2 * n) + l * (2 * n) + p * (2 * n) + c * (2 * n) == n * (7 * h + 2 * t
        + 2 * l + 2 * p + 2 * c)) by (nonlinear_arith);
}

/// There is at most one row per entity, stage and kind of bound.
pub proof fn no_bound_is_given_twice(system: System)
    requires
        system.well_formed(),
        identified(system),
    ensures
        distinct(bound_rows_of(system)),
{
    hydro_rows_hold(system);
    thermal_rows_hold(system);
    line_rows_hold(system);
    pumping_rows_hold(system);
    contract_rows_hold(system);
    let hydro = joined(system.hydros@.len() as int, |k: int| hydro_rows(system, k));
    let thermal = joined(system.thermals@.len() as int, |k: int| thermal_rows(system, k));
    let line = joined(system.lines@.len() as int, |k: int| line_rows(system, k));
    let pumping = joined(system.pumping_stations@.len() as int, |k: int| pumping_rows(system, k));
    let contract = joined(system.contracts@.len() as int, |k: int| contract_rows(system, k));
    sum_is_distinct(hydro, thermal);
    sum_is_distinct(hydro + thermal, line);
    sum_is_distinct(hydro + thermal + line, pumping);
    sum_is_distinct(hydro + thermal + line + pumping, contract);
}

/// Every code in the rows has a label among the codes, and no row is of a bus or a
/// non-controllable source.
pub proof fn bound_codes_are_known(system: System, i: int)
    requires
        system.well_formed(),
        0 <= i < bound_rows_of(system).len(),
    ensures
        codes::labelled(codes::entity_type_codes(), bound_rows_of(system)[i].entity_type_code),
        codes::labelled(codes::bound_type_codes(), bound_rows_of(system)[i].bound_type_code),
        bound_rows_of(system)[i].entity_type_code != codes::ENTITY_TYPE_BUS,
        bound_rows_of(system)[i].entity_type_code != codes::ENTITY_TYPE_NON_CONTROLLABLE,
{
    hydro_rows_hold(system);
    thermal_rows_hold(system);
    line_rows_hold(system);
    pumping_rows_hold(system);
    contract_rows_hold(system);
    let c = codes::entity_type_codes();
    assert(c[0].0 == codes::ENTITY_TYPE_HYDRO);
    assert(c[1].0 == codes::ENTITY_TYPE_THERMAL);
    assert(c[3].0 == codes::ENTITY_TYPE_LINE);
    assert(c[4].0 == codes::ENTITY_TYPE_PUMPING_STATION);
    assert(c[5].0 == codes::ENTITY_TYPE_CONTRACT);
}

/// Every bound of every hydro plant at every stage has its row.
pub proof fn hydro_bounds_are_there(system: System, k: int, s: int, row: BoundRow)
    requires
        0 <= k < system.hydros@.len(),
        0 <= s < system.bounds.n_stages,
        hydro_stage_rows(
            system.hydros@[k].id.0,
            system.stage_ids@[s],
            system.bounds.hydros@[k]@[s],
        ).contains(row),
    ensures
        bound_rows_of(system).contains(row),
{
    let cell = |s: int|
        hydro_stage_rows(
            system.hydros@[k].id.0,
            system.stage_ids@[s],
            system.bounds.hydros@[k]@[s],
        );
    assert(cell(s).contains(row));
    joined_has(system.bounds.n_stages as int, cell, s, row);
    let part = |k: int| hydro_rows(system, k);
    assert(part(k).contains(row));
    joined_has(system.hydros@.len() as int, part, k, row);
    let rows = joined(system.hydros@.len() as int, part);
    let i = choose|i: int| 0 <= i < rows.len() && rows[i] == row;
    assert(bound_rows_of(system)[i] == row);
}

/// Every bound of every thermal plant at every stage has its row.
pub proof fn thermal_bounds_are_there(system: System, k: int, s: int, row: BoundRow)
    requires
        0 <= k < system.thermals@.len(),
        0 <= s < system.bounds.n_stages,
        thermal_stage_rows(
            system.thermals@[k].id.0,
            system.stage_ids@[s],
            system.bounds.thermals@[k]@[s],
        ).contains(row),
    ensures
        bound_rows_of(system).contains(row),
{
    let cell = |s: int|
        thermal_stage_rows(
            system.thermals@[k].id.0,
            system.stage_ids@[s],
            system.bounds.thermals@[k]@[s],
        );
    assert(cell(s).contains(row));
    joined_has(system.bounds.n_stages as int, cell, s, row);
    let part = |k: int| thermal_rows(system, k);
    assert(part(k).contains(row));
    joined_has(system.thermals@.len() as int, part, k, row);
    let rows = joined(system.thermals@.len() as int, part);
    let i = choose|i: int| 0 <= i < rows.len() && rows[i] == row;
    let before = joined(system.hydros@.len() as int, |k: int| hydro_rows(system, k));
    assert(bound_rows_of(system)[before.len() + i] == row);
}

/// Every bound of every line at every stage has its row.
pub proof fn line_bounds_are_there(system: System, k: int, s: int, row: BoundRow)
    requires
        0 <= k < system.lines@.len(),
        0 <= s < system.bounds.n_stages,
        line_stage_rows(
            system.lines@[k].id.0,
            system.stage_ids@[s],
            system.bounds.lines@[k]@[s],
        ).contains(row),
    ensures
        bound_rows_of(system).contains(row),
{
    let cell = |s: int|
        line_stage_rows(
            system.lines@[k].id.0,
            system.stage_ids@[s],
            system.bounds.lines@[k]@[s],
        );
    assert(cell(s).contains(row));
    joined_has(system.bounds.n_stages as int, cell, s, row);
    let part = |k: int| line_rows(system, k);
    assert(part(k).contains(row));
    joined_has(system.lines@.len() as int, part, k, row);
    let rows = joined(system.lines@.len() as int, part);
    let i = choose|i: int| 0 <= i < rows.len() && rows[i] == row;
    let before = joined(system.hydros@.len() as int, |k: int| hydro_rows(system, k))
        + joined(system.thermals@.len() as int, |k: int| thermal_rows(system, k));
    assert(bound_rows_of(system)[before.len() + i] == row);
}

/// Every bound of every pumping station at every stage has its row.
pub proof fn pumping_bounds_are_there(system: System, k: int, s: int, row: BoundRow)
    requires
        0 <= k < system.pumping_stations@.len(),
        0 <= s < system.bounds.n_stages,
        pumping_stage_rows(
            system.pumping_stations@[k].id.0,
            system.stage_ids@[s],
            system.bounds.pumping_stations@[k]@[s],
        ).contains(row),
    ensures
        bound_rows_of(system).contains(row),
{
    let cell = |s: int|
        pumping_stage_rows(
            system.pumping_stations@[k].id.0,
            system.stage_ids@[s],
            system.bounds.pumping_stations@[k]@[s],
        );
    assert(cell(s).contains(row));
    joined_has(system.bounds.n_stages as int, cell, s, row);
    let part = |k: int| pumping_rows(system, k);
    assert(part(k).contains(row));
    joined_has(system.pumping_stations@.len() as int, part, k, row);
    let rows = joined(system.pumping_stations@.len() as int, part);
    let i = choose|i: int| 0 <= i < rows.len() && rows[i] == row;
    let before = joined(system.hydros@.len() as int, |k: int| hydro_rows(system, k))
        + joined(system.thermals@.len() as int, |k: int| thermal_rows(system, k))
        + joined(system.lines@.len() as int, |k: int| line_rows(system, k));
    assert(bound_rows_of(system)[before.len() + i] == row);
}

/// Every bound of every contract at every stage has its row.
pub proof fn contract_bounds_are_there(system: System, k: int, s: int, row: BoundRow)
    requires
        0 <= k < system.contracts@.len(),
        0 <= s < system.bounds.n_stages,
        contract_stage_rows(
            system.contracts@[k].id.0,
            system.stage_ids@[s],
            system.bounds.contracts@[k]@[s],
        ).contains(row),
    ensures
        bound_rows_of(system).contains(row),
{
    let cell = |s: int|
        contract_stage_rows(
            system.contracts@[k].id.0,
            system.stage_ids@[s],
            system.bounds.contracts@[k]@[s],
        );
    assert(cell(s).contains(row));
    joined_has(system.bounds.n_stages as int, cell, s, row);
    let part = |k: int| contract_rows(system, k);
    assert(part(k).contains(row));
    joined_has(system.contracts@.len() as int, part, k, row);
    let rows = joined(system.contracts@.len() as int, part);
    let i = choose|i: int| 0 <= i < rows.len() && rows[i] == row;
    let before = joined(system.hydros@.len() as int, |k: int| hydro_rows(system, k))
        + joined(system.thermals@.len() as int, |k: int| thermal_rows(system, k))
        + joined(system.lines@.len() as int, |k: int| line_rows(system, k))
        + joined(system.pumping_stations@.len() as int, |k: int| pumping_rows(system, k));
    assert(bound_rows_of(system)[before.len() + i] == row);
}

/// Each bound of a hydro plant at a stage has a row with its type, its own id, the stage's id,
/// the code of that bound and the value of that bound. The
/// greatest outflow has one only where there is one.
pub proof fn hydro_rows_give_their_bounds(system: System, k: int, s: int)
    requires
        0 <= k < system.hydros@.len(),
        0 <= s < system.bounds.n_stages,
    ensures
        bound_rows_of(system).contains(
            (
            BoundRow {
                entity_type_code: codes::ENTITY_TYPE_HYDRO,
                entity_id: system.hydros@[k].id.0,
                stage_id: system.stage_ids@[s],
                bound_type_code: codes::BOUND_STORAGE_MIN,
                bound_value: system.bounds.hydros@[k]@[s].min_storage_hm3,
            }
            ),
        ),
        bound_rows_of(system).contains(
            (
            BoundRow {
                entity_type_code: codes::ENTITY_TYPE_HYDRO,
                entity_id: system.hydros@[k].id.0,
                stage_id: system.stage_ids@[s],
                bound_type_code: codes::BOUND_STORAGE_MAX,
                bound_value: system.bounds.hydros@[k]@[s].max_storage_hm3,
            }
            ),
        ),
        bound_rows_of(system).contains(
            (
            BoundRow {
                entity_type_code: codes::ENTITY_TYPE_HYDRO,
                entity_id: system.hydros@[k].id.0,
                stage_id: system.stage_ids@[s],
                bound_type_code: codes::BOUND_TURBINED_MIN,
                bound_value: system.bounds.hydros@[k]@[s].min_turbined_m3s,
            }
            ),
        ),
        bound_rows_of(system).contains(
            (
            BoundRow {
                entity_type_code: codes::ENTITY_TYPE_HYDRO,
                entity_id: system.hydros@[k].id.0,
                stage_id: system.stage_ids@[s],
                bound_type_code: codes::BOUND_TURBINED_MAX,
                bound_value: system.bounds.hydros@[k]@[s].max_turbined_m3s,
            }
            ),
        ),
        bound_rows_of(system).contains(
            (
            BoundRow {
                entity_type_code: codes::ENTITY_TYPE_HYDRO,
                entity_id: system.hydros@[k].id.0,
                stage_id: system.stage_ids@[s],
                bound_type_code: codes::BOUND_OUTFLOW_MIN,
                bound_value: system.bounds.hydros@[k]@[s].min_outflow_m3s,
            }
            ),
        ),
        bound_rows_of(system).contains(
            (
            BoundRow {
                entity_type_code: codes::ENTITY_TYPE_HYDRO,
                entity_id: system.hydros@[k].id.0,
                stage_id: system.stage_ids@[s],
                bound_type_code: codes::BOUND_GENERATION_MIN,
                bound_value: system.bounds.hydros@[k]@[s].min_generation_mw,
            }
            ),
        ),
        bound_rows_of(system).contains(
            (
            BoundRow {
                entity_type_code: codes::ENTITY_TYPE_HYDRO,
                entity_id: system.hydros@[k].id.0,
                stage_id: system.stage_ids@[s],
                bound_type_code: codes::BOUND_GENERATION_MAX,
                bound_value: system.bounds.hydros@[k]@[s].max_generation_mw,
            }
            ),
        ),
        system.bounds.hydros@[k]@[s].max_outflow_m3s matches Some(x) ==> bound_rows_of(
            system,
        ).contains(
            (
            BoundRow {
                entity_type_code: codes::ENTITY_TYPE_HYDRO,
                entity_id: system.hydros@[k].id.0,
                stage_id: system.stage_ids@[s],
                bound_type_code: codes::BOUND_OUTFLOW_MAX,
                bound_value: x,
            }
            ),
        ),
{
    let rows = hydro_stage_rows(
        system.hydros@[k].id.0,
        system.stage_ids@[s],
        system.bounds.hydros@[k]@[s],
    );
    assert forall|i: int| 0 <= i < rows.len() implies bound_rows_of(system).contains(
        #[trigger] rows[i],
    ) by {
        assert(rows.contains(rows[i]));
        hydro_bounds_are_there(system, k, s, rows[i]);
    }
    let n = rows.len() as int;
    assert(rows[0].bound_type_code == codes::BOUND_STORAGE_MIN);
    assert(rows[1].bound_type_code == codes::BOUND_STORAGE_MAX);
    assert(rows[2].bound_type_code == codes::BOUND_TURBINED_MIN);
    assert(rows[3].bound_type_code == codes::BOUND_TURBINED_MAX);
    assert(rows[4].bound_type_code == codes::BOUND_OUTFLOW_MIN);
    assert(rows[n - 2].bound_type_code == codes::BOUND_GENERATION_MIN);
    assert(rows[n - 1].bound_type_code == codes::BOUND_GENERATION_MAX);
    if system.bounds.hydros@[k]@[s].max_outflow_m3s is Some {
        assert(rows[5].bound_type_code == codes::BOUND_OUTFLOW_MAX);
    }
}

/// Each bound of a thermal plant at a stage has a row with its type, its own id, the stage's id,
/// the code of that bound and the value of that bound.
pub proof fn thermal_rows_give_their_bounds(system: System, k: int, s: int)
    requires
        0 <= k < system.thermals@.len(),
        0 <= s < system.bounds.n_stages,
    ensures
        bound_rows_of(system).contains(
            (
            BoundRow {
                entity_type_code: codes::ENTITY_TYPE_THERMAL,
                entity_id: system.thermals@[k].id.0,
                stage_id: system.stage_ids@[s],
                bound_type_code: codes::BOUND_GENERATION_MIN,
                bound_value: system.bounds.thermals@[k]@[s].min_generation_mw,
            }
            ),
        ),
        bound_rows_of(system).contains(
            (
            BoundRow {
                entity_type_code: codes::ENTITY_TYPE_THERMAL,
                entity_id: system.thermals@[k].id.0,
                stage_id: system.stage_ids@[s],
                bound_type_code: codes::BOUND_GENERATION_MAX,
                bound_value: system.bounds.thermals@[k]@[s].max_generation_mw,
            }
            ),
        ),
{
    let rows = thermal_stage_rows(
        system.thermals@[k].id.0,
        system.stage_ids@[s],
        system.bounds.thermals@[k]@[s],
    );
    assert forall|i: int| 0 <= i < rows.len() implies bound_rows_of(system).contains(
        #[trigger] rows[i],
    ) by {
        assert(rows.contains(rows[i]));
        thermal_bounds_are_there(system, k, s, rows[i]);
    }
    assert(rows[0].bound_type_code == codes::BOUND_GENERATION_MIN);
    assert(rows[1].bound_type_code == codes::BOUND_GENERATION_MAX);
}

/// Each bound of a line at a stage has a row with its type, its own id, the stage's id,
/// the code of that bound and the value of that bound. The least flow
/// of a line is zero.
pub proof fn line_rows_give_their_bounds(system: System, k: int, s: int)
    requires
        0 <= k < system.lines@.len(),
        0 <= s < system.bounds.n_stages,
    ensures
        bound_rows_of(system).contains(
            (
            BoundRow {
                entity_type_code: codes::ENTITY_TYPE_LINE,
                entity_id: system.lines@[k].id.0,
                stage_id: system.stage_ids@[s],
                bound_type_code: codes::BOUND_FLOW_MIN,
                bound_value: Float64 { bits: 0 },
            }
            ),
        ),
        bound_rows_of(system).contains(
            (
            BoundRow {
                entity_type_code: codes::ENTITY_TYPE_LINE,
                entity_id: system.lines@[k].id.0,
                stage_id: system.stage_ids@[s],
                bound_type_code: codes::BOUND_FLOW_MAX,
                bound_value: system.bounds.lines@[k]@[s].direct_mw,
            }
            ),
        ),
{
    let rows = line_stage_rows(
        system.lines@[k].id.0,
        system.stage_ids@[s],
        system.bounds.lines@[k]@[s],
    );
    assert forall|i: int| 0 <= i < rows.len() implies bound_rows_of(system).contains(
        #[trigger] rows[i],
    ) by {
        assert(rows.contains(rows[i]));
        line_bounds_are_there(system, k, s, rows[i]);
    }
    assert(rows[0].bound_type_code == codes::BOUND_FLOW_MIN);
    assert(rows[1].bound_type_code == codes::BOUND_FLOW_MAX);
}

/// Each bound of a pumping station at a stage has a row with its type, its own id, the stage's id,
/// the code of that bound and the value of that bound.
pub proof fn pumping_rows_give_their_bounds(system: System, k: int, s: int)
    requires
        0 <= k < system.pumping_stations@.len(),
        0 <= s < system.bounds.n_stages,
    ensures
        bound_rows_of(system).contains(
            (
            BoundRow {
                entity_type_code: codes::ENTITY_TYPE_PUMPING_STATION,
                entity_id: system.pumping_stations@[k].id.0,
                stage_id: system.stage_ids@[s],
                bound_type_code: codes::BOUND_FLOW_MIN,
                bound_value: system.bounds.pumping_stations@[k]@[s].min_flow_m3s,
            }
            ),
        ),
        bound_rows_of(system).contains(
            (
            BoundRow {
                entity_type_code: codes::ENTITY_TYPE_PUMPING_STATION,
                entity_id: system.pumping_stations@[k].id.0,
                stage_id: system.stage_ids@[s],
                bound_type_code: codes::BOUND_FLOW_MAX,
                bound_value: system.bounds.pumping_stations@[k]@[s].max_flow_m3s,
            }
            ),
        ),
{
    let rows = pumping_stage_rows(
        system.pumping_stations@[k].id.0,
        system.stage_ids@[s],
        system.bounds.pumping_stations@[k]@[s],
    );
    assert forall|i: int| 0 <= i < rows.len() implies bound_rows_of(system).contains(
        #[trigger] rows[i],
    ) by {
        assert(rows.contains(rows[i]));
        pumping_bounds_are_there(system, k, s, rows[i]);
    }
    assert(rows[0].bound_type_code == codes::BOUND_FLOW_MIN);
    assert(rows[1].bound_type_code == codes::BOUND_FLOW_MAX);
}

/// Each bound of a contract at a stage has a row with its type, its own id, the stage's id,
/// the code of that bound and the value of that bound.
pub proof fn contract_rows_give_their_bounds(system: System, k: int, s: int)
    requires
        0 <= k < system.contracts@.len(),
        0 <= s < system.bounds.n_stages,
    ensures
        bound_rows_of(system).contains(
            (
            BoundRow {
                entity_type_code: codes::ENTITY_TYPE_CONTRACT,
                entity_id: system.contracts@[k].id.0,
                stage_id: system.stage_ids@[s],
                bound_type_code: codes::BOUND_FLOW_MIN,
                bound_value: system.bounds.contracts@[k]@[s].min_mw,
            }
            ),
        ),
        bound_rows_of(system).contains(
            (
            BoundRow {
                entity_type_code: codes::ENTITY_TYPE_CONTRACT,
                entity_id: system.contracts@[k].id.0,
                stage_id: system.stage_ids@[s],
                bound_type_code: codes::BOUND_FLOW_MAX,
                bound_value: system.bounds.contracts@[k]@[s].max_mw,
            }
            ),
        ),
{
    let rows = contract_stage_rows(
        system.contracts@[k].id.0,
        system.stage_ids@[s],
        system.bounds.contracts@[k]@[s],
    );
    assert forall|i: int| 0 <= i < rows.len() implies bound_rows_of(system).contains(
        #[trigger] rows[i],
    ) by {
        assert(rows.contains(rows[i]));
        contract_bounds_are_there(system, k, s, rows[i]);
    }
    assert(rows[0].bound_type_code == codes::BOUND_FLOW_MIN);
    assert(rows[1].bound_type_code == codes::BOUND_FLOW_MAX);
}

// ── The order of the rows ────────────────────────────────────────────────────

/// One row comes before another: by the code of the entity's type, then by entity, then
/// by stage, then by the code of the bound.
pub open spec fn comes_before(a: BoundRow, b: BoundRow) -> bool {
    ||| a.entity_type_code < b.entity_type_code
    ||| a.entity_type_code == b.entity_type_code && a.entity_id < b.entity_id
    ||| a.entity_type_code == b.entity_type_code && a.entity_id == b.entity_id && a.stage_id
        < b.stage_id
    ||| a.entity_type_code == b.entity_type_code && a.entity_id == b.entity_id && a.stage_id
        == b.stage_id && a.bound_type_code < b.bound_type_code
}

spec fn in_sequence(rows: Seq<BoundRow>) -> bool {
    forall|i: int, j: int|
        0 <= i < j < rows.len() ==> comes_before(#[trigger] rows[i], #[trigger] rows[j])
}

spec fn all_before(a: Seq<BoundRow>, b: Seq<BoundRow>) -> bool {
    forall|i: int, j: int|
        0 <= i < a.len() && 0 <= j < b.len() ==> comes_before(#[trigger] a[i], #[trigger] b[j])
}

spec fn climbing(ids: Seq<i32>) -> bool {
    forall|i: int, j: int| 0 <= i < j < ids.len() ==> #[trigger] ids[i] < #[trigger] ids[j]
}

proof fn joined_is_before(n: int, part: spec_fn(int) -> Seq<BoundRow>, b: Seq<BoundRow>)
    requires
        forall|k: int| 0 <= k < n ==> all_before(#[trigger] part(k), b),
    ensures
        all_before(joined(n, part), b),
    decreases n,
{
    if n > 0 {
        joined_is_before(n - 1, part, b);
        assert(all_before(part(n - 1), b));
    }
}

proof fn joined_is_in_sequence(n: int, part: spec_fn(int) -> Seq<BoundRow>)
    requires
        forall|k: int| 0 <= k < n ==> in_sequence(#[trigger] part(k)),
        forall|k: int, m: int|
            0 <= k < m < n ==> all_before(#[trigger] part(k), #[trigger] part(m)),
    ensures
        in_sequence(joined(n, part)),
    decreases n,
{
    if n > 0 {
        joined_is_in_sequence(n - 1, part);
        joined_is_before(n - 1, part, part(n - 1));
        assert(in_sequence(part(n - 1)));
    }
}

proof fn type_is_in_sequence(
    entity: i8,
    ids: Seq<i32>,
    stages: Seq<i32>,
    n: int,
    cell: spec_fn(int, int) -> Seq<BoundRow>,
    part: spec_fn(int) -> Seq<BoundRow>,
)
    requires
        0 <= n <= stages.len(),
        climbing(ids),
        climbing(stages),
        forall|k: int|
            0 <= k < ids.len() ==> #[trigger] part(k) == joined(n, |s: int| cell(k, s)),
        forall|k: int, s: int|
            0 <= k < ids.len() && 0 <= s < n ==> {
                &&& in_sequence(#[trigger] cell(k, s))
                &&& of_type(cell(k, s), entity)
                &&& of_entity(cell(k, s), ids[k])
                &&& of_stage(cell(k, s), stages[s])
            },
    ensures
        of_type(joined(ids.len() as int, part), entity),
        in_sequence(joined(ids.len() as int, part)),
{
    assert forall|k: int| 0 <= k < ids.len() implies of_type(#[trigger] part(k), entity)
        && of_entity(part(k), ids[k]) && in_sequence(part(k)) by {
        let row = |s: int| cell(k, s);
        assert forall|s: int| 0 <= s < n implies of_type(#[trigger] row(s), entity) && of_entity(
            row(s),
            ids[k],
        ) && in_sequence(row(s)) by {
            assert(in_sequence(cell(k, s)));
        }
        joined_is_of_type(n, row, entity);
        joined_is_of_entity(n, row, ids[k]);
        assert forall|s: int, t: int| 0 <= s < t < n implies all_before(
            #[trigger] row(s),
            #[trigger] row(t),
        ) by {
            assert(of_stage(cell(k, s), stages[s]));
            assert(of_stage(cell(k, t), stages[t]));
            assert(stages[s] < stages[t]);
        }
        joined_is_in_sequence(n, row);
    }
    joined_is_of_type(ids.len() as int, part, entity);
    assert forall|k: int, m: int| 0 <= k < m < ids.len() implies all_before(
        #[trigger] part(k),
        #[trigger] part(m),
    ) by {
        assert(ids[k] < ids[m]);
    }
    joined_is_in_sequence(ids.len() as int, part);
}

proof fn hydro_rows_are_in_sequence(system: System)
    requires
        system.well_formed(),
        climbing(hydro_ids(system)),
        climbing(system.stage_ids@),
    ensures
        ({
            let rows = joined(system.hydros@.len() as int, |k: int| hydro_rows(system, k));
            of_type(rows, codes::ENTITY_TYPE_HYDRO) && in_sequence(rows)
        }),
{
    bound_codes_have_labels();
    let cell = |k: int, s: int|
        hydro_stage_rows(
            system.hydros@[k].id.0,
            system.stage_ids@[s],
            system.bounds.hydros@[k]@[s],
        );
    let part = |k: int| hydro_rows(system, k);
    assert forall|k: int| 0 <= k < system.hydros@.len() implies #[trigger] part(k) == joined(
        system.bounds.n_stages as int,
        |s: int| cell(k, s),
    ) by {
        joined_agrees(
            system.bounds.n_stages as int,
            |s: int| cell(k, s),
            |s: int|
                hydro_stage_rows(
                    system.hydros@[k].id.0,
                    system.stage_ids@[s],
                    system.bounds.hydros@[k]@[s],
                ),
        );
    }
    type_is_in_sequence(
        codes::ENTITY_TYPE_HYDRO,
        hydro_ids(system),
        system.stage_ids@,
        system.bounds.n_stages as int,
        cell,
        part,
    );
}

proof fn thermal_rows_are_in_sequence(system: System)
    requires
        system.well_formed(),
        climbing(thermal_ids(system)),
        climbing(system.stage_ids@),
    ensures
        ({
            let rows = joined(system.thermals@.len() as int, |k: int| thermal_rows(system, k));
            of_type(rows, codes::ENTITY_TYPE_THERMAL) && in_sequence(rows)
        }),
{
    bound_codes_have_labels();
    let cell = |k: int, s: int|
        thermal_stage_rows(
            system.thermals@[k].id.0,
            system.stage_ids@[s],
            system.bounds.thermals@[k]@[s],
        );
    let part = |k: int| thermal_rows(system, k);
    assert forall|k: int| 0 <= k < system.thermals@.len() implies #[trigger] part(k) == joined(
        system.bounds.n_stages as int,
        |s: int| cell(k, s),
    ) by {
        joined_agrees(
            system.bounds.n_stages as int,
            |s: int| cell(k, s),
            |s: int|
                thermal_stage_rows(
                    system.thermals@[k].id.0,
                    system.stage_ids@[s],
                    system.bounds.thermals@[k]@[s],
                ),
        );
    }
    type_is_in_sequence(
        codes::ENTITY_TYPE_THERMAL,
        thermal_ids(system),
        system.stage_ids@,
        system.bounds.n_stages as int,
        cell,
        part,
    );
}

proof fn line_rows_are_in_sequence(system: System)
    requires
        system.well_formed(),
        climbing(line_ids(system)),
        climbing(system.stage_ids@),
    ensures
        ({
            let rows = joined(system.lines@.len() as int, |k: int| line_rows(system, k));
            of_type(rows, codes::ENTITY_TYPE_LINE) && in_sequence(rows)
        }),
{
    bound_codes_have_labels();
    let cell = |k: int, s: int|
        line_stage_rows(
            system.lines@[k].id.0,
            system.stage_ids@[s],
            system.bounds.lines@[k]@[s],
        );
    let part = |k: int| line_rows(system, k);
    assert forall|k: int| 0 <= k < system.lines@.len() implies #[trigger] part(k) == joined(
        system.bounds.n_stages as int,
        |s: int| cell(k, s),
    ) by {
        joined_agrees(
            system.bounds.n_stages as int,
            |s: int| cell(k, s),
            |s: int|
                line_stage_rows(
                    system.lines@[k].id.0,
                    system.stage_ids@[s],
                    system.bounds.lines@[k]@[s],
                ),
        );
    }
    type_is_in_sequence(
        codes::ENTITY_TYPE_LINE,
        line_ids(system),
        system.stage_ids@,
        system.bounds.n_stages as int,
        cell,
        part,
    );
}

proof fn pumping_rows_are_in_sequence(system: System)
    requires
        system.well_formed(),
        climbing(pumping_ids(system)),
        climbing(system.stage_ids@),
    ensures
        ({
            let rows = joined(system.pumping_stations@.len() as int, |k: int| pumping_rows(system, k));
            of_type(rows, codes::ENTITY_TYPE_PUMPING_STATION) && in_sequence(rows)
        }),
{
    bound_codes_have_labels();
    let cell = |k: int, s: int|
        pumping_stage_rows(
            system.pumping_stations@[k].id.0,
            system.stage_ids@[s],
            system.bounds.pumping_stations@[k]@[s],
        );
    let part = |k: int| pumping_rows(system, k);
    assert forall|k: int| 0 <= k < system.pumping_stations@.len() implies #[trigger] part(k) == joined(
        system.bounds.n_stages as int,
        |s: int| cell(k, s),
    ) by {
        joined_agrees(
            system.bounds.n_stages as int,
            |s: int| cell(k, s),
            |s: int|
                pumping_stage_rows(
                    system.pumping_stations@[k].id.0,
                    system.stage_ids@[s],
                    system.bounds.pumping_stations@[k]@[s],
                ),
        );
    }
    type_is_in_sequence(
        codes::ENTITY_TYPE_PUMPING_STATION,
        pumping_ids(system),
        system.stage_ids@,
        system.bounds.n_stages as int,
        cell,
        part,
    );
}

proof fn contract_rows_are_in_sequence(system: System)
    requires
        system.well_formed(),
        climbing(contract_ids(system)),
        climbing(system.stage_ids@),
    ensures
        ({
            let rows = joined(system.contracts@.len() as int, |k: int| contract_rows(system, k));
            of_type(rows, codes::ENTITY_TYPE_CONTRACT) && in_sequence(rows)
        }),
{
    bound_codes_have_labels();
    let cell = |k: int, s: int|
        contract_stage_rows(
            system.contracts@[k].id.0,
            system.stage_ids@[s],
            system.bounds.contracts@[k]@[s],
        );
    let part = |k: int| contract_rows(system, k);
    assert forall|k: int| 0 <= k < system.contracts@.len() implies #[trigger] part(k) == joined(
        system.bounds.n_stages as int,
        |s: int| cell(k, s),
    ) by {
        joined_agrees(
            system.bounds.n_stages as int,
            |s: int| cell(k, s),
            |s: int|
                contract_stage_rows(
                    system.contracts@[k].id.0,
                    system.stage_ids@[s],
                    system.bounds.contracts@[k]@[s],
                ),
        );
    }
    type_is_in_sequence(
        codes::ENTITY_TYPE_CONTRACT,
        contract_ids(system),
        system.stage_ids@,
        system.bounds.n_stages as int,
        cell,
        part,
    );
}

/// Where the entities of each type and the stages are listed by ascending id, the rows
/// ascend by type, entity, stage and bound.
pub proof fn rows_come_in_order(system: System, i: int, j: int)
    requires
        system.well_formed(),
        forall|i: int, j: int|
            0 <= i < j < system.hydros@.len() ==> (#[trigger] system.hydros@[i]).id.0 < (
            #[trigger] system.hydros@[j]).id.0,
        forall|i: int, j: int|
            0 <= i < j < system.thermals@.len() ==> (#[trigger] system.thermals@[i]).id.0 < (
            #[trigger] system.thermals@[j]).id.0,
        forall|i: int, j: int|
            0 <= i < j < system.lines@.len() ==> (#[trigger] system.lines@[i]).id.0 < (
            #[trigger] system.lines@[j]).id.0,
        forall|i: int, j: int|
            0 <= i < j < system.pumping_stations@.len() ==> (#[trigger] system.pumping_stations@[i]).id.0 < (
            #[trigger] system.pumping_stations@[j]).id.0,
        forall|i: int, j: int|
            0 <= i < j < system.contracts@.len() ==> (#[trigger] system.contracts@[i]).id.0 < (
            #[trigger] system.contracts@[j]).id.0,
        forall|s: int, t: int|
            0 <= s < t < system.stage_ids@.len() ==> #[trigger] system.stage_ids@[s]
                < #[trigger] system.stage_ids@[t],
        0 <= i < j < bound_rows_of(system).len(),
    ensures
        comes_before(bound_rows_of(system)[i], bound_rows_of(system)[j]),
{
    assert(climbing(hydro_ids(system)));
    hydro_rows_are_in_sequence(system);
    assert(climbing(thermal_ids(system)));
    thermal_rows_are_in_sequence(system);
    assert(climbing(line_ids(system)));
    line_rows_are_in_sequence(system);
    assert(climbing(pumping_ids(system)));
    pumping_rows_are_in_sequence(system);
    assert(climbing(contract_ids(system)));
    contract_rows_are_in_sequence(system);
}

// ── The table ────────────────────────────────────────────────────────────────

/// The table of bounds.
pub open spec fn bounds_table(rows: Seq<BoundRow>) -> TableView {
    TableView {
        rows: rows.len(),
        columns: seq![
            table::smalls_column(
                "entity_type_code",
                false,
                Seq::new(rows.len(), |i: int| table::filled(rows[i].entity_type_code)),
            ),
            table::ints_column(
                "entity_id",
                false,
                Seq::new(rows.len(), |i: int| table::filled(rows[i].entity_id)),
            ),
            table::ints_column(
                "stage_id",
                false,
                Seq::new(rows.len(), |i: int| table::filled(rows[i].stage_id)),
            ),
            table::ints_column(
                "block_id",
                true,
                Seq::new(rows.len(), |i: int| table::int_cell(None)),
            ),
            table::smalls_column(
                "bound_type_code",
                false,
                Seq::new(rows.len(), |i: int| table::filled(rows[i].bound_type_code)),
            ),
            table::floats_column(
                "bound_value",
                false,
                Seq::new(rows.len(), |i: int| table::filled(rows[i].bound_value)),
            ),
        ],
    }
}

/// Lays bounds out in columns, in the order given.
fn lay_out(rows: &[BoundRow]) -> (r: Table)
    ensures
        r@ == bounds_table(rows@),
        r@.well_formed(),
{
    let mut entity_type_code: Vec<Cell<i8>> = Vec::new();
    let mut entity_id: Vec<Cell<i32>> = Vec::new();
    let mut stage_id: Vec<Cell<i32>> = Vec::new();
    let mut block_id: Vec<Cell<i32>> = Vec::new();
    let mut bound_type_code: Vec<Cell<i8>> = Vec::new();
    let mut bound_value: Vec<Cell<Float64>> = Vec::new();
    for i in 0..rows.len()
        invariant
            entity_type_code@.len() == i,
            entity_id@.len() == i,
            stage_id@.len() == i,
            block_id@.len() == i,
            bound_type_code@.len() == i,
            bound_value@.len() == i,
            forall|j: int| 0 <= j < i ==> #[trigger] entity_type_code@[j] == table::filled(rows@[j].entity_type_code),
            forall|j: int| 0 <= j < i ==> #[trigger] entity_id@[j] == table::filled(rows@[j].entity_id),
            forall|j: int| 0 <= j < i ==> #[trigger] stage_id@[j] == table::filled(rows@[j].stage_id),
            forall|j: int| 0 <= j < i ==> #[trigger] block_id@[j] == table::int_cell(None),
            forall|j: int| 0 <= j < i ==> #[trigger] bound_type_code@[j] == table::filled(rows@[j].bound_type_code),
            forall|j: int| 0 <= j < i ==> #[trigger] bound_value@[j] == table::filled(rows@[j].bound_value),
    {
        let row: &BoundRow = &rows[i];
        entity_type_code.push(table::fill(row.entity_type_code));
        entity_id.push(table::fill(row.entity_id));
        stage_id.push(table::fill(row.stage_id));
        block_id.push(table::fill_int(None));
        bound_type_code.push(table::fill(row.bound_type_code));
        bound_value.push(table::fill(row.bound_value));
    }
    proof {
        assert(entity_type_code@ =~= Seq::new(rows@.len(), |i: int| table::filled(rows@[i].entity_type_code)));
        assert(entity_id@ =~= Seq::new(rows@.len(), |i: int| table::filled(rows@[i].entity_id)));
        assert(stage_id@ =~= Seq::new(rows@.len(), |i: int| table::filled(rows@[i].stage_id)));
        assert(block_id@ =~= Seq::new(rows@.len(), |i: int| table::int_cell(None)));
        assert(bound_type_code@ =~= Seq::new(rows@.len(), |i: int| table::filled(rows@[i].bound_type_code)));
        assert(bound_value@ =~= Seq::new(rows@.len(), |i: int| table::filled(rows@[i].bound_value)));
    }
    let columns: Vec<Column> = vec![
        table::column("entity_type_code", false, Cells::Int8(entity_type_code)),
        table::column("entity_id", false, Cells::Int32(entity_id)),
        table::column("stage_id", false, Cells::Int32(stage_id)),
        table::column("block_id", true, Cells::Int32(block_id)),
        table::column("bound_type_code", false, Cells::Int8(bound_type_code)),
        table::column("bound_value", false, Cells::Float64(bound_value)),
    ];
    let r = Table { rows: rows.len(), columns };
    proof {
        assert(r@.columns =~= bounds_table(rows@).columns);
    }
    r
}

/// The bounds of a system as a table.
pub fn build_bounds_batch(system: &System) -> (r: Table)
    requires
        system.well_formed(),
    ensures
        r@ == bounds_table(bound_rows_of(*system)),
        r@.well_formed(),
{
    let rows: Vec<BoundRow> = bound_rows(system);
    lay_out(rows.as_slice())
}

/// Row `i` of the table holds the `i`-th bound, each field in the column of its name, and
/// names no block.
pub proof fn columns_hold_their_fields(rows: Seq<BoundRow>, table: Table, i: int)
    requires
        table@ == bounds_table(rows),
        0 <= i < rows.len(),
    ensures
        table.rows == rows.len(),
        table.columns@.len() == 6,
        table.columns@[0].name@ == "entity_type_code"@ && table.columns@[0].nullable == false,
        match table.columns@[0].cells {
            Cells::Int8(cells) => cells@.len() == rows.len() && !cells@[i].null && cells@[i].value == rows[i].entity_type_code,
            _ => false,
        },
        table.columns@[1].name@ == "entity_id"@ && table.columns@[1].nullable == false,
        match table.columns@[1].cells {
            Cells::Int32(cells) => cells@.len() == rows.len() && !cells@[i].null && cells@[i].value == rows[i].entity_id,
            _ => false,
        },
        table.columns@[2].name@ == "stage_id"@ && table.columns@[2].nullable == false,
        match table.columns@[2].cells {
            Cells::Int32(cells) => cells@.len() == rows.len() && !cells@[i].null && cells@[i].value == rows[i].stage_id,
            _ => false,
        },
        table.columns@[3].name@ == "block_id"@ && table.columns@[3].nullable == true,
        match table.columns@[3].cells {
            Cells::Int32(cells) => cells@.len() == rows.len() && cells@[i].null,
            _ => false,
        },
        table.columns@[4].name@ == "bound_type_code"@ && table.columns@[4].nullable == false,
        match table.columns@[4].cells {
            Cells::Int8(cells) => cells@.len() == rows.len() && !cells@[i].null && cells@[i].value == rows[i].bound_type_code,
            _ => false,
        },
        table.columns@[5].name@ == "bound_value"@ && table.columns@[5].nullable == false,
        match table.columns@[5].cells {
            Cells::Float64(cells) => cells@.len() == rows.len() && !cells@[i].null && cells@[i].value == rows[i].bound_value,
            _ => false,
        },
{
    assert(table@.columns.len() == table.columns@.len());
    assert(table@.columns[0] == table.columns@[0]@);
    assert(table@.columns[1] == table.columns@[1]@);
    assert(table@.columns[2] == table.columns@[2]@);
    assert(table@.columns[3] == table.columns@[3]@);
    assert(table@.columns[4] == table.columns@[4]@);
    assert(table@.columns[5] == table.columns@[5]@);
}

} // verus!
