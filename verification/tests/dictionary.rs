//! The dictionaries of a run.

use cobre_io::entities::EntityId;
use cobre_io::float::Float64;
use cobre_io::output::dictionary::bounds::{bound_rows, build_bounds_batch};
use cobre_io::output::dictionary::codes::{
    code_groups, BOUND_FLOW_MAX, BOUND_FLOW_MIN, BOUND_GENERATION_MAX, BOUND_GENERATION_MIN,
    BOUND_OUTFLOW_MAX, BOUND_OUTFLOW_MIN, BOUND_STORAGE_MAX, BOUND_STORAGE_MIN,
    BOUND_TURBINED_MAX, BOUND_TURBINED_MIN, ENTITY_TYPE_CONTRACT, ENTITY_TYPE_HYDRO,
    ENTITY_TYPE_LINE, ENTITY_TYPE_PUMPING_STATION, ENTITY_TYPE_THERMAL,
};
use cobre_io::output::dictionary::entities::entity_rows;
use cobre_io::output::dictionary::states::{state_variables, StateVariable};
use cobre_io::output::dictionary::variables::{
    arrow_type_str, description_for, unit_for, variable_rows, DataType, Field, FileSchema,
};
use cobre_io::system::{
    Bus, ContractStageBounds, EnergyContract, Hydro, HydroStageBounds, InflowModel, Line,
    LineStageBounds, NonControllableSource, PumpingStageBounds, PumpingStation, ResolvedBounds,
    System, Thermal, ThermalStageBounds,
};
use cobre_io::table::{Cells, Table};

fn float(x: f64) -> Float64 {
    Float64 { bits: x.to_bits() }
}

fn value(x: Float64) -> f64 {
    f64::from_bits(x.bits)
}

fn make_hydro(id: i32, name: &str, bus_id: i32) -> Hydro {
    Hydro {
        id: EntityId(id),
        name: name.to_string(),
        bus_id: EntityId(bus_id),
    }
}

fn make_thermal(id: i32, name: &str, bus_id: i32) -> Thermal {
    Thermal {
        id: EntityId(id),
        name: name.to_string(),
        bus_id: EntityId(bus_id),
        lead_stages: None,
    }
}

fn make_bus(id: i32) -> Bus {
    Bus {
        id: EntityId(id),
        name: format!("Bus{id}"),
    }
}

fn hydro_bounds(min_storage: f64, max_storage: f64) -> HydroStageBounds {
    HydroStageBounds {
        min_storage_hm3: float(min_storage),
        max_storage_hm3: float(max_storage),
        min_turbined_m3s: float(0.0),
        max_turbined_m3s: float(50.0),
        min_outflow_m3s: float(0.0),
        max_outflow_m3s: None,
        min_generation_mw: float(0.0),
        max_generation_mw: float(45.0),
    }
}

fn thermal_bounds() -> ThermalStageBounds {
    ThermalStageBounds {
        min_generation_mw: float(0.0),
        max_generation_mw: float(100.0),
    }
}

fn make_system(
    hydros: Vec<Hydro>,
    thermals: Vec<Thermal>,
    stage_ids: Vec<i32>,
    hydro: HydroStageBounds,
) -> System {
    let n_stages = stage_ids.len();
    let bounds = ResolvedBounds {
        n_stages,
        hydros: vec![vec![hydro; n_stages]; hydros.len()],
        thermals: vec![vec![thermal_bounds(); n_stages]; thermals.len()],
        lines: vec![],
        pumping_stations: vec![],
        contracts: vec![],
    };
    System {
        hydros,
        thermals,
        buses: vec![make_bus(1)],
        lines: vec![],
        pumping_stations: vec![],
        contracts: vec![],
        non_controllable_sources: vec![],
        stage_ids,
        inflow_models: vec![],
        bounds,
    }
}

/// Two hydro plants and one thermal plant.
fn make_system_2h_1t() -> System {
    make_system(
        vec![make_hydro(1, "Hydro1", 1), make_hydro(2, "Hydro2", 1)],
        vec![make_thermal(1, "Thermal1", 1)],
        vec![0],
        hydro_bounds(0.0, 100.0),
    )
}

fn make_system_thermals_only(thermals: Vec<Thermal>) -> System {
    make_system(vec![], thermals, vec![0], hydro_bounds(0.0, 0.0))
}

fn small(table: &Table, column: usize, row: usize) -> i8 {
    match &table.columns[column].cells {
        Cells::Int8(c) => {
            assert!(!c[row].null);
            c[row].value
        }
        other => panic!("column {column} holds {other:?}"),
    }
}

fn integer(table: &Table, column: usize, row: usize) -> Option<i32> {
    match &table.columns[column].cells {
        Cells::Int32(c) => {
            if c[row].null {
                None
            } else {
                Some(c[row].value)
            }
        }
        other => panic!("column {column} holds {other:?}"),
    }
}

fn number(table: &Table, column: usize, row: usize) -> f64 {
    match &table.columns[column].cells {
        Cells::Float64(c) => {
            assert!(!c[row].null);
            value(c[row].value)
        }
        other => panic!("column {column} holds {other:?}"),
    }
}

// ── Codes ────────────────────────────────────────────────────────────────────

fn label(group: &str, code: i8) -> Option<&'static str> {
    code_groups()
        .iter()
        .find(|g| g.name == group)
        .and_then(|g| g.entries.iter().find(|e| e.code == code).map(|e| e.label))
}

#[test]
fn codes_json_roundtrip() {
    assert_eq!(
        label("operative_state", 2),
        Some("operating"),
        "operative_state[\"2\"] must equal \"operating\""
    );
    assert_eq!(
        label("storage_binding", 1),
        Some("below_minimum"),
        "storage_binding[\"1\"] must equal \"below_minimum\""
    );
    assert_eq!(
        label("entity_type", 0),
        Some("hydro"),
        "entity_type[\"0\"] must equal \"hydro\""
    );
    assert_eq!(
        label("bound_type", 0),
        Some("storage_min"),
        "bound_type[\"0\"] must equal \"storage_min\""
    );
}

#[test]
fn codes_cover_each_category() {
    let counts: Vec<(&str, usize)> = code_groups()
        .iter()
        .map(|g| (g.name, g.entries.len()))
        .collect();
    assert_eq!(
        counts,
        vec![
            ("operative_state", 4),
            ("storage_binding", 4),
            ("contract_type", 2),
            ("entity_type", 7),
            ("bound_type", 10),
        ]
    );
    // No entity has code 6.
    assert_eq!(label("entity_type", 6), None);
    assert_eq!(label("entity_type", 7), Some("non_controllable"));
    assert_eq!(label("contract_type", 1), Some("export"));
    assert_eq!(label("bound_type", 9), Some("flow_max"));
}

// ── Entities ─────────────────────────────────────────────────────────────────

#[test]
fn entities_csv_correct_rows() {
    let rows = entity_rows(&make_system_2h_1t());

    assert_eq!(
        rows.len(),
        4,
        "expected 4 data rows (2 hydros + 1 thermal + 1 bus)"
    );

    assert_eq!(rows[0].entity_type_code, 0);
    assert_eq!(rows[0].entity_id, 1, "row 0: entity_id must be 1");
    assert_eq!(rows[0].name, "Hydro1", "row 0: name must be Hydro1");

    assert_eq!(rows[1].entity_type_code, 0);
    assert_eq!(rows[1].entity_id, 2, "row 1: entity_id must be 2");
    assert_eq!(rows[1].name, "Hydro2", "row 1: name must be Hydro2");

    assert_eq!(rows[2].entity_type_code, 1);
    assert_eq!(rows[2].entity_id, 1, "row 2: entity_id must be 1");
    assert_eq!(rows[2].name, "Thermal1", "row 2: name must be Thermal1");
}

#[test]
fn entities_csv_entity_type_order() {
    let type_codes: Vec<i8> = entity_rows(&make_system_2h_1t())
        .iter()
        .map(|r| r.entity_type_code)
        .collect();

    for window in type_codes.windows(2) {
        assert!(
            window[0] <= window[1],
            "entity_type_codes must be non-decreasing, found {} followed by {}",
            window[0],
            window[1]
        );
    }
}

#[test]
fn entities_csv_system_id_is_zero() {
    for row in entity_rows(&make_system_2h_1t()) {
        assert_eq!(row.system_id, 0, "system_id must be 0 for all rows");
    }
}

/// One entity of each type.
fn make_system_of_all_types() -> System {
    let mut system = make_system(
        vec![make_hydro(1, "H", 10)],
        vec![make_thermal(2, "T", 20)],
        vec![4, 5],
        hydro_bounds(1.0, 2.0),
    );
    system.buses = vec![make_bus(30)];
    system.lines = vec![Line {
        id: EntityId(3),
        name: "L".to_string(),
    }];
    system.pumping_stations = vec![PumpingStation {
        id: EntityId(4),
        name: "P".to_string(),
        bus_id: EntityId(40),
    }];
    system.contracts = vec![EnergyContract {
        id: EntityId(5),
        name: "C".to_string(),
        bus_id: EntityId(50),
    }];
    system.non_controllable_sources = vec![NonControllableSource {
        id: EntityId(6),
        name: "N".to_string(),
        bus_id: EntityId(60),
    }];
    system.bounds.hydros[0][1].max_outflow_m3s = Some(float(99.0));
    system.bounds.lines = vec![vec![
        LineStageBounds {
            direct_mw: float(500.0),
        };
        2
    ]];
    system.bounds.pumping_stations = vec![vec![
        PumpingStageBounds {
            min_flow_m3s: float(3.0),
            max_flow_m3s: float(4.0),
        };
        2
    ]];
    system.bounds.contracts = vec![vec![
        ContractStageBounds {
            min_mw: float(5.0),
            max_mw: float(6.0),
        };
        2
    ]];
    system
}

#[test]
fn each_entity_type_has_its_code_and_bus() {
    let rows: Vec<(i8, i32, String, i32)> = entity_rows(&make_system_of_all_types())
        .into_iter()
        .map(|r| (r.entity_type_code, r.entity_id, r.name, r.bus_id))
        .collect();
    assert_eq!(
        rows,
        vec![
            (0, 1, "H".to_string(), 10),
            (1, 2, "T".to_string(), 20),
            (2, 30, "Bus30".to_string(), 30),
            (3, 3, "L".to_string(), -1),
            (4, 4, "P".to_string(), 40),
            (5, 5, "C".to_string(), 50),
            (7, 6, "N".to_string(), 60),
        ]
    );
}

// ── Columns ──────────────────────────────────────────────────────────────────

#[test]
fn variables_csv_nullable_reflects_schema() {
    let rows = variable_rows(&vec![FileSchema {
        file: "costs".to_string(),
        fields: vec![
            Field {
                name: "stage_id".to_string(),
                data_type: DataType::Int32,
                nullable: false,
            },
            Field {
                name: "block_id".to_string(),
                data_type: DataType::Int32,
                nullable: true,
            },
        ],
    }]);
    let block_id_nullable = rows
        .iter()
        .find(|r| r.file == "costs" && r.column == "block_id")
        .map(|r| r.nullable);
    assert_eq!(
        block_id_nullable,
        Some("true"),
        "costs.block_id must have nullable=true"
    );
    assert_eq!(rows[0].nullable, "false");
}

#[test]
fn variable_rows_follow_files_and_columns() {
    let field = |name: &str, data_type: DataType| Field {
        name: name.to_string(),
        data_type,
        nullable: false,
    };
    let rows = variable_rows(&vec![
        FileSchema {
            file: "hydros".to_string(),
            fields: vec![
                field("water_value_per_hm3", DataType::Float64),
                field("generation_mw", DataType::Float64),
            ],
        },
        FileSchema {
            file: "hydro_energy_productivity".to_string(),
            fields: vec![field("hydro_id", DataType::Int32)],
        },
        FileSchema {
            file: "thermals".to_string(),
            fields: vec![field("is_anticipated", DataType::Boolean)],
        },
    ]);
    let seen: Vec<(&str, &str, &str, &str, &str)> = rows
        .iter()
        .map(|r| {
            (
                r.file.as_str(),
                r.column.as_str(),
                r.data_type,
                r.unit,
                r.description,
            )
        })
        .collect();
    assert_eq!(
        seen,
        vec![
            (
                "hydros",
                "water_value_per_hm3",
                "f64",
                "$/hm3",
                "Marginal water value"
            ),
            ("hydros", "generation_mw", "f64", "MW", "Hydro generation"),
            ("hydro_energy_productivity", "hydro_id", "i32", "", ""),
            (
                "thermals",
                "is_anticipated",
                "bool",
                "",
                "Whether plant uses anticipated dispatch"
            ),
        ]
    );
}

#[test]
fn each_data_type_has_its_name() {
    let names: Vec<&str> = [
        DataType::Int8,
        DataType::Int32,
        DataType::Int64,
        DataType::UInt32,
        DataType::UInt64,
        DataType::Float64,
        DataType::Boolean,
        DataType::Utf8,
        DataType::Other,
    ]
    .iter()
    .map(arrow_type_str)
    .collect();
    assert_eq!(
        names,
        vec!["i8", "i32", "i64", "u32", "u64", "f64", "bool", "string", "unknown"]
    );
}

#[test]
fn new_energy_columns_have_units() {
    assert_eq!(
        unit_for("hydros", "equivalent_productivity_mw_per_m3s"),
        "MW/(m3/s)"
    );
    assert_eq!(
        unit_for("hydros", "accumulated_productivity_mw_per_m3s"),
        "MW/(m3/s)"
    );
    assert_eq!(unit_for("hydros", "incremental_inflow_energy_mw"), "MW");
    assert_eq!(unit_for("hydros", "stored_energy_initial_mwh"), "MWh");
    assert_eq!(unit_for("hydros", "stored_energy_final_mwh"), "MWh");
}

#[test]
fn new_energy_columns_have_descriptions() {
    assert!(
        !description_for("hydros", "equivalent_productivity_mw_per_m3s").is_empty(),
        "equivalent_productivity_mw_per_m3s must have a description"
    );
    assert!(
        !description_for("hydros", "accumulated_productivity_mw_per_m3s").is_empty(),
        "accumulated_productivity_mw_per_m3s must have a description"
    );
    assert!(
        !description_for("hydros", "incremental_inflow_energy_mw").is_empty(),
        "incremental_inflow_energy_mw must have a description"
    );
    assert!(
        !description_for("hydros", "stored_energy_initial_mwh").is_empty(),
        "stored_energy_initial_mwh must have a description"
    );
    assert!(
        !description_for("hydros", "stored_energy_final_mwh").is_empty(),
        "stored_energy_final_mwh must have a description"
    );
}

#[test]
fn old_productivity_field_returns_default_unit() {
    assert_eq!(
        unit_for("hydros", "productivity_mw_per_m3s"),
        "",
        "removed column must fall through to the default empty-string arm"
    );
}

#[test]
fn every_hydros_schema_column_has_description() {
    for name in [
        "stage_id",
        "block_id",
        "hydro_id",
        "turbined_m3s",
        "spillage_m3s",
        "outflow_m3s",
        "evaporation_m3s",
        "diverted_inflow_m3s",
        "diverted_outflow_m3s",
        "incremental_inflow_m3s",
        "inflow_m3s",
        "storage_initial_hm3",
        "storage_final_hm3",
        "generation_mw",
        "generation_mwh",
        "equivalent_productivity_mw_per_m3s",
        "accumulated_productivity_mw_per_m3s",
        "incremental_inflow_energy_mw",
        "stored_energy_initial_mwh",
        "stored_energy_final_mwh",
        "spillage_cost",
        "water_value_per_hm3",
        "storage_binding_code",
        "operative_state_code",
        "turbined_slack_m3s",
        "outflow_slack_below_m3s",
        "outflow_slack_above_m3s",
        "generation_slack_mw",
        "storage_violation_below_hm3",
        "filling_target_violation_hm3",
        "evaporation_violation_pos_m3s",
        "evaporation_violation_neg_m3s",
        "inflow_nonnegativity_slack_m3s",
        "water_withdrawal_violation_pos_m3s",
        "water_withdrawal_violation_neg_m3s",
    ] {
        let desc = description_for("hydros", name);
        assert!(
            !desc.is_empty(),
            "hydros column '{name}' has no description in description_for"
        );
    }
}

#[test]
fn a_column_of_the_hydros_file_has_its_unit_there_alone() {
    assert_eq!(unit_for("hydros", "generation_slack_mw"), "MW");
    assert_eq!(unit_for("thermals", "generation_slack_mw"), "");
    assert_eq!(unit_for("anything", "total_cost"), "$");
    assert_eq!(unit_for("costs", "stage_id"), "");
    assert_eq!(unit_for("rank_timing", "idle_time_ms"), "ms");
    assert_eq!(unit_for("buses", "deficit_mwh"), "MWh");
    assert_eq!(unit_for("hydros", "spillage_m3s"), "m3/s");
    assert_eq!(unit_for("hydros", "storage_final_hm3"), "hm3");
}

#[test]
fn columns_of_stations_and_prices_have_their_units() {
    assert_eq!(unit_for("pumping_stations", "pumped_flow_m3s"), "m3/s");
    assert_eq!(unit_for("pumping_stations", "pumped_volume_hm3"), "hm3");
    assert_eq!(unit_for("buses", "spot_price"), "$/MWh");
    assert_eq!(unit_for("contracts", "price_per_mwh"), "$/MWh");
}

#[test]
fn every_timing_column_is_in_milliseconds() {
    for column in [
        "forward_wall_ms",
        "backward_wall_ms",
        "cut_selection_ms",
        "mpi_allreduce_ms",
        "cut_sync_ms",
        "lower_bound_ms",
        "state_exchange_ms",
        "overhead_ms",
    ] {
        assert_eq!(unit_for("iteration_timing", column), "ms", "{column}");
    }
    assert_eq!(unit_for("convergence", "lower_bound"), "");
}

#[test]
fn descriptions_depend_on_the_file() {
    assert_eq!(
        description_for("hydros", "generation_mw"),
        "Hydro generation"
    );
    assert_eq!(
        description_for("thermals", "generation_mw"),
        "Thermal generation"
    );
    assert_eq!(description_for("buses", "generation_mw"), "");
    assert_eq!(
        description_for("hydros", "equivalent_productivity_mw_per_m3s"),
        "Equivalent productivity `\u{3c1}_eq` (always populated)"
    );
    assert_eq!(
        description_for("iteration_timing", "rank"),
        "MPI rank that produced this row. Always set; single-rank runs use 0."
    );
    assert_eq!(
        description_for("retry_histogram", "count"),
        "Number of solves recovered at this level"
    );
}

// ── Bounds ───────────────────────────────────────────────────────────────────

#[test]
fn bounds_parquet_roundtrip() {
    let system = make_system(
        vec![make_hydro(1, "Hydro1", 1)],
        vec![],
        vec![0, 1],
        hydro_bounds(100.0, 500.0),
    );
    let batch = build_bounds_batch(&system);

    // 1 hydro, 2 stages, 7 bound types per stage (no max_outflow) = 14 rows
    assert_eq!(batch.rows, 14, "1 hydro × 2 stages × 7 bounds = 14 rows");

    let names: Vec<&str> = batch.columns.iter().map(|c| c.name.as_str()).collect();
    assert_eq!(
        names,
        vec![
            "entity_type_code",
            "entity_id",
            "stage_id",
            "block_id",
            "bound_type_code",
            "bound_value"
        ]
    );
    let nullable: Vec<bool> = batch.columns.iter().map(|c| c.nullable).collect();
    assert_eq!(nullable, vec![false, false, false, true, false, false]);

    for row in 0..batch.rows {
        assert!(
            integer(&batch, 3, row).is_none(),
            "block_id must be null at row {row}"
        );
    }

    let row = (0..batch.rows)
        .find(|&i| {
            small(&batch, 0, i) == ENTITY_TYPE_HYDRO && small(&batch, 4, i) == BOUND_STORAGE_MIN
        })
        .expect("must have a storage_min row for hydro");
    assert!(
        (number(&batch, 5, row) - 100.0).abs() < f64::EPSILON,
        "storage_min must be 100.0"
    );

    let row = (0..batch.rows)
        .find(|&i| {
            small(&batch, 0, i) == ENTITY_TYPE_HYDRO && small(&batch, 4, i) == BOUND_STORAGE_MAX
        })
        .expect("must have a storage_max row for hydro");
    assert!(
        (number(&batch, 5, row) - 500.0).abs() < f64::EPSILON,
        "storage_max must be 500.0"
    );
}

#[test]
fn every_bound_of_every_entity_and_stage_has_a_row() {
    let rows: Vec<(i8, i32, i32, i8, f64)> = bound_rows(&make_system_of_all_types())
        .iter()
        .map(|r| {
            (
                r.entity_type_code,
                r.entity_id,
                r.stage_id,
                r.bound_type_code,
                value(r.bound_value),
            )
        })
        .collect();
    let h = ENTITY_TYPE_HYDRO;
    let expected = vec![
        (h, 1, 4, BOUND_STORAGE_MIN, 1.0),
        (h, 1, 4, BOUND_STORAGE_MAX, 2.0),
        (h, 1, 4, BOUND_TURBINED_MIN, 0.0),
        (h, 1, 4, BOUND_TURBINED_MAX, 50.0),
        (h, 1, 4, BOUND_OUTFLOW_MIN, 0.0),
        (h, 1, 4, BOUND_GENERATION_MIN, 0.0),
        (h, 1, 4, BOUND_GENERATION_MAX, 45.0),
        (h, 1, 5, BOUND_STORAGE_MIN, 1.0),
        (h, 1, 5, BOUND_STORAGE_MAX, 2.0),
        (h, 1, 5, BOUND_TURBINED_MIN, 0.0),
        (h, 1, 5, BOUND_TURBINED_MAX, 50.0),
        (h, 1, 5, BOUND_OUTFLOW_MIN, 0.0),
        (h, 1, 5, BOUND_OUTFLOW_MAX, 99.0),
        (h, 1, 5, BOUND_GENERATION_MIN, 0.0),
        (h, 1, 5, BOUND_GENERATION_MAX, 45.0),
        (ENTITY_TYPE_THERMAL, 2, 4, BOUND_GENERATION_MIN, 0.0),
        (ENTITY_TYPE_THERMAL, 2, 4, BOUND_GENERATION_MAX, 100.0),
        (ENTITY_TYPE_THERMAL, 2, 5, BOUND_GENERATION_MIN, 0.0),
        (ENTITY_TYPE_THERMAL, 2, 5, BOUND_GENERATION_MAX, 100.0),
        (ENTITY_TYPE_LINE, 3, 4, BOUND_FLOW_MIN, 0.0),
        (ENTITY_TYPE_LINE, 3, 4, BOUND_FLOW_MAX, 500.0),
        (ENTITY_TYPE_LINE, 3, 5, BOUND_FLOW_MIN, 0.0),
        (ENTITY_TYPE_LINE, 3, 5, BOUND_FLOW_MAX, 500.0),
        (ENTITY_TYPE_PUMPING_STATION, 4, 4, BOUND_FLOW_MIN, 3.0),
        (ENTITY_TYPE_PUMPING_STATION, 4, 4, BOUND_FLOW_MAX, 4.0),
        (ENTITY_TYPE_PUMPING_STATION, 4, 5, BOUND_FLOW_MIN, 3.0),
        (ENTITY_TYPE_PUMPING_STATION, 4, 5, BOUND_FLOW_MAX, 4.0),
        (ENTITY_TYPE_CONTRACT, 5, 4, BOUND_FLOW_MIN, 5.0),
        (ENTITY_TYPE_CONTRACT, 5, 4, BOUND_FLOW_MAX, 6.0),
        (ENTITY_TYPE_CONTRACT, 5, 5, BOUND_FLOW_MIN, 5.0),
        (ENTITY_TYPE_CONTRACT, 5, 5, BOUND_FLOW_MAX, 6.0),
    ];
    assert_eq!(rows, expected);
    // Two stages, one entity of each type, one outflow maximum.
    assert_eq!(rows.len(), 2 * (7 + 2 + 2 + 2 + 2) + 1);

    // No two rows give the same bound.
    for (i, a) in rows.iter().enumerate() {
        for b in &rows[i + 1..] {
            assert_ne!((a.0, a.1, a.2, a.3), (b.0, b.1, b.2, b.3));
        }
    }
}

// ── State variables ──────────────────────────────────────────────────────────

fn anticipated(entries: &[StateVariable]) -> Vec<StateVariable> {
    entries
        .iter()
        .filter(|v| v.kind_name() == "anticipated_state")
        .copied()
        .collect()
}

#[test]
fn state_dictionary_hydro_storage_entries() {
    let state_vars = state_variables(&make_system_2h_1t());

    let storage_entries: Vec<&StateVariable> = state_vars
        .iter()
        .filter(|v| v.kind_name() == "storage")
        .collect();

    assert_eq!(
        storage_entries.len(),
        2,
        "must have exactly 2 storage entries (one per hydro)"
    );

    for entry in &storage_entries {
        assert_eq!(
            entry.entity_type(),
            "hydro",
            "storage entry entity_type must be \"hydro\""
        );
        assert_eq!(entry.unit(), "hm3", "storage entry unit must be \"hm3\"");
    }
}

#[test]
fn state_dictionary_zero_anticipated_emits_no_anticipated_entries() {
    let state_vars = state_variables(&make_system_2h_1t());

    assert_eq!(
        anticipated(&state_vars).len(),
        0,
        "expected zero anticipated_state entries when no anticipated thermals"
    );
}

#[test]
fn state_dictionary_single_anticipated_k1_emits_one_entry() {
    let t = Thermal {
        lead_stages: Some(1),
        ..make_thermal(7, "Thermal7", 1)
    };
    let entries = anticipated(&state_variables(&make_system_thermals_only(vec![t])));

    assert_eq!(
        entries.len(),
        1,
        "expected exactly one anticipated_state entry"
    );
    assert_eq!(entries[0].entity_id(), 7, "entity_id must be 7");
    assert_eq!(
        entries[0],
        StateVariable::AnticipatedState {
            thermal_id: 7,
            slot_index: 0,
            lead_stages: 1
        },
        "slot_index must be 0"
    );
    assert_eq!(entries[0].unit(), "MW", "unit must be MW");
    assert_eq!(
        entries[0].entity_type(),
        "thermal",
        "entity_type must be thermal"
    );
}

#[test]
fn state_dictionary_two_anticipated_k3_slot_major_ordering() {
    // 6 entries in slot-major order:
    // slot 0: [5, 8], slot 1: [5, 8], slot 2: [5, 8].
    let t5 = Thermal {
        lead_stages: Some(2),
        ..make_thermal(5, "Thermal5", 1)
    };
    let t8 = Thermal {
        lead_stages: Some(3),
        ..make_thermal(8, "Thermal8", 1)
    };
    let entries = anticipated(&state_variables(&make_system_thermals_only(vec![t5, t8])));

    assert_eq!(entries.len(), 6, "expected 6 anticipated_state entries");

    let expected: Vec<(i32, usize, u32)> = vec![
        (5, 0, 2),
        (8, 0, 3),
        (5, 1, 2),
        (8, 1, 3),
        (5, 2, 2),
        (8, 2, 3),
    ];
    for (i, (exp_id, exp_slot, exp_lead)) in expected.iter().enumerate() {
        assert_eq!(
            entries[i],
            StateVariable::AnticipatedState {
                thermal_id: *exp_id,
                slot_index: *exp_slot,
                lead_stages: *exp_lead
            },
            "entry {i}"
        );
    }
}

#[test]
fn state_dictionary_total_length_equals_n_state() {
    // 2 hydros (ar_order 1 and 0), 1 anticipated thermal (K=2):
    // total = 2 (storage) + 1 (inflow_lag) + 1*2 (anticipated) = 5.
    let mut system = make_system_2h_1t();
    system.thermals[0].lead_stages = Some(2);
    system.inflow_models = vec![
        InflowModel {
            hydro_id: EntityId(1),
            ar_order: 1,
        },
        InflowModel {
            hydro_id: EntityId(2),
            ar_order: 0,
        },
    ];

    let state_vars = state_variables(&system);

    assert_eq!(
        state_vars.len(),
        5,
        "total state_variables length must be 5 (2 storage + 1 inflow_lag + 2 anticipated)"
    );
}

#[test]
fn inflow_lags_take_the_highest_order_of_a_plant() {
    let mut system = make_system_2h_1t();
    system.inflow_models = vec![
        InflowModel {
            hydro_id: EntityId(2),
            ar_order: 1,
        },
        InflowModel {
            hydro_id: EntityId(2),
            ar_order: 3,
        },
        InflowModel {
            hydro_id: EntityId(2),
            ar_order: 2,
        },
        InflowModel {
            hydro_id: EntityId(9),
            ar_order: 5,
        },
    ];
    let lags: Vec<StateVariable> = state_variables(&system)
        .into_iter()
        .filter(|v| v.kind_name() == "inflow_lag")
        .collect();
    assert_eq!(
        lags,
        vec![
            StateVariable::InflowLag {
                hydro_id: 2,
                lag_index: 1
            },
            StateVariable::InflowLag {
                hydro_id: 2,
                lag_index: 2
            },
            StateVariable::InflowLag {
                hydro_id: 2,
                lag_index: 3
            },
        ]
    );
    assert_eq!(lags[0].unit(), "m3/s");
    assert_eq!(lags[0].entity_type(), "hydro");
}
