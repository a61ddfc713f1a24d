//! The dictionary of the columns that a run writes.
//!
//! One row per column of each output file: its type, its unit and what it holds.

use vstd::prelude::*;

use crate::text;

verus! {

// ── Types ────────────────────────────────────────────────────────────────────

/// The type of a column's values.
#[derive(Clone, Copy, Debug, PartialEq, Eq, Structural)]
pub enum DataType {
    /// 8-bit integers.
    Int8,
    /// 32-bit integers.
    Int32,
    /// 64-bit integers.
    Int64,
    /// 32-bit counts.
    UInt32,
    /// 64-bit counts.
    UInt64,
    /// 64-bit floating-point numbers.
    Float64,
    /// Truth values.
    Boolean,
    /// Text.
    Utf8,
    /// Any other type.
    Other,
}

/// The name of a type in the dictionary.
pub open spec fn data_type_text(dt: DataType) -> Seq<char> {
    match dt {
        DataType::Int8 => "i8"@,
        DataType::Int32 => "i32"@,
        DataType::Int64 => "i64"@,
        DataType::UInt32 => "u32"@,
        DataType::UInt64 => "u64"@,
        DataType::Float64 => "f64"@,
        DataType::Boolean => "bool"@,
        DataType::Utf8 => "string"@,
        DataType::Other => "unknown"@,
    }
}

/// The name of a type in the dictionary.
pub fn arrow_type_str(dt: &DataType) -> (r: &'static str)
    ensures
        r@ == data_type_text(*dt),
{
    match dt {
        DataType::Int8 => "i8",
        DataType::Int32 => "i32",
        DataType::Int64 => "i64",
        DataType::UInt32 => "u32",
        DataType::UInt64 => "u64",
        DataType::Float64 => "f64",
        DataType::Boolean => "bool",
        DataType::Utf8 => "string",
        DataType::Other => "unknown",
    }
}

// ── Units ────────────────────────────────────────────────────────────────────

/// The columns that have no unit, whatever the file.
pub open spec fn without_unit(column: Seq<char>) -> bool {
    ||| column == "stage_id"@
    ||| column == "block_id"@
    ||| column == "iteration"@
    ||| column == "rank"@
    ||| column == "forward_passes"@
    ||| column == "scenarios_processed"@
}

fn is_without_unit(column: &str) -> (r: bool)
    ensures
        r == without_unit(column@),
{
    text::same_str(column, "stage_id")
        || text::same_str(column, "block_id")
        || text::same_str(column, "iteration")
        || text::same_str(column, "rank")
        || text::same_str(column, "forward_passes")
        || text::same_str(column, "scenarios_processed")
}

/// The columns that are in MW, whatever the file.
pub open spec fn in_mw(column: Seq<char>) -> bool {
    ||| column == "generation_mw"@
    ||| column == "available_mw"@
    ||| column == "curtailment_mw"@
    ||| column == "direct_flow_mw"@
    ||| column == "reverse_flow_mw"@
    ||| column == "net_flow_mw"@
    ||| column == "losses_mw"@
    ||| column == "load_mw"@
    ||| column == "deficit_mw"@
    ||| column == "excess_mw"@
    ||| column == "power_consumption_mw"@
    ||| column == "anticipated_committed_mw"@
    ||| column == "anticipated_decision_mw"@
    ||| column == "power_mw"@
}

fn is_in_mw(column: &str) -> (r: bool)
    ensures
        r == in_mw(column@),
{
    text::same_str(column, "generation_mw")
        || text::same_str(column, "available_mw")
        || text::same_str(column, "curtailment_mw")
        || text::same_str(column, "direct_flow_mw")
        || text::same_str(column, "reverse_flow_mw")
        || text::same_str(column, "net_flow_mw")
        || text::same_str(column, "losses_mw")
        || text::same_str(column, "load_mw")
        || text::same_str(column, "deficit_mw")
        || text::same_str(column, "excess_mw")
        || text::same_str(column, "power_consumption_mw")
        || text::same_str(column, "anticipated_committed_mw")
        || text::same_str(column, "anticipated_decision_mw")
        || text::same_str(column, "power_mw")
}

/// The columns that are in MWh, whatever the file.
pub open spec fn in_mwh(column: Seq<char>) -> bool {
    ||| column == "generation_mwh"@
    ||| column == "curtailment_mwh"@
    ||| column == "net_flow_mwh"@
    ||| column == "losses_mwh"@
    ||| column == "load_mwh"@
    ||| column == "deficit_mwh"@
    ||| column == "excess_mwh"@
    ||| column == "energy_consumption_mwh"@
    ||| column == "energy_mwh"@
}

fn is_in_mwh(column: &str) -> (r: bool)
    ensures
        r == in_mwh(column@),
{
    text::same_str(column, "generation_mwh")
        || text::same_str(column, "curtailment_mwh")
        || text::same_str(column, "net_flow_mwh")
        || text::same_str(column, "losses_mwh")
        || text::same_str(column, "load_mwh")
        || text::same_str(column, "deficit_mwh")
        || text::same_str(column, "excess_mwh")
        || text::same_str(column, "energy_consumption_mwh")
        || text::same_str(column, "energy_mwh")
}

/// The columns that are in m3/s, whatever the file.
pub open spec fn in_m3s(column: Seq<char>) -> bool {
    ||| column == "turbined_m3s"@
    ||| column == "spillage_m3s"@
    ||| column == "outflow_m3s"@
    ||| column == "evaporation_m3s"@
    ||| column == "diverted_inflow_m3s"@
    ||| column == "diverted_outflow_m3s"@
    ||| column == "incremental_inflow_m3s"@
    ||| column == "inflow_m3s"@
    ||| column == "turbined_slack_m3s"@
    ||| column == "outflow_slack_below_m3s"@
    ||| column == "outflow_slack_above_m3s"@
    ||| column == "evaporation_violation_pos_m3s"@
    ||| column == "evaporation_violation_neg_m3s"@
    ||| column == "inflow_nonnegativity_slack_m3s"@
    ||| column == "water_withdrawal_violation_pos_m3s"@
    ||| column == "water_withdrawal_violation_neg_m3s"@
    ||| column == "pumped_flow_m3s"@
}

fn is_in_m3s(column: &str) -> (r: bool)
    ensures
        r == in_m3s(column@),
{
    text::same_str(column, "turbined_m3s")
        || text::same_str(column, "spillage_m3s")
        || text::same_str(column, "outflow_m3s")
        || text::same_str(column, "evaporation_m3s")
        || text::same_str(column, "diverted_inflow_m3s")
        || text::same_str(column, "diverted_outflow_m3s")
        || text::same_str(column, "incremental_inflow_m3s")
        || text::same_str(column, "inflow_m3s")
        || text::same_str(column, "turbined_slack_m3s")
        || text::same_str(column, "outflow_slack_below_m3s")
        || text::same_str(column, "outflow_slack_above_m3s")
        || text::same_str(column, "evaporation_violation_pos_m3s")
        || text::same_str(column, "evaporation_violation_neg_m3s")
        || text::same_str(column, "inflow_nonnegativity_slack_m3s")
        || text::same_str(column, "water_withdrawal_violation_pos_m3s")
        || text::same_str(column, "water_withdrawal_violation_neg_m3s")
        || text::same_str(column, "pumped_flow_m3s")
}

/// The columns that are in hm3, whatever the file.
pub open spec fn in_hm3(column: Seq<char>) -> bool {
    ||| column == "storage_initial_hm3"@
    ||| column == "storage_final_hm3"@
    ||| column == "storage_violation_below_hm3"@
    ||| column == "filling_target_violation_hm3"@
    ||| column == "pumped_volume_hm3"@
}

fn is_in_hm3(column: &str) -> (r: bool)
    ensures
        r == in_hm3(column@),
{
    text::same_str(column, "storage_initial_hm3")
        || text::same_str(column, "storage_final_hm3")
        || text::same_str(column, "storage_violation_below_hm3")
        || text::same_str(column, "filling_target_violation_hm3")
        || text::same_str(column, "pumped_volume_hm3")
}

/// The columns that are in the currency, whatever the file.
pub open spec fn in_currency(column: Seq<char>) -> bool {
    ||| column == "total_cost"@
    ||| column == "immediate_cost"@
    ||| column == "future_cost"@
    ||| column == "thermal_cost"@
    ||| column == "anticipated_thermal_cost"@
    ||| column == "contract_cost"@
    ||| column == "deficit_cost"@
    ||| column == "excess_cost"@
    ||| column == "storage_violation_cost"@
    ||| column == "filling_target_cost"@
    ||| column == "hydro_violation_cost"@
    ||| column == "outflow_violation_below_cost"@
    ||| column == "outflow_violation_above_cost"@
    ||| column == "turbined_violation_cost"@
    ||| column == "generation_violation_cost"@
    ||| column == "evaporation_violation_cost"@
    ||| column == "withdrawal_violation_cost"@
    ||| column == "inflow_penalty_cost"@
    ||| column == "generic_violation_cost"@
    ||| column == "spillage_cost"@
    ||| column == "turbined_cost"@
    ||| column == "curtailment_cost"@
    ||| column == "exchange_cost"@
    ||| column == "pumping_cost"@
    ||| column == "generation_cost"@
    ||| column == "total_cost_convergence"@
    ||| column == "pumping_cost_csv"@
    ||| column == "slack_cost"@
}

fn is_in_currency(column: &str) -> (r: bool)
    ensures
        r == in_currency(column@),
{
    text::same_str(column, "total_cost")
        || text::same_str(column, "immediate_cost")
        || text::same_str(column, "future_cost")
        || text::same_str(column, "thermal_cost")
        || text::same_str(column, "anticipated_thermal_cost")
        || text::same_str(column, "contract_cost")
        || text::same_str(column, "deficit_cost")
        || text::same_str(column, "excess_cost")
        || text::same_str(column, "storage_violation_cost")
        || text::same_str(column, "filling_target_cost")
        || text::same_str(column, "hydro_violation_cost")
        || text::same_str(column, "outflow_violation_below_cost")
        || text::same_str(column, "outflow_violation_above_cost")
        || text::same_str(column, "turbined_violation_cost")
        || text::same_str(column, "generation_violation_cost")
        || text::same_str(column, "evaporation_violation_cost")
        || text::same_str(column, "withdrawal_violation_cost")
        || text::same_str(column, "inflow_penalty_cost")
        || text::same_str(column, "generic_violation_cost")
        || text::same_str(column, "spillage_cost")
        || text::same_str(column, "turbined_cost")
        || text::same_str(column, "curtailment_cost")
        || text::same_str(column, "exchange_cost")
        || text::same_str(column, "pumping_cost")
        || text::same_str(column, "generation_cost")
        || text::same_str(column, "total_cost_convergence")
        || text::same_str(column, "pumping_cost_csv")
        || text::same_str(column, "slack_cost")
}

/// The columns that are the price of a unit of energy, whatever the file.
pub open spec fn in_energy_price(column: Seq<char>) -> bool {
    ||| column == "spot_price"@
    ||| column == "price_per_mwh"@
}

fn is_in_energy_price(column: &str) -> (r: bool)
    ensures
        r == in_energy_price(column@),
{
    text::same_str(column, "spot_price") || text::same_str(column, "price_per_mwh")
}

/// The columns that are in milliseconds, whatever the file.
pub open spec fn in_ms(column: Seq<char>) -> bool {
    ||| column == "time_forward_ms"@
    ||| column == "time_backward_ms"@
    ||| column == "time_total_ms"@
    ||| column == "forward_solve_ms"@
    ||| column == "forward_sample_ms"@
    ||| column == "backward_solve_ms"@
    ||| column == "backward_cut_ms"@
    ||| column == "cut_selection_ms"@
    ||| column == "forward_wall_ms"@
    ||| column == "backward_wall_ms"@
    ||| column == "cut_sync_ms"@
    ||| column == "lower_bound_ms"@
    ||| column == "mpi_allreduce_ms"@
    ||| column == "mpi_broadcast_ms"@
    ||| column == "io_write_ms"@
    ||| column == "state_exchange_ms"@
    ||| column == "cut_batch_build_ms"@
    ||| column == "bwd_setup_ms"@
    ||| column == "bwd_load_imbalance_ms"@
    ||| column == "bwd_scheduling_overhead_ms"@
    ||| column == "fwd_setup_ms"@
    ||| column == "fwd_load_imbalance_ms"@
    ||| column == "fwd_scheduling_overhead_ms"@
    ||| column == "overhead_ms"@
    ||| column == "lazy_scoring_ms"@
    ||| column == "forward_time_ms"@
    ||| column == "backward_time_ms"@
    ||| column == "communication_time_ms"@
    ||| column == "idle_time_ms"@
    ||| column == "solve_time_ms"@
    ||| column == "load_model_time_ms"@
    ||| column == "set_bounds_time_ms"@
    ||| column == "basis_set_time_ms"@
    ||| column == "selection_time_ms"@
}

fn is_in_ms(column: &str) -> (r: bool)
    ensures
        r == in_ms(column@),
{
    text::same_str(column, "time_forward_ms")
        || text::same_str(column, "time_backward_ms")
        || text::same_str(column, "time_total_ms")
        || text::same_str(column, "forward_solve_ms")
        || text::same_str(column, "forward_sample_ms")
        || text::same_str(column, "backward_solve_ms")
        || text::same_str(column, "backward_cut_ms")
        || text::same_str(column, "cut_selection_ms")
        || text::same_str(column, "forward_wall_ms")
        || text::same_str(column, "backward_wall_ms")
        || text::same_str(column, "cut_sync_ms")
        || text::same_str(column, "lower_bound_ms")
        || text::same_str(column, "mpi_allreduce_ms")
        || text::same_str(column, "mpi_broadcast_ms")
        || text::same_str(column, "io_write_ms")
        || text::same_str(column, "state_exchange_ms")
        || text::same_str(column, "cut_batch_build_ms")
        || text::same_str(column, "bwd_setup_ms")
        || text::same_str(column, "bwd_load_imbalance_ms")
        || text::same_str(column, "bwd_scheduling_overhead_ms")
        || text::same_str(column, "fwd_setup_ms")
        || text::same_str(column, "fwd_load_imbalance_ms")
        || text::same_str(column, "fwd_scheduling_overhead_ms")
        || text::same_str(column, "overhead_ms")
        || text::same_str(column, "lazy_scoring_ms")
        || text::same_str(column, "forward_time_ms")
        || text::same_str(column, "backward_time_ms")
        || text::same_str(column, "communication_time_ms")
        || text::same_str(column, "idle_time_ms")
        || text::same_str(column, "solve_time_ms")
        || text::same_str(column, "load_model_time_ms")
        || text::same_str(column, "set_bounds_time_ms")
        || text::same_str(column, "basis_set_time_ms")
        || text::same_str(column, "selection_time_ms")
}

/// The units of the columns that only the file of hydro plants has.
pub open spec fn hydros_unit(column: Seq<char>) -> Seq<char> {
    if column == "water_value_per_hm3"@ {
        "$/hm3"@
    } else if column == "equivalent_productivity_mw_per_m3s"@ {
        "MW/(m3/s)"@
    } else if column == "accumulated_productivity_mw_per_m3s"@ {
        "MW/(m3/s)"@
    } else if column == "incremental_inflow_energy_mw"@ {
        "MW"@
    } else if column == "stored_energy_initial_mwh"@ {
        "MWh"@
    } else if column == "stored_energy_final_mwh"@ {
        "MWh"@
    } else if column == "generation_slack_mw"@ {
        "MW"@
    } else {
        ""@
    }
}

fn unit_among_hydros(column: &str) -> (r: &'static str)
    ensures
        r@ == hydros_unit(column@),
{
    if text::same_str(column, "water_value_per_hm3") {
        "$/hm3"
    } else if text::same_str(column, "equivalent_productivity_mw_per_m3s") {
        "MW/(m3/s)"
    } else if text::same_str(column, "accumulated_productivity_mw_per_m3s") {
        "MW/(m3/s)"
    } else if text::same_str(column, "incremental_inflow_energy_mw") {
        "MW"
    } else if text::same_str(column, "stored_energy_initial_mwh") {
        "MWh"
    } else if text::same_str(column, "stored_energy_final_mwh") {
        "MWh"
    } else if text::same_str(column, "generation_slack_mw") {
        "MW"
    } else {
        ""
    }
}

/// The unit of a column of a file; empty for a column without one.
pub open spec fn unit_of(file: Seq<char>, column: Seq<char>) -> Seq<char> {
    if without_unit(column) {
        ""@
    } else if in_mw(column) {
        "MW"@
    } else if in_mwh(column) {
        "MWh"@
    } else if in_m3s(column) {
        "m3/s"@
    } else if in_hm3(column) {
        "hm3"@
    } else if in_currency(column) {
        "$"@
    } else if in_energy_price(column) {
        "$/MWh"@
    } else if in_ms(column) {
        "ms"@
    } else if file == "hydros"@ {
        hydros_unit(column)
    } else {
        ""@
    }
}

/// The unit of a column of a file; empty for a column without one.
pub fn unit_for(file: &str, column: &str) -> (r: &'static str)
    ensures
        r@ == unit_of(file@, column@),
{
    if is_without_unit(column) {
        ""
    } else if is_in_mw(column) {
        "MW"
    } else if is_in_mwh(column) {
        "MWh"
    } else if is_in_m3s(column) {
        "m3/s"
    } else if is_in_hm3(column) {
        "hm3"
    } else if is_in_currency(column) {
        "$"
    } else if is_in_energy_price(column) {
        "$/MWh"
    } else if is_in_ms(column) {
        "ms"
    } else if text::same_str(file, "hydros") {
        unit_among_hydros(column)
    } else {
        ""
    }
}

// ── Descriptions ─────────────────────────────────────────────────────────────

/// What the columns of the file on costs hold.
pub open spec fn costs_description(column: Seq<char>) -> Seq<char> {
    if column == "stage_id"@ {
        "Stage index"@
    } else if column == "block_id"@ {
        "Block index within stage (nullable)"@
    } else if column == "total_cost"@ {
        "Total stage cost"@
    } else if column == "immediate_cost"@ {
        "Immediate (operation) cost"@
    } else if column == "future_cost"@ {
        "Expected future cost (envelope value)"@
    } else if column == "discount_factor"@ {
        "Discount factor applied to this stage"@
    } else if column == "thermal_cost"@ {
        "Total thermal generation cost"@
    } else if column == "anticipated_thermal_cost"@ {
        "Total anticipated (forward-committed) thermal generation cost"@
    } else if column == "contract_cost"@ {
        "Total contract cost"@
    } else if column == "deficit_cost"@ {
        "Total load-deficit penalty cost"@
    } else if column == "excess_cost"@ {
        "Total excess-generation cost"@
    } else if column == "storage_violation_cost"@ {
        "Total storage violation penalty"@
    } else if column == "filling_target_cost"@ {
        "Total filling-target violation cost"@
    } else if column == "hydro_violation_cost"@ {
        "Total hydro constraint violation cost"@
    } else if column == "outflow_violation_below_cost"@ {
        "Cost of minimum outflow violations"@
    } else if column == "outflow_violation_above_cost"@ {
        "Cost of maximum outflow violations"@
    } else if column == "turbined_violation_cost"@ {
        "Cost of minimum turbining violations"@
    } else if column == "generation_violation_cost"@ {
        "Cost of minimum generation violations"@
    } else if column == "evaporation_violation_cost"@ {
        "Cost of evaporation constraint violations"@
    } else if column == "withdrawal_violation_cost"@ {
        "Cost of water withdrawal constraint violations"@
    } else if column == "inflow_penalty_cost"@ {
        "Total inflow non-negativity penalty"@
    } else if column == "generic_violation_cost"@ {
        "Total generic constraint violation cost"@
    } else if column == "spillage_cost"@ {
        "Total spillage regularization cost"@
    } else if column == "turbined_cost"@ {
        "Total turbined regularization cost"@
    } else if column == "curtailment_cost"@ {
        "Total curtailment cost"@
    } else if column == "exchange_cost"@ {
        "Total exchange regularization cost"@
    } else if column == "pumping_cost"@ {
        "Total pumping cost"@
    } else {
        ""@
    }
}

fn describe_costs(column: &str) -> (r: &'static str)
    ensures
        r@ == costs_description(column@),
{
    if text::same_str(column, "stage_id") {
        "Stage index"
    } else if text::same_str(column, "block_id") {
        "Block index within stage (nullable)"
    } else if text::same_str(column, "total_cost") {
        "Total stage cost"
    } else if text::same_str(column, "immediate_cost") {
        "Immediate (operation) cost"
    } else if text::same_str(column, "future_cost") {
        "Expected future cost (envelope value)"
    } else if text::same_str(column, "discount_factor") {
        "Discount factor applied to this stage"
    } else if text::same_str(column, "thermal_cost") {
        "Total thermal generation cost"
    } else if text::same_str(column, "anticipated_thermal_cost") {
        "Total anticipated (forward-committed) thermal generation cost"
    } else if text::same_str(column, "contract_cost") {
        "Total contract cost"
    } else if text::same_str(column, "deficit_cost") {
        "Total load-deficit penalty cost"
    } else if text::same_str(column, "excess_cost") {
        "Total excess-generation cost"
    } else if text::same_str(column, "storage_violation_cost") {
        "Total storage violation penalty"
    } else if text::same_str(column, "filling_target_cost") {
        "Total filling-target violation cost"
    } else if text::same_str(column, "hydro_violation_cost") {
        "Total hydro constraint violation cost"
    } else if text::same_str(column, "outflow_violation_below_cost") {
        "Cost of minimum outflow violations"
    } else if text::same_str(column, "outflow_violation_above_cost") {
        "Cost of maximum outflow violations"
    } else if text::same_str(column, "turbined_violation_cost") {
        "Cost of minimum turbining violations"
    } else if text::same_str(column, "generation_violation_cost") {
        "Cost of minimum generation violations"
    } else if text::same_str(column, "evaporation_violation_cost") {
        "Cost of evaporation constraint violations"
    } else if text::same_str(column, "withdrawal_violation_cost") {
        "Cost of water withdrawal constraint violations"
    } else if text::same_str(column, "inflow_penalty_cost") {
        "Total inflow non-negativity penalty"
    } else if text::same_str(column, "generic_violation_cost") {
        "Total generic constraint violation cost"
    } else if text::same_str(column, "spillage_cost") {
        "Total spillage regularization cost"
    } else if text::same_str(column, "turbined_cost") {
        "Total turbined regularization cost"
    } else if text::same_str(column, "curtailment_cost") {
        "Total curtailment cost"
    } else if text::same_str(column, "exchange_cost") {
        "Total exchange regularization cost"
    } else if text::same_str(column, "pumping_cost") {
        "Total pumping cost"
    } else {
        ""
    }
}

/// What the columns of the file on hydro plants hold.
pub open spec fn hydros_description(column: Seq<char>) -> Seq<char> {
    if column == "stage_id"@ {
        "Stage index"@
    } else if column == "block_id"@ {
        "Block index within stage (nullable)"@
    } else if column == "hydro_id"@ {
        "Hydro plant identifier"@
    } else if column == "turbined_m3s"@ {
        "Turbined flow"@
    } else if column == "spillage_m3s"@ {
        "Spilled flow"@
    } else if column == "outflow_m3s"@ {
        "Total outflow (turbined + spilled)"@
    } else if column == "evaporation_m3s"@ {
        "Evaporation loss (nullable)"@
    } else if column == "diverted_inflow_m3s"@ {
        "Diverted inflow received (nullable)"@
    } else if column == "diverted_outflow_m3s"@ {
        "Diverted outflow sent (nullable)"@
    } else if column == "incremental_inflow_m3s"@ {
        "Incremental (local) inflow"@
    } else if column == "inflow_m3s"@ {
        "Total inflow including upstream contributions"@
    } else if column == "storage_initial_hm3"@ {
        "Reservoir storage at start of stage"@
    } else if column == "storage_final_hm3"@ {
        "Reservoir storage at end of stage"@
    } else if column == "generation_mw"@ {
        "Hydro generation"@
    } else if column == "generation_mwh"@ {
        "Hydro energy generated"@
    } else if column == "equivalent_productivity_mw_per_m3s"@ {
        "Equivalent productivity `ρ_eq` (always populated)"@
    } else if column == "accumulated_productivity_mw_per_m3s"@ {
        "Accumulated productivity `ρ_acum` along downstream cascade"@
    } else if column == "incremental_inflow_energy_mw"@ {
        "Incremental natural energy inflow (`ρ_acum` · incremental inflow)"@
    } else if column == "stored_energy_initial_mwh"@ {
        "Stored energy at start of block"@
    } else if column == "stored_energy_final_mwh"@ {
        "Stored energy at end of block"@
    } else if column == "spillage_cost"@ {
        "Spillage regularization cost"@
    } else if column == "water_value_per_hm3"@ {
        "Marginal water value"@
    } else if column == "storage_binding_code"@ {
        "Storage bound binding code"@
    } else if column == "operative_state_code"@ {
        "Operative state code"@
    } else if column == "turbined_slack_m3s"@ {
        "Turbined minimum slack"@
    } else if column == "outflow_slack_below_m3s"@ {
        "Outflow below-minimum slack"@
    } else if column == "outflow_slack_above_m3s"@ {
        "Outflow above-maximum slack"@
    } else if column == "generation_slack_mw"@ {
        "Generation minimum slack"@
    } else if column == "storage_violation_below_hm3"@ {
        "Storage below dead-volume violation"@
    } else if column == "filling_target_violation_hm3"@ {
        "Filling target violation"@
    } else if column == "evaporation_violation_pos_m3s"@ {
        "Over-evaporation constraint violation"@
    } else if column == "evaporation_violation_neg_m3s"@ {
        "Under-evaporation constraint violation"@
    } else if column == "inflow_nonnegativity_slack_m3s"@ {
        "Inflow non-negativity slack"@
    } else if column == "water_withdrawal_violation_pos_m3s"@ {
        "Over-withdrawal constraint violation"@
    } else if column == "water_withdrawal_violation_neg_m3s"@ {
        "Under-withdrawal constraint violation"@
    } else {
        ""@
    }
}

fn describe_hydros(column: &str) -> (r: &'static str)
    ensures
        r@ == hydros_description(column@),
{
    if text::same_str(column, "stage_id") {
        "Stage index"
    } else if text::same_str(column, "block_id") {
        "Block index within stage (nullable)"
    } else if text::same_str(column, "hydro_id") {
        "Hydro plant identifier"
    } else if text::same_str(column, "turbined_m3s") {
        "Turbined flow"
    } else if text::same_str(column, "spillage_m3s") {
        "Spilled flow"
    } else if text::same_str(column, "outflow_m3s") {
        "Total outflow (turbined + spilled)"
    } else if text::same_str(column, "evaporation_m3s") {
        "Evaporation loss (nullable)"
    } else if text::same_str(column, "diverted_inflow_m3s") {
        "Diverted inflow received (nullable)"
    } else if text::same_str(column, "diverted_outflow_m3s") {
        "Diverted outflow sent (nullable)"
    } else if text::same_str(column, "incremental_inflow_m3s") {
        "Incremental (local) inflow"
    } else if text::same_str(column, "inflow_m3s") {
        "Total inflow including upstream contributions"
    } else if text::same_str(column, "storage_initial_hm3") {
        "Reservoir storage at start of stage"
    } else if text::same_str(column, "storage_final_hm3") {
        "Reservoir storage at end of stage"
    } else if text::same_str(column, "generation_mw") {
        "Hydro generation"
    } else if text::same_str(column, "generation_mwh") {
        "Hydro energy generated"
    } else if text::same_str(column, "equivalent_productivity_mw_per_m3s") {
        "Equivalent productivity `ρ_eq` (always populated)"
    } else if text::same_str(column, "accumulated_productivity_mw_per_m3s") {
        "Accumulated productivity `ρ_acum` along downstream cascade"
    } else if text::same_str(column, "incremental_inflow_energy_mw") {
        "Incremental natural energy inflow (`ρ_acum` · incremental inflow)"
    } else if text::same_str(column, "stored_energy_initial_mwh") {
        "Stored energy at start of block"
    } else if text::same_str(column, "stored_energy_final_mwh") {
        "Stored energy at end of block"
    } else if text::same_str(column, "spillage_cost") {
        "Spillage regularization cost"
    } else if text::same_str(column, "water_value_per_hm3") {
        "Marginal water value"
    } else if text::same_str(column, "storage_binding_code") {
        "Storage bound binding code"
    } else if text::same_str(column, "operative_state_code") {
        "Operative state code"
    } else if text::same_str(column, "turbined_slack_m3s") {
        "Turbined minimum slack"
    } else if text::same_str(column, "outflow_slack_below_m3s") {
        "Outflow below-minimum slack"
    } else if text::same_str(column, "outflow_slack_above_m3s") {
        "Outflow above-maximum slack"
    } else if text::same_str(column, "generation_slack_mw") {
        "Generation minimum slack"
    } else if text::same_str(column, "storage_violation_below_hm3") {
        "Storage below dead-volume violation"
    } else if text::same_str(column, "filling_target_violation_hm3") {
        "Filling target violation"
    } else if text::same_str(column, "evaporation_violation_pos_m3s") {
        "Over-evaporation constraint violation"
    } else if text::same_str(column, "evaporation_violation_neg_m3s") {
        "Under-evaporation constraint violation"
    } else if text::same_str(column, "inflow_nonnegativity_slack_m3s") {
        "Inflow non-negativity slack"
    } else if text::same_str(column, "water_withdrawal_violation_pos_m3s") {
        "Over-withdrawal constraint violation"
    } else if text::same_str(column, "water_withdrawal_violation_neg_m3s") {
        "Under-withdrawal constraint violation"
    } else {
        ""
    }
}

/// What the columns of the file on thermal plants hold.
pub open spec fn thermals_description(column: Seq<char>) -> Seq<char> {
    if column == "stage_id"@ {
        "Stage index"@
    } else if column == "block_id"@ {
        "Block index within stage (nullable)"@
    } else if column == "thermal_id"@ {
        "Thermal plant identifier"@
    } else if column == "generation_mw"@ {
        "Thermal generation"@
    } else if column == "generation_mwh"@ {
        "Thermal energy generated"@
    } else if column == "generation_cost"@ {
        "Thermal generation cost"@
    } else if column == "is_anticipated"@ {
        "Whether plant uses anticipated dispatch"@
    } else if column == "anticipated_committed_mw"@ {
        "Anticipated committed capacity (nullable)"@
    } else if column == "anticipated_decision_mw"@ {
        "Anticipated dispatch decision (nullable)"@
    } else if column == "operative_state_code"@ {
        "Operative state code"@
    } else {
        ""@
    }
}

fn describe_thermals(column: &str) -> (r: &'static str)
    ensures
        r@ == thermals_description(column@),
{
    if text::same_str(column, "stage_id") {
        "Stage index"
    } else if text::same_str(column, "block_id") {
        "Block index within stage (nullable)"
    } else if text::same_str(column, "thermal_id") {
        "Thermal plant identifier"
    } else if text::same_str(column, "generation_mw") {
        "Thermal generation"
    } else if text::same_str(column, "generation_mwh") {
        "Thermal energy generated"
    } else if text::same_str(column, "generation_cost") {
        "Thermal generation cost"
    } else if text::same_str(column, "is_anticipated") {
        "Whether plant uses anticipated dispatch"
    } else if text::same_str(column, "anticipated_committed_mw") {
        "Anticipated committed capacity (nullable)"
    } else if text::same_str(column, "anticipated_decision_mw") {
        "Anticipated dispatch decision (nullable)"
    } else if text::same_str(column, "operative_state_code") {
        "Operative state code"
    } else {
        ""
    }
}

/// What the columns of the file on exchanges hold.
pub open spec fn exchanges_description(column: Seq<char>) -> Seq<char> {
    if column == "stage_id"@ {
        "Stage index"@
    } else if column == "block_id"@ {
        "Block index within stage (nullable)"@
    } else if column == "line_id"@ {
        "Transmission line identifier"@
    } else if column == "direct_flow_mw"@ {
        "Flow in direct direction"@
    } else if column == "reverse_flow_mw"@ {
        "Flow in reverse direction"@
    } else if column == "net_flow_mw"@ {
        "Net flow (direct minus reverse)"@
    } else if column == "net_flow_mwh"@ {
        "Net energy exchanged"@
    } else if column == "losses_mw"@ {
        "Transmission losses"@
    } else if column == "losses_mwh"@ {
        "Transmission energy losses"@
    } else if column == "exchange_cost"@ {
        "Exchange regularization cost"@
    } else if column == "operative_state_code"@ {
        "Operative state code"@
    } else {
        ""@
    }
}

fn describe_exchanges(column: &str) -> (r: &'static str)
    ensures
        r@ == exchanges_description(column@),
{
    if text::same_str(column, "stage_id") {
        "Stage index"
    } else if text::same_str(column, "block_id") {
        "Block index within stage (nullable)"
    } else if text::same_str(column, "line_id") {
        "Transmission line identifier"
    } else if text::same_str(column, "direct_flow_mw") {
        "Flow in direct direction"
    } else if text::same_str(column, "reverse_flow_mw") {
        "Flow in reverse direction"
    } else if text::same_str(column, "net_flow_mw") {
        "Net flow (direct minus reverse)"
    } else if text::same_str(column, "net_flow_mwh") {
        "Net energy exchanged"
    } else if text::same_str(column, "losses_mw") {
        "Transmission losses"
    } else if text::same_str(column, "losses_mwh") {
        "Transmission energy losses"
    } else if text::same_str(column, "exchange_cost") {
        "Exchange regularization cost"
    } else if text::same_str(column, "operative_state_code") {
        "Operative state code"
    } else {
        ""
    }
}

/// What the columns of the file on buses hold.
pub open spec fn buses_description(column: Seq<char>) -> Seq<char> {
    if column == "stage_id"@ {
        "Stage index"@
    } else if column == "block_id"@ {
        "Block index within stage (nullable)"@
    } else if column == "bus_id"@ {
        "Bus identifier"@
    } else if column == "load_mw"@ {
        "Load demand"@
    } else if column == "load_mwh"@ {
        "Load energy demand"@
    } else if column == "deficit_mw"@ {
        "Unmet demand (deficit)"@
    } else if column == "deficit_mwh"@ {
        "Unmet energy demand"@
    } else if column == "excess_mw"@ {
        "Excess generation absorbed"@
    } else if column == "excess_mwh"@ {
        "Excess energy absorbed"@
    } else if column == "spot_price"@ {
        "Bus spot price (dual of balance constraint)"@
    } else {
        ""@
    }
}

fn describe_buses(column: &str) -> (r: &'static str)
    ensures
        r@ == buses_description(column@),
{
    if text::same_str(column, "stage_id") {
        "Stage index"
    } else if text::same_str(column, "block_id") {
        "Block index within stage (nullable)"
    } else if text::same_str(column, "bus_id") {
        "Bus identifier"
    } else if text::same_str(column, "load_mw") {
        "Load demand"
    } else if text::same_str(column, "load_mwh") {
        "Load energy demand"
    } else if text::same_str(column, "deficit_mw") {
        "Unmet demand (deficit)"
    } else if text::same_str(column, "deficit_mwh") {
        "Unmet energy demand"
    } else if text::same_str(column, "excess_mw") {
        "Excess generation absorbed"
    } else if text::same_str(column, "excess_mwh") {
        "Excess energy absorbed"
    } else if text::same_str(column, "spot_price") {
        "Bus spot price (dual of balance constraint)"
    } else {
        ""
    }
}

/// What the columns of the file on pumping stations hold.
pub open spec fn pumping_stations_description(column: Seq<char>) -> Seq<char> {
    if column == "stage_id"@ {
        "Stage index"@
    } else if column == "block_id"@ {
        "Block index within stage (nullable)"@
    } else if column == "pumping_station_id"@ {
        "Pumping station identifier"@
    } else if column == "pumped_flow_m3s"@ {
        "Pumped water flow"@
    } else if column == "pumped_volume_hm3"@ {
        "Pumped water volume"@
    } else if column == "power_consumption_mw"@ {
        "Electrical power consumed"@
    } else if column == "energy_consumption_mwh"@ {
        "Electrical energy consumed"@
    } else if column == "pumping_cost"@ {
        "Pumping operation cost"@
    } else if column == "operative_state_code"@ {
        "Operative state code"@
    } else {
        ""@
    }
}

fn describe_pumping_stations(column: &str) -> (r: &'static str)
    ensures
        r@ == pumping_stations_description(column@),
{
    if text::same_str(column, "stage_id") {
        "Stage index"
    } else if text::same_str(column, "block_id") {
        "Block index within stage (nullable)"
    } else if text::same_str(column, "pumping_station_id") {
        "Pumping station identifier"
    } else if text::same_str(column, "pumped_flow_m3s") {
        "Pumped water flow"
    } else if text::same_str(column, "pumped_volume_hm3") {
        "Pumped water volume"
    } else if text::same_str(column, "power_consumption_mw") {
        "Electrical power consumed"
    } else if text::same_str(column, "energy_consumption_mwh") {
        "Electrical energy consumed"
    } else if text::same_str(column, "pumping_cost") {
        "Pumping operation cost"
    } else if text::same_str(column, "operative_state_code") {
        "Operative state code"
    } else {
        ""
    }
}

/// What the columns of the file on contracts hold.
pub open spec fn contracts_description(column: Seq<char>) -> Seq<char> {
    if column == "stage_id"@ {
        "Stage index"@
    } else if column == "block_id"@ {
        "Block index within stage (nullable)"@
    } else if column == "contract_id"@ {
        "Contract identifier"@
    } else if column == "power_mw"@ {
        "Contracted power"@
    } else if column == "energy_mwh"@ {
        "Contracted energy"@
    } else if column == "price_per_mwh"@ {
        "Effective contract price"@
    } else if column == "total_cost"@ {
        "Total contract cost"@
    } else if column == "operative_state_code"@ {
        "Operative state code"@
    } else {
        ""@
    }
}

fn describe_contracts(column: &str) -> (r: &'static str)
    ensures
        r@ == contracts_description(column@),
{
    if text::same_str(column, "stage_id") {
        "Stage index"
    } else if text::same_str(column, "block_id") {
        "Block index within stage (nullable)"
    } else if text::same_str(column, "contract_id") {
        "Contract identifier"
    } else if text::same_str(column, "power_mw") {
        "Contracted power"
    } else if text::same_str(column, "energy_mwh") {
        "Contracted energy"
    } else if text::same_str(column, "price_per_mwh") {
        "Effective contract price"
    } else if text::same_str(column, "total_cost") {
        "Total contract cost"
    } else if text::same_str(column, "operative_state_code") {
        "Operative state code"
    } else {
        ""
    }
}

/// What the columns of the file on non-controllable sources hold.
pub open spec fn non_controllables_description(column: Seq<char>) -> Seq<char> {
    if column == "stage_id"@ {
        "Stage index"@
    } else if column == "block_id"@ {
        "Block index within stage (nullable)"@
    } else if column == "non_controllable_id"@ {
        "Non-controllable source identifier"@
    } else if column == "generation_mw"@ {
        "Non-controllable generation dispatched"@
    } else if column == "generation_mwh"@ {
        "Non-controllable energy generated"@
    } else if column == "available_mw"@ {
        "Available generation capacity"@
    } else if column == "curtailment_mw"@ {
        "Curtailed generation"@
    } else if column == "curtailment_mwh"@ {
        "Curtailed energy"@
    } else if column == "curtailment_cost"@ {
        "Curtailment cost"@
    } else if column == "operative_state_code"@ {
        "Operative state code"@
    } else {
        ""@
    }
}

fn describe_non_controllables(column: &str) -> (r: &'static str)
    ensures
        r@ == non_controllables_description(column@),
{
    if text::same_str(column, "stage_id") {
        "Stage index"
    } else if text::same_str(column, "block_id") {
        "Block index within stage (nullable)"
    } else if text::same_str(column, "non_controllable_id") {
        "Non-controllable source identifier"
    } else if text::same_str(column, "generation_mw") {
        "Non-controllable generation dispatched"
    } else if text::same_str(column, "generation_mwh") {
        "Non-controllable energy generated"
    } else if text::same_str(column, "available_mw") {
        "Available generation capacity"
    } else if text::same_str(column, "curtailment_mw") {
        "Curtailed generation"
    } else if text::same_str(column, "curtailment_mwh") {
        "Curtailed energy"
    } else if text::same_str(column, "curtailment_cost") {
        "Curtailment cost"
    } else if text::same_str(column, "operative_state_code") {
        "Operative state code"
    } else {
        ""
    }
}

/// What the columns of the file on inflow lags hold.
pub open spec fn inflow_lags_description(column: Seq<char>) -> Seq<char> {
    if column == "stage_id"@ {
        "Stage index"@
    } else if column == "hydro_id"@ {
        "Hydro plant identifier"@
    } else if column == "lag_index"@ {
        "AR lag index (1-based)"@
    } else if column == "inflow_m3s"@ {
        "Historical inflow for this lag"@
    } else {
        ""@
    }
}

fn describe_inflow_lags(column: &str) -> (r: &'static str)
    ensures
        r@ == inflow_lags_description(column@),
{
    if text::same_str(column, "stage_id") {
        "Stage index"
    } else if text::same_str(column, "hydro_id") {
        "Hydro plant identifier"
    } else if text::same_str(column, "lag_index") {
        "AR lag index (1-based)"
    } else if text::same_str(column, "inflow_m3s") {
        "Historical inflow for this lag"
    } else {
        ""
    }
}

/// What the columns of the file on violations of generic constraints hold.
pub open spec fn generic_violations_description(column: Seq<char>) -> Seq<char> {
    if column == "stage_id"@ {
        "Stage index"@
    } else if column == "block_id"@ {
        "Block index within stage (nullable)"@
    } else if column == "constraint_id"@ {
        "Generic constraint identifier"@
    } else if column == "slack_value"@ {
        "Constraint slack value"@
    } else if column == "slack_cost"@ {
        "Constraint slack penalty cost"@
    } else {
        ""@
    }
}

fn describe_generic_violations(column: &str) -> (r: &'static str)
    ensures
        r@ == generic_violations_description(column@),
{
    if text::same_str(column, "stage_id") {
        "Stage index"
    } else if text::same_str(column, "block_id") {
        "Block index within stage (nullable)"
    } else if text::same_str(column, "constraint_id") {
        "Generic constraint identifier"
    } else if text::same_str(column, "slack_value") {
        "Constraint slack value"
    } else if text::same_str(column, "slack_cost") {
        "Constraint slack penalty cost"
    } else {
        ""
    }
}

/// What the columns of the file on the convergence of training hold.
pub open spec fn convergence_description(column: Seq<char>) -> Seq<char> {
    if column == "iteration"@ {
        "Iteration number (1-based)"@
    } else if column == "lower_bound"@ {
        "Lower bound on the optimal value"@
    } else if column == "upper_bound_mean"@ {
        "Mean upper bound estimate (nullable)"@
    } else if column == "upper_bound_std"@ {
        "Std deviation of upper bound (nullable)"@
    } else if column == "gap_percent"@ {
        "Relative optimality gap in percent (nullable)"@
    } else if column == "cuts_added"@ {
        "Cuts added in this iteration"@
    } else if column == "cuts_removed"@ {
        "Cuts removed in this iteration"@
    } else if column == "cuts_active"@ {
        "Total active cuts after iteration"@
    } else if column == "time_forward_ms"@ {
        "Forward-pass wall-clock time"@
    } else if column == "time_backward_ms"@ {
        "Backward-pass wall-clock time"@
    } else if column == "time_total_ms"@ {
        "Total iteration wall-clock time"@
    } else if column == "forward_passes"@ {
        "Number of forward-pass scenarios"@
    } else if column == "lp_solves"@ {
        "Total LP solves in iteration"@
    } else if column == "mean_rows_in_lp"@ {
        "Mean resident rows loaded per lazy-selection LP solve this iteration (0 when no lazy selection ran)"@
    } else {
        ""@
    }
}

fn describe_convergence(column: &str) -> (r: &'static str)
    ensures
        r@ == convergence_description(column@),
{
    if text::same_str(column, "iteration") {
        "Iteration number (1-based)"
    } else if text::same_str(column, "lower_bound") {
        "Lower bound on the optimal value"
    } else if text::same_str(column, "upper_bound_mean") {
        "Mean upper bound estimate (nullable)"
    } else if text::same_str(column, "upper_bound_std") {
        "Std deviation of upper bound (nullable)"
    } else if text::same_str(column, "gap_percent") {
        "Relative optimality gap in percent (nullable)"
    } else if text::same_str(column, "cuts_added") {
        "Cuts added in this iteration"
    } else if text::same_str(column, "cuts_removed") {
        "Cuts removed in this iteration"
    } else if text::same_str(column, "cuts_active") {
        "Total active cuts after iteration"
    } else if text::same_str(column, "time_forward_ms") {
        "Forward-pass wall-clock time"
    } else if text::same_str(column, "time_backward_ms") {
        "Backward-pass wall-clock time"
    } else if text::same_str(column, "time_total_ms") {
        "Total iteration wall-clock time"
    } else if text::same_str(column, "forward_passes") {
        "Number of forward-pass scenarios"
    } else if text::same_str(column, "lp_solves") {
        "Total LP solves in iteration"
    } else if text::same_str(column, "mean_rows_in_lp") {
        "Mean resident rows loaded per lazy-selection LP solve this iteration (0 when no lazy selection ran)"
    } else {
        ""
    }
}

/// What the columns of the file on the timing of iterations hold.
pub open spec fn iteration_timing_description(column: Seq<char>) -> Seq<char> {
    if column == "iteration"@ {
        "Iteration number (1-based)"@
    } else if column == "rank"@ {
        "MPI rank that produced this row. Always set; single-rank runs use 0."@
    } else if column == "worker_id"@ {
        "Worker thread index within the rank's pool. NULL on rank-aggregated rows that carry rank-only timings (cut_selection, mpi_allreduce, cut_sync, lower_bound, state_exchange, cut_batch_build, load_imbalance / scheduling_overhead, overhead). Set on per-worker rows that carry parallel-region timings (forward_wall, backward_wall, fwd_setup, bwd_setup, lazy_scoring)."@
    } else if column == "forward_wall_ms"@ {
        "Forward pass wall-clock time"@
    } else if column == "backward_wall_ms"@ {
        "Backward pass wall-clock time"@
    } else if column == "cut_selection_ms"@ {
        "Row-selection time"@
    } else if column == "mpi_allreduce_ms"@ {
        "MPI allreduce time"@
    } else if column == "cut_sync_ms"@ {
        "Per-stage row-sync allgatherv time"@
    } else if column == "lower_bound_ms"@ {
        "Lower bound evaluation time"@
    } else if column == "state_exchange_ms"@ {
        "State exchange allgatherv time"@
    } else if column == "cut_batch_build_ms"@ {
        "Row-batch assembly time"@
    } else if column == "bwd_setup_ms"@ {
        "Thread-pool setup time before backward pass"@
    } else if column == "bwd_load_imbalance_ms"@ {
        "Estimated load imbalance across backward pass worker threads"@
    } else if column == "bwd_scheduling_overhead_ms"@ {
        "Scheduling and synchronisation overhead in the backward pass"@
    } else if column == "fwd_setup_ms"@ {
        "Thread-pool setup time before forward pass"@
    } else if column == "fwd_load_imbalance_ms"@ {
        "Estimated load imbalance across forward pass worker threads"@
    } else if column == "fwd_scheduling_overhead_ms"@ {
        "Scheduling and synchronisation overhead in the forward pass"@
    } else if column == "overhead_ms"@ {
        "Residual iteration time not attributed to any phase"@
    } else if column == "lazy_scoring_ms"@ {
        "Per-worker time spent in lazy candidate scoring inside the lazy-selection solve; 0 when that solve path is not used. A sub-component of the forward/backward phases."@
    } else {
        ""@
    }
}

fn describe_iteration_timing(column: &str) -> (r: &'static str)
    ensures
        r@ == iteration_timing_description(column@),
{
    if text::same_str(column, "iteration") {
        "Iteration number (1-based)"
    } else if text::same_str(column, "rank") {
        "MPI rank that produced this row. Always set; single-rank runs use 0."
    } else if text::same_str(column, "worker_id") {
        "Worker thread index within the rank's pool. NULL on rank-aggregated rows that carry rank-only timings (cut_selection, mpi_allreduce, cut_sync, lower_bound, state_exchange, cut_batch_build, load_imbalance / scheduling_overhead, overhead). Set on per-worker rows that carry parallel-region timings (forward_wall, backward_wall, fwd_setup, bwd_setup, lazy_scoring)."
    } else if text::same_str(column, "forward_wall_ms") {
        "Forward pass wall-clock time"
    } else if text::same_str(column, "backward_wall_ms") {
        "Backward pass wall-clock time"
    } else if text::same_str(column, "cut_selection_ms") {
        "Row-selection time"
    } else if text::same_str(column, "mpi_allreduce_ms") {
        "MPI allreduce time"
    } else if text::same_str(column, "cut_sync_ms") {
        "Per-stage row-sync allgatherv time"
    } else if text::same_str(column, "lower_bound_ms") {
        "Lower bound evaluation time"
    } else if text::same_str(column, "state_exchange_ms") {
        "State exchange allgatherv time"
    } else if text::same_str(column, "cut_batch_build_ms") {
        "Row-batch assembly time"
    } else if text::same_str(column, "bwd_setup_ms") {
        "Thread-pool setup time before backward pass"
    } else if text::same_str(column, "bwd_load_imbalance_ms") {
        "Estimated load imbalance across backward pass worker threads"
    } else if text::same_str(column, "bwd_scheduling_overhead_ms") {
        "Scheduling and synchronisation overhead in the backward pass"
    } else if text::same_str(column, "fwd_setup_ms") {
        "Thread-pool setup time before forward pass"
    } else if text::same_str(column, "fwd_load_imbalance_ms") {
        "Estimated load imbalance across forward pass worker threads"
    } else if text::same_str(column, "fwd_scheduling_overhead_ms") {
        "Scheduling and synchronisation overhead in the forward pass"
    } else if text::same_str(column, "overhead_ms") {
        "Residual iteration time not attributed to any phase"
    } else if text::same_str(column, "lazy_scoring_ms") {
        "Per-worker time spent in lazy candidate scoring inside the lazy-selection solve; 0 when that solve path is not used. A sub-component of the forward/backward phases."
    } else {
        ""
    }
}

/// What the columns of the file on the timing of ranks hold.
pub open spec fn rank_timing_description(column: Seq<char>) -> Seq<char> {
    if column == "iteration"@ {
        "Iteration number (1-based)"@
    } else if column == "rank"@ {
        "MPI rank"@
    } else if column == "forward_time_ms"@ {
        "Forward-pass time for this rank"@
    } else if column == "backward_time_ms"@ {
        "Backward-pass time for this rank"@
    } else if column == "communication_time_ms"@ {
        "Communication time for this rank"@
    } else if column == "idle_time_ms"@ {
        "Idle time for this rank"@
    } else if column == "lp_solves"@ {
        "LP solves on this rank"@
    } else if column == "scenarios_processed"@ {
        "Scenarios processed by this rank"@
    } else {
        ""@
    }
}

fn describe_rank_timing(column: &str) -> (r: &'static str)
    ensures
        r@ == rank_timing_description(column@),
{
    if text::same_str(column, "iteration") {
        "Iteration number (1-based)"
    } else if text::same_str(column, "rank") {
        "MPI rank"
    } else if text::same_str(column, "forward_time_ms") {
        "Forward-pass time for this rank"
    } else if text::same_str(column, "backward_time_ms") {
        "Backward-pass time for this rank"
    } else if text::same_str(column, "communication_time_ms") {
        "Communication time for this rank"
    } else if text::same_str(column, "idle_time_ms") {
        "Idle time for this rank"
    } else if text::same_str(column, "lp_solves") {
        "LP solves on this rank"
    } else if text::same_str(column, "scenarios_processed") {
        "Scenarios processed by this rank"
    } else {
        ""
    }
}

/// What the columns of the file on the selection of cuts hold.
pub open spec fn cut_selection_description(column: Seq<char>) -> Seq<char> {
    if column == "iteration"@ {
        "Iteration number (1-based)"@
    } else if column == "stage"@ {
        "Stage index (0-based)"@
    } else if column == "cuts_populated"@ {
        "Total cuts ever generated at this stage"@
    } else if column == "cuts_active_before"@ {
        "Active cuts before selection ran"@
    } else if column == "cuts_deactivated"@ {
        "Cuts deactivated by selection"@
    } else if column == "cuts_reactivated"@ {
        "Cuts reactivated (previously deactivated, re-entered LP)"@
    } else if column == "cuts_active_after"@ {
        "Active cuts after selection"@
    } else if column == "selection_time_ms"@ {
        "Wall-clock time for selection at this stage"@
    } else if column == "budget_evicted"@ {
        "Cuts evicted by budget enforcement (null when budget disabled)"@
    } else if column == "active_after_budget"@ {
        "Active cuts after budget enforcement (null when budget disabled)"@
    } else {
        ""@
    }
}

fn describe_cut_selection(column: &str) -> (r: &'static str)
    ensures
        r@ == cut_selection_description(column@),
{
    if text::same_str(column, "iteration") {
        "Iteration number (1-based)"
    } else if text::same_str(column, "stage") {
        "Stage index (0-based)"
    } else if text::same_str(column, "cuts_populated") {
        "Total cuts ever generated at this stage"
    } else if text::same_str(column, "cuts_active_before") {
        "Active cuts before selection ran"
    } else if text::same_str(column, "cuts_deactivated") {
        "Cuts deactivated by selection"
    } else if text::same_str(column, "cuts_reactivated") {
        "Cuts reactivated (previously deactivated, re-entered LP)"
    } else if text::same_str(column, "cuts_active_after") {
        "Active cuts after selection"
    } else if text::same_str(column, "selection_time_ms") {
        "Wall-clock time for selection at this stage"
    } else if text::same_str(column, "budget_evicted") {
        "Cuts evicted by budget enforcement (null when budget disabled)"
    } else if text::same_str(column, "active_after_budget") {
        "Active cuts after budget enforcement (null when budget disabled)"
    } else {
        ""
    }
}

/// What the columns of the file on solver calls hold.
pub open spec fn solver_iterations_description(column: Seq<char>) -> Seq<char> {
    if column == "iteration"@ {
        "Iteration number (1-based) or scenario ID (0-based)"@
    } else if column == "phase"@ {
        "Solver phase (forward, backward, lower_bound, simulation)"@
    } else if column == "stage"@ {
        "Stage index (-1 for non-per-stage phases)"@
    } else if column == "lp_solves"@ {
        "Number of LP solves"@
    } else if column == "lp_successes"@ {
        "Solves that returned optimal"@
    } else if column == "lp_retries"@ {
        "Solves requiring retry escalation"@
    } else if column == "lp_failures"@ {
        "Solves that exhausted all retry levels"@
    } else if column == "retry_attempts"@ {
        "Total retry attempts across all solves"@
    } else if column == "basis_offered"@ {
        "Number of warm-start solve calls (basis-offered)"@
    } else if column == "basis_consistency_failures"@ {
        "Number of warm-start solve calls rejected because isBasisConsistent returned false"@
    } else if column == "simplex_iterations"@ {
        "Total simplex iterations"@
    } else if column == "solve_time_ms"@ {
        "Cumulative solve wall-clock time"@
    } else if column == "load_model_time_ms"@ {
        "Cumulative load_model call time"@
    } else if column == "set_bounds_time_ms"@ {
        "Cumulative set_bounds call time"@
    } else if column == "basis_set_time_ms"@ {
        "Cumulative set_basis call time"@
    } else if column == "opening"@ {
        "Opening (noise realization) index within the stage, for backward-pass rows. NULL for forward, lower_bound, and simulation rows — these phases do not have an opening dimension. Backward rows range 0..n_openings."@
    } else if column == "rank"@ {
        "MPI rank that produced this row. NULL for rank-aggregated rows."@
    } else if column == "worker_id"@ {
        "Worker thread index within the rank's pool that produced this row. NULL for rank-aggregated rows."@
    } else {
        ""@
    }
}

fn describe_solver_iterations(column: &str) -> (r: &'static str)
    ensures
        r@ == solver_iterations_description(column@),
{
    if text::same_str(column, "iteration") {
        "Iteration number (1-based) or scenario ID (0-based)"
    } else if text::same_str(column, "phase") {
        "Solver phase (forward, backward, lower_bound, simulation)"
    } else if text::same_str(column, "stage") {
        "Stage index (-1 for non-per-stage phases)"
    } else if text::same_str(column, "lp_solves") {
        "Number of LP solves"
    } else if text::same_str(column, "lp_successes") {
        "Solves that returned optimal"
    } else if text::same_str(column, "lp_retries") {
        "Solves requiring retry escalation"
    } else if text::same_str(column, "lp_failures") {
        "Solves that exhausted all retry levels"
    } else if text::same_str(column, "retry_attempts") {
        "Total retry attempts across all solves"
    } else if text::same_str(column, "basis_offered") {
        "Number of warm-start solve calls (basis-offered)"
    } else if text::same_str(column, "basis_consistency_failures") {
        "Number of warm-start solve calls rejected because isBasisConsistent returned false"
    } else if text::same_str(column, "simplex_iterations") {
        "Total simplex iterations"
    } else if text::same_str(column, "solve_time_ms") {
        "Cumulative solve wall-clock time"
    } else if text::same_str(column, "load_model_time_ms") {
        "Cumulative load_model call time"
    } else if text::same_str(column, "set_bounds_time_ms") {
        "Cumulative set_bounds call time"
    } else if text::same_str(column, "basis_set_time_ms") {
        "Cumulative set_basis call time"
    } else if text::same_str(column, "opening") {
        "Opening (noise realization) index within the stage, for backward-pass rows. NULL for forward, lower_bound, and simulation rows — these phases do not have an opening dimension. Backward rows range 0..n_openings."
    } else if text::same_str(column, "rank") {
        "MPI rank that produced this row. NULL for rank-aggregated rows."
    } else if text::same_str(column, "worker_id") {
        "Worker thread index within the rank's pool that produced this row. NULL for rank-aggregated rows."
    } else {
        ""
    }
}

/// What the columns of the file on solver retries hold.
pub open spec fn retry_histogram_description(column: Seq<char>) -> Seq<char> {
    if column == "iteration"@ {
        "Iteration number (1-based) or scenario ID (0-based)"@
    } else if column == "phase"@ {
        "Solver phase (forward, backward, lower_bound, simulation)"@
    } else if column == "stage"@ {
        "Stage index (-1 for non-per-stage phases)"@
    } else if column == "retry_level"@ {
        "Retry escalation level (0-based)"@
    } else if column == "count"@ {
        "Number of solves recovered at this level"@
    } else {
        ""@
    }
}

fn describe_retry_histogram(column: &str) -> (r: &'static str)
    ensures
        r@ == retry_histogram_description(column@),
{
    if text::same_str(column, "iteration") {
        "Iteration number (1-based) or scenario ID (0-based)"
    } else if text::same_str(column, "phase") {
        "Solver phase (forward, backward, lower_bound, simulation)"
    } else if text::same_str(column, "stage") {
        "Stage index (-1 for non-per-stage phases)"
    } else if text::same_str(column, "retry_level") {
        "Retry escalation level (0-based)"
    } else if text::same_str(column, "count") {
        "Number of solves recovered at this level"
    } else {
        ""
    }
}

/// What a column of a file holds; empty for a column that is not described.
pub open spec fn description_of(file: Seq<char>, column: Seq<char>) -> Seq<char> {
    if file == "costs"@ {
        costs_description(column)
    } else if file == "hydros"@ {
        hydros_description(column)
    } else if file == "thermals"@ {
        thermals_description(column)
    } else if file == "exchanges"@ {
        exchanges_description(column)
    } else if file == "buses"@ {
        buses_description(column)
    } else if file == "pumping_stations"@ {
        pumping_stations_description(column)
    } else if file == "contracts"@ {
        contracts_description(column)
    } else if file == "non_controllables"@ {
        non_controllables_description(column)
    } else if file == "inflow_lags"@ {
        inflow_lags_description(column)
    } else if file == "generic_violations"@ {
        generic_violations_description(column)
    } else if file == "convergence"@ {
        convergence_description(column)
    } else if file == "iteration_timing"@ {
        iteration_timing_description(column)
    } else if file == "rank_timing"@ {
        rank_timing_description(column)
    } else if file == "cut_selection"@ {
        cut_selection_description(column)
    } else if file == "solver_iterations"@ {
        solver_iterations_description(column)
    } else if file == "retry_histogram"@ {
        retry_histogram_description(column)
    } else {
        ""@
    }
}

/// What a column of a file holds; empty for a column that is not described.
pub fn description_for(file: &str, column: &str) -> (r: &'static str)
    ensures
        r@ == description_of(file@, column@),
{
    if text::same_str(file, "costs") {
        describe_costs(column)
    } else if text::same_str(file, "hydros") {
        describe_hydros(column)
    } else if text::same_str(file, "thermals") {
        describe_thermals(column)
    } else if text::same_str(file, "exchanges") {
        describe_exchanges(column)
    } else if text::same_str(file, "buses") {
        describe_buses(column)
    } else if text::same_str(file, "pumping_stations") {
        describe_pumping_stations(column)
    } else if text::same_str(file, "contracts") {
        describe_contracts(column)
    } else if text::same_str(file, "non_controllables") {
        describe_non_controllables(column)
    } else if text::same_str(file, "inflow_lags") {
        describe_inflow_lags(column)
    } else if text::same_str(file, "generic_violations") {
        describe_generic_violations(column)
    } else if text::same_str(file, "convergence") {
        describe_convergence(column)
    } else if text::same_str(file, "iteration_timing") {
        describe_iteration_timing(column)
    } else if text::same_str(file, "rank_timing") {
        describe_rank_timing(column)
    } else if text::same_str(file, "cut_selection") {
        describe_cut_selection(column)
    } else if text::same_str(file, "solver_iterations") {
        describe_solver_iterations(column)
    } else if text::same_str(file, "retry_histogram") {
        describe_retry_histogram(column)
    } else {
        ""
    }
}

// ── Rows ─────────────────────────────────────────────────────────────────────

/// A column of a file: its name, its type and whether it may hold nulls.
#[derive(Clone, Debug, PartialEq)]
pub struct Field {
    /// The name.
    pub name: String,
    /// The type.
    pub data_type: DataType,
    /// Whether it may hold nulls.
    pub nullable: bool,
}

/// The columns of a file.
#[derive(Clone, Debug, PartialEq)]
pub struct FileSchema {
    /// The file.
    pub file: String,
    /// Its columns, in order.
    pub fields: Vec<Field>,
}

/// One row of the dictionary.
#[derive(Clone, Debug, PartialEq)]
pub struct VariableRow {
    /// The file.
    pub file: String,
    /// The column.
    pub column: String,
    /// The name of its type.
    pub data_type: &'static str,
    /// Its unit.
    pub unit: &'static str,
    /// What it holds.
    pub description: &'static str,
    /// Whether it may hold nulls: `true` or `false`.
    pub nullable: &'static str,
}

/// What a [`VariableRow`] holds.
#[verifier::ext_equal]
pub struct VariableRowView {
    /// The file.
    pub file: Seq<char>,
    /// The column.
    pub column: Seq<char>,
    /// The name of its type.
    pub data_type: Seq<char>,
    /// Its unit.
    pub unit: Seq<char>,
    /// What it holds.
    pub description: Seq<char>,
    /// Whether it may hold nulls.
    pub nullable: Seq<char>,
}

impl View for VariableRow {
    type V = VariableRowView;

    open spec fn view(&self) -> VariableRowView {
        VariableRowView {
            file: self.file@,
            column: self.column@,
            data_type: self.data_type@,
            unit: self.unit@,
            description: self.description@,
            nullable: self.nullable@,
        }
    }
}

/// The row for a column of a file.
pub open spec fn variable_row(file: Seq<char>, field: Field) -> VariableRowView {
    VariableRowView {
        file,
        column: field.name@,
        data_type: data_type_text(field.data_type),
        unit: unit_of(file, field.name@),
        description: description_of(file, field.name@),
        nullable: if field.nullable {
            "true"@
        } else {
            "false"@
        },
    }
}

/// The rows for the columns of a file, in order.
pub open spec fn file_rows(schema: FileSchema) -> Seq<VariableRowView> {
    schema.fields@.map_values(|f: Field| variable_row(schema.file@, f))
}

/// The rows for the columns of the first `n` files, one file after the other.
pub open spec fn variable_rows_of(schemas: Seq<FileSchema>, n: int) -> Seq<VariableRowView>
    decreases n,
{
    if n <= 0 {
        Seq::empty()
    } else {
        variable_rows_of(schemas, n - 1) + file_rows(schemas[n - 1])
    }
}

/// The views of rows.
pub open spec fn row_views(rows: Seq<VariableRow>) -> Seq<VariableRowView> {
    rows.map_values(|r: VariableRow| r@)
}

fn make_row(file: &String, field: &Field) -> (r: VariableRow)
    ensures
        r@ == variable_row(file@, *field),
{
    VariableRow {
        file: file.clone(),
        column: field.name.clone(),
        data_type: arrow_type_str(&field.data_type),
        unit: unit_for(file.as_str(), field.name.as_str()),
        description: description_for(file.as_str(), field.name.as_str()),
        nullable: if field.nullable {
            "true"
        } else {
            "false"
        },
    }
}

/// The dictionary's rows: one per column of each file, file after file and in the
/// order of the columns.
pub fn variable_rows(schemas: &Vec<FileSchema>) -> (r: Vec<VariableRow>)
    ensures
        row_views(r@) == variable_rows_of(schemas@, schemas@.len() as int),
{
    let mut r: Vec<VariableRow> = Vec::new();
    proof {
        assert(row_views(r@) =~= Seq::empty());
    }
    for k in 0..schemas.len()
        invariant
            row_views(r@) == variable_rows_of(schemas@, k as int),
    {
        let schema: &FileSchema = &schemas[k];
        let ghost before = row_views(r@);
        proof {
            assert(file_rows(*schema).take(0) =~= Seq::empty());
            assert(before + file_rows(*schema).take(0) =~= before);
        }
        for i in 0..schema.fields.len()
            invariant
                row_views(r@) == before + file_rows(*schema).take(i as int),
        {
            let row: VariableRow = make_row(&schema.file, &schema.fields[i]);
            let ghost held = r@;
            r.push(row);
            proof {
                assert(row_views(r@) =~= row_views(held).push(row@));
                assert(file_rows(*schema).take(i + 1) =~= file_rows(*schema).take(i as int).push(
                    file_rows(*schema)[i as int],
                ));
                assert(row_views(r@) =~= before + file_rows(*schema).take(i + 1));
            }
        }
        proof {
            assert(file_rows(*schema).take(schema.fields@.len() as int) =~= file_rows(*schema));
        }
    }
    r
}

/// How many columns the first `n` files have.
pub open spec fn column_count(schemas: Seq<FileSchema>, n: int) -> nat
    decreases n,
{
    if n <= 0 {
        0
    } else {
        column_count(schemas, n - 1) + schemas[n - 1].fields@.len()
    }
}

/// The dictionary has exactly one row per column, and the rows of a file stand
/// together in the order of its columns.
pub proof fn one_row_per_column(schemas: Seq<FileSchema>, n: int, k: int, i: int)
    requires
        0 <= k < n <= schemas.len(),
        0 <= i < schemas[k].fields@.len(),
    ensures
        variable_rows_of(schemas, n).len() == column_count(schemas, n),
        column_count(schemas, k) + i < column_count(schemas, n),
        variable_rows_of(schemas, n)[column_count(schemas, k) + i] == variable_row(
            schemas[k].file@,
            schemas[k].fields@[i],
        ),
    decreases n,
{
    row_count(schemas, n - 1);
    row_count(schemas, k);
    if k < n - 1 {
        one_row_per_column(schemas, n - 1, k, i);
    }
}

proof fn row_count(schemas: Seq<FileSchema>, n: int)
    ensures
        variable_rows_of(schemas, n).len() == column_count(schemas, n),
    decreases n,
{
    if n > 0 {
        row_count(schemas, n - 1);
    }
}

// ── Names and units ──────────────────────────────────────────────────────────

/// A column's name ends in a text exactly where its last characters are those.
proof fn endings(column: Seq<char>)
    ensures
        text::ends_in(column, "_mw"@) <==> column.len() >= 3 && column[column.len() - 3] == '_' && column[column.len() - 2] == 'm' && column[column.len() - 1] == 'w',
        text::ends_in(column, "_mwh"@) <==> column.len() >= 4 && column[column.len() - 4] == '_' && column[column.len() - 3] == 'm' && column[column.len() - 2] == 'w' && column[column.len() - 1] == 'h',
        text::ends_in(column, "_per_mwh"@) <==> column.len() >= 8 && column[column.len() - 8] == '_' && column[column.len() - 7] == 'p' && column[column.len() - 6] == 'e' && column[column.len() - 5] == 'r' && column[column.len() - 4] == '_' && column[column.len() - 3] == 'm' && column[column.len() - 2] == 'w' && column[column.len() - 1] == 'h',
        text::ends_in(column, "_m3s"@) <==> column.len() >= 4 && column[column.len() - 4] == '_' && column[column.len() - 3] == 'm' && column[column.len() - 2] == '3' && column[column.len() - 1] == 's',
        text::ends_in(column, "_mw_per_m3s"@) <==> column.len() >= 11 && column[column.len() - 11] == '_' && column[column.len() - 10] == 'm' && column[column.len() - 9] == 'w' && column[column.len() - 8] == '_' && column[column.len() - 7] == 'p' && column[column.len() - 6] == 'e' && column[column.len() - 5] == 'r' && column[column.len() - 4] == '_' && column[column.len() - 3] == 'm' && column[column.len() - 2] == '3' && column[column.len() - 1] == 's',
        text::ends_in(column, "_hm3"@) <==> column.len() >= 4 && column[column.len() - 4] == '_' && column[column.len() - 3] == 'h' && column[column.len() - 2] == 'm' && column[column.len() - 1] == '3',
        text::ends_in(column, "_per_hm3"@) <==> column.len() >= 8 && column[column.len() - 8] == '_' && column[column.len() - 7] == 'p' && column[column.len() - 6] == 'e' && column[column.len() - 5] == 'r' && column[column.len() - 4] == '_' && column[column.len() - 3] == 'h' && column[column.len() - 2] == 'm' && column[column.len() - 1] == '3',
        text::ends_in(column, "_cost"@) <==> column.len() >= 5 && column[column.len() - 5] == '_' && column[column.len() - 4] == 'c' && column[column.len() - 3] == 'o' && column[column.len() - 2] == 's' && column[column.len() - 1] == 't',
        text::ends_in(column, "_ms"@) <==> column.len() >= 3 && column[column.len() - 3] == '_' && column[column.len() - 2] == 'm' && column[column.len() - 1] == 's',
{
    reveal_strlit("_mw");
    reveal_strlit("_mwh");
    reveal_strlit("_per_mwh");
    reveal_strlit("_m3s");
    reveal_strlit("_mw_per_m3s");
    reveal_strlit("_hm3");
    reveal_strlit("_per_hm3");
    reveal_strlit("_cost");
    reveal_strlit("_ms");
    if column.len() >= 3 && column[column.len() - 3] == '_' && column[column.len() - 2] == 'm' && column[column.len() - 1] == 'w' {
        let at = column.len() - 3;
        assert(column.subrange(at, at + 3) =~= "_mw"@);
    }
    if text::ends_in(column, "_mw"@) {
        let at = column.len() - 3;
        let end = column.subrange(at, at + 3);
        assert(end == "_mw"@);
        assert(end[0] == column[at + 0]);
        assert(end[1] == column[at + 1]);
        assert(end[2] == column[at + 2]);
    }
    if column.len() >= 4 && column[column.len() - 4] == '_' && column[column.len() - 3] == 'm' && column[column.len() - 2] == 'w' && column[column.len() - 1] == 'h' {
        let at = column.len() - 4;
        assert(column.subrange(at, at + 4) =~= "_mwh"@);
    }
    if text::ends_in(column, "_mwh"@) {
        let at = column.len() - 4;
        let end = column.subrange(at, at + 4);
        assert(end == "_mwh"@);
        assert(end[0] == column[at + 0]);
        assert(end[1] == column[at + 1]);
        assert(end[2] == column[at + 2]);
        assert(end[3] == column[at + 3]);
    }
    if column.len() >= 8 && column[column.len() - 8] == '_' && column[column.len() - 7] == 'p' && column[column.len() - 6] == 'e' && column[column.len() - 5] == 'r' && column[column.len() - 4] == '_' && column[column.len() - 3] == 'm' && column[column.len() - 2] == 'w' && column[column.len() - 1] == 'h' {
        let at = column.len() - 8;
        assert(column.subrange(at, at + 8) =~= "_per_mwh"@);
    }
    if text::ends_in(column, "_per_mwh"@) {
        let at = column.len() - 8;
        let end = column.subrange(at, at + 8);
        assert(end == "_per_mwh"@);
        assert(end[0] == column[at + 0]);
        assert(end[1] == column[at + 1]);
        assert(end[2] == column[at + 2]);
        assert(end[3] == column[at + 3]);
        assert(end[4] == column[at + 4]);
        assert(end[5] == column[at + 5]);
        assert(end[6] == column[at + 6]);
        assert(end[7] == column[at + 7]);
    }
    if column.len() >= 4 && column[column.len() - 4] == '_' && column[column.len() - 3] == 'm' && column[column.len() - 2] == '3' && column[column.len() - 1] == 's' {
        let at = column.len() - 4;
        assert(column.subrange(at, at + 4) =~= "_m3s"@);
    }
    if text::ends_in(column, "_m3s"@) {
        let at = column.len() - 4;
        let end = column.subrange(at, at + 4);
        assert(end == "_m3s"@);
        assert(end[0] == column[at + 0]);
        assert(end[1] == column[at + 1]);
        assert(end[2] == column[at + 2]);
        assert(end[3] == column[at + 3]);
    }
    if column.len() >= 11 && column[column.len() - 11] == '_' && column[column.len() - 10] == 'm' && column[column.len() - 9] == 'w' && column[column.len() - 8] == '_' && column[column.len() - 7] == 'p' && column[column.len() - 6] == 'e' && column[column.len() - 5] == 'r' && column[column.len() - 4] == '_' && column[column.len() - 3] == 'm' && column[column.len() - 2] == '3' && column[column.len() - 1] == 's' {
        let at = column.len() - 11;
        assert(column.subrange(at, at + 11) =~= "_mw_per_m3s"@);
    }
    if text::ends_in(column, "_mw_per_m3s"@) {
        let at = column.len() - 11;
        let end = column.subrange(at, at + 11);
        assert(end == "_mw_per_m3s"@);
        assert(end[0] == column[at + 0]);
        assert(end[1] == column[at + 1]);
        assert(end[2] == column[at + 2]);
        assert(end[3] == column[at + 3]);
        assert(end[4] == column[at + 4]);
        assert(end[5] == column[at + 5]);
        assert(end[6] == column[at + 6]);
        assert(end[7] == column[at + 7]);
        assert(end[8] == column[at + 8]);
        assert(end[9] == column[at + 9]);
        assert(end[10] == column[at + 10]);
    }
    if column.len() >= 4 && column[column.len() - 4] == '_' && column[column.len() - 3] == 'h' && column[column.len() - 2] == 'm' && column[column.len() - 1] == '3' {
        let at = column.len() - 4;
        assert(column.subrange(at, at + 4) =~= "_hm3"@);
    }
    if text::ends_in(column, "_hm3"@) {
        let at = column.len() - 4;
        let end = column.subrange(at, at + 4);
        assert(end == "_hm3"@);
        assert(end[0] == column[at + 0]);
        assert(end[1] == column[at + 1]);
        assert(end[2] == column[at + 2]);
        assert(end[3] == column[at + 3]);
    }
    if column.len() >= 8 && column[column.len() - 8] == '_' && column[column.len() - 7] == 'p' && column[column.len() - 6] == 'e' && column[column.len() - 5] == 'r' && column[column.len() - 4] == '_' && column[column.len() - 3] == 'h' && column[column.len() - 2] == 'm' && column[column.len() - 1] == '3' {
        let at = column.len() - 8;
        assert(column.subrange(at, at + 8) =~= "_per_hm3"@);
    }
    if text::ends_in(column, "_per_hm3"@) {
        let at = column.len() - 8;
        let end = column.subrange(at, at + 8);
        assert(end == "_per_hm3"@);
        assert(end[0] == column[at + 0]);
        assert(end[1] == column[at + 1]);
        assert(end[2] == column[at + 2]);
        assert(end[3] == column[at + 3]);
        assert(end[4] == column[at + 4]);
        assert(end[5] == column[at + 5]);
        assert(end[6] == column[at + 6]);
        assert(end[7] == column[at + 7]);
    }
    if column.len() >= 5 && column[column.len() - 5] == '_' && column[column.len() - 4] == 'c' && column[column.len() - 3] == 'o' && column[column.len() - 2] == 's' && column[column.len() - 1] == 't' {
        let at = column.len() - 5;
        assert(column.subrange(at, at + 5) =~= "_cost"@);
    }
    if text::ends_in(column, "_cost"@) {
        let at = column.len() - 5;
        let end = column.subrange(at, at + 5);
        assert(end == "_cost"@);
        assert(end[0] == column[at + 0]);
        assert(end[1] == column[at + 1]);
        assert(end[2] == column[at + 2]);
        assert(end[3] == column[at + 3]);
        assert(end[4] == column[at + 4]);
    }
    if column.len() >= 3 && column[column.len() - 3] == '_' && column[column.len() - 2] == 'm' && column[column.len() - 1] == 's' {
        let at = column.len() - 3;
        assert(column.subrange(at, at + 3) =~= "_ms"@);
    }
    if text::ends_in(column, "_ms"@) {
        let at = column.len() - 3;
        let end = column.subrange(at, at + 3);
        assert(end == "_ms"@);
        assert(end[0] == column[at + 0]);
        assert(end[1] == column[at + 1]);
        assert(end[2] == column[at + 2]);
    }
}

proof fn in_mw_ends(column: Seq<char>)
    requires
        in_mw(column),
    ensures
        column.len() > 3,
        column[column.len() - 3] == '_',
        column[column.len() - 2] == 'm',
        column[column.len() - 1] == 'w',
{
    reveal_strlit("generation_mw");
    reveal_strlit("available_mw");
    reveal_strlit("curtailment_mw");
    reveal_strlit("direct_flow_mw");
    reveal_strlit("reverse_flow_mw");
    reveal_strlit("net_flow_mw");
    reveal_strlit("losses_mw");
    reveal_strlit("load_mw");
    reveal_strlit("deficit_mw");
    reveal_strlit("excess_mw");
    reveal_strlit("power_consumption_mw");
    reveal_strlit("anticipated_committed_mw");
    reveal_strlit("anticipated_decision_mw");
    reveal_strlit("power_mw");
    assert("generation_mw"@.len() == 13);
    assert("available_mw"@.len() == 12);
    assert("curtailment_mw"@.len() == 14);
    assert("direct_flow_mw"@.len() == 14);
    assert("reverse_flow_mw"@.len() == 15);
    assert("net_flow_mw"@.len() == 11);
    assert("losses_mw"@.len() == 9);
    assert("load_mw"@.len() == 7);
    assert("deficit_mw"@.len() == 10);
    assert("excess_mw"@.len() == 9);
    assert("power_consumption_mw"@.len() == 20);
    assert("anticipated_committed_mw"@.len() == 24);
    assert("anticipated_decision_mw"@.len() == 23);
    assert("power_mw"@.len() == 8);
}

proof fn in_mwh_ends(column: Seq<char>)
    requires
        in_mwh(column),
    ensures
        column.len() > 4,
        column[column.len() - 4] == '_',
        column[column.len() - 3] == 'm',
        column[column.len() - 2] == 'w',
        column[column.len() - 1] == 'h',
        column[column.len() - 5] != 'r',
{
    reveal_strlit("generation_mwh");
    reveal_strlit("curtailment_mwh");
    reveal_strlit("net_flow_mwh");
    reveal_strlit("losses_mwh");
    reveal_strlit("load_mwh");
    reveal_strlit("deficit_mwh");
    reveal_strlit("excess_mwh");
    reveal_strlit("energy_consumption_mwh");
    reveal_strlit("energy_mwh");
    assert("generation_mwh"@.len() == 14);
    assert("curtailment_mwh"@.len() == 15);
    assert("net_flow_mwh"@.len() == 12);
    assert("losses_mwh"@.len() == 10);
    assert("load_mwh"@.len() == 8);
    assert("deficit_mwh"@.len() == 11);
    assert("excess_mwh"@.len() == 10);
    assert("energy_consumption_mwh"@.len() == 22);
    assert("energy_mwh"@.len() == 10);
}

proof fn in_m3s_ends(column: Seq<char>)
    requires
        in_m3s(column),
    ensures
        column.len() > 4,
        column[column.len() - 4] == '_',
        column[column.len() - 3] == 'm',
        column[column.len() - 2] == '3',
        column[column.len() - 1] == 's',
        column[column.len() - 5] != 'r',
{
    reveal_strlit("turbined_m3s");
    reveal_strlit("spillage_m3s");
    reveal_strlit("outflow_m3s");
    reveal_strlit("evaporation_m3s");
    reveal_strlit("diverted_inflow_m3s");
    reveal_strlit("diverted_outflow_m3s");
    reveal_strlit("incremental_inflow_m3s");
    reveal_strlit("inflow_m3s");
    reveal_strlit("turbined_slack_m3s");
    reveal_strlit("outflow_slack_below_m3s");
    reveal_strlit("outflow_slack_above_m3s");
    reveal_strlit("evaporation_violation_pos_m3s");
    reveal_strlit("evaporation_violation_neg_m3s");
    reveal_strlit("inflow_nonnegativity_slack_m3s");
    reveal_strlit("water_withdrawal_violation_pos_m3s");
    reveal_strlit("water_withdrawal_violation_neg_m3s");
    reveal_strlit("pumped_flow_m3s");
    assert("turbined_m3s"@.len() == 12);
    assert("spillage_m3s"@.len() == 12);
    assert("outflow_m3s"@.len() == 11);
    assert("evaporation_m3s"@.len() == 15);
    assert("diverted_inflow_m3s"@.len() == 19);
    assert("diverted_outflow_m3s"@.len() == 20);
    assert("incremental_inflow_m3s"@.len() == 22);
    assert("inflow_m3s"@.len() == 10);
    assert("turbined_slack_m3s"@.len() == 18);
    assert("outflow_slack_below_m3s"@.len() == 23);
    assert("outflow_slack_above_m3s"@.len() == 23);
    assert("evaporation_violation_pos_m3s"@.len() == 29);
    assert("evaporation_violation_neg_m3s"@.len() == 29);
    assert("inflow_nonnegativity_slack_m3s"@.len() == 30);
    assert("water_withdrawal_violation_pos_m3s"@.len() == 34);
    assert("water_withdrawal_violation_neg_m3s"@.len() == 34);
    assert("pumped_flow_m3s"@.len() == 15);
}

proof fn in_hm3_ends(column: Seq<char>)
    requires
        in_hm3(column),
    ensures
        column.len() > 4,
        column[column.len() - 4] == '_',
        column[column.len() - 3] == 'h',
        column[column.len() - 2] == 'm',
        column[column.len() - 1] == '3',
        column[column.len() - 5] != 'r',
{
    reveal_strlit("storage_initial_hm3");
    reveal_strlit("storage_final_hm3");
    reveal_strlit("storage_violation_below_hm3");
    reveal_strlit("filling_target_violation_hm3");
    reveal_strlit("pumped_volume_hm3");
    assert("storage_initial_hm3"@.len() == 19);
    assert("storage_final_hm3"@.len() == 17);
    assert("storage_violation_below_hm3"@.len() == 27);
    assert("filling_target_violation_hm3"@.len() == 28);
    assert("pumped_volume_hm3"@.len() == 17);
}

proof fn in_ms_ends(column: Seq<char>)
    requires
        in_ms(column),
    ensures
        column.len() > 3,
        column[column.len() - 3] == '_',
        column[column.len() - 2] == 'm',
        column[column.len() - 1] == 's',
{
    reveal_strlit("time_forward_ms");
    reveal_strlit("time_backward_ms");
    reveal_strlit("time_total_ms");
    reveal_strlit("forward_solve_ms");
    reveal_strlit("forward_sample_ms");
    reveal_strlit("backward_solve_ms");
    reveal_strlit("backward_cut_ms");
    reveal_strlit("cut_selection_ms");
    reveal_strlit("forward_wall_ms");
    reveal_strlit("backward_wall_ms");
    reveal_strlit("cut_sync_ms");
    reveal_strlit("lower_bound_ms");
    reveal_strlit("mpi_allreduce_ms");
    reveal_strlit("mpi_broadcast_ms");
    reveal_strlit("io_write_ms");
    reveal_strlit("state_exchange_ms");
    reveal_strlit("cut_batch_build_ms");
    reveal_strlit("bwd_setup_ms");
    reveal_strlit("bwd_load_imbalance_ms");
    reveal_strlit("bwd_scheduling_overhead_ms");
    reveal_strlit("fwd_setup_ms");
    reveal_strlit("fwd_load_imbalance_ms");
    reveal_strlit("fwd_scheduling_overhead_ms");
    reveal_strlit("overhead_ms");
    reveal_strlit("lazy_scoring_ms");
    reveal_strlit("forward_time_ms");
    reveal_strlit("backward_time_ms");
    reveal_strlit("communication_time_ms");
    reveal_strlit("idle_time_ms");
    reveal_strlit("solve_time_ms");
    reveal_strlit("load_model_time_ms");
    reveal_strlit("set_bounds_time_ms");
    reveal_strlit("basis_set_time_ms");
    reveal_strlit("selection_time_ms");
    assert("time_forward_ms"@.len() == 15);
    assert("time_backward_ms"@.len() == 16);
    assert("time_total_ms"@.len() == 13);
    assert("forward_solve_ms"@.len() == 16);
    assert("forward_sample_ms"@.len() == 17);
    assert("backward_solve_ms"@.len() == 17);
    assert("backward_cut_ms"@.len() == 15);
    assert("cut_selection_ms"@.len() == 16);
    assert("forward_wall_ms"@.len() == 15);
    assert("backward_wall_ms"@.len() == 16);
    assert("cut_sync_ms"@.len() == 11);
    assert("lower_bound_ms"@.len() == 14);
    assert("mpi_allreduce_ms"@.len() == 16);
    assert("mpi_broadcast_ms"@.len() == 16);
    assert("io_write_ms"@.len() == 11);
    assert("state_exchange_ms"@.len() == 17);
    assert("cut_batch_build_ms"@.len() == 18);
    assert("bwd_setup_ms"@.len() == 12);
    assert("bwd_load_imbalance_ms"@.len() == 21);
    assert("bwd_scheduling_overhead_ms"@.len() == 26);
    assert("fwd_setup_ms"@.len() == 12);
    assert("fwd_load_imbalance_ms"@.len() == 21);
    assert("fwd_scheduling_overhead_ms"@.len() == 26);
    assert("overhead_ms"@.len() == 11);
    assert("lazy_scoring_ms"@.len() == 15);
    assert("forward_time_ms"@.len() == 15);
    assert("backward_time_ms"@.len() == 16);
    assert("communication_time_ms"@.len() == 21);
    assert("idle_time_ms"@.len() == 12);
    assert("solve_time_ms"@.len() == 13);
    assert("load_model_time_ms"@.len() == 18);
    assert("set_bounds_time_ms"@.len() == 18);
    assert("basis_set_time_ms"@.len() == 17);
    assert("selection_time_ms"@.len() == 17);
}

proof fn in_currency_ends(column: Seq<char>)
    requires
        in_currency(column),
    ensures
        column.len() > 5,
        column == "total_cost_convergence"@ || column == "pumping_cost_csv"@ || (column.len() > 5 && column[column.len() - 5] == '_' && column[column.len() - 4] == 'c' && column[column.len() - 3] == 'o' && column[column.len() - 2] == 's' && column[column.len() - 1] == 't'),
        column == "total_cost_convergence"@ ==> column.len() == 22 && column[column.len() - 1] == 'e',
        column == "pumping_cost_csv"@ ==> column[column.len() - 1] == 'v' && column[column.len() - 2] == 's',
{
    reveal_strlit("total_cost");
    reveal_strlit("immediate_cost");
    reveal_strlit("future_cost");
    reveal_strlit("thermal_cost");
    reveal_strlit("anticipated_thermal_cost");
    reveal_strlit("contract_cost");
    reveal_strlit("deficit_cost");
    reveal_strlit("excess_cost");
    reveal_strlit("storage_violation_cost");
    reveal_strlit("filling_target_cost");
    reveal_strlit("hydro_violation_cost");
    reveal_strlit("outflow_violation_below_cost");
    reveal_strlit("outflow_violation_above_cost");
    reveal_strlit("turbined_violation_cost");
    reveal_strlit("generation_violation_cost");
    reveal_strlit("evaporation_violation_cost");
    reveal_strlit("withdrawal_violation_cost");
    reveal_strlit("inflow_penalty_cost");
    reveal_strlit("generic_violation_cost");
    reveal_strlit("spillage_cost");
    reveal_strlit("turbined_cost");
    reveal_strlit("curtailment_cost");
    reveal_strlit("exchange_cost");
    reveal_strlit("pumping_cost");
    reveal_strlit("generation_cost");
    reveal_strlit("total_cost_convergence");
    reveal_strlit("pumping_cost_csv");
    reveal_strlit("slack_cost");
    assert("total_cost"@.len() == 10);
    assert("immediate_cost"@.len() == 14);
    assert("future_cost"@.len() == 11);
    assert("thermal_cost"@.len() == 12);
    assert("anticipated_thermal_cost"@.len() == 24);
    assert("contract_cost"@.len() == 13);
    assert("deficit_cost"@.len() == 12);
    assert("excess_cost"@.len() == 11);
    assert("storage_violation_cost"@.len() == 22);
    assert("filling_target_cost"@.len() == 19);
    assert("hydro_violation_cost"@.len() == 20);
    assert("outflow_violation_below_cost"@.len() == 28);
    assert("outflow_violation_above_cost"@.len() == 28);
    assert("turbined_violation_cost"@.len() == 23);
    assert("generation_violation_cost"@.len() == 25);
    assert("evaporation_violation_cost"@.len() == 26);
    assert("withdrawal_violation_cost"@.len() == 25);
    assert("inflow_penalty_cost"@.len() == 19);
    assert("generic_violation_cost"@.len() == 22);
    assert("spillage_cost"@.len() == 13);
    assert("turbined_cost"@.len() == 13);
    assert("curtailment_cost"@.len() == 16);
    assert("exchange_cost"@.len() == 13);
    assert("pumping_cost"@.len() == 12);
    assert("generation_cost"@.len() == 15);
    assert("total_cost_convergence"@.len() == 22);
    assert("pumping_cost_csv"@.len() == 16);
    assert("slack_cost"@.len() == 10);
}

proof fn without_unit_ends(column: Seq<char>)
    requires
        without_unit(column),
    ensures
        column.len() > 3,
        (column[column.len() - 1] == 'd') || (column[column.len() - 1] == 'n') || (column[column.len() - 1] == 'k') || (column[column.len() - 1] == 's' && column[column.len() - 2] == 'e'),
{
    reveal_strlit("stage_id");
    reveal_strlit("block_id");
    reveal_strlit("iteration");
    reveal_strlit("rank");
    reveal_strlit("forward_passes");
    reveal_strlit("scenarios_processed");
    assert("stage_id"@.len() == 8);
    assert("block_id"@.len() == 8);
    assert("iteration"@.len() == 9);
    assert("rank"@.len() == 4);
    assert("forward_passes"@.len() == 14);
    assert("scenarios_processed"@.len() == 19);
}

proof fn in_energy_price_ends(column: Seq<char>)
    requires
        in_energy_price(column),
    ensures
        column.len() > 5,
        (column[column.len() - 1] == 'e') || (column[column.len() - 1] == 'h' && column[column.len() - 5] == 'r'),
{
    reveal_strlit("spot_price");
    reveal_strlit("price_per_mwh");
    assert("spot_price"@.len() == 10);
    assert("price_per_mwh"@.len() == 13);
}

proof fn groups_end(column: Seq<char>)
    ensures
        in_mw(column) ==> column.len() > 3 && column[column.len() - 3] == '_' && column[column.len() - 2] == 'm' && column[column.len() - 1] == 'w',
        in_mwh(column) ==> column.len() > 4 && column[column.len() - 4] == '_' && column[column.len() - 3] == 'm' && column[column.len() - 2] == 'w' && column[column.len() - 1] == 'h' && column[column.len() - 5] != 'r',
        in_m3s(column) ==> column.len() > 4 && column[column.len() - 4] == '_' && column[column.len() - 3] == 'm' && column[column.len() - 2] == '3' && column[column.len() - 1] == 's' && column[column.len() - 5] != 'r',
        in_hm3(column) ==> column.len() > 4 && column[column.len() - 4] == '_' && column[column.len() - 3] == 'h' && column[column.len() - 2] == 'm' && column[column.len() - 1] == '3' && column[column.len() - 5] != 'r',
        in_ms(column) ==> column.len() > 3 && column[column.len() - 3] == '_' && column[column.len() - 2] == 'm' && column[column.len() - 1] == 's',
        in_energy_price(column) ==> column.len() > 5 && (column[column.len() - 1] == 'e' || (column[column.len() - 1] == 'h' && column[column.len() - 5] == 'r')),
        in_currency(column) ==> column.len() > 5 && ((column.len() > 5 && column[column.len() - 5] == '_' && column[column.len() - 4] == 'c' && column[column.len() - 3] == 'o' && column[column.len() - 2] == 's' && column[column.len() - 1] == 't') || (column.len() == 22 && column[column.len() - 1] == 'e') || (column[column.len() - 1] == 'v' && column[column.len() - 2] == 's')),
        without_unit(column) ==> column.len() > 3 && (column[column.len() - 1] == 'd' || column[column.len() - 1] == 'n' || column[column.len() - 1] == 'k' || (column[column.len() - 1] == 's' && column[column.len() - 2] == 'e')),
{
    if in_mw(column) {
        in_mw_ends(column);
    }
    if in_mwh(column) {
        in_mwh_ends(column);
    }
    if in_m3s(column) {
        in_m3s_ends(column);
    }
    if in_hm3(column) {
        in_hm3_ends(column);
    }
    if in_ms(column) {
        in_ms_ends(column);
    }
    if in_currency(column) {
        in_currency_ends(column);
    }
    if without_unit(column) {
        without_unit_ends(column);
    }
    if in_energy_price(column) {
        in_energy_price_ends(column);
    }
}

proof fn units_are_apart()
    ensures
        ""@ != "MW"@,
        ""@ != "MWh"@,
        ""@ != "m3/s"@,
        ""@ != "hm3"@,
        ""@ != "$"@,
        ""@ != "$/MWh"@,
        ""@ != "ms"@,
        ""@ != "$/hm3"@,
        ""@ != "MW/(m3/s)"@,
        "MW"@ != "MWh"@,
        "MW"@ != "m3/s"@,
        "MW"@ != "hm3"@,
        "MW"@ != "$"@,
        "MW"@ != "$/MWh"@,
        "MW"@ != "ms"@,
        "MW"@ != "$/hm3"@,
        "MW"@ != "MW/(m3/s)"@,
        "MWh"@ != "m3/s"@,
        "MWh"@ != "hm3"@,
        "MWh"@ != "$"@,
        "MWh"@ != "$/MWh"@,
        "MWh"@ != "ms"@,
        "MWh"@ != "$/hm3"@,
        "MWh"@ != "MW/(m3/s)"@,
        "m3/s"@ != "hm3"@,
        "m3/s"@ != "$"@,
        "m3/s"@ != "$/MWh"@,
        "m3/s"@ != "ms"@,
        "m3/s"@ != "$/hm3"@,
        "m3/s"@ != "MW/(m3/s)"@,
        "hm3"@ != "$"@,
        "hm3"@ != "$/MWh"@,
        "hm3"@ != "ms"@,
        "hm3"@ != "$/hm3"@,
        "hm3"@ != "MW/(m3/s)"@,
        "$"@ != "$/MWh"@,
        "$"@ != "ms"@,
        "$"@ != "$/hm3"@,
        "$"@ != "MW/(m3/s)"@,
        "$/MWh"@ != "ms"@,
        "$/MWh"@ != "$/hm3"@,
        "$/MWh"@ != "MW/(m3/s)"@,
        "ms"@ != "$/hm3"@,
        "ms"@ != "MW/(m3/s)"@,
        "$/hm3"@ != "MW/(m3/s)"@,
{
    reveal_strlit("");
    reveal_strlit("MW");
    reveal_strlit("MWh");
    reveal_strlit("m3/s");
    reveal_strlit("hm3");
    reveal_strlit("$");
    reveal_strlit("$/MWh");
    reveal_strlit("ms");
    reveal_strlit("$/hm3");
    reveal_strlit("MW/(m3/s)");
    assert(""@.len() == 0);
    assert("MW"@.len() == 2);
    assert("MWh"@.len() == 3);
    assert("m3/s"@.len() == 4);
    assert("hm3"@.len() == 3);
    assert("$"@.len() == 1);
    assert("$/MWh"@.len() == 5);
    assert("ms"@.len() == 2);
    assert("$/hm3"@.len() == 5);
    assert("MW/(m3/s)"@.len() == 9);
    assert("MW"@[0] != "ms"@[0]);
    assert("MWh"@[0] != "hm3"@[0]);
    assert("$/MWh"@[2] != "$/hm3"@[2]);
}

/// A unit is that of which the column's name tells: a column in MW ends in `_mw`, one in
/// MWh in `_mwh`, one in m3/s in `_m3s`, one in hm3 in `_hm3` and one in ms in `_ms`; a
/// productivity ends in `_mw_per_m3s` and a value of water in `_per_hm3`; and what is
/// none of these has no unit, or is a cost or a price.
pub proof fn units_are_told_by_names(file: Seq<char>, column: Seq<char>)
    ensures
        unit_of(file, column) == "MW"@ ==> text::ends_in(column, "_mw"@),
        unit_of(file, column) == "MWh"@ ==> text::ends_in(column, "_mwh"@) && !text::ends_in(column, "_per_mwh"@),
        unit_of(file, column) == "m3/s"@ ==> text::ends_in(column, "_m3s"@) && !text::ends_in(column, "_mw_per_m3s"@),
        unit_of(file, column) == "hm3"@ ==> text::ends_in(column, "_hm3"@) && !text::ends_in(column, "_per_hm3"@),
        unit_of(file, column) == "ms"@ ==> text::ends_in(column, "_ms"@),
        unit_of(file, column) == "MW/(m3/s)"@ ==> text::ends_in(column, "_mw_per_m3s"@),
        unit_of(file, column) == "$/hm3"@ ==> text::ends_in(column, "_per_hm3"@),
        unit_of(file, column) == "$"@ ==> text::ends_in(column, "_cost"@) || column
            == "total_cost_convergence"@ || column == "pumping_cost_csv"@,
        unit_of(file, column) == "$/MWh"@ ==> column == "spot_price"@ || column
            == "price_per_mwh"@,
{
    units_are_apart();
    endings(column);
    groups_end(column);
    if in_currency(column) {
        in_currency_ends(column);
    }
    reveal_strlit("water_value_per_hm3");
    reveal_strlit("equivalent_productivity_mw_per_m3s");
    reveal_strlit("accumulated_productivity_mw_per_m3s");
    reveal_strlit("incremental_inflow_energy_mw");
    reveal_strlit("stored_energy_initial_mwh");
    reveal_strlit("stored_energy_final_mwh");
    reveal_strlit("generation_slack_mw");
}

/// The unit is the one that the column's name asks for.
spec fn has_its_unit(file: Seq<char>, column: Seq<char>) -> bool {
    &&& text::ends_in(column, "_mw"@) ==> unit_of(file, column) == "MW"@
    &&& text::ends_in(column, "_mwh"@) && !text::ends_in(column, "_per_mwh"@) ==> unit_of(file, column) == "MWh"@
    &&& text::ends_in(column, "_per_mwh"@) ==> unit_of(file, column) == "$/MWh"@
    &&& text::ends_in(column, "_m3s"@) && !text::ends_in(column, "_mw_per_m3s"@) ==> unit_of(file, column) == "m3/s"@
    &&& text::ends_in(column, "_mw_per_m3s"@) ==> unit_of(file, column) == "MW/(m3/s)"@
    &&& text::ends_in(column, "_hm3"@) && !text::ends_in(column, "_per_hm3"@) ==> unit_of(file, column) == "hm3"@
    &&& text::ends_in(column, "_per_hm3"@) ==> unit_of(file, column) == "$/hm3"@
    &&& text::ends_in(column, "_cost"@) ==> unit_of(file, column) == "$"@
    &&& text::ends_in(column, "_ms"@) ==> unit_of(file, column) == "ms"@
    &&& column == "spot_price"@ ==> unit_of(file, column) == "$/MWh"@
}

proof fn costs_have_their_units(column: Seq<char>)
    requires
        costs_description(column) != ""@,
    ensures
        has_its_unit("costs"@, column),
{
    endings(column);
    groups_end(column);
    reveal_strlit("spot_price");
    if column == "stage_id"@ {
        reveal_strlit("stage_id");
        assert(column.len() == 8);
        assert(has_its_unit("costs"@, column));
    }
    if column == "block_id"@ {
        reveal_strlit("block_id");
        assert(column.len() == 8);
        assert(has_its_unit("costs"@, column));
    }
    if column == "total_cost"@ {
        reveal_strlit("total_cost");
        assert(column.len() == 10);
        assert(has_its_unit("costs"@, column));
    }
    if column == "immediate_cost"@ {
        reveal_strlit("immediate_cost");
        assert(column.len() == 14);
        assert(has_its_unit("costs"@, column));
    }
    if column == "future_cost"@ {
        reveal_strlit("future_cost");
        assert(column.len() == 11);
        assert(has_its_unit("costs"@, column));
    }
    if column == "discount_factor"@ {
        reveal_strlit("discount_factor");
        assert(column.len() == 15);
        assert(has_its_unit("costs"@, column));
    }
    if column == "thermal_cost"@ {
        reveal_strlit("thermal_cost");
        assert(column.len() == 12);
        assert(has_its_unit("costs"@, column));
    }
    if column == "anticipated_thermal_cost"@ {
        reveal_strlit("anticipated_thermal_cost");
        assert(column.len() == 24);
        assert(has_its_unit("costs"@, column));
    }
    if column == "contract_cost"@ {
        reveal_strlit("contract_cost");
        assert(column.len() == 13);
        assert(has_its_unit("costs"@, column));
    }
    if column == "deficit_cost"@ {
        reveal_strlit("deficit_cost");
        assert(column.len() == 12);
        assert(has_its_unit("costs"@, column));
    }
    if column == "excess_cost"@ {
        reveal_strlit("excess_cost");
        assert(column.len() == 11);
        assert(has_its_unit("costs"@, column));
    }
    if column == "storage_violation_cost"@ {
        reveal_strlit("storage_violation_cost");
        assert(column.len() == 22);
        assert(has_its_unit("costs"@, column));
    }
    if column == "filling_target_cost"@ {
        reveal_strlit("filling_target_cost");
        assert(column.len() == 19);
        assert(has_its_unit("costs"@, column));
    }
    if column == "hydro_violation_cost"@ {
        reveal_strlit("hydro_violation_cost");
        assert(column.len() == 20);
        assert(has_its_unit("costs"@, column));
    }
    if column == "outflow_violation_below_cost"@ {
        reveal_strlit("outflow_violation_below_cost");
        assert(column.len() == 28);
        assert(has_its_unit("costs"@, column));
    }
    if column == "outflow_violation_above_cost"@ {
        reveal_strlit("outflow_violation_above_cost");
        assert(column.len() == 28);
        assert(has_its_unit("costs"@, column));
    }
    if column == "turbined_violation_cost"@ {
        reveal_strlit("turbined_violation_cost");
        assert(column.len() == 23);
        assert(has_its_unit("costs"@, column));
    }
    if column == "generation_violation_cost"@ {
        reveal_strlit("generation_violation_cost");
        assert(column.len() == 25);
        assert(has_its_unit("costs"@, column));
    }
    if column == "evaporation_violation_cost"@ {
        reveal_strlit("evaporation_violation_cost");
        assert(column.len() == 26);
        assert(has_its_unit("costs"@, column));
    }
    if column == "withdrawal_violation_cost"@ {
        reveal_strlit("withdrawal_violation_cost");
        assert(column.len() == 25);
        assert(has_its_unit("costs"@, column));
    }
    if column == "inflow_penalty_cost"@ {
        reveal_strlit("inflow_penalty_cost");
        assert(column.len() == 19);
        assert(has_its_unit("costs"@, column));
    }
    if column == "generic_violation_cost"@ {
        reveal_strlit("generic_violation_cost");
        assert(column.len() == 22);
        assert(has_its_unit("costs"@, column));
    }
    if column == "spillage_cost"@ {
        reveal_strlit("spillage_cost");
        assert(column.len() == 13);
        assert(has_its_unit("costs"@, column));
    }
    if column == "turbined_cost"@ {
        reveal_strlit("turbined_cost");
        assert(column.len() == 13);
        assert(has_its_unit("costs"@, column));
    }
    if column == "curtailment_cost"@ {
        reveal_strlit("curtailment_cost");
        assert(column.len() == 16);
        assert(has_its_unit("costs"@, column));
    }
    if column == "exchange_cost"@ {
        reveal_strlit("exchange_cost");
        assert(column.len() == 13);
        assert(has_its_unit("costs"@, column));
    }
    if column == "pumping_cost"@ {
        reveal_strlit("pumping_cost");
        assert(column.len() == 12);
        assert(has_its_unit("costs"@, column));
    }
}

proof fn hydros_have_their_units(column: Seq<char>)
    requires
        hydros_description(column) != ""@,
    ensures
        has_its_unit("hydros"@, column),
{
    endings(column);
    groups_end(column);
    reveal_strlit("spot_price");
    reveal_strlit("water_value_per_hm3");
    assert("water_value_per_hm3"@.len() == 19);
    reveal_strlit("equivalent_productivity_mw_per_m3s");
    assert("equivalent_productivity_mw_per_m3s"@.len() == 34);
    reveal_strlit("accumulated_productivity_mw_per_m3s");
    assert("accumulated_productivity_mw_per_m3s"@.len() == 35);
    reveal_strlit("incremental_inflow_energy_mw");
    assert("incremental_inflow_energy_mw"@.len() == 28);
    reveal_strlit("stored_energy_initial_mwh");
    assert("stored_energy_initial_mwh"@.len() == 25);
    reveal_strlit("stored_energy_final_mwh");
    assert("stored_energy_final_mwh"@.len() == 23);
    reveal_strlit("generation_slack_mw");
    assert("generation_slack_mw"@.len() == 19);
    assert("water_value_per_hm3"@[0] != "generation_slack_mw"@[0]);
    if column == "stage_id"@ {
        reveal_strlit("stage_id");
        assert(column.len() == 8);
        assert(has_its_unit("hydros"@, column));
    }
    if column == "block_id"@ {
        reveal_strlit("block_id");
        assert(column.len() == 8);
        assert(has_its_unit("hydros"@, column));
    }
    if column == "hydro_id"@ {
        reveal_strlit("hydro_id");
        assert(column.len() == 8);
        assert(has_its_unit("hydros"@, column));
    }
    if column == "turbined_m3s"@ {
        reveal_strlit("turbined_m3s");
        assert(column.len() == 12);
        assert(has_its_unit("hydros"@, column));
    }
    if column == "spillage_m3s"@ {
        reveal_strlit("spillage_m3s");
        assert(column.len() == 12);
        assert(has_its_unit("hydros"@, column));
    }
    if column == "outflow_m3s"@ {
        reveal_strlit("outflow_m3s");
        assert(column.len() == 11);
        assert(has_its_unit("hydros"@, column));
    }
    if column == "evaporation_m3s"@ {
        reveal_strlit("evaporation_m3s");
        assert(column.len() == 15);
        assert(has_its_unit("hydros"@, column));
    }
    if column == "diverted_inflow_m3s"@ {
        reveal_strlit("diverted_inflow_m3s");
        assert(column.len() == 19);
        assert(has_its_unit("hydros"@, column));
    }
    if column == "diverted_outflow_m3s"@ {
        reveal_strlit("diverted_outflow_m3s");
        assert(column.len() == 20);
        assert(has_its_unit("hydros"@, column));
    }
    if column == "incremental_inflow_m3s"@ {
        reveal_strlit("incremental_inflow_m3s");
        assert(column.len() == 22);
        assert(has_its_unit("hydros"@, column));
    }
    if column == "inflow_m3s"@ {
        reveal_strlit("inflow_m3s");
        assert(column.len() == 10);
        assert(has_its_unit("hydros"@, column));
    }
    if column == "storage_initial_hm3"@ {
        reveal_strlit("storage_initial_hm3");
        assert(column.len() == 19);
        assert(has_its_unit("hydros"@, column));
    }
    if column == "storage_final_hm3"@ {
        reveal_strlit("storage_final_hm3");
        assert(column.len() == 17);
        assert(has_its_unit("hydros"@, column));
    }
    if column == "generation_mw"@ {
        reveal_strlit("generation_mw");
        assert(column.len() == 13);
        assert(has_its_unit("hydros"@, column));
    }
    if column == "generation_mwh"@ {
        reveal_strlit("generation_mwh");
        assert(column.len() == 14);
        assert(has_its_unit("hydros"@, column));
    }
    if column == "equivalent_productivity_mw_per_m3s"@ {
        reveal_strlit("equivalent_productivity_mw_per_m3s");
        assert(column.len() == 34);
        assert(has_its_unit("hydros"@, column));
    }
    if column == "accumulated_productivity_mw_per_m3s"@ {
        reveal_strlit("accumulated_productivity_mw_per_m3s");
        assert(column.len() == 35);
        assert(has_its_unit("hydros"@, column));
    }
    if column == "incremental_inflow_energy_mw"@ {
        reveal_strlit("incremental_inflow_energy_mw");
        assert(column.len() == 28);
        assert(has_its_unit("hydros"@, column));
    }
    if column == "stored_energy_initial_mwh"@ {
        reveal_strlit("stored_energy_initial_mwh");
        assert(column.len() == 25);
        assert(has_its_unit("hydros"@, column));
    }
    if column == "stored_energy_final_mwh"@ {
        reveal_strlit("stored_energy_final_mwh");
        assert(column.len() == 23);
        assert(has_its_unit("hydros"@, column));
    }
    if column == "spillage_cost"@ {
        reveal_strlit("spillage_cost");
        assert(column.len() == 13);
        assert(has_its_unit("hydros"@, column));
    }
    if column == "water_value_per_hm3"@ {
        reveal_strlit("water_value_per_hm3");
        assert(column.len() == 19);
        assert(has_its_unit("hydros"@, column));
    }
    if column == "storage_binding_code"@ {
        reveal_strlit("storage_binding_code");
        assert(column.len() == 20);
        assert(has_its_unit("hydros"@, column));
    }
    if column == "operative_state_code"@ {
        reveal_strlit("operative_state_code");
        assert(column.len() == 20);
        assert(has_its_unit("hydros"@, column));
    }
    if column == "turbined_slack_m3s"@ {
        reveal_strlit("turbined_slack_m3s");
        assert(column.len() == 18);
        assert(has_its_unit("hydros"@, column));
    }
    if column == "outflow_slack_below_m3s"@ {
        reveal_strlit("outflow_slack_below_m3s");
        assert(column.len() == 23);
        assert(has_its_unit("hydros"@, column));
    }
    if column == "outflow_slack_above_m3s"@ {
        reveal_strlit("outflow_slack_above_m3s");
        assert(column.len() == 23);
        assert(has_its_unit("hydros"@, column));
    }
    if column == "generation_slack_mw"@ {
        reveal_strlit("generation_slack_mw");
        assert(column.len() == 19);
        assert(has_its_unit("hydros"@, column));
    }
    if column == "storage_violation_below_hm3"@ {
        reveal_strlit("storage_violation_below_hm3");
        assert(column.len() == 27);
        assert(has_its_unit("hydros"@, column));
    }
    if column == "filling_target_violation_hm3"@ {
        reveal_strlit("filling_target_violation_hm3");
        assert(column.len() == 28);
        assert(has_its_unit("hydros"@, column));
    }
    if column == "evaporation_violation_pos_m3s"@ {
        reveal_strlit("evaporation_violation_pos_m3s");
        assert(column.len() == 29);
        assert(has_its_unit("hydros"@, column));
    }
    if column == "evaporation_violation_neg_m3s"@ {
        reveal_strlit("evaporation_violation_neg_m3s");
        assert(column.len() == 29);
        assert(has_its_unit("hydros"@, column));
    }
    if column == "inflow_nonnegativity_slack_m3s"@ {
        reveal_strlit("inflow_nonnegativity_slack_m3s");
        assert(column.len() == 30);
        assert(has_its_unit("hydros"@, column));
    }
    if column == "water_withdrawal_violation_pos_m3s"@ {
        reveal_strlit("water_withdrawal_violation_pos_m3s");
        assert(column.len() == 34);
        assert(has_its_unit("hydros"@, column));
    }
    if column == "water_withdrawal_violation_neg_m3s"@ {
        reveal_strlit("water_withdrawal_violation_neg_m3s");
        assert(column.len() == 34);
        assert(has_its_unit("hydros"@, column));
    }
}

proof fn thermals_have_their_units(column: Seq<char>)
    requires
        thermals_description(column) != ""@,
    ensures
        has_its_unit("thermals"@, column),
{
    endings(column);
    groups_end(column);
    reveal_strlit("spot_price");
    if column == "stage_id"@ {
        reveal_strlit("stage_id");
        assert(column.len() == 8);
        assert(has_its_unit("thermals"@, column));
    }
    if column == "block_id"@ {
        reveal_strlit("block_id");
        assert(column.len() == 8);
        assert(has_its_unit("thermals"@, column));
    }
    if column == "thermal_id"@ {
        reveal_strlit("thermal_id");
        assert(column.len() == 10);
        assert(has_its_unit("thermals"@, column));
    }
    if column == "generation_mw"@ {
        reveal_strlit("generation_mw");
        assert(column.len() == 13);
        assert(has_its_unit("thermals"@, column));
    }
    if column == "generation_mwh"@ {
        reveal_strlit("generation_mwh");
        assert(column.len() == 14);
        assert(has_its_unit("thermals"@, column));
    }
    if column == "generation_cost"@ {
        reveal_strlit("generation_cost");
        assert(column.len() == 15);
        assert(has_its_unit("thermals"@, column));
    }
    if column == "is_anticipated"@ {
        reveal_strlit("is_anticipated");
        assert(column.len() == 14);
        assert(has_its_unit("thermals"@, column));
    }
    if column == "anticipated_committed_mw"@ {
        reveal_strlit("anticipated_committed_mw");
        assert(column.len() == 24);
        assert(has_its_unit("thermals"@, column));
    }
    if column == "anticipated_decision_mw"@ {
        reveal_strlit("anticipated_decision_mw");
        assert(column.len() == 23);
        assert(has_its_unit("thermals"@, column));
    }
    if column == "operative_state_code"@ {
        reveal_strlit("operative_state_code");
        assert(column.len() == 20);
        assert(has_its_unit("thermals"@, column));
    }
}

proof fn exchanges_have_their_units(column: Seq<char>)
    requires
        exchanges_description(column) != ""@,
    ensures
        has_its_unit("exchanges"@, column),
{
    endings(column);
    groups_end(column);
    reveal_strlit("spot_price");
    if column == "stage_id"@ {
        reveal_strlit("stage_id");
        assert(column.len() == 8);
        assert(has_its_unit("exchanges"@, column));
    }
    if column == "block_id"@ {
        reveal_strlit("block_id");
        assert(column.len() == 8);
        assert(has_its_unit("exchanges"@, column));
    }
    if column == "line_id"@ {
        reveal_strlit("line_id");
        assert(column.len() == 7);
        assert(has_its_unit("exchanges"@, column));
    }
    if column == "direct_flow_mw"@ {
        reveal_strlit("direct_flow_mw");
        assert(column.len() == 14);
        assert(has_its_unit("exchanges"@, column));
    }
    if column == "reverse_flow_mw"@ {
        reveal_strlit("reverse_flow_mw");
        assert(column.len() == 15);
        assert(has_its_unit("exchanges"@, column));
    }
    if column == "net_flow_mw"@ {
        reveal_strlit("net_flow_mw");
        assert(column.len() == 11);
        assert(has_its_unit("exchanges"@, column));
    }
    if column == "net_flow_mwh"@ {
        reveal_strlit("net_flow_mwh");
        assert(column.len() == 12);
        assert(has_its_unit("exchanges"@, column));
    }
    if column == "losses_mw"@ {
        reveal_strlit("losses_mw");
        assert(column.len() == 9);
        assert(has_its_unit("exchanges"@, column));
    }
    if column == "losses_mwh"@ {
        reveal_strlit("losses_mwh");
        assert(column.len() == 10);
        assert(has_its_unit("exchanges"@, column));
    }
    if column == "exchange_cost"@ {
        reveal_strlit("exchange_cost");
        assert(column.len() == 13);
        assert(has_its_unit("exchanges"@, column));
    }
    if column == "operative_state_code"@ {
        reveal_strlit("operative_state_code");
        assert(column.len() == 20);
        assert(has_its_unit("exchanges"@, column));
    }
}

proof fn buses_have_their_units(column: Seq<char>)
    requires
        buses_description(column) != ""@,
    ensures
        has_its_unit("buses"@, column),
{
    endings(column);
    groups_end(column);
    reveal_strlit("spot_price");
    if column == "stage_id"@ {
        reveal_strlit("stage_id");
        assert(column.len() == 8);
        assert(has_its_unit("buses"@, column));
    }
    if column == "block_id"@ {
        reveal_strlit("block_id");
        assert(column.len() == 8);
        assert(has_its_unit("buses"@, column));
    }
    if column == "bus_id"@ {
        reveal_strlit("bus_id");
        assert(column.len() == 6);
        assert(has_its_unit("buses"@, column));
    }
    if column == "load_mw"@ {
        reveal_strlit("load_mw");
        assert(column.len() == 7);
        assert(has_its_unit("buses"@, column));
    }
    if column == "load_mwh"@ {
        reveal_strlit("load_mwh");
        assert(column.len() == 8);
        assert(has_its_unit("buses"@, column));
    }
    if column == "deficit_mw"@ {
        reveal_strlit("deficit_mw");
        assert(column.len() == 10);
        assert(has_its_unit("buses"@, column));
    }
    if column == "deficit_mwh"@ {
        reveal_strlit("deficit_mwh");
        assert(column.len() == 11);
        assert(has_its_unit("buses"@, column));
    }
    if column == "excess_mw"@ {
        reveal_strlit("excess_mw");
        assert(column.len() == 9);
        assert(has_its_unit("buses"@, column));
    }
    if column == "excess_mwh"@ {
        reveal_strlit("excess_mwh");
        assert(column.len() == 10);
        assert(has_its_unit("buses"@, column));
    }
    if column == "spot_price"@ {
        reveal_strlit("spot_price");
        assert(column.len() == 10);
        assert(has_its_unit("buses"@, column));
    }
}

proof fn pumping_stations_have_their_units(column: Seq<char>)
    requires
        pumping_stations_description(column) != ""@,
    ensures
        has_its_unit("pumping_stations"@, column),
{
    endings(column);
    groups_end(column);
    reveal_strlit("spot_price");
    if column == "stage_id"@ {
        reveal_strlit("stage_id");
        assert(column.len() == 8);
        assert(has_its_unit("pumping_stations"@, column));
    }
    if column == "block_id"@ {
        reveal_strlit("block_id");
        assert(column.len() == 8);
        assert(has_its_unit("pumping_stations"@, column));
    }
    if column == "pumping_station_id"@ {
        reveal_strlit("pumping_station_id");
        assert(column.len() == 18);
        assert(has_its_unit("pumping_stations"@, column));
    }
    if column == "pumped_flow_m3s"@ {
        reveal_strlit("pumped_flow_m3s");
        assert(column.len() == 15);
        assert(has_its_unit("pumping_stations"@, column));
    }
    if column == "pumped_volume_hm3"@ {
        reveal_strlit("pumped_volume_hm3");
        assert(column.len() == 17);
        assert(has_its_unit("pumping_stations"@, column));
    }
    if column == "power_consumption_mw"@ {
        reveal_strlit("power_consumption_mw");
        assert(column.len() == 20);
        assert(has_its_unit("pumping_stations"@, column));
    }
    if column == "energy_consumption_mwh"@ {
        reveal_strlit("energy_consumption_mwh");
        assert(column.len() == 22);
        assert(has_its_unit("pumping_stations"@, column));
    }
    if column == "pumping_cost"@ {
        reveal_strlit("pumping_cost");
        assert(column.len() == 12);
        assert(has_its_unit("pumping_stations"@, column));
    }
    if column == "operative_state_code"@ {
        reveal_strlit("operative_state_code");
        assert(column.len() == 20);
        assert(has_its_unit("pumping_stations"@, column));
    }
}

proof fn contracts_have_their_units(column: Seq<char>)
    requires
        contracts_description(column) != ""@,
    ensures
        has_its_unit("contracts"@, column),
{
    endings(column);
    groups_end(column);
    reveal_strlit("spot_price");
    if column == "stage_id"@ {
        reveal_strlit("stage_id");
        assert(column.len() == 8);
        assert(has_its_unit("contracts"@, column));
    }
    if column == "block_id"@ {
        reveal_strlit("block_id");
        assert(column.len() == 8);
        assert(has_its_unit("contracts"@, column));
    }
    if column == "contract_id"@ {
        reveal_strlit("contract_id");
        assert(column.len() == 11);
        assert(has_its_unit("contracts"@, column));
    }
    if column == "power_mw"@ {
        reveal_strlit("power_mw");
        assert(column.len() == 8);
        assert(has_its_unit("contracts"@, column));
    }
    if column == "energy_mwh"@ {
        reveal_strlit("energy_mwh");
        assert(column.len() == 10);
        assert(has_its_unit("contracts"@, column));
    }
    if column == "price_per_mwh"@ {
        reveal_strlit("price_per_mwh");
        assert(column.len() == 13);
        assert(has_its_unit("contracts"@, column));
    }
    if column == "total_cost"@ {
        reveal_strlit("total_cost");
        assert(column.len() == 10);
        assert(has_its_unit("contracts"@, column));
    }
    if column == "operative_state_code"@ {
        reveal_strlit("operative_state_code");
        assert(column.len() == 20);
        assert(has_its_unit("contracts"@, column));
    }
}

proof fn non_controllables_have_their_units(column: Seq<char>)
    requires
        non_controllables_description(column) != ""@,
    ensures
        has_its_unit("non_controllables"@, column),
{
    endings(column);
    groups_end(column);
    reveal_strlit("spot_price");
    if column == "stage_id"@ {
        reveal_strlit("stage_id");
        assert(column.len() == 8);
        assert(has_its_unit("non_controllables"@, column));
    }
    if column == "block_id"@ {
        reveal_strlit("block_id");
        assert(column.len() == 8);
        assert(has_its_unit("non_controllables"@, column));
    }
    if column == "non_controllable_id"@ {
        reveal_strlit("non_controllable_id");
        assert(column.len() == 19);
        assert(has_its_unit("non_controllables"@, column));
    }
    if column == "generation_mw"@ {
        reveal_strlit("generation_mw");
        assert(column.len() == 13);
        assert(has_its_unit("non_controllables"@, column));
    }
    if column == "generation_mwh"@ {
        reveal_strlit("generation_mwh");
        assert(column.len() == 14);
        assert(has_its_unit("non_controllables"@, column));
    }
    if column == "available_mw"@ {
        reveal_strlit("available_mw");
        assert(column.len() == 12);
        assert(has_its_unit("non_controllables"@, column));
    }
    if column == "curtailment_mw"@ {
        reveal_strlit("curtailment_mw");
        assert(column.len() == 14);
        assert(has_its_unit("non_controllables"@, column));
    }
    if column == "curtailment_mwh"@ {
        reveal_strlit("curtailment_mwh");
        assert(column.len() == 15);
        assert(has_its_unit("non_controllables"@, column));
    }
    if column == "curtailment_cost"@ {
        reveal_strlit("curtailment_cost");
        assert(column.len() == 16);
        assert(has_its_unit("non_controllables"@, column));
    }
    if column == "operative_state_code"@ {
        reveal_strlit("operative_state_code");
        assert(column.len() == 20);
        assert(has_its_unit("non_controllables"@, column));
    }
}

proof fn inflow_lags_have_their_units(column: Seq<char>)
    requires
        inflow_lags_description(column) != ""@,
    ensures
        has_its_unit("inflow_lags"@, column),
{
    endings(column);
    groups_end(column);
    reveal_strlit("spot_price");
    if column == "stage_id"@ {
        reveal_strlit("stage_id");
        assert(column.len() == 8);
        assert(has_its_unit("inflow_lags"@, column));
    }
    if column == "hydro_id"@ {
        reveal_strlit("hydro_id");
        assert(column.len() == 8);
        assert(has_its_unit("inflow_lags"@, column));
    }
    if column == "lag_index"@ {
        reveal_strlit("lag_index");
        assert(column.len() == 9);
        assert(has_its_unit("inflow_lags"@, column));
    }
    if column == "inflow_m3s"@ {
        reveal_strlit("inflow_m3s");
        assert(column.len() == 10);
        assert(has_its_unit("inflow_lags"@, column));
    }
}

proof fn generic_violations_have_their_units(column: Seq<char>)
    requires
        generic_violations_description(column) != ""@,
    ensures
        has_its_unit("generic_violations"@, column),
{
    endings(column);
    groups_end(column);
    reveal_strlit("spot_price");
    if column == "stage_id"@ {
        reveal_strlit("stage_id");
        assert(column.len() == 8);
        assert(has_its_unit("generic_violations"@, column));
    }
    if column == "block_id"@ {
        reveal_strlit("block_id");
        assert(column.len() == 8);
        assert(has_its_unit("generic_violations"@, column));
    }
    if column == "constraint_id"@ {
        reveal_strlit("constraint_id");
        assert(column.len() == 13);
        assert(has_its_unit("generic_violations"@, column));
    }
    if column == "slack_value"@ {
        reveal_strlit("slack_value");
        assert(column.len() == 11);
        assert(has_its_unit("generic_violations"@, column));
    }
    if column == "slack_cost"@ {
        reveal_strlit("slack_cost");
        assert(column.len() == 10);
        assert(has_its_unit("generic_violations"@, column));
    }
}

proof fn convergence_have_their_units(column: Seq<char>)
    requires
        convergence_description(column) != ""@,
    ensures
        has_its_unit("convergence"@, column),
{
    endings(column);
    groups_end(column);
    reveal_strlit("spot_price");
    if column == "iteration"@ {
        reveal_strlit("iteration");
        assert(column.len() == 9);
        assert(has_its_unit("convergence"@, column));
    }
    if column == "lower_bound"@ {
        reveal_strlit("lower_bound");
        assert(column.len() == 11);
        assert(has_its_unit("convergence"@, column));
    }
    if column == "upper_bound_mean"@ {
        reveal_strlit("upper_bound_mean");
        assert(column.len() == 16);
        assert(has_its_unit("convergence"@, column));
    }
    if column == "upper_bound_std"@ {
        reveal_strlit("upper_bound_std");
        assert(column.len() == 15);
        assert(has_its_unit("convergence"@, column));
    }
    if column == "gap_percent"@ {
        reveal_strlit("gap_percent");
        assert(column.len() == 11);
        assert(has_its_unit("convergence"@, column));
    }
    if column == "cuts_added"@ {
        reveal_strlit("cuts_added");
        assert(column.len() == 10);
        assert(has_its_unit("convergence"@, column));
    }
    if column == "cuts_removed"@ {
        reveal_strlit("cuts_removed");
        assert(column.len() == 12);
        assert(has_its_unit("convergence"@, column));
    }
    if column == "cuts_active"@ {
        reveal_strlit("cuts_active");
        assert(column.len() == 11);
        assert(has_its_unit("convergence"@, column));
    }
    if column == "time_forward_ms"@ {
        reveal_strlit("time_forward_ms");
        assert(column.len() == 15);
        assert(has_its_unit("convergence"@, column));
    }
    if column == "time_backward_ms"@ {
        reveal_strlit("time_backward_ms");
        assert(column.len() == 16);
        assert(has_its_unit("convergence"@, column));
    }
    if column == "time_total_ms"@ {
        reveal_strlit("time_total_ms");
        assert(column.len() == 13);
        assert(has_its_unit("convergence"@, column));
    }
    if column == "forward_passes"@ {
        reveal_strlit("forward_passes");
        assert(column.len() == 14);
        assert(has_its_unit("convergence"@, column));
    }
    if column == "lp_solves"@ {
        reveal_strlit("lp_solves");
        assert(column.len() == 9);
        assert(has_its_unit("convergence"@, column));
    }
    if column == "mean_rows_in_lp"@ {
        reveal_strlit("mean_rows_in_lp");
        assert(column.len() == 15);
        assert(has_its_unit("convergence"@, column));
    }
}

proof fn iteration_timing_have_their_units(column: Seq<char>)
    requires
        iteration_timing_description(column) != ""@,
    ensures
        has_its_unit("iteration_timing"@, column),
{
    endings(column);
    groups_end(column);
    reveal_strlit("spot_price");
    if column == "iteration"@ {
        reveal_strlit("iteration");
        assert(column.len() == 9);
        assert(has_its_unit("iteration_timing"@, column));
    }
    if column == "rank"@ {
        reveal_strlit("rank");
        assert(column.len() == 4);
        assert(has_its_unit("iteration_timing"@, column));
    }
    if column == "worker_id"@ {
        reveal_strlit("worker_id");
        assert(column.len() == 9);
        assert(has_its_unit("iteration_timing"@, column));
    }
    if column == "forward_wall_ms"@ {
        reveal_strlit("forward_wall_ms");
        assert(column.len() == 15);
        assert(has_its_unit("iteration_timing"@, column));
    }
    if column == "backward_wall_ms"@ {
        reveal_strlit("backward_wall_ms");
        assert(column.len() == 16);
        assert(has_its_unit("iteration_timing"@, column));
    }
    if column == "cut_selection_ms"@ {
        reveal_strlit("cut_selection_ms");
        assert(column.len() == 16);
        assert(has_its_unit("iteration_timing"@, column));
    }
    if column == "mpi_allreduce_ms"@ {
        reveal_strlit("mpi_allreduce_ms");
        assert(column.len() == 16);
        assert(has_its_unit("iteration_timing"@, column));
    }
    if column == "cut_sync_ms"@ {
        reveal_strlit("cut_sync_ms");
        assert(column.len() == 11);
        assert(has_its_unit("iteration_timing"@, column));
    }
    if column == "lower_bound_ms"@ {
        reveal_strlit("lower_bound_ms");
        assert(column.len() == 14);
        assert(has_its_unit("iteration_timing"@, column));
    }
    if column == "state_exchange_ms"@ {
        reveal_strlit("state_exchange_ms");
        assert(column.len() == 17);
        assert(has_its_unit("iteration_timing"@, column));
    }
    if column == "cut_batch_build_ms"@ {
        reveal_strlit("cut_batch_build_ms");
        assert(column.len() == 18);
        assert(has_its_unit("iteration_timing"@, column));
    }
    if column == "bwd_setup_ms"@ {
        reveal_strlit("bwd_setup_ms");
        assert(column.len() == 12);
        assert(has_its_unit("iteration_timing"@, column));
    }
    if column == "bwd_load_imbalance_ms"@ {
        reveal_strlit("bwd_load_imbalance_ms");
        assert(column.len() == 21);
        assert(has_its_unit("iteration_timing"@, column));
    }
    if column == "bwd_scheduling_overhead_ms"@ {
        reveal_strlit("bwd_scheduling_overhead_ms");
        assert(column.len() == 26);
        assert(has_its_unit("iteration_timing"@, column));
    }
    if column == "fwd_setup_ms"@ {
        reveal_strlit("fwd_setup_ms");
        assert(column.len() == 12);
        assert(has_its_unit("iteration_timing"@, column));
    }
    if column == "fwd_load_imbalance_ms"@ {
        reveal_strlit("fwd_load_imbalance_ms");
        assert(column.len() == 21);
        assert(has_its_unit("iteration_timing"@, column));
    }
    if column == "fwd_scheduling_overhead_ms"@ {
        reveal_strlit("fwd_scheduling_overhead_ms");
        assert(column.len() == 26);
        assert(has_its_unit("iteration_timing"@, column));
    }
    if column == "overhead_ms"@ {
        reveal_strlit("overhead_ms");
        assert(column.len() == 11);
        assert(has_its_unit("iteration_timing"@, column));
    }
    if column == "lazy_scoring_ms"@ {
        reveal_strlit("lazy_scoring_ms");
        assert(column.len() == 15);
        assert(has_its_unit("iteration_timing"@, column));
    }
}

proof fn rank_timing_have_their_units(column: Seq<char>)
    requires
        rank_timing_description(column) != ""@,
    ensures
        has_its_unit("rank_timing"@, column),
{
    endings(column);
    groups_end(column);
    reveal_strlit("spot_price");
    if column == "iteration"@ {
        reveal_strlit("iteration");
        assert(column.len() == 9);
        assert(has_its_unit("rank_timing"@, column));
    }
    if column == "rank"@ {
        reveal_strlit("rank");
        assert(column.len() == 4);
        assert(has_its_unit("rank_timing"@, column));
    }
    if column == "forward_time_ms"@ {
        reveal_strlit("forward_time_ms");
        assert(column.len() == 15);
        assert(has_its_unit("rank_timing"@, column));
    }
    if column == "backward_time_ms"@ {
        reveal_strlit("backward_time_ms");
        assert(column.len() == 16);
        assert(has_its_unit("rank_timing"@, column));
    }
    if column == "communication_time_ms"@ {
        reveal_strlit("communication_time_ms");
        assert(column.len() == 21);
        assert(has_its_unit("rank_timing"@, column));
    }
    if column == "idle_time_ms"@ {
        reveal_strlit("idle_time_ms");
        assert(column.len() == 12);
        assert(has_its_unit("rank_timing"@, column));
    }
    if column == "lp_solves"@ {
        reveal_strlit("lp_solves");
        assert(column.len() == 9);
        assert(has_its_unit("rank_timing"@, column));
    }
    if column == "scenarios_processed"@ {
        reveal_strlit("scenarios_processed");
        assert(column.len() == 19);
        assert(has_its_unit("rank_timing"@, column));
    }
}

proof fn cut_selection_have_their_units(column: Seq<char>)
    requires
        cut_selection_description(column) != ""@,
    ensures
        has_its_unit("cut_selection"@, column),
{
    endings(column);
    groups_end(column);
    reveal_strlit("spot_price");
    if column == "iteration"@ {
        reveal_strlit("iteration");
        assert(column.len() == 9);
        assert(has_its_unit("cut_selection"@, column));
    }
    if column == "stage"@ {
        reveal_strlit("stage");
        assert(column.len() == 5);
        assert(has_its_unit("cut_selection"@, column));
    }
    if column == "cuts_populated"@ {
        reveal_strlit("cuts_populated");
        assert(column.len() == 14);
        assert(has_its_unit("cut_selection"@, column));
    }
    if column == "cuts_active_before"@ {
        reveal_strlit("cuts_active_before");
        assert(column.len() == 18);
        assert(has_its_unit("cut_selection"@, column));
    }
    if column == "cuts_deactivated"@ {
        reveal_strlit("cuts_deactivated");
        assert(column.len() == 16);
        assert(has_its_unit("cut_selection"@, column));
    }
    if column == "cuts_reactivated"@ {
        reveal_strlit("cuts_reactivated");
        assert(column.len() == 16);
        assert(has_its_unit("cut_selection"@, column));
    }
    if column == "cuts_active_after"@ {
        reveal_strlit("cuts_active_after");
        assert(column.len() == 17);
        assert(has_its_unit("cut_selection"@, column));
    }
    if column == "selection_time_ms"@ {
        reveal_strlit("selection_time_ms");
        assert(column.len() == 17);
        assert(has_its_unit("cut_selection"@, column));
    }
    if column == "budget_evicted"@ {
        reveal_strlit("budget_evicted");
        assert(column.len() == 14);
        assert(has_its_unit("cut_selection"@, column));
    }
    if column == "active_after_budget"@ {
        reveal_strlit("active_after_budget");
        assert(column.len() == 19);
        assert(has_its_unit("cut_selection"@, column));
    }
}

proof fn solver_iterations_have_their_units(column: Seq<char>)
    requires
        solver_iterations_description(column) != ""@,
    ensures
        has_its_unit("solver_iterations"@, column),
{
    endings(column);
    groups_end(column);
    reveal_strlit("spot_price");
    if column == "iteration"@ {
        reveal_strlit("iteration");
        assert(column.len() == 9);
        assert(has_its_unit("solver_iterations"@, column));
    }
    if column == "phase"@ {
        reveal_strlit("phase");
        assert(column.len() == 5);
        assert(has_its_unit("solver_iterations"@, column));
    }
    if column == "stage"@ {
        reveal_strlit("stage");
        assert(column.len() == 5);
        assert(has_its_unit("solver_iterations"@, column));
    }
    if column == "lp_solves"@ {
        reveal_strlit("lp_solves");
        assert(column.len() == 9);
        assert(has_its_unit("solver_iterations"@, column));
    }
    if column == "lp_successes"@ {
        reveal_strlit("lp_successes");
        assert(column.len() == 12);
        assert(has_its_unit("solver_iterations"@, column));
    }
    if column == "lp_retries"@ {
        reveal_strlit("lp_retries");
        assert(column.len() == 10);
        assert(has_its_unit("solver_iterations"@, column));
    }
    if column == "lp_failures"@ {
        reveal_strlit("lp_failures");
        assert(column.len() == 11);
        assert(has_its_unit("solver_iterations"@, column));
    }
    if column == "retry_attempts"@ {
        reveal_strlit("retry_attempts");
        assert(column.len() == 14);
        assert(has_its_unit("solver_iterations"@, column));
    }
    if column == "basis_offered"@ {
        reveal_strlit("basis_offered");
        assert(column.len() == 13);
        assert(has_its_unit("solver_iterations"@, column));
    }
    if column == "basis_consistency_failures"@ {
        reveal_strlit("basis_consistency_failures");
        assert(column.len() == 26);
        assert(has_its_unit("solver_iterations"@, column));
    }
    if column == "simplex_iterations"@ {
        reveal_strlit("simplex_iterations");
        assert(column.len() == 18);
        assert(has_its_unit("solver_iterations"@, column));
    }
    if column == "solve_time_ms"@ {
        reveal_strlit("solve_time_ms");
        assert(column.len() == 13);
        assert(has_its_unit("solver_iterations"@, column));
    }
    if column == "load_model_time_ms"@ {
        reveal_strlit("load_model_time_ms");
        assert(column.len() == 18);
        assert(has_its_unit("solver_iterations"@, column));
    }
    if column == "set_bounds_time_ms"@ {
        reveal_strlit("set_bounds_time_ms");
        assert(column.len() == 18);
        assert(has_its_unit("solver_iterations"@, column));
    }
    if column == "basis_set_time_ms"@ {
        reveal_strlit("basis_set_time_ms");
        assert(column.len() == 17);
        assert(has_its_unit("solver_iterations"@, column));
    }
    if column == "opening"@ {
        reveal_strlit("opening");
        assert(column.len() == 7);
        assert(has_its_unit("solver_iterations"@, column));
    }
    if column == "rank"@ {
        reveal_strlit("rank");
        assert(column.len() == 4);
        assert(has_its_unit("solver_iterations"@, column));
    }
    if column == "worker_id"@ {
        reveal_strlit("worker_id");
        assert(column.len() == 9);
        assert(has_its_unit("solver_iterations"@, column));
    }
}

proof fn retry_histogram_have_their_units(column: Seq<char>)
    requires
        retry_histogram_description(column) != ""@,
    ensures
        has_its_unit("retry_histogram"@, column),
{
    endings(column);
    groups_end(column);
    reveal_strlit("spot_price");
    if column == "iteration"@ {
        reveal_strlit("iteration");
        assert(column.len() == 9);
        assert(has_its_unit("retry_histogram"@, column));
    }
    if column == "phase"@ {
        reveal_strlit("phase");
        assert(column.len() == 5);
        assert(has_its_unit("retry_histogram"@, column));
    }
    if column == "stage"@ {
        reveal_strlit("stage");
        assert(column.len() == 5);
        assert(has_its_unit("retry_histogram"@, column));
    }
    if column == "retry_level"@ {
        reveal_strlit("retry_level");
        assert(column.len() == 11);
        assert(has_its_unit("retry_histogram"@, column));
    }
    if column == "count"@ {
        reveal_strlit("count");
        assert(column.len() == 5);
        assert(has_its_unit("retry_histogram"@, column));
    }
}

/// Every column that the dictionary describes has the unit that its name asks for: power
/// in MW, energy in MWh, flow in m3/s, volume in hm3, cost in $, time in ms, the price of
/// energy in $/MWh, the value of water in $/hm3 and a productivity in MW/(m3/s).
pub proof fn described_columns_have_their_units(file: Seq<char>, column: Seq<char>)
    requires
        description_of(file, column) != ""@,
    ensures
        text::ends_in(column, "_mw"@) ==> unit_of(file, column) == "MW"@,
        text::ends_in(column, "_mwh"@) && !text::ends_in(column, "_per_mwh"@) ==> unit_of(file, column) == "MWh"@,
        text::ends_in(column, "_per_mwh"@) ==> unit_of(file, column) == "$/MWh"@,
        text::ends_in(column, "_m3s"@) && !text::ends_in(column, "_mw_per_m3s"@) ==> unit_of(file, column) == "m3/s"@,
        text::ends_in(column, "_mw_per_m3s"@) ==> unit_of(file, column) == "MW/(m3/s)"@,
        text::ends_in(column, "_hm3"@) && !text::ends_in(column, "_per_hm3"@) ==> unit_of(file, column) == "hm3"@,
        text::ends_in(column, "_per_hm3"@) ==> unit_of(file, column) == "$/hm3"@,
        text::ends_in(column, "_cost"@) ==> unit_of(file, column) == "$"@,
        text::ends_in(column, "_ms"@) ==> unit_of(file, column) == "ms"@,
        column == "spot_price"@ ==> unit_of(file, column) == "$/MWh"@,
{
    if file == "costs"@ {
        costs_have_their_units(column);
    } else if file == "hydros"@ {
        hydros_have_their_units(column);
    } else if file == "thermals"@ {
        thermals_have_their_units(column);
    } else if file == "exchanges"@ {
        exchanges_have_their_units(column);
    } else if file == "buses"@ {
        buses_have_their_units(column);
    } else if file == "pumping_stations"@ {
        pumping_stations_have_their_units(column);
    } else if file == "contracts"@ {
        contracts_have_their_units(column);
    } else if file == "non_controllables"@ {
        non_controllables_have_their_units(column);
    } else if file == "inflow_lags"@ {
        inflow_lags_have_their_units(column);
    } else if file == "generic_violations"@ {
        generic_violations_have_their_units(column);
    } else if file == "convergence"@ {
        convergence_have_their_units(column);
    } else if file == "iteration_timing"@ {
        iteration_timing_have_their_units(column);
    } else if file == "rank_timing"@ {
        rank_timing_have_their_units(column);
    } else if file == "cut_selection"@ {
        cut_selection_have_their_units(column);
    } else if file == "solver_iterations"@ {
        solver_iterations_have_their_units(column);
    } else if file == "retry_histogram"@ {
        retry_histogram_have_their_units(column);
    }
}

/// The row of a column has the names of its file and of the column, the name of the type
/// of its values, whether it may hold nulls, and its unit and description.
pub proof fn rows_describe_their_columns(
    schemas: Seq<FileSchema>,
    rows: Seq<VariableRow>,
    k: int,
    i: int,
)
    requires
        row_views(rows) == variable_rows_of(schemas, schemas.len() as int),
        0 <= k < schemas.len(),
        0 <= i < schemas[k].fields@.len(),
    ensures
        rows.len() == column_count(schemas, schemas.len() as int),
        ({
            let at = column_count(schemas, k) + i;
            let file = schemas[k].file@;
            let field = schemas[k].fields@[i];
            &&& 0 <= at < rows.len()
            &&& rows[at].file@ == file
            &&& rows[at].column@ == field.name@
            &&& rows[at].data_type@ == match field.data_type {
                DataType::Int8 => "i8"@,
                DataType::Int32 => "i32"@,
                DataType::Int64 => "i64"@,
                DataType::UInt32 => "u32"@,
                DataType::UInt64 => "u64"@,
                DataType::Float64 => "f64"@,
                DataType::Boolean => "bool"@,
                DataType::Utf8 => "string"@,
                DataType::Other => "unknown"@,
            }
            &&& rows[at].unit@ == unit_of(file, field.name@)
            &&& rows[at].description@ == description_of(file, field.name@)
            &&& rows[at].nullable@ == if field.nullable {
                "true"@
            } else {
                "false"@
            }
        }),
{
    one_row_per_column(schemas, schemas.len() as int, k, i);
    assert(row_views(rows).len() == rows.len());
    assert(row_views(rows)[column_count(schemas, k) + i] == rows[column_count(schemas, k) + i]@);
}

} // verus!
