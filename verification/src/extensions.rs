//! Optional input tables of a study.

pub mod evaporation_models;
pub mod fpha_deviation_points;
pub mod fpha_hyperplanes;
pub mod hydro_energy_productivity;
pub mod hydro_reference_volumes;
pub mod production_models;
pub mod scalar_parameters;
pub mod tailrace_curves;
