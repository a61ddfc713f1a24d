//! What a run writes.

pub mod atomic;
pub mod dictionary;
pub mod fixed_delivery;
pub mod gap_regime;
pub mod generic_constraints_echo;
pub mod hydro_models;
