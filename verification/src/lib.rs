//! Input and output rules of a hydrothermal dispatch study: the policy artifact
//! codec, the input validators and the output tables.

pub mod date;
pub mod entities;
pub mod error;
pub mod extensions;
pub mod flat;
pub mod float;
pub mod initial_conditions;
pub mod output;
pub mod policy;
pub mod sorting;
pub mod system;
pub mod table;
pub mod text;
pub mod validation;
pub mod windowed_history;
