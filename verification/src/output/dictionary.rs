//! The files that describe what else a run writes.

pub mod bounds;
pub mod codes;
pub mod entities;
pub mod states;
pub mod variables;
pub mod wording;
