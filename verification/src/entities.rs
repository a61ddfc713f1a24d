//! Identifiers of the entities of a study.

use vstd::prelude::*;

verus! {

/// The id of a plant, bus, line or other entity.
#[derive(Clone, Copy, Debug, PartialEq, Eq, PartialOrd, Ord, Hash, Structural)]
pub struct EntityId(pub i32);

/// A position in the study horizon, from 0.
#[derive(Clone, Copy, Debug, PartialEq, Eq, PartialOrd, Ord, Hash, Structural)]
pub struct StudyPos(pub usize);

} // verus!
