//! Hyperplanes of fitted production functions.

use vstd::prelude::*;

use crate::entities::EntityId;
use crate::float::Float64;

verus! {

/// One hyperplane of a plant's production function.
#[derive(Clone, Copy, Debug, PartialEq, Eq)]
pub struct FphaHyperplaneRow {
    /// The plant.
    pub hydro_id: EntityId,
    /// The stage, or none for all stages.
    pub stage_id: Option<i32>,
    /// The plane within the plant.
    pub plane_id: i32,
    /// The intercept, in MW.
    pub gamma_0: Float64,
    /// The coefficient of the volume, in MW/hm³.
    pub gamma_v: Float64,
    /// The coefficient of the turbined flow, in MW per m³/s.
    pub gamma_q: Float64,
    /// The coefficient of the spillage, in MW per m³/s.
    pub gamma_s: Float64,
    /// The correction factor.
    pub kappa: Float64,
    /// The least volume that the plane is valid for, in hm³.
    pub valid_v_min_hm3: Option<Float64>,
    /// The greatest volume that the plane is valid for, in hm³.
    pub valid_v_max_hm3: Option<Float64>,
    /// The greatest turbined flow that the plane is valid for, in m³/s.
    pub valid_q_max_m3s: Option<Float64>,
}

} // verus!
