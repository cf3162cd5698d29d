use vstd::prelude::*;

use crate::materials::{MatEnum, ScatterPlan};

verus! {

/// What one bounce of the light-transport recursion does next, decided
/// before any color arithmetic.
#[derive(Clone, Copy, PartialEq, Eq, Structural, Debug)]
pub enum TraceStep {
    /// The recursion depth is exhausted: the ray contributes black.
    Black,
    /// The ray left the scene: it contributes the background color.
    Background,
    /// The material declines to scatter: the ray contributes the emitted
    /// light alone.
    EmissionOnly,
    /// Follow the material's deterministic specular ray, attenuate, and
    /// recurse one level deeper.
    SpecularBounce,
    /// Draw a direction, weigh it by the densities, add the emission, and
    /// recurse one level deeper.  When `with_lights` holds, the direction
    /// comes from the even mixture of the light-sampling density and the
    /// material's own; with no lights registered, from the material's own
    /// density alone.
    MixtureBounce { with_lights: bool },
}

/// The step a scatter plan leads to once depth and hit are settled.
pub open spec fn step_for_plan(plan: ScatterPlan, lights_present: bool) -> TraceStep {
    match plan {
        ScatterPlan::Absorb => TraceStep::EmissionOnly,
        ScatterPlan::Specular => TraceStep::SpecularBounce,
        ScatterPlan::CosineWeighted => TraceStep::MixtureBounce { with_lights: lights_present },
        ScatterPlan::UniformSphere => TraceStep::MixtureBounce { with_lights: lights_present },
    }
}

/// Decide what one level of the ray-color recursion does: depth exhaustion
/// yields black before anything else; a miss yields the background; a hit
/// defers to the material's scatter plan.  The rendering layer performs the
/// decided step's numeric work and recursion.
pub fn trace_step(depth: i64, hit_material: Option<&MatEnum>, lights_present: bool) -> (r:
    TraceStep)
    requires
        hit_material matches Some(m) ==> !(*m is Default),
    ensures
        depth <= 0 ==> r == TraceStep::Black,
        depth > 0 && hit_material is None ==> r == TraceStep::Background,
        depth > 0 ==> (hit_material matches Some(m) ==> r == step_for_plan(
            m.scatter_plan_spec(),
            lights_present,
        )),
{
    if depth <= 0 {
        return TraceStep::Black;
    }
    match hit_material {
        None => TraceStep::Background,
        Some(m) => match m.scatter_plan() {
            ScatterPlan::Absorb => TraceStep::EmissionOnly,
            ScatterPlan::Specular => TraceStep::SpecularBounce,
            ScatterPlan::CosineWeighted => TraceStep::MixtureBounce {
                with_lights: lights_present,
            },
            ScatterPlan::UniformSphere => TraceStep::MixtureBounce {
                with_lights: lights_present,
            },
        },
    }
}

} // verus!
