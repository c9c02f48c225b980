//! The control policy of the path tracer.
//!
//! Tracing a ray is a recursion bounded by a depth budget: at each
//! level the renderer intersects the ray with the scene, asks the hit
//! material to scatter it, and either stops with a colour or follows
//! the scattered ray one level deeper.  The geometric work is
//! floating point and happens in the caller; this module fixes the
//! decision taken at each level and the gating of the direct-light
//! sampling step.

use vstd::prelude::*;

verus! {

/// What a material's scatter call did to the path, stripped of the
/// colours and directions involved.
#[derive(Clone, Copy, Debug, PartialEq, Eq, Structural)]
pub enum ScatterEvent {
    /// The surface absorbed the path: no colour, no continuation.
    Absorbed,
    /// The material returned a colour of its own and no continuation,
    /// as an emissive surface does.
    Emitted,
    /// The material returned a scattered ray to follow.
    Bounced,
}

/// What the scene gave back for one level of the trace.
#[derive(Clone, Copy, Debug, PartialEq, Eq, Structural)]
pub enum HitEvent {
    /// The ray hit no object.
    Miss,
    /// The ray hit an object whose material scattered as described.
    Hit(ScatterEvent),
}

/// The decision for one level of the trace.
#[derive(Clone, Copy, Debug, PartialEq, Eq, Structural)]
pub enum TraceOutcome {
    /// The depth budget is spent: the path returns black.
    Exhausted,
    /// The ray left the scene: return the background colour.
    Background,
    /// The surface absorbed the path: return black.
    Absorbed,
    /// The material terminated the path with a colour of its own:
    /// return that colour.
    Emission,
    /// Trace the scattered ray one level deeper and combine its colour
    /// with the material's attenuation.
    Bounce,
}

/// The decision the path tracer takes at depth `current_depth` of a
/// trace bounded by `max_depth`: an exhausted budget wins over
/// everything, then the event decides.
pub open spec fn trace_outcome(current_depth: u8, max_depth: u8, event: HitEvent) -> TraceOutcome {
    if current_depth == max_depth {
        TraceOutcome::Exhausted
    } else {
        match event {
            HitEvent::Miss => TraceOutcome::Background,
            HitEvent::Hit(ScatterEvent::Absorbed) => TraceOutcome::Absorbed,
            HitEvent::Hit(ScatterEvent::Emitted) => TraceOutcome::Emission,
            HitEvent::Hit(ScatterEvent::Bounced) => TraceOutcome::Bounce,
        }
    }
}

/// Decides one level of the trace.
pub fn trace_step(current_depth: u8, max_depth: u8, event: &HitEvent) -> (o: TraceOutcome)
    ensures
        o == trace_outcome(current_depth, max_depth, *event),
{
    if current_depth == max_depth {
        return TraceOutcome::Exhausted;
    }
    match event {
        HitEvent::Miss => TraceOutcome::Background,
        HitEvent::Hit(ScatterEvent::Absorbed) => TraceOutcome::Absorbed,
        HitEvent::Hit(ScatterEvent::Emitted) => TraceOutcome::Emission,
        HitEvent::Hit(ScatterEvent::Bounced) => TraceOutcome::Bounce,
    }
}

/// Whether this level of the trace may sample direct lighting: only
/// with lights in the scene, and only at the second-to-last depth, so
/// that the shadow ray's own one-level trace stays within budget.
pub fn direct_light_window(current_depth: u8, max_depth: u8, light_count: usize) -> (b: bool)
    ensures
        b <==> light_count > 0 && current_depth + 1 == max_depth,
{
    light_count > 0 && max_depth >= 1 && current_depth == max_depth - 1
}

/// At the depth bound the trace stops whatever the scene gave back:
/// the recursion depth alone bounds the work a path can do.
pub proof fn lemma_budget_exhausted(depth: u8, event: HitEvent)
    ensures
        trace_outcome(depth, depth, event) is Exhausted,
{
}

/// A ray that hits nothing yields the background colour at every depth
/// with budget remaining, whatever the budget is.
pub proof fn lemma_miss_is_background(current_depth: u8, max_depth: u8)
    requires
        current_depth < max_depth,
    ensures
        trace_outcome(current_depth, max_depth, HitEvent::Miss) is Background,
{
}

} // verus!
