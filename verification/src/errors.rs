//! Error kinds surfaced by the engine: configuration failures at
//! construction, presentation failures, and failures raised by the
//! application's own update and render code.

use vstd::prelude::*;

verus! {

/// An error raised by the engine or by application callbacks.
#[derive(Clone, Copy, Debug, PartialEq, Eq)]
pub enum EngineError {
    /// The configured update rate yields no positive update timestep
    /// (the rate is zero, or so large that the timestep rounds to zero).
    InvalidUpdateRate,
    /// The backend could not present the pixel buffer to the screen.
    Presentation,
    /// A failure in application-supplied update or render code.
    Application,
}

/// The phase of a tick in which a failure occurred.
#[derive(Clone, Copy, Debug, PartialEq, Eq)]
pub enum TickPhase {
    /// A fixed update step failed.
    Update,
    /// The render pass failed.
    Render,
}

/// A tick error, tagged with the phase that raised it. The engine loop
/// does not catch or retry: the failure aborts the tick and is surfaced
/// to whatever drives the loop.
#[derive(Clone, Copy, Debug, PartialEq, Eq)]
pub struct TickFailure {
    /// Which phase of the tick failed.
    pub phase: TickPhase,
    /// The underlying error.
    pub error: EngineError,
}

} // verus!
