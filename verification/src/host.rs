//! The decision rule of the host-integrated driver: which action the run
//! loop takes for each kind of host event. The driver itself lives with
//! the host windowing system; it first routes every raw event to the
//! application's event handler, then performs the action this rule picks.

use vstd::prelude::*;

verus! {

/// The kinds of host event the run loop reacts to. Raw input events
/// (pointer motion, button changes) are routed to the application's
/// event handler and are `Other` to the run loop itself.
#[derive(Clone, Copy, Debug, PartialEq, Eq)]
pub enum HostEvent {
    /// The host has cleared its main event queue and is ready to redraw.
    MainEventsCleared,
    /// The host asks for the window to be closed.
    CloseRequested,
    /// Any other host event.
    Other,
}

/// What the run loop does in response to one host event.
#[derive(Clone, Copy, Debug, PartialEq, Eq)]
pub enum HostAction {
    /// Advance the engine loop by exactly one tick.
    AdvanceTick,
    /// Leave the run loop gracefully.
    ExitRunLoop,
    /// Do nothing.
    Ignore,
}

/// The action taken for each kind of host event: a ready-to-redraw
/// signal drives exactly one engine tick, a close request exits the run
/// loop, and everything else is ignored.
pub open spec fn spec_dispatch(event: HostEvent) -> HostAction {
    match event {
        HostEvent::MainEventsCleared => HostAction::AdvanceTick,
        HostEvent::CloseRequested => HostAction::ExitRunLoop,
        HostEvent::Other => HostAction::Ignore,
    }
}

/// Picks the run loop's action for one host event.
pub fn dispatch_host_event(event: &HostEvent) -> (action: HostAction)
    ensures
        action == spec_dispatch(*event),
{
    match event {
        HostEvent::MainEventsCleared => HostAction::AdvanceTick,
        HostEvent::CloseRequested => HostAction::ExitRunLoop,
        HostEvent::Other => HostAction::Ignore,
    }
}

} // verus!
