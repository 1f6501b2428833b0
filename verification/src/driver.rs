//! The application driver's decision rules: a single-window, single-renderer
//! event state machine.
//!
//! The event loop itself (window creation, device negotiation, input
//! forwarding) is platform plumbing and lives outside this crate; the loop
//! hands each event kind and each render outcome to the functions here and
//! performs exactly the action they return.

use vstd::prelude::*;

verus! {

/// The lifecycle of the driver: it owns no renderer until first activation,
/// and dispatches no further events once terminating.
#[derive(Clone, Copy, PartialEq, Eq, Structural, Debug)]
pub enum DriverPhase {
    Uninitialized,
    Running,
    Terminating,
}

/// The kinds of window event the driver distinguishes.
#[derive(Clone, Copy, PartialEq, Eq, Structural, Debug)]
pub enum WindowEventKind {
    CloseRequested,
    EscapePressed,
    Resized { width: u32, height: u32 },
    RedrawRequested,
    Other,
}

/// What the loop must do for one event.
#[derive(Clone, Copy, PartialEq, Eq, Structural, Debug)]
pub enum EventAction {
    /// Leave the loop.
    Exit,
    /// Resize the renderer to the given size, then request a redraw.
    ResizeThenRedraw { width: u32, height: u32 },
    /// Update and render one frame, then request another redraw.
    RedrawFrame,
    /// Nothing: the event was already forwarded as raw input.
    Ignore,
}

/// How one presentation attempt ended.
#[derive(Clone, Copy, PartialEq, Eq, Structural, Debug)]
pub enum RenderOutcome {
    /// The frame was presented.
    Completed,
    /// The surface became invalid and must be reconfigured.
    SurfaceLost,
    /// The GPU backend is out of memory.
    OutOfMemory,
    /// A transient failure (timeout, outdated surface): the continuous
    /// redraw loop self-corrects on the next frame.
    TransientFailure,
}

/// What the loop must do after a presentation attempt.
#[derive(Clone, Copy, PartialEq, Eq, Structural, Debug)]
pub enum RenderFollowUp {
    /// Carry on with the next frame.
    Continue,
    /// Resize the renderer to the window's current size, then carry on.
    ReconfigureToWindow,
    /// Resource exhaustion is fatal: leave the loop.
    Exit,
}

/// The action each event kind demands.
pub open spec fn event_action_spec(event: WindowEventKind) -> EventAction {
    match event {
        WindowEventKind::CloseRequested => EventAction::Exit,
        WindowEventKind::EscapePressed => EventAction::Exit,
        WindowEventKind::Resized { width, height } => EventAction::ResizeThenRedraw { width, height },
        WindowEventKind::RedrawRequested => EventAction::RedrawFrame,
        WindowEventKind::Other => EventAction::Ignore,
    }
}

/// Decides the loop's action for one window event: a close request or the
/// escape key exits, a resize resizes and redraws, a redraw request renders
/// a frame, anything else is ignored.
pub fn event_action(event: &WindowEventKind) -> (r: EventAction)
    ensures
        r == event_action_spec(*event),
{
    match event {
        WindowEventKind::CloseRequested => EventAction::Exit,
        WindowEventKind::EscapePressed => EventAction::Exit,
        WindowEventKind::Resized { width, height } => EventAction::ResizeThenRedraw {
            width: *width,
            height: *height,
        },
        WindowEventKind::RedrawRequested => EventAction::RedrawFrame,
        WindowEventKind::Other => EventAction::Ignore,
    }
}

/// The follow-up each render outcome demands.
pub open spec fn render_follow_up_spec(outcome: RenderOutcome) -> RenderFollowUp {
    match outcome {
        RenderOutcome::Completed => RenderFollowUp::Continue,
        RenderOutcome::SurfaceLost => RenderFollowUp::ReconfigureToWindow,
        RenderOutcome::OutOfMemory => RenderFollowUp::Exit,
        RenderOutcome::TransientFailure => RenderFollowUp::Continue,
    }
}

/// Decides the loop's follow-up to a presentation attempt: success and
/// transient failures continue (the loop redraws continuously), a lost
/// surface is reconfigured at the current window size, and out-of-memory is
/// fatal.
pub fn render_follow_up(outcome: &RenderOutcome) -> (r: RenderFollowUp)
    ensures
        r == render_follow_up_spec(*outcome),
{
    match outcome {
        RenderOutcome::Completed => RenderFollowUp::Continue,
        RenderOutcome::SurfaceLost => RenderFollowUp::ReconfigureToWindow,
        RenderOutcome::OutOfMemory => RenderFollowUp::Exit,
        RenderOutcome::TransientFailure => RenderFollowUp::Continue,
    }
}

/// The phase transition relation: activation starts the loop, an exit
/// decision ends it, and `Terminating` is absorbing.
pub open spec fn next_phase_spec(phase: DriverPhase, activated: bool, exit_decided: bool) -> DriverPhase {
    if phase is Terminating {
        DriverPhase::Terminating
    } else if exit_decided {
        DriverPhase::Terminating
    } else if phase is Uninitialized && activated {
        DriverPhase::Running
    } else {
        phase
    }
}

/// Advances the driver's phase.  `activated` reports first window
/// activation; `exit_decided` reports that an action or follow-up demanded
/// exit.  `Terminating` is absorbing: no input leaves it.
pub fn next_phase(phase: DriverPhase, activated: bool, exit_decided: bool) -> (r: DriverPhase)
    ensures
        r == next_phase_spec(phase, activated, exit_decided),
        phase is Terminating ==> r is Terminating,
{
    match phase {
        DriverPhase::Terminating => DriverPhase::Terminating,
        DriverPhase::Uninitialized => {
            if exit_decided {
                DriverPhase::Terminating
            } else if activated {
                DriverPhase::Running
            } else {
                DriverPhase::Uninitialized
            }
        },
        DriverPhase::Running => {
            if exit_decided {
                DriverPhase::Terminating
            } else {
                DriverPhase::Running
            }
        },
    }
}

} // verus!
