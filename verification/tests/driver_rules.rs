use pathtracer::driver::{
    event_action, next_phase, render_follow_up, DriverPhase, EventAction, RenderFollowUp,
    RenderOutcome, WindowEventKind,
};

#[test]
fn close_and_escape_exit() {
    assert_eq!(event_action(&WindowEventKind::CloseRequested), EventAction::Exit);
    assert_eq!(event_action(&WindowEventKind::EscapePressed), EventAction::Exit);
}

#[test]
fn resize_event_resizes_then_redraws() {
    assert_eq!(
        event_action(&WindowEventKind::Resized { width: 640, height: 480 }),
        EventAction::ResizeThenRedraw { width: 640, height: 480 },
    );
}

#[test]
fn redraw_event_renders_and_other_is_ignored() {
    assert_eq!(event_action(&WindowEventKind::RedrawRequested), EventAction::RedrawFrame);
    assert_eq!(event_action(&WindowEventKind::Other), EventAction::Ignore);
}

#[test]
fn render_outcomes_map_to_follow_ups() {
    assert_eq!(render_follow_up(&RenderOutcome::Completed), RenderFollowUp::Continue);
    assert_eq!(render_follow_up(&RenderOutcome::SurfaceLost), RenderFollowUp::ReconfigureToWindow);
    assert_eq!(render_follow_up(&RenderOutcome::OutOfMemory), RenderFollowUp::Exit);
    assert_eq!(render_follow_up(&RenderOutcome::TransientFailure), RenderFollowUp::Continue);
}

#[test]
fn activation_starts_the_loop() {
    assert_eq!(next_phase(DriverPhase::Uninitialized, true, false), DriverPhase::Running);
    assert_eq!(next_phase(DriverPhase::Uninitialized, false, false), DriverPhase::Uninitialized);
}

#[test]
fn exit_decisions_terminate() {
    assert_eq!(next_phase(DriverPhase::Running, false, true), DriverPhase::Terminating);
    assert_eq!(next_phase(DriverPhase::Uninitialized, false, true), DriverPhase::Terminating);
}

#[test]
fn terminating_is_absorbing() {
    assert_eq!(next_phase(DriverPhase::Terminating, true, false), DriverPhase::Terminating);
    assert_eq!(next_phase(DriverPhase::Terminating, false, false), DriverPhase::Terminating);
    assert_eq!(next_phase(DriverPhase::Terminating, true, true), DriverPhase::Terminating);
}
