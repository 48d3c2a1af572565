use imgui_shell::frame_loop::{route_after_offer, Action, LoopEvent, LoopState};

#[test]
fn new_events_report_elapsed_time() {
    let mut s = LoopState::new(1_000);
    assert_eq!(
        s.on_event(LoopEvent::NewEvents { now_nanos: 17_667_000 }),
        vec![Action::SetDeltaTime { nanos: 17_666_000 }]
    );
    assert_eq!(s.last_frame_nanos, 17_667_000);
    assert_eq!(
        s.on_event(LoopEvent::NewEvents { now_nanos: 17_667_000 }),
        vec![Action::SetDeltaTime { nanos: 0 }]
    );
}

#[test]
fn clock_reading_earlier_gives_zero() {
    let mut s = LoopState::new(500);
    assert_eq!(
        s.on_event(LoopEvent::NewEvents { now_nanos: 200 }),
        vec![Action::SetDeltaTime { nanos: 0 }]
    );
    assert_eq!(s.last_frame_nanos, 200);
}

#[test]
fn cleared_events_prepare_and_request_redraw() {
    let mut s = LoopState::new(0);
    assert_eq!(
        s.on_event(LoopEvent::MainEventsCleared),
        vec![Action::PrepareFrame, Action::RequestRedraw]
    );
    assert_eq!(s, LoopState::new(0));
}

#[test]
fn resize_records_exact_size_only() {
    let mut s = LoopState::new(42);
    let before = s;
    assert_eq!(
        s.on_event(LoopEvent::Resized { width: 1920, height: 1080 }),
        vec![Action::SetDisplaySize { width: 1920, height: 1080 }]
    );
    assert_eq!(s, before);
    assert_eq!(
        s.on_event(LoopEvent::Resized { width: u32::MAX, height: 0 }),
        vec![Action::SetDisplaySize { width: u32::MAX, height: 0 }]
    );
}

#[test]
fn close_sets_exit_and_stops_redraws() {
    let mut s = LoopState::new(0);
    assert_eq!(s.on_event(LoopEvent::CloseRequested), vec![]);
    assert!(s.is_exiting());
    let after_close = s;
    for e in [
        LoopEvent::RedrawRequested,
        LoopEvent::MainEventsCleared,
        LoopEvent::NewEvents { now_nanos: 99 },
        LoopEvent::Resized { width: 3, height: 4 },
        LoopEvent::Other,
        LoopEvent::CloseRequested,
    ] {
        assert_eq!(s.on_event(e), vec![]);
        assert_eq!(s, after_close);
    }
}

#[test]
fn other_event_is_offered_to_app_first() {
    let mut s = LoopState::new(0);
    assert_eq!(s.on_event(LoopEvent::Other), vec![Action::OfferToApp]);
    assert_eq!(route_after_offer(true), vec![]);
    assert_eq!(route_after_offer(false), vec![Action::ForwardToPlatform]);
}

#[test]
fn cleared_run_flag_exits_after_frame_is_presented() {
    let mut s = LoopState::new(0);
    assert_eq!(
        s.on_event(LoopEvent::RedrawRequested),
        vec![Action::BeginFrame, Action::UpdateApp]
    );
    assert!(!s.is_exiting());
    assert_eq!(
        s.finish_redraw(false),
        vec![
            Action::ClearToWhite,
            Action::PrepareRender,
            Action::Render,
            Action::Present,
            Action::ProcessDragDrop,
        ]
    );
    assert!(s.is_exiting());
    assert_eq!(s.on_event(LoopEvent::RedrawRequested), vec![]);
}

#[test]
fn set_run_flag_keeps_running() {
    let mut s = LoopState::new(0);
    s.on_event(LoopEvent::RedrawRequested);
    assert_eq!(s.finish_redraw(true).len(), 5);
    assert!(!s.is_exiting());
    assert_eq!(
        s.on_event(LoopEvent::RedrawRequested),
        vec![Action::BeginFrame, Action::UpdateApp]
    );
}
