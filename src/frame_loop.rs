//! The decisions of the event loop, one event at a time. The caller owns the
//! window, the GUI context and the renderer: it hands each event to
//! `LoopState::on_event`, performs the actions it gets back in order, and
//! reports the application's answers through `finish_redraw` and
//! `route_after_offer`.
use vstd::prelude::*;

verus! {

/// An event from the windowing system, reduced to what the loop decides on.
#[derive(Clone, Copy, Debug, PartialEq, Eq, Structural)]
pub enum LoopEvent {
    /// A new batch of events begins, at `now_nanos` on a monotonic clock.
    NewEvents { now_nanos: u64 },
    /// All pending input events have been handed over.
    MainEventsCleared,
    /// The window asks to be drawn.
    RedrawRequested,
    /// The user asked to close the window.
    CloseRequested,
    /// The window's inner size changed to `width` by `height` pixels.
    Resized { width: u32, height: u32 },
    /// Any other event: input, focus, IME and the like.
    Other,
}

/// One thing that the caller must do, in the order given.
#[derive(Clone, Copy, Debug, PartialEq, Eq, Structural)]
pub enum Action {
    /// Tell the GUI context that `nanos` nanoseconds passed since the last frame.
    SetDeltaTime { nanos: u64 },
    /// Let the input adapter prepare the next frame against the window.
    PrepareFrame,
    /// Ask the window for a redraw.
    RequestRedraw,
    /// Begin a new GUI frame.
    BeginFrame,
    /// Let the application build its frame; report its run flag to
    /// `finish_redraw`.
    UpdateApp,
    /// Clear the render target to opaque white.
    ClearToWhite,
    /// Let the input adapter do its bookkeeping before rendering.
    PrepareRender,
    /// Render the frame's draw lists.
    Render,
    /// Present the rendered frame.
    Present,
    /// Let the application take in drag-and-drop state.
    ProcessDragDrop,
    /// Record `width` by `height` as the GUI's display size.
    SetDisplaySize { width: u32, height: u32 },
    /// Offer the event to the application; report its answer to
    /// `route_after_offer`.
    OfferToApp,
    /// Hand the event to the input adapter.
    ForwardToPlatform,
}

/// What the loop remembers between events.
#[derive(Clone, Copy, Debug, PartialEq, Eq, Structural)]
pub struct LoopState {
    /// When the previous frame began, on the caller's monotonic clock.
    pub last_frame_nanos: u64,
    /// Whether loop control is set to exit; once set it stays set.
    pub exiting: bool,
}

/// The time from `last` to `now`, or zero where the clock reads earlier.
pub open spec fn elapsed(last: u64, now: u64) -> u64 {
    if now >= last {
        (now - last) as u64
    } else {
        0
    }
}

/// The state after `e` is handled in state `s`.
pub open spec fn next_state(s: LoopState, e: LoopEvent) -> LoopState {
    if s.exiting {
        s
    } else {
        match e {
            LoopEvent::NewEvents { now_nanos } => LoopState { last_frame_nanos: now_nanos, ..s },
            LoopEvent::CloseRequested => LoopState { exiting: true, ..s },
            _ => s,
        }
    }
}

/// What the caller must do for `e` in state `s`. Once the loop exits,
/// nothing more is done.
pub open spec fn actions_for(s: LoopState, e: LoopEvent) -> Seq<Action> {
    if s.exiting {
        seq![]
    } else {
        match e {
            LoopEvent::NewEvents { now_nanos } => seq![
                Action::SetDeltaTime { nanos: elapsed(s.last_frame_nanos, now_nanos) },
            ],
            LoopEvent::MainEventsCleared => seq![Action::PrepareFrame, Action::RequestRedraw],
            LoopEvent::RedrawRequested => seq![Action::BeginFrame, Action::UpdateApp],
            LoopEvent::CloseRequested => seq![],
            LoopEvent::Resized { width, height } => seq![
                Action::SetDisplaySize { width, height },
            ],
            LoopEvent::Other => seq![Action::OfferToApp],
        }
    }
}

/// The rest of a redraw once the application has built its frame.
pub open spec fn redraw_tail() -> Seq<Action> {
    seq![
        Action::ClearToWhite,
        Action::PrepareRender,
        Action::Render,
        Action::Present,
        Action::ProcessDragDrop,
    ]
}

/// The state after the application left its run flag at `run`.
pub open spec fn state_after_update(s: LoopState, run: bool) -> LoopState {
    LoopState { exiting: s.exiting || !run, ..s }
}

/// What follows the offer of an event that the application did or did not
/// handle.
pub open spec fn actions_after_offer(handled: bool) -> Seq<Action> {
    if handled {
        seq![]
    } else {
        seq![Action::ForwardToPlatform]
    }
}

/// The state after each of `events` was handled in turn from `s`.
pub open spec fn state_after(s: LoopState, events: Seq<LoopEvent>) -> LoopState
    decreases events.len(),
{
    if events.len() == 0 {
        s
    } else {
        state_after(next_state(s, events[0]), events.drop_first())
    }
}

/// All that is done while each of `events` is handled in turn from `s`.
pub open spec fn actions_after(s: LoopState, events: Seq<LoopEvent>) -> Seq<Action>
    decreases events.len(),
{
    if events.len() == 0 {
        seq![]
    } else {
        actions_for(s, events[0]) + actions_after(next_state(s, events[0]), events.drop_first())
    }
}

impl LoopState {
    /// A running loop whose first frame is timed from `start_nanos`.
    pub fn new(start_nanos: u64) -> (r: LoopState)
        ensures
            r == (LoopState { last_frame_nanos: start_nanos, exiting: false }),
    {
        LoopState { last_frame_nanos: start_nanos, exiting: false }
    }

    /// Whether loop control is set to exit.
    pub fn is_exiting(&self) -> (r: bool)
        ensures
            r == self.exiting,
    {
        self.exiting
    }

    /// Handles one event: updates the state and returns what the caller must do.
    pub fn on_event(&mut self, event: LoopEvent) -> (r: Vec<Action>)
        ensures
            *final(self) == next_state(*old(self), event),
            r@ == actions_for(*old(self), event),
    {
        let mut r: Vec<Action> = Vec::new();
        if self.exiting {
            return r;
        }
        match event {
            LoopEvent::NewEvents { now_nanos } => {
                let nanos: u64 = if now_nanos >= self.last_frame_nanos {
                    now_nanos - self.last_frame_nanos
                } else {
                    0
                };
                self.last_frame_nanos = now_nanos;
                r.push(Action::SetDeltaTime { nanos });
            },
            LoopEvent::MainEventsCleared => {
                r.push(Action::PrepareFrame);
                r.push(Action::RequestRedraw);
            },
            LoopEvent::RedrawRequested => {
                r.push(Action::BeginFrame);
                r.push(Action::UpdateApp);
            },
            LoopEvent::CloseRequested => {
                self.exiting = true;
            },
            LoopEvent::Resized { width, height } => {
                r.push(Action::SetDisplaySize { width, height });
            },
            LoopEvent::Other => {
                r.push(Action::OfferToApp);
            },
        }
        assert(r@ =~= actions_for(*old(self), event));
        r
    }

    /// Completes a redraw after the application left its run flag at `run`.
    /// The frame is rendered and presented whatever `run` is; a cleared flag
    /// sets loop control to exit.
    pub fn finish_redraw(&mut self, run: bool) -> (r: Vec<Action>)
        ensures
            *final(self) == state_after_update(*old(self), run),
            r@ == redraw_tail(),
    {
        if !run {
            self.exiting = true;
        }
        let mut r: Vec<Action> = Vec::new();
        r.push(Action::ClearToWhite);
        r.push(Action::PrepareRender);
        r.push(Action::Render);
        r.push(Action::Present);
        r.push(Action::ProcessDragDrop);
        assert(r@ =~= redraw_tail());
        r
    }
}

/// What follows the offer of an event to the application: nothing where it
/// handled the event, the input adapter's own handling where it did not.
pub fn route_after_offer(handled: bool) -> (r: Vec<Action>)
    ensures
        r@ == actions_after_offer(handled),
{
    let mut r: Vec<Action> = Vec::new();
    if !handled {
        r.push(Action::ForwardToPlatform);
    }
    assert(r@ =~= actions_after_offer(handled));
    r
}

/// A resize while the loop runs records exactly the new size and changes
/// nothing else.
pub proof fn lemma_resize_records_size(s: LoopState, width: u32, height: u32)
    requires
        !s.exiting,
    ensures
        next_state(s, LoopEvent::Resized { width, height }) == s,
        actions_for(s, LoopEvent::Resized { width, height }) == seq![
            Action::SetDisplaySize { width, height },
        ],
{
}

/// Once loop control is set to exit, no event changes the state or asks for
/// anything more.
pub proof fn lemma_exit_is_terminal(s: LoopState, events: Seq<LoopEvent>)
    requires
        s.exiting,
    ensures
        state_after(s, events) == s,
        actions_after(s, events) == Seq::<Action>::empty(),
    decreases events.len(),
{
    if events.len() > 0 {
        lemma_exit_is_terminal(next_state(s, events[0]), events.drop_first());
    }
}

/// A close request sets loop control to exit, and whatever events follow, no
/// frame is drawn again: nothing at all is asked of the caller.
pub proof fn lemma_close_ends_loop(s: LoopState, events: Seq<LoopEvent>)
    ensures
        next_state(s, LoopEvent::CloseRequested).exiting,
        state_after(next_state(s, LoopEvent::CloseRequested), events).exiting,
        actions_after(next_state(s, LoopEvent::CloseRequested), events) == Seq::<Action>::empty(),
{
    lemma_exit_is_terminal(next_state(s, LoopEvent::CloseRequested), events);
}

/// Any other event goes to the application first; the input adapter handles
/// it afterwards exactly when the application did not.
pub proof fn lemma_app_sees_event_first(s: LoopState, handled: bool)
    requires
        !s.exiting,
    ensures
        next_state(s, LoopEvent::Other) == s,
        actions_for(s, LoopEvent::Other) + actions_after_offer(handled) == if handled {
            seq![Action::OfferToApp]
        } else {
            seq![Action::OfferToApp, Action::ForwardToPlatform]
        },
{
    assert(actions_for(s, LoopEvent::Other) + actions_after_offer(handled) =~= if handled {
        seq![Action::OfferToApp]
    } else {
        seq![Action::OfferToApp, Action::ForwardToPlatform]
    });
}

/// A redraw renders and presents its frame whatever the application leaves
/// its run flag at; loop control is set to exit after that frame exactly when
/// the flag was cleared.
pub proof fn lemma_run_flag_exits_after_frame(s: LoopState, run: bool)
    requires
        !s.exiting,
    ensures
        !next_state(s, LoopEvent::RedrawRequested).exiting,
        state_after_update(next_state(s, LoopEvent::RedrawRequested), run).exiting == !run,
        actions_for(s, LoopEvent::RedrawRequested) + redraw_tail() == seq![
            Action::BeginFrame,
            Action::UpdateApp,
            Action::ClearToWhite,
            Action::PrepareRender,
            Action::Render,
            Action::Present,
            Action::ProcessDragDrop,
        ],
{
    assert(actions_for(s, LoopEvent::RedrawRequested) + redraw_tail() =~= seq![
        Action::BeginFrame,
        Action::UpdateApp,
        Action::ClearToWhite,
        Action::PrepareRender,
        Action::Render,
        Action::Present,
        Action::ProcessDragDrop,
    ]);
}

} // verus!
