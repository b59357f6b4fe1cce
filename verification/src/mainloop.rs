//! The main loop as a state machine.
//!
//! The loop alternates between work that only the caller can do (asking the
//! window, running the device, presenting, sleeping) and decisions. The
//! decisions are made here: the caller performs the action it is given and
//! reports back with the event that answers it.

use vstd::prelude::*;
use crate::viewport::{
    adjustments_for,
    drag_after,
    is_release,
    keys_idle,
    Adjustment,
    DragState,
    FrameInput,
    ViewportController,
};

verus! {

/// Length of the pause that ends every frame, in milliseconds.
pub const FRAME_PAUSE_MILLIS: u64 = 16;

/// Where the loop stands: which answer it is waiting for.
#[derive(Clone, Copy, Debug, PartialEq, Eq)]
pub enum Phase {
    /// Not yet started.
    Starting,
    /// Waiting to hear whether the window is still open.
    Watching,
    /// Waiting for the field to be computed and the color buffer repainted.
    Computing,
    /// Waiting for this frame's input.
    Polling,
    /// Waiting for the color buffer to be presented.
    Presenting,
    /// Waiting for the pause to end.
    Pausing,
    /// The loop has ended.
    Stopped,
}

/// What the caller reports back.
#[derive(Clone, Copy, Debug, PartialEq, Eq)]
pub enum Event {
    /// The caller is ready to run the loop.
    Started,
    /// Whether the window is open, and whether the escape key is held.
    Window { open: bool, escape: bool },
    /// The round trip and the repaint were attempted; `ok` tells whether
    /// they went through.
    Computed { ok: bool },
    /// The input of this frame.
    Input(FrameInput),
    /// The color buffer was handed to the window; `ok` tells whether the
    /// window took it.
    Presented { ok: bool },
    /// The pause is over.
    Paused,
}

/// What the caller is to do next.
#[derive(Debug, PartialEq, Eq)]
pub enum Action {
    /// Ask the window whether it is open and whether escape is held.
    CheckWindow,
    /// Run one round trip for the current region and repaint the color
    /// buffer from the field.
    Recompute,
    /// Sample pointer, button and keys.
    PollInput,
    /// Apply the adjustments to the region, in order, then present the
    /// color buffer as it is.
    Present { adjustments: Vec<Adjustment> },
    /// Sleep.
    Pause { millis: u64 },
    /// Leave the loop.
    Stop,
}

/// An action as specifications see it.
pub enum Order {
    CheckWindow,
    Recompute,
    PollInput,
    Present { adjustments: Seq<Adjustment> },
    Pause { millis: u64 },
    Stop,
}

impl Action {
    pub open spec fn view(&self) -> Order {
        match *self {
            Action::CheckWindow => Order::CheckWindow,
            Action::Recompute => Order::Recompute,
            Action::PollInput => Order::PollInput,
            Action::Present { adjustments } => Order::Present { adjustments: adjustments@ },
            Action::Pause { millis } => Order::Pause { millis },
            Action::Stop => Order::Stop,
        }
    }
}

/// The event does not answer the action that the loop is waiting on.
#[derive(Clone, Copy, Debug, PartialEq, Eq)]
pub struct OutOfTurn {
    /// The phase in which the event arrived.
    pub phase: Phase,
}

/// The state of the loop as specifications see it.
pub struct LoopView {
    pub phase: Phase,
    pub drag: DragState,
    pub needs_update: bool,
}

/// `event` is the answer that the loop is waiting for in `phase`.
pub open spec fn answers(phase: Phase, event: Event) -> bool {
    match phase {
        Phase::Starting => event is Started,
        Phase::Watching => event is Window,
        Phase::Computing => event is Computed,
        Phase::Polling => event is Input,
        Phase::Presenting => event is Presented,
        Phase::Pausing => event is Paused,
        Phase::Stopped => false,
    }
}

/// The window is open and escape is not held.
pub open spec fn carries_on(event: Event) -> bool {
    event matches Event::Window { open, escape } && open && !escape
}

/// The state after `event` has answered the pending action.
pub open spec fn state_after(s: LoopView, event: Event) -> LoopView {
    match event {
        Event::Started => LoopView { phase: Phase::Watching, ..s },
        Event::Window { open, escape } => if !carries_on(event) {
            LoopView { phase: Phase::Stopped, ..s }
        } else if s.needs_update {
            LoopView { phase: Phase::Computing, ..s }
        } else {
            LoopView { phase: Phase::Polling, ..s }
        },
        Event::Computed { ok } => if ok {
            LoopView { phase: Phase::Polling, needs_update: false, ..s }
        } else {
            LoopView { phase: Phase::Stopped, ..s }
        },
        Event::Input(input) => LoopView {
            phase: Phase::Presenting,
            drag: drag_after(s.drag, input),
            needs_update: s.needs_update || adjustments_for(s.drag, input).len() > 0,
        },
        Event::Presented { ok } => if ok {
            LoopView { phase: Phase::Pausing, ..s }
        } else {
            LoopView { phase: Phase::Stopped, ..s }
        },
        Event::Paused => LoopView { phase: Phase::Watching, ..s },
    }
}

/// The action handed out once `event` has answered the pending one.
pub open spec fn order_after(s: LoopView, event: Event) -> Order {
    match event {
        Event::Started => Order::CheckWindow,
        Event::Window { open, escape } => if !carries_on(event) {
            Order::Stop
        } else if s.needs_update {
            Order::Recompute
        } else {
            Order::PollInput
        },
        Event::Computed { ok } => if ok {
            Order::PollInput
        } else {
            Order::Stop
        },
        Event::Input(input) => Order::Present { adjustments: adjustments_for(s.drag, input) },
        Event::Presented { ok } => if ok {
            Order::Pause { millis: FRAME_PAUSE_MILLIS }
        } else {
            Order::Stop
        },
        Event::Paused => Order::CheckWindow,
    }
}

/// The state one whole frame later: input taken, buffer presented, pause
/// over.
pub open spec fn after_frame(s: LoopView, input: FrameInput) -> LoopView {
    state_after(
        state_after(state_after(s, Event::Input(input)), Event::Presented { ok: true }),
        Event::Paused,
    )
}

/// The field is computed again only at the start of a frame, and only if the
/// region has changed since it was last computed.
pub proof fn lemma_recompute_only_when_needed(s: LoopView, event: Event)
    requires
        answers(s.phase, event),
    ensures
        order_after(s, event) is Recompute <==> s.phase == Phase::Watching && carries_on(event)
            && s.needs_update,
{
}

/// A frame in which no key is held and no drag ends asks for no adjustment
/// and leaves the loop as clean or as stale as it was. If the field was up
/// to date before such a frame, the next frame goes straight to polling:
/// nothing is computed and the color buffer is presented as it is.
pub proof fn lemma_quiet_frame_skips_recompute(s: LoopView, input: FrameInput)
    requires
        s.phase == Phase::Polling,
        keys_idle(input),
        !is_release(s.drag, input),
    ensures
        order_after(s, Event::Input(input)) == (Order::Present { adjustments: Seq::empty() }),
        after_frame(s, input).phase == Phase::Watching,
        after_frame(s, input).needs_update == s.needs_update,
        !s.needs_update ==> order_after(
            after_frame(s, input),
            Event::Window { open: true, escape: false },
        ) == Order::PollInput,
{
    assert(adjustments_for(s.drag, input) =~= Seq::empty());
}

/// A frame that asks for any adjustment, however many, has the field
/// computed once: at the start of the next frame. Once that computation
/// has gone through, the loop is clean again and polls.
pub proof fn lemma_change_recomputes_once(s: LoopView, input: FrameInput)
    requires
        s.phase == Phase::Polling,
        adjustments_for(s.drag, input).len() > 0,
    ensures
        after_frame(s, input).needs_update,
        order_after(after_frame(s, input), Event::Window { open: true, escape: false })
            == Order::Recompute,
        ({
            let computing = state_after(
                after_frame(s, input),
                Event::Window { open: true, escape: false },
            );
            let computed = state_after(computing, Event::Computed { ok: true });
            &&& computing.phase == Phase::Computing
            &&& order_after(computing, Event::Computed { ok: true }) == Order::PollInput
            &&& computed.phase == Phase::Polling
            &&& !computed.needs_update
        }),
{
}

/// Once the loop has stopped it accepts nothing more.
pub proof fn lemma_stopped_is_final(event: Event)
    ensures
        !answers(Phase::Stopped, event),
{
}

/// The loop's own state: its phase and the viewport controller.
#[derive(Debug, PartialEq, Eq)]
pub struct MainLoop {
    phase: Phase,
    controller: ViewportController,
}

impl MainLoop {
    pub closed spec fn view(&self) -> LoopView {
        LoopView {
            phase: self.phase,
            drag: self.controller.spec_drag(),
            needs_update: self.controller.spec_needs_update(),
        }
    }

    /// A loop that has not started: no drag is under way and the field has
    /// yet to be computed.
    pub fn new() -> (machine: MainLoop)
        ensures
            machine@ == (LoopView {
                phase: Phase::Starting,
                drag: DragState::Idle,
                needs_update: true,
            }),
    {
        MainLoop { phase: Phase::Starting, controller: ViewportController::new() }
    }

    pub fn phase(&self) -> (phase: Phase)
        ensures
            phase == self@.phase,
    {
        self.phase
    }

    pub fn needs_update(&self) -> (needed: bool)
        ensures
            needed == self@.needs_update,
    {
        self.controller.needs_update()
    }

    /// Takes the answer to the pending action and hands out the next one.
    /// An event that is not that answer is refused and changes nothing.
    pub fn advance(&mut self, event: Event) -> (outcome: Result<Action, OutOfTurn>)
        ensures
            outcome is Ok <==> answers(old(self)@.phase, event),
            outcome matches Ok(action) ==> final(self)@ == state_after(old(self)@, event) && action@
                == order_after(old(self)@, event),
            outcome matches Err(refusal) ==> final(self)@ == old(self)@ && refusal.phase == old(
                self,
            )@.phase,
    {
        match (self.phase, event) {
            (Phase::Starting, Event::Started) => {
                self.phase = Phase::Watching;
                Ok(Action::CheckWindow)
            },
            (Phase::Watching, Event::Window { open, escape }) => {
                if !open || escape {
                    self.phase = Phase::Stopped;
                    Ok(Action::Stop)
                } else if self.controller.needs_update() {
                    self.phase = Phase::Computing;
                    Ok(Action::Recompute)
                } else {
                    self.phase = Phase::Polling;
                    Ok(Action::PollInput)
                }
            },
            (Phase::Computing, Event::Computed { ok }) => {
                if ok {
                    self.controller.mark_computed();
                    self.phase = Phase::Polling;
                    Ok(Action::PollInput)
                } else {
                    self.phase = Phase::Stopped;
                    Ok(Action::Stop)
                }
            },
            (Phase::Polling, Event::Input(input)) => {
                let adjustments = self.controller.handle(&input);
                self.phase = Phase::Presenting;
                Ok(Action::Present { adjustments })
            },
            (Phase::Presenting, Event::Presented { ok }) => {
                if ok {
                    self.phase = Phase::Pausing;
                    Ok(Action::Pause { millis: FRAME_PAUSE_MILLIS })
                } else {
                    self.phase = Phase::Stopped;
                    Ok(Action::Stop)
                }
            },
            (Phase::Pausing, Event::Paused) => {
                self.phase = Phase::Watching;
                Ok(Action::CheckWindow)
            },
            (phase, _) => Err(OutOfTurn { phase }),
        }
    }
}

} // verus!
