use field_viewer::mainloop::{Action, Event, MainLoop, OutOfTurn, Phase, FRAME_PAUSE_MILLIS};
use field_viewer::viewport::{Adjustment, FrameInput};

fn quiet() -> FrameInput {
    FrameInput {
        pointer: None,
        button_down: false,
        zoom_in: false,
        zoom_out: false,
        move_up: false,
        move_down: false,
        move_left: false,
        move_right: false,
    }
}

const OPEN: Event = Event::Window { open: true, escape: false };

/// A loop that has computed once and is waiting for input.
fn polling() -> MainLoop {
    let mut machine = MainLoop::new();
    assert_eq!(machine.advance(Event::Started), Ok(Action::CheckWindow));
    assert_eq!(machine.advance(OPEN), Ok(Action::Recompute));
    assert_eq!(machine.advance(Event::Computed { ok: true }), Ok(Action::PollInput));
    machine
}

/// Runs one whole frame from polling and returns what the next frame
/// starts with.
fn frame(machine: &mut MainLoop, input: FrameInput) -> (Vec<Adjustment>, Action) {
    let adjustments = match machine.advance(Event::Input(input)) {
        Ok(Action::Present { adjustments }) => adjustments,
        other => panic!("unexpected {:?}", other),
    };
    assert_eq!(
        machine.advance(Event::Presented { ok: true }),
        Ok(Action::Pause { millis: 16 })
    );
    assert_eq!(machine.advance(Event::Paused), Ok(Action::CheckWindow));
    let next = machine.advance(OPEN).unwrap();
    (adjustments, next)
}

#[test]
fn pause_is_sixteen_milliseconds() {
    assert_eq!(FRAME_PAUSE_MILLIS, 16);
}

#[test]
fn new_loop_has_not_started() {
    let machine = MainLoop::new();
    assert_eq!(machine.phase(), Phase::Starting);
    assert!(machine.needs_update());
}

#[test]
fn first_frame_computes() {
    let mut machine = MainLoop::new();
    assert_eq!(machine.advance(Event::Started), Ok(Action::CheckWindow));
    assert_eq!(machine.phase(), Phase::Watching);
    assert_eq!(machine.advance(OPEN), Ok(Action::Recompute));
    assert_eq!(machine.phase(), Phase::Computing);
    assert_eq!(machine.advance(Event::Computed { ok: true }), Ok(Action::PollInput));
    assert_eq!(machine.phase(), Phase::Polling);
    assert!(!machine.needs_update());
}

#[test]
fn no_recomputation_without_change() {
    let mut machine = polling();
    for _ in 0..5 {
        let (adjustments, next) = frame(&mut machine, quiet());
        assert_eq!(adjustments, vec![]);
        assert_eq!(next, Action::PollInput);
        assert!(!machine.needs_update());
    }
}

#[test]
fn one_change_one_recomputation() {
    let mut machine = polling();
    let (adjustments, next) = frame(&mut machine, FrameInput { move_right: true, ..quiet() });
    assert_eq!(adjustments, vec![Adjustment::MoveRight]);
    assert_eq!(next, Action::Recompute);
    assert_eq!(machine.advance(Event::Computed { ok: true }), Ok(Action::PollInput));
    assert!(!machine.needs_update());
    let (adjustments, next) = frame(&mut machine, quiet());
    assert_eq!(adjustments, vec![]);
    assert_eq!(next, Action::PollInput);
}

#[test]
fn several_changes_in_a_frame_still_compute_once() {
    let mut machine = polling();
    let input = FrameInput { zoom_in: true, move_up: true, move_left: true, ..quiet() };
    let (adjustments, next) = frame(&mut machine, input);
    assert_eq!(
        adjustments,
        vec![Adjustment::ZoomIn, Adjustment::MoveUp, Adjustment::MoveLeft]
    );
    assert_eq!(next, Action::Recompute);
    assert_eq!(machine.advance(Event::Computed { ok: true }), Ok(Action::PollInput));
    let (_, next) = frame(&mut machine, quiet());
    assert_eq!(next, Action::PollInput);
}

#[test]
fn drag_through_the_loop() {
    let mut machine = polling();
    let press = FrameInput { pointer: Some((500, 500)), button_down: true, ..quiet() };
    let (adjustments, next) = frame(&mut machine, press);
    assert_eq!(adjustments, vec![]);
    assert_eq!(next, Action::PollInput);
    let release = FrameInput { pointer: Some((600, 500)), button_down: false, ..quiet() };
    let (adjustments, next) = frame(&mut machine, release);
    assert_eq!(adjustments, vec![Adjustment::Pan { dx: 100, dy: 0 }]);
    assert_eq!(next, Action::Recompute);
}

#[test]
fn closed_window_stops_the_loop() {
    let mut machine = polling();
    machine.advance(Event::Input(quiet())).unwrap();
    machine.advance(Event::Presented { ok: true }).unwrap();
    machine.advance(Event::Paused).unwrap();
    assert_eq!(machine.advance(Event::Window { open: false, escape: false }), Ok(Action::Stop));
    assert_eq!(machine.phase(), Phase::Stopped);
}

#[test]
fn escape_stops_the_loop() {
    let mut machine = MainLoop::new();
    machine.advance(Event::Started).unwrap();
    assert_eq!(machine.advance(Event::Window { open: true, escape: true }), Ok(Action::Stop));
    assert_eq!(machine.phase(), Phase::Stopped);
    let mut machine = MainLoop::new();
    machine.advance(Event::Started).unwrap();
    assert_eq!(machine.advance(Event::Window { open: false, escape: true }), Ok(Action::Stop));
}

#[test]
fn failed_computation_stops_the_loop() {
    let mut machine = MainLoop::new();
    machine.advance(Event::Started).unwrap();
    machine.advance(OPEN).unwrap();
    assert_eq!(machine.advance(Event::Computed { ok: false }), Ok(Action::Stop));
    assert_eq!(machine.phase(), Phase::Stopped);
    assert!(machine.needs_update());
}

#[test]
fn failed_presentation_stops_the_loop() {
    let mut machine = polling();
    machine.advance(Event::Input(quiet())).unwrap();
    assert_eq!(machine.advance(Event::Presented { ok: false }), Ok(Action::Stop));
    assert_eq!(machine.phase(), Phase::Stopped);
}

#[test]
fn stopped_loop_accepts_nothing() {
    let mut machine = MainLoop::new();
    machine.advance(Event::Started).unwrap();
    machine.advance(Event::Window { open: false, escape: false }).unwrap();
    let events = [
        Event::Started,
        OPEN,
        Event::Computed { ok: true },
        Event::Input(quiet()),
        Event::Presented { ok: true },
        Event::Paused,
    ];
    for event in events {
        assert_eq!(machine.advance(event), Err(OutOfTurn { phase: Phase::Stopped }));
        assert_eq!(machine.phase(), Phase::Stopped);
    }
}

#[test]
fn event_out_of_turn_changes_nothing() {
    let mut machine = polling();
    let before = polling();
    let events = [
        Event::Started,
        OPEN,
        Event::Computed { ok: true },
        Event::Computed { ok: false },
        Event::Presented { ok: false },
        Event::Paused,
    ];
    for event in events {
        assert_eq!(machine.advance(event), Err(OutOfTurn { phase: Phase::Polling }));
        assert_eq!(machine, before);
    }
    let mut fresh = MainLoop::new();
    assert_eq!(
        fresh.advance(Event::Input(FrameInput { zoom_in: true, ..quiet() })),
        Err(OutOfTurn { phase: Phase::Starting })
    );
    assert_eq!(fresh, MainLoop::new());
}
