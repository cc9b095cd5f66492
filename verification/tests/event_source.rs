use third_eye::tui::{
    on_wakeup, stop_step, Event, Input, KeyCode, KeyEvent, KeyEventKind, Produced, StopStep, Wakeup,
    STOP_GRACE_MS, STOP_LIMIT_MS,
};

fn key(code: KeyCode, kind: KeyEventKind) -> KeyEvent {
    KeyEvent { code, kind }
}

#[test]
fn cancellation_stops_the_producer() {
    assert_eq!(on_wakeup(Wakeup::Cancelled), Produced::Stop);
}

#[test]
fn timers_send_their_events() {
    assert_eq!(on_wakeup(Wakeup::Tick), Produced::Send(Event::Tick));
    assert_eq!(on_wakeup(Wakeup::Render), Produced::Send(Event::Render));
}

#[test]
fn key_presses_pass_unchanged() {
    let k = key(KeyCode::Char('j'), KeyEventKind::Press);
    assert_eq!(on_wakeup(Wakeup::Input(Input::Key(k))), Produced::Send(Event::Key(k)));
    let e = key(KeyCode::Enter, KeyEventKind::Press);
    assert_eq!(on_wakeup(Wakeup::Input(Input::Key(e))), Produced::Send(Event::Key(e)));
}

#[test]
fn repeats_and_releases_are_dropped() {
    let held = key(KeyCode::Char('j'), KeyEventKind::Repeat);
    let up = key(KeyCode::Char('j'), KeyEventKind::Release);
    assert_eq!(on_wakeup(Wakeup::Input(Input::Key(held))), Produced::Nothing);
    assert_eq!(on_wakeup(Wakeup::Input(Input::Key(up))), Produced::Nothing);
}

#[test]
fn failed_read_is_sent_as_error() {
    assert_eq!(on_wakeup(Wakeup::Input(Input::Failed)), Produced::Send(Event::Error));
}

#[test]
fn other_input_and_closed_device_send_nothing() {
    assert_eq!(on_wakeup(Wakeup::Input(Input::Other)), Produced::Nothing);
    assert_eq!(on_wakeup(Wakeup::Input(Input::Closed)), Produced::Nothing);
}

#[test]
fn stop_waits_then_aborts_then_gives_up() {
    assert_eq!(STOP_GRACE_MS, 50);
    assert_eq!(STOP_LIMIT_MS, 100);
    assert_eq!(stop_step(0), StopStep::Wait);
    assert_eq!(stop_step(1), StopStep::Wait);
    assert_eq!(stop_step(50), StopStep::Wait);
    assert_eq!(stop_step(51), StopStep::Abort);
    assert_eq!(stop_step(100), StopStep::Abort);
    assert_eq!(stop_step(101), StopStep::GiveUp);
    assert_eq!(stop_step(u32::MAX), StopStep::GiveUp);
}

#[test]
fn producer_sends_nothing_after_cancellation() {
    let wakeups = [
        Wakeup::Render,
        Wakeup::Input(Input::Key(key(KeyCode::Char('q'), KeyEventKind::Press))),
        Wakeup::Tick,
        Wakeup::Cancelled,
        Wakeup::Render,
        Wakeup::Tick,
    ];
    let mut sent: Vec<Event> = Vec::new();
    for w in wakeups.iter() {
        match on_wakeup(*w) {
            Produced::Stop => break,
            Produced::Send(e) => sent.push(e),
            Produced::Nothing => {}
        }
    }
    assert_eq!(
        sent,
        vec![
            Event::Render,
            Event::Key(key(KeyCode::Char('q'), KeyEventKind::Press)),
            Event::Tick
        ]
    );
}
