//! The decisions of the terminal event source: which event, if any, each
//! wake-up of its producer yields, when the producer ends, and how long a
//! stop waits for it.

use vstd::prelude::*;

verus! {

/// The key of a key event, as far as the key map tells keys apart.
#[derive(Debug, Clone, Copy, PartialEq, Eq, Structural)]
pub enum KeyCode {
    /// A character key.
    Char(char),
    /// The up arrow.
    Up,
    /// The down arrow.
    Down,
    /// The enter key.
    Enter,
    /// Any other key.
    Other,
}

/// Whether a key went down, is held, or came up.
#[derive(Debug, Clone, Copy, PartialEq, Eq, Structural)]
pub enum KeyEventKind {
    Press,
    Repeat,
    Release,
}

/// One report of the keyboard.
#[derive(Debug, Clone, Copy, PartialEq, Eq, Structural)]
pub struct KeyEvent {
    pub code: KeyCode,
    pub kind: KeyEventKind,
}

/// What the event source hands to the main loop.
#[derive(Debug, Clone, Copy, PartialEq, Eq, Structural)]
pub enum Event {
    /// The application is to end.
    Quit,
    /// Reading the input device failed.
    Error,
    /// The bookkeeping timer fired.
    Tick,
    /// The display is due to be drawn.
    Render,
    /// A key was pressed.
    Key(KeyEvent),
}

/// What one read of the input device brought.
#[derive(Debug, Clone, Copy, PartialEq, Eq, Structural)]
pub enum Input {
    /// A report of the keyboard.
    Key(KeyEvent),
    /// Something else: the mouse, a resize, the focus.
    Other,
    /// The read failed.
    Failed,
    /// The device has no more to give.
    Closed,
}

/// What woke the producer: the first of its four sources to be ready.
#[derive(Debug, Clone, Copy, PartialEq, Eq, Structural)]
pub enum Wakeup {
    /// The producer was asked to end.
    Cancelled,
    /// The input device was read.
    Input(Input),
    /// The bookkeeping timer fired.
    Tick,
    /// The drawing timer fired.
    Render,
}

/// What the producer does on a wake-up.
#[derive(Debug, Clone, Copy, PartialEq, Eq, Structural)]
pub enum Produced {
    /// End, sending nothing.
    Stop,
    /// Send this event and go on.
    Send(Event),
    /// Send nothing and go on.
    Nothing,
}

/// What a stop does after each millisecond of waiting for the producer.
#[derive(Debug, Clone, Copy, PartialEq, Eq, Structural)]
pub enum StopStep {
    /// Wait on.
    Wait,
    /// End the producer by force, and wait on.
    Abort,
    /// End the producer by force, and fail: it does not end.
    GiveUp,
}

/// The milliseconds that a stop waits before it ends the producer by force.
pub const STOP_GRACE_MS: u32 = 50;

/// The milliseconds after which a stop gives the producer up.
pub const STOP_LIMIT_MS: u32 = 100;

/// The event that a wake-up yields. A cancellation ends the producer and
/// nothing else does. Of the keyboard only presses pass. A failed read is
/// passed on as an error, and each timer as its own event.
pub open spec fn produced(w: Wakeup) -> Produced {
    match w {
        Wakeup::Cancelled => Produced::Stop,
        Wakeup::Input(Input::Key(key)) => if key.kind == KeyEventKind::Press {
            Produced::Send(Event::Key(key))
        } else {
            Produced::Nothing
        },
        Wakeup::Input(Input::Failed) => Produced::Send(Event::Error),
        Wakeup::Input(_) => Produced::Nothing,
        Wakeup::Tick => Produced::Send(Event::Tick),
        Wakeup::Render => Produced::Send(Event::Render),
    }
}

/// The events that the producer sends over a run of wake-ups, in order: it
/// handles one wake-up after the other until one ends it.
pub open spec fn emitted(ws: Seq<Wakeup>) -> Seq<Event>
    decreases ws.len(),
{
    if ws.len() == 0 {
        Seq::empty()
    } else {
        match produced(ws[0]) {
            Produced::Stop => Seq::empty(),
            Produced::Send(e) => seq![e] + emitted(ws.drop_first()),
            Produced::Nothing => emitted(ws.drop_first()),
        }
    }
}

/// What a stop does once it has waited `waited` milliseconds and the
/// producer still runs.
pub open spec fn stop_decision(waited: int) -> StopStep {
    if waited > STOP_LIMIT_MS {
        StopStep::GiveUp
    } else if waited > STOP_GRACE_MS {
        StopStep::Abort
    } else {
        StopStep::Wait
    }
}

/// Decides what the producer does on a wake-up.
pub fn on_wakeup(w: Wakeup) -> (p: Produced)
    ensures
        p == produced(w),
{
    match w {
        Wakeup::Cancelled => Produced::Stop,
        Wakeup::Tick => Produced::Send(Event::Tick),
        Wakeup::Render => Produced::Send(Event::Render),
        Wakeup::Input(input) => match input {
            Input::Key(key) => match key.kind {
                KeyEventKind::Press => Produced::Send(Event::Key(key)),
                _ => Produced::Nothing,
            },
            Input::Failed => Produced::Send(Event::Error),
            _ => Produced::Nothing,
        },
    }
}

/// Decides what a stop does after `waited` milliseconds of waiting for a
/// producer that still runs.
pub fn stop_step(waited: u32) -> (s: StopStep)
    ensures
        s == stop_decision(waited as int),
{
    if waited > STOP_LIMIT_MS {
        StopStep::GiveUp
    } else if waited > STOP_GRACE_MS {
        StopStep::Abort
    } else {
        StopStep::Wait
    }
}

/// The producer ends on a cancellation and on nothing else: no failure of
/// the input device and no timer ends it.
pub proof fn lemma_only_cancellation_stops(w: Wakeup)
    ensures
        produced(w) is Stop <==> w is Cancelled,
{
}

/// A key event is sent only for a key that went down, and then unchanged.
pub proof fn lemma_only_presses_pass(w: Wakeup, key: KeyEvent)
    ensures
        produced(w) == Produced::Send(Event::Key(key)) <==> w == Wakeup::Input(Input::Key(key))
            && key.kind == KeyEventKind::Press,
{
}

/// The producer never sends the event that ends the application.
pub proof fn lemma_producer_never_quits(w: Wakeup)
    ensures
        produced(w) != Produced::Send(Event::Quit),
{
}

/// At most one event is sent per wake-up, and none from a cancellation on:
/// whatever wakes the producer after it was asked to end, what it has sent
/// is what it had sent before.
pub proof fn lemma_nothing_after_cancellation(before: Seq<Wakeup>, after: Seq<Wakeup>)
    ensures
        emitted(before.push(Wakeup::Cancelled) + after) == emitted(before),
        emitted(before).len() <= before.len(),
    decreases before.len(),
{
    let all = before.push(Wakeup::Cancelled) + after;
    if before.len() == 0 {
        assert(all[0] == Wakeup::Cancelled);
    } else {
        assert(all[0] == before[0]);
        assert(all.drop_first() =~= before.drop_first().push(Wakeup::Cancelled) + after);
        lemma_nothing_after_cancellation(before.drop_first(), after);
    }
}

/// A stop waits through the grace period, then ends the producer by force,
/// and gives up once the limit has passed; the grace period ends before
/// the limit.
pub proof fn lemma_stop_is_bounded(waited: int)
    ensures
        stop_decision(waited) is Wait <==> waited <= STOP_GRACE_MS,
        stop_decision(waited) is Abort <==> STOP_GRACE_MS < waited <= STOP_LIMIT_MS,
        stop_decision(waited) is GiveUp <==> waited > STOP_LIMIT_MS,
        STOP_GRACE_MS < STOP_LIMIT_MS,
{
}

} // verus!
