//! The button gesture classifier: one timing state machine per button.
//!
//! The machine says what to wait for; the caller waits and reports what ended
//! the wait. An edge and a timer may end a wait at the same moment: the edge
//! wins.

use vstd::prelude::*;

verus! {

/// A button held longer than this, in milliseconds, is a long press.
pub const LONG_PRESS_MS: u64 = 500;

/// After a release the button is left to settle for this long.
pub const SETTLE_MS: u64 = 50;

/// After settling, a second press is awaited for this long.
pub const DOUBLE_WAIT_MS: u64 = 250;

/// The double-click window: the time from a release in which a second press
/// makes a double press.
pub const DOUBLE_CLICK_WINDOW: u64 = 300;

/// After the release that ends a gesture, edges are ignored for this long.
pub const DEBOUNCE_MS: u64 = 200;

/// Type of button press made.
#[derive(Clone, Copy, Debug, PartialEq, Eq, Structural)]
pub enum ButtonPress {
    /// The button was released within 500ms and not pressed again in the
    /// double-click window.
    Short,
    /// The button was held for more than 500ms.
    Long,
    /// The button was released within 500ms and pressed again in the
    /// double-click window.
    Double,
}

/// Where a button's classifier stands.
#[derive(Clone, Copy, Debug, PartialEq, Eq, Structural)]
pub enum ButtonTimingState {
    /// Waiting for a press.
    Idle,
    /// The button is down; its release races a timer of 500ms.
    Timing,
    /// The button was released in time and settles.
    Settling,
    /// A second press races the rest of the double-click window.
    DoubleWindow,
    /// A press was reported; the button's release is awaited.
    Releasing,
    /// The button is up; the debounce delay runs.
    Debounce,
}

/// What the caller waits for.
#[derive(Clone, Copy, Debug, PartialEq, Eq, Structural)]
pub enum ButtonWait {
    /// Until the button is down.
    Press,
    /// Until the button is up.
    Release,
    /// Until the button is up, or `ms` milliseconds have passed.
    ReleaseOrTimeout { ms: u64 },
    /// Until the button is down, or `ms` milliseconds have passed.
    PressOrTimeout { ms: u64 },
    /// Until `ms` milliseconds have passed.
    Timeout { ms: u64 },
}

/// What ended a wait.
#[derive(Clone, Copy, Debug, PartialEq, Eq, Structural)]
pub enum ButtonEvent {
    /// The button is down.
    Pressed,
    /// The button is up.
    Released,
    /// The time has passed.
    TimedOut,
}

/// What the caller waits for in a state.
pub open spec fn wait_of(state: ButtonTimingState) -> ButtonWait {
    match state {
        ButtonTimingState::Idle => ButtonWait::Press,
        ButtonTimingState::Timing => ButtonWait::ReleaseOrTimeout { ms: LONG_PRESS_MS },
        ButtonTimingState::Settling => ButtonWait::Timeout { ms: SETTLE_MS },
        ButtonTimingState::DoubleWindow => ButtonWait::PressOrTimeout { ms: DOUBLE_WAIT_MS },
        ButtonTimingState::Releasing => ButtonWait::Release,
        ButtonTimingState::Debounce => ButtonWait::Timeout { ms: DEBOUNCE_MS },
    }
}

/// The state after an event. An event that the state does not wait for
/// changes nothing.
pub open spec fn state_after(state: ButtonTimingState, event: ButtonEvent) -> ButtonTimingState {
    match (state, event) {
        (ButtonTimingState::Idle, ButtonEvent::Pressed) => ButtonTimingState::Timing,
        (ButtonTimingState::Timing, ButtonEvent::Released) => ButtonTimingState::Settling,
        (ButtonTimingState::Timing, ButtonEvent::TimedOut) => ButtonTimingState::Releasing,
        (ButtonTimingState::Settling, ButtonEvent::TimedOut) => ButtonTimingState::DoubleWindow,
        (ButtonTimingState::DoubleWindow, ButtonEvent::Pressed) => ButtonTimingState::Releasing,
        (ButtonTimingState::DoubleWindow, ButtonEvent::TimedOut) => ButtonTimingState::Releasing,
        (ButtonTimingState::Releasing, ButtonEvent::Released) => ButtonTimingState::Debounce,
        (ButtonTimingState::Debounce, ButtonEvent::TimedOut) => ButtonTimingState::Idle,
        _ => state,
    }
}

/// The press that an event makes the classifier report, if any.
pub open spec fn press_emitted(state: ButtonTimingState, event: ButtonEvent) -> Option<
    ButtonPress,
> {
    match (state, event) {
        (ButtonTimingState::Timing, ButtonEvent::TimedOut) => Some(ButtonPress::Long),
        (ButtonTimingState::DoubleWindow, ButtonEvent::Pressed) => Some(ButtonPress::Double),
        (ButtonTimingState::DoubleWindow, ButtonEvent::TimedOut) => Some(ButtonPress::Short),
        _ => None,
    }
}

impl ButtonTimingState {
    /// A classifier that waits for a press.
    pub fn new() -> (state: ButtonTimingState)
        ensures
            state == ButtonTimingState::Idle,
    {
        ButtonTimingState::Idle
    }

    /// What to wait for now.
    pub fn wait(&self) -> (wait: ButtonWait)
        ensures
            wait == wait_of(*self),
    {
        match self {
            ButtonTimingState::Idle => ButtonWait::Press,
            ButtonTimingState::Timing => ButtonWait::ReleaseOrTimeout { ms: LONG_PRESS_MS },
            ButtonTimingState::Settling => ButtonWait::Timeout { ms: SETTLE_MS },
            ButtonTimingState::DoubleWindow => ButtonWait::PressOrTimeout { ms: DOUBLE_WAIT_MS },
            ButtonTimingState::Releasing => ButtonWait::Release,
            ButtonTimingState::Debounce => ButtonWait::Timeout { ms: DEBOUNCE_MS },
        }
    }

    /// Take in what ended the wait. Returns the press to report, if the
    /// gesture is decided.
    pub fn on_event(&mut self, event: ButtonEvent) -> (press: Option<ButtonPress>)
        ensures
            *final(self) == state_after(*old(self), event),
            press == press_emitted(*old(self), event),
    {
        match (*self, event) {
            (ButtonTimingState::Idle, ButtonEvent::Pressed) => {
                *self = ButtonTimingState::Timing;
                None
            },
            (ButtonTimingState::Timing, ButtonEvent::Released) => {
                *self = ButtonTimingState::Settling;
                None
            },
            (ButtonTimingState::Timing, ButtonEvent::TimedOut) => {
                *self = ButtonTimingState::Releasing;
                Some(ButtonPress::Long)
            },
            (ButtonTimingState::Settling, ButtonEvent::TimedOut) => {
                *self = ButtonTimingState::DoubleWindow;
                None
            },
            (ButtonTimingState::DoubleWindow, ButtonEvent::Pressed) => {
                *self = ButtonTimingState::Releasing;
                Some(ButtonPress::Double)
            },
            (ButtonTimingState::DoubleWindow, ButtonEvent::TimedOut) => {
                *self = ButtonTimingState::Releasing;
                Some(ButtonPress::Short)
            },
            (ButtonTimingState::Releasing, ButtonEvent::Released) => {
                *self = ButtonTimingState::Debounce;
                None
            },
            (ButtonTimingState::Debounce, ButtonEvent::TimedOut) => {
                *self = ButtonTimingState::Idle;
                None
            },
            _ => None,
        }
    }
}

/// How a wait ends, and after how many milliseconds, when the edge it waits
/// for comes `edge_after` milliseconds into it, or never. An edge that comes
/// no later than the timer wins the race. A wait for the button to be down
/// or up ends at once if it is so already: `edge_after` is then 0.
pub open spec fn wait_outcome(wait: ButtonWait, edge_after: Option<nat>) -> (ButtonEvent, nat) {
    match wait {
        ButtonWait::Press => (ButtonEvent::Pressed, edge_after.unwrap_or(0)),
        ButtonWait::Release => (ButtonEvent::Released, edge_after.unwrap_or(0)),
        ButtonWait::ReleaseOrTimeout { ms } => match edge_after {
            Some(t) if t <= ms => (ButtonEvent::Released, t),
            _ => (ButtonEvent::TimedOut, ms as nat),
        },
        ButtonWait::PressOrTimeout { ms } => match edge_after {
            Some(t) if t <= ms => (ButtonEvent::Pressed, t),
            _ => (ButtonEvent::TimedOut, ms as nat),
        },
        ButtonWait::Timeout { ms } => (ButtonEvent::TimedOut, ms as nat),
    }
}

/// A gesture on a simulated clock. The button goes down at time 0.
pub struct Gesture {
    /// When the button is released, if it is.
    pub released_at: Option<nat>,
    /// When the button goes down again: how long after its release.
    pub pressed_again_after: Option<nat>,
}

/// The press that the classifier reports for a gesture, and the time at which
/// it reports it: the machine is run from `Idle`, each wait ending as the
/// gesture has it.
pub open spec fn classified(g: Gesture) -> (ButtonPress, nat) {
    let timing = state_after(ButtonTimingState::Idle, ButtonEvent::Pressed);
    let (first, held) = wait_outcome(wait_of(timing), g.released_at);
    match press_emitted(timing, first) {
        Some(press) => (press, held),
        None => {
            let settling = state_after(timing, first);
            let (second, settled) = wait_outcome(wait_of(settling), None);
            let window = state_after(settling, second);
            let again = match g.pressed_again_after {
                Some(t) => Some(
                    if t <= settled {
                        0nat
                    } else {
                        (t - settled) as nat
                    },
                ),
                None => None,
            };
            let (third, waited) = wait_outcome(wait_of(window), again);
            match press_emitted(window, third) {
                Some(press) => (press, held + settled + waited),
                None => (ButtonPress::Short, held + settled + waited),
            }
        },
    }
}

/// A button held for more than 500ms is a long press, reported at 500ms,
/// whenever it is released.
pub proof fn lemma_long_press(g: Gesture)
    requires
        g.released_at matches Some(t) ==> t > LONG_PRESS_MS,
    ensures
        classified(g) == (ButtonPress::Long, LONG_PRESS_MS as nat),
{
}

/// A button released within 500ms and not pressed again in the double-click
/// window is a short press, reported when the window closes: 300ms after the
/// release.
pub proof fn lemma_short_press(g: Gesture)
    requires
        g.released_at matches Some(t) && t <= LONG_PRESS_MS,
        g.pressed_again_after matches Some(p) ==> p > DOUBLE_CLICK_WINDOW,
    ensures
        classified(g) == (ButtonPress::Short, (g.released_at->0 + DOUBLE_CLICK_WINDOW) as nat),
{
}

/// A button released within 500ms and pressed again in the double-click
/// window is a double press, reported at the second press, or when the
/// button has settled if it was pressed before that.
pub proof fn lemma_double_press(g: Gesture)
    requires
        g.released_at matches Some(t) && t <= LONG_PRESS_MS,
        g.pressed_again_after matches Some(p) && p <= DOUBLE_CLICK_WINDOW,
    ensures
        classified(g) == (
            ButtonPress::Double,
            (g.released_at->0 + if g.pressed_again_after->0 < SETTLE_MS {
                SETTLE_MS as nat
            } else {
                g.pressed_again_after->0
            }) as nat,
        ),
{
}

/// After a press is reported the classifier waits for the release, then for
/// the debounce delay of 200ms, and only then for the next press.
pub proof fn lemma_rearm_after_debounce(state: ButtonTimingState, event: ButtonEvent)
    requires
        press_emitted(state, event) is Some,
    ensures
        state_after(state, event) == ButtonTimingState::Releasing,
        wait_of(state_after(state, event)) == ButtonWait::Release,
        wait_of(state_after(ButtonTimingState::Releasing, ButtonEvent::Released))
            == (ButtonWait::Timeout { ms: DEBOUNCE_MS }),
        state_after(ButtonTimingState::Debounce, ButtonEvent::TimedOut) == ButtonTimingState::Idle,
{
}

} // verus!
