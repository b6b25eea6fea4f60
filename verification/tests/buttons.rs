use pico_clock_green::buttons::ButtonEvent;
use pico_clock_green::buttons::ButtonPress;
use pico_clock_green::buttons::ButtonTimingState;
use pico_clock_green::buttons::ButtonWait;

/// A button on a simulated clock: the times, in milliseconds, at which its
/// level changes. It is up at time 0 and goes down at the first time.
struct Simulated {
    edges: Vec<u64>,
    now: u64,
}

impl Simulated {
    fn is_down(&self, at: u64) -> bool {
        self.edges.iter().filter(|&&t| t <= at).count() % 2 == 1
    }

    /// The first time from now on at which the button is down (or up).
    fn next_level(&self, down: bool) -> Option<u64> {
        if self.is_down(self.now) == down {
            return Some(self.now);
        }
        self.edges.iter().copied().find(|&t| t > self.now)
    }

    /// Wait as the classifier asks and say what ended the wait.
    fn wait(&mut self, wait: ButtonWait) -> Option<ButtonEvent> {
        let (level, timeout, event) = match wait {
            ButtonWait::Press => (Some(true), None, ButtonEvent::Pressed),
            ButtonWait::Release => (Some(false), None, ButtonEvent::Released),
            ButtonWait::ReleaseOrTimeout { ms } => (Some(false), Some(ms), ButtonEvent::Released),
            ButtonWait::PressOrTimeout { ms } => (Some(true), Some(ms), ButtonEvent::Pressed),
            ButtonWait::Timeout { ms } => (None, Some(ms), ButtonEvent::TimedOut),
        };
        let edge = level.and_then(|down| self.next_level(down));
        let deadline = timeout.map(|ms| self.now + ms);
        match (edge, deadline) {
            (Some(t), Some(d)) if t <= d => {
                self.now = t;
                Some(event)
            }
            (_, Some(d)) => {
                self.now = d;
                Some(ButtonEvent::TimedOut)
            }
            (Some(t), None) => {
                self.now = t;
                Some(event)
            }
            (None, None) => None,
        }
    }
}

/// Run a classifier over the edges; returns each press with its time.
fn classify(edges: &[u64]) -> Vec<(ButtonPress, u64)> {
    let mut button = Simulated { edges: edges.to_vec(), now: 0 };
    let mut state = ButtonTimingState::new();
    let mut presses = Vec::new();
    for _ in 0..100 {
        let event = match button.wait(state.wait()) {
            Some(event) => event,
            None => break,
        };
        if let Some(press) = state.on_event(event) {
            presses.push((press, button.now));
        }
    }
    presses
}

#[test]
fn short_press_is_reported_when_the_window_closes() {
    assert_eq!(classify(&[0, 100]), vec![(ButtonPress::Short, 400)]);
    assert_eq!(classify(&[1000, 1001]), vec![(ButtonPress::Short, 1301)]);
}

#[test]
fn long_press_is_reported_at_500ms_whenever_it_ends() {
    assert_eq!(classify(&[0, 501]), vec![(ButtonPress::Long, 500)]);
    assert_eq!(classify(&[0, 900]), vec![(ButtonPress::Long, 500)]);
    assert_eq!(classify(&[0, 60_000]), vec![(ButtonPress::Long, 500)]);
    assert_eq!(classify(&[0]), vec![(ButtonPress::Long, 500)]);
}

#[test]
fn double_press_is_reported_at_the_second_press() {
    assert_eq!(classify(&[0, 100, 300, 350]), vec![(ButtonPress::Double, 300)]);
    assert_eq!(classify(&[0, 100, 400, 450]), vec![(ButtonPress::Double, 400)]);
    // pressed again while the button settles: seen when it has settled
    assert_eq!(classify(&[0, 100, 120, 200]), vec![(ButtonPress::Double, 150)]);
}

#[test]
fn release_at_500ms_is_still_short_and_the_window_ends_at_300ms() {
    assert_eq!(classify(&[0, 500]), vec![(ButtonPress::Short, 800)]);
    // a press one millisecond after the window makes no double press: it
    // falls into the debounce time and is not seen at all
    assert_eq!(classify(&[0, 100, 401, 450]), vec![(ButtonPress::Short, 400)]);
    // held beyond the debounce time it is a press of its own
    assert_eq!(
        classify(&[0, 100, 401, 650]),
        vec![(ButtonPress::Short, 400), (ButtonPress::Short, 950)]
    );
}

#[test]
fn the_classifier_rearms_after_release_and_debounce() {
    // a long press released at 700: debounce until 900, the next press at
    // 1000 is a short one
    assert_eq!(
        classify(&[0, 700, 1000, 1100]),
        vec![(ButtonPress::Long, 500), (ButtonPress::Short, 1400)]
    );
    // a bounce inside the debounce time is not a press
    assert_eq!(classify(&[0, 700, 750, 760]), vec![(ButtonPress::Long, 500)]);
}

#[test]
fn the_machine_says_what_to_wait_for() {
    let mut state = ButtonTimingState::new();
    assert_eq!(state, ButtonTimingState::Idle);
    assert_eq!(state.wait(), ButtonWait::Press);
    assert_eq!(state.on_event(ButtonEvent::Pressed), None);
    assert_eq!(state.wait(), ButtonWait::ReleaseOrTimeout { ms: 500 });
    assert_eq!(state.on_event(ButtonEvent::Released), None);
    assert_eq!(state.wait(), ButtonWait::Timeout { ms: 50 });
    assert_eq!(state.on_event(ButtonEvent::TimedOut), None);
    assert_eq!(state.wait(), ButtonWait::PressOrTimeout { ms: 250 });
    assert_eq!(state.on_event(ButtonEvent::Pressed), Some(ButtonPress::Double));
    assert_eq!(state.wait(), ButtonWait::Release);
    assert_eq!(state.on_event(ButtonEvent::Released), None);
    assert_eq!(state.wait(), ButtonWait::Timeout { ms: 200 });
    assert_eq!(state.on_event(ButtonEvent::TimedOut), None);
    assert_eq!(state, ButtonTimingState::Idle);
}

#[test]
fn an_event_that_is_not_awaited_changes_nothing() {
    for start in [
        ButtonTimingState::Idle,
        ButtonTimingState::Settling,
        ButtonTimingState::Releasing,
        ButtonTimingState::Debounce,
    ] {
        for event in [ButtonEvent::Pressed, ButtonEvent::Released, ButtonEvent::TimedOut] {
            let awaited = matches!(
                (start, event),
                (ButtonTimingState::Idle, ButtonEvent::Pressed)
                    | (ButtonTimingState::Settling, ButtonEvent::TimedOut)
                    | (ButtonTimingState::Releasing, ButtonEvent::Released)
                    | (ButtonTimingState::Debounce, ButtonEvent::TimedOut)
            );
            let mut state = start;
            assert_eq!(state.on_event(event), None);
            assert_eq!(state == start, !awaited);
        }
    }
}
