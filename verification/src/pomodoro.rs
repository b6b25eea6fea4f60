//! The pomodoro app: a countdown of up to 60 minutes.

use vstd::prelude::*;
use crate::buttons::ButtonPress;
use crate::display::display_matrix::DisplayMatrix;
use crate::display::display_matrix::DisplayView;
use crate::display::display_matrix::TimeColon;
use crate::display::format::colon_text;
use crate::display::format::pair_text;
use crate::display::matrix::dark;
use crate::display::request::text_request;
use crate::display::request::DISPLAY_OFFSET;
use crate::display::request::LAST_INDEX;
use crate::speaker::SoundType;

verus! {

/// The minutes a countdown starts from unless they are changed.
pub const DEFAULT_MINUTES: u32 = 30;

/// The most minutes a countdown can be set to.
pub const MAX_MINUTES: u32 = 60;

/// How long the countdown task sleeps while the countdown is paused, in
/// milliseconds.
pub const PAUSED_POLL_MS: u64 = 100;

/// Depict the current running state of the pomodoro timer.
#[derive(Clone, Copy, Debug, PartialEq, Eq, Structural)]
pub enum RunningState {
    /// When the pomodoro app is first created or after reset. This should
    /// allow modification to the timer.
    NotStarted,
    /// When the countdown is running. This should *not* allow modification
    /// to the timer.
    Running,
    /// When the countdown has been paused. This should allow modification to
    /// the timer.
    Paused,
    /// When the countdown has finished (reached 00:00). This should *not*
    /// allow modification to the timer, reset instead.
    Finished,
}

/// Manage active state of the pomodoro app.
#[derive(Clone, Copy, Debug, PartialEq, Eq, Structural)]
pub struct PomoState {
    /// The current running state.
    pub running: RunningState,
    /// The number of minutes to countdown from.
    pub minutes: u32,
    /// The number of seconds. Used for display purposes and should not be
    /// set during configuration.
    pub seconds: u32,
}

/// Pomodoro app.
/// Allows for setting a time up to 60 minutes and counting down to 0 seconds.
#[derive(Clone, Copy, Debug, PartialEq, Eq, Structural)]
pub struct PomodoroApp {
    /// The countdown.
    pub state: PomoState,
}

/// What the countdown task does next.
#[derive(Clone, Copy, Debug, PartialEq, Eq, Structural)]
pub enum CountdownStep {
    /// The task ends.
    Stop,
    /// The task ends and the speaker sounds: the countdown has finished.
    Finish(SoundType),
    /// Wait a second, or for the app to stop, then go on.
    WaitSecond,
    /// Sleep for the time given, in milliseconds, then go on.
    Sleep(u64),
}

/// The state a countdown starts in.
pub open spec fn fresh() -> PomoState {
    PomoState { running: RunningState::NotStarted, minutes: DEFAULT_MINUTES, seconds: 0 }
}

/// The display after the countdown's time was queued to be shown at once.
pub open spec fn time_shown(v: DisplayView, state: PomoState) -> DisplayView {
    v.queued(
        text_request(
            pair_text(state.minutes as nat, colon_text(TimeColon::Full), state.seconds as nat),
            0,
            DISPLAY_OFFSET as int,
            LAST_INDEX as int,
            false,
        ),
        true,
    )
}

/// The display with the countdown icon on while the countdown runs, else
/// off.
pub open spec fn running_shown(v: DisplayView, running: RunningState) -> DisplayView {
    v.with_icon_named("CountDown"@, running == RunningState::Running)
}

/// The sound of a change of the running state: three long beeps when the
/// countdown has finished.
pub open spec fn running_sound(running: RunningState) -> Option<SoundType> {
    if running == RunningState::Finished {
        Some(SoundType::RepeartLongBeep(3))
    } else {
        None
    }
}

/// The time one second on, counted down.
pub open spec fn counted_down(state: PomoState) -> PomoState {
    if state.seconds == 0 {
        PomoState { minutes: (state.minutes - 1) as u32, seconds: 59, ..state }
    } else {
        PomoState { seconds: (state.seconds - 1) as u32, ..state }
    }
}

/// The time with the second given back that is lost when a running
/// countdown is paused.
pub open spec fn second_given_back(state: PomoState) -> PomoState {
    if state.seconds == 59 {
        PomoState { minutes: (state.minutes + 1) as u32, seconds: 0, ..state }
    } else {
        PomoState { seconds: (state.seconds + 1) as u32, ..state }
    }
}

/// The time after a press of the middle button: a long press sets 30:00, a
/// short press adds a minute and goes from 60 to 1.
pub open spec fn minute_added(state: PomoState, press: ButtonPress) -> PomoState {
    match press {
        ButtonPress::Long => PomoState { minutes: DEFAULT_MINUTES, seconds: 0, ..state },
        ButtonPress::Short => PomoState {
            minutes: if state.minutes == MAX_MINUTES {
                1
            } else {
                (state.minutes + 1) as u32
            },
            ..state
        },
        ButtonPress::Double => state,
    }
}

/// The time after a press of the bottom button: a long press sets 30:00, a
/// short press takes a minute off and goes from 1 to 60.
pub open spec fn minute_taken(state: PomoState, press: ButtonPress) -> PomoState {
    match press {
        ButtonPress::Long => PomoState { minutes: DEFAULT_MINUTES, seconds: 0, ..state },
        ButtonPress::Short => PomoState {
            minutes: if state.minutes == 1 {
                MAX_MINUTES
            } else {
                (state.minutes - 1) as u32
            },
            ..state
        },
        ButtonPress::Double => state,
    }
}

impl PomoState {
    /// Create a new pomodoro state with the set defaults.
    pub fn new() -> (state: PomoState)
        ensures
            state == fresh(),
    {
        PomoState { running: RunningState::NotStarted, minutes: DEFAULT_MINUTES, seconds: 0 }
    }

    /// Reset the pomodoro state to the defaults it initialises with.
    pub fn reset(&mut self)
        ensures
            *final(self) == fresh(),
    {
        self.minutes = DEFAULT_MINUTES;
        self.seconds = 0;
        self.running = RunningState::NotStarted;
    }
}

impl PomodoroApp {
    /// Create a new pomodoro app.
    pub fn new() -> (app: PomodoroApp)
        ensures
            app.state == fresh(),
    {
        PomodoroApp { state: PomoState::new() }
    }

    /// The name of the app.
    pub fn get_name(&self) -> (name: &'static str)
        ensures
            name@ == "Pomodoro"@,
    {
        "Pomodoro"
    }

    /// Set the running state, with the countdown icon on while the countdown
    /// runs. Returns the sound to make, if any.
    pub fn set_running(&mut self, display: &mut DisplayMatrix, running: RunningState) -> (sound:
        Option<SoundType>)
        requires
            old(display).wf(),
        ensures
            final(display).wf(),
            final(self).state == (PomoState { running, ..old(self).state }),
            final(display)@ == running_shown(old(display)@, running),
            sound == running_sound(running),
    {
        self.state.running = running;
        match running {
            RunningState::Running => display.show_icon("CountDown"),
            _ => display.hide_icon("CountDown"),
        }
        match running {
            RunningState::Finished => Some(SoundType::RepeartLongBeep(3)),
            _ => None,
        }
    }

    /// Show the time of the countdown at once.
    pub fn show_time(&self, display: &mut DisplayMatrix)
        requires
            old(display).wf(),
        ensures
            final(display).wf(),
            final(display)@ == time_shown(old(display)@, self.state),
    {
        let _ = display.queue_time(
            self.state.minutes,
            self.state.seconds,
            TimeColon::Full,
            0,
            true,
            false,
        );
    }

    /// Start the app: the display is cleared, a finished countdown is reset,
    /// and the time is shown. Returns whether the countdown task is to be
    /// started: it is for a paused countdown.
    pub fn start(&mut self, display: &mut DisplayMatrix) -> (spawn: bool)
        requires
            old(display).wf(),
        ensures
            final(display).wf(),
            final(self).state == (if old(self).state.running == RunningState::Finished {
                fresh()
            } else {
                old(self).state
            }),
            final(display)@ == time_shown(
                DisplayView { pixels: dark(), ..old(display)@.cancelled() },
                final(self).state,
            ),
            spawn == (old(self).state.running == RunningState::Paused),
    {
        display.clear_all(true);
        let spawn = match self.state.running {
            RunningState::NotStarted => false,
            RunningState::Running => false,
            RunningState::Paused => true,
            RunningState::Finished => {
                self.state.reset();
                false
            },
        };
        self.show_time(display);
        spawn
    }

    /// Stop the app: a running countdown is paused.
    pub fn stop(&mut self, display: &mut DisplayMatrix)
        requires
            old(display).wf(),
        ensures
            final(display).wf(),
            old(self).state.running == RunningState::Running ==> final(self).state == (PomoState {
                running: RunningState::Paused,
                ..old(self).state
            }) && final(display)@ == running_shown(old(display)@, RunningState::Paused),
            old(self).state.running != RunningState::Running ==> final(self).state == old(
                self,
            ).state && final(display)@ == old(display)@,
    {
        match self.state.running {
            RunningState::Running => {
                let _ = self.set_running(display, RunningState::Paused);
            },
            _ => {},
        }
    }

    /// Handle the top button: start the countdown, pause it, go on with it,
    /// or reset it once it has finished. Returns whether the countdown task
    /// is to be started.
    pub fn button_one_short_press(&mut self, display: &mut DisplayMatrix) -> (spawn: bool)
        requires
            old(display).wf(),
            old(self).state.running == RunningState::Running ==> old(self).state.minutes
                < u32::MAX && old(self).state.seconds < 60,
        ensures
            final(display).wf(),
            spawn == (old(self).state.running == RunningState::NotStarted),
            old(self).state.running == RunningState::NotStarted ==> {
                &&& final(self).state == (PomoState {
                    running: RunningState::Running,
                    ..old(self).state
                })
                &&& final(display)@ == running_shown(old(display)@, RunningState::Running)
            },
            old(self).state.running == RunningState::Running ==> {
                &&& final(self).state == (PomoState {
                    running: RunningState::Paused,
                    ..second_given_back(old(self).state)
                })
                &&& final(display)@ == running_shown(
                    time_shown(old(display)@, second_given_back(old(self).state)),
                    RunningState::Paused,
                )
            },
            old(self).state.running == RunningState::Paused ==> {
                &&& final(self).state == (PomoState {
                    running: RunningState::Running,
                    ..old(self).state
                })
                &&& final(display)@ == running_shown(old(display)@, RunningState::Running)
            },
            old(self).state.running == RunningState::Finished ==> {
                &&& final(self).state == fresh()
                &&& final(display)@ == time_shown(old(display)@, fresh())
            },
    {
        match self.state.running {
            RunningState::NotStarted => {
                let _ = self.set_running(display, RunningState::Running);
                true
            },
            RunningState::Running => {
                if self.state.seconds == 59 {
                    self.state.minutes += 1;
                    self.state.seconds = 0;
                } else {
                    self.state.seconds += 1;
                }
                self.show_time(display);
                let _ = self.set_running(display, RunningState::Paused);
                false
            },
            RunningState::Paused => {
                let _ = self.set_running(display, RunningState::Running);
                false
            },
            RunningState::Finished => {
                self.state.reset();
                self.show_time(display);
                false
            },
        }
    }

    /// Handle the middle button: unless the countdown runs, a short press
    /// adds a minute, a long press sets 30:00, and the time is shown.
    pub fn button_two_press(&mut self, press: ButtonPress, display: &mut DisplayMatrix)
        requires
            old(display).wf(),
            old(self).state.running != RunningState::Running && press == ButtonPress::Short
                ==> old(self).state.minutes < u32::MAX,
        ensures
            final(display).wf(),
            old(self).state.running == RunningState::Running ==> final(self).state == old(
                self,
            ).state && final(display)@ == old(display)@,
            old(self).state.running != RunningState::Running ==> final(self).state
                == minute_added(old(self).state, press) && final(display)@ == time_shown(
                old(display)@,
                final(self).state,
            ),
    {
        match self.state.running {
            RunningState::Running => {
                return ;
            },
            _ => {},
        }
        match press {
            ButtonPress::Long => {
                self.state.minutes = DEFAULT_MINUTES;
                self.state.seconds = 0;
            },
            ButtonPress::Short => {
                if self.state.minutes == MAX_MINUTES {
                    self.state.minutes = 1;
                } else {
                    self.state.minutes += 1;
                }
            },
            ButtonPress::Double => {},
        }
        self.show_time(display);
    }

    /// Handle the bottom button: unless the countdown runs, a short press
    /// takes a minute off, a long press sets 30:00, and the time is shown.
    pub fn button_three_press(&mut self, press: ButtonPress, display: &mut DisplayMatrix)
        requires
            old(display).wf(),
            old(self).state.running != RunningState::Running && press == ButtonPress::Short
                ==> old(self).state.minutes >= 1,
        ensures
            final(display).wf(),
            old(self).state.running == RunningState::Running ==> final(self).state == old(
                self,
            ).state && final(display)@ == old(display)@,
            old(self).state.running != RunningState::Running ==> final(self).state
                == minute_taken(old(self).state, press) && final(display)@ == time_shown(
                old(display)@,
                final(self).state,
            ),
    {
        match self.state.running {
            RunningState::Running => {
                return ;
            },
            _ => {},
        }
        match press {
            ButtonPress::Long => {
                self.state.minutes = DEFAULT_MINUTES;
                self.state.seconds = 0;
            },
            ButtonPress::Short => {
                if self.state.minutes == 1 {
                    self.state.minutes = MAX_MINUTES;
                } else {
                    self.state.minutes -= 1;
                }
            },
            ButtonPress::Double => {},
        }
        self.show_time(display);
    }

    /// One round of the countdown task. A running countdown shows its time
    /// and counts one second down; at 00:00 it finishes. A paused one only
    /// sleeps. One that has not started, or has finished, ends the task.
    pub fn countdown(&mut self, display: &mut DisplayMatrix) -> (step: CountdownStep)
        requires
            old(display).wf(),
        ensures
            final(display).wf(),
            old(self).state.running == RunningState::NotStarted || old(self).state.running
                == RunningState::Finished ==> {
                &&& step == CountdownStep::Stop
                &&& final(self).state == old(self).state
                &&& final(display)@ == old(display)@
            },
            old(self).state.running == RunningState::Paused ==> {
                &&& step == CountdownStep::Sleep(PAUSED_POLL_MS)
                &&& final(self).state == old(self).state
                &&& final(display)@ == old(display)@
            },
            old(self).state.running == RunningState::Running && old(self).state.minutes == 0
                && old(self).state.seconds == 0 ==> {
                &&& step == CountdownStep::Finish(SoundType::RepeartLongBeep(3))
                &&& final(self).state == (PomoState {
                    running: RunningState::Finished,
                    ..old(self).state
                })
                &&& final(display)@ == running_shown(
                    time_shown(old(display)@, old(self).state),
                    RunningState::Finished,
                )
            },
            old(self).state.running == RunningState::Running && !(old(self).state.minutes == 0
                && old(self).state.seconds == 0) ==> {
                &&& step == CountdownStep::WaitSecond
                &&& final(self).state == counted_down(old(self).state)
                &&& final(display)@ == time_shown(old(display)@, old(self).state)
            },
    {
        match self.state.running {
            RunningState::NotStarted => CountdownStep::Stop,
            RunningState::Running => {
                self.show_time(display);
                if self.state.seconds == 0 {
                    if self.state.minutes == 0 {
                        let _ = self.set_running(display, RunningState::Finished);
                        return CountdownStep::Finish(SoundType::RepeartLongBeep(3));
                    }
                    self.state.minutes -= 1;
                    self.state.seconds = 59;
                } else {
                    self.state.seconds -= 1;
                }
                CountdownStep::WaitSecond
            },
            RunningState::Paused => CountdownStep::Sleep(PAUSED_POLL_MS),
            RunningState::Finished => CountdownStep::Stop,
        }
    }
}

/// A countdown that runs from a time with seconds below 60 reaches 00:00:
/// each round takes one second off the time that is left.
pub proof fn lemma_countdown_progress(state: PomoState)
    requires
        state.seconds < 60,
        !(state.minutes == 0 && state.seconds == 0),
    ensures
        counted_down(state).minutes * 60 + counted_down(state).seconds == state.minutes * 60
            + state.seconds - 1,
        counted_down(state).seconds < 60,
{
}

} // verus!
