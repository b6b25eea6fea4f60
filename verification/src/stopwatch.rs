//! The stopwatch app: it counts up to 59:59.

use vstd::prelude::*;
use crate::buttons::ButtonPress;
use crate::display::display_matrix::DisplayMatrix;
use crate::display::display_matrix::DisplayView;
use crate::display::display_matrix::TimeColon;
use crate::display::format::colon_text;
use crate::display::format::pair_text;
use crate::display::matrix::dark;
use crate::display::request::text_request;
use crate::display::request::DISPLAY_OFFSET;
use crate::display::request::LAST_INDEX;
use crate::speaker::SoundType;

verus! {

/// How long the stopwatch task sleeps while the stopwatch is paused, in
/// milliseconds.
pub const PAUSED_POLL_MS: u64 = 100;

/// Depict the current running state of the stopwatch timer.
#[derive(Clone, Copy, Debug, PartialEq, Eq, Structural)]
pub enum RunningState {
    /// When the stopwatch app is first created or after reset.
    NotStarted,
    /// When the stopwatch is running.
    Running,
    /// When the stopwatch has been paused.
    Paused,
    /// When the stopwatch has finished (reached 59:59). Reset it to use it
    /// again.
    Finished,
}

/// Manage active state of the stopwatch app.
#[derive(Clone, Copy, Debug, PartialEq, Eq, Structural)]
pub struct StopwatchState {
    /// The current running state.
    pub running: RunningState,
    /// The number of minutes counted.
    pub minutes: u32,
    /// The number of seconds counted.
    pub seconds: u32,
}

/// Stopwatch app.
/// Allows for setting starting a stopwatch upto 60 minutes.
#[derive(Clone, Copy, Debug, PartialEq, Eq, Structural)]
pub struct StopwatchApp {
    /// The stopwatch.
    pub state: StopwatchState,
}

/// What the stopwatch task does next.
#[derive(Clone, Copy, Debug, PartialEq, Eq, Structural)]
pub enum StopwatchStep {
    /// The task ends.
    Stop,
    /// The task ends and the speaker sounds: the stopwatch has finished.
    Finish(SoundType),
    /// Wait a second, or for the app to stop, then go on.
    WaitSecond,
    /// Sleep for the time given, in milliseconds, then go on.
    Sleep(u64),
}

/// The state a stopwatch starts in.
pub open spec fn fresh() -> StopwatchState {
    StopwatchState { running: RunningState::NotStarted, minutes: 0, seconds: 0 }
}

/// The display after the stopwatch's time was queued to be shown at once.
pub open spec fn time_shown(v: DisplayView, state: StopwatchState) -> DisplayView {
    v.queued(
        text_request(
            pair_text(state.minutes as nat, colon_text(TimeColon::Full), state.seconds as nat),
            0,
            DISPLAY_OFFSET as int,
            LAST_INDEX as int,
            false,
        ),
        true,
    )
}

/// The display with the count-up icon on while the stopwatch runs, else off.
pub open spec fn running_shown(v: DisplayView, running: RunningState) -> DisplayView {
    v.with_icon_named("CountUp"@, running == RunningState::Running)
}

/// The sound of a change of the running state: three long beeps when the
/// stopwatch has finished.
pub open spec fn running_sound(running: RunningState) -> Option<SoundType> {
    if running == RunningState::Finished {
        Some(SoundType::RepeartLongBeep(3))
    } else {
        None
    }
}

/// The time one second on, counted up.
pub open spec fn counted_up(state: StopwatchState) -> StopwatchState {
    if state.seconds == 59 {
        StopwatchState { minutes: (state.minutes + 1) as u32, seconds: 0, ..state }
    } else {
        StopwatchState { seconds: (state.seconds + 1) as u32, ..state }
    }
}

/// The time with one second taken back when a running stopwatch is paused:
/// at second 59 a minute is taken off and the seconds go to 0, else one
/// second is taken off.
pub open spec fn second_taken_back(state: StopwatchState) -> StopwatchState {
    if state.seconds == 59 {
        StopwatchState { minutes: (state.minutes - 1) as u32, seconds: 0, ..state }
    } else {
        StopwatchState { seconds: (state.seconds - 1) as u32, ..state }
    }
}

/// Whether a second can be taken back: there is a minute to take off at
/// second 59, and a second to take off else.
pub open spec fn can_take_back(state: StopwatchState) -> bool {
    if state.seconds == 59 {
        state.minutes >= 1
    } else {
        state.seconds >= 1
    }
}

/// The time after a press of the middle or the bottom button: a long press
/// sets 00:00.
pub open spec fn cleared_by(state: StopwatchState, press: ButtonPress) -> StopwatchState {
    match press {
        ButtonPress::Long => StopwatchState { minutes: 0, seconds: 0, ..state },
        _ => state,
    }
}

impl StopwatchState {
    /// Create a new stopwatch state with the set defaults.
    pub fn new() -> (state: StopwatchState)
        ensures
            state == fresh(),
    {
        StopwatchState { running: RunningState::NotStarted, minutes: 0, seconds: 0 }
    }

    /// Reset the stopwatch state to the defaults it initialises with.
    pub fn reset(&mut self)
        ensures
            *final(self) == fresh(),
    {
        self.minutes = 0;
        self.seconds = 0;
        self.running = RunningState::NotStarted;
    }
}

impl StopwatchApp {
    /// Create a new stopwatch app.
    pub fn new() -> (app: StopwatchApp)
        ensures
            app.state == fresh(),
    {
        StopwatchApp { state: StopwatchState::new() }
    }

    /// The name of the app.
    pub fn get_name(&self) -> (name: &'static str)
        ensures
            name@ == "Stopwatch"@,
    {
        "Stopwatch"
    }

    /// Set the running state, with the count-up icon on while the stopwatch
    /// runs. Returns the sound to make, if any.
    pub fn set_running(&mut self, display: &mut DisplayMatrix, running: RunningState) -> (sound:
        Option<SoundType>)
        requires
            old(display).wf(),
        ensures
            final(display).wf(),
            final(self).state == (StopwatchState { running, ..old(self).state }),
            final(display)@ == running_shown(old(display)@, running),
            sound == running_sound(running),
    {
        self.state.running = running;
        match running {
            RunningState::Running => display.show_icon("CountUp"),
            _ => display.hide_icon("CountUp"),
        }
        match running {
            RunningState::Finished => Some(SoundType::RepeartLongBeep(3)),
            _ => None,
        }
    }

    /// Show the time of the stopwatch at once.
    pub fn show_time(&self, display: &mut DisplayMatrix)
        requires
            old(display).wf(),
        ensures
            final(display).wf(),
            final(display)@ == time_shown(old(display)@, self.state),
    {
        let _ = display.queue_time(
            self.state.minutes,
            self.state.seconds,
            TimeColon::Full,
            0,
            true,
            false,
        );
    }

    /// Start the app: the display is cleared, a finished stopwatch is reset,
    /// and the time is shown. Returns whether the stopwatch task is to be
    /// started: it is for a paused stopwatch.
    pub fn start(&mut self, display: &mut DisplayMatrix) -> (spawn: bool)
        requires
            old(display).wf(),
        ensures
            final(display).wf(),
            final(self).state == (if old(self).state.running == RunningState::Finished {
                fresh()
            } else {
                old(self).state
            }),
            final(display)@ == time_shown(
                DisplayView { pixels: dark(), ..old(display)@.cancelled() },
                final(self).state,
            ),
            spawn == (old(self).state.running == RunningState::Paused),
    {
        display.clear_all(true);
        let spawn = match self.state.running {
            RunningState::NotStarted => false,
            RunningState::Running => false,
            RunningState::Paused => true,
            RunningState::Finished => {
                self.state.reset();
                false
            },
        };
        self.show_time(display);
        spawn
    }

    /// Stop the app: a running stopwatch is paused.
    pub fn stop(&mut self, display: &mut DisplayMatrix)
        requires
            old(display).wf(),
        ensures
            final(display).wf(),
            old(self).state.running == RunningState::Running ==> {
                &&& final(self).state == (StopwatchState {
                    running: RunningState::Paused,
                    ..old(self).state
                })
                &&& final(display)@ == running_shown(old(display)@, RunningState::Paused)
            },
            old(self).state.running != RunningState::Running ==> final(self).state == old(
                self,
            ).state && final(display)@ == old(display)@,
    {
        match self.state.running {
            RunningState::Running => {
                let _ = self.set_running(display, RunningState::Paused);
            },
            _ => {},
        }
    }

    /// Handle the top button: start the stopwatch, pause it, go on with it,
    /// or reset it once it has finished. Returns whether the stopwatch task
    /// is to be started.
    pub fn button_one_short_press(&mut self, display: &mut DisplayMatrix) -> (spawn: bool)
        requires
            old(display).wf(),
            old(self).state.running == RunningState::Running ==> can_take_back(old(self).state),
        ensures
            final(display).wf(),
            spawn == (old(self).state.running == RunningState::NotStarted),
            old(self).state.running == RunningState::NotStarted ==> {
                &&& final(self).state == (StopwatchState {
                    running: RunningState::Running,
                    ..old(self).state
                })
                &&& final(display)@ == running_shown(old(display)@, RunningState::Running)
            },
            old(self).state.running == RunningState::Running ==> {
                &&& final(self).state == (StopwatchState {
                    running: RunningState::Paused,
                    ..second_taken_back(old(self).state)
                })
                &&& final(display)@ == running_shown(
                    time_shown(old(display)@, second_taken_back(old(self).state)),
                    RunningState::Paused,
                )
            },
            old(self).state.running == RunningState::Paused ==> {
                &&& final(self).state == (StopwatchState {
                    running: RunningState::Running,
                    ..old(self).state
                })
                &&& final(display)@ == running_shown(old(display)@, RunningState::Running)
            },
            old(self).state.running == RunningState::Finished ==> {
                &&& final(self).state == fresh()
                &&& final(display)@ == time_shown(old(display)@, fresh())
            },
    {
        match self.state.running {
            RunningState::NotStarted => {
                let _ = self.set_running(display, RunningState::Running);
                true
            },
            RunningState::Running => {
                if self.state.seconds == 59 {
                    self.state.minutes -= 1;
                    self.state.seconds = 0;
                } else {
                    self.state.seconds -= 1;
                }
                self.show_time(display);
                let _ = self.set_running(display, RunningState::Paused);
                false
            },
            RunningState::Paused => {
                let _ = self.set_running(display, RunningState::Running);
                false
            },
            RunningState::Finished => {
                self.state.reset();
                self.show_time(display);
                false
            },
        }
    }

    /// Handle the middle button: unless the stopwatch runs, a long press
    /// sets 00:00, and the time is shown.
    pub fn button_two_press(&mut self, press: ButtonPress, display: &mut DisplayMatrix)
        requires
            old(display).wf(),
        ensures
            final(display).wf(),
            old(self).state.running == RunningState::Running ==> final(self).state == old(
                self,
            ).state && final(display)@ == old(display)@,
            old(self).state.running != RunningState::Running ==> final(self).state == cleared_by(
                old(self).state,
                press,
            ) && final(display)@ == time_shown(old(display)@, final(self).state),
    {
        match self.state.running {
            RunningState::Running => {
                return ;
            },
            _ => {},
        }
        match press {
            ButtonPress::Long => {
                self.state.minutes = 0;
                self.state.seconds = 0;
            },
            ButtonPress::Short => {},
            ButtonPress::Double => {},
        }
        self.show_time(display);
    }

    /// Handle the bottom button: as the middle button.
    pub fn button_three_press(&mut self, press: ButtonPress, display: &mut DisplayMatrix)
        requires
            old(display).wf(),
        ensures
            final(display).wf(),
            old(self).state.running == RunningState::Running ==> final(self).state == old(
                self,
            ).state && final(display)@ == old(display)@,
            old(self).state.running != RunningState::Running ==> final(self).state == cleared_by(
                old(self).state,
                press,
            ) && final(display)@ == time_shown(old(display)@, final(self).state),
    {
        self.button_two_press(press, display);
    }

    /// One round of the stopwatch task. A running stopwatch shows its time
    /// and counts one second up; at 59:59 it finishes. A paused one only
    /// sleeps. One that has not started, or has finished, ends the task.
    pub fn stopwatch(&mut self, display: &mut DisplayMatrix) -> (step: StopwatchStep)
        requires
            old(display).wf(),
            old(self).state.running == RunningState::Running ==> old(self).state.minutes
                < u32::MAX && old(self).state.seconds < u32::MAX,
        ensures
            final(display).wf(),
            old(self).state.running == RunningState::NotStarted || old(self).state.running
                == RunningState::Finished ==> {
                &&& step == StopwatchStep::Stop
                &&& final(self).state == old(self).state
                &&& final(display)@ == old(display)@
            },
            old(self).state.running == RunningState::Paused ==> {
                &&& step == StopwatchStep::Sleep(PAUSED_POLL_MS)
                &&& final(self).state == old(self).state
                &&& final(display)@ == old(display)@
            },
            old(self).state.running == RunningState::Running && old(self).state.minutes == 59
                && old(self).state.seconds == 59 ==> {
                &&& step == StopwatchStep::Finish(SoundType::RepeartLongBeep(3))
                &&& final(self).state == (StopwatchState {
                    running: RunningState::Finished,
                    ..old(self).state
                })
                &&& final(display)@ == running_shown(
                    time_shown(old(display)@, old(self).state),
                    RunningState::Finished,
                )
            },
            old(self).state.running == RunningState::Running && !(old(self).state.minutes == 59
                && old(self).state.seconds == 59) ==> {
                &&& step == StopwatchStep::WaitSecond
                &&& final(self).state == counted_up(old(self).state)
                &&& final(display)@ == time_shown(old(display)@, old(self).state)
            },
    {
        match self.state.running {
            RunningState::NotStarted => StopwatchStep::Stop,
            RunningState::Running => {
                self.show_time(display);
                if self.state.seconds == 59 {
                    if self.state.minutes == 59 {
                        let _ = self.set_running(display, RunningState::Finished);
                        return StopwatchStep::Finish(SoundType::RepeartLongBeep(3));
                    }
                    self.state.minutes += 1;
                    self.state.seconds = 0;
                } else {
                    self.state.seconds += 1;
                }
                StopwatchStep::WaitSecond
            },
            RunningState::Paused => StopwatchStep::Sleep(PAUSED_POLL_MS),
            RunningState::Finished => StopwatchStep::Stop,
        }
    }
}

/// A stopwatch that runs from a time with seconds below 60 counts one
/// second with each round, and keeps its seconds below 60.
pub proof fn lemma_stopwatch_progress(state: StopwatchState)
    requires
        state.seconds < 60,
        state.minutes < u32::MAX,
    ensures
        counted_up(state).minutes * 60 + counted_up(state).seconds == state.minutes * 60
            + state.seconds + 1,
        counted_up(state).seconds < 60,
{
}

} // verus!
