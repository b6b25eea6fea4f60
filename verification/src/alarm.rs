//! The alarm app: two alarms, each with a time and the days on which it
//! rings.

use vstd::prelude::*;
use crate::display::display_matrix::day_icon_name;
use crate::display::display_matrix::DisplayMatrix;
use crate::display::display_matrix::DisplayView;
use crate::display::display_matrix::TimeColon;
use crate::display::display_matrix::Weekday;
use crate::display::display_matrix::BLINK_END;
use crate::display::display_matrix::BLINK_START;
use crate::display::format::colon_text;
use crate::display::format::head_text;
use crate::display::format::pair_text;
use crate::display::format::tail_text;
use crate::display::request::text_request;
use crate::display::request::RequestView;
use crate::display::request::DISPLAY_OFFSET;
use crate::display::request::LAST_INDEX;

verus! {

/// How long the blink task shows the whole value, in milliseconds.
pub const BLINK_ON_MS: u64 = 750;

/// How long the blink task shows the value without the part being set, in
/// milliseconds.
pub const BLINK_OFF_MS: u64 = 350;

/// How long the word at the end is held, in milliseconds.
pub const DONE_HOLD_MS: u64 = 2000;

/// One of the two alarms.
#[derive(Clone, Copy, Debug, PartialEq, Eq, Structural)]
pub enum AlarmNumber {
    /// The first alarm.
    One,
    /// The second alarm.
    Two,
}

/// Each of the possible configurations, but with data so the blink task can
/// be displayed accurately.
#[derive(Clone, Copy, Debug, PartialEq, Eq, Structural)]
pub enum BlinkTask {
    /// Use to keep the blink task going but not set the display.
    Nothing,
    /// Blink the hour section of the display. (hour, minute)
    Hour(u32, u32),
    /// Blink the minute section of the display. (hour, minute)
    Minute(u32, u32),
    /// Blink the icon of a day.
    Day(Weekday),
}

/// The part of an alarm that is being set.
#[derive(Clone, Copy, Debug, PartialEq, Eq, Structural)]
pub enum ActiveConfig {
    /// The hour.
    Hour,
    /// The minute.
    Minute,
    /// Whether the alarm rings on a day.
    Day(Weekday),
}

/// The hour of an alarm.
#[derive(Clone, Copy, Debug, PartialEq, Eq, Structural)]
pub struct AlarmHour {
    /// The hour being configured.
    pub hour: u32,
    /// The hour set when starting configuration.
    pub starting_hour: u32,
}

/// The minute of an alarm.
#[derive(Clone, Copy, Debug, PartialEq, Eq, Structural)]
pub struct AlarmMinute {
    /// The minute being configured.
    pub minute: u32,
    /// The minute set when starting configuration.
    pub starting_minute: u32,
}

/// Whether an alarm rings on one day.
#[derive(Clone, Copy, Debug, PartialEq, Eq, Structural)]
pub struct AlarmDay {
    /// Whether the alarm rings.
    pub state: bool,
    /// The state set when starting configuration.
    pub starting_state: bool,
}

/// The place of a day in the week, Monday first.
pub open spec fn day_index(day: Weekday) -> int {
    match day {
        Weekday::Mon => 0,
        Weekday::Tue => 1,
        Weekday::Wed => 2,
        Weekday::Thu => 3,
        Weekday::Fri => 4,
        Weekday::Sat => 5,
        Weekday::Sun => 6,
    }
}

/// The day at a place in the week, Monday first.
pub open spec fn day_at(index: int) -> Weekday {
    if index == 0 {
        Weekday::Mon
    } else if index == 1 {
        Weekday::Tue
    } else if index == 2 {
        Weekday::Wed
    } else if index == 3 {
        Weekday::Thu
    } else if index == 4 {
        Weekday::Fri
    } else if index == 5 {
        Weekday::Sat
    } else {
        Weekday::Sun
    }
}

/// The part that is set after `part`; Sunday is the last.
pub open spec fn part_after(part: ActiveConfig) -> ActiveConfig {
    match part {
        ActiveConfig::Hour => ActiveConfig::Minute,
        ActiveConfig::Minute => ActiveConfig::Day(Weekday::Mon),
        ActiveConfig::Day(day) => if day == Weekday::Sun {
            part
        } else {
            ActiveConfig::Day(day_at(day_index(day) + 1))
        },
    }
}

/// The place of a day in the week, Monday first.
pub fn weekday_index(day: Weekday) -> (index: usize)
    ensures
        index == day_index(day),
        index < 7,
{
    match day {
        Weekday::Mon => 0,
        Weekday::Tue => 1,
        Weekday::Wed => 2,
        Weekday::Thu => 3,
        Weekday::Fri => 4,
        Weekday::Sat => 5,
        Weekday::Sun => 6,
    }
}

/// The day at a place in the week, Monday first.
pub fn weekday_at(index: usize) -> (day: Weekday)
    requires
        index < 7,
    ensures
        day == day_at(index as int),
        day_index(day) == index,
{
    if index == 0 {
        Weekday::Mon
    } else if index == 1 {
        Weekday::Tue
    } else if index == 2 {
        Weekday::Wed
    } else if index == 3 {
        Weekday::Thu
    } else if index == 4 {
        Weekday::Fri
    } else if index == 5 {
        Weekday::Sat
    } else {
        Weekday::Sun
    }
}

/// The name of a day's icon.
pub fn weekday_icon(day: Weekday) -> (name: &'static str)
    ensures
        name@ == day_icon_name(day),
{
    match day {
        Weekday::Mon => "Mon",
        Weekday::Tue => "Tue",
        Weekday::Wed => "Wed",
        Weekday::Thu => "Thur",
        Weekday::Fri => "Fri",
        Weekday::Sat => "Sat",
        Weekday::Sun => "Sun",
    }
}

/// A request for the whole viewport that does not scroll off.
pub open spec fn plain_request(text: Seq<char>, hold_end_ms: u64) -> RequestView {
    text_request(text, hold_end_ms, DISPLAY_OFFSET as int, LAST_INDEX as int, false)
}

/// How long a round of blinking lasts, in milliseconds: the part is hidden
/// for a shorter time than it is shown.
pub open spec fn blink_delay(hidden: bool) -> u64 {
    if hidden {
        BLINK_OFF_MS
    } else {
        BLINK_ON_MS
    }
}

/// The display after one round of blinking. In a round that shows, the whole
/// time is shown at once, or the day's icon is switched on. In a round that
/// hides, the time is queued without the part that is being set, or the
/// day's icon is switched off.
pub open spec fn blinked(v: DisplayView, task: BlinkTask, hidden: bool) -> DisplayView {
    match task {
        BlinkTask::Nothing => v,
        BlinkTask::Hour(hour, min) => if hidden {
            v.queued(
                text_request(
                    tail_text(seq![':'], min as nat),
                    BLINK_OFF_MS,
                    BLINK_START as int,
                    LAST_INDEX as int,
                    false,
                ),
                false,
            )
        } else {
            v.queued(
                plain_request(
                    pair_text(hour as nat, colon_text(TimeColon::Full), min as nat),
                    BLINK_ON_MS,
                ),
                true,
            )
        },
        BlinkTask::Minute(hour, min) => if hidden {
            v.queued(
                text_request(
                    head_text(min as nat, seq![':']),
                    BLINK_OFF_MS,
                    DISPLAY_OFFSET as int,
                    BLINK_END as int,
                    false,
                ),
                false,
            )
        } else {
            v.queued(
                plain_request(
                    pair_text(hour as nat, colon_text(TimeColon::Full), min as nat),
                    BLINK_ON_MS,
                ),
                true,
            )
        },
        BlinkTask::Day(day) => v.with_icon_named(day_icon_name(day), !hidden),
    }
}

/// One round of the blink task. `hidden` says whether this round hides the
/// part that is being set; the rounds take turns. Returns how long the task
/// waits before the next round, in milliseconds.
pub fn blink(display: &mut DisplayMatrix, task: BlinkTask, hidden: bool) -> (wait_ms: u64)
    requires
        old(display).wf(),
    ensures
        final(display).wf(),
        final(display)@ == blinked(old(display)@, task, hidden),
        wait_ms == blink_delay(hidden),
{
    let wait_delay = if hidden {
        BLINK_OFF_MS
    } else {
        BLINK_ON_MS
    };
    match task {
        BlinkTask::Nothing => {},
        BlinkTask::Hour(hour, min) => {
            if hidden {
                let _ = display.queue_time_left_side_blink(min, wait_delay, false);
            } else {
                let _ = display.queue_time(hour, min, TimeColon::Full, wait_delay, true, false);
            }
        },
        BlinkTask::Minute(hour, min) => {
            if hidden {
                let _ = display.queue_time_right_side_blink(min, wait_delay, false);
            } else {
                let _ = display.queue_time(hour, min, TimeColon::Full, wait_delay, true, false);
            }
        },
        BlinkTask::Day(day) => {
            if hidden {
                display.hide_icon(weekday_icon(day));
            } else {
                display.show_icon(weekday_icon(day));
            }
        },
    }
    wait_delay
}

impl AlarmHour {
    /// Whether the hour has changed since the configuration started.
    pub fn should_save(&self) -> (save: bool)
        ensures
            save == (self.hour != self.starting_hour),
    {
        self.hour != self.starting_hour
    }

    /// One hour on, from 23 to 0.
    pub fn button_two_press(&mut self)
        requires
            old(self).hour < u32::MAX,
        ensures
            final(self).hour == (if old(self).hour == 23 {
                0
            } else {
                old(self).hour + 1
            }),
            final(self).starting_hour == old(self).starting_hour,
    {
        if self.hour == 23 {
            self.hour = 0;
        } else {
            self.hour += 1;
        }
    }

    /// One hour back, from 0 to 23.
    pub fn button_three_press(&mut self)
        ensures
            final(self).hour == (if old(self).hour == 0 {
                23
            } else {
                old(self).hour - 1
            }),
            final(self).starting_hour == old(self).starting_hour,
    {
        if self.hour == 0 {
            self.hour = 23;
        } else {
            self.hour -= 1;
        }
    }
}

impl AlarmMinute {
    /// Whether the minute has changed since the configuration started.
    pub fn should_save(&self) -> (save: bool)
        ensures
            save == (self.minute != self.starting_minute),
    {
        self.minute != self.starting_minute
    }

    /// One minute on, from 59 to 0.
    pub fn button_two_press(&mut self)
        requires
            old(self).minute < u32::MAX,
        ensures
            final(self).minute == (if old(self).minute == 59 {
                0
            } else {
                old(self).minute + 1
            }),
            final(self).starting_minute == old(self).starting_minute,
    {
        if self.minute == 59 {
            self.minute = 0;
        } else {
            self.minute += 1;
        }
    }

    /// One minute back, from 0 to 59.
    pub fn button_three_press(&mut self)
        ensures
            final(self).minute == (if old(self).minute == 0 {
                59
            } else {
                old(self).minute - 1
            }),
            final(self).starting_minute == old(self).starting_minute,
    {
        if self.minute == 0 {
            self.minute = 59;
        } else {
            self.minute -= 1;
        }
    }
}

/// The text of a day's state.
pub open spec fn day_state_text(state: bool) -> Seq<char> {
    if state {
        seq!['O', 'N']
    } else {
        seq!['O', 'F', 'F']
    }
}

impl AlarmDay {
    /// Show at once whether the alarm rings on the day.
    pub fn display_state(&self, display: &mut DisplayMatrix)
        requires
            old(display).wf(),
        ensures
            final(display).wf(),
            final(display)@ == old(display)@.queued(
                plain_request(day_state_text(self.state), 0),
                true,
            ),
    {
        proof {
            reveal_strlit("ON");
            reveal_strlit("OFF");
        }
        let text = if self.state {
            "ON"
        } else {
            "OFF"
        };
        assert(text@ =~= day_state_text(self.state));
        let _ = display.queue_text(text, 0, true, false);
    }

    /// Whether the state has changed since the configuration started.
    pub fn should_save(&self) -> (save: bool)
        ensures
            save == (self.state != self.starting_state),
    {
        self.state != self.starting_state
    }

    /// Switch the day on or off.
    pub fn button_two_press(&mut self)
        ensures
            final(self).state == !old(self).state,
            final(self).starting_state == old(self).starting_state,
    {
        self.state = !self.state;
    }

    /// Switch the day on or off.
    pub fn button_three_press(&mut self)
        ensures
            final(self).state == !old(self).state,
            final(self).starting_state == old(self).starting_state,
    {
        self.state = !self.state;
    }
}

/// The configuration of one alarm.
#[derive(Clone, Copy, Debug, PartialEq, Eq)]
pub struct AlarmConfiguration {
    /// Which alarm this is.
    pub alarm_number: AlarmNumber,
    /// The hour.
    pub hour: AlarmHour,
    /// The minute.
    pub minute: AlarmMinute,
    /// The days, Monday first.
    pub days: [AlarmDay; 7],
    /// The part that is being set.
    pub active_config: ActiveConfig,
}

/// The display with the icons of the first `upto` days of the week set as
/// the alarm has them.
pub open spec fn day_icons_shown(v: DisplayView, days: Seq<AlarmDay>, upto: int) -> DisplayView
    decreases upto,
{
    if upto <= 0 {
        v
    } else {
        day_icons_shown(v, days, upto - 1).with_icon_named(
            day_icon_name(day_at(upto - 1)),
            days[upto - 1].state,
        )
    }
}

/// What blinks while a part of an alarm is set.
pub open spec fn task_of(config: AlarmConfiguration) -> BlinkTask {
    match config.active_config {
        ActiveConfig::Hour => BlinkTask::Hour(config.hour.hour, config.minute.minute),
        ActiveConfig::Minute => BlinkTask::Minute(config.hour.hour, config.minute.minute),
        ActiveConfig::Day(day) => BlinkTask::Day(day),
    }
}

/// The display after a part of an alarm was shown: for a day, the icons of
/// all days are set and the day's state is shown at once.
pub open spec fn part_shown(v: DisplayView, config: AlarmConfiguration) -> DisplayView {
    match config.active_config {
        ActiveConfig::Day(day) => day_icons_shown(v, config.days@, 7).queued(
            plain_request(day_state_text(config.days[day_index(day)].state), 0),
            true,
        ),
        _ => v,
    }
}

impl AlarmConfiguration {
    /// Create a new configuration: 00:00 on no day, the hour to be set
    /// first.
    pub fn new(num: AlarmNumber) -> (config: AlarmConfiguration)
        ensures
            config.alarm_number == num,
            config.hour == (AlarmHour { hour: 0, starting_hour: 0 }),
            config.minute == (AlarmMinute { minute: 0, starting_minute: 0 }),
            forall|i: int|
                0 <= i < 7 ==> #[trigger] config.days[i] == (AlarmDay {
                    state: false,
                    starting_state: false,
                }),
            config.active_config == ActiveConfig::Hour,
    {
        AlarmConfiguration {
            alarm_number: num,
            hour: AlarmHour { hour: 0, starting_hour: 0 },
            minute: AlarmMinute { minute: 0, starting_minute: 0 },
            days: [AlarmDay { state: false, starting_state: false };7],
            active_config: ActiveConfig::Hour,
        }
    }

    /// The name of the alarm.
    pub fn get_name(&self) -> (name: &'static str)
        ensures
            name@ == (match self.alarm_number {
                AlarmNumber::One => "One"@,
                AlarmNumber::Two => "Two"@,
            }),
    {
        match self.alarm_number {
            AlarmNumber::One => "One",
            AlarmNumber::Two => "Two",
        }
    }

    /// Set the icon of each day as the alarm has it.
    pub fn show_day_icons(&self, display: &mut DisplayMatrix)
        requires
            old(display).wf(),
        ensures
            final(display).wf(),
            final(display)@ == day_icons_shown(old(display)@, self.days@, 7),
    {
        let mut i: usize = 0;
        while i < 7
            invariant
                i <= 7,
                display.wf(),
                display@ == day_icons_shown(old(display)@, self.days@, i as int),
            decreases 7 - i,
        {
            let day = weekday_at(i);
            if self.days[i].state {
                display.show_icon(weekday_icon(day));
            } else {
                display.hide_icon(weekday_icon(day));
            }
            i += 1;
        }
    }

    /// Show the part that is being set. Returns what blinks.
    pub fn show(&self, display: &mut DisplayMatrix) -> (task: BlinkTask)
        requires
            old(display).wf(),
        ensures
            final(display).wf(),
            final(display)@ == part_shown(old(display)@, *self),
            task == task_of(*self),
    {
        match self.active_config {
            ActiveConfig::Hour => BlinkTask::Hour(self.hour.hour, self.minute.minute),
            ActiveConfig::Minute => BlinkTask::Minute(self.hour.hour, self.minute.minute),
            ActiveConfig::Day(day) => {
                self.show_day_icons(display);
                self.days[weekday_index(day)].display_state(display);
                BlinkTask::Day(day)
            },
        }
    }

    /// Start the configuration: show the part that is being set.
    pub fn start(&mut self, display: &mut DisplayMatrix) -> (task: BlinkTask)
        requires
            old(display).wf(),
        ensures
            final(display).wf(),
            *final(self) == *old(self),
            final(display)@ == part_shown(old(display)@, *old(self)),
            task == task_of(*old(self)),
    {
        self.show(display)
    }

    /// Handle the top button: go on to the next part and show it. After
    /// Sunday nothing blinks any more, the icons of the days are set, and
    /// "Done" is shown.
    pub fn button_one_short_press(&mut self, display: &mut DisplayMatrix) -> (task: BlinkTask)
        requires
            old(display).wf(),
        ensures
            final(display).wf(),
            *final(self) == (AlarmConfiguration {
                active_config: part_after(old(self).active_config),
                ..*old(self)
            }),
            old(self).active_config == ActiveConfig::Day(Weekday::Sun) ==> {
                &&& task == BlinkTask::Nothing
                &&& final(display)@ == day_icons_shown(old(display)@, old(self).days@, 7).queued(
                    plain_request(seq!['D', 'o', 'n', 'e'], DONE_HOLD_MS),
                    true,
                )
            },
            old(self).active_config != ActiveConfig::Day(Weekday::Sun) ==> {
                &&& task == task_of(*final(self))
                &&& final(display)@ == part_shown(old(display)@, *final(self))
            },
    {
        match self.active_config {
            ActiveConfig::Hour => {
                self.active_config = ActiveConfig::Minute;
            },
            ActiveConfig::Minute => {
                self.active_config = ActiveConfig::Day(Weekday::Mon);
            },
            ActiveConfig::Day(day) => {
                let index = weekday_index(day);
                if index == 6 {
                    proof {
                        reveal_strlit("Done");
                    }
                    assert("Done"@ =~= seq!['D', 'o', 'n', 'e']);
                    self.show_day_icons(display);
                    let _ = display.queue_text("Done", DONE_HOLD_MS, true, false);
                    return BlinkTask::Nothing;
                }
                self.active_config = ActiveConfig::Day(weekday_at(index + 1));
            },
        }
        self.show(display)
    }

    /// Handle the middle button: the part that is being set goes one step
    /// up, or the day is switched, and the part is shown.
    pub fn button_two_press(&mut self, display: &mut DisplayMatrix) -> (task: BlinkTask)
        requires
            old(display).wf(),
            old(self).active_config == ActiveConfig::Hour ==> old(self).hour.hour < u32::MAX,
            old(self).active_config == ActiveConfig::Minute ==> old(self).minute.minute
                < u32::MAX,
        ensures
            final(display).wf(),
            final(self).alarm_number == old(self).alarm_number,
            final(self).active_config == old(self).active_config,
            match old(self).active_config {
                ActiveConfig::Hour => {
                    &&& final(self).hour == (AlarmHour {
                        hour: if old(self).hour.hour == 23 {
                            0
                        } else {
                            (old(self).hour.hour + 1) as u32
                        },
                        ..old(self).hour
                    })
                    &&& final(self).minute == old(self).minute
                    &&& final(self).days == old(self).days
                },
                ActiveConfig::Minute => {
                    &&& final(self).minute == (AlarmMinute {
                        minute: if old(self).minute.minute == 59 {
                            0
                        } else {
                            (old(self).minute.minute + 1) as u32
                        },
                        ..old(self).minute
                    })
                    &&& final(self).hour == old(self).hour
                    &&& final(self).days == old(self).days
                },
                ActiveConfig::Day(day) => {
                    &&& final(self).days@ == old(self).days@.update(
                        day_index(day),
                        AlarmDay {
                            state: !old(self).days[day_index(day)].state,
                            ..old(self).days[day_index(day)]
                        },
                    )
                    &&& final(self).hour == old(self).hour
                    &&& final(self).minute == old(self).minute
                },
            },
            final(display)@ == part_shown(old(display)@, *final(self)),
            task == task_of(*final(self)),
    {
        match self.active_config {
            ActiveConfig::Hour => self.hour.button_two_press(),
            ActiveConfig::Minute => self.minute.button_two_press(),
            ActiveConfig::Day(day) => {
                let index = weekday_index(day);
                let mut switched = self.days[index];
                switched.button_two_press();
                self.days[index] = switched;
            },
        }
        self.show(display)
    }

    /// Handle the bottom button: the part that is being set goes one step
    /// down, or the day is switched, and the part is shown.
    pub fn button_three_press(&mut self, display: &mut DisplayMatrix) -> (task: BlinkTask)
        requires
            old(display).wf(),
        ensures
            final(display).wf(),
            final(self).alarm_number == old(self).alarm_number,
            final(self).active_config == old(self).active_config,
            match old(self).active_config {
                ActiveConfig::Hour => {
                    &&& final(self).hour == (AlarmHour {
                        hour: if old(self).hour.hour == 0 {
                            23
                        } else {
                            (old(self).hour.hour - 1) as u32
                        },
                        ..old(self).hour
                    })
                    &&& final(self).minute == old(self).minute
                    &&& final(self).days == old(self).days
                },
                ActiveConfig::Minute => {
                    &&& final(self).minute == (AlarmMinute {
                        minute: if old(self).minute.minute == 0 {
                            59
                        } else {
                            (old(self).minute.minute - 1) as u32
                        },
                        ..old(self).minute
                    })
                    &&& final(self).hour == old(self).hour
                    &&& final(self).days == old(self).days
                },
                ActiveConfig::Day(day) => {
                    &&& final(self).days@ == old(self).days@.update(
                        day_index(day),
                        AlarmDay {
                            state: !old(self).days[day_index(day)].state,
                            ..old(self).days[day_index(day)]
                        },
                    )
                    &&& final(self).hour == old(self).hour
                    &&& final(self).minute == old(self).minute
                },
            },
            final(display)@ == part_shown(old(display)@, *final(self)),
            task == task_of(*final(self)),
    {
        match self.active_config {
            ActiveConfig::Hour => self.hour.button_three_press(),
            ActiveConfig::Minute => self.minute.button_three_press(),
            ActiveConfig::Day(day) => {
                let index = weekday_index(day);
                let mut switched = self.days[index];
                switched.button_three_press();
                self.days[index] = switched;
            },
        }
        self.show(display)
    }
}

/// Alarm app.
/// Used for configuring alarms.
#[derive(Clone, Copy, Debug, PartialEq, Eq)]
pub struct AlarmApp {
    /// The first alarm.
    pub alarm_one: AlarmConfiguration,
    /// The second alarm.
    pub alarm_two: AlarmConfiguration,
    /// The alarm that is shown or set.
    pub active_alarm: AlarmNumber,
    /// Whether an alarm is being picked, not set.
    pub in_menu: bool,
}

/// What the caller does after a button press in the alarm app.
#[derive(Clone, Copy, Debug, PartialEq, Eq, Structural)]
pub struct AlarmStep {
    /// Whether the blink task is to be started.
    pub spawn_blink: bool,
    /// What the blink task shows from now on, if that has changed.
    pub task: Option<BlinkTask>,
}

/// The other alarm.
pub open spec fn other_alarm(number: AlarmNumber) -> AlarmNumber {
    match number {
        AlarmNumber::One => AlarmNumber::Two,
        AlarmNumber::Two => AlarmNumber::One,
    }
}

/// The name of an alarm.
pub open spec fn alarm_name(number: AlarmNumber) -> Seq<char> {
    match number {
        AlarmNumber::One => "One"@,
        AlarmNumber::Two => "Two"@,
    }
}

impl AlarmApp {
    /// The alarm that is shown or set.
    pub open spec fn active(&self) -> AlarmConfiguration {
        match self.active_alarm {
            AlarmNumber::One => self.alarm_one,
            AlarmNumber::Two => self.alarm_two,
        }
    }

    /// The two alarms carry their own numbers.
    pub open spec fn wf(&self) -> bool {
        self.alarm_one.alarm_number == AlarmNumber::One && self.alarm_two.alarm_number
            == AlarmNumber::Two
    }

    /// Create a new alarm app: the first alarm is shown in the menu.
    pub fn new() -> (app: AlarmApp)
        ensures
            app.wf(),
            app.active_alarm == AlarmNumber::One,
            app.in_menu,
            app.alarm_one.active_config == ActiveConfig::Hour,
            app.alarm_two.active_config == ActiveConfig::Hour,
    {
        AlarmApp {
            alarm_one: AlarmConfiguration::new(AlarmNumber::One),
            alarm_two: AlarmConfiguration::new(AlarmNumber::Two),
            active_alarm: AlarmNumber::One,
            in_menu: true,
        }
    }

    /// The name of the app.
    pub fn get_name(&self) -> (name: &'static str)
        ensures
            name@ == "Alarms"@,
    {
        "Alarms"
    }

    /// Show the name of the active alarm at once.
    pub fn show(&self, display: &mut DisplayMatrix)
        requires
            old(display).wf(),
            self.wf(),
        ensures
            final(display).wf(),
            final(display)@ == old(display)@.queued(
                plain_request(alarm_name(self.active_alarm), 0),
                true,
            ),
    {
        match self.active_alarm {
            AlarmNumber::One => {
                let _ = display.queue_text(self.alarm_one.get_name(), 0, true, false);
            },
            AlarmNumber::Two => {
                let _ = display.queue_text(self.alarm_two.get_name(), 0, true, false);
            },
        }
    }

    /// Start the app: show the name of the active alarm.
    pub fn start(&mut self, display: &mut DisplayMatrix)
        requires
            old(display).wf(),
            old(self).wf(),
        ensures
            final(display).wf(),
            *final(self) == *old(self),
            final(display)@ == old(display)@.queued(
                plain_request(alarm_name(old(self).active_alarm), 0),
                true,
            ),
    {
        self.show(display);
    }

    /// Handle the top button. In the menu the active alarm is entered: its
    /// configuration starts and the blink task is to be started. Else the
    /// press goes to the alarm being set.
    pub fn button_one_short_press(&mut self, display: &mut DisplayMatrix) -> (step: AlarmStep)
        requires
            old(display).wf(),
            old(self).wf(),
        ensures
            final(display).wf(),
            final(self).wf(),
            final(self).active_alarm == old(self).active_alarm,
            !final(self).in_menu,
            step.spawn_blink == old(self).in_menu,
            old(self).in_menu ==> {
                &&& final(self).alarm_one == old(self).alarm_one
                &&& final(self).alarm_two == old(self).alarm_two
                &&& step.task == Some(task_of(old(self).active()))
                &&& final(display)@ == part_shown(old(display)@, old(self).active())
            },
            !old(self).in_menu ==> {
                &&& final(self).active() == (AlarmConfiguration {
                    active_config: part_after(old(self).active().active_config),
                    ..old(self).active()
                })
                &&& old(self).active_alarm == AlarmNumber::One ==> final(self).alarm_two == old(
                    self,
                ).alarm_two
                &&& old(self).active_alarm == AlarmNumber::Two ==> final(self).alarm_one == old(
                    self,
                ).alarm_one
                &&& old(self).active().active_config == ActiveConfig::Day(Weekday::Sun) ==> {
                    &&& step.task == Some(BlinkTask::Nothing)
                    &&& final(display)@ == day_icons_shown(
                        old(display)@,
                        old(self).active().days@,
                        7,
                    ).queued(plain_request(seq!['D', 'o', 'n', 'e'], DONE_HOLD_MS), true)
                }
                &&& old(self).active().active_config != ActiveConfig::Day(Weekday::Sun) ==> {
                    &&& step.task == Some(task_of(final(self).active()))
                    &&& final(display)@ == part_shown(old(display)@, final(self).active())
                }
            },
    {
        if self.in_menu {
            self.in_menu = false;
            let task = match self.active_alarm {
                AlarmNumber::One => self.alarm_one.start(display),
                AlarmNumber::Two => self.alarm_two.start(display),
            };
            AlarmStep { spawn_blink: true, task: Some(task) }
        } else {
            let task = match self.active_alarm {
                AlarmNumber::One => self.alarm_one.button_one_short_press(display),
                AlarmNumber::Two => self.alarm_two.button_one_short_press(display),
            };
            AlarmStep { spawn_blink: false, task: Some(task) }
        }
    }

    /// Handle the middle button. In the menu the other alarm becomes the
    /// active one and its name is shown. Else the press goes to the alarm
    /// being set.
    pub fn button_two_press(&mut self, display: &mut DisplayMatrix) -> (step: AlarmStep)
        requires
            old(display).wf(),
            old(self).wf(),
            !old(self).in_menu && old(self).active().active_config == ActiveConfig::Hour ==> old(
                self,
            ).active().hour.hour < u32::MAX,
            !old(self).in_menu && old(self).active().active_config == ActiveConfig::Minute
                ==> old(self).active().minute.minute < u32::MAX,
        ensures
            final(display).wf(),
            final(self).wf(),
            final(self).in_menu == old(self).in_menu,
            !step.spawn_blink,
            old(self).in_menu ==> {
                &&& *final(self) == (AlarmApp {
                    active_alarm: other_alarm(old(self).active_alarm),
                    ..*old(self)
                })
                &&& step.task is None
                &&& final(display)@ == old(display)@.queued(
                    plain_request(alarm_name(other_alarm(old(self).active_alarm)), 0),
                    true,
                )
            },
            !old(self).in_menu ==> {
                &&& final(self).active_alarm == old(self).active_alarm
                &&& step.task == Some(task_of(final(self).active()))
                &&& final(display)@ == part_shown(old(display)@, final(self).active())
            },
    {
        if self.in_menu {
            match self.active_alarm {
                AlarmNumber::One => self.active_alarm = AlarmNumber::Two,
                AlarmNumber::Two => self.active_alarm = AlarmNumber::One,
            }
            self.show(display);
            AlarmStep { spawn_blink: false, task: None }
        } else {
            let task = match self.active_alarm {
                AlarmNumber::One => self.alarm_one.button_two_press(display),
                AlarmNumber::Two => self.alarm_two.button_two_press(display),
            };
            AlarmStep { spawn_blink: false, task: Some(task) }
        }
    }

    /// Handle the bottom button. In the menu the other alarm becomes the
    /// active one and its name is shown. Else the press goes to the alarm
    /// being set.
    pub fn button_three_press(&mut self, display: &mut DisplayMatrix) -> (step: AlarmStep)
        requires
            old(display).wf(),
            old(self).wf(),
        ensures
            final(display).wf(),
            final(self).wf(),
            final(self).in_menu == old(self).in_menu,
            !step.spawn_blink,
            old(self).in_menu ==> {
                &&& *final(self) == (AlarmApp {
                    active_alarm: other_alarm(old(self).active_alarm),
                    ..*old(self)
                })
                &&& step.task is None
                &&& final(display)@ == old(display)@.queued(
                    plain_request(alarm_name(other_alarm(old(self).active_alarm)), 0),
                    true,
                )
            },
            !old(self).in_menu ==> {
                &&& final(self).active_alarm == old(self).active_alarm
                &&& step.task == Some(task_of(final(self).active()))
                &&& final(display)@ == part_shown(old(display)@, final(self).active())
            },
    {
        if self.in_menu {
            match self.active_alarm {
                AlarmNumber::One => self.active_alarm = AlarmNumber::Two,
                AlarmNumber::Two => self.active_alarm = AlarmNumber::One,
            }
            self.show(display);
            AlarmStep { spawn_blink: false, task: None }
        } else {
            let task = match self.active_alarm {
                AlarmNumber::One => self.alarm_one.button_three_press(display),
                AlarmNumber::Two => self.alarm_two.button_three_press(display),
            };
            AlarmStep { spawn_blink: false, task: Some(task) }
        }
    }
}

} // verus!
