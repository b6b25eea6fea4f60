//! The settings app: the clock's time and date and three preferences are
//! set one after the other.

use vstd::prelude::*;
use crate::config::ConfigOptions;
use crate::config::TimeColonPreference;
use crate::display::display_matrix::DisplayMatrix;
use crate::display::display_matrix::DisplayView;
use crate::display::display_matrix::TimeColon;
use crate::display::display_matrix::BLINK_END;
use crate::display::display_matrix::BLINK_START;
use crate::display::format::colon_text;
use crate::display::format::head_text;
use crate::display::format::pair_text;
use crate::display::format::tail_text;
use crate::display::format::year_text;
use crate::display::matrix::dark;
use crate::display::request::text_request;
use crate::display::request::RequestView;
use crate::display::request::DISPLAY_OFFSET;
use crate::display::request::LAST_INDEX;
use crate::rtc::leap_year;
use crate::rtc::max_day;
use crate::rtc::DateTime;

verus! {

/// How long the whole value is shown in a round of blinking, in
/// milliseconds.
pub const BLINK_ON_MS: u64 = 750;

/// How long the value is shown without the part being set, in milliseconds.
pub const BLINK_OFF_MS: u64 = 350;

/// How long a round of blinking takes, in milliseconds.
pub const BLINK_ROUND_MS: u64 = 1100;

/// How long a preference is held on the display, in milliseconds.
pub const PREFERENCE_HOLD_MS: u64 = 1000;

/// How long the word at the end is held, in milliseconds.
pub const DONE_HOLD_MS: u64 = 2000;

/// The first year that can be set.
pub const FIRST_YEAR: i32 = 2000;

/// The last year that can be set.
pub const LAST_YEAR: i32 = 2100;

/// Each of the possible configurations to run through in the settings app.
#[derive(Clone, Copy, Debug, PartialEq, Eq, Structural)]
pub enum SettingsConfig {
    /// Modify the hour in the RTC.
    Hour,
    /// Modify the minute in the RTC.
    Minute,
    /// Modify the year in the RTC.
    Year,
    /// Modify the month in the RTC.
    Month,
    /// Modify the day in the RTC.
    Day,
    /// Modify the hourly ring setting.
    HourlyRing,
    /// Modify the time colon setting.
    TimeColon,
    /// Modify the auto scrolling of temperature setting.
    AutoScrollTemp,
}

/// Each of the possible configurations, but with data so the blink task can
/// be displayed accurately.
#[derive(Clone, Copy, Debug, PartialEq, Eq, Structural)]
pub enum BlinkTask {
    /// Use to keep the blink task going but not set the display.
    Nothing,
    /// Blink the hour section of the display. (hour, minute)
    Hour(u32, u32),
    /// Blink the minute section of the display. (hour, minute)
    Minute(u32, u32),
    /// Blink the full year in the display.
    Year(i32),
    /// Blink the month section of the display. (month, day)
    Month(u32, u32),
    /// Blink the day section of the display. (month, day)
    Day(u32, u32),
}

/// A request for the whole viewport that does not scroll off.
pub open spec fn plain_request(text: Seq<char>, hold_end_ms: u64) -> RequestView {
    text_request(text, hold_end_ms, DISPLAY_OFFSET as int, LAST_INDEX as int, false)
}

/// The display after one round of blinking: the whole value is shown at once
/// and held, then the value without the part that is being set.
pub open spec fn blinked(v: DisplayView, task: BlinkTask) -> DisplayView {
    match task {
        BlinkTask::Nothing => v,
        BlinkTask::Hour(hour, min) => v.queued(
            plain_request(
                pair_text(hour as nat, colon_text(TimeColon::Full), min as nat),
                BLINK_ON_MS,
            ),
            true,
        ).queued(
            text_request(
                tail_text(seq![':'], min as nat),
                BLINK_OFF_MS,
                BLINK_START as int,
                LAST_INDEX as int,
                false,
            ),
            false,
        ),
        BlinkTask::Minute(hour, min) => v.queued(
            plain_request(
                pair_text(hour as nat, colon_text(TimeColon::Full), min as nat),
                BLINK_ON_MS,
            ),
            true,
        ).queued(
            text_request(
                head_text(hour as nat, seq![':']),
                BLINK_OFF_MS,
                DISPLAY_OFFSET as int,
                BLINK_END as int,
                false,
            ),
            false,
        ),
        BlinkTask::Year(year) => v.queued(
            plain_request(year_text(year as int), BLINK_ON_MS),
            true,
        ).queued(plain_request(seq![' '], BLINK_OFF_MS), false),
        BlinkTask::Month(month, day) => v.queued(
            plain_request(pair_text(month as nat, seq!['/'], day as nat), BLINK_ON_MS),
            true,
        ).queued(
            text_request(
                tail_text(seq!['/'], day as nat),
                BLINK_OFF_MS,
                BLINK_START as int,
                LAST_INDEX as int,
                false,
            ),
            false,
        ),
        BlinkTask::Day(month, day) => v.queued(
            plain_request(pair_text(month as nat, seq!['/'], day as nat), BLINK_ON_MS),
            true,
        ).queued(
            text_request(
                head_text(month as nat, seq!['/']),
                BLINK_OFF_MS,
                DISPLAY_OFFSET as int,
                BLINK_END as int,
                false,
            ),
            false,
        ),
    }
}

/// One round of the blink task: queue what `task` asks for. Returns how long
/// the task waits before the next round, in milliseconds, unless the app is
/// stopped or the next setting begins.
pub fn blink(display: &mut DisplayMatrix, task: BlinkTask) -> (wait_ms: u64)
    requires
        old(display).wf(),
    ensures
        final(display).wf(),
        final(display)@ == blinked(old(display)@, task),
        wait_ms == BLINK_ROUND_MS,
{
    match task {
        BlinkTask::Nothing => {},
        BlinkTask::Hour(hour, min) => {
            let _ = display.queue_time(hour, min, TimeColon::Full, BLINK_ON_MS, true, false);
            let _ = display.queue_time_left_side_blink(min, BLINK_OFF_MS, false);
        },
        BlinkTask::Minute(hour, min) => {
            let _ = display.queue_time(hour, min, TimeColon::Full, BLINK_ON_MS, true, false);
            let _ = display.queue_time_right_side_blink(hour, BLINK_OFF_MS, false);
        },
        BlinkTask::Year(year) => {
            proof {
                reveal_strlit(" ");
            }
            assert(" "@ =~= seq![' ']);
            let _ = display.queue_year(year, BLINK_ON_MS, true);
            let _ = display.queue_text(" ", BLINK_OFF_MS, false, false);
        },
        BlinkTask::Month(month, day) => {
            let _ = display.queue_date(month, day, BLINK_ON_MS, true);
            let _ = display.queue_date_left_side_blink(day, BLINK_OFF_MS, false);
        },
        BlinkTask::Day(month, day) => {
            let _ = display.queue_date(month, day, BLINK_ON_MS, true);
            let _ = display.queue_date_right_side_blink(month, BLINK_OFF_MS, false);
        },
    }
    BLINK_ROUND_MS
}

/// The value after `value` in the range from `first` to `last`, going round
/// from the last to the first.
pub open spec fn stepped_up(value: int, first: int, last: int) -> int {
    if value == last {
        first
    } else {
        value + 1
    }
}

/// The value before `value` in the range from `first` to `last`, going round
/// from the first to the last.
pub open spec fn stepped_down(value: int, first: int, last: int) -> int {
    if value == first {
        last
    } else {
        value - 1
    }
}

/// RTC hour configuration.
#[derive(Clone, Copy, Debug, PartialEq, Eq, Structural)]
pub struct HourConfiguration {
    /// The hour being configured.
    pub hour: u32,
    /// The hour set when starting configuration.
    pub starting_hour: u32,
}

impl HourConfiguration {
    /// Create a new hour configuration.
    pub fn new() -> (c: HourConfiguration)
        ensures
            c == (HourConfiguration { hour: 0, starting_hour: 0 }),
    {
        HourConfiguration { hour: 0, starting_hour: 0 }
    }

    /// Start from the clock's hour. Returns what to blink.
    pub fn start(&mut self, now: &DateTime) -> (task: BlinkTask)
        ensures
            *final(self) == (HourConfiguration { hour: now.hour, starting_hour: now.hour }),
            task == BlinkTask::Hour(now.hour, now.minute),
    {
        self.hour = now.hour;
        self.starting_hour = self.hour;
        self.show(now)
    }

    /// The hour to write to the clock: the one set, if it has changed.
    pub fn save(&self) -> (hour: Option<u32>)
        ensures
            hour == (if self.hour != self.starting_hour {
                Some(self.hour)
            } else {
                None
            }),
    {
        if self.hour != self.starting_hour {
            Some(self.hour)
        } else {
            None
        }
    }

    /// One hour on, from 23 to 0.
    pub fn button_two_press(&mut self, now: &DateTime) -> (task: BlinkTask)
        requires
            old(self).hour < u32::MAX,
        ensures
            final(self).hour == stepped_up(old(self).hour as int, 0, 23),
            final(self).starting_hour == old(self).starting_hour,
            task == BlinkTask::Hour(final(self).hour, now.minute),
    {
        if self.hour == 23 {
            self.hour = 0;
        } else {
            self.hour += 1;
        }
        self.show(now)
    }

    /// One hour back, from 0 to 23.
    pub fn button_three_press(&mut self, now: &DateTime) -> (task: BlinkTask)
        ensures
            final(self).hour == stepped_down(old(self).hour as int, 0, 23),
            final(self).starting_hour == old(self).starting_hour,
            task == BlinkTask::Hour(final(self).hour, now.minute),
    {
        if self.hour == 0 {
            self.hour = 23;
        } else {
            self.hour -= 1;
        }
        self.show(now)
    }

    /// What to blink: the hour being set before the clock's minute.
    pub fn show(&self, now: &DateTime) -> (task: BlinkTask)
        ensures
            task == BlinkTask::Hour(self.hour, now.minute),
    {
        BlinkTask::Hour(self.hour, now.minute)
    }
}

/// RTC minute configuration.
#[derive(Clone, Copy, Debug, PartialEq, Eq, Structural)]
pub struct MinuteConfiguration {
    /// The minute being configured.
    pub minute: u32,
    /// The minute set when starting configuration.
    pub starting_minute: u32,
}

impl MinuteConfiguration {
    /// Create a new minute configuration.
    pub fn new() -> (c: MinuteConfiguration)
        ensures
            c == (MinuteConfiguration { minute: 0, starting_minute: 0 }),
    {
        MinuteConfiguration { minute: 0, starting_minute: 0 }
    }

    /// Start from the clock's minute. Returns what to blink.
    pub fn start(&mut self, now: &DateTime) -> (task: BlinkTask)
        ensures
            *final(self) == (MinuteConfiguration {
                minute: now.minute,
                starting_minute: now.minute,
            }),
            task == BlinkTask::Minute(now.hour, now.minute),
    {
        self.minute = now.minute;
        self.starting_minute = self.minute;
        self.show(now)
    }

    /// The minute to write to the clock: the one set, if it has changed.
    pub fn save(&self) -> (minute: Option<u32>)
        ensures
            minute == (if self.minute != self.starting_minute {
                Some(self.minute)
            } else {
                None
            }),
    {
        if self.minute != self.starting_minute {
            Some(self.minute)
        } else {
            None
        }
    }

    /// One minute on, from 59 to 0.
    pub fn button_two_press(&mut self, now: &DateTime) -> (task: BlinkTask)
        requires
            old(self).minute < u32::MAX,
        ensures
            final(self).minute == stepped_up(old(self).minute as int, 0, 59),
            final(self).starting_minute == old(self).starting_minute,
            task == BlinkTask::Minute(now.hour, final(self).minute),
    {
        if self.minute == 59 {
            self.minute = 0;
        } else {
            self.minute += 1;
        }
        self.show(now)
    }

    /// One minute back, from 0 to 59.
    pub fn button_three_press(&mut self, now: &DateTime) -> (task: BlinkTask)
        ensures
            final(self).minute == stepped_down(old(self).minute as int, 0, 59),
            final(self).starting_minute == old(self).starting_minute,
            task == BlinkTask::Minute(now.hour, final(self).minute),
    {
        if self.minute == 0 {
            self.minute = 59;
        } else {
            self.minute -= 1;
        }
        self.show(now)
    }

    /// What to blink: the minute being set behind the clock's hour.
    pub fn show(&self, now: &DateTime) -> (task: BlinkTask)
        ensures
            task == BlinkTask::Minute(now.hour, self.minute),
    {
        BlinkTask::Minute(now.hour, self.minute)
    }
}

/// RTC year configuration.
#[derive(Clone, Copy, Debug, PartialEq, Eq, Structural)]
pub struct YearConfiguration {
    /// The year being configured.
    pub year: i32,
    /// The year set when starting configuration.
    pub starting_year: i32,
}

impl YearConfiguration {
    /// Create a new year configuration.
    pub fn new() -> (c: YearConfiguration)
        ensures
            c == (YearConfiguration { year: 0, starting_year: 0 }),
    {
        YearConfiguration { year: 0, starting_year: 0 }
    }

    /// Start from the clock's year. Returns what to blink.
    pub fn start(&mut self, now: &DateTime) -> (task: BlinkTask)
        ensures
            *final(self) == (YearConfiguration { year: now.year, starting_year: now.year }),
            task == BlinkTask::Year(now.year),
    {
        self.year = now.year;
        self.starting_year = self.year;
        self.show()
    }

    /// The year to write to the clock: the one set, if it has changed.
    pub fn save(&self) -> (year: Option<i32>)
        ensures
            year == (if self.year != self.starting_year {
                Some(self.year)
            } else {
                None
            }),
    {
        if self.year != self.starting_year {
            Some(self.year)
        } else {
            None
        }
    }

    /// One year on, from 2100 to 2000.
    pub fn button_two_press(&mut self) -> (task: BlinkTask)
        requires
            old(self).year < i32::MAX,
        ensures
            final(self).year == stepped_up(
                old(self).year as int,
                FIRST_YEAR as int,
                LAST_YEAR as int,
            ),
            final(self).starting_year == old(self).starting_year,
            task == BlinkTask::Year(final(self).year),
    {
        if self.year == LAST_YEAR {
            self.year = FIRST_YEAR;
        } else {
            self.year += 1;
        }
        self.show()
    }

    /// One year back, from 2000 to 2100.
    pub fn button_three_press(&mut self) -> (task: BlinkTask)
        requires
            old(self).year > i32::MIN,
        ensures
            final(self).year == stepped_down(
                old(self).year as int,
                FIRST_YEAR as int,
                LAST_YEAR as int,
            ),
            final(self).starting_year == old(self).starting_year,
            task == BlinkTask::Year(final(self).year),
    {
        if self.year == FIRST_YEAR {
            self.year = LAST_YEAR;
        } else {
            self.year -= 1;
        }
        self.show()
    }

    /// What to blink: the year being set.
    pub fn show(&self) -> (task: BlinkTask)
        ensures
            task == BlinkTask::Year(self.year),
    {
        BlinkTask::Year(self.year)
    }
}

/// RTC month configuration.
#[derive(Clone, Copy, Debug, PartialEq, Eq, Structural)]
pub struct MonthConfiguration {
    /// The month being configured.
    pub month: u32,
    /// The month set when starting configuration.
    pub starting_month: u32,
}

impl MonthConfiguration {
    /// Create a new month configuration.
    pub fn new() -> (c: MonthConfiguration)
        ensures
            c == (MonthConfiguration { month: 0, starting_month: 0 }),
    {
        MonthConfiguration { month: 0, starting_month: 0 }
    }

    /// Start from the clock's month. Returns what to blink.
    pub fn start(&mut self, now: &DateTime) -> (task: BlinkTask)
        ensures
            *final(self) == (MonthConfiguration { month: now.month, starting_month: now.month }),
            task == BlinkTask::Month(now.month, now.day),
    {
        self.month = now.month;
        self.starting_month = self.month;
        self.show(now)
    }

    /// The month to write to the clock: the one set, if it has changed.
    pub fn save(&self) -> (month: Option<u32>)
        ensures
            month == (if self.month != self.starting_month {
                Some(self.month)
            } else {
                None
            }),
    {
        if self.month != self.starting_month {
            Some(self.month)
        } else {
            None
        }
    }

    /// One month on, from 12 to 1.
    pub fn button_two_press(&mut self, now: &DateTime) -> (task: BlinkTask)
        requires
            old(self).month < u32::MAX,
        ensures
            final(self).month == stepped_up(old(self).month as int, 1, 12),
            final(self).starting_month == old(self).starting_month,
            task == BlinkTask::Month(final(self).month, now.day),
    {
        if self.month == 12 {
            self.month = 1;
        } else {
            self.month += 1;
        }
        self.show(now)
    }

    /// One month back, from 1 to 12.
    pub fn button_three_press(&mut self, now: &DateTime) -> (task: BlinkTask)
        requires
            old(self).month >= 1,
        ensures
            final(self).month == stepped_down(old(self).month as int, 1, 12),
            final(self).starting_month == old(self).starting_month,
            task == BlinkTask::Month(final(self).month, now.day),
    {
        if self.month == 1 {
            self.month = 12;
        } else {
            self.month -= 1;
        }
        self.show(now)
    }

    /// What to blink: the month being set before the clock's day.
    pub fn show(&self, now: &DateTime) -> (task: BlinkTask)
        ensures
            task == BlinkTask::Month(self.month, now.day),
    {
        BlinkTask::Month(self.month, now.day)
    }
}

/// RTC day configuration.
#[derive(Clone, Copy, Debug, PartialEq, Eq, Structural)]
pub struct DayConfiguration {
    /// The day being configured.
    pub day: u32,
    /// The day set when starting configuration.
    pub starting_day: u32,
    /// The current month in RTC. This is purely just a reference and should
    /// not be mutated.
    pub month: u32,
}

impl DayConfiguration {
    /// Create a new day configuration.
    pub fn new() -> (c: DayConfiguration)
        ensures
            c == (DayConfiguration { day: 0, starting_day: 0, month: 0 }),
    {
        DayConfiguration { day: 0, starting_day: 0, month: 0 }
    }

    /// Start from the clock's day and month. Returns what to blink.
    pub fn start(&mut self, now: &DateTime) -> (task: BlinkTask)
        ensures
            *final(self) == (DayConfiguration {
                day: now.day,
                starting_day: now.day,
                month: now.month,
            }),
            task == BlinkTask::Day(now.month, now.day),
    {
        self.day = now.day;
        self.starting_day = self.day;
        self.month = now.month;
        self.show()
    }

    /// The day to write to the clock: the one set, if it has changed.
    pub fn save(&self) -> (day: Option<u32>)
        ensures
            day == (if self.day != self.starting_day {
                Some(self.day)
            } else {
                None
            }),
    {
        if self.day != self.starting_day {
            Some(self.day)
        } else {
            None
        }
    }

    /// One day on, from the month's last day to the 1st. `leap` says whether
    /// the clock's year is a leap year.
    pub fn button_two_press(&mut self, leap: bool) -> (task: BlinkTask)
        requires
            1 <= old(self).month <= 12,
            old(self).day < u32::MAX,
        ensures
            final(self).day == stepped_up(
                old(self).day as int,
                1,
                max_day(old(self).month as int, leap),
            ),
            final(self).starting_day == old(self).starting_day,
            final(self).month == old(self).month,
            task == BlinkTask::Day(final(self).month, final(self).day),
    {
        if self.day == crate::rtc::get_max_day_in_month(self.month, leap) {
            self.day = 1;
        } else {
            self.day += 1;
        }
        self.show()
    }

    /// One day back, from the 1st to the month's last day. `leap` says
    /// whether the clock's year is a leap year.
    pub fn button_three_press(&mut self, leap: bool) -> (task: BlinkTask)
        requires
            1 <= old(self).month <= 12,
            old(self).day >= 1,
        ensures
            final(self).day == stepped_down(
                old(self).day as int,
                1,
                max_day(old(self).month as int, leap),
            ),
            final(self).starting_day == old(self).starting_day,
            final(self).month == old(self).month,
            task == BlinkTask::Day(final(self).month, final(self).day),
    {
        if self.day == 1 {
            self.day = crate::rtc::get_max_day_in_month(self.month, leap);
        } else {
            self.day -= 1;
        }
        self.show()
    }

    /// What to blink: the day being set behind the month.
    pub fn show(&self) -> (task: BlinkTask)
        ensures
            task == BlinkTask::Day(self.month, self.day),
    {
        BlinkTask::Day(self.month, self.day)
    }
}

/// The text of a flag behind its label.
pub open spec fn flag_text(label: Seq<char>, state: bool) -> Seq<char> {
    if state {
        label + seq!['O', 'n']
    } else {
        label + seq!['O', 'f']
    }
}

/// The display after a preference was shown at once.
pub open spec fn preference_shown(v: DisplayView, text: Seq<char>) -> DisplayView {
    v.queued(plain_request(text, PREFERENCE_HOLD_MS), true)
}

/// Hourly ring configuration.
#[derive(Clone, Copy, Debug, PartialEq, Eq, Structural)]
pub struct HourlyRingConfiguration {
    /// The ring state.
    pub state: bool,
    /// The state set when starting configuration.
    pub starting_state: bool,
}

impl HourlyRingConfiguration {
    /// Create a new hourly ring configuration.
    pub fn new() -> (c: HourlyRingConfiguration)
        ensures
            c == (HourlyRingConfiguration { state: false, starting_state: false }),
    {
        HourlyRingConfiguration { state: false, starting_state: false }
    }

    /// Start from the setting in use and show it. Nothing blinks.
    pub fn start(&mut self, config: &ConfigOptions, display: &mut DisplayMatrix) -> (task:
        BlinkTask)
        requires
            old(display).wf(),
        ensures
            final(display).wf(),
            *final(self) == (HourlyRingConfiguration {
                state: config.hourly_ring,
                starting_state: config.hourly_ring,
            }),
            final(display)@ == preference_shown(
                old(display)@,
                flag_text(seq!['H', 'R', ':'], config.hourly_ring),
            ),
            task == BlinkTask::Nothing,
    {
        self.state = config.get_hourly_ring();
        self.starting_state = self.state;
        self.show(display);
        BlinkTask::Nothing
    }

    /// The state to save: the one set, if it has changed.
    pub fn save(&self) -> (state: Option<bool>)
        ensures
            state == (if self.state != self.starting_state {
                Some(self.state)
            } else {
                None
            }),
    {
        if self.state != self.starting_state {
            Some(self.state)
        } else {
            None
        }
    }

    /// Switch the ring on or off and show it.
    pub fn button_two_press(&mut self, display: &mut DisplayMatrix)
        requires
            old(display).wf(),
        ensures
            final(display).wf(),
            final(self).state == !old(self).state,
            final(self).starting_state == old(self).starting_state,
            final(display)@ == preference_shown(
                old(display)@,
                flag_text(seq!['H', 'R', ':'], final(self).state),
            ),
    {
        self.state = !self.state;
        self.show(display);
    }

    /// Switch the ring on or off and show it.
    pub fn button_three_press(&mut self, display: &mut DisplayMatrix)
        requires
            old(display).wf(),
        ensures
            final(display).wf(),
            final(self).state == !old(self).state,
            final(self).starting_state == old(self).starting_state,
            final(display)@ == preference_shown(
                old(display)@,
                flag_text(seq!['H', 'R', ':'], final(self).state),
            ),
    {
        self.button_two_press(display);
    }

    /// Show the state.
    pub fn show(&self, display: &mut DisplayMatrix)
        requires
            old(display).wf(),
        ensures
            final(display).wf(),
            final(display)@ == preference_shown(
                old(display)@,
                flag_text(seq!['H', 'R', ':'], self.state),
            ),
    {
        proof {
            reveal_strlit("HR:On");
            reveal_strlit("HR:Of");
        }
        let text = if self.state {
            "HR:On"
        } else {
            "HR:Of"
        };
        assert(text@ =~= flag_text(seq!['H', 'R', ':'], self.state));
        let _ = display.queue_text(text, PREFERENCE_HOLD_MS, true, false);
    }
}

/// The colon preference after `state`: solid, blink, alternate, and round.
pub open spec fn colon_after(state: TimeColonPreference) -> TimeColonPreference {
    match state {
        TimeColonPreference::Solid => TimeColonPreference::Blink,
        TimeColonPreference::Blink => TimeColonPreference::Alt,
        TimeColonPreference::Alt => TimeColonPreference::Solid,
    }
}

/// The colon preference before `state`.
pub open spec fn colon_before(state: TimeColonPreference) -> TimeColonPreference {
    match state {
        TimeColonPreference::Solid => TimeColonPreference::Alt,
        TimeColonPreference::Blink => TimeColonPreference::Solid,
        TimeColonPreference::Alt => TimeColonPreference::Blink,
    }
}

/// The text of a colon preference.
pub open spec fn colon_preference_text(state: TimeColonPreference) -> Seq<char> {
    match state {
        TimeColonPreference::Solid => seq![':', 'S', 'L', 'D'],
        TimeColonPreference::Blink => seq![':', 'B', 'L', 'K'],
        TimeColonPreference::Alt => seq![':', 'A', 'L', 'T'],
    }
}

/// Time colon configuration.
#[derive(Clone, Copy, Debug, PartialEq, Eq, Structural)]
pub struct TimeColonConfiguration {
    /// The preference.
    pub state: TimeColonPreference,
    /// The state set when starting configuration.
    pub starting_state: TimeColonPreference,
}

impl TimeColonConfiguration {
    /// Create a new time colon configuration.
    pub fn new() -> (c: TimeColonConfiguration)
        ensures
            c == (TimeColonConfiguration {
                state: TimeColonPreference::Blink,
                starting_state: TimeColonPreference::Blink,
            }),
    {
        TimeColonConfiguration {
            state: TimeColonPreference::Blink,
            starting_state: TimeColonPreference::Blink,
        }
    }

    /// Start from the setting in use and show it. Nothing blinks.
    pub fn start(&mut self, config: &ConfigOptions, display: &mut DisplayMatrix) -> (task:
        BlinkTask)
        requires
            old(display).wf(),
        ensures
            final(display).wf(),
            *final(self) == (TimeColonConfiguration {
                state: config.time_colon_pref,
                starting_state: config.time_colon_pref,
            }),
            final(display)@ == preference_shown(
                old(display)@,
                colon_preference_text(config.time_colon_pref),
            ),
            task == BlinkTask::Nothing,
    {
        self.state = config.get_time_colon_preference();
        self.starting_state = self.state;
        self.show(display);
        BlinkTask::Nothing
    }

    /// The preference to save: the one set, if it has changed.
    pub fn save(&self) -> (state: Option<TimeColonPreference>)
        ensures
            state == (if self.state != self.starting_state {
                Some(self.state)
            } else {
                None
            }),
    {
        if self.state != self.starting_state {
            Some(self.state)
        } else {
            None
        }
    }

    /// Go on to the next preference and show it.
    pub fn button_two_press(&mut self, display: &mut DisplayMatrix)
        requires
            old(display).wf(),
        ensures
            final(display).wf(),
            final(self).state == colon_after(old(self).state),
            final(self).starting_state == old(self).starting_state,
            final(display)@ == preference_shown(
                old(display)@,
                colon_preference_text(final(self).state),
            ),
    {
        match self.state {
            TimeColonPreference::Solid => self.state = TimeColonPreference::Blink,
            TimeColonPreference::Blink => self.state = TimeColonPreference::Alt,
            TimeColonPreference::Alt => self.state = TimeColonPreference::Solid,
        }
        self.show(display);
    }

    /// Go back to the preference before and show it.
    pub fn button_three_press(&mut self, display: &mut DisplayMatrix)
        requires
            old(display).wf(),
        ensures
            final(display).wf(),
            final(self).state == colon_before(old(self).state),
            final(self).starting_state == old(self).starting_state,
            final(display)@ == preference_shown(
                old(display)@,
                colon_preference_text(final(self).state),
            ),
    {
        match self.state {
            TimeColonPreference::Solid => self.state = TimeColonPreference::Alt,
            TimeColonPreference::Blink => self.state = TimeColonPreference::Solid,
            TimeColonPreference::Alt => self.state = TimeColonPreference::Blink,
        }
        self.show(display);
    }

    /// Show the preference.
    pub fn show(&self, display: &mut DisplayMatrix)
        requires
            old(display).wf(),
        ensures
            final(display).wf(),
            final(display)@ == preference_shown(
                old(display)@,
                colon_preference_text(self.state),
            ),
    {
        proof {
            reveal_strlit(":SLD");
            reveal_strlit(":BLK");
            reveal_strlit(":ALT");
        }
        let text = match self.state {
            TimeColonPreference::Solid => ":SLD",
            TimeColonPreference::Blink => ":BLK",
            TimeColonPreference::Alt => ":ALT",
        };
        assert(text@ =~= colon_preference_text(self.state));
        let _ = display.queue_text(text, PREFERENCE_HOLD_MS, true, false);
    }
}

/// Temperature scroll configuration.
#[derive(Clone, Copy, Debug, PartialEq, Eq, Structural)]
pub struct AutoScrollTempConfiguration {
    /// The scroll state.
    pub state: bool,
    /// The state set when starting configuration.
    pub starting_state: bool,
}

impl AutoScrollTempConfiguration {
    /// Create a new temperature scroll configuration.
    pub fn new() -> (c: AutoScrollTempConfiguration)
        ensures
            c == (AutoScrollTempConfiguration { state: false, starting_state: false }),
    {
        AutoScrollTempConfiguration { state: false, starting_state: false }
    }

    /// Start from the setting in use and show it. Nothing blinks.
    pub fn start(&mut self, config: &ConfigOptions, display: &mut DisplayMatrix) -> (task:
        BlinkTask)
        requires
            old(display).wf(),
        ensures
            final(display).wf(),
            *final(self) == (AutoScrollTempConfiguration {
                state: config.auto_scroll_temp,
                starting_state: config.auto_scroll_temp,
            }),
            final(display)@ == preference_shown(
                old(display)@,
                flag_text(seq!['E', 'X', ':'], config.auto_scroll_temp),
            ),
            task == BlinkTask::Nothing,
    {
        self.state = config.get_auto_scroll_temp();
        self.starting_state = self.state;
        self.show(display);
        BlinkTask::Nothing
    }

    /// The state to save: the one set, if it has changed.
    pub fn save(&self) -> (state: Option<bool>)
        ensures
            state == (if self.state != self.starting_state {
                Some(self.state)
            } else {
                None
            }),
    {
        if self.state != self.starting_state {
            Some(self.state)
        } else {
            None
        }
    }

    /// Switch the scroll on or off and show it.
    pub fn button_two_press(&mut self, display: &mut DisplayMatrix)
        requires
            old(display).wf(),
        ensures
            final(display).wf(),
            final(self).state == !old(self).state,
            final(self).starting_state == old(self).starting_state,
            final(display)@ == preference_shown(
                old(display)@,
                flag_text(seq!['E', 'X', ':'], final(self).state),
            ),
    {
        self.state = !self.state;
        self.show(display);
    }

    /// Switch the scroll on or off and show it.
    pub fn button_three_press(&mut self, display: &mut DisplayMatrix)
        requires
            old(display).wf(),
        ensures
            final(display).wf(),
            final(self).state == !old(self).state,
            final(self).starting_state == old(self).starting_state,
            final(display)@ == preference_shown(
                old(display)@,
                flag_text(seq!['E', 'X', ':'], final(self).state),
            ),
    {
        self.button_two_press(display);
    }

    /// Show the state.
    pub fn show(&self, display: &mut DisplayMatrix)
        requires
            old(display).wf(),
        ensures
            final(display).wf(),
            final(display)@ == preference_shown(
                old(display)@,
                flag_text(seq!['E', 'X', ':'], self.state),
            ),
    {
        proof {
            reveal_strlit("EX:On");
            reveal_strlit("EX:Of");
        }
        let text = if self.state {
            "EX:On"
        } else {
            "EX:Of"
        };
        assert(text@ =~= flag_text(seq!['E', 'X', ':'], self.state));
        let _ = display.queue_text(text, PREFERENCE_HOLD_MS, true, false);
    }
}

/// Settings app.
/// Allows for setting RTC and preferences.
#[derive(Clone, Copy, Debug, PartialEq, Eq, Structural)]
pub struct SettingsApp {
    /// The hour configuration mini app.
    pub hour_config: HourConfiguration,
    /// The minute configuration mini app.
    pub minute_config: MinuteConfiguration,
    /// The year configuration mini app.
    pub year_config: YearConfiguration,
    /// The month configuration mini app.
    pub month_config: MonthConfiguration,
    /// The day configuration mini app.
    pub day_config: DayConfiguration,
    /// The hourly ring configuration mini app.
    pub hourly_ring_config: HourlyRingConfiguration,
    /// The time colon configuration mini app.
    pub time_colon_config: TimeColonConfiguration,
    /// The auto scroll temp configuration mini app.
    pub auto_scroll_temp_config: AutoScrollTempConfiguration,
    /// The current active mini app being configured.
    pub active_config: SettingsConfig,
}

/// What the caller does after the top button was pressed in the settings.
#[derive(Clone, Copy, Debug, PartialEq, Eq, Structural)]
pub struct SettingsStep {
    /// The date and time to write to the clock, if they have changed.
    pub write_clock: Option<DateTime>,
    /// Whether a preference has changed and the preferences are to be saved.
    pub save_config: bool,
    /// What the blink task shows from now on.
    pub task: BlinkTask,
    /// Whether the last setting is done: the tasks are stopped and, after
    /// two seconds, the app switcher is shown.
    pub done: bool,
}

/// The date and time after the value of the active setting was written.
pub open spec fn clock_after_save(app: SettingsApp, now: DateTime) -> DateTime {
    match app.active_config {
        SettingsConfig::Hour => if app.hour_config.hour != app.hour_config.starting_hour {
            DateTime { hour: app.hour_config.hour, second: 0, ..now }
        } else {
            now
        },
        SettingsConfig::Minute => if app.minute_config.minute
            != app.minute_config.starting_minute {
            DateTime { minute: app.minute_config.minute, second: 0, ..now }
        } else {
            now
        },
        SettingsConfig::Year => if app.year_config.year != app.year_config.starting_year {
            DateTime {
                year: app.year_config.year,
                day: if !leap_year(app.year_config.year as int) && now.month == 2 && now.day
                    == 29 {
                    28
                } else {
                    now.day
                },
                ..now
            }
        } else {
            now
        },
        SettingsConfig::Month => if app.month_config.month != app.month_config.starting_month {
            DateTime {
                month: app.month_config.month,
                day: if now.day > max_day(
                    app.month_config.month as int,
                    leap_year(now.year as int),
                ) {
                    max_day(app.month_config.month as int, leap_year(now.year as int)) as u32
                } else {
                    now.day
                },
                ..now
            }
        } else {
            now
        },
        SettingsConfig::Day => if app.day_config.day != app.day_config.starting_day {
            DateTime {
                day: if app.day_config.day > max_day(
                    now.month as int,
                    leap_year(now.year as int),
                ) {
                    max_day(now.month as int, leap_year(now.year as int)) as u32
                } else {
                    app.day_config.day
                },
                ..now
            }
        } else {
            now
        },
        _ => now,
    }
}

/// Whether the active setting is a preference whose value has changed
/// since it started.
pub open spec fn preference_changed(app: SettingsApp) -> bool {
    match app.active_config {
        SettingsConfig::HourlyRing => app.hourly_ring_config.state
            != app.hourly_ring_config.starting_state,
        SettingsConfig::TimeColon => app.time_colon_config.state
            != app.time_colon_config.starting_state,
        SettingsConfig::AutoScrollTemp => app.auto_scroll_temp_config.state
            != app.auto_scroll_temp_config.starting_state,
        _ => false,
    }
}

/// The preferences after the value of the active setting was saved: a
/// preference that has changed takes its new value.
pub open spec fn config_after_save(app: SettingsApp, config: ConfigOptions) -> ConfigOptions {
    if !preference_changed(app) {
        config
    } else {
        match app.active_config {
            SettingsConfig::HourlyRing => ConfigOptions {
                hourly_ring: app.hourly_ring_config.state,
                ..config
            },
            SettingsConfig::TimeColon => ConfigOptions {
                time_colon_pref: app.time_colon_config.state,
                ..config
            },
            SettingsConfig::AutoScrollTemp => ConfigOptions {
                auto_scroll_temp: app.auto_scroll_temp_config.state,
                ..config
            },
            _ => config,
        }
    }
}

/// The settings app after the top button: the next setting is active and
/// starts from the value in use.
pub open spec fn app_after_next(app: SettingsApp, now: DateTime, config: ConfigOptions) -> SettingsApp {
    let clock = clock_after_save(app, now);
    match app.active_config {
        SettingsConfig::Hour => SettingsApp {
            active_config: SettingsConfig::Minute,
            minute_config: MinuteConfiguration {
                minute: clock.minute,
                starting_minute: clock.minute,
            },
            ..app
        },
        SettingsConfig::Minute => SettingsApp {
            active_config: SettingsConfig::Year,
            year_config: YearConfiguration { year: clock.year, starting_year: clock.year },
            ..app
        },
        SettingsConfig::Year => SettingsApp {
            active_config: SettingsConfig::Month,
            month_config: MonthConfiguration { month: clock.month, starting_month: clock.month },
            ..app
        },
        SettingsConfig::Month => SettingsApp {
            active_config: SettingsConfig::Day,
            day_config: DayConfiguration {
                day: clock.day,
                starting_day: clock.day,
                month: clock.month,
            },
            ..app
        },
        SettingsConfig::Day => SettingsApp {
            active_config: SettingsConfig::HourlyRing,
            hourly_ring_config: HourlyRingConfiguration {
                state: config.hourly_ring,
                starting_state: config.hourly_ring,
            },
            ..app
        },
        SettingsConfig::HourlyRing => SettingsApp {
            active_config: SettingsConfig::TimeColon,
            time_colon_config: TimeColonConfiguration {
                state: config.time_colon_pref,
                starting_state: config.time_colon_pref,
            },
            ..app
        },
        SettingsConfig::TimeColon => SettingsApp {
            active_config: SettingsConfig::AutoScrollTemp,
            auto_scroll_temp_config: AutoScrollTempConfiguration {
                state: config.auto_scroll_temp,
                starting_state: config.auto_scroll_temp,
            },
            ..app
        },
        SettingsConfig::AutoScrollTemp => app,
    }
}

/// What blinks after the top button.
pub open spec fn task_after_next(app: SettingsApp, now: DateTime) -> BlinkTask {
    let clock = clock_after_save(app, now);
    match app.active_config {
        SettingsConfig::Hour => BlinkTask::Minute(clock.hour, clock.minute),
        SettingsConfig::Minute => BlinkTask::Year(clock.year),
        SettingsConfig::Year => BlinkTask::Month(clock.month, clock.day),
        SettingsConfig::Month => BlinkTask::Day(clock.month, clock.day),
        _ => BlinkTask::Nothing,
    }
}

/// The display after the top button: the preference that starts is shown,
/// or the word at the end.
pub open spec fn display_after_next(
    v: DisplayView,
    app: SettingsApp,
    config: ConfigOptions,
) -> DisplayView {
    match app.active_config {
        SettingsConfig::Day => preference_shown(
            v,
            flag_text(seq!['H', 'R', ':'], config.hourly_ring),
        ),
        SettingsConfig::HourlyRing => preference_shown(
            v,
            colon_preference_text(config.time_colon_pref),
        ),
        SettingsConfig::TimeColon => preference_shown(
            v,
            flag_text(seq!['E', 'X', ':'], config.auto_scroll_temp),
        ),
        SettingsConfig::AutoScrollTemp => v.queued(
            plain_request(seq!['D', 'o', 'n', 'e'], DONE_HOLD_MS),
            true,
        ),
        _ => v,
    }
}

impl SettingsApp {
    /// The value of the active setting lies in its range, so that it can be
    /// stepped and written to the clock `now`.
    pub open spec fn wf(&self, now: DateTime) -> bool {
        match self.active_config {
            SettingsConfig::Hour => self.hour_config.hour < 24,
            SettingsConfig::Minute => self.minute_config.minute < 60,
            SettingsConfig::Month => 1 <= self.month_config.month <= 12,
            SettingsConfig::Day => self.day_config.month == now.month && 1 <= self.day_config.day
                <= max_day(now.month as int, leap_year(now.year as int)),
            _ => true,
        }
    }

    /// Whether the value of the active setting lies in its range.
    pub fn is_ready(&self, now: &DateTime) -> (ready: bool)
        requires
            now.wf(),
        ensures
            ready == self.wf(*now),
    {
        match self.active_config {
            SettingsConfig::Hour => self.hour_config.hour < 24,
            SettingsConfig::Minute => self.minute_config.minute < 60,
            SettingsConfig::Month => 1 <= self.month_config.month && self.month_config.month <= 12,
            SettingsConfig::Day => self.day_config.month == now.month && 1 <= self.day_config.day
                && self.day_config.day <= crate::rtc::get_max_day_in_month(
                now.month,
                crate::rtc::is_leap_year_opt(now.year),
            ),
            _ => true,
        }
    }

    /// Create a new settings app.
    pub fn new() -> (app: SettingsApp)
        ensures
            app.active_config == SettingsConfig::Hour,
            app.hour_config == (HourConfiguration { hour: 0, starting_hour: 0 }),
            app.minute_config == (MinuteConfiguration { minute: 0, starting_minute: 0 }),
            app.year_config == (YearConfiguration { year: 0, starting_year: 0 }),
            app.month_config == (MonthConfiguration { month: 0, starting_month: 0 }),
            app.day_config == (DayConfiguration { day: 0, starting_day: 0, month: 0 }),
            app.hourly_ring_config == (HourlyRingConfiguration {
                state: false,
                starting_state: false,
            }),
            app.time_colon_config == (TimeColonConfiguration {
                state: TimeColonPreference::Blink,
                starting_state: TimeColonPreference::Blink,
            }),
            app.auto_scroll_temp_config == (AutoScrollTempConfiguration {
                state: false,
                starting_state: false,
            }),
    {
        SettingsApp {
            hour_config: HourConfiguration::new(),
            minute_config: MinuteConfiguration::new(),
            year_config: YearConfiguration::new(),
            month_config: MonthConfiguration::new(),
            day_config: DayConfiguration::new(),
            hourly_ring_config: HourlyRingConfiguration::new(),
            time_colon_config: TimeColonConfiguration::new(),
            auto_scroll_temp_config: AutoScrollTempConfiguration::new(),
            active_config: SettingsConfig::Hour,
        }
    }

    /// The name of the app.
    pub fn get_name(&self) -> (name: &'static str)
        ensures
            name@ == "Settings"@,
    {
        "Settings"
    }

    /// Start the app: the display is cleared and the hour is set first.
    /// Returns what the blink task, which the caller starts, shows.
    pub fn start(&mut self, now: &DateTime, display: &mut DisplayMatrix) -> (task: BlinkTask)
        requires
            old(display).wf(),
            now.wf(),
        ensures
            final(display).wf(),
            final(self).wf(*now),
            *final(self) == (SettingsApp {
                active_config: SettingsConfig::Hour,
                hour_config: HourConfiguration { hour: now.hour, starting_hour: now.hour },
                ..*old(self)
            }),
            final(display)@ == (DisplayView { pixels: dark(), ..old(display)@.cancelled() }),
            task == BlinkTask::Hour(now.hour, now.minute),
    {
        display.clear_all(true);
        self.active_config = SettingsConfig::Hour;
        self.hour_config.start(now)
    }

    /// Handle the top button: the value of the active setting is saved if it
    /// has changed, and the next setting starts. After the last setting the
    /// word "Done" is shown.
    pub fn button_one_short_press(
        &mut self,
        now: &DateTime,
        config: &mut ConfigOptions,
        display: &mut DisplayMatrix,
    ) -> (step: SettingsStep)
        requires
            old(display).wf(),
            now.wf(),
            old(self).wf(*now),
        ensures
            final(display).wf(),
            *final(config) == config_after_save(*old(self), *old(config)),
            *final(self) == app_after_next(*old(self), *now, *final(config)),
            final(self).wf(clock_after_save(*old(self), *now)),
            clock_after_save(*old(self), *now).wf(),
            final(display)@ == display_after_next(old(display)@, *old(self), *final(config)),
            step.write_clock == (if clock_after_save(*old(self), *now) != *now {
                Some(clock_after_save(*old(self), *now))
            } else {
                None
            }),
            step.save_config == preference_changed(*old(self)),
            step.task == task_after_next(*old(self), *now),
            step.done == (old(self).active_config == SettingsConfig::AutoScrollTemp),
    {
        let mut clock = *now;
        let mut save_config = false;
        let mut done = false;
        let mut task = BlinkTask::Nothing;
        match self.active_config {
            SettingsConfig::Hour => {
                match self.hour_config.save() {
                    Some(hour) => {
                        clock = crate::rtc::set_hour(clock, hour);
                    },
                    None => {},
                }
                self.active_config = SettingsConfig::Minute;
                task = self.minute_config.start(&clock);
            },
            SettingsConfig::Minute => {
                match self.minute_config.save() {
                    Some(minute) => {
                        clock = crate::rtc::set_minute(clock, minute);
                    },
                    None => {},
                }
                self.active_config = SettingsConfig::Year;
                task = self.year_config.start(&clock);
            },
            SettingsConfig::Year => {
                match self.year_config.save() {
                    Some(year) => {
                        clock = crate::rtc::set_year(clock, year);
                    },
                    None => {},
                }
                self.active_config = SettingsConfig::Month;
                task = self.month_config.start(&clock);
            },
            SettingsConfig::Month => {
                match self.month_config.save() {
                    Some(month) => {
                        clock = crate::rtc::set_month(clock, month);
                    },
                    None => {},
                }
                self.active_config = SettingsConfig::Day;
                task = self.day_config.start(&clock);
            },
            SettingsConfig::Day => {
                match self.day_config.save() {
                    Some(day) => {
                        clock = crate::rtc::set_day(clock, day);
                    },
                    None => {},
                }
                self.active_config = SettingsConfig::HourlyRing;
                task = self.hourly_ring_config.start(config, display);
            },
            SettingsConfig::HourlyRing => {
                match self.hourly_ring_config.save() {
                    Some(state) => {
                        config.set_hourly_ring(state);
                        save_config = true;
                    },
                    None => {},
                }
                self.active_config = SettingsConfig::TimeColon;
                task = self.time_colon_config.start(config, display);
            },
            SettingsConfig::TimeColon => {
                match self.time_colon_config.save() {
                    Some(state) => {
                        config.set_time_colon_preference(state);
                        save_config = true;
                    },
                    None => {},
                }
                self.active_config = SettingsConfig::AutoScrollTemp;
                task = self.auto_scroll_temp_config.start(config, display);
            },
            SettingsConfig::AutoScrollTemp => {
                match self.auto_scroll_temp_config.save() {
                    Some(state) => {
                        config.set_auto_scroll_temp(state);
                        save_config = true;
                    },
                    None => {},
                }
                self.end(display);
                done = true;
            },
        }
        let write_clock = if clock != *now {
            Some(clock)
        } else {
            None
        };
        SettingsStep { write_clock, save_config, task, done }
    }

    /// Handle the middle button: the value of the active setting goes one
    /// step up. Returns what blinks from now on, if that has changed.
    pub fn button_two_press(&mut self, now: &DateTime, display: &mut DisplayMatrix) -> (task:
        Option<BlinkTask>)
        requires
            old(display).wf(),
            now.wf(),
            old(self).wf(*now),
            old(self).active_config == SettingsConfig::Year ==> old(self).year_config.year
                < i32::MAX,
        ensures
            final(display).wf(),
            final(self).wf(*now),
            final(self).active_config == old(self).active_config,
            match old(self).active_config {
                SettingsConfig::Hour => {
                    &&& *final(self) == (SettingsApp {
                        hour_config: HourConfiguration {
                            hour: stepped_up(old(self).hour_config.hour as int, 0, 23) as u32,
                            ..old(self).hour_config
                        },
                        ..*old(self)
                    })
                    &&& task == Some(BlinkTask::Hour(final(self).hour_config.hour, now.minute))
                    &&& final(display)@ == old(display)@
                },
                SettingsConfig::Minute => {
                    &&& *final(self) == (SettingsApp {
                        minute_config: MinuteConfiguration {
                            minute: stepped_up(old(self).minute_config.minute as int, 0, 59) as u32,
                            ..old(self).minute_config
                        },
                        ..*old(self)
                    })
                    &&& task == Some(BlinkTask::Minute(now.hour, final(self).minute_config.minute))
                    &&& final(display)@ == old(display)@
                },
                SettingsConfig::Year => {
                    &&& *final(self) == (SettingsApp {
                        year_config: YearConfiguration {
                            year: stepped_up(
                                old(self).year_config.year as int,
                                FIRST_YEAR as int,
                                LAST_YEAR as int,
                            ) as i32,
                            ..old(self).year_config
                        },
                        ..*old(self)
                    })
                    &&& task == Some(BlinkTask::Year(final(self).year_config.year))
                    &&& final(display)@ == old(display)@
                },
                SettingsConfig::Month => {
                    &&& *final(self) == (SettingsApp {
                        month_config: MonthConfiguration {
                            month: stepped_up(old(self).month_config.month as int, 1, 12) as u32,
                            ..old(self).month_config
                        },
                        ..*old(self)
                    })
                    &&& task == Some(BlinkTask::Month(final(self).month_config.month, now.day))
                    &&& final(display)@ == old(display)@
                },
                SettingsConfig::Day => {
                    &&& *final(self) == (SettingsApp {
                        day_config: DayConfiguration {
                            day: stepped_up(
                                old(self).day_config.day as int,
                                1,
                                max_day(now.month as int, leap_year(now.year as int)),
                            ) as u32,
                            ..old(self).day_config
                        },
                        ..*old(self)
                    })
                    &&& task == Some(BlinkTask::Day(now.month, final(self).day_config.day))
                    &&& final(display)@ == old(display)@
                },
                SettingsConfig::HourlyRing => {
                    &&& *final(self) == (SettingsApp {
                        hourly_ring_config: HourlyRingConfiguration {
                            state: !old(self).hourly_ring_config.state,
                            ..old(self).hourly_ring_config
                        },
                        ..*old(self)
                    })
                    &&& task is None
                    &&& final(display)@ == preference_shown(
                        old(display)@,
                        flag_text(seq!['H', 'R', ':'], final(self).hourly_ring_config.state),
                    )
                },
                SettingsConfig::TimeColon => {
                    &&& *final(self) == (SettingsApp {
                        time_colon_config: TimeColonConfiguration {
                            state: colon_after(old(self).time_colon_config.state),
                            ..old(self).time_colon_config
                        },
                        ..*old(self)
                    })
                    &&& task is None
                    &&& final(display)@ == preference_shown(
                        old(display)@,
                        colon_preference_text(final(self).time_colon_config.state),
                    )
                },
                SettingsConfig::AutoScrollTemp => {
                    &&& *final(self) == (SettingsApp {
                        auto_scroll_temp_config: AutoScrollTempConfiguration {
                            state: !old(self).auto_scroll_temp_config.state,
                            ..old(self).auto_scroll_temp_config
                        },
                        ..*old(self)
                    })
                    &&& task is None
                    &&& final(display)@ == preference_shown(
                        old(display)@,
                        flag_text(seq!['E', 'X', ':'], final(self).auto_scroll_temp_config.state),
                    )
                },
            },
    {
        match self.active_config {
            SettingsConfig::Hour => Some(self.hour_config.button_two_press(now)),
            SettingsConfig::Minute => Some(self.minute_config.button_two_press(now)),
            SettingsConfig::Year => Some(self.year_config.button_two_press()),
            SettingsConfig::Month => Some(self.month_config.button_two_press(now)),
            SettingsConfig::Day => Some(
                self.day_config.button_two_press(crate::rtc::is_leap_year_opt(now.year)),
            ),
            SettingsConfig::HourlyRing => {
                self.hourly_ring_config.button_two_press(display);
                None
            },
            SettingsConfig::TimeColon => {
                self.time_colon_config.button_two_press(display);
                None
            },
            SettingsConfig::AutoScrollTemp => {
                self.auto_scroll_temp_config.button_two_press(display);
                None
            },
        }
    }

    /// Handle the bottom button: the value of the active setting goes one
    /// step down. Returns what blinks from now on, if that has changed.
    pub fn button_three_press(&mut self, now: &DateTime, display: &mut DisplayMatrix) -> (task:
        Option<BlinkTask>)
        requires
            old(display).wf(),
            now.wf(),
            old(self).wf(*now),
            old(self).active_config == SettingsConfig::Year ==> old(self).year_config.year
                > i32::MIN,
        ensures
            final(display).wf(),
            final(self).wf(*now),
            final(self).active_config == old(self).active_config,
            match old(self).active_config {
                SettingsConfig::Hour => {
                    &&& *final(self) == (SettingsApp {
                        hour_config: HourConfiguration {
                            hour: stepped_down(old(self).hour_config.hour as int, 0, 23) as u32,
                            ..old(self).hour_config
                        },
                        ..*old(self)
                    })
                    &&& task == Some(BlinkTask::Hour(final(self).hour_config.hour, now.minute))
                    &&& final(display)@ == old(display)@
                },
                SettingsConfig::Minute => {
                    &&& *final(self) == (SettingsApp {
                        minute_config: MinuteConfiguration {
                            minute: stepped_down(old(self).minute_config.minute as int, 0, 59) as u32,
                            ..old(self).minute_config
                        },
                        ..*old(self)
                    })
                    &&& task == Some(BlinkTask::Minute(now.hour, final(self).minute_config.minute))
                    &&& final(display)@ == old(display)@
                },
                SettingsConfig::Year => {
                    &&& *final(self) == (SettingsApp {
                        year_config: YearConfiguration {
                            year: stepped_down(
                                old(self).year_config.year as int,
                                FIRST_YEAR as int,
                                LAST_YEAR as int,
                            ) as i32,
                            ..old(self).year_config
                        },
                        ..*old(self)
                    })
                    &&& task == Some(BlinkTask::Year(final(self).year_config.year))
                    &&& final(display)@ == old(display)@
                },
                SettingsConfig::Month => {
                    &&& *final(self) == (SettingsApp {
                        month_config: MonthConfiguration {
                            month: stepped_down(old(self).month_config.month as int, 1, 12) as u32,
                            ..old(self).month_config
                        },
                        ..*old(self)
                    })
                    &&& task == Some(BlinkTask::Month(final(self).month_config.month, now.day))
                    &&& final(display)@ == old(display)@
                },
                SettingsConfig::Day => {
                    &&& *final(self) == (SettingsApp {
                        day_config: DayConfiguration {
                            day: stepped_down(
                                old(self).day_config.day as int,
                                1,
                                max_day(now.month as int, leap_year(now.year as int)),
                            ) as u32,
                            ..old(self).day_config
                        },
                        ..*old(self)
                    })
                    &&& task == Some(BlinkTask::Day(now.month, final(self).day_config.day))
                    &&& final(display)@ == old(display)@
                },
                SettingsConfig::HourlyRing => {
                    &&& *final(self) == (SettingsApp {
                        hourly_ring_config: HourlyRingConfiguration {
                            state: !old(self).hourly_ring_config.state,
                            ..old(self).hourly_ring_config
                        },
                        ..*old(self)
                    })
                    &&& task is None
                    &&& final(display)@ == preference_shown(
                        old(display)@,
                        flag_text(seq!['H', 'R', ':'], final(self).hourly_ring_config.state),
                    )
                },
                SettingsConfig::TimeColon => {
                    &&& *final(self) == (SettingsApp {
                        time_colon_config: TimeColonConfiguration {
                            state: colon_before(old(self).time_colon_config.state),
                            ..old(self).time_colon_config
                        },
                        ..*old(self)
                    })
                    &&& task is None
                    &&& final(display)@ == preference_shown(
                        old(display)@,
                        colon_preference_text(final(self).time_colon_config.state),
                    )
                },
                SettingsConfig::AutoScrollTemp => {
                    &&& *final(self) == (SettingsApp {
                        auto_scroll_temp_config: AutoScrollTempConfiguration {
                            state: !old(self).auto_scroll_temp_config.state,
                            ..old(self).auto_scroll_temp_config
                        },
                        ..*old(self)
                    })
                    &&& task is None
                    &&& final(display)@ == preference_shown(
                        old(display)@,
                        flag_text(seq!['E', 'X', ':'], final(self).auto_scroll_temp_config.state),
                    )
                },
            },
    {
        match self.active_config {
            SettingsConfig::Hour => Some(self.hour_config.button_three_press(now)),
            SettingsConfig::Minute => Some(self.minute_config.button_three_press(now)),
            SettingsConfig::Year => Some(self.year_config.button_three_press()),
            SettingsConfig::Month => Some(self.month_config.button_three_press(now)),
            SettingsConfig::Day => Some(
                self.day_config.button_three_press(crate::rtc::is_leap_year_opt(now.year)),
            ),
            SettingsConfig::HourlyRing => {
                self.hourly_ring_config.button_two_press(display);
                None
            },
            SettingsConfig::TimeColon => {
                self.time_colon_config.button_three_press(display);
                None
            },
            SettingsConfig::AutoScrollTemp => {
                self.auto_scroll_temp_config.button_three_press(display);
                None
            },
        }
    }

    /// End of settings configuration: show "Done" at once and hold it for
    /// two seconds. The caller stops the tasks and shows the app switcher
    /// after that time.
    pub fn end(&mut self, display: &mut DisplayMatrix)
        requires
            old(display).wf(),
        ensures
            final(display).wf(),
            *final(self) == *old(self),
            final(display)@ == old(display)@.queued(
                plain_request(seq!['D', 'o', 'n', 'e'], DONE_HOLD_MS),
                true,
            ),
    {
        proof {
            reveal_strlit("Done");
        }
        assert("Done"@ =~= seq!['D', 'o', 'n', 'e']);
        let _ = display.queue_text("Done", DONE_HOLD_MS, true, false);
    }
}

} // verus!
