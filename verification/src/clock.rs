//! The clock app: the time on the display, with the icons that go with it.

use vstd::prelude::*;
use crate::buttons::ButtonPress;
use crate::config::ConfigOptions;
use crate::config::TemperaturePreference;
use crate::config::TimePreference;
use crate::display::display_matrix::day_before;
use crate::display::display_matrix::day_icon_name;
use crate::display::display_matrix::DisplayMatrix;
use crate::display::display_matrix::DisplayView;
use crate::display::display_matrix::TimeColon;
use crate::display::display_matrix::Weekday;
use crate::display::display_matrix::QUEUE_CAPACITY;
use crate::display::format::colon_text;
use crate::display::format::pair_text;
use crate::display::request::text_request;
use crate::display::request::DISPLAY_OFFSET;
use crate::display::request::LAST_INDEX;

verus! {

/// Clock app.
/// Will show the current time on the display.
#[derive(Clone, Copy, Debug, PartialEq, Eq, Structural)]
pub struct ClockApp {}

/// What the real-time clock reads.
#[derive(Clone, Copy, Debug, PartialEq, Eq, Structural)]
pub struct ClockReading {
    /// The hour, 0 to 23.
    pub hour: u32,
    /// The minute.
    pub minute: u32,
    /// The second.
    pub second: u32,
    /// The day of the week.
    pub weekday: Weekday,
}

/// What the clock task remembers from one second to the next.
#[derive(Clone, Copy, Debug, PartialEq, Eq, Structural)]
pub struct ClockState {
    /// The hour shown last.
    pub last_hour: u32,
    /// The minute shown last.
    pub last_min: u32,
    /// The day shown last.
    pub last_day: Weekday,
    /// Whether the clock beeps on the hour, as set when the task started.
    pub hourly_ring: bool,
    /// Whether the temperature scrolls by, as set when the task started.
    pub scroll_temp: bool,
}

/// What the caller does after a second of the clock task.
#[derive(Clone, Copy, Debug, PartialEq, Eq, Structural)]
pub struct ClockTick {
    /// Whether the display took the time. If its queue was full, the caller
    /// queues the time again once there is room.
    pub shown: bool,
    /// Sound a short beep: a new hour has begun.
    pub ring: bool,
    /// Read the temperature and queue it with the time.
    pub scroll_temperature: bool,
}

/// What the caller does after a press of the middle button.
#[derive(Clone, Copy, Debug, PartialEq, Eq, Structural)]
pub enum ClockAction {
    /// Read the temperature and queue it.
    ShowTemperature,
    /// Save the settings: a preference has changed.
    SaveConfig,
}

/// An hour of the 24 hour clock on the 12 hour clock. The hours up to 12
/// stay, 13 to 22 become 1 to 10, and anything later is 11.
pub open spec fn hour_on_12(hour: u32) -> u32 {
    if hour <= 12 {
        hour
    } else if hour <= 22 {
        (hour - 12) as u32
    } else {
        11
    }
}

/// The hour as the time preference shows it.
pub open spec fn hour_shown(pref: TimePreference, hour: u32) -> u32 {
    match pref {
        TimePreference::Twelve => hour_on_12(hour),
        TimePreference::TwentyFour => hour,
    }
}

/// The colon of a second. In even seconds it is blank, but its upper half
/// from 32 to 44; in odd seconds it is its upper half up to 13, its lower
/// half up to 43, and full from 45 on.
pub open spec fn colon_of(second: u32) -> TimeColon {
    if second % 2 == 0 {
        if second > 30 && second < 45 {
            TimeColon::Top
        } else {
            TimeColon::Empty
        }
    } else if second < 15 {
        TimeColon::Top
    } else if second < 45 {
        TimeColon::Bottom
    } else {
        TimeColon::Full
    }
}

/// The display after the time was queued, without a hold.
pub open spec fn time_shown(
    v: DisplayView,
    pref: TimePreference,
    hour: u32,
    minute: u32,
    colon: TimeColon,
    show_now: bool,
) -> DisplayView {
    v.queued(
        text_request(
            pair_text(hour_shown(pref, hour) as nat, colon_text(colon), minute as nat),
            0,
            DISPLAY_OFFSET as int,
            LAST_INDEX as int,
            false,
        ),
        show_now,
    )
}

/// The display with AM or PM switched as the time preference asks.
pub open spec fn time_icon_shown(v: DisplayView, pref: TimePreference, hour: u32) -> DisplayView {
    match pref {
        TimePreference::Twelve => if hour >= 12 {
            v.with_icon_named("AM"@, false).with_icon_named("PM"@, true)
        } else {
            v.with_icon_named("PM"@, false).with_icon_named("AM"@, true)
        },
        TimePreference::TwentyFour => v.with_icon_named("AM"@, false).with_icon_named(
            "PM"@,
            false,
        ),
    }
}

/// The display with the icon of the temperature unit in use.
pub open spec fn temperature_icon_shown(v: DisplayView, pref: TemperaturePreference) -> DisplayView {
    match pref {
        TemperaturePreference::Celcius => v.with_icon_named("\u{b0}F"@, false).with_icon_named(
            "\u{b0}C"@,
            true,
        ),
        TemperaturePreference::Fahrenheit => v.with_icon_named(
            "\u{b0}C"@,
            false,
        ).with_icon_named("\u{b0}F"@, true),
    }
}

/// The display with the icon of `day` on and that of the day before off.
pub open spec fn day_icon_shown(v: DisplayView, day: Weekday) -> DisplayView {
    v.with_icon_named(day_icon_name(day_before(day)), false).with_icon_named(
        day_icon_name(day),
        true,
    )
}

/// The display with `name` switched on if `on` is set.
pub open spec fn icon_if(v: DisplayView, name: Seq<char>, on: bool) -> DisplayView {
    if on {
        v.with_icon_named(name, true)
    } else {
        v
    }
}

/// The display after the clock task has started.
pub open spec fn clock_started(v: DisplayView, config: ConfigOptions, now: ClockReading) -> DisplayView {
    let time = time_shown(v, config.time_pref, now.hour, now.minute, TimeColon::Full, true);
    let day = day_icon_shown(time, now.weekday);
    let half = time_icon_shown(day, config.time_pref, now.hour);
    let ring = icon_if(half, "Hourly"@, config.hourly_ring);
    let scroll = icon_if(ring, "MoveOn"@, config.auto_scroll_temp);
    temperature_icon_shown(scroll, config.temp_pref)
}

/// The display after one second of the clock task.
pub open spec fn clock_ticked(
    v: DisplayView,
    state: ClockState,
    config: ConfigOptions,
    now: ClockReading,
) -> DisplayView {
    let time = time_shown(v, config.time_pref, now.hour, now.minute, colon_of(now.second), false);
    let half = if now.hour != state.last_hour && (now.hour == 0 || now.hour == 12) {
        time_icon_shown(time, config.time_pref, now.hour)
    } else {
        time
    };
    if now.weekday != state.last_day {
        day_icon_shown(half, now.weekday)
    } else {
        half
    }
}

/// What is remembered after one second of the clock task.
pub open spec fn clock_state_after(state: ClockState, now: ClockReading) -> ClockState {
    ClockState { last_hour: now.hour, last_min: now.minute, last_day: now.weekday, ..state }
}

/// What the caller does after one second of the clock task: it queues the
/// time again if the queue was full, it beeps when the hour has changed and
/// the hourly ring is on, and it queues the temperature at second 25 of every
/// fifth minute if that is on.
pub open spec fn clock_tick_of(v: DisplayView, state: ClockState, now: ClockReading) -> ClockTick {
    ClockTick {
        shown: v.queue.len() < QUEUE_CAPACITY,
        ring: now.hour != state.last_hour && state.hourly_ring,
        scroll_temperature: now.minute % 5 == 0 && now.second == 25 && state.scroll_temp,
    }
}

/// Convert 24hr time into 12hr time.
pub fn convert_24_to_12(hour: u32) -> (converted: u32)
    ensures
        converted == hour_on_12(hour),
{
    if hour <= 12 {
        hour
    } else if hour == 13 {
        1
    } else if hour == 14 {
        2
    } else if hour == 15 {
        3
    } else if hour == 16 {
        4
    } else if hour == 17 {
        5
    } else if hour == 18 {
        6
    } else if hour == 19 {
        7
    } else if hour == 20 {
        8
    } else if hour == 21 {
        9
    } else if hour == 22 {
        10
    } else {
        11
    }
}

/// The colon to show in a second of the minute.
pub fn colon_for_second(second: u32) -> (colon: TimeColon)
    ensures
        colon == colon_of(second),
{
    if second % 2 == 0 {
        if second > 30 && second < 45 {
            TimeColon::Top
        } else {
            TimeColon::Empty
        }
    } else if second < 15 {
        TimeColon::Top
    } else if second < 30 {
        TimeColon::Bottom
    } else if second < 45 {
        TimeColon::Bottom
    } else {
        TimeColon::Full
    }
}

/// Show the time, on the 12 hour clock if that is preferred. Returns whether
/// the display took the request.
pub fn show_time(
    display: &mut DisplayMatrix,
    pref: TimePreference,
    hour: u32,
    minute: u32,
    colon: TimeColon,
    show_now: bool,
) -> (taken: bool)
    requires
        old(display).wf(),
    ensures
        final(display).wf(),
        final(display)@ == time_shown(old(display)@, pref, hour, minute, colon, show_now),
        taken == (show_now || old(display)@.queue.len() < QUEUE_CAPACITY),
{
    let hour = match pref {
        TimePreference::Twelve => convert_24_to_12(hour),
        TimePreference::TwentyFour => hour,
    };
    display.queue_time(hour, minute, colon, 0, show_now, false)
}

impl ClockApp {
    /// Create a new clock app.
    pub fn new() -> (app: ClockApp)
        ensures
            app == (ClockApp {  }),
    {
        ClockApp {  }
    }

    /// The name of the app.
    pub fn get_name(&self) -> (name: &'static str)
        ensures
            name@ == "Clock"@,
    {
        "Clock"
    }

    /// Handle the middle button. A short press shows the temperature. A long
    /// press switches the temperature unit and its icon. A double press
    /// switches between the 12 and the 24 hour clock and sets AM and PM for
    /// `hour`.
    pub fn button_two_press(
        &mut self,
        press: ButtonPress,
        config: &mut ConfigOptions,
        display: &mut DisplayMatrix,
        hour: u32,
    ) -> (action: ClockAction)
        requires
            old(display).wf(),
        ensures
            final(display).wf(),
            press == ButtonPress::Short ==> {
                &&& action == ClockAction::ShowTemperature
                &&& *final(config) == *old(config)
                &&& final(display)@ == old(display)@
            },
            press == ButtonPress::Long ==> {
                &&& action == ClockAction::SaveConfig
                &&& *final(config) == (ConfigOptions {
                    temp_pref: match old(config).temp_pref {
                        TemperaturePreference::Celcius => TemperaturePreference::Fahrenheit,
                        TemperaturePreference::Fahrenheit => TemperaturePreference::Celcius,
                    },
                    ..*old(config)
                })
                &&& final(display)@ == temperature_icon_shown(
                    old(display)@,
                    final(config).temp_pref,
                )
            },
            press == ButtonPress::Double ==> {
                &&& action == ClockAction::SaveConfig
                &&& *final(config) == (ConfigOptions {
                    time_pref: match old(config).time_pref {
                        TimePreference::Twelve => TimePreference::TwentyFour,
                        TimePreference::TwentyFour => TimePreference::Twelve,
                    },
                    ..*old(config)
                })
                &&& final(display)@ == time_icon_shown(old(display)@, final(config).time_pref, hour)
            },
    {
        match press {
            ButtonPress::Short => ClockAction::ShowTemperature,
            ButtonPress::Long => {
                config.toggle_temperature_preference();
                display.show_temperature_icon(config.get_temperature_preference());
                ClockAction::SaveConfig
            },
            ButtonPress::Double => {
                config.toggle_time_preference();
                display.show_time_icon(config.get_time_preference(), hour);
                ClockAction::SaveConfig
            },
        }
    }
}

impl ClockState {
    /// Start the clock task: the time is shown at once with a full colon,
    /// and the icons of the day, of AM or PM, of the hourly ring, of the
    /// temperature scroll and of the temperature unit are set.
    pub fn start(display: &mut DisplayMatrix, config: &ConfigOptions, now: ClockReading) -> (state:
        ClockState)
        requires
            old(display).wf(),
        ensures
            final(display).wf(),
            final(display)@ == clock_started(old(display)@, *config, now),
            state == (ClockState {
                last_hour: now.hour,
                last_min: now.minute,
                last_day: now.weekday,
                hourly_ring: config.hourly_ring,
                scroll_temp: config.auto_scroll_temp,
            }),
    {
        let _ = show_time(display, config.time_pref, now.hour, now.minute, TimeColon::Full, true);
        display.show_day_icon(now.weekday);
        display.show_time_icon(config.time_pref, now.hour);
        if config.hourly_ring {
            display.show_icon("Hourly");
        }
        if config.auto_scroll_temp {
            display.show_icon("MoveOn");
        }
        display.show_temperature_icon(config.temp_pref);
        ClockState {
            last_hour: now.hour,
            last_min: now.minute,
            last_day: now.weekday,
            hourly_ring: config.hourly_ring,
            scroll_temp: config.auto_scroll_temp,
        }
    }

    /// One second of the clock task: the time is queued with the colon of
    /// the second; AM and PM are set when hour 0 or 12 begins; the day icon
    /// moves on when the day has changed.
    pub fn tick(&mut self, display: &mut DisplayMatrix, config: &ConfigOptions, now: ClockReading) -> (tick:
        ClockTick)
        requires
            old(display).wf(),
        ensures
            final(display).wf(),
            final(display)@ == clock_ticked(old(display)@, *old(self), *config, now),
            *final(self) == clock_state_after(*old(self), now),
            tick == clock_tick_of(old(display)@, *old(self), now),
    {
        let shown = show_time(
            display,
            config.time_pref,
            now.hour,
            now.minute,
            colon_for_second(now.second),
            false,
        );
        let mut ring = false;
        if now.hour != self.last_hour || now.minute != self.last_min {
            if now.hour != self.last_hour {
                if now.hour == 0 || now.hour == 12 {
                    display.show_time_icon(config.time_pref, now.hour);
                }
                if self.hourly_ring {
                    ring = true;
                }
            }
            self.last_hour = now.hour;
            self.last_min = now.minute;
        }
        if now.weekday != self.last_day {
            display.show_day_icon(now.weekday);
            self.last_day = now.weekday;
        }
        let scroll_temperature = now.minute % 5 == 0 && now.second == 25 && self.scroll_temp;
        ClockTick { shown, ring, scroll_temperature }
    }
}

/// The display after the time and the temperature were queued to scroll by.
pub open spec fn time_temperature_shown(
    v: DisplayView,
    config: ConfigOptions,
    hour: u32,
    minute: u32,
    temp: Seq<char>,
) -> DisplayView {
    v.queued(
        text_request(
            crate::display::format::time_temperature_text(
                hour_shown(config.time_pref, hour) as nat,
                minute as nat,
                temp,
                config.temp_pref,
            ),
            0,
            DISPLAY_OFFSET as int,
            LAST_INDEX as int,
            true,
        ),
        false,
    )
}

/// Queue the time, on the 12 hour clock if that is preferred, with the
/// temperature behind it. `temp` is the reading as text, rounded to whole
/// degrees. Returns whether the display took the request.
pub fn show_time_temperature(
    display: &mut DisplayMatrix,
    config: &ConfigOptions,
    hour: u32,
    minute: u32,
    temp: &str,
) -> (taken: bool)
    requires
        old(display).wf(),
    ensures
        final(display).wf(),
        final(display)@ == time_temperature_shown(old(display)@, *config, hour, minute, temp@),
        taken == (old(display)@.queue.len() < QUEUE_CAPACITY),
{
    let hour = match config.time_pref {
        TimePreference::Twelve => convert_24_to_12(hour),
        TimePreference::TwentyFour => hour,
    };
    display.queue_time_temperature(hour, minute, temp, config.temp_pref, false)
}

/// Queue the temperature with its unit. `temp` is the reading as text,
/// rounded to whole degrees. Returns whether the display took the request.
pub fn show_temperature(display: &mut DisplayMatrix, config: &ConfigOptions, temp: &str) -> (taken:
    bool)
    requires
        old(display).wf(),
    ensures
        final(display).wf(),
        final(display)@ == old(display)@.queued(
            text_request(
                crate::display::format::temperature_text(temp@, config.temp_pref),
                crate::display::display_matrix::TEMPERATURE_HOLD,
                DISPLAY_OFFSET as int,
                LAST_INDEX as int,
                false,
            ),
            false,
        ),
        taken == (old(display)@.queue.len() < QUEUE_CAPACITY),
{
    display.queue_temperature(temp, config.temp_pref, false, false)
}

} // verus!
