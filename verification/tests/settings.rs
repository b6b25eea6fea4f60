use pico_clock_green::config::ConfigOptions;
use pico_clock_green::config::TimeColonPreference;
use pico_clock_green::display::display_matrix::DisplayMatrix;
use pico_clock_green::display::request::RenderRequest;
use pico_clock_green::display::text::get_character_struct;
use pico_clock_green::display::text::Character;
use pico_clock_green::rtc::DateTime;
use pico_clock_green::settings::blink;
use pico_clock_green::settings::BlinkTask;
use pico_clock_green::settings::DayConfiguration;
use pico_clock_green::settings::HourConfiguration;
use pico_clock_green::settings::MinuteConfiguration;
use pico_clock_green::settings::MonthConfiguration;
use pico_clock_green::settings::SettingsApp;
use pico_clock_green::settings::SettingsConfig;
use pico_clock_green::settings::SettingsStep;
use pico_clock_green::settings::TimeColonConfiguration;
use pico_clock_green::settings::YearConfiguration;
use pico_clock_green::display::display_matrix::RenderAction;

fn glyphs_of(request: &RenderRequest) -> Vec<Character> {
    (0..request.glyph_count()).map(|i| request.glyph(i)).collect()
}

fn glyphs_for(text: &str) -> Vec<Character> {
    text.chars().filter_map(get_character_struct).collect()
}

fn queued(display: &mut DisplayMatrix) -> Vec<(Vec<Character>, u64, usize, usize)> {
    let shown = display.active.take();
    let cancel = display.cancel;
    let mut requests = Vec::new();
    while display.advance() != RenderAction::Idle {
        requests.push(display.active.take().unwrap().request);
    }
    let seen = requests
        .iter()
        .map(|r| (glyphs_of(r), r.hold_end_ms, r.start_position, r.end_position))
        .collect();
    for request in requests {
        assert!(display.offer(request));
    }
    display.active = shown;
    display.cancel = cancel;
    seen
}

fn now() -> DateTime {
    DateTime { year: 2024, month: 1, day: 31, hour: 23, minute: 59, second: 30 }
}

#[test]
fn blinking_shows_the_value_then_hides_the_part() {
    let mut display = DisplayMatrix::new();
    display.queue_text("OLD", 0, false, false);
    assert_eq!(blink(&mut display, BlinkTask::Hour(7, 5)), 1100);
    assert_eq!(
        queued(&mut display),
        vec![(glyphs_for("07:05"), 750, 2, 24), (glyphs_for(":05"), 350, 12, 24)]
    );
    assert_eq!(blink(&mut display, BlinkTask::Minute(7, 5)), 1100);
    assert_eq!(
        queued(&mut display),
        vec![(glyphs_for("07:05"), 750, 2, 24), (glyphs_for("07:"), 350, 2, 13)]
    );
    assert_eq!(blink(&mut display, BlinkTask::Year(2024)), 1100);
    assert_eq!(
        queued(&mut display),
        vec![(glyphs_for("2024"), 750, 2, 24), (glyphs_for(" "), 350, 2, 24)]
    );
    assert_eq!(blink(&mut display, BlinkTask::Month(2, 9)), 1100);
    assert_eq!(
        queued(&mut display),
        vec![(glyphs_for("02/09"), 750, 2, 24), (glyphs_for("/09"), 350, 12, 24)]
    );
    assert_eq!(blink(&mut display, BlinkTask::Day(2, 9)), 1100);
    assert_eq!(
        queued(&mut display),
        vec![(glyphs_for("02/09"), 750, 2, 24), (glyphs_for("02/"), 350, 2, 13)]
    );
    assert_eq!(blink(&mut display, BlinkTask::Nothing), 1100);
    assert_eq!(display.queue_len(), 2);
}

#[test]
fn values_go_round_in_their_ranges() {
    let clock = now();
    let mut hour = HourConfiguration::new();
    assert_eq!(hour.start(&clock), BlinkTask::Hour(23, 59));
    assert_eq!(hour.save(), None);
    assert_eq!(hour.button_two_press(&clock), BlinkTask::Hour(0, 59));
    assert_eq!(hour.save(), Some(0));
    assert_eq!(hour.button_three_press(&clock), BlinkTask::Hour(23, 59));
    assert_eq!(hour.button_three_press(&clock), BlinkTask::Hour(22, 59));
    assert_eq!(hour.save(), Some(22));

    let mut minute = MinuteConfiguration::new();
    assert_eq!(minute.start(&clock), BlinkTask::Minute(23, 59));
    assert_eq!(minute.button_two_press(&clock), BlinkTask::Minute(23, 0));
    assert_eq!(minute.button_three_press(&clock), BlinkTask::Minute(23, 59));
    assert_eq!(minute.button_three_press(&clock), BlinkTask::Minute(23, 58));
    assert_eq!(minute.save(), Some(58));

    let mut year = YearConfiguration::new();
    assert_eq!(year.start(&clock), BlinkTask::Year(2024));
    year.year = 2100;
    assert_eq!(year.button_two_press(), BlinkTask::Year(2000));
    assert_eq!(year.button_three_press(), BlinkTask::Year(2100));
    assert_eq!(year.button_three_press(), BlinkTask::Year(2099));
    assert_eq!(year.save(), Some(2099));
    year.year = 1999;
    assert_eq!(year.button_two_press(), BlinkTask::Year(2000));

    let mut month = MonthConfiguration::new();
    assert_eq!(month.start(&clock), BlinkTask::Month(1, 31));
    assert_eq!(month.button_three_press(&clock), BlinkTask::Month(12, 31));
    assert_eq!(month.button_two_press(&clock), BlinkTask::Month(1, 31));
    assert_eq!(month.button_two_press(&clock), BlinkTask::Month(2, 31));
    assert_eq!(month.save(), Some(2));

    let mut day = DayConfiguration::new();
    let february = DateTime { month: 2, day: 28, ..clock };
    assert_eq!(day.start(&february), BlinkTask::Day(2, 28));
    assert_eq!(day.button_two_press(true), BlinkTask::Day(2, 29));
    assert_eq!(day.button_two_press(true), BlinkTask::Day(2, 1));
    assert_eq!(day.button_three_press(false), BlinkTask::Day(2, 28));
    assert_eq!(day.button_two_press(false), BlinkTask::Day(2, 1));
    assert_eq!(day.button_three_press(true), BlinkTask::Day(2, 29));
    assert_eq!(day.save(), Some(29));
}

#[test]
fn the_colon_preference_goes_round() {
    let mut display = DisplayMatrix::new();
    let config = ConfigOptions::new(&[0xFF; 4096]);
    let mut colon = TimeColonConfiguration::new();
    assert_eq!(colon.start(&config, &mut display), BlinkTask::Nothing);
    assert_eq!(queued(&mut display), vec![(glyphs_for(":BLK"), 1000, 2, 24)]);
    colon.button_two_press(&mut display);
    assert_eq!(colon.state, TimeColonPreference::Alt);
    assert_eq!(queued(&mut display), vec![(glyphs_for(":ALT"), 1000, 2, 24)]);
    colon.button_two_press(&mut display);
    assert_eq!(colon.state, TimeColonPreference::Solid);
    assert_eq!(queued(&mut display), vec![(glyphs_for(":SLD"), 1000, 2, 24)]);
    colon.button_two_press(&mut display);
    assert_eq!(colon.state, TimeColonPreference::Blink);
    assert_eq!(colon.save(), None);
    colon.button_three_press(&mut display);
    assert_eq!(colon.state, TimeColonPreference::Solid);
    colon.button_three_press(&mut display);
    assert_eq!(colon.state, TimeColonPreference::Alt);
    colon.button_three_press(&mut display);
    assert_eq!(colon.state, TimeColonPreference::Blink);
    colon.button_three_press(&mut display);
    assert_eq!(colon.save(), Some(TimeColonPreference::Solid));
}

#[test]
fn the_settings_walk_from_the_hour_to_the_end() {
    let mut app = SettingsApp::new();
    assert_eq!(app.get_name(), "Settings");
    let mut display = DisplayMatrix::new();
    let mut config = ConfigOptions::new(&[0; 4096]);
    let mut clock = now();
    display.queue_text("X", 0, false, false);
    assert_eq!(app.start(&clock, &mut display), BlinkTask::Hour(23, 59));
    assert_eq!(display.queue_len(), 0);
    assert_eq!(app.active_config, SettingsConfig::Hour);

    // hour: 23 -> 0
    assert_eq!(app.button_two_press(&clock, &mut display), Some(BlinkTask::Hour(0, 59)));
    let step = app.button_one_short_press(&clock, &mut config, &mut display);
    clock = DateTime { hour: 0, second: 0, ..clock };
    assert_eq!(
        step,
        SettingsStep {
            write_clock: Some(clock),
            save_config: false,
            task: BlinkTask::Minute(0, 59),
            done: false
        }
    );
    assert_eq!(app.active_config, SettingsConfig::Minute);

    // minute: unchanged
    let step = app.button_one_short_press(&clock, &mut config, &mut display);
    assert_eq!(
        step,
        SettingsStep {
            write_clock: None,
            save_config: false,
            task: BlinkTask::Year(2024),
            done: false
        }
    );

    // year: 2024 -> 2023
    assert_eq!(app.button_three_press(&clock, &mut display), Some(BlinkTask::Year(2023)));
    let step = app.button_one_short_press(&clock, &mut config, &mut display);
    clock = DateTime { year: 2023, ..clock };
    assert_eq!(step.write_clock, Some(clock));
    assert_eq!(step.task, BlinkTask::Month(1, 31));

    // month: 1 -> 2; the 31st becomes the 28th
    assert_eq!(app.button_two_press(&clock, &mut display), Some(BlinkTask::Month(2, 31)));
    let step = app.button_one_short_press(&clock, &mut config, &mut display);
    clock = DateTime { month: 2, day: 28, ..clock };
    assert_eq!(step.write_clock, Some(clock));
    assert_eq!(step.task, BlinkTask::Day(2, 28));
    assert_eq!(app.active_config, SettingsConfig::Day);

    // day: 28 -> 1 -> 28 -> 27
    assert_eq!(app.button_two_press(&clock, &mut display), Some(BlinkTask::Day(2, 1)));
    assert_eq!(app.button_three_press(&clock, &mut display), Some(BlinkTask::Day(2, 28)));
    assert_eq!(app.button_three_press(&clock, &mut display), Some(BlinkTask::Day(2, 27)));
    let step = app.button_one_short_press(&clock, &mut config, &mut display);
    clock = DateTime { day: 27, ..clock };
    assert_eq!(
        step,
        SettingsStep {
            write_clock: Some(clock),
            save_config: false,
            task: BlinkTask::Nothing,
            done: false
        }
    );
    assert_eq!(queued(&mut display), vec![(glyphs_for("HR:Of"), 1000, 2, 24)]);

    // hourly ring: off -> on
    assert_eq!(app.button_three_press(&clock, &mut display), None);
    assert_eq!(queued(&mut display), vec![(glyphs_for("HR:On"), 1000, 2, 24)]);
    let step = app.button_one_short_press(&clock, &mut config, &mut display);
    assert_eq!(
        step,
        SettingsStep { write_clock: None, save_config: true, task: BlinkTask::Nothing, done: false }
    );
    assert!(config.hourly_ring);
    assert_eq!(queued(&mut display), vec![(glyphs_for(":ALT"), 1000, 2, 24)]);

    // colon: unchanged
    let step = app.button_one_short_press(&clock, &mut config, &mut display);
    assert!(!step.save_config);
    assert_eq!(app.active_config, SettingsConfig::AutoScrollTemp);
    assert_eq!(queued(&mut display), vec![(glyphs_for("EX:Of"), 1000, 2, 24)]);

    // temperature scroll: off -> on -> off -> on
    assert_eq!(app.button_two_press(&clock, &mut display), None);
    assert_eq!(app.button_two_press(&clock, &mut display), None);
    assert_eq!(app.button_two_press(&clock, &mut display), None);
    assert_eq!(queued(&mut display), vec![(glyphs_for("EX:On"), 1000, 2, 24)]);
    let step = app.button_one_short_press(&clock, &mut config, &mut display);
    assert_eq!(
        step,
        SettingsStep { write_clock: None, save_config: true, task: BlinkTask::Nothing, done: true }
    );
    assert!(config.auto_scroll_temp);
    assert_eq!(queued(&mut display), vec![(glyphs_for("Done"), 2000, 2, 24)]);
    assert_eq!(app.active_config, SettingsConfig::AutoScrollTemp);
}

#[test]
fn a_setting_is_ready_when_its_value_is_in_range() {
    let clock = now();
    let mut app = SettingsApp::new();
    assert!(app.is_ready(&clock));
    app.hour_config.hour = 24;
    assert!(!app.is_ready(&clock));
    app.active_config = SettingsConfig::Minute;
    assert!(app.is_ready(&clock));
    app.minute_config.minute = 60;
    assert!(!app.is_ready(&clock));
    app.active_config = SettingsConfig::Month;
    assert!(!app.is_ready(&clock));
    app.month_config.month = 12;
    assert!(app.is_ready(&clock));
    app.active_config = SettingsConfig::Day;
    assert!(!app.is_ready(&clock));
    app.day_config = DayConfiguration { day: 31, starting_day: 1, month: 1 };
    assert!(app.is_ready(&clock));
    app.day_config.day = 32;
    assert!(!app.is_ready(&clock));
    app.day_config = DayConfiguration { day: 1, starting_day: 1, month: 2 };
    assert!(!app.is_ready(&clock));
    app.active_config = SettingsConfig::Year;
    assert!(app.is_ready(&clock));
    app.active_config = SettingsConfig::TimeColon;
    assert!(app.is_ready(&clock));
}
