use pico_clock_green::app::AppController;
use pico_clock_green::app::Apps;
use pico_clock_green::app::ControllerAction;
use pico_clock_green::buttons::ButtonPress;
use pico_clock_green::clock::colon_for_second;
use pico_clock_green::clock::convert_24_to_12;
use pico_clock_green::clock::show_temperature;
use pico_clock_green::clock::show_time;
use pico_clock_green::clock::show_time_temperature;
use pico_clock_green::clock::ClockAction;
use pico_clock_green::clock::ClockApp;
use pico_clock_green::clock::ClockReading;
use pico_clock_green::clock::ClockState;
use pico_clock_green::clock::ClockTick;
use pico_clock_green::config::ConfigOptions;
use pico_clock_green::config::TemperaturePreference;
use pico_clock_green::config::TimePreference;
use pico_clock_green::display::display_matrix::DisplayMatrix;
use pico_clock_green::display::display_matrix::TimeColon;
use pico_clock_green::display::display_matrix::Weekday;
use pico_clock_green::display::icons::get_icon_struct;
use pico_clock_green::display::request::RenderRequest;
use pico_clock_green::display::text::get_character_struct;
use pico_clock_green::display::text::Character;
use pico_clock_green::speaker::sound;
use pico_clock_green::speaker::BeepPattern;
use pico_clock_green::speaker::SoundType;
use pico_clock_green::display::display_matrix::RenderAction;

/// What a waiting request says.
#[derive(Debug, PartialEq)]
struct Queued {
    glyphs: Vec<Character>,
    hold_end_ms: u64,
    start_position: usize,
    end_position: usize,
    scroll_off_display: bool,
}

/// The waiting requests, the next one first. They are taken out of the queue
/// and put back in the same order.
fn queued(display: &mut DisplayMatrix) -> Vec<Queued> {
    let shown = display.active.take();
    let cancel = display.cancel;
    let mut requests = Vec::new();
    while display.advance() != RenderAction::Idle {
        requests.push(display.active.take().unwrap().request);
    }
    let seen = requests
        .iter()
        .map(|request| Queued {
            glyphs: (0..request.glyph_count()).map(|i| request.glyph(i)).collect(),
            hold_end_ms: request.hold_end_ms,
            start_position: request.start_position,
            end_position: request.end_position,
            scroll_off_display: request.scroll_off_display,
        })
        .collect();
    for request in requests {
        assert!(display.offer(request));
    }
    display.active = shown;
    display.cancel = cancel;
    seen
}

fn glyphs_of(request: &RenderRequest) -> Vec<Character> {
    (0..request.glyph_count()).map(|i| request.glyph(i)).collect()
}

fn glyphs_for(text: &str) -> Vec<Character> {
    text.chars().filter_map(get_character_struct).collect()
}

fn shows(display: &mut DisplayMatrix, text: &str) -> bool {
    queued(display).last().unwrap().glyphs == glyphs_for(text)
}

fn icon_on(display: &DisplayMatrix, name: &str) -> bool {
    let icon = get_icon_struct(name).unwrap();
    (icon.col..icon.col + icon.width).all(|c| display.matrix.get_pixel(icon.row, c))
}

fn lit_icons(display: &DisplayMatrix) -> Vec<&'static str> {
    [
        "MoveOn", "AlarmOn", "CountDown", "\u{b0}F", "\u{b0}C", "AM", "PM", "CountUp", "Hourly",
        "AutoLight", "Mon", "Tue", "Wed", "Thur", "Fri", "Sat", "Sun",
    ]
    .into_iter()
    .filter(|name| icon_on(display, name))
    .collect()
}

fn config() -> ConfigOptions {
    ConfigOptions::new(&[0; 4096])
}

#[test]
fn hours_on_the_12_hour_clock() {
    let expected = [0, 1, 2, 3, 4, 5, 6, 7, 8, 9, 10, 11, 12, 1, 2, 3, 4, 5, 6, 7, 8, 9, 10, 11];
    for hour in 0..24u32 {
        assert_eq!(convert_24_to_12(hour), expected[hour as usize], "hour {}", hour);
    }
    assert_eq!(convert_24_to_12(24), 11);
    assert_eq!(convert_24_to_12(u32::MAX), 11);
}

#[test]
fn the_colon_of_each_second() {
    for second in 0..60u32 {
        let expected = if second % 2 == 0 {
            if (32..=44).contains(&second) {
                TimeColon::Top
            } else {
                TimeColon::Empty
            }
        } else if second <= 13 {
            TimeColon::Top
        } else if second <= 43 {
            TimeColon::Bottom
        } else {
            TimeColon::Full
        };
        assert_eq!(colon_for_second(second), expected, "second {}", second);
    }
    assert_eq!(colon_for_second(30), TimeColon::Empty);
    assert_eq!(colon_for_second(45), TimeColon::Full);
    assert_eq!(colon_for_second(15), TimeColon::Bottom);
}

#[test]
fn the_time_is_shown_as_preferred() {
    let mut display = DisplayMatrix::new();
    assert!(show_time(&mut display, TimePreference::Twelve, 15, 7, TimeColon::Full, false));
    assert!(shows(&mut display, "03:07"));
    assert!(show_time(&mut display, TimePreference::TwentyFour, 15, 7, TimeColon::Full, true));
    assert!(shows(&mut display, "15:07"));
    assert_eq!(display.queue_len(), 1);
    assert_eq!(queued(&mut display)[0].hold_end_ms, 0);
    let c = config();
    assert!(show_time_temperature(&mut display, &c, 15, 7, "21"));
    assert!(shows(&mut display, "03:07  21\u{b0}C"));
    assert!(show_temperature(&mut display, &c, "21"));
    assert!(shows(&mut display, "21\u{b0}C"));
    assert_eq!(queued(&mut display).last().unwrap().hold_end_ms, 2500);
}

#[test]
fn the_clock_sets_its_icons_when_it_starts() {
    let mut display = DisplayMatrix::new();
    display.show_icon("Tue");
    display.show_icon("\u{b0}F");
    let mut c = config();
    c.set_hourly_ring(true);
    let now = ClockReading { hour: 13, minute: 5, second: 9, weekday: Weekday::Wed };
    let state = ClockState::start(&mut display, &c, now);
    assert_eq!(
        state,
        ClockState {
            last_hour: 13,
            last_min: 5,
            last_day: Weekday::Wed,
            hourly_ring: true,
            scroll_temp: false
        }
    );
    assert!(shows(&mut display, "01:05"));
    assert!(display.cancel);
    assert_eq!(lit_icons(&display), vec!["\u{b0}C", "PM", "Hourly", "Wed"]);
}

#[test]
fn a_second_of_the_clock() {
    let mut display = DisplayMatrix::new();
    let mut c = config();
    c.set_time_preference(TimePreference::TwentyFour);
    c.set_auto_scroll_temp(true);
    c.set_hourly_ring(true);
    let start = ClockReading { hour: 23, minute: 59, second: 58, weekday: Weekday::Sun };
    let mut state = ClockState::start(&mut display, &c, start);
    assert_eq!(lit_icons(&display), vec!["MoveOn", "\u{b0}C", "Hourly", "Sun"]);

    let now = ClockReading { hour: 23, minute: 59, second: 59, weekday: Weekday::Sun };
    assert_eq!(
        state.tick(&mut display, &c, now),
        ClockTick { shown: true, ring: false, scroll_temperature: false }
    );
    assert!(shows(&mut display, "23:59"));
    assert_eq!(display.queue_len(), 2);

    // midnight: a new hour and a new day
    let now = ClockReading { hour: 0, minute: 0, second: 0, weekday: Weekday::Mon };
    assert_eq!(
        state.tick(&mut display, &c, now),
        ClockTick { shown: true, ring: true, scroll_temperature: false }
    );
    assert!(shows(&mut display, "00 00"));
    assert_eq!(lit_icons(&display), vec!["MoveOn", "\u{b0}C", "Hourly", "Mon"]);
    assert_eq!(state.last_hour, 0);
    assert_eq!(state.last_min, 0);
    assert_eq!(state.last_day, Weekday::Mon);

    // second 25 of a fifth minute
    let now = ClockReading { hour: 0, minute: 5, second: 25, weekday: Weekday::Mon };
    assert_eq!(
        state.tick(&mut display, &c, now),
        ClockTick { shown: true, ring: false, scroll_temperature: true }
    );
    assert!(shows(&mut display, "00\u{a7}05"));
    let now = ClockReading { hour: 0, minute: 6, second: 25, weekday: Weekday::Mon };
    assert!(!state.tick(&mut display, &c, now).scroll_temperature);
}

#[test]
fn a_full_queue_does_not_take_the_time() {
    let mut display = DisplayMatrix::new();
    let c = config();
    let start = ClockReading { hour: 1, minute: 2, second: 3, weekday: Weekday::Fri };
    let mut state = ClockState::start(&mut display, &c, start);
    for _ in 0..15 {
        assert!(state.tick(&mut display, &c, start).shown);
    }
    assert_eq!(display.queue_len(), 16);
    let now = ClockReading { hour: 2, minute: 2, second: 4, weekday: Weekday::Sat };
    let tick = state.tick(&mut display, &c, now);
    assert!(!tick.shown);
    assert_eq!(display.queue_len(), 16);
    // the rest of the second's work is done all the same
    assert_eq!(state.last_hour, 2);
    assert!(icon_on(&display, "Sat"));
}

#[test]
fn noon_switches_to_pm_on_the_12_hour_clock() {
    let mut display = DisplayMatrix::new();
    let c = config();
    let start = ClockReading { hour: 11, minute: 59, second: 59, weekday: Weekday::Fri };
    let mut state = ClockState::start(&mut display, &c, start);
    assert!(icon_on(&display, "AM"));
    let now = ClockReading { hour: 12, minute: 0, second: 0, weekday: Weekday::Fri };
    let tick = state.tick(&mut display, &c, now);
    assert!(!tick.ring);
    assert!(icon_on(&display, "PM"));
    assert!(!icon_on(&display, "AM"));
    assert!(shows(&mut display, "12 00"));
}

#[test]
fn the_middle_button_of_the_clock() {
    let mut app = ClockApp::new();
    assert_eq!(app.get_name(), "Clock");
    let mut display = DisplayMatrix::new();
    let mut c = config();
    assert_eq!(
        app.button_two_press(ButtonPress::Short, &mut c, &mut display, 15),
        ClockAction::ShowTemperature
    );
    assert_eq!(c, config());
    assert_eq!(
        app.button_two_press(ButtonPress::Long, &mut c, &mut display, 15),
        ClockAction::SaveConfig
    );
    assert_eq!(c.temp_pref, TemperaturePreference::Fahrenheit);
    assert_eq!(lit_icons(&display), vec!["\u{b0}F"]);
    assert_eq!(
        app.button_two_press(ButtonPress::Double, &mut c, &mut display, 15),
        ClockAction::SaveConfig
    );
    assert_eq!(c.time_pref, TimePreference::TwentyFour);
    assert_eq!(lit_icons(&display), vec!["\u{b0}F"]);
    app.button_two_press(ButtonPress::Double, &mut c, &mut display, 15);
    assert_eq!(c.time_pref, TimePreference::Twelve);
    assert_eq!(lit_icons(&display), vec!["\u{b0}F", "PM"]);
}

#[test]
fn icons_of_days_and_units() {
    let mut display = DisplayMatrix::new();
    display.show_day_icon(Weekday::Sat);
    assert_eq!(lit_icons(&display), vec!["Sat"]);
    display.show_day_icon(Weekday::Sun);
    assert_eq!(lit_icons(&display), vec!["Sun"]);
    display.show_day_icon(Weekday::Mon);
    assert_eq!(lit_icons(&display), vec!["Mon"]);
    // only the day before is switched off
    display.show_day_icon(Weekday::Thu);
    assert_eq!(lit_icons(&display), vec!["Mon", "Thur"]);
    display.show_time_icon(TimePreference::Twelve, 11);
    assert!(icon_on(&display, "AM") && !icon_on(&display, "PM"));
    display.show_time_icon(TimePreference::Twelve, 12);
    assert!(!icon_on(&display, "AM") && icon_on(&display, "PM"));
    display.show_time_icon(TimePreference::TwentyFour, 12);
    assert!(!icon_on(&display, "AM") && !icon_on(&display, "PM"));
    display.show_autolight_icon(true);
    assert!(icon_on(&display, "AutoLight"));
    display.show_autolight_icon(false);
    assert!(!icon_on(&display, "AutoLight"));
    display.show_temperature_icon(TemperaturePreference::Fahrenheit);
    display.show_temperature_icon(TemperaturePreference::Celcius);
    assert_eq!(lit_icons(&display), vec!["\u{b0}C", "Mon", "Thur"]);
    display.show_icon("Nothing");
    display.hide_icon("Nothing");
    assert_eq!(lit_icons(&display), vec!["\u{b0}C", "Mon", "Thur"]);
}

#[test]
fn the_app_picker_goes_round() {
    let mut controller = AppController::new();
    let mut display = DisplayMatrix::new();
    display.show_icon("Mon");
    assert_eq!(
        controller.button_two_press(ButtonPress::Short, &mut display),
        ControllerAction::ButtonTwo(Apps::Clock, ButtonPress::Short)
    );
    assert_eq!(
        controller.button_one_press(ButtonPress::Short),
        ControllerAction::ButtonOne(Apps::Clock)
    );
    assert_eq!(controller.button_one_press(ButtonPress::Double), ControllerAction::Nothing);
    // a long press of the top button stops the app; then the picker opens on
    // the next app
    assert_eq!(
        controller.button_one_press(ButtonPress::Long),
        ControllerAction::Stop(Apps::Clock)
    );
    assert_eq!(controller, AppController::new());
    controller.show_app_picker(&mut display);
    assert!(controller.showing_app_picker);
    assert_eq!(controller.active_app, Apps::Pomodoro);
    assert!(shows(&mut display, "Pomodoro"));
    assert_eq!(queued(&mut display)[0].hold_end_ms, 1000);
    assert!(!icon_on(&display, "Mon"));

    let mut names = Vec::new();
    for _ in 0..5 {
        assert_eq!(
            controller.button_two_press(ButtonPress::Short, &mut display),
            ControllerAction::Nothing
        );
        names.push(controller.active_app);
        assert!(shows(&mut display, controller.active_app.get_name()));
        assert_eq!(display.queue_len(), 1);
    }
    assert_eq!(
        names,
        vec![Apps::Stopwatch, Apps::Alarm, Apps::Settings, Apps::Clock, Apps::Pomodoro]
    );
    assert_eq!(
        controller.button_three_press(ButtonPress::Long, &mut display),
        ControllerAction::Nothing
    );
    assert_eq!(controller.active_app, Apps::Clock);
    assert!(shows(&mut display, "Clock"));
    controller.button_three_press(ButtonPress::Short, &mut display);
    assert_eq!(controller.active_app, Apps::Settings);
    assert!(shows(&mut display, "Settings"));
    controller.button_three_press(ButtonPress::Short, &mut display);
    assert!(shows(&mut display, "Alarms"));

    // a short press of the top button picks the app
    assert_eq!(
        controller.button_one_press(ButtonPress::Short),
        ControllerAction::Start(Apps::Alarm)
    );
    assert!(!controller.showing_app_picker);
    assert_eq!(
        controller.button_three_press(ButtonPress::Double, &mut display),
        ControllerAction::ButtonThree(Apps::Alarm, ButtonPress::Double)
    );
}

#[test]
fn sounds_are_patterns_of_beeps() {
    assert_eq!(sound(SoundType::ShortBeep), BeepPattern { times: 1, duration_ms: 100 });
    assert_eq!(sound(SoundType::LongBeep), BeepPattern { times: 1, duration_ms: 500 });
    assert_eq!(sound(SoundType::Beep(42)), BeepPattern { times: 1, duration_ms: 42 });
    assert_eq!(sound(SoundType::RepeartShortBeep(3)), BeepPattern { times: 3, duration_ms: 100 });
    assert_eq!(sound(SoundType::RepeartLongBeep(0)), BeepPattern { times: 0, duration_ms: 500 });
    assert_eq!(sound(SoundType::RepeatBeep(7, 9)), BeepPattern { times: 7, duration_ms: 9 });
}
