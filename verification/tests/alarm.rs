use pico_clock_green::alarm::blink;
use pico_clock_green::alarm::weekday_at;
use pico_clock_green::alarm::weekday_icon;
use pico_clock_green::alarm::weekday_index;
use pico_clock_green::alarm::ActiveConfig;
use pico_clock_green::alarm::AlarmApp;
use pico_clock_green::alarm::AlarmConfiguration;
use pico_clock_green::alarm::AlarmDay;
use pico_clock_green::alarm::AlarmHour;
use pico_clock_green::alarm::AlarmMinute;
use pico_clock_green::alarm::AlarmNumber;
use pico_clock_green::alarm::AlarmStep;
use pico_clock_green::alarm::BlinkTask;
use pico_clock_green::display::display_matrix::DisplayMatrix;
use pico_clock_green::display::display_matrix::Weekday;
use pico_clock_green::display::icons::get_icon_struct;
use pico_clock_green::display::request::RenderRequest;
use pico_clock_green::display::text::get_character_struct;
use pico_clock_green::display::text::Character;
use pico_clock_green::display::display_matrix::RenderAction;

const WEEK: [Weekday; 7] = [
    Weekday::Mon,
    Weekday::Tue,
    Weekday::Wed,
    Weekday::Thu,
    Weekday::Fri,
    Weekday::Sat,
    Weekday::Sun,
];

fn glyphs_of(request: &RenderRequest) -> Vec<Character> {
    (0..request.glyph_count()).map(|i| request.glyph(i)).collect()
}

fn glyphs_for(text: &str) -> Vec<Character> {
    text.chars().filter_map(get_character_struct).collect()
}

fn queued(display: &mut DisplayMatrix) -> Vec<(Vec<Character>, u64, usize, usize)> {
    let shown = display.active.take();
    let cancel = display.cancel;
    let mut requests = Vec::new();
    while display.advance() != RenderAction::Idle {
        requests.push(display.active.take().unwrap().request);
    }
    let seen = requests
        .iter()
        .map(|r| (glyphs_of(r), r.hold_end_ms, r.start_position, r.end_position))
        .collect();
    for request in requests {
        assert!(display.offer(request));
    }
    display.active = shown;
    display.cancel = cancel;
    seen
}

fn lit_days(display: &DisplayMatrix) -> Vec<Weekday> {
    WEEK.into_iter()
        .filter(|day| {
            let icon = get_icon_struct(weekday_icon(*day)).unwrap();
            (icon.col..icon.col + icon.width).all(|c| display.matrix.get_pixel(icon.row, c))
        })
        .collect()
}

#[test]
fn the_days_of_the_week_are_numbered_from_monday() {
    let names = ["Mon", "Tue", "Wed", "Thur", "Fri", "Sat", "Sun"];
    for (i, day) in WEEK.into_iter().enumerate() {
        assert_eq!(weekday_index(day), i);
        assert_eq!(weekday_at(i), day);
        assert_eq!(weekday_icon(day), names[i]);
    }
}

#[test]
fn blinking_takes_turns() {
    let mut display = DisplayMatrix::new();
    assert_eq!(blink(&mut display, BlinkTask::Hour(7, 5), false), 750);
    assert_eq!(queued(&mut display), vec![(glyphs_for("07:05"), 750, 2, 24)]);
    assert_eq!(blink(&mut display, BlinkTask::Hour(7, 5), true), 350);
    assert_eq!(
        queued(&mut display),
        vec![(glyphs_for("07:05"), 750, 2, 24), (glyphs_for(":05"), 350, 12, 24)]
    );
    assert_eq!(blink(&mut display, BlinkTask::Minute(7, 5), false), 750);
    assert_eq!(queued(&mut display), vec![(glyphs_for("07:05"), 750, 2, 24)]);
    assert_eq!(blink(&mut display, BlinkTask::Minute(7, 5), true), 350);
    assert_eq!(
        queued(&mut display),
        vec![(glyphs_for("07:05"), 750, 2, 24), (glyphs_for("05:"), 350, 2, 13)]
    );
    assert_eq!(blink(&mut display, BlinkTask::Day(Weekday::Thu), false), 750);
    assert_eq!(lit_days(&display), vec![Weekday::Thu]);
    assert_eq!(blink(&mut display, BlinkTask::Day(Weekday::Thu), true), 350);
    assert_eq!(lit_days(&display), vec![]);
    assert_eq!(blink(&mut display, BlinkTask::Nothing, true), 350);
    assert_eq!(blink(&mut display, BlinkTask::Nothing, false), 750);
    assert_eq!(display.queue_len(), 2);
}

#[test]
fn the_parts_of_an_alarm_go_round() {
    let mut hour = AlarmHour { hour: 23, starting_hour: 23 };
    assert!(!hour.should_save());
    hour.button_two_press();
    assert_eq!(hour.hour, 0);
    assert!(hour.should_save());
    hour.button_three_press();
    assert_eq!(hour.hour, 23);
    hour.button_three_press();
    assert_eq!(hour.hour, 22);
    let mut minute = AlarmMinute { minute: 59, starting_minute: 0 };
    assert!(minute.should_save());
    minute.button_two_press();
    assert_eq!(minute.minute, 0);
    assert!(!minute.should_save());
    minute.button_three_press();
    assert_eq!(minute.minute, 59);
    minute.button_three_press();
    assert_eq!(minute.minute, 58);
    let mut day = AlarmDay { state: false, starting_state: false };
    day.button_two_press();
    assert!(day.state && day.should_save());
    day.button_three_press();
    assert!(!day.state && !day.should_save());
    let mut display = DisplayMatrix::new();
    day.display_state(&mut display);
    assert_eq!(queued(&mut display), vec![(glyphs_for("OFF"), 0, 2, 24)]);
    day.state = true;
    day.display_state(&mut display);
    assert_eq!(queued(&mut display), vec![(glyphs_for("ON"), 0, 2, 24)]);
}

#[test]
fn an_alarm_is_set_part_by_part() {
    let mut config = AlarmConfiguration::new(AlarmNumber::Two);
    assert_eq!(config.get_name(), "Two");
    assert_eq!(AlarmConfiguration::new(AlarmNumber::One).get_name(), "One");
    let mut display = DisplayMatrix::new();
    display.show_icon("Wed");
    assert_eq!(config.start(&mut display), BlinkTask::Hour(0, 0));
    assert_eq!(config.button_three_press(&mut display), BlinkTask::Hour(23, 0));
    assert_eq!(config.button_one_short_press(&mut display), BlinkTask::Minute(23, 0));
    assert_eq!(config.button_two_press(&mut display), BlinkTask::Minute(23, 1));
    assert_eq!(display.queue_len(), 0);
    assert_eq!(lit_days(&display), vec![Weekday::Wed]);

    // Monday: the icons of the days are set and the state is shown
    assert_eq!(config.button_one_short_press(&mut display), BlinkTask::Day(Weekday::Mon));
    assert_eq!(lit_days(&display), vec![]);
    assert_eq!(queued(&mut display), vec![(glyphs_for("OFF"), 0, 2, 24)]);
    assert_eq!(config.button_two_press(&mut display), BlinkTask::Day(Weekday::Mon));
    assert_eq!(lit_days(&display), vec![Weekday::Mon]);
    assert_eq!(queued(&mut display), vec![(glyphs_for("ON"), 0, 2, 24)]);

    let mut seen = Vec::new();
    for _ in 0..6 {
        match config.button_one_short_press(&mut display) {
            BlinkTask::Day(day) => seen.push(day),
            other => panic!("{:?}", other),
        }
        assert_eq!(queued(&mut display), vec![(glyphs_for("OFF"), 0, 2, 24)]);
    }
    assert_eq!(seen, WEEK[1..].to_vec());
    assert_eq!(config.button_three_press(&mut display), BlinkTask::Day(Weekday::Sun));
    assert_eq!(lit_days(&display), vec![Weekday::Mon, Weekday::Sun]);

    // after Sunday the alarm is done
    display.hide_icon("Mon");
    assert_eq!(config.button_one_short_press(&mut display), BlinkTask::Nothing);
    assert_eq!(config.active_config, ActiveConfig::Day(Weekday::Sun));
    assert_eq!(lit_days(&display), vec![Weekday::Mon, Weekday::Sun]);
    assert_eq!(queued(&mut display), vec![(glyphs_for("Done"), 2000, 2, 24)]);
    assert_eq!((config.hour.hour, config.minute.minute), (23, 1));
    let days: Vec<bool> = config.days.iter().map(|d| d.state).collect();
    assert_eq!(days, vec![true, false, false, false, false, false, true]);
}

#[test]
fn the_alarm_menu_picks_one_of_two() {
    let mut app = AlarmApp::new();
    assert_eq!(app.get_name(), "Alarms");
    let mut display = DisplayMatrix::new();
    app.start(&mut display);
    assert_eq!(queued(&mut display), vec![(glyphs_for("One"), 0, 2, 24)]);
    assert_eq!(
        app.button_two_press(&mut display),
        AlarmStep { spawn_blink: false, task: None }
    );
    assert_eq!(app.active_alarm, AlarmNumber::Two);
    assert_eq!(queued(&mut display), vec![(glyphs_for("Two"), 0, 2, 24)]);
    app.button_three_press(&mut display);
    assert_eq!(app.active_alarm, AlarmNumber::One);
    app.button_three_press(&mut display);
    assert_eq!(app.active_alarm, AlarmNumber::Two);

    // the top button enters the alarm
    assert_eq!(
        app.button_one_short_press(&mut display),
        AlarmStep { spawn_blink: true, task: Some(BlinkTask::Hour(0, 0)) }
    );
    assert!(!app.in_menu);
    assert_eq!(
        app.button_two_press(&mut display),
        AlarmStep { spawn_blink: false, task: Some(BlinkTask::Hour(1, 0)) }
    );
    assert_eq!(
        app.button_one_short_press(&mut display),
        AlarmStep { spawn_blink: false, task: Some(BlinkTask::Minute(1, 0)) }
    );
    assert_eq!(
        app.button_three_press(&mut display),
        AlarmStep { spawn_blink: false, task: Some(BlinkTask::Minute(1, 59)) }
    );
    assert_eq!(app.alarm_two.hour.hour, 1);
    assert_eq!(app.alarm_two.minute.minute, 59);
    assert_eq!(app.alarm_one, AlarmConfiguration::new(AlarmNumber::One));
}
