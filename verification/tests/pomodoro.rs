use pico_clock_green::buttons::ButtonPress;
use pico_clock_green::display::display_matrix::DisplayMatrix;
use pico_clock_green::display::icons::get_icon_struct;
use pico_clock_green::display::request::RenderRequest;
use pico_clock_green::display::text::get_character_struct;
use pico_clock_green::display::text::Character;
use pico_clock_green::speaker::SoundType;
use pico_clock_green::pomodoro::CountdownStep;
use pico_clock_green::pomodoro::PomoState;
use pico_clock_green::pomodoro::PomodoroApp;
use pico_clock_green::pomodoro::RunningState;
use pico_clock_green::display::display_matrix::RenderAction;

/// What a waiting request says.
#[derive(Debug, PartialEq)]
struct Queued {
    glyphs: Vec<Character>,
    hold_end_ms: u64,
    start_position: usize,
    end_position: usize,
    scroll_off_display: bool,
}

/// The waiting requests, the next one first. They are taken out of the queue
/// and put back in the same order.
fn queued(display: &mut DisplayMatrix) -> Vec<Queued> {
    let shown = display.active.take();
    let cancel = display.cancel;
    let mut requests = Vec::new();
    while display.advance() != RenderAction::Idle {
        requests.push(display.active.take().unwrap().request);
    }
    let seen = requests
        .iter()
        .map(|request| Queued {
            glyphs: (0..request.glyph_count()).map(|i| request.glyph(i)).collect(),
            hold_end_ms: request.hold_end_ms,
            start_position: request.start_position,
            end_position: request.end_position,
            scroll_off_display: request.scroll_off_display,
        })
        .collect();
    for request in requests {
        assert!(display.offer(request));
    }
    display.active = shown;
    display.cancel = cancel;
    seen
}

fn glyphs_of(request: &RenderRequest) -> Vec<Character> {
    (0..request.glyph_count()).map(|i| request.glyph(i)).collect()
}

fn shows(display: &mut DisplayMatrix, text: &str) -> bool {
    let expected: Vec<Character> = text.chars().filter_map(get_character_struct).collect();
    let waiting = queued(display);
    waiting.len() == 1 && waiting[0].glyphs == expected
}

fn icon_on(display: &DisplayMatrix, name: &str) -> bool {
    let icon = get_icon_struct(name).unwrap();
    (icon.col..icon.col + icon.width).all(|c| display.matrix.get_pixel(icon.row, c))
}

#[test]
fn pomodoro_starts_at_thirty_minutes() {
    let state = PomoState::new();
    assert_eq!(state, PomoState { running: RunningState::NotStarted, minutes: 30, seconds: 0 });
    let mut state = PomoState { running: RunningState::Finished, minutes: 3, seconds: 4 };
    state.reset();
    assert_eq!(state, PomoState::new());
    let app = PomodoroApp::new();
    assert_eq!(app.state, PomoState::new());
    assert_eq!(app.get_name(), "Pomodoro");
}

#[test]
fn pomodoro_buttons_set_the_minutes() {
    let mut app = PomodoroApp::new();
    let mut display = DisplayMatrix::new();
    app.button_two_press(ButtonPress::Short, &mut display);
    assert_eq!(app.state.minutes, 31);
    assert!(shows(&mut display, "31:00"));
    app.state.minutes = 60;
    app.button_two_press(ButtonPress::Short, &mut display);
    assert_eq!(app.state.minutes, 1);
    app.button_three_press(ButtonPress::Short, &mut display);
    assert_eq!(app.state.minutes, 60);
    app.button_three_press(ButtonPress::Short, &mut display);
    assert_eq!(app.state.minutes, 59);
    assert!(shows(&mut display, "59:00"));
    app.button_three_press(ButtonPress::Double, &mut display);
    assert_eq!(app.state.minutes, 59);
    app.state.seconds = 12;
    app.button_three_press(ButtonPress::Long, &mut display);
    assert_eq!((app.state.minutes, app.state.seconds), (30, 0));
    app.state.minutes = 7;
    app.button_two_press(ButtonPress::Long, &mut display);
    assert_eq!((app.state.minutes, app.state.seconds), (30, 0));
}

#[test]
fn pomodoro_counts_down_to_zero() {
    let mut app = PomodoroApp::new();
    let mut display = DisplayMatrix::new();
    assert_eq!(app.countdown(&mut display), CountdownStep::Stop);
    app.state.minutes = 1;
    assert!(app.button_one_short_press(&mut display));
    assert_eq!(app.state.running, RunningState::Running);
    assert!(icon_on(&display, "CountDown"));
    // the buttons do nothing while it runs
    app.button_two_press(ButtonPress::Short, &mut display);
    app.button_three_press(ButtonPress::Long, &mut display);
    assert_eq!(app.state.minutes, 1);

    assert_eq!(app.countdown(&mut display), CountdownStep::WaitSecond);
    assert!(shows(&mut display, "01:00"));
    assert_eq!((app.state.minutes, app.state.seconds), (0, 59));
    let mut rounds = 1;
    while app.countdown(&mut display) == CountdownStep::WaitSecond {
        rounds += 1;
        assert!(rounds <= 60);
    }
    assert_eq!(rounds, 60);
    assert!(shows(&mut display, "00:00"));
    assert_eq!(app.state.running, RunningState::Finished);
    assert!(!icon_on(&display, "CountDown"));
    assert_eq!(app.countdown(&mut display), CountdownStep::Stop);

    // the top button resets a finished countdown
    assert!(!app.button_one_short_press(&mut display));
    assert_eq!(app.state, PomoState::new());
    assert!(shows(&mut display, "30:00"));
}

#[test]
fn pomodoro_finishes_with_three_long_beeps() {
    let mut app = PomodoroApp::new();
    let mut display = DisplayMatrix::new();
    app.state = PomoState { running: RunningState::Running, minutes: 0, seconds: 0 };
    assert_eq!(
        app.countdown(&mut display),
        CountdownStep::Finish(SoundType::RepeartLongBeep(3))
    );
    assert_eq!(app.set_running(&mut display, RunningState::Finished), Some(SoundType::RepeartLongBeep(3)));
    assert_eq!(app.set_running(&mut display, RunningState::Paused), None);
}

#[test]
fn pomodoro_pause_gives_the_lost_second_back() {
    let mut app = PomodoroApp::new();
    let mut display = DisplayMatrix::new();
    app.state = PomoState { running: RunningState::Running, minutes: 4, seconds: 59 };
    assert!(!app.button_one_short_press(&mut display));
    assert_eq!(app.state, PomoState { running: RunningState::Paused, minutes: 5, seconds: 0 });
    assert!(shows(&mut display, "05:00"));
    assert_eq!(app.countdown(&mut display), CountdownStep::Sleep(100));
    assert!(!app.button_one_short_press(&mut display));
    assert_eq!(app.state.running, RunningState::Running);
    app.state.seconds = 10;
    app.button_one_short_press(&mut display);
    assert_eq!(app.state, PomoState { running: RunningState::Paused, minutes: 5, seconds: 11 });
}

#[test]
fn pomodoro_start_and_stop() {
    let mut display = DisplayMatrix::new();
    display.show_icon("Mon");
    let mut app = PomodoroApp::new();
    assert!(!app.start(&mut display));
    assert!(shows(&mut display, "30:00"));
    assert!(!icon_on(&display, "Mon"));
    app.state.running = RunningState::Running;
    display.show_icon("CountDown");
    app.stop(&mut display);
    assert_eq!(app.state.running, RunningState::Paused);
    assert!(!icon_on(&display, "CountDown"));
    app.stop(&mut display);
    assert_eq!(app.state.running, RunningState::Paused);
    assert!(app.start(&mut display));
    app.state = PomoState { running: RunningState::Finished, minutes: 0, seconds: 0 };
    assert!(!app.start(&mut display));
    assert_eq!(app.state, PomoState::new());
}
