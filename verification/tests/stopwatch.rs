use pico_clock_green::buttons::ButtonPress;
use pico_clock_green::display::display_matrix::DisplayMatrix;
use pico_clock_green::display::icons::get_icon_struct;
use pico_clock_green::display::request::RenderRequest;
use pico_clock_green::display::text::get_character_struct;
use pico_clock_green::display::text::Character;
use pico_clock_green::speaker::SoundType;
use pico_clock_green::stopwatch::RunningState;
use pico_clock_green::stopwatch::StopwatchApp;
use pico_clock_green::stopwatch::StopwatchState;
use pico_clock_green::stopwatch::StopwatchStep;
use pico_clock_green::display::display_matrix::RenderAction;

/// What a waiting request says.
#[derive(Debug, PartialEq)]
struct Queued {
    glyphs: Vec<Character>,
    hold_end_ms: u64,
    start_position: usize,
    end_position: usize,
    scroll_off_display: bool,
}

/// The waiting requests, the next one first. They are taken out of the queue
/// and put back in the same order.
fn queued(display: &mut DisplayMatrix) -> Vec<Queued> {
    let shown = display.active.take();
    let cancel = display.cancel;
    let mut requests = Vec::new();
    while display.advance() != RenderAction::Idle {
        requests.push(display.active.take().unwrap().request);
    }
    let seen = requests
        .iter()
        .map(|request| Queued {
            glyphs: (0..request.glyph_count()).map(|i| request.glyph(i)).collect(),
            hold_end_ms: request.hold_end_ms,
            start_position: request.start_position,
            end_position: request.end_position,
            scroll_off_display: request.scroll_off_display,
        })
        .collect();
    for request in requests {
        assert!(display.offer(request));
    }
    display.active = shown;
    display.cancel = cancel;
    seen
}

fn glyphs_in(request: &RenderRequest) -> Vec<Character> {
    (0..request.glyph_count()).map(|i| request.glyph(i)).collect()
}

fn shows_only(display: &mut DisplayMatrix, text: &str) -> bool {
    let expected: Vec<Character> = text.chars().filter_map(get_character_struct).collect();
    let waiting = queued(display);
    waiting.len() == 1 && waiting[0].glyphs == expected
}

fn icon_lit(display: &DisplayMatrix, name: &str) -> bool {
    let icon = get_icon_struct(name).unwrap();
    (icon.col..icon.col + icon.width).all(|c| display.matrix.get_pixel(icon.row, c))
}

#[test]
fn stopwatch_counts_up_to_the_hour() {
    let mut app = StopwatchApp::new();
    assert_eq!(app.get_name(), "Stopwatch");
    assert_eq!(app.state, StopwatchState::new());
    assert_eq!(
        app.state,
        StopwatchState { running: RunningState::NotStarted, minutes: 0, seconds: 0 }
    );
    let mut display = DisplayMatrix::new();
    assert_eq!(app.stopwatch(&mut display), StopwatchStep::Stop);
    assert!(app.button_one_short_press(&mut display));
    assert!(icon_lit(&display, "CountUp"));
    assert_eq!(app.stopwatch(&mut display), StopwatchStep::WaitSecond);
    assert!(shows_only(&mut display, "00:00"));
    assert_eq!((app.state.minutes, app.state.seconds), (0, 1));
    for _ in 0..59 {
        assert_eq!(app.stopwatch(&mut display), StopwatchStep::WaitSecond);
    }
    assert_eq!((app.state.minutes, app.state.seconds), (1, 0));
    app.state.minutes = 59;
    app.state.seconds = 58;
    assert_eq!(app.stopwatch(&mut display), StopwatchStep::WaitSecond);
    assert_eq!(
        app.stopwatch(&mut display),
        StopwatchStep::Finish(SoundType::RepeartLongBeep(3))
    );
    assert!(shows_only(&mut display, "59:59"));
    assert_eq!(app.state.running, RunningState::Finished);
    assert!(!icon_lit(&display, "CountUp"));
    assert!(!app.button_one_short_press(&mut display));
    assert_eq!(app.state, StopwatchState::new());
}

#[test]
fn stopwatch_pause_and_clear() {
    let mut app = StopwatchApp::new();
    let mut display = DisplayMatrix::new();
    app.state = StopwatchState { running: RunningState::Running, minutes: 2, seconds: 30 };
    app.button_two_press(ButtonPress::Long, &mut display);
    assert_eq!((app.state.minutes, app.state.seconds), (2, 30));
    assert!(!app.button_one_short_press(&mut display));
    assert_eq!(app.state, StopwatchState { running: RunningState::Paused, minutes: 2, seconds: 29 });
    assert!(shows_only(&mut display, "02:29"));
    assert_eq!(app.stopwatch(&mut display), StopwatchStep::Sleep(100));
    app.button_three_press(ButtonPress::Short, &mut display);
    assert_eq!((app.state.minutes, app.state.seconds), (2, 29));
    app.button_three_press(ButtonPress::Long, &mut display);
    assert_eq!((app.state.minutes, app.state.seconds), (0, 0));
    assert!(shows_only(&mut display, "00:00"));
    app.state = StopwatchState { running: RunningState::Running, minutes: 2, seconds: 59 };
    app.button_one_short_press(&mut display);
    assert_eq!(app.state, StopwatchState { running: RunningState::Paused, minutes: 1, seconds: 0 });
    assert!(app.start(&mut display));
    app.stop(&mut display);
    assert_eq!(app.state.running, RunningState::Paused);
    let mut state = app.state;
    state.reset();
    assert_eq!(state, StopwatchState::new());
}
