use pico_clock_green::display::backlight::Backlight;
use pico_clock_green::display::backlight::BacklightLevel;
use pico_clock_green::display::matrix::PixelMatrix;
use pico_clock_green::display::refresh::PinStep;
use pico_clock_green::display::refresh::RefreshLoop;

#[test]
fn each_bucket_starts_at_its_lower_bound() {
    assert_eq!(BacklightLevel::from_reading(0), BacklightLevel::Brightest);
    assert_eq!(BacklightLevel::from_reading(3749), BacklightLevel::Brightest);
    assert_eq!(BacklightLevel::from_reading(3750), BacklightLevel::Bright);
    assert_eq!(BacklightLevel::from_reading(3799), BacklightLevel::Bright);
    assert_eq!(BacklightLevel::from_reading(3800), BacklightLevel::Medium);
    assert_eq!(BacklightLevel::from_reading(3849), BacklightLevel::Medium);
    assert_eq!(BacklightLevel::from_reading(3850), BacklightLevel::Dim);
    assert_eq!(BacklightLevel::from_reading(3899), BacklightLevel::Dim);
    assert_eq!(BacklightLevel::from_reading(3900), BacklightLevel::Dimmest);
    assert_eq!(BacklightLevel::from_reading(4095), BacklightLevel::Dimmest);
    assert_eq!(BacklightLevel::from_reading(u16::MAX), BacklightLevel::Dimmest);
}

#[test]
fn each_level_has_its_on_time() {
    assert_eq!(BacklightLevel::Dimmest.on_time_us(), 10);
    assert_eq!(BacklightLevel::Dim.on_time_us(), 100);
    assert_eq!(BacklightLevel::Medium.on_time_us(), 300);
    assert_eq!(BacklightLevel::Bright.on_time_us(), 700);
    assert_eq!(BacklightLevel::Brightest.on_time_us(), 1000);
}

#[test]
fn darker_light_never_shortens_the_on_time() {
    let mut last = u64::MAX;
    for reading in 3700..=3950u16 {
        let us = BacklightLevel::from_reading(reading).on_time_us();
        assert!(us <= last);
        last = us;
    }
}

#[test]
fn the_sensor_is_sampled_once_per_second_at_most() {
    let mut light = Backlight::new(5000);
    assert_eq!(light.level, BacklightLevel::Bright);
    assert!(!light.due(5000, true));
    assert!(!light.due(5999, true));
    assert!(light.due(6000, true));
    assert!(!light.due(6000, false));
    assert!(!light.due(60_000, false));

    // too early: the reading is ignored
    assert_eq!(light.update(5999, true, 0), 700);
    assert_eq!(light, Backlight { level: BacklightLevel::Bright, last_read_ms: 5000 });
    // auto brightness off: the reading is ignored
    assert_eq!(light.update(9000, false, 0), 700);
    assert_eq!(light.last_read_ms, 5000);
    // due
    assert_eq!(light.update(6000, true, 3850), 100);
    assert_eq!(light, Backlight { level: BacklightLevel::Dim, last_read_ms: 6000 });
    assert_eq!(light.update(6999, true, 0), 100);
    assert_eq!(light.update(7000, true, 0), 1000);
    assert_eq!(light.sampled(7001, 4000), 10);
    assert_eq!(light, Backlight { level: BacklightLevel::Dimmest, last_read_ms: 7001 });
}

#[test]
fn rows_are_driven_in_turn() {
    let matrix = PixelMatrix::new();
    let mut refresh = RefreshLoop::new();
    let mut rows = Vec::new();
    for _ in 0..17 {
        refresh.cycle(&matrix, 100);
        rows.push(refresh.row);
    }
    assert_eq!(rows, vec![1, 2, 3, 4, 5, 6, 7, 0, 1, 2, 3, 4, 5, 6, 7, 0, 1]);
}

#[test]
fn a_cycle_clocks_the_row_out_and_lights_it() {
    let mut matrix = PixelMatrix::new();
    matrix.set_pixel(5, 0, true);
    matrix.set_pixel(5, 31, true);
    matrix.set_pixel(4, 7, true);
    let mut refresh = RefreshLoop { row: 4 };
    let steps = refresh.cycle(&matrix, 700);
    assert_eq!(refresh.row, 5);
    // 30 dark pixels of three steps, two lit ones of four, and six more
    assert_eq!(steps.len(), 30 * 3 + 2 * 4 + 6);
    assert_eq!(
        &steps[..7],
        &[
            PinStep::Clock { high: false },
            PinStep::Data { high: false },
            PinStep::Data { high: true },
            PinStep::Clock { high: true },
            PinStep::Clock { high: false },
            PinStep::Data { high: false },
            PinStep::Clock { high: true },
        ]
    );
    assert_eq!(
        &steps[steps.len() - 10..],
        &[
            PinStep::Clock { high: false },
            PinStep::Data { high: false },
            PinStep::Data { high: true },
            PinStep::Clock { high: true },
            PinStep::Latch { high: true },
            PinStep::Latch { high: false },
            PinStep::Address { a0: true, a1: false, a2: true },
            PinStep::OutputEnable { high: false },
            PinStep::Delay { us: 700 },
            PinStep::OutputEnable { high: true },
        ]
    );
}

#[test]
fn address_lines_count_in_binary() {
    let matrix = PixelMatrix::new();
    let mut refresh = RefreshLoop::new();
    for _ in 0..8 {
        let steps = refresh.cycle(&matrix, 1);
        let row = refresh.row;
        assert_eq!(
            steps[steps.len() - 4],
            PinStep::Address { a0: row & 1 != 0, a1: row & 2 != 0, a2: row & 4 != 0 }
        );
    }
}
