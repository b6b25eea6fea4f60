use pico_clock_green::display::display_matrix::DisplayMatrix;
use pico_clock_green::display::display_matrix::RenderAction;
use pico_clock_green::display::text::get_character_struct;
use pico_clock_green::display::text::Character;

/// What a waiting request says.
#[derive(Debug, PartialEq)]
struct Queued {
    glyphs: Vec<Character>,
    hold_end_ms: u64,
    start_position: usize,
    end_position: usize,
    scroll_off_display: bool,
}

/// The waiting requests, the next one first. They are taken out of the queue
/// and put back in the same order.
fn queued(display: &mut DisplayMatrix) -> Vec<Queued> {
    let shown = display.active.take();
    let cancel = display.cancel;
    let mut requests = Vec::new();
    while display.advance() != RenderAction::Idle {
        requests.push(display.active.take().unwrap().request);
    }
    let seen = requests
        .iter()
        .map(|request| Queued {
            glyphs: (0..request.glyph_count()).map(|i| request.glyph(i)).collect(),
            hold_end_ms: request.hold_end_ms,
            start_position: request.start_position,
            end_position: request.end_position,
            scroll_off_display: request.scroll_off_display,
        })
        .collect();
    for request in requests {
        assert!(display.offer(request));
    }
    display.active = shown;
    display.cancel = cancel;
    seen
}

/// Run the consumer until it has to wait for a cancellable time or has
/// nothing to do. Returns the action that stopped it and the milliseconds
/// that passed in waits that cannot be cut short.
fn run_to_hold(display: &mut DisplayMatrix) -> (RenderAction, u64) {
    let mut waited = 0;
    for _ in 0..10_000 {
        match display.advance() {
            RenderAction::Continue => {}
            RenderAction::Wait { ms, cancellable: false } => waited += ms,
            other => return (other, waited),
        }
    }
    panic!("the consumer does not come to rest");
}

fn text_pixels(display: &DisplayMatrix) -> usize {
    let mut lit = 0;
    for r in 1..8 {
        for c in 2..32 {
            if display.matrix.get_pixel(r, c) {
                lit += 1;
            }
        }
    }
    lit
}

#[test]
fn idle_display_has_nothing_to_do() {
    let mut display = DisplayMatrix::new();
    assert_eq!(display.advance(), RenderAction::Idle);
    assert!(display.active.is_none());
}

#[test]
fn text_is_painted_then_held() {
    let mut display = DisplayMatrix::new();
    assert!(display.queue_text("1", 1000, false, false));
    let (action, waited) = run_to_hold(&mut display);
    assert_eq!(action, RenderAction::Wait { ms: 1000, cancellable: true });
    assert_eq!(waited, 0);
    // '1' is 0x04 0x06 0x04 0x04 0x04 0x04 0x0E at columns 2 to 5
    let one = get_character_struct('1').unwrap();
    for r in 1..8 {
        for c in 0..4 {
            let on = (one.values[r - 1] >> c) & 1 == 1;
            assert_eq!(display.matrix.get_pixel(r, 2 + c), on, "row {} column {}", r, c);
        }
    }
    assert_eq!(text_pixels(&display), 1 + 2 + 1 + 1 + 1 + 1 + 3);
    // after the hold the request is done
    let (action, _) = run_to_hold(&mut display);
    assert_eq!(action, RenderAction::Idle);
    assert!(display.active.is_none());
}

#[test]
fn requests_are_shown_in_the_order_they_were_queued() {
    let mut display = DisplayMatrix::new();
    assert!(display.queue_text("1", 10, false, false));
    assert!(display.queue_text("2", 20, false, false));
    assert!(display.queue_text("3", 30, false, false));
    let mut holds = Vec::new();
    loop {
        match run_to_hold(&mut display).0 {
            RenderAction::Wait { ms, .. } => holds.push(ms),
            RenderAction::Idle => break,
            RenderAction::Continue => unreachable!(),
        }
    }
    assert_eq!(holds, vec![10, 20, 30]);
}

#[test]
fn the_queue_takes_sixteen_requests() {
    let mut display = DisplayMatrix::new();
    for i in 0..16 {
        assert!(display.queue_text("1", i, false, false), "request {}", i);
    }
    assert!(!display.queue_text("2", 99, false, false));
    assert_eq!(display.queue_len(), 16);
    assert_eq!(queued(&mut display)[15].hold_end_ms, 15);
    // once the consumer has fetched one there is room again
    assert_eq!(display.advance(), RenderAction::Continue);
    assert!(display.queue_text("2", 99, false, false));
    assert_eq!(display.queue_len(), 16);
    // a request to be shown at once is always taken
    assert!(display.queue_text("3", 7, true, false));
    assert_eq!(display.queue_len(), 1);
}

#[test]
fn show_now_in_the_middle_of_a_hold_supersedes_everything() {
    let mut display = DisplayMatrix::new();
    assert!(display.queue_text("88", 5000, false, false));
    assert!(display.queue_text("1", 100, false, false));
    assert!(display.queue_text("2", 100, false, false));
    let (action, _) = run_to_hold(&mut display);
    assert_eq!(action, RenderAction::Wait { ms: 5000, cancellable: true });
    assert!(text_pixels(&display) > 0);

    // in the middle of the hold
    assert!(display.queue_text("7", 300, true, false));
    assert!(display.cancel);
    assert_eq!(display.queue_len(), 1);
    assert_eq!(queued(&mut display)[0].hold_end_ms, 300);
    assert_eq!(text_pixels(&display), 0);

    // the next call drops the old request, the one after starts the new one
    assert_eq!(display.advance(), RenderAction::Continue);
    assert!(display.active.is_none());
    assert_eq!(display.advance(), RenderAction::Continue);
    assert_eq!(display.queue_len(), 0);
    assert!(!display.cancel);
    assert_eq!(display.active.as_ref().unwrap().request.hold_end_ms, 300);
    let (action, waited) = run_to_hold(&mut display);
    assert_eq!(action, RenderAction::Wait { ms: 300, cancellable: true });
    assert_eq!(waited, 0);
    let (action, _) = run_to_hold(&mut display);
    assert_eq!(action, RenderAction::Idle);
}

#[test]
fn cancel_takes_effect_only_between_glyphs() {
    let mut display = DisplayMatrix::new();
    assert!(display.queue_text("AB", 1000, false, false));
    // fetch, clear, and the first column of 'A'
    assert_eq!(display.advance(), RenderAction::Continue);
    assert_eq!(display.advance(), RenderAction::Continue);
    assert_eq!(display.advance(), RenderAction::Continue);
    display.cancel_and_remove_queue();
    // the three other columns of 'A' are still painted
    for _ in 0..3 {
        assert_eq!(display.advance(), RenderAction::Continue);
        assert!(display.active.is_some());
    }
    // the checkpoint behind 'A' drops the request
    assert_eq!(display.advance(), RenderAction::Continue);
    assert!(display.active.is_none());
    assert_eq!(display.advance(), RenderAction::Idle);
}

#[test]
fn a_pending_cancel_skips_the_hold() {
    let mut display = DisplayMatrix::new();
    assert!(display.queue_text("1", 1000, false, false));
    // fetch, clear, four columns, checkpoint
    for _ in 0..7 {
        assert_eq!(display.advance(), RenderAction::Continue);
    }
    display.cancel_and_remove_queue();
    // the hold is not waited for, and the checkpoint behind it drops the request
    assert_eq!(display.advance(), RenderAction::Continue);
    assert!(display.active.is_some());
    assert_eq!(display.advance(), RenderAction::Continue);
    assert!(display.active.is_none());
}

#[test]
fn wide_text_scrolls_in_with_pauses() {
    let mut display = DisplayMatrix::new();
    assert!(display.queue_text("123456", 0, false, false));
    let (action, waited) = run_to_hold(&mut display);
    assert_eq!(action, RenderAction::Wait { ms: 0, cancellable: true });
    // 6 columns of glyphs fall behind the viewport: one pause each, and one
    // more for each of the two glyphs that do
    assert_eq!(waited, 150 * (6 + 2));
    // the text has moved 7 columns: '3' started at column 12 and is at 5 now
    let three = get_character_struct('3').unwrap();
    for r in 1..8 {
        for c in 0..4 {
            let on = (three.values[r - 1] >> c) & 1 == 1;
            assert_eq!(display.matrix.get_pixel(r, 5 + c), on);
        }
    }
}

#[test]
fn scroll_off_leaves_the_text_area_dark() {
    let mut display = DisplayMatrix::new();
    assert!(display.queue_text("12", 0, false, true));
    let mut cancellable = Vec::new();
    loop {
        match run_to_hold(&mut display).0 {
            RenderAction::Wait { ms, .. } => cancellable.push(ms),
            RenderAction::Idle => break,
            RenderAction::Continue => unreachable!(),
        }
    }
    // the hold, raised to 150, and one delay for each of the 10 shifts
    assert_eq!(cancellable, vec![150; 11]);
    assert_eq!(text_pixels(&display), 0);
}

#[test]
fn clear_and_fill_work_at_once() {
    let mut display = DisplayMatrix::new();
    display.show_icon("Mon");
    assert!(display.queue_text("1", 1000, false, false));
    run_to_hold(&mut display);
    assert!(display.queue_text("2", 1000, false, false));
    display.clear(false);
    assert_eq!(text_pixels(&display), 0);
    assert!(display.matrix.get_pixel(0, 3));
    assert_eq!(display.queue_len(), 1);
    assert!(!display.cancel);

    display.fill_all(true);
    assert_eq!(text_pixels(&display), 7 * 30);
    assert!(display.matrix.get_pixel(0, 0));
    assert_eq!(display.queue_len(), 0);
    assert!(display.cancel);

    display.clear_all(false);
    assert_eq!(text_pixels(&display), 0);
    assert!(!display.matrix.get_pixel(0, 3));
    assert!(!display.matrix.get_pixel(0, 0));

    assert!(display.queue_text("3", 1000, false, false));
    display.clear_all(true);
    assert_eq!(display.queue_len(), 0);
    display.clear(true);
    assert!(display.cancel);
}

#[test]
fn showing_text_leaves_the_icons_alone() {
    let mut display = DisplayMatrix::new();
    for name in ["MoveOn", "\u{b0}C", "PM", "AutoLight", "Mon", "Sun"] {
        display.show_icon(name);
    }
    let icons = |display: &DisplayMatrix| {
        let mut cells = Vec::new();
        for r in 0..8 {
            for c in 0..32 {
                if (r == 0 || c < 2) && display.matrix.get_pixel(r, c) {
                    cells.push((r, c));
                }
            }
        }
        cells
    };
    let before = icons(&display);
    assert_eq!(before.len(), 2 + 1 + 1 + 2 + 2 + 2);
    assert!(display.queue_text("WWWWWWWW", 0, false, true));
    assert!(display.queue_text_from(12, ":05", 0, false));
    assert!(display.queue_text_to(13, "10:", 0, true));
    loop {
        assert_eq!(icons(&display), before);
        if display.advance() == RenderAction::Idle {
            break;
        }
    }
    // and switching icons leaves the text alone
    assert!(display.queue_text("88", 1000, false, false));
    run_to_hold(&mut display);
    let text = text_pixels(&display);
    assert!(text > 0);
    display.hide_icon("Mon");
    display.show_icon("Tue");
    display.show_icon("CountDown");
    assert_eq!(text_pixels(&display), text);
}

#[test]
fn fitting_text_is_shown_as_it_is_laid_out() {
    let mut display = DisplayMatrix::new();
    display.matrix.fill();
    assert!(display.queue_text("a.:", 1000, false, false));
    run_to_hold(&mut display);
    // 'A' at columns 2 to 5, '.' at column 7, ':' at columns 9 and 10
    let layout = [('A', 2), ('.', 7), (':', 9)];
    for r in 1..8 {
        for c in 2..32 {
            let mut expected = false;
            for (ch, start) in layout {
                let glyph = get_character_struct(ch).unwrap();
                if c >= start && c < start + glyph.width {
                    expected |= (glyph.values[r - 1] >> (c - start)) & 1 == 1;
                }
            }
            assert_eq!(display.matrix.get_pixel(r, c), expected, "row {} column {}", r, c);
        }
    }
    // the status area is still lit
    for c in 0..32 {
        assert!(display.matrix.get_pixel(0, c));
    }
    for r in 0..8 {
        assert!(display.matrix.get_pixel(r, 0) && display.matrix.get_pixel(r, 1));
    }
}

#[test]
fn the_layout_constants() {
    assert_eq!(DisplayMatrix::DISPLAY_OFFSET, 2);
    assert_eq!(DisplayMatrix::LAST_INDEX, 24);
    assert_eq!(DisplayMatrix::SCROLL_DELAY, 150);
}

#[test]
fn wide_text_ends_with_its_last_glyph_in_column_23() {
    let mut display = DisplayMatrix::new();
    display.matrix.fill();
    assert!(display.queue_text("12:341", 0, false, false));
    run_to_hold(&mut display);
    // the layout of 27 columns has moved 5 columns: the last 22 are shown
    let layout = [('1', 2), ('2', 7), (':', 12), ('3', 15), ('4', 20), ('1', 25)];
    for r in 1..8 {
        for c in 2..24 {
            let mut expected = false;
            for (ch, start) in layout {
                let glyph = get_character_struct(ch).unwrap();
                let at = c + 5;
                if at >= start && at < start + glyph.width {
                    expected |= (glyph.values[r - 1] >> (at - start)) & 1 == 1;
                }
            }
            assert_eq!(display.matrix.get_pixel(r, c), expected, "row {} column {}", r, c);
        }
    }
}

#[test]
fn a_fitting_text_leaves_no_old_pixel() {
    for text in ["12:34", "1234.", "1"] {
        let mut display = DisplayMatrix::new();
        display.matrix.fill();
        assert!(display.queue_text(text, 0, false, false));
        run_to_hold(&mut display);
        let mut start = 2;
        let mut expected = 0;
        for ch in text.chars() {
            let glyph = get_character_struct(ch).unwrap();
            for r in 1..8 {
                for c in 0..glyph.width {
                    let on = (glyph.values[r - 1] >> c) & 1 == 1;
                    assert_eq!(display.matrix.get_pixel(r, start + c), on);
                    expected += on as usize;
                }
            }
            start += glyph.width + 1;
        }
        assert_eq!(text_pixels(&display), expected, "{}", text);
    }
}

#[test]
fn scroll_off_leaves_the_text_area_dark_whatever_was_shown() {
    for text in ["1234.", "12:34", "12:341", "WWWWWWWW", "", "."] {
        let mut display = DisplayMatrix::new();
        // old pixels everywhere in columns 2 to 24
        for r in 1..8 {
            for c in 2..25 {
                display.matrix.set_pixel(r, c, true);
            }
        }
        assert!(display.queue_text(text, 0, false, true));
        let mut moves = 0;
        loop {
            match run_to_hold(&mut display).0 {
                RenderAction::Wait { ms: 150, .. } => moves += 1,
                RenderAction::Wait { .. } => unreachable!(),
                RenderAction::Idle => break,
                RenderAction::Continue => unreachable!(),
            }
        }
        for r in 1..8 {
            for c in 2..31 {
                assert!(!display.matrix.get_pixel(r, c), "{}: row {} column {}", text, r, c);
            }
        }
        // the hold, raised to 150, and one delay per move
        let expected = match text {
            "" => 1,
            "." => 1 + 2,
            "1234." => 1 + 22,
            _ => 1 + 23,
        };
        assert_eq!(moves, expected, "{}", text);
    }
}
