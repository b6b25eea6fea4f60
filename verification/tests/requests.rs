use pico_clock_green::display::display_matrix::DisplayMatrix;
use pico_clock_green::display::layout::plan_render;
use pico_clock_green::display::layout::text_width;
use pico_clock_green::display::layout::RenderOp;
use pico_clock_green::display::request::missing_glyphs;
use pico_clock_green::display::request::RenderRequest;
use pico_clock_green::display::text::get_character_struct;
use pico_clock_green::display::text::Character;
use pico_clock_green::display::display_matrix::RenderAction;

/// What a waiting request says.
#[derive(Debug, PartialEq)]
struct Queued {
    glyphs: Vec<Character>,
    hold_end_ms: u64,
    start_position: usize,
    end_position: usize,
    scroll_off_display: bool,
}

/// The waiting requests, the next one first. They are taken out of the queue
/// and put back in the same order.
fn queued(display: &mut DisplayMatrix) -> Vec<Queued> {
    let shown = display.active.take();
    let cancel = display.cancel;
    let mut requests = Vec::new();
    while display.advance() != RenderAction::Idle {
        requests.push(display.active.take().unwrap().request);
    }
    let seen = requests
        .iter()
        .map(|request| Queued {
            glyphs: (0..request.glyph_count()).map(|i| request.glyph(i)).collect(),
            hold_end_ms: request.hold_end_ms,
            start_position: request.start_position,
            end_position: request.end_position,
            scroll_off_display: request.scroll_off_display,
        })
        .collect();
    for request in requests {
        assert!(display.offer(request));
    }
    display.active = shown;
    display.cancel = cancel;
    seen
}

fn glyphs_of(request: &RenderRequest) -> Vec<Character> {
    (0..request.glyph_count()).map(|i| request.glyph(i)).collect()
}

fn glyphs_for(text: &str) -> Vec<Character> {
    text.chars().filter_map(get_character_struct).collect()
}

#[test]
fn queue_text_builds_a_request_of_five_glyphs() {
    let mut display = DisplayMatrix::new();
    assert!(display.queue_text("12:34", 1000, false, false));
    assert_eq!(display.queue_len(), 1);
    assert_eq!(
        queued(&mut display),
        vec![Queued {
            glyphs: glyphs_for("12:34"),
            hold_end_ms: 1000,
            start_position: 2,
            end_position: 24,
            scroll_off_display: false,
        }]
    );
    // the consumer fetches the request as it was queued
    assert_eq!(display.advance(), RenderAction::Continue);
    let request = &display.active.as_ref().unwrap().request;
    assert_eq!(request.glyph_count(), 5);
    assert_eq!(glyphs_of(request), glyphs_for("12:34"));
    // 4 + 4 + 2 + 4 + 4 columns and one blank column between two glyphs
    assert_eq!(text_width(request), 22);
}

#[test]
fn glyphs_are_placed_one_blank_column_apart() {
    let request = RenderRequest::from_text("12:34", 1000, 2, 24, false);
    let plan = plan_render(&request);
    let paints: Vec<(usize, usize, usize)> = plan
        .iter()
        .filter_map(|op| match op {
            RenderOp::Paint { glyph, column, at } => Some((*glyph, *column, *at)),
            _ => None,
        })
        .collect();
    let mut expected = Vec::new();
    for (glyph, (start, width)) in [(2, 4), (7, 4), (12, 2), (15, 4), (20, 4)].iter().enumerate() {
        for column in 0..*width {
            expected.push((glyph, column, start + column));
        }
    }
    assert_eq!(paints, expected);
    assert!(!plan.iter().any(|op| matches!(op, RenderOp::ShiftLeft { .. })));
}

#[test]
fn text_is_cut_to_32_characters() {
    let long = "0123456789012345678901234567890123456789";
    let request = RenderRequest::from_text(long, 0, 2, 24, false);
    assert_eq!(request.glyph_count(), 32);
    assert_eq!(glyphs_of(&request), glyphs_for(&long[..32]));
}

#[test]
fn characters_without_a_glyph_are_skipped() {
    let request = RenderRequest::from_text("a#b!c", 0, 2, 24, false);
    assert_eq!(glyphs_of(&request), glyphs_for("ABC"));
    // the cut to 32 characters comes before the skipping
    let text = "################################ABC";
    let request = RenderRequest::from_text(text, 0, 2, 24, false);
    assert_eq!(request.glyph_count(), 0);
    let request = RenderRequest::from_text("", 0, 2, 24, false);
    assert_eq!(request.glyph_count(), 0);
}

#[test]
fn text_of_two_byte_characters_is_cut_by_characters() {
    // 33 degree signs: 66 bytes, 33 characters
    let text = "\u{b0}".repeat(33);
    let request = RenderRequest::from_text(&text, 0, 2, 24, false);
    assert_eq!(request.glyph_count(), 32);
}

#[test]
fn anchored_requests_keep_their_window() {
    let mut display = DisplayMatrix::new();
    assert!(display.queue_text_from(12, ":05", 350, false));
    assert!(display.queue_text_to(13, "10:", 350, false));
    let waiting = queued(&mut display);
    assert_eq!(waiting[0].start_position, 12);
    assert_eq!(waiting[0].end_position, 24);
    assert!(!waiting[0].scroll_off_display);
    assert_eq!(waiting[0].glyphs, glyphs_for(":05"));
    assert_eq!(waiting[1].start_position, 2);
    assert_eq!(waiting[1].end_position, 13);
    assert_eq!(waiting[1].glyphs, glyphs_for("10:"));
}

#[test]
fn characters_without_a_glyph_are_named() {
    assert_eq!(missing_glyphs("12:34"), vec![]);
    assert_eq!(missing_glyphs("a#b!c#"), vec!['#', '!', '#']);
    assert_eq!(missing_glyphs(""), vec![]);
    assert_eq!(missing_glyphs("\u{e9}t\u{e9}"), vec!['\u{e9}', '\u{e9}']);
    // only the first 32 characters count
    let text = "#".repeat(31) + "A##";
    assert_eq!(missing_glyphs(&text), vec!['#'; 31]);
}
