use pico_clock_green::display::text::get_character_struct;
use pico_clock_green::display::text::to_upper;
use pico_clock_green::display::text::Character;

#[test]
fn digit_one_has_its_bitmap() {
    let glyph = get_character_struct('1').unwrap();
    assert_eq!(glyph, Character { width: 4, values: [0x04, 0x06, 0x04, 0x04, 0x04, 0x04, 0x0E] });
}

#[test]
fn letters_match_in_either_case() {
    assert_eq!(get_character_struct('m'), get_character_struct('M'));
    assert_eq!(get_character_struct('m').unwrap().width, 5);
    assert_eq!(to_upper('z'), 'Z');
    assert_eq!(to_upper('Z'), 'Z');
    assert_eq!(to_upper('{'), '{');
    assert_eq!(to_upper('`'), '`');
}

#[test]
fn unknown_character_has_no_glyph() {
    assert_eq!(get_character_struct('#'), None);
    assert_eq!(get_character_struct('\u{e9}'), None);
    assert_eq!(get_character_struct('\u{1F600}'), None);
}

#[test]
fn special_glyphs_are_in_the_table() {
    let colon = get_character_struct(':').unwrap();
    assert_eq!(colon, Character { width: 2, values: [0, 3, 3, 0, 3, 3, 0] });
    let upper = get_character_struct('\u{b1}').unwrap();
    assert_eq!(upper, Character { width: 2, values: [0, 3, 3, 0, 0, 0, 0] });
    let lower = get_character_struct('\u{a7}').unwrap();
    assert_eq!(lower, Character { width: 2, values: [0, 0, 0, 0, 3, 3, 0] });
    let degree = get_character_struct('\u{b0}').unwrap();
    assert_eq!(degree, Character { width: 2, values: [3, 3, 0, 0, 0, 0, 0] });
    let blank = get_character_struct('_').unwrap();
    assert_eq!(blank, Character { width: 1, values: [0; 7] });
    let slash = get_character_struct('/').unwrap();
    assert_eq!(slash, Character { width: 2, values: [2, 2, 2, 1, 1, 1, 1] });
}

#[test]
fn every_glyph_is_one_to_five_columns_of_seven_rows() {
    let mut found = 0;
    for code in 0u32..0x3000 {
        let c = match char::from_u32(code) {
            Some(c) => c,
            None => continue,
        };
        if let Some(glyph) = get_character_struct(c) {
            found += 1;
            assert!(glyph.width >= 1 && glyph.width <= 5, "width of {:?}", c);
            assert_eq!(glyph.values.len(), 7);
            for row in glyph.values {
                assert!((row as usize) < (1usize << glyph.width), "row of {:?}", c);
            }
        }
    }
    // 46 entries, and the 26 letters once more in lower case
    assert_eq!(found, 46 + 26);
}
