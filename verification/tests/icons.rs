use pico_clock_green::display::icons::get_icon_struct;
use pico_clock_green::display::icons::text_equals;
use pico_clock_green::display::icons::Icon;

const NAMES: [&str; 17] = [
    "MoveOn", "AlarmOn", "CountDown", "\u{b0}F", "\u{b0}C", "AM", "PM", "CountUp", "Hourly",
    "AutoLight", "Mon", "Tue", "Wed", "Thur", "Fri", "Sat", "Sun",
];

#[test]
fn icons_sit_where_the_panel_has_them() {
    assert_eq!(get_icon_struct("MoveOn"), Some(Icon { row: 0, col: 0, width: 2 }));
    assert_eq!(get_icon_struct("AlarmOn"), Some(Icon { row: 1, col: 0, width: 2 }));
    assert_eq!(get_icon_struct("\u{b0}F"), Some(Icon { row: 3, col: 0, width: 1 }));
    assert_eq!(get_icon_struct("\u{b0}C"), Some(Icon { row: 3, col: 1, width: 1 }));
    assert_eq!(get_icon_struct("AM"), Some(Icon { row: 4, col: 0, width: 1 }));
    assert_eq!(get_icon_struct("PM"), Some(Icon { row: 4, col: 1, width: 1 }));
    assert_eq!(get_icon_struct("AutoLight"), Some(Icon { row: 7, col: 0, width: 2 }));
    assert_eq!(get_icon_struct("Mon"), Some(Icon { row: 0, col: 3, width: 2 }));
    assert_eq!(get_icon_struct("Thur"), Some(Icon { row: 0, col: 12, width: 2 }));
    assert_eq!(get_icon_struct("Sun"), Some(Icon { row: 0, col: 21, width: 2 }));
}

#[test]
fn unknown_icon_is_not_found() {
    assert_eq!(get_icon_struct("Thu"), None);
    assert_eq!(get_icon_struct("mon"), None);
    assert_eq!(get_icon_struct(""), None);
    assert_eq!(get_icon_struct("MoveOnn"), None);
}

#[test]
fn icons_stay_in_the_status_area() {
    for name in NAMES {
        let icon = get_icon_struct(name).unwrap();
        assert!(icon.row < 8);
        assert!(icon.width == 1 || icon.width == 2);
        for c in icon.col..icon.col + icon.width {
            assert!(c < 32);
            assert!(icon.row == 0 || c < 2, "{} reaches into the text area", name);
        }
        if icon.col >= 2 {
            assert_eq!(icon.row, 0);
        }
    }
}

#[test]
fn no_two_icons_share_a_cell() {
    let mut owner: [[Option<&str>; 32]; 8] = [[None; 32]; 8];
    for name in NAMES {
        let icon = get_icon_struct(name).unwrap();
        for c in icon.col..icon.col + icon.width {
            assert_eq!(owner[icon.row][c], None, "{} overlaps", name);
            owner[icon.row][c] = Some(name);
        }
    }
}

#[test]
fn texts_compare_by_their_characters() {
    assert!(text_equals("Mon", "Mon"));
    assert!(!text_equals("Mon", "Mo"));
    assert!(!text_equals("Mon", "Mom"));
    assert!(text_equals("", ""));
    assert!(text_equals("\u{b0}C", "\u{b0}C"));
    assert!(!text_equals("\u{b0}C", "\u{b0}F"));
}
