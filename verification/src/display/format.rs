//! The texts of the composite requests: times, dates, years and
//! temperatures, written piece by piece into a buffer of fixed capacity.
//!
//! A piece that does not fit into what is left of the buffer is left out
//! whole. The capacity counts bytes of UTF-8.

use vstd::prelude::*;
use vstd::string::StringExecFns;
use crate::config::TemperaturePreference;
use crate::display::display_matrix::TimeColon;

verus! {

/// The capacity of the buffer of a time, a date, a year or a temperature.
pub const SHORT_TEXT: usize = 8;

/// The capacity of the buffer of a time with a temperature.
pub const LONG_TEXT: usize = 16;

#[verifier::external_type_specification]
#[verifier::external_body]
pub struct ExFixedString<const N: usize>(heapless::String<N>);

/// The number of bytes that a character takes in UTF-8.
pub open spec fn char_bytes(c: char) -> int {
    if (c as u32) < 0x80 {
        1
    } else if (c as u32) < 0x800 {
        2
    } else if (c as u32) < 0x10000 {
        3
    } else {
        4
    }
}

/// The number of bytes that a text takes in UTF-8.
pub open spec fn text_bytes(text: Seq<char>) -> int
    decreases text.len(),
{
    if text.len() == 0 {
        0
    } else {
        text_bytes(text.drop_last()) + char_bytes(text.last())
    }
}

/// `text` with `piece` behind it if both fit into `capacity` bytes, else
/// `text` alone.
pub open spec fn appended(text: Seq<char>, piece: Seq<char>, capacity: int) -> Seq<char> {
    if text_bytes(text) + text_bytes(piece) <= capacity {
        text + piece
    } else {
        text
    }
}

/// The characters that a buffer of 8 bytes holds.
pub uninterp spec fn short_text(buffer: heapless::String<8>) -> Seq<char>;

/// The characters that a buffer of 16 bytes holds.
pub uninterp spec fn long_text(buffer: heapless::String<16>) -> Seq<char>;

/// `heapless::String::new` at capacity 8: a buffer that holds nothing.
#[verifier::external_body]
pub(crate) fn short_new() -> (buffer: heapless::String<8>)
    ensures
        short_text(buffer) == Seq::<char>::empty(),
{
    heapless::String::new()
}

/// `heapless::String::push_str` at capacity 8: the piece is appended if the
/// bytes held and the bytes of the piece are at most 8 together; else the
/// buffer stays as it is.
#[verifier::external_body]
pub(crate) fn short_push_str(buffer: &mut heapless::String<8>, piece: &str)
    ensures
        short_text(*final(buffer)) == appended(short_text(*old(buffer)), piece@, SHORT_TEXT as int),
{
    let _ = buffer.push_str(piece);
}

/// `heapless::String::as_str` at capacity 8: the characters held.
#[verifier::external_body]
pub(crate) fn short_as_str(buffer: &heapless::String<8>) -> (text: &str)
    ensures
        text@ == short_text(*buffer),
{
    buffer.as_str()
}

/// `heapless::String::new` at capacity 16: a buffer that holds nothing.
#[verifier::external_body]
pub(crate) fn long_new() -> (buffer: heapless::String<16>)
    ensures
        long_text(buffer) == Seq::<char>::empty(),
{
    heapless::String::new()
}

/// `heapless::String::push_str` at capacity 16: the piece is appended if the
/// bytes held and the bytes of the piece are at most 16 together; else the
/// buffer stays as it is. Returns whether the piece was appended.
#[verifier::external_body]
pub(crate) fn long_push_str(buffer: &mut heapless::String<16>, piece: &str) -> (fitted: bool)
    ensures
        fitted == (text_bytes(long_text(*old(buffer))) + text_bytes(piece@) <= LONG_TEXT),
        long_text(*final(buffer)) == appended(long_text(*old(buffer)), piece@, LONG_TEXT as int),
{
    buffer.push_str(piece).is_ok()
}

/// `heapless::String::as_str` at capacity 16: the characters held.
#[verifier::external_body]
pub(crate) fn long_as_str(buffer: &heapless::String<16>) -> (text: &str)
    ensures
        text@ == long_text(*buffer),
{
    buffer.as_str()
}

/// The character of a decimal digit.
pub open spec fn digit_char(d: nat) -> char {
    if d == 0 {
        '0'
    } else if d == 1 {
        '1'
    } else if d == 2 {
        '2'
    } else if d == 3 {
        '3'
    } else if d == 4 {
        '4'
    } else if d == 5 {
        '5'
    } else if d == 6 {
        '6'
    } else if d == 7 {
        '7'
    } else if d == 8 {
        '8'
    } else {
        '9'
    }
}

/// The decimal digits of a number, without leading zeros.
pub open spec fn decimal(n: nat) -> Seq<char>
    decreases n,
{
    if n < 10 {
        seq![digit_char(n)]
    } else {
        decimal(n / 10).push(digit_char(n % 10))
    }
}

/// The text of one decimal digit.
fn digit_text(d: u32) -> (text: &'static str)
    requires
        d < 10,
    ensures
        text@ == seq![digit_char(d as nat)],
{
    proof {
        reveal_strlit("0");
        reveal_strlit("1");
        reveal_strlit("2");
        reveal_strlit("3");
        reveal_strlit("4");
        reveal_strlit("5");
        reveal_strlit("6");
        reveal_strlit("7");
        reveal_strlit("8");
        reveal_strlit("9");
    }
    let text = if d == 0 {
        "0"
    } else if d == 1 {
        "1"
    } else if d == 2 {
        "2"
    } else if d == 3 {
        "3"
    } else if d == 4 {
        "4"
    } else if d == 5 {
        "5"
    } else if d == 6 {
        "6"
    } else if d == 7 {
        "7"
    } else if d == 8 {
        "8"
    } else {
        "9"
    };
    assert(text@ =~= seq![digit_char(d as nat)]);
    text
}

/// Write the decimal digits of `n` behind `out`.
fn push_decimal(out: &mut String, n: u32)
    ensures
        final(out)@ == old(out)@ + decimal(n as nat),
    decreases n,
{
    if n >= 10 {
        push_decimal(out, n / 10);
    }
    out.append(digit_text(n % 10));
    assert(out@ =~= old(out)@ + decimal(n as nat));
}

/// The decimal digits of `n`.
pub fn decimal_text(n: u32) -> (text: String)
    ensures
        text@ == decimal(n as nat),
{
    let mut text = String::new();
    push_decimal(&mut text, n);
    assert(text@ =~= decimal(n as nat));
    text
}

/// `text` with the number `n` behind it, a zero before a single digit. The
/// zero and the digits are two pieces.
pub open spec fn padded(text: Seq<char>, n: nat, capacity: int) -> Seq<char> {
    if n < 10 {
        appended(appended(text, seq!['0'], capacity), decimal(n), capacity)
    } else {
        appended(text, decimal(n), capacity)
    }
}

/// The character that stands between hours and minutes: a colon, a blank,
/// or the upper or lower half of a colon.
pub open spec fn colon_text(colon: TimeColon) -> Seq<char> {
    match colon {
        TimeColon::Full => seq![':'],
        TimeColon::Empty => seq![' '],
        TimeColon::Top => seq!['\u{b1}'],
        TimeColon::Bottom => seq!['\u{a7}'],
    }
}

/// Two padded numbers with a separator between them, in 8 bytes.
pub open spec fn pair_text(left: nat, separator: Seq<char>, right: nat) -> Seq<char> {
    padded(
        appended(padded(Seq::empty(), left, SHORT_TEXT as int), separator, SHORT_TEXT as int),
        right,
        SHORT_TEXT as int,
    )
}

/// A separator and the padded number behind it, in 8 bytes.
pub open spec fn tail_text(separator: Seq<char>, right: nat) -> Seq<char> {
    padded(appended(Seq::empty(), separator, SHORT_TEXT as int), right, SHORT_TEXT as int)
}

/// A padded number and the separator behind it, in 8 bytes.
pub open spec fn head_text(left: nat, separator: Seq<char>) -> Seq<char> {
    appended(padded(Seq::empty(), left, SHORT_TEXT as int), separator, SHORT_TEXT as int)
}

/// A year in 8 bytes: a minus sign for a negative one, then its digits.
pub open spec fn year_text(year: int) -> Seq<char> {
    if year < 0 {
        appended(
            appended(Seq::empty(), seq!['-'], SHORT_TEXT as int),
            decimal((-year) as nat),
            SHORT_TEXT as int,
        )
    } else {
        appended(Seq::empty(), decimal(year as nat), SHORT_TEXT as int)
    }
}

/// The degree sign and the letter of the unit.
pub open spec fn unit_text(pref: TemperaturePreference) -> Seq<char> {
    match pref {
        TemperaturePreference::Celcius => seq!['\u{b0}', 'C'],
        TemperaturePreference::Fahrenheit => seq!['\u{b0}', 'F'],
    }
}

/// A temperature, given as its digits, and its unit, in 8 bytes.
pub open spec fn temperature_text(temp: Seq<char>, pref: TemperaturePreference) -> Seq<char> {
    appended(appended(Seq::empty(), temp, SHORT_TEXT as int), unit_text(pref), SHORT_TEXT as int)
}

/// A time, two blanks, a temperature and its unit, in 16 bytes. The
/// temperature is left out with the blanks when the blanks do not fit.
pub open spec fn time_temperature_text(
    hour: nat,
    min: nat,
    temp: Seq<char>,
    pref: TemperaturePreference,
) -> Seq<char> {
    let clock = padded(
        appended(padded(Seq::empty(), hour, LONG_TEXT as int), seq![':'], LONG_TEXT as int),
        min,
        LONG_TEXT as int,
    );
    let reading = if text_bytes(clock) + 2 <= LONG_TEXT {
        appended(clock + seq![' ', ' '], temp, LONG_TEXT as int)
    } else {
        clock
    };
    appended(reading, unit_text(pref), LONG_TEXT as int)
}

/// The text between hours and minutes.
fn colon_str(colon: TimeColon) -> (text: &'static str)
    ensures
        text@ == colon_text(colon),
{
    proof {
        reveal_strlit(":");
        reveal_strlit(" ");
        reveal_strlit("\u{b1}");
        reveal_strlit("\u{a7}");
    }
    let text = match colon {
        TimeColon::Full => ":",
        TimeColon::Empty => " ",
        TimeColon::Top => "\u{b1}",
        TimeColon::Bottom => "\u{a7}",
    };
    assert(text@ =~= colon_text(colon));
    text
}

/// The text of a unit.
fn unit_str(pref: TemperaturePreference) -> (text: &'static str)
    ensures
        text@ == unit_text(pref),
{
    proof {
        reveal_strlit("\u{b0}C");
        reveal_strlit("\u{b0}F");
    }
    let text = match pref {
        TemperaturePreference::Celcius => "\u{b0}C",
        TemperaturePreference::Fahrenheit => "\u{b0}F",
    };
    assert(text@ =~= unit_text(pref));
    text
}

/// Write a padded number behind what an 8 byte buffer holds.
fn short_push_padded(buffer: &mut heapless::String<8>, n: u32)
    ensures
        short_text(*final(buffer)) == padded(short_text(*old(buffer)), n as nat, SHORT_TEXT as int),
{
    if n < 10 {
        proof {
            reveal_strlit("0");
        }
        assert("0"@ =~= seq!['0']);
        short_push_str(buffer, "0");
    }
    let digits = decimal_text(n);
    short_push_str(buffer, digits.as_str());
}

/// Write a padded number behind what a 16 byte buffer holds.
fn long_push_padded(buffer: &mut heapless::String<16>, n: u32)
    ensures
        long_text(*final(buffer)) == padded(long_text(*old(buffer)), n as nat, LONG_TEXT as int),
{
    if n < 10 {
        proof {
            reveal_strlit("0");
        }
        assert("0"@ =~= seq!['0']);
        let _ = long_push_str(buffer, "0");
    }
    let digits = decimal_text(n);
    let _ = long_push_str(buffer, digits.as_str());
}

/// The text of a time: hours, the colon, minutes.
pub(crate) fn time_buffer(left: u32, colon: TimeColon, right: u32) -> (buffer: heapless::String<8>)
    ensures
        short_text(buffer) == pair_text(left as nat, colon_text(colon), right as nat),
{
    let mut buffer = short_new();
    short_push_padded(&mut buffer, left);
    short_push_str(&mut buffer, colon_str(colon));
    short_push_padded(&mut buffer, right);
    buffer
}

/// The text of a date: two numbers and a slash between them.
pub(crate) fn date_buffer(left: u32, right: u32) -> (buffer: heapless::String<8>)
    ensures
        short_text(buffer) == pair_text(left as nat, seq!['/'], right as nat),
{
    proof {
        reveal_strlit("/");
    }
    assert("/"@ =~= seq!['/']);
    let mut buffer = short_new();
    short_push_padded(&mut buffer, left);
    short_push_str(&mut buffer, "/");
    short_push_padded(&mut buffer, right);
    buffer
}

/// The text of a separator and the number right of it.
pub(crate) fn tail_buffer(separator: &str, right: u32) -> (buffer: heapless::String<8>)
    ensures
        short_text(buffer) == tail_text(separator@, right as nat),
{
    let mut buffer = short_new();
    short_push_str(&mut buffer, separator);
    short_push_padded(&mut buffer, right);
    buffer
}

/// The text of a number and the separator right of it.
pub(crate) fn head_buffer(left: u32, separator: &str) -> (buffer: heapless::String<8>)
    ensures
        short_text(buffer) == head_text(left as nat, separator@),
{
    let mut buffer = short_new();
    short_push_padded(&mut buffer, left);
    short_push_str(&mut buffer, separator);
    buffer
}

/// The text of a year.
pub(crate) fn year_buffer(year: i32) -> (buffer: heapless::String<8>)
    ensures
        short_text(buffer) == year_text(year as int),
{
    let mut buffer = short_new();
    if year < 0 {
        proof {
            reveal_strlit("-");
        }
        assert("-"@ =~= seq!['-']);
        short_push_str(&mut buffer, "-");
    }
    let size: u32 = if year < 0 {
        (-(year as i64)) as u32
    } else {
        year as u32
    };
    let digits = decimal_text(size);
    short_push_str(&mut buffer, digits.as_str());
    buffer
}

/// The text of a temperature and its unit.
pub(crate) fn temperature_buffer(temp: &str, pref: TemperaturePreference) -> (buffer:
    heapless::String<8>)
    ensures
        short_text(buffer) == temperature_text(temp@, pref),
{
    let mut buffer = short_new();
    short_push_str(&mut buffer, temp);
    short_push_str(&mut buffer, unit_str(pref));
    buffer
}

/// The text of a time with a temperature.
pub(crate) fn time_temperature_buffer(
    hour: u32,
    min: u32,
    temp: &str,
    pref: TemperaturePreference,
) -> (buffer: heapless::String<16>)
    ensures
        long_text(buffer) == time_temperature_text(hour as nat, min as nat, temp@, pref),
{
    proof {
        reveal_strlit(":");
        reveal_strlit("  ");
    }
    assert(":"@ =~= seq![':']);
    assert("  "@ =~= seq![' ', ' ']);
    assert(text_bytes(seq![' ', ' ']) == 2) by {
        let blanks = seq![' ', ' '];
        assert(blanks.drop_last() =~= seq![' ']);
        assert(blanks.drop_last().drop_last() =~= Seq::<char>::empty());
        reveal_with_fuel(text_bytes, 3);
    }
    let mut buffer = long_new();
    long_push_padded(&mut buffer, hour);
    let _ = long_push_str(&mut buffer, ":");
    long_push_padded(&mut buffer, min);
    let ghost clock = long_text(buffer);
    if long_push_str(&mut buffer, "  ") {
        let _ = long_push_str(&mut buffer, temp);
    }
    let _ = long_push_str(&mut buffer, unit_str(pref));
    buffer
}

} // verus!
