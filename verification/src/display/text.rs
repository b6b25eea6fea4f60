//! The glyph table: one bitmap per printable character.

use vstd::prelude::*;

verus! {

/// Number of bitmap rows of a glyph (matrix rows 1 to 7).
pub const GLYPH_ROWS: usize = 7;

/// Largest glyph width in columns.
pub const MAX_GLYPH_WIDTH: usize = 5;

/// The bitmap of one printable character.
///
/// Bit `c` of `values[r]` is the pixel of glyph column `c` in glyph row `r`.
#[derive(Clone, Copy, Debug, PartialEq, Eq)]
pub struct Character {
    /// The width of the character in columns.
    pub width: usize,
    /// One bitmask per row, top row first.
    pub values: [u8; 7],
}

impl Character {
    /// A glyph is well formed when it is 1 to 5 columns wide and no row has a
    /// bit set at or beyond its width.
    pub open spec fn wf(&self) -> bool {
        &&& 1 <= self.width <= MAX_GLYPH_WIDTH
        &&& forall|r: int| 0 <= r < 7 ==> (#[trigger] self.values[r] as int) < pow2_small(self.width as int)
    }

    /// Create a new character.
    pub fn new(width: usize, values: [u8; 7]) -> (c: Character)
        ensures
            c.width == width,
            c.values == values,
    {
        Character { width, values }
    }
}

/// Two to the power `w`, for the widths a glyph can have.
pub open spec fn pow2_small(w: int) -> int {
    if w <= 0 {
        1
    } else if w == 1 {
        2
    } else if w == 2 {
        4
    } else if w == 3 {
        8
    } else if w == 4 {
        16
    } else {
        32
    }
}

/// The upper-case form of an ASCII letter; every other character is itself.
pub open spec fn upper_of(c: char) -> char {
    if 'a' <= c <= 'z' {
        ((c as u8) - 32) as char
    } else {
        c
    }
}

/// Upper-case an ASCII letter and leave every other character alone.
pub fn to_upper(c: char) -> (r: char)
    ensures
        r == upper_of(c),
{
    if 'a' <= c && c <= 'z' {
        ((c as u8) - 32) as char
    } else {
        c
    }
}

/// The glyph table. `'\u{b1}'` is the upper half of a colon, `'\u{a7}'` its
/// lower half, `'\u{b0}'` the degree sign and `'_'` one blank column.
pub open spec fn glyph_table(c: char) -> Option<Character> {
    match c {
        '0' => Some(Character { width: 4, values: [0x06, 0x09, 0x09, 0x09, 0x09, 0x09, 0x06] }),
        '1' => Some(Character { width: 4, values: [0x04, 0x06, 0x04, 0x04, 0x04, 0x04, 0x0E] }),
        '2' => Some(Character { width: 4, values: [0x06, 0x09, 0x08, 0x04, 0x02, 0x01, 0x0F] }),
        '3' => Some(Character { width: 4, values: [0x06, 0x09, 0x08, 0x06, 0x08, 0x09, 0x06] }),
        '4' => Some(Character { width: 4, values: [0x08, 0x0C, 0x0A, 0x09, 0x0F, 0x08, 0x08] }),
        '5' => Some(Character { width: 4, values: [0x0F, 0x01, 0x07, 0x08, 0x08, 0x09, 0x06] }),
        '6' => Some(Character { width: 4, values: [0x04, 0x02, 0x01, 0x07, 0x09, 0x09, 0x06] }),
        '7' => Some(Character { width: 4, values: [0x0F, 0x09, 0x04, 0x04, 0x04, 0x04, 0x04] }),
        '8' => Some(Character { width: 4, values: [0x06, 0x09, 0x09, 0x06, 0x09, 0x09, 0x06] }),
        '9' => Some(Character { width: 4, values: [0x06, 0x09, 0x09, 0x0E, 0x08, 0x04, 0x02] }),
        'A' => Some(Character { width: 4, values: [0x06, 0x09, 0x09, 0x0F, 0x09, 0x09, 0x09] }),
        'B' => Some(Character { width: 4, values: [0x07, 0x09, 0x09, 0x07, 0x09, 0x09, 0x07] }),
        'C' => Some(Character { width: 4, values: [0x06, 0x09, 0x01, 0x01, 0x01, 0x09, 0x06] }),
        'D' => Some(Character { width: 4, values: [0x07, 0x09, 0x09, 0x09, 0x09, 0x09, 0x07] }),
        'E' => Some(Character { width: 4, values: [0x0F, 0x01, 0x01, 0x0F, 0x01, 0x01, 0x0F] }),
        'F' => Some(Character { width: 4, values: [0x0F, 0x01, 0x01, 0x0F, 0x01, 0x01, 0x01] }),
        'G' => Some(Character { width: 4, values: [0x06, 0x09, 0x01, 0x0D, 0x09, 0x09, 0x06] }),
        'H' => Some(Character { width: 4, values: [0x09, 0x09, 0x09, 0x0F, 0x09, 0x09, 0x09] }),
        'I' => Some(Character { width: 3, values: [0x07, 0x02, 0x02, 0x02, 0x02, 0x02, 0x07] }),
        'J' => Some(Character { width: 4, values: [0x0F, 0x08, 0x08, 0x08, 0x09, 0x09, 0x06] }),
        'K' => Some(Character { width: 4, values: [0x09, 0x05, 0x03, 0x01, 0x03, 0x05, 0x09] }),
        'L' => Some(Character { width: 4, values: [0x01, 0x01, 0x01, 0x01, 0x01, 0x01, 0x0F] }),
        'M' => Some(Character { width: 5, values: [0x11, 0x1B, 0x15, 0x11, 0x11, 0x11, 0x11] }),
        'N' => Some(Character { width: 4, values: [0x09, 0x09, 0x0B, 0x0D, 0x09, 0x09, 0x09] }),
        'O' => Some(Character { width: 4, values: [0x06, 0x09, 0x09, 0x09, 0x09, 0x09, 0x06] }),
        'P' => Some(Character { width: 4, values: [0x07, 0x09, 0x09, 0x07, 0x01, 0x01, 0x01] }),
        'Q' => Some(Character { width: 5, values: [0x0E, 0x11, 0x11, 0x11, 0x15, 0x19, 0x0E] }),
        'R' => Some(Character { width: 4, values: [0x07, 0x09, 0x09, 0x07, 0x03, 0x05, 0x09] }),
        'S' => Some(Character { width: 4, values: [0x06, 0x09, 0x02, 0x04, 0x08, 0x09, 0x06] }),
        'T' => Some(Character { width: 5, values: [0x1F, 0x04, 0x04, 0x04, 0x04, 0x04, 0x04] }),
        'U' => Some(Character { width: 4, values: [0x09, 0x09, 0x09, 0x09, 0x09, 0x09, 0x06] }),
        'V' => Some(Character { width: 5, values: [0x11, 0x11, 0x11, 0x11, 0x11, 0x0A, 0x04] }),
        'W' => Some(Character { width: 5, values: [0x11, 0x11, 0x11, 0x15, 0x15, 0x1B, 0x11] }),
        'X' => Some(Character { width: 5, values: [0x11, 0x0A, 0x04, 0x04, 0x04, 0x0A, 0x11] }),
        'Y' => Some(Character { width: 5, values: [0x11, 0x11, 0x0A, 0x04, 0x04, 0x04, 0x04] }),
        'Z' => Some(Character { width: 4, values: [0x0F, 0x08, 0x04, 0x02, 0x01, 0x0F, 0x00] }),
        ':' => Some(Character { width: 2, values: [0x00, 0x03, 0x03, 0x00, 0x03, 0x03, 0x00] }),
        '\u{b1}' => Some(Character { width: 2, values: [0x00, 0x03, 0x03, 0x00, 0x00, 0x00, 0x00] }),
        '\u{a7}' => Some(Character { width: 2, values: [0x00, 0x00, 0x00, 0x00, 0x03, 0x03, 0x00] }),
        ' ' => Some(Character { width: 2, values: [0x00, 0x00, 0x00, 0x00, 0x00, 0x00, 0x00] }),
        '\u{b0}' => Some(Character { width: 2, values: [0x03, 0x03, 0x00, 0x00, 0x00, 0x00, 0x00] }),
        '.' => Some(Character { width: 1, values: [0x00, 0x00, 0x00, 0x00, 0x00, 0x00, 0x01] }),
        '-' => Some(Character { width: 2, values: [0x00, 0x00, 0x00, 0x03, 0x00, 0x00, 0x00] }),
        '/' => Some(Character { width: 2, values: [0x02, 0x02, 0x02, 0x01, 0x01, 0x01, 0x01] }),
        '+' => Some(Character { width: 5, values: [0x00, 0x04, 0x04, 0x1F, 0x04, 0x04, 0x00] }),
        '_' => Some(Character { width: 1, values: [0x00, 0x00, 0x00, 0x00, 0x00, 0x00, 0x00] }),
        _ => None,
    }
}

/// The glyph of a character, whatever its case: the table entry of its
/// upper-case form.
pub open spec fn glyph_of(c: char) -> Option<Character> {
    glyph_table(upper_of(c))
}

/// Find the glyph of `character`. Letters match in either case. A character
/// without a glyph gives `None`.
pub fn get_character_struct(character: char) -> (found: Option<Character>)
    ensures
        found == glyph_of(character),
        found matches Some(g) ==> g.wf(),
{
    let found = match to_upper(character) {
        '0' => Some(Character::new(4, [0x06, 0x09, 0x09, 0x09, 0x09, 0x09, 0x06])),
        '1' => Some(Character::new(4, [0x04, 0x06, 0x04, 0x04, 0x04, 0x04, 0x0E])),
        '2' => Some(Character::new(4, [0x06, 0x09, 0x08, 0x04, 0x02, 0x01, 0x0F])),
        '3' => Some(Character::new(4, [0x06, 0x09, 0x08, 0x06, 0x08, 0x09, 0x06])),
        '4' => Some(Character::new(4, [0x08, 0x0C, 0x0A, 0x09, 0x0F, 0x08, 0x08])),
        '5' => Some(Character::new(4, [0x0F, 0x01, 0x07, 0x08, 0x08, 0x09, 0x06])),
        '6' => Some(Character::new(4, [0x04, 0x02, 0x01, 0x07, 0x09, 0x09, 0x06])),
        '7' => Some(Character::new(4, [0x0F, 0x09, 0x04, 0x04, 0x04, 0x04, 0x04])),
        '8' => Some(Character::new(4, [0x06, 0x09, 0x09, 0x06, 0x09, 0x09, 0x06])),
        '9' => Some(Character::new(4, [0x06, 0x09, 0x09, 0x0E, 0x08, 0x04, 0x02])),
        'A' => Some(Character::new(4, [0x06, 0x09, 0x09, 0x0F, 0x09, 0x09, 0x09])),
        'B' => Some(Character::new(4, [0x07, 0x09, 0x09, 0x07, 0x09, 0x09, 0x07])),
        'C' => Some(Character::new(4, [0x06, 0x09, 0x01, 0x01, 0x01, 0x09, 0x06])),
        'D' => Some(Character::new(4, [0x07, 0x09, 0x09, 0x09, 0x09, 0x09, 0x07])),
        'E' => Some(Character::new(4, [0x0F, 0x01, 0x01, 0x0F, 0x01, 0x01, 0x0F])),
        'F' => Some(Character::new(4, [0x0F, 0x01, 0x01, 0x0F, 0x01, 0x01, 0x01])),
        'G' => Some(Character::new(4, [0x06, 0x09, 0x01, 0x0D, 0x09, 0x09, 0x06])),
        'H' => Some(Character::new(4, [0x09, 0x09, 0x09, 0x0F, 0x09, 0x09, 0x09])),
        'I' => Some(Character::new(3, [0x07, 0x02, 0x02, 0x02, 0x02, 0x02, 0x07])),
        'J' => Some(Character::new(4, [0x0F, 0x08, 0x08, 0x08, 0x09, 0x09, 0x06])),
        'K' => Some(Character::new(4, [0x09, 0x05, 0x03, 0x01, 0x03, 0x05, 0x09])),
        'L' => Some(Character::new(4, [0x01, 0x01, 0x01, 0x01, 0x01, 0x01, 0x0F])),
        'M' => Some(Character::new(5, [0x11, 0x1B, 0x15, 0x11, 0x11, 0x11, 0x11])),
        'N' => Some(Character::new(4, [0x09, 0x09, 0x0B, 0x0D, 0x09, 0x09, 0x09])),
        'O' => Some(Character::new(4, [0x06, 0x09, 0x09, 0x09, 0x09, 0x09, 0x06])),
        'P' => Some(Character::new(4, [0x07, 0x09, 0x09, 0x07, 0x01, 0x01, 0x01])),
        'Q' => Some(Character::new(5, [0x0E, 0x11, 0x11, 0x11, 0x15, 0x19, 0x0E])),
        'R' => Some(Character::new(4, [0x07, 0x09, 0x09, 0x07, 0x03, 0x05, 0x09])),
        'S' => Some(Character::new(4, [0x06, 0x09, 0x02, 0x04, 0x08, 0x09, 0x06])),
        'T' => Some(Character::new(5, [0x1F, 0x04, 0x04, 0x04, 0x04, 0x04, 0x04])),
        'U' => Some(Character::new(4, [0x09, 0x09, 0x09, 0x09, 0x09, 0x09, 0x06])),
        'V' => Some(Character::new(5, [0x11, 0x11, 0x11, 0x11, 0x11, 0x0A, 0x04])),
        'W' => Some(Character::new(5, [0x11, 0x11, 0x11, 0x15, 0x15, 0x1B, 0x11])),
        'X' => Some(Character::new(5, [0x11, 0x0A, 0x04, 0x04, 0x04, 0x0A, 0x11])),
        'Y' => Some(Character::new(5, [0x11, 0x11, 0x0A, 0x04, 0x04, 0x04, 0x04])),
        'Z' => Some(Character::new(4, [0x0F, 0x08, 0x04, 0x02, 0x01, 0x0F, 0x00])),
        ':' => Some(Character::new(2, [0x00, 0x03, 0x03, 0x00, 0x03, 0x03, 0x00])),
        '\u{b1}' => Some(Character::new(2, [0x00, 0x03, 0x03, 0x00, 0x00, 0x00, 0x00])),
        '\u{a7}' => Some(Character::new(2, [0x00, 0x00, 0x00, 0x00, 0x03, 0x03, 0x00])),
        ' ' => Some(Character::new(2, [0x00, 0x00, 0x00, 0x00, 0x00, 0x00, 0x00])),
        '\u{b0}' => Some(Character::new(2, [0x03, 0x03, 0x00, 0x00, 0x00, 0x00, 0x00])),
        '.' => Some(Character::new(1, [0x00, 0x00, 0x00, 0x00, 0x00, 0x00, 0x01])),
        '-' => Some(Character::new(2, [0x00, 0x00, 0x00, 0x03, 0x00, 0x00, 0x00])),
        '/' => Some(Character::new(2, [0x02, 0x02, 0x02, 0x01, 0x01, 0x01, 0x01])),
        '+' => Some(Character::new(5, [0x00, 0x04, 0x04, 0x1F, 0x04, 0x04, 0x00])),
        '_' => Some(Character::new(1, [0x00, 0x00, 0x00, 0x00, 0x00, 0x00, 0x00])),
        _ => None,
    };
    proof {
        lemma_glyphs_well_formed(upper_of(character));
    }
    found
}

/// Every glyph of the table is 1 to 5 columns wide, has 7 row bitmasks, and
/// sets no bit outside its width.
pub proof fn lemma_glyphs_well_formed(c: char)
    ensures
        glyph_table(c) matches Some(g) ==> g.wf() && g.values@.len() == GLYPH_ROWS,
{
}

} // verus!
