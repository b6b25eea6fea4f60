//! The pixel matrix: an 8 by 32 framebuffer of on/off pixels.
//!
//! Row 0 and columns 0 and 1 of every row hold the status icons. Rows 1 to 7
//! from column 2 on are the text area: columns 2 to 23 are the viewport,
//! columns 24 to 31 are working space for scrolling.

use vstd::prelude::*;
use crate::display::text::Character;
use crate::display::text::pow2_small;
use crate::display::icons::Icon;

verus! {

/// Number of rows of the matrix.
pub const MATRIX_ROWS: usize = 8;

/// Number of columns of the matrix.
pub const MATRIX_COLS: usize = 32;

/// The first row of the text area.
pub const TEXT_FIRST_ROW: usize = 1;

/// The first column of the text area.
pub const TEXT_FIRST_COL: usize = 2;

/// The pixels of a matrix as a value: `p[r][c]` is row `r`, column `c`.
pub type Pixels = Seq<Seq<bool>>;

/// The framebuffer. `rows[r][c]` is the pixel in row `r`, column `c`.
#[derive(Clone, Copy, Debug, PartialEq, Eq)]
pub struct PixelMatrix {
    /// The pixels, one array per row.
    pub rows: [[bool; 32]; 8],
}

impl View for PixelMatrix {
    type V = Pixels;

    open spec fn view(&self) -> Pixels {
        Seq::new(8, |r: int| Seq::new(32, |c: int| self.rows[r][c]))
    }
}

/// Whether bit `c` of the row bitmask `byte` is set.
pub open spec fn bit_of(byte: u8, c: int) -> bool {
    (byte as int / pow2_small(c)) % 2 == 1
}

/// Whether the cell exists.
pub open spec fn in_matrix(r: int, c: int) -> bool {
    0 <= r < MATRIX_ROWS && 0 <= c < MATRIX_COLS
}

/// Whether the cell lies in the text area.
pub open spec fn in_text_area(r: int, c: int) -> bool {
    TEXT_FIRST_ROW <= r < MATRIX_ROWS && TEXT_FIRST_COL <= c < MATRIX_COLS
}

/// Eight rows of 32 pixels, each given by `f`.
pub open spec fn pixels_from(f: spec_fn(int, int) -> bool) -> Pixels {
    Seq::new(8, |r: int| Seq::new(32, |c: int| f(r, c)))
}

/// Every pixel off.
pub open spec fn dark() -> Pixels {
    pixels_from(|r: int, c: int| false)
}

/// Every pixel on.
pub open spec fn lit() -> Pixels {
    pixels_from(|r: int, c: int| true)
}

/// The text area switched off; with `icons_too`, everything switched off.
pub open spec fn cleared(p: Pixels, icons_too: bool) -> Pixels {
    pixels_from(|r: int, c: int| !(icons_too || in_text_area(r, c)) && p[r][c])
}

/// One pixel replaced.
pub open spec fn with_pixel(p: Pixels, row: int, col: int, on: bool) -> Pixels {
    pixels_from(
        |r: int, c: int|
            if r == row && c == col {
                on
            } else {
                p[r][c]
            },
    )
}

/// The text area moved one column to the left: columns 2 to 29 of rows 1 to 7
/// take the pixel to their right, column 30 goes dark when a blank column is
/// added, and every other cell stays.
pub open spec fn shifted(p: Pixels, add_space: bool) -> Pixels {
    pixels_from(
        |r: int, c: int|
            if TEXT_FIRST_ROW <= r < MATRIX_ROWS && TEXT_FIRST_COL <= c <= 29 {
                p[r][c + 1]
            } else if TEXT_FIRST_ROW <= r < MATRIX_ROWS && c == 30 && add_space {
                false
            } else {
                p[r][c]
            },
    )
}

/// Column `glyph_col` of `glyph` painted at matrix column `at`: rows 1 to 7 of
/// that column show the glyph's bits, every other cell stays.
pub open spec fn painted(p: Pixels, glyph: Character, glyph_col: int, at: int) -> Pixels {
    pixels_from(
        |r: int, c: int|
            if c == at && TEXT_FIRST_ROW <= r < MATRIX_ROWS {
                bit_of(glyph.values[r - 1], glyph_col)
            } else {
                p[r][c]
            },
    )
}

/// The cells of `icon` switched on or off.
pub open spec fn with_icon(p: Pixels, icon: Icon, on: bool) -> Pixels {
    pixels_from(
        |r: int, c: int|
            if icon.covers(r, c) {
                on
            } else {
                p[r][c]
            },
    )
}

/// A matrix whose cells are those of `goal` has `goal` as its view.
proof fn lemma_same_pixels(m: PixelMatrix, goal: Pixels)
    requires
        goal.len() == 8,
        forall|r: int| 0 <= r < 8 ==> (#[trigger] goal[r]).len() == 32,
        forall|r: int, c: int| #[trigger] in_matrix(r, c) ==> m.pixel(r, c) == goal[r][c],
    ensures
        m@ == goal,
{
    assert forall|r: int| 0 <= r < 8 implies m@[r] =~= goal[r] by {
        assert forall|c: int| 0 <= c < 32 implies m@[r][c] == goal[r][c] by {
            assert(in_matrix(r, c));
        }
    }
    assert(m@ =~= goal);
}

/// Two to the power `c` for a glyph column.
fn column_weight(c: usize) -> (w: u8)
    requires
        c < 5,
    ensures
        w == pow2_small(c as int),
{
    if c == 0 {
        1
    } else if c == 1 {
        2
    } else if c == 2 {
        4
    } else if c == 3 {
        8
    } else {
        16
    }
}

impl PixelMatrix {
    /// The pixel in row `r`, column `c`.
    pub open spec fn pixel(&self, r: int, c: int) -> bool {
        self.rows[r][c]
    }

    /// A matrix with every pixel off.
    pub fn new() -> (m: PixelMatrix)
        ensures
            m@ == dark(),
    {
        let m = PixelMatrix { rows: [[false; 32]; 8] };
        proof {
            lemma_same_pixels(m, dark());
        }
        m
    }

    /// Read one pixel.
    pub fn get_pixel(&self, row: usize, col: usize) -> (on: bool)
        requires
            row < MATRIX_ROWS,
            col < MATRIX_COLS,
        ensures
            on == self@[row as int][col as int],
    {
        self.rows[row][col]
    }

    /// Copy one row out.
    pub fn read_row(&self, row: usize) -> (bits: [bool; 32])
        requires
            row < MATRIX_ROWS,
        ensures
            bits@ == self@[row as int],
    {
        let bits = self.rows[row];
        assert(bits@ =~= self@[row as int]);
        bits
    }

    /// Switch one pixel on or off; every other pixel stays.
    pub fn set_pixel(&mut self, row: usize, col: usize, on: bool)
        requires
            row < MATRIX_ROWS,
            col < MATRIX_COLS,
        ensures
            final(self)@ == with_pixel(old(self)@, row as int, col as int, on),
    {
        let mut line = self.rows[row];
        line[col] = on;
        self.rows[row] = line;
        proof {
            lemma_same_pixels(*self, with_pixel(old(self)@, row as int, col as int, on));
        }
    }

    /// Switch off the text area, and the icons too if `icons_too` is set.
    pub fn clear(&mut self, icons_too: bool)
        ensures
            final(self)@ == cleared(old(self)@, icons_too),
    {
        if icons_too {
            self.rows = [[false; 32]; 8];
            proof {
            lemma_same_pixels(*self, cleared(old(self)@, icons_too));
        }
            return ;
        }
        let ghost before = *self;
        let mut r: usize = TEXT_FIRST_ROW;
        while r < MATRIX_ROWS
            invariant
                TEXT_FIRST_ROW <= r <= MATRIX_ROWS,
                forall|rr: int, c: int|
                    #[trigger] in_matrix(rr, c) ==> self.pixel(rr, c) == (if rr < r && in_text_area(
                        rr,
                        c,
                    ) {
                        false
                    } else {
                        before.pixel(rr, c)
                    }),
            decreases MATRIX_ROWS - r,
        {
            let mut line = self.rows[r];
            assert forall|cc: int| 0 <= cc < 32 implies line[cc] == before.pixel(r as int, cc) by {
                assert(in_matrix(r as int, cc));
                assert(line[cc] == self.pixel(r as int, cc));
            }
            let mut c: usize = TEXT_FIRST_COL;
            while c < MATRIX_COLS
                invariant
                    TEXT_FIRST_COL <= c <= MATRIX_COLS,
                    TEXT_FIRST_ROW <= r < MATRIX_ROWS,
                    forall|cc: int|
                        0 <= cc < 32 ==> line[cc] == (if TEXT_FIRST_COL <= cc < c {
                            false
                        } else {
                            before.pixel(r as int, cc)
                        }),
                decreases MATRIX_COLS - c,
            {
                line[c] = false;
                c += 1;
            }
            self.rows[r] = line;
            r += 1;
        }
        proof {
            lemma_same_pixels(*self, cleared(before@, icons_too));
        }
    }

    /// Switch every pixel on, icons included.
    pub fn fill(&mut self)
        ensures
            final(self)@ == lit(),
    {
        self.rows = [[true; 32]; 8];
        proof {
            lemma_same_pixels(*self, lit());
        }
    }

    /// Move the text area one column to the left. With `add_space`, column 30
    /// is blanked behind the move.
    pub fn shift_text_left(&mut self, add_space: bool)
        ensures
            final(self)@ == shifted(old(self)@, add_space),
    {
        let ghost before = *self;
        let mut r: usize = TEXT_FIRST_ROW;
        while r < MATRIX_ROWS
            invariant
                TEXT_FIRST_ROW <= r <= MATRIX_ROWS,
                forall|rr: int, c: int|
                    #[trigger] in_matrix(rr, c) ==> self.pixel(rr, c) == (if rr < r {
                        shifted(before@, add_space)[rr][c]
                    } else {
                        before.pixel(rr, c)
                    }),
            decreases MATRIX_ROWS - r,
        {
            let mut line = self.rows[r];
            assert forall|cc: int| 0 <= cc < 32 implies line[cc] == before.pixel(r as int, cc) by {
                assert(in_matrix(r as int, cc));
                assert(line[cc] == self.pixel(r as int, cc));
            }
            let mut c: usize = TEXT_FIRST_COL;
            while c < 30
                invariant
                    TEXT_FIRST_COL <= c <= 30,
                    TEXT_FIRST_ROW <= r < MATRIX_ROWS,
                    forall|cc: int|
                        0 <= cc < 32 ==> line[cc] == (if cc < c {
                            shifted(before@, add_space)[r as int][cc]
                        } else {
                            before.pixel(r as int, cc)
                        }),
                decreases 30 - c,
            {
                line[c] = line[c + 1];
                c += 1;
            }
            if add_space {
                line[30] = false;
            }
            self.rows[r] = line;
            r += 1;
        }
        proof {
            lemma_same_pixels(*self, shifted(before@, add_space));
        }
    }

    /// Paint column `glyph_col` of `glyph` into matrix column `at`, rows 1 to 7.
    pub fn paint_column(&mut self, glyph: &Character, glyph_col: usize, at: usize)
        requires
            glyph_col < 5,
            at < MATRIX_COLS,
        ensures
            final(self)@ == painted(old(self)@, *glyph, glyph_col as int, at as int),
    {
        let ghost before = *self;
        let ghost goal = painted(before@, *glyph, glyph_col as int, at as int);
        let weight = column_weight(glyph_col);
        let mut r: usize = TEXT_FIRST_ROW;
        while r < MATRIX_ROWS
            invariant
                TEXT_FIRST_ROW <= r <= MATRIX_ROWS,
                at < MATRIX_COLS,
                weight == pow2_small(glyph_col as int),
                weight > 0,
                goal == painted(before@, *glyph, glyph_col as int, at as int),
                forall|rr: int, c: int|
                    #[trigger] in_matrix(rr, c) ==> self.pixel(rr, c) == (if rr < r {
                        goal[rr][c]
                    } else {
                        before.pixel(rr, c)
                    }),
            decreases MATRIX_ROWS - r,
        {
            let on = (glyph.values[r - 1] / weight) % 2 == 1;
            let mut line = self.rows[r];
            line[at] = on;
            self.rows[r] = line;
            r += 1;
        }
        proof {
            lemma_same_pixels(*self, goal);
        }
    }

    /// Switch the cells of `icon` on or off; every other pixel stays.
    pub fn set_icon(&mut self, icon: &Icon, on: bool)
        requires
            icon.wf(),
        ensures
            final(self)@ == with_icon(old(self)@, *icon, on),
    {
        let ghost before = *self;
        let mut line = self.rows[icon.row];
        let mut w: usize = 0;
        while w < icon.width
            invariant
                icon.wf(),
                w <= icon.width,
                forall|c: int|
                    0 <= c < 32 ==> line[c] == (if icon.col <= c < icon.col + w {
                        on
                    } else {
                        before.pixel(icon.row as int, c)
                    }),
            decreases icon.width - w,
        {
            line[icon.col + w] = on;
            w += 1;
        }
        self.rows[icon.row] = line;
        proof {
            lemma_same_pixels(*self, with_icon(before@, *icon, on));
        }
    }
}

} // verus!
