//! The row refresh: one row of the matrix is driven at a time, the rows in
//! turn.

use vstd::prelude::*;
use crate::display::matrix::PixelMatrix;

verus! {

/// One write to the panel's wiring, or a wait.
#[derive(Clone, Copy, Debug, PartialEq, Eq, Structural)]
pub enum PinStep {
    /// Set the clock line.
    Clock { high: bool },
    /// Set the serial data line.
    Data { high: bool },
    /// Set the latch line.
    Latch { high: bool },
    /// Set the three row address lines.
    Address { a0: bool, a1: bool, a2: bool },
    /// Set the output-enable line; the row is lit while it is low.
    OutputEnable { high: bool },
    /// Wait for `us` microseconds.
    Delay { us: u64 },
}

/// The state of the refresh loop: the row driven last.
#[derive(Clone, Copy, Debug, PartialEq, Eq, Structural)]
pub struct RefreshLoop {
    /// The row driven last, 0 to 7.
    pub row: usize,
}

/// The row after `row`.
pub open spec fn row_after(row: int) -> int {
    (row + 1) % 8
}

/// The steps that clock one pixel out: the data line is low unless the pixel
/// is on.
pub open spec fn bit_steps(on: bool) -> Seq<PinStep> {
    if on {
        seq![
            PinStep::Clock { high: false },
            PinStep::Data { high: false },
            PinStep::Data { high: true },
            PinStep::Clock { high: true },
        ]
    } else {
        seq![
            PinStep::Clock { high: false },
            PinStep::Data { high: false },
            PinStep::Clock { high: true },
        ]
    }
}

/// The steps that clock the first `upto` pixels of a row out.
pub open spec fn shift_out(bits: Seq<bool>, upto: int) -> Seq<PinStep>
    decreases upto,
{
    if upto <= 0 {
        Seq::empty()
    } else {
        shift_out(bits, upto - 1) + bit_steps(bits[upto - 1])
    }
}

/// The address lines of a row: its number in binary, `a0` the lowest bit.
pub open spec fn address_of(row: int) -> PinStep {
    PinStep::Address { a0: row % 2 == 1, a1: (row / 2) % 2 == 1, a2: (row / 4) % 2 == 1 }
}

/// The steps of one cycle: the row's 32 pixels are clocked out, the latch is
/// pulsed, the row is addressed, and the output is enabled for the on-time.
pub open spec fn cycle_steps(bits: Seq<bool>, row: int, on_time_us: u64) -> Seq<PinStep> {
    shift_out(bits, 32) + seq![
        PinStep::Latch { high: true },
        PinStep::Latch { high: false },
        address_of(row),
        PinStep::OutputEnable { high: false },
        PinStep::Delay { us: on_time_us },
        PinStep::OutputEnable { high: true },
    ]
}

impl RefreshLoop {
    /// A loop that has not driven a row yet; it starts with row 1.
    pub fn new() -> (state: RefreshLoop)
        ensures
            state.row == 0,
    {
        RefreshLoop { row: 0 }
    }

    /// One cycle: move on to the next row, copy it out of the matrix, and
    /// give the steps that drive it for `on_time_us` microseconds.
    pub fn cycle(&mut self, matrix: &PixelMatrix, on_time_us: u64) -> (steps: Vec<PinStep>)
        requires
            old(self).row < 8,
        ensures
            final(self).row == row_after(old(self).row as int),
            steps@ == cycle_steps(matrix@[final(self).row as int], final(self).row as int, on_time_us),
    {
        self.row = (self.row + 1) % 8;
        let bits = matrix.read_row(self.row);
        let mut steps: Vec<PinStep> = Vec::new();
        let mut col: usize = 0;
        while col < 32
            invariant
                col <= 32,
                steps@ =~= shift_out(bits@, col as int),
            decreases 32 - col,
        {
            steps.push(PinStep::Clock { high: false });
            steps.push(PinStep::Data { high: false });
            if bits[col] {
                steps.push(PinStep::Data { high: true });
            }
            steps.push(PinStep::Clock { high: true });
            col += 1;
        }
        steps.push(PinStep::Latch { high: true });
        steps.push(PinStep::Latch { high: false });
        let row = self.row;
        steps.push(
            PinStep::Address { a0: row % 2 == 1, a1: (row / 2) % 2 == 1, a2: (row / 4) % 2 == 1 },
        );
        steps.push(PinStep::OutputEnable { high: false });
        steps.push(PinStep::Delay { us: on_time_us });
        steps.push(PinStep::OutputEnable { high: true });
        assert(steps@ =~= cycle_steps(bits@, row as int, on_time_us));
        steps
    }
}

/// The number that three address lines stand for.
pub open spec fn address_value(a0: bool, a1: bool, a2: bool) -> int {
    (if a0 {
        1int
    } else {
        0int
    }) + (if a1 {
        2int
    } else {
        0int
    }) + (if a2 {
        4int
    } else {
        0int
    })
}

/// The address lines of a row stand for its number.
pub proof fn lemma_address_encodes_row(row: int)
    requires
        0 <= row < 8,
    ensures
        address_of(row) matches PinStep::Address { a0, a1, a2 } && address_value(a0, a1, a2)
            == row,
{
}

/// The loop visits every row: eight cycles bring it back to the row it
/// started from, and the rows in between are the seven others.
pub proof fn lemma_rows_in_turn(row: int)
    requires
        0 <= row < 8,
    ensures
        0 <= row_after(row) < 8,
        row_after(row) != row,
        row_after(
            row_after(
                row_after(row_after(row_after(row_after(row_after(row_after(row))))))),
        ) == row,
{
}

} // verus!
