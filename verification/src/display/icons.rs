//! The icon table: the status indicators and where each one sits.

use vstd::prelude::*;

verus! {

/// A status indicator: `width` cells of one row, starting at column `col`.
#[derive(Clone, Copy, Debug, PartialEq, Eq)]
pub struct Icon {
    /// The row the icon is on.
    pub row: usize,
    /// The column the icon starts on.
    pub col: usize,
    /// The width of the icon, 1 or 2.
    pub width: usize,
}

impl Icon {
    /// Create a new icon representation.
    pub fn new(row: usize, col: usize, width: usize) -> (icon: Icon)
        ensures
            icon.row == row,
            icon.col == col,
            icon.width == width,
    {
        Icon { row, col, width }
    }

    /// The icon lies inside the matrix and is 1 or 2 cells wide.
    pub open spec fn wf(&self) -> bool {
        &&& self.row < 8
        &&& 1 <= self.width <= 2
        &&& self.col + self.width <= 32
    }

    /// Whether the icon occupies the cell.
    pub open spec fn covers(&self, r: int, c: int) -> bool {
        r == self.row && self.col <= c < self.col + self.width
    }
}

/// Whether two strings hold the same characters.
pub fn text_equals(a: &str, b: &str) -> (same: bool)
    ensures
        same == (a@ == b@),
{
    let n = a.unicode_len();
    if n != b.unicode_len() {
        return false;
    }
    let mut i: usize = 0;
    while i < n
        invariant
            i <= n,
            n == a@.len(),
            n == b@.len(),
            forall|k: int| 0 <= k < i ==> a@[k] == b@[k],
        decreases n - i,
    {
        if a.get_char(i) != b.get_char(i) {
            return false;
        }
        i += 1;
    }
    assert(a@ =~= b@);
    true
}

/// The icon table, by name. The day icons sit in row 0 from column 3 on; the
/// others sit in columns 0 and 1, one row each (the two temperature units share
/// row 3, and AM and PM share row 4).
pub open spec fn icon_table(name: Seq<char>) -> Option<Icon> {
    if name == "MoveOn"@ {
        Some(Icon { row: 0, col: 0, width: 2 })
    } else if name == "AlarmOn"@ {
        Some(Icon { row: 1, col: 0, width: 2 })
    } else if name == "CountDown"@ {
        Some(Icon { row: 2, col: 0, width: 2 })
    } else if name == "\u{b0}F"@ {
        Some(Icon { row: 3, col: 0, width: 1 })
    } else if name == "\u{b0}C"@ {
        Some(Icon { row: 3, col: 1, width: 1 })
    } else if name == "AM"@ {
        Some(Icon { row: 4, col: 0, width: 1 })
    } else if name == "PM"@ {
        Some(Icon { row: 4, col: 1, width: 1 })
    } else if name == "CountUp"@ {
        Some(Icon { row: 5, col: 0, width: 2 })
    } else if name == "Hourly"@ {
        Some(Icon { row: 6, col: 0, width: 2 })
    } else if name == "AutoLight"@ {
        Some(Icon { row: 7, col: 0, width: 2 })
    } else if name == "Mon"@ {
        Some(Icon { row: 0, col: 3, width: 2 })
    } else if name == "Tue"@ {
        Some(Icon { row: 0, col: 6, width: 2 })
    } else if name == "Wed"@ {
        Some(Icon { row: 0, col: 9, width: 2 })
    } else if name == "Thur"@ {
        Some(Icon { row: 0, col: 12, width: 2 })
    } else if name == "Fri"@ {
        Some(Icon { row: 0, col: 15, width: 2 })
    } else if name == "Sat"@ {
        Some(Icon { row: 0, col: 18, width: 2 })
    } else if name == "Sun"@ {
        Some(Icon { row: 0, col: 21, width: 2 })
    } else {
        None
    }
}

/// Find the icon called `icon`. An unknown name gives `None`.
pub fn get_icon_struct(icon: &str) -> (found: Option<Icon>)
    ensures
        found == icon_table(icon@),
        found matches Some(i) ==> i.wf(),
{
    if text_equals(icon, "MoveOn") {
        Some(Icon::new(0, 0, 2))
    } else if text_equals(icon, "AlarmOn") {
        Some(Icon::new(1, 0, 2))
    } else if text_equals(icon, "CountDown") {
        Some(Icon::new(2, 0, 2))
    } else if text_equals(icon, "\u{b0}F") {
        Some(Icon::new(3, 0, 1))
    } else if text_equals(icon, "\u{b0}C") {
        Some(Icon::new(3, 1, 1))
    } else if text_equals(icon, "AM") {
        Some(Icon::new(4, 0, 1))
    } else if text_equals(icon, "PM") {
        Some(Icon::new(4, 1, 1))
    } else if text_equals(icon, "CountUp") {
        Some(Icon::new(5, 0, 2))
    } else if text_equals(icon, "Hourly") {
        Some(Icon::new(6, 0, 2))
    } else if text_equals(icon, "AutoLight") {
        Some(Icon::new(7, 0, 2))
    } else if text_equals(icon, "Mon") {
        Some(Icon::new(0, 3, 2))
    } else if text_equals(icon, "Tue") {
        Some(Icon::new(0, 6, 2))
    } else if text_equals(icon, "Wed") {
        Some(Icon::new(0, 9, 2))
    } else if text_equals(icon, "Thur") {
        Some(Icon::new(0, 12, 2))
    } else if text_equals(icon, "Fri") {
        Some(Icon::new(0, 15, 2))
    } else if text_equals(icon, "Sat") {
        Some(Icon::new(0, 18, 2))
    } else if text_equals(icon, "Sun") {
        Some(Icon::new(0, 21, 2))
    } else {
        None
    }
}

/// Every icon of the table lies in the reserved status area: in row 0 right of
/// column 2, or inside columns 0 and 1 of its own row. None reaches into the
/// text area.
pub proof fn lemma_icons_in_status_area(name: Seq<char>)
    ensures
        icon_table(name) matches Some(i) ==> {
            &&& i.wf()
            &&& (i.row == 0 && i.col >= 3) || i.col + i.width <= 2
            &&& forall|r: int, c: int| i.covers(r, c) ==> r == 0 || c < 2
        },
{
}

/// No two icons of the table occupy the same cell.
pub proof fn lemma_icons_disjoint(a: Seq<char>, b: Seq<char>)
    requires
        a != b,
        icon_table(a) is Some,
        icon_table(b) is Some,
    ensures
        forall|r: int, c: int|
            !(icon_table(a)->0.covers(r, c) && icon_table(b)->0.covers(r, c)),
{
}

} // verus!
