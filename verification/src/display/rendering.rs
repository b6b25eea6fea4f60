//! What a request looks like on the matrix once its steps are taken.

use vstd::prelude::*;
use crate::display::display_matrix::op_applied;
use crate::display::layout::blanks;
use crate::display::layout::column_ops;
use crate::display::layout::columns_behind;
use crate::display::layout::finale;
use crate::display::layout::gap_ops;
use crate::display::layout::glyph_columns;
use crate::display::layout::glyph_ops;
use crate::display::layout::lead_ops;
use crate::display::layout::lemma_advance_step;
use crate::display::layout::lemma_glyph_start_bound;
use crate::display::layout::paint_in;
use crate::display::layout::paint_phase;
use crate::display::layout::prelude;
use crate::display::layout::render_plan;
use crate::display::layout::scroll_off_steps;
use crate::display::layout::scroll_out;
use crate::display::layout::RenderOp;
use crate::display::layout::LAST_VISIBLE;
use crate::display::layout::SCROLL_DELAY;
use crate::display::matrix::bit_of;
use crate::display::matrix::in_matrix;
use crate::display::matrix::in_text_area;
use crate::display::matrix::Pixels;
use crate::display::request::RequestView;
use crate::display::request::DISPLAY_OFFSET;
use crate::display::request::LAST_INDEX;
use crate::display::text::Character;

verus! {

/// The pixels after a run of steps of a request with the glyphs `glyphs`.
pub open spec fn applied(p: Pixels, glyphs: Seq<Character>, ops: Seq<RenderOp>) -> Pixels
    decreases ops.len(),
{
    if ops.len() == 0 {
        p
    } else {
        op_applied(applied(p, glyphs, ops.drop_last()), glyphs, ops.last())
    }
}

/// Whether one of the first `upto` glyphs, laid out from the start column
/// with one blank column between two glyphs, has a set bit on the cell.
pub open spec fn lit_by(v: RequestView, upto: int, r: int, c: int) -> bool
    decreases upto,
{
    if upto <= 0 {
        false
    } else {
        let start = v.glyph_start(upto - 1);
        let glyph = v.glyphs[upto - 1];
        lit_by(v, upto - 1, r, c) || (start <= c < start + glyph.width && bit_of(
            glyph.values[r - 1],
            c - start,
        ))
    }
}

/// Whether the text area of `q` shows `shown` and the rest of `q` is `p`.
pub open spec fn shows(q: Pixels, p: Pixels, shown: spec_fn(int, int) -> bool) -> bool {
    forall|r: int, c: int|
        #[trigger] in_matrix(r, c) ==> q[r][c] == (if in_text_area(r, c) {
            shown(r, c)
        } else {
            p[r][c]
        })
}

/// Whether rows 1 to 7 of `q` are dark from column `from` to column 30.
pub open spec fn dark_from(q: Pixels, from: int) -> bool {
    forall|r: int, c: int| #[trigger] in_matrix(r, c) && 1 <= r && from <= c <= 30 ==> !q[r][c]
}

/// The steps of two runs, one behind the other, are taken in turn.
pub proof fn lemma_applied_concat(
    p: Pixels,
    glyphs: Seq<Character>,
    a: Seq<RenderOp>,
    b: Seq<RenderOp>,
)
    ensures
        applied(p, glyphs, a + b) == applied(applied(p, glyphs, a), glyphs, b),
    decreases b.len(),
{
    if b.len() == 0 {
        assert(a + b =~= a);
    } else {
        assert((a + b).drop_last() =~= a + b.drop_last());
        assert((a + b).last() == b.last());
        lemma_applied_concat(p, glyphs, a, b.drop_last());
    }
}

/// One step alone.
proof fn lemma_applied_one(p: Pixels, glyphs: Seq<Character>, op: RenderOp)
    ensures
        applied(p, glyphs, seq![op]) == op_applied(p, glyphs, op),
{
    let ops = seq![op];
    assert(ops.drop_last().len() == 0);
    assert(applied(p, glyphs, ops.drop_last()) == p);
    assert(ops.last() == op);
}

/// Blank columns leave a dark text area dark.
proof fn lemma_blanks_keep_dark(q: Pixels, p: Pixels, glyphs: Seq<Character>, from: int, to: int)
    requires
        shows(q, p, |r: int, c: int| false),
        from >= DISPLAY_OFFSET,
        to <= 32,
    ensures
        shows(applied(q, glyphs, blanks(from, to)), p, |r: int, c: int| false),
    decreases to - from,
{
    let ops = blanks(from, to);
    if to <= from {
        assert(ops.len() == 0);
    } else {
        assert(ops.drop_last() =~= blanks(from, to - 1));
        assert(ops.last() == (RenderOp::Blank { at: (to - 1) as usize }));
        lemma_blanks_keep_dark(q, p, glyphs, from, to - 1);
        let before = applied(q, glyphs, blanks(from, to - 1));
        let after = applied(q, glyphs, ops);
        assert(after == op_applied(before, glyphs, ops.last()));
        assert forall|r: int, c: int| #[trigger] in_matrix(r, c) implies after[r][c] == (
        if in_text_area(r, c) {
            false
        } else {
            p[r][c]
        }) by {
            assert(in_matrix(r, c));
        }
    }
}

/// What comes before the glyphs of a text that fits the viewport leaves the
/// text area dark and the rest as it was.
proof fn lemma_prelude_clears(p: Pixels, v: RequestView)
    requires
        v.wf(),
        v.fits(),
    ensures
        shows(applied(p, v.glyphs, prelude(v)), p, |r: int, c: int| false),
{
    let clear = seq![RenderOp::ClearText];
    let left = blanks(DISPLAY_OFFSET as int, v.start_position);
    let right = blanks(v.end_position, LAST_INDEX as int);
    assert(prelude(v) =~= (clear + left) + right);
    lemma_applied_concat(p, v.glyphs, clear + left, right);
    lemma_applied_concat(p, v.glyphs, clear, left);
    lemma_applied_one(p, v.glyphs, RenderOp::ClearText);
    let cleared = applied(p, v.glyphs, clear);
    assert(shows(cleared, p, |r: int, c: int| false)) by {
        assert forall|r: int, c: int| #[trigger] in_matrix(r, c) implies cleared[r][c] == (
        if in_text_area(r, c) {
            false
        } else {
            p[r][c]
        }) by {
            assert(in_matrix(r, c));
        }
    }
    lemma_blanks_keep_dark(cleared, p, v.glyphs, DISPLAY_OFFSET as int, v.start_position);
    lemma_blanks_keep_dark(
        applied(cleared, v.glyphs, left),
        p,
        v.glyphs,
        v.end_position,
        LAST_INDEX as int,
    );
}

/// The glyphs before glyph `upto` light nothing from the column before its
/// start on.
proof fn lemma_lit_by_left_of_start(v: RequestView, upto: int, r: int, c: int)
    requires
        v.wf(),
        0 <= upto <= v.glyphs.len(),
        lit_by(v, upto, r, c),
    ensures
        v.start_position <= c < v.glyph_start(upto) - 1,
    decreases upto,
{
    if upto > 0 {
        lemma_advance_step(v.glyphs, upto - 1);
        assert(v.glyphs[upto - 1].wf());
        lemma_glyph_start_bound(v, upto - 1);
        if lit_by(v, upto - 1, r, c) {
            lemma_lit_by_left_of_start(v, upto - 1, r, c);
        }
    }
}

/// Whether the cell shows the first `i` glyphs and the first `upto` columns
/// of glyph `i`.
pub open spec fn lit_partly(v: RequestView, i: int, upto: int, r: int, c: int) -> bool {
    lit_by(v, i, r, c) || (v.glyph_start(i) <= c < v.glyph_start(i) + upto && bit_of(
        v.glyphs[i].values[r - 1],
        c - v.glyph_start(i),
    ))
}

/// The blank column before a glyph, blanked in place, changes nothing of
/// what the glyphs before it show.
proof fn lemma_lead_shown(q: Pixels, p: Pixels, v: RequestView, i: int)
    requires
        v.wf(),
        0 <= i < v.glyphs.len(),
        v.glyph_start(i) - 1 <= LAST_VISIBLE,
        shows(q, p, |r: int, c: int| lit_by(v, i, r, c)),
    ensures
        shows(
            applied(q, v.glyphs, lead_ops(i, v.glyph_start(i))),
            p,
            |r: int, c: int| lit_by(v, i, r, c),
        ),
{
    let start = v.glyph_start(i);
    lemma_glyph_start_bound(v, i);
    let ops = lead_ops(i, start);
    if i == 0 {
        assert(ops.len() == 0);
        assert forall|r: int, c: int| #[trigger] in_matrix(r, c) implies q[r][c] == (
        if in_text_area(r, c) {
            lit_by(v, i, r, c)
        } else {
            p[r][c]
        }) by {
            assert(in_matrix(r, c));
        }
    } else {
        let op = RenderOp::Blank { at: (start - 1) as usize };
        assert(ops =~= seq![op]);
        lemma_applied_one(q, v.glyphs, op);
        let after = applied(q, v.glyphs, ops);
        assert forall|r: int, c: int| #[trigger] in_matrix(r, c) implies after[r][c] == (
        if in_text_area(r, c) {
            lit_by(v, i, r, c)
        } else {
            p[r][c]
        }) by {
            assert(in_matrix(r, c));
            if in_text_area(r, c) && c == start - 1 {
                if lit_by(v, i, r, c) {
                    lemma_lit_by_left_of_start(v, i, r, c);
                }
            }
        }
    }
}

/// Painting the first `upto` columns of glyph `i` in place shows them.
proof fn lemma_columns_shown(q: Pixels, p: Pixels, v: RequestView, i: int, upto: int)
    requires
        v.wf(),
        0 <= i < v.glyphs.len(),
        0 <= upto <= v.glyphs[i].width,
        v.glyph_start(i) + v.glyphs[i].width - 1 <= LAST_VISIBLE,
        shows(q, p, |r: int, c: int| lit_by(v, i, r, c)),
    ensures
        shows(
            applied(q, v.glyphs, glyph_columns(i, v.glyph_start(i), upto)),
            p,
            |r: int, c: int| lit_partly(v, i, upto, r, c),
        ),
    decreases upto,
{
    let start = v.glyph_start(i);
    lemma_glyph_start_bound(v, i);
    if upto <= 0 {
        assert(glyph_columns(i, start, upto).len() == 0);
        assert forall|r: int, c: int| #[trigger] in_matrix(r, c) implies q[r][c] == (
        if in_text_area(r, c) {
            lit_partly(v, i, upto, r, c)
        } else {
            p[r][c]
        }) by {
            assert(in_matrix(r, c));
        }
    } else {
        let col = upto - 1;
        lemma_columns_shown(q, p, v, i, col);
        let before = applied(q, v.glyphs, glyph_columns(i, start, col));
        let op = RenderOp::Paint {
            glyph: i as usize,
            column: col as usize,
            at: (start + col) as usize,
        };
        assert(column_ops(i, col, start) =~= seq![op]);
        lemma_applied_concat(q, v.glyphs, glyph_columns(i, start, col), seq![op]);
        lemma_applied_one(before, v.glyphs, op);
        let after = applied(q, v.glyphs, glyph_columns(i, start, upto));
        assert(after == op_applied(before, v.glyphs, op));
        assert forall|r: int, c: int| #[trigger] in_matrix(r, c) implies after[r][c] == (
        if in_text_area(r, c) {
            lit_partly(v, i, upto, r, c)
        } else {
            p[r][c]
        }) by {
            assert(in_matrix(r, c));
            if in_text_area(r, c) && c == start + col {
                if lit_by(v, i, r, c) {
                    lemma_lit_by_left_of_start(v, i, r, c);
                }
            }
        }
    }
}

/// Painting the first `upto` glyphs of a text in place shows them.
proof fn lemma_glyphs_shown(q: Pixels, p: Pixels, v: RequestView, upto: int)
    requires
        v.wf(),
        0 <= upto <= v.glyphs.len(),
        upto > 0 ==> v.glyph_start(upto) - 2 <= LAST_VISIBLE,
        shows(q, p, |r: int, c: int| false),
    ensures
        shows(applied(q, v.glyphs, paint_in(v, upto)), p, |r: int, c: int| lit_by(v, upto, r, c)),
    decreases upto,
{
    if upto <= 0 {
        assert(paint_in(v, upto).len() == 0);
        assert forall|r: int, c: int| #[trigger] in_matrix(r, c) implies q[r][c] == (
        if in_text_area(r, c) {
            lit_by(v, upto, r, c)
        } else {
            p[r][c]
        }) by {
            assert(in_matrix(r, c));
        }
    } else {
        let i = upto - 1;
        let w = v.glyphs[i].width as int;
        let start = v.glyph_start(i);
        assert(v.glyphs[i].wf());
        lemma_advance_step(v.glyphs, i);
        lemma_glyph_start_bound(v, i);
        lemma_glyphs_shown(q, p, v, i);
        let before = applied(q, v.glyphs, paint_in(v, i));
        lemma_lead_shown(before, p, v, i);
        let led = applied(before, v.glyphs, lead_ops(i, start));
        lemma_columns_shown(led, p, v, i, w);
        let columns = glyph_columns(i, start, w);
        let painted = applied(led, v.glyphs, columns);
        let tail = seq![RenderOp::Checkpoint];
        lemma_applied_concat(before, v.glyphs, lead_ops(i, start), columns);
        lemma_applied_concat(before, v.glyphs, lead_ops(i, start) + columns, tail);
        lemma_applied_one(painted, v.glyphs, RenderOp::Checkpoint);
        lemma_applied_concat(q, v.glyphs, paint_in(v, i), glyph_ops(i, w, start));
        let after = applied(q, v.glyphs, paint_in(v, upto));
        assert(after == painted);
        assert forall|r: int, c: int| #[trigger] in_matrix(r, c) implies after[r][c] == (
        if in_text_area(r, c) {
            lit_by(v, upto, r, c)
        } else {
            p[r][c]
        }) by {
            assert(in_matrix(r, c));
            assert(lit_by(v, upto, r, c) == lit_partly(v, i, w, r, c));
        }
    }
}

/// A text that fits the viewport, and whose last glyph ends in it, is shown
/// as it is laid out, whatever the matrix held before. When its steps up to
/// the hold are taken, the text area shows the set bits of its glyphs, each
/// glyph at its start column with exactly one blank column between two
/// glyphs, and nothing else. The status area stays as it was.
pub proof fn lemma_fitting_text_is_shown(p: Pixels, v: RequestView)
    requires
        v.wf(),
        v.fits(),
        v.last_column() <= LAST_VISIBLE,
    ensures
        shows(
            applied(p, v.glyphs, paint_phase(v)),
            p,
            |r: int, c: int| lit_by(v, v.glyphs.len() as int, r, c),
        ),
{
    let n = v.glyphs.len() as int;
    assert(v.glyphs.take(n) =~= v.glyphs);
    lemma_prelude_clears(p, v);
    lemma_applied_concat(p, v.glyphs, prelude(v), paint_in(v, n));
    lemma_glyphs_shown(applied(p, v.glyphs, prelude(v)), p, v, n);
}

/// A text for the whole viewport that fits it is shown as it is laid out.
pub proof fn lemma_viewport_text_is_shown(p: Pixels, v: RequestView)
    requires
        v.wf(),
        v.start_position == DISPLAY_OFFSET,
        v.fits(),
    ensures
        shows(
            applied(p, v.glyphs, paint_phase(v)),
            p,
            |r: int, c: int| lit_by(v, v.glyphs.len() as int, r, c),
        ),
{
    lemma_fitting_text_is_shown(p, v);
}

/// The larger of two integers.
pub open spec fn max_int(a: int, b: int) -> int {
    if a >= b {
        a
    } else {
        b
    }
}

/// From which column on the text area is known to be dark after a step, if
/// it was dark from column `from` on before: a clear darkens all of it, a
/// painted column may be lit, a move brings the dark part one column nearer.
pub open spec fn dark_after(op: RenderOp, from: int) -> int {
    match op {
        RenderOp::ClearText => DISPLAY_OFFSET as int,
        RenderOp::Paint { glyph, column, at } => max_int(from, at + 1),
        RenderOp::ShiftLeft { add_space } => max_int(from - 1, DISPLAY_OFFSET as int),
        _ => from,
    }
}

/// Whether a step paints, if it paints, between column 2 and column 29.
pub open spec fn paints_inside(op: RenderOp) -> bool {
    match op {
        RenderOp::Paint { glyph, column, at } => DISPLAY_OFFSET <= at <= 29,
        RenderOp::Blank { at } => DISPLAY_OFFSET <= at <= 29,
        _ => true,
    }
}

/// A text area that is dark from a column on is dark from every column right
/// of it on.
proof fn lemma_dark_from_weaker(q: Pixels, from: int, later: int)
    requires
        dark_from(q, from),
        from <= later,
    ensures
        dark_from(q, later),
{
    assert forall|r: int, c: int| #[trigger] in_matrix(r, c) && 1 <= r && later <= c
        <= 30 implies !q[r][c] by {
        assert(in_matrix(r, c));
    }
}

/// One step keeps the text area dark from the column that `dark_after`
/// gives.
proof fn lemma_op_dark(q: Pixels, glyphs: Seq<Character>, op: RenderOp, from: int)
    requires
        dark_from(q, from),
        DISPLAY_OFFSET <= from <= 30,
        paints_inside(op),
    ensures
        dark_from(op_applied(q, glyphs, op), dark_after(op, from)),
        DISPLAY_OFFSET <= dark_after(op, from) <= 30,
{
    let after = op_applied(q, glyphs, op);
    assert forall|r: int, c: int| #[trigger] in_matrix(r, c) && 1 <= r && dark_after(op, from) <= c
        <= 30 implies !after[r][c] by {
        assert(in_matrix(r, c));
        assert(in_matrix(r, c + 1));
    }
}

/// A run of up to four steps keeps the text area dark from the column that
/// `dark_after` gives for them in turn.
proof fn lemma_short_dark(q: Pixels, glyphs: Seq<Character>, ops: Seq<RenderOp>, from: int)
    requires
        dark_from(q, from),
        DISPLAY_OFFSET <= from <= 30,
        ops.len() <= 4,
        forall|k: int| 0 <= k < ops.len() ==> paints_inside(#[trigger] ops[k]),
    ensures
        dark_from(applied(q, glyphs, ops), dark_after_short(ops, from)),
        DISPLAY_OFFSET <= dark_after_short(ops, from) <= 30,
    decreases ops.len(),
{
    if ops.len() > 0 {
        let front = ops.drop_last();
        assert forall|k: int| 0 <= k < front.len() implies paints_inside(#[trigger] front[k]) by {
            assert(front[k] == ops[k]);
        }
        lemma_short_dark(q, glyphs, front, from);
        assert(dark_after_short(ops, from) == dark_after(
            ops.last(),
            dark_after_short(front, from),
        ));
        lemma_op_dark(applied(q, glyphs, front), glyphs, ops.last(), dark_after_short(front, from));
    }
}

/// From which column on the text area is dark after a run of up to four
/// steps.
pub open spec fn dark_after_short(ops: Seq<RenderOp>, from: int) -> int {
    let one = if ops.len() > 0 {
        dark_after(ops[0], from)
    } else {
        from
    };
    let two = if ops.len() > 1 {
        dark_after(ops[1], one)
    } else {
        one
    };
    let three = if ops.len() > 2 {
        dark_after(ops[2], two)
    } else {
        two
    };
    if ops.len() > 3 {
        dark_after(ops[3], three)
    } else {
        three
    }
}

/// From which column on the text area is dark once the column of a layout
/// that falls on `column` is painted, if it was dark from `from` on before
/// the text: right of the column while it is painted in place, and from
/// column 24 on once the text has moved.
pub open spec fn dark_reach(from: int, column: int) -> int {
    if column <= LAST_VISIBLE {
        max_int(from, column + 1)
    } else {
        LAST_VISIBLE + 1
    }
}

/// Painting one column of a glyph keeps the text area dark right of it.
proof fn lemma_column_dark(
    q: Pixels,
    glyphs: Seq<Character>,
    glyph: int,
    col: int,
    start: int,
    from: int,
)
    requires
        DISPLAY_OFFSET <= from <= 25,
        DISPLAY_OFFSET <= start + col,
        dark_from(q, dark_reach(from, start + col - 1)),
    ensures
        dark_from(
            applied(q, glyphs, column_ops(glyph, col, start)),
            dark_reach(from, start + col),
        ),
{
    let ops = column_ops(glyph, col, start);
    lemma_short_dark(q, glyphs, ops, dark_reach(from, start + col - 1));
    lemma_dark_from_weaker(
        applied(q, glyphs, ops),
        dark_after_short(ops, dark_reach(from, start + col - 1)),
        dark_reach(from, start + col),
    );
}

/// Blanking the column between two glyphs keeps the text area dark right of
/// it.
proof fn lemma_gap_dark(q: Pixels, glyphs: Seq<Character>, target: int, from: int)
    requires
        DISPLAY_OFFSET <= from <= 25,
        DISPLAY_OFFSET <= target,
        dark_from(q, dark_reach(from, target - 1)),
    ensures
        dark_from(applied(q, glyphs, gap_ops(target)), dark_reach(from, target)),
{
    let ops = gap_ops(target);
    lemma_short_dark(q, glyphs, ops, dark_reach(from, target - 1));
    let after = applied(q, glyphs, ops);
    let known = dark_after_short(ops, dark_reach(from, target - 1));
    // the blanked column itself is dark as well
    let at = if target <= LAST_VISIBLE {
        target
    } else {
        LAST_VISIBLE as int
    };
    let front = ops.drop_last();
    assert(ops.last() == (RenderOp::Blank { at: at as usize }));
    assert(after == op_applied(applied(q, glyphs, front), glyphs, ops.last()));
    assert forall|r: int, c: int| #[trigger] in_matrix(r, c) && 1 <= r && dark_reach(from, target)
        <= c <= 30 implies !after[r][c] by {
        assert(in_matrix(r, c));
    }
}

/// Painting the first `upto` columns of a glyph keeps the text area dark
/// right of them.
proof fn lemma_glyph_columns_dark(
    q: Pixels,
    glyphs: Seq<Character>,
    glyph: int,
    start: int,
    upto: int,
    from: int,
)
    requires
        DISPLAY_OFFSET <= from <= 25,
        DISPLAY_OFFSET <= start,
        0 <= upto,
        dark_from(q, dark_reach(from, start - 1)),
    ensures
        dark_from(
            applied(q, glyphs, glyph_columns(glyph, start, upto)),
            dark_reach(from, start + upto - 1),
        ),
    decreases upto,
{
    if upto > 0 {
        lemma_glyph_columns_dark(q, glyphs, glyph, start, upto - 1, from);
        let before = applied(q, glyphs, glyph_columns(glyph, start, upto - 1));
        lemma_column_dark(before, glyphs, glyph, upto - 1, start, from);
        lemma_applied_concat(
            q,
            glyphs,
            glyph_columns(glyph, start, upto - 1),
            column_ops(glyph, upto - 1, start),
        );
    } else {
        assert(glyph_columns(glyph, start, upto).len() == 0);
    }
}

/// Painting the first `upto` glyphs of a text keeps the text area dark right
/// of the last painted column.
proof fn lemma_paint_in_dark(q: Pixels, v: RequestView, upto: int, from: int)
    requires
        v.wf(),
        0 <= upto <= v.glyphs.len(),
        DISPLAY_OFFSET <= from <= 25,
        dark_from(q, from),
    ensures
        dark_from(
            applied(q, v.glyphs, paint_in(v, upto)),
            if upto == 0 {
                from
            } else {
                dark_reach(from, v.glyph_start(upto) - 2)
            },
        ),
    decreases upto,
{
    if upto <= 0 {
        assert(paint_in(v, upto).len() == 0);
    } else {
        let i = upto - 1;
        let w = v.glyphs[i].width as int;
        let start = v.glyph_start(i);
        assert(v.glyphs[i].wf());
        lemma_advance_step(v.glyphs, i);
        lemma_glyph_start_bound(v, i);
        lemma_paint_in_dark(q, v, i, from);
        let before = applied(q, v.glyphs, paint_in(v, i));
        let lead = lead_ops(i, start);
        if i == 0 {
            assert(lead.len() == 0);
            lemma_dark_from_weaker(before, from, dark_reach(from, start - 1));
        } else {
            lemma_gap_dark(before, v.glyphs, start - 1, from);
        }
        let led = applied(before, v.glyphs, lead);
        lemma_glyph_columns_dark(led, v.glyphs, i, start, w, from);
        let columns = glyph_columns(i, start, w);
        let painted = applied(led, v.glyphs, columns);
        let tail = seq![RenderOp::Checkpoint];
        lemma_applied_concat(before, v.glyphs, lead, columns);
        lemma_applied_concat(before, v.glyphs, lead + columns, tail);
        lemma_applied_one(painted, v.glyphs, RenderOp::Checkpoint);
        lemma_applied_concat(q, v.glyphs, paint_in(v, i), glyph_ops(i, w, start));
    }
}

/// Blank columns of the viewport keep the text area dark where it was dark.
proof fn lemma_blanks_dark(q: Pixels, glyphs: Seq<Character>, left: int, right: int, from: int)
    requires
        dark_from(q, from),
        DISPLAY_OFFSET <= left,
        right <= LAST_INDEX,
    ensures
        dark_from(applied(q, glyphs, blanks(left, right)), from),
    decreases right - left,
{
    let ops = blanks(left, right);
    if right <= left {
        assert(ops.len() == 0);
    } else {
        assert(ops.drop_last() =~= blanks(left, right - 1));
        assert(ops.last() == (RenderOp::Blank { at: (right - 1) as usize }));
        lemma_blanks_dark(q, glyphs, left, right - 1, from);
        let after = applied(q, glyphs, ops);
        assert forall|r: int, c: int| #[trigger] in_matrix(r, c) && 1 <= r && from <= c
            <= 30 implies !after[r][c] by {
            assert(in_matrix(r, c));
        }
    }
}

/// Each move of the scroll off the display brings the dark part of the text
/// area one column nearer to column 2.
proof fn lemma_scroll_out_dark(q: Pixels, glyphs: Seq<Character>, steps: int, from: int)
    requires
        dark_from(q, from),
        DISPLAY_OFFSET <= from <= 30,
        0 <= steps,
    ensures
        dark_from(
            applied(q, glyphs, scroll_out(steps)),
            max_int(from - steps, DISPLAY_OFFSET as int),
        ),
    decreases steps,
{
    if steps > 0 {
        lemma_scroll_out_dark(q, glyphs, steps - 1, from);
        let before = applied(q, glyphs, scroll_out(steps - 1));
        let tail = seq![
            RenderOp::ShiftLeft { add_space: true },
            RenderOp::Hold { ms: SCROLL_DELAY },
            RenderOp::Checkpoint,
        ];
        lemma_short_dark(before, glyphs, tail, max_int(from - (steps - 1), DISPLAY_OFFSET as int));
        lemma_applied_concat(q, glyphs, scroll_out(steps - 1), tail);
    } else {
        assert(scroll_out(steps).len() == 0);
    }
}

/// A text that scrolls off leaves the text area dark. If columns 25 to 30 of
/// rows 1 to 7 were dark before, columns 2 to 30 of those rows are dark when
/// all the steps of the request are taken, whatever else the matrix held.
pub proof fn lemma_scroll_off_leaves_dark(p: Pixels, v: RequestView)
    requires
        v.wf(),
        v.scroll_off_display,
        dark_from(p, 25),
    ensures
        dark_from(applied(p, v.glyphs, render_plan(v)), DISPLAY_OFFSET as int),
{
    let n = v.glyphs.len() as int;
    let glyphs = v.glyphs;
    assert(glyphs.take(n) =~= glyphs);
    // before the glyphs
    let from: int = if v.fits() {
        DISPLAY_OFFSET as int
    } else {
        25
    };
    let ready = applied(p, glyphs, prelude(v));
    if v.fits() {
        lemma_prelude_clears(p, v);
        assert forall|r: int, c: int| #[trigger] in_matrix(r, c) && 1 <= r && from <= c
            <= 30 implies !ready[r][c] by {
            assert(in_matrix(r, c));
        }
    } else {
        let left = blanks(DISPLAY_OFFSET as int, v.start_position);
        let right = blanks(v.end_position, LAST_INDEX as int);
        assert(prelude(v) == left + right);
        lemma_blanks_dark(p, glyphs, DISPLAY_OFFSET as int, v.start_position, from);
        lemma_blanks_dark(applied(p, glyphs, left), glyphs, v.end_position, LAST_INDEX as int, from);
        lemma_applied_concat(p, glyphs, left, right);
    }
    // the glyphs
    lemma_paint_in_dark(ready, v, n, from);
    lemma_applied_concat(p, glyphs, prelude(v), paint_in(v, n));
    let painted = applied(p, glyphs, paint_phase(v));
    let reach = v.final_cursor() - 1;
    crate::display::layout::lemma_advance_bound(glyphs);
    assert(dark_from(painted, max_int(reach, DISPLAY_OFFSET as int))) by {
        if n > 0 {
            lemma_dark_from_weaker(painted, dark_reach(from, v.glyph_start(n) - 2), reach);
        } else {
            lemma_dark_from_weaker(painted, from, max_int(reach, DISPLAY_OFFSET as int));
        }
    }
    // the hold and the scroll off the display
    let hold = seq![RenderOp::Hold { ms: v.effective_hold() }, RenderOp::Checkpoint];
    let steps = scroll_off_steps(v);
    lemma_short_dark(painted, glyphs, hold, max_int(reach, DISPLAY_OFFSET as int));
    let held = applied(painted, glyphs, hold);
    lemma_scroll_out_dark(held, glyphs, steps, max_int(reach, DISPLAY_OFFSET as int));
    lemma_applied_concat(painted, glyphs, hold, scroll_out(steps));
    lemma_applied_concat(p, glyphs, paint_phase(v), finale(v));
}

/// The pixels after a run of up to four steps: the steps are taken in turn.
pub open spec fn applied_short(p: Pixels, glyphs: Seq<Character>, ops: Seq<RenderOp>) -> Pixels {
    let one = if ops.len() > 0 {
        op_applied(p, glyphs, ops[0])
    } else {
        p
    };
    let two = if ops.len() > 1 {
        op_applied(one, glyphs, ops[1])
    } else {
        one
    };
    let three = if ops.len() > 2 {
        op_applied(two, glyphs, ops[2])
    } else {
        two
    };
    if ops.len() > 3 {
        op_applied(three, glyphs, ops[3])
    } else {
        three
    }
}

/// A run of up to four steps, taken in turn.
proof fn lemma_applied_short(p: Pixels, glyphs: Seq<Character>, ops: Seq<RenderOp>)
    requires
        ops.len() <= 4,
    ensures
        applied(p, glyphs, ops) == applied_short(p, glyphs, ops),
    decreases ops.len(),
{
    if ops.len() > 0 {
        let front = ops.drop_last();
        lemma_applied_short(p, glyphs, front);
        assert forall|k: int| 0 <= k < front.len() implies front[k] == ops[k] by {}
    }
}

/// The first column of the viewport that shows the layout once the column
/// of the layout that falls on `column` is painted.
pub open spec fn window_start(v: RequestView, column: int) -> int {
    max_int(DISPLAY_OFFSET as int, v.start_position - columns_behind(column))
}

/// Whether `q` shows the layout of the text up to the column that falls on
/// `column`, moved left by as many columns as have fallen behind the
/// viewport: each cell of rows 1 to 7 from the window's start to the last
/// painted column holds the bit that the layout has there.
pub open spec fn window_shows(q: Pixels, v: RequestView, column: int) -> bool {
    forall|r: int, c: int|
        #[trigger] in_matrix(r, c) && 1 <= r && window_start(v, column) <= c <= column - columns_behind(
            column,
        ) ==> q[r][c] == lit_by(v, v.glyphs.len() as int, r, c + columns_behind(column))
}

/// Glyphs start further right the later they come.
proof fn lemma_glyph_start_grows(v: RequestView, i: int, j: int)
    requires
        v.wf(),
        0 <= i <= j <= v.glyphs.len(),
    ensures
        v.glyph_start(i) + 2 * (j - i) <= v.glyph_start(j),
    decreases j - i,
{
    if i < j {
        lemma_glyph_start_grows(v, i, j - 1);
        lemma_advance_step(v.glyphs, j - 1);
        assert(v.glyphs[j - 1].wf());
    }
}

/// What the layout has on a column of glyph `i`, and on the blank column
/// before it: the glyph's bit, and nothing.
proof fn lemma_lit_by_at(v: RequestView, upto: int, i: int, r: int, c: int)
    requires
        v.wf(),
        0 <= i < upto <= v.glyphs.len(),
        v.glyph_start(i) - 1 <= c < v.glyph_start(i) + v.glyphs[i].width,
    ensures
        lit_by(v, upto, r, c) == (c >= v.glyph_start(i) && bit_of(
            v.glyphs[i].values[r - 1],
            c - v.glyph_start(i),
        )),
    decreases upto,
{
    lemma_advance_step(v.glyphs, i);
    if upto == i + 1 {
        if lit_by(v, i, r, c) {
            lemma_lit_by_left_of_start(v, i, r, c);
        }
    } else {
        lemma_lit_by_at(v, upto - 1, i, r, c);
        lemma_glyph_start_grows(v, i + 1, upto - 1);
    }
}

/// Painting column `col` of glyph `i` keeps the window showing the layout.
proof fn lemma_column_window(q: Pixels, v: RequestView, i: int, col: int)
    requires
        v.wf(),
        0 <= i < v.glyphs.len(),
        0 <= col < v.glyphs[i].width,
        window_shows(q, v, v.glyph_start(i) + col - 1),
    ensures
        window_shows(
            applied(q, v.glyphs, column_ops(i, col, v.glyph_start(i))),
            v,
            v.glyph_start(i) + col,
        ),
{
    let n = v.glyphs.len() as int;
    let start = v.glyph_start(i);
    let target = start + col;
    let ops = column_ops(i, col, start);
    lemma_glyph_start_bound(v, i);
    assert(v.glyphs[i].wf());
    lemma_applied_short(q, v.glyphs, ops);
    let after = applied(q, v.glyphs, ops);
    let moved = columns_behind(target);
    assert forall|r: int, c: int|
        #[trigger] in_matrix(r, c) && 1 <= r && window_start(v, target) <= c <= target
            - moved implies after[r][c] == lit_by(v, n, r, c + moved) by {
        assert(in_matrix(r, c));
        assert(in_matrix(r, c + 1));
        if c == target - moved {
            lemma_lit_by_at(v, n, i, r, target);
        }
    }
}

/// Blanking the column before glyph `i` keeps the window showing the
/// layout.
proof fn lemma_gap_window(q: Pixels, v: RequestView, i: int)
    requires
        v.wf(),
        0 < i < v.glyphs.len(),
        window_shows(q, v, v.glyph_start(i) - 2),
    ensures
        window_shows(
            applied(q, v.glyphs, gap_ops(v.glyph_start(i) - 1)),
            v,
            v.glyph_start(i) - 1,
        ),
{
    let n = v.glyphs.len() as int;
    let target = v.glyph_start(i) - 1;
    let ops = gap_ops(target);
    lemma_glyph_start_bound(v, i);
    lemma_applied_short(q, v.glyphs, ops);
    let after = applied(q, v.glyphs, ops);
    let moved = columns_behind(target);
    assert forall|r: int, c: int|
        #[trigger] in_matrix(r, c) && 1 <= r && window_start(v, target) <= c <= target
            - moved implies after[r][c] == lit_by(v, n, r, c + moved) by {
        assert(in_matrix(r, c));
        assert(in_matrix(r, c + 1));
        if c == target - moved {
            lemma_lit_by_at(v, n, i, r, target);
        }
    }
}

/// Painting the first `upto` columns of glyph `i` keeps the window showing
/// the layout.
proof fn lemma_glyph_columns_window(q: Pixels, v: RequestView, i: int, upto: int)
    requires
        v.wf(),
        0 <= i < v.glyphs.len(),
        0 <= upto <= v.glyphs[i].width,
        window_shows(q, v, v.glyph_start(i) - 1),
    ensures
        window_shows(
            applied(q, v.glyphs, glyph_columns(i, v.glyph_start(i), upto)),
            v,
            v.glyph_start(i) + upto - 1,
        ),
    decreases upto,
{
    let start = v.glyph_start(i);
    if upto > 0 {
        lemma_glyph_columns_window(q, v, i, upto - 1);
        let before = applied(q, v.glyphs, glyph_columns(i, start, upto - 1));
        lemma_column_window(before, v, i, upto - 1);
        lemma_applied_concat(
            q,
            v.glyphs,
            glyph_columns(i, start, upto - 1),
            column_ops(i, upto - 1, start),
        );
    } else {
        assert(glyph_columns(i, start, upto).len() == 0);
    }
}

/// Painting the first `upto` glyphs keeps the window showing the layout.
proof fn lemma_paint_in_window(q: Pixels, v: RequestView, upto: int)
    requires
        v.wf(),
        0 < upto <= v.glyphs.len(),
    ensures
        window_shows(applied(q, v.glyphs, paint_in(v, upto)), v, v.glyph_start(upto) - 2),
    decreases upto,
{
    let i = upto - 1;
    let w = v.glyphs[i].width as int;
    let start = v.glyph_start(i);
    assert(v.glyphs[i].wf());
    lemma_advance_step(v.glyphs, i);
    lemma_glyph_start_bound(v, i);
    let before = applied(q, v.glyphs, paint_in(v, i));
    let lead = lead_ops(i, start);
    if i == 0 {
        assert(paint_in(v, i).len() == 0);
        assert(lead.len() == 0);
        crate::display::layout::lemma_advance_empty(v.glyphs);
        assert(window_shows(before, v, start - 1));
    } else {
        lemma_paint_in_window(q, v, i);
        lemma_gap_window(before, v, i);
    }
    let led = applied(before, v.glyphs, lead);
    lemma_glyph_columns_window(led, v, i, w);
    let columns = glyph_columns(i, start, w);
    let painted = applied(led, v.glyphs, columns);
    let tail = seq![RenderOp::Checkpoint];
    lemma_applied_concat(before, v.glyphs, lead, columns);
    lemma_applied_concat(before, v.glyphs, lead + columns, tail);
    lemma_applied_one(painted, v.glyphs, RenderOp::Checkpoint);
    lemma_applied_concat(q, v.glyphs, paint_in(v, i), glyph_ops(i, w, start));
}

/// Every text is shown as it is laid out, moved left by the columns that
/// fell behind the viewport. When the steps up to the hold are taken, each
/// cell of rows 1 to 7, from the window's start to the column where the last
/// glyph ends, holds the bit that the layout has that many columns to the
/// right. A text that reaches behind the viewport ends with the last column
/// of its last glyph in column 23.
pub proof fn lemma_text_is_shown_moved(p: Pixels, v: RequestView)
    requires
        v.wf(),
        v.glyphs.len() > 0,
    ensures
        window_shows(applied(p, v.glyphs, paint_phase(v)), v, v.last_column()),
        v.last_column() - columns_behind(v.last_column()) == v.final_cursor() - 2,
        v.last_column() > LAST_VISIBLE ==> v.final_cursor() - 2 == LAST_VISIBLE,
{
    let n = v.glyphs.len() as int;
    assert(v.glyphs.take(n) =~= v.glyphs);
    lemma_applied_concat(p, v.glyphs, prelude(v), paint_in(v, n));
    lemma_paint_in_window(applied(p, v.glyphs, prelude(v)), v, n);
}

} // verus!
