//! The layout of one request: the painting, shifting and waiting that show
//! it, computed ahead as a list of steps.
//!
//! A text is laid out from its start column: the columns of each glyph, and
//! one blank column between two glyphs. A column of the layout that falls
//! into the viewport, columns 2 to 23, is painted in place. For a column that
//! falls behind the viewport the text moves one column to the left and the
//! column is painted at column 23. So a text wider than the viewport ends
//! with its last glyph in column 23.

use vstd::prelude::*;
use crate::display::request::advance_of;
use crate::display::request::RenderRequest;
use crate::display::request::RequestView;
use crate::display::request::DISPLAY_OFFSET;
use crate::display::request::LAST_INDEX;
use crate::display::request::MAX_GLYPHS;
use crate::display::text::Character;

verus! {

/// The delay between two moves of the text, in milliseconds.
pub const SCROLL_DELAY: u64 = 150;

/// The number of columns of the viewport, columns 2 to 23.
pub const VIEWPORT_WIDTH: usize = 22;

/// The last column of the viewport.
pub const LAST_VISIBLE: usize = 23;

/// The largest value of the cursor: two columns behind the viewport's last.
pub const CURSOR_LIMIT: usize = 25;

/// One step of showing a request.
#[derive(Clone, Copy, Debug, PartialEq, Eq)]
pub enum RenderOp {
    /// Switch the text area off.
    ClearText,
    /// Paint column `column` of the request's glyph number `glyph` at matrix
    /// column `at`.
    Paint { glyph: usize, column: usize, at: usize },
    /// Paint one blank column at matrix column `at`.
    Blank { at: usize },
    /// Move the text area one column to the left.
    ShiftLeft { add_space: bool },
    /// Wait inside a glyph; a cancel does not cut it short.
    Pause { ms: u64 },
    /// Wait between glyphs or after the text; a cancel cuts it short.
    Hold { ms: u64 },
    /// A boundary at which a cancel takes effect.
    Checkpoint,
}

/// Whether a step can be taken on a request with `glyphs`: it paints a column
/// that the glyph has, at a column of the text area.
pub open spec fn op_valid(glyphs: Seq<Character>, op: RenderOp) -> bool {
    match op {
        RenderOp::Paint { glyph, column, at } => glyph < glyphs.len() && column < 5
            && DISPLAY_OFFSET <= at < 32,
        RenderOp::Blank { at } => DISPLAY_OFFSET <= at < 32,
        _ => true,
    }
}

/// Whether every one of the steps can be taken.
pub open spec fn all_valid(glyphs: Seq<Character>, ops: Seq<RenderOp>) -> bool {
    forall|k: int| 0 <= k < ops.len() ==> op_valid(glyphs, #[trigger] ops[k])
}

/// The smaller of two integers.
pub open spec fn min_int(a: int, b: int) -> int {
    if a <= b {
        a
    } else {
        b
    }
}

/// How many of the columns of a layout, up to the one that falls on
/// `column`, fall behind the viewport.
pub open spec fn columns_behind(column: int) -> int {
    if column <= LAST_VISIBLE {
        0
    } else {
        column - LAST_VISIBLE
    }
}

impl RequestView {
    /// The column on which the last column of the last glyph falls when
    /// nothing has moved.
    pub open spec fn last_column(self) -> int {
        self.start_position + self.width() - 1
    }

    /// Whether the text fits the viewport: its occupied width is at most 22.
    pub open spec fn fits(self) -> bool {
        self.width() <= VIEWPORT_WIDTH
    }

    /// The cursor behind the text once it is painted: two columns behind the
    /// column where the last glyph ends, which is column 23 at most. For a
    /// text without glyphs it is the start column.
    pub open spec fn final_cursor(self) -> int {
        if self.glyphs.len() == 0 {
            self.start_position
        } else {
            min_int(self.last_column(), LAST_VISIBLE as int) + 2
        }
    }

    /// The hold after painting: never shorter than one scroll delay when the
    /// text scrolls off afterwards.
    pub open spec fn effective_hold(self) -> u64 {
        if self.hold_end_ms < SCROLL_DELAY && self.scroll_off_display {
            SCROLL_DELAY
        } else {
            self.hold_end_ms
        }
    }
}

/// The steps for column `col` of glyph `glyph` when the glyph starts at
/// `start`. A column in the viewport is painted in place. For a column behind
/// it the text moves and the column is painted at column 23; the first such
/// column of a glyph waits once more before the text moves.
pub open spec fn column_ops(glyph: int, col: int, start: int) -> Seq<RenderOp> {
    let target = start + col;
    let paint_last = RenderOp::Paint {
        glyph: glyph as usize,
        column: col as usize,
        at: LAST_VISIBLE,
    };
    if target <= LAST_VISIBLE {
        seq![RenderOp::Paint { glyph: glyph as usize, column: col as usize, at: target as usize }]
    } else if col == 0 || target == LAST_VISIBLE + 1 {
        seq![
            RenderOp::Pause { ms: SCROLL_DELAY },
            RenderOp::ShiftLeft { add_space: false },
            RenderOp::Pause { ms: SCROLL_DELAY },
            paint_last,
        ]
    } else {
        seq![
            RenderOp::ShiftLeft { add_space: false },
            RenderOp::Pause { ms: SCROLL_DELAY },
            paint_last,
        ]
    }
}

/// The steps for the blank column between two glyphs when it falls on
/// `target`: it is blanked in place, or the text moves and column 23 is
/// blanked.
pub open spec fn gap_ops(target: int) -> Seq<RenderOp> {
    if target <= LAST_VISIBLE {
        seq![RenderOp::Blank { at: target as usize }]
    } else {
        seq![RenderOp::ShiftLeft { add_space: true }, RenderOp::Blank { at: LAST_VISIBLE }]
    }
}

/// The steps for the first `upto` columns of a glyph that starts at `start`.
pub open spec fn glyph_columns(glyph: int, start: int, upto: int) -> Seq<RenderOp>
    decreases upto,
{
    if upto <= 0 {
        Seq::empty()
    } else {
        glyph_columns(glyph, start, upto - 1) + column_ops(glyph, upto - 1, start)
    }
}

/// The steps before the columns of glyph `glyph`: the blank column that
/// parts it from the glyph before, if there is one.
pub open spec fn lead_ops(glyph: int, start: int) -> Seq<RenderOp> {
    if glyph > 0 {
        gap_ops(start - 1)
    } else {
        Seq::empty()
    }
}

/// The steps for one glyph of width `width` that starts at `start`: the
/// blank column before it, its columns, and a checkpoint.
pub open spec fn glyph_ops(glyph: int, width: int, start: int) -> Seq<RenderOp> {
    lead_ops(glyph, start) + glyph_columns(glyph, start, width) + seq![RenderOp::Checkpoint]
}

/// The steps that paint the first `upto` glyphs of a request.
pub open spec fn paint_in(v: RequestView, upto: int) -> Seq<RenderOp>
    decreases upto,
{
    if upto <= 0 {
        Seq::empty()
    } else {
        paint_in(v, upto - 1) + glyph_ops(
            upto - 1,
            v.glyphs[upto - 1].width as int,
            v.glyph_start(upto - 1),
        )
    }
}

/// Blank columns from `from` up to, not including, `to`.
pub open spec fn blanks(from: int, to: int) -> Seq<RenderOp> {
    if to <= from {
        Seq::empty()
    } else {
        Seq::new((to - from) as nat, |k: int| RenderOp::Blank { at: (from + k) as usize })
    }
}

/// What comes before the glyphs: the text area is cleared if the text fits
/// the viewport, then the columns before the start and from the window's end
/// to column 23 are blanked.
pub open spec fn prelude(v: RequestView) -> Seq<RenderOp> {
    let pads = blanks(DISPLAY_OFFSET as int, v.start_position) + blanks(
        v.end_position,
        LAST_INDEX as int,
    );
    if v.fits() {
        seq![RenderOp::ClearText] + pads
    } else {
        pads
    }
}

/// `steps` moves of the text off the display, each followed by one scroll
/// delay and a checkpoint.
pub open spec fn scroll_out(steps: int) -> Seq<RenderOp>
    decreases steps,
{
    if steps <= 0 {
        Seq::empty()
    } else {
        scroll_out(steps - 1) + seq![
            RenderOp::ShiftLeft { add_space: true },
            RenderOp::Hold { ms: SCROLL_DELAY },
            RenderOp::Checkpoint,
        ]
    }
}

/// The number of moves that take the text off the display: the distance of
/// the final cursor from the first text column.
pub open spec fn scroll_off_steps(v: RequestView) -> int {
    if v.scroll_off_display {
        v.final_cursor() - DISPLAY_OFFSET
    } else {
        0
    }
}

/// What comes after the glyphs: the hold, a checkpoint and, if asked for, the
/// scroll off the display.
pub open spec fn finale(v: RequestView) -> Seq<RenderOp> {
    seq![RenderOp::Hold { ms: v.effective_hold() }, RenderOp::Checkpoint] + scroll_out(
        scroll_off_steps(v),
    )
}

/// The steps up to the hold: the prelude and the painting of every glyph.
pub open spec fn paint_phase(v: RequestView) -> Seq<RenderOp> {
    prelude(v) + paint_in(v, v.glyphs.len() as int)
}

/// All the steps that show a request.
pub open spec fn render_plan(v: RequestView) -> Seq<RenderOp> {
    paint_phase(v) + finale(v)
}

/// The advance of a run of glyphs grows by a glyph's width and one blank
/// column with each glyph.
pub proof fn lemma_advance_step(glyphs: Seq<Character>, i: int)
    requires
        0 <= i < glyphs.len(),
    ensures
        advance_of(glyphs.take(i + 1)) == advance_of(glyphs.take(i)) + glyphs[i].width + 1,
{
    assert(glyphs.take(i + 1).drop_last() =~= glyphs.take(i));
    assert(glyphs.take(i + 1).last() == glyphs[i]);
}

/// No glyphs advance nothing.
pub proof fn lemma_advance_empty(glyphs: Seq<Character>)
    ensures
        advance_of(glyphs.take(0)) == 0,
{
    assert(glyphs.take(0).len() == 0);
}

/// A run of well-formed glyphs advances two to six columns per glyph.
pub proof fn lemma_advance_bound(glyphs: Seq<Character>)
    requires
        forall|i: int| 0 <= i < glyphs.len() ==> (#[trigger] glyphs[i]).wf(),
    ensures
        2 * glyphs.len() <= advance_of(glyphs) <= 6 * glyphs.len(),
    decreases glyphs.len(),
{
    if glyphs.len() > 0 {
        let before = glyphs.drop_last();
        assert forall|i: int| 0 <= i < before.len() implies (#[trigger] before[i]).wf() by {
            assert(before[i] == glyphs[i]);
        }
        lemma_advance_bound(before);
        assert(glyphs.last() == glyphs[glyphs.len() - 1]);
    }
}

/// The glyphs before glyph `i` of a request advance two to six columns each.
pub proof fn lemma_glyph_start_bound(v: RequestView, i: int)
    requires
        v.wf(),
        0 <= i <= v.glyphs.len(),
    ensures
        v.start_position + 2 * i <= v.glyph_start(i) <= v.start_position + 6 * i,
{
    let before = v.glyphs.take(i);
    assert forall|k: int| 0 <= k < before.len() implies (#[trigger] before[k]).wf() by {
        assert(before[k] == v.glyphs[k]);
    }
    lemma_advance_bound(before);
}

/// The occupied width of the whole text of a request.
pub fn text_width(request: &RenderRequest) -> (width: usize)
    requires
        request@.wf(),
    ensures
        width == request@.width(),
        width <= 6 * MAX_GLYPHS,
{
    let n = request.glyph_count();
    let mut advance: usize = 0;
    let mut i: usize = 0;
    proof {
        lemma_advance_empty(request@.glyphs);
    }
    while i < n
        invariant
            i <= n,
            n == request@.glyphs.len(),
            request@.wf(),
            advance == advance_of(request@.glyphs.take(i as int)),
            2 * i <= advance <= 6 * i,
        decreases n - i,
    {
        let g = request.glyph(i);
        proof {
            lemma_advance_step(request@.glyphs, i as int);
            assert(request@.glyphs[i as int].wf());
        }
        advance = advance + g.width + 1;
        i += 1;
    }
    assert(request@.glyphs.take(n as int) =~= request@.glyphs);
    if n == 0 {
        0
    } else {
        advance - 1
    }
}

/// Compute the steps that show `request`.
pub fn plan_render(request: &RenderRequest) -> (plan: Vec<RenderOp>)
    requires
        request@.wf(),
    ensures
        plan@ == render_plan(request@),
        all_valid(request@.glyphs, plan@),
{
    let ghost v = request@;
    let n = request.glyph_count();
    let width = text_width(request);
    let mut plan: Vec<RenderOp> = Vec::new();
    if width <= VIEWPORT_WIDTH {
        plan.push(RenderOp::ClearText);
    }
    let ghost cleared = plan@;
    let mut space: usize = DISPLAY_OFFSET;
    while space < request.start_position
        invariant
            DISPLAY_OFFSET <= space,
            v == request@,
            v.wf(),
            space <= request.start_position,
            plan@ =~= cleared + blanks(DISPLAY_OFFSET as int, space as int),
        decreases request.start_position - space,
    {
        plan.push(RenderOp::Blank { at: space });
        space += 1;
    }
    let ghost left = plan@;
    let mut space: usize = request.end_position;
    while space < LAST_INDEX
        invariant
            v == request@,
            v.wf(),
            request.end_position <= space <= LAST_INDEX,
            plan@ =~= left + blanks(v.end_position, space as int),
        decreases LAST_INDEX - space,
    {
        plan.push(RenderOp::Blank { at: space });
        space += 1;
    }
    assert(plan@ =~= prelude(v));
    let mut start: usize = request.start_position;
    let mut i: usize = 0;
    proof {
        lemma_advance_empty(v.glyphs);
    }
    while i < n
        invariant
            i <= n <= MAX_GLYPHS,
            n == v.glyphs.len(),
            v == request@,
            v.wf(),
            start == v.glyph_start(i as int),
            DISPLAY_OFFSET <= start <= LAST_INDEX + 6 * i,
            plan@ =~= prelude(v) + paint_in(v, i as int),
        decreases n - i,
    {
        let g = request.glyph(i);
        let ghost before = plan@;
        proof {
            lemma_advance_step(v.glyphs, i as int);
            assert(v.glyphs[i as int].wf());
        }
        if i > 0 {
            if start - 1 <= LAST_VISIBLE {
                plan.push(RenderOp::Blank { at: start - 1 });
            } else {
                plan.push(RenderOp::ShiftLeft { add_space: true });
                plan.push(RenderOp::Blank { at: LAST_VISIBLE });
            }
        }
        let ghost led = plan@;
        assert(led =~= before + lead_ops(i as int, start as int));
        let mut col: usize = 0;
        while col < g.width
            invariant
                col <= g.width <= 5,
                i < n <= MAX_GLYPHS,
                start <= LAST_INDEX + 6 * i,
                plan@ =~= led + glyph_columns(i as int, start as int, col as int),
            decreases g.width - col,
        {
            let target = start + col;
            if target <= LAST_VISIBLE {
                plan.push(RenderOp::Paint { glyph: i, column: col, at: target });
            } else {
                if col == 0 || target == LAST_VISIBLE + 1 {
                    plan.push(RenderOp::Pause { ms: SCROLL_DELAY });
                }
                plan.push(RenderOp::ShiftLeft { add_space: false });
                plan.push(RenderOp::Pause { ms: SCROLL_DELAY });
                plan.push(RenderOp::Paint { glyph: i, column: col, at: LAST_VISIBLE });
            }
            col += 1;
        }
        plan.push(RenderOp::Checkpoint);
        assert(plan@ =~= before + glyph_ops(i as int, g.width as int, start as int));
        start = start + g.width + 1;
        i += 1;
    }
    let hold = if request.hold_end_ms < SCROLL_DELAY && request.scroll_off_display {
        SCROLL_DELAY
    } else {
        request.hold_end_ms
    };
    plan.push(RenderOp::Hold { ms: hold });
    plan.push(RenderOp::Checkpoint);
    let ghost held = plan@;
    if request.scroll_off_display {
        let mut pos: usize = if n == 0 {
            request.start_position
        } else if request.start_position + width - 1 <= LAST_VISIBLE {
            request.start_position + width + 1
        } else {
            CURSOR_LIMIT
        };
        assert(pos == v.final_cursor());
        let ghost steps = pos - DISPLAY_OFFSET;
        while pos > DISPLAY_OFFSET
            invariant
                DISPLAY_OFFSET <= pos <= CURSOR_LIMIT,
                pos - DISPLAY_OFFSET <= steps <= CURSOR_LIMIT,
                plan@ =~= held + scroll_out(steps - (pos - DISPLAY_OFFSET)),
            decreases pos,
        {
            let ghost done = steps - (pos - DISPLAY_OFFSET);
            assert(scroll_out(done + 1) == scroll_out(done) + seq![
                RenderOp::ShiftLeft { add_space: true },
                RenderOp::Hold { ms: SCROLL_DELAY },
                RenderOp::Checkpoint,
            ]);
            plan.push(RenderOp::ShiftLeft { add_space: true });
            plan.push(RenderOp::Hold { ms: SCROLL_DELAY });
            plan.push(RenderOp::Checkpoint);
            pos -= 1;
        }
    }
    assert(plan@ =~= render_plan(v));
    proof {
        lemma_plan_valid(v);
    }
    plan
}

/// How many of the steps move the text to the left.
pub open spec fn shift_count(ops: Seq<RenderOp>) -> int
    decreases ops.len(),
{
    if ops.len() == 0 {
        0
    } else {
        shift_count(ops.drop_last()) + if ops.last() is ShiftLeft {
            1int
        } else {
            0int
        }
    }
}

/// The moves of two runs of steps add up.
pub proof fn lemma_shift_count_concat(a: Seq<RenderOp>, b: Seq<RenderOp>)
    ensures
        shift_count(a + b) == shift_count(a) + shift_count(b),
    decreases b.len(),
{
    if b.len() == 0 {
        assert(a + b =~= a);
    } else {
        assert((a + b).drop_last() =~= a + b.drop_last());
        assert((a + b).last() == b.last());
        lemma_shift_count_concat(a, b.drop_last());
    }
}

/// A short run of steps moves the text once for each of its `ShiftLeft`.
proof fn lemma_shift_count_short(ops: Seq<RenderOp>)
    requires
        ops.len() <= 4,
    ensures
        shift_count(ops) == (if ops.len() > 0 && ops[0] is ShiftLeft {
            1int
        } else {
            0int
        }) + (if ops.len() > 1 && ops[1] is ShiftLeft {
            1int
        } else {
            0int
        }) + (if ops.len() > 2 && ops[2] is ShiftLeft {
            1int
        } else {
            0int
        }) + (if ops.len() > 3 && ops[3] is ShiftLeft {
            1int
        } else {
            0int
        }),
    decreases ops.len(),
{
    if ops.len() > 0 {
        lemma_shift_count_short(ops.drop_last());
    }
}

/// Steps without a `ShiftLeft` among them do not move the text.
pub proof fn lemma_no_shift_ops(ops: Seq<RenderOp>)
    requires
        forall|k: int| 0 <= k < ops.len() ==> !(#[trigger] ops[k] is ShiftLeft),
    ensures
        shift_count(ops) == 0,
    decreases ops.len(),
{
    if ops.len() > 0 {
        assert(!(ops[ops.len() - 1] is ShiftLeft));
        lemma_no_shift_ops(ops.drop_last());
    }
}

/// The first `upto` columns of a glyph move the text once for each of them
/// that falls behind the viewport.
proof fn lemma_glyph_columns_shifts(glyph: int, start: int, upto: int)
    requires
        0 <= upto,
    ensures
        shift_count(glyph_columns(glyph, start, upto)) == columns_behind(start + upto - 1)
            - columns_behind(start - 1),
    decreases upto,
{
    if upto > 0 {
        lemma_glyph_columns_shifts(glyph, start, upto - 1);
        lemma_shift_count_concat(
            glyph_columns(glyph, start, upto - 1),
            column_ops(glyph, upto - 1, start),
        );
        lemma_shift_count_short(column_ops(glyph, upto - 1, start));
    } else {
        assert(glyph_columns(glyph, start, upto).len() == 0);
    }
}

/// One glyph moves the text once for each column behind the viewport, its
/// own and the blank one before it.
proof fn lemma_glyph_ops_shifts(glyph: int, width: int, start: int)
    requires
        0 <= width,
        0 <= glyph,
    ensures
        shift_count(glyph_ops(glyph, width, start)) == columns_behind(start + width - 1)
            - columns_behind(
            if glyph > 0 {
                start - 2
            } else {
                start - 1
            },
        ),
{
    let lead = lead_ops(glyph, start);
    let columns = glyph_columns(glyph, start, width);
    let tail = seq![RenderOp::Checkpoint];
    lemma_shift_count_short(lead);
    lemma_glyph_columns_shifts(glyph, start, width);
    lemma_shift_count_short(tail);
    lemma_shift_count_concat(lead, columns);
    lemma_shift_count_concat(lead + columns, tail);
}

/// Painting the first `upto` glyphs of a text moves it once for each column
/// of their layout that falls behind the viewport, the blank columns between
/// them included.
pub proof fn lemma_paint_in_shifts(v: RequestView, upto: int)
    requires
        v.wf(),
        0 <= upto <= v.glyphs.len(),
    ensures
        shift_count(paint_in(v, upto)) == (if upto == 0 {
            0
        } else {
            columns_behind(v.glyph_start(upto) - 2)
        }),
    decreases upto,
{
    if upto <= 0 {
        assert(paint_in(v, upto).len() == 0);
    } else {
        let i = upto - 1;
        let w = v.glyphs[i].width as int;
        assert(v.glyphs[i].wf());
        lemma_paint_in_shifts(v, i);
        lemma_advance_step(v.glyphs, i);
        lemma_advance_empty(v.glyphs);
        lemma_glyph_start_bound(v, i);
        lemma_shift_count_concat(paint_in(v, i), glyph_ops(i, w, v.glyph_start(i)));
        lemma_glyph_ops_shifts(i, w, v.glyph_start(i));
    }
}

/// The moves up to the hold: one for each column by which the text reaches
/// behind the viewport, and none if its last glyph ends in the viewport.
pub proof fn lemma_paint_phase_shifts(v: RequestView)
    requires
        v.wf(),
    ensures
        shift_count(paint_phase(v)) == (if v.glyphs.len() == 0 {
            0
        } else {
            columns_behind(v.last_column())
        }),
{
    let n = v.glyphs.len() as int;
    assert(v.glyphs.take(n) =~= v.glyphs);
    lemma_paint_in_shifts(v, n);
    lemma_no_shift_ops(prelude(v));
    lemma_shift_count_concat(prelude(v), paint_in(v, n));
}

/// A text whose last glyph ends in the viewport is painted without a single
/// move, wherever its window starts.
pub proof fn lemma_text_inside_never_shifts(v: RequestView)
    requires
        v.wf(),
        v.last_column() <= LAST_VISIBLE,
    ensures
        shift_count(paint_phase(v)) == 0,
        !v.scroll_off_display ==> shift_count(render_plan(v)) == 0,
{
    lemma_paint_phase_shifts(v);
    lemma_shift_count_concat(paint_phase(v), finale(v));
    let hold = seq![RenderOp::Hold { ms: v.effective_hold() }, RenderOp::Checkpoint];
    lemma_shift_count_concat(hold, scroll_out(scroll_off_steps(v)));
    lemma_shift_count_short(hold);
    if !v.scroll_off_display {
        lemma_scroll_out_shifts(0);
    }
}

/// A text for the whole viewport that fits the viewport is painted without
/// a single move.
pub proof fn lemma_fitting_text_never_shifts(v: RequestView)
    requires
        v.wf(),
        v.start_position == DISPLAY_OFFSET,
        v.fits(),
    ensures
        shift_count(paint_phase(v)) == 0,
        !v.scroll_off_display ==> shift_count(render_plan(v)) == 0,
{
    lemma_text_inside_never_shifts(v);
}

/// A text for the whole viewport that is wider than the viewport is painted
/// with as many moves as it is wider than the viewport, and its last column
/// is painted at column 23.
pub proof fn lemma_wide_text_shift_steps(v: RequestView)
    requires
        v.wf(),
        v.start_position == DISPLAY_OFFSET,
        !v.fits(),
    ensures
        shift_count(paint_phase(v)) == v.width() - VIEWPORT_WIDTH,
        v.glyphs.len() > 0,
        column_ops(
            v.glyphs.len() - 1,
            v.glyphs.last().width - 1,
            v.glyph_start(v.glyphs.len() - 1),
        ).last() == (RenderOp::Paint {
            glyph: (v.glyphs.len() - 1) as usize,
            column: (v.glyphs.last().width - 1) as usize,
            at: LAST_VISIBLE,
        }),
        v.final_cursor() == CURSOR_LIMIT,
{
    let n = v.glyphs.len() as int;
    lemma_paint_phase_shifts(v);
    assert(v.glyphs.take(n) =~= v.glyphs);
    lemma_advance_step(v.glyphs, n - 1);
    assert(v.glyphs.last() == v.glyphs[n - 1]);
}

/// Scrolling off moves the text once per step.
pub proof fn lemma_scroll_out_shifts(steps: int)
    requires
        0 <= steps,
    ensures
        shift_count(scroll_out(steps)) == steps,
    decreases steps,
{
    if steps > 0 {
        let tail = seq![
            RenderOp::ShiftLeft { add_space: true },
            RenderOp::Hold { ms: SCROLL_DELAY },
            RenderOp::Checkpoint,
        ];
        lemma_scroll_out_shifts(steps - 1);
        lemma_shift_count_concat(scroll_out(steps - 1), tail);
        lemma_shift_count_short(tail);
    } else {
        assert(scroll_out(steps).len() == 0);
    }
}

/// Scrolling off takes as many moves as the final cursor stands right of
/// the first text column.
pub proof fn lemma_scroll_off_shift_steps(v: RequestView)
    requires
        v.wf(),
        v.scroll_off_display,
    ensures
        shift_count(finale(v)) == v.final_cursor() - DISPLAY_OFFSET,
        shift_count(render_plan(v)) == shift_count(paint_phase(v)) + v.final_cursor()
            - DISPLAY_OFFSET,
{
    let hold = seq![RenderOp::Hold { ms: v.effective_hold() }, RenderOp::Checkpoint];
    lemma_advance_bound(v.glyphs);
    lemma_shift_count_concat(hold, scroll_out(scroll_off_steps(v)));
    lemma_shift_count_short(hold);
    lemma_scroll_out_shifts(scroll_off_steps(v));
    lemma_shift_count_concat(paint_phase(v), finale(v));
}

/// Whether each hold among the steps has a checkpoint right behind it.
pub open spec fn holds_checked(ops: Seq<RenderOp>) -> bool {
    forall|k: int|
        0 <= k < ops.len() && #[trigger] ops[k] is Hold ==> k + 1 < ops.len() && ops[k
            + 1] is Checkpoint
}

/// Two runs of steps whose holds have their checkpoints, one behind the
/// other, still have them.
proof fn lemma_holds_checked_concat(a: Seq<RenderOp>, b: Seq<RenderOp>)
    requires
        holds_checked(a),
        holds_checked(b),
    ensures
        holds_checked(a + b),
{
    assert forall|k: int| 0 <= k < (a + b).len() && #[trigger] (a + b)[k] is Hold implies k + 1 < (
    a + b).len() && (a + b)[k + 1] is Checkpoint by {
        if k < a.len() {
            assert(a[k] is Hold);
            assert((a + b)[k + 1] == a[k + 1]);
        } else {
            assert(b[k - a.len()] is Hold);
            assert((a + b)[k + 1] == b[k + 1 - a.len()]);
        }
    }
}

/// Whether none of the steps is a `Hold`.
pub open spec fn no_hold(ops: Seq<RenderOp>) -> bool {
    forall|k: int| 0 <= k < ops.len() ==> !(#[trigger] ops[k] is Hold)
}

/// Two runs of steps without a `Hold`, one behind the other, have none.
proof fn lemma_no_hold_concat(a: Seq<RenderOp>, b: Seq<RenderOp>)
    requires
        no_hold(a),
        no_hold(b),
    ensures
        no_hold(a + b),
        holds_checked(a + b),
{
    assert forall|k: int| 0 <= k < (a + b).len() implies !(#[trigger] (a + b)[k] is Hold) by {
        if k < a.len() {
            assert((a + b)[k] == a[k]);
        } else {
            assert((a + b)[k] == b[k - a.len()]);
        }
    }
}

/// The columns of a glyph hold no `Hold`.
proof fn lemma_glyph_columns_no_hold(glyph: int, start: int, upto: int)
    ensures
        no_hold(glyph_columns(glyph, start, upto)),
    decreases upto,
{
    if upto > 0 {
        lemma_glyph_columns_no_hold(glyph, start, upto - 1);
        assert(no_hold(column_ops(glyph, upto - 1, start)));
        lemma_no_hold_concat(
            glyph_columns(glyph, start, upto - 1),
            column_ops(glyph, upto - 1, start),
        );
    }
}

/// The painting of the glyphs holds no `Hold`.
proof fn lemma_paint_in_no_hold(v: RequestView, upto: int)
    ensures
        no_hold(paint_in(v, upto)),
    decreases upto,
{
    if upto > 0 {
        let i = upto - 1;
        let w = v.glyphs[i].width as int;
        let start = v.glyph_start(i);
        lemma_paint_in_no_hold(v, i);
        lemma_glyph_columns_no_hold(i, start, w);
        assert(no_hold(lead_ops(i, start)));
        lemma_no_hold_concat(lead_ops(i, start), glyph_columns(i, start, w));
        let tail = seq![RenderOp::Checkpoint];
        assert(no_hold(tail));
        lemma_no_hold_concat(lead_ops(i, start) + glyph_columns(i, start, w), tail);
        lemma_no_hold_concat(paint_in(v, i), glyph_ops(i, w, start));
    }
}

/// In the scroll off the display every hold has its checkpoint.
proof fn lemma_scroll_out_holds_checked(steps: int)
    ensures
        holds_checked(scroll_out(steps)),
    decreases steps,
{
    if steps > 0 {
        lemma_scroll_out_holds_checked(steps - 1);
        let tail = seq![
            RenderOp::ShiftLeft { add_space: true },
            RenderOp::Hold { ms: SCROLL_DELAY },
            RenderOp::Checkpoint,
        ];
        assert(holds_checked(tail));
        lemma_holds_checked_concat(scroll_out(steps - 1), tail);
    }
}

/// Every wait that a cancel can cut short has a checkpoint right behind it:
/// a cancel during the hold or during the scroll off the display takes effect
/// with the consumer's next call.
pub proof fn lemma_holds_end_at_checkpoints(v: RequestView)
    ensures
        holds_checked(render_plan(v)),
{
    let n = v.glyphs.len() as int;
    lemma_paint_in_no_hold(v, n);
    assert(no_hold(prelude(v)));
    lemma_no_hold_concat(prelude(v), paint_in(v, n));
    let hold = seq![RenderOp::Hold { ms: v.effective_hold() }, RenderOp::Checkpoint];
    assert(holds_checked(hold));
    lemma_scroll_out_holds_checked(scroll_off_steps(v));
    lemma_holds_checked_concat(hold, scroll_out(scroll_off_steps(v)));
    lemma_holds_checked_concat(paint_phase(v), finale(v));
}

/// Steps that can be taken, one run behind the other, can all be taken.
proof fn lemma_all_valid_concat(glyphs: Seq<Character>, a: Seq<RenderOp>, b: Seq<RenderOp>)
    requires
        all_valid(glyphs, a),
        all_valid(glyphs, b),
    ensures
        all_valid(glyphs, a + b),
{
    assert forall|k: int| 0 <= k < (a + b).len() implies op_valid(glyphs, #[trigger] (a + b)[k]) by {
        if k < a.len() {
            assert((a + b)[k] == a[k]);
        } else {
            assert((a + b)[k] == b[k - a.len()]);
        }
    }
}

/// The columns of a glyph are painted inside the text area.
proof fn lemma_glyph_columns_valid(glyphs: Seq<Character>, glyph: int, start: int, upto: int)
    requires
        0 <= glyph < glyphs.len() <= MAX_GLYPHS,
        DISPLAY_OFFSET <= start,
        upto <= 5,
    ensures
        all_valid(glyphs, glyph_columns(glyph, start, upto)),
    decreases upto,
{
    if upto > 0 {
        lemma_glyph_columns_valid(glyphs, glyph, start, upto - 1);
        assert(all_valid(glyphs, column_ops(glyph, upto - 1, start)));
        lemma_all_valid_concat(
            glyphs,
            glyph_columns(glyph, start, upto - 1),
            column_ops(glyph, upto - 1, start),
        );
    }
}

/// The glyphs are painted inside the text area.
proof fn lemma_paint_in_valid(v: RequestView, upto: int)
    requires
        v.wf(),
        upto <= v.glyphs.len(),
    ensures
        all_valid(v.glyphs, paint_in(v, upto)),
    decreases upto,
{
    if upto > 0 {
        let i = upto - 1;
        let w = v.glyphs[i].width as int;
        let start = v.glyph_start(i);
        assert(v.glyphs[i].wf());
        lemma_paint_in_valid(v, i);
        lemma_glyph_start_bound(v, i);
        lemma_glyph_columns_valid(v.glyphs, i, start, w);
        assert(all_valid(v.glyphs, lead_ops(i, start)));
        lemma_all_valid_concat(v.glyphs, lead_ops(i, start), glyph_columns(i, start, w));
        let tail = seq![RenderOp::Checkpoint];
        assert(all_valid(v.glyphs, tail));
        lemma_all_valid_concat(v.glyphs, lead_ops(i, start) + glyph_columns(i, start, w), tail);
        lemma_all_valid_concat(v.glyphs, paint_in(v, i), glyph_ops(i, w, start));
    }
}

/// In the scroll off the display every step can be taken.
proof fn lemma_scroll_out_valid(glyphs: Seq<Character>, steps: int)
    ensures
        all_valid(glyphs, scroll_out(steps)),
    decreases steps,
{
    if steps > 0 {
        lemma_scroll_out_valid(glyphs, steps - 1);
        let tail = seq![
            RenderOp::ShiftLeft { add_space: true },
            RenderOp::Hold { ms: SCROLL_DELAY },
            RenderOp::Checkpoint,
        ];
        assert(all_valid(glyphs, tail));
        lemma_all_valid_concat(glyphs, scroll_out(steps - 1), tail);
    }
}

/// Every step that shows a request paints a column that its glyph has, at a
/// column of the text area.
pub proof fn lemma_plan_valid(v: RequestView)
    requires
        v.wf(),
    ensures
        all_valid(v.glyphs, render_plan(v)),
{
    let n = v.glyphs.len() as int;
    let left = blanks(DISPLAY_OFFSET as int, v.start_position);
    let right = blanks(v.end_position, LAST_INDEX as int);
    assert(all_valid(v.glyphs, left));
    assert(all_valid(v.glyphs, right));
    lemma_all_valid_concat(v.glyphs, left, right);
    if v.fits() {
        let clear = seq![RenderOp::ClearText];
        assert(all_valid(v.glyphs, clear));
        lemma_all_valid_concat(v.glyphs, clear, left + right);
    }
    lemma_paint_in_valid(v, n);
    lemma_all_valid_concat(v.glyphs, prelude(v), paint_in(v, n));
    let hold = seq![RenderOp::Hold { ms: v.effective_hold() }, RenderOp::Checkpoint];
    assert(all_valid(v.glyphs, hold));
    lemma_scroll_out_valid(v.glyphs, scroll_off_steps(v));
    lemma_all_valid_concat(v.glyphs, hold, scroll_out(scroll_off_steps(v)));
    lemma_all_valid_concat(v.glyphs, paint_phase(v), finale(v));
}

} // verus!
