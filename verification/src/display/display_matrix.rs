//! The display engine: the pixel matrix, the queue of render requests, the
//! cancel flag and the request being shown.
//!
//! Producers queue requests and switch icons. One consumer calls `advance`
//! again and again: each call takes one step of the request being shown, or
//! fetches the next request, and says whether the consumer has to wait before
//! the next call.

use vstd::prelude::*;
use crate::config::TemperaturePreference;
use crate::config::TimePreference;
use crate::display::format::date_buffer;
use crate::display::format::head_buffer;
use crate::display::format::head_text;
use crate::display::format::long_as_str;
use crate::display::format::pair_text;
use crate::display::format::short_as_str;
use crate::display::format::tail_buffer;
use crate::display::format::tail_text;
use crate::display::format::temperature_buffer;
use crate::display::format::temperature_text;
use crate::display::format::time_buffer;
use crate::display::format::time_temperature_buffer;
use crate::display::format::time_temperature_text;
use crate::display::format::year_buffer;
use crate::display::format::year_text;
use crate::display::format::colon_text;
use crate::display::icons::get_icon_struct;
use crate::display::icons::icon_table;
use crate::display::layout::op_valid;
use crate::display::layout::plan_render;
use crate::display::layout::render_plan;
use crate::display::layout::RenderOp;
use crate::display::layout::SCROLL_DELAY;
use crate::display::matrix::cleared;
use crate::display::matrix::in_matrix;
use crate::display::matrix::in_text_area;
use crate::display::matrix::lit;
use crate::display::matrix::painted;
use crate::display::matrix::shifted;
use crate::display::matrix::with_icon;
use crate::display::matrix::PixelMatrix;
use crate::display::matrix::Pixels;
use crate::display::queue::waiting;
use crate::display::queue::RenderQueue;
use crate::display::request::text_request;
use crate::display::request::RenderRequest;
use crate::display::request::RequestView;
use crate::display::request::DISPLAY_OFFSET;
use crate::display::request::LAST_INDEX;
use crate::display::text::Character;

verus! {

/// The column where the right half of a time or a date starts.
pub const BLINK_START: usize = 12;

/// The column where the left half of a time or a date ends.
pub const BLINK_END: usize = 13;

/// How long a temperature is held, in milliseconds.
pub const TEMPERATURE_HOLD: u64 = 2500;

/// How many requests the queue holds at most.
pub const QUEUE_CAPACITY: usize = 16;

/// The type of colon to use when showing the time.
#[derive(Clone, Copy, Debug, PartialEq, Eq, Structural)]
pub enum TimeColon {
    /// Display a full colon.
    Full,
    /// Display nothing.
    Empty,
    /// Display top half of a colon.
    Top,
    /// Display bottom half of a colon.
    Bottom,
}

/// A day of the week.
#[derive(Clone, Copy, Debug, PartialEq, Eq, Structural)]
pub enum Weekday {
    /// Monday.
    Mon,
    /// Tuesday.
    Tue,
    /// Wednesday.
    Wed,
    /// Thursday.
    Thu,
    /// Friday.
    Fri,
    /// Saturday.
    Sat,
    /// Sunday.
    Sun,
}

/// The name of a day's icon.
pub open spec fn day_icon_name(day: Weekday) -> Seq<char> {
    match day {
        Weekday::Mon => "Mon"@,
        Weekday::Tue => "Tue"@,
        Weekday::Wed => "Wed"@,
        Weekday::Thu => "Thur"@,
        Weekday::Fri => "Fri"@,
        Weekday::Sat => "Sat"@,
        Weekday::Sun => "Sun"@,
    }
}

/// The day before.
pub open spec fn day_before(day: Weekday) -> Weekday {
    match day {
        Weekday::Mon => Weekday::Sun,
        Weekday::Tue => Weekday::Mon,
        Weekday::Wed => Weekday::Tue,
        Weekday::Thu => Weekday::Wed,
        Weekday::Fri => Weekday::Thu,
        Weekday::Sat => Weekday::Fri,
        Weekday::Sun => Weekday::Sat,
    }
}

/// What the consumer does after a call of `advance`.
#[derive(Clone, Copy, Debug, PartialEq, Eq)]
pub enum RenderAction {
    /// Nothing to show: wait until a request is queued.
    Idle,
    /// Wait `ms` milliseconds, then call again. A cancellable wait also ends
    /// when the cancel flag is raised.
    Wait { ms: u64, cancellable: bool },
    /// Call again at once.
    Continue,
}

/// The request being shown, its steps, and how many of them are done.
pub struct ActiveRender {
    /// The request.
    pub request: RenderRequest,
    /// The steps that show it.
    pub plan: Vec<RenderOp>,
    /// The number of steps done.
    pub next: usize,
}

/// The request being shown and the number of its steps that are done.
pub struct ProgressView {
    /// The request.
    pub request: RequestView,
    /// The number of steps done.
    pub next: int,
}

/// The state of the display as plain values.
pub struct DisplayView {
    /// The pixels.
    pub pixels: Pixels,
    /// The waiting requests, the next one first.
    pub queue: Seq<RequestView>,
    /// Whether a cancel is pending.
    pub cancel: bool,
    /// The request being shown, if any.
    pub active: Option<ProgressView>,
}

/// The display engine.
pub struct DisplayMatrix {
    /// The framebuffer.
    pub matrix: PixelMatrix,
    /// The waiting requests, the next one first.
    pub queue: RenderQueue,
    /// Whether a cancel is pending.
    pub cancel: bool,
    /// The request being shown, if any.
    pub active: Option<ActiveRender>,
}

/// The glyph of one blank column.
pub open spec fn blank_glyph() -> Character {
    Character { width: 1, values: [0, 0, 0, 0, 0, 0, 0] }
}

/// The pixels after one step of a request with the glyphs `glyphs`.
pub open spec fn op_applied(p: Pixels, glyphs: Seq<Character>, op: RenderOp) -> Pixels {
    match op {
        RenderOp::ClearText => cleared(p, false),
        RenderOp::Paint { glyph, column, at } => painted(
            p,
            glyphs[glyph as int],
            column as int,
            at as int,
        ),
        RenderOp::Blank { at } => painted(p, blank_glyph(), 0, at as int),
        RenderOp::ShiftLeft { add_space } => shifted(p, add_space),
        RenderOp::Pause { ms } => p,
        RenderOp::Hold { ms } => p,
        RenderOp::Checkpoint => p,
    }
}

/// What the consumer does after a step: it waits after a pause, and after a
/// hold unless a cancel is pending.
pub open spec fn op_action(op: RenderOp, cancel: bool) -> RenderAction {
    match op {
        RenderOp::Pause { ms } => RenderAction::Wait { ms, cancellable: false },
        RenderOp::Hold { ms } => if cancel {
            RenderAction::Continue
        } else {
            RenderAction::Wait { ms, cancellable: true }
        },
        _ => RenderAction::Continue,
    }
}

impl DisplayView {
    /// At most 16 requests wait, and every request is well formed. Of the
    /// request being shown no more steps are done than it has.
    pub open spec fn wf(self) -> bool {
        &&& self.queue.len() <= QUEUE_CAPACITY
        &&& forall|i: int| 0 <= i < self.queue.len() ==> (#[trigger] self.queue[i]).wf()
        &&& self.active matches Some(a) ==> a.request.wf() && 0 <= a.next <= render_plan(
            a.request,
        ).len()
    }

    /// The state with the icon called `name` switched on or off; an unknown
    /// name changes nothing.
    pub open spec fn with_icon_named(self, name: Seq<char>, on: bool) -> DisplayView {
        match icon_table(name) {
            Some(icon) => DisplayView { pixels: with_icon(self.pixels, icon, on), ..self },
            None => self,
        }
    }

    /// The state after a cancel, if one is asked for.
    pub open spec fn cancelled_if(self, remove_queue: bool) -> DisplayView {
        if remove_queue {
            self.cancelled()
        } else {
            self
        }
    }

    /// The state after a cancel: the queue is empty, the text area is dark and
    /// the flag is up. The request being shown stays until its next
    /// checkpoint.
    pub open spec fn cancelled(self) -> DisplayView {
        DisplayView { pixels: cleared(self.pixels, false), queue: Seq::empty(), cancel: true, ..self }
    }

    /// The state after `request` was offered to the queue: it stands last, or
    /// nothing changed because 16 requests wait.
    pub open spec fn offered(self, request: RequestView) -> DisplayView {
        if self.queue.len() < QUEUE_CAPACITY {
            DisplayView { queue: self.queue.push(request), ..self }
        } else {
            self
        }
    }

    /// The state after a request was queued, after a cancel if it is to be
    /// shown at once.
    pub open spec fn queued(self, request: RequestView, show_now: bool) -> DisplayView {
        if show_now {
            self.cancelled().offered(request)
        } else {
            self.offered(request)
        }
    }

    /// The state after one call of the consumer.
    ///
    /// With nothing being shown, the first waiting request becomes the one
    /// being shown and the cancel flag is lowered. A request whose steps are
    /// all done is dropped. At a checkpoint a pending cancel drops the request.
    /// Else the next step is taken.
    pub open spec fn advanced(self) -> DisplayView {
        match self.active {
            None => if self.queue.len() == 0 {
                self
            } else {
                DisplayView {
                    queue: self.queue.drop_first(),
                    cancel: false,
                    active: Some(ProgressView { request: self.queue[0], next: 0 }),
                    ..self
                }
            },
            Some(a) => {
                let plan = render_plan(a.request);
                if a.next >= plan.len() {
                    DisplayView { active: None, ..self }
                } else if plan[a.next] is Checkpoint && self.cancel {
                    DisplayView { active: None, ..self }
                } else {
                    DisplayView {
                        pixels: op_applied(self.pixels, a.request.glyphs, plan[a.next]),
                        active: Some(ProgressView { next: a.next + 1, ..a }),
                        ..self
                    }
                }
            },
        }
    }

    /// What the consumer is told by that call.
    pub open spec fn advance_action(self) -> RenderAction {
        match self.active {
            None => if self.queue.len() == 0 {
                RenderAction::Idle
            } else {
                RenderAction::Continue
            },
            Some(a) => {
                let plan = render_plan(a.request);
                if a.next >= plan.len() {
                    RenderAction::Continue
                } else if plan[a.next] is Checkpoint && self.cancel {
                    RenderAction::Continue
                } else {
                    op_action(plan[a.next], self.cancel)
                }
            },
        }
    }
}

impl View for DisplayMatrix {
    type V = DisplayView;

    open spec fn view(&self) -> DisplayView {
        DisplayView {
            pixels: self.matrix@,
            queue: Seq::new(waiting(self.queue).len(), |i: int| waiting(self.queue)[i]@),
            cancel: self.cancel,
            active: match self.active {
                None => None,
                Some(a) => Some(ProgressView { request: a.request@, next: a.next as int }),
            },
        }
    }
}

impl DisplayMatrix {
    /// The first column after the icons.
    pub const DISPLAY_OFFSET: usize = DISPLAY_OFFSET;

    /// The column behind the viewport, where a window ends by default.
    pub const LAST_INDEX: usize = LAST_INDEX;

    /// The delay between shifting the display items left.
    pub const SCROLL_DELAY: u64 = SCROLL_DELAY;

    /// The engine's invariant: its view is well formed, and the steps kept for
    /// the request being shown are the steps of that request.
    pub open spec fn wf(&self) -> bool {
        &&& self@.wf()
        &&& self.active matches Some(a) ==> a.plan@ == render_plan(a.request@)
    }

    /// A dark display with nothing queued.
    pub fn new() -> (display: DisplayMatrix)
        ensures
            display.wf(),
            display@.pixels == crate::display::matrix::dark(),
            display@.queue.len() == 0,
            !display@.cancel,
            display@.active is None,
    {
        DisplayMatrix {
            matrix: PixelMatrix::new(),
            queue: RenderQueue::new(),
            cancel: false,
            active: None,
        }
    }

    /// Cancel what is being shown and discard every waiting request: the
    /// cancel flag goes up, the queue is emptied one request at a time, and
    /// the text area is cleared.
    pub fn cancel_and_remove_queue(&mut self)
        requires
            old(self).wf(),
        ensures
            final(self).wf(),
            final(self)@ == old(self)@.cancelled(),
    {
        self.cancel = true;
        loop
            invariant
                self.cancel,
                self.matrix == old(self).matrix,
                self.active == old(self).active,
            ensures
                self.cancel,
                self.matrix == old(self).matrix,
                self.active == old(self).active,
                waiting(self.queue).len() == 0,
            decreases waiting(self.queue).len(),
        {
            match self.queue.try_receive() {
                Some(_) => {},
                None => {
                    break ;
                },
            }
        }
        self.matrix.clear(false);
        assert(self@.queue =~= Seq::<RequestView>::empty());
    }

    /// How many requests wait.
    pub fn queue_len(&self) -> (n: usize)
        requires
            self.wf(),
        ensures
            n == self@.queue.len(),
            n <= QUEUE_CAPACITY,
    {
        self.queue.len()
    }

    /// Put `request` behind the waiting ones, unless 16 are waiting already.
    /// Returns whether it was taken.
    pub fn offer(&mut self, request: RenderRequest) -> (taken: bool)
        requires
            old(self).wf(),
            request@.wf(),
        ensures
            final(self).wf(),
            final(self)@ == old(self)@.offered(request@),
            taken == (old(self)@.queue.len() < QUEUE_CAPACITY),
    {
        let taken = self.queue.try_send(request);
        assert(self@.queue =~= old(self)@.offered(request@).queue);
        taken
    }

    /// Queue `text` for the whole viewport, columns 2 to 23. The text is cut
    /// to 32 characters, and characters without a glyph are left out. With
    /// `show_now`, what is shown and what waits is cancelled first. Returns
    /// whether the request was taken; it is not when 16 requests wait.
    pub fn queue_text(
        &mut self,
        text: &str,
        hold_end_ms: u64,
        show_now: bool,
        scroll_off_display: bool,
    ) -> (taken: bool)
        requires
            old(self).wf(),
        ensures
            final(self).wf(),
            final(self)@ == old(self)@.queued(
                text_request(
                    text@,
                    hold_end_ms,
                    DISPLAY_OFFSET as int,
                    LAST_INDEX as int,
                    scroll_off_display,
                ),
                show_now,
            ),
            taken == (show_now || old(self)@.queue.len() < QUEUE_CAPACITY),
    {
        if show_now {
            self.cancel_and_remove_queue();
        }
        let request = RenderRequest::from_text(
            text,
            hold_end_ms,
            DISPLAY_OFFSET,
            LAST_INDEX,
            scroll_off_display,
        );
        self.offer(request)
    }

    /// Queue `text` for the window from `start_position` to column 23: the
    /// columns before the window are blanked. The text does not scroll off.
    pub fn queue_text_from(
        &mut self,
        start_position: usize,
        text: &str,
        hold_end_ms: u64,
        show_now: bool,
    ) -> (taken: bool)
        requires
            old(self).wf(),
            DISPLAY_OFFSET <= start_position <= LAST_INDEX,
        ensures
            final(self).wf(),
            final(self)@ == old(self)@.queued(
                text_request(text@, hold_end_ms, start_position as int, LAST_INDEX as int, false),
                show_now,
            ),
            taken == (show_now || old(self)@.queue.len() < QUEUE_CAPACITY),
    {
        if show_now {
            self.cancel_and_remove_queue();
        }
        let request = RenderRequest::from_text(
            text,
            hold_end_ms,
            start_position,
            LAST_INDEX,
            false,
        );
        self.offer(request)
    }

    /// Queue `text` for the window from column 2 to `end_position`: the
    /// columns from the window's end to column 23 are blanked. The text does
    /// not scroll off.
    pub fn queue_text_to(
        &mut self,
        end_position: usize,
        text: &str,
        hold_end_ms: u64,
        show_now: bool,
    ) -> (taken: bool)
        requires
            old(self).wf(),
            DISPLAY_OFFSET <= end_position <= LAST_INDEX,
        ensures
            final(self).wf(),
            final(self)@ == old(self)@.queued(
                text_request(text@, hold_end_ms, DISPLAY_OFFSET as int, end_position as int, false),
                show_now,
            ),
            taken == (show_now || old(self)@.queue.len() < QUEUE_CAPACITY),
    {
        if show_now {
            self.cancel_and_remove_queue();
        }
        let request = RenderRequest::from_text(
            text,
            hold_end_ms,
            DISPLAY_OFFSET,
            end_position,
            false,
        );
        self.offer(request)
    }

    /// One call of the consumer: take the next step of the request being
    /// shown, or fetch the next request.
    pub fn advance(&mut self) -> (action: RenderAction)
        requires
            old(self).wf(),
        ensures
            final(self).wf(),
            final(self)@ == old(self)@.advanced(),
            action == old(self)@.advance_action(),
    {
        let current = self.active.take();
        match current {
            None => {
                match self.queue.try_receive() {
                    None => {
                        assert(self@.queue =~= old(self)@.queue);
                        RenderAction::Idle
                    },
                    Some(request) => {
                        assert(request@ == old(self)@.queue[0]);
                        let plan = plan_render(&request);
                        self.cancel = false;
                        self.active = Some(ActiveRender { request, plan, next: 0 });
                        assert(self@.queue =~= old(self)@.queue.drop_first());
                        RenderAction::Continue
                    },
                }
            },
            Some(running) => {
                let mut running = running;
                assert(self@.queue =~= old(self)@.queue);
                if running.next >= running.plan.len() {
                    return RenderAction::Continue;
                }
                let op = running.plan[running.next];
                proof {
                    crate::display::layout::lemma_plan_valid(running.request@);
                }
                assert(op_valid(running.request@.glyphs, op));
                let mut action = RenderAction::Continue;
                match op {
                    RenderOp::Checkpoint => {
                        if self.cancel {
                            return RenderAction::Continue;
                        }
                    },
                    RenderOp::ClearText => {
                        self.matrix.clear(false);
                    },
                    RenderOp::Paint { glyph, column, at } => {
                        let g = running.request.glyph(glyph);
                        self.matrix.paint_column(&g, column, at);
                    },
                    RenderOp::Blank { at } => {
                        let g = Character::new(1, [0, 0, 0, 0, 0, 0, 0]);
                        self.matrix.paint_column(&g, 0, at);
                    },
                    RenderOp::ShiftLeft { add_space } => {
                        self.matrix.shift_text_left(add_space);
                    },
                    RenderOp::Pause { ms } => {
                        action = RenderAction::Wait { ms, cancellable: false };
                    },
                    RenderOp::Hold { ms } => {
                        if !self.cancel {
                            action = RenderAction::Wait { ms, cancellable: true };
                        }
                    },
                }
                running.next = running.next + 1;
                self.active = Some(running);
                action
            },
        }
    }
}

impl DisplayMatrix {
    /// Clear the entire display. Includes icons. With `remove_queue`, what is
    /// shown and what waits is cancelled first.
    pub fn clear_all(&mut self, remove_queue: bool)
        requires
            old(self).wf(),
        ensures
            final(self).wf(),
            final(self)@ == (DisplayView {
                pixels: crate::display::matrix::dark(),
                ..old(self)@.cancelled_if(remove_queue)
            }),
    {
        if remove_queue {
            self.cancel_and_remove_queue();
        }
        let ghost before = self@;
        self.matrix.clear(true);
        assert(self@.queue =~= before.queue);
        assert(self@.pixels =~~= crate::display::matrix::dark());
    }

    /// Clear the display. Does not include icons. With `remove_queue`, what is
    /// shown and what waits is cancelled first.
    pub fn clear(&mut self, remove_queue: bool)
        requires
            old(self).wf(),
        ensures
            final(self).wf(),
            final(self)@ == (DisplayView {
                pixels: cleared(old(self)@.pixels, false),
                ..old(self)@.cancelled_if(remove_queue)
            }),
    {
        if remove_queue {
            self.cancel_and_remove_queue();
        }
        let ghost before = self@;
        self.matrix.clear(false);
        assert(self@.queue =~= before.queue);
        assert(self@.pixels =~~= cleared(old(self)@.pixels, false));
    }

    /// Switch every pixel on, icons included. With `remove_queue`, what is
    /// shown and what waits is cancelled first.
    pub fn fill_all(&mut self, remove_queue: bool)
        requires
            old(self).wf(),
        ensures
            final(self).wf(),
            final(self)@ == (DisplayView { pixels: lit(), ..old(self)@.cancelled_if(remove_queue) }),
    {
        if remove_queue {
            self.cancel_and_remove_queue();
        }
        let ghost before = self@;
        self.matrix.fill();
        assert(self@.queue =~= before.queue);
    }

    /// Switch the icon called `icon_text` on or off. An unknown name changes
    /// nothing.
    pub fn set_icon(&mut self, icon_text: &str, on: bool)
        requires
            old(self).wf(),
        ensures
            final(self).wf(),
            final(self)@ == old(self)@.with_icon_named(icon_text@, on),
    {
        let ghost before = self@;
        match get_icon_struct(icon_text) {
            Some(icon) => {
                self.matrix.set_icon(&icon, on);
            },
            None => {},
        }
        assert(self@.queue =~= before.queue);
    }

    /// Show an icon on the display. Does nothing if the icon can not be found.
    pub fn show_icon(&mut self, icon_text: &str)
        requires
            old(self).wf(),
        ensures
            final(self).wf(),
            final(self)@ == old(self)@.with_icon_named(icon_text@, true),
    {
        self.set_icon(icon_text, true);
    }

    /// Hide an icon on the display. Does nothing if the icon can not be found.
    pub fn hide_icon(&mut self, icon_text: &str)
        requires
            old(self).wf(),
        ensures
            final(self).wf(),
            final(self)@ == old(self)@.with_icon_named(icon_text@, false),
    {
        self.set_icon(icon_text, false);
    }

    /// Show the icon of `day` and hide that of the day before. The icons of
    /// the other days stay as they are.
    pub fn show_day_icon(&mut self, day: Weekday)
        requires
            old(self).wf(),
        ensures
            final(self).wf(),
            final(self)@ == old(self)@.with_icon_named(
                day_icon_name(day_before(day)),
                false,
            ).with_icon_named(day_icon_name(day), true),
    {
        match day {
            Weekday::Mon => {
                self.hide_icon("Sun");
                self.show_icon("Mon");
            },
            Weekday::Tue => {
                self.hide_icon("Mon");
                self.show_icon("Tue");
            },
            Weekday::Wed => {
                self.hide_icon("Tue");
                self.show_icon("Wed");
            },
            Weekday::Thu => {
                self.hide_icon("Wed");
                self.show_icon("Thur");
            },
            Weekday::Fri => {
                self.hide_icon("Thur");
                self.show_icon("Fri");
            },
            Weekday::Sat => {
                self.hide_icon("Fri");
                self.show_icon("Sat");
            },
            Weekday::Sun => {
                self.hide_icon("Sat");
                self.show_icon("Sun");
            },
        }
    }

    /// Show the icon of the temperature unit in use and hide the other.
    pub fn show_temperature_icon(&mut self, pref: TemperaturePreference)
        requires
            old(self).wf(),
        ensures
            final(self).wf(),
            final(self)@ == (match pref {
                TemperaturePreference::Celcius => old(self)@.with_icon_named(
                    "\u{b0}F"@,
                    false,
                ).with_icon_named("\u{b0}C"@, true),
                TemperaturePreference::Fahrenheit => old(self)@.with_icon_named(
                    "\u{b0}C"@,
                    false,
                ).with_icon_named("\u{b0}F"@, true),
            }),
    {
        match pref {
            TemperaturePreference::Celcius => {
                self.hide_icon("\u{b0}F");
                self.show_icon("\u{b0}C");
            },
            TemperaturePreference::Fahrenheit => {
                self.hide_icon("\u{b0}C");
                self.show_icon("\u{b0}F");
            },
        }
    }

    /// Show AM or PM for the 12 hour clock, PM from hour 12 on, and neither
    /// for the 24 hour clock.
    pub fn show_time_icon(&mut self, pref: TimePreference, hour: u32)
        requires
            old(self).wf(),
        ensures
            final(self).wf(),
            final(self)@ == (match pref {
                TimePreference::Twelve => if hour >= 12 {
                    old(self)@.with_icon_named("AM"@, false).with_icon_named("PM"@, true)
                } else {
                    old(self)@.with_icon_named("PM"@, false).with_icon_named("AM"@, true)
                },
                TimePreference::TwentyFour => old(self)@.with_icon_named(
                    "AM"@,
                    false,
                ).with_icon_named("PM"@, false),
            }),
    {
        match pref {
            TimePreference::Twelve => {
                if hour >= 12 {
                    self.hide_icon("AM");
                    self.show_icon("PM");
                } else {
                    self.hide_icon("PM");
                    self.show_icon("AM");
                }
            },
            TimePreference::TwentyFour => {
                self.hide_icon("AM");
                self.hide_icon("PM");
            },
        }
    }

    /// Show or hide the autolight icon.
    pub fn show_autolight_icon(&mut self, state: bool)
        requires
            old(self).wf(),
        ensures
            final(self).wf(),
            final(self)@ == old(self)@.with_icon_named("AutoLight"@, state),
    {
        if state {
            self.show_icon("AutoLight");
        } else {
            self.hide_icon("AutoLight");
        }
    }
}

impl DisplayMatrix {
    /// Queue a time: `left`, the colon and `right`, each number with a zero
    /// before a single digit, for the whole viewport.
    pub fn queue_time(&mut self, left: u32, right: u32, colon: TimeColon, hold_end_ms: u64, show_now: bool, scroll_off_display: bool) -> (taken: bool)
        requires
            old(self).wf(),
        ensures
            final(self).wf(),
            final(self)@ == old(self)@.queued(
                text_request(pair_text(left as nat, colon_text(colon), right as nat), hold_end_ms, DISPLAY_OFFSET as int, LAST_INDEX as int, scroll_off_display),
                show_now,
            ),
            taken == (show_now || old(self)@.queue.len() < QUEUE_CAPACITY),
    {
        let time = time_buffer(left, colon, right);
        self.queue_text(short_as_str(&time), hold_end_ms, show_now, scroll_off_display)
    }

    /// Queue the right half of a time, a colon and `right`, from column 12
    /// on; the left half stays blank.
    pub fn queue_time_left_side_blink(&mut self, right: u32, hold_end_ms: u64, show_now: bool) -> (taken: bool)
        requires
            old(self).wf(),
        ensures
            final(self).wf(),
            final(self)@ == old(self)@.queued(
                text_request(tail_text(seq![':'], right as nat), hold_end_ms, BLINK_START as int, LAST_INDEX as int, false),
                show_now,
            ),
            taken == (show_now || old(self)@.queue.len() < QUEUE_CAPACITY),
    {
        proof {
            reveal_strlit(":");
        }
        assert(":"@ =~= seq![':']);
        let time = tail_buffer(":", right);
        self.queue_text_from(BLINK_START, short_as_str(&time), hold_end_ms, show_now)
    }

    /// Queue the left half of a time, `left` and a colon, up to column 13; the
    /// right half stays blank.
    pub fn queue_time_right_side_blink(&mut self, left: u32, hold_end_ms: u64, show_now: bool) -> (taken: bool)
        requires
            old(self).wf(),
        ensures
            final(self).wf(),
            final(self)@ == old(self)@.queued(
                text_request(head_text(left as nat, seq![':']), hold_end_ms, DISPLAY_OFFSET as int, BLINK_END as int, false),
                show_now,
            ),
            taken == (show_now || old(self)@.queue.len() < QUEUE_CAPACITY),
    {
        proof {
            reveal_strlit(":");
        }
        assert(":"@ =~= seq![':']);
        let time = head_buffer(left, ":");
        self.queue_text_to(BLINK_END, short_as_str(&time), hold_end_ms, show_now)
    }

    /// Queue a year for the whole viewport.
    pub fn queue_year(&mut self, year: i32, hold_end_ms: u64, show_now: bool) -> (taken: bool)
        requires
            old(self).wf(),
        ensures
            final(self).wf(),
            final(self)@ == old(self)@.queued(
                text_request(year_text(year as int), hold_end_ms, DISPLAY_OFFSET as int, LAST_INDEX as int, false),
                show_now,
            ),
            taken == (show_now || old(self)@.queue.len() < QUEUE_CAPACITY),
    {
        let text = year_buffer(year);
        self.queue_text(short_as_str(&text), hold_end_ms, show_now, false)
    }

    /// Queue a date: `left`, a slash and `right`, each number with a zero
    /// before a single digit, for the whole viewport.
    pub fn queue_date(&mut self, left: u32, right: u32, hold_end_ms: u64, show_now: bool) -> (taken: bool)
        requires
            old(self).wf(),
        ensures
            final(self).wf(),
            final(self)@ == old(self)@.queued(
                text_request(pair_text(left as nat, seq!['/'], right as nat), hold_end_ms, DISPLAY_OFFSET as int, LAST_INDEX as int, false),
                show_now,
            ),
            taken == (show_now || old(self)@.queue.len() < QUEUE_CAPACITY),
    {
        let date = date_buffer(left, right);
        self.queue_text(short_as_str(&date), hold_end_ms, show_now, false)
    }

    /// Queue the right half of a date, a slash and `right`, from column 12
    /// on; the left half stays blank.
    pub fn queue_date_left_side_blink(&mut self, right: u32, hold_end_ms: u64, show_now: bool) -> (taken: bool)
        requires
            old(self).wf(),
        ensures
            final(self).wf(),
            final(self)@ == old(self)@.queued(
                text_request(tail_text(seq!['/'], right as nat), hold_end_ms, BLINK_START as int, LAST_INDEX as int, false),
                show_now,
            ),
            taken == (show_now || old(self)@.queue.len() < QUEUE_CAPACITY),
    {
        proof {
            reveal_strlit("/");
        }
        assert("/"@ =~= seq!['/']);
        let date = tail_buffer("/", right);
        self.queue_text_from(BLINK_START, short_as_str(&date), hold_end_ms, show_now)
    }

    /// Queue the left half of a date, `left` and a slash, up to column 13; the
    /// right half stays blank.
    pub fn queue_date_right_side_blink(&mut self, left: u32, hold_end_ms: u64, show_now: bool) -> (taken: bool)
        requires
            old(self).wf(),
        ensures
            final(self).wf(),
            final(self)@ == old(self)@.queued(
                text_request(head_text(left as nat, seq!['/']), hold_end_ms, DISPLAY_OFFSET as int, BLINK_END as int, false),
                show_now,
            ),
            taken == (show_now || old(self)@.queue.len() < QUEUE_CAPACITY),
    {
        proof {
            reveal_strlit("/");
        }
        assert("/"@ =~= seq!['/']);
        let date = head_buffer(left, "/");
        self.queue_text_to(BLINK_END, short_as_str(&date), hold_end_ms, show_now)
    }

    /// Queue a temperature with its unit, held for two and a half seconds.
    /// `temp` is the reading as text, rounded to whole degrees.
    pub fn queue_temperature(&mut self, temp: &str, pref: TemperaturePreference, show_now: bool, scroll_off_display: bool) -> (taken: bool)
        requires
            old(self).wf(),
        ensures
            final(self).wf(),
            final(self)@ == old(self)@.queued(
                text_request(temperature_text(temp@, pref), TEMPERATURE_HOLD, DISPLAY_OFFSET as int, LAST_INDEX as int, scroll_off_display),
                show_now,
            ),
            taken == (show_now || old(self)@.queue.len() < QUEUE_CAPACITY),
    {
        let text = temperature_buffer(temp, pref);
        self.queue_text(short_as_str(&text), TEMPERATURE_HOLD, show_now, scroll_off_display)
    }

    /// Queue the time, two blanks and the temperature with its unit. The text
    /// scrolls off the display at once. `temp` is the reading as text,
    /// rounded to whole degrees.
    pub fn queue_time_temperature(&mut self, hour: u32, min: u32, temp: &str, pref: TemperaturePreference, show_now: bool) -> (taken: bool)
        requires
            old(self).wf(),
        ensures
            final(self).wf(),
            final(self)@ == old(self)@.queued(
                text_request(time_temperature_text(hour as nat, min as nat, temp@, pref), 0, DISPLAY_OFFSET as int, LAST_INDEX as int, true),
                show_now,
            ),
            taken == (show_now || old(self)@.queue.len() < QUEUE_CAPACITY),
    {
        let text = time_temperature_buffer(hour, min, temp, pref);
        self.queue_text(long_as_str(&text), 0, show_now, true)
    }
}

/// Whether the consumer waits in a hold of the request being shown: the last
/// step taken was a `Hold`.
pub open spec fn in_hold(v: DisplayView) -> bool {
    v.active matches Some(a) && 0 < a.next <= render_plan(a.request).len() && render_plan(
        a.request,
    )[a.next - 1] is Hold
}

/// A request queued with `show_now` supersedes everything. Whatever waited
/// is discarded: the queue holds the new request alone, the cancel flag is up
/// and the text area is dark. If the consumer waits in a hold, however long,
/// its next call drops the request being shown and the call after that starts
/// the new request; neither call tells it to wait.
pub proof fn lemma_show_now_supersedes(v: DisplayView, request: RequestView)
    requires
        v.wf(),
        request.wf(),
    ensures
        v.queued(request, true).wf(),
        v.queued(request, true).queue == seq![request],
        v.queued(request, true).cancel,
        v.queued(request, true).pixels == cleared(v.pixels, false),
        v.active is None ==> {
            let started = v.queued(request, true).advanced();
            &&& v.queued(request, true).advance_action() == RenderAction::Continue
            &&& started.active == Some(ProgressView { request, next: 0 })
            &&& started.queue.len() == 0
            &&& !started.cancel
        },
        in_hold(v) ==> {
            let dropped = v.queued(request, true).advanced();
            let started = dropped.advanced();
            &&& v.queued(request, true).advance_action() == RenderAction::Continue
            &&& dropped.active is None
            &&& dropped.queue == seq![request]
            &&& dropped.advance_action() == RenderAction::Continue
            &&& started.active == Some(ProgressView { request, next: 0 })
            &&& started.queue.len() == 0
            &&& !started.cancel
        },
{
    let queued = v.queued(request, true);
    assert(queued.queue =~= seq![request]);
    assert(queued.queue.drop_first() =~= Seq::<RequestView>::empty());
    if in_hold(v) {
        let a = v.active->0;
        crate::display::layout::lemma_holds_end_at_checkpoints(a.request);
        let plan = render_plan(a.request);
        assert(plan[a.next - 1] is Hold);
        assert(plan[a.next] is Checkpoint);
    }
}

/// Requests are served in the order in which they were queued: the consumer
/// fetches the one that has waited longest, and the others keep their order.
pub proof fn lemma_first_in_first_out(v: DisplayView)
    requires
        v.wf(),
        v.active is None,
        v.queue.len() > 0,
    ensures
        v.advanced().active == Some(ProgressView { request: v.queue[0], next: 0 }),
        v.advanced().queue == v.queue.drop_first(),
        v.advanced().pixels == v.pixels,
        v.advanced().wf(),
{
    assert forall|i: int| 0 <= i < v.queue.drop_first().len() implies (
    #[trigger] v.queue.drop_first()[i]).wf() by {
        assert(v.queue.drop_first()[i] == v.queue[i + 1]);
    }
}

/// Showing text never touches the status area: whatever the consumer does in
/// one call, row 0 and columns 0 and 1 of every row stay as they are. So do
/// they when a request is queued, with or without a cancel.
pub proof fn lemma_rendering_spares_icons(v: DisplayView, request: RequestView, show_now: bool)
    requires
        v.wf(),
    ensures
        forall|r: int, c: int|
            in_matrix(r, c) && !in_text_area(r, c) ==> {
                &&& (#[trigger] v.advanced().pixels[r][c]) == v.pixels[r][c]
                &&& v.queued(request, show_now).pixels[r][c] == v.pixels[r][c]
            },
{
    match v.active {
        Some(a) => {
            crate::display::layout::lemma_plan_valid(a.request);
            let plan = render_plan(a.request);
            if a.next < plan.len() {
                assert(op_valid(a.request.glyphs, plan[a.next]));
            }
        },
        None => {},
    }
}

/// Switching an icon of the table never touches the text area.
pub proof fn lemma_icons_spare_text(v: DisplayView, name: Seq<char>, on: bool)
    ensures
        forall|r: int, c: int|
            in_text_area(r, c) ==> (#[trigger] v.with_icon_named(name, on).pixels[r][c])
                == v.pixels[r][c],
        v.with_icon_named(name, on).queue == v.queue,
        v.with_icon_named(name, on).active == v.active,
        v.with_icon_named(name, on).cancel == v.cancel,
{
    crate::display::icons::lemma_icons_in_status_area(name);
}

} // verus!
