//! Render requests: the glyphs of one text, and how to show them.

use vstd::prelude::*;
use crate::display::text::Character;
use crate::display::text::glyph_of;
use crate::display::text::get_character_struct;

verus! {

/// The request that a text gives: the glyphs of its first 32 characters,
/// those without a glyph left out.
pub open spec fn text_request(
    text: Seq<char>,
    hold_end_ms: u64,
    start_position: int,
    end_position: int,
    scroll_off_display: bool,
) -> RequestView {
    RequestView {
        glyphs: resolved(first_chars(text, MAX_GLYPHS as int)),
        hold_end_ms,
        start_position,
        end_position,
        scroll_off_display,
    }
}

/// The most glyphs one request can hold.
pub const MAX_GLYPHS: usize = 32;

#[verifier::external_type_specification]
#[verifier::external_body]
#[verifier::reject_recursive_types(T)]
pub struct ExFixedVec<T, const N: usize>(heapless::Vec<T, N>);

/// The glyphs that a fixed-capacity buffer holds, first to last.
pub uninterp spec fn buffer_glyphs(buffer: heapless::Vec<Character, 32>) -> Seq<Character>;

/// `heapless::Vec::new`: a buffer that holds nothing.
#[verifier::external_body]
fn buffer_new() -> (buffer: heapless::Vec<Character, 32>)
    ensures
        buffer_glyphs(buffer) == Seq::<Character>::empty(),
{
    heapless::Vec::new()
}

/// `heapless::Vec::extend` with one item: the item is appended behind the
/// others. The outside function panics on a full buffer, so a caller has to
/// show that fewer than 32 glyphs are held.
#[verifier::external_body]
fn buffer_extend_one(buffer: &mut heapless::Vec<Character, 32>, glyph: Character)
    requires
        buffer_glyphs(*old(buffer)).len() < MAX_GLYPHS,
    ensures
        buffer_glyphs(*final(buffer)) == buffer_glyphs(*old(buffer)).push(glyph),
{
    buffer.extend([glyph]);
}

/// `heapless::Vec::as_slice`: the held glyphs as a slice, in order.
#[verifier::external_body]
fn buffer_as_slice(buffer: &heapless::Vec<Character, 32>) -> (glyphs: &[Character])
    ensures
        glyphs@ == buffer_glyphs(*buffer),
{
    buffer.as_slice()
}

/// The glyphs of a run of characters, in order; a character without a glyph
/// is skipped.
pub open spec fn resolved(chars: Seq<char>) -> Seq<Character>
    decreases chars.len(),
{
    if chars.len() == 0 {
        Seq::empty()
    } else {
        let before = resolved(chars.drop_last());
        match glyph_of(chars.last()) {
            Some(g) => before.push(g),
            None => before,
        }
    }
}

/// The characters of a run that have no glyph, in order.
pub open spec fn unresolved(chars: Seq<char>) -> Seq<char>
    decreases chars.len(),
{
    if chars.len() == 0 {
        Seq::empty()
    } else {
        let before = unresolved(chars.drop_last());
        if glyph_of(chars.last()) is None {
            before.push(chars.last())
        } else {
            before
        }
    }
}

/// The first `n` characters of a text, or all of it if it is shorter.
pub open spec fn first_chars(chars: Seq<char>, n: int) -> Seq<char> {
    if chars.len() <= n {
        chars
    } else {
        chars.take(n)
    }
}

/// The advance of a run of glyphs: how many columns behind the first glyph's
/// start a glyph that follows the run starts. It counts each glyph's columns
/// and one blank column behind each glyph, the last one too.
pub open spec fn advance_of(glyphs: Seq<Character>) -> int
    decreases glyphs.len(),
{
    if glyphs.len() == 0 {
        0
    } else {
        advance_of(glyphs.drop_last()) + glyphs.last().width + 1
    }
}

/// The occupied width of a run of glyphs: from the first column of the first
/// glyph to the last column of the last one, with one blank column between
/// two glyphs and none behind the last.
pub open spec fn occupied_width(glyphs: Seq<Character>) -> int {
    if glyphs.len() == 0 {
        0
    } else {
        advance_of(glyphs) - 1
    }
}

/// The first column after the icons: where text starts by default.
pub const DISPLAY_OFFSET: usize = 2;

/// The column behind the viewport: where the window of a text ends by
/// default. The viewport is columns 2 to 23.
pub const LAST_INDEX: usize = 24;

/// What a render request says, as plain values.
pub struct RequestView {
    /// The glyphs, left to right.
    pub glyphs: Seq<Character>,
    /// The hold after painting, in milliseconds.
    pub hold_end_ms: u64,
    /// The column where the first glyph starts.
    pub start_position: int,
    /// The column where the text's window ends.
    pub end_position: int,
    /// Whether the text scrolls off after the hold.
    pub scroll_off_display: bool,
}

impl RequestView {
    /// At most 32 well-formed glyphs, in a window that starts and ends
    /// between column 2 and column 24.
    pub open spec fn wf(self) -> bool {
        &&& self.glyphs.len() <= MAX_GLYPHS
        &&& forall|i: int| 0 <= i < self.glyphs.len() ==> (#[trigger] self.glyphs[i]).wf()
        &&& DISPLAY_OFFSET <= self.start_position <= LAST_INDEX
        &&& DISPLAY_OFFSET <= self.end_position <= LAST_INDEX
    }

    /// The occupied width of the whole text.
    pub open spec fn width(self) -> int {
        occupied_width(self.glyphs)
    }

    /// The column where glyph `i` starts when nothing has moved; for `i` the
    /// number of glyphs, the column where a further glyph would start.
    pub open spec fn glyph_start(self, i: int) -> int {
        self.start_position + advance_of(self.glyphs.take(i))
    }
}

/// One entry of the render queue.
pub struct RenderRequest {
    /// Up to 32 glyphs, left to right.
    pub text: heapless::Vec<Character, 32>,
    /// How long to hold the text once it is all shown, in milliseconds.
    pub hold_end_ms: u64,
    /// The column where the first glyph starts.
    pub start_position: usize,
    /// The column where the text's window ends.
    pub end_position: usize,
    /// Whether the text scrolls off the display after the hold.
    pub scroll_off_display: bool,
}

impl View for RenderRequest {
    type V = RequestView;

    open spec fn view(&self) -> RequestView {
        RequestView {
            glyphs: buffer_glyphs(self.text),
            hold_end_ms: self.hold_end_ms,
            start_position: self.start_position as int,
            end_position: self.end_position as int,
            scroll_off_display: self.scroll_off_display,
        }
    }
}

impl RenderRequest {

    /// Build the request for `text`: the glyphs of its first 32 characters,
    /// those without a glyph left out.
    pub fn from_text(
        text: &str,
        hold_end_ms: u64,
        start_position: usize,
        end_position: usize,
        scroll_off_display: bool,
    ) -> (request: RenderRequest)
        ensures
            request@ == text_request(
                text@,
                hold_end_ms,
                start_position as int,
                end_position as int,
                scroll_off_display,
            ),
            request@.glyphs.len() <= MAX_GLYPHS,
            forall|i: int|
                0 <= i < request@.glyphs.len() ==> (#[trigger] request@.glyphs[i]).wf(),
    {
        let len = text.unicode_len();
        let n = if len > MAX_GLYPHS {
            MAX_GLYPHS
        } else {
            len
        };
        let mut buffer = buffer_new();
        let mut i: usize = 0;
        while i < n
            invariant
                i <= n <= MAX_GLYPHS,
                n <= text@.len(),
                buffer_glyphs(buffer) == resolved(text@.take(i as int)),
                buffer_glyphs(buffer).len() <= i,
                forall|k: int|
                    0 <= k < buffer_glyphs(buffer).len() ==> (#[trigger] buffer_glyphs(
                        buffer,
                    )[k]).wf(),
            decreases n - i,
        {
            let c = text.get_char(i);
            proof {
                let upto = text@.take(i as int + 1);
                assert(upto.drop_last() =~= text@.take(i as int));
                assert(upto.last() == c);
            }
            match get_character_struct(c) {
                Some(glyph) => {
                    buffer_extend_one(&mut buffer, glyph);
                },
                None => {},
            }
            i += 1;
        }
        proof {
            if text@.len() <= MAX_GLYPHS {
                assert(text@.take(n as int) =~= text@);
            }
        }
        RenderRequest {
            text: buffer,
            hold_end_ms,
            start_position,
            end_position,
            scroll_off_display,
        }
    }

    /// How many glyphs the request holds.
    pub fn glyph_count(&self) -> (n: usize)
        ensures
            n == self@.glyphs.len(),
    {
        buffer_as_slice(&self.text).len()
    }

    /// The glyph at place `i`, counted from the left.
    pub fn glyph(&self, i: usize) -> (g: Character)
        requires
            i < self@.glyphs.len(),
        ensures
            g == self@.glyphs[i as int],
    {
        buffer_as_slice(&self.text)[i]
    }
}

/// The characters among the first 32 of `text` that have no glyph, in order:
/// those that a request for the text leaves out.
pub fn missing_glyphs(text: &str) -> (missing: Vec<char>)
    ensures
        missing@ == unresolved(first_chars(text@, MAX_GLYPHS as int)),
{
    let len = text.unicode_len();
    let n = if len > MAX_GLYPHS {
        MAX_GLYPHS
    } else {
        len
    };
    let mut missing: Vec<char> = Vec::new();
    let mut i: usize = 0;
    while i < n
        invariant
            i <= n <= MAX_GLYPHS,
            n <= text@.len(),
            missing@ == unresolved(text@.take(i as int)),
        decreases n - i,
    {
        let c = text.get_char(i);
        proof {
            let upto = text@.take(i as int + 1);
            assert(upto.drop_last() =~= text@.take(i as int));
            assert(upto.last() == c);
        }
        match get_character_struct(c) {
            Some(_) => {},
            None => {
                missing.push(c);
            },
        }
        i += 1;
    }
    proof {
        if text@.len() <= MAX_GLYPHS {
            assert(text@.take(n as int) =~= text@);
        }
    }
    missing
}

/// Every character of a run is shown or missing: the glyphs and the
/// characters without a glyph are as many as the characters.
pub proof fn lemma_shown_or_missing(chars: Seq<char>)
    ensures
        resolved(chars).len() + unresolved(chars).len() == chars.len(),
        unresolved(chars).len() == 0 <==> forall|i: int|
            0 <= i < chars.len() ==> glyph_of(#[trigger] chars[i]) is Some,
    decreases chars.len(),
{
    if chars.len() > 0 {
        let before = chars.drop_last();
        lemma_shown_or_missing(before);
        if unresolved(chars).len() == 0 {
            assert forall|i: int| 0 <= i < chars.len() implies glyph_of(
                #[trigger] chars[i],
            ) is Some by {
                if i < before.len() {
                    assert(before[i] == chars[i]);
                }
            }
        } else {
            if forall|i: int| 0 <= i < chars.len() ==> glyph_of(#[trigger] chars[i]) is Some {
                assert forall|i: int| 0 <= i < before.len() implies glyph_of(
                    #[trigger] before[i],
                ) is Some by {
                    assert(before[i] == chars[i]);
                }
                assert(glyph_of(chars[chars.len() - 1]) is Some);
                assert(false);
            }
        }
    }
}

} // verus!
