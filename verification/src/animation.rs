//! What the animator draws on each tick, how long it waits between ticks,
//! and how wide it takes the terminal to be.

use vstd::prelude::*;
use vstd::string::*;

use crate::styles::{spec_style, style_at, STYLE_COUNT};
use crate::text::{blank, spaces, words};

verus! {

/// The frame delay used when a style's interval is not positive.
pub const FALLBACK_DELAY_MS: u64 = 100;

/// How long a frame stays on screen.
pub open spec fn frame_delay(interval_ms: nat) -> nat {
    if interval_ms > 0 {
        interval_ms
    } else {
        FALLBACK_DELAY_MS as nat
    }
}

/// How many characters of the message fit on a terminal `cols` wide: four
/// columns are kept for the frame and the space around it.
pub open spec fn message_budget(cols: nat) -> nat {
    if cols >= 4 {
        (cols - 4) as nat
    } else {
        0
    }
}

/// The message as drawn: cut to the budget of the terminal's width.
pub open spec fn fitted(msg: Seq<char>, cols: nat) -> Seq<char> {
    if msg.len() > message_budget(cols) {
        msg.take(message_budget(cols) as int)
    } else {
        msg
    }
}

/// One drawn line: clear the line, draw the frame and the message in dim
/// grey, and return to the first column.
pub open spec fn frame_line(frame: Seq<char>, msg: Seq<char>, cols: nat) -> Seq<char> {
    "\r"@ + blank(cols) + "\r"@ + frame + " \x1b[0;38;5;242m"@ + fitted(msg, cols)
        + "\x1b[0;m\r"@
}

/// What is written when the animation ends: a blank line, with the cursor
/// in the first column.
pub open spec fn cleared_line(cols: nat) -> Seq<char> {
    "\r"@ + blank(cols) + "\r"@
}

/// A message of at most `cols - 4` characters is drawn whole; a longer one
/// is cut to exactly its first `cols - 4` characters; on a terminal narrower
/// than four columns nothing of it is drawn.
pub proof fn lemma_message_fits(msg: Seq<char>, cols: nat)
    ensures
        cols >= 4 && msg.len() <= cols - 4 ==> fitted(msg, cols) == msg,
        cols >= 4 && msg.len() > cols - 4 ==> fitted(msg, cols) == msg.take(cols - 4)
            && fitted(msg, cols).len() == cols - 4,
        cols < 4 ==> fitted(msg, cols).len() == 0,
{
}

/// A frame stays on screen for the interval it is given, when that is
/// positive; only an interval of zero falls back to 100 milliseconds.
pub proof fn lemma_frame_delay(interval_ms: nat)
    ensures
        interval_ms > 0 ==> frame_delay(interval_ms) == interval_ms,
        interval_ms == 0 ==> frame_delay(interval_ms) == 100,
{
}

/// The message cut to the budget of a terminal `cols` wide.
pub fn fit_message(msg: &str, cols: usize) -> (r: String)
    ensures
        r@ == fitted(msg@, cols as nat),
        r@.len() <= message_budget(cols as nat),
        r@.is_prefix_of(msg@),
        cols >= 4 && msg@.len() <= cols - 4 ==> r@ == msg@,
        cols >= 4 && msg@.len() > cols - 4 ==> r@ == msg@.take(cols - 4) && r@.len() == cols - 4,
        cols < 4 ==> r@.len() == 0,
{
    let budget: usize = if cols >= 4 { cols - 4 } else { 0 };
    let len = msg.unicode_len();
    if len > budget {
        let r = String::from_str(msg.substring_char(0, budget));
        assert(r@ =~= msg@.take(budget as int));
        r
    } else {
        String::from_str(msg)
    }
}

/// The line written when the animation ends.
pub fn clear_line(cols: usize) -> (r: String)
    ensures
        r@ == cleared_line(cols as nat),
{
    let mut r = String::from_str("\r");
    r.append(spaces(cols).as_str());
    r.append("\r");
    r
}

/// A running animation: the frames of a style, the one drawn next and the
/// delay between two frames.
pub struct Animation {
    frames: Vec<String>,
    index: usize,
    delay_ms: u64,
}

/// An animation as plain values.
pub ghost struct AnimationView {
    pub frames: Seq<Seq<char>>,
    pub index: nat,
    pub delay_ms: nat,
}

impl View for Animation {
    type V = AnimationView;

    closed spec fn view(&self) -> AnimationView {
        AnimationView {
            frames: words(self.frames@),
            index: self.index as nat,
            delay_ms: self.delay_ms as nat,
        }
    }
}

impl Animation {
    #[verifier::type_invariant]
    spec fn inv(self) -> bool {
        &&& self.frames.len() > 0
        &&& self.index < self.frames.len()
    }

    /// Starts an animation of `frames` at its first frame; a frame stays on
    /// screen `interval_ms`, or the fallback delay if that is not positive.
    pub fn new(interval_ms: u64, frames: Vec<String>) -> (a: Animation)
        requires
            frames.len() > 0,
        ensures
            a@ == (AnimationView {
                frames: words(frames@),
                index: 0,
                delay_ms: frame_delay(interval_ms as nat),
            }),
            interval_ms > 0 ==> a@.delay_ms == interval_ms,
            interval_ms == 0 ==> a@.delay_ms == 100,
    {
        let delay_ms = if interval_ms > 0 { interval_ms } else { FALLBACK_DELAY_MS };
        Animation { frames, index: 0, delay_ms }
    }

    /// Starts an animation of the style at `style` in the table.
    pub fn for_style(style: usize) -> (a: Animation)
        requires
            style < STYLE_COUNT,
        ensures
            a@ == (AnimationView {
                frames: spec_style(style as int).frames,
                index: 0,
                delay_ms: frame_delay(spec_style(style as int).interval_ms),
            }),
            a@.delay_ms == spec_style(style as int).interval_ms,
    {
        let s = style_at(style);
        proof {
            crate::styles::lemma_every_style_animatable(style as int);
        }
        let mut frames: Vec<String> = Vec::new();
        let mut i: usize = 0;
        while i < s.frames.len()
            invariant
                i <= s.frames@.len(),
                words(frames@) == s@.frames.take(i as int),
            decreases s.frames@.len() - i,
        {
            let f = String::from_str(s.frames[i]);
            assert(f@ == s@.frames[i as int]);
            let ghost before = frames@;
            frames.push(f);
            assert(words(frames@) =~= words(before).push(f@));
            assert(s@.frames.take(i + 1) =~= s@.frames.take(i as int).push(s@.frames[i as int]));
            i = i + 1;
            assert(words(frames@) =~= s@.frames.take(i as int));
        }
        assert(s@.frames.take(i as int) =~= s@.frames);
        Animation::new(s.interval_ms, frames)
    }

    /// How long to wait between two frames.
    pub fn delay_ms(&self) -> (d: u64)
        ensures
            d == self@.delay_ms,
    {
        self.delay_ms
    }

    /// Draws the current frame with `msg` on a terminal `cols` wide, and moves
    /// on to the next frame, after the last back to the first.
    pub fn tick(&mut self, msg: &str, cols: usize) -> (line: String)
        ensures
            old(self)@.index < old(self)@.frames.len(),
            line@ == frame_line(old(self)@.frames[old(self)@.index as int], msg@, cols as nat),
            final(self)@.index < final(self)@.frames.len(),
            final(self)@ == (AnimationView {
                index: ((old(self)@.index + 1) % old(self)@.frames.len()) as nat,
                ..old(self)@
            }),
    {
        proof {
            use_type_invariant(&*self);
        }
        let n = self.frames.len();
        let mut line = String::from_str("\r");
        line.append(spaces(cols).as_str());
        line.append("\r");
        line.append(self.frames[self.index].as_str());
        line.append(" \x1b[0;38;5;242m");
        line.append(fit_message(msg, cols).as_str());
        line.append("\x1b[0;m\r");
        let next = if self.index + 1 < n { self.index + 1 } else { 0 };
        proof {
            let i = self.index as int;
            let m = n as int;
            assert(next == (i + 1) % m) by (nonlinear_arith)
                requires
                    0 <= i < m,
                    next == (if i + 1 < m { i + 1 } else { 0 }),
            ;
        }
        self.index = next;
        line
    }
}

/// Where the animation stands after `k` ticks from frame `index` of `n`.
pub open spec fn after_ticks(index: nat, n: nat, k: nat) -> nat
    decreases k,
{
    if k == 0 {
        index
    } else {
        ((after_ticks(index, n, (k - 1) as nat) + 1) as int % (n as int)) as nat
    }
}

/// The frames are drawn in turn: `k` ticks from frame `index` lead to frame
/// `(index + k) % n`, so after as many ticks as there are frames the
/// animation is back at the frame it started from.
pub proof fn lemma_frames_cycle(index: nat, n: nat, k: nat)
    requires
        index < n,
    ensures
        after_ticks(index, n, k) == ((index + k) as int) % (n as int),
        after_ticks(index, n, n) == index,
{
    lemma_after_ticks_mod(index, n, k);
    lemma_frames_cycle_whole(index, n);
}

proof fn lemma_frames_cycle_whole(index: nat, n: nat)
    requires
        index < n,
    ensures
        after_ticks(index, n, n) == index,
    decreases n,
{
    lemma_after_ticks_mod(index, n, n);
    vstd::arithmetic::div_mod::lemma_mod_add_multiples_vanish(index as int, n as int);
    vstd::arithmetic::div_mod::lemma_small_mod(index, n);
}

proof fn lemma_after_ticks_mod(index: nat, n: nat, k: nat)
    requires
        index < n,
    ensures
        after_ticks(index, n, k) == ((index + k) as int) % (n as int),
    decreases k,
{
    if k > 0 {
        lemma_after_ticks_mod(index, n, (k - 1) as nat);
        vstd::arithmetic::div_mod::lemma_add_mod_noop_right(1, index + k - 1, n as int);
    } else {
        vstd::arithmetic::div_mod::lemma_small_mod(index, n);
    }
}

/// The longest single sleep, so that a stop request is seen within it.
pub const SLEEP_STEP_MS: u64 = 20;

/// The next stretch of a sleep of `total` of which `slept` has passed: at
/// most one step, and nothing once the whole sleep has passed.
pub open spec fn sleep_chunk(total: nat, slept: nat) -> Option<nat> {
    if slept < total {
        Some(vstd::math::min(SLEEP_STEP_MS as int, total - slept) as nat)
    } else {
        None
    }
}

/// How long a sleep of `total` lasts from `slept` on when nothing stops it.
pub open spec fn sleep_length(total: nat, slept: nat) -> nat
    decreases total - slept,
{
    if slept < total {
        let c = vstd::math::min(SLEEP_STEP_MS as int, total - slept) as nat;
        (c + sleep_length(total, slept + c)) as nat
    } else {
        0
    }
}

/// The next stretch to sleep: `None` once `slept_ms` reaches `total_ms`.
pub fn next_sleep_chunk(total_ms: u64, slept_ms: u64) -> (r: Option<u64>)
    ensures
        r matches Some(c) ==> sleep_chunk(total_ms as nat, slept_ms as nat) == Some(c as nat),
        r is None ==> sleep_chunk(total_ms as nat, slept_ms as nat) is None,
{
    if slept_ms < total_ms {
        let left = total_ms - slept_ms;
        Some(if left < SLEEP_STEP_MS { left } else { SLEEP_STEP_MS })
    } else {
        None
    }
}

/// A sleep that nothing stops lasts exactly as long as asked, in stretches
/// of at most one step, each of which moves it forward.
pub proof fn lemma_sleep_adds_up(total: nat, slept: nat)
    requires
        slept <= total,
    ensures
        slept + sleep_length(total, slept) == total,
        sleep_chunk(total, slept) matches Some(c) ==> 0 < c <= SLEEP_STEP_MS && slept + c <= total,
    decreases total - slept,
{
    if slept < total {
        let c = vstd::math::min(SLEEP_STEP_MS as int, total - slept) as nat;
        lemma_sleep_adds_up(total, slept + c);
    }
}

/// The terminal width used when no terminal reports one.
pub const FALLBACK_COLS: usize = 80;

/// The width of the terminal: the first reading that is present and
/// positive, or the fallback width.
pub open spec fn chosen_cols(readings: Seq<Option<u16>>) -> nat
    decreases readings.len(),
{
    if readings.len() == 0 {
        FALLBACK_COLS as nat
    } else if readings[0] matches Some(c) && c > 0 {
        readings[0]->0 as nat
    } else {
        chosen_cols(readings.drop_first())
    }
}

/// Picks the terminal width from the readings of the terminal's streams,
/// in the order they were asked (`None` where asking failed).
pub fn choose_cols(readings: &Vec<Option<u16>>) -> (c: usize)
    ensures
        c == chosen_cols(readings@),
{
    let mut i: usize = 0;
    assert(readings@.skip(0) =~= readings@);
    while i < readings.len()
        invariant
            i <= readings@.len(),
            chosen_cols(readings@) == chosen_cols(readings@.skip(i as int)),
        decreases readings@.len() - i,
    {
        assert(readings@.skip(i as int).drop_first() =~= readings@.skip(i + 1));
        if let Some(c) = readings[i] {
            if c > 0 {
                return c as usize;
            }
        }
        i = i + 1;
    }
    assert(readings@.skip(i as int) =~= Seq::<Option<u16>>::empty());
    FALLBACK_COLS
}

} // verus!
