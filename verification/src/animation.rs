//! Scrolling windows over a text for animated display output.
//!
//! A [`ScrollingText`] borrows a text and, on each call of `get_next`,
//! produces the next fixed-width view of it, `NUM_DIGITS` characters wide.
//! Two policies exist: [`Cycle`] treats the text as circular and wraps the
//! window around its end, [`LeftRight`] bounces the window back and forth
//! between the text bounds. Windows are sequences of characters (code
//! points), not raw bytes, so multi-byte text scrolls character by character.

use vstd::prelude::*;

verus! {

use vstd::string::StrSliceExecFns;
use vstd::arithmetic::div_mod::lemma_fundamental_div_mod_converse;
use vstd::arithmetic::div_mod::lemma_small_mod;
use crate::NUM_DIGITS;

/// Marker for a scrolling policy.
pub trait Mode {}

/// Continuous-wrap policy: the window wraps to the start of the text when it
/// reaches the end, as if the text were repeated indefinitely.
pub struct Cycle;

impl Mode for Cycle {}

/// Ping-pong policy: the window moves forward until it reaches the end of the
/// text, then backward until it reaches the start, and so on.
pub struct LeftRight;

impl Mode for LeftRight {}

/// Text that has a window scrolling over it.
///
/// `get_next` returns the current `NUM_DIGITS`-wide window on the text and
/// advances the cursor by one character. Text that fits on the display is
/// returned whole, unscrolled (under [`Cycle`] this can be overridden at
/// construction; [`LeftRight`] never scrolls short text).
pub struct ScrollingText<'a, M> {
    content: &'a str,
    idx: usize,
    reverse: bool,
    always: bool,
    mode: M,
}

impl<'a, M> ScrollingText<'a, M> {
    /// The text the window scrolls over, as a sequence of characters.
    pub closed spec fn text(&self) -> Seq<char> {
        self.content@
    }

    /// The cursor: the character index where the current window starts.
    pub closed spec fn position(&self) -> int {
        self.idx as int
    }

    /// Whether the window is currently moving backward (ping-pong only).
    pub closed spec fn reversed(&self) -> bool {
        self.reverse
    }

    /// Whether text shorter than the display scrolls anyway (wrap only).
    pub closed spec fn scrolls_short_text(&self) -> bool {
        self.always
    }
}

impl<'a, M: Mode> ScrollingText<'a, M> {
    /// Creates a new `ScrollingText` with the given policy.
    ///
    /// `short_text_scrolling` sets whether text shorter than the display
    /// scrolls (honoured by the [`Cycle`] policy only).
    pub fn new(string: &'a str, short_text_scrolling: bool, mode: M) -> (r: ScrollingText<'a, M>)
        ensures
            r.text() == string@,
            r.position() == 0,
            !r.reversed(),
            r.scrolls_short_text() == short_text_scrolling,
    {
        ScrollingText { content: string, idx: 0, reverse: false, always: short_text_scrolling, mode }
    }
}

/// Collects all characters of a text into a vector.
fn collect_chars(s: &str) -> (v: Vec<char>)
    ensures
        v@ == s@,
{
    let len = s.unicode_len();
    let mut v: Vec<char> = Vec::new();
    let mut i: usize = 0;
    while i < len
        invariant
            i <= len,
            len == s@.len(),
            v@ == s@.take(i as int),
        decreases len - i,
    {
        v.push(s.get_char(i));
        i = i + 1;
    }
    assert(v@ == s@);
    v
}

/// The wrapped window of width `NUM_DIGITS` that starts at `start`: the text
/// repeated indefinitely, read from `start` on. Meaningful for non-empty text.
pub open spec fn spec_cycle_window(text: Seq<char>, start: int) -> Seq<char> {
    Seq::new(NUM_DIGITS as nat, |k: int| text[(start + k) % (text.len() as int)])
}

/// Whether the wrap policy holds the text still instead of scrolling it:
/// it does when the text fits on the display (unless overridden) and when
/// there is nothing to wrap over.
pub open spec fn spec_cycle_static(text: Seq<char>, scroll_short: bool) -> bool {
    text.len() == 0 || (text.len() <= NUM_DIGITS && !scroll_short)
}

impl<'a> ScrollingText<'a, Cycle> {
    /// The cursor stays inside the text (or at zero while the text is empty).
    pub open spec fn wf(&self) -> bool {
        self.position() == 0 || self.position() < self.text().len()
    }

    /// Returns the current window and advances the cursor by one character,
    /// wrapping modulo the text length.
    ///
    /// Text that fits on the display is returned whole and the cursor does
    /// not move, unless scrolling of short text was requested at
    /// construction; an empty text is always returned as is.
    pub fn get_next(&mut self) -> (w: Vec<char>)
        requires
            old(self).wf(),
        ensures
            final(self).wf(),
            final(self).text() == old(self).text(),
            final(self).reversed() == old(self).reversed(),
            final(self).scrolls_short_text() == old(self).scrolls_short_text(),
            spec_cycle_static(old(self).text(), old(self).scrolls_short_text()) ==> (
                w@ == old(self).text() && final(self).position() == old(self).position()
            ),
            !spec_cycle_static(old(self).text(), old(self).scrolls_short_text()) ==> (
                w@ == spec_cycle_window(old(self).text(), old(self).position())
                && final(self).position() == (old(self).position() + 1) % (old(self).text().len() as int)
            ),
    {
        let ghost text = self.content@;
        let len = self.content.unicode_len();
        if len == 0 || (len <= NUM_DIGITS && !self.always) {
            return collect_chars(self.content);
        }
        // The cursor is strictly inside the text here.
        assert(self.idx < len);
        let mut w: Vec<char> = Vec::new();
        let mut pos: usize = self.idx;
        let ghost mut wraps: int = 0;
        let mut k: usize = 0;
        while k < NUM_DIGITS
            invariant
                k <= NUM_DIGITS,
                len == text.len(),
                0 < len,
                self.content@ == text,
                self.idx < len,
                pos < len,
                0 <= wraps,
                pos == self.idx + k - wraps * (len as int),
                w@ == spec_cycle_window(text, self.idx as int).take(k as int),
            decreases NUM_DIGITS - k,
        {
            proof {
                lemma_fundamental_div_mod_converse(
                    self.idx + k as int,
                    len as int,
                    wraps,
                    pos as int,
                );
                assert(spec_cycle_window(text, self.idx as int)[k as int] == text[pos as int]);
            }
            w.push(self.content.get_char(pos));
            proof {
                assert(w@ =~= spec_cycle_window(text, self.idx as int).take(k as int + 1));
            }
            if pos + 1 == len {
                pos = 0;
                proof {
                    assert((wraps + 1) * (len as int) == wraps * (len as int) + len) by (nonlinear_arith);
                    wraps = wraps + 1;
                }
            } else {
                pos = pos + 1;
            }
            k = k + 1;
        }
        proof {
            assert(w@ =~= spec_cycle_window(text, self.idx as int));
        }
        let ghost prev: int = self.idx as int;
        self.idx = if self.idx + 1 == len { 0 } else { self.idx + 1 };
        proof {
            if prev + 1 == len {
                lemma_fundamental_div_mod_converse(prev + 1, len as int, 1, 0);
            } else {
                lemma_small_mod((prev + 1) as nat, len as nat);
            }
            assert(self.idx == (prev + 1) % (len as int));
        }
        w
    }
}

/// The direction flag after one ping-pong step from cursor `idx` with
/// direction `rev`: it turns backward when the window has reached the end of
/// the text and forward when the cursor has reached the start.
pub open spec fn spec_bounce_reverse(len: int, idx: int, rev: bool) -> bool {
    let at_end = if idx + NUM_DIGITS >= len { true } else { rev };
    if idx == 0 { false } else { at_end }
}

/// The cursor after one ping-pong step: one character in the (possibly just
/// flipped) direction.
pub open spec fn spec_bounce_position(len: int, idx: int, rev: bool) -> int {
    if spec_bounce_reverse(len, idx, rev) { idx - 1 } else { idx + 1 }
}

impl<'a> ScrollingText<'a, LeftRight> {
    /// A forward window always fits: `position + NUM_DIGITS` stays within the
    /// text. Text that fits on the display keeps the cursor at zero.
    pub open spec fn wf(&self) -> bool {
        if self.text().len() > NUM_DIGITS {
            self.position() + NUM_DIGITS <= self.text().len()
        } else {
            self.position() == 0
        }
    }

    /// Returns the current window, then moves the cursor one character,
    /// changing direction exactly at the text bounds.
    ///
    /// Text that fits on the display is returned whole on every call,
    /// unscrolled; this policy does not scroll short text.
    pub fn get_next(&mut self) -> (w: Vec<char>)
        requires
            old(self).wf(),
        ensures
            final(self).wf(),
            final(self).text() == old(self).text(),
            final(self).scrolls_short_text() == old(self).scrolls_short_text(),
            old(self).text().len() <= NUM_DIGITS ==> (
                w@ == old(self).text() && *final(self) == *old(self)
            ),
            old(self).text().len() > NUM_DIGITS ==> (
                w@ == old(self).text().subrange(
                    old(self).position(),
                    old(self).position() + NUM_DIGITS,
                )
                && final(self).reversed() == spec_bounce_reverse(
                    old(self).text().len() as int,
                    old(self).position(),
                    old(self).reversed(),
                )
                && final(self).position() == spec_bounce_position(
                    old(self).text().len() as int,
                    old(self).position(),
                    old(self).reversed(),
                )
            ),
    {
        let ghost text = self.content@;
        let len = self.content.unicode_len();
        if len <= NUM_DIGITS {
            return collect_chars(self.content);
        }

        let mut w: Vec<char> = Vec::new();
        let mut k: usize = 0;
        while k < NUM_DIGITS
            invariant
                k <= NUM_DIGITS,
                len == text.len(),
                self.content@ == text,
                self.idx + NUM_DIGITS <= len,
                w@ == text.subrange(self.idx as int, self.idx + k),
            decreases NUM_DIGITS - k,
        {
            w.push(self.content.get_char(self.idx + k));
            assert(w@ == text.subrange(self.idx as int, self.idx + k + 1));
            k = k + 1;
        }

        if self.idx + NUM_DIGITS >= len {
            self.reverse = true;
        }
        if self.idx == 0 {
            self.reverse = false;
        }
        if !self.reverse {
            self.idx = self.idx + 1;
        } else {
            self.idx = self.idx - 1;
        }
        w
    }
}

/// Under the ping-pong policy the direction flips exactly at the text bounds:
/// when moving forward it flips if and only if the window has reached the end
/// of the text, and when moving backward if and only if the cursor is at the
/// start — never earlier or later.
pub proof fn lemma_bounce_flips_exactly_at_bounds(len: int, idx: int, rev: bool)
    requires
        len > NUM_DIGITS,
        0 <= idx,
        idx + NUM_DIGITS <= len,
    ensures
        (spec_bounce_reverse(len, idx, rev) != rev) <==> (
            (!rev && idx + NUM_DIGITS == len) || (rev && idx == 0)
        ),
{
}

} // verus!
