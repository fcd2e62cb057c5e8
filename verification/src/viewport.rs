//! The visible part of a chart's time axis, in samples: it scrolls left and
//! right by a number of samples, never far beyond the data.
use vstd::prelude::*;

verus! {

/// `x / 2` rounded toward zero, as integer division in Rust does.
pub open spec fn half(x: int) -> int {
    if x >= 0 {
        x / 2
    } else {
        -((-x) / 2)
    }
}

/// `v + d`, held within the bounds of `i64`.
pub open spec fn saturate_i64(v: int) -> int {
    if v > i64::MAX {
        i64::MAX as int
    } else if v < i64::MIN {
        i64::MIN as int
    } else {
        v
    }
}

/// The visible samples `start..end` of data `max_len` samples long, and
/// whether the shift key, which turns zooming into scrolling, is held.
#[derive(Debug, Clone)]
pub struct InteractiveViewport {
    pub max_len: i64,
    pub start: i64,
    pub end: i64,
    pub shift_key_pressed: bool,
}

/// What the user does to the viewport.
#[derive(Debug, Clone, Copy, PartialEq, Eq, Structural)]
pub enum InteractiveViewportMessage {
    ShiftKeyPressed,
    ShiftKeyReleased,
}

/// Where scrolling right by `offset` samples puts the end of the view.
pub open spec fn right_end(v: InteractiveViewport, offset: i64) -> int {
    let length = v.end - v.start;
    let pushed = saturate_i64(v.end + offset);
    let limit = v.max_len + half(length);
    if pushed > limit {
        limit
    } else {
        pushed
    }
}

/// Where scrolling left by `offset` samples puts the start of the view.
pub open spec fn left_start(v: InteractiveViewport, offset: i64) -> int {
    let length = v.end - v.start;
    let pulled = saturate_i64(v.start - offset);
    let limit = -half(length);
    if pulled < limit {
        limit
    } else {
        pulled
    }
}

/// The arithmetic of scrolling right stays within `i64`.
pub open spec fn scrolls_right(v: InteractiveViewport, offset: i64) -> bool {
    &&& i64::MIN <= v.end - v.start <= i64::MAX
    &&& i64::MIN <= v.max_len + half(v.end - v.start) <= i64::MAX
    &&& i64::MIN <= right_end(v, offset) - (v.end - v.start) <= i64::MAX
}

/// The arithmetic of scrolling left stays within `i64`.
pub open spec fn scrolls_left(v: InteractiveViewport, offset: i64) -> bool {
    &&& i64::MIN <= v.end - v.start <= i64::MAX
    &&& i64::MIN <= -half(v.end - v.start) <= i64::MAX
    &&& i64::MIN <= left_start(v, offset) + (v.end - v.start) <= i64::MAX
}

fn saturating_add(a: i64, b: i64) -> (r: i64)
    ensures
        r == saturate_i64(a + b),
{
    if b > 0 && a > i64::MAX - b {
        i64::MAX
    } else if b < 0 && a < i64::MIN - b {
        i64::MIN
    } else {
        a + b
    }
}

fn saturating_sub(a: i64, b: i64) -> (r: i64)
    ensures
        r == saturate_i64(a - b),
{
    if b < 0 && a > i64::MAX + b {
        i64::MAX
    } else if b > 0 && a < i64::MIN + b {
        i64::MIN
    } else {
        a - b
    }
}

impl InteractiveViewport {
    /// Shows `start..end` of data that ends at `end`.
    pub fn new(start: i64, end: i64) -> (r: Self)
        ensures
            r.max_len == end,
            r.start == start,
            r.end == end,
            !r.shift_key_pressed,
    {
        InteractiveViewport { max_len: end, start, end, shift_key_pressed: false }
    }

    pub fn update(&mut self, message: InteractiveViewportMessage)
        ensures
            final(self).shift_key_pressed == (message == InteractiveViewportMessage::ShiftKeyPressed),
            final(self).start == old(self).start,
            final(self).end == old(self).end,
            final(self).max_len == old(self).max_len,
    {
        match message {
            InteractiveViewportMessage::ShiftKeyPressed => self.shift_key_pressed = true,
            InteractiveViewportMessage::ShiftKeyReleased => self.shift_key_pressed = false,
        }
    }

    /// Scrolls right by `offset` samples, so that the view ends at most half
    /// its width beyond the data; the width stays.
    pub fn scroll_right(&mut self, offset: i64)
        requires
            scrolls_right(*old(self), offset),
        ensures
            final(self).end == right_end(*old(self), offset),
            final(self).end - final(self).start == old(self).end - old(self).start,
            final(self).max_len == old(self).max_len,
            final(self).shift_key_pressed == old(self).shift_key_pressed,
    {
        let length = self.end - self.start;
        let mut new_end = saturating_add(self.end, offset);
        let viewport_max = self.max_len + length / 2;
        if new_end > viewport_max {
            new_end = viewport_max;
        }
        let new_start = new_end - length;
        self.start = new_start;
        self.end = new_end;
    }

    /// Scrolls left by `offset` samples, so that the view starts at most half
    /// its width before the data; the width stays.
    pub fn scroll_left(&mut self, offset: i64)
        requires
            scrolls_left(*old(self), offset),
        ensures
            final(self).start == left_start(*old(self), offset),
            final(self).end - final(self).start == old(self).end - old(self).start,
            final(self).max_len == old(self).max_len,
            final(self).shift_key_pressed == old(self).shift_key_pressed,
    {
        let length = self.end - self.start;
        let mut new_start = saturating_sub(self.start, offset);
        let viewport_min = -(length / 2);
        if new_start < viewport_min {
            new_start = viewport_min;
        }
        let new_end = new_start + length;
        self.start = new_start;
        self.end = new_end;
    }
}

} // verus!
