//! The progressive scan scheduler.
//!
//! Rendering is resumable: a linear pixel cursor persists between calls, and
//! each call advances it only as far as its wall-clock budget allows.  The
//! caller owns the clock and the surface; this module owns the decisions.
//! A frame begins in one of three ways: an invalidation repaints the static
//! chrome and resets the cursor without tracing any pixel; a finished frame
//! is left alone; otherwise the scan resumes where it stopped.  Restarting
//! discards partial progress, so stale pixels from before an edit are never
//! mixed with later geometry.

use vstd::prelude::*;

verus! {

use vstd::arithmetic::div_mod::{
    lemma_add_mod_noop_right,
    lemma_mod_self_0,
    lemma_small_mod,
};

/// What one scheduler call is to do before any pixel work.
#[derive(Clone, Copy, Debug, PartialEq, Eq, Structural)]
pub enum FrameOp {
    /// Repaint the static chrome (background, handles, guide lines) and
    /// trace nothing: the scene was invalidated.
    Chrome,
    /// Do nothing: the last pass finished and nothing was invalidated.
    Idle,
    /// Resume tracing pixels at the cursor.
    Scan,
}

/// Cursor position after one step of the scan: the next linear pixel index,
/// wrapping to 0 after the last pixel.
pub open spec fn advance(cursor: int, len: int) -> int {
    (cursor + 1) % len
}

/// Cursor position after `n` steps of the scan.
pub open spec fn advance_n(cursor: int, len: int, n: nat) -> int
    decreases n,
{
    if n == 0 {
        cursor
    } else {
        advance(advance_n(cursor, len, (n - 1) as nat), len)
    }
}

/// Stepping the cursor `n` times adds `n`, modulo the pixel count.
pub proof fn lemma_advance_n_is_mod(cursor: int, len: int, n: nat)
    requires
        0 < len,
        0 <= cursor < len,
    ensures
        advance_n(cursor, len, n) == (cursor + n) % len,
    decreases n,
{
    if n == 0 {
        lemma_small_mod(cursor as nat, len as nat);
    } else {
        lemma_advance_n_is_mod(cursor, len, (n - 1) as nat);
        lemma_add_mod_noop_right(1, cursor + (n - 1), len);
        assert(1 + (cursor + (n - 1)) == cursor + n);
    }
}

/// One full pass visits every pixel exactly once: within `len` consecutive
/// steps no position repeats, and after exactly `len` steps the cursor is
/// back where it started.
pub proof fn lemma_pass_visits_no_pixel_twice(cursor: int, len: int, i: nat, j: nat)
    requires
        0 < len,
        0 <= cursor < len,
        i < j < len,
    ensures
        advance_n(cursor, len, i) != advance_n(cursor, len, j),
        advance_n(cursor, len, len as nat) == cursor,
{
    lemma_advance_n_is_mod(cursor, len, i);
    lemma_advance_n_is_mod(cursor, len, j);
    lemma_advance_n_is_mod(cursor, len, len as nat);
    lemma_mod_cases(cursor + i, len);
    lemma_mod_cases(cursor + j, len);
    lemma_mod_cases(cursor + len, len);
    assert((cursor + len) % len == cursor) by {
        lemma_add_mod_noop_right(cursor, len, len);
        lemma_mod_self_0(len);
        lemma_small_mod(cursor as nat, len as nat);
    }
}

/// A pass that begins at pixel 0, as every pass after a restart does,
/// hands the pixels out in index order: the `k`-th step lands on pixel `k`.
pub proof fn lemma_fresh_pass_runs_in_index_order(len: int, k: nat)
    requires
        0 < len,
        k < len,
    ensures
        advance_n(0, len, k) == k,
{
    lemma_advance_n_is_mod(0, len, k);
    lemma_small_mod(k, len as nat);
}

/// Every pixel of the frame is reached within one full pass: for each index
/// there is exactly one step count below `len` that lands on it.
pub proof fn lemma_pass_covers_every_pixel(cursor: int, len: int, pixel: int)
    requires
        0 < len,
        0 <= cursor < len,
        0 <= pixel < len,
    ensures
        exists|k: nat| k < len && advance_n(cursor, len, k) == pixel,
{
    let k = ((pixel - cursor) % len) as nat;
    lemma_advance_n_is_mod(cursor, len, k);
    assert((cursor + (pixel - cursor) % len) % len == pixel) by {
        lemma_add_mod_noop_right(cursor, pixel - cursor, len);
        lemma_small_mod(pixel as nat, len as nat);
    }
    assert(k < len && advance_n(cursor, len, k) == pixel);
}

/// For a value within the first two periods, the remainder is the value
/// itself or the value less one period.
proof fn lemma_mod_cases(x: int, m: int)
    requires
        0 < m,
        0 <= x < 2 * m,
    ensures
        x < m ==> x % m == x,
        m <= x ==> x % m == x - m,
{
    if x < m {
        lemma_small_mod(x as nat, m as nat);
    } else {
        vstd::arithmetic::div_mod::lemma_mod_sub_multiples_vanish(x, m);
        lemma_small_mod((x - m) as nat, m as nat);
    }
}

/// The scheduler's persistent state: the raster size, the pixel cursor, and
/// the two flags that drive the frame state machine.
pub struct Scheduler {
    pub width: usize,
    pub height: usize,
    /// Linear index of the next pixel to trace.
    pub cursor: usize,
    /// A pass is underway: the cursor points into an unfinished frame.
    pub pending: bool,
    /// The scene or view changed; the next call must restart the frame.
    pub needs_restart: bool,
}

impl Scheduler {
    /// Pixel count of the frame.
    pub open spec fn frame_len(self) -> int {
        self.width * self.height
    }

    /// The cursor stays inside the frame and a pass is only ever pending on
    /// a non-empty frame.
    pub open spec fn wf(self) -> bool {
        &&& self.width * self.height <= usize::MAX
        &&& self.cursor < self.width * self.height || self.cursor == 0
        &&& self.pending ==> self.cursor < self.width * self.height
    }

    /// A fresh scheduler: nothing drawn yet, so the first call restarts.
    pub fn new(width: usize, height: usize) -> (s: Self)
        requires
            width * height <= usize::MAX,
        ensures
            s.wf(),
            s.width == width,
            s.height == height,
            s.cursor == 0,
            !s.pending,
            s.needs_restart,
    {
        Scheduler { width, height, cursor: 0, pending: false, needs_restart: true }
    }

    /// Note an invalidation: the model or the view changed, so whatever the
    /// scan has done so far is stale.  Consumed by the next `begin_frame`.
    pub fn invalidate(&mut self)
        requires
            old(self).wf(),
        ensures
            final(self).wf(),
            final(self).needs_restart,
            final(self).cursor == old(self).cursor,
            final(self).pending == old(self).pending,
            final(self).width == old(self).width,
            final(self).height == old(self).height,
    {
        self.needs_restart = true;
    }

    /// Decide what this call does.  An invalidation always wins: it resets
    /// the cursor to 0 regardless of prior progress and asks for the chrome
    /// to be repainted, with no tracing this call.  Otherwise a frame with
    /// no pass underway is complete and the call is a no-op; else the scan
    /// resumes at the cursor.
    pub fn begin_frame(&mut self) -> (op: FrameOp)
        requires
            old(self).wf(),
        ensures
            final(self).wf(),
            final(self).width == old(self).width,
            final(self).height == old(self).height,
            !final(self).needs_restart,
            old(self).needs_restart ==> {
                &&& op is Chrome
                &&& final(self).cursor == 0
                &&& final(self).pending == (old(self).frame_len() > 0)
            },
            !old(self).needs_restart ==> {
                &&& final(self).cursor == old(self).cursor
                &&& final(self).pending == old(self).pending
                &&& (op is Idle <==> !old(self).pending)
                &&& (op is Scan <==> old(self).pending)
            },
    {
        if self.needs_restart {
            self.needs_restart = false;
            self.cursor = 0;
            self.pending = self.width > 0 && self.height > 0;
            proof {
                assert((self.width * self.height > 0) == (self.width > 0 && self.height > 0))
                    by (nonlinear_arith);
            }
            FrameOp::Chrome
        } else if !self.pending {
            FrameOp::Idle
        } else {
            FrameOp::Scan
        }
    }

    /// Hand out the pixel at the cursor and step the cursor, wrapping to 0
    /// past the last pixel; a wrap ends the pass.  Returns the pixel's
    /// linear index and its raster coordinates (row 0 at the bottom).
    pub fn next_pixel(&mut self) -> (r: (usize, usize, usize))
        requires
            old(self).wf(),
            old(self).pending,
        ensures
            final(self).wf(),
            final(self).width == old(self).width,
            final(self).height == old(self).height,
            final(self).needs_restart == old(self).needs_restart,
            r.0 == old(self).cursor,
            r.1 == old(self).cursor % old(self).width,
            r.2 == old(self).height - 1 - old(self).cursor / old(self).width,
            final(self).cursor == advance(old(self).cursor as int, old(self).frame_len()),
            final(self).pending == (final(self).cursor != 0),
    {
        proof {
            assert(self.width > 0 && self.height > 0) by (nonlinear_arith)
                requires
                    self.cursor < self.width * self.height;
        }
        let index: usize = self.cursor;
        let x: usize = crate::raster::pixel_x(index, self.width);
        let y: usize = crate::raster::pixel_y(index, self.width, self.height);
        let len: usize = self.width * self.height;
        let next: usize = index + 1;
        if next >= len {
            self.cursor = 0;
            self.pending = false;
            proof {
                lemma_mod_self_0(len as int);
            }
        } else {
            self.cursor = next;
            proof {
                lemma_small_mod(next as nat, len as nat);
            }
        }
        (index, x, y)
    }

}

} // verus!
