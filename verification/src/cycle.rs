//! Cycle timing: the frame counter, its progress ratios and the easing
//! curve.
//!
//! A cycle is `FULL_CYCLE` frames long; the counter runs `0..=FULL_CYCLE`
//! and wraps back to 0, which is the host's cue to regenerate the point
//! set.  `relative_pos_full` turns the counter into a 0..=1 progress
//! ratio, `relative_pos_half` into a triangular 0..1..0 ratio, and
//! `ease_in_out_quad` smooths the latter for the waveform render path.

use vstd::arithmetic::div_mod::lemma_div_multiples_vanish;
use vstd::prelude::*;

use crate::constants::{FULL_CYCLE, SCALE, SCALE2};

verus! {

/// Progress through the whole cycle as a fixed-point ratio:
/// 0 at cycle start, `SCALE` (1.0) at cycle end.
pub open spec fn sp_rel_full(c: int) -> int {
    c * SCALE / (FULL_CYCLE as int)
}

/// Triangular progress: rises 0..1 over the first half of the cycle,
/// falls 1..0 over the second half.
pub open spec fn sp_rel_half(c: int) -> int {
    let half = FULL_CYCLE as int / 2;
    if sp_rel_full(c) > SCALE / 2 {
        SCALE - (c - half) * SCALE / half
    } else {
        c * SCALE / half
    }
}

/// The quadratic in-out easing curve at squared scale: for `v < 0.5`
/// the value `2 v^2`, above it `v (4 - 2 v) - 1`, both times `SCALE2`.
pub open spec fn sp_ease_in_out_quad(v: int) -> int {
    if v < SCALE / 2 {
        2 * v * v
    } else {
        v * (4 * SCALE - 2 * v) - SCALE2
    }
}

/// One step of the frame counter: up by one, wrapping to 0 once the
/// cycle length is exceeded.
pub open spec fn sp_advance(c: int) -> int {
    if c >= FULL_CYCLE as int {
        0
    } else {
        c + 1
    }
}

/// The counter after `n` steps from `c`.
pub open spec fn sp_counter_after(c: int, n: nat) -> int
    decreases n,
{
    if n == 0 {
        c
    } else {
        sp_advance(sp_counter_after(c, (n - 1) as nat))
    }
}

/// How many of the first `n` steps from `c` wrapped back to 0.
pub open spec fn sp_wrap_count(c: int, n: nat) -> int
    decreases n,
{
    if n == 0 {
        0
    } else {
        sp_wrap_count(c, (n - 1) as nat) + if sp_counter_after(c, (n - 1) as nat)
            >= FULL_CYCLE as int {
            1int
        } else {
            0int
        }
    }
}

/// The monotone frame counter of the animation, wrapping at the cycle
/// length.  A wrap is the signal to regenerate the point set; the clock
/// itself only counts.
pub struct CycleClock {
    /// Position within the cycle, always in `0..=FULL_CYCLE`.
    pub counter: u32,
}

impl CycleClock {
    /// True when the counter is inside the cycle range.
    pub open spec fn wf(&self) -> bool {
        self.counter <= FULL_CYCLE
    }

    /// A clock at the start of a cycle.
    pub fn new() -> (clock: CycleClock)
        ensures
            clock.wf(),
            clock.counter == 0,
    {
        CycleClock { counter: 0 }
    }

    /// The current frame counter.
    pub fn counter(&self) -> (c: u32)
        ensures
            c == self.counter,
    {
        self.counter
    }

    /// Advances the counter by one frame; reports whether it wrapped
    /// back to the start of a new cycle.
    pub fn advance(&mut self) -> (wrapped: bool)
        requires
            old(self).wf(),
        ensures
            final(self).wf(),
            final(self).counter == sp_advance(old(self).counter as int),
            wrapped == (old(self).counter == FULL_CYCLE),
            wrapped == (final(self).counter == 0),
    {
        if self.counter >= FULL_CYCLE {
            self.counter = 0;
            true
        } else {
            self.counter = self.counter + 1;
            false
        }
    }
}

/// Progress through the whole cycle, `counter / FULL_CYCLE` as a
/// fixed-point ratio.
pub fn relative_pos_full(counter: u32) -> (r: i64)
    requires
        counter <= FULL_CYCLE,
    ensures
        r == sp_rel_full(counter as int),
        0 <= r <= SCALE,
{
    proof {
        lemma_rel_full_exact(counter as int);
    }
    (counter as i64 * SCALE) / (FULL_CYCLE as i64)
}

/// Triangular progress ratio: 1.0 marks the middle of the cycle, 0.0
/// both its ends.
pub fn relative_pos_half(counter: u32) -> (r: i64)
    requires
        counter <= FULL_CYCLE,
    ensures
        r == sp_rel_half(counter as int),
        0 <= r <= SCALE,
{
    proof {
        lemma_rel_full_exact(counter as int);
        lemma_rel_half_exact(counter as int);
    }
    let half: i64 = (FULL_CYCLE / 2) as i64;
    let pos: i64 = relative_pos_full(counter);
    if pos > SCALE / 2 {
        SCALE - ((counter as i64 - half) * SCALE) / half
    } else {
        (counter as i64 * SCALE) / half
    }
}

/// The quadratic in-out easing curve, mapping a `0..=SCALE` ratio to a
/// `0..=SCALE2` eased ratio at squared scale.
pub fn ease_in_out_quad(v: i64) -> (r: i64)
    requires
        0 <= v <= SCALE,
    ensures
        r == sp_ease_in_out_quad(v as int),
        0 <= r <= SCALE2,
{
    proof {
        lemma_ease_bounds(v as int);
    }
    if v < SCALE / 2 {
        2 * v * v
    } else {
        v * (4 * SCALE - 2 * v) - SCALE2
    }
}

/// The full-cycle ratio is linear: each frame is worth
/// `SCALE / FULL_CYCLE`, so the ratio covers 0 to `SCALE` inclusive.
pub proof fn lemma_rel_full_exact(c: int)
    ensures
        sp_rel_full(c) == c * ((SCALE as int) / (FULL_CYCLE as int)),
{
    let step = (SCALE as int) / (FULL_CYCLE as int);
    assert(c * (SCALE as int) == (FULL_CYCLE as int) * (c * 50_000));
    lemma_div_multiples_vanish(c * 50_000, FULL_CYCLE as int);
    assert(step == 50_000);
}

/// For all counters in the cycle the full ratio stays in `[0, 1]`,
/// is 0 at the start of the cycle and 1 at its end.
pub proof fn lemma_rel_full_props(c: int)
    requires
        0 <= c <= FULL_CYCLE,
    ensures
        0 <= sp_rel_full(c) <= SCALE,
        c == 0 ==> sp_rel_full(c) == 0,
        c == FULL_CYCLE ==> sp_rel_full(c) == SCALE,
{
    lemma_rel_full_exact(c);
}

/// Closed form of the triangular ratio: linear up over the first half
/// of the cycle, linear down over the second.
pub proof fn lemma_rel_half_exact(c: int)
    requires
        0 <= c <= FULL_CYCLE,
    ensures
        c <= FULL_CYCLE / 2 ==> sp_rel_half(c) == c * ((SCALE as int) / (FULL_CYCLE as int / 2)),
        c > FULL_CYCLE / 2 ==> sp_rel_half(c) == SCALE - (c - FULL_CYCLE / 2) * ((SCALE as int) / (
        FULL_CYCLE as int / 2)),
{
    let half = FULL_CYCLE as int / 2;
    assert(half == 10);
    assert((SCALE as int) / (FULL_CYCLE as int / 2) == 100_000) by {
        lemma_div_multiples_vanish(100_000, 10);
        assert((SCALE as int) == 10 * 100_000);
    }
    lemma_rel_full_exact(c);
    assert(c * (SCALE as int) == (FULL_CYCLE as int / 2) * (c * 100_000));
    lemma_div_multiples_vanish(c * 100_000, FULL_CYCLE as int / 2);
    assert((c - 10) * (SCALE as int) == (FULL_CYCLE as int / 2) * ((c - 10) * 100_000));
    lemma_div_multiples_vanish((c - 10) * 100_000, FULL_CYCLE as int / 2);
}

/// The triangular ratio starts at 0, peaks at 1 in the middle of the
/// cycle and returns to 0 at its end, staying within `[0, 1]` throughout.
pub proof fn lemma_rel_half_props(c: int)
    requires
        0 <= c <= FULL_CYCLE,
    ensures
        0 <= sp_rel_half(c) <= SCALE,
        c == 0 ==> sp_rel_half(c) == 0,
        c == FULL_CYCLE / 2 ==> sp_rel_half(c) == SCALE,
        c == FULL_CYCLE ==> sp_rel_half(c) == 0,
{
    lemma_rel_half_exact(c);
}

/// The easing curve stays within `[0, 1]` (at squared scale) on valid
/// ratios.
pub proof fn lemma_ease_bounds(v: int)
    requires
        0 <= v <= SCALE,
    ensures
        0 <= sp_ease_in_out_quad(v) <= SCALE2,
{
    if v < SCALE / 2 {
        assert(0 <= 2 * v * v <= SCALE2) by (nonlinear_arith)
            requires
                0 <= v < SCALE / 2,
        ;
    } else {
        assert(0 <= v * (4 * SCALE - 2 * v) - SCALE2 <= SCALE2) by (nonlinear_arith)
            requires
                SCALE / 2 <= v <= SCALE,
        ;
    }
}

/// The easing curve fixes 0, one half and 1: it eases in from 0,
/// passes one half exactly at mid-progress and eases out to 1.  Both
/// branches of its definition agree at the midpoint.
pub proof fn lemma_ease_endpoints()
    ensures
        sp_ease_in_out_quad(0) == 0,
        sp_ease_in_out_quad(SCALE / 2) == SCALE2 / 2,
        sp_ease_in_out_quad(SCALE as int) == SCALE2,
        2 * (SCALE / 2) * (SCALE / 2) == SCALE2 / 2,
{
}

/// The easing curve is strictly increasing on the first half of its
/// domain and strictly decreasing nowhere within either half: more
/// progress always eases to a strictly larger value on `[0, 1/2]` and
/// on `[1/2, 1]`.
pub proof fn lemma_ease_strictly_increasing(v1: int, v2: int)
    requires
        0 <= v1 < v2 <= SCALE,
        v2 <= SCALE / 2 || SCALE / 2 <= v1,
    ensures
        sp_ease_in_out_quad(v1) < sp_ease_in_out_quad(v2),
{
    if v2 <= SCALE / 2 {
        if v2 < SCALE / 2 {
            assert(2 * v1 * v1 < 2 * v2 * v2) by (nonlinear_arith)
                requires
                    0 <= v1 < v2,
            ;
        } else {
            assert(2 * v1 * v1 < 2 * (SCALE / 2) * (SCALE / 2)) by (nonlinear_arith)
                requires
                    0 <= v1 < SCALE / 2,
            ;
        }
    } else {
        if v1 < SCALE / 2 {
            assert(false);
        }
        assert(v1 * (4 * SCALE - 2 * v1) < v2 * (4 * SCALE - 2 * v2)) by (nonlinear_arith)
            requires
                SCALE / 2 <= v1 < v2 <= SCALE,
        ;
    }
}

/// No step inside the cycle wraps: from counter `c`, the first
/// `FULL_CYCLE - c` steps just count up.
proof fn lemma_no_wrap_until(c: int, n: nat)
    requires
        0 <= c,
        c + n <= FULL_CYCLE,
    ensures
        sp_counter_after(c, n) == c + n,
        sp_wrap_count(c, n) == 0,
    decreases n,
{
    if n > 0 {
        lemma_no_wrap_until(c, (n - 1) as nat);
    }
}

/// Advancing the clock `FULL_CYCLE + 1` times from the start of a cycle
/// returns the counter to 0 and wraps exactly once: one cycle, one
/// regeneration signal.
pub proof fn lemma_cycle_wraparound()
    ensures
        sp_counter_after(0, (FULL_CYCLE + 1) as nat) == 0,
        sp_wrap_count(0, (FULL_CYCLE + 1) as nat) == 1,
{
    lemma_no_wrap_until(0, FULL_CYCLE as nat);
}

} // verus!
