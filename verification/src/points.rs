//! Point-set generation: one ordered sequence of samples per cycle.
//!
//! The x positions walk the nominal span left to right; the y values
//! are noise samples the host draws at those positions (the noise
//! source itself works on reals, so the host feeds the samples in as
//! fixed-point values).  A small random offset, drawn once per cycle,
//! shifts the noise field so that consecutive cycles differ.

use vstd::arithmetic::div_mod::{lemma_div_is_ordered, lemma_div_pos_is_pos};
use vstd::prelude::*;

use rand::Rng;

use crate::constants::{NORMAL_WIDTH, SCALE};
use crate::fixed::{lemma_mul_ratio_in_range, mul_ratio, sp_mul_ratio};
use crate::types::Point;

verus! {

/// Largest point count the generator accepts; far above any configured
/// segment count, it merely keeps the index arithmetic inside `i64`.
pub const MAX_COUNT: usize = 1_000_000;

/// The fraction of the span covered after `i` of `count` steps.
pub open spec fn sp_sample_ratio(i: int, count: int) -> int {
    i * SCALE / count
}

/// The x position of sample `i` of `count` across `span`:
/// `lerp(0, span, i / count)` in fixed point.
pub open spec fn sp_sample_x(i: int, count: int, span: int) -> int {
    sp_mul_ratio(span, sp_sample_ratio(i, count), SCALE as int)
}

/// Sample ratios stay in `[0, 1)` for indices inside the set.
pub proof fn lemma_sample_ratio_bounds(i: int, count: int)
    requires
        0 <= i < count,
    ensures
        0 <= sp_sample_ratio(i, count) <= SCALE,
{
    assert(i * SCALE >= 0) by (nonlinear_arith)
        requires
            i >= 0,
    ;
    lemma_div_pos_is_pos(i * SCALE, count);
    assert(i * SCALE <= count * SCALE) by (nonlinear_arith)
        requires
            i <= count,
            SCALE > 0,
    ;
    lemma_div_is_ordered(i * SCALE, count * SCALE, count);
    assert(count * SCALE / count == SCALE) by (nonlinear_arith)
        requires
            count > 0,
    ;
}

/// X positions never leave `[0, span]`.
pub proof fn lemma_sample_x_bounds(i: int, count: int, span: int)
    requires
        0 <= i < count,
        span >= 0,
    ensures
        0 <= sp_sample_x(i, count, span) <= span,
{
    lemma_sample_ratio_bounds(i, count);
    lemma_mul_ratio_in_range(span, sp_sample_ratio(i, count), SCALE as int);
}

/// X positions are monotonically non-decreasing in index order: the
/// generated points walk the span left to right.
pub proof fn lemma_sample_x_monotone(i: int, j: int, count: int, span: int)
    requires
        0 <= i <= j < count,
        span >= 0,
    ensures
        sp_sample_x(i, count, span) <= sp_sample_x(j, count, span),
{
    assert(i * SCALE <= j * SCALE) by (nonlinear_arith)
        requires
            i <= j,
            SCALE > 0,
    ;
    lemma_div_is_ordered(i * SCALE, j * SCALE, count);
    let ri = sp_sample_ratio(i, count);
    let rj = sp_sample_ratio(j, count);
    assert(span * ri <= span * rj) by (nonlinear_arith)
        requires
            span >= 0,
            ri <= rj,
    ;
    lemma_div_is_ordered(span * ri, span * rj, SCALE as int);
    assert(i * SCALE >= 0) by (nonlinear_arith)
        requires
            i >= 0,
    ;
    lemma_div_pos_is_pos(i * SCALE, count);
    assert(span * ri >= 0) by (nonlinear_arith)
        requires
            span >= 0,
            ri >= 0,
    ;
    lemma_div_pos_is_pos(span * ri, SCALE as int);
}

/// Relies on rand's `Rng::gen_range`: a sample from a non-empty integer
/// range lies within that range.  Nothing more is assumed of the value.
#[verifier::external_body]
fn gen_offset() -> (r: u64)
    ensures
        r < 10,
{
    rand::thread_rng().gen_range(0..10)
}

/// Draws the per-cycle noise-field offset, the source of cross-cycle
/// variety: whatever the generator returns, the offset is below ten.
pub fn random_offset() -> (r: u64)
    ensures
        r < 10,
{
    gen_offset()
}

/// The x positions of `count` samples spread over `span`, in index
/// order: position `i` is `lerp(0, span, i / count)`.
pub fn sample_xs(count: usize, span: i64) -> (xs: Vec<i64>)
    requires
        1 <= count <= MAX_COUNT,
        0 <= span <= NORMAL_WIDTH,
    ensures
        xs@.len() == count,
        forall|i: int| 0 <= i < count ==> xs@[i] == sp_sample_x(i, count as int, span as int),
        forall|i: int| 0 <= i < count ==> 0 <= #[trigger] xs@[i] <= span,
{
    let mut xs: Vec<i64> = Vec::new();
    let mut i: usize = 0;
    while i < count
        invariant
            i <= count,
            1 <= count <= MAX_COUNT,
            0 <= span <= NORMAL_WIDTH,
            xs@.len() == i,
            forall|k: int| 0 <= k < i ==> xs@[k] == sp_sample_x(k, count as int, span as int),
            forall|k: int| 0 <= k < i ==> 0 <= #[trigger] xs@[k] <= span,
        decreases count - i,
    {
        proof {
            lemma_sample_ratio_bounds(i as int, count as int);
            lemma_sample_x_bounds(i as int, count as int, span as int);
        }
        let ratio: i64 = ((i as i64) * SCALE) / (count as i64);
        let x: i64 = mul_ratio(span, ratio, SCALE);
        xs.push(x);
        i = i + 1;
    }
    xs
}

/// Builds the point set for a new cycle from the sample positions and
/// the noise values the host measured at them.  The result has exactly
/// one point per noise value, x positions in index order.
pub fn generate(count: usize, span: i64, ys: &Vec<i64>) -> (points: Vec<Point>)
    requires
        1 <= count <= MAX_COUNT,
        0 <= span <= NORMAL_WIDTH,
        ys@.len() == count,
        forall|i: int| 0 <= i < count ==> -SCALE <= #[trigger] ys@[i] <= SCALE,
    ensures
        points@.len() == count,
        forall|i: int|
            0 <= i < count ==> #[trigger] points@[i] == (Point {
                x: sp_sample_x(i, count as int, span as int) as i64,
                y: ys@[i],
            }),
        forall|i: int| 0 <= i < count ==> #[trigger] points@[i].wf(),
{
    let xs = sample_xs(count, span);
    let mut points: Vec<Point> = Vec::new();
    let mut i: usize = 0;
    while i < count
        invariant
            i <= count,
            1 <= count <= MAX_COUNT,
            0 <= span <= NORMAL_WIDTH,
            xs@.len() == count,
            ys@.len() == count,
            forall|k: int| 0 <= k < count ==> xs@[k] == sp_sample_x(k, count as int, span as int),
            forall|k: int| 0 <= k < count ==> 0 <= #[trigger] xs@[k] <= span,
            forall|k: int| 0 <= k < count ==> -SCALE <= #[trigger] ys@[k] <= SCALE,
            points@.len() == i,
            forall|k: int|
                0 <= k < i ==> #[trigger] points@[k] == (Point {
                    x: sp_sample_x(k, count as int, span as int) as i64,
                    y: ys@[k],
                }),
            forall|k: int| 0 <= k < i ==> #[trigger] points@[k].wf(),
        decreases count - i,
    {
        points.push(Point { x: xs[i], y: ys[i] });
        i = i + 1;
    }
    points
}

/// An all-zero point set of the given length: the stand-in for the
/// previous cycle before any cycle has completed.
pub fn zero_points(count: usize) -> (points: Vec<Point>)
    ensures
        points@.len() == count,
        forall|i: int| 0 <= i < count ==> #[trigger] points@[i] == (Point { x: 0i64, y: 0i64 }),
        forall|i: int| 0 <= i < count ==> #[trigger] points@[i].wf(),
{
    let mut points: Vec<Point> = Vec::new();
    let mut i: usize = 0;
    while i < count
        invariant
            i <= count,
            points@.len() == i,
            forall|k: int| 0 <= k < i ==> #[trigger] points@[k] == (Point { x: 0i64, y: 0i64 }),
            forall|k: int| 0 <= k < i ==> #[trigger] points@[k].wf(),
        decreases count - i,
    {
        points.push(Point { x: 0, y: 0 });
        i = i + 1;
    }
    points
}

} // verus!
