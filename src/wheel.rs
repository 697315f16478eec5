//! Conversion of wheel and trackpad deltas into whole-line scroll requests,
//! carrying the fractional rest from one event to the next.
use vstd::prelude::*;
use crate::geometry::{div_toward_zero, trunc_div, lemma_trunc_remainder};

verus! {

/// Pixels of scroll for one unit of wheel delta.
pub const WHEEL_SENSITIVITY: i64 = 6;

/// Thousandths in one unit.
pub const MILLI: i64 = 1000;

/// The carried rest always stays strictly within this bound.
pub const CARRY_BOUND: i64 = 0x1_0000_0000;

/// One wheel event: whole notches or a continuous pixel amount, both in
/// thousandths, positive toward the top.
#[derive(Clone, Copy, Debug, PartialEq, Eq)]
pub enum WheelDelta {
    Lines { y: i32 },
    Pixels { y: i32 },
}

/// `n` thousandths rounded to the nearest whole, halves away from zero.
pub open spec fn round_milli(n: int) -> int {
    if n >= 0 { (n + 500) / 1000 } else { -((-n + 500) / 1000) }
}

/// The carry after the event and the lines it peels off; the terminal is
/// asked to scroll by minus that many lines.
pub open spec fn wheel_spec(carry: int, delta: WheelDelta, line_height: int) -> (int, int) {
    match delta {
        WheelDelta::Lines { y } => (0, round_milli(-(y as int) * 6)),
        WheelDelta::Pixels { y } => {
            let a = carry - (y as int) * 6;
            let lines = div_toward_zero(a, line_height);
            (a - lines * line_height, lines)
        },
    }
}

/// Applies one wheel event to the carried rest `carry` (thousandths of a
/// pixel) with lines `line_height` thousandths of a pixel high. Returns the
/// new carry and the lines peeled off.
pub fn wheel_step(carry: i64, delta: WheelDelta, line_height: u32) -> (r: (i64, i64))
    requires
        -CARRY_BOUND < carry < CARRY_BOUND,
        line_height > 0,
    ensures
        (r.0 as int, r.1 as int) == wheel_spec(carry as int, delta, line_height as int),
        -(line_height as int) < r.0 < line_height,
        -CARRY_BOUND < r.0 < CARRY_BOUND,
{
    match delta {
        WheelDelta::Lines { y } => {
            let n: i64 = -(y as i64) * WHEEL_SENSITIVITY;
            let lines = if n >= 0 { (n + 500) / MILLI } else { -((-n + 500) / MILLI) };
            (0, lines)
        },
        WheelDelta::Pixels { y } => {
            let a: i64 = carry - (y as i64) * WHEEL_SENSITIVITY;
            let lh = line_height as i64;
            let lines = trunc_div(a, lh);
            proof {
                lemma_trunc_remainder(a as int, lh as int);
                if a >= 0 {
                    assert(0 <= lines * lh <= a) by (nonlinear_arith)
                        requires
                            0 <= a - lines * lh,
                            lines >= 0,
                            lh > 0,
                    ;
                } else {
                    assert(a <= lines * lh <= 0) by (nonlinear_arith)
                        requires
                            a - lines * lh <= 0,
                            lines <= 0,
                            lh > 0,
                    ;
                }
            }
            (a - lines * lh, lines)
        },
    }
}

/// Sum of a sequence of deltas.
pub open spec fn sum(ys: Seq<i32>) -> int
    decreases ys.len(),
{
    if ys.len() == 0 { 0 } else { sum(ys.drop_last()) + ys.last() as int }
}

/// The carry and the total of lines peeled after pixel events `ys`, one
/// after another, starting from `carry`.
pub open spec fn pixel_run(carry: int, ys: Seq<i32>, line_height: int) -> (int, int)
    decreases ys.len(),
{
    if ys.len() == 0 {
        (carry, 0)
    } else {
        let (c, total) = pixel_run(carry, ys.drop_last(), line_height);
        let (c2, lines) = wheel_spec(c, WheelDelta::Pixels { y: ys.last() }, line_height);
        (c2, total + lines)
    }
}

/// After a run of pixel events, the carry is the starting carry less the
/// scrolled pixels and the lines peeled off, and stays within a line.
pub proof fn lemma_pixel_run_balance(carry: int, ys: Seq<i32>, line_height: int)
    requires
        line_height > 0,
        -line_height < carry < line_height,
    ensures
        pixel_run(carry, ys, line_height).0 == carry - 6 * sum(ys) - pixel_run(carry, ys, line_height).1
            * line_height,
        -line_height < pixel_run(carry, ys, line_height).0 < line_height,
    decreases ys.len(),
{
    if ys.len() > 0 {
        lemma_pixel_run_balance(carry, ys.drop_last(), line_height);
        let (c, total) = pixel_run(carry, ys.drop_last(), line_height);
        let a = c - (ys.last() as int) * 6;
        let lines = div_toward_zero(a, line_height);
        lemma_trunc_remainder(a, line_height);
        assert(total * line_height + lines * line_height == (total + lines) * line_height)
            by (nonlinear_arith);
    }
}

/// Pixel events whose amounts add up to exactly `n` line heights, starting
/// with nothing carried, peel off exactly `n` lines in all and leave nothing
/// carried.
pub proof fn lemma_whole_lines_scroll_exactly(ys: Seq<i32>, line_height: int, n: int)
    requires
        line_height > 0,
        -6 * sum(ys) == n * line_height,
    ensures
        pixel_run(0, ys, line_height).1 == n,
        pixel_run(0, ys, line_height).0 == 0,
{
    lemma_pixel_run_balance(0, ys, line_height);
    let (c, total) = pixel_run(0, ys, line_height);
    assert(c == (n - total) * line_height) by (nonlinear_arith)
        requires
            c == 0 - 6 * sum(ys) - total * line_height,
            -6 * sum(ys) == n * line_height,
    ;
    assert(n - total == 0) by (nonlinear_arith)
        requires
            c == (n - total) * line_height,
            -line_height < c < line_height,
            line_height > 0,
    ;
}

} // verus!
