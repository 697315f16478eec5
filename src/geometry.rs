//! Points, rectangles and the mapping from widget coordinates to device
//! coordinates. Lengths are in thousandths of a pixel; the scale factor is in
//! thousandths as well.
use vstd::prelude::*;

verus! {

/// The scale factor that stands for 1.0.
pub const SCALE_ONE: i64 = 1000;

/// A point in logical coordinates.
#[derive(Clone, Copy, Debug, PartialEq, Eq)]
pub struct Point {
    pub x: i32,
    pub y: i32,
}

/// An axis-aligned rectangle: origin and size.
#[derive(Clone, Copy, Debug, PartialEq, Eq)]
pub struct Rect {
    pub x: i64,
    pub y: i64,
    pub width: i64,
    pub height: i64,
}

/// Space kept free on each side of the content.
#[derive(Clone, Copy, Debug, PartialEq, Eq)]
pub struct Padding {
    pub top: i32,
    pub right: i32,
    pub bottom: i32,
    pub left: i32,
}

impl Padding {
    /// The same padding on all four sides.
    pub fn uniform(p: i32) -> (r: Padding)
        ensures
            r.top == p && r.right == p && r.bottom == p && r.left == p,
    {
        Padding { top: p, right: p, bottom: p, left: p }
    }
}

/// Division rounding toward zero, as an integer cast of a quotient does.
pub open spec fn div_toward_zero(n: int, d: int) -> int {
    if n >= 0 { n / d } else { -((-n) / d) }
}

/// Divides `n` by `d`, rounding toward zero.
pub fn trunc_div(n: i64, d: i64) -> (r: i64)
    requires
        d > 0,
        n > i64::MIN,
    ensures
        r == div_toward_zero(n as int, d as int),
{
    if n >= 0 { n / d } else { -((-n) / d) }
}

/// What is left of `n` after taking whole multiples of `d` toward zero lies
/// strictly between `-d` and `d`, with the sign of `n`.
pub proof fn lemma_trunc_remainder(n: int, d: int)
    requires
        d > 0,
    ensures
        n >= 0 ==> 0 <= n - div_toward_zero(n, d) * d < d,
        n < 0 ==> -d < n - div_toward_zero(n, d) * d <= 0,
        n >= 0 ==> div_toward_zero(n, d) >= 0,
        n < 0 ==> div_toward_zero(n, d) <= 0,
{
    vstd::arithmetic::div_mod::lemma_fundamental_div_mod(n, d);
    vstd::arithmetic::div_mod::lemma_fundamental_div_mod(-n, d);
    if n >= 0 {
        vstd::arithmetic::div_mod::lemma_mod_pos_bound(n, d);
        vstd::arithmetic::div_mod::lemma_div_pos_is_pos(n, d);
        assert((n / d) * d == d * (n / d)) by (nonlinear_arith);
        assert(div_toward_zero(n, d) == n / d);
    } else {
        assert(((-n) / d) * d == d * ((-n) / d)) by (nonlinear_arith);
        vstd::arithmetic::div_mod::lemma_div_pos_is_pos(-n, d);
        vstd::arithmetic::div_mod::lemma_mod_pos_bound(-n, d);
        assert(-((-n) / d) * d == -(((-n) / d) * d)) by (nonlinear_arith);
    }
}

/// The device coordinate of a logical coordinate after padding and scale.
pub open spec fn device_coord(logical: int, pad: int, scale_milli: int) -> int {
    div_toward_zero((logical - pad) * scale_milli, SCALE_ONE as int)
}

/// Maps one logical coordinate to device space: the padding is taken off and
/// the rest scaled.
pub fn to_device(logical: i64, pad: i32, scale_milli: u16) -> (r: i64)
    requires
        -0x1_0000_0000 <= logical <= 0x1_0000_0000,
    ensures
        r == device_coord(logical as int, pad as int, scale_milli as int),
        -0x100_0000_0000 < r < 0x100_0000_0000,
{
    let d: i64 = logical - pad as i64;
    assert(-0x2_0000_0000 * 0x10000 <= d * scale_milli <= 0x2_0000_0000 * 0x10000) by (nonlinear_arith)
        requires
            -0x2_0000_0000 <= d <= 0x2_0000_0000,
            0 <= scale_milli <= 0xFFFF,
    ;
    let n: i64 = d * scale_milli as i64;
    let r = trunc_div(n, SCALE_ONE);
    proof {
        lemma_trunc_remainder(n as int, 1000);
    }
    r
}

/// A device coordinate computed from a bounded logical coordinate stays
/// within the device bound.
pub proof fn lemma_device_coord_bound(logical: int, pad: int, scale_milli: int)
    requires
        -0x1_0000_0000 <= logical <= 0x1_0000_0000,
        i32::MIN <= pad <= i32::MAX,
        0 <= scale_milli <= 0xFFFF,
    ensures
        -0x100_0000_0000 < device_coord(logical, pad, scale_milli) < 0x100_0000_0000,
{
    let d = logical - pad;
    let n = d * scale_milli;
    assert(-0x2_0000_0000 * 0x10000 <= n <= 0x2_0000_0000 * 0x10000) by (nonlinear_arith)
        requires
            -0x2_0000_0000 <= d <= 0x2_0000_0000,
            0 <= scale_milli <= 0xFFFF,
            n == d * scale_milli,
    ;
    lemma_trunc_remainder(n, 1000);
}

/// Whether a device point lies in the text area `[0, w) x [0, h)`.
pub open spec fn in_area(x: int, y: int, w: int, h: int) -> bool {
    0 <= x < w && 0 <= y < h
}

impl Rect {
    /// Whether `(px, py)` lies in the rectangle, right and bottom edges
    /// excluded.
    pub open spec fn holds(self, px: int, py: int) -> bool {
        self.x <= px < self.x + self.width && self.y <= py < self.y + self.height
    }

    /// Tells whether `(px, py)` lies in the rectangle.
    pub fn contains(&self, px: i64, py: i64) -> (r: bool)
        requires
            i64::MIN <= self.x + self.width <= i64::MAX,
            i64::MIN <= self.y + self.height <= i64::MAX,
        ensures
            r == self.holds(px as int, py as int),
    {
        self.x <= px && px < self.x + self.width && self.y <= py && py < self.y + self.height
    }
}

/// A rectangle whose far edges can be computed without overflow.
pub open spec fn rect_ok(r: Rect) -> bool {
    i64::MIN <= r.x + r.width <= i64::MAX && i64::MIN <= r.y + r.height <= i64::MAX
}

fn sum_fits(a: i64, b: i64) -> (r: bool)
    ensures
        r == (i64::MIN <= a + b <= i64::MAX),
{
    if b >= 0 { a <= i64::MAX - b } else { a >= i64::MIN - b }
}

/// Tells whether the far edges of `r` can be computed without overflow.
pub fn rect_in_range(r: &Rect) -> (b: bool)
    ensures
        b == rect_ok(*r),
{
    sum_fits(r.x, r.width) && sum_fits(r.y, r.height)
}

/// The point relative to the origin of `bounds`, when it lies inside.
pub open spec fn relative_in(bounds: Rect, p: Point) -> Option<Point> {
    if bounds.holds(p.x as int, p.y as int) {
        Some(Point { x: (p.x - bounds.x) as i32, y: (p.y - bounds.y) as i32 })
    } else {
        None
    }
}

/// A rectangle whose every point, taken relative to its origin, fits an
/// `i32`.
pub open spec fn bounds_ok(r: Rect) -> bool {
    rect_ok(r) && 0 <= r.width <= i32::MAX && 0 <= r.height <= i32::MAX
}

/// Gives `p` relative to the origin of `bounds` when it lies inside.
pub fn position_in(bounds: &Rect, p: Point) -> (r: Option<Point>)
    requires
        bounds_ok(*bounds),
    ensures
        r == relative_in(*bounds, p),
{
    if bounds.contains(p.x as i64, p.y as i64) {
        Some(Point { x: (p.x as i64 - bounds.x) as i32, y: (p.y as i64 - bounds.y) as i32 })
    } else {
        None
    }
}

} // verus!
