use vstd::prelude::*;

verus! {

/// Fixed-point denominator of a `ScalingFactor`: the factor `65536` means 1.
pub const SCALE_ONE: u32 = 65536;

/// A non-negative fixed-point scaling factor, in units of 1/65536.
#[derive(Copy, Clone)]
pub struct ScalingFactor(u32);

/// Rust's integer division, which rounds toward zero.
pub open spec fn div_toward_zero(a: int, d: int) -> int {
    if a >= 0 {
        a / d
    } else {
        -((-a) / d)
    }
}

impl ScalingFactor {
    /// The factor in units of 1/65536.
    pub closed spec fn view(self) -> nat {
        self.0 as nat
    }

    /// The factor 1.
    pub fn one() -> (r: ScalingFactor)
        ensures
            r@ == SCALE_ONE,
    {
        ScalingFactor(SCALE_ONE)
    }

    /// Construct a scaling factor from a fraction, rounded down to a multiple of 1/65536.
    pub fn from_ratio(num: u32, denom: u32) -> (r: ScalingFactor)
        requires
            denom > 0,
            (SCALE_ONE as int) * (num as int) / (denom as int) <= u32::MAX,
        ensures
            r@ == (SCALE_ONE as int) * (num as int) / (denom as int),
    {
        let factor: u64 = (SCALE_ONE as u64 * num as u64) / denom as u64;
        ScalingFactor(factor as u32)
    }

    /// The raw fixed-point value.
    pub fn as_fixed(&self) -> (r: u32)
        ensures
            r == self@,
    {
        self.0
    }
}

/// Fixed point scaling.
pub trait ScaleBy: Sized {
    /// The value scaled by `by`.
    spec fn scaled(self, by: ScalingFactor) -> Self;

    fn scale_by(self, by: ScalingFactor) -> (r: Self)
        ensures
            r == self.scaled(by),
    ;
}

impl ScaleBy for u16 {
    /// `self * by`, rounded down, truncated to 16 bits.
    open spec fn scaled(self, by: ScalingFactor) -> u16 {
        ((self * by@) / (SCALE_ONE as int)) as u16
    }

    fn scale_by(self, by: ScalingFactor) -> (r: u16) {
        proof {
            assert(self as int * by.0 as int <= 0xffff * 0xffff_ffff) by (nonlinear_arith)
                requires self <= 0xffff, by.0 <= 0xffff_ffff;
        }
        let q: u64 = (self as u64 * by.0 as u64) / SCALE_ONE as u64;
        #[verifier::truncate]
        (q as u16)
    }
}

impl ScaleBy for u32 {
    /// `self * by`, rounded down, truncated to 32 bits.
    open spec fn scaled(self, by: ScalingFactor) -> u32 {
        ((self * by@) / (SCALE_ONE as int)) as u32
    }

    fn scale_by(self, by: ScalingFactor) -> (r: u32) {
        proof {
            assert(self as int * by.0 as int <= u32::MAX as int * u32::MAX as int) by (nonlinear_arith)
                requires self <= u32::MAX, by.0 <= u32::MAX;
        }
        let q: u64 = (self as u64 * by.0 as u64) / SCALE_ONE as u64;
        #[verifier::truncate]
        (q as u32)
    }
}

impl ScaleBy for i16 {
    /// `self * by`, rounded toward zero, truncated to 16 bits.
    open spec fn scaled(self, by: ScalingFactor) -> i16 {
        div_toward_zero(self * by@, SCALE_ONE as int) as i16
    }

    fn scale_by(self, by: ScalingFactor) -> (r: i16) {
        proof {
            assert(-0x8000 * 0xffff_ffff <= self as int * by.0 as int <= 0x7fff * 0xffff_ffff)
                by (nonlinear_arith)
                requires i16::MIN <= self <= i16::MAX, 0 <= by.0 <= u32::MAX;
        }
        let p: i64 = self as i64 * by.0 as i64;
        let q: i64 = if p >= 0 { p / SCALE_ONE as i64 } else { -((-p) / SCALE_ONE as i64) };
        #[verifier::truncate]
        (q as i16)
    }
}

impl ScaleBy for i32 {
    /// `self * by`, rounded toward zero, truncated to 32 bits.
    open spec fn scaled(self, by: ScalingFactor) -> i32 {
        div_toward_zero(self * by@, SCALE_ONE as int) as i32
    }

    fn scale_by(self, by: ScalingFactor) -> (r: i32) {
        proof {
            assert(-0x8000_0000 * 0xffff_ffff <= self as int * by.0 as int <= 0x7fff_ffff * 0xffff_ffff)
                by (nonlinear_arith)
                requires i32::MIN <= self <= i32::MAX, 0 <= by.0 <= u32::MAX;
        }
        let p: i64 = self as i64 * by.0 as i64;
        let q: i64 = if p >= 0 { p / SCALE_ONE as i64 } else { -((-p) / SCALE_ONE as i64) };
        #[verifier::truncate]
        (q as i32)
    }
}

/// An unscaled constant value: the inner value is reached through `scale_by`
/// or `as_inner`.
#[derive(Copy, Clone)]
pub struct Unscaled<T>(T);

impl<T: ScaleBy + Copy> Unscaled<T> {
    pub closed spec fn view(self) -> T {
        self.0
    }

    pub fn new(value: T) -> (r: Self)
        ensures
            r@ == value,
    {
        Unscaled(value)
    }

    pub fn scale_by(self, by: ScalingFactor) -> (r: T)
        ensures
            r == self@.scaled(by),
    {
        self.0.scale_by(by)
    }

    pub fn as_inner(&self) -> (r: &T)
        ensures
            *r == self@,
    {
        &self.0
    }
}

/// A point in screen coordinates.
#[derive(Copy, Clone, Debug, PartialEq, Eq, Structural)]
pub struct Point {
    pub x: i32,
    pub y: i32,
}

/// A width and a height.
#[derive(Copy, Clone, Debug, PartialEq, Eq, Structural)]
pub struct Size {
    pub cx: i32,
    pub cy: i32,
}

/// A rectangle in screen coordinates: `left`/`top` inclusive, `right`/`bottom` exclusive.
#[derive(Copy, Clone, Debug, PartialEq, Eq, Structural)]
pub struct Rect {
    pub left: i32,
    pub top: i32,
    pub right: i32,
    pub bottom: i32,
}

impl Rect {
    pub open spec fn width_spec(self) -> int {
        self.right - self.left
    }

    pub open spec fn height_spec(self) -> int {
        self.bottom - self.top
    }

    /// Both extents fit in an `i32`.
    pub open spec fn extents_fit(self) -> bool {
        &&& i32::MIN <= self.width_spec() <= i32::MAX
        &&& i32::MIN <= self.height_spec() <= i32::MAX
    }

    /// The rectangle of the given size with its top-left corner at the origin.
    pub fn from_size(size: Size) -> (r: Rect)
        ensures
            r == (Rect { left: 0, top: 0, right: size.cx, bottom: size.cy }),
    {
        Rect { left: 0, top: 0, right: size.cx, bottom: size.cy }
    }

    pub fn top_left_corner(self) -> (r: Point)
        ensures
            r == (Point { x: self.left, y: self.top }),
    {
        Point { x: self.left, y: self.top }
    }

    pub fn width(&self) -> (r: i32)
        requires
            i32::MIN <= self.width_spec() <= i32::MAX,
        ensures
            r == self.width_spec(),
    {
        self.right - self.left
    }

    pub fn height(&self) -> (r: i32)
        requires
            i32::MIN <= self.height_spec() <= i32::MAX,
        ensures
            r == self.height_spec(),
    {
        self.bottom - self.top
    }

    pub fn size(self) -> (r: Size)
        requires
            self.extents_fit(),
        ensures
            r == (Size { cx: self.width_spec() as i32, cy: self.height_spec() as i32 }),
    {
        Size { cx: self.width(), cy: self.height() }
    }

    /// Moves the rectangle horizontally so that its left edge is at `x`.
    pub fn with_left_edge_at(self, x: i32) -> (r: Rect)
        requires
            i32::MIN <= self.width_spec() <= i32::MAX,
            i32::MIN <= x + self.width_spec() <= i32::MAX,
        ensures
            r == (Rect { left: x, right: (x + self.width_spec()) as i32, ..self }),
    {
        Rect { left: x, right: x + self.width(), ..self }
    }

    /// Moves the rectangle horizontally so that its right edge is at `x`.
    pub fn with_right_edge_at(self, x: i32) -> (r: Rect)
        requires
            i32::MIN <= self.width_spec() <= i32::MAX,
            i32::MIN <= x - self.width_spec() <= i32::MAX,
        ensures
            r == (Rect { left: (x - self.width_spec()) as i32, right: x, ..self }),
    {
        Rect { left: x - self.width(), right: x, ..self }
    }

    /// Moves the rectangle vertically so that its top edge is at `y`.
    pub fn with_top_edge_at(self, y: i32) -> (r: Rect)
        requires
            i32::MIN <= self.height_spec() <= i32::MAX,
            i32::MIN <= y + self.height_spec() <= i32::MAX,
        ensures
            r == (Rect { top: y, bottom: (y + self.height_spec()) as i32, ..self }),
    {
        Rect { top: y, bottom: y + self.height(), ..self }
    }

    /// Moves the rectangle horizontally so that its midpoint is at `x`;
    /// an odd width puts the extra unit on the right.
    pub fn with_horizontal_midpoint_at(self, x: i32) -> (r: Rect)
        requires
            i32::MIN <= self.width_spec() <= i32::MAX,
            i32::MIN <= x - div_toward_zero(self.width_spec(), 2) <= i32::MAX,
            i32::MIN <= x - div_toward_zero(self.width_spec(), 2) + self.width_spec() <= i32::MAX,
        ensures
            r.left == x - div_toward_zero(self.width_spec(), 2),
            r.right == r.left + self.width_spec(),
            r.top == self.top,
            r.bottom == self.bottom,
    {
        let (low, high) = centered_span(x, self.width());
        Rect { left: low, right: high, ..self }
    }

    /// Moves the rectangle vertically so that its midpoint is at `y`;
    /// an odd height puts the extra unit at the bottom.
    pub fn with_vertical_midpoint_at(self, y: i32) -> (r: Rect)
        requires
            i32::MIN <= self.height_spec() <= i32::MAX,
            i32::MIN <= y - div_toward_zero(self.height_spec(), 2) <= i32::MAX,
            i32::MIN <= y - div_toward_zero(self.height_spec(), 2) + self.height_spec() <= i32::MAX,
        ensures
            r.top == y - div_toward_zero(self.height_spec(), 2),
            r.bottom == r.top + self.height_spec(),
            r.left == self.left,
            r.right == self.right,
    {
        let (low, high) = centered_span(y, self.height());
        Rect { top: low, bottom: high, ..self }
    }
}

/// The span of length `len` whose midpoint is `mid`, the extra unit of an odd
/// length going after the midpoint.
fn centered_span(mid: i32, len: i32) -> (r: (i32, i32))
    requires
        i32::MIN <= mid - div_toward_zero(len as int, 2) <= i32::MAX,
        i32::MIN <= mid - div_toward_zero(len as int, 2) + len <= i32::MAX,
    ensures
        r.0 == mid - div_toward_zero(len as int, 2),
        r.1 == r.0 + len,
{
    let half: i32 = if len >= 0 { len / 2 } else { -((-(len as i64)) / 2) as i32 };
    assert(half == div_toward_zero(len as int, 2));
    let low: i32 = mid - half;
    let high: i32 = low + len;
    (low, high)
}

impl ScaleBy for Size {
    open spec fn scaled(self, by: ScalingFactor) -> Size {
        Size { cx: self.cx.scaled(by), cy: self.cy.scaled(by) }
    }

    fn scale_by(self, by: ScalingFactor) -> (r: Size) {
        Size { cx: self.cx.scale_by(by), cy: self.cy.scale_by(by) }
    }
}

impl ScaleBy for Rect {
    open spec fn scaled(self, by: ScalingFactor) -> Rect {
        Rect {
            left: self.left.scaled(by),
            top: self.top.scaled(by),
            right: self.right.scaled(by),
            bottom: self.bottom.scaled(by),
        }
    }

    fn scale_by(self, by: ScalingFactor) -> (r: Rect) {
        Rect {
            left: self.left.scale_by(by),
            top: self.top.scale_by(by),
            right: self.right.scale_by(by),
            bottom: self.bottom.scale_by(by),
        }
    }
}

pub trait OptionExt {
    type Target;

    /// The contained value, after inserting the default one if there was none.
    fn get_or_insert_default(&mut self) -> &mut Self::Target;
}

impl<T: Default> OptionExt for Option<T> {
    type Target = T;

    fn get_or_insert_default(&mut self) -> (r: &mut T)
        ensures
            *final(self) == Some(*final(r)),
            *old(self) is Some ==> *r == (*old(self))->0,
    {
        if self.is_none() {
            let value = T::default();
            self.get_or_insert(value)
        } else {
            self.as_mut().unwrap()
        }
    }
}

} // verus!
