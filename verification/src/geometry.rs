//! Geometry primitives: points, sizes and rectangles tagged by coordinate space,
//! the scale factor between the two spaces, and per-edge / per-corner values.
//!
//! Every type is generic over its scalar `T`. The arithmetic that the library
//! performs on scalars goes through the operator traits of `std::ops`; contracts
//! speak of a result's value only for scalar types whose operators are
//! specified (`obeys_*_spec`), which the primitive integers are.

use std::marker::PhantomData;
use std::ops::Add;
use std::ops::Div;
use std::ops::Mul;
use std::ops::Sub;
use vstd::prelude::*;
use vstd::std_specs::ops::AddSpec;
use vstd::std_specs::ops::DivSpec;
use vstd::std_specs::ops::MulSpec;
use vstd::std_specs::ops::SubSpec;

verus! {

/// What the library needs of a coordinate type: it is copied freely, has a
/// default (the zero of the primitive number types), converts from a small
/// integer, and is closed under the four arithmetic operators.
pub trait Scalar: Copy + Default + From<u8> + Add<Output = Self> + Sub<Output = Self> + Mul<
    Output = Self,
> + Div<Output = Self> {

}

impl<
    T: Copy + Default + From<u8> + Add<Output = T> + Sub<Output = T> + Mul<Output = T> + Div<
        Output = T,
    >,
> Scalar for T {

}

/// `z` is a value that `T::default()` may return. For the primitive integers
/// this is exactly `z == 0`.
pub open spec fn is_default<T: Default>(z: T) -> bool {
    call_ensures(T::default, (), z)
}

/// The scalar type's addition is specified by `add_spec`.
pub open spec fn adds<T: Add<Output = T>>() -> bool {
    <T as AddSpec<T>>::obeys_add_spec()
}

/// The scalar type's subtraction is specified by `sub_spec`.
pub open spec fn subtracts<T: Sub<Output = T>>() -> bool {
    <T as SubSpec<T>>::obeys_sub_spec()
}

/// The scalar type's multiplication is specified by `mul_spec`.
pub open spec fn multiplies<T: Mul<Output = T>>() -> bool {
    <T as MulSpec<T>>::obeys_mul_spec()
}

/// The scalar type's division is specified by `div_spec`.
pub open spec fn divides<T: Div<Output = T>>() -> bool {
    <T as DivSpec<T>>::obeys_div_spec()
}

/// Logical pixels: the DPI-independent coordinate space of application code.
#[derive(Debug, PartialEq, Eq)]
pub struct LogicalPixels;

/// Device pixels: the coordinate space of the physical framebuffer.
#[derive(Debug, PartialEq, Eq)]
pub struct DevicePixels;

/// A position in the coordinate space `U`.
#[derive(Debug, PartialEq)]
pub struct Point2<U, T> {
    pub x: T,
    pub y: T,
    pub unit: PhantomData<U>,
}

/// An extent in the coordinate space `U`.
#[derive(Debug, PartialEq)]
pub struct Size2<U, T> {
    pub width: T,
    pub height: T,
    pub unit: PhantomData<U>,
}

/// A displacement in the coordinate space `U`.
#[derive(Debug, PartialEq)]
pub struct Vector2<U, T> {
    pub x: T,
    pub y: T,
    pub unit: PhantomData<U>,
}

/// An axis-aligned rectangle in the coordinate space `U`, given by its origin
/// (top-left corner) and size.
#[derive(Debug, PartialEq)]
pub struct Rect2<U, T> {
    pub origin: Point2<U, T>,
    pub size: Size2<U, T>,
}

pub type Point<T> = Point2<LogicalPixels, T>;

pub type Size<T> = Size2<LogicalPixels, T>;

pub type Rect<T> = Rect2<LogicalPixels, T>;

pub type Vector<T> = Vector2<LogicalPixels, T>;

pub type DevicePoint<T> = Point2<DevicePixels, T>;

pub type DeviceSize<T> = Size2<DevicePixels, T>;

pub type DeviceRect<T> = Rect2<DevicePixels, T>;

impl<U, T: Clone> Clone for Point2<U, T> {
    fn clone(&self) -> Self {
        Point2 { x: self.x.clone(), y: self.y.clone(), unit: PhantomData }
    }
}

impl<U, T: Copy> Copy for Point2<U, T> {

}

impl<U, T: Clone> Clone for Size2<U, T> {
    fn clone(&self) -> Self {
        Size2 { width: self.width.clone(), height: self.height.clone(), unit: PhantomData }
    }
}

impl<U, T: Copy> Copy for Size2<U, T> {

}

impl<U, T: Clone> Clone for Vector2<U, T> {
    fn clone(&self) -> Self {
        Vector2 { x: self.x.clone(), y: self.y.clone(), unit: PhantomData }
    }
}

impl<U, T: Copy> Copy for Vector2<U, T> {

}

impl<U, T: Clone> Clone for Rect2<U, T> {
    fn clone(&self) -> Self {
        Rect2 { origin: self.origin.clone(), size: self.size.clone() }
    }
}

impl<U, T: Copy> Copy for Rect2<U, T> {

}

impl<U, T> Point2<U, T> {
    /// The point with the given coordinates, as a specification value.
    pub open spec fn at(x: T, y: T) -> Self {
        Point2 { x, y, unit: PhantomData }
    }

    pub fn new(x: T, y: T) -> (r: Self)
        ensures
            r == Self::at(x, y),
    {
        Point2 { x, y, unit: PhantomData }
    }
}

impl<U, T: Default> Default for Point2<U, T> {
    fn default() -> (r: Self)
        ensures
            is_default(r.x),
            is_default(r.y),
    {
        Point2 { x: T::default(), y: T::default(), unit: PhantomData }
    }
}

impl<U, T> Size2<U, T> {
    /// The size with the given extents, as a specification value.
    pub open spec fn of(width: T, height: T) -> Self {
        Size2 { width, height, unit: PhantomData }
    }

    pub fn new(width: T, height: T) -> (r: Self)
        ensures
            r == Self::of(width, height),
    {
        Size2 { width, height, unit: PhantomData }
    }
}

impl<U, T> Vector2<U, T> {
    pub fn new(x: T, y: T) -> (r: Self)
        ensures
            r.x == x,
            r.y == y,
    {
        Vector2 { x, y, unit: PhantomData }
    }
}

impl<U, T> Rect2<U, T> {
    pub fn new(origin: Point2<U, T>, size: Size2<U, T>) -> (r: Self)
        ensures
            r == (Rect2 { origin, size }),
    {
        Rect2 { origin, size }
    }
}

impl<U, T: Add<Output = T>> Point2<U, T> {
    /// Whether `self + delta` may be computed: both coordinate additions are
    /// within the scalar type's limits.
    pub open spec fn can_translate(self, delta: Self) -> bool {
        self.x.add_req(delta.x) && self.y.add_req(delta.y)
    }

    /// The point `self + delta`, coordinate by coordinate.
    pub open spec fn translated(self, delta: Self) -> Self {
        Point2 { x: self.x.add_spec(delta.x), y: self.y.add_spec(delta.y), unit: PhantomData }
    }

    /// `self` is a result that the scalar's addition may give for `p + delta`.
    /// Where the addition is specified, this is `self == p.translated(delta)`.
    pub open spec fn is_translation_of(self, p: Self, delta: Self) -> bool {
        call_ensures(<T as Add>::add, (p.x, delta.x), self.x) && call_ensures(
            <T as Add>::add,
            (p.y, delta.y),
            self.y,
        )
    }
}

impl<U, T: Copy + Add<Output = T>> Point2<U, T> {
    /// Moves the point by `delta`.
    pub fn translate(self, delta: Self) -> (r: Self)
        requires
            self.can_translate(delta),
        ensures
            r.is_translation_of(self, delta),
            adds::<T>() ==> r == self.translated(delta),
    {
        Point2 { x: self.x + delta.x, y: self.y + delta.y, unit: PhantomData }
    }
}

impl<U, T: Add<Output = T>> Rect2<U, T> {
    /// Whether the rectangle's origin may be moved by `delta`.
    pub open spec fn can_translate(self, delta: Point2<U, T>) -> bool {
        self.origin.can_translate(delta)
    }

    /// The rectangle moved by `delta`; its size is unchanged.
    pub open spec fn translated(self, delta: Point2<U, T>) -> Self {
        Rect2 { origin: self.origin.translated(delta), size: self.size }
    }

    /// `self` is a result of moving `r` by `delta`: the origin is a translation
    /// of `r`'s, the size is `r`'s.
    pub open spec fn is_translation_of(self, r: Self, delta: Point2<U, T>) -> bool {
        self.origin.is_translation_of(r.origin, delta) && self.size == r.size
    }
}

impl<U, T: Copy + Add<Output = T>> Rect2<U, T> {
    /// Moves the rectangle by `delta`, keeping its size.
    pub fn translate(self, delta: Point2<U, T>) -> (r: Self)
        requires
            self.can_translate(delta),
        ensures
            r.is_translation_of(self, delta),
            adds::<T>() ==> r == self.translated(delta),
    {
        Rect2 { origin: self.origin.translate(delta), size: self.size }
    }
}

/// The factor that maps logical pixels to device pixels.
#[derive(Clone, Copy, Debug, PartialEq)]
pub struct ScaleFactor<T>(pub T);

impl<T: Mul<Output = T>> ScaleFactor<T> {
    pub open spec fn can_scale_point(self, p: Point<T>) -> bool {
        p.x.mul_req(self.0) && p.y.mul_req(self.0)
    }

    pub open spec fn can_scale_size(self, s: Size<T>) -> bool {
        s.width.mul_req(self.0) && s.height.mul_req(self.0)
    }

    pub open spec fn can_scale_rect(self, r: Rect<T>) -> bool {
        self.can_scale_point(r.origin) && self.can_scale_size(r.size)
    }

    /// `p` with each coordinate multiplied by the factor.
    pub open spec fn scaled_point(self, p: Point<T>) -> DevicePoint<T> {
        Point2 { x: p.x.mul_spec(self.0), y: p.y.mul_spec(self.0), unit: PhantomData }
    }

    /// `s` with each extent multiplied by the factor.
    pub open spec fn scaled_size(self, s: Size<T>) -> DeviceSize<T> {
        Size2 {
            width: s.width.mul_spec(self.0),
            height: s.height.mul_spec(self.0),
            unit: PhantomData,
        }
    }

    /// `r` with origin and size multiplied by the factor.
    pub open spec fn scaled_rect(self, r: Rect<T>) -> DeviceRect<T> {
        Rect2 { origin: self.scaled_point(r.origin), size: self.scaled_size(r.size) }
    }

    /// `d` is a result that the scalar's multiplication may give for `p`
    /// times the factor. Where the multiplication is specified, this is
    /// `d == self.scaled_point(p)`.
    pub open spec fn scales_point(self, p: Point<T>, d: DevicePoint<T>) -> bool {
        call_ensures(<T as Mul>::mul, (p.x, self.0), d.x) && call_ensures(
            <T as Mul>::mul,
            (p.y, self.0),
            d.y,
        )
    }

    /// As `scales_point`, for the two extents of a size.
    pub open spec fn scales_size(self, s: Size<T>, d: DeviceSize<T>) -> bool {
        call_ensures(<T as Mul>::mul, (s.width, self.0), d.width) && call_ensures(
            <T as Mul>::mul,
            (s.height, self.0),
            d.height,
        )
    }

    /// As `scales_point`, for the origin and the size of a rectangle.
    pub open spec fn scales_rect(self, r: Rect<T>, d: DeviceRect<T>) -> bool {
        self.scales_point(r.origin, d.origin) && self.scales_size(r.size, d.size)
    }
}

impl<T: Div<Output = T>> ScaleFactor<T> {
    pub open spec fn can_unscale_point(self, p: DevicePoint<T>) -> bool {
        p.x.div_req(self.0) && p.y.div_req(self.0)
    }

    pub open spec fn can_unscale_size(self, s: DeviceSize<T>) -> bool {
        s.width.div_req(self.0) && s.height.div_req(self.0)
    }

    pub open spec fn can_unscale_rect(self, r: DeviceRect<T>) -> bool {
        self.can_unscale_point(r.origin) && self.can_unscale_size(r.size)
    }

    /// `p` with each coordinate divided by the factor.
    pub open spec fn unscaled_point(self, p: DevicePoint<T>) -> Point<T> {
        Point2 { x: p.x.div_spec(self.0), y: p.y.div_spec(self.0), unit: PhantomData }
    }

    /// `s` with each extent divided by the factor.
    pub open spec fn unscaled_size(self, s: DeviceSize<T>) -> Size<T> {
        Size2 {
            width: s.width.div_spec(self.0),
            height: s.height.div_spec(self.0),
            unit: PhantomData,
        }
    }

    /// `r` with origin and size divided by the factor.
    pub open spec fn unscaled_rect(self, r: DeviceRect<T>) -> Rect<T> {
        Rect2 { origin: self.unscaled_point(r.origin), size: self.unscaled_size(r.size) }
    }

    /// `l` is a result that the scalar's division may give for `p` divided
    /// by the factor. Where the division is specified, this is
    /// `l == self.unscaled_point(p)`.
    pub open spec fn unscales_point(self, p: DevicePoint<T>, l: Point<T>) -> bool {
        call_ensures(<T as Div>::div, (p.x, self.0), l.x) && call_ensures(
            <T as Div>::div,
            (p.y, self.0),
            l.y,
        )
    }

    /// As `unscales_point`, for the two extents of a size.
    pub open spec fn unscales_size(self, s: DeviceSize<T>, l: Size<T>) -> bool {
        call_ensures(<T as Div>::div, (s.width, self.0), l.width) && call_ensures(
            <T as Div>::div,
            (s.height, self.0),
            l.height,
        )
    }

    /// As `unscales_point`, for the origin and the size of a rectangle.
    pub open spec fn unscales_rect(self, r: DeviceRect<T>, l: Rect<T>) -> bool {
        self.unscales_point(r.origin, l.origin) && self.unscales_size(r.size, l.size)
    }
}

impl<T: Copy + Mul<Output = T>> ScaleFactor<T> {
    /// Logical point to device point.
    pub fn scale_point(&self, p: Point<T>) -> (r: DevicePoint<T>)
        requires
            self.can_scale_point(p),
        ensures
            self.scales_point(p, r),
            multiplies::<T>() ==> r == self.scaled_point(p),
    {
        DevicePoint::new(p.x * self.0, p.y * self.0)
    }

    /// Logical size to device size.
    pub fn scale_size(&self, s: Size<T>) -> (r: DeviceSize<T>)
        requires
            self.can_scale_size(s),
        ensures
            self.scales_size(s, r),
            multiplies::<T>() ==> r == self.scaled_size(s),
    {
        DeviceSize::new(s.width * self.0, s.height * self.0)
    }

    /// Logical rectangle to device rectangle.
    pub fn scale_rect(&self, r: Rect<T>) -> (d: DeviceRect<T>)
        requires
            self.can_scale_rect(r),
        ensures
            self.scales_rect(r, d),
            multiplies::<T>() ==> d == self.scaled_rect(r),
    {
        DeviceRect::new(self.scale_point(r.origin), self.scale_size(r.size))
    }
}

impl<T: Copy + Div<Output = T>> ScaleFactor<T> {
    /// Device point to logical point.
    pub fn unscale_point(&self, p: DevicePoint<T>) -> (r: Point<T>)
        requires
            self.can_unscale_point(p),
        ensures
            self.unscales_point(p, r),
            divides::<T>() ==> r == self.unscaled_point(p),
    {
        Point::new(p.x / self.0, p.y / self.0)
    }

    /// Device size to logical size.
    pub fn unscale_size(&self, s: DeviceSize<T>) -> (r: Size<T>)
        requires
            self.can_unscale_size(s),
        ensures
            self.unscales_size(s, r),
            divides::<T>() ==> r == self.unscaled_size(s),
    {
        Size::new(s.width / self.0, s.height / self.0)
    }

    /// Device rectangle to logical rectangle.
    pub fn unscale_rect(&self, r: DeviceRect<T>) -> (l: Rect<T>)
        requires
            self.can_unscale_rect(r),
        ensures
            self.unscales_rect(r, l),
            divides::<T>() ==> l == self.unscaled_rect(r),
    {
        Rect::new(self.unscale_point(r.origin), self.unscale_size(r.size))
    }
}

/// Scaling then unscaling returns the value it started from, for an integer scalar, a
/// non-zero factor and products within the type's range: `(v * s) / s == v`.
pub proof fn lemma_scale_roundtrip_scalar(v: i64, s: i64)
    requires
        s != 0,
        i64::MIN < v * s <= i64::MAX,
    ensures
        v.mul_req(s),
        v.mul_spec(s).div_req(s),
        v.mul_spec(s).div_spec(s) == v,
{
    let vi: int = v as int;
    let si: int = s as int;
    let m: int = vi * si;
    assert(m as i64 == m);
    if m >= 0 {
        assert(m / si == vi) by (nonlinear_arith)
            requires
                m == vi * si,
                si != 0,
        ;
    } else {
        assert((-m) / si == -vi) by (nonlinear_arith)
            requires
                m == vi * si,
                si != 0,
        ;
    }
}

/// Scale round trip for points: `unscale(scale(p)) == p` over `i64`
/// coordinates, for any non-zero factor whose products stay in range.
pub proof fn lemma_scale_roundtrip_point(scale: ScaleFactor<i64>, p: Point<i64>)
    requires
        scale.0 != 0,
        i64::MIN < p.x * scale.0 <= i64::MAX,
        i64::MIN < p.y * scale.0 <= i64::MAX,
    ensures
        scale.can_scale_point(p),
        scale.can_unscale_point(scale.scaled_point(p)),
        scale.unscaled_point(scale.scaled_point(p)) == p,
{
    lemma_scale_roundtrip_scalar(p.x, scale.0);
    lemma_scale_roundtrip_scalar(p.y, scale.0);
}

/// Scale round trip for sizes: `unscale(scale(s)) == s` over `i64` extents.
pub proof fn lemma_scale_roundtrip_size(scale: ScaleFactor<i64>, s: Size<i64>)
    requires
        scale.0 != 0,
        i64::MIN < s.width * scale.0 <= i64::MAX,
        i64::MIN < s.height * scale.0 <= i64::MAX,
    ensures
        scale.can_scale_size(s),
        scale.can_unscale_size(scale.scaled_size(s)),
        scale.unscaled_size(scale.scaled_size(s)) == s,
{
    lemma_scale_roundtrip_scalar(s.width, scale.0);
    lemma_scale_roundtrip_scalar(s.height, scale.0);
}

/// Scale round trip for rectangles: `unscale(scale(r)) == r` over `i64`.
pub proof fn lemma_scale_roundtrip_rect(scale: ScaleFactor<i64>, r: Rect<i64>)
    requires
        scale.0 != 0,
        i64::MIN < r.origin.x * scale.0 <= i64::MAX,
        i64::MIN < r.origin.y * scale.0 <= i64::MAX,
        i64::MIN < r.size.width * scale.0 <= i64::MAX,
        i64::MIN < r.size.height * scale.0 <= i64::MAX,
    ensures
        scale.can_scale_rect(r),
        scale.can_unscale_rect(scale.scaled_rect(r)),
        scale.unscaled_rect(scale.scaled_rect(r)) == r,
{
    lemma_scale_roundtrip_point(scale, r.origin);
    lemma_scale_roundtrip_size(scale, r.size);
}

/// One value per edge of a rectangle (padding, margin, border widths), in CSS
/// order: top, right, bottom, left.
#[derive(Clone, Copy, Debug, PartialEq)]
pub struct Edges<T> {
    pub top: T,
    pub right: T,
    pub bottom: T,
    pub left: T,
}

impl<T: Copy> Edges<T> {
    /// The same value on all four edges.
    pub fn all(value: T) -> (r: Self)
        ensures
            r == (Edges { top: value, right: value, bottom: value, left: value }),
    {
        Edges { top: value, right: value, bottom: value, left: value }
    }

    /// `vertical` on top and bottom, `horizontal` on left and right.
    pub fn symmetric(vertical: T, horizontal: T) -> (r: Self)
        ensures
            r == (Edges { top: vertical, right: horizontal, bottom: vertical, left: horizontal }),
    {
        Edges { top: vertical, bottom: vertical, left: horizontal, right: horizontal }
    }
}

impl<T: Copy + Add<Output = T>> Edges<T> {
    /// The sum of the left and right edges.
    pub fn horizontal(&self) -> (r: T)
        requires
            self.left.add_req(self.right),
        ensures
            call_ensures(<T as Add>::add, (self.left, self.right), r),
            adds::<T>() ==> r == self.left.add_spec(self.right),
    {
        self.left + self.right
    }

    /// The sum of the top and bottom edges.
    pub fn vertical(&self) -> (r: T)
        requires
            self.top.add_req(self.bottom),
        ensures
            call_ensures(<T as Add>::add, (self.top, self.bottom), r),
            adds::<T>() ==> r == self.top.add_spec(self.bottom),
    {
        self.top + self.bottom
    }
}

impl<T: Default> Edges<T> {
    /// Every edge is a default value of the scalar.
    pub open spec fn is_default(self) -> bool {
        is_default(self.top) && is_default(self.right) && is_default(self.bottom) && is_default(
            self.left,
        )
    }
}

impl<T: Default> Default for Edges<T> {
    fn default() -> (r: Self)
        ensures
            r.is_default(),
    {
        Edges { top: T::default(), right: T::default(), bottom: T::default(), left: T::default() }
    }
}

/// One value per corner of a rectangle (border radii), clockwise from the top
/// left.
#[derive(Clone, Copy, Debug, PartialEq)]
pub struct Corners<T> {
    pub top_left: T,
    pub top_right: T,
    pub bottom_right: T,
    pub bottom_left: T,
}

impl<T: Copy> Corners<T> {
    /// The same value on all four corners.
    pub fn all(value: T) -> (r: Self)
        ensures
            r == (Corners {
                top_left: value,
                top_right: value,
                bottom_right: value,
                bottom_left: value,
            }),
    {
        Corners { top_left: value, top_right: value, bottom_right: value, bottom_left: value }
    }

    /// `top` on both top corners, `bottom` on both bottom corners.
    pub fn top_bottom(top: T, bottom: T) -> (r: Self)
        ensures
            r == (Corners {
                top_left: top,
                top_right: top,
                bottom_right: bottom,
                bottom_left: bottom,
            }),
    {
        Corners { top_left: top, top_right: top, bottom_left: bottom, bottom_right: bottom }
    }
}

impl<T: Default> Corners<T> {
    /// Every corner is a default value of the scalar.
    pub open spec fn is_default(self) -> bool {
        is_default(self.top_left) && is_default(self.top_right) && is_default(self.bottom_right)
            && is_default(self.bottom_left)
    }
}

impl<T: Default> Default for Corners<T> {
    fn default() -> (r: Self)
        ensures
            r.is_default(),
    {
        Corners {
            top_left: T::default(),
            top_right: T::default(),
            bottom_right: T::default(),
            bottom_left: T::default(),
        }
    }
}

/// The two directions of a 2D layout.
#[derive(Clone, Copy, Debug, PartialEq, Eq, Structural)]
pub enum Axis {
    Horizontal,
    Vertical,
}

impl Axis {
    /// The other axis.
    pub open spec fn inverted(self) -> Self {
        match self {
            Axis::Horizontal => Axis::Vertical,
            Axis::Vertical => Axis::Horizontal,
        }
    }

    /// The other axis: horizontal for vertical, vertical for horizontal.
    pub fn invert(self) -> (r: Self)
        ensures
            r == self.inverted(),
    {
        match self {
            Axis::Horizontal => Axis::Vertical,
            Axis::Vertical => Axis::Horizontal,
        }
    }
}

} // verus!
