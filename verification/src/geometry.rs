//! Integer rectangles in device pixels, and conversion between logical
//! (96 dpi) units and device units.

use vstd::prelude::*;

verus! {

/// Division that rounds toward zero, as integer division does in Rust.
pub open spec fn div_toward_zero(a: int, b: int) -> int
    recommends
        b > 0,
{
    if a >= 0 {
        a / b
    } else {
        -((-a) / b)
    }
}

/// True when `value` is a valid `i32`.
pub open spec fn fits_i32(value: int) -> bool {
    i32::MIN <= value <= i32::MAX
}

/// A rectangle as the platform hands it over: left, top, right and bottom edges.
#[derive(Clone, Copy, Debug, Default, PartialEq, Eq, Structural)]
pub struct Rect {
    pub left: i32,
    pub top: i32,
    pub right: i32,
    pub bottom: i32,
}

/// The rectangle type the settings user interface computes with.
#[derive(Clone, Copy, Debug, Default, PartialEq, Eq, Structural)]
pub struct UiRect {
    pub left: i32,
    pub top: i32,
    pub right: i32,
    pub bottom: i32,
}

impl Rect {
    /// Whether `(x, y)` lies inside the rectangle, edges included.
    pub open spec fn spec_contains(self, x: int, y: int) -> bool {
        self.left <= x <= self.right && self.top <= y <= self.bottom
    }
}

impl UiRect {
    pub open spec fn spec_width(self) -> int {
        self.right - self.left
    }

    pub open spec fn spec_height(self) -> int {
        self.bottom - self.top
    }

    /// Whether `(x, y)` lies inside the rectangle, edges included.
    pub open spec fn spec_contains(self, x: int, y: int) -> bool {
        self.left <= x <= self.right && self.top <= y <= self.bottom
    }

    pub open spec fn spec_offset(self, x: int, y: int) -> UiRect {
        UiRect {
            left: (self.left + x) as i32,
            top: (self.top + y) as i32,
            right: (self.right + x) as i32,
            bottom: (self.bottom + y) as i32,
        }
    }

    pub open spec fn spec_inset(self, x: int, y: int) -> UiRect {
        UiRect {
            left: (self.left + x) as i32,
            top: (self.top + y) as i32,
            right: (self.right - x) as i32,
            bottom: (self.bottom - y) as i32,
        }
    }

    /// The edges moved by `(x, y)` all stay within `i32`.
    pub open spec fn can_offset(self, x: int, y: int) -> bool {
        fits_i32(self.left + x) && fits_i32(self.top + y) && fits_i32(self.right + x)
            && fits_i32(self.bottom + y)
    }

    /// The edges moved inward by `(x, y)` all stay within `i32`.
    pub open spec fn can_inset(self, x: int, y: int) -> bool {
        fits_i32(self.left + x) && fits_i32(self.top + y) && fits_i32(self.right - x)
            && fits_i32(self.bottom - y)
    }

    pub open spec fn spec_to_rect(self) -> Rect {
        Rect { left: self.left, top: self.top, right: self.right, bottom: self.bottom }
    }

    pub open spec fn spec_from_rect(rect: Rect) -> UiRect {
        UiRect { left: rect.left, top: rect.top, right: rect.right, bottom: rect.bottom }
    }

    pub fn new(left: i32, top: i32, right: i32, bottom: i32) -> (r: Self)
        ensures
            r == (UiRect { left, top, right, bottom }),
    {
        Self { left, top, right, bottom }
    }

    pub fn from_size(left: i32, top: i32, width: i32, height: i32) -> (r: Self)
        requires
            fits_i32(left + width),
            fits_i32(top + height),
    ensures
            r == (UiRect { left, top, right: (left + width) as i32, bottom: (top + height) as i32 }),
    {
        Self { left, top, right: left + width, bottom: top + height }
    }

    pub fn width(&self) -> (r: i32)
        requires
            fits_i32(self.spec_width()),
        ensures
            r == self.spec_width(),
    {
        self.right - self.left
    }

    pub fn height(&self) -> (r: i32)
        requires
            fits_i32(self.spec_height()),
        ensures
            r == self.spec_height(),
    {
        self.bottom - self.top
    }

    pub fn center_x(&self) -> (r: i32)
        requires
            fits_i32(self.left + self.right),
        ensures
            r == div_toward_zero(self.left + self.right, 2),
    {
        (self.left + self.right) / 2
    }

    pub fn center_y(&self) -> (r: i32)
        requires
            fits_i32(self.top + self.bottom),
        ensures
            r == div_toward_zero(self.top + self.bottom, 2),
    {
        (self.top + self.bottom) / 2
    }

    pub fn inset(&self, x: i32, y: i32) -> (r: Self)
        requires
            self.can_inset(x as int, y as int),
        ensures
            r == self.spec_inset(x as int, y as int),
    {
        Self { left: self.left + x, top: self.top + y, right: self.right - x, bottom: self.bottom - y }
    }

    pub fn offset(&self, x: i32, y: i32) -> (r: Self)
        requires
            self.can_offset(x as int, y as int),
        ensures
            r == self.spec_offset(x as int, y as int),
    {
        Self { left: self.left + x, top: self.top + y, right: self.right + x, bottom: self.bottom + y }
    }

    pub fn contains(&self, x: i32, y: i32) -> (r: bool)
        ensures
            r == self.spec_contains(x as int, y as int),
    {
        x >= self.left && x <= self.right && y >= self.top && y <= self.bottom
    }

    pub fn to_rect(&self) -> (r: Rect)
        ensures
            r == self.spec_to_rect(),
    {
        Rect { left: self.left, top: self.top, right: self.right, bottom: self.bottom }
    }
}

impl From<Rect> for UiRect {
    fn from(value: Rect) -> (r: Self) {
        UiRect { left: value.left, top: value.top, right: value.right, bottom: value.bottom }
    }
}

impl vstd::std_specs::convert::FromSpecImpl<Rect> for UiRect {
    open spec fn obeys_from_spec() -> bool {
        true
    }

    open spec fn from_spec(value: Rect) -> UiRect {
        UiRect::spec_from_rect(value)
    }
}

impl From<UiRect> for Rect {
    fn from(value: UiRect) -> (r: Self) {
        value.to_rect()
    }
}

impl vstd::std_specs::convert::FromSpecImpl<UiRect> for Rect {
    open spec fn obeys_from_spec() -> bool {
        true
    }

    open spec fn from_spec(value: UiRect) -> Rect {
        value.spec_to_rect()
    }
}

/// The divisor `unscale` uses: the dpi, or 1 where the dpi is not positive.
pub open spec fn dpi_divisor(dpi: int) -> int {
    if dpi <= 0 {
        1
    } else {
        dpi
    }
}

pub open spec fn spec_scale(value: int, dpi: int) -> int {
    div_toward_zero(value * dpi, 96)
}

pub open spec fn spec_unscale(value: int, dpi: int) -> int {
    div_toward_zero(value * 96, dpi_divisor(dpi))
}

pub open spec fn spec_logical_rect(left: int, top: int, right: int, bottom: int, dpi: int) -> UiRect {
    UiRect {
        left: spec_scale(left, dpi) as i32,
        top: spec_scale(top, dpi) as i32,
        right: spec_scale(right, dpi) as i32,
        bottom: spec_scale(bottom, dpi) as i32,
    }
}

/// Converts a length in logical units (96 dpi) to device pixels at `dpi`.
pub fn scale(value: i32, dpi: i32) -> (r: i32)
    requires
        fits_i32(value * dpi),
    ensures
        r == spec_scale(value as int, dpi as int),
{
    value * dpi / 96
}

/// Converts a length in device pixels at `dpi` to logical units (96 dpi).
pub fn unscale(value: i32, dpi: i32) -> (r: i32)
    requires
        fits_i32(value * 96),
    ensures
        r == spec_unscale(value as int, dpi as int),
{
    value * 96 / if dpi <= 0 { 1 } else { dpi }
}

/// Builds a device-pixel rectangle from logical edges.
pub fn logical_rect(left: i32, top: i32, right: i32, bottom: i32, dpi: i32) -> (r: UiRect)
    requires
        fits_i32(left * dpi),
        fits_i32(top * dpi),
        fits_i32(right * dpi),
        fits_i32(bottom * dpi),
    ensures
        r == spec_logical_rect(left as int, top as int, right as int, bottom as int, dpi as int),
{
    UiRect { left: scale(left, dpi), top: scale(top, dpi), right: scale(right, dpi), bottom: scale(bottom, dpi) }
}

/// Moving a rectangle keeps its width and height.
pub proof fn lemma_offset_preserves_size(r: UiRect, x: int, y: int)
    requires
        r.can_offset(x, y),
    ensures
        r.spec_offset(x, y).spec_width() == r.spec_width(),
        r.spec_offset(x, y).spec_height() == r.spec_height(),
{
}

/// A point lies in a rectangle exactly when the point moved by `(x, y)` lies in the
/// rectangle moved by `(x, y)`.
pub proof fn lemma_offset_moves_contained_points(r: UiRect, x: int, y: int, px: int, py: int)
    requires
        r.can_offset(x, y),
    ensures
        r.spec_contains(px, py) == r.spec_offset(x, y).spec_contains(px + x, py + y),
{
}

/// Insetting by `(x, y)` takes `2x` from the width and `2y` from the height.
pub proof fn lemma_inset_shrinks(r: UiRect, x: int, y: int)
    requires
        r.can_inset(x, y),
    ensures
        r.spec_inset(x, y).spec_width() == r.spec_width() - 2 * x,
        r.spec_inset(x, y).spec_height() == r.spec_height() - 2 * y,
{
}

/// Converting to the platform rectangle and back gives the same rectangle.
pub proof fn lemma_rect_round_trip(r: UiRect)
    ensures
        UiRect::spec_from_rect(r.spec_to_rect()) == r,
{
}

/// Scaling at the reference dpi of 96 changes nothing.
pub proof fn lemma_scale_at_reference_dpi(value: int)
    ensures
        spec_scale(value, 96) == value,
        spec_unscale(value, 96) == value,
{
    assert((value * 96) / 96 == value) by (nonlinear_arith);
    assert(((-value) * 96) / 96 == -value) by (nonlinear_arith);
}

} // verus!
