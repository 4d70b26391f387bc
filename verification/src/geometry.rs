//! Placement of the popup widget under the tray icon.
//!
//! All coordinates are physical pixels. The placement is computed exactly:
//! the horizontal coordinate is held doubled, so that the half pixel of an
//! odd width is not lost, and 64-bit integers leave no room for overflow.
//! Only the narrowing to the 32-bit coordinates of a window position
//! rounds.

use vstd::prelude::*;

verus! {

/// Width of the popup widget window, in pixels.
pub const WIDGET_WIDTH: u32 = 320;

/// Vertical distance between the tray icon's lower edge and the widget.
pub const TRAY_GAP: u32 = 8;

/// Screen rectangle of the tray icon.
#[derive(Clone, Copy, Debug, PartialEq, Eq, Structural)]
pub struct TrayRect {
    pub x: i32,
    pub y: i32,
    pub width: u32,
    pub height: u32,
}

/// An exact placement: the top-left corner of a window before it is
/// narrowed to window coordinates.
#[derive(Clone, Copy, Debug, PartialEq, Eq, Structural)]
pub struct Placement {
    /// Twice the horizontal coordinate. An odd value stands for a
    /// coordinate that ends on half a pixel.
    pub twice_x: i64,
    /// The vertical coordinate.
    pub y: i64,
}

/// Top-left corner of a window, as the windowing system takes it.
#[derive(Clone, Copy, Debug, PartialEq, Eq, Structural)]
pub struct PhysicalPoint {
    pub x: i32,
    pub y: i32,
}

/// Twice the left edge of a window of width `window_width` centred under
/// `rect`; the left edge itself is
/// `rect.x + rect.width / 2 - window_width / 2`.
pub open spec fn twice_centered_x(rect: TrayRect, window_width: u32) -> int {
    2 * rect.x + rect.width - window_width
}

/// Top edge of a window placed `gap` pixels below `rect`.
pub open spec fn below_y(rect: TrayRect, gap: u32) -> int {
    rect.y + rect.height + gap
}

/// Half of `n`, rounded toward zero.
pub open spec fn half_toward_zero(n: int) -> int {
    if n >= 0 {
        n / 2
    } else {
        -((-n) / 2)
    }
}

/// `v` limited to the range of `i32`.
pub open spec fn saturate(v: int) -> int {
    if v < i32::MIN {
        i32::MIN as int
    } else if v > i32::MAX {
        i32::MAX as int
    } else {
        v
    }
}

/// Rounding toward zero is exact on even numbers, stays within half a
/// pixel on odd ones and never moves away from zero.
pub proof fn lemma_half_toward_zero(n: int)
    ensures
        n % 2 == 0 ==> 2 * half_toward_zero(n) == n,
        n % 2 != 0 && n > 0 ==> 2 * half_toward_zero(n) == n - 1,
        n % 2 != 0 && n < 0 ==> 2 * half_toward_zero(n) == n + 1,
        half_toward_zero(-n) == -half_toward_zero(n),
{
}

/// The exact placement of a window of width `window_width` centred under
/// `rect`, `gap` pixels below it.
pub open spec fn placement_of(rect: TrayRect, window_width: u32, gap: u32) -> Placement {
    Placement {
        twice_x: twice_centered_x(rect, window_width) as i64,
        y: below_y(rect, gap) as i64,
    }
}

/// The window's centre is on the tray icon's centre, and its left edge
/// depends on neither the icon's height, nor its vertical position, nor
/// the gap.
pub proof fn lemma_window_is_centered(
    rect: TrayRect,
    other: TrayRect,
    window_width: u32,
    gap: u32,
    other_gap: u32,
)
    requires
        other.x == rect.x,
        other.width == rect.width,
    ensures
        placement_of(rect, window_width, gap).twice_x + window_width == 2 * rect.x + rect.width,
        placement_of(other, window_width, other_gap).twice_x == placement_of(
            rect,
            window_width,
            gap,
        ).twice_x,
{
}

/// The window's top edge is `gap` pixels below the icon's lower edge.
pub proof fn lemma_gap_separates(rect: TrayRect, window_width: u32, gap: u32)
    ensures
        placement_of(rect, window_width, gap).y - rect.y - rect.height == gap,
{
}

/// Moving the tray icon moves the window by the same vector.
pub proof fn lemma_window_follows_the_icon(
    from: TrayRect,
    to: TrayRect,
    window_width: u32,
    gap: u32,
)
    requires
        to.width == from.width,
        to.height == from.height,
    ensures
        placement_of(to, window_width, gap).twice_x - placement_of(from, window_width, gap).twice_x
            == 2 * (to.x - from.x),
        placement_of(to, window_width, gap).y - placement_of(from, window_width, gap).y == to.y
            - from.y,
{
}

/// Widening the window moves its left edge by half of what was added and
/// leaves its top edge where it was.
pub proof fn lemma_wider_window_moves_left(rect: TrayRect, narrow: u32, wide: u32, gap: u32)
    ensures
        placement_of(rect, wide, gap).twice_x - placement_of(rect, narrow, gap).twice_x == -(wide
            - narrow),
        placement_of(rect, wide, gap).y == placement_of(rect, narrow, gap).y,
{
}

/// Computes where a window of width `window_width` goes so that it sits
/// centred under the tray icon, `gap` pixels below it. Results off the
/// screen are returned as they are.
pub fn compute_position(rect: TrayRect, window_width: u32, gap: u32) -> (placement: Placement)
    ensures
        placement == placement_of(rect, window_width, gap),
        placement.twice_x == 2 * rect.x + rect.width - window_width,
        placement.y == rect.y + rect.height + gap,
        placement.y - rect.y - rect.height == gap,
{
    let twice_x: i64 = 2 * (rect.x as i64) + (rect.width as i64) - (window_width as i64);
    let y: i64 = (rect.y as i64) + (rect.height as i64) + (gap as i64);
    Placement { twice_x, y }
}

impl Placement {
    /// Narrows the placement to window coordinates. A half pixel is
    /// dropped toward zero; a coordinate outside the range of `i32`
    /// becomes the nearest bound.
    pub fn to_physical(&self) -> (point: PhysicalPoint)
        ensures
            point.x == saturate(half_toward_zero(self.twice_x as int)),
            point.y == saturate(self.y as int),
    {
        PhysicalPoint { x: saturate_i64(halve_toward_zero(self.twice_x)), y: saturate_i64(self.y) }
    }
}

/// Half of `n`, rounded toward zero.
pub fn halve_toward_zero(n: i64) -> (half: i64)
    ensures
        half == half_toward_zero(n as int),
{
    if n >= 0 {
        n / 2
    } else if n == i64::MIN {
        -4611686018427387904i64
    } else {
        -((-n) / 2)
    }
}

/// `v` as an `i32`, or the bound of `i32` nearest to it.
pub fn saturate_i64(v: i64) -> (r: i32)
    ensures
        r == saturate(v as int),
{
    if v < -2147483648i64 {
        i32::MIN
    } else if v > 2147483647i64 {
        i32::MAX
    } else {
        v as i32
    }
}

} // verus!
