//! Points and rectangles in pixels, and the bit-for-bit conversions between
//! signed and unsigned extents.

use vstd::prelude::*;

verus! {

/// A point in pixels.
#[derive(Clone, Copy, Debug, PartialEq, Eq, Structural)]
pub struct Point {
    pub x: i32,
    pub y: i32,
}

/// A rectangle in pixels, given by its edges.
#[derive(Clone, Copy, Debug, PartialEq, Eq, Structural)]
pub struct Rect {
    pub left: i32,
    pub top: i32,
    pub right: i32,
    pub bottom: i32,
}

/// The signed 32-bit integer that has the same low 32 bits as `value`.
pub open spec fn wrap_i32(value: int) -> int {
    let low = value % 0x1_0000_0000;
    if low < 0x8000_0000 {
        low
    } else {
        low - 0x1_0000_0000
    }
}

/// Reinterprets an unsigned 32-bit value as a signed one, bit for bit.
pub fn reinterpret_i32(value: u32) -> (r: i32)
    ensures
        r == wrap_i32(value as int),
{
    if value < 0x8000_0000u32 {
        value as i32
    } else {
        let high: u32 = value - 0x8000_0000u32;
        let shifted: i32 = high as i32;
        shifted + i32::MIN
    }
}

/// The unsigned 32-bit integer that has the same low 32 bits as `value`.
pub open spec fn wrap_u32(value: int) -> int {
    value % 0x1_0000_0000
}

/// Reinterprets a signed 32-bit value as an unsigned one, bit for bit.
pub fn reinterpret_u32(value: i32) -> (r: u32)
    ensures
        r == wrap_u32(value as int),
        value >= 0 ==> r == value,
        value < 0 ==> r == value + 0x1_0000_0000,
{
    if value >= 0 {
        value as u32
    } else {
        let above: i32 = value - i32::MIN;
        let low: u32 = above as u32;
        low + 0x8000_0000u32
    }
}

/// Reinterpreting a value as signed and back gives the value again.
pub proof fn lemma_reinterpret_round_trip(value: u32)
    ensures
        wrap_u32(wrap_i32(value as int)) == value,
{
}

impl Point {
    /// The point's coordinates as unsigned texel offsets, each carried over
    /// bit for bit.
    pub fn texel_offset(&self) -> (r: (u32, u32))
        ensures
            r.0 == wrap_u32(self.x as int),
            r.1 == wrap_u32(self.y as int),
    {
        (reinterpret_u32(self.x), reinterpret_u32(self.y))
    }
}

impl Rect {
    /// The rectangle's width as a mathematical integer.
    pub open spec fn spec_width(self) -> int {
        self.right - self.left
    }

    /// The rectangle's height as a mathematical integer.
    pub open spec fn spec_height(self) -> int {
        self.bottom - self.top
    }

    /// The rectangle at the origin that a client area of `width` by `height`
    /// occupies. Each extent is carried over bit for bit.
    pub fn from_client_size(width: u32, height: u32) -> (r: Rect)
        ensures
            r.left == 0,
            r.top == 0,
            r.right == wrap_i32(width as int),
            r.bottom == wrap_i32(height as int),
    {
        Rect { left: 0, top: 0, right: reinterpret_i32(width), bottom: reinterpret_i32(height) }
    }

    /// Width and height of the rectangle, where both fit in a signed 32-bit
    /// integer.
    pub open spec fn extent_of(self) -> Option<(i32, i32)> {
        if i32::MIN <= self.spec_width() <= i32::MAX && i32::MIN <= self.spec_height()
            <= i32::MAX {
            Some((self.spec_width() as i32, self.spec_height() as i32))
        } else {
            None
        }
    }

    /// Width and height of the rectangle, or `None` where either does not fit
    /// in a signed 32-bit integer.
    pub fn extent(&self) -> (r: Option<(i32, i32)>)
        ensures
            r == self.extent_of(),
    {
        match (self.right.checked_sub(self.left), self.bottom.checked_sub(self.top)) {
            (Some(width), Some(height)) => Some((width, height)),
            _ => None,
        }
    }
}

} // verus!
