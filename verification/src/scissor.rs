//! Scissor rectangles: from a draw command's clip bounds to the rectangle the
//! device clips against.

use vstd::prelude::*;

verus! {

/// Largest position or size that an SDL3 rectangle holds.
pub const DEVICE_MAX: i32 = 0x3FFF_FFFF;

/// Smallest position that an SDL3 rectangle holds.
pub const DEVICE_MIN: i32 = -0x4000_0000;

/// `v` moved to the nearest value of `lo ..= hi`.
pub open spec fn clamp(v: int, lo: int, hi: int) -> int {
    if v < lo {
        lo
    } else if v > hi {
        hi
    } else {
        v
    }
}

/// A command's clip bounds, snapped outward to whole pixels: the top-left
/// corner rounded down, the size rounded up. A size may be negative.
#[derive(Clone, Copy, Debug, PartialEq, Eq, Structural)]
pub struct ClipBounds {
    pub x: i64,
    pub y: i64,
    pub width: i64,
    pub height: i64,
}

/// The integer rectangle a draw call is clipped to.
#[derive(Clone, Copy, Debug, PartialEq, Eq, Structural)]
pub struct ScissorRect {
    pub x: i32,
    pub y: i32,
    pub width: u32,
    pub height: u32,
}

/// A scissor rectangle as SDL3 represents it: never empty, and small enough
/// that its right and bottom edges fit in an `i32`.
#[derive(Clone, Copy, Debug, PartialEq, Eq, Structural)]
pub struct DeviceRect {
    pub x: i32,
    pub y: i32,
    pub width: u32,
    pub height: u32,
}

/// A scissor position from a snapped clip position: the nearest `i32`.
pub open spec fn scissor_position(v: int) -> int {
    clamp(v, i32::MIN as int, i32::MAX as int)
}

/// A scissor extent from a snapped clip extent: negative extents become zero,
/// the rest the nearest `u32`.
pub open spec fn scissor_extent(v: int) -> int {
    clamp(v, 0, u32::MAX as int)
}

/// The position SDL3 keeps for a requested one.
pub open spec fn device_position(v: int) -> int {
    clamp(v, DEVICE_MIN as int, DEVICE_MAX as int)
}

/// The extent SDL3 keeps for a requested one: at least one pixel.
pub open spec fn device_extent(v: int) -> int {
    clamp(v, 1, DEVICE_MAX as int)
}

fn position_of(v: i64) -> (r: i32)
    ensures
        r == scissor_position(v as int),
{
    if v < -0x8000_0000 {
        -0x8000_0000
    } else if v > 0x7FFF_FFFF {
        0x7FFF_FFFF
    } else {
        v as i32
    }
}

fn extent_of(v: i64) -> (r: u32)
    ensures
        r == scissor_extent(v as int),
{
    if v < 0 {
        0
    } else if v > 0xFFFF_FFFF {
        0xFFFF_FFFF
    } else {
        v as u32
    }
}

impl ClipBounds {
    /// The scissor rectangle for these bounds.
    pub open spec fn scissor_spec(self) -> ScissorRect {
        ScissorRect {
            x: scissor_position(self.x as int) as i32,
            y: scissor_position(self.y as int) as i32,
            width: scissor_extent(self.width as int) as u32,
            height: scissor_extent(self.height as int) as u32,
        }
    }

    /// Computes the scissor rectangle: the position saturates at the ends of
    /// `i32`, a negative size counts as empty.
    pub fn scissor(&self) -> (r: ScissorRect)
        ensures
            r == self.scissor_spec(),
            r.x == scissor_position(self.x as int),
            r.y == scissor_position(self.y as int),
            r.width == scissor_extent(self.width as int),
            r.height == scissor_extent(self.height as int),
    {
        ScissorRect {
            x: position_of(self.x),
            y: position_of(self.y),
            width: extent_of(self.width),
            height: extent_of(self.height),
        }
    }
}

/// `sdl3::rect::Rect::new`, read back through `x`, `y`, `width` and `height`.
/// The contract repeats the clamping that SDL3's rectangle constructor does:
/// positions are kept within `DEVICE_MIN ..= DEVICE_MAX`, sizes within
/// `1 ..= DEVICE_MAX`.
#[verifier::external_body]
fn sdl_rect(x: i32, y: i32, width: u32, height: u32) -> (r: DeviceRect)
    ensures
        r.x == device_position(x as int),
        r.y == device_position(y as int),
        r.width == device_extent(width as int),
        r.height == device_extent(height as int),
{
    let rect = sdl3::rect::Rect::new(x, y, width, height);
    DeviceRect { x: rect.x(), y: rect.y(), width: rect.width(), height: rect.height() }
}

impl ScissorRect {
    /// The rectangle SDL3 makes of this one.
    pub open spec fn device_rect_spec(self) -> DeviceRect {
        DeviceRect {
            x: device_position(self.x as int) as i32,
            y: device_position(self.y as int) as i32,
            width: device_extent(self.width as int) as u32,
            height: device_extent(self.height as int) as u32,
        }
    }

    /// Builds the SDL3 rectangle for this scissor and reports what SDL3 kept
    /// of it.
    pub fn device_rect(&self) -> (r: DeviceRect)
        ensures
            r == self.device_rect_spec(),
            1 <= r.width <= DEVICE_MAX,
            1 <= r.height <= DEVICE_MAX,
            DEVICE_MIN <= r.x <= DEVICE_MAX,
            DEVICE_MIN <= r.y <= DEVICE_MAX,
    {
        sdl_rect(self.x, self.y, self.width, self.height)
    }
}

/// Whatever the clip bounds are, the scissor's width and height are not
/// negative, and neither are those of the rectangle handed to the device,
/// read as signed numbers.
pub proof fn lemma_scissor_size_never_negative(clip: ClipBounds)
    ensures
        scissor_extent(clip.width as int) >= 0,
        scissor_extent(clip.height as int) >= 0,
        0 <= device_extent(scissor_extent(clip.width as int)) <= i32::MAX,
        0 <= device_extent(scissor_extent(clip.height as int)) <= i32::MAX,
{
}

/// Clip bounds that already are a scissor rectangle pass through unchanged.
pub proof fn lemma_scissor_keeps_valid_bounds(clip: ClipBounds)
    requires
        i32::MIN <= clip.x <= i32::MAX,
        i32::MIN <= clip.y <= i32::MAX,
        0 <= clip.width <= u32::MAX,
        0 <= clip.height <= u32::MAX,
    ensures
        clip.scissor_spec().x == clip.x,
        clip.scissor_spec().y == clip.y,
        clip.scissor_spec().width == clip.width,
        clip.scissor_spec().height == clip.height,
{
}

/// A rectangle that SDL3 has kept once, it keeps again unchanged.
pub proof fn lemma_device_rect_is_stable(s: ScissorRect)
    ensures
        ({
            let d = s.device_rect_spec();
            (ScissorRect { x: d.x, y: d.y, width: d.width, height: d.height }).device_rect_spec()
                == d
        }),
{
}

} // verus!
