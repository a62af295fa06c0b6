//! Coordinate spaces of the nested backend.
//!
//! The host compositor reports positions on its surface in 24.8 fixed-point
//! units (the wire format of the protocol), and may rotate or flip the
//! backend's surface. This module models positions as raw fixed-point
//! integers, and proves the transform arithmetic that turns a host-surface
//! position into a logical position: the same arithmetic is used for pointer
//! motion, touch points, and cursor-position hints sent back to the host.

use vstd::prelude::*;

verus! {

/// Fixed-point units per pixel (the 24.8 format of the host protocol).
pub const FX_ONE: i64 = 256;

/// Largest window dimension, in pixels, that the backend accepts.
pub const MAX_DIM: i32 = 0x100_0000;

/// Largest magnitude of a fixed-point coordinate the backend accepts.
/// An in-surface coordinate is below `MAX_DIM * FX_ONE`; the slack leaves
/// room for sums and differences of such coordinates.
pub const MAX_COORD: i64 = 0x100_0000_0000;

/// The rotation/flip the host applies to the backend's surface.
#[derive(Copy, Clone, Debug, PartialEq, Eq, Structural)]
pub enum Transform {
    Normal,
    Rotate90,
    Rotate180,
    Rotate270,
    Flipped,
    Flipped90,
    Flipped180,
    Flipped270,
}

/// A size in physical pixels.
#[derive(Copy, Clone, Debug, PartialEq, Eq, Structural)]
pub struct Size {
    pub w: i32,
    pub h: i32,
}

/// A position in 24.8 fixed-point units.
#[derive(Copy, Clone, Debug, PartialEq, Eq, Structural)]
pub struct Point {
    pub x: i64,
    pub y: i64,
}

/// A usable window size: positive and within the accepted range.
pub open spec fn size_in_range(s: Size) -> bool {
    1 <= s.w <= MAX_DIM && 1 <= s.h <= MAX_DIM
}

/// A coordinate whose magnitude leaves room for the transform arithmetic.
pub open spec fn coord_in_range(c: i64) -> bool {
    -MAX_COORD <= c <= MAX_COORD
}

pub open spec fn point_in_range(p: Point) -> bool {
    coord_in_range(p.x) && coord_in_range(p.y)
}

/// Whether the transform swaps the two axes of a size.
pub open spec fn spec_swaps_axes(t: Transform) -> bool {
    match t {
        Transform::Normal => false,
        Transform::Rotate90 => true,
        Transform::Rotate180 => false,
        Transform::Rotate270 => true,
        Transform::Flipped => false,
        Transform::Flipped90 => true,
        Transform::Flipped180 => false,
        Transform::Flipped270 => true,
    }
}

pub open spec fn spec_transform_size(t: Transform, s: Size) -> Size {
    if spec_swaps_axes(t) {
        Size { w: s.h, h: s.w }
    } else {
        s
    }
}

/// The size of the surface as seen after the host's transform.
pub fn transform_size(t: Transform, s: Size) -> (r: Size)
    ensures
        r == spec_transform_size(t, s),
{
    if swaps_axes(t) {
        Size { w: s.h, h: s.w }
    } else {
        Size { w: s.w, h: s.h }
    }
}

pub fn swaps_axes(t: Transform) -> (r: bool)
    ensures
        r == spec_swaps_axes(t),
{
    match t {
        Transform::Rotate90 => true,
        Transform::Rotate270 => true,
        Transform::Flipped90 => true,
        Transform::Flipped270 => true,
        _ => false,
    }
}

pub open spec fn spec_invert(t: Transform) -> Transform {
    match t {
        Transform::Normal => Transform::Normal,
        Transform::Rotate90 => Transform::Rotate270,
        Transform::Rotate180 => Transform::Rotate180,
        Transform::Rotate270 => Transform::Rotate90,
        Transform::Flipped => Transform::Flipped,
        Transform::Flipped90 => Transform::Flipped90,
        Transform::Flipped180 => Transform::Flipped180,
        Transform::Flipped270 => Transform::Flipped270,
    }
}

/// The transform that undoes `t`: rotations invert, flips are their own
/// inverse.
pub fn invert(t: Transform) -> (r: Transform)
    ensures
        r == spec_invert(t),
{
    match t {
        Transform::Normal => Transform::Normal,
        Transform::Rotate90 => Transform::Rotate270,
        Transform::Rotate180 => Transform::Rotate180,
        Transform::Rotate270 => Transform::Rotate90,
        Transform::Flipped => Transform::Flipped,
        Transform::Flipped90 => Transform::Flipped90,
        Transform::Flipped180 => Transform::Flipped180,
        Transform::Flipped270 => Transform::Flipped270,
    }
}

/// The host protocol names the two flipped-rotated variants the opposite way
/// round from how they act on deltas and cursor hints, so both sites that
/// consume a transform for those purposes first swap them.
pub open spec fn spec_swap_flipped_quarter_turns(t: Transform) -> Transform {
    match t {
        Transform::Flipped90 => Transform::Flipped270,
        Transform::Flipped270 => Transform::Flipped90,
        _ => t,
    }
}

pub fn swap_flipped_quarter_turns(t: Transform) -> (r: Transform)
    ensures
        r == spec_swap_flipped_quarter_turns(t),
{
    match t {
        Transform::Flipped90 => Transform::Flipped270,
        Transform::Flipped270 => Transform::Flipped90,
        _ => t,
    }
}

/// The linear part of each transform, applied to a motion delta:
/// how a movement on the host's screen reads in the backend's logical space.
pub open spec fn spec_rotate_delta(t: Transform, dx: int, dy: int) -> (int, int) {
    match t {
        Transform::Normal => (dx, dy),
        Transform::Rotate90 => (-dy, dx),
        Transform::Rotate180 => (-dx, -dy),
        Transform::Rotate270 => (dy, -dx),
        Transform::Flipped => (-dx, dy),
        Transform::Flipped90 => (-dy, -dx),
        Transform::Flipped180 => (dx, -dy),
        Transform::Flipped270 => (dy, dx),
    }
}

pub open spec fn spec_transform_delta(t: Transform, dx: int, dy: int) -> (int, int) {
    spec_rotate_delta(spec_swap_flipped_quarter_turns(t), dx, dy)
}

/// Rotates a relative-motion delta so that "up" in logical space stays "up"
/// on screen regardless of how the host has rotated the surface.
pub fn transform_delta(t: Transform, dx: i64, dy: i64) -> (r: (i64, i64))
    requires
        coord_in_range(dx),
        coord_in_range(dy),
    ensures
        (r.0 as int, r.1 as int) == spec_transform_delta(t, dx as int, dy as int),
        coord_in_range(r.0) && coord_in_range(r.1),
{
    let t = swap_flipped_quarter_turns(t);
    match t {
        Transform::Normal => (dx, dy),
        Transform::Rotate90 => (-dy, dx),
        Transform::Rotate180 => (-dx, -dy),
        Transform::Rotate270 => (dy, -dx),
        Transform::Flipped => (-dx, dy),
        Transform::Flipped90 => (-dy, -dx),
        Transform::Flipped180 => (dx, -dy),
        Transform::Flipped270 => (dy, dx),
    }
}

/// Where a point of the host surface lands in the transformed space whose
/// extent is `bounds` (both in fixed-point units). The linear part agrees
/// with `spec_rotate_delta`; the offset keeps the box `[0, bw] x [0, bh]`
/// mapped onto the transformed box.
pub open spec fn spec_transform_point(t: Transform, p: Point, bw: int, bh: int) -> (int, int) {
    match t {
        Transform::Normal => (p.x as int, p.y as int),
        Transform::Rotate90 => (bh - p.y, p.x as int),
        Transform::Rotate180 => (bw - p.x, bh - p.y),
        Transform::Rotate270 => (p.y as int, bw - p.x),
        Transform::Flipped => (bw - p.x, p.y as int),
        Transform::Flipped90 => (bh - p.y, bw - p.x),
        Transform::Flipped180 => (p.x as int, bh - p.y),
        Transform::Flipped270 => (p.y as int, p.x as int),
    }
}

pub fn transform_point(t: Transform, p: Point, bw: i64, bh: i64) -> (r: Point)
    requires
        point_in_range(p),
        coord_in_range(bw),
        coord_in_range(bh),
    ensures
        (r.x as int, r.y as int) == spec_transform_point(t, p, bw as int, bh as int),
{
    match t {
        Transform::Normal => Point { x: p.x, y: p.y },
        Transform::Rotate90 => Point { x: bh - p.y, y: p.x },
        Transform::Rotate180 => Point { x: bw - p.x, y: bh - p.y },
        Transform::Rotate270 => Point { x: p.y, y: bw - p.x },
        Transform::Flipped => Point { x: bw - p.x, y: p.y },
        Transform::Flipped90 => Point { x: bh - p.y, y: bw - p.x },
        Transform::Flipped180 => Point { x: p.x, y: bh - p.y },
        Transform::Flipped270 => Point { x: p.y, y: p.x },
    }
}

/// A point of the box `[0, bw] x [0, bh]` lands in the transformed box,
/// whose extents are swapped exactly when the transform swaps the axes.
pub proof fn lemma_transform_point_in_box(t: Transform, p: Point, bw: int, bh: int)
    requires
        0 <= p.x <= bw,
        0 <= p.y <= bh,
    ensures
        ({
            let (rx, ry) = spec_transform_point(t, p, bw, bh);
            if spec_swaps_axes(t) {
                0 <= rx <= bh && 0 <= ry <= bw
            } else {
                0 <= rx <= bw && 0 <= ry <= bh
            }
        }),
{
}

/// Transforming a point and then transforming the result by the inverse
/// transform (over the transformed bounds) returns the original point.
pub proof fn lemma_transform_point_round_trip(t: Transform, p: Point, bw: int, bh: int)
    requires
        point_in_range(p),
        -MAX_COORD <= bw <= MAX_COORD,
        -MAX_COORD <= bh <= MAX_COORD,
    ensures
        ({
            let (qx, qy) = spec_transform_point(t, p, bw, bh);
            let (tw, th) = if spec_swaps_axes(t) {
                (bh, bw)
            } else {
                (bw, bh)
            };
            spec_transform_point(spec_invert(t), Point { x: qx as i64, y: qy as i64 }, tw, th)
                == (p.x as int, p.y as int)
        }),
{
}

/// A host-surface position together with everything needed to read it in
/// logical space: the transform and surface size current at translation time.
/// Never stored; always recomputed, so a resize or transform race shows up
/// only as the documented change of output.
#[derive(Copy, Clone, Debug, PartialEq, Eq, Structural)]
pub struct RawAbsolutePosition {
    pub pos: Point,
    pub transform: Transform,
    pub window_size: Size,
}

/// The surface extent in fixed-point units: pixel indices run from 0 to
/// size - 1, so the extent of the box of valid positions is size - 1 pixels.
pub open spec fn spec_fx_bounds(s: Size) -> (int, int) {
    (((s.w - 1) as int) * (FX_ONE as int), ((s.h - 1) as int) * (FX_ONE as int))
}

pub open spec fn spec_position(r: RawAbsolutePosition) -> (int, int) {
    let (bw, bh) = spec_fx_bounds(r.window_size);
    spec_transform_point(r.transform, r.pos, bw, bh)
}

impl RawAbsolutePosition {
    pub open spec fn wf(self) -> bool {
        point_in_range(self.pos) && size_in_range(self.window_size)
    }

    pub fn new(surface_x: i64, surface_y: i64, transform: Transform, window_size: Size) -> (r:
        Self)
        requires
            coord_in_range(surface_x),
            coord_in_range(surface_y),
            size_in_range(window_size),
        ensures
            r == (RawAbsolutePosition {
                pos: Point { x: surface_x, y: surface_y },
                transform,
                window_size,
            }),
            r.wf(),
    {
        RawAbsolutePosition { pos: Point { x: surface_x, y: surface_y }, transform, window_size }
    }

    /// The extent of the box of valid positions, in whole pixels.
    pub fn physical_bounds(self) -> (r: Size)
        requires
            self.wf(),
        ensures
            r.w == self.window_size.w - 1,
            r.h == self.window_size.h - 1,
    {
        Size { w: self.window_size.w - 1, h: self.window_size.h - 1 }
    }

    /// The surface size as seen in logical space, in whole pixels.
    pub fn logical_bounds(self) -> (r: Size)
        requires
            self.wf(),
        ensures
            r == spec_transform_size(self.transform, self.window_size),
    {
        transform_size(self.transform, self.window_size)
    }

    /// The logical position: the raw position carried through the transform,
    /// over the fixed-point extent of the surface.
    pub fn position(self) -> (r: Point)
        requires
            self.wf(),
        ensures
            (r.x as int, r.y as int) == spec_position(self),
    {
        let bw = (self.window_size.w as i64 - 1) * FX_ONE;
        let bh = (self.window_size.h as i64 - 1) * FX_ONE;
        transform_point(self.transform, self.pos, bw, bh)
    }

    pub fn x(self) -> (r: i64)
        requires
            self.wf(),
        ensures
            r as int == spec_position(self).0,
    {
        self.position().x
    }

    pub fn y(self) -> (r: i64)
        requires
            self.wf(),
        ensures
            r as int == spec_position(self).1,
    {
        self.position().y
    }

    /// Whether the raw position lies inside the surface box.
    pub open spec fn in_surface(self) -> bool {
        let (bw, bh) = spec_fx_bounds(self.window_size);
        0 <= self.pos.x <= bw && 0 <= self.pos.y <= bh
    }

    /// The logical x position rescaled from the logical surface width to a
    /// caller-supplied width, in fixed-point units; the division truncates.
    pub fn x_transformed(self, width: i32) -> (r: i64)
        requires
            self.wf(),
            self.in_surface(),
            0 <= width <= MAX_DIM,
        ensures
            r as int == spec_position(self).0 * width as int / spec_transform_size(
                self.transform,
                self.window_size,
            ).w as int,
    {
        let x = self.x();
        let logical = self.logical_bounds();
        proof {
            let (bw, bh) = spec_fx_bounds(self.window_size);
            lemma_transform_point_in_box(self.transform, self.pos, bw, bh);
            lemma_scale_product_bound(x as int, width as int);
        }
        (x * width as i64) / (logical.w as i64)
    }

    /// The logical y position rescaled from the logical surface height to a
    /// caller-supplied height, in fixed-point units; the division truncates.
    pub fn y_transformed(self, height: i32) -> (r: i64)
        requires
            self.wf(),
            self.in_surface(),
            0 <= height <= MAX_DIM,
        ensures
            r as int == spec_position(self).1 * height as int / spec_transform_size(
                self.transform,
                self.window_size,
            ).h as int,
    {
        let y = self.y();
        let logical = self.logical_bounds();
        proof {
            let (bw, bh) = spec_fx_bounds(self.window_size);
            lemma_transform_point_in_box(self.transform, self.pos, bw, bh);
            lemma_scale_product_bound(y as int, height as int);
        }
        (y * height as i64) / (logical.h as i64)
    }
}

/// The product of an in-surface fixed-point coordinate and a pixel
/// dimension stays well inside the 64-bit range.
pub proof fn lemma_scale_product_bound(a: int, b: int)
    by (nonlinear_arith)
    requires
        0 <= a < 0x1_0000_0000,
        0 <= b <= 0x100_0000,
    ensures
        0 <= a * b < 0x100_0000_0000_0000,
{
}

/// Under the identity transform the logical position equals the raw position,
/// for every position inside the surface.
pub proof fn lemma_identity_position(x: i64, y: i64, size: Size)
    requires
        size_in_range(size),
        0 <= x < size.w as int * FX_ONE as int,
        0 <= y < size.h as int * FX_ONE as int,
    ensures
        spec_position(
            RawAbsolutePosition {
                pos: Point { x, y },
                transform: Transform::Normal,
                window_size: size,
            },
        ) == (x as int, y as int),
{
}

} // verus!
