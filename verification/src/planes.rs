//! Planes of a planar YUV 4:2:0 image and their layout in a readback buffer.
//!
//! A frame of width `w` and height `h` stores its luma plane at full
//! resolution and its two chroma planes at half resolution in each
//! dimension, one after the other: Y at offset 0, U after the `w * h` luma
//! bytes, V after the chroma bytes of U. For even dimensions the V plane
//! therefore starts at `w * h * 5 / 4` and the whole image takes
//! `w * h * 3 / 2` bytes — the constants a renderer needs when it copies the
//! planes out of its render target.

use vstd::prelude::*;

verus! {

/// A plane of a planar YUV 4:2:0 image.
#[derive(Debug, Clone, Copy, PartialEq, Eq, Structural)]
pub enum Plane {
    Y,
    U,
    V,
}

impl Plane {
    /// The plane's position among a render target's framebuffers: luma
    /// first, then the two chroma planes.
    pub open spec fn spec_index(self) -> int {
        match self {
            Plane::Y => 0,
            Plane::U => 1,
            Plane::V => 2,
        }
    }

    /// The plane's position among a render target's framebuffers.
    pub fn index(self) -> (i: usize)
        ensures
            i == self.spec_index(),
            i < 3,
    {
        match self {
            Plane::Y => 0,
            Plane::U => 1,
            Plane::V => 2,
        }
    }
}

/// How many bytes the plane holds for a `w` by `h` image: the chroma planes
/// have half the width and half the height.
pub open spec fn spec_plane_size(w: int, h: int, plane: Plane) -> int {
    match plane {
        Plane::Y => w * h,
        Plane::U => (w / 2) * (h / 2),
        Plane::V => (w / 2) * (h / 2),
    }
}

/// Where the plane starts in a buffer holding the planes in Y, U, V order.
pub open spec fn spec_plane_offset(w: int, h: int, plane: Plane) -> int {
    match plane {
        Plane::Y => 0,
        Plane::U => w * h,
        Plane::V => w * h + (w / 2) * (h / 2),
    }
}

/// How many bytes a whole `w` by `h` image takes: all three planes.
pub open spec fn spec_buffer_len(w: int, h: int) -> int {
    w * h + 2 * ((w / 2) * (h / 2))
}

/// The width and height of the plane for a `width` by `height` image.
pub fn plane_dimensions(width: usize, height: usize, plane: Plane) -> (r: (usize, usize))
    ensures
        r.0 == (if plane is Y { width as int } else { width as int / 2 }),
        r.1 == (if plane is Y { height as int } else { height as int / 2 }),
{
    match plane {
        Plane::Y => (width, height),
        Plane::U => (width / 2, height / 2),
        Plane::V => (width / 2, height / 2),
    }
}

/// How many bytes the plane holds for a `width` by `height` image.
pub fn plane_size(width: usize, height: usize, plane: Plane) -> (r: usize)
    requires
        (width as int) * (height as int) <= usize::MAX as int,
    ensures
        r == spec_plane_size(width as int, height as int, plane),
{
    proof {
        lemma_chroma_size_bound(width as int, height as int);
    }
    match plane {
        Plane::Y => width * height,
        Plane::U => (width / 2) * (height / 2),
        Plane::V => (width / 2) * (height / 2),
    }
}

/// Where the plane starts in a readback buffer holding Y, then U, then V.
pub fn plane_offset(width: usize, height: usize, plane: Plane) -> (r: usize)
    requires
        (width as int) * (height as int) <= usize::MAX as int / 2,
    ensures
        r == spec_plane_offset(width as int, height as int, plane),
{
    proof {
        lemma_chroma_size_bound(width as int, height as int);
    }
    match plane {
        Plane::Y => 0,
        Plane::U => width * height,
        Plane::V => width * height + (width / 2) * (height / 2),
    }
}

/// How many bytes a buffer must hold for all three planes of a `width` by
/// `height` image; a renderer must not read an image back into anything
/// shorter.
pub fn required_buffer_len(width: usize, height: usize) -> (r: usize)
    requires
        (width as int) * (height as int) <= usize::MAX as int / 2,
    ensures
        r == spec_buffer_len(width as int, height as int),
{
    proof {
        lemma_chroma_size_bound(width as int, height as int);
    }
    width * height + 2 * ((width / 2) * (height / 2))
}

/// The chroma planes never outgrow the luma plane.
proof fn lemma_chroma_size_bound(w: int, h: int)
    requires
        0 <= w,
        0 <= h,
    ensures
        0 <= (w / 2) * (h / 2),
        2 * ((w / 2) * (h / 2)) <= w * h,
{
    assert(0 <= (w / 2) * (h / 2) && 2 * ((w / 2) * (h / 2)) <= w * h) by (nonlinear_arith)
        requires
            0 <= w,
            0 <= h,
    ;
}

/// For even dimensions the plane layout matches the closed forms a renderer
/// computes: the V plane starts at five quarters of the luma size and the
/// whole image takes three halves of it.
pub proof fn lemma_yuv420_layout(w: int, h: int)
    requires
        0 <= w,
        0 <= h,
        w % 2 == 0,
        h % 2 == 0,
    ensures
        spec_plane_offset(w, h, Plane::V) == (w * h * 5) / 4,
        spec_buffer_len(w, h) == (w * h * 3) / 2,
{
    let a = w / 2;
    let b = h / 2;
    assert(w == 2 * a);
    assert(h == 2 * b);
    assert((2 * a) * (2 * b) == 4 * (a * b) && ((2 * a) * (2 * b) * 5) / 4 == 5 * (a * b) && ((2
        * a) * (2 * b) * 3) / 2 == 6 * (a * b)) by (nonlinear_arith)
        requires
            0 <= a,
            0 <= b,
    ;
    assert(spec_plane_offset(w, h, Plane::V) == 4 * (a * b) + a * b);
    assert(spec_buffer_len(w, h) == 4 * (a * b) + 2 * (a * b));
}

} // verus!
