//! Scenarios for the YUV 4:2:0 plane layout used by a readback buffer.

use video_compositor::planes::{plane_dimensions, plane_offset, plane_size, required_buffer_len,
    Plane};

#[test]
fn plane_indices() {
    assert_eq!(Plane::Y.index(), 0);
    assert_eq!(Plane::U.index(), 1);
    assert_eq!(Plane::V.index(), 2);
}

#[test]
fn chroma_planes_halve_each_dimension() {
    assert_eq!(plane_dimensions(640, 480, Plane::Y), (640, 480));
    assert_eq!(plane_dimensions(640, 480, Plane::U), (320, 240));
    assert_eq!(plane_dimensions(640, 480, Plane::V), (320, 240));
}

#[test]
fn offsets_match_the_five_quarters_layout() {
    // for even dimensions: Y at 0, U at w*h, V at w*h*5/4, total w*h*3/2
    assert_eq!(plane_offset(4, 4, Plane::Y), 0);
    assert_eq!(plane_offset(4, 4, Plane::U), 16);
    assert_eq!(plane_offset(4, 4, Plane::V), 20);
    assert_eq!(required_buffer_len(4, 4), 24);
    assert_eq!(plane_offset(640, 480, Plane::V), 640 * 480 * 5 / 4);
    assert_eq!(required_buffer_len(640, 480), 640 * 480 * 3 / 2);
}

#[test]
fn sizes_cover_the_buffer_exactly() {
    let (w, h) = (16, 8);
    let y = plane_size(w, h, Plane::Y);
    let u = plane_size(w, h, Plane::U);
    let v = plane_size(w, h, Plane::V);
    assert_eq!(y, 128);
    assert_eq!(u, 32);
    assert_eq!(v, 32);
    assert_eq!(y + u + v, required_buffer_len(w, h));
    assert_eq!(plane_offset(w, h, Plane::U) + u, plane_offset(w, h, Plane::V));
}

#[test]
fn odd_dimensions_round_the_chroma_planes_down() {
    assert_eq!(plane_dimensions(5, 5, Plane::U), (2, 2));
    assert_eq!(plane_size(5, 5, Plane::U), 4);
    assert_eq!(required_buffer_len(5, 5), 25 + 2 * 4);
}
