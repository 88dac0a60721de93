//! Cube faces and the directions in which their pixels look.
//!
//! A face `size` pixels wide is sampled at pixel centres. Scaled by `size`, the
//! centre of pixel `x` lies at `2x + 1 - size` on an axis that runs from `-size`
//! to `size`, so the direction through a pixel has whole coordinates. Whoever
//! needs it at unit length divides by its length.

use vstd::prelude::*;

verus! {

/// The number of faces of a cube.
pub const FACE_COUNT: u32 = 6;

/// Where the centre of pixel `i` lies on an axis from `-size` to `size`.
pub open spec fn centred(i: int, size: int) -> int {
    2 * i + 1 - size
}

/// The direction through the centre of pixel `(x, y)` of face `face`, scaled by
/// `size`. Faces are numbered +X, -X, +Y, -Y, +Z, -Z; a number beyond them has
/// no direction and yields the zero vector.
pub open spec fn direction_spec(face: int, x: int, y: int, size: int) -> (int, int, int) {
    let a = centred(x, size);
    let b = centred(y, size);
    if face == 0 {
        (size, -b, -a)
    } else if face == 1 {
        (-size, -b, a)
    } else if face == 2 {
        (a, size, b)
    } else if face == 3 {
        (a, -size, -b)
    } else if face == 4 {
        (a, -b, size)
    } else if face == 5 {
        (-a, -b, -size)
    } else {
        (0, 0, 0)
    }
}

/// The direction through the centre of pixel `(x, y)` of face `face`, scaled by `size`.
pub fn cubemap_direction(face: u32, x: u32, y: u32, size: u32) -> (d: (i64, i64, i64))
    ensures
        (d.0 as int, d.1 as int, d.2 as int) == direction_spec(
            face as int,
            x as int,
            y as int,
            size as int,
        ),
{
    let s: i64 = size as i64;
    let a: i64 = 2 * (x as i64) + 1 - s;
    let b: i64 = 2 * (y as i64) + 1 - s;
    if face == 0 {
        (s, -b, -a)
    } else if face == 1 {
        (-s, -b, a)
    } else if face == 2 {
        (a, s, b)
    } else if face == 3 {
        (a, -s, -b)
    } else if face == 4 {
        (a, -b, s)
    } else if face == 5 {
        (-a, -b, -s)
    } else {
        (0, 0, 0)
    }
}

/// The absolute value of `v`.
pub open spec fn abs(v: int) -> int {
    if v < 0 {
        -v
    } else {
        v
    }
}

/// Whether `(face, x, y)` names a pixel of a cube with faces `size` pixels wide.
pub open spec fn is_pixel(face: int, x: int, y: int, size: int) -> bool {
    0 <= face < 6 && 0 <= x < size && 0 <= y < size
}

/// The pixel through whose centre `d` passes, if `d` is the scaled direction of one.
pub open spec fn pixel_of(d: (int, int, int), size: int) -> (int, int, int) {
    if d.0 == size {
        (0, (size - 1 - d.2) / 2, (size - 1 - d.1) / 2)
    } else if d.0 == -size {
        (1, (size - 1 + d.2) / 2, (size - 1 - d.1) / 2)
    } else if d.1 == size {
        (2, (size - 1 + d.0) / 2, (size - 1 + d.2) / 2)
    } else if d.1 == -size {
        (3, (size - 1 + d.0) / 2, (size - 1 - d.2) / 2)
    } else if d.2 == size {
        (4, (size - 1 + d.0) / 2, (size - 1 - d.1) / 2)
    } else {
        (5, (size - 1 - d.0) / 2, (size - 1 - d.1) / 2)
    }
}

/// The direction of a pixel reaches the cube on that pixel's face: one
/// coordinate is `size` or `-size`, and the other two lie strictly between.
pub proof fn lemma_direction_on_face(face: int, x: int, y: int, size: int)
    requires
        is_pixel(face, x, y, size),
    ensures
        ({
            let d = direction_spec(face, x, y, size);
            &&& abs(d.0) <= size && abs(d.1) <= size && abs(d.2) <= size
            &&& (face == 0 || face == 1) ==> abs(d.0) == size && abs(d.1) < size && abs(d.2) < size
            &&& (face == 2 || face == 3) ==> abs(d.1) == size && abs(d.0) < size && abs(d.2) < size
            &&& (face == 4 || face == 5) ==> abs(d.2) == size && abs(d.0) < size && abs(d.1) < size
        }),
{
}

/// Every pixel is found again from its direction.
pub proof fn lemma_pixel_of_direction(face: int, x: int, y: int, size: int)
    requires
        is_pixel(face, x, y, size),
    ensures
        pixel_of(direction_spec(face, x, y, size), size) == (face, x, y),
{
}

/// Different pixels look in different directions.
pub proof fn lemma_directions_differ(f1: int, x1: int, y1: int, f2: int, x2: int, y2: int, size: int)
    requires
        is_pixel(f1, x1, y1, size),
        is_pixel(f2, x2, y2, size),
        direction_spec(f1, x1, y1, size) == direction_spec(f2, x2, y2, size),
    ensures
        f1 == f2 && x1 == x2 && y1 == y2,
{
    lemma_pixel_of_direction(f1, x1, y1, size);
    lemma_pixel_of_direction(f2, x2, y2, size);
}

proof fn lemma_scale_bound(k1: int, k2: int, p: int, q: int, size: int)
    requires
        k1 > 0,
        k2 > 0,
        size > 0,
        abs(p) == size,
        abs(q) <= size,
        k1 * p == k2 * q,
    ensures
        k1 <= k2,
{
    assert(k1 * size <= k2 * size) by (nonlinear_arith)
        requires
            k1 > 0,
            k2 > 0,
            size > 0,
            p == size || p == -size,
            -size <= q <= size,
            k1 * p == k2 * q,
    ;
    assert(k1 <= k2) by (nonlinear_arith)
        requires
            k1 * size <= k2 * size,
            size > 0,
    ;
}

proof fn lemma_cancel(k: int, p: int, q: int)
    requires
        k > 0,
        k * p == k * q,
    ensures
        p == q,
{
    assert(p == q) by (nonlinear_arith)
        requires
            k > 0,
            k * p == k * q,
    ;
}

/// Pixel and unit direction determine each other: where the directions of two
/// pixels are positive multiples of one another, and so agree at unit length,
/// the two are one pixel of one face.
pub proof fn lemma_unit_directions_differ(
    f1: int,
    x1: int,
    y1: int,
    f2: int,
    x2: int,
    y2: int,
    size: int,
    k1: int,
    k2: int,
)
    requires
        is_pixel(f1, x1, y1, size),
        is_pixel(f2, x2, y2, size),
        k1 > 0,
        k2 > 0,
        ({
            let d1 = direction_spec(f1, x1, y1, size);
            let d2 = direction_spec(f2, x2, y2, size);
            k1 * d1.0 == k2 * d2.0 && k1 * d1.1 == k2 * d2.1 && k1 * d1.2 == k2 * d2.2
        }),
    ensures
        f1 == f2 && x1 == x2 && y1 == y2,
{
    let d1 = direction_spec(f1, x1, y1, size);
    let d2 = direction_spec(f2, x2, y2, size);
    lemma_direction_on_face(f1, x1, y1, size);
    lemma_direction_on_face(f2, x2, y2, size);
    if f1 == 0 || f1 == 1 {
        lemma_scale_bound(k1, k2, d1.0, d2.0, size);
    } else if f1 == 2 || f1 == 3 {
        lemma_scale_bound(k1, k2, d1.1, d2.1, size);
    } else {
        lemma_scale_bound(k1, k2, d1.2, d2.2, size);
    }
    if f2 == 0 || f2 == 1 {
        lemma_scale_bound(k2, k1, d2.0, d1.0, size);
    } else if f2 == 2 || f2 == 3 {
        lemma_scale_bound(k2, k1, d2.1, d1.1, size);
    } else {
        lemma_scale_bound(k2, k1, d2.2, d1.2, size);
    }
    assert(k1 == k2);
    lemma_cancel(k1, d1.0, d2.0);
    lemma_cancel(k1, d1.1, d2.1);
    lemma_cancel(k1, d1.2, d2.2);
    lemma_directions_differ(f1, x1, y1, f2, x2, y2, size);
}

} // verus!
