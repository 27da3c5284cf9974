//! Faces of an axis-aligned cube.
//!
//! A cube has six faces: 0 the +X face, 1 the -X face, 2 the +Y face, 3 the
//! -Y face, 4 the +Z (front) face and 5 the -Z (back) face.  Face `f` lies
//! across the axis `f / 2` (0 for x, 1 for y, 2 for z), on its high side when
//! `f` is even and on its low side when `f` is odd.
//!
//! A hit point is tested against the faces axis by axis, x then y then z, and
//! on each axis the low plane before the high one: -X, +X, -Y, +Y, -Z, +Z.
use vstd::prelude::*;

verus! {

/// Number of faces of a cube.
pub const FACE_COUNT: u8 = 6;

/// One of the three coordinate axes.
#[derive(Clone, Copy, Debug, PartialEq, Eq, Structural)]
pub enum Axis {
    X,
    Y,
    Z,
}

/// Number of an axis: 0 for x, 1 for y, 2 for z.
pub open spec fn axis_index(a: Axis) -> int {
    match a {
        Axis::X => 0,
        Axis::Y => 1,
        Axis::Z => 2,
    }
}

/// The axis that face `f` lies across.
pub open spec fn face_axis(f: int) -> int {
    f / 2
}

/// Whether face `f` lies on the high side of its axis.
pub open spec fn face_is_high(f: int) -> bool {
    f % 2 == 0
}

/// Component `c` (0 for x, 1 for y, 2 for z) of the outward unit normal of
/// face `f`: plus or minus one along the face's axis, zero along the others.
pub open spec fn normal_component(f: int, c: int) -> int {
    if c == face_axis(f) {
        if face_is_high(f) {
            1
        } else {
            -1
        }
    } else {
        0
    }
}

/// Position of face `f` in the order in which a hit point is tested against
/// the faces: -X, +X, -Y, +Y, -Z, +Z.  The low face (odd number) of an axis
/// comes just before the high face (even number) of the same axis.
pub open spec fn test_rank(f: int) -> int {
    if f % 2 == 1 {
        f - 1
    } else {
        f + 1
    }
}

/// The face that a hit point lies on, given for each face (indexed by face
/// number) whether the point lies within tolerance of that face's plane: the
/// first near face in test order (-X, +X, -Y, +Y, -Z, +Z), or `None` when no
/// plane is near.
pub fn hit_face(near: &[bool; 6]) -> (face: Option<u8>)
    ensures
        match face {
            Some(f) => {
                &&& f < FACE_COUNT
                &&& near@[f as int]
                &&& forall|g: int|
                    0 <= g < FACE_COUNT && #[trigger] test_rank(g) < test_rank(f as int) ==> !near@[g]
            },
            None => forall|g: int| 0 <= g < FACE_COUNT ==> !near@[g],
        },
        // x planes come first, the low one (-X, face 1) before the high one.
        near@[1] ==> face == Some(1u8),
        !near@[1] && near@[0] ==> face == Some(0u8),
        // then the y planes, -Y (face 3) before +Y (face 2),
        !near@[1] && !near@[0] && near@[3] ==> face == Some(3u8),
        !near@[1] && !near@[0] && !near@[3] && near@[2] ==> face == Some(2u8),
        // then the z planes, -Z (face 5) before +Z (face 4).
        !near@[1] && !near@[0] && !near@[3] && !near@[2] && near@[5] ==> face == Some(5u8),
        !near@[1] && !near@[0] && !near@[3] && !near@[2] && !near@[5] && near@[4] ==> face == Some(4u8),
{
    let mut rank: u8 = 0;
    while rank < FACE_COUNT
        invariant
            rank <= FACE_COUNT,
            forall|g: int| 0 <= g < FACE_COUNT && #[trigger] test_rank(g) < rank ==> !near@[g],
        decreases FACE_COUNT - rank,
    {
        // The face tested at this rank: the low face of the axis on even
        // ranks, the high face on odd ones.
        let f: u8 = if rank % 2 == 0 { rank + 1 } else { rank - 1 };
        assert(test_rank(f as int) == rank);
        if near[f as usize] {
            proof {
                assert(test_rank(0) == 1 && test_rank(1) == 0 && test_rank(2) == 3);
                assert(test_rank(3) == 2 && test_rank(4) == 5 && test_rank(5) == 4);
            }
            return Some(f);
        }
        rank = rank + 1;
    }
    assert forall|g: int| 0 <= g < FACE_COUNT implies !near@[g] by {
        assert(test_rank(g) < FACE_COUNT);
    }
    None
}

/// The test order goes axis by axis, x then y then z, and on each axis the
/// low plane before the high one: face `f` is tested before face `g` exactly
/// when `f` lies across an earlier axis, or across the same axis on its low
/// side while `g` lies on its high side.
pub proof fn lemma_test_order_is_axis_then_low_side(f: int, g: int)
    requires
        0 <= f < FACE_COUNT,
        0 <= g < FACE_COUNT,
    ensures
        test_rank(f) < test_rank(g) <==> (face_axis(f) < face_axis(g) || (face_axis(f)
            == face_axis(g) && !face_is_high(f) && face_is_high(g))),
        0 <= test_rank(f) < FACE_COUNT,
        test_rank(f) == test_rank(g) ==> f == g,
{
}

/// The outward unit normal of a face, as its x, y and z components; the zero
/// vector for no face, or for a number that names no face.
pub fn face_normal(face: Option<u8>) -> (n: (i8, i8, i8))
    ensures
        match face {
            Some(f) if f < FACE_COUNT => {
                &&& n.0 == normal_component(f as int, 0)
                &&& n.1 == normal_component(f as int, 1)
                &&& n.2 == normal_component(f as int, 2)
            },
            _ => n == (0i8, 0i8, 0i8),
        },
{
    match face {
        Some(0) => (1, 0, 0),
        Some(1) => (-1, 0, 0),
        Some(2) => (0, 1, 0),
        Some(3) => (0, -1, 0),
        Some(4) => (0, 0, 1),
        Some(5) => (0, 0, -1),
        _ => (0, 0, 0),
    }
}

/// One texture coordinate of a point on a face, read off one axis of the
/// point's cube-local position (its offset from the cube's center divided by
/// the cube's size, so that each coordinate lies in [-0.5, 0.5] and each face
/// shows the whole texture): `0.5 + p` when not flipped, `0.5 - p` when
/// flipped, where `p` is the local position along `axis`.
#[derive(Clone, Copy, Debug, PartialEq, Eq, Structural)]
pub struct TexAxis {
    pub axis: Axis,
    pub flipped: bool,
}

/// The axes from which the texture coordinates (u, v) of a point on face `f`
/// are read, for each of the six faces.
pub open spec fn face_tex_axes(f: int) -> (TexAxis, TexAxis) {
    if f == 0 {
        (TexAxis { axis: Axis::Z, flipped: false }, TexAxis { axis: Axis::Y, flipped: true })
    } else if f == 1 {
        (TexAxis { axis: Axis::Z, flipped: true }, TexAxis { axis: Axis::Y, flipped: true })
    } else if f == 2 {
        (TexAxis { axis: Axis::X, flipped: false }, TexAxis { axis: Axis::Z, flipped: false })
    } else if f == 3 {
        (TexAxis { axis: Axis::X, flipped: false }, TexAxis { axis: Axis::Z, flipped: true })
    } else if f == 4 {
        (TexAxis { axis: Axis::X, flipped: false }, TexAxis { axis: Axis::Y, flipped: true })
    } else {
        (TexAxis { axis: Axis::X, flipped: true }, TexAxis { axis: Axis::Y, flipped: true })
    }
}

/// The axes from which the texture coordinates (u, v) of a point on `face` are
/// read, so that each face shows the whole texture; `None` for a number that
/// names no face, where the cube's own (u, v) of the point are used instead.
pub fn face_uv_axes(face: u8) -> (axes: Option<(TexAxis, TexAxis)>)
    ensures
        face < FACE_COUNT ==> axes == Some(face_tex_axes(face as int)),
        face >= FACE_COUNT ==> axes is None,
{
    match face {
        0 => Some((TexAxis { axis: Axis::Z, flipped: false }, TexAxis { axis: Axis::Y, flipped: true })),
        1 => Some((TexAxis { axis: Axis::Z, flipped: true }, TexAxis { axis: Axis::Y, flipped: true })),
        2 => Some((TexAxis { axis: Axis::X, flipped: false }, TexAxis { axis: Axis::Z, flipped: false })),
        3 => Some((TexAxis { axis: Axis::X, flipped: false }, TexAxis { axis: Axis::Z, flipped: true })),
        4 => Some((TexAxis { axis: Axis::X, flipped: false }, TexAxis { axis: Axis::Y, flipped: true })),
        5 => Some((TexAxis { axis: Axis::X, flipped: true }, TexAxis { axis: Axis::Y, flipped: true })),
        _ => None,
    }
}

/// The normal of every face is a unit vector along that face's axis: exactly
/// one component is nonzero, and it is plus or minus one.
pub proof fn lemma_face_normal_is_unit_axis(f: int)
    requires
        0 <= f < FACE_COUNT,
    ensures
        normal_component(f, 0) * normal_component(f, 0) + normal_component(f, 1) * normal_component(f, 1)
            + normal_component(f, 2) * normal_component(f, 2) == 1,
        forall|c: int| 0 <= c < 3 ==> (#[trigger] normal_component(f, c) != 0 <==> c == face_axis(f)),
        forall|c: int| 0 <= c < 3 && c == face_axis(f) ==> #[trigger] normal_component(f, c) == 1
            || normal_component(f, c) == -1,
{
}

/// The texture of every face is laid out in that face's plane: the u and v
/// coordinates are read off two different axes, and neither is the axis that
/// the face lies across (the axis of its normal).
pub proof fn lemma_face_texture_in_face_plane(f: int)
    requires
        0 <= f < FACE_COUNT,
    ensures
        axis_index(face_tex_axes(f).0.axis) != axis_index(face_tex_axes(f).1.axis),
        axis_index(face_tex_axes(f).0.axis) != face_axis(f),
        axis_index(face_tex_axes(f).1.axis) != face_axis(f),
        normal_component(f, axis_index(face_tex_axes(f).0.axis)) == 0,
        normal_component(f, axis_index(face_tex_axes(f).1.axis)) == 0,
{
}

} // verus!
