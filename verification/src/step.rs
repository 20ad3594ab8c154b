//! ISO 10303-21 (STEP, AP-214) boundary representation of a rectangular
//! single-crystal sapphire waveguide: 8 corner points and vertices, 12
//! edges, 6 planar faces, one closed shell and one manifold solid.
//!
//! Entity numbers: points #1-#8, vertices #9-#16, edge `e` uses #17+4e to
//! #20+4e, face `f` uses #65+8f to #72+8f, the shell is #113 and the solid
//! #114. Each face's edge loop lists the edge curves of its four sides.
//! Coordinates arrive already printed (fifteen decimals).

use vstd::prelude::*;
use crate::bytes::{concat_items, dec, push_dec, push_str, txt};

verus! {

/// A printed unit-vector component: `1.0`, `0.0` or `-1.0` to fifteen decimals.
pub open spec fn unit_txt(k: int) -> Seq<u8> {
    if k > 0 {
        txt("1.000000000000000")
    } else if k < 0 {
        txt("-1.000000000000000")
    } else {
        txt("0.000000000000000")
    }
}

/// Printed coordinates of corner `i`: x is the length on corners 1, 2, 5, 6;
/// y the width on 2, 3, 6, 7; z the height on 4 to 7; zero otherwise.
pub open spec fn corner_x(i: nat, l: Seq<u8>) -> Seq<u8> {
    if i % 4 == 1 || i % 4 == 2 { l } else { txt("0.000000000000000") }
}

pub open spec fn corner_y(i: nat, w: Seq<u8>) -> Seq<u8> {
    if i % 4 == 2 || i % 4 == 3 { w } else { txt("0.000000000000000") }
}

pub open spec fn corner_z(i: nat, h: Seq<u8>) -> Seq<u8> {
    if i >= 4 { h } else { txt("0.000000000000000") }
}

/// `(x, y, z)` printed as a STEP coordinate list.
pub open spec fn triple(x: Seq<u8>, y: Seq<u8>, z: Seq<u8>) -> Seq<u8> {
    txt("(") + x + txt(", ") + y + txt(", ") + z + txt(")")
}

/// Start vertex of edge `e`: bottom ring 0-1-2-3, verticals 0-4 .. 3-7,
/// top ring 4-5-6-7.
pub open spec fn edge_start(e: nat) -> nat {
    if e < 4 { e } else { (e - 4) as nat }
}

/// End vertex of edge `e`.
pub open spec fn edge_end(e: nat) -> nat {
    if e < 4 {
        (e + 1) % 4
    } else if e < 8 {
        e
    } else {
        (4 + (e - 7) % 4) as nat
    }
}

/// Direction of edge `e` along x, y, z (each -1, 0 or 1).
pub open spec fn edge_dir(e: nat, axis: nat) -> int {
    if 4 <= e < 8 {
        if axis == 2 { 1 } else { 0 }
    } else if e % 4 == 0 {
        if axis == 0 { 1 } else { 0 }
    } else if e % 4 == 1 {
        if axis == 1 { 1 } else { 0 }
    } else if e % 4 == 2 {
        if axis == 0 { -1 } else { 0 }
    } else {
        if axis == 1 { -1 } else { 0 }
    }
}

/// First corner of face `f` (bottom, top, y=0, x=l, y=w, x=0).
pub open spec fn face_origin(f: nat) -> nat {
    if f == 0 { 0 } else if f == 1 { 4 } else { (f - 2) as nat }
}

/// Outward normal of face `f` along x, y, z.
pub open spec fn face_normal(f: nat, axis: nat) -> int {
    if f == 0 {
        if axis == 2 { -1 } else { 0 }
    } else if f == 1 {
        if axis == 2 { 1 } else { 0 }
    } else if f == 2 {
        if axis == 1 { -1 } else { 0 }
    } else if f == 3 {
        if axis == 0 { 1 } else { 0 }
    } else if f == 4 {
        if axis == 1 { 1 } else { 0 }
    } else {
        if axis == 0 { -1 } else { 0 }
    }
}

/// Position of corner `i` on the unit box along `axis` (x, y, z): corners
/// 0-3 run (0,0), (1,0), (1,1), (0,1) in the bottom plane, 4-7 repeat them
/// in the top plane; the document scales x, y, z by the length, width and
/// height.
pub open spec fn corner_unit(i: nat, axis: nat) -> int {
    let b = i % 4;
    if axis == 0 {
        if b == 1 || b == 2 { 1 } else { 0 }
    } else if axis == 1 {
        if b >= 2 { 1 } else { 0 }
    } else {
        if i >= 4 { 1 } else { 0 }
    }
}

/// Corner `c` is one of the four corners of face `f`.
pub open spec fn on_face(f: nat, c: nat) -> bool {
    c == face_corner(f, 0) || c == face_corner(f, 1) || c == face_corner(f, 2) || c == face_corner(f, 3)
}

/// Dot product of face `f`'s normal with the offset from the face's origin
/// corner to corner `c`, on the unit box.
pub open spec fn normal_dot(f: nat, c: nat) -> int {
    face_normal(f, 0) * (corner_unit(c, 0) - corner_unit(face_origin(f), 0))
        + face_normal(f, 1) * (corner_unit(c, 1) - corner_unit(face_origin(f), 1))
        + face_normal(f, 2) * (corner_unit(c, 2) - corner_unit(face_origin(f), 2))
}

/// Law: the printed corners are the unit-box corners scaled by the
/// dimensions, each face's origin is one of its corners, and every face
/// normal points out of the solid: it is orthogonal to the face (zero dot
/// product with the face's own corners) and has a negative dot product with
/// the offset to every corner off the face.
pub proof fn lemma_face_normals_outward(f: nat, c: nat, l: Seq<u8>, w: Seq<u8>, h: Seq<u8>)
    requires
        f < 6,
        c < 8,
    ensures
        corner_x(c, l) == (if corner_unit(c, 0) == 1 { l } else { txt("0.000000000000000") }),
        corner_y(c, w) == (if corner_unit(c, 1) == 1 { w } else { txt("0.000000000000000") }),
        corner_z(c, h) == (if corner_unit(c, 2) == 1 { h } else { txt("0.000000000000000") }),
        face_origin(f) == face_corner(f, 0),
        on_face(f, c) ==> normal_dot(f, c) == 0,
        !on_face(f, c) ==> normal_dot(f, c) < 0,
{
    if f == 0 {
        assert(face_origin(0) == 0);
        assert(face_corner(0, 0) == 0);
        assert(face_corner(0, 1) == 3);
        assert(face_corner(0, 2) == 2);
        assert(face_corner(0, 3) == 1);
        assert(face_normal(0, 0) == 0);
        assert(face_normal(0, 1) == 0);
        assert(face_normal(0, 2) == -1);
        assert(corner_unit(0, 0) == 0);
        assert(corner_unit(0, 1) == 0);
        assert(corner_unit(0, 2) == 0);
        if c == 0 {
            assert(corner_unit(0, 0) == 0);
            assert(corner_unit(0, 1) == 0);
            assert(corner_unit(0, 2) == 0);
            assert(normal_dot(0, 0) == (0) * (0 - 0) + (0) * (0 - 0) + (-1) * (0 - 0));
            assert(normal_dot(0, 0) == 0);
        } else if c == 1 {
            assert(corner_unit(1, 0) == 1);
            assert(corner_unit(1, 1) == 0);
            assert(corner_unit(1, 2) == 0);
            assert(normal_dot(0, 1) == (0) * (1 - 0) + (0) * (0 - 0) + (-1) * (0 - 0));
            assert(normal_dot(0, 1) == 0);
        } else if c == 2 {
            assert(corner_unit(2, 0) == 1);
            assert(corner_unit(2, 1) == 1);
            assert(corner_unit(2, 2) == 0);
            assert(normal_dot(0, 2) == (0) * (1 - 0) + (0) * (1 - 0) + (-1) * (0 - 0));
            assert(normal_dot(0, 2) == 0);
        } else if c == 3 {
            assert(corner_unit(3, 0) == 0);
            assert(corner_unit(3, 1) == 1);
            assert(corner_unit(3, 2) == 0);
            assert(normal_dot(0, 3) == (0) * (0 - 0) + (0) * (1 - 0) + (-1) * (0 - 0));
            assert(normal_dot(0, 3) == 0);
        } else if c == 4 {
            assert(corner_unit(4, 0) == 0);
            assert(corner_unit(4, 1) == 0);
            assert(corner_unit(4, 2) == 1);
            assert(normal_dot(0, 4) == (0) * (0 - 0) + (0) * (0 - 0) + (-1) * (1 - 0));
            assert(normal_dot(0, 4) == -1);
        } else if c == 5 {
            assert(corner_unit(5, 0) == 1);
            assert(corner_unit(5, 1) == 0);
            assert(corner_unit(5, 2) == 1);
            assert(normal_dot(0, 5) == (0) * (1 - 0) + (0) * (0 - 0) + (-1) * (1 - 0));
            assert(normal_dot(0, 5) == -1);
        } else if c == 6 {
            assert(corner_unit(6, 0) == 1);
            assert(corner_unit(6, 1) == 1);
            assert(corner_unit(6, 2) == 1);
            assert(normal_dot(0, 6) == (0) * (1 - 0) + (0) * (1 - 0) + (-1) * (1 - 0));
            assert(normal_dot(0, 6) == -1);
        } else if c == 7 {
            assert(corner_unit(7, 0) == 0);
            assert(corner_unit(7, 1) == 1);
            assert(corner_unit(7, 2) == 1);
            assert(normal_dot(0, 7) == (0) * (0 - 0) + (0) * (1 - 0) + (-1) * (1 - 0));
            assert(normal_dot(0, 7) == -1);
        }
    } else if f == 1 {
        assert(face_origin(1) == 4);
        assert(face_corner(1, 0) == 4);
        assert(face_corner(1, 1) == 5);
        assert(face_corner(1, 2) == 6);
        assert(face_corner(1, 3) == 7);
        assert(face_normal(1, 0) == 0);
        assert(face_normal(1, 1) == 0);
        assert(face_normal(1, 2) == 1);
        assert(corner_unit(4, 0) == 0);
        assert(corner_unit(4, 1) == 0);
        assert(corner_unit(4, 2) == 1);
        if c == 0 {
            assert(corner_unit(0, 0) == 0);
            assert(corner_unit(0, 1) == 0);
            assert(corner_unit(0, 2) == 0);
            assert(normal_dot(1, 0) == (0) * (0 - 0) + (0) * (0 - 0) + (1) * (0 - 1));
            assert(normal_dot(1, 0) == -1);
        } else if c == 1 {
            assert(corner_unit(1, 0) == 1);
            assert(corner_unit(1, 1) == 0);
            assert(corner_unit(1, 2) == 0);
            assert(normal_dot(1, 1) == (0) * (1 - 0) + (0) * (0 - 0) + (1) * (0 - 1));
            assert(normal_dot(1, 1) == -1);
        } else if c == 2 {
            assert(corner_unit(2, 0) == 1);
            assert(corner_unit(2, 1) == 1);
            assert(corner_unit(2, 2) == 0);
            assert(normal_dot(1, 2) == (0) * (1 - 0) + (0) * (1 - 0) + (1) * (0 - 1));
            assert(normal_dot(1, 2) == -1);
        } else if c == 3 {
            assert(corner_unit(3, 0) == 0);
            assert(corner_unit(3, 1) == 1);
            assert(corner_unit(3, 2) == 0);
            assert(normal_dot(1, 3) == (0) * (0 - 0) + (0) * (1 - 0) + (1) * (0 - 1));
            assert(normal_dot(1, 3) == -1);
        } else if c == 4 {
            assert(corner_unit(4, 0) == 0);
            assert(corner_unit(4, 1) == 0);
            assert(corner_unit(4, 2) == 1);
            assert(normal_dot(1, 4) == (0) * (0 - 0) + (0) * (0 - 0) + (1) * (1 - 1));
            assert(normal_dot(1, 4) == 0);
        } else if c == 5 {
            assert(corner_unit(5, 0) == 1);
            assert(corner_unit(5, 1) == 0);
            assert(corner_unit(5, 2) == 1);
            assert(normal_dot(1, 5) == (0) * (1 - 0) + (0) * (0 - 0) + (1) * (1 - 1));
            assert(normal_dot(1, 5) == 0);
        } else if c == 6 {
            assert(corner_unit(6, 0) == 1);
            assert(corner_unit(6, 1) == 1);
            assert(corner_unit(6, 2) == 1);
            assert(normal_dot(1, 6) == (0) * (1 - 0) + (0) * (1 - 0) + (1) * (1 - 1));
            assert(normal_dot(1, 6) == 0);
        } else if c == 7 {
            assert(corner_unit(7, 0) == 0);
            assert(corner_unit(7, 1) == 1);
            assert(corner_unit(7, 2) == 1);
            assert(normal_dot(1, 7) == (0) * (0 - 0) + (0) * (1 - 0) + (1) * (1 - 1));
            assert(normal_dot(1, 7) == 0);
        }
    } else if f == 2 {
        assert(face_origin(2) == 0);
        assert(face_corner(2, 0) == 0);
        assert(face_corner(2, 1) == 1);
        assert(face_corner(2, 2) == 5);
        assert(face_corner(2, 3) == 4);
        assert(face_normal(2, 0) == 0);
        assert(face_normal(2, 1) == -1);
        assert(face_normal(2, 2) == 0);
        assert(corner_unit(0, 0) == 0);
        assert(corner_unit(0, 1) == 0);
        assert(corner_unit(0, 2) == 0);
        if c == 0 {
            assert(corner_unit(0, 0) == 0);
            assert(corner_unit(0, 1) == 0);
            assert(corner_unit(0, 2) == 0);
            assert(normal_dot(2, 0) == (0) * (0 - 0) + (-1) * (0 - 0) + (0) * (0 - 0));
            assert(normal_dot(2, 0) == 0);
        } else if c == 1 {
            assert(corner_unit(1, 0) == 1);
            assert(corner_unit(1, 1) == 0);
            assert(corner_unit(1, 2) == 0);
            assert(normal_dot(2, 1) == (0) * (1 - 0) + (-1) * (0 - 0) + (0) * (0 - 0));
            assert(normal_dot(2, 1) == 0);
        } else if c == 2 {
            assert(corner_unit(2, 0) == 1);
            assert(corner_unit(2, 1) == 1);
            assert(corner_unit(2, 2) == 0);
            assert(normal_dot(2, 2) == (0) * (1 - 0) + (-1) * (1 - 0) + (0) * (0 - 0));
            assert(normal_dot(2, 2) == -1);
        } else if c == 3 {
            assert(corner_unit(3, 0) == 0);
            assert(corner_unit(3, 1) == 1);
            assert(corner_unit(3, 2) == 0);
            assert(normal_dot(2, 3) == (0) * (0 - 0) + (-1) * (1 - 0) + (0) * (0 - 0));
            assert(normal_dot(2, 3) == -1);
        } else if c == 4 {
            assert(corner_unit(4, 0) == 0);
            assert(corner_unit(4, 1) == 0);
            assert(corner_unit(4, 2) == 1);
            assert(normal_dot(2, 4) == (0) * (0 - 0) + (-1) * (0 - 0) + (0) * (1 - 0));
            assert(normal_dot(2, 4) == 0);
        } else if c == 5 {
            assert(corner_unit(5, 0) == 1);
            assert(corner_unit(5, 1) == 0);
            assert(corner_unit(5, 2) == 1);
            assert(normal_dot(2, 5) == (0) * (1 - 0) + (-1) * (0 - 0) + (0) * (1 - 0));
            assert(normal_dot(2, 5) == 0);
        } else if c == 6 {
            assert(corner_unit(6, 0) == 1);
            assert(corner_unit(6, 1) == 1);
            assert(corner_unit(6, 2) == 1);
            assert(normal_dot(2, 6) == (0) * (1 - 0) + (-1) * (1 - 0) + (0) * (1 - 0));
            assert(normal_dot(2, 6) == -1);
        } else if c == 7 {
            assert(corner_unit(7, 0) == 0);
            assert(corner_unit(7, 1) == 1);
            assert(corner_unit(7, 2) == 1);
            assert(normal_dot(2, 7) == (0) * (0 - 0) + (-1) * (1 - 0) + (0) * (1 - 0));
            assert(normal_dot(2, 7) == -1);
        }
    } else if f == 3 {
        assert(face_origin(3) == 1);
        assert(face_corner(3, 0) == 1);
        assert(face_corner(3, 1) == 2);
        assert(face_corner(3, 2) == 6);
        assert(face_corner(3, 3) == 5);
        assert(face_normal(3, 0) == 1);
        assert(face_normal(3, 1) == 0);
        assert(face_normal(3, 2) == 0);
        assert(corner_unit(1, 0) == 1);
        assert(corner_unit(1, 1) == 0);
        assert(corner_unit(1, 2) == 0);
        if c == 0 {
            assert(corner_unit(0, 0) == 0);
            assert(corner_unit(0, 1) == 0);
            assert(corner_unit(0, 2) == 0);
            assert(normal_dot(3, 0) == (1) * (0 - 1) + (0) * (0 - 0) + (0) * (0 - 0));
            assert(normal_dot(3, 0) == -1);
        } else if c == 1 {
            assert(corner_unit(1, 0) == 1);
            assert(corner_unit(1, 1) == 0);
            assert(corner_unit(1, 2) == 0);
            assert(normal_dot(3, 1) == (1) * (1 - 1) + (0) * (0 - 0) + (0) * (0 - 0));
            assert(normal_dot(3, 1) == 0);
        } else if c == 2 {
            assert(corner_unit(2, 0) == 1);
            assert(corner_unit(2, 1) == 1);
            assert(corner_unit(2, 2) == 0);
            assert(normal_dot(3, 2) == (1) * (1 - 1) + (0) * (1 - 0) + (0) * (0 - 0));
            assert(normal_dot(3, 2) == 0);
        } else if c == 3 {
            assert(corner_unit(3, 0) == 0);
            assert(corner_unit(3, 1) == 1);
            assert(corner_unit(3, 2) == 0);
            assert(normal_dot(3, 3) == (1) * (0 - 1) + (0) * (1 - 0) + (0) * (0 - 0));
            assert(normal_dot(3, 3) == -1);
        } else if c == 4 {
            assert(corner_unit(4, 0) == 0);
            assert(corner_unit(4, 1) == 0);
            assert(corner_unit(4, 2) == 1);
            assert(normal_dot(3, 4) == (1) * (0 - 1) + (0) * (0 - 0) + (0) * (1 - 0));
            assert(normal_dot(3, 4) == -1);
        } else if c == 5 {
            assert(corner_unit(5, 0) == 1);
            assert(corner_unit(5, 1) == 0);
            assert(corner_unit(5, 2) == 1);
            assert(normal_dot(3, 5) == (1) * (1 - 1) + (0) * (0 - 0) + (0) * (1 - 0));
            assert(normal_dot(3, 5) == 0);
        } else if c == 6 {
            assert(corner_unit(6, 0) == 1);
            assert(corner_unit(6, 1) == 1);
            assert(corner_unit(6, 2) == 1);
            assert(normal_dot(3, 6) == (1) * (1 - 1) + (0) * (1 - 0) + (0) * (1 - 0));
            assert(normal_dot(3, 6) == 0);
        } else if c == 7 {
            assert(corner_unit(7, 0) == 0);
            assert(corner_unit(7, 1) == 1);
            assert(corner_unit(7, 2) == 1);
            assert(normal_dot(3, 7) == (1) * (0 - 1) + (0) * (1 - 0) + (0) * (1 - 0));
            assert(normal_dot(3, 7) == -1);
        }
    } else if f == 4 {
        assert(face_origin(4) == 2);
        assert(face_corner(4, 0) == 2);
        assert(face_corner(4, 1) == 3);
        assert(face_corner(4, 2) == 7);
        assert(face_corner(4, 3) == 6);
        assert(face_normal(4, 0) == 0);
        assert(face_normal(4, 1) == 1);
        assert(face_normal(4, 2) == 0);
        assert(corner_unit(2, 0) == 1);
        assert(corner_unit(2, 1) == 1);
        assert(corner_unit(2, 2) == 0);
        if c == 0 {
            assert(corner_unit(0, 0) == 0);
            assert(corner_unit(0, 1) == 0);
            assert(corner_unit(0, 2) == 0);
            assert(normal_dot(4, 0) == (0) * (0 - 1) + (1) * (0 - 1) + (0) * (0 - 0));
            assert(normal_dot(4, 0) == -1);
        } else if c == 1 {
            assert(corner_unit(1, 0) == 1);
            assert(corner_unit(1, 1) == 0);
            assert(corner_unit(1, 2) == 0);
            assert(normal_dot(4, 1) == (0) * (1 - 1) + (1) * (0 - 1) + (0) * (0 - 0));
            assert(normal_dot(4, 1) == -1);
        } else if c == 2 {
            assert(corner_unit(2, 0) == 1);
            assert(corner_unit(2, 1) == 1);
            assert(corner_unit(2, 2) == 0);
            assert(normal_dot(4, 2) == (0) * (1 - 1) + (1) * (1 - 1) + (0) * (0 - 0));
            assert(normal_dot(4, 2) == 0);
        } else if c == 3 {
            assert(corner_unit(3, 0) == 0);
            assert(corner_unit(3, 1) == 1);
            assert(corner_unit(3, 2) == 0);
            assert(normal_dot(4, 3) == (0) * (0 - 1) + (1) * (1 - 1) + (0) * (0 - 0));
            assert(normal_dot(4, 3) == 0);
        } else if c == 4 {
            assert(corner_unit(4, 0) == 0);
            assert(corner_unit(4, 1) == 0);
            assert(corner_unit(4, 2) == 1);
            assert(normal_dot(4, 4) == (0) * (0 - 1) + (1) * (0 - 1) + (0) * (1 - 0));
            assert(normal_dot(4, 4) == -1);
        } else if c == 5 {
            assert(corner_unit(5, 0) == 1);
            assert(corner_unit(5, 1) == 0);
            assert(corner_unit(5, 2) == 1);
            assert(normal_dot(4, 5) == (0) * (1 - 1) + (1) * (0 - 1) + (0) * (1 - 0));
            assert(normal_dot(4, 5) == -1);
        } else if c == 6 {
            assert(corner_unit(6, 0) == 1);
            assert(corner_unit(6, 1) == 1);
            assert(corner_unit(6, 2) == 1);
            assert(normal_dot(4, 6) == (0) * (1 - 1) + (1) * (1 - 1) + (0) * (1 - 0));
            assert(normal_dot(4, 6) == 0);
        } else if c == 7 {
            assert(corner_unit(7, 0) == 0);
            assert(corner_unit(7, 1) == 1);
            assert(corner_unit(7, 2) == 1);
            assert(normal_dot(4, 7) == (0) * (0 - 1) + (1) * (1 - 1) + (0) * (1 - 0));
            assert(normal_dot(4, 7) == 0);
        }
    } else if f == 5 {
        assert(face_origin(5) == 3);
        assert(face_corner(5, 0) == 3);
        assert(face_corner(5, 1) == 0);
        assert(face_corner(5, 2) == 4);
        assert(face_corner(5, 3) == 7);
        assert(face_normal(5, 0) == -1);
        assert(face_normal(5, 1) == 0);
        assert(face_normal(5, 2) == 0);
        assert(corner_unit(3, 0) == 0);
        assert(corner_unit(3, 1) == 1);
        assert(corner_unit(3, 2) == 0);
        if c == 0 {
            assert(corner_unit(0, 0) == 0);
            assert(corner_unit(0, 1) == 0);
            assert(corner_unit(0, 2) == 0);
            assert(normal_dot(5, 0) == (-1) * (0 - 0) + (0) * (0 - 1) + (0) * (0 - 0));
            assert(normal_dot(5, 0) == 0);
        } else if c == 1 {
            assert(corner_unit(1, 0) == 1);
            assert(corner_unit(1, 1) == 0);
            assert(corner_unit(1, 2) == 0);
            assert(normal_dot(5, 1) == (-1) * (1 - 0) + (0) * (0 - 1) + (0) * (0 - 0));
            assert(normal_dot(5, 1) == -1);
        } else if c == 2 {
            assert(corner_unit(2, 0) == 1);
            assert(corner_unit(2, 1) == 1);
            assert(corner_unit(2, 2) == 0);
            assert(normal_dot(5, 2) == (-1) * (1 - 0) + (0) * (1 - 1) + (0) * (0 - 0));
            assert(normal_dot(5, 2) == -1);
        } else if c == 3 {
            assert(corner_unit(3, 0) == 0);
            assert(corner_unit(3, 1) == 1);
            assert(corner_unit(3, 2) == 0);
            assert(normal_dot(5, 3) == (-1) * (0 - 0) + (0) * (1 - 1) + (0) * (0 - 0));
            assert(normal_dot(5, 3) == 0);
        } else if c == 4 {
            assert(corner_unit(4, 0) == 0);
            assert(corner_unit(4, 1) == 0);
            assert(corner_unit(4, 2) == 1);
            assert(normal_dot(5, 4) == (-1) * (0 - 0) + (0) * (0 - 1) + (0) * (1 - 0));
            assert(normal_dot(5, 4) == 0);
        } else if c == 5 {
            assert(corner_unit(5, 0) == 1);
            assert(corner_unit(5, 1) == 0);
            assert(corner_unit(5, 2) == 1);
            assert(normal_dot(5, 5) == (-1) * (1 - 0) + (0) * (0 - 1) + (0) * (1 - 0));
            assert(normal_dot(5, 5) == -1);
        } else if c == 6 {
            assert(corner_unit(6, 0) == 1);
            assert(corner_unit(6, 1) == 1);
            assert(corner_unit(6, 2) == 1);
            assert(normal_dot(5, 6) == (-1) * (1 - 0) + (0) * (1 - 1) + (0) * (1 - 0));
            assert(normal_dot(5, 6) == -1);
        } else if c == 7 {
            assert(corner_unit(7, 0) == 0);
            assert(corner_unit(7, 1) == 1);
            assert(corner_unit(7, 2) == 1);
            assert(normal_dot(5, 7) == (-1) * (0 - 0) + (0) * (1 - 1) + (0) * (1 - 0));
            assert(normal_dot(5, 7) == 0);
        }
    }
}

/// The fixed header and the opening of the DATA section.
pub open spec fn step_preamble() -> Seq<u8> {
    txt("ISO-10303-21;\n") + txt("HEADER;\n") + txt("FILE_DESCRIPTION(('sapphire waveguide B-Rep'), '2;1');\n")
        + txt("FILE_NAME('sapphire_waveguide.step', '2026-09-21T00:00:00', (''), (''), '', '', '');\n")
        + txt("FILE_SCHEMA(('AUTOMOTIVE_DESIGN { 1 0 10303 214 1 1 1 1 }'));\n") + txt("ENDSEC;\n")
        + txt("DATA;\n")
}

/// `#id = CARTESIAN_POINT('label', (x, y, z));`
pub open spec fn point_line(id: nat, label: Seq<u8>, x: Seq<u8>, y: Seq<u8>, z: Seq<u8>) -> Seq<u8> {
    txt("#") + dec(id) + txt(" = CARTESIAN_POINT('") + label + txt("', ") + triple(x, y, z) + txt(");\n")
}

/// `#id = DIRECTION('label', (x, y, z));`
pub open spec fn direction_line(id: nat, label: Seq<u8>, x: Seq<u8>, y: Seq<u8>, z: Seq<u8>) -> Seq<u8> {
    txt("#") + dec(id) + txt(" = DIRECTION('") + label + txt("', ") + triple(x, y, z) + txt(");\n")
}

/// Corner point `i` (#1+i).
pub open spec fn corner_point(i: nat, l: Seq<u8>, w: Seq<u8>, h: Seq<u8>) -> Seq<u8> {
    point_line(i + 1, txt("v") + dec(i), corner_x(i, l), corner_y(i, w), corner_z(i, h))
}

/// Vertex `i` (#9+i) on corner point #1+i.
pub open spec fn corner_vertex(i: nat) -> Seq<u8> {
    txt("#") + dec(9 + i) + txt(" = VERTEX_POINT('V") + dec(i) + txt("', #") + dec(1 + i) + txt(");\n")
}

/// `#id = VECTOR('e<e>v', #dir, 1.0);`
pub open spec fn vector_line(id: nat, e: nat, dir: nat) -> Seq<u8> {
    txt("#") + dec(id) + txt(" = VECTOR('") + txt("e") + dec(e) + txt("v', #") + dec(dir) + txt(", 1.0);\n")
}

/// `#id = EDGE_CURVE('', #from, #to, #vector, .T.);`
pub open spec fn edge_curve_line(id: nat, from: nat, to: nat, vector: nat) -> Seq<u8> {
    txt("#") + dec(id) + txt(" = EDGE_CURVE('', #") + dec(from) + txt(", #") + dec(to) + txt(", #") + dec(vector)
        + txt(", .T.);\n")
}

/// Edge `e`: its line point, direction, vector and edge curve.
pub open spec fn edge_block(e: nat, l: Seq<u8>, w: Seq<u8>, h: Seq<u8>) -> Seq<u8> {
    let base = 17 + 4 * e;
    let a = edge_start(e);
    point_line(base, txt("e") + dec(e) + txt("p"), corner_x(a, l), corner_y(a, w), corner_z(a, h))
        + direction_line(base + 1, txt("e") + dec(e) + txt("d"), unit_txt(edge_dir(e, 0)), unit_txt(edge_dir(e, 1)), unit_txt(edge_dir(e, 2)))
        + vector_line(base + 2, e, base + 1) + edge_curve_line(base + 3, 9 + a, 9 + edge_end(e), base + 2)
}

/// Corner `k` (0..4) of face `f`, walking its boundary: bottom 0-3-2-1,
/// top 4-5-6-7, and for the side face on bottom corner `i = f - 2`:
/// `i`, `i + 1`, the corner above `i + 1`, the corner above `i`.
pub open spec fn face_corner(f: nat, k: nat) -> nat {
    if f == 0 {
        ((4 - k) % 4) as nat
    } else if f == 1 {
        4 + k
    } else {
        let i = (f - 2) as nat;
        if k == 0 {
            i
        } else if k == 1 {
            (i + 1) % 4
        } else if k == 2 {
            (i + 1) % 4 + 4
        } else {
            i + 4
        }
    }
}

/// Edge `k` of face `f`'s loop: the edge joining its corners `k` and `k + 1`.
pub open spec fn face_edge(f: nat, k: nat) -> nat {
    if f == 0 {
        (3 - k) as nat
    } else if f == 1 {
        8 + k
    } else {
        let i = (f - 2) as nat;
        if k == 0 {
            i
        } else if k == 1 {
            4 + (i + 1) % 4
        } else if k == 2 {
            8 + i
        } else {
            4 + i
        }
    }
}

/// Entity number of the edge curve of edge `e`.
pub open spec fn edge_curve_id(e: nat) -> nat {
    20 + 4 * e
}

/// Reference to the `k`-th edge curve of face `f`'s loop.
pub open spec fn loop_ref(f: nat, k: nat) -> Seq<u8> {
    (if k == 0 { seq![] } else { txt(", ") }) + txt("#") + dec(edge_curve_id(face_edge(f, k)))
}

/// `#id = EDGE_LOOP('f<f>', (#c0, #c1, #c2, #c3));` over the face's four
/// edge curves.
pub open spec fn loop_line(id: nat, f: nat) -> Seq<u8> {
    txt("#") + dec(id) + txt(" = EDGE_LOOP('") + txt("f") + dec(f) + txt("', (") + concat_items(4, |k: nat| loop_ref(f, k))
        + txt("));\n")
}

/// Law: every face loop is closed and made of the face's own edges: its
/// `k`-th edge curve joins the face's corners `k` and `k + 1 (mod 4)`.
pub proof fn lemma_face_loops_closed(f: nat, k: nat)
    requires
        f < 6,
        k < 4,
    ensures
        face_edge(f, k) < 12,
        (edge_start(face_edge(f, k)) == face_corner(f, k) && edge_end(face_edge(f, k)) == face_corner(f, (k + 1) % 4))
            || (edge_end(face_edge(f, k)) == face_corner(f, k) && edge_start(face_edge(f, k)) == face_corner(f, (k + 1) % 4)),
{
}

/// `#id = DIRECTION('f<f>r', (1.0, 0.0, 0.0));`
pub open spec fn ref_direction_line(id: nat, f: nat) -> Seq<u8> {
    txt("#") + dec(id) + txt(" = DIRECTION('") + txt("f") + dec(f) + txt("r', (1.0, 0.0, 0.0));\n")
}

/// `#id = AXIS2_PLACEMENT_3D('f<f>a', #p, #n, #r);`
pub open spec fn axis_line(id: nat, f: nat, p: nat, n: nat, r: nat) -> Seq<u8> {
    txt("#") + dec(id) + txt(" = AXIS2_PLACEMENT_3D('") + txt("f") + dec(f) + txt("a', #") + dec(p) + txt(", #")
        + dec(n) + txt(", #") + dec(r) + txt(");\n")
}

/// `#id = PLANE('f<f>pl', #axis);`
pub open spec fn plane_line(id: nat, f: nat, axis: nat) -> Seq<u8> {
    txt("#") + dec(id) + txt(" = PLANE('") + txt("f") + dec(f) + txt("pl', #") + dec(axis) + txt(");\n")
}

/// `#id = FACE_OUTER_BOUND('', #edge_loop, .T.);`
pub open spec fn bound_line(id: nat, edge_loop: nat) -> Seq<u8> {
    txt("#") + dec(id) + txt(" = FACE_OUTER_BOUND('', #") + dec(edge_loop) + txt(", .T.);\n")
}

/// `#id = ADVANCED_FACE('f<f>', (#bound), #plane, .T.);`
pub open spec fn face_line(id: nat, f: nat, bound: nat, plane: nat) -> Seq<u8> {
    txt("#") + dec(id) + txt(" = ADVANCED_FACE('") + txt("f") + dec(f) + txt("', (#") + dec(bound) + txt("), #")
        + dec(plane) + txt(", .T.);\n")
}

/// First half of face `f`: edge loop, origin point, normal and reference direction.
pub open spec fn face_frame(f: nat, l: Seq<u8>, w: Seq<u8>, h: Seq<u8>) -> Seq<u8> {
    let base = 65 + 8 * f;
    let o = face_origin(f);
    loop_line(base, f)
        + point_line(base + 1, txt("f") + dec(f) + txt("p"), corner_x(o, l), corner_y(o, w), corner_z(o, h))
        + direction_line(base + 2, txt("f") + dec(f) + txt("n"), unit_txt(face_normal(f, 0)), unit_txt(face_normal(f, 1)), unit_txt(face_normal(f, 2)))
        + ref_direction_line(base + 3, f)
}

/// Second half of face `f`: placement, plane, outer bound and advanced face.
pub open spec fn face_surface(f: nat) -> Seq<u8> {
    let base = 65 + 8 * f;
    axis_line(base + 4, f, base + 1, base + 2, base + 3) + plane_line(base + 5, f, base + 4) + bound_line(base + 6, base)
        + face_line(base + 7, f, base + 6, base + 5)
}

/// Face `f`: edge loop, placement, plane, outer bound and advanced face.
pub open spec fn face_block(f: nat, l: Seq<u8>, w: Seq<u8>, h: Seq<u8>) -> Seq<u8> {
    face_frame(f, l, w, h) + face_surface(f)
}

/// Reference to face `f` in the shell's face list.
pub open spec fn shell_ref(f: nat) -> Seq<u8> {
    (if f == 0 { seq![] } else { txt(", ") }) + txt("#") + dec(72 + 8 * f)
}

/// The complete STEP document for printed length, width and height.
pub open spec fn step_document(l: Seq<u8>, w: Seq<u8>, h: Seq<u8>) -> Seq<u8> {
    step_preamble() + concat_items(8, |i: nat| corner_point(i, l, w, h)) + concat_items(8, |i: nat| corner_vertex(i))
        + concat_items(12, |e: nat| edge_block(e, l, w, h)) + concat_items(6, |f: nat| face_block(f, l, w, h))
        + txt("#") + dec(113) + txt(" = CLOSED_SHELL('waveguide', (") + concat_items(6, |f: nat| shell_ref(f))
        + txt("));\n") + txt("#") + dec(114) + txt(" = MANIFOLD_SOLID_BREP('sapphire_waveguide', #") + dec(113)
        + txt(");\n") + txt("ENDSEC;\nEND-ISO-10303-21;\n")
}

fn unit_str(k: i8) -> (r: &'static str)
    ensures
        txt(r) == unit_txt(k as int),
{
    if k > 0 {
        "1.000000000000000"
    } else if k < 0 {
        "-1.000000000000000"
    } else {
        "0.000000000000000"
    }
}

fn corner_x_str<'a>(i: usize, l: &'a str) -> (r: &'a str)
    ensures
        txt(r) == corner_x(i as nat, txt(l)),
{
    if i % 4 == 1 || i % 4 == 2 {
        l
    } else {
        "0.000000000000000"
    }
}

fn corner_y_str<'a>(i: usize, w: &'a str) -> (r: &'a str)
    ensures
        txt(r) == corner_y(i as nat, txt(w)),
{
    if i % 4 == 2 || i % 4 == 3 {
        w
    } else {
        "0.000000000000000"
    }
}

fn corner_z_str<'a>(i: usize, h: &'a str) -> (r: &'a str)
    ensures
        txt(r) == corner_z(i as nat, txt(h)),
{
    if i >= 4 {
        h
    } else {
        "0.000000000000000"
    }
}

fn write_triple(out: &mut Vec<u8>, x: &str, y: &str, z: &str)
    ensures
        final(out)@ == old(out)@ + triple(txt(x), txt(y), txt(z)),
{
    push_str(out, "(");
    push_str(out, x);
    push_str(out, ", ");
    push_str(out, y);
    push_str(out, ", ");
    push_str(out, z);
    push_str(out, ")");
    assert(out@ =~= old(out)@ + triple(txt(x), txt(y), txt(z)));
}

/// Writes `#id = CARTESIAN_POINT('` + prefix + index + suffix + `', (x, y, z));`.
fn write_point_line(out: &mut Vec<u8>, id: usize, prefix: &str, index: usize, suffix: &str, x: &str, y: &str, z: &str)
    ensures
        final(out)@ == old(out)@ + point_line(id as nat, txt(prefix) + dec(index as nat) + txt(suffix), txt(x), txt(y), txt(z)),
{
    push_str(out, "#");
    push_dec(out, id);
    push_str(out, " = CARTESIAN_POINT('");
    push_str(out, prefix);
    push_dec(out, index);
    push_str(out, suffix);
    push_str(out, "', ");
    write_triple(out, x, y, z);
    push_str(out, ");\n");
    assert(out@ =~= old(out)@ + point_line(id as nat, txt(prefix) + dec(index as nat) + txt(suffix), txt(x), txt(y), txt(z)));
}

/// Writes `#id = DIRECTION('` + prefix + index + suffix + `', (x, y, z));`.
fn write_direction_line(out: &mut Vec<u8>, id: usize, prefix: &str, index: usize, suffix: &str, x: &str, y: &str, z: &str)
    ensures
        final(out)@ == old(out)@ + direction_line(id as nat, txt(prefix) + dec(index as nat) + txt(suffix), txt(x), txt(y), txt(z)),
{
    push_str(out, "#");
    push_dec(out, id);
    push_str(out, " = DIRECTION('");
    push_str(out, prefix);
    push_dec(out, index);
    push_str(out, suffix);
    push_str(out, "', ");
    write_triple(out, x, y, z);
    push_str(out, ");\n");
    assert(out@ =~= old(out)@ + direction_line(id as nat, txt(prefix) + dec(index as nat) + txt(suffix), txt(x), txt(y), txt(z)));
}

proof fn lemma_empty_txt()
    ensures
        txt("") == Seq::<u8>::empty(),
{
    reveal_strlit("");
    broadcast use vstd::string::group_string_axioms;
    assert(vstd::string::is_ascii(""));
    assert(txt("") =~= Seq::<u8>::empty());
}

fn edge_start_index(e: usize) -> (r: usize)
    requires
        e < 12,
    ensures
        r == edge_start(e as nat),
{
    if e < 4 {
        e
    } else {
        e - 4
    }
}

fn edge_end_index(e: usize) -> (r: usize)
    requires
        e < 12,
    ensures
        r == edge_end(e as nat),
{
    if e < 4 {
        (e + 1) % 4
    } else if e < 8 {
        e
    } else {
        4 + (e - 7) % 4
    }
}

fn edge_direction(e: usize, axis: usize) -> (r: i8)
    ensures
        r == edge_dir(e as nat, axis as nat),
{
    if 4 <= e && e < 8 {
        if axis == 2 { 1 } else { 0 }
    } else if e % 4 == 0 {
        if axis == 0 { 1 } else { 0 }
    } else if e % 4 == 1 {
        if axis == 1 { 1 } else { 0 }
    } else if e % 4 == 2 {
        if axis == 0 { -1 } else { 0 }
    } else {
        if axis == 1 { -1 } else { 0 }
    }
}

fn face_origin_index(f: usize) -> (r: usize)
    ensures
        r == face_origin(f as nat),
{
    if f == 0 {
        0
    } else if f == 1 {
        4
    } else {
        f - 2
    }
}

fn face_normal_component(f: usize, axis: usize) -> (r: i8)
    ensures
        r == face_normal(f as nat, axis as nat),
{
    if f == 0 {
        if axis == 2 { -1 } else { 0 }
    } else if f == 1 {
        if axis == 2 { 1 } else { 0 }
    } else if f == 2 {
        if axis == 1 { -1 } else { 0 }
    } else if f == 3 {
        if axis == 0 { 1 } else { 0 }
    } else if f == 4 {
        if axis == 1 { 1 } else { 0 }
    } else {
        if axis == 0 { -1 } else { 0 }
    }
}

fn write_corner_point(out: &mut Vec<u8>, i: usize, l: &str, w: &str, h: &str)
    requires
        i < 8,
    ensures
        final(out)@ == old(out)@ + corner_point(i as nat, txt(l), txt(w), txt(h)),
{
    proof {
        lemma_empty_txt();
    }
    write_point_line(out, i + 1, "v", i, "", corner_x_str(i, l), corner_y_str(i, w), corner_z_str(i, h));
    assert(txt("v") + dec(i as nat) + txt("") =~= txt("v") + dec(i as nat));
}

fn write_corner_vertex(out: &mut Vec<u8>, i: usize)
    requires
        i < 8,
    ensures
        final(out)@ == old(out)@ + corner_vertex(i as nat),
{
    push_str(out, "#");
    push_dec(out, 9 + i);
    push_str(out, " = VERTEX_POINT('V");
    push_dec(out, i);
    push_str(out, "', #");
    push_dec(out, 1 + i);
    push_str(out, ");\n");
    assert(out@ =~= old(out)@ + corner_vertex(i as nat));
}

fn write_vector_line(out: &mut Vec<u8>, id: usize, e: usize, dir: usize)
    ensures
        final(out)@ == old(out)@ + vector_line(id as nat, e as nat, dir as nat),
{
    push_str(out, "#");
    push_dec(out, id);
    push_str(out, " = VECTOR('");
    push_str(out, "e");
    push_dec(out, e);
    push_str(out, "v', #");
    push_dec(out, dir);
    push_str(out, ", 1.0);\n");
    assert(out@ =~= old(out)@ + vector_line(id as nat, e as nat, dir as nat));
}

fn write_edge_curve_line(out: &mut Vec<u8>, id: usize, from: usize, to: usize, vector: usize)
    ensures
        final(out)@ == old(out)@ + edge_curve_line(id as nat, from as nat, to as nat, vector as nat),
{
    push_str(out, "#");
    push_dec(out, id);
    push_str(out, " = EDGE_CURVE('', #");
    push_dec(out, from);
    push_str(out, ", #");
    push_dec(out, to);
    push_str(out, ", #");
    push_dec(out, vector);
    push_str(out, ", .T.);\n");
    assert(out@ =~= old(out)@ + edge_curve_line(id as nat, from as nat, to as nat, vector as nat));
}

fn write_edge_block(out: &mut Vec<u8>, e: usize, l: &str, w: &str, h: &str)
    requires
        e < 12,
    ensures
        final(out)@ == old(out)@ + edge_block(e as nat, txt(l), txt(w), txt(h)),
{
    let base = 17 + 4 * e;
    let a = edge_start_index(e);
    let b = edge_end_index(e);
    write_point_line(out, base, "e", e, "p", corner_x_str(a, l), corner_y_str(a, w), corner_z_str(a, h));
    write_direction_line(
        out,
        base + 1,
        "e",
        e,
        "d",
        unit_str(edge_direction(e, 0)),
        unit_str(edge_direction(e, 1)),
        unit_str(edge_direction(e, 2)),
    );
    write_vector_line(out, base + 2, e, base + 1);
    write_edge_curve_line(out, base + 3, 9 + a, 9 + b, base + 2);
    assert(out@ =~= old(out)@ + edge_block(e as nat, txt(l), txt(w), txt(h)));
}

fn face_edge_index(f: usize, k: usize) -> (r: usize)
    requires
        f < 6,
        k < 4,
    ensures
        r == face_edge(f as nat, k as nat),
        r < 12,
{
    if f == 0 {
        3 - k
    } else if f == 1 {
        8 + k
    } else {
        let i = f - 2;
        if k == 0 {
            i
        } else if k == 1 {
            4 + (i + 1) % 4
        } else if k == 2 {
            8 + i
        } else {
            4 + i
        }
    }
}

fn write_loop_ref(out: &mut Vec<u8>, f: usize, k: usize)
    requires
        f < 6,
        k < 4,
    ensures
        final(out)@ == old(out)@ + loop_ref(f as nat, k as nat),
{
    if k > 0 {
        push_str(out, ", ");
    }
    push_str(out, "#");
    let e = face_edge_index(f, k);
    push_dec(out, 20 + 4 * e);
    assert(out@ =~= old(out)@ + loop_ref(f as nat, k as nat));
}

fn write_loop_line(out: &mut Vec<u8>, id: usize, f: usize)
    requires
        f < 6,
    ensures
        final(out)@ == old(out)@ + loop_line(id as nat, f as nat),
{
    push_str(out, "#");
    push_dec(out, id);
    push_str(out, " = EDGE_LOOP('");
    push_str(out, "f");
    push_dec(out, f);
    push_str(out, "', (");
    let ghost s0 = out@;
    let ghost refs = |k: nat| loop_ref(f as nat, k);
    let mut k: usize = 0;
    while k < 4
        invariant
            k <= 4,
            f < 6,
            refs == (|k: nat| loop_ref(f as nat, k)),
            out@ == s0 + concat_items(k as nat, refs),
        decreases 4 - k,
    {
        write_loop_ref(out, f, k);
        assert(concat_items((k + 1) as nat, refs) == concat_items(k as nat, refs) + refs(k as nat));
        assert(out@ =~= s0 + concat_items((k + 1) as nat, refs));
        k = k + 1;
    }
    push_str(out, "));\n");
    assert(out@ =~= old(out)@ + loop_line(id as nat, f as nat));
}

fn write_ref_direction_line(out: &mut Vec<u8>, id: usize, f: usize)
    ensures
        final(out)@ == old(out)@ + ref_direction_line(id as nat, f as nat),
{
    push_str(out, "#");
    push_dec(out, id);
    push_str(out, " = DIRECTION('");
    push_str(out, "f");
    push_dec(out, f);
    push_str(out, "r', (1.0, 0.0, 0.0));\n");
    assert(out@ =~= old(out)@ + ref_direction_line(id as nat, f as nat));
}

fn write_axis_line(out: &mut Vec<u8>, id: usize, f: usize, p: usize, n: usize, r: usize)
    ensures
        final(out)@ == old(out)@ + axis_line(id as nat, f as nat, p as nat, n as nat, r as nat),
{
    push_str(out, "#");
    push_dec(out, id);
    push_str(out, " = AXIS2_PLACEMENT_3D('");
    push_str(out, "f");
    push_dec(out, f);
    push_str(out, "a', #");
    push_dec(out, p);
    push_str(out, ", #");
    push_dec(out, n);
    push_str(out, ", #");
    push_dec(out, r);
    push_str(out, ");\n");
    assert(out@ =~= old(out)@ + axis_line(id as nat, f as nat, p as nat, n as nat, r as nat));
}

fn write_plane_line(out: &mut Vec<u8>, id: usize, f: usize, axis: usize)
    ensures
        final(out)@ == old(out)@ + plane_line(id as nat, f as nat, axis as nat),
{
    push_str(out, "#");
    push_dec(out, id);
    push_str(out, " = PLANE('");
    push_str(out, "f");
    push_dec(out, f);
    push_str(out, "pl', #");
    push_dec(out, axis);
    push_str(out, ");\n");
    assert(out@ =~= old(out)@ + plane_line(id as nat, f as nat, axis as nat));
}

fn write_bound_line(out: &mut Vec<u8>, id: usize, edge_loop: usize)
    ensures
        final(out)@ == old(out)@ + bound_line(id as nat, edge_loop as nat),
{
    push_str(out, "#");
    push_dec(out, id);
    push_str(out, " = FACE_OUTER_BOUND('', #");
    push_dec(out, edge_loop);
    push_str(out, ", .T.);\n");
    assert(out@ =~= old(out)@ + bound_line(id as nat, edge_loop as nat));
}

fn write_face_line(out: &mut Vec<u8>, id: usize, f: usize, bound: usize, plane: usize)
    ensures
        final(out)@ == old(out)@ + face_line(id as nat, f as nat, bound as nat, plane as nat),
{
    push_str(out, "#");
    push_dec(out, id);
    push_str(out, " = ADVANCED_FACE('");
    push_str(out, "f");
    push_dec(out, f);
    push_str(out, "', (#");
    push_dec(out, bound);
    push_str(out, "), #");
    push_dec(out, plane);
    push_str(out, ", .T.);\n");
    assert(out@ =~= old(out)@ + face_line(id as nat, f as nat, bound as nat, plane as nat));
}

fn write_face_frame(out: &mut Vec<u8>, f: usize, l: &str, w: &str, h: &str)
    requires
        f < 6,
    ensures
        final(out)@ == old(out)@ + face_frame(f as nat, txt(l), txt(w), txt(h)),
{
    let base = 65 + 8 * f;
    let o = face_origin_index(f);
    write_loop_line(out, base, f);
    write_point_line(out, base + 1, "f", f, "p", corner_x_str(o, l), corner_y_str(o, w), corner_z_str(o, h));
    write_direction_line(
        out,
        base + 2,
        "f",
        f,
        "n",
        unit_str(face_normal_component(f, 0)),
        unit_str(face_normal_component(f, 1)),
        unit_str(face_normal_component(f, 2)),
    );
    write_ref_direction_line(out, base + 3, f);
    assert(out@ =~= old(out)@ + face_frame(f as nat, txt(l), txt(w), txt(h)));
}

fn write_face_surface(out: &mut Vec<u8>, f: usize)
    requires
        f < 6,
    ensures
        final(out)@ == old(out)@ + face_surface(f as nat),
{
    let base = 65 + 8 * f;
    write_axis_line(out, base + 4, f, base + 1, base + 2, base + 3);
    write_plane_line(out, base + 5, f, base + 4);
    write_bound_line(out, base + 6, base);
    write_face_line(out, base + 7, f, base + 6, base + 5);
    assert(out@ =~= old(out)@ + face_surface(f as nat));
}

fn write_face_block(out: &mut Vec<u8>, f: usize, l: &str, w: &str, h: &str)
    requires
        f < 6,
    ensures
        final(out)@ == old(out)@ + face_block(f as nat, txt(l), txt(w), txt(h)),
{
    write_face_frame(out, f, l, w, h);
    write_face_surface(out, f);
    assert(out@ =~= old(out)@ + face_block(f as nat, txt(l), txt(w), txt(h)));
}

fn write_shell_ref(out: &mut Vec<u8>, f: usize)
    requires
        f < 6,
    ensures
        final(out)@ == old(out)@ + shell_ref(f as nat),
{
    if f > 0 {
        push_str(out, ", ");
    }
    push_str(out, "#");
    push_dec(out, 72 + 8 * f);
    assert(out@ =~= old(out)@ + shell_ref(f as nat));
}

/// STEP solid-model exporter for the sapphire waveguide.
#[derive(Clone, Debug, Default)]
pub struct StepSolidModelExporter;

impl StepSolidModelExporter {
    pub fn new() -> Self {
        StepSolidModelExporter
    }

    /// The ISO 10303-21 document of a rectangular sapphire waveguide whose
    /// length, width and height are given already printed.
    #[verifier::rlimit(50)]
    pub fn waveguide_document(&self, length: &str, width: &str, height: &str) -> (out: Vec<u8>)
        ensures
            out@ == step_document(txt(length), txt(width), txt(height)),
    {
        let ghost l = txt(length);
        let ghost w = txt(width);
        let ghost h = txt(height);
        let mut out: Vec<u8> = Vec::new();
        push_str(&mut out, "ISO-10303-21;\n");
        push_str(&mut out, "HEADER;\n");
        push_str(&mut out, "FILE_DESCRIPTION(('sapphire waveguide B-Rep'), '2;1');\n");
        push_str(&mut out, "FILE_NAME('sapphire_waveguide.step', '2026-09-21T00:00:00', (''), (''), '', '', '');\n");
        push_str(&mut out, "FILE_SCHEMA(('AUTOMOTIVE_DESIGN { 1 0 10303 214 1 1 1 1 }'));\n");
        push_str(&mut out, "ENDSEC;\n");
        push_str(&mut out, "DATA;\n");
        assert(out@ =~= step_preamble());
        let ghost points = |i: nat| corner_point(i, l, w, h);
        let mut i: usize = 0;
        while i < 8
            invariant
                i <= 8,
                l == txt(length) && w == txt(width) && h == txt(height),
                points == (|i: nat| corner_point(i, l, w, h)),
                out@ == step_preamble() + concat_items(i as nat, points),
            decreases 8 - i,
        {
            write_corner_point(&mut out, i, length, width, height);
            assert(concat_items((i + 1) as nat, points) == concat_items(i as nat, points) + points(i as nat));
            assert(out@ =~= step_preamble() + concat_items((i + 1) as nat, points));
            i = i + 1;
        }
        let ghost s1 = out@;
        let ghost vertices = |i: nat| corner_vertex(i);
        let mut j: usize = 0;
        while j < 8
            invariant
                j <= 8,
                vertices == (|i: nat| corner_vertex(i)),
                out@ == s1 + concat_items(j as nat, vertices),
            decreases 8 - j,
        {
            write_corner_vertex(&mut out, j);
            assert(concat_items((j + 1) as nat, vertices) == concat_items(j as nat, vertices) + vertices(j as nat));
            assert(out@ =~= s1 + concat_items((j + 1) as nat, vertices));
            j = j + 1;
        }
        let ghost s2 = out@;
        let ghost edges = |e: nat| edge_block(e, l, w, h);
        let mut e: usize = 0;
        while e < 12
            invariant
                e <= 12,
                l == txt(length) && w == txt(width) && h == txt(height),
                edges == (|e: nat| edge_block(e, l, w, h)),
                out@ == s2 + concat_items(e as nat, edges),
            decreases 12 - e,
        {
            write_edge_block(&mut out, e, length, width, height);
            assert(concat_items((e + 1) as nat, edges) == concat_items(e as nat, edges) + edges(e as nat));
            assert(out@ =~= s2 + concat_items((e + 1) as nat, edges));
            e = e + 1;
        }
        let ghost s3 = out@;
        let ghost faces = |f: nat| face_block(f, l, w, h);
        let mut f: usize = 0;
        while f < 6
            invariant
                f <= 6,
                l == txt(length) && w == txt(width) && h == txt(height),
                faces == (|f: nat| face_block(f, l, w, h)),
                out@ == s3 + concat_items(f as nat, faces),
            decreases 6 - f,
        {
            write_face_block(&mut out, f, length, width, height);
            assert(concat_items((f + 1) as nat, faces) == concat_items(f as nat, faces) + faces(f as nat));
            assert(out@ =~= s3 + concat_items((f + 1) as nat, faces));
            f = f + 1;
        }
        let ghost s4 = out@;
        push_str(&mut out, "#");
        push_dec(&mut out, 113);
        push_str(&mut out, " = CLOSED_SHELL('waveguide', (");
        let ghost s5 = out@;
        let ghost refs = |f: nat| shell_ref(f);
        let mut k: usize = 0;
        while k < 6
            invariant
                k <= 6,
                refs == (|f: nat| shell_ref(f)),
                out@ == s5 + concat_items(k as nat, refs),
            decreases 6 - k,
        {
            write_shell_ref(&mut out, k);
            assert(concat_items((k + 1) as nat, refs) == concat_items(k as nat, refs) + refs(k as nat));
            assert(out@ =~= s5 + concat_items((k + 1) as nat, refs));
            k = k + 1;
        }
        push_str(&mut out, "));\n");
        push_str(&mut out, "#");
        push_dec(&mut out, 114);
        push_str(&mut out, " = MANIFOLD_SOLID_BREP('sapphire_waveguide', #");
        push_dec(&mut out, 113);
        push_str(&mut out, ");\n");
        push_str(&mut out, "ENDSEC;\nEND-ISO-10303-21;\n");
        assert(out@ =~= step_document(l, w, h));
        out
    }
}

} // verus!
