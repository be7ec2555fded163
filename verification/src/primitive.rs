//! Mesh payload data: vertices and the built-in cube.
//!
//! A vertex is a homogeneous fixed-point position and a texture coordinate.
//! Mesh payloads are supplied by types implementing `RenderData`, which name
//! themselves with a stable key and hand out their vertex and index data.

use crate::fx::FX_ONE;
use crate::math::{Vec2Fx, Vec4Fx};
use vstd::prelude::*;

verus! {

/// One mesh vertex: a homogeneous position and a texture coordinate, both in
/// fixed point.
#[derive(Clone, Copy, Debug, PartialEq, Eq, Structural)]
pub struct Vertex {
    pub pos: Vec4Fx,
    pub tex_coord: Vec2Fx,
}

/// Build a vertex from small integer coordinates, scaling them into fixed
/// point; the homogeneous coordinate is one.
pub fn vertex(pos: [i8; 3], tc: [i8; 2]) -> (v: Vertex)
    ensures
        v.pos.x as int == pos@[0] as int * FX_ONE as int,
        v.pos.y as int == pos@[1] as int * FX_ONE as int,
        v.pos.z as int == pos@[2] as int * FX_ONE as int,
        v.pos.w == FX_ONE,
        v.tex_coord.x as int == tc@[0] as int * FX_ONE as int,
        v.tex_coord.y as int == tc@[1] as int * FX_ONE as int,
{
    Vertex {
        pos: Vec4Fx {
            x: (pos[0] as i64) * FX_ONE,
            y: (pos[1] as i64) * FX_ONE,
            z: (pos[2] as i64) * FX_ONE,
            w: FX_ONE,
        },
        tex_coord: Vec2Fx { x: (tc[0] as i64) * FX_ONE, y: (tc[1] as i64) * FX_ONE },
    }
}

/// A mesh payload: a stable identity key plus vertex and index data.
pub trait RenderData {
    /// The key under which the resource cache stores this mesh.
    spec fn spec_identifier() -> Seq<char>;

    /// How many vertices `vertex_data` yields.
    spec fn spec_vertex_count() -> nat;

    /// How many indices `index_data` yields.
    spec fn spec_index_count() -> nat;

    /// The mesh's identity key.
    fn identifier() -> (s: String)
        ensures
            s@ == Self::spec_identifier(),
    ;

    /// The mesh's vertices.
    fn vertex_data() -> (v: Vec<Vertex>)
        ensures
            v@.len() == Self::spec_vertex_count(),
    ;

    /// The mesh's triangle indices.
    fn index_data() -> (v: Vec<u16>)
        ensures
            v@.len() == Self::spec_index_count(),
    ;
}

/// The built-in unit cube: 24 vertices (four per face) and 36 indices.
pub struct Cube;

impl RenderData for Cube {
    open spec fn spec_identifier() -> Seq<char> {
        "cube"@
    }

    open spec fn spec_vertex_count() -> nat {
        24
    }

    open spec fn spec_index_count() -> nat {
        36
    }

    fn identifier() -> (s: String)
        ensures
            s@ == Self::spec_identifier(),
    {
        "cube".to_owned()
    }

    fn vertex_data() -> (v: Vec<Vertex>)
        ensures
            v@.len() == Self::spec_vertex_count(),
    {
        let mut v: Vec<Vertex> = Vec::new();
        v.push(vertex([-1, -1, 1], [0, 0]));
        v.push(vertex([1, -1, 1], [1, 0]));
        v.push(vertex([1, 1, 1], [1, 1]));
        v.push(vertex([-1, 1, 1], [0, 1]));
        v.push(vertex([-1, 1, -1], [1, 0]));
        v.push(vertex([1, 1, -1], [0, 0]));
        v.push(vertex([1, -1, -1], [0, 1]));
        v.push(vertex([-1, -1, -1], [1, 1]));
        v.push(vertex([1, -1, -1], [0, 0]));
        v.push(vertex([1, 1, -1], [1, 0]));
        v.push(vertex([1, 1, 1], [1, 1]));
        v.push(vertex([1, -1, 1], [0, 1]));
        v.push(vertex([-1, -1, 1], [1, 0]));
        v.push(vertex([-1, 1, 1], [0, 0]));
        v.push(vertex([-1, 1, -1], [0, 1]));
        v.push(vertex([-1, -1, -1], [1, 1]));
        v.push(vertex([1, 1, -1], [1, 0]));
        v.push(vertex([-1, 1, -1], [0, 0]));
        v.push(vertex([-1, 1, 1], [0, 1]));
        v.push(vertex([1, 1, 1], [1, 1]));
        v.push(vertex([1, -1, 1], [0, 0]));
        v.push(vertex([-1, -1, 1], [1, 0]));
        v.push(vertex([-1, -1, -1], [1, 1]));
        v.push(vertex([1, -1, -1], [0, 1]));
        v
    }

    fn index_data() -> (v: Vec<u16>)
        ensures
            v@.len() == Self::spec_index_count(),
    {
        let mut v: Vec<u16> = Vec::new();
        v.push(0);
        v.push(1);
        v.push(2);
        v.push(2);
        v.push(3);
        v.push(0);
        v.push(4);
        v.push(5);
        v.push(6);
        v.push(6);
        v.push(7);
        v.push(4);
        v.push(8);
        v.push(9);
        v.push(10);
        v.push(10);
        v.push(11);
        v.push(8);
        v.push(12);
        v.push(13);
        v.push(14);
        v.push(14);
        v.push(15);
        v.push(12);
        v.push(16);
        v.push(17);
        v.push(18);
        v.push(18);
        v.push(19);
        v.push(16);
        v.push(20);
        v.push(21);
        v.push(22);
        v.push(22);
        v.push(23);
        v.push(20);
        v
    }
}

} // verus!
