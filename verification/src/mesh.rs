//! The static screen-filling quad: two triangles over normalized device
//! coordinates, three components per vertex, z always 0.

use vstd::prelude::*;

verus! {

/// The 6 quad vertices, flattened: x, y, z per vertex, corners at
/// plus and minus one.
pub open spec fn quad_vertices_spec() -> Seq<i64> {
    seq![
        -1i64,
        -1i64,
        0i64,
        1i64,
        -1i64,
        0i64,
        -1i64,
        1i64,
        0i64,
        -1i64,
        1i64,
        0i64,
        1i64,
        -1i64,
        0i64,
        1i64,
        1i64,
        0i64,
    ]
}

/// Build the quad vertex data uploaded once at startup.
pub fn quad_vertices() -> (v: Vec<i64>)
    ensures
        v@ == quad_vertices_spec(),
        v@.len() == 18,
{
    let mut v: Vec<i64> = Vec::new();
    v.push(-1);
    v.push(-1);
    v.push(0);
    v.push(1);
    v.push(-1);
    v.push(0);
    v.push(-1);
    v.push(1);
    v.push(0);
    v.push(-1);
    v.push(1);
    v.push(0);
    v.push(1);
    v.push(-1);
    v.push(0);
    v.push(1);
    v.push(1);
    v.push(0);
    proof {
        assert(v@ =~= quad_vertices_spec());
    }
    v
}

} // verus!
