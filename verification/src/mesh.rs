//! Meshes: where mesh files live, and how the triangles of a model become
//! a vertex list.
use vstd::prelude::*;

verus! {

/// Where mesh files live.
pub open spec fn meshes_folder() -> Seq<char> {
    "assets/meshes/"@
}

/// The path of the mesh file `file_name`.
pub fn mesh_file_path(file_name: &str) -> (path: String)
    ensures
        path@ == meshes_folder() + file_name@,
{
    let mut path = String::from_str("assets/meshes/");
    proof {
        reveal_strlit("assets/meshes/");
    }
    path.append(file_name);
    path
}

/// The vertex list of a model: for each triangle in order, its three
/// corners in order, each with the number of its corner (0, 1 or 2), which
/// picks its color; and the number of vertices.
pub fn triangle_corner_vertices<P: Copy>(triangles: &Vec<[P; 3]>) -> (r: (Vec<(P, usize)>, usize))
    requires
        3 * triangles.len() <= usize::MAX,
    ensures
        r.0.len() == 3 * triangles.len(),
        r.1 == r.0.len(),
        forall|i: int, k: int|
            0 <= i < triangles.len() && 0 <= k < 3 ==> #[trigger] r.0@[3 * i + k] == (
                triangles@[i]@[k],
                k as usize,
            ),
{
    let mut verts: Vec<(P, usize)> = Vec::new();
    let mut t: usize = 0;
    while t < triangles.len()
        invariant
            t <= triangles.len(),
            3 * triangles.len() <= usize::MAX,
            verts.len() == 3 * t,
            forall|i: int, k: int|
                0 <= i < t && 0 <= k < 3 ==> #[trigger] verts@[3 * i + k] == (
                    triangles@[i]@[k],
                    k as usize,
                ),
        decreases triangles.len() - t,
    {
        let tri = triangles[t];
        verts.push((tri[0], 0));
        verts.push((tri[1], 1));
        verts.push((tri[2], 2));
        proof {
            assert forall|i: int, k: int| 0 <= i < t + 1 && 0 <= k < 3 implies #[trigger] verts@[3
                * i + k] == (triangles@[i]@[k], k as usize) by {
                if i == t {
                    assert(3 * i + k == 3 * t + k);
                } else {
                    assert(3 * i + k < 3 * t);
                }
            }
        }
        t += 1;
    }
    let count = verts.len();
    (verts, count)
}

} // verus!
