//! The triangle indices of the video mesh: six faces, each a grid of
//! `size x size` quads over `(size + 1) x (size + 1)` vertices, two triangles
//! per quad.

use vstd::prelude::*;

use vstd::arithmetic::div_mod::lemma_fundamental_div_mod_converse;

verus! {

/// The offset of corner `k` of a quad from its top-left vertex, in a grid
/// whose rows hold `row` vertices: triangles (0, 1, row) and
/// (1, row + 1, row).
pub open spec fn corner_offset(k: int, row: int) -> int {
    if k == 0 {
        0
    } else if k == 1 {
        1
    } else if k == 2 {
        row
    } else if k == 3 {
        1
    } else if k == 4 {
        row + 1
    } else {
        row
    }
}

/// The vertex index of corner `k` of the quad at column `x` and row `y` of
/// face `face`, in a mesh of `size x size` quads per face.
pub open spec fn quad_corner(size: int, face: int, y: int, x: int, k: int) -> int {
    let row = size + 1;
    face * (row * row) + y * row + x + corner_offset(k, row)
}

/// The position of that corner in the index list.
pub open spec fn quad_position(size: int, face: int, y: int, x: int, k: int) -> int {
    ((face * size + y) * size + x) * 6 + k
}

/// The index stored at position `p` of the index list.
pub open spec fn index_at(size: int, p: int) -> int {
    let quad = p / 6;
    let k = p % 6;
    let x = quad % size;
    let rest = quad / size;
    let y = rest % size;
    let face = rest / size;
    quad_corner(size, face, y, x, k)
}

/// The number of vertices of the mesh.
pub open spec fn mesh_vertex_count(size: int) -> int {
    6 * ((size + 1) * (size + 1))
}

/// The number of indices of the mesh.
pub open spec fn mesh_index_count(size: int) -> int {
    36 * (size * size)
}

proof fn lemma_decode(size: int, face: int, y: int, x: int, k: int)
    requires
        size > 0,
        0 <= face,
        0 <= y < size,
        0 <= x < size,
        0 <= k < 6,
    ensures
        index_at(size, quad_position(size, face, y, x, k)) == quad_corner(size, face, y, x, k),
{
    let quad = (face * size + y) * size + x;
    let p = quad * 6 + k;
    lemma_fundamental_div_mod_converse(p, 6, quad, k);
    lemma_fundamental_div_mod_converse(quad, size, face * size + y, x);
    lemma_fundamental_div_mod_converse(face * size + y, size, face, y);
}

proof fn lemma_corner_bound(size: int, face: int, y: int, x: int, k: int)
    requires
        size > 0,
        0 <= face < 6,
        0 <= y < size,
        0 <= x < size,
        0 <= k < 6,
    ensures
        0 <= quad_corner(size, face, y, x, k) < mesh_vertex_count(size),
        quad_corner(size, face, y, x, k) < (face + 1) * ((size + 1) * (size + 1)),
{
    let row = size + 1;
    assert(y * row <= (size - 1) * row) by (nonlinear_arith)
        requires
            y <= size - 1,
            row >= 0,
    ;
    assert((size - 1) * row + (size - 1) + row + 1 == row * row - 1) by (nonlinear_arith)
        requires
            row == size + 1,
    ;
    assert(0 <= y * row) by (nonlinear_arith)
        requires
            0 <= y,
            0 <= row,
    ;
    assert(0 <= face * (row * row)) by (nonlinear_arith)
        requires
            0 <= face,
    ;
    assert(face * (row * row) + row * row == (face + 1) * (row * row)) by (nonlinear_arith);
    assert((face + 1) * (row * row) <= 6 * (row * row)) by (nonlinear_arith)
        requires
            face + 1 <= 6,
    ;
}

proof fn lemma_position_layout(size: int, face: int, y: int, x: int)
    requires
        size > 0,
        0 <= face,
        0 <= y < size,
        0 <= x < size,
    ensures
        quad_position(size, face, y, x, 0) + 6 == quad_position(size, face, y, x + 1, 0),
        x + 1 == size ==> quad_position(size, face, y, x + 1, 0) == quad_position(
            size,
            face,
            y + 1,
            0,
            0,
        ),
        y + 1 == size ==> quad_position(size, face, y + 1, 0, 0) == quad_position(
            size,
            face + 1,
            0,
            0,
            0,
        ),
        quad_position(size, 0, 0, 0, 0) == 0,
        quad_position(size, 6, 0, 0, 0) == mesh_index_count(size),
{
    assert(quad_position(size, face, y, x + 1, 0) == quad_position(size, face, y, x, 0) + 6)
        by (nonlinear_arith);
    assert(((face * size + y) * size + size) * 6 == ((face * size + y + 1) * size) * 6)
        by (nonlinear_arith);
    assert(((face * size + size) * size) * 6 == (((face + 1) * size) * size) * 6)
        by (nonlinear_arith);
    assert(quad_position(size, 6, 0, 0, 0) == 36 * (size * size)) by (nonlinear_arith);
}

/// The triangle indices of the mesh: for each face, row and column, the two
/// triangles of that quad.
pub fn build_mesh_indices(size: u32) -> (r: Vec<u32>)
    requires
        mesh_index_count(size as int) <= u32::MAX,
        mesh_vertex_count(size as int) <= u32::MAX,
    ensures
        r@.len() == mesh_index_count(size as int),
        forall|p: int| 0 <= p < r@.len() ==> #[trigger] r@[p] == index_at(size as int, p),
        forall|face: int, y: int, x: int, k: int|
            0 <= face < 6 && 0 <= y < size && 0 <= x < size && 0 <= k < 6 ==> #[trigger] r@[quad_position(
                size as int,
                face,
                y,
                x,
                k,
            )] == quad_corner(size as int, face, y, x, k),
        forall|p: int| 0 <= p < r@.len() ==> #[trigger] r@[p] < mesh_vertex_count(size as int),
{
    let mut indices: Vec<u32> = Vec::new();
    if size == 0 {
        proof {
            assert((size as int) * (size as int) == 0) by (nonlinear_arith)
                requires
                    size == 0,
            ;
        }
        return indices;
    }
    proof {
        assert(size + 1 <= 6 * ((size + 1) * (size + 1))) by (nonlinear_arith)
            requires
                size >= 1,
        ;
    }
    let row: u32 = size + 1;
    let ghost sz = size as int;
    proof {
        assert(row * row <= 6 * (row * row)) by (nonlinear_arith);
    }
    let face_vertices: u32 = row * row;
    let mut face: u32 = 0;
    while face < 6
        invariant
            sz == size as int,
            sz > 0,
            row == size + 1,
            face_vertices == row * row,
            mesh_index_count(sz) <= u32::MAX,
            mesh_vertex_count(sz) <= u32::MAX,
            face <= 6,
            indices@.len() == quad_position(sz, face as int, 0, 0, 0),
            forall|p: int| 0 <= p < indices@.len() ==> #[trigger] indices@[p] == index_at(sz, p),
        decreases 6 - face,
    {
        proof {
            assert(face * face_vertices <= 6 * (row * row)) by (nonlinear_arith)
                requires
                    face <= 6,
                    face_vertices == row * row,
            ;
        }
        let base: u32 = face * face_vertices;
        let mut y: u32 = 0;
        while y < size
            invariant
                sz == size as int,
                sz > 0,
                row == size + 1,
                face_vertices == row * row,
                base == face * face_vertices,
                mesh_index_count(sz) <= u32::MAX,
                mesh_vertex_count(sz) <= u32::MAX,
                face < 6,
                y <= size,
                indices@.len() == quad_position(sz, face as int, y as int, 0, 0),
                forall|p: int| 0 <= p < indices@.len() ==> #[trigger] indices@[p] == index_at(sz, p),
            decreases size - y,
        {
            let mut x: u32 = 0;
            while x < size
                invariant
                    sz == size as int,
                    sz > 0,
                    row == size + 1,
                    face_vertices == row * row,
                    base == face * face_vertices,
                    mesh_index_count(sz) <= u32::MAX,
                    mesh_vertex_count(sz) <= u32::MAX,
                    face < 6,
                    y < size,
                    x <= size,
                    indices@.len() == quad_position(sz, face as int, y as int, x as int, 0),
                    forall|p: int|
                        0 <= p < indices@.len() ==> #[trigger] indices@[p] == index_at(sz, p),
                decreases size - x,
            {
                proof {
                    lemma_corner_bound(sz, face as int, y as int, x as int, 4);
                    assert(y * row <= u32::MAX) by (nonlinear_arith)
                        requires
                            y < size,
                            row == size + 1,
                            base + y * row + x + row + 1 < 6 * (row * row),
                            6 * (row * row) <= u32::MAX,
                            0 <= base,
                    ;
                }
                let i: u32 = base + y * row + x;
                let corners: [u32; 6] = [i, i + 1, i + row, i + 1, i + row + 1, i + row];
                let mut k: usize = 0;
                while k < 6
                    invariant
                        sz == size as int,
                        sz > 0,
                        row == size + 1,
                        face < 6,
                        y < size,
                        x < size,
                        k <= 6,
                        forall|j: int|
                            0 <= j < 6 ==> #[trigger] corners@[j] == quad_corner(
                                sz,
                                face as int,
                                y as int,
                                x as int,
                                j,
                            ),
                        indices@.len() == quad_position(sz, face as int, y as int, x as int, k as int),
                        forall|p: int|
                            0 <= p < indices@.len() ==> #[trigger] indices@[p] == index_at(sz, p),
                    decreases 6 - k,
                {
                    proof {
                        lemma_decode(sz, face as int, y as int, x as int, k as int);
                    }
                    indices.push(corners[k]);
                    k = k + 1;
                }
                proof {
                    lemma_position_layout(sz, face as int, y as int, x as int);
                }
                x = x + 1;
            }
            proof {
                lemma_position_layout(sz, face as int, y as int, (sz - 1));
            }
            y = y + 1;
        }
        proof {
            lemma_position_layout(sz, face as int, sz - 1, 0);
            lemma_position_layout(sz, face as int, sz - 1, sz - 1);
        }
        face = face + 1;
    }
    proof {
        lemma_position_layout(sz, 0, 0, 0);
        assert forall|face: int, y: int, x: int, k: int|
            0 <= face < 6 && 0 <= y < size && 0 <= x < size && 0 <= k < 6 implies #[trigger] indices@[quad_position(
                sz,
                face,
                y,
                x,
                k,
            )] == quad_corner(sz, face, y, x, k) by {
            lemma_decode(sz, face, y, x, k);
            lemma_quad_position_bound(sz, face, y, x, k);
        }
        assert forall|p: int| 0 <= p < indices@.len() implies #[trigger] indices@[p]
            < mesh_vertex_count(sz) by {
            lemma_index_at_bound(sz, p);
        }
    }
    indices
}

proof fn lemma_quad_position_bound(size: int, face: int, y: int, x: int, k: int)
    requires
        size > 0,
        0 <= face < 6,
        0 <= y < size,
        0 <= x < size,
        0 <= k < 6,
    ensures
        0 <= quad_position(size, face, y, x, k) < mesh_index_count(size),
{
    assert(0 <= (face * size + y) * size + x) by (nonlinear_arith)
        requires
            0 <= face,
            0 <= y,
            0 <= x,
            size > 0,
    ;
    assert((face * size + y) * size + x < 6 * (size * size)) by (nonlinear_arith)
        requires
            face <= 5,
            y <= size - 1,
            x <= size - 1,
            size > 0,
    ;
}

proof fn lemma_index_at_bound(size: int, p: int)
    requires
        size > 0,
        0 <= p < mesh_index_count(size),
    ensures
        index_at(size, p) < mesh_vertex_count(size),
{
    let quad = p / 6;
    let k = p % 6;
    let x = quad % size;
    let rest = quad / size;
    let y = rest % size;
    let face = rest / size;
    assert(0 <= quad < 6 * (size * size)) by (nonlinear_arith)
        requires
            quad == p / 6,
            0 <= p < 36 * (size * size),
    ;
    assert(0 <= rest < 6 * size) by (nonlinear_arith)
        requires
            rest == quad / size,
            0 <= quad < 6 * (size * size),
            size > 0,
    ;
    assert(0 <= face < 6) by (nonlinear_arith)
        requires
            face == rest / size,
            0 <= rest < 6 * size,
            size > 0,
    ;
    lemma_corner_bound(size, face, y, x, k);
}

} // verus!
