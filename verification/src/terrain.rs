//! The topology of the terrain mesh: a square grid of vertices, row after row,
//! and two triangles for every cell between them.

use vstd::prelude::*;

verus! {

/// The number of height samples along each side of the terrain.
pub const TERRAIN_SIZE: u32 = 200;

/// World units for each height sample along a side.
pub const TERRAIN_SCALE: u32 = 2;

/// How often the ground texture repeats across the terrain.
pub const TEXTURE_TILE_FACTOR: u32 = 20;

/// The number of cells along a side of a grid with `size` vertices along a side.
pub open spec fn cells_along(size: nat) -> nat {
    if size >= 1 {
        (size - 1) as nat
    } else {
        0
    }
}

/// The place of the vertex in column `x` of row `z` among the vertices.
pub open spec fn vertex_index_spec(size: nat, x: nat, z: nat) -> nat {
    z * size + x
}

/// The six vertices of the two triangles of the cell whose corner nearest the
/// origin is the vertex in column `x` of row `z`: the corner, the vertex below
/// it and the vertex beside it, then the vertex beside it, the vertex below it
/// and the vertex across.
pub open spec fn cell_triangles(size: nat, x: nat, z: nat) -> Seq<nat> {
    let corner = vertex_index_spec(size, x, z);
    seq![corner, corner + size, corner + 1, corner + 1, corner + size, corner + size + 1]
}

/// Whether `indices` lists the triangles of every cell, row of cells after row,
/// and nothing else.
pub open spec fn is_terrain_indices(indices: Seq<u32>, size: nat) -> bool {
    let cells = cells_along(size);
    &&& indices.len() == 6 * (cells * cells)
    &&& forall|x: nat, z: nat, k: int|
        x < cells && z < cells && 0 <= k < 6 ==> (#[trigger] indices[6 * (z * cells + x) + k])
            == cell_triangles(size, x, z)[k]
}

/// In a grid `stride` wide, a place in an earlier row, or earlier in the same
/// row, has a smaller index.
pub proof fn lemma_row_major(stride: nat, x1: nat, z1: nat, x2: nat, z2: nat)
    requires
        x1 < stride,
        z1 < z2 || (z1 == z2 && x1 < x2),
    ensures
        z1 * stride + x1 < z2 * stride + x2,
{
    if z1 < z2 {
        assert((z1 + 1) * stride <= z2 * stride) by (nonlinear_arith)
            requires
                z1 + 1 <= z2,
        ;
        assert((z1 + 1) * stride == z1 * stride + stride) by (nonlinear_arith);
    }
}

/// Every place of a grid has an index below the number of places, and the
/// vertices of a cell's triangles are vertices of the grid.
pub proof fn lemma_cell_in_grid(size: nat, x: nat, z: nat)
    requires
        x < cells_along(size),
        z < cells_along(size),
    ensures
        vertex_index_spec(size, x, z) + size + 1 < size * size,
        z * cells_along(size) + x < cells_along(size) * cells_along(size),
{
    let cells = cells_along(size);
    assert((z + 2) * size <= size * size) by (nonlinear_arith)
        requires
            z + 2 <= size,
    ;
    assert((z + 2) * size == z * size + size + size) by (nonlinear_arith);
    assert((z + 1) * cells <= cells * cells) by (nonlinear_arith)
        requires
            z + 1 <= cells,
    ;
    assert((z + 1) * cells == z * cells + cells) by (nonlinear_arith);
}

/// The largest grid whose vertices a mesh index can tell apart.
pub const MAX_TERRAIN_SIZE: u32 = 65536;

/// A grid within the largest has fewer vertices than there are mesh indices.
pub proof fn lemma_vertices_fit(size: nat)
    requires
        size <= MAX_TERRAIN_SIZE,
    ensures
        size * size <= 0x1_0000_0000,
{
    assert(size * size <= 65536 * 65536) by (nonlinear_arith)
        requires
            size <= 65536,
    ;
}

/// The place of the vertex in column `x` of row `z` among the vertices.
pub fn vertex_index(size: u32, x: u32, z: u32) -> (r: u32)
    requires
        size <= MAX_TERRAIN_SIZE,
        x < size,
        z < size,
    ensures
        r == vertex_index_spec(size as nat, x as nat, z as nat),
        r < size * size,
{
    proof {
        lemma_row_major(size as nat, x as nat, z as nat, 0, size as nat);
        lemma_vertices_fit(size as nat);
        assert(0 <= z * size) by (nonlinear_arith)
            requires
                0 <= z,
                0 <= size,
        ;
    }
    let at: u64 = z as u64 * size as u64 + x as u64;
    at as u32
}

/// Whether the normal of the vertex in column `x` of row `z` is taken from the
/// heights of its four neighbours. A vertex on the rim has not all four, and
/// points straight up.
pub open spec fn is_interior_spec(size: nat, x: nat, z: nat) -> bool {
    1 <= x && x + 1 < size && 1 <= z && z + 1 < size
}

/// Whether the normal of the vertex in column `x` of row `z` is taken from the
/// heights of its four neighbours.
pub fn is_interior(size: u32, x: u32, z: u32) -> (r: bool)
    ensures
        r == is_interior_spec(size as nat, x as nat, z as nat),
{
    1 <= x && x < size && x + 1 < size && 1 <= z && z < size && z + 1 < size
}

/// The indices of the terrain's triangles.
pub fn terrain_indices(size: u32) -> (indices: Vec<u32>)
    requires
        size <= MAX_TERRAIN_SIZE,
    ensures
        is_terrain_indices(indices@, size as nat),
{
    let cells: u32 = if size >= 1 {
        size - 1
    } else {
        0
    };
    let mut indices: Vec<u32> = Vec::new();
    let mut z: u32 = 0;
    while z < cells
        invariant
            z <= cells,
            cells == cells_along(size as nat),
            size <= MAX_TERRAIN_SIZE,
            indices@.len() == 6 * (z * cells),
            forall|cx: nat, cz: nat, k: int|
                cx < cells && cz < z && 0 <= k < 6 ==> (#[trigger] indices@[6 * (cz * cells + cx)
                    + k]) == cell_triangles(size as nat, cx, cz)[k],
        decreases cells - z,
    {
        let mut x: u32 = 0;
        while x < cells
            invariant
                x <= cells,
                z < cells,
                cells == cells_along(size as nat),
                size <= MAX_TERRAIN_SIZE,
                indices@.len() == 6 * (z * cells + x),
                forall|cx: nat, cz: nat, k: int|
                    cx < cells && (cz < z || (cz == z && cx < x)) && 0 <= k < 6 ==> (
                    #[trigger] indices@[6 * (cz * cells + cx) + k]) == cell_triangles(
                        size as nat,
                        cx,
                        cz,
                    )[k],
            decreases cells - x,
        {
            proof {
                lemma_cell_in_grid(size as nat, x as nat, z as nat);
                lemma_vertices_fit(size as nat);
                assert(0 <= z * size) by (nonlinear_arith)
                    requires
                        0 <= z,
                        0 <= size,
                ;
            }
            let corner: u64 = z as u64 * size as u64 + x as u64;
            let top_left: u32 = corner as u32;
            let top_right: u32 = top_left + 1;
            let bottom_left: u32 = top_left + size;
            let bottom_right: u32 = bottom_left + 1;
            let ghost earlier = indices@;
            indices.push(top_left);
            indices.push(bottom_left);
            indices.push(top_right);
            indices.push(top_right);
            indices.push(bottom_left);
            indices.push(bottom_right);
            proof {
                let here = 6 * (z * cells + x);
                assert(6 * (z * cells + (x + 1)) == here + 6) by (nonlinear_arith)
                    requires
                        here == 6 * (z * cells + x),
                ;
                assert forall|cx: nat, cz: nat, k: int|
                    cx < cells && (cz < z || (cz == z && cx < x + 1)) && 0 <= k < 6 implies (
                #[trigger] indices@[6 * (cz * cells + cx) + k]) == cell_triangles(
                    size as nat,
                    cx,
                    cz,
                )[k] by {
                    if cz < z || (cz == z && cx < x) {
                        lemma_row_major(cells as nat, cx, cz, x as nat, z as nat);
                        assert(6 * (cz * cells + cx) + k < here);
                        assert(indices@[6 * (cz * cells + cx) + k] == earlier[6 * (cz * cells
                            + cx) + k]);
                    } else {
                        assert(cx == x && cz == z);
                    }
                }
            }
            x += 1;
        }
        proof {
            assert(6 * ((z + 1) * cells) == 6 * (z * cells + cells)) by (nonlinear_arith);
        }
        z += 1;
    }
    proof {
        assert(z == cells);
    }
    indices
}

/// Lays height samples out as the mesh's vertices stand: the vertex in column
/// `x` of row `z` gets the sample `heights[x][z]`, so that mesh and collider are
/// made of the same samples. `H` is the engine's measure of height.
pub fn vertex_heights<H: Copy>(heights: &Vec<Vec<H>>, size: u32) -> (r: Vec<H>)
    requires
        heights@.len() == size,
        forall|x: int| 0 <= x < size ==> (#[trigger] heights@[x])@.len() == size,
    ensures
        r@.len() == size * size,
        forall|x: int, z: int|
            0 <= x < size && 0 <= z < size ==> #[trigger] r@[z * size + x] == heights@[x]@[z],
{
    let mut r: Vec<H> = Vec::new();
    let mut z: u32 = 0;
    while z < size
        invariant
            z <= size,
            heights@.len() == size,
            forall|x: int| 0 <= x < size ==> (#[trigger] heights@[x])@.len() == size,
            r@.len() == z * size,
            forall|cx: int, cz: int|
                0 <= cx < size && 0 <= cz < z ==> #[trigger] r@[cz * size + cx] == heights@[cx]@[cz],
        decreases size - z,
    {
        let mut x: u32 = 0;
        while x < size
            invariant
                x <= size,
                z < size,
                heights@.len() == size,
                forall|x: int| 0 <= x < size ==> (#[trigger] heights@[x])@.len() == size,
                r@.len() == z * size + x,
                forall|cx: int, cz: int|
                    0 <= cx < size && 0 <= cz && (cz < z || (cz == z && cx < x))
                        ==> #[trigger] r@[cz * size + cx] == heights@[cx]@[cz],
            decreases size - x,
        {
            let column = &heights[x as usize];
            let sample = column[z as usize];
            let ghost earlier = r@;
            r.push(sample);
            proof {
                assert forall|cx: int, cz: int|
                    0 <= cx < size && 0 <= cz && (cz < z || (cz == z && cx < x + 1)) implies #[trigger] r@[cz
                    * size + cx] == heights@[cx]@[cz] by {
                    if cz < z || (cz == z && cx < x) {
                        lemma_row_major(size as nat, cx as nat, cz as nat, x as nat, z as nat);
                        assert(r@[cz * size + cx] == earlier[cz * size + cx]);
                    }
                }
            }
            x += 1;
        }
        proof {
            assert((z + 1) * size == z * size + size) by (nonlinear_arith);
        }
        z += 1;
    }
    r
}

/// Every index names a vertex of the grid, and no triangle names a vertex twice.
pub proof fn lemma_triangles_are_sound(indices: Seq<u32>, size: nat, x: nat, z: nat)
    requires
        is_terrain_indices(indices, size),
        x < cells_along(size),
        z < cells_along(size),
    ensures
        ({
            let at: int = (6 * (z * cells_along(size) + x)) as int;
            &&& at + 6 <= indices.len()
            &&& forall|k: int| 0 <= k < 6 ==> (#[trigger] indices[at + k]) < size * size
            &&& indices[at] != indices[at + 1] && indices[at + 1] != indices[at + 2] && indices[at]
                != indices[at + 2]
            &&& indices[at + 3] != indices[at + 4] && indices[at + 4] != indices[at + 5]
                && indices[at + 3] != indices[at + 5]
        }),
{
    let cells = cells_along(size);
    let at: int = (6 * (z * cells + x)) as int;
    lemma_cell_in_grid(size, x, z);
    assert forall|k: int| 0 <= k < 6 implies (#[trigger] indices[at + k]) == cell_triangles(
        size,
        x,
        z,
    )[k] by {
        assert(indices[6 * (z * cells + x) + k] == cell_triangles(size, x, z)[k]);
    }
    assert(indices[at + 0] == cell_triangles(size, x, z)[0]);
    assert(indices[at + 1] == cell_triangles(size, x, z)[1]);
    assert(indices[at + 2] == cell_triangles(size, x, z)[2]);
    assert(indices[at + 3] == cell_triangles(size, x, z)[3]);
    assert(indices[at + 4] == cell_triangles(size, x, z)[4]);
    assert(indices[at + 5] == cell_triangles(size, x, z)[5]);
}

} // verus!
