use vstd::prelude::*;
use vstd::arithmetic::div_mod::lemma_fundamental_div_mod_converse;

use crate::png_loader::PngLoader;

verus! {

/// Half the number of 24-bit colours. A packed colour minus this value lies
/// in `[-HALF_PIXEL_COLOUR, HALF_PIXEL_COLOUR)`, the range that the renderer
/// scales to `[-1, 1)` times the maximum terrain height.
pub const HALF_PIXEL_COLOUR: i32 = 8388608;

/// The most vertices per side whose indices all fit in a `u32`.
pub const MAX_VERTEX_COUNT: usize = 65536;

/// A grid of `n` vertices per side can be built: at least two, every vertex
/// index fits in a `u32`, and the index list's length in a `usize`.
pub open spec fn grid_size_fits(n: nat) -> bool {
    2 <= n <= MAX_VERTEX_COUNT && 6 * (n - 1) * (n - 1) <= usize::MAX
}

/// A vertex of the terrain grid: column `x`, row `z`.
#[derive(Debug, Clone, Copy, PartialEq, Eq, Structural)]
pub struct GridPoint {
    pub x: usize,
    pub z: usize,
}

pub open spec fn point(x: int, z: int) -> GridPoint {
    GridPoint { x: x as usize, z: z as usize }
}

/// Entry `t` (0 to 5) of the two triangles that cover cell (gx, gz) of a grid
/// with `n` vertices per side, vertices numbered row by row. The triangles are
/// (top left, bottom left, top right) and (top right, bottom left, bottom
/// right), in that winding.
pub open spec fn cell_corner_index(n: int, gx: int, gz: int, t: int) -> int {
    let top_left = gz * n + gx;
    if t == 0 {
        top_left
    } else if t == 1 || t == 4 {
        top_left + n
    } else if t == 2 || t == 3 {
        top_left + 1
    } else {
        top_left + n + 1
    }
}

/// Entry `p` of the index list: cells come row by row, six entries each.
pub open spec fn index_entry(n: int, p: int) -> int {
    let cell = p / 6;
    cell_corner_index(n, cell % (n - 1), cell / (n - 1), p % 6)
}

/// The three corners of the triangle of cell (gx, gz) that a height query
/// reads, or none where the cell lies outside the grid, on either side. The
/// first triangle has its corners at unit offsets (0, 0), (1, 0), (0, 1) of
/// the cell, the second at (1, 0), (1, 1), (0, 1).
pub open spec fn spec_triangle(n: int, gx: int, gz: int, first: bool) -> Option<
    (GridPoint, GridPoint, GridPoint),
> {
    if gx < 0 || gz < 0 || gx >= n - 1 || gz >= n - 1 {
        None
    } else if first {
        Some((point(gx, gz), point(gx + 1, gz), point(gx, gz + 1)))
    } else {
        Some((point(gx + 1, gz), point(gx + 1, gz + 1), point(gx, gz + 1)))
    }
}

proof fn lemma_entry_of_cell(n: int, gx: int, gz: int, t: int)
    requires
        2 <= n,
        0 <= gx < n - 1,
        0 <= gz < n - 1,
        0 <= t < 6,
    ensures
        0 <= 6 * (gz * (n - 1) + gx) + t < 6 * (n - 1) * (n - 1),
        index_entry(n, 6 * (gz * (n - 1) + gx) + t) == cell_corner_index(n, gx, gz, t),
{
    let m = n - 1;
    let cell = gz * m + gx;
    lemma_fundamental_div_mod_converse(6 * cell + t, 6, cell, t);
    lemma_fundamental_div_mod_converse(cell, m, gz, gx);
    assert(0 <= cell < m * m) by (nonlinear_arith)
        requires
            0 <= gx < m,
            0 <= gz < m,
            cell == gz * m + gx,
    ;
    assert(6 * cell + t < 6 * m * m) by (nonlinear_arith)
        requires
            0 <= cell < m * m,
            0 <= t < 6,
    ;
}

/// One terrain tile's grid of height samples, built from a heightmap image.
/// The tile's origin is given in tiles; sample (x, z) comes from pixel
/// column x, row z, as a signed offset from the middle of the colour range.
#[derive(Clone)]
pub struct HeightField {
    tile_x: i32,
    tile_z: i32,
    vertex_count: usize,
    samples: Vec<Vec<i32>>,
}

impl HeightField {
    pub closed spec fn spec_tile_x(&self) -> int {
        self.tile_x as int
    }

    pub closed spec fn spec_tile_z(&self) -> int {
        self.tile_z as int
    }

    pub closed spec fn spec_vertex_count(&self) -> nat {
        self.vertex_count as nat
    }

    pub closed spec fn sample(&self, x: int, z: int) -> int {
        self.samples@[x]@[z] as int
    }

    pub closed spec fn shaped(&self) -> bool {
        &&& self.samples@.len() == self.vertex_count
        &&& forall|x: int|
            0 <= x < self.vertex_count ==> (#[trigger] self.samples@[x])@.len()
                == self.vertex_count
    }

    /// A square grid of at least two vertices per side, small enough that its
    /// index list fits in memory, every sample within half the colour range
    /// of the middle.
    pub open spec fn wf(&self) -> bool {
        &&& self.shaped()
        &&& grid_size_fits(self.spec_vertex_count())
        &&& forall|x: int, z: int|
            0 <= x < self.spec_vertex_count() && 0 <= z < self.spec_vertex_count() ==> -HALF_PIXEL_COLOUR
                <= #[trigger] self.sample(x, z) < HALF_PIXEL_COLOUR
    }

    /// Builds the tile at (tile_x, tile_z) from a loaded heightmap. The image
    /// must be square, with a side that `grid_size_fits`; any other image
    /// gives none.
    pub fn from_image(tile_x: i32, tile_z: i32, image: &PngLoader) -> (r: Option<HeightField>)
        requires
            image.wf(),
        ensures
            r.is_some() <==> (image.spec_width() == image.spec_height() && grid_size_fits(
                image.spec_height(),
            )),
            r.is_some() ==> {
                let f = r.unwrap();
                &&& f.wf()
                &&& f.spec_tile_x() == tile_x
                &&& f.spec_tile_z() == tile_z
                &&& f.spec_vertex_count() == image.spec_height()
                &&& forall|x: int, z: int|
                    0 <= x < f.spec_vertex_count() && 0 <= z < f.spec_vertex_count()
                        ==> #[trigger] f.sample(x, z) == image.rgb_at(x as nat, z as nat)
                        - HALF_PIXEL_COLOUR
            },
    {
        let n = image.get_height();
        if image._get_width() != n || n < 2 || n > MAX_VERTEX_COUNT {
            return None;
        }
        let index_count = match (n - 1).checked_mul(n - 1) {
            Some(cells) => cells.checked_mul(6),
            None => None,
        };
        if index_count.is_none() {
            assert(6 * (n - 1) * (n - 1) > usize::MAX) by (nonlinear_arith)
                requires
                    (n - 1) * (n - 1) > usize::MAX || 6 * ((n - 1) * (n - 1)) > usize::MAX,
                    n >= 2,
            ;
            return None;
        }
        assert(6 * (n - 1) * (n - 1) == ((n - 1) * (n - 1)) * 6) by (nonlinear_arith);
        let mut samples: Vec<Vec<i32>> = Vec::with_capacity(n);
        let mut x: usize = 0;
        while x < n
            invariant
                image.wf(),
                n == image.spec_height(),
                n == image.spec_width(),
                x <= n,
                samples@.len() == x,
                forall|i: int| 0 <= i < x ==> (#[trigger] samples@[i])@.len() == n,
                forall|i: int, j: int|
                    0 <= i < x && 0 <= j < n ==> (#[trigger] samples@[i]@[j]) as int
                        == image.rgb_at(i as nat, j as nat) - HALF_PIXEL_COLOUR,
            decreases n - x,
        {
            let mut column: Vec<i32> = Vec::with_capacity(n);
            let mut z: usize = 0;
            while z < n
                invariant
                    image.wf(),
                    n == image.spec_height(),
                    n == image.spec_width(),
                    x < n,
                    z <= n,
                    column@.len() == z,
                    forall|j: int|
                        0 <= j < z ==> (#[trigger] column@[j]) as int == image.rgb_at(
                            x as nat,
                            j as nat,
                        ) - HALF_PIXEL_COLOUR,
                decreases n - z,
            {
                let packed = image.get_rgb(x, z);
                column.push(packed - HALF_PIXEL_COLOUR);
                z += 1;
            }
            samples.push(column);
            x += 1;
        }
        Some(HeightField { tile_x, tile_z, vertex_count: n, samples })
    }

    pub fn get_tile_x(&self) -> (r: i32)
        ensures
            r == self.spec_tile_x(),
    {
        self.tile_x
    }

    pub fn get_tile_z(&self) -> (r: i32)
        ensures
            r == self.spec_tile_z(),
    {
        self.tile_z
    }

    pub fn get_vertex_count(&self) -> (r: usize)
        ensures
            r == self.spec_vertex_count(),
    {
        self.vertex_count
    }

    /// The sample at vertex (x, z), or none outside the grid.
    pub fn get_sample(&self, x: usize, z: usize) -> (r: Option<i32>)
        requires
            self.wf(),
        ensures
            r.is_some() <==> (x < self.spec_vertex_count() && z < self.spec_vertex_count()),
            r.is_some() ==> r.unwrap() == self.sample(x as int, z as int),
    {
        if x >= self.vertex_count || z >= self.vertex_count {
            return None;
        }
        Some(self.samples[x][z])
    }

    /// The corners of the triangle of cell (grid_x, grid_z) that a height
    /// query at a point of that cell interpolates over: the first triangle
    /// where the point lies on or above the cell's diagonal, the second
    /// below it. Outside the grid, on either side, there is none, and the
    /// query falls back to a height of zero.
    pub fn triangle_at(&self, grid_x: i64, grid_z: i64, first: bool) -> (r: Option<
        (GridPoint, GridPoint, GridPoint),
    >)
        requires
            self.wf(),
        ensures
            r == spec_triangle(self.spec_vertex_count() as int, grid_x as int, grid_z as int, first),
    {
        let last = self.vertex_count - 1;
        if grid_x < 0 || grid_z < 0 || grid_x as u64 >= last as u64 || grid_z as u64 >= last as u64 {
            return None;
        }
        let gx = grid_x as usize;
        let gz = grid_z as usize;
        if first {
            Some(
                (
                    GridPoint { x: gx, z: gz },
                    GridPoint { x: gx + 1, z: gz },
                    GridPoint { x: gx, z: gz + 1 },
                ),
            )
        } else {
            Some(
                (
                    GridPoint { x: gx + 1, z: gz },
                    GridPoint { x: gx + 1, z: gz + 1 },
                    GridPoint { x: gx, z: gz + 1 },
                ),
            )
        }
    }

    /// The triangle index list of the tile's mesh: two triangles per cell,
    /// cells row by row, in the winding of `cell_corner_index`.
    pub fn generate_indices(&self) -> (r: Vec<u32>)
        requires
            self.wf(),
        ensures
            r@.len() == 6 * (self.spec_vertex_count() - 1) * (self.spec_vertex_count() - 1),
            forall|p: int|
                0 <= p < r@.len() ==> (#[trigger] r@[p] as int) < self.spec_vertex_count()
                    * self.spec_vertex_count(),
            forall|p: int|
                0 <= p < r@.len() ==> #[trigger] r@[p] as int == index_entry(
                    self.spec_vertex_count() as int,
                    p,
                ),
            forall|gx: int, gz: int, t: int|
                0 <= gx < self.spec_vertex_count() - 1 && 0 <= gz < self.spec_vertex_count() - 1
                    && 0 <= t < 6 ==> r@[6 * (gz * (self.spec_vertex_count() - 1) + gx) + t] as int
                    == #[trigger] cell_corner_index(self.spec_vertex_count() as int, gx, gz, t),
    {
        let n = self.vertex_count;
        let m = n - 1;
        let mut r: Vec<u32> = Vec::new();
        let mut gz: usize = 0;
        while gz < m
            invariant
                grid_size_fits(n as nat),
                m == n - 1,
                gz <= m,
                r@.len() == 6 * (gz * m),
                forall|p: int| 0 <= p < r@.len() ==> #[trigger] r@[p] as int == index_entry(n as int, p),
                forall|p: int| 0 <= p < r@.len() ==> (#[trigger] r@[p] as int) < n * n,
            decreases m - gz,
        {
            let mut gx: usize = 0;
            while gx < m
                invariant
                    grid_size_fits(n as nat),
                    m == n - 1,
                    gz < m,
                    gx <= m,
                    r@.len() == 6 * (gz * m + gx),
                    forall|p: int|
                        0 <= p < r@.len() ==> #[trigger] r@[p] as int == index_entry(n as int, p),
                    forall|p: int| 0 <= p < r@.len() ==> (#[trigger] r@[p] as int) < n * n,
                decreases m - gx,
            {
                proof {
                    assert(gz * n + gx + n + 1 < n * n) by (nonlinear_arith)
                        requires
                            gz < m,
                            gx < m,
                            m == n - 1,
                    ;
                    assert(n * n <= 4294967296) by (nonlinear_arith)
                        requires
                            n <= 65536,
                    ;
                    assert(6 * (gz * m + gx) + 6 <= 6 * (m * m)) by (nonlinear_arith)
                        requires
                            gz < m,
                            gx < m,
                    ;
                    assert(6 * (m * m) == 6 * m * m) by (nonlinear_arith);
                }
                let top_left = gz * n + gx;
                let top_right = top_left + 1;
                let bottom_left = top_left + n;
                let bottom_right = bottom_left + 1;
                let ghost start = r@.len() as int;
                r.push(top_left as u32);
                r.push(bottom_left as u32);
                r.push(top_right as u32);
                r.push(top_right as u32);
                r.push(bottom_left as u32);
                r.push(bottom_right as u32);
                proof {
                    assert forall|t: int| 0 <= t < 6 implies #[trigger] r@[start + t] as int
                        == index_entry(n as int, start + t) by {
                        lemma_entry_of_cell(n as int, gx as int, gz as int, t);
                    }
                    assert forall|p: int| 0 <= p < r@.len() implies (#[trigger] r@[p] as int) < n
                        * n by {}
                    assert forall|p: int| 0 <= p < r@.len() implies #[trigger] r@[p] as int
                        == index_entry(n as int, p) by {
                        if p >= start {
                            assert(r@[start + (p - start)] as int == index_entry(
                                n as int,
                                start + (p - start),
                            ));
                        }
                    }
                    assert(6 * (gz * m + gx) + 6 == 6 * (gz * m + (gx + 1)));
                }
                gx += 1;
            }
            assert(gz * m + m == (gz + 1) * m) by (nonlinear_arith);
            gz += 1;
        }
        proof {
            assert(6 * (m * m) == 6 * m * m) by (nonlinear_arith);
            assert forall|gx: int, gz: int, t: int|
                0 <= gx < n - 1 && 0 <= gz < n - 1 && 0 <= t < 6 implies r@[6 * (gz * (n - 1) + gx)
                + t] as int == #[trigger] cell_corner_index(n as int, gx, gz, t) by {
                lemma_entry_of_cell(n as int, gx, gz, t);
                let p = 6 * (gz * (n - 1) + gx) + t;
                assert(r@[p] as int == index_entry(n as int, p));
            }
        }
        r
    }
}

/// A height query reads a triangle exactly when its cell lies inside the
/// grid; every corner that it reads is a vertex of the grid, and the sample
/// there lies within half the colour range of the middle, so that the height
/// scaled from it lies within the maximum height either way. Outside the grid
/// the query reads nothing and falls back to zero.
pub proof fn lemma_height_query_stays_in_range(f: HeightField, grid_x: int, grid_z: int, first: bool)
    requires
        f.wf(),
    ensures
        spec_triangle(f.spec_vertex_count() as int, grid_x, grid_z, first) is None <==> (grid_x < 0
            || grid_z < 0 || grid_x >= f.spec_vertex_count() - 1 || grid_z >= f.spec_vertex_count()
            - 1),
        spec_triangle(f.spec_vertex_count() as int, grid_x, grid_z, first) matches Some((a, b, c))
            ==> {
            &&& in_grid(f, a) && in_grid(f, b) && in_grid(f, c)
            &&& sample_in_range(f, a) && sample_in_range(f, b) && sample_in_range(f, c)
        },
{
}

/// The number of grid point `p` in the mesh's vertex arrays, which hold the
/// vertices row by row.
pub open spec fn vertex_index(n: int, p: GridPoint) -> int {
    p.z * n + p.x
}

/// A height query interpolates over the very triangles that the mesh draws:
/// in every cell inside the grid, the corners of the first query triangle
/// are the vertices of the cell's first three index entries, and those of the
/// second are the vertices of its last three.
pub proof fn lemma_query_triangles_are_mesh_triangles(n: int, gx: int, gz: int)
    requires
        2 <= n <= MAX_VERTEX_COUNT,
        0 <= gx < n - 1,
        0 <= gz < n - 1,
    ensures
        spec_triangle(n, gx, gz, true) matches Some((a, b, c)) && vertex_index(n, a)
            == cell_corner_index(n, gx, gz, 0) && vertex_index(n, b) == cell_corner_index(
            n,
            gx,
            gz,
            2,
        ) && vertex_index(n, c) == cell_corner_index(n, gx, gz, 1),
        spec_triangle(n, gx, gz, false) matches Some((a, b, c)) && vertex_index(n, a)
            == cell_corner_index(n, gx, gz, 3) && vertex_index(n, b) == cell_corner_index(
            n,
            gx,
            gz,
            5,
        ) && vertex_index(n, c) == cell_corner_index(n, gx, gz, 4),
{
    assert((gz + 1) * n == gz * n + n) by (nonlinear_arith);
}

/// Grid point `p` is a vertex of the field's grid.
pub open spec fn in_grid(f: HeightField, p: GridPoint) -> bool {
    p.x < f.spec_vertex_count() && p.z < f.spec_vertex_count()
}

/// The sample at `p` lies in `[-HALF_PIXEL_COLOUR, HALF_PIXEL_COLOUR)`.
pub open spec fn sample_in_range(f: HeightField, p: GridPoint) -> bool {
    -HALF_PIXEL_COLOUR <= f.sample(p.x as int, p.z as int) < HALF_PIXEL_COLOUR
}

/// The grid points whose heights give the normal at vertex (x, z): left,
/// right, down and up. The neighbours are read at an inset of slightly less
/// than one cell, which truncates to the cell before on the left and down
/// (clamped at the edge) and to the vertex itself on the right and up.
pub fn normal_sample_points(x: usize, z: usize) -> (r: (GridPoint, GridPoint, GridPoint, GridPoint))
    ensures
        r.0 == point(if x == 0 { 0 } else { x - 1 }, z as int),
        r.1 == point(x as int, z as int),
        r.2 == point(x as int, if z == 0 { 0 } else { z - 1 }),
        r.3 == point(x as int, z as int),
{
    let left = if x == 0 { 0 } else { x - 1 };
    let down = if z == 0 { 0 } else { z - 1 };
    (
        GridPoint { x: left, z },
        GridPoint { x, z },
        GridPoint { x, z: down },
        GridPoint { x, z },
    )
}

} // verus!
