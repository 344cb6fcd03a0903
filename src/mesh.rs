//! Elevation maps and the triangle grid that a terrain mesh is built on.
use vstd::arithmetic::div_mod::{lemma_fundamental_div_mod, lemma_fundamental_div_mod_converse};
use vstd::prelude::*;

verus! {

/// Errors of building an elevation map.
#[derive(Debug, Clone, Copy, PartialEq, Eq, Structural)]
pub enum MapError {
    /// The number of samples is not `width * height`.
    DimensionMismatch,
}

/// What a lookup of an elevation map finds at a position.
#[derive(Debug, PartialEq)]
pub enum Elevation<T> {
    /// The sample stored at a position inside the map.
    Sample(T),
    /// A position on the far border (`x == width` or `y == height`), whose height is zero.
    Border,
    /// A position beyond the border.
    OutOfRange,
}

/// A rectangular grid of height samples, stored row by row.
pub struct ElevationMap<T> {
    size: (usize, usize),
    map: Vec<T>,
}

impl<T> View for ElevationMap<T> {
    type V = Seq<T>;

    /// The samples, row-major: position `(x, y)` is at `x + y * width`.
    closed spec fn view(&self) -> Seq<T> {
        self.map@
    }
}

impl<T> ElevationMap<T> {
    /// Number of columns.
    pub closed spec fn spec_width(&self) -> nat {
        self.size.0 as nat
    }

    /// Number of rows.
    pub closed spec fn spec_height(&self) -> nat {
        self.size.1 as nat
    }

    /// There is exactly one sample per position.
    pub open spec fn wf(&self) -> bool {
        self@.len() == self.spec_width() * self.spec_height()
    }

    /// What a lookup at `(x, y)` finds.
    pub open spec fn spec_get(&self, x: int, y: int) -> Elevation<T> {
        let (w, h) = (self.spec_width() as int, self.spec_height() as int);
        if 0 <= x < w && 0 <= y < h {
            Elevation::Sample(self@[x + y * w])
        } else if (x == w && 0 <= y <= h) || (y == h && 0 <= x <= w) {
            Elevation::Border
        } else {
            Elevation::OutOfRange
        }
    }

    /// Builds a map of `width` columns and `height` rows from its samples,
    /// given row by row.
    pub fn new_with_data(width: usize, height: usize, map: Vec<T>) -> (r: Result<Self, MapError>)
        ensures
            map@.len() == width * height <==> r is Ok,
            r is Ok ==> {
                let m = r->Ok_0;
                &&& m.wf()
                &&& m.spec_width() == width
                &&& m.spec_height() == height
                &&& m@ == map@
            },
            r is Err ==> r->Err_0 == MapError::DimensionMismatch,
    {
        let len = map.len();
        match width.checked_mul(height) {
            Some(n) => {
                if n == len {
                    Ok(Self { size: (width, height), map })
                } else {
                    Err(MapError::DimensionMismatch)
                }
            },
            None => Err(MapError::DimensionMismatch),
        }
    }

    /// The size of the map as `(width, height)`.
    pub fn size(&self) -> (r: (usize, usize))
        ensures
            r.0 == self.spec_width(),
            r.1 == self.spec_height(),
    {
        self.size
    }

    /// The sample at a position inside the map.
    fn sample(&self, x: usize, y: usize) -> (r: T) where T: Copy
        requires
            self.wf(),
            x < self.spec_width(),
            y < self.spec_height(),
        ensures
            r == self@[x + y * self.spec_width()],
    {
        let width = self.size.0;
        let height = self.size.1;
        let len = self.map.len();
        proof {
            assert(x + y * width < len) by (nonlinear_arith)
                requires
                    x < width,
                    y < height,
                    len == width * height,
            ;
        }
        self.map[x + y * width]
    }

    /// Looks up the height at `(x, y)`: the stored sample inside the map, the
    /// border value one step past the last column or row, and `OutOfRange`
    /// anywhere else.
    pub fn get_value(&self, x: usize, y: usize) -> (r: Elevation<T>) where T: Copy
        requires
            self.wf(),
        ensures
            r == self.spec_get(x as int, y as int),
    {
        let (width, height) = self.size;
        if x < width && y < height {
            Elevation::Sample(self.sample(x, y))
        } else if (x == width && y <= height) || (y == height && x <= width) {
            Elevation::Border
        } else {
            Elevation::OutOfRange
        }
    }
}

/// `(offset + step) mod size`, always in `[0, size)`.
pub open spec fn wrap(offset: int, step: int, size: int) -> int {
    (offset + step) % size
}

/// Computes `wrap(offset, step, size)`.
fn wrap_index(offset: isize, step: usize, size: usize) -> (r: usize)
    requires
        size > 0,
    ensures
        r as int == wrap(offset as int, step as int, size as int),
        r < size,
{
    let s = size as u128;
    let base: u128 = if offset >= 0 {
        (offset as u128) % s
    } else {
        let m = ((-(offset as i128)) as u128) % s;
        if m == 0 {
            0
        } else {
            s - m
        }
    };
    proof {
        let si = size as int;
        let o = offset as int;
        if offset < 0 {
            let n = -o;
            lemma_fundamental_div_mod(n, si);
            let q = n / si;
            if n % si == 0 {
                assert(o == (-q) * si + 0) by (nonlinear_arith)
                    requires
                        n == si * q + 0,
                        o == -n,
                ;
                lemma_fundamental_div_mod_converse(o, si, -q, 0);
            } else {
                assert(o == (-q - 1) * si + (si - n % si)) by (nonlinear_arith)
                    requires
                        n == si * q + n % si,
                        o == -n,
                ;
                lemma_fundamental_div_mod_converse(o, si, -q - 1, si - n % si);
            }
        }
        assert(base as int == o % si);
        lemma_fundamental_div_mod(o, si);
        let t = base as int + step as int;
        lemma_fundamental_div_mod(t, si);
        let q1 = o / si;
        let q2 = t / si;
        assert(o + step as int == (q1 + q2) * si + t % si) by (nonlinear_arith)
            requires
                o == si * q1 + base as int,
                t == si * q2 + t % si,
                t == base as int + step as int,
        ;
        lemma_fundamental_div_mod_converse(o + step as int, si, q1 + q2, t % si);
    }
    ((base + step as u128) % s) as usize
}

/// Errors of building a terrain grid.
#[derive(Debug, Clone, Copy, PartialEq, Eq, Structural)]
pub enum MeshError {
    /// The grid was asked for zero cells along one axis.
    InvalidDimension,
}

/// One vertex of a terrain grid: its grid coordinates and the height sampled for it.
#[derive(Debug, PartialEq)]
pub struct GridVertex<T> {
    /// Column of the vertex, from `0` to the grid's width.
    pub w: usize,
    /// Row of the vertex, from `0` to the grid's depth.
    pub d: usize,
    /// The elevation map's sample under the vertex.
    pub height: T,
}

/// A triangle grid of `width * depth` cells over `(width + 1) * (depth + 1)`
/// vertices, listed row by row, and two triangles per cell.
pub struct TerrainGrid<T> {
    /// Number of cells along the first axis.
    pub width: usize,
    /// Number of cells along the second axis.
    pub depth: usize,
    /// The vertices, `w` running fastest.
    pub vertices: Vec<GridVertex<T>>,
    /// Three vertex indices per triangle, six per cell, cells row by row.
    pub indices: Vec<u32>,
}

/// Position of grid vertex `(w, d)` in the vertex list of a grid `width` cells wide.
pub open spec fn vertex_index(width: int, w: int, d: int) -> int {
    d * (width + 1) + w
}

/// Entry `k` (`0..6`) of the two triangles of cell `(w, d)`: first
/// `(w, d), (w, d + 1), (w + 1, d + 1)`, then `(w, d), (w + 1, d + 1), (w + 1, d)`.
pub open spec fn cell_corner(width: int, w: int, d: int, k: int) -> int {
    if k == 0 || k == 3 {
        vertex_index(width, w, d)
    } else if k == 1 {
        vertex_index(width, w, d + 1)
    } else if k == 2 || k == 4 {
        vertex_index(width, w + 1, d + 1)
    } else {
        vertex_index(width, w + 1, d)
    }
}

/// Entry `i` of the index list of a grid `width` cells wide.
pub open spec fn triangle_entry(width: int, i: int) -> int {
    let c = i / 6;
    cell_corner(width, c % width, c / width, i % 6)
}

/// Vertex `i` of the grid of `width` cells across that samples `map` from `origin` on,
/// wrapping around the map's edges.
pub open spec fn grid_vertex<T>(
    map: ElevationMap<T>,
    origin: (isize, isize),
    width: int,
    i: int,
) -> GridVertex<T> {
    let w = i % (width + 1);
    let d = i / (width + 1);
    let x = wrap(origin.0 as int, w, map.spec_width() as int);
    let y = wrap(origin.1 as int, d, map.spec_height() as int);
    GridVertex { w: w as usize, d: d as usize, height: map@[x + y * map.spec_width()] }
}

/// `grid` is the grid of `size` cells that samples `map` from `origin` on.
pub open spec fn grid_matches<T>(
    map: ElevationMap<T>,
    origin: (isize, isize),
    size: (usize, usize),
    grid: TerrainGrid<T>,
) -> bool {
    let (width, depth) = (size.0 as int, size.1 as int);
    &&& grid.width == size.0
    &&& grid.depth == size.1
    &&& grid.vertices@.len() == (width + 1) * (depth + 1)
    &&& forall|i: int|
        0 <= i < grid.vertices@.len() ==> grid.vertices@[i] == grid_vertex(map, origin, width, i)
    &&& grid.indices@.len() == width * depth * 6
    &&& forall|i: int|
        0 <= i < grid.indices@.len() ==> grid.indices@[i] as int == triangle_entry(width, i)
}

/// The vertex of row `d`, column `w` is entry `d * (width + 1) + w`.
proof fn lemma_vertex_position(width: int, w: int, d: int)
    requires
        0 <= w <= width,
    ensures
        vertex_index(width, w, d) % (width + 1) == w,
        vertex_index(width, w, d) / (width + 1) == d,
{
    lemma_fundamental_div_mod_converse(vertex_index(width, w, d), width + 1, d, w);
}

/// Entry `k` of cell `(w, d)` stands at `6 * (d * width + w) + k`.
proof fn lemma_cell_entry(width: int, w: int, d: int, k: int)
    requires
        0 <= w < width,
        0 <= k < 6,
    ensures
        triangle_entry(width, 6 * (d * width + w) + k) == cell_corner(width, w, d, k),
{
    let c = d * width + w;
    lemma_fundamental_div_mod_converse(6 * c + k, 6, c, k);
    lemma_fundamental_div_mod_converse(c, width, d, w);
}

/// Builds the triangle grid of `mesh_size` cells whose vertex `(w, d)` takes
/// the sample at `((mesh_pos.0 + w) mod map width, (mesh_pos.1 + d) mod map height)`,
/// so a grid larger than the map, or starting near its edge, repeats it seamlessly.
/// A negative start counts back from the map's far edge. The map must not be
/// empty, and every vertex must be reachable by a 32-bit index.
pub fn create_mesh<T: Copy>(
    mesh_pos: (isize, isize),
    mesh_size: (usize, usize),
    map: &ElevationMap<T>,
) -> (r: Result<TerrainGrid<T>, MeshError>)
    requires
        map.wf(),
        map.spec_width() > 0,
        map.spec_height() > 0,
        (mesh_size.0 + 1) * (mesh_size.1 + 1) <= u32::MAX + 1,
    ensures
        r is Err <==> mesh_size.0 == 0 || mesh_size.1 == 0,
        r is Err ==> r->Err_0 == MeshError::InvalidDimension,
        r is Ok ==> grid_matches(*map, mesh_pos, mesh_size, r->Ok_0),
{
    let (map_width, map_depth) = map.size();
    let (mesh_width, mesh_depth) = mesh_size;
    if mesh_width == 0 || mesh_depth == 0 {
        return Err(MeshError::InvalidDimension);
    }
    let ghost width = mesh_width as int;
    let ghost depth = mesh_depth as int;
    proof {
        assert(mesh_width < u32::MAX && mesh_depth < u32::MAX) by (nonlinear_arith)
            requires
                (mesh_width + 1) * (mesh_depth + 1) <= u32::MAX + 1,
                mesh_width > 0,
                mesh_depth > 0,
        ;
    }
    // Vertices, row by row.
    let mut vertices: Vec<GridVertex<T>> = Vec::new();
    let mut d: usize = 0;
    while d <= mesh_depth
        invariant
            map.wf(),
            map_width == map.spec_width(),
            map_depth == map.spec_height(),
            map_width > 0,
            map_depth > 0,
            width == mesh_width,
            depth == mesh_depth,
            mesh_width < u32::MAX,
            mesh_depth < u32::MAX,
            d <= mesh_depth + 1,
            vertices@.len() == d * (width + 1),
            forall|i: int|
                0 <= i < vertices@.len() ==> vertices@[i] == grid_vertex(*map, mesh_pos, width, i),
        decreases mesh_depth + 1 - d,
    {
        let y = wrap_index(mesh_pos.1, d, map_depth);
        let mut w: usize = 0;
        while w <= mesh_width
            invariant
                map.wf(),
                map_width == map.spec_width(),
                map_depth == map.spec_height(),
                map_width > 0,
                width == mesh_width,
                mesh_width < u32::MAX,
                d <= mesh_depth,
                y == wrap(mesh_pos.1 as int, d as int, map_depth as int),
                y < map_depth,
                w <= mesh_width + 1,
                vertices@.len() == d * (width + 1) + w,
                forall|i: int|
                    0 <= i < vertices@.len() ==> vertices@[i] == grid_vertex(*map, mesh_pos, width, i),
            decreases mesh_width + 1 - w,
        {
            let x = wrap_index(mesh_pos.0, w, map_width);
            let height = map.sample(x, y);
            proof {
                lemma_vertex_position(width, w as int, d as int);
            }
            vertices.push(GridVertex { w, d, height });
            w = w + 1;
        }
        proof {
            assert(d * (width + 1) + (width + 1) == (d + 1) * (width + 1)) by (nonlinear_arith);
        }
        d = d + 1;
    }
    // Two triangles per cell, cells row by row.
    let row_len = mesh_width as u64 + 1;
    let mut indices: Vec<u32> = Vec::new();
    let mut d: usize = 0;
    while d < mesh_depth
        invariant
            width == mesh_width,
            depth == mesh_depth,
            row_len == width + 1,
            (width + 1) * (depth + 1) <= u32::MAX + 1,
            d <= mesh_depth,
            indices@.len() == d * width * 6,
            forall|i: int|
                0 <= i < indices@.len() ==> indices@[i] as int == triangle_entry(width, i),
        decreases mesh_depth - d,
    {
        let mut w: usize = 0;
        while w < mesh_width
            invariant
                width == mesh_width,
                depth == mesh_depth,
                row_len == width + 1,
                (width + 1) * (depth + 1) <= u32::MAX + 1,
                d < mesh_depth,
                w <= mesh_width,
                indices@.len() == (d * width + w) * 6,
                forall|i: int|
                    0 <= i < indices@.len() ==> indices@[i] as int == triangle_entry(width, i),
            decreases mesh_width - w,
        {
            proof {
                assert((d + 1) * (width + 1) + w + 1 < (width + 1) * (depth + 1)) by (nonlinear_arith)
                    requires
                        d < depth,
                        w < width,
                ;
            }
            proof {
                assert(d * row_len + w < (width + 1) * (depth + 1)) by (nonlinear_arith)
                    requires
                        d < depth,
                        w < width,
                        row_len == width + 1,
                ;
                assert((d + 1) * row_len == (d + 1) * (width + 1));
                assert((d + 1) * (width + 1) == d * (width + 1) + width + 1) by (nonlinear_arith);
            }
            let here = (d as u64 * row_len + w as u64) as u32;
            let next = ((d as u64 + 1) * row_len + w as u64) as u32;
            assert(here as int == vertex_index(width, w as int, d as int));
            assert(next as int == vertex_index(width, w as int, d + 1));
            let ghost start = indices@.len() as int;
            indices.push(here);
            indices.push(next);
            indices.push(next + 1);
            indices.push(here);
            indices.push(next + 1);
            indices.push(here + 1);
            proof {
                assert forall|i: int| 0 <= i < indices@.len() implies indices@[i] as int == triangle_entry(width, i) by {
                    if i >= start {
                        lemma_cell_entry(width, w as int, d as int, i - start);
                    }
                }
            }
            w = w + 1;
        }
        proof {
            assert((d * width + width) * 6 == (d + 1) * width * 6) by (nonlinear_arith);
        }
        d = d + 1;
    }
    proof {
        assert(d * width * 6 == width * depth * 6) by (nonlinear_arith)
            requires
                d == depth,
        ;
        assert(vertices@.len() == (width + 1) * (depth + 1)) by (nonlinear_arith)
            requires
                vertices@.len() == (depth + 1) * (width + 1),
        ;
    }
    Ok(TerrainGrid { width: mesh_width, depth: mesh_depth, vertices, indices })
}

/// Vertex and index counts: a grid of `width * depth` cells has
/// `(width + 1) * (depth + 1)` vertices and six indices per cell.
pub proof fn lemma_grid_counts<T>(
    map: ElevationMap<T>,
    origin: (isize, isize),
    size: (usize, usize),
    grid: TerrainGrid<T>,
)
    requires
        grid_matches(map, origin, size, grid),
    ensures
        grid.vertices@.len() == (size.0 + 1) * (size.1 + 1),
        grid.indices@.len() == size.0 * size.1 * 6,
{
}

/// Wrapping never leaves the map: every sampled column or row lies in `[0, size)`.
pub proof fn lemma_wrap_in_range(offset: int, step: int, size: int)
    requires
        size > 0,
    ensures
        0 <= wrap(offset, step, size) < size,
{
}

/// A window of two cells across that starts at the map's last column reads the
/// columns `width - 1`, `0` and `1` of the first row, in that order.
pub proof fn lemma_wraparound_window<T>(map: ElevationMap<T>, grid: TerrainGrid<T>)
    requires
        map.wf(),
        map.spec_width() >= 2,
        map.spec_height() > 0,
        map.spec_width() <= isize::MAX,
        grid_matches(map, ((map.spec_width() - 1) as isize, 0), (2, 1), grid),
    ensures
        grid.vertices@[0].height == map@[map.spec_width() - 1],
        grid.vertices@[1].height == map@[0],
        grid.vertices@[2].height == map@[1],
{
    let fw = map.spec_width() as int;
    let origin = ((fw - 1) as isize, 0isize);
    lemma_grid_counts(map, origin, (2, 1), grid);
    assert(grid.vertices@.len() == (2usize + 1) * (1usize + 1));
    assert(grid.vertices@.len() == 6);
    lemma_vertex_position(2, 0, 0);
    lemma_vertex_position(2, 1, 0);
    lemma_vertex_position(2, 2, 0);
    lemma_fundamental_div_mod_converse(fw - 1, fw, 0, fw - 1);
    lemma_fundamental_div_mod_converse(fw, fw, 1, 0);
    lemma_fundamental_div_mod_converse(fw + 1, fw, 1, 1);
    lemma_fundamental_div_mod_converse(0, map.spec_height() as int, 0, 0);
    assert(grid.vertices@[0] == grid_vertex(map, origin, 2, 0));
    assert(grid.vertices@[1] == grid_vertex(map, origin, 2, 1));
    assert(grid.vertices@[2] == grid_vertex(map, origin, 2, 2));
}

/// Building twice from the same map, origin and size gives the same grid.
pub proof fn lemma_create_mesh_deterministic<T>(
    map: ElevationMap<T>,
    origin: (isize, isize),
    size: (usize, usize),
    first: TerrainGrid<T>,
    second: TerrainGrid<T>,
)
    requires
        grid_matches(map, origin, size, first),
        grid_matches(map, origin, size, second),
    ensures
        first.width == second.width,
        first.depth == second.depth,
        first.vertices@ == second.vertices@,
        first.indices@ == second.indices@,
{
    let width = size.0 as int;
    assert forall|i: int| 0 <= i < first.vertices@.len() implies first.vertices@[i] == second.vertices@[i] by {
        assert(first.vertices@[i] == grid_vertex(map, origin, width, i));
        assert(second.vertices@[i] == grid_vertex(map, origin, width, i));
    }
    assert forall|i: int| 0 <= i < first.indices@.len() implies first.indices@[i] == second.indices@[i] by {
        assert(first.indices@[i] as int == triangle_entry(width, i));
        assert(second.indices@[i] as int == triangle_entry(width, i));
    }
    assert(first.vertices@ =~= second.vertices@);
    assert(first.indices@ =~= second.indices@);
}

} // verus!
