//! One face of a cube-sphere: a grid of vertices and its triangle list.
use vstd::prelude::*;
use vstd::arithmetic::div_mod::{
    lemma_fundamental_div_mod, lemma_fundamental_div_mod_converse, lemma_mod_pos_bound,
};
use crate::error::GeometryError;
use crate::vector::{cross, dot, is_small, normal_of, plus, scaled, Direction, Triple, Vec3i};

verus! {

/// The smallest number of vertices along an edge of a face.
pub const MIN_RESOLUTION: u32 = 2;

/// The largest number of vertices along an edge of a face: beyond it the
/// index count of a face no longer fits a 32-bit draw range.
pub const MAX_RESOLUTION: u32 = 26755;

/// A resolution that a face accepts.
pub open spec fn valid_resolution(r: int) -> bool {
    MIN_RESOLUTION <= r <= MAX_RESOLUTION
}

/// First tangent of a face: the coordinates of its normal, rotated by one place.
pub open spec fn tangent_a(up: Triple) -> Triple {
    (up.1, up.2, up.0)
}

/// Second tangent of a face: `up × tangent_a(up)`.
pub open spec fn tangent_b(up: Triple) -> Triple {
    cross(up, tangent_a(up))
}

/// The grid point `(x, y)` of face `d`, on the cube of half-edge `r - 1`:
/// `(r - 1) up + (2x - (r - 1)) a + (2y - (r - 1)) b`.
/// Scaled by `1 / (r - 1)` it is the point of the unit cube that the face
/// projects onto the unit sphere.
pub open spec fn cube_point(d: Direction, r: int, x: int, y: int) -> Triple {
    let up = normal_of(d);
    plus(
        plus(scaled(r - 1, up), scaled(2 * x - (r - 1), tangent_a(up))),
        scaled(2 * y - (r - 1), tangent_b(up)),
    )
}

/// The `k`-th vertex of face `d`: vertices come in runs of `r`, one run per `x`.
pub open spec fn face_point(d: Direction, r: int, k: int) -> Triple {
    cube_point(d, r, k / r, k % r)
}

/// Corner `c` (`0 <= c < 6`) of the two triangles over grid cell `(x, y)`,
/// where `i = x + y r`: the triangles are `(i, i + r + 1, i + r)` and
/// `(i, i + 1, i + r + 1)`.
pub open spec fn cell_corner(r: int, x: int, y: int, c: int) -> int {
    let i = x + y * r;
    if c == 0 || c == 3 {
        i
    } else if c == 1 || c == 5 {
        i + r + 1
    } else if c == 2 {
        i + r
    } else {
        i + 1
    }
}

/// The `j`-th entry of the index list of a face: six per cell, the cells in
/// runs of `r - 1`, one run per `x`.
pub open spec fn face_index(r: int, j: int) -> int {
    let cell = j / 6;
    cell_corner(r, cell / (r - 1), cell % (r - 1), j % 6)
}

/// Vertex `x r + y` of a face is its grid point `(x, y)`.
pub proof fn lemma_point_slot(d: Direction, r: int, x: int, y: int)
    requires
        0 <= x < r,
        0 <= y < r,
    ensures
        face_point(d, r, x * r + y) == cube_point(d, r, x, y),
{
    lemma_fundamental_div_mod_converse(x * r + y, r, x, y);
}

proof fn lemma_index_slot(r: int, x: int, y: int, c: int)
    requires
        r >= 2,
        0 <= x < r - 1,
        0 <= y < r - 1,
        0 <= c < 6,
    ensures
        face_index(r, 6 * (x * (r - 1) + y) + c) == cell_corner(r, x, y, c),
{
    let cell = x * (r - 1) + y;
    lemma_fundamental_div_mod_converse(6 * cell + c, 6, cell, c);
    lemma_fundamental_div_mod_converse(cell, r - 1, x, y);
}

/// Every vertex of face `d` lies on the far side of the plane through the
/// origin normal to `d`: its component along the normal is `r - 1`.
pub proof fn lemma_cube_point_facing(d: Direction, r: int, x: int, y: int) by (nonlinear_arith)
    ensures
        dot(cube_point(d, r, x, y), normal_of(d)) == r - 1,
{
    match d {
        Direction::Up => {},
        Direction::Down => {},
        Direction::Left => {},
        Direction::Right => {},
        Direction::Forward => {},
        Direction::Back => {},
    }
}

proof fn lemma_tangent_b_small(d: Direction) by (nonlinear_arith)
    ensures
        is_small(tangent_b(normal_of(d))),
{
    match d {
        Direction::Up => {},
        Direction::Down => {},
        Direction::Left => {},
        Direction::Right => {},
        Direction::Forward => {},
        Direction::Back => {},
    }
}

/// Each entry of a face's index list names one of its `r * r` vertices.
pub proof fn lemma_face_index_bound(r: int, j: int)
    requires
        r >= 2,
        0 <= j < 6 * (r - 1) * (r - 1),
    ensures
        0 <= face_index(r, j) < r * r,
{
    let n = r - 1;
    let cell = j / 6;
    lemma_fundamental_div_mod(j, 6);
    lemma_mod_pos_bound(j, 6);
    assert(0 <= cell < n * n) by (nonlinear_arith)
        requires
            n == r - 1,
            j == 6 * cell + j % 6,
            0 <= j % 6 < 6,
            0 <= j < 6 * (r - 1) * (r - 1),
    ;
    let x = cell / n;
    let y = cell % n;
    lemma_fundamental_div_mod(cell, n);
    lemma_mod_pos_bound(cell, n);
    assert(0 <= x < n) by (nonlinear_arith)
        requires
            n > 0,
            cell == n * x + y,
            0 <= y < n,
            0 <= cell < n * n,
    ;
    assert(0 <= x + y * r + r + 1 <= r * r - 1) by (nonlinear_arith)
        requires
            0 <= x <= r - 2,
            0 <= y <= r - 2,
    ;
}

/// `a - b`.
pub open spec fn minus(a: Triple, b: Triple) -> Triple {
    (a.0 - b.0, a.1 - b.1, a.2 - b.2)
}

/// The cross product of the two edges of triangle `t` of face `d` that leave
/// its first corner, taken on the cube.
pub open spec fn triangle_normal(d: Direction, r: int, t: int) -> Triple {
    let p0 = face_point(d, r, face_index(r, 3 * t));
    let p1 = face_point(d, r, face_index(r, 3 * t + 1));
    let p2 = face_point(d, r, face_index(r, 3 * t + 2));
    cross(minus(p1, p0), minus(p2, p0))
}

proof fn lemma_cell_winding(d: Direction, r: int, x: int, y: int) by (nonlinear_arith)
    ensures
        cross(
            minus(cube_point(d, r, x + 1, y + 1), cube_point(d, r, x, y)),
            minus(cube_point(d, r, x + 1, y), cube_point(d, r, x, y)),
        ) == scaled(-4, normal_of(d)),
        cross(
            minus(cube_point(d, r, x, y + 1), cube_point(d, r, x, y)),
            minus(cube_point(d, r, x + 1, y + 1), cube_point(d, r, x, y)),
        ) == scaled(-4, normal_of(d)),
{
    match d {
        Direction::Up => {},
        Direction::Down => {},
        Direction::Left => {},
        Direction::Right => {},
        Direction::Forward => {},
        Direction::Back => {},
    }
}

/// Every triangle of a face is wound the same way: seen from outside the
/// sphere its corners run clockwise, the cross product of its edges on the
/// cube being `-4` times the face's outward normal.
pub proof fn lemma_face_winding(d: Direction, r: int, t: int)
    requires
        r >= 2,
        0 <= t < 2 * (r - 1) * (r - 1),
    ensures
        triangle_normal(d, r, t) == scaled(-4, normal_of(d)),
{
    let n = r - 1;
    let cell = t / 2;
    let half = t % 2;
    lemma_fundamental_div_mod(t, 2);
    lemma_mod_pos_bound(t, 2);
    assert(0 <= cell < n * n) by (nonlinear_arith)
        requires
            n == r - 1,
            t == 2 * cell + half,
            0 <= half < 2,
            0 <= t < 2 * (r - 1) * (r - 1),
    ;
    lemma_fundamental_div_mod(cell, n);
    lemma_mod_pos_bound(cell, n);
    let x = cell / n;
    let y = cell % n;
    assert(0 <= x < n) by (nonlinear_arith)
        requires
            n > 0,
            cell == n * x + y,
            0 <= y < n,
            0 <= cell < n * n,
    ;
    let i = x + y * r;
    let c = 3 * half;
    assert(3 * t == 6 * (x * (r - 1) + y) + c) by (nonlinear_arith)
        requires
            t == 2 * cell + half,
            cell == n * x + y,
            n == r - 1,
            c == 3 * half,
    ;
    lemma_index_slot(r, x, y, c);
    lemma_index_slot(r, x, y, c + 1);
    lemma_index_slot(r, x, y, c + 2);
    lemma_point_slot(d, r, y, x);
    lemma_point_slot(d, r, y, x + 1);
    lemma_point_slot(d, r, y + 1, x);
    lemma_point_slot(d, r, y + 1, x + 1);
    assert(i == y * r + x && i + 1 == y * r + (x + 1) && i + r == (y + 1) * r + x && i + r + 1
        == (y + 1) * r + (x + 1)) by (nonlinear_arith)
        requires
            i == x + y * r,
    ;
    lemma_cell_winding(d, r, y, x);
}

/// A face of the cube-sphere at a given resolution.
pub struct Mesh {
    resolution: u32,
    local_up: Direction,
    axis_a: Vec3i,
    axis_b: Vec3i,
    points: Vec<Vec3i>,
    indices: Vec<u32>,
}

impl Mesh {
    /// Number of vertices along an edge.
    pub closed spec fn spec_resolution(&self) -> int {
        self.resolution as int
    }

    /// The outward normal of the face.
    pub closed spec fn spec_local_up(&self) -> Direction {
        self.local_up
    }

    /// First tangent.
    pub closed spec fn spec_axis_a(&self) -> Vec3i {
        self.axis_a
    }

    /// Second tangent.
    pub closed spec fn spec_axis_b(&self) -> Vec3i {
        self.axis_b
    }

    /// The vertices, on the cube of half-edge `resolution - 1`.
    pub closed spec fn spec_points(&self) -> Seq<Vec3i> {
        self.points@
    }

    /// The triangle list.
    pub closed spec fn spec_indices(&self) -> Seq<u32> {
        self.indices@
    }

    /// The mesh is face `d` at resolution `r`: its tangents, its `r * r`
    /// vertices and its `6 (r - 1)^2` indices are those of the face.
    pub open spec fn is_face(&self, d: Direction, r: int) -> bool {
        &&& self.spec_resolution() == r
        &&& self.spec_local_up() == d
        &&& self.spec_axis_a()@ == tangent_a(normal_of(d))
        &&& self.spec_axis_b()@ == tangent_b(normal_of(d))
        &&& self.spec_points().len() == r * r
        &&& forall|k: int|
            0 <= k < r * r ==> #[trigger] self.spec_points()[k]@ == face_point(d, r, k)
        &&& self.spec_indices().len() == 6 * (r - 1) * (r - 1)
        &&& forall|j: int|
            0 <= j < 6 * (r - 1) * (r - 1) ==> #[trigger] self.spec_indices()[j] == face_index(
                r,
                j,
            )
    }
}

/// The vertices of face `d`, scaled cube points with tangents `a` and `b`.
fn face_points(r: u32, up: &Vec3i, a: &Vec3i, b: &Vec3i, d: Direction) -> (points: Vec<Vec3i>)
    requires
        valid_resolution(r as int),
        up@ == normal_of(d),
        a@ == tangent_a(normal_of(d)),
        b@ == tangent_b(normal_of(d)),
        is_small(up@),
        is_small(a@),
        is_small(b@),
    ensures
        points@.len() == r * r,
        forall|k: int| 0 <= k < r * r ==> #[trigger] points@[k]@ == face_point(d, r as int, k),
{
    let half: i64 = r as i64 - 1;
    let mut points: Vec<Vec3i> = Vec::new();
    let mut x: u32 = 0;
    while x < r
        invariant
            valid_resolution(r as int),
            half == r - 1,
            up@ == normal_of(d),
            a@ == tangent_a(normal_of(d)),
            b@ == tangent_b(normal_of(d)),
            is_small(up@),
            is_small(a@),
            is_small(b@),
            x <= r,
            points@.len() == x * r,
            forall|k: int|
                0 <= k < points@.len() ==> #[trigger] points@[k]@ == face_point(d, r as int, k),
        decreases r - x,
    {
        let mut y: u32 = 0;
        while y < r
            invariant
                valid_resolution(r as int),
                half == r - 1,
                up@ == normal_of(d),
                a@ == tangent_a(normal_of(d)),
                b@ == tangent_b(normal_of(d)),
                is_small(up@),
                is_small(a@),
                is_small(b@),
                x < r,
                y <= r,
                points@.len() == x * r + y,
                forall|k: int|
                    0 <= k < points@.len() ==> #[trigger] points@[k]@ == face_point(
                        d,
                        r as int,
                        k,
                    ),
            decreases r - y,
        {
            let p = Vec3i::combine(half, up, 2 * x as i64 - half, a, 2 * y as i64 - half, b);
            proof {
                lemma_point_slot(d, r as int, x as int, y as int);
            }
            points.push(p);
            y = y + 1;
        }
        assert(x * r + r == (x + 1) * r) by (nonlinear_arith);
        x = x + 1;
    }
    points
}

/// The index list of a face of resolution `r`.
fn face_indices(r: u32) -> (indices: Vec<u32>)
    requires
        valid_resolution(r as int),
    ensures
        indices@.len() == 6 * (r - 1) * (r - 1),
        forall|j: int|
            0 <= j < 6 * (r - 1) * (r - 1) ==> #[trigger] indices@[j] == face_index(r as int, j),
{
    let n: u32 = r - 1;
    let mut indices: Vec<u32> = Vec::new();
    let mut x: u32 = 0;
    while x < n
        invariant
            valid_resolution(r as int),
            n == r - 1,
            x <= n,
            indices@.len() == 6 * (x * n),
            forall|j: int|
                0 <= j < indices@.len() ==> #[trigger] indices@[j] == face_index(r as int, j),
        decreases n - x,
    {
        let mut y: u32 = 0;
        while y < n
            invariant
                valid_resolution(r as int),
                n == r - 1,
                x < n,
                y <= n,
                indices@.len() == 6 * (x * n + y),
                forall|j: int|
                    0 <= j < indices@.len() ==> #[trigger] indices@[j] == face_index(r as int, j),
            decreases n - y,
        {
            assert(x + y * r + r + 1 <= r * r - 1 <= 0xffff_ffff) by (nonlinear_arith)
                requires
                    x < n,
                    y < n,
                    n == r - 1,
                    r <= MAX_RESOLUTION,
            ;
            let i: u32 = x + y * r;
            proof {
                lemma_index_slot(r as int, x as int, y as int, 0);
                lemma_index_slot(r as int, x as int, y as int, 1);
                lemma_index_slot(r as int, x as int, y as int, 2);
                lemma_index_slot(r as int, x as int, y as int, 3);
                lemma_index_slot(r as int, x as int, y as int, 4);
                lemma_index_slot(r as int, x as int, y as int, 5);
            }
            indices.push(i);
            indices.push(i + r + 1);
            indices.push(i + r);
            indices.push(i);
            indices.push(i + 1);
            indices.push(i + r + 1);
            y = y + 1;
        }
        assert(6 * (x * n + n) == 6 * ((x + 1) * n)) by (nonlinear_arith);
        x = x + 1;
    }
    assert(6 * (n * n) == 6 * (r - 1) * (r - 1)) by (nonlinear_arith)
        requires
            n == r - 1,
    ;
    indices
}

impl Mesh {
    /// Builds the face of the cube-sphere whose outward normal is `local_up`,
    /// with `resolution` vertices along each edge.
    ///
    /// Vertex `x r + y` is the grid point `(x, y)`; each grid cell gives two
    /// triangles.  A resolution outside `[MIN_RESOLUTION, MAX_RESOLUTION]` is
    /// refused.
    pub fn new(resolution: u32, local_up: Direction) -> (res: Result<Mesh, GeometryError>)
        ensures
            res is Ok <==> valid_resolution(resolution as int),
            res matches Ok(m) ==> m.is_face(local_up, resolution as int),
            res matches Ok(m) ==> m.spec_points().len() == resolution * resolution
                && m.spec_indices().len() == 6 * (resolution - 1) * (resolution - 1),
            res matches Ok(m) ==> forall|j: int|
                0 <= j < m.spec_indices().len() ==> #[trigger] m.spec_indices()[j] < resolution
                    * resolution,
            res matches Ok(m) ==> forall|k: int|
                0 <= k < m.spec_points().len() ==> dot(
                    #[trigger] m.spec_points()[k]@,
                    normal_of(local_up),
                ) == resolution - 1 > 0,
            res matches Err(e) ==> e == GeometryError::InvalidParameter,
    {
        if resolution < MIN_RESOLUTION || resolution > MAX_RESOLUTION {
            return Err(GeometryError::InvalidParameter);
        }
        let up = local_up.normal();
        let axis_a = Vec3i::new(up.y, up.z, up.x);
        let axis_b = up.cross(&axis_a);
        proof {
            lemma_tangent_b_small(local_up);
        }
        let points = face_points(resolution, &up, &axis_a, &axis_b, local_up);
        let indices = face_indices(resolution);
        let m = Mesh { resolution, local_up, axis_a, axis_b, points, indices };
        proof {
            let r = resolution as int;
            assert forall|j: int| 0 <= j < m.spec_indices().len() implies #[trigger] m.spec_indices()[j] < r * r by {
                lemma_face_index_bound(r, j);
            }
            assert forall|k: int| 0 <= k < m.spec_points().len() implies dot(
                #[trigger] m.spec_points()[k]@,
                normal_of(local_up),
            ) == r - 1 by {
                lemma_fundamental_div_mod(k, r);
                lemma_cube_point_facing(local_up, r, k / r, k % r);
            }
        }
        Ok(m)
    }

    /// Number of vertices along an edge.
    pub fn resolution(&self) -> (r: u32)
        ensures
            r == self.spec_resolution(),
    {
        self.resolution
    }

    /// The outward normal of the face.
    pub fn local_up(&self) -> (r: Direction)
        ensures
            r == self.spec_local_up(),
    {
        self.local_up
    }

    /// First tangent of the face.
    pub fn axis_a(&self) -> (r: Vec3i)
        ensures
            r == self.spec_axis_a(),
    {
        self.axis_a
    }

    /// Second tangent of the face.
    pub fn axis_b(&self) -> (r: Vec3i)
        ensures
            r == self.spec_axis_b(),
    {
        self.axis_b
    }

    /// The vertices, as points on the cube of half-edge `resolution - 1`;
    /// normalised, they lie on the unit sphere.
    pub fn points(&self) -> (r: &Vec<Vec3i>)
        ensures
            r@ == self.spec_points(),
    {
        &self.points
    }

    /// The triangle list, three indices into `points` per triangle.
    pub fn indices(&self) -> (r: &Vec<u32>)
        ensures
            r@ == self.spec_indices(),
    {
        &self.indices
    }
}

} // verus!
