//! A cube-sphere: the six faces of a cube, each projected onto the unit sphere.
use vstd::prelude::*;
use crate::error::GeometryError;
use crate::mesh::{cube_point, lemma_point_slot, valid_resolution, Mesh, MAX_RESOLUTION, MIN_RESOLUTION};
use crate::vector::{face_order, Direction};

verus! {

/// The number of faces of a sphere.
pub const FACE_COUNT: usize = 6;

/// The cube-sphere has no gaps: every vertex on the edge of a face is also a
/// vertex of another face, at exactly the same point.
pub proof fn lemma_faces_meet(d: Direction, r: int, x: int, y: int)
    requires
        r >= 2,
        0 <= x < r,
        0 <= y < r,
        x == 0 || x == r - 1 || y == 0 || y == r - 1,
    ensures
        exists|e: Direction, u: int, v: int|
            e != d && 0 <= u < r && 0 <= v < r && #[trigger] cube_point(e, r, u, v) == cube_point(
                d,
                r,
                x,
                y,
            ),
{
    match d {
        Direction::Up => {
            if x == 0 {
                assert(cube_point(Direction::Left, r, y, 0) == cube_point(Direction::Up, r, 0, y))
                    by (nonlinear_arith);
            } else if x == r - 1 {
                assert(cube_point(Direction::Right, r, r - 1 - y, 0) == cube_point(Direction::Up, r, r - 1, y))
                    by (nonlinear_arith);
            } else if y == 0 {
                assert(cube_point(Direction::Forward, r, r - 1, r - 1 - x) == cube_point(Direction::Up, r, x, 0))
                    by (nonlinear_arith);
            } else {
                assert(cube_point(Direction::Back, r, 0, r - 1 - x) == cube_point(Direction::Up, r, x, r - 1))
                    by (nonlinear_arith);
            }
        },
        Direction::Down => {
            if x == 0 {
                assert(cube_point(Direction::Right, r, r - 1 - y, r - 1) == cube_point(Direction::Down, r, 0, y))
                    by (nonlinear_arith);
            } else if x == r - 1 {
                assert(cube_point(Direction::Left, r, y, r - 1) == cube_point(Direction::Down, r, r - 1, y))
                    by (nonlinear_arith);
            } else if y == 0 {
                assert(cube_point(Direction::Forward, r, 0, x) == cube_point(Direction::Down, r, x, 0))
                    by (nonlinear_arith);
            } else {
                assert(cube_point(Direction::Back, r, r - 1, x) == cube_point(Direction::Down, r, x, r - 1))
                    by (nonlinear_arith);
            }
        },
        Direction::Left => {
            if x == 0 {
                assert(cube_point(Direction::Forward, r, r - 1 - y, r - 1) == cube_point(Direction::Left, r, 0, y))
                    by (nonlinear_arith);
            } else if x == r - 1 {
                assert(cube_point(Direction::Back, r, y, r - 1) == cube_point(Direction::Left, r, r - 1, y))
                    by (nonlinear_arith);
            } else if y == 0 {
                assert(cube_point(Direction::Up, r, 0, x) == cube_point(Direction::Left, r, x, 0))
                    by (nonlinear_arith);
            } else {
                assert(cube_point(Direction::Down, r, r - 1, x) == cube_point(Direction::Left, r, x, r - 1))
                    by (nonlinear_arith);
            }
        },
        Direction::Right => {
            if x == 0 {
                assert(cube_point(Direction::Back, r, y, 0) == cube_point(Direction::Right, r, 0, y))
                    by (nonlinear_arith);
            } else if x == r - 1 {
                assert(cube_point(Direction::Forward, r, r - 1 - y, 0) == cube_point(Direction::Right, r, r - 1, y))
                    by (nonlinear_arith);
            } else if y == 0 {
                assert(cube_point(Direction::Up, r, r - 1, r - 1 - x) == cube_point(Direction::Right, r, x, 0))
                    by (nonlinear_arith);
            } else {
                assert(cube_point(Direction::Down, r, 0, r - 1 - x) == cube_point(Direction::Right, r, x, r - 1))
                    by (nonlinear_arith);
            }
        },
        Direction::Forward => {
            if x == 0 {
                assert(cube_point(Direction::Down, r, y, 0) == cube_point(Direction::Forward, r, 0, y))
                    by (nonlinear_arith);
            } else if x == r - 1 {
                assert(cube_point(Direction::Up, r, r - 1 - y, 0) == cube_point(Direction::Forward, r, r - 1, y))
                    by (nonlinear_arith);
            } else if y == 0 {
                assert(cube_point(Direction::Right, r, r - 1, r - 1 - x) == cube_point(Direction::Forward, r, x, 0))
                    by (nonlinear_arith);
            } else {
                assert(cube_point(Direction::Left, r, 0, r - 1 - x) == cube_point(Direction::Forward, r, x, r - 1))
                    by (nonlinear_arith);
            }
        },
        Direction::Back => {
            if x == 0 {
                assert(cube_point(Direction::Up, r, r - 1 - y, r - 1) == cube_point(Direction::Back, r, 0, y))
                    by (nonlinear_arith);
            } else if x == r - 1 {
                assert(cube_point(Direction::Down, r, y, r - 1) == cube_point(Direction::Back, r, r - 1, y))
                    by (nonlinear_arith);
            } else if y == 0 {
                assert(cube_point(Direction::Right, r, 0, x) == cube_point(Direction::Back, r, x, 0))
                    by (nonlinear_arith);
            } else {
                assert(cube_point(Direction::Left, r, r - 1, x) == cube_point(Direction::Back, r, x, r - 1))
                    by (nonlinear_arith);
            }
        },
    }
}

/// The place of a face in face order.
pub open spec fn face_slot(d: Direction) -> int {
    match d {
        Direction::Up => 0,
        Direction::Down => 1,
        Direction::Left => 2,
        Direction::Right => 3,
        Direction::Forward => 4,
        Direction::Back => 5,
    }
}

/// Six face meshes of one resolution, in face order.
pub struct Sphere {
    meshes: Vec<Mesh>,
}

impl Sphere {
    /// The faces.
    pub closed spec fn spec_meshes(&self) -> Seq<Mesh> {
        self.meshes@
    }

    /// The sphere holds the six faces at resolution `r`, in face order.
    pub open spec fn is_sphere(&self, r: int) -> bool {
        &&& self.spec_meshes().len() == FACE_COUNT
        &&& forall|i: int|
            0 <= i < FACE_COUNT ==> #[trigger] self.spec_meshes()[i].is_face(face_order()[i], r)
    }

    /// In a sphere every vertex on the edge of a face is also a vertex of
    /// another face: the faces meet without gaps.
    pub proof fn lemma_closed(&self, r: int, i: int, x: int, y: int)
        requires
            self.is_sphere(r),
            r >= 2,
            0 <= i < FACE_COUNT,
            0 <= x < r,
            0 <= y < r,
            x == 0 || x == r - 1 || y == 0 || y == r - 1,
        ensures
            exists|j: int, k: int|
                0 <= j < FACE_COUNT && j != i && 0 <= k < r * r
                    && #[trigger] self.spec_meshes()[j].spec_points()[k]
                    == self.spec_meshes()[i].spec_points()[x * r + y],
    {
        let d = face_order()[i];
        lemma_faces_meet(d, r, x, y);
        let (e, u, v) = choose|e: Direction, u: int, v: int|
            e != d && 0 <= u < r && 0 <= v < r && #[trigger] cube_point(e, r, u, v) == cube_point(
                d,
                r,
                x,
                y,
            );
        let j = face_slot(e);
        let k = u * r + v;
        assert(face_order()[j] == e);
        assert(0 <= k < r * r && 0 <= x * r + y < r * r) by (nonlinear_arith)
            requires
                0 <= u < r,
                0 <= v < r,
                0 <= x < r,
                0 <= y < r,
                k == u * r + v,
        ;
        let mi = self.spec_meshes()[i];
        let mj = self.spec_meshes()[j];
        assert(mi.is_face(d, r));
        assert(mj.is_face(e, r));
        lemma_point_slot(e, r, u, v);
        lemma_point_slot(d, r, x, y);
        assert(mj.spec_points()[k]@ == mi.spec_points()[x * r + y]@);
        assert(mj.spec_points()[k] == mi.spec_points()[x * r + y]);
    }

    /// Builds the six faces at `resolution`: up, down, left, right, forward,
    /// back.  A resolution that a face refuses is refused.
    pub fn new(resolution: u32) -> (res: Result<Sphere, GeometryError>)
        ensures
            res is Ok <==> valid_resolution(resolution as int),
            res matches Ok(s) ==> s.is_sphere(resolution as int),
            res matches Ok(s) ==> s.spec_meshes().len() == FACE_COUNT,
            res matches Err(e) ==> e == GeometryError::InvalidParameter,
    {
        if resolution < MIN_RESOLUTION || resolution > MAX_RESOLUTION {
            return Err(GeometryError::InvalidParameter);
        }
        let directions = Direction::all();
        let mut meshes: Vec<Mesh> = Vec::with_capacity(FACE_COUNT);
        let mut i: usize = 0;
        while i < directions.len()
            invariant
                directions@ == face_order(),
                valid_resolution(resolution as int),
                i <= directions@.len(),
                meshes@.len() == i,
                forall|k: int| 0 <= k < i ==> #[trigger] meshes@[k].is_face(face_order()[k], resolution as int),
            decreases directions@.len() - i,
        {
            match Mesh::new(resolution, directions[i]) {
                Ok(m) => meshes.push(m),
                Err(e) => return Err(e),
            }
            i = i + 1;
        }
        Ok(Sphere { meshes })
    }

    /// The six faces, in face order.
    pub fn meshes(&self) -> (r: &Vec<Mesh>)
        ensures
            r@ == self.spec_meshes(),
    {
        &self.meshes
    }
}

} // verus!
