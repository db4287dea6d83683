//! Integer 3-vectors and the six axis-aligned directions.
use vstd::prelude::*;

verus! {

/// A triple of integer coordinates.
#[derive(Clone, Copy, Debug, PartialEq, Eq, Structural)]
pub struct Vec3i {
    pub x: i64,
    pub y: i64,
    pub z: i64,
}

/// A mathematical 3-vector.
pub type Triple = (int, int, int);

impl View for Vec3i {
    type V = Triple;

    open spec fn view(&self) -> Triple {
        (self.x as int, self.y as int, self.z as int)
    }
}

/// Dot product.
pub open spec fn dot(a: Triple, b: Triple) -> int {
    a.0 * b.0 + a.1 * b.1 + a.2 * b.2
}

/// Cross product.
pub open spec fn cross(a: Triple, b: Triple) -> Triple {
    (a.1 * b.2 - a.2 * b.1, a.2 * b.0 - a.0 * b.2, a.0 * b.1 - a.1 * b.0)
}

/// `k a`.
pub open spec fn scaled(k: int, a: Triple) -> Triple {
    (k * a.0, k * a.1, k * a.2)
}

/// `a + b`.
pub open spec fn plus(a: Triple, b: Triple) -> Triple {
    (a.0 + b.0, a.1 + b.1, a.2 + b.2)
}

/// The origin.
pub open spec fn zero() -> Triple {
    (0, 0, 0)
}

/// Every coordinate lies in `[-1, 1]`.
pub open spec fn is_small(a: Triple) -> bool {
    -1 <= a.0 <= 1 && -1 <= a.1 <= 1 && -1 <= a.2 <= 1
}

proof fn lemma_mul_by_small(c: int, u: int, m: int) by (nonlinear_arith)
    requires
        -1 <= u <= 1,
        -m <= c <= m,
    ensures
        -m <= c * u <= m,
{
}

impl Vec3i {
    pub fn new(x: i64, y: i64, z: i64) -> (r: Vec3i)
        ensures
            r@ == (x as int, y as int, z as int),
    {
        Vec3i { x, y, z }
    }

    /// Cross product of two vectors whose coordinates lie in `[-1, 1]`.
    pub fn cross(&self, o: &Vec3i) -> (r: Vec3i)
        requires
            is_small(self@),
            is_small(o@),
        ensures
            r@ == cross(self@, o@),
    {
        proof {
            lemma_mul_by_small(self.y as int, o.z as int, 1);
            lemma_mul_by_small(self.z as int, o.y as int, 1);
            lemma_mul_by_small(self.z as int, o.x as int, 1);
            lemma_mul_by_small(self.x as int, o.z as int, 1);
            lemma_mul_by_small(self.x as int, o.y as int, 1);
            lemma_mul_by_small(self.y as int, o.x as int, 1);
        }
        Vec3i {
            x: self.y * o.z - self.z * o.y,
            y: self.z * o.x - self.x * o.z,
            z: self.x * o.y - self.y * o.x,
        }
    }

    /// `ku * u + ka * a + kb * b` for vectors with coordinates in `[-1, 1]` and
    /// coefficients of magnitude at most 2^40.
    pub fn combine(ku: i64, u: &Vec3i, ka: i64, a: &Vec3i, kb: i64, b: &Vec3i) -> (r: Vec3i)
        requires
            is_small(u@),
            is_small(a@),
            is_small(b@),
            -0x100_0000_0000 <= ku <= 0x100_0000_0000,
            -0x100_0000_0000 <= ka <= 0x100_0000_0000,
            -0x100_0000_0000 <= kb <= 0x100_0000_0000,
        ensures
            r@ == plus(plus(scaled(ku as int, u@), scaled(ka as int, a@)), scaled(kb as int, b@)),
    {
        let ghost m: int = 0x100_0000_0000;
        proof {
            lemma_mul_by_small(ku as int, u.x as int, m);
            lemma_mul_by_small(ku as int, u.y as int, m);
            lemma_mul_by_small(ku as int, u.z as int, m);
            lemma_mul_by_small(ka as int, a.x as int, m);
            lemma_mul_by_small(ka as int, a.y as int, m);
            lemma_mul_by_small(ka as int, a.z as int, m);
            lemma_mul_by_small(kb as int, b.x as int, m);
            lemma_mul_by_small(kb as int, b.y as int, m);
            lemma_mul_by_small(kb as int, b.z as int, m);
        }
        Vec3i {
            x: ku * u.x + ka * a.x + kb * b.x,
            y: ku * u.y + ka * a.y + kb * b.y,
            z: ku * u.z + ka * a.z + kb * b.z,
        }
    }

    pub fn is_zero(&self) -> (r: bool)
        ensures
            r == (self@ == zero()),
    {
        self.x == 0 && self.y == 0 && self.z == 0
    }
}

/// One of the six axis-aligned unit directions, naming a face of the cube.
#[derive(Clone, Copy, Debug, PartialEq, Eq, Structural)]
pub enum Direction {
    Up,
    Down,
    Left,
    Right,
    Forward,
    Back,
}

/// The unit vector of a direction (`y` points up, `z` forward).
pub open spec fn normal_of(d: Direction) -> Triple {
    match d {
        Direction::Up => (0, 1, 0),
        Direction::Down => (0, -1, 0),
        Direction::Left => (-1, 0, 0),
        Direction::Right => (1, 0, 0),
        Direction::Forward => (0, 0, 1),
        Direction::Back => (0, 0, -1),
    }
}

/// The order in which the faces of a sphere are built.
pub open spec fn face_order() -> Seq<Direction> {
    seq![
        Direction::Up,
        Direction::Down,
        Direction::Left,
        Direction::Right,
        Direction::Forward,
        Direction::Back,
    ]
}

impl Direction {
    pub fn normal(&self) -> (r: Vec3i)
        ensures
            r@ == normal_of(*self),
    {
        match self {
            Direction::Up => Vec3i::new(0, 1, 0),
            Direction::Down => Vec3i::new(0, -1, 0),
            Direction::Left => Vec3i::new(-1, 0, 0),
            Direction::Right => Vec3i::new(1, 0, 0),
            Direction::Forward => Vec3i::new(0, 0, 1),
            Direction::Back => Vec3i::new(0, 0, -1),
        }
    }

    /// The six directions in face order: up, down, left, right, forward, back.
    pub fn all() -> (r: Vec<Direction>)
        ensures
            r@ == face_order(),
    {
        let r = vec![
            Direction::Up,
            Direction::Down,
            Direction::Left,
            Direction::Right,
            Direction::Forward,
            Direction::Back,
        ];
        proof {
            assert(r@ =~= face_order());
        }
        r
    }
}

} // verus!
