use cube_sphere::mesh::{MAX_RESOLUTION, MIN_RESOLUTION};
use cube_sphere::sphere::FACE_COUNT;
use cube_sphere::{Direction, GeometryError, Mesh, Sphere, Vec3i};

const ALL: [Direction; 6] = [
    Direction::Up,
    Direction::Down,
    Direction::Left,
    Direction::Right,
    Direction::Forward,
    Direction::Back,
];

fn dot(a: &Vec3i, b: &Vec3i) -> i64 {
    a.x * b.x + a.y * b.y + a.z * b.z
}

fn sub(a: &Vec3i, b: &Vec3i) -> Vec3i {
    Vec3i::new(a.x - b.x, a.y - b.y, a.z - b.z)
}

fn cross(a: &Vec3i, b: &Vec3i) -> Vec3i {
    Vec3i::new(a.y * b.z - a.z * b.y, a.z * b.x - a.x * b.z, a.x * b.y - a.y * b.x)
}

fn unit(p: &Vec3i) -> [f64; 3] {
    let (x, y, z) = (p.x as f64, p.y as f64, p.z as f64);
    let len = (x * x + y * y + z * z).sqrt();
    [x / len, y / len, z / len]
}

#[test]
fn face_counts_match_resolution() {
    for r in 2u32..=12 {
        for d in ALL {
            let m = Mesh::new(r, d).unwrap();
            assert_eq!(m.points().len(), (r * r) as usize);
            assert_eq!(m.indices().len(), (6 * (r - 1) * (r - 1)) as usize);
            assert_eq!(m.resolution(), r);
            assert_eq!(m.local_up(), d);
            for &i in m.indices() {
                assert!(i < r * r);
            }
        }
    }
}

#[test]
fn face_vertices_project_to_unit_sphere() {
    for d in ALL {
        let m = Mesh::new(7, d).unwrap();
        for p in m.points() {
            let u = unit(p);
            let len = (u[0] * u[0] + u[1] * u[1] + u[2] * u[2]).sqrt();
            assert!((len - 1.0).abs() < 1e-5);
        }
    }
}

#[test]
fn face_vertices_lie_on_their_side() {
    for d in ALL {
        let m = Mesh::new(5, d).unwrap();
        let up = d.normal();
        for p in m.points() {
            assert_eq!(dot(p, &up), 4);
        }
        // the centre of an odd face is its normal, scaled
        let centre = m.points()[12];
        assert_eq!(centre, Vec3i::new(4 * up.x, 4 * up.y, 4 * up.z));
    }
}

#[test]
fn smallest_up_face_exact() {
    let m = Mesh::new(2, Direction::Up).unwrap();
    assert_eq!(m.axis_a(), Vec3i::new(1, 0, 0));
    assert_eq!(m.axis_b(), Vec3i::new(0, 0, -1));
    assert_eq!(
        m.points(),
        &vec![
            Vec3i::new(-1, 1, 1),
            Vec3i::new(-1, 1, -1),
            Vec3i::new(1, 1, 1),
            Vec3i::new(1, 1, -1),
        ]
    );
    assert_eq!(m.indices(), &vec![0, 3, 2, 0, 1, 3]);
}

#[test]
fn three_by_three_indices_exact() {
    let m = Mesh::new(3, Direction::Right).unwrap();
    assert_eq!(
        m.indices(),
        &vec![
            0, 4, 3, 0, 1, 4, //
            3, 7, 6, 3, 4, 7, //
            1, 5, 4, 1, 2, 5, //
            4, 8, 7, 4, 5, 8,
        ]
    );
}

#[test]
fn face_tangents_are_orthogonal() {
    for d in ALL {
        let m = Mesh::new(2, d).unwrap();
        let up = d.normal();
        let (a, b) = (m.axis_a(), m.axis_b());
        assert_eq!(dot(&up, &a), 0);
        assert_eq!(dot(&up, &b), 0);
        assert_eq!(dot(&a, &b), 0);
        assert_eq!(dot(&b, &b), 1);
    }
}

#[test]
fn face_triangles_wind_the_same_way() {
    for d in ALL {
        let m = Mesh::new(4, d).unwrap();
        let up = d.normal();
        let p = m.points();
        for t in m.indices().chunks(3) {
            let (p0, p1, p2) = (&p[t[0] as usize], &p[t[1] as usize], &p[t[2] as usize]);
            let n = cross(&sub(p1, p0), &sub(p2, p0));
            assert_eq!(n, Vec3i::new(-4 * up.x, -4 * up.y, -4 * up.z));
        }
    }
}

#[test]
fn resolution_below_two_is_refused() {
    assert_eq!(Mesh::new(0, Direction::Up).err(), Some(GeometryError::InvalidParameter));
    assert_eq!(Mesh::new(1, Direction::Down).err(), Some(GeometryError::InvalidParameter));
    assert_eq!(MIN_RESOLUTION, 2);
}

#[test]
fn resolution_above_index_range_is_refused() {
    assert_eq!(
        Mesh::new(MAX_RESOLUTION + 1, Direction::Up).err(),
        Some(GeometryError::InvalidParameter)
    );
    assert_eq!(Mesh::new(u32::MAX, Direction::Back).err(), Some(GeometryError::InvalidParameter));
    // the largest face still has an index count that fits 32 bits
    let n = (MAX_RESOLUTION - 1) as u64;
    assert!(6 * n * n <= u32::MAX as u64);
}

#[test]
fn sphere_has_six_faces() {
    for r in [2u32, 3, 5, 10] {
        let s = Sphere::new(r).unwrap();
        assert_eq!(s.meshes().len(), FACE_COUNT);
        assert_eq!(FACE_COUNT, 6);
        for (m, d) in s.meshes().iter().zip(ALL) {
            assert_eq!(m.local_up(), d);
            assert_eq!(m.resolution(), r);
        }
    }
}

#[test]
fn sphere_faces_in_fixed_order() {
    assert_eq!(Direction::all(), ALL.to_vec());
    assert_eq!(Direction::Left.normal(), Vec3i::new(-1, 0, 0));
    assert_eq!(Direction::Forward.normal(), Vec3i::new(0, 0, 1));
}

#[test]
fn sphere_refuses_bad_resolution() {
    assert_eq!(Sphere::new(1).err(), Some(GeometryError::InvalidParameter));
    assert_eq!(Sphere::new(MAX_RESOLUTION + 1).err(), Some(GeometryError::InvalidParameter));
}

#[test]
fn sphere_faces_meet_at_their_edges() {
    let r = 4u32;
    let s = Sphere::new(r).unwrap();
    for (fi, m) in s.meshes().iter().enumerate() {
        for x in 0..r {
            for y in 0..r {
                if x != 0 && y != 0 && x != r - 1 && y != r - 1 {
                    continue;
                }
                let p = m.points()[(x * r + y) as usize];
                let shared = s.meshes().iter().enumerate().any(|(gi, g)| {
                    gi != fi && g.points().contains(&p)
                });
                assert!(shared);
            }
        }
    }
}

#[test]
fn vec3i_helpers() {
    assert!(Vec3i::new(0, 0, 0).is_zero());
    assert!(!Vec3i::new(0, 1, 0).is_zero());
    let up = Direction::Up.normal();
    let right = Direction::Right.normal();
    assert_eq!(up.cross(&right), Vec3i::new(0, 0, -1));
    assert_eq!(
        Vec3i::combine(2, &up, -3, &right, 5, &Direction::Back.normal()),
        Vec3i::new(-3, 2, -5)
    );
}
