use cube_sphere::grid::TILT_DEGREES;
use cube_sphere::{
    build_grid, CameraController, CameraMove, GeometryError, InputEvent, Key, Rotation, Spacing,
    Vec3i,
};

fn world(i: &cube_sphere::Instance) -> [f32; 3] {
    let d = i.denominator as f32;
    [i.offset.x as f32 / d, i.offset.y as f32 / d, i.offset.z as f32 / d]
}

#[test]
fn single_instance_sits_at_origin() {
    let v = build_grid(1, 1, Spacing { num: 3, den: 1 }).unwrap();
    assert_eq!(v.len(), 1);
    assert_eq!(world(&v[0]), [0.0, 0.0, 0.0]);
    assert_eq!(v[0].offset, Vec3i::new(0, 0, 0));
    assert_eq!(v[0].rotation, Rotation::Identity);
}

#[test]
fn two_rows_are_centred() {
    let v = build_grid(2, 1, Spacing { num: 3, den: 1 }).unwrap();
    assert_eq!(v.len(), 2);
    assert_eq!(world(&v[0]), [-1.5, 0.0, 0.0]);
    assert_eq!(world(&v[1]), [1.5, 0.0, 0.0]);
    for i in &v {
        assert_eq!(i.rotation, Rotation::AboutPosition { degrees: 45 });
    }
    assert_eq!(TILT_DEGREES, 45);
}

#[test]
fn three_by_two_grid_exact() {
    let v = build_grid(3, 2, Spacing { num: 1, den: 2 }).unwrap();
    assert_eq!(v.len(), 6);
    let xs: Vec<f32> = v.iter().map(|i| world(i)[0]).collect();
    let zs: Vec<f32> = v.iter().map(|i| world(i)[2]).collect();
    assert_eq!(xs, vec![-0.5, -0.5, 0.0, 0.0, 0.5, 0.5]);
    assert_eq!(zs, vec![-0.25, 0.25, -0.25, 0.25, -0.25, 0.25]);
    assert_eq!(v[2].offset, Vec3i::new(0, 0, -1));
    assert_eq!(v[2].denominator, 4);
    assert!(v.iter().all(|i| i.rotation != Rotation::Identity));
}

#[test]
fn odd_grid_has_identity_only_at_centre() {
    let v = build_grid(3, 3, Spacing { num: -2, den: 3 }).unwrap();
    assert_eq!(v.len(), 9);
    for (k, i) in v.iter().enumerate() {
        if k == 4 {
            assert_eq!(i.rotation, Rotation::Identity);
        } else {
            assert_eq!(i.rotation, Rotation::AboutPosition { degrees: 45 });
        }
    }
    assert_eq!(v[0].offset, Vec3i::new(4, 0, 4));
    assert_eq!(v[0].denominator, 6);
}

#[test]
fn zero_spacing_puts_all_at_origin_unrotated() {
    let v = build_grid(2, 2, Spacing { num: 0, den: 1 }).unwrap();
    assert_eq!(v.len(), 4);
    assert!(v.iter().all(|i| i.offset.is_zero() && i.rotation == Rotation::Identity));
}

#[test]
fn empty_grid() {
    assert!(build_grid(0, 5, Spacing { num: 1, den: 1 }).unwrap().is_empty());
    assert!(build_grid(5, 0, Spacing { num: 1, den: 1 }).unwrap().is_empty());
}

#[test]
fn zero_denominator_is_refused() {
    assert_eq!(
        build_grid(1, 1, Spacing { num: 3, den: 0 }).err(),
        Some(GeometryError::InvalidParameter)
    );
}

#[test]
fn extreme_spacing_does_not_overflow() {
    let v = build_grid(2, 1, Spacing { num: i32::MIN, den: u32::MAX }).unwrap();
    assert_eq!(v[0].offset.x, -(i32::MIN as i64));
    assert_eq!(v[1].offset.x, i32::MIN as i64);
    assert_eq!(v[0].denominator, 2 * u32::MAX as u64);
}

fn key(key: Key, pressed: bool) -> InputEvent {
    InputEvent::Keyboard { key, pressed }
}

#[test]
fn new_controller_holds_no_key() {
    let c = CameraController::new();
    assert!(!c.is_up_pressed && !c.is_down_pressed);
    assert!(!c.is_forward_pressed && !c.is_backward_pressed);
    assert!(!c.is_left_pressed && !c.is_right_pressed);
    assert!(c.moves(true).is_empty());
}

#[test]
fn keys_set_their_direction() {
    let mut c = CameraController::new();
    assert!(c.process_events(&key(Key::Space, true)));
    assert!(c.is_up_pressed);
    assert!(c.process_events(&key(Key::LShift, true)));
    assert!(c.is_down_pressed);
    assert!(c.process_events(&key(Key::W, true)));
    assert!(c.is_forward_pressed);
    assert!(c.process_events(&key(Key::Down, true)));
    assert!(c.is_backward_pressed);
    assert!(c.process_events(&key(Key::Left, true)));
    assert!(c.is_left_pressed);
    assert!(c.process_events(&key(Key::D, true)));
    assert!(c.is_right_pressed);
    assert!(c.process_events(&key(Key::Up, false)));
    assert!(!c.is_forward_pressed);
    assert!(c.process_events(&key(Key::S, false)));
    assert!(!c.is_backward_pressed);
    assert!(c.process_events(&key(Key::A, false)));
    assert!(!c.is_left_pressed);
    assert!(c.process_events(&key(Key::Right, false)));
    assert!(!c.is_right_pressed);
    assert!(c.is_up_pressed && c.is_down_pressed);
}

#[test]
fn other_input_is_not_consumed() {
    let mut c = CameraController::new();
    c.process_events(&key(Key::W, true));
    let before = c;
    assert!(!c.process_events(&key(Key::Other, true)));
    assert!(!c.process_events(&InputEvent::Other));
    assert_eq!(c, before);
}

#[test]
fn moves_follow_fixed_order() {
    let mut c = CameraController::new();
    for k in [Key::Left, Key::Right, Key::S, Key::W, Key::Space] {
        c.process_events(&key(k, true));
    }
    assert_eq!(
        c.moves(true),
        vec![
            CameraMove::Advance,
            CameraMove::Retreat,
            CameraMove::OrbitRight,
            CameraMove::OrbitLeft
        ]
    );
    assert_eq!(
        c.moves(false),
        vec![CameraMove::Retreat, CameraMove::OrbitRight, CameraMove::OrbitLeft]
    );
}

#[test]
fn advance_stops_near_target() {
    let mut c = CameraController::new();
    c.process_events(&key(Key::W, true));
    assert_eq!(c.moves(true), vec![CameraMove::Advance]);
    assert!(c.moves(false).is_empty());
}
