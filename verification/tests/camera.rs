use arcball::{ArcballCamera, CameraError};
use cgmath::{Matrix, Matrix4, Point3, Quaternion, SquareMatrix, Vector2, Vector3};

fn identity_camera(width: f64, height: f64) -> ArcballCamera<f64> {
    ArcballCamera::new(&Matrix4::identity(), 1.0, 1.0, [width, height]).unwrap()
}

fn orbit_view() -> Matrix4<f64> {
    Matrix4::look_at_rh(
        Point3::new(1.0, 2.0, 5.0),
        Point3::new(0.0, 0.0, 0.0),
        Vector3::new(0.0, 1.0, 0.0),
    )
}

fn largest_difference(a: &Matrix4<f64>, b: &Matrix4<f64>) -> f64 {
    let mut worst = 0.0f64;
    for c in 0..4 {
        for r in 0..4 {
            let d = (a[c][r] - b[c][r]).abs();
            if !(d <= worst) {
                worst = d;
            }
        }
    }
    worst
}

fn close(a: &Matrix4<f64>, b: &Matrix4<f64>, tolerance: f64) -> bool {
    largest_difference(a, b) <= tolerance
}

fn p(x: f64, y: f64) -> Vector2<f64> {
    Vector2::new(x, y)
}

#[test]
fn view_after_construction_is_base_view() {
    let base = orbit_view();
    let camera = ArcballCamera::new(&base, 0.5, 2.0, [800.0, 600.0]).unwrap();
    assert_eq!(camera.get_mat4(), base);

    let plain = identity_camera(100.0, 100.0);
    assert_eq!(plain.get_mat4(), Matrix4::identity());
}

#[test]
fn view_after_construction_is_base_view_in_single_precision() {
    let base: Matrix4<f32> = Matrix4::look_at_rh(
        Point3::new(0.0f32, 0.0, 5.0),
        Point3::new(0.0, 0.0, 0.0),
        Vector3::new(0.0, 1.0, 0.0),
    );
    let camera = ArcballCamera::new(&base, 1.0f32, 1.0, [640.0, 480.0]).unwrap();
    assert_eq!(camera.get_mat4(), base);
}

#[test]
fn singular_base_view_is_refused() {
    let flat: Matrix4<f64> = Matrix4::from_nonuniform_scale(1.0, 1.0, 0.0);
    let refused = ArcballCamera::new(&flat, 1.0, 1.0, [100.0, 100.0]);
    assert!(matches!(refused, Err(CameraError::SingularView)));

    let nothing: Matrix4<f64> = Matrix4::from_value(0.0) * 0.0;
    let refused = ArcballCamera::new(&nothing, 1.0, 1.0, [100.0, 100.0]);
    assert!(matches!(refused, Err(CameraError::SingularView)));
}

#[test]
fn centre_rotate_then_zoom_then_pan() {
    let mut camera = identity_camera(100.0, 100.0);

    assert_eq!(camera.rotate(p(50.0, 50.0), p(50.0, 50.0)), Ok(()));
    assert_eq!(camera.get_mat4(), Matrix4::identity());

    assert_eq!(camera.zoom(1.0, 1.0), Ok(()));
    assert_eq!(
        camera.get_mat4(),
        Matrix4::from_translation(Vector3::new(0.0, 0.0, 1.0))
    );

    assert_eq!(camera.pan(p(10.0, 0.0), 1.0), Ok(()));
    assert_eq!(
        camera.get_mat4(),
        Matrix4::from_translation(Vector3::new(10.0, 0.0, 0.0))
            * Matrix4::from_translation(Vector3::new(0.0, 0.0, 1.0))
    );
    assert_eq!(
        camera.get_mat4(),
        Matrix4::from_translation(Vector3::new(10.0, 0.0, 1.0))
    );
}

#[test]
fn rotate_with_same_position_keeps_view() {
    let screens = [[100.0, 100.0], [640.0, 480.0], [1920.0, 1080.0], [3.0, 7.0]];
    let fractions = [
        (0.5, 0.5),
        (0.25, 0.75),
        (0.9, 0.1),
        (0.0, 0.0),
        (1.0, 1.0),
        (0.31, 0.62),
        (1.5, -0.5),
    ];
    for screen in screens.iter() {
        for (fx, fy) in fractions.iter() {
            let mut camera =
                ArcballCamera::new(&orbit_view(), 1.0, 1.0, [screen[0], screen[1]]).unwrap();
            camera
                .rotate(p(0.3 * screen[0], 0.4 * screen[1]), p(0.6 * screen[0], 0.5 * screen[1]))
                .unwrap();
            camera.pan(p(3.0, -2.0), 0.5).unwrap();
            let before = camera.get_mat4();

            let at = p(fx * screen[0], fy * screen[1]);
            assert_eq!(camera.rotate(at, at), Ok(()));
            assert!(close(&camera.get_mat4(), &before, 1e-12));
        }
    }
}

#[test]
fn rotate_at_centre_keeps_view_exactly() {
    let mut camera = ArcballCamera::new(&orbit_view(), 1.0, 1.0, [100.0, 100.0]).unwrap();
    let before = camera.get_mat4();
    camera.rotate(p(50.0, 50.0), p(50.0, 50.0)).unwrap();
    assert_eq!(camera.get_mat4(), before);
}

#[test]
fn drag_to_right_edge_is_half_turn_about_vertical_axis() {
    let mut camera = identity_camera(100.0, 100.0);
    camera.rotate(p(50.0, 50.0), p(100.0, 50.0)).unwrap();
    assert_eq!(
        camera.get_mat4(),
        Matrix4::from_nonuniform_scale(-1.0, 1.0, -1.0)
    );
}

#[test]
fn drag_to_top_edge_is_half_turn_about_horizontal_axis() {
    let mut camera = identity_camera(100.0, 100.0);
    camera.rotate(p(50.0, 50.0), p(50.0, 0.0)).unwrap();
    assert_eq!(
        camera.get_mat4(),
        Matrix4::from_nonuniform_scale(1.0, -1.0, -1.0)
    );
}

#[test]
fn drag_right_turns_by_twice_the_arc() {
    // The pointer goes from the centre to x = 0.6 in ball space, where the
    // sphere has depth 0.8: the turn is the quaternion (-0.8; 0, -0.6, 0).
    let mut camera = identity_camera(100.0, 100.0);
    camera.rotate(p(50.0, 50.0), p(80.0, 50.0)).unwrap();
    let expected = Matrix4::from(Quaternion::new(-0.8, 0.0, -0.6, 0.0));
    assert!(close(&camera.get_mat4(), &expected, 1e-12));
    let view = camera.get_mat4();
    assert!((view[0][0] - 0.28).abs() <= 1e-12);
    assert!((view[0][2] + 0.96).abs() <= 1e-12);
    assert!((view[2][0] - 0.96).abs() <= 1e-12);
    assert!((view[2][2] - 0.28).abs() <= 1e-12);
    assert_eq!(view[1][1], 1.0);
}

#[test]
fn screen_y_grows_downward() {
    // Twenty pixels below the top of a hundred is y = 0.6 in ball space.
    let mut up = identity_camera(100.0, 100.0);
    up.rotate(p(50.0, 50.0), p(50.0, 20.0)).unwrap();
    let expected_up = Matrix4::from(Quaternion::new(-0.8, 0.6, 0.0, 0.0));
    assert!(close(&up.get_mat4(), &expected_up, 1e-12));
    assert!((up.get_mat4()[1][2] + 0.96).abs() <= 1e-12);

    let mut down = identity_camera(100.0, 100.0);
    down.rotate(p(50.0, 50.0), p(50.0, 80.0)).unwrap();
    let expected_down = Matrix4::from(Quaternion::new(-0.8, -0.6, 0.0, 0.0));
    assert!(close(&down.get_mat4(), &expected_down, 1e-12));
    assert!((down.get_mat4()[1][2] - 0.96).abs() <= 1e-12);
}

#[test]
fn pointer_outside_the_screen_counts_as_on_its_edge() {
    let mut far = identity_camera(100.0, 100.0);
    far.rotate(p(50.0, 50.0), p(1000.0, 50.0)).unwrap();
    let mut edge = identity_camera(100.0, 100.0);
    edge.rotate(p(50.0, 50.0), p(100.0, 50.0)).unwrap();
    assert_eq!(far.get_mat4(), edge.get_mat4());

    let mut far = identity_camera(100.0, 100.0);
    far.rotate(p(-40.0, 700.0), p(60.0, 45.0)).unwrap();
    let mut edge = identity_camera(100.0, 100.0);
    edge.rotate(p(0.0, 100.0), p(60.0, 45.0)).unwrap();
    assert_eq!(far.get_mat4(), edge.get_mat4());
}

#[test]
fn later_turn_is_applied_on_the_left() {
    let mut camera = identity_camera(100.0, 100.0);
    camera.rotate(p(50.0, 50.0), p(80.0, 50.0)).unwrap();
    camera.rotate(p(50.0, 50.0), p(50.0, 20.0)).unwrap();

    let first = Quaternion::new(-0.8, 0.0, -0.6, 0.0);
    let second = Quaternion::new(-0.8, 0.6, 0.0, 0.0);
    let expected = Matrix4::from(second * first);
    let swapped = Matrix4::from(first * second);
    assert!(close(&camera.get_mat4(), &expected, 1e-12));
    assert!(!close(&camera.get_mat4(), &swapped, 1e-3));
}

#[test]
fn view_is_translation_then_base_then_rotation() {
    let base = orbit_view();
    let mut camera = ArcballCamera::new(&base, 1.0, 1.0, [100.0, 100.0]).unwrap();
    camera.rotate(p(50.0, 50.0), p(100.0, 50.0)).unwrap();
    camera.pan(p(10.0, 0.0), 1.0).unwrap();

    let translation = Matrix4::from_translation(Vector3::new(10.0, 0.0, 0.0));
    let rotation = Matrix4::from_nonuniform_scale(-1.0, 1.0, -1.0);
    assert_eq!(camera.get_mat4(), translation * base * rotation);
    assert!(!close(&camera.get_mat4(), &(base * translation * rotation), 1e-3));
    assert!(!close(&camera.get_mat4(), &(rotation * translation * base), 1e-3));
}

#[test]
fn zoom_is_scaled_by_speed_and_time() {
    let mut camera = ArcballCamera::new(&Matrix4::identity(), 7.0, 3.0, [100.0, 100.0]).unwrap();
    camera.zoom(2.0, 0.5).unwrap();
    assert_eq!(
        camera.get_mat4(),
        Matrix4::from_translation(Vector3::new(0.0, 0.0, 3.0))
    );
    camera.zoom(-4.0, 0.25).unwrap();
    assert_eq!(
        camera.get_mat4(),
        Matrix4::from_translation(Vector3::new(0.0, 0.0, 0.0))
    );
    camera.zoom(-100.0, 1.0).unwrap();
    assert_eq!(
        camera.get_mat4(),
        Matrix4::from_translation(Vector3::new(0.0, 0.0, -300.0))
    );
}

#[test]
fn pan_is_scaled_by_speed_and_time() {
    let mut camera = ArcballCamera::new(&Matrix4::identity(), 2.0, 9.0, [100.0, 100.0]).unwrap();
    camera.pan(p(4.0, -2.0), 0.25).unwrap();
    assert_eq!(
        camera.get_mat4(),
        Matrix4::from_translation(Vector3::new(2.0, -1.0, 0.0))
    );
    assert_eq!(camera.get_mat4()[3][2], 0.0);
}

#[test]
fn pan_and_zoom_act_in_camera_space() {
    // After a half turn about the vertical axis the world's x and z axes
    // point the other way, yet panning still moves the image to the right.
    let mut camera = identity_camera(100.0, 100.0);
    camera.rotate(p(50.0, 50.0), p(100.0, 50.0)).unwrap();
    camera.pan(p(5.0, 0.0), 1.0).unwrap();
    camera.zoom(2.0, 1.0).unwrap();
    let view = camera.get_mat4();
    assert_eq!(view[3][0], 5.0);
    assert_eq!(view[3][1], 0.0);
    assert_eq!(view[3][2], 2.0);
    assert_eq!(view[0][0], -1.0);
    assert_eq!(view[2][2], -1.0);
}

#[test]
fn pan_is_undone_by_opposite_pan() {
    let mut camera = ArcballCamera::new(&orbit_view(), 0.7, 1.3, [640.0, 480.0]).unwrap();
    camera.rotate(p(100.0, 100.0), p(300.0, 260.0)).unwrap();

    let mut zoomed_only = ArcballCamera::new(&orbit_view(), 0.7, 1.3, [640.0, 480.0]).unwrap();
    zoomed_only.rotate(p(100.0, 100.0), p(300.0, 260.0)).unwrap();
    zoomed_only.zoom(2.5, 0.016).unwrap();

    camera.pan(p(13.0, -7.0), 0.016).unwrap();
    camera.zoom(2.5, 0.016).unwrap();
    camera.pan(p(-13.0, 7.0), 0.016).unwrap();
    assert!(close(&camera.get_mat4(), &zoomed_only.get_mat4(), 1e-12));
}

#[test]
fn pan_back_restores_translation_exactly_for_dyadic_steps() {
    let mut camera = identity_camera(100.0, 100.0);
    camera.zoom(0.5, 1.0).unwrap();
    let before = camera.get_mat4();
    camera.pan(p(8.0, -4.0), 0.25).unwrap();
    camera.zoom(3.0, 0.5).unwrap();
    camera.pan(p(-8.0, 4.0), 0.25).unwrap();
    camera.zoom(-3.0, 0.5).unwrap();
    assert_eq!(camera.get_mat4(), before);
}

#[test]
fn update_screen_keeps_view() {
    let mut camera = ArcballCamera::new(&orbit_view(), 1.0, 1.0, [100.0, 100.0]).unwrap();
    camera.rotate(p(20.0, 30.0), p(70.0, 60.0)).unwrap();
    camera.zoom(1.0, 0.5).unwrap();
    let before = camera.get_mat4();
    camera.update_screen(1920.0, 1080.0);
    assert_eq!(camera.get_mat4(), before);
}

#[test]
fn resize_changes_rotation() {
    let mut unresized = identity_camera(100.0, 100.0);
    unresized.rotate(p(20.0, 30.0), p(70.0, 60.0)).unwrap();

    let mut resized = identity_camera(100.0, 100.0);
    resized.update_screen(400.0, 300.0);
    resized.rotate(p(20.0, 30.0), p(70.0, 60.0)).unwrap();

    assert_ne!(unresized.get_mat4(), resized.get_mat4());
    assert!(!close(&unresized.get_mat4(), &resized.get_mat4(), 1e-3));
}

#[test]
fn update_screen_sets_the_size_used_by_rotate() {
    let mut resized = identity_camera(100.0, 100.0);
    resized.update_screen(400.0, 300.0);
    resized.rotate(p(80.0, 60.0), p(280.0, 210.0)).unwrap();

    let mut built = identity_camera(400.0, 300.0);
    built.rotate(p(80.0, 60.0), p(280.0, 210.0)).unwrap();
    assert_eq!(resized.get_mat4(), built.get_mat4());

    // The same fractions of a screen of another size give the same turn.
    let mut small = identity_camera(100.0, 100.0);
    small.rotate(p(20.0, 20.0), p(70.0, 70.0)).unwrap();
    assert!(close(&small.get_mat4(), &built.get_mat4(), 1e-12));
}

#[test]
fn rotation_stays_unit_length() {
    let mut camera = identity_camera(800.0, 600.0);
    let mut state: u64 = 0x2545_f491_4f6c_dd1d;
    let mut next = move |limit: f64| {
        state = state
            .wrapping_mul(6364136223846793005)
            .wrapping_add(1442695040888963407);
        ((state >> 11) as f64) / ((1u64 << 53) as f64) * limit
    };
    let mut prev = p(next(800.0), next(600.0));
    for _ in 0..500 {
        let cur = p(next(900.0) - 50.0, next(700.0) - 50.0);
        camera.rotate(prev, cur).unwrap();
        prev = cur;

        // With no translation and the identity as base the view is the
        // rotation matrix, which is orthonormal exactly when the
        // quaternion has unit length.
        let view = camera.get_mat4();
        let gram = view * view.transpose();
        assert!(close(&gram, &Matrix4::identity(), 1e-9));
        assert!((view.determinant() - 1.0).abs() <= 1e-9);
    }
}

#[test]
fn depth_goes_to_zero_at_the_unit_circle() {
    // From the centre to a point (x, y) of the sphere with depth z the turn
    // is (-z; y, -x, 0), and the view holds -2 y z in column 1, row 2.
    let depth_of = |ball: f64| {
        let mut camera = identity_camera(200.0, 200.0);
        let px = (ball + 1.0) * 100.0;
        let py = (1.0 - ball) * 100.0;
        camera.rotate(p(100.0, 100.0), p(px, py)).unwrap();
        let view = camera.get_mat4();
        (-view[1][2] / (2.0 * ball), view)
    };

    let (inside_depth, inside_view) = depth_of(0.70710678);
    let (outside_depth, outside_view) = depth_of(0.70710679);
    assert!(inside_depth >= 0.0 && inside_depth <= 1e-4);
    assert!(outside_depth.abs() <= 1e-15);
    assert!(close(&inside_view, &outside_view, 1e-3));

    let (well_inside_depth, _) = depth_of(0.5);
    assert!((well_inside_depth - 0.5f64.sqrt()).abs() <= 1e-12);

    let (far_outside_depth, far_outside_view) = depth_of(0.95);
    assert!(far_outside_depth.abs() <= 1e-15);
    assert!(close(&far_outside_view, &outside_view, 1e-7));
}

#[test]
fn turn_that_flattens_the_view_is_refused_and_changes_nothing() {
    // The base view squeezes one axis down to the smallest positive number.
    // It still has an inverse, but turned towards a corner the squeezed row
    // rounds to zero and the view has none.
    let squeezed: Matrix4<f64> = Matrix4::from_nonuniform_scale(1.0, f64::from_bits(1), 1.0);
    let mut camera = ArcballCamera::new(&squeezed, 1.0, 1.0, [100.0, 100.0]).unwrap();
    let mut untouched = ArcballCamera::new(&squeezed, 1.0, 1.0, [100.0, 100.0]).unwrap();
    assert_eq!(camera.get_mat4(), squeezed);

    assert_eq!(
        camera.rotate(p(50.0, 50.0), p(25.0, 25.0)),
        Err(CameraError::SingularView)
    );
    assert_eq!(camera.get_mat4(), squeezed);

    // The refused turn has left no trace in the rotation or the translation.
    assert_eq!(camera.rotate(p(50.0, 50.0), p(100.0, 50.0)), Ok(()));
    assert_eq!(untouched.rotate(p(50.0, 50.0), p(100.0, 50.0)), Ok(()));
    assert_eq!(camera.get_mat4(), untouched.get_mat4());
    assert_eq!(camera.pan(p(2.0, 0.0), 1.0), Ok(()));
    assert_eq!(untouched.pan(p(2.0, 0.0), 1.0), Ok(()));
    assert_eq!(camera.get_mat4(), untouched.get_mat4());
    assert_ne!(camera.get_mat4(), squeezed);
}

#[test]
fn centre_rotate_then_zoom_then_pan_in_single_precision() {
    let mut camera: ArcballCamera<f32> =
        ArcballCamera::new(&Matrix4::identity(), 1.0, 1.0, [100.0, 100.0]).unwrap();
    let centre: Vector2<f32> = Vector2::new(50.0, 50.0);
    assert_eq!(camera.rotate(centre, centre), Ok(()));
    assert_eq!(camera.get_mat4(), Matrix4::identity());
    assert_eq!(camera.zoom(1.0, 1.0), Ok(()));
    assert_eq!(camera.pan(Vector2::new(10.0, 0.0), 1.0), Ok(()));
    assert_eq!(
        camera.get_mat4(),
        Matrix4::from_translation(Vector3::new(10.0f32, 0.0, 1.0))
    );
    assert_eq!(camera.rotate(centre, Vector2::new(100.0, 50.0)), Ok(()));
    assert_eq!(
        camera.get_mat4(),
        Matrix4::from_translation(Vector3::new(10.0f32, 0.0, 1.0))
            * Matrix4::from_nonuniform_scale(-1.0, 1.0, -1.0)
    );
}

#[test]
fn rotate_does_not_depend_on_the_speeds() {
    let mut slow = ArcballCamera::new(&orbit_view(), 0.01, 0.02, [320.0, 200.0]).unwrap();
    let mut fast = ArcballCamera::new(&orbit_view(), 50.0, 80.0, [320.0, 200.0]).unwrap();
    slow.rotate(p(12.0, 150.0), p(200.0, 40.0)).unwrap();
    fast.rotate(p(12.0, 150.0), p(200.0, 40.0)).unwrap();
    assert_eq!(slow.get_mat4(), fast.get_mat4());
    assert_ne!(slow.get_mat4(), orbit_view());
}

#[test]
fn pan_and_zoom_keep_the_rotation() {
    let mut moved = identity_camera(100.0, 100.0);
    moved.rotate(p(50.0, 50.0), p(80.0, 50.0)).unwrap();
    let turned = moved.get_mat4();
    moved.pan(p(3.0, 4.0), 1.0).unwrap();
    moved.zoom(5.0, 1.0).unwrap();
    let view = moved.get_mat4();
    for c in 0..3 {
        for r in 0..3 {
            assert_eq!(view[c][r], turned[c][r]);
        }
    }
    assert_eq!(view[3][0], 3.0);
    assert_eq!(view[3][1], 4.0);
    assert_eq!(view[3][2], 5.0);
}
