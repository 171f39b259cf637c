use glam::{Mat4, Vec3};
use render_core::camera::{Camera, Optics};
use render_core::jitter::JitterOffset;
use render_core::scalar::{
    clamp_at_least, clamp_magnitude_at_most, BELOW_QUARTER_TURN, HUNDREDTH, INFINITY, TENTH, TWO,
    ZERO,
};
use render_core::stereo_camera::{Eye, EyeMatrices, EyePositions, StereoCamera};
use render_core::view::{split_viewport, ViewState};
use render_core::xr::{mat4_from_slice, view_states_from_frame, XrEye, XrView};

fn optics(fovy: f32, aspect: f32, jitter: (f32, f32)) -> Optics {
    let steady = Mat4::perspective_infinite_reverse_rh(fovy, aspect, 0.1);
    let mut jittered = steady;
    jittered.z_axis.x += jitter.0;
    jittered.z_axis.y += jitter.1;
    Optics { fovy: fovy.to_bits(), projection: jittered, projection_no_jitter: steady }
}

fn frusta(seed: f32) -> EyeMatrices {
    EyeMatrices {
        left: Mat4::from_translation(Vec3::new(seed, 0.0, 0.0)),
        right: Mat4::from_translation(Vec3::new(-seed, 0.0, 0.0)),
    }
}

fn eyes(half: f32) -> EyePositions {
    EyePositions { left: Vec3::new(-half, 0.0, 0.0), right: Vec3::new(half, 0.0, 0.0) }
}

#[test]
fn previous_matrices_are_those_of_the_frame_before() {
    let o = optics(1.0, 1.5, (0.001, -0.002));
    let mut camera = Camera::new(1.2f32.to_bits(), 1.5f32.to_bits(), 0.1f32.to_bits(), o);
    let mut last: Option<ViewState> = None;
    for frame in 0..6 {
        let t = frame as f32;
        camera.look_at(Vec3::new(t, 2.0, 5.0 - t), Vec3::ZERO, Vec3::Y);
        camera.set_jitter(
            JitterOffset { x_num: frame, x_den: 100, y_num: -frame, y_den: 100 },
            optics(1.0, 1.5, (0.001 * t, 0.002 * t)),
        );
        camera.update();
        let state = camera.to_view_state((0, 0, 300, 200));
        if let Some(before) = last {
            assert_eq!(
                state.previous_view_projection_no_jitter.to_cols_array().map(f32::to_bits),
                before.view_projection_no_jitter.to_cols_array().map(f32::to_bits)
            );
            assert_eq!(
                state.previous_view_projection.to_cols_array().map(f32::to_bits),
                before.view_projection.to_cols_array().map(f32::to_bits)
            );
            assert_ne!(state.view_projection, before.view_projection);
        }
        last = Some(state);
    }
}

#[test]
fn update_multiplies_projection_by_view() {
    let o = optics(0.9, 2.0, (0.01, 0.02));
    let mut camera = Camera::new(1.0f32.to_bits(), 2.0f32.to_bits(), 0.1f32.to_bits(), o);
    let (position, target, up) = (Vec3::new(1.0, 2.0, 3.0), Vec3::new(0.0, 0.5, 0.0), Vec3::Y);
    camera.look_at(position, target, up);
    camera.update();
    let state = camera.to_view_state((1, 2, 3, 4));
    let view = Mat4::look_at_rh(position, target, up);
    assert_eq!(state.view, view);
    assert_eq!(state.inverse_view, view.inverse());
    assert_eq!(state.projection, o.projection);
    assert_eq!(state.view_projection, o.projection * view);
    assert_eq!(state.view_projection_no_jitter, o.projection_no_jitter * view);
    assert_ne!(state.view_projection, state.view_projection_no_jitter);
    assert_ne!(state.view_projection, o.projection);
    assert_eq!(state.fovy, 0.9f32.to_bits());
    assert_eq!(state.eye, Eye::Mono);
    assert_eq!(state.viewport, (1, 2, 3, 4));
}

#[test]
fn setters_and_look_at_keep_the_view_projection() {
    let o = optics(0.9, 2.0, (0.0, 0.0));
    let mut camera = Camera::new(1.0f32.to_bits(), 2.0f32.to_bits(), 0.1f32.to_bits(), o);
    let before = camera.to_view_state((0, 0, 10, 10));
    camera.set_aspect(1.0f32.to_bits(), optics(0.9, 1.0, (0.0, 0.0)));
    camera.set_fov(2.0f32.to_bits(), optics(1.4, 1.0, (0.0, 0.0)));
    camera.look_at(Vec3::new(3.0, 3.0, 3.0), Vec3::ZERO, Vec3::Y);
    let after = camera.to_view_state((0, 0, 10, 10));
    assert_eq!(camera.aspect(), 1.0f32.to_bits());
    assert_eq!(camera.fov(), 2.0f32.to_bits());
    assert_eq!(camera.near(), 0.1f32.to_bits());
    assert_eq!(after.fovy, 1.4f32.to_bits());
    assert_eq!(after.view_projection, before.view_projection);
    assert_eq!(after.previous_view_projection, before.previous_view_projection);
    assert_ne!(after.view, before.view);
    assert_ne!(after.projection, before.projection);
    let again = camera.to_view_state((0, 0, 10, 10));
    assert_eq!(again.view_projection, after.view_projection);
    assert_eq!(again.view, after.view);
}

#[test]
fn new_camera_has_no_jitter_and_identity_history() {
    let o = optics(0.9, 2.0, (0.0, 0.0));
    let camera = Camera::new(1.0f32.to_bits(), 2.0f32.to_bits(), 0.1f32.to_bits(), o);
    assert_eq!(camera.jitter(), JitterOffset { x_num: 0, x_den: 1, y_num: 0, y_den: 1 });
    let state = camera.to_view_state((0, 0, 1, 1));
    assert_eq!(state.view, Mat4::IDENTITY);
    assert_eq!(state.inverse_view, Mat4::IDENTITY);
    assert_eq!(state.previous_view_projection, Mat4::IDENTITY);
    assert_eq!(state.previous_view_projection_no_jitter, Mat4::IDENTITY);
    assert_eq!(
        state.view.to_cols_array().map(f32::to_bits),
        Mat4::IDENTITY.to_cols_array().map(f32::to_bits)
    );
    assert_eq!(state.view_projection, o.projection);
}

#[test]
fn view_state_direction_is_forward() {
    let view = Mat4::look_at_rh(Vec3::new(0.0, 0.0, 5.0), Vec3::ZERO, Vec3::Y);
    let state = ViewState::from_matrices(
        view,
        Mat4::IDENTITY,
        Mat4::IDENTITY,
        Mat4::IDENTITY,
        Mat4::IDENTITY,
        0,
        Eye::Mono,
        (0, 0, 1, 1),
    );
    assert_eq!(state.inverse_view, view.inverse());
    assert_ne!(state.inverse_view, view);
    assert_eq!(state.view_projection, view);
    assert!(state.direction().abs_diff_eq(Vec3::NEG_Z, 1e-6));
    let turned = ViewState::from_matrices(
        Mat4::look_at_rh(Vec3::ZERO, Vec3::new(3.0, 0.0, 4.0), Vec3::Y),
        Mat4::IDENTITY,
        Mat4::IDENTITY,
        Mat4::IDENTITY,
        Mat4::IDENTITY,
        0,
        Eye::Mono,
        (0, 0, 1, 1),
    );
    assert_eq!(turned.direction(), -turned.inverse_view.z_axis.truncate());
    assert!(turned.direction().abs_diff_eq(Vec3::new(0.6, 0.0, 0.8), 1e-6));
}

#[test]
fn viewport_is_split_in_halves() {
    assert_eq!(split_viewport((1920, 1080)), ((0, 0, 960, 1080), (960, 0, 960, 1080)));
    assert_eq!(split_viewport((101, 7)), ((0, 0, 50, 7), (50, 0, 51, 7)));
    assert_eq!(split_viewport((0, 0)), ((0, 0, 0, 0), (0, 0, 0, 0)));
    assert_eq!(split_viewport((1, 1)), ((0, 0, 0, 1), (0, 0, 1, 1)));
    assert_eq!(split_viewport((-3, 2)), ((0, 0, -1, 2), (-1, 0, -2, 2)));
    assert_eq!(
        split_viewport((i32::MIN, 1)),
        ((0, 0, i32::MIN / 2, 1), (i32::MIN / 2, 0, i32::MIN / 2, 1))
    );
}

#[test]
fn stereo_defaults() {
    let camera = StereoCamera::new(
        1.0f32.to_bits(),
        1.5f32.to_bits(),
        0.1f32.to_bits(),
        100.0f32.to_bits(),
        eyes(0.05),
        frusta(0.1),
    );
    assert_eq!(f32::from_bits(camera.eye_distance()), 0.1);
    assert_eq!(f32::from_bits(camera.convergence_distance()), 2.0);
    assert_eq!(camera.eye_distance(), TENTH);
    assert_eq!(camera.convergence_distance(), TWO);
    assert_eq!(camera.fovy(), 1.0f32.to_bits());
    assert_eq!(camera.aspect(), 1.5f32.to_bits());
    assert_eq!(camera.near(), 0.1f32.to_bits());
    assert_eq!(camera.pose(), (Vec3::ZERO, Vec3::NEG_Z, Vec3::Y));
    assert_eq!(camera.right_axis(), Vec3::X);
    assert_eq!(camera.direction(), Vec3::NEG_Z);
    let left = Mat4::look_to_rh(Vec3::new(-0.05, 0.0, 0.0), Vec3::NEG_Z, Vec3::Y);
    let right = Mat4::look_to_rh(Vec3::new(0.05, 0.0, 0.0), Vec3::NEG_Z, Vec3::Y);
    assert_eq!(camera.view(Eye::Left), left);
    assert_eq!(camera.view(Eye::Mono), left);
    assert_eq!(camera.view(Eye::Right), right);
    assert_eq!(camera.inverse_view(Eye::Right), right.inverse());
    assert_eq!(camera.projection(Eye::Left), frusta(0.1).left);
    assert_eq!(camera.projection(Eye::Right), frusta(0.1).right);
    assert_eq!(camera.view_projection(Eye::Left), frusta(0.1).left * left);
    assert_eq!(camera.view_projection(Eye::Right), frusta(0.1).right * right);
    assert!(camera.position(Eye::Left).abs_diff_eq(Vec3::new(-0.05, 0.0, 0.0), 1e-6));
    assert!(camera.position(Eye::Right).abs_diff_eq(Vec3::new(0.05, 0.0, 0.0), 1e-6));
}

#[test]
fn default_pose_is_at_the_origin_looking_down_z() {
    let (position, target, up) = StereoCamera::default_pose();
    assert_eq!(position.to_array().map(f32::to_bits), [0.0f32, 0.0, 0.0].map(f32::to_bits));
    assert_eq!(target.to_array().map(f32::to_bits), [0.0f32, 0.0, -1.0].map(f32::to_bits));
    assert_eq!(up.to_array().map(f32::to_bits), [0.0f32, 1.0, 0.0].map(f32::to_bits));
    assert_eq!((position, target, up), (Vec3::ZERO, Vec3::NEG_Z, Vec3::Y));
    assert_eq!(StereoCamera::right_axis_for(position, target, up), Vec3::X);
    let camera = StereoCamera::new(0, 0, 0, 0, eyes(0.05), frusta(0.1));
    assert_eq!(camera.pose(), StereoCamera::default_pose());
    let before_first_step = camera.to_view_states((2, 2));
    for state in &before_first_step {
        assert_eq!(
            state.previous_view_projection.to_cols_array().map(f32::to_bits),
            Mat4::IDENTITY.to_cols_array().map(f32::to_bits)
        );
    }
}

#[test]
fn right_axis_of_a_pose() {
    let position = Vec3::new(1.0, 2.0, 3.0);
    let target = Vec3::new(4.0, 6.0, 3.0);
    let axis = StereoCamera::right_axis_for(position, target, Vec3::Y);
    assert_eq!(axis, (target - position).normalize_or_zero().cross(Vec3::Y).normalize_or_zero());
    assert!(axis.abs_diff_eq(Vec3::Z, 1e-6));
    assert_eq!(StereoCamera::right_axis_for(position, position, Vec3::Y), Vec3::ZERO);
    assert_eq!(StereoCamera::right_axis_for(Vec3::ZERO, Vec3::Y, Vec3::Y), Vec3::ZERO);
}

#[test]
fn eyes_at_one_place_see_the_same() {
    let mut camera = StereoCamera::new(0, 0, 0, 0, eyes(0.05), frusta(0.1));
    let position = Vec3::new(1.0, 2.0, 3.0);
    camera.look_at(position, Vec3::new(0.0, 1.0, -4.0), Vec3::Y, eyes(0.3));
    assert_ne!(camera.view(Eye::Left), camera.view(Eye::Right));
    let one = Mat4::perspective_infinite_reverse_rh(1.0, 1.5, 0.1);
    camera.set_eye_distance(
        0.0f32.to_bits(),
        EyePositions { left: position, right: position },
        EyeMatrices { left: one, right: one },
    );
    camera.update();
    assert_eq!(camera.eye_distance(), ZERO);
    for (left, right) in [
        (camera.view(Eye::Left), camera.view(Eye::Right)),
        (camera.inverse_view(Eye::Left), camera.inverse_view(Eye::Right)),
        (camera.projection(Eye::Left), camera.projection(Eye::Right)),
        (camera.view_projection(Eye::Left), camera.view_projection(Eye::Right)),
    ] {
        assert_eq!(
            left.to_cols_array().map(f32::to_bits),
            right.to_cols_array().map(f32::to_bits)
        );
    }
    assert_eq!(camera.projection(Eye::Left), one);
}

#[test]
fn stereo_axes_follow_the_pose() {
    let mut camera = StereoCamera::new(0, 0, 0, 0, eyes(0.05), frusta(0.1));
    let position = Vec3::new(1.0, 2.0, 3.0);
    let target = Vec3::new(4.0, 6.0, 3.0);
    camera.look_at(position, target, Vec3::Y, eyes(0.5));
    assert_eq!(camera.pose(), (position, target, Vec3::Y));
    assert_eq!(camera.direction(), (target - position).normalize_or_zero());
    assert!(camera.direction().abs_diff_eq(Vec3::new(0.6, 0.8, 0.0), 1e-6));
    assert_ne!(camera.direction(), target - position);
    let right = (target - position).normalize_or_zero().cross(Vec3::Y).normalize_or_zero();
    assert_eq!(camera.right_axis(), right);
    assert!(camera.right_axis().abs_diff_eq(Vec3::Z, 1e-6));
    assert_ne!(camera.right_axis(), camera.direction().cross(Vec3::Y));
    let forward = (target - position).normalize_or_zero();
    let view = Mat4::look_to_rh(Vec3::new(0.5, 0.0, 0.0), forward, Vec3::Y);
    assert_eq!(camera.view(Eye::Right), view);
    assert_ne!(camera.view(Eye::Right), Mat4::look_at_rh(Vec3::new(0.5, 0.0, 0.0), target, Vec3::Y));
    assert_eq!(camera.inverse_view(Eye::Right), view.inverse());
    assert_ne!(camera.inverse_view(Eye::Right), view);
    assert_eq!(camera.position(Eye::Right), view.inverse().w_axis.truncate());
    assert!(camera.position(Eye::Right).abs_diff_eq(Vec3::new(0.5, 0.0, 0.0), 1e-5));
    let still = StereoCamera::new(0, 0, 0, 0, eyes(0.05), frusta(0.1));
    let mut stuck = still;
    stuck.look_at(position, position, Vec3::Y, eyes(0.5));
    assert_eq!(stuck.direction(), Vec3::ZERO);
    assert_eq!(stuck.right_axis(), Vec3::ZERO);
}

fn rotation(m: Mat4) -> [[u32; 3]; 3] {
    [m.x_axis, m.y_axis, m.z_axis].map(|c| [c.x, c.y, c.z].map(f32::to_bits))
}

#[test]
fn stereo_eyes_are_moved_and_not_turned() {
    let mut camera = StereoCamera::new(0, 0, 0, 0, eyes(0.05), frusta(0.1));
    assert_eq!(rotation(camera.view(Eye::Left)), rotation(camera.view(Eye::Right)));
    assert_ne!(camera.view(Eye::Left), camera.view(Eye::Right));
    let position = Vec3::new(1.0, 2.0, 3.0);
    let target = Vec3::new(2.0, 2.5, 1.0);
    let up = Vec3::Y;
    let forward = (target - position).normalize_or_zero();
    let right = forward.cross(up).normalize_or_zero();
    for ipd in [0.1f32, 0.5, 3.0] {
        let stand = EyePositions {
            left: position - right * (ipd * 0.5),
            right: position + right * (ipd * 0.5),
        };
        camera.look_at(position, target, up, stand);
        assert_eq!(camera.right_axis(), right);
        let (left, right_view) = (camera.view(Eye::Left), camera.view(Eye::Right));
        assert_eq!(rotation(left), rotation(right_view));
        assert_eq!(left, Mat4::look_to_rh(stand.left, forward, up));
        assert_eq!(right_view, Mat4::look_to_rh(stand.right, forward, up));
        assert_ne!(left.w_axis, right_view.w_axis);
        assert_ne!(rotation(left), rotation(Mat4::look_at_rh(stand.left, target, up)));
        assert_eq!(rotation(left), rotation(Mat4::look_at_rh(position, target, up)));
        assert!(camera.position(Eye::Left).abs_diff_eq(stand.left, 1e-5));
        assert!(camera.position(Eye::Right).abs_diff_eq(stand.right, 1e-5));
        let states = camera.to_view_states((200, 100));
        assert_eq!(rotation(states[0].view), rotation(states[1].view));
    }
    camera.set_eye_distance(
        0.0f32.to_bits(),
        EyePositions { left: position, right: position },
        frusta(0.0),
    );
    assert_eq!(camera.view(Eye::Left), camera.view(Eye::Right));
}

#[test]
fn stereo_update_moves_both_eyes_together() {
    let mut camera = StereoCamera::new(
        1.0f32.to_bits(),
        1.5f32.to_bits(),
        0.1f32.to_bits(),
        100.0f32.to_bits(),
        eyes(0.05),
        frusta(0.1),
    );
    for frame in 0..4 {
        let before = camera.to_view_states((200, 100));
        let t = frame as f32;
        camera.look_at(
            Vec3::new(t, 1.0, 4.0),
            Vec3::ZERO,
            Vec3::Y,
            EyePositions { left: Vec3::new(t - 0.05, 1.0, 4.0), right: Vec3::new(t + 0.05, 1.0, 4.0) },
        );
        camera.set_aspect(1.5f32.to_bits(), frusta(0.2 + t));
        camera.update();
        let after = camera.to_view_states((200, 100));
        assert_eq!(after.len(), 2);
        for eye in 0..2 {
            assert_eq!(after[eye].previous_view_projection, before[eye].view_projection);
            assert_eq!(
                after[eye].previous_view_projection_no_jitter,
                before[eye].view_projection_no_jitter
            );
            assert_eq!(after[eye].view_projection, after[eye].projection * after[eye].view);
            assert_eq!(after[eye].view_projection_no_jitter, after[eye].view_projection);
        }
        assert_eq!(after[0].eye, Eye::Left);
        assert_eq!(after[1].eye, Eye::Right);
        assert_eq!(after[0].viewport, (0, 0, 100, 100));
        assert_eq!(after[1].viewport, (100, 0, 100, 100));
        assert_ne!(after[0].view, after[1].view);
    }
}

#[test]
fn stereo_setters_clamp() {
    let mut camera = StereoCamera::new(0, 0, 0, 0, eyes(0.05), frusta(0.1));
    camera.set_eye_distance((-1.0f32).to_bits(), eyes(0.0), frusta(0.0));
    assert_eq!(f32::from_bits(camera.eye_distance()), 0.0);
    camera.set_eye_distance(f32::NAN.to_bits(), eyes(0.0), frusta(0.0));
    assert_eq!(camera.eye_distance(), ZERO);
    camera.set_eye_distance(0.25f32.to_bits(), eyes(0.125), frusta(0.3));
    assert_eq!(f32::from_bits(camera.eye_distance()), 0.25);
    assert_eq!(camera.projection(Eye::Left), frusta(0.3).left);
    camera.set_convergence_distance(0.001f32.to_bits(), frusta(0.4));
    assert_eq!(f32::from_bits(camera.convergence_distance()), 0.01);
    assert_eq!(camera.projection(Eye::Right), frusta(0.4).right);
    camera.set_convergence_distance((-5.0f32).to_bits(), frusta(0.4));
    assert_eq!(camera.convergence_distance(), HUNDREDTH);
    camera.set_convergence_distance(7.5f32.to_bits(), frusta(0.4));
    assert_eq!(f32::from_bits(camera.convergence_distance()), 7.5);
    camera.set_fovy(0.5f32.to_bits(), frusta(0.5));
    assert_eq!(f32::from_bits(camera.fovy()), 0.5);
    assert_eq!(camera.projection(Eye::Mono), frusta(0.5).left);
}

#[test]
fn clamps_agree_with_floating_point() {
    let samples = [
        0.0f32, -0.0, 0.005, 0.01, 0.0100001, 0.1, 1.0, 2.0, 1e30, f32::INFINITY,
        f32::NEG_INFINITY, -1.0, -1e-30, f32::MIN_POSITIVE, 1e-45, f32::NAN, -f32::NAN, 1.5607964,
        1.57, 3.0, -1.57, -0.3,
    ];
    for x in samples {
        let floor = clamp_at_least(x.to_bits(), HUNDREDTH);
        assert_eq!(f32::from_bits(floor), x.max(0.01));
        assert_eq!(floor, StereoCamera::clamp_convergence_distance(x.to_bits()));
        let zero = StereoCamera::clamp_eye_distance(x.to_bits());
        assert_eq!(f32::from_bits(zero), x.max(0.0));
        assert_eq!(zero & 0x8000_0000, 0);
        let limit = std::f32::consts::FRAC_PI_2 - 0.01;
        assert_eq!(limit.to_bits(), BELOW_QUARTER_TURN);
        let angle = clamp_magnitude_at_most(x.to_bits(), BELOW_QUARTER_TURN);
        assert_eq!(f32::from_bits(angle), x.abs().min(limit));
        assert_eq!(angle, StereoCamera::clamp_convergence_angle(x.to_bits()));
    }
    assert_eq!(f32::INFINITY.to_bits(), INFINITY);
    assert_eq!(0.01f32.to_bits(), HUNDREDTH);
    assert_eq!(0.1f32.to_bits(), TENTH);
    assert_eq!(2.0f32.to_bits(), TWO);
}

#[test]
fn eye_is_stereo_only_for_left_and_right() {
    assert!(!Eye::Mono.is_stereo());
    assert!(Eye::Left.is_stereo());
    assert!(Eye::Right.is_stereo());
}

#[test]
fn headset_views_become_view_states() {
    let transform = Mat4::from_translation(Vec3::new(1.0, 2.0, 3.0));
    let projection = Mat4::perspective_infinite_reverse_rh(1.0, 1.0, 0.1);
    let views = vec![
        XrView { eye: XrEye::Right, projection, transform, fovy: 11 },
        XrView { eye: XrEye::Neither, projection, transform, fovy: 12 },
        XrView { eye: XrEye::Left, projection: Mat4::IDENTITY, transform, fovy: 13 },
    ];
    let states = view_states_from_frame(&views, (1001, 500)).unwrap();
    assert_eq!(states.len(), 2);
    assert_eq!(states[0].eye, Eye::Right);
    assert_eq!(states[0].viewport, (500, 0, 501, 500));
    assert_eq!(states[0].fovy, 11);
    assert_eq!(states[0].view, transform.inverse());
    assert_eq!(states[0].inverse_view, transform.inverse().inverse());
    assert_ne!(states[0].view, transform);
    assert_eq!(states[0].view_projection, projection * transform.inverse());
    assert_eq!(states[0].previous_view_projection, states[0].view_projection);
    assert_eq!(states[0].view_projection_no_jitter, states[0].view_projection);
    assert_eq!(states[0].previous_view_projection_no_jitter, states[0].view_projection);
    assert_eq!(states[1].eye, Eye::Left);
    assert_eq!(states[1].viewport, (0, 0, 500, 500));
    assert_eq!(states[1].fovy, 13);
    assert_eq!(states[1].projection, Mat4::IDENTITY);
}

#[test]
fn headset_without_eye_views_gives_nothing() {
    assert!(view_states_from_frame(&Vec::new(), (100, 100)).is_none());
    let lone = vec![XrView {
        eye: XrEye::Neither,
        projection: Mat4::IDENTITY,
        transform: Mat4::IDENTITY,
        fovy: 0,
    }];
    assert!(view_states_from_frame(&lone, (100, 100)).is_none());
}

#[test]
fn matrix_bits_are_padded_and_cut() {
    assert_eq!(mat4_from_slice(&[]), [0u32; 16]);
    let mut expected = [0u32; 16];
    expected[0] = 7;
    expected[1] = 8;
    assert_eq!(mat4_from_slice(&[7, 8]), expected);
    let long: Vec<u32> = (1..=20).collect();
    let cut: Vec<u32> = (1..=16).collect();
    assert_eq!(mat4_from_slice(&long).to_vec(), cut);
}
