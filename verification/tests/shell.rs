use glam::Vec3;
use render_core::app::App;
use render_core::ecs::world::{BasePosition, HalfCube, MovingCube, OscillateMotion, World};
use render_core::handoff::{GpuState, Handoff};
use render_core::static_geometry::StaticGeometry;

#[test]
fn first_frame_applies_the_initial_size() {
    let mut app = App::init(800, 600, 1920, 1080);
    assert_eq!(app.size(), (0, 0));
    assert_eq!(app.pending(), Some((800, 600)));
    assert!(app.begin_frame(true));
    assert_eq!(app.size(), (800, 600));
    assert_eq!(app.max_size(), (1920, 1080));
    assert_eq!(app.pending(), None);
    app.end_frame();
    assert!(!app.begin_frame(true));
    app.end_frame();
    assert_eq!(app.current_frame(), 2);
}

#[test]
fn empty_canvas_has_nothing_to_apply() {
    let mut app = App::init(0, 600, 1920, 1080);
    assert_eq!(app.pending(), None);
    assert!(!app.begin_frame(true));
    assert_eq!(app.size(), (0, 0));
}

#[test]
fn only_the_last_resize_is_applied() {
    let mut app = App::init(800, 600, 1000, 1000);
    app.begin_frame(true);
    assert!(app.request_resize(1024, 768, 800, 600));
    assert!(app.request_resize(1280, 1024, 1024, 768));
    assert_eq!(app.pending(), Some((1280, 1024)));
    assert!(app.begin_frame(true));
    assert_eq!(app.size(), (1280, 1024));
    assert_eq!(app.max_size(), (1280, 1024));
    assert!(!app.begin_frame(true));
}

#[test]
fn resize_requests_that_are_not_taken_up() {
    let mut app = App::init(800, 600, 1000, 1000);
    app.begin_frame(true);
    assert!(!app.request_resize(0, 700, 800, 600));
    assert!(!app.request_resize(900, 0, 800, 600));
    assert!(!app.request_resize(800, 600, 800, 600));
    assert_eq!(app.pending(), None);
    assert!(app.request_resize(900, 700, 800, 600));
    assert_eq!(app.pending(), Some((900, 700)));
    assert!(!app.request_resize(0, 0, 900, 700));
    assert!(!app.request_resize(900, 700, 900, 700));
    assert_eq!(app.pending(), Some((900, 700)));
}

#[test]
fn resize_along_one_axis_is_applied() {
    let mut app = App::init(800, 600, 1000, 1000);
    app.begin_frame(true);
    assert!(app.request_resize(800, 700, 800, 600));
    assert_eq!(app.pending(), Some((800, 700)));
    assert!(app.begin_frame(true));
    assert_eq!(app.size(), (800, 700));
    assert!(app.request_resize(1200, 700, 800, 700));
    assert!(app.begin_frame(true));
    assert_eq!(app.size(), (1200, 700));
    assert_eq!(app.max_size(), (1200, 1000));
    assert_eq!(app.pending(), None);
    assert!(!app.begin_frame(true));
}

#[test]
fn last_of_many_resizes_wins() {
    let mut app = App::init(800, 600, 1000, 1000);
    app.begin_frame(true);
    let mut canvas = (800, 600);
    for (w, h) in [(810, 600), (810, 610), (1300, 610), (640, 610)] {
        assert!(app.request_resize(w, h, canvas.0, canvas.1));
        canvas = (w, h);
    }
    assert!(app.begin_frame(true));
    assert_eq!(app.size(), (640, 610));
    assert_eq!(app.max_size(), (1000, 1000));
    assert_eq!(app.pending(), None);
}

#[test]
fn resize_waits_for_the_context() {
    let mut app = App::init(800, 600, 1000, 1000);
    for _ in 0..3 {
        assert!(!app.begin_frame(false));
        assert_eq!(app.size(), (0, 0));
        app.end_frame();
    }
    assert!(app.request_resize(640, 480, 800, 600));
    assert!(app.begin_frame(true));
    assert_eq!(app.size(), (640, 480));
    assert_eq!(app.max_size(), (1000, 1000));
    assert_eq!(app.current_frame(), 3);
}

#[test]
fn handoff_is_written_once_and_drained_once() {
    let mut handoff: Handoff<&str> = Handoff::new();
    assert_eq!(handoff.drain(), None);
    assert_eq!(handoff.offer("context"), None);
    assert_eq!(handoff.offer("again"), Some("again"));
    assert_eq!(handoff.drain(), Some("context"));
    assert_eq!(handoff.drain(), None);
    assert_eq!(handoff.offer("late"), Some("late"));
    assert_eq!(handoff.drain(), None);
}

#[test]
fn context_becomes_ready_at_the_poll_after_the_offer() {
    let mut handoff: Handoff<u32> = Handoff::new();
    let mut state: GpuState<u32> = GpuState::Uninitialized;
    state = state.poll(&mut handoff);
    assert!(!state.is_ready());
    handoff.offer(7);
    state = state.poll(&mut handoff);
    assert!(matches!(state, GpuState::Ready(7)));
    state = state.poll(&mut handoff);
    assert!(matches!(state, GpuState::Ready(7)));
}

#[test]
fn static_geometry_places_pieces() {
    let mut geometry = StaticGeometry::new(1024, 256);
    assert_eq!(geometry.add_vertices(192), 0);
    assert_eq!(geometry.vertex_last_offset, 192);
    assert_eq!(geometry.add_vertices(6), 192);
    assert_eq!(geometry.vertex_last_offset, 198);
    assert_eq!(geometry.add_vertices(10), 255);
    assert_eq!(geometry.vertex_last_offset, 265);
    assert_eq!(geometry.add_elements(60), 0);
    assert_eq!(geometry.add_elements(4), 63);
    assert_eq!(geometry.element_last_offset, 67);
    assert_eq!(geometry.vertex_buffer_size, 1024);
    assert_eq!(geometry.element_buffer_size, 256);
}

#[test]
fn static_geometry_refuses_what_does_not_fit() {
    let mut geometry = StaticGeometry::new(100, 10);
    assert_eq!(geometry.try_add_vertices(100), Some(0));
    assert_eq!(geometry.try_add_vertices(1), None);
    assert_eq!(geometry.vertex_last_offset, 100);
    assert_eq!(geometry.try_add_elements(11), None);
    assert_eq!(geometry.try_add_elements(10), Some(0));
    assert_eq!(geometry.try_add_elements(0), None);
    let mut full = StaticGeometry {
        vertex_buffer_size: usize::MAX,
        vertex_last_offset: usize::MAX - 1,
        element_buffer_size: 0,
        element_last_offset: 0,
    };
    assert_eq!(full.try_add_vertices(1), None);
    assert_eq!(full.try_add_vertices(0), Some(usize::MAX));
    assert_eq!(full.try_add_elements(0), Some(0));
}

#[test]
fn world_spawns_entities_in_rows() {
    let mut world = World::new();
    assert_eq!(world.moving_half_cube_count(), 0);
    assert!(world.moving_cubes.is_empty());
    let mut handles = Vec::new();
    for i in 0..4u32 {
        handles.push(world.spawn_moving_half_cube(
            BasePosition(Vec3::new(i as f32, 0.0, 0.0)),
            OscillateMotion {
                axis: Vec3::Y,
                phase: (i as f32).to_bits(),
                amplitude: 2.0f32.to_bits(),
                speed: 3.0f32.to_bits(),
            },
            HalfCube { scale: 0.5f32.to_bits() },
        ));
    }
    assert_eq!(world.moving_half_cube_count(), 4);
    assert_eq!(world.moving_cubes.len(), 4);
    assert!(!world.moving_cubes.is_empty());
    let indices: Vec<u32> = handles.iter().map(|e| e.to_index()).collect();
    assert_eq!(indices, vec![0, 1, 2, 3]);
    let rows: Vec<MovingCube> = world.moving_cubes.iter();
    assert_eq!(rows.len(), 4);
    for (i, row) in rows.iter().enumerate() {
        assert_eq!(row.base_position, Vec3::new(i as f32, 0.0, 0.0));
        assert_eq!(row.motion_axis, Vec3::Y);
        assert_eq!(f32::from_bits(row.motion_phase), i as f32);
        assert_eq!(f32::from_bits(row.motion_amplitude), 2.0);
        assert_eq!(f32::from_bits(row.motion_speed), 3.0);
        assert_eq!(f32::from_bits(row.scale), 0.5);
    }
    let second = world.moving_cubes.get(handles[2]).unwrap();
    assert_eq!(second.base_position, Vec3::new(2.0, 0.0, 0.0));
    let other = World::new();
    assert!(other.moving_cubes.get(handles[0]).is_none());
}
