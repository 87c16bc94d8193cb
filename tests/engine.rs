use pixel_renderer::assets::{
    default_white_pixels, mesh_indices, texture_source, vertex_count, MeshError, TextureSource,
};
use pixel_renderer::camera::{Camera, CameraController, Heading, Key, PITCH_LIMIT};
use pixel_renderer::cursor::{CursorCapture, GrabMode};
use pixel_renderer::engine::{InputEvent, InputResponse, RendererState, World};
use pixel_renderer::fixed::{fx_mul, sat_add, sat_sub, SAT_MAX, UNIT};
use pixel_renderer::frame::{
    frame_plan, frame_step, EntityDraw, FrameStep, PipelineKind, RenderCommand, SurfaceFault,
};
use pixel_renderer::targets::{low_res_extent, RenderTargets};

fn level_heading() -> Heading {
    Heading { cos_yaw: UNIT, sin_yaw: 0, cos_pitch: UNIT, sin_pitch: 0 }
}

fn two_entities() -> Vec<EntityDraw> {
    vec![
        EntityDraw { pipeline: PipelineKind::Floor, index_count: 6, instances: Some(1) },
        EntityDraw { pipeline: PipelineKind::Standard, index_count: 36, instances: Some(3) },
    ]
}

#[test]
fn resize_sets_low_res_and_aspect() {
    let mut t = RenderTargets::new(800, 600);
    assert!(t.resize(1023, 767));
    assert_eq!((t.surface_width, t.surface_height), (1023, 767));
    assert_eq!((t.low_res_width, t.low_res_height), (255, 191));
    assert_eq!((t.depth_width, t.depth_height), (255, 191));
    assert_eq!((t.projection.aspect_width, t.projection.aspect_height), (1023, 767));
    assert_eq!(low_res_extent(3, 4), (0, 1));
}

#[test]
fn resize_to_zero_changes_nothing() {
    let mut t = RenderTargets::new(800, 600);
    let before = t;
    assert!(!t.resize(0, 600));
    assert_eq!(t, before);
    assert!(!t.resize(800, 0));
    assert_eq!(t, before);
    let mut s = RendererState::new(640, 480, World::new(two_entities()));
    assert!(!s.resize(0, 0));
    assert_eq!(s.targets, RenderTargets::new(640, 480));
}

#[test]
fn capture_toggled_twice_restores_cursor() {
    let mut c = CursorCapture::new();
    let start = c;
    assert_eq!(c.grab_attempts(), vec![GrabMode::Confined, GrabMode::Locked]);
    // confinement refused, locking granted
    c.toggle(Some(GrabMode::Locked));
    assert!(c.captured);
    assert!(!c.visible);
    assert_eq!(c.grab, GrabMode::Locked);
    assert_eq!(c.grab_attempts(), vec![GrabMode::Free]);
    c.toggle(Some(GrabMode::Free));
    assert_eq!(c, start);
    // every attempt refused: nothing changes
    c.toggle(None);
    assert_eq!(c, start);
}

#[test]
fn update_at_rest_does_not_drift() {
    let mut ctl = CameraController::new(5 * UNIT, 400_000);
    let mut cam = Camera::new(1, -2, 3 * UNIT, 123_456, -1_000_000);
    let before = cam;
    for dt in [0u64, 16_667, 1_000_000, u64::MAX] {
        ctl.update_camera(&mut cam, &level_heading(), dt);
        assert_eq!(cam, before);
    }
}

#[test]
fn pitch_stays_clamped() {
    let mut ctl = CameraController::new(5 * UNIT, 400_000);
    let mut cam = Camera::new(0, 0, 0, 0, 0);
    ctl.process_mouse(0, i64::MIN);
    ctl.process_mouse(0, i64::MIN);
    ctl.update_camera(&mut cam, &level_heading(), 1_000_000);
    assert_eq!(cam.pitch, PITCH_LIMIT);
    ctl.process_mouse(0, i64::MAX);
    ctl.update_camera(&mut cam, &level_heading(), u64::MAX);
    assert_eq!(cam.pitch, -PITCH_LIMIT);
    assert!(cam.pitch > -1_570_796);
    assert_eq!(Camera::new(0, 0, 0, 0, 2_000_000).pitch, PITCH_LIMIT);
}

#[test]
fn update_moves_and_turns() {
    let mut ctl = CameraController::new(5 * UNIT, 400_000);
    let mut cam = Camera::new(0, 0, 3 * UNIT, 0, 0);
    assert!(ctl.process_keyboard(Key::W, true));
    assert!(ctl.process_keyboard(Key::Space, true));
    assert!(!ctl.process_keyboard(Key::Other, true));
    assert!(!ctl.process_keyboard(Key::Tab, true));
    ctl.process_mouse(10 * UNIT, 0);
    // half a second: forward (+x at yaw 0) and up by 2.5 units,
    // yaw by 10 * 0.4 * 0.5 = 2 radians
    ctl.update_camera(&mut cam, &level_heading(), 500_000);
    assert_eq!(cam, Camera { x: 2_500_000, y: 2_500_000, z: 3 * UNIT, yaw: 2_000_000, pitch: 0 });
    assert_eq!(ctl.rotate_horizontal, 0);
    assert_eq!(ctl.amount_forward, UNIT);
    assert!(ctl.process_keyboard(Key::Up, false));
    assert_eq!(ctl.amount_forward, 0);
}

#[test]
fn scroll_moves_along_view() {
    let mut ctl = CameraController::new(5 * UNIT, 400_000);
    let mut cam = Camera::new(0, 0, 0, 0, 0);
    ctl.process_scroll(-UNIT);
    assert_eq!(ctl.scroll, UNIT);
    // 1 * 5 * 0.4 * 1 s along +x
    ctl.update_camera(&mut cam, &level_heading(), 1_000_000);
    assert_eq!(cam.x, 2_000_000);
    assert_eq!(ctl.scroll, 0);
    ctl.process_scroll(i64::MIN);
    assert_eq!(ctl.scroll, i64::MAX);
}

#[test]
fn strafe_uses_yaw() {
    let mut ctl = CameraController::new(UNIT, UNIT);
    // yaw of a quarter turn: forward is +z, right is -x
    let h = Heading { cos_yaw: 0, sin_yaw: UNIT, cos_pitch: UNIT, sin_pitch: 0 };
    let mut cam = Camera::new(0, 0, 0, 1_570_796, 0);
    ctl.process_keyboard(Key::D, true);
    ctl.update_camera(&mut cam, &h, 2_000_000);
    assert_eq!((cam.x, cam.y, cam.z), (-2_000_000, 0, 0));
}

#[test]
fn fixed_point_arithmetic() {
    assert_eq!(fx_mul(1_500_000, 2_000_000), 3_000_000);
    assert_eq!(fx_mul(-1_500_001, 1), -1);
    assert_eq!(fx_mul(999_999, 1), 0);
    assert_eq!(fx_mul(i64::MAX, i64::MAX), SAT_MAX);
    assert_eq!(fx_mul(i64::MIN, i64::MAX), -SAT_MAX);
    assert_eq!(sat_add(i64::MAX, 1), i64::MAX);
    assert_eq!(sat_sub(i64::MIN, 1), i64::MIN);
    assert_eq!(sat_sub(5, 7), -2);
}

#[test]
fn frame_of_two_entities() {
    let t = RenderTargets::new(800, 600);
    let plan = frame_plan(&two_entities(), &t);
    assert_eq!(plan[0], RenderCommand::BeginScenePass { width: 200, height: 150 });
    let draws: Vec<(u32, u32)> = plan
        .iter()
        .filter_map(|c| match c {
            RenderCommand::DrawIndexed { index_count, instance_count } => {
                Some((*index_count, *instance_count))
            }
            _ => None,
        })
        .collect();
    assert_eq!(draws, vec![(6, 1), (36, 3), (6, 1)]);
    let composite = plan
        .iter()
        .position(|c| *c == RenderCommand::BeginCompositePass { width: 800, height: 600 })
        .unwrap();
    let last_scene_draw = plan
        .iter()
        .rposition(|c| *c == RenderCommand::DrawIndexed { index_count: 36, instance_count: 3 })
        .unwrap();
    assert!(last_scene_draw < composite);
    assert_eq!(plan.iter().filter(|c| **c == RenderCommand::Submit).count(), 1);
    assert_eq!(plan.iter().filter(|c| **c == RenderCommand::Present).count(), 1);
    assert_eq!(plan[plan.len() - 2], RenderCommand::Submit);
    assert_eq!(plan[plan.len() - 1], RenderCommand::Present);
    assert_eq!(plan[1], RenderCommand::SetPipeline(PipelineKind::Floor));
    assert_eq!(plan[2], RenderCommand::BindMaterial(0));
    assert_eq!(plan[3], RenderCommand::BindCamera);
}

#[test]
fn entity_without_instances_is_drawn_once() {
    let t = RenderTargets::new(64, 64);
    let es = vec![EntityDraw { pipeline: PipelineKind::Standard, index_count: 3, instances: None }];
    let plan = frame_plan(&es, &t);
    assert!(!plan.iter().any(|c| matches!(c, RenderCommand::SetInstanceBuffer(_))));
    assert_eq!(plan[6], RenderCommand::DrawIndexed { index_count: 3, instance_count: 1 });
}

#[test]
fn surface_faults() {
    let t = RenderTargets::new(800, 600);
    let es = two_entities();
    assert!(matches!(frame_step(Err(SurfaceFault::Lost), &es, &t), FrameStep::Reconfigure));
    assert!(matches!(frame_step(Err(SurfaceFault::Outdated), &es, &t), FrameStep::Reconfigure));
    assert!(matches!(
        frame_step(Err(SurfaceFault::OutOfMemory), &es, &t),
        FrameStep::Fail(SurfaceFault::OutOfMemory)
    ));
    assert!(matches!(
        frame_step(Err(SurfaceFault::Timeout), &es, &t),
        FrameStep::Fail(SurfaceFault::Timeout)
    ));
    match frame_step(Ok(()), &es, &t) {
        FrameStep::Record(c) => assert_eq!(c, frame_plan(&es, &t)),
        _ => panic!("expected a frame"),
    }
}

#[test]
fn empty_texture_name_gives_default_white() {
    assert_eq!(texture_source(""), TextureSource::DefaultWhite);
    assert_eq!(texture_source("cube-diffuse.jpg"), TextureSource::File);
    assert_eq!(default_white_pixels(), vec![255, 255, 255, 255]);
}

#[test]
fn mesh_index_checks() {
    assert_eq!(mesh_indices(&vec![0, 1, 2, 2, 3, 0], 4), Ok(vec![0u16, 1, 2, 2, 3, 0]));
    assert_eq!(
        mesh_indices(&vec![0, 1, 4, 5], 4),
        Err(MeshError::IndexOutOfRange { position: 2, index: 4 })
    );
    assert_eq!(
        mesh_indices(&vec![0], 70_000),
        Err(MeshError::TooManyVertices { vertex_count: 70_000 })
    );
    assert_eq!(mesh_indices(&vec![65_535], 65_536), Ok(vec![65_535u16]));
    assert_eq!(mesh_indices(&vec![], 0), Ok(vec![]));
}

#[test]
fn vertex_counts() {
    assert_eq!(vertex_count(9, 6, 9), 3);
    assert_eq!(vertex_count(9, 0, 0), 3);
    assert_eq!(vertex_count(12, 4, 0), 2);
    assert_eq!(vertex_count(10, 0, 6), 2);
}

#[test]
fn renderer_state_input() {
    let mut s = RendererState::new(800, 600, World::new(two_entities()));
    assert_eq!(s.world.camera.z, 3 * UNIT);
    assert_eq!(s.window_input(InputEvent::Key { key: Key::Tab, pressed: true }), InputResponse::ToggleCapture);
    assert_eq!(s.window_input(InputEvent::Key { key: Key::Tab, pressed: false }), InputResponse::Handled);
    assert_eq!(s.window_input(InputEvent::Other), InputResponse::Ignored);
    assert!(!s.device_input(5, 5));
    assert_eq!(s.world.controller.rotate_horizontal, 0);
    let attempts = s.grab_attempts();
    s.finish_capture_toggle(Some(attempts[0]));
    assert!(s.cursor.captured);
    assert!(s.device_input(5, -5));
    assert_eq!((s.world.controller.rotate_horizontal, s.world.controller.rotate_vertical), (5, -5));
    assert_eq!(
        s.window_input(InputEvent::Key { key: Key::S, pressed: true }),
        InputResponse::Handled
    );
    assert_eq!(s.world.controller.amount_backward, UNIT);
    assert_eq!(s.window_input(InputEvent::Wheel(3)), InputResponse::Handled);
    assert_eq!(s.world.controller.scroll, -3);
    s.update(0, &level_heading());
    assert_eq!(s.world.controller.scroll, 0);
    assert!(s.resize(1600, 1200));
    assert_eq!((s.targets.low_res_width, s.targets.low_res_height), (400, 300));
}
