use azurge_core::camera::Camera;
use azurge_core::fx::{fx_div, FX_ONE};
use azurge_core::input::{GameCommand, InputEvent, KeyCode};
use azurge_core::math::{Vec2Fx, Vec3Fx};
use azurge_core::pipeline::{create_texels, AzurPipeline, Technique};
use azurge_core::primitive::{vertex, Cube, RenderData};
use azurge_core::render::{record_draws, Renderer};
use azurge_core::resource::Resource;
use azurge_core::scene::{RenderObject, Scene};
use azurge_core::Core;

#[test]
fn resolvable_instances_draw_and_unresolvable_ones_are_skipped() {
    let mut resource = Resource::new();
    resource.init();
    let mut scene = Scene::new();
    scene.add_render_object(RenderObject::new(
        "cube".to_owned(),
        Vec3Fx { x: 0, y: 0, z: 0 },
        Vec3Fx { x: 0, y: 0, z: 0 },
        Vec3Fx { x: FX_ONE, y: FX_ONE, z: FX_ONE },
    ));
    scene.add_render_object(RenderObject::new(
        "missing".to_owned(),
        Vec3Fx { x: FX_ONE, y: 0, z: 0 },
        Vec3Fx { x: 0, y: 0, z: 0 },
        Vec3Fx { x: FX_ONE, y: FX_ONE, z: FX_ONE },
    ));
    scene.add_render_object(RenderObject::new(
        "cube".to_owned(),
        Vec3Fx { x: 0, y: FX_ONE, z: 0 },
        Vec3Fx { x: 0, y: 0, z: 0 },
        Vec3Fx { x: FX_ONE, y: FX_ONE, z: FX_ONE },
    ));
    let draws = record_draws(&scene, &resource);
    // Two of the three instances resolve; each draw covers the cube's exact
    // index count; the missing key aborts nothing.
    assert_eq!(draws.len(), 2);
    let cube = resource.get_mesh("cube").unwrap();
    for draw in &draws {
        assert_eq!(draw.index_count, 36);
        assert_eq!(draw.vertex_buf, cube.vertex_buf);
        assert_eq!(draw.index_buf, cube.index_buf);
    }
}

#[test]
fn draws_come_in_scene_order_with_their_models() {
    let mut resource = Resource::new();
    resource.init();
    let mut scene = Scene::new();
    let near = RenderObject::new(
        "cube".to_owned(),
        Vec3Fx { x: 0, y: 0, z: 0 },
        Vec3Fx { x: 0, y: 0, z: 0 },
        Vec3Fx { x: FX_ONE, y: FX_ONE, z: FX_ONE },
    );
    let far = RenderObject::new(
        "cube".to_owned(),
        Vec3Fx { x: 9 * FX_ONE, y: 0, z: 0 },
        Vec3Fx { x: 0, y: 0, z: 0 },
        Vec3Fx { x: FX_ONE, y: FX_ONE, z: FX_ONE },
    );
    let near_model = near.model_matrix();
    let far_model = far.model_matrix();
    scene.add_render_object(near);
    scene.add_render_object(far);
    let draws = record_draws(&scene, &resource);
    assert_eq!(draws.len(), 2);
    assert_eq!(draws[0].model, near_model);
    assert_eq!(draws[1].model, far_model);
    // A translation-only model matrix carries the position in its last
    // column.
    assert_eq!(far_model.w_axis.x, 9 * FX_ONE);
    assert_eq!(far_model.w_axis.w, FX_ONE);
}

#[test]
fn renderer_plans_one_draw_per_demo_instance() {
    let renderer = Renderer::new();
    let camera = Camera::new(
        Vec3Fx { x: -3 * FX_ONE, y: 0, z: -3 * FX_ONE },
        90 * FX_ONE,
        fx_div(16 * FX_ONE, 9 * FX_ONE),
        100000,
        100 * FX_ONE,
    );
    let plan = renderer.render(&camera);
    assert_eq!(plan.draws.len(), 3);
    for draw in &plan.draws {
        assert_eq!(draw.index_count, 36);
    }
    assert_eq!(plan.uniform, camera.view_projection_mat());
}

#[test]
fn renderer_clamps_the_surface_size() {
    let mut renderer = Renderer::new();
    renderer.handle_resize(0, 0);
    assert_eq!(renderer.get_surface_size(), (1, 1));
    renderer.handle_resize(1920, 1080);
    assert_eq!(renderer.get_surface_size(), (1920, 1080));
}

#[test]
fn core_runs_one_full_frame() {
    let mut core = Core::new();
    core.handle_resize(1920, 1080);
    assert_eq!(core.surface_size(), (1920, 1080));
    core.handle_input_event(InputEvent::Keyboard { key: KeyCode::KeyW, pressed: true });
    core.tick(FX_ONE);
    // One second of forward motion from (-3, 0, -3) lands at (-2, 0, -3).
    assert_eq!(
        core.camera().position(),
        Vec3Fx { x: -2 * FX_ONE, y: 0, z: -3 * FX_ONE },
    );
    let plan = core.render();
    assert_eq!(plan.draws.len(), 3);
    assert_eq!(plan.uniform, core.camera().view_projection_mat());
}

#[test]
fn tick_consumes_the_pointer_delta_exactly_once() {
    let mut core = Core::new();
    core.handle_input_event(InputEvent::MouseInput {
        button: azurge_core::input::MouseBtn::Right,
        pressed: true,
    });
    core.handle_input_event(InputEvent::CursorMoved {
        position: Vec2Fx { x: 300 * FX_ONE, y: 0 },
    });
    core.tick(0);
    assert_eq!(core.camera().yaw(), 90 * FX_ONE);
    // The delta was consumed: a second tick rotates no further.
    core.tick(0);
    assert_eq!(core.camera().yaw(), 90 * FX_ONE);
}

#[test]
fn create_texels_matches_the_escape_counts() {
    // At size two the sample points are the corners of [-2, 1] x [-1, 1]:
    // the left column escapes immediately, the right column after one step.
    assert_eq!(create_texels(2), vec![0, 1, 0, 1]);
    assert_eq!(create_texels(16).len(), 256);
}

#[test]
fn texture_interior_points_run_to_the_iteration_cap() {
    // The centre of the grid at an odd size contains the origin, which never
    // escapes and therefore runs all 255 iterations.
    let size: usize = 3;
    let texels = create_texels(size);
    assert_eq!(texels.len(), 9);
    // Row 1, column 0 samples (-2, 0): it escapes immediately.
    assert_eq!(texels[3], 0);
    // Row 1, column 1 samples (-0.5, 0): it stays bounded for all 255 steps.
    assert_eq!(texels[4], 255);
}

#[test]
fn vertices_scale_into_fixed_point() {
    let v = vertex([-1, 2, 1], [1, 0]);
    assert_eq!(v.pos.x, -FX_ONE);
    assert_eq!(v.pos.y, 2 * FX_ONE);
    assert_eq!(v.pos.z, FX_ONE);
    assert_eq!(v.pos.w, FX_ONE);
    assert_eq!(v.tex_coord.x, FX_ONE);
    assert_eq!(v.tex_coord.y, 0);
    assert_eq!(Cube::vertex_data().len(), 24);
    assert_eq!(Cube::index_data().len(), 36);
    assert_eq!(Cube::identifier(), "cube");
}

#[test]
fn azur_pipeline_names_its_technique() {
    let pipeline = AzurPipeline;
    assert_eq!(pipeline.technique(), Technique::Azur);
    let held = GameCommand::Forward.mask() | GameCommand::Up.mask();
    assert_eq!(held, 17);
}
