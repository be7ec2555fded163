use azurge_core::fx::FX_ONE;
use azurge_core::math::Vec3Fx;
use azurge_core::render::record_draws;
use azurge_core::resource::Resource;
use azurge_core::scene::{RenderObject, Scene};

fn cube_at(x: i64) -> RenderObject {
    RenderObject::new(
        "cube".to_owned(),
        Vec3Fx { x, y: 0, z: 0 },
        Vec3Fx { x: 0, y: 0, z: 0 },
        Vec3Fx { x: FX_ONE, y: FX_ONE, z: FX_ONE },
    )
}

#[test]
fn instances_keep_insertion_order() {
    let mut scene = Scene::new();
    assert_eq!(scene.render_objects().len(), 0);
    scene.add_render_object(cube_at(FX_ONE));
    scene.add_render_object(cube_at(2 * FX_ONE));
    let objects = scene.render_objects();
    assert_eq!(objects.len(), 2);
    assert_eq!(objects[0].model_matrix().w_axis.x, FX_ONE);
    assert_eq!(objects[1].model_matrix().w_axis.x, 2 * FX_ONE);
    assert_eq!(objects[0].mesh_key(), "cube");
}

#[test]
fn removal_closes_the_gap_and_keeps_order() {
    let mut scene = Scene::new();
    scene.add_render_object(cube_at(FX_ONE));
    scene.add_render_object(cube_at(2 * FX_ONE));
    scene.add_render_object(cube_at(3 * FX_ONE));
    let removed = scene.remove_render_object(1);
    assert_eq!(removed.model_matrix().w_axis.x, 2 * FX_ONE);
    let objects = scene.render_objects();
    assert_eq!(objects.len(), 2);
    assert_eq!(objects[0].model_matrix().w_axis.x, FX_ONE);
    assert_eq!(objects[1].model_matrix().w_axis.x, 3 * FX_ONE);
}

#[test]
fn a_cleared_scene_draws_nothing() {
    let mut resource = Resource::new();
    resource.init();
    let mut scene = Scene::new();
    scene.add_render_object(cube_at(FX_ONE));
    scene.clear();
    assert_eq!(scene.render_objects().len(), 0);
    assert_eq!(record_draws(&scene, &resource).len(), 0);
}

#[test]
fn the_model_transform_scales_before_it_translates() {
    let object = RenderObject::new(
        "cube".to_owned(),
        Vec3Fx { x: 5 * FX_ONE, y: 0, z: 0 },
        Vec3Fx { x: 0, y: 0, z: 0 },
        Vec3Fx { x: 2 * FX_ONE, y: 2 * FX_ONE, z: 2 * FX_ONE },
    );
    let model = object.model_matrix();
    // Zero rotation: the upper-left block is the scale, the last column the
    // translation.
    assert_eq!(model.x_axis.x, 2 * FX_ONE);
    assert_eq!(model.y_axis.y, 2 * FX_ONE);
    assert_eq!(model.z_axis.z, 2 * FX_ONE);
    assert_eq!(model.w_axis.x, 5 * FX_ONE);
    assert_eq!(model.w_axis.y, 0);
    assert_eq!(model.w_axis.w, FX_ONE);
}

#[test]
fn a_quarter_turn_about_y_swaps_the_ground_axes() {
    let object = RenderObject::new(
        "cube".to_owned(),
        Vec3Fx { x: 0, y: 0, z: 0 },
        Vec3Fx { x: 0, y: 90 * FX_ONE, z: 0 },
        Vec3Fx { x: FX_ONE, y: FX_ONE, z: FX_ONE },
    );
    let model = object.model_matrix();
    // Rotation by 90 degrees about y maps x to -z and z to x exactly.
    assert_eq!(model.x_axis.x, 0);
    assert_eq!(model.x_axis.z, -FX_ONE);
    assert_eq!(model.z_axis.x, FX_ONE);
    assert_eq!(model.z_axis.z, 0);
}
