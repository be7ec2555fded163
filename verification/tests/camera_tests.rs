use azurge_core::camera::{Camera, PITCH_LIMIT};
use azurge_core::fx::{fx_div, FX_ONE};
use azurge_core::input::GameCommand;
use azurge_core::math::{Vec2Fx, Vec3Fx};

fn demo_camera() -> Camera {
    Camera::new(
        Vec3Fx { x: -3 * FX_ONE, y: 0, z: -3 * FX_ONE },
        90 * FX_ONE,
        fx_div(16 * FX_ONE, 9 * FX_ONE),
        100000,
        100 * FX_ONE,
    )
}

#[test]
fn pitch_stays_clamped_under_any_input() {
    let mut camera = demo_camera();
    // A huge upward pointer swing: pitch pins at the upper limit.
    camera.tick(0, 0, Vec2Fx { x: 0, y: -1000 * FX_ONE });
    assert_eq!(camera.pitch(), PITCH_LIMIT);
    // A huge downward swing: pitch pins at the lower limit.
    camera.tick(0, 0, Vec2Fx { x: 0, y: 2000 * FX_ONE });
    assert_eq!(camera.pitch(), -PITCH_LIMIT);
    // Many small swings never leave the range.
    for _ in 0..50 {
        camera.tick(0, 0, Vec2Fx { x: 7 * FX_ONE, y: -13 * FX_ONE });
        assert!(-PITCH_LIMIT <= camera.pitch() && camera.pitch() <= PITCH_LIMIT);
    }
}

#[test]
fn zero_tick_leaves_the_view_projection_unchanged() {
    let mut camera = demo_camera();
    camera.tick(FX_ONE, GameCommand::Forward.mask(), Vec2Fx { x: 5 * FX_ONE, y: 2 * FX_ONE });
    let before = camera.view_projection_mat();
    let position = camera.position();
    camera.tick(0, 0, Vec2Fx { x: 0, y: 0 });
    assert_eq!(camera.view_projection_mat(), before);
    assert_eq!(camera.position(), position);
}

#[test]
fn aspect_ratio_update_is_isolated() {
    let mut camera = demo_camera();
    let position = camera.position();
    let yaw = camera.yaw();
    let pitch = camera.pitch();
    let before = camera.view_projection_mat();
    camera.set_ratio(fx_div(4 * FX_ONE, 3 * FX_ONE));
    assert_ne!(camera.view_projection_mat(), before);
    assert_eq!(camera.position(), position);
    assert_eq!(camera.yaw(), yaw);
    assert_eq!(camera.pitch(), pitch);
}

#[test]
fn one_second_forward_moves_one_unit_along_the_ground() {
    let mut camera = demo_camera();
    camera.tick(FX_ONE, GameCommand::Forward.mask(), Vec2Fx { x: 0, y: 0 });
    // At yaw and pitch zero the ground-plane forward axis is the unit x
    // axis, so one second at unit speed moves x by one whole unit and z by
    // the axis' z component: zero.
    assert_eq!(camera.position(), Vec3Fx { x: -2 * FX_ONE, y: 0, z: -3 * FX_ONE });
}

#[test]
fn movement_commands_follow_their_axes() {
    let mut camera = demo_camera();
    camera.tick(FX_ONE, GameCommand::Up.mask(), Vec2Fx { x: 0, y: 0 });
    assert_eq!(camera.position(), Vec3Fx { x: -3 * FX_ONE, y: FX_ONE, z: -3 * FX_ONE });
    camera.tick(FX_ONE, GameCommand::Down.mask() | GameCommand::Backward.mask(), Vec2Fx {
        x: 0,
        y: 0,
    });
    assert_eq!(camera.position(), Vec3Fx { x: -4 * FX_ONE, y: 0, z: -3 * FX_ONE });
    // At yaw zero the right axis is the unit z axis.
    camera.tick(FX_ONE, GameCommand::Right.mask(), Vec2Fx { x: 0, y: 0 });
    assert_eq!(camera.position(), Vec3Fx { x: -4 * FX_ONE, y: 0, z: -2 * FX_ONE });
    camera.tick(FX_ONE, GameCommand::Left.mask(), Vec2Fx { x: 0, y: 0 });
    assert_eq!(camera.position(), Vec3Fx { x: -4 * FX_ONE, y: 0, z: -3 * FX_ONE });
}

#[test]
fn pointer_swing_turns_the_movement_axes() {
    let mut camera = demo_camera();
    // 300 pointer units at 0.3 degrees each: yaw becomes 90 degrees, so the
    // ground-plane forward axis becomes the unit z axis.
    camera.tick(0, 0, Vec2Fx { x: 300 * FX_ONE, y: 0 });
    assert_eq!(camera.yaw(), 90 * FX_ONE);
    camera.tick(FX_ONE, GameCommand::Forward.mask(), Vec2Fx { x: 0, y: 0 });
    assert_eq!(camera.position(), Vec3Fx { x: -3 * FX_ONE, y: 0, z: -2 * FX_ONE });
}

#[test]
fn setters_update_the_pose() {
    let mut camera = demo_camera();
    camera.set_position(Vec3Fx { x: FX_ONE, y: 2 * FX_ONE, z: 3 * FX_ONE });
    assert_eq!(camera.position(), Vec3Fx { x: FX_ONE, y: 2 * FX_ONE, z: 3 * FX_ONE });
    camera.set_yaw(45 * FX_ONE);
    assert_eq!(camera.yaw(), 45 * FX_ONE);
    camera.set_pitch(30 * FX_ONE);
    assert_eq!(camera.pitch(), 30 * FX_ONE);
    // The pitch setter upholds the clamp invariant.
    camera.set_pitch(200 * FX_ONE);
    assert_eq!(camera.pitch(), PITCH_LIMIT);
}
