//! The free-look camera: a pose (position, yaw, pitch) and projection
//! parameters, with derived basis vectors and view / projection /
//! view-projection matrices.
//!
//! The structural invariant `wf` ties every derived field to the pose it was
//! computed from, so the view-projection matrix is always the product of the
//! current projection and view matrices, and the pitch is always within its
//! clamp range.  `tick` folds elapsed time, the held-command mask and the
//! consumed pointer delta into the pose and re-derives everything.

use crate::fx::{
    clamp_s, cos_fx, cos_fx_s, fx_add, fx_add_s, fx_mul, fx_mul_s, fx_neg, fx_neg_s, sin_fx,
    sin_fx_s,
};
use crate::input::GameCommand;
use crate::math::{
    m4_look_at_rh, m4_look_at_rh_s, m4_mul, m4_mul_s, m4_perspective_rh, m4_perspective_rh_s,
    v2_zero_s, v3_add, v3_add_s, v3_cross, v3_cross_s, v3_normalize, v3_normalize_s, v3_scale,
    v3_scale_s, v3_sub, v3_sub_s, v3_up_s, Mat4Fx, Vec2Fx, Vec3Fx, M4, V2, V3,
};
use vstd::prelude::*;

verus! {

/// Movement speed, in units per second.
pub const MOVE_SPEED: i64 = 1000000;

/// Pointer-to-angle sensitivity: 0.3 degrees per pointer unit.
pub const MOUSE_SENSITIVITY: i64 = 300000;

/// The pitch clamp bound: 89 degrees.
pub const PITCH_LIMIT: i64 = 89000000;

/// Ghost mirror of the camera's pose and projection parameters.
pub ghost struct CameraM {
    pub position: V3,
    pub yaw: int,
    pub pitch: int,
    pub fov: int,
    pub aspect: int,
    pub near: int,
    pub far: int,
}

/// The unit vector the camera looks along, from yaw and pitch.
pub open spec fn front_s(yaw: int, pitch: int) -> V3 {
    v3_normalize_s(
        V3 {
            x: fx_mul_s(cos_fx_s(yaw), cos_fx_s(pitch)),
            y: sin_fx_s(pitch),
            z: fx_mul_s(sin_fx_s(yaw), cos_fx_s(pitch)),
        },
    )
}

/// The camera's right-hand basis vector.
pub open spec fn right_s(yaw: int, pitch: int) -> V3 {
    v3_normalize_s(v3_cross_s(front_s(yaw, pitch), v3_up_s()))
}

/// The camera's up basis vector.
pub open spec fn up_vec_s(yaw: int, pitch: int) -> V3 {
    v3_normalize_s(v3_cross_s(right_s(yaw, pitch), front_s(yaw, pitch)))
}

/// The ground-plane movement axis: unlike `front_s` it has no vertical
/// component.
pub open spec fn forward_s(yaw: int, pitch: int) -> V3 {
    v3_normalize_s(v3_cross_s(v3_up_s(), right_s(yaw, pitch)))
}

/// The view matrix a pose derives.
pub open spec fn view_s(c: CameraM) -> M4 {
    m4_look_at_rh_s(
        c.position,
        v3_add_s(c.position, front_s(c.yaw, c.pitch)),
        up_vec_s(c.yaw, c.pitch),
    )
}

/// The projection matrix the projection parameters derive.
pub open spec fn projection_s(c: CameraM) -> M4 {
    m4_perspective_rh_s(c.fov, c.aspect, c.near, c.far)
}

/// The combined view-projection matrix.
pub open spec fn view_projection_s(c: CameraM) -> M4 {
    m4_mul_s(projection_s(c), view_s(c))
}

/// One movement step along `axis` when `bit` is held in `cmd`, either adding
/// or subtracting `axis * vel`.
pub open spec fn move_step_s(p: V3, cmd: u32, bit: u32, axis: V3, vel: int, positive: bool) -> V3 {
    if cmd & bit != 0 {
        if positive {
            v3_add_s(p, v3_scale_s(axis, vel))
        } else {
            v3_sub_s(p, v3_scale_s(axis, vel))
        }
    } else {
        p
    }
}

/// Where the held movement commands take the position during one tick.
pub open spec fn moved_position_s(c: CameraM, dt: int, cmd: u32) -> V3 {
    let vel = fx_mul_s(MOVE_SPEED as int, dt);
    let fwd = forward_s(c.yaw, c.pitch);
    let rgt = right_s(c.yaw, c.pitch);
    let p1 = move_step_s(c.position, cmd, GameCommand::Forward.mask_s(), fwd, vel, true);
    let p2 = move_step_s(p1, cmd, GameCommand::Backward.mask_s(), fwd, vel, false);
    let p3 = move_step_s(p2, cmd, GameCommand::Left.mask_s(), rgt, vel, false);
    let p4 = move_step_s(p3, cmd, GameCommand::Right.mask_s(), rgt, vel, true);
    let p5 = move_step_s(p4, cmd, GameCommand::Up.mask_s(), v3_up_s(), vel, true);
    move_step_s(p5, cmd, GameCommand::Down.mask_s(), v3_up_s(), vel, false)
}

/// How one tick changes the pose: movement along the old basis, then yaw and
/// pitch from the pointer delta (inverted y, pitch clamped), with a zero
/// delta on both axes treated as no rotation.
pub open spec fn tick_s(c: CameraM, dt: int, cmd: u32, delta: V2) -> CameraM {
    let position = moved_position_s(c, dt, cmd);
    if delta.x != 0 || delta.y != 0 {
        let yaw = fx_add_s(c.yaw, fx_mul_s(delta.x, MOUSE_SENSITIVITY as int));
        let pitch = clamp_s(
            fx_add_s(c.pitch, fx_mul_s(fx_neg_s(delta.y), MOUSE_SENSITIVITY as int)),
            -(PITCH_LIMIT as int),
            PITCH_LIMIT as int,
        );
        CameraM { position, yaw, pitch, ..c }
    } else {
        CameraM { position, ..c }
    }
}

/// The free-look camera.
pub struct Camera {
    position: Vec3Fx,
    yaw: i64,
    pitch: i64,
    fov: i64,
    aspect: i64,
    near: i64,
    far: i64,
    front: Vec3Fx,
    right: Vec3Fx,
    up: Vec3Fx,
    forward: Vec3Fx,
    view_mat: Mat4Fx,
    projection_mat: Mat4Fx,
    view_projection_mat: Mat4Fx,
}

impl View for Camera {
    type V = CameraM;

    closed spec fn view(&self) -> CameraM {
        CameraM {
            position: self.position@,
            yaw: self.yaw as int,
            pitch: self.pitch as int,
            fov: self.fov as int,
            aspect: self.aspect as int,
            near: self.near as int,
            far: self.far as int,
        }
    }
}

impl Camera {
    /// The stored projection matrix matches the projection parameters.
    pub closed spec fn projection_consistent(self) -> bool {
        self.projection_mat@ == projection_s(self@)
    }

    /// The stored pitch is within the clamp range.
    pub closed spec fn pitch_clamped(self) -> bool {
        -PITCH_LIMIT <= self.pitch <= PITCH_LIMIT
    }

    /// Every derived field matches the pose it was computed from, and the
    /// pitch is within its clamp range.
    pub closed spec fn wf(self) -> bool {
        &&& self.front@ == front_s(self.yaw as int, self.pitch as int)
        &&& self.right@ == right_s(self.yaw as int, self.pitch as int)
        &&& self.up@ == up_vec_s(self.yaw as int, self.pitch as int)
        &&& self.forward@ == forward_s(self.yaw as int, self.pitch as int)
        &&& self.view_mat@ == view_s(self@)
        &&& self.projection_mat@ == projection_s(self@)
        &&& self.view_projection_mat@ == view_projection_s(self@)
        &&& -PITCH_LIMIT <= self.pitch <= PITCH_LIMIT
    }

    /// A camera at `position` looking along yaw and pitch zero, with the
    /// given projection parameters.
    pub fn new(position: Vec3Fx, fov: i64, aspect: i64, near: i64, far: i64) -> (r: Camera)
        ensures
            r@ == (CameraM {
                position: position@,
                yaw: 0,
                pitch: 0,
                fov: fov as int,
                aspect: aspect as int,
                near: near as int,
                far: far as int,
            }),
            r.wf(),
    {
        let projection_mat = m4_perspective_rh(fov, aspect, near, far);
        let mut camera = Camera {
            position,
            yaw: 0,
            pitch: 0,
            fov,
            aspect,
            near,
            far,
            front: Vec3Fx::zero(),
            right: Vec3Fx::zero(),
            up: Vec3Fx::zero(),
            forward: Vec3Fx::zero(),
            view_mat: projection_mat,
            projection_mat,
            view_projection_mat: projection_mat,
        };
        camera.update_view_mat();
        camera
    }

    /// Fold one frame into the pose: move along the held commands for
    /// `delta_time` (fixed-point seconds), rotate by the pointer delta, and
    /// re-derive the basis and matrices.  This method never fails.
    pub fn tick(&mut self, delta_time: i64, game_command: u32, cursor_delta: Vec2Fx)
        requires
            old(self).wf(),
        ensures
            final(self)@ == tick_s(old(self)@, delta_time as int, game_command, cursor_delta@),
            final(self).wf(),
    {
        let velocity = fx_mul(MOVE_SPEED, delta_time);
        if game_command & GameCommand::Forward.mask() != 0 {
            self.position = v3_add(self.position, v3_scale(self.forward, velocity));
        }
        if game_command & GameCommand::Backward.mask() != 0 {
            self.position = v3_sub(self.position, v3_scale(self.forward, velocity));
        }
        if game_command & GameCommand::Left.mask() != 0 {
            self.position = v3_sub(self.position, v3_scale(self.right, velocity));
        }
        if game_command & GameCommand::Right.mask() != 0 {
            self.position = v3_add(self.position, v3_scale(self.right, velocity));
        }
        if game_command & GameCommand::Up.mask() != 0 {
            self.position = v3_add(self.position, v3_scale(Vec3Fx::up(), velocity));
        }
        if game_command & GameCommand::Down.mask() != 0 {
            self.position = v3_sub(self.position, v3_scale(Vec3Fx::up(), velocity));
        }
        if cursor_delta.x != 0 || cursor_delta.y != 0 {
            self.yaw = fx_add(self.yaw, fx_mul(cursor_delta.x, MOUSE_SENSITIVITY));
            let raw_pitch = fx_add(self.pitch, fx_mul(fx_neg(cursor_delta.y), MOUSE_SENSITIVITY));
            self.pitch = fx_clamp_pitch(raw_pitch);
        }
        self.update_view_mat();
    }

    /// Update the aspect ratio and re-derive the projection and
    /// view-projection matrices; the pose and the view matrix are untouched.
    pub fn set_ratio(&mut self, ratio: i64)
        requires
            old(self).wf(),
        ensures
            final(self)@ == (CameraM { aspect: ratio as int, ..old(self)@ }),
            final(self).wf(),
    {
        self.aspect = ratio;
        self.projection_mat = m4_perspective_rh(self.fov, self.aspect, self.near, self.far);
        self.view_projection_mat = m4_mul(&self.projection_mat, &self.view_mat);
        proof {
            assert(view_s(self@) == view_s(old(self)@));
        }
    }

    /// Move the camera and re-derive the view matrices.
    pub fn set_position(&mut self, position: Vec3Fx)
        requires
            old(self).wf(),
        ensures
            final(self)@ == (CameraM { position: position@, ..old(self)@ }),
            final(self).wf(),
    {
        self.position = position;
        self.update_view_mat();
    }

    /// Set the yaw and re-derive the view matrices.
    pub fn set_yaw(&mut self, yaw: i64)
        requires
            old(self).wf(),
        ensures
            final(self)@ == (CameraM { yaw: yaw as int, ..old(self)@ }),
            final(self).wf(),
    {
        self.yaw = yaw;
        self.update_view_mat();
    }

    /// Set the pitch, clamped into the camera's pitch range, and re-derive
    /// the view matrices.
    pub fn set_pitch(&mut self, pitch: i64)
        requires
            old(self).wf(),
        ensures
            final(self)@ == (CameraM {
                pitch: clamp_s(pitch as int, -(PITCH_LIMIT as int), PITCH_LIMIT as int),
                ..old(self)@
            }),
            final(self).wf(),
    {
        self.pitch = fx_clamp_pitch(pitch);
        self.update_view_mat();
    }

    /// Re-derive the basis vectors, the view matrix and the view-projection
    /// matrix from the current pose.
    pub fn update_view_mat(&mut self)
        requires
            old(self).projection_consistent(),
            old(self).pitch_clamped(),
        ensures
            final(self)@ == old(self)@,
            final(self).wf(),
    {
        let front = v3_normalize(
            Vec3Fx {
                x: fx_mul(cos_fx(self.yaw), cos_fx(self.pitch)),
                y: sin_fx(self.pitch),
                z: fx_mul(sin_fx(self.yaw), cos_fx(self.pitch)),
            },
        );
        let right = v3_normalize(v3_cross(front, Vec3Fx::up()));
        let up = v3_normalize(v3_cross(right, front));
        let forward = v3_normalize(v3_cross(Vec3Fx::up(), right));
        self.front = front;
        self.right = right;
        self.up = up;
        self.forward = forward;
        self.view_mat = m4_look_at_rh(self.position, v3_add(self.position, front), up);
        self.view_projection_mat = m4_mul(&self.projection_mat, &self.view_mat);
    }

    /// The camera's position.
    pub fn position(&self) -> (r: Vec3Fx)
        ensures
            r@ == self@.position,
    {
        self.position
    }

    /// The camera's yaw, in fixed-point degrees.
    pub fn yaw(&self) -> (r: i64)
        ensures
            r as int == self@.yaw,
    {
        self.yaw
    }

    /// The camera's pitch, in fixed-point degrees.
    pub fn pitch(&self) -> (r: i64)
        ensures
            r as int == self@.pitch,
    {
        self.pitch
    }

    /// The current view-projection matrix.
    pub fn view_projection_mat(&self) -> (r: Mat4Fx)
        requires
            self.wf(),
        ensures
            r@ == view_projection_s(self@),
    {
        self.view_projection_mat
    }
}

/// Clamp a pitch into the camera's pitch range.
fn fx_clamp_pitch(pitch: i64) -> (r: i64)
    ensures
        r as int == clamp_s(pitch as int, -(PITCH_LIMIT as int), PITCH_LIMIT as int),
{
    crate::fx::fx_clamp(pitch, -PITCH_LIMIT, PITCH_LIMIT)
}

/// LAW — the pitch is always clamped: whatever the pose and input, the pose
/// one tick produces has its pitch in the clamp range, provided the pose it
/// started from did.
pub proof fn lemma_tick_pitch_clamped(c: CameraM, dt: int, cmd: u32, delta: V2)
    requires
        -(PITCH_LIMIT as int) <= c.pitch <= PITCH_LIMIT as int,
    ensures
        -(PITCH_LIMIT as int) <= tick_s(c, dt, cmd, delta).pitch <= PITCH_LIMIT as int,
{
}

/// LAW — a tick with zero elapsed time, zero command bits and a zero pointer
/// delta changes nothing: the pose is identical, so the derived
/// view-projection matrix is identical too.
pub proof fn lemma_tick_identity(c: CameraM)
    ensures
        tick_s(c, 0, 0u32, v2_zero_s()) == c,
        view_projection_s(tick_s(c, 0, 0u32, v2_zero_s())) == view_projection_s(c),
{
    assert(0u32 & 1u32 == 0u32) by (bit_vector);
    assert(0u32 & 2u32 == 0u32) by (bit_vector);
    assert(0u32 & 4u32 == 0u32) by (bit_vector);
    assert(0u32 & 8u32 == 0u32) by (bit_vector);
    assert(0u32 & 16u32 == 0u32) by (bit_vector);
    assert(0u32 & 32u32 == 0u32) by (bit_vector);
}

/// LAW — the aspect-ratio update is isolated: it changes only the aspect
/// field of the pose, and the view matrix derived from the new pose is the
/// view matrix derived from the old one; position, yaw and pitch are
/// untouched.
pub proof fn lemma_aspect_isolated(c: CameraM, ratio: int)
    ensures
        (CameraM { aspect: ratio, ..c }).position == c.position,
        (CameraM { aspect: ratio, ..c }).yaw == c.yaw,
        (CameraM { aspect: ratio, ..c }).pitch == c.pitch,
        view_s(CameraM { aspect: ratio, ..c }) == view_s(c),
{
}

} // verus!
