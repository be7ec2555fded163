//! A minimal real-time 3D rendering core.
//!
//! The crate owns the resource cache, the scene, the free-look camera and the
//! input accumulator of a small renderer, and drives the per-frame
//! update/render cycle.  All continuous quantities (positions, angles,
//! matrices) are held in signed 64-bit fixed-point numbers with a scale of
//! one million, so the whole update loop is exact integer arithmetic.
//!
//! The windowing shell and the GPU device are deliberately outside the crate:
//! the library decides *what* to do each frame (which buffers to create,
//! which draws to issue, which matrix to upload) and hands those decisions to
//! the surrounding program as plain data.

use vstd::prelude::*;

pub mod camera;
pub mod fx;
pub mod input;
pub mod math;
pub mod pipeline;
pub mod primitive;
pub mod render;
pub mod resource;
pub mod scene;

use crate::camera::{tick_s, view_projection_s, Camera, CameraM};
use crate::fx::{fx_div, fx_div_s, FX_ONE};
use crate::input::{input_event_s, InputEvent, InputM, InputSystem};
use crate::math::{v2_zero_s, Vec3Fx, V3};
use crate::render::{draws_s, FramePlan, Renderer, RendererM};
use crate::resource::{pipeline_lookup_s, MeshUpload, MeshUploadM, ResourceM};

verus! {

/// Ghost mirror of the frame driver.
pub ghost struct CoreM {
    pub renderer: RendererM,
    pub input: InputM,
    pub camera: CameraM,
}

/// The camera pose and projection the driver starts with.
pub open spec fn initial_camera_s() -> CameraM {
    CameraM {
        position: V3 { x: -3000000, y: 0, z: -3000000 },
        yaw: 0,
        pitch: 0,
        fov: 90000000,
        aspect: fx_div_s(16000000, 9000000),
        near: 100000,
        far: 100000000,
    }
}

/// The frame driver: it owns the renderer, the input accumulator and the
/// camera, and folds resizes, raw input and elapsed time into them, one
/// frame at a time.
pub struct Core {
    renderer: Renderer,
    input_system: InputSystem,
    camera: Camera,
}

impl View for Core {
    type V = CoreM;

    closed spec fn view(&self) -> CoreM {
        CoreM { renderer: self.renderer@, input: self.input_system@, camera: self.camera@ }
    }
}

impl Core {
    /// The camera derives its matrices from its pose and the renderer can
    /// always plan a frame.
    pub closed spec fn wf(self) -> bool {
        self.camera.wf() && self.renderer.wf()
    }

    /// A driver with the demo scene, an empty input accumulator, and the
    /// camera at its initial pose.
    pub fn new() -> (r: Core)
        ensures
            r.wf(),
            r@.camera == initial_camera_s(),
            r@.input.game_command == 0u32,
            r@.input.cursor_delta == v2_zero_s(),
            r@.renderer.scene.len() == 3,
    {
        let renderer = Renderer::new();
        let camera = Camera::new(
            Vec3Fx { x: -3000000, y: 0, z: -3000000 },
            90 * FX_ONE,
            fx_div(16 * FX_ONE, 9 * FX_ONE),
            100000,
            100 * FX_ONE,
        );
        let input_system = InputSystem::default();
        Core { renderer, camera, input_system }
    }

    /// Propagate a resize: the renderer records the clamped surface size and
    /// the camera gets the new aspect ratio; nothing else changes.
    pub fn handle_resize(&mut self, width: u32, height: u32)
        requires
            old(self).wf(),
        ensures
            final(self)@.camera == (CameraM {
                aspect: fx_div_s(width as int * FX_ONE as int, height as int * FX_ONE as int),
                ..old(self)@.camera
            }),
            final(self)@.renderer.width == (if width == 0 {
                1u32
            } else {
                width
            }),
            final(self)@.renderer.height == (if height == 0 {
                1u32
            } else {
                height
            }),
            final(self)@.renderer.resource == old(self)@.renderer.resource,
            final(self)@.renderer.scene == old(self)@.renderer.scene,
            final(self)@.input == old(self)@.input,
            final(self).wf(),
    {
        self.renderer.handle_resize(width, height);
        let ratio = fx_div((width as i64) * FX_ONE, (height as i64) * FX_ONE);
        self.camera.set_ratio(ratio);
    }

    /// The camera, read-only: mutation goes through the driver.
    pub fn camera(&self) -> (r: &Camera)
        ensures
            r@ == self@.camera,
            self.wf() ==> r.wf(),
    {
        &self.camera
    }

    /// The last known surface size.
    pub fn surface_size(&self) -> (r: (u32, u32))
        ensures
            r.0 == self@.renderer.width,
            r.1 == self@.renderer.height,
    {
        self.renderer.get_surface_size()
    }

    /// Fold one raw window event into the input accumulator.
    pub fn handle_input_event(&mut self, event: InputEvent)
        ensures
            final(self)@.input == input_event_s(old(self)@.input, event),
            final(self)@.camera == old(self)@.camera,
            final(self)@.renderer == old(self)@.renderer,
            final(self).wf() == old(self).wf(),
    {
        match event {
            InputEvent::Keyboard { key, pressed } => {
                self.input_system.handle_keyboard_input(key, pressed);
            },
            InputEvent::CursorMoved { position } => {
                self.input_system.handle_cursor_moved(position);
            },
            InputEvent::MouseInput { button, pressed } => {
                self.input_system.handle_mouse_input(button, pressed);
            },
        }
    }

    /// Fold the input gathered since the last tick into the camera: the held
    /// commands move it for `delta_time` (fixed-point seconds), the pointer
    /// delta rotates it and is consumed exactly once.
    pub fn tick(&mut self, delta_time: i64)
        requires
            old(self).wf(),
        ensures
            final(self)@.camera == tick_s(
                old(self)@.camera,
                delta_time as int,
                old(self)@.input.game_command,
                old(self)@.input.cursor_delta,
            ),
            final(self)@.input == (InputM { cursor_delta: v2_zero_s(), ..old(self)@.input }),
            final(self)@.renderer == old(self)@.renderer,
            final(self).wf(),
    {
        let command = self.input_system.game_command();
        let delta = self.input_system.take_pointer_delta();
        self.camera.tick(delta_time, command, delta);
    }

    /// Drain the cache's queued uploads for the device to realise.
    pub fn take_uploads(&mut self) -> (r: Vec<MeshUpload>)
        ensures
            r@.map_values(|u: MeshUpload| u@) == old(self)@.renderer.resource.uploads,
            final(self)@.renderer.resource == (ResourceM {
                uploads: Seq::<MeshUploadM>::empty(),
                ..old(self)@.renderer.resource
            }),
            final(self)@.renderer.scene == old(self)@.renderer.scene,
            final(self)@.camera == old(self)@.camera,
            final(self)@.input == old(self)@.input,
            final(self).wf() == old(self).wf(),
    {
        self.renderer.take_uploads()
    }

    /// Plan one frame from the current camera, scene and resource cache.
    pub fn render(&self) -> (plan: FramePlan)
        requires
            self.wf(),
        ensures
            Some(plan@.pipeline) == pipeline_lookup_s(
                self@.renderer.resource,
                crate::pipeline::Technique::Cube,
            ),
            plan@.uniform == view_projection_s(self@.camera),
            plan@.draws == draws_s(self@.renderer.scene, self@.renderer.resource),
    {
        self.renderer.render(&self.camera)
    }
}

} // verus!
