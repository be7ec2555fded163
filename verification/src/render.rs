//! The render pass: it translates camera, scene and resource cache into the
//! frame's draw list, as plain data for the device to execute.
//!
//! Per frame: one camera uniform (the view-projection matrix), one pipeline
//! binding, and one indexed draw per scene instance whose mesh key resolves
//! in the cache, in scene order.  An instance whose key does not resolve is
//! skipped; it never aborts the frame.

use crate::camera::{view_projection_s, Camera};
use crate::math::{Mat4Fx, Vec3Fx, M4};
use crate::pipeline::Technique;
use crate::primitive::Cube;
use crate::resource::{
    mesh_lookup_s, pipeline_lookup_s, MeshUpload, MeshUploadM, RenderResource, Resource,
    ResourceM,
};
use crate::scene::{RenderObject, RenderObjectM, Scene};
use vstd::prelude::*;

verus! {

/// Ghost mirror of one draw command.
pub ghost struct DrawCommandM {
    pub vertex_buf: u64,
    pub index_buf: u64,
    pub index_count: usize,
    pub model: M4,
}

/// One indexed draw: which buffers to bind, how many indices to draw, and
/// the instance's model matrix.
pub struct DrawCommand {
    pub vertex_buf: u64,
    pub index_buf: u64,
    pub index_count: usize,
    pub model: Mat4Fx,
}

impl View for DrawCommand {
    type V = DrawCommandM;

    open spec fn view(&self) -> DrawCommandM {
        DrawCommandM {
            vertex_buf: self.vertex_buf,
            index_buf: self.index_buf,
            index_count: self.index_count,
            model: self.model@,
        }
    }
}

/// Ghost mirror of one frame's commands.
pub ghost struct FramePlanM {
    pub pipeline: u64,
    pub uniform: M4,
    pub draws: Seq<DrawCommandM>,
}

/// Everything the device needs for one frame: the pipeline to bind, the
/// camera uniform to upload, and the draws to issue in order.
pub struct FramePlan {
    pub pipeline: u64,
    pub uniform: Mat4Fx,
    pub draws: Vec<DrawCommand>,
}

impl View for FramePlan {
    type V = FramePlanM;

    open spec fn view(&self) -> FramePlanM {
        FramePlanM {
            pipeline: self.pipeline,
            uniform: self.uniform@,
            draws: self.draws@.map_values(|d: DrawCommand| d@),
        }
    }
}

/// The draw an instance yields once its mesh has resolved.
pub open spec fn draw_of_s(resource: RenderResource, obj: RenderObjectM) -> DrawCommandM {
    DrawCommandM {
        vertex_buf: resource.vertex_buf,
        index_buf: resource.index_buf,
        index_count: resource.vertex_cnt,
        model: obj.model,
    }
}

/// The frame's draw list: one draw per instance whose mesh key resolves, in
/// scene order; unresolvable instances are skipped.
pub open spec fn draws_s(scene: Seq<RenderObjectM>, res: ResourceM) -> Seq<DrawCommandM>
    decreases scene.len(),
{
    if scene.len() == 0 {
        Seq::empty()
    } else {
        let rest = draws_s(scene.drop_last(), res);
        match mesh_lookup_s(res, scene.last().mesh_key) {
            Some(resource) => rest.push(draw_of_s(resource, scene.last())),
            None => rest,
        }
    }
}

/// How many instances of the scene have a resolvable mesh key.
pub open spec fn resolvable_count_s(scene: Seq<RenderObjectM>, res: ResourceM) -> nat
    decreases scene.len(),
{
    if scene.len() == 0 {
        0
    } else {
        resolvable_count_s(scene.drop_last(), res) + if mesh_lookup_s(
            res,
            scene.last().mesh_key,
        ) is Some {
            1nat
        } else {
            0nat
        }
    }
}

/// Whether a draw is the faithful image of some scene instance: the
/// instance's mesh key resolves to exactly the buffers and index count the
/// draw carries, and the draw uses the instance's model matrix.
pub open spec fn draw_matches_s(scene: Seq<RenderObjectM>, res: ResourceM, d: DrawCommandM) -> bool {
    exists|k: int|
        0 <= k < scene.len() && (#[trigger] scene[k]).model == d.model && mesh_lookup_s(
            res,
            scene[k].mesh_key,
        ) == Some(
            RenderResource {
                vertex_cnt: d.index_count,
                vertex_buf: d.vertex_buf,
                index_buf: d.index_buf,
            },
        )
}

/// LAW — scene draw count.  Rendering a scene issues exactly one draw per
/// instance whose mesh key resolves; every draw carries the index count and
/// buffers of the mesh its instance resolved to, and that instance's model
/// matrix; unresolvable instances contribute nothing and abort nothing.
pub proof fn lemma_scene_draw_count(scene: Seq<RenderObjectM>, res: ResourceM)
    ensures
        draws_s(scene, res).len() == resolvable_count_s(scene, res),
        forall|j: int|
            0 <= j < draws_s(scene, res).len() ==> draw_matches_s(
                scene,
                res,
                #[trigger] draws_s(scene, res)[j],
            ),
    decreases scene.len(),
{
    if scene.len() > 0 {
        let prefix = scene.drop_last();
        lemma_scene_draw_count(prefix, res);
        assert forall|j: int| 0 <= j < draws_s(prefix, res).len() implies draw_matches_s(
            scene,
            res,
            #[trigger] draws_s(prefix, res)[j],
        ) by {
            let d = draws_s(prefix, res)[j];
            let k = choose|k: int|
                0 <= k < prefix.len() && (#[trigger] prefix[k]).model == d.model && mesh_lookup_s(
                    res,
                    prefix[k].mesh_key,
                ) == Some(
                    RenderResource {
                        vertex_cnt: d.index_count,
                        vertex_buf: d.vertex_buf,
                        index_buf: d.index_buf,
                    },
                );
            assert(scene[k] == prefix[k]);
        }
        match mesh_lookup_s(res, scene.last().mesh_key) {
            Some(resource) => {
                let d = draw_of_s(resource, scene.last());
                assert(scene[scene.len() - 1] == scene.last());
                assert(draw_matches_s(scene, res, d));
            },
            None => {},
        }
    }
}

/// Record the frame's draws: one per instance whose mesh key resolves, in
/// scene order.
pub fn record_draws(scene: &Scene, resource: &Resource) -> (draws: Vec<DrawCommand>)
    ensures
        draws@.map_values(|d: DrawCommand| d@) == draws_s(scene@, resource@),
{
    let objects = scene.render_objects();
    let mut draws: Vec<DrawCommand> = Vec::new();
    let mut i: usize = 0;
    proof {
        assert(scene@.subrange(0, 0) =~= Seq::<RenderObjectM>::empty());
        assert(draws@.map_values(|d: DrawCommand| d@) =~= Seq::<DrawCommandM>::empty());
    }
    while i < objects.len()
        invariant
            i <= objects.len(),
            objects@.map_values(|o: RenderObject| o@) == scene@,
            draws@.map_values(|d: DrawCommand| d@) == draws_s(
                scene@.subrange(0, i as int),
                resource@,
            ),
        decreases objects.len() - i,
    {
        let obj = &objects[i];
        let ghost before = draws@.map_values(|d: DrawCommand| d@);
        match resource.get_mesh(obj.mesh_key().as_str()) {
            Some(found) => {
                draws.push(
                    DrawCommand {
                        vertex_buf: found.vertex_buf,
                        index_buf: found.index_buf,
                        index_count: found.vertex_cnt,
                        model: obj.model_matrix(),
                    },
                );
                proof {
                    assert(draws@.map_values(|d: DrawCommand| d@) =~= before.push(
                        draw_of_s(found, obj@),
                    ));
                }
            },
            None => {},
        }
        proof {
            let sub = scene@.subrange(0, i + 1);
            assert(sub.drop_last() =~= scene@.subrange(0, i as int));
            assert(sub.last() == obj@);
        }
        i = i + 1;
    }
    proof {
        assert(scene@.subrange(0, objects.len() as int) =~= scene@);
    }
    draws
}

/// Ghost mirror of the renderer.
pub ghost struct RendererM {
    pub resource: ResourceM,
    pub scene: Seq<RenderObjectM>,
    pub width: u32,
    pub height: u32,
}

/// The renderer: the resource cache, the scene drawn each frame, and the
/// last known surface size.
pub struct Renderer {
    resource: Resource,
    scene: Scene,
    width: u32,
    height: u32,
}

impl View for Renderer {
    type V = RendererM;

    closed spec fn view(&self) -> RendererM {
        RendererM {
            resource: self.resource@,
            scene: self.scene@,
            width: self.width,
            height: self.height,
        }
    }
}

impl Renderer {
    /// The pipeline of the cube technique is registered, so a frame can
    /// always be planned.
    pub closed spec fn wf(self) -> bool {
        pipeline_lookup_s(self.resource@, Technique::Cube) is Some
    }

    /// A renderer with the fixed techniques registered and the demo scene:
    /// three placed cubes sharing one mesh.
    pub fn new() -> (r: Renderer)
        ensures
            r.wf(),
            r@.scene.len() == 3,
            mesh_lookup_s(r@.resource, <Cube as crate::primitive::RenderData>::spec_identifier())
                is Some,
            forall|k: int|
                0 <= k < r@.scene.len() ==> (#[trigger] r@.scene[k]).mesh_key == <Cube as crate::primitive::RenderData>::spec_identifier(),
            r@.width == 1 && r@.height == 1,
    {
        let mut resource = Resource::new();
        resource.init();
        let mut scene = Scene::new();
        scene.add_render_object(
            resource.create_render_object::<Cube>(
                Vec3Fx::zero(),
                Vec3Fx::zero(),
                Vec3Fx::zero(),
            ),
        );
        scene.add_render_object(
            resource.create_render_object::<Cube>(
                Vec3Fx { x: 3000000, y: 3000000, z: 3000000 },
                Vec3Fx { x: 500000, y: 1000000, z: 2000000 },
                Vec3Fx { x: 1000000, y: 2000000, z: 3000000 },
            ),
        );
        scene.add_render_object(
            resource.create_render_object::<Cube>(
                Vec3Fx { x: 3000000, y: 0, z: 3000000 },
                Vec3Fx { x: 500000, y: 0, z: 3140000 },
                Vec3Fx { x: 1000000, y: 2000000, z: 3000000 },
            ),
        );
        Renderer { resource, scene, width: 1, height: 1 }
    }

    /// Record the new surface size, never letting either side reach zero.
    pub fn handle_resize(&mut self, width: u32, height: u32)
        ensures
            final(self)@.width == (if width == 0 {
                1u32
            } else {
                width
            }),
            final(self)@.height == (if height == 0 {
                1u32
            } else {
                height
            }),
            final(self)@.resource == old(self)@.resource,
            final(self)@.scene == old(self)@.scene,
            final(self).wf() == old(self).wf(),
    {
        self.width = if width == 0 {
            1
        } else {
            width
        };
        self.height = if height == 0 {
            1
        } else {
            height
        };
    }

    /// The last known surface size.
    pub fn get_surface_size(&self) -> (r: (u32, u32))
        ensures
            r.0 == self@.width,
            r.1 == self@.height,
    {
        (self.width, self.height)
    }

    /// Plan one frame: the cube pipeline, the camera's view-projection
    /// matrix as the uniform, and one draw per resolvable instance in scene
    /// order.
    pub fn render(&self, camera: &Camera) -> (plan: FramePlan)
        requires
            self.wf(),
            camera.wf(),
        ensures
            Some(plan@.pipeline) == pipeline_lookup_s(self@.resource, Technique::Cube),
            plan@.uniform == view_projection_s(camera@),
            plan@.draws == draws_s(self@.scene, self@.resource),
    {
        let pipeline = self.resource.get_pipeline(Technique::Cube).unwrap();
        let uniform = camera.view_projection_mat();
        let draws = record_draws(&self.scene, &self.resource);
        FramePlan { pipeline, uniform, draws }
    }

    /// Drain the cache's queued uploads for the device to realise.
    pub fn take_uploads(&mut self) -> (r: Vec<MeshUpload>)
        ensures
            r@.map_values(|u: MeshUpload| u@) == old(self)@.resource.uploads,
            final(self)@.resource == (ResourceM {
                uploads: Seq::<MeshUploadM>::empty(),
                ..old(self)@.resource
            }),
            final(self)@.scene == old(self)@.scene,
            final(self)@.width == old(self)@.width,
            final(self)@.height == old(self)@.height,
            final(self).wf() == old(self).wf(),
    {
        self.resource.take_uploads()
    }

    /// Append an instance to the scene; it draws after every instance
    /// already present.
    pub fn add_render_object(&mut self, render_object: RenderObject)
        ensures
            final(self)@.scene == old(self)@.scene.push(render_object@),
            final(self)@.resource == old(self)@.resource,
            final(self)@.width == old(self)@.width,
            final(self)@.height == old(self)@.height,
            final(self).wf() == old(self).wf(),
    {
        self.scene.add_render_object(render_object);
    }
}

} // verus!
