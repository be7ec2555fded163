//! The scene: an ordered collection of drawable instances.
//!
//! An instance references a shared mesh by its cache key and carries its own
//! model transform, fixed at construction: translation, then rotation (z
//! after y after x), then scale.  Insertion order is draw order.

use crate::math::{
    m4_from_rotation_x, m4_from_rotation_x_s, m4_from_rotation_y, m4_from_rotation_y_s,
    m4_from_rotation_z, m4_from_rotation_z_s, m4_from_scale, m4_from_scale_s, m4_from_translation,
    m4_from_translation_s, m4_mul, m4_mul_s, Mat4Fx, Vec3Fx, M4, V3,
};
use vstd::prelude::*;

verus! {

/// The model matrix of an instance placed at `position`, rotated about x,
/// then y, then z, and scaled: `Translation * (Rz * Ry * Rx) * Scale`.
#[verifier::opaque]
pub open spec fn model_matrix_s(position: V3, rotation: V3, scale: V3) -> M4 {
    let rot = m4_mul_s(
        m4_mul_s(m4_from_rotation_z_s(rotation.z), m4_from_rotation_y_s(rotation.y)),
        m4_from_rotation_x_s(rotation.x),
    );
    m4_mul_s(m4_mul_s(m4_from_translation_s(position), rot), m4_from_scale_s(scale))
}

/// Ghost mirror of a drawable instance.
pub ghost struct RenderObjectM {
    pub mesh_key: Seq<char>,
    pub position: V3,
    pub model: M4,
}

/// One placed occurrence of a mesh, with its own model transform.
pub struct RenderObject {
    mesh_key: String,
    position: Vec3Fx,
    model: Mat4Fx,
}

impl View for RenderObject {
    type V = RenderObjectM;

    closed spec fn view(&self) -> RenderObjectM {
        RenderObjectM { mesh_key: self.mesh_key@, position: self.position@, model: self.model@ }
    }
}

impl RenderObject {
    /// Place one occurrence of the mesh under `mesh_key`, with its model
    /// matrix composed from the given transform, fixed from then on.
    pub fn new(mesh_key: String, position: Vec3Fx, rotation: Vec3Fx, scale: Vec3Fx) -> (r:
        RenderObject)
        ensures
            r@ == (RenderObjectM {
                mesh_key: mesh_key@,
                position: position@,
                model: model_matrix_s(position@, rotation@, scale@),
            }),
    {
        let scale_matrix = m4_from_scale(scale);
        let rotation_matrix_x = m4_from_rotation_x(rotation.x);
        let rotation_matrix_y = m4_from_rotation_y(rotation.y);
        let rotation_matrix_z = m4_from_rotation_z(rotation.z);
        let rotation_matrix = m4_mul(&m4_mul(&rotation_matrix_z, &rotation_matrix_y), &rotation_matrix_x);
        let translation_matrix = m4_from_translation(position);
        let model = m4_mul(&m4_mul(&translation_matrix, &rotation_matrix), &scale_matrix);
        proof {
            reveal(model_matrix_s);
        }
        RenderObject { mesh_key, position, model }
    }

    /// The key of the shared mesh this instance references.
    pub fn mesh_key(&self) -> (r: &String)
        ensures
            r@ == self@.mesh_key,
    {
        &self.mesh_key
    }

    /// The instance's model matrix.
    pub fn model_matrix(&self) -> (r: Mat4Fx)
        ensures
            r@ == self@.model,
    {
        self.model
    }
}

/// The ordered collection of drawable instances.
pub struct Scene {
    render_objects: Vec<RenderObject>,
}

impl View for Scene {
    type V = Seq<RenderObjectM>;

    closed spec fn view(&self) -> Seq<RenderObjectM> {
        self.render_objects@.map_values(|o: RenderObject| o@)
    }
}

impl Scene {
    /// An empty scene.
    pub fn new() -> (r: Scene)
        ensures
            r@ == Seq::<RenderObjectM>::empty(),
    {
        let r = Scene { render_objects: Vec::new() };
        proof {
            assert(r@ =~= Seq::<RenderObjectM>::empty());
        }
        r
    }

    /// The instances, in draw order.
    pub fn render_objects(&self) -> (r: &Vec<RenderObject>)
        ensures
            r@.map_values(|o: RenderObject| o@) == self@,
    {
        &self.render_objects
    }

    /// Append an instance; it draws after every instance already present.
    pub fn add_render_object(&mut self, render_object: RenderObject)
        ensures
            final(self)@ == old(self)@.push(render_object@),
    {
        self.render_objects.push(render_object);
        proof {
            assert(self@ =~= old(self)@.push(render_object@));
        }
    }

    /// Remove the instance at `index`, closing the gap; later instances keep
    /// their relative draw order.
    pub fn remove_render_object(&mut self, index: usize) -> (r: RenderObject)
        requires
            index < old(self)@.len(),
        ensures
            r@ == old(self)@[index as int],
            final(self)@ == old(self)@.remove(index as int),
    {
        let removed = self.render_objects.remove(index);
        proof {
            assert(self@ =~= old(self)@.remove(index as int));
        }
        removed
    }

    /// Drop every instance.
    pub fn clear(&mut self)
        ensures
            final(self)@ == Seq::<RenderObjectM>::empty(),
    {
        self.render_objects.clear();
        proof {
            assert(self@ =~= Seq::<RenderObjectM>::empty());
        }
    }
}

} // verus!
