//! The resource cache: the single owner of GPU-resident, shareable
//! resources, keyed by logical identity.
//!
//! Meshes are keyed by a string, pipelines by their `Technique`.  Creation is
//! create-or-reuse: the first request under a key allocates a fresh buffer
//! pair and queues its payload for the device; later requests under the same
//! key ignore their payload and return the cached handle (cache wins on
//! conflict).  The queued payloads are drained by the surrounding program,
//! which performs the actual device work.

use crate::math::{Mat4Fx, Vec3Fx};
use crate::pipeline::Technique;
use crate::primitive::{RenderData, Vertex};
use crate::scene::RenderObject;
use vstd::prelude::*;

verus! {

/// The largest mesh count under which fresh buffer ids still fit in `u64`.
pub const MESH_CAPACITY: u64 = 0x4000000000000000;

/// A non-owning handle to a cached mesh: its buffer ids and index count,
/// valid for the cache's lifetime.
#[derive(Clone, Copy, Debug, PartialEq, Eq, Structural)]
pub struct RenderResource {
    pub vertex_cnt: usize,
    pub vertex_buf: u64,
    pub index_buf: u64,
}

/// A registered pipeline: its technique and its handle.
#[derive(Clone, Copy, Debug, PartialEq, Eq, Structural)]
pub struct PipelineEntry {
    pub technique: Technique,
    pub id: u64,
}

/// One cached mesh: its key and its handle.
pub struct MeshEntry {
    pub key: String,
    pub resource: RenderResource,
}

/// Ghost mirror of a cached mesh.
pub ghost struct MeshEntryM {
    pub key: Seq<char>,
    pub resource: RenderResource,
}

impl View for MeshEntry {
    type V = MeshEntryM;

    open spec fn view(&self) -> MeshEntryM {
        MeshEntryM { key: self.key@, resource: self.resource }
    }
}

/// A buffer pair waiting to be realised on the device, with its payload.
pub struct MeshUpload {
    pub vertex_buf: u64,
    pub index_buf: u64,
    pub vertex_data: Vec<Vertex>,
    pub index_data: Vec<u16>,
}

/// Ghost mirror of a pending upload.
pub ghost struct MeshUploadM {
    pub vertex_buf: u64,
    pub index_buf: u64,
    pub vertex_data: Seq<Vertex>,
    pub index_data: Seq<u16>,
}

impl View for MeshUpload {
    type V = MeshUploadM;

    open spec fn view(&self) -> MeshUploadM {
        MeshUploadM {
            vertex_buf: self.vertex_buf,
            index_buf: self.index_buf,
            vertex_data: self.vertex_data@,
            index_data: self.index_data@,
        }
    }
}

/// Ghost mirror of the whole cache.
pub ghost struct ResourceM {
    pub pipelines: Seq<PipelineEntry>,
    pub meshes: Seq<MeshEntryM>,
    pub uploads: Seq<MeshUploadM>,
}

/// Look a key up among the cached meshes.
pub open spec fn lookup_meshes_s(meshes: Seq<MeshEntryM>, key: Seq<char>) -> Option<RenderResource>
    decreases meshes.len(),
{
    if meshes.len() == 0 {
        None
    } else if meshes.last().key == key {
        Some(meshes.last().resource)
    } else {
        lookup_meshes_s(meshes.drop_last(), key)
    }
}

/// Look a technique up among the registered pipelines.
pub open spec fn lookup_pipelines_s(pipelines: Seq<PipelineEntry>, technique: Technique) -> Option<
    u64,
>
    decreases pipelines.len(),
{
    if pipelines.len() == 0 {
        None
    } else if pipelines.last().technique == technique {
        Some(pipelines.last().id)
    } else {
        lookup_pipelines_s(pipelines.drop_last(), technique)
    }
}

/// Look a key up in the cache.
pub open spec fn mesh_lookup_s(m: ResourceM, key: Seq<char>) -> Option<RenderResource> {
    lookup_meshes_s(m.meshes, key)
}

/// Look a technique up in the cache.
pub open spec fn pipeline_lookup_s(m: ResourceM, technique: Technique) -> Option<u64> {
    lookup_pipelines_s(m.pipelines, technique)
}

/// The handle a fresh mesh under `key` would get, given the payload's index
/// count and the current mesh count.
pub open spec fn fresh_resource_s(count: int, index_len: int) -> RenderResource {
    RenderResource {
        vertex_cnt: index_len as usize,
        vertex_buf: (2 * count) as u64,
        index_buf: (2 * count + 1) as u64,
    }
}

/// How `get_or_create_mesh` changes the cache and what it returns: a cached
/// key is returned untouched (cache wins, the payload is ignored); a fresh
/// key gets a new buffer pair, a new entry and one queued upload.
pub open spec fn get_or_create_mesh_s(
    m: ResourceM,
    key: Seq<char>,
    vertex_data: Seq<Vertex>,
    index_data: Seq<u16>,
) -> (ResourceM, RenderResource) {
    match mesh_lookup_s(m, key) {
        Some(resource) => (m, resource),
        None => {
            let resource = fresh_resource_s(m.meshes.len() as int, index_data.len() as int);
            let cache = ResourceM {
                meshes: m.meshes.push(MeshEntryM { key, resource }),
                uploads: m.uploads.push(
                    MeshUploadM {
                        vertex_buf: resource.vertex_buf,
                        index_buf: resource.index_buf,
                        vertex_data,
                        index_data,
                    },
                ),
                ..m
            };
            (cache, resource)
        },
    }
}

/// How `get_or_create_pipeline` changes the cache and what it returns.
pub open spec fn get_or_create_pipeline_s(m: ResourceM, technique: Technique) -> (ResourceM, u64) {
    match pipeline_lookup_s(m, technique) {
        Some(id) => (m, id),
        None => {
            let id = m.pipelines.len() as u64;
            (ResourceM { pipelines: m.pipelines.push(PipelineEntry { technique, id }), ..m }, id)
        },
    }
}

/// A hook for rebuilding device state from cached descriptions.
pub trait Reload {
    /// Rebuild whatever device state the implementor caches.
    fn reload(&mut self);
}

/// The resource cache.
pub struct Resource {
    pipelines: Vec<PipelineEntry>,
    meshes: Vec<MeshEntry>,
    uploads: Vec<MeshUpload>,
}

impl View for Resource {
    type V = ResourceM;

    closed spec fn view(&self) -> ResourceM {
        ResourceM {
            pipelines: self.pipelines@,
            meshes: self.meshes@.map_values(|e: MeshEntry| e@),
            uploads: self.uploads@.map_values(|u: MeshUpload| u@),
        }
    }
}

impl Resource {
    /// An empty cache.
    pub fn new() -> (r: Resource)
        ensures
            r@.pipelines == Seq::<PipelineEntry>::empty(),
            r@.meshes == Seq::<MeshEntryM>::empty(),
            r@.uploads == Seq::<MeshUploadM>::empty(),
    {
        let r = Resource { pipelines: Vec::new(), meshes: Vec::new(), uploads: Vec::new() };
        proof {
            assert(r@.meshes =~= Seq::<MeshEntryM>::empty());
            assert(r@.uploads =~= Seq::<MeshUploadM>::empty());
        }
        r
    }

    /// Register the fixed techniques and load the built-in cube mesh.
    pub fn init(&mut self)
        requires
            old(self)@.meshes.len() < MESH_CAPACITY,
        ensures
            pipeline_lookup_s(final(self)@, Technique::HelloTriangle) is Some,
            pipeline_lookup_s(final(self)@, Technique::Cube) is Some,
            mesh_lookup_s(final(self)@, <crate::primitive::Cube as RenderData>::spec_identifier())
                is Some,
            mesh_lookup_s(old(self)@, <crate::primitive::Cube as RenderData>::spec_identifier())
                is None ==> mesh_lookup_s(
                final(self)@,
                <crate::primitive::Cube as RenderData>::spec_identifier(),
            )->0.vertex_cnt == 36,
            final(self)@.meshes.len() <= old(self)@.meshes.len() + 1,
    {
        self.get_or_create_pipeline(Technique::HelloTriangle);
        let ghost s1 = self@;
        proof {
            if pipeline_lookup_s(old(self)@, Technique::HelloTriangle) is None {
                assert(s1.pipelines.last().technique == Technique::HelloTriangle);
            }
            assert(pipeline_lookup_s(s1, Technique::HelloTriangle) is Some);
        }
        self.get_or_create_pipeline(Technique::Cube);
        let ghost s2 = self@;
        proof {
            if pipeline_lookup_s(s1, Technique::Cube) is None {
                assert(s2.pipelines.last().technique == Technique::Cube);
                assert(s2.pipelines.drop_last() =~= s1.pipelines);
            }
            assert(pipeline_lookup_s(s2, Technique::Cube) is Some);
            assert(pipeline_lookup_s(s2, Technique::HelloTriangle) is Some);
            assert(s2.meshes == old(self)@.meshes);
        }
        self.load_render_resource::<crate::primitive::Cube>();
        proof {
            assert(self@.pipelines == s2.pipelines);
        }
    }

    /// Return the cached handle under `key`, or create it from the supplied
    /// payload: the payload is used only on first creation.
    pub fn get_or_create_mesh(&mut self, key: &str, vertex_data: Vec<Vertex>, index_data: Vec<
        u16,
    >) -> (r: RenderResource)
        requires
            old(self)@.meshes.len() < MESH_CAPACITY,
        ensures
            ({
                let (cache, resource) = get_or_create_mesh_s(
                    old(self)@,
                    key@,
                    vertex_data@,
                    index_data@,
                );
                final(self)@ == cache && r == resource
            }),
    {
        let ghost vd = vertex_data@;
        let ghost idx = index_data@;
        let existing = self.get_mesh(key);
        match existing {
            Some(resource) => resource,
            None => {
                let vertex_buf: u64 = 2 * (self.meshes.len() as u64);
                let index_buf: u64 = vertex_buf + 1;
                let resource = RenderResource {
                    vertex_cnt: index_data.len(),
                    vertex_buf,
                    index_buf,
                };
                self.uploads.push(
                    MeshUpload { vertex_buf, index_buf, vertex_data, index_data },
                );
                self.meshes.push(MeshEntry { key: key.to_owned(), resource });
                proof {
                    assert(self@.meshes =~= old(self)@.meshes.push(
                        MeshEntryM { key: key@, resource },
                    ));
                    assert(self@.uploads =~= old(self)@.uploads.push(
                        MeshUploadM {
                            vertex_buf,
                            index_buf,
                            vertex_data: vd,
                            index_data: idx,
                        },
                    ));
                }
                resource
            },
        }
    }

    /// Return the pipeline handle for `technique`, registering it first if it
    /// is new.
    pub fn get_or_create_pipeline(&mut self, technique: Technique) -> (r: u64)
        ensures
            ({
                let (cache, id) = get_or_create_pipeline_s(old(self)@, technique);
                final(self)@ == cache && r == id
            }),
    {
        let existing = self.get_pipeline(technique);
        match existing {
            Some(id) => id,
            None => {
                let id: u64 = self.pipelines.len() as u64;
                self.pipelines.push(PipelineEntry { technique, id });
                id
            },
        }
    }

    /// Create or reuse the mesh a payload type describes.
    pub fn load_render_resource<M: RenderData>(&mut self) -> (r: RenderResource)
        requires
            old(self)@.meshes.len() < MESH_CAPACITY,
        ensures
            mesh_lookup_s(final(self)@, M::spec_identifier()) == Some(r),
            final(self)@.pipelines == old(self)@.pipelines,
            mesh_lookup_s(old(self)@, M::spec_identifier()) is Some ==> final(self)@ == old(self)@
                && mesh_lookup_s(old(self)@, M::spec_identifier()) == Some(r),
            mesh_lookup_s(old(self)@, M::spec_identifier()) is None ==> ({
                &&& r == fresh_resource_s(
                    old(self)@.meshes.len() as int,
                    M::spec_index_count() as int,
                )
                &&& r.vertex_cnt == M::spec_index_count()
                &&& final(self)@.meshes == old(self)@.meshes.push(
                    MeshEntryM { key: M::spec_identifier(), resource: r },
                )
                &&& final(self)@.uploads.drop_last() == old(self)@.uploads
                &&& final(self)@.uploads.len() == old(self)@.uploads.len() + 1
                &&& final(self)@.uploads.last().vertex_buf == r.vertex_buf
                &&& final(self)@.uploads.last().index_buf == r.index_buf
                &&& final(self)@.uploads.last().vertex_data.len() == M::spec_vertex_count()
                &&& final(self)@.uploads.last().index_data.len() == M::spec_index_count()
            }),
    {
        let key = M::identifier();
        let vertex_vec = M::vertex_data();
        let index_vec = M::index_data();
        let index_len = index_vec.len();
        proof {
            assert(index_len == M::spec_index_count());
            assert(M::spec_index_count() <= usize::MAX);
        }
        let r = self.get_or_create_mesh(key.as_str(), vertex_vec, index_vec);
        proof {
            if mesh_lookup_s(old(self)@, M::spec_identifier()) is None {
                assert(self@.meshes.last() == (MeshEntryM {
                    key: M::spec_identifier(),
                    resource: r,
                }));
                assert(self@.uploads.drop_last() =~= old(self)@.uploads);
            }
        }
        r
    }

    /// Create or reuse the mesh a payload type describes, and place one
    /// occurrence of it with the given transform.
    pub fn create_render_object<M: RenderData>(
        &mut self,
        position: Vec3Fx,
        rotation: Vec3Fx,
        scale: Vec3Fx,
    ) -> (r: RenderObject)
        requires
            old(self)@.meshes.len() < MESH_CAPACITY,
        ensures
            mesh_lookup_s(final(self)@, M::spec_identifier()) is Some,
            r@.mesh_key == M::spec_identifier(),
            r@.position == position@,
            r@.model == crate::scene::model_matrix_s(position@, rotation@, scale@),
            mesh_lookup_s(old(self)@, M::spec_identifier()) is Some ==> final(self)@ == old(
                self,
            )@,
            final(self)@.pipelines == old(self)@.pipelines,
            final(self)@.meshes.len() <= old(self)@.meshes.len() + 1,
    {
        self.load_render_resource::<M>();
        RenderObject::new(M::identifier(), position, rotation, scale)
    }

    /// Look a technique up; absence is a normal outcome.
    pub fn get_pipeline(&self, technique: Technique) -> (r: Option<u64>)
        ensures
            r == pipeline_lookup_s(self@, technique),
    {
        let mut i: usize = self.pipelines.len();
        proof {
            assert(self@.pipelines.subrange(0, i as int) =~= self@.pipelines);
        }
        while i > 0
            invariant
                i <= self.pipelines.len(),
                lookup_pipelines_s(self@.pipelines, technique) == lookup_pipelines_s(
                    self@.pipelines.subrange(0, i as int),
                    technique,
                ),
            decreases i,
        {
            let entry = self.pipelines[i - 1];
            proof {
                assert(self@.pipelines.subrange(0, i as int).last() == entry);
                assert(self@.pipelines.subrange(0, i as int).drop_last() =~= self@.pipelines
                    .subrange(0, i as int - 1));
            }
            if entry.technique == technique {
                return Some(entry.id);
            }
            i = i - 1;
        }
        proof {
            assert(self@.pipelines.subrange(0, 0) =~= Seq::<PipelineEntry>::empty());
        }
        None
    }

    /// Look a mesh key up; absence is a normal outcome.
    pub fn get_mesh(&self, name: &str) -> (r: Option<RenderResource>)
        ensures
            r == mesh_lookup_s(self@, name@),
    {
        let owned: String = name.to_owned();
        let mut i: usize = self.meshes.len();
        proof {
            assert(self@.meshes.subrange(0, i as int) =~= self@.meshes);
        }
        while i > 0
            invariant
                i <= self.meshes.len(),
                owned@ == name@,
                lookup_meshes_s(self@.meshes, name@) == lookup_meshes_s(
                    self@.meshes.subrange(0, i as int),
                    name@,
                ),
            decreases i,
        {
            let entry = &self.meshes[i - 1];
            proof {
                assert(self@.meshes.subrange(0, i as int).last() == entry@);
                assert(self@.meshes.subrange(0, i as int).drop_last() =~= self@.meshes.subrange(
                    0,
                    i as int - 1,
                ));
            }
            if entry.key == owned {
                return Some(entry.resource);
            }
            i = i - 1;
        }
        proof {
            assert(self@.meshes.subrange(0, 0) =~= Seq::<MeshEntryM>::empty());
        }
        None
    }

    /// Drain the queued uploads for the device to realise.
    pub fn take_uploads(&mut self) -> (r: Vec<MeshUpload>)
        ensures
            r@.map_values(|u: MeshUpload| u@) == old(self)@.uploads,
            final(self)@ == (ResourceM { uploads: Seq::<MeshUploadM>::empty(), ..old(self)@ }),
    {
        let mut drained: Vec<MeshUpload> = Vec::new();
        core::mem::swap(&mut drained, &mut self.uploads);
        proof {
            assert(self@.uploads =~= Seq::<MeshUploadM>::empty());
        }
        drained
    }
}

/// Ghost mirror of a lazily created pipeline slot.
pub ghost struct PipelineWrapperM {
    pub technique: Technique,
    pub pipeline: Option<u64>,
}

/// A lazily created pipeline slot: it remembers its technique and fetches
/// its handle from the cache on first use; reloading drops the handle so the
/// next use fetches it again.
pub struct PipelineWrapper {
    technique: Technique,
    pipeline: Option<u64>,
}

impl View for PipelineWrapper {
    type V = PipelineWrapperM;

    closed spec fn view(&self) -> PipelineWrapperM {
        PipelineWrapperM { technique: self.technique, pipeline: self.pipeline }
    }
}

impl PipelineWrapper {
    /// An empty slot for `technique`.
    pub fn new(technique: Technique) -> (r: PipelineWrapper)
        ensures
            r@ == (PipelineWrapperM { technique, pipeline: None }),
    {
        PipelineWrapper { technique, pipeline: None }
    }

    /// Fill the slot from the cache, registering the technique if needed.
    pub fn init(&mut self, resource: &mut Resource)
        ensures
            ({
                let (cache, id) = get_or_create_pipeline_s(old(resource)@, old(self)@.technique);
                final(resource)@ == cache && final(self)@ == (PipelineWrapperM {
                    technique: old(self)@.technique,
                    pipeline: Some(id),
                })
            }),
    {
        let id = resource.get_or_create_pipeline(self.technique);
        self.pipeline = Some(id);
    }

    /// The slot's handle, fetched from the cache on first use.
    pub fn pipeline(&mut self, resource: &mut Resource) -> (r: u64)
        ensures
            final(self)@.technique == old(self)@.technique,
            final(self)@.pipeline == Some(r),
            old(self)@.pipeline is Some ==> r == old(self)@.pipeline->0 && final(resource)@ == old(
                resource,
            )@,
            old(self)@.pipeline is None ==> ({
                let (cache, id) = get_or_create_pipeline_s(old(resource)@, old(self)@.technique);
                r == id && final(resource)@ == cache
            }),
    {
        match self.pipeline {
            Some(id) => id,
            None => {
                let id = resource.get_or_create_pipeline(self.technique);
                self.pipeline = Some(id);
                id
            },
        }
    }
}

impl Reload for PipelineWrapper {
    /// Drop the cached handle; the next use fetches it again.
    fn reload(&mut self) {
        self.pipeline = None;
    }
}

/// No two cached meshes share a key.
pub open spec fn mesh_keys_unique_s(meshes: Seq<MeshEntryM>) -> bool {
    forall|i: int, j: int|
        0 <= i < j < meshes.len() ==> (#[trigger] meshes[i]).key != (#[trigger] meshes[j]).key
}

/// At most one pipeline exists per technique.
pub open spec fn techniques_unique_s(pipelines: Seq<PipelineEntry>) -> bool {
    forall|i: int, j: int|
        0 <= i < j < pipelines.len() ==> (#[trigger] pipelines[i]).technique != (
        #[trigger] pipelines[j]).technique
}

/// A key that looks up to nothing occurs in no entry.
pub proof fn lemma_mesh_lookup_none_means_absent(meshes: Seq<MeshEntryM>, key: Seq<char>)
    requires
        lookup_meshes_s(meshes, key) is None,
    ensures
        forall|i: int| 0 <= i < meshes.len() ==> (#[trigger] meshes[i]).key != key,
    decreases meshes.len(),
{
    if meshes.len() > 0 {
        lemma_mesh_lookup_none_means_absent(meshes.drop_last(), key);
        assert forall|i: int| 0 <= i < meshes.len() implies (#[trigger] meshes[i]).key != key by {
            if i < meshes.len() - 1 {
                assert(meshes.drop_last()[i] == meshes[i]);
            } else {
                assert(meshes[i] == meshes.last());
            }
        }
    }
}

/// A technique that looks up to nothing occurs in no entry.
pub proof fn lemma_pipeline_lookup_none_means_absent(
    pipelines: Seq<PipelineEntry>,
    technique: Technique,
)
    requires
        lookup_pipelines_s(pipelines, technique) is None,
    ensures
        forall|i: int|
            0 <= i < pipelines.len() ==> (#[trigger] pipelines[i]).technique != technique,
    decreases pipelines.len(),
{
    if pipelines.len() > 0 {
        lemma_pipeline_lookup_none_means_absent(pipelines.drop_last(), technique);
        assert forall|i: int|
            0 <= i < pipelines.len() implies (#[trigger] pipelines[i]).technique != technique by {
            if i < pipelines.len() - 1 {
                assert(pipelines.drop_last()[i] == pipelines[i]);
            } else {
                assert(pipelines[i] == pipelines.last());
            }
        }
    }
}

/// LAW — a mesh is never duplicated for its key: create-or-reuse keeps the
/// cached keys distinct, since it creates only what no entry holds.
pub proof fn lemma_mesh_keys_stay_unique(
    m: ResourceM,
    key: Seq<char>,
    vertex_data: Seq<Vertex>,
    index_data: Seq<u16>,
)
    requires
        mesh_keys_unique_s(m.meshes),
    ensures
        mesh_keys_unique_s(get_or_create_mesh_s(m, key, vertex_data, index_data).0.meshes),
{
    if mesh_lookup_s(m, key) is None {
        lemma_mesh_lookup_none_means_absent(m.meshes, key);
        let grown = get_or_create_mesh_s(m, key, vertex_data, index_data).0.meshes;
        assert forall|i: int, j: int|
            0 <= i < j < grown.len() implies (#[trigger] grown[i]).key != (
        #[trigger] grown[j]).key by {
            if j < grown.len() - 1 {
                assert(grown[i] == m.meshes[i] && grown[j] == m.meshes[j]);
            } else {
                assert(grown[i] == m.meshes[i] && grown[j].key == key);
            }
        }
    }
}

/// LAW — one pipeline instance exists per technique: registration keeps the
/// registered techniques distinct, since it registers only what no entry
/// holds.
pub proof fn lemma_techniques_stay_unique(m: ResourceM, technique: Technique)
    requires
        techniques_unique_s(m.pipelines),
    ensures
        techniques_unique_s(get_or_create_pipeline_s(m, technique).0.pipelines),
{
    if pipeline_lookup_s(m, technique) is None {
        lemma_pipeline_lookup_none_means_absent(m.pipelines, technique);
        let grown = get_or_create_pipeline_s(m, technique).0.pipelines;
        assert forall|i: int, j: int|
            0 <= i < j < grown.len() implies (#[trigger] grown[i]).technique != (
        #[trigger] grown[j]).technique by {
            if j < grown.len() - 1 {
                assert(grown[i] == m.pipelines[i] && grown[j] == m.pipelines[j]);
            } else {
                assert(grown[i] == m.pipelines[i] && grown[j].technique == technique);
            }
        }
    }
}

/// LAW — one creation per key.  Two create-or-reuse calls under the same key,
/// whatever their payloads, return the same handle, and the second changes
/// nothing: at most one buffer pair and one upload ever exist per key.
pub proof fn lemma_mesh_cache_create_once(
    m: ResourceM,
    key: Seq<char>,
    vd1: Seq<Vertex>,
    id1: Seq<u16>,
    vd2: Seq<Vertex>,
    id2: Seq<u16>,
)
    ensures
        ({
            let (m1, r1) = get_or_create_mesh_s(m, key, vd1, id1);
            let (m2, r2) = get_or_create_mesh_s(m1, key, vd2, id2);
            &&& r2 == r1
            &&& m2 == m1
            &&& m1.uploads.len() <= m.uploads.len() + 1
            &&& mesh_lookup_s(m, key) is Some ==> m1 == m
        }),
{
    let (m1, r1) = get_or_create_mesh_s(m, key, vd1, id1);
    if mesh_lookup_s(m, key) is None {
        assert(m1.meshes.last() == MeshEntryM { key, resource: r1 });
        assert(mesh_lookup_s(m1, key) == Some(r1));
    }
}

} // verus!
