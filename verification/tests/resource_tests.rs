use azurge_core::pipeline::Technique;
use azurge_core::primitive::{Cube, RenderData};
use azurge_core::resource::{PipelineWrapper, Reload, Resource};

#[test]
fn f() {
}

#[test]
fn mesh_creation_happens_once_per_key() {
    let mut resource = Resource::new();
    let first = resource.get_or_create_mesh("cube", Cube::vertex_data(), Cube::index_data());
    let second = resource.get_or_create_mesh("cube", Vec::new(), Vec::new());
    // Both handles are the same handle, and only one buffer pair exists.
    assert_eq!(first, second);
    assert_eq!(first.vertex_buf, 0);
    assert_eq!(first.index_buf, 1);
    let uploads = resource.take_uploads();
    assert_eq!(uploads.len(), 1);
    assert_eq!(uploads[0].vertex_data.len(), 24);
    assert_eq!(uploads[0].index_data.len(), 36);
}

#[test]
fn cache_wins_on_conflicting_payloads() {
    let mut resource = Resource::new();
    let first = resource.get_or_create_mesh("cube", Cube::vertex_data(), Cube::index_data());
    let second = resource.get_or_create_mesh("cube", Vec::new(), Vec::new());
    assert_eq!(first, second);
    // The cached resource still reports the index count of the original
    // payload, not the conflicting one.
    let looked_up = resource.get_mesh("cube").unwrap();
    assert_eq!(looked_up.vertex_cnt, 36);
}

#[test]
fn distinct_keys_get_distinct_buffer_pairs() {
    let mut resource = Resource::new();
    let cube = resource.get_or_create_mesh("cube", Cube::vertex_data(), Cube::index_data());
    let other = resource.get_or_create_mesh("other", Vec::new(), Vec::new());
    assert_ne!(cube.vertex_buf, other.vertex_buf);
    assert_ne!(cube.index_buf, other.index_buf);
    assert_eq!(other.vertex_cnt, 0);
    assert_eq!(resource.take_uploads().len(), 2);
}

#[test]
fn mesh_lookup_misses_are_a_normal_outcome() {
    let resource = Resource::new();
    assert!(resource.get_mesh("cube").is_none());
    let mut resource = Resource::new();
    resource.init();
    assert!(resource.get_mesh("cube").is_some());
    assert!(resource.get_mesh("sphere").is_none());
}

#[test]
fn init_registers_the_fixed_techniques_and_the_cube() {
    let mut resource = Resource::new();
    resource.init();
    assert!(resource.get_pipeline(Technique::HelloTriangle).is_some());
    assert!(resource.get_pipeline(Technique::Cube).is_some());
    assert!(resource.get_pipeline(Technique::Azur).is_none());
    assert_eq!(resource.get_mesh("cube").unwrap().vertex_cnt, 36);
}

#[test]
fn pipeline_registration_happens_once_per_technique() {
    let mut resource = Resource::new();
    let first = resource.get_or_create_pipeline(Technique::Cube);
    let second = resource.get_or_create_pipeline(Technique::Cube);
    assert_eq!(first, second);
    let other = resource.get_or_create_pipeline(Technique::HelloTriangle);
    assert_ne!(first, other);
    assert_eq!(resource.get_pipeline(Technique::Cube), Some(first));
}

#[test]
fn load_render_resource_reuses_the_cached_cube() {
    let mut resource = Resource::new();
    let first = resource.load_render_resource::<Cube>();
    let second = resource.load_render_resource::<Cube>();
    assert_eq!(first, second);
    assert_eq!(first.vertex_cnt, 36);
    assert_eq!(resource.take_uploads().len(), 1);
}

#[test]
fn pipeline_wrapper_fetches_lazily_and_reloads() {
    let mut resource = Resource::new();
    let mut wrapper = PipelineWrapper::new(Technique::Cube);
    let id = wrapper.pipeline(&mut resource);
    assert_eq!(resource.get_pipeline(Technique::Cube), Some(id));
    assert_eq!(wrapper.pipeline(&mut resource), id);
    // Reload drops the slot; the next use finds the same registration.
    wrapper.reload();
    assert_eq!(wrapper.pipeline(&mut resource), id);
    let mut eager = PipelineWrapper::new(Technique::Azur);
    eager.init(&mut resource);
    assert_eq!(eager.pipeline(&mut resource), resource.get_pipeline(Technique::Azur).unwrap());
}
