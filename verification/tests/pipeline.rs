use wgpu_glyph::geometry::Region;
use wgpu_glyph::instance::Instance;
use wgpu_glyph::pipeline::{DepthStencil, Indices, LoadOp, Pipeline, StoreOp};
use wgpu_glyph::resources::{
    AddressMode, BindGroupEntry, BindGroupLayoutEntry, BindingResource, BindingType, BlendComponent,
    BlendFactor, BlendOperation, Cache, ColorWrites, FilterMode, FrontFace, IndexFormat,
    InstanceBuffer, Sampler, ShaderStage, StepMode, Topology, VertexAttribute, VertexFormat,
};
use wgpu_glyph::scalar::Scalar;

fn s(value: f32) -> Scalar {
    Scalar::from_bits(value.to_bits())
}

fn transform(values: [f32; 16]) -> [Scalar; 16] {
    values.map(s)
}

const IDENTITY: [f32; 16] = [
    1.0, 0.0, 0.0, 0.0, //
    0.0, 1.0, 0.0, 0.0, //
    0.0, 0.0, 1.0, 0.0, //
    0.0, 0.0, 0.0, 1.0,
];

const TILTED: [f32; 16] = [
    2.0, 0.0, 0.0, 0.0, //
    0.0, -2.0, 0.0, 0.0, //
    0.0, 0.0, 1.0, 0.0, //
    -1.0, 1.0, 0.0, 1.0,
];

fn instance(seed: f32) -> Instance {
    Instance {
        left_top: [s(seed), s(seed + 1.0), s(seed + 2.0)],
        right_bottom: [s(seed + 3.0), s(seed + 4.0)],
        tex_left_top: [s(seed + 5.0), s(seed + 6.0)],
        tex_right_bottom: [s(seed + 7.0), s(seed + 8.0)],
        color: [s(seed + 9.0), s(seed + 10.0), s(seed + 11.0), s(seed + 12.0)],
    }
}

fn instances(count: usize) -> Vec<Instance> {
    (0..count).map(|i| instance(i as f32)).collect()
}

fn native_bytes(values: &[f32]) -> Vec<u8> {
    values.iter().flat_map(|value| value.to_ne_bytes()).collect()
}

#[test]
fn new_pipeline_has_room_for_fifty_thousand() {
    let pipeline = Pipeline::<()>::new(FilterMode::Linear, 256, 128);
    assert_eq!(Instance::INITIAL_AMOUNT, 50_000);
    assert_eq!(pipeline.supported_instances(), 50_000);
    assert_eq!(pipeline.current_instances(), 0);
    assert_eq!(pipeline.instances(), InstanceBuffer { size: 2_600_000 });
}

#[test]
fn new_pipeline_has_applied_no_transform() {
    let flat = Pipeline::<()>::new(FilterMode::Linear, 256, 128);
    let deep = Pipeline::<DepthStencil>::new(FilterMode::Linear, 256, 128);
    assert_eq!(flat.current_transform(), None);
    assert_eq!(deep.current_transform(), None);
}

#[test]
fn uniform_buffer_starts_as_the_identity() {
    let resources = Pipeline::<()>::new(FilterMode::Linear, 256, 128).resources();
    assert_eq!(resources.transform.contents, transform(IDENTITY));
}

#[test]
fn sampler_clamps_and_filters_as_asked() {
    for filter_mode in [FilterMode::Nearest, FilterMode::Linear] {
        let resources = Pipeline::<()>::new(filter_mode, 256, 128).resources();
        assert_eq!(
            resources.sampler,
            Sampler {
                address_mode_u: AddressMode::ClampToEdge,
                address_mode_v: AddressMode::ClampToEdge,
                address_mode_w: AddressMode::ClampToEdge,
                mag_filter: filter_mode,
                min_filter: filter_mode,
                mipmap_filter: filter_mode,
            }
        );
    }
}

#[test]
fn atlas_has_the_size_asked_for() {
    let resources = Pipeline::<DepthStencil>::new(FilterMode::Nearest, 1024, 2048).resources();
    assert_eq!(resources.cache, Cache { width: 1024, height: 2048 });
}

#[test]
fn resource_group_has_three_bindings() {
    let resources = Pipeline::<()>::new(FilterMode::Linear, 256, 128).resources();
    assert_eq!(
        resources.uniform_layout,
        [
            BindGroupLayoutEntry {
                binding: 0,
                visibility: ShaderStage::Vertex,
                ty: BindingType::UniformBuffer { min_binding_size: 64 },
            },
            BindGroupLayoutEntry {
                binding: 1,
                visibility: ShaderStage::Fragment,
                ty: BindingType::FilteringSampler,
            },
            BindGroupLayoutEntry {
                binding: 2,
                visibility: ShaderStage::Fragment,
                ty: BindingType::FilterableTexture2d,
            },
        ]
    );
    assert_eq!(
        resources.uniforms.entries,
        [
            BindGroupEntry { binding: 0, resource: BindingResource::Transform },
            BindGroupEntry { binding: 1, resource: BindingResource::Sampler },
            BindGroupEntry {
                binding: 2,
                resource: BindingResource::Atlas(Cache { width: 256, height: 128 }),
            },
        ]
    );
}

#[test]
fn render_pipeline_draws_clockwise_strips() {
    let raw = Pipeline::<()>::new(FilterMode::Linear, 256, 128).resources().raw;
    assert_eq!(raw.topology, Topology::TriangleStrip);
    assert_eq!(raw.front_face, FrontFace::Cw);
    assert_eq!(raw.strip_index_format, Some(IndexFormat::Uint16));
    assert_eq!(
        raw.write_mask,
        ColorWrites { red: true, green: true, blue: true, alpha: true }
    );
}

#[test]
fn render_pipeline_composites_by_alpha() {
    let blend = Pipeline::<()>::new(FilterMode::Linear, 256, 128).resources().raw.blend;
    assert_eq!(
        blend.color,
        BlendComponent {
            src_factor: BlendFactor::SrcAlpha,
            dst_factor: BlendFactor::OneMinusSrcAlpha,
            operation: BlendOperation::Add,
        }
    );
    assert_eq!(
        blend.alpha,
        BlendComponent {
            src_factor: BlendFactor::One,
            dst_factor: BlendFactor::OneMinusSrcAlpha,
            operation: BlendOperation::Add,
        }
    );
}

#[test]
fn instance_attributes_follow_one_another() {
    let buffer = Pipeline::<()>::new(FilterMode::Linear, 256, 128).resources().raw.buffer;
    assert_eq!(buffer.array_stride, 52);
    assert_eq!(buffer.step_mode, StepMode::Instance);
    assert_eq!(
        buffer.attributes,
        [
            VertexAttribute { format: VertexFormat::Float32x3, offset: 0, shader_location: 0 },
            VertexAttribute { format: VertexFormat::Float32x2, offset: 12, shader_location: 1 },
            VertexAttribute { format: VertexFormat::Float32x2, offset: 20, shader_location: 2 },
            VertexAttribute { format: VertexFormat::Float32x2, offset: 28, shader_location: 3 },
            VertexAttribute { format: VertexFormat::Float32x4, offset: 36, shader_location: 4 },
        ]
    );
}

#[test]
fn depth_mode_goes_into_pipeline_and_pass() {
    let mut flat = Pipeline::<()>::new(FilterMode::Linear, 256, 128);
    let mut deep = Pipeline::<DepthStencil>::new(FilterMode::Linear, 256, 128);
    assert!(!flat.resources().raw.depth_stencil);
    assert!(deep.resources().raw.depth_stencil);
    assert!(!flat.draw(transform(IDENTITY), None).pass.depth_stencil);
    assert!(deep.draw(transform(IDENTITY), None).pass.depth_stencil);
}

#[test]
fn empty_upload_then_draw_draws_no_instance() {
    let mut pipeline = Pipeline::<()>::new(FilterMode::Linear, 256, 128);
    let upload = pipeline.upload(&[]);
    assert_eq!(upload.buffer, None);
    assert_eq!(upload.data, None);
    assert_eq!(pipeline.supported_instances(), 50_000);
    assert_eq!(pipeline.instances(), InstanceBuffer { size: 2_600_000 });
    let draw = pipeline.draw(transform(IDENTITY), None);
    assert_eq!(draw.pass.instances, Indices { start: 0, end: 0 });
    assert_eq!(draw.pass.vertices, Indices { start: 0, end: 4 });
}

#[test]
fn empty_upload_after_a_full_one_resets_the_count() {
    let mut pipeline = Pipeline::<()>::new(FilterMode::Linear, 256, 128);
    pipeline.upload(&instances(3));
    assert_eq!(pipeline.current_instances(), 3);
    let upload = pipeline.upload(&[]);
    assert_eq!(upload.buffer, None);
    assert_eq!(upload.data, None);
    assert_eq!(pipeline.current_instances(), 0);
    assert_eq!(pipeline.draw(transform(IDENTITY), None).pass.instances.end, 0);
}

#[test]
fn upload_within_room_keeps_the_buffer() {
    let mut pipeline = Pipeline::<()>::new(FilterMode::Linear, 256, 128);
    let upload = pipeline.upload(&instances(50_000));
    assert_eq!(upload.buffer, None);
    assert_eq!(upload.data.map(|bytes| bytes.len()), Some(2_600_000));
    assert_eq!(pipeline.current_instances(), 50_000);
    assert_eq!(pipeline.supported_instances(), 50_000);
}

#[test]
fn upload_beyond_room_grows_to_exactly_that_many() {
    let mut pipeline = Pipeline::<()>::new(FilterMode::Linear, 256, 128);
    let upload = pipeline.upload(&instances(50_001));
    assert_eq!(upload.buffer, Some(InstanceBuffer { size: 52 * 50_001 }));
    assert_eq!(pipeline.supported_instances(), 50_001);
    assert_eq!(pipeline.current_instances(), 50_001);
    let upload = pipeline.upload(&instances(10));
    assert_eq!(upload.buffer, None);
    assert_eq!(pipeline.supported_instances(), 50_001);
    assert_eq!(pipeline.instances(), InstanceBuffer { size: 52 * 50_001 });
    assert_eq!(pipeline.current_instances(), 10);
}

#[test]
fn sixty_thousand_instances_reallocate_once() {
    let mut pipeline = Pipeline::<()>::new(FilterMode::Linear, 256, 128);
    assert_eq!(pipeline.supported_instances(), 50_000);
    let batch = instances(60_000);
    let upload = pipeline.upload(&batch);
    assert_eq!(upload.buffer, Some(InstanceBuffer { size: 3_120_000 }));
    assert_eq!(pipeline.supported_instances(), 60_000);
    assert_eq!(pipeline.instances(), InstanceBuffer { size: 3_120_000 });
    let again = pipeline.upload(&batch);
    assert_eq!(again.buffer, None);
    assert_eq!(pipeline.supported_instances(), 60_000);
    assert_eq!(pipeline.draw(transform(IDENTITY), None).pass.instances.end, 60_000);
}

#[test]
fn upload_stages_the_fields_in_order() {
    let mut pipeline = Pipeline::<()>::new(FilterMode::Linear, 256, 128);
    let upload = pipeline.upload(&[instance(1.0), instance(100.0)]);
    let expected = native_bytes(&[
        1.0, 2.0, 3.0, 4.0, 5.0, 6.0, 7.0, 8.0, 9.0, 10.0, 11.0, 12.0, 13.0, //
        100.0, 101.0, 102.0, 103.0, 104.0, 105.0, 106.0, 107.0, 108.0, 109.0, 110.0, 111.0, 112.0,
    ]);
    assert_eq!(expected.len(), 104);
    assert_eq!(upload.data, Some(expected));
}

#[test]
fn draw_writes_a_transform_once() {
    let mut pipeline = Pipeline::<()>::new(FilterMode::Linear, 256, 128);
    let first = pipeline.draw(transform(IDENTITY), None);
    assert_eq!(first.transform, Some(native_bytes(&IDENTITY)));
    assert_eq!(pipeline.current_transform(), Some(transform(IDENTITY)));
    let second = pipeline.draw(transform(IDENTITY), None);
    assert_eq!(second.transform, None);
    let third = pipeline.draw(transform(TILTED), None);
    assert_eq!(third.transform, Some(native_bytes(&TILTED)));
    assert_eq!(pipeline.current_transform(), Some(transform(TILTED)));
    let fourth = pipeline.draw(transform(IDENTITY), None);
    assert_eq!(fourth.transform.map(|bytes| bytes.len()), Some(64));
}

#[test]
fn first_draw_with_the_zero_transform_writes_sixteen_zeros() {
    let mut pipeline = Pipeline::<()>::new(FilterMode::Linear, 256, 128);
    let first = pipeline.draw(transform([0.0; 16]), None);
    assert_eq!(first.transform, Some(vec![0u8; 64]));
    assert_eq!(pipeline.current_transform(), Some(transform([0.0; 16])));
    let second = pipeline.draw(transform([0.0; 16]), None);
    assert_eq!(second.transform, None);
}

#[test]
fn first_draw_with_the_identity_writes_it() {
    let mut pipeline = Pipeline::<DepthStencil>::new(FilterMode::Linear, 256, 128);
    let first = pipeline.draw(transform(IDENTITY), None);
    assert_eq!(first.transform, Some(native_bytes(&IDENTITY)));
    let second = pipeline.draw(transform(IDENTITY), None);
    assert_eq!(second.transform, None);
}

#[test]
fn transforms_are_told_apart_by_their_bits() {
    let mut pipeline = Pipeline::<()>::new(FilterMode::Linear, 256, 128);
    pipeline.draw(transform([0.0; 16]), None);
    let mut negative_zero = [0.0f32; 16];
    negative_zero[7] = -0.0;
    let draw = pipeline.draw(transform(negative_zero), None);
    assert_eq!(draw.transform, Some(native_bytes(&negative_zero)));
    assert_eq!(pipeline.draw(transform(negative_zero), None).transform, None);

    let mut with_nan = IDENTITY;
    with_nan[3] = f32::NAN;
    assert!(pipeline.draw(transform(with_nan), None).transform.is_some());
    assert_eq!(pipeline.draw(transform(with_nan), None).transform, None);
}

#[test]
fn draw_keeps_what_the_target_holds() {
    let mut pipeline = Pipeline::<()>::new(FilterMode::Linear, 256, 128);
    let pass = pipeline.draw(transform(IDENTITY), None).pass;
    assert_eq!(pass.load, LoadOp::Load);
    assert_eq!(pass.store, StoreOp::Store);
    assert_eq!(pass.bind_group, 0);
    assert_eq!(pass.vertex_buffer, 0);
    assert_eq!(pass.scissor, None);
}

#[test]
fn draw_confines_itself_to_the_region() {
    let mut pipeline = Pipeline::<()>::new(FilterMode::Linear, 256, 128);
    pipeline.upload(&instances(7));
    let region = Region { x: 40, y: 105, width: 200, height: 15 };
    let pass = pipeline.draw(transform(IDENTITY), Some(region)).pass;
    assert_eq!(pass.scissor, Some(region));
    assert_eq!(pass.vertices, Indices { start: 0, end: 4 });
    assert_eq!(pass.instances, Indices { start: 0, end: 7 });
}

#[test]
fn draw_leaves_the_counts_alone() {
    let mut pipeline = Pipeline::<()>::new(FilterMode::Linear, 256, 128);
    pipeline.upload(&instances(50_002));
    pipeline.upload(&instances(5));
    pipeline.draw(transform(TILTED), None);
    assert_eq!(pipeline.current_instances(), 5);
    assert_eq!(pipeline.supported_instances(), 50_002);
    assert_eq!(pipeline.instances(), InstanceBuffer { size: 52 * 50_002 });
}

#[test]
fn upload_leaves_the_transform_alone() {
    let mut pipeline = Pipeline::<()>::new(FilterMode::Linear, 256, 128);
    pipeline.draw(transform(TILTED), None);
    pipeline.upload(&instances(50_002));
    assert_eq!(pipeline.current_transform(), Some(transform(TILTED)));
    assert_eq!(pipeline.draw(transform(TILTED), None).transform, None);
}

#[test]
fn larger_atlas_is_bound_anew() {
    let mut pipeline = Pipeline::<DepthStencil>::new(FilterMode::Nearest, 256, 128);
    pipeline.upload(&instances(50_003));
    pipeline.draw(transform(TILTED), None);
    let before = pipeline.resources();
    assert_eq!(pipeline.draw(transform(TILTED), None).transform, None);
    pipeline.increase_cache_size(512, 1024);
    let after = pipeline.resources();
    assert_eq!(after.cache, Cache { width: 512, height: 1024 });
    assert_eq!(
        after.uniforms.entries[2],
        BindGroupEntry {
            binding: 2,
            resource: BindingResource::Atlas(Cache { width: 512, height: 1024 }),
        }
    );
    assert_eq!(after.uniforms.entries[0], before.uniforms.entries[0]);
    assert_eq!(after.uniforms.entries[1], before.uniforms.entries[1]);
    assert_eq!(after.sampler, before.sampler);
    assert_eq!(after.uniform_layout, before.uniform_layout);
    assert_eq!(after.raw, before.raw);
    assert_eq!(after.transform, before.transform);
    assert_eq!(pipeline.supported_instances(), 50_003);
    assert_eq!(pipeline.current_instances(), 50_003);
    assert_eq!(pipeline.current_transform(), Some(transform(TILTED)));
}

#[test]
fn larger_atlas_before_the_first_draw_leaves_the_transform_unapplied() {
    let mut pipeline = Pipeline::<()>::new(FilterMode::Linear, 256, 128);
    pipeline.increase_cache_size(512, 512);
    assert_eq!(pipeline.current_transform(), None);
    assert_eq!(pipeline.resources().transform.contents, transform(IDENTITY));
    assert_eq!(pipeline.draw(transform([0.0; 16]), None).transform, Some(vec![0u8; 64]));
}

#[test]
fn upload_before_the_first_draw_leaves_the_transform_unapplied() {
    let mut pipeline = Pipeline::<()>::new(FilterMode::Linear, 256, 128);
    pipeline.upload(&instances(2));
    assert_eq!(pipeline.current_transform(), None);
    assert_eq!(pipeline.draw(transform(IDENTITY), None).transform, Some(native_bytes(&IDENTITY)));
}
