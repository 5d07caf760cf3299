//! The pipeline's state, and what each upload and each draw asks of the
//! device.
//!
//! A [`Pipeline`] holds no GPU handle. It holds the descriptions of its
//! resources, the instance counts and the transform that was last applied,
//! and it answers each call with the work that is left for the device: a
//! buffer to create, bytes to stage, a render pass to record.

use core::marker::PhantomData;
use vstd::prelude::*;
use crate::geometry::Region;
use crate::instance::Instance;
use crate::resources::{
    create_uniforms, identity, identity_matrix, instance_layout, AddressMode, BindGroupLayoutEntry,
    BindingType, BlendComponent, BlendFactor, BlendOperation, BlendState, Cache, ColorWrites,
    FilterMode, FrontFace, IndexFormat, InstanceBuffer, RenderPipeline, Resources, Sampler,
    ShaderStage, Topology, UniformBuffer,
};
use crate::scalar::Scalar;
use crate::wire::{
    bits_of, flatten, instance_bytes, is_image, transform_bytes, INSTANCE_SIZE, TRANSFORM_SIZE,
    TRANSFORM_WORDS,
};

verus! {

/// Marks a pipeline that was built with depth-stencil state and draws with a
/// depth-stencil attachment. A pipeline marked `()` has neither.
#[derive(Clone, Copy, Debug)]
pub struct DepthStencil;

/// What a render pass does with the target's contents when it begins.
#[derive(Clone, Copy, Debug, PartialEq, Eq, Structural)]
pub enum LoadOp {
    Clear,
    Load,
}

/// What a render pass does with its results when it ends.
#[derive(Clone, Copy, Debug, PartialEq, Eq, Structural)]
pub enum StoreOp {
    Store,
    Discard,
}

/// A run of indices, from `start` up to `end` without it.
#[derive(Clone, Copy, Debug, PartialEq, Eq, Structural)]
pub struct Indices {
    pub start: u32,
    pub end: u32,
}

/// The render pass of one draw and the one draw call in it.
#[derive(Clone, Copy, Debug, PartialEq, Eq, Structural)]
pub struct RenderPass {
    pub load: LoadOp,
    pub store: StoreOp,
    /// Whether the pass takes a depth-stencil attachment.
    pub depth_stencil: bool,
    /// The index at which the resource group is bound.
    pub bind_group: u32,
    /// The slot at which the whole instance buffer is bound.
    pub vertex_buffer: u32,
    /// The rectangle that drawing is confined to, if any.
    pub scissor: Option<Region>,
    pub vertices: Indices,
    pub instances: Indices,
}

/// What a draw asks of the device.
#[derive(Debug, PartialEq, Eq)]
pub struct Draw {
    /// The bytes to stage into the transform buffer, from its first byte,
    /// before the pass. `None`: the buffer holds the transform already.
    pub transform: Option<Vec<u8>>,
    pub pass: RenderPass,
}

/// What an upload asks of the device.
#[derive(Debug, PartialEq, Eq)]
pub struct Upload {
    /// The buffer to create in place of the instance buffer, which is
    /// released. `None`: the instance buffer is kept.
    pub buffer: Option<InstanceBuffer>,
    /// The bytes to stage into the instance buffer, from its first byte.
    /// `None`: there is nothing to write.
    pub data: Option<Vec<u8>>,
}

/// The long-lived state of glyph drawing.
pub struct Pipeline<Depth> {
    resources: Resources,
    instances: InstanceBuffer,
    current_instances: usize,
    supported_instances: usize,
    current_transform: Option<[Scalar; 16]>,
    depth: PhantomData<Depth>,
}

/// A pipeline as contracts see it.
pub struct PipelineView {
    pub resources: Resources,
    pub instances: InstanceBuffer,
    /// How many instances the next draw draws.
    pub current_instances: nat,
    /// How many instances the instance buffer has room for.
    pub supported_instances: nat,
    /// The transform that the last draw applied. `None`: no draw has applied
    /// one yet, and the transform buffer holds what it was created with.
    pub current_transform: Option<Seq<Scalar>>,
}

impl PipelineView {
    /// What holds of every pipeline: the instance buffer has room for the
    /// instances that are drawn, it never has less room than a new one, and
    /// its size is that room in bytes.
    pub open spec fn wf(self) -> bool {
        &&& self.resources.wf()
        &&& self.current_instances <= self.supported_instances
        &&& Instance::INITIAL_AMOUNT <= self.supported_instances
        &&& self.supported_instances * INSTANCE_SIZE <= usize::MAX
        &&& self.instances.size == self.supported_instances * INSTANCE_SIZE
        &&& self.current_transform matches Some(transform) ==> transform.len() == 16
    }

    /// Whether an upload of `count` instances needs a larger buffer.
    pub open spec fn grows(self, count: nat) -> bool {
        count > self.supported_instances
    }

    /// The pipeline after an upload of `count` instances.
    pub open spec fn uploaded(self, count: nat) -> PipelineView {
        if self.grows(count) {
            PipelineView {
                instances: InstanceBuffer { size: (count * INSTANCE_SIZE) as u64 },
                current_instances: count,
                supported_instances: count,
                ..self
            }
        } else {
            PipelineView { current_instances: count, ..self }
        }
    }

    /// Whether a draw with `transform` has to write the transform buffer: no
    /// draw has applied a transform yet, or the last applied one differs from
    /// it in some bit.
    pub open spec fn is_stale(self, transform: Seq<Scalar>) -> bool {
        self.current_transform != Some(transform)
    }

    /// The pipeline after a draw with `transform`.
    pub open spec fn drawn(self, transform: Seq<Scalar>) -> PipelineView {
        PipelineView { current_transform: Some(transform), ..self }
    }

    /// The transform that the transform buffer holds: the one that the last
    /// draw applied, or, before the first draw, the one that the buffer was
    /// created with.
    pub open spec fn held_transform(self) -> Seq<Scalar> {
        match self.current_transform {
            Some(transform) => transform,
            None => self.resources.transform.contents@,
        }
    }

    /// The render pass of a draw: it keeps what the target holds and stores
    /// what it draws, binds the resource group at index 0 and the instance
    /// buffer at slot 0, and draws four vertices for each current instance.
    pub open spec fn pass(self, depth_stencil: bool, region: Option<Region>) -> RenderPass {
        RenderPass {
            load: LoadOp::Load,
            store: StoreOp::Store,
            depth_stencil,
            bind_group: 0,
            vertex_buffer: 0,
            scissor: region,
            vertices: Indices { start: 0, end: 4 },
            instances: Indices { start: 0, end: self.current_instances as u32 },
        }
    }

    /// Whether `next` is this pipeline after its atlas was replaced by one of
    /// `width` by `height`: the resource group binds the new atlas, and
    /// nothing else has changed.
    pub open spec fn resizes_to(self, width: u32, height: u32, next: PipelineView) -> bool {
        &&& next.resources.cache == (Cache { width, height })
        &&& next.resources.uniforms.binds(next.resources.cache)
        &&& next.resources.transform == self.resources.transform
        &&& next.resources.sampler == self.resources.sampler
        &&& next.resources.uniform_layout == self.resources.uniform_layout
        &&& next.resources.raw == self.resources.raw
        &&& next.instances == self.instances
        &&& next.current_instances == self.current_instances
        &&& next.supported_instances == self.supported_instances
        &&& next.current_transform == self.current_transform
    }
}

impl<Depth> View for Pipeline<Depth> {
    type V = PipelineView;

    closed spec fn view(&self) -> PipelineView {
        PipelineView {
            resources: self.resources,
            instances: self.instances,
            current_instances: self.current_instances as nat,
            supported_instances: self.supported_instances as nat,
            current_transform: match self.current_transform {
                Some(transform) => Some(transform@),
                None => None,
            },
        }
    }
}

/// Whether two transforms agree in every bit.
fn same_transform(a: &[Scalar; 16], b: &[Scalar; 16]) -> (same: bool)
    ensures
        same == (a@ == b@),
{
    let mut i: usize = 0;
    while i < TRANSFORM_WORDS
        invariant
            i <= TRANSFORM_WORDS,
            forall|k: int| 0 <= k < i ==> a@[k] == b@[k],
        decreases TRANSFORM_WORDS - i,
    {
        if a[i] != b[i] {
            return false;
        }
        i += 1;
    }
    assert(a@ =~= b@);
    true
}

/// Describes the resources of a new pipeline and sets its state.
fn build<Depth>(
    filter_mode: FilterMode,
    depth_stencil: bool,
    cache_width: u32,
    cache_height: u32,
) -> (pipeline: Pipeline<Depth>)
    ensures
        pipeline@.wf(),
        pipeline@.resources.built(
            filter_mode,
            depth_stencil,
            Cache { width: cache_width, height: cache_height },
        ),
        pipeline@.instances.size == Instance::INITIAL_AMOUNT * INSTANCE_SIZE,
        pipeline@.current_instances == 0,
        pipeline@.supported_instances == Instance::INITIAL_AMOUNT,
        pipeline@.current_transform is None,
{
    let transform = UniformBuffer { contents: identity_matrix() };

    let sampler = Sampler {
        address_mode_u: AddressMode::ClampToEdge,
        address_mode_v: AddressMode::ClampToEdge,
        address_mode_w: AddressMode::ClampToEdge,
        mag_filter: filter_mode,
        min_filter: filter_mode,
        mipmap_filter: filter_mode,
    };

    let cache = Cache { width: cache_width, height: cache_height };

    let uniform_layout: [BindGroupLayoutEntry; 3] = [
        BindGroupLayoutEntry {
            binding: 0,
            visibility: ShaderStage::Vertex,
            ty: BindingType::UniformBuffer { min_binding_size: TRANSFORM_SIZE as u64 },
        },
        BindGroupLayoutEntry {
            binding: 1,
            visibility: ShaderStage::Fragment,
            ty: BindingType::FilteringSampler,
        },
        BindGroupLayoutEntry {
            binding: 2,
            visibility: ShaderStage::Fragment,
            ty: BindingType::FilterableTexture2d,
        },
    ];

    let uniforms = create_uniforms(cache);

    let instances = InstanceBuffer {
        size: (INSTANCE_SIZE as u64) * (Instance::INITIAL_AMOUNT as u64),
    };

    let raw = RenderPipeline {
        buffer: instance_layout(),
        topology: Topology::TriangleStrip,
        front_face: FrontFace::Cw,
        strip_index_format: Some(IndexFormat::Uint16),
        depth_stencil,
        blend: BlendState {
            color: BlendComponent {
                src_factor: BlendFactor::SrcAlpha,
                dst_factor: BlendFactor::OneMinusSrcAlpha,
                operation: BlendOperation::Add,
            },
            alpha: BlendComponent {
                src_factor: BlendFactor::One,
                dst_factor: BlendFactor::OneMinusSrcAlpha,
                operation: BlendOperation::Add,
            },
        },
        write_mask: ColorWrites { red: true, green: true, blue: true, alpha: true },
    };

    Pipeline {
        resources: Resources { transform, sampler, cache, uniform_layout, uniforms, raw },
        instances,
        current_instances: 0,
        supported_instances: Instance::INITIAL_AMOUNT,
        current_transform: None,
        depth: PhantomData,
    }
}

/// Decides what one draw asks of the device.
fn draw<Depth>(
    pipeline: &mut Pipeline<Depth>,
    depth_stencil: bool,
    transform: [Scalar; 16],
    region: Option<Region>,
) -> (draw: Draw)
    requires
        old(pipeline)@.wf(),
    ensures
        final(pipeline)@.wf(),
        final(pipeline)@ == old(pipeline)@.drawn(transform@),
        draw.transform is Some <==> old(pipeline)@.is_stale(transform@),
        draw.transform matches Some(bytes) ==> is_image(bits_of(transform@), bytes@),
        draw.pass == old(pipeline)@.pass(depth_stencil, region),
{
    let mut staged: Option<Vec<u8>> = None;
    let stale = match pipeline.current_transform {
        Some(current) => !same_transform(&transform, &current),
        None => true,
    };
    if stale {
        staged = Some(transform_bytes(&transform));
        pipeline.current_transform = Some(transform);
    }
    let pass = RenderPass {
        load: LoadOp::Load,
        store: StoreOp::Store,
        depth_stencil,
        bind_group: 0,
        vertex_buffer: 0,
        scissor: region,
        vertices: Indices { start: 0, end: 4 },
        instances: Indices {
            start: 0,
            end: #[verifier::truncate]
            (pipeline.current_instances as u32),
        },
    };
    Draw { transform: staged, pass }
}

impl Pipeline<()> {
    /// A pipeline without depth-stencil state, with an atlas of
    /// `cache_width` by `cache_height` texels and room for
    /// [`Instance::INITIAL_AMOUNT`] instances.
    pub fn new(filter_mode: FilterMode, cache_width: u32, cache_height: u32) -> (pipeline: Pipeline<
        (),
    >)
        ensures
            pipeline@.wf(),
            pipeline@.resources.built(
                filter_mode,
                false,
                Cache { width: cache_width, height: cache_height },
            ),
            pipeline@.instances.size == Instance::INITIAL_AMOUNT * INSTANCE_SIZE,
            pipeline@.current_instances == 0,
            pipeline@.supported_instances == Instance::INITIAL_AMOUNT,
            pipeline@.current_transform is None,
    {
        build(filter_mode, false, cache_width, cache_height)
    }

    /// Draws the current instances under `transform`, within `region` if one
    /// is given, in a pass without a depth-stencil attachment.
    ///
    /// The transform buffer is written by the first draw of a pipeline, and
    /// after it only if `transform` differs in some bit from the one that
    /// the draw before applied.
    pub fn draw(&mut self, transform: [Scalar; 16], region: Option<Region>) -> (draw: Draw)
        requires
            old(self)@.wf(),
        ensures
            final(self)@.wf(),
            final(self)@ == old(self)@.drawn(transform@),
            draw.transform is Some <==> old(self)@.is_stale(transform@),
            draw.transform matches Some(bytes) ==> is_image(bits_of(transform@), bytes@),
            draw.pass == old(self)@.pass(false, region),
    {
        self::draw(self, false, transform, region)
    }
}

impl Pipeline<DepthStencil> {
    /// A pipeline with depth-stencil state, with an atlas of `cache_width`
    /// by `cache_height` texels and room for [`Instance::INITIAL_AMOUNT`]
    /// instances.
    pub fn new(filter_mode: FilterMode, cache_width: u32, cache_height: u32) -> (pipeline: Pipeline<
        DepthStencil,
    >)
        ensures
            pipeline@.wf(),
            pipeline@.resources.built(
                filter_mode,
                true,
                Cache { width: cache_width, height: cache_height },
            ),
            pipeline@.instances.size == Instance::INITIAL_AMOUNT * INSTANCE_SIZE,
            pipeline@.current_instances == 0,
            pipeline@.supported_instances == Instance::INITIAL_AMOUNT,
            pipeline@.current_transform is None,
    {
        build(filter_mode, true, cache_width, cache_height)
    }

    /// Draws the current instances under `transform`, within `region` if one
    /// is given, in a pass with a depth-stencil attachment.
    ///
    /// The transform buffer is written by the first draw of a pipeline, and
    /// after it only if `transform` differs in some bit from the one that
    /// the draw before applied.
    pub fn draw(&mut self, transform: [Scalar; 16], region: Option<Region>) -> (draw: Draw)
        requires
            old(self)@.wf(),
        ensures
            final(self)@.wf(),
            final(self)@ == old(self)@.drawn(transform@),
            draw.transform is Some <==> old(self)@.is_stale(transform@),
            draw.transform matches Some(bytes) ==> is_image(bits_of(transform@), bytes@),
            draw.pass == old(self)@.pass(true, region),
    {
        self::draw(self, true, transform, region)
    }
}

impl<Depth> Pipeline<Depth> {
    /// Replaces the atlas by one of `width` by `height` texels and binds the
    /// resource group anew, to the new atlas. What the old atlas held is
    /// gone. Counts, instance buffer and last applied transform stay.
    pub fn increase_cache_size(&mut self, width: u32, height: u32)
        requires
            old(self)@.wf(),
        ensures
            final(self)@.wf(),
            old(self)@.resizes_to(width, height, final(self)@),
    {
        self.resources.cache = Cache { width, height };
        self.resources.uniforms = create_uniforms(self.resources.cache);
    }

    /// Makes `instances` the instances that the next draw draws.
    ///
    /// Where they are more than the instance buffer has room for, a buffer
    /// for exactly that many takes its place; it never gets smaller. The
    /// instances go to the start of the buffer as bytes. No instances: no
    /// buffer and no bytes.
    pub fn upload(&mut self, instances: &[Instance]) -> (upload: Upload)
        requires
            old(self)@.wf(),
            instances@.len() * INSTANCE_SIZE <= usize::MAX,
        ensures
            final(self)@.wf(),
            final(self)@ == old(self)@.uploaded(instances@.len()),
            upload.buffer == if old(self)@.grows(instances@.len()) {
                Some(final(self)@.instances)
            } else {
                None
            },
            upload.data is Some <==> instances@.len() > 0,
            upload.data matches Some(bytes) ==> is_image(flatten(instances@), bytes@),
    {
        if instances.is_empty() {
            self.current_instances = 0;
            return Upload { buffer: None, data: None };
        }
        let mut buffer: Option<InstanceBuffer> = None;
        if instances.len() > self.supported_instances {
            assert(INSTANCE_SIZE * instances@.len() <= usize::MAX <= u64::MAX);
            self.instances = InstanceBuffer {
                size: (INSTANCE_SIZE as u64) * (instances.len() as u64),
            };
            buffer = Some(self.instances);
            self.supported_instances = instances.len();
        }
        let bytes = instance_bytes(instances);
        let data = if bytes.len() > 0 {
            Some(bytes)
        } else {
            None
        };
        self.current_instances = instances.len();
        Upload { buffer, data }
    }

    /// What the pipeline's resources are created with.
    pub fn resources(&self) -> (resources: Resources)
        ensures
            resources == self@.resources,
    {
        self.resources
    }

    /// What the instance buffer is created with.
    pub fn instances(&self) -> (instances: InstanceBuffer)
        ensures
            instances == self@.instances,
    {
        self.instances
    }

    /// How many instances the next draw draws.
    pub fn current_instances(&self) -> (count: usize)
        ensures
            count == self@.current_instances,
    {
        self.current_instances
    }

    /// How many instances the instance buffer has room for.
    pub fn supported_instances(&self) -> (count: usize)
        ensures
            count == self@.supported_instances,
    {
        self.supported_instances
    }

    /// The transform that the last draw applied, if there was a draw.
    pub fn current_transform(&self) -> (transform: Option<[Scalar; 16]>)
        ensures
            match transform {
                Some(applied) => self@.current_transform == Some(applied@),
                None => self@.current_transform is None,
            },
    {
        self.current_transform
    }
}

/// An upload keeps a pipeline well formed, makes its instances the current
/// ones, and never takes room from the instance buffer.
pub proof fn upload_never_shrinks(pipeline: PipelineView, count: nat)
    requires
        pipeline.wf(),
        count * INSTANCE_SIZE <= usize::MAX,
    ensures
        pipeline.uploaded(count).wf(),
        pipeline.uploaded(count).current_instances == count,
        pipeline.uploaded(count).supported_instances >= pipeline.supported_instances,
        pipeline.uploaded(count).instances.size >= pipeline.instances.size,
        pipeline.uploaded(count).resources == pipeline.resources,
        pipeline.uploaded(count).current_transform == pipeline.current_transform,
{
}

/// An upload of no instances asks for no buffer and leaves the buffer's room
/// as it was, and the draw after it draws no instance.
pub proof fn empty_upload_draws_nothing(
    pipeline: PipelineView,
    depth_stencil: bool,
    region: Option<Region>,
)
    requires
        pipeline.wf(),
    ensures
        !pipeline.grows(0),
        pipeline.uploaded(0).instances == pipeline.instances,
        pipeline.uploaded(0).supported_instances == pipeline.supported_instances,
        pipeline.uploaded(0).pass(depth_stencil, region).instances == (Indices {
            start: 0,
            end: 0,
        }),
{
}

/// An upload of more instances than the buffer has room for makes room for
/// exactly that many, and an upload of fewer after it leaves that room as it
/// is.
pub proof fn room_grows_and_stays(pipeline: PipelineView, first: nat, second: nat)
    requires
        pipeline.wf(),
        first > pipeline.supported_instances,
        second < first,
    ensures
        pipeline.grows(first),
        pipeline.uploaded(first).supported_instances == first,
        !pipeline.uploaded(first).grows(second),
        pipeline.uploaded(first).uploaded(second).supported_instances == first,
        pipeline.uploaded(first).uploaded(second).instances == pipeline.uploaded(first).instances,
        pipeline.uploaded(first).uploaded(second).current_instances == second,
{
}

/// Of two draws with one transform, where the first has to write it, the
/// second does not; a third draw with another transform writes again. A draw
/// changes nothing but the last applied transform.
pub proof fn transform_is_written_once(
    pipeline: PipelineView,
    transform: Seq<Scalar>,
    other: Seq<Scalar>,
)
    requires
        pipeline.wf(),
        transform.len() == 16,
        pipeline.is_stale(transform),
        other != transform,
    ensures
        pipeline.drawn(transform).wf(),
        !pipeline.drawn(transform).is_stale(transform),
        pipeline.drawn(transform).drawn(transform) == pipeline.drawn(transform),
        pipeline.drawn(transform).drawn(transform).is_stale(other),
        pipeline.drawn(transform) == (PipelineView {
            current_transform: Some(transform),
            ..pipeline
        }),
{
}

/// The first draw of a pipeline writes its transform, whatever the transform
/// is; a second draw with the same transform writes nothing, and a third
/// with another one writes again.
pub proof fn first_draw_writes_its_transform(
    pipeline: PipelineView,
    transform: Seq<Scalar>,
    other: Seq<Scalar>,
)
    requires
        pipeline.wf(),
        pipeline.current_transform is None,
        transform.len() == 16,
        other != transform,
    ensures
        pipeline.is_stale(transform),
        !pipeline.drawn(transform).is_stale(transform),
        pipeline.drawn(transform).drawn(transform).is_stale(other),
{
}

/// After a draw the transform buffer holds the transform that was asked for:
/// the draw has written it, or the buffer held it already. Before the first
/// draw the buffer holds the identity.
pub proof fn buffer_holds_the_transform_drawn_with(pipeline: PipelineView, transform: Seq<Scalar>)
    requires
        pipeline.wf(),
        transform.len() == 16,
    ensures
        !pipeline.is_stale(transform) ==> pipeline.held_transform() == transform,
        pipeline.drawn(transform).held_transform() == transform,
        pipeline.current_transform is None ==> pipeline.held_transform() == identity(),
{
}

} // verus!
