//! Descriptions of the GPU resources that the pipeline is made of.
//!
//! Nothing here touches a device. Each type says what a resource is created
//! with; whoever owns the device creates it from the description.

use vstd::prelude::*;
use crate::instance::Instance;
use crate::scalar::Scalar;
use crate::wire::{
    big_endian_image, bits_of, flatten, little_endian_image, INSTANCE_SIZE, TRANSFORM_SIZE,
    WORD_SIZE,
};

verus! {

/// The bit pattern of `0.0`.
pub const ZERO_BITS: u32 = 0;

/// The bit pattern of `1.0`.
pub const ONE_BITS: u32 = 0x3f80_0000;

/// How a texture is sampled between texels.
#[derive(Clone, Copy, Debug, PartialEq, Eq, Structural)]
pub enum FilterMode {
    Nearest,
    Linear,
}

/// What a sampler does with a coordinate outside the texture.
#[derive(Clone, Copy, Debug, PartialEq, Eq, Structural)]
pub enum AddressMode {
    ClampToEdge,
    Repeat,
    MirrorRepeat,
}

/// The sampler that reads the glyph atlas.
#[derive(Clone, Copy, Debug, PartialEq, Eq, Structural)]
pub struct Sampler {
    pub address_mode_u: AddressMode,
    pub address_mode_v: AddressMode,
    pub address_mode_w: AddressMode,
    pub mag_filter: FilterMode,
    pub min_filter: FilterMode,
    pub mipmap_filter: FilterMode,
}

/// The glyph atlas: a texture of `width` by `height` texels.
#[derive(Clone, Copy, Debug, PartialEq, Eq, Structural)]
pub struct Cache {
    pub width: u32,
    pub height: u32,
}

/// The uniform buffer of the transform, with the matrix that it holds when it
/// is created.
#[derive(Clone, Copy, Debug, PartialEq, Eq)]
pub struct UniformBuffer {
    pub contents: [Scalar; 16],
}

/// The buffer of instances, `size` bytes long.
#[derive(Clone, Copy, Debug, PartialEq, Eq, Structural)]
pub struct InstanceBuffer {
    pub size: u64,
}

/// The shader stage that sees a binding.
#[derive(Clone, Copy, Debug, PartialEq, Eq, Structural)]
pub enum ShaderStage {
    Vertex,
    Fragment,
}

/// What kind of resource a binding takes.
#[derive(Clone, Copy, Debug, PartialEq, Eq, Structural)]
pub enum BindingType {
    /// A uniform buffer of at least `min_binding_size` bytes, bound without a
    /// dynamic offset.
    UniformBuffer { min_binding_size: u64 },
    /// A sampler that may filter.
    FilteringSampler,
    /// A two-dimensional texture of filterable floats, not multisampled.
    FilterableTexture2d,
}

/// One binding of the resource group's layout.
#[derive(Clone, Copy, Debug, PartialEq, Eq, Structural)]
pub struct BindGroupLayoutEntry {
    pub binding: u32,
    pub visibility: ShaderStage,
    pub ty: BindingType,
}

/// A resource of the pipeline that a binding can hold.
#[derive(Clone, Copy, Debug, PartialEq, Eq, Structural)]
pub enum BindingResource {
    /// The whole transform buffer, from its first byte.
    Transform,
    /// The atlas sampler.
    Sampler,
    /// A view of the atlas that was created with these dimensions.
    Atlas(Cache),
}

/// One binding of the resource group.
#[derive(Clone, Copy, Debug, PartialEq, Eq, Structural)]
pub struct BindGroupEntry {
    pub binding: u32,
    pub resource: BindingResource,
}

/// The resource group that the shaders read: transform, sampler, atlas.
#[derive(Clone, Copy, Debug, PartialEq, Eq)]
pub struct BindGroup {
    pub entries: [BindGroupEntry; 3],
}

/// The format of a vertex attribute: two, three or four 32-bit floats.
#[derive(Clone, Copy, Debug, PartialEq, Eq, Structural)]
pub enum VertexFormat {
    Float32x2,
    Float32x3,
    Float32x4,
}

/// One attribute of the instance buffer's layout.
#[derive(Clone, Copy, Debug, PartialEq, Eq, Structural)]
pub struct VertexAttribute {
    pub format: VertexFormat,
    pub offset: u64,
    pub shader_location: u32,
}

/// Whether a vertex buffer advances per vertex or per instance.
#[derive(Clone, Copy, Debug, PartialEq, Eq, Structural)]
pub enum StepMode {
    Vertex,
    Instance,
}

/// How the vertex shader reads the instance buffer.
#[derive(Clone, Copy, Debug, PartialEq, Eq)]
pub struct VertexBufferLayout {
    pub array_stride: u64,
    pub step_mode: StepMode,
    pub attributes: [VertexAttribute; 5],
}

/// How vertices are assembled into primitives.
#[derive(Clone, Copy, Debug, PartialEq, Eq, Structural)]
pub enum Topology {
    TriangleList,
    TriangleStrip,
}

/// The winding of a front-facing triangle.
#[derive(Clone, Copy, Debug, PartialEq, Eq, Structural)]
pub enum FrontFace {
    Ccw,
    Cw,
}

/// The width of the index that restarts a strip.
#[derive(Clone, Copy, Debug, PartialEq, Eq, Structural)]
pub enum IndexFormat {
    Uint16,
    Uint32,
}

/// A factor of the blend equation.
#[derive(Clone, Copy, Debug, PartialEq, Eq, Structural)]
pub enum BlendFactor {
    Zero,
    One,
    SrcAlpha,
    OneMinusSrcAlpha,
}

/// The operation of the blend equation.
#[derive(Clone, Copy, Debug, PartialEq, Eq, Structural)]
pub enum BlendOperation {
    Add,
    Subtract,
}

/// The blend equation of the colour channels or of the alpha channel.
#[derive(Clone, Copy, Debug, PartialEq, Eq, Structural)]
pub struct BlendComponent {
    pub src_factor: BlendFactor,
    pub dst_factor: BlendFactor,
    pub operation: BlendOperation,
}

/// How a fragment is blended onto the target.
#[derive(Clone, Copy, Debug, PartialEq, Eq, Structural)]
pub struct BlendState {
    pub color: BlendComponent,
    pub alpha: BlendComponent,
}

/// The channels of the target that are written.
#[derive(Clone, Copy, Debug, PartialEq, Eq, Structural)]
pub struct ColorWrites {
    pub red: bool,
    pub green: bool,
    pub blue: bool,
    pub alpha: bool,
}

/// The render pipeline that draws glyph quads.
#[derive(Clone, Copy, Debug, PartialEq, Eq)]
pub struct RenderPipeline {
    /// The one vertex buffer slot, which takes the instance buffer.
    pub buffer: VertexBufferLayout,
    pub topology: Topology,
    pub front_face: FrontFace,
    pub strip_index_format: Option<IndexFormat>,
    /// Whether the caller's depth-stencil state is part of the pipeline.
    pub depth_stencil: bool,
    pub blend: BlendState,
    pub write_mask: ColorWrites,
}

/// What a pipeline creates once and keeps.
#[derive(Clone, Copy, Debug, PartialEq, Eq)]
pub struct Resources {
    pub transform: UniformBuffer,
    pub sampler: Sampler,
    pub cache: Cache,
    pub uniform_layout: [BindGroupLayoutEntry; 3],
    pub uniforms: BindGroup,
    pub raw: RenderPipeline,
}

/// The identity matrix, four rows of four.
pub open spec fn identity() -> Seq<Scalar> {
    Seq::new(
        16,
        |i: int|
            if i % 5 == 0 {
                Scalar { bits: ONE_BITS }
            } else {
                Scalar { bits: ZERO_BITS }
            },
    )
}

/// The formats of an instance's five attributes, in the order of its fields.
pub open spec fn instance_formats() -> Seq<VertexFormat> {
    seq![
        VertexFormat::Float32x3,
        VertexFormat::Float32x2,
        VertexFormat::Float32x2,
        VertexFormat::Float32x2,
        VertexFormat::Float32x4,
    ]
}

/// The bytes that the first `count` of `formats` take together.
pub open spec fn size_of_first(formats: Seq<VertexFormat>, count: int) -> int
    decreases count,
{
    if count <= 0 {
        0
    } else {
        size_of_first(formats, count - 1) + formats[count - 1].spec_size()
    }
}

/// The words of an instance that an attribute reads: those from its offset on,
/// as many as its format has components.
pub open spec fn attribute_words(instance: Instance, attribute: VertexAttribute) -> Seq<u32> {
    instance.words().subrange(
        attribute.offset as int / 4,
        attribute.offset as int / 4 + attribute.format.spec_components(),
    )
}

impl VertexFormat {
    /// How many numbers the format holds.
    pub open spec fn spec_components(self) -> int {
        match self {
            VertexFormat::Float32x2 => 2,
            VertexFormat::Float32x3 => 3,
            VertexFormat::Float32x4 => 4,
        }
    }

    /// How many bytes the format takes.
    pub open spec fn spec_size(self) -> int {
        4 * self.spec_components()
    }

    /// How many numbers the format holds.
    pub fn components(self) -> (count: u64)
        ensures
            count == self.spec_components(),
    {
        match self {
            VertexFormat::Float32x2 => 2,
            VertexFormat::Float32x3 => 3,
            VertexFormat::Float32x4 => 4,
        }
    }

    /// How many bytes the format takes.
    pub fn size(self) -> (bytes: u64)
        ensures
            bytes == self.spec_size(),
    {
        (WORD_SIZE as u64) * self.components()
    }
}

impl Sampler {
    /// The sampler that clamps at every edge and filters by `filter_mode`
    /// when it magnifies, when it minifies and between mip levels.
    pub open spec fn clamped(filter_mode: FilterMode) -> Sampler {
        Sampler {
            address_mode_u: AddressMode::ClampToEdge,
            address_mode_v: AddressMode::ClampToEdge,
            address_mode_w: AddressMode::ClampToEdge,
            mag_filter: filter_mode,
            min_filter: filter_mode,
            mipmap_filter: filter_mode,
        }
    }
}

impl BlendState {
    /// Alpha compositing: the source colour weighted by its alpha over the
    /// target weighted by the rest, and the source alpha in full over the
    /// target alpha weighted by the rest.
    pub open spec fn alpha_compositing() -> BlendState {
        BlendState {
            color: BlendComponent {
                src_factor: BlendFactor::SrcAlpha,
                dst_factor: BlendFactor::OneMinusSrcAlpha,
                operation: BlendOperation::Add,
            },
            alpha: BlendComponent {
                src_factor: BlendFactor::One,
                dst_factor: BlendFactor::OneMinusSrcAlpha,
                operation: BlendOperation::Add,
            },
        }
    }
}

impl ColorWrites {
    /// Every channel.
    pub open spec fn all() -> ColorWrites {
        ColorWrites { red: true, green: true, blue: true, alpha: true }
    }
}

impl VertexBufferLayout {
    /// Whether this is the layout of the instance buffer: one attribute for
    /// each field of an instance, at locations 0 to 4, each where the one
    /// before it ends, and a stride of one instance.
    pub open spec fn reads_instances(self) -> bool {
        &&& self.step_mode == StepMode::Instance
        &&& self.array_stride == INSTANCE_SIZE
        &&& forall|i: int|
            0 <= i < 5 ==> (#[trigger] self.attributes[i]) == (VertexAttribute {
                format: instance_formats()[i],
                offset: size_of_first(instance_formats(), i) as u64,
                shader_location: i as u32,
            })
    }
}

impl BindGroup {
    /// Whether the group holds, at bindings 0 to 2, the transform, the
    /// sampler and a view of `cache`.
    pub open spec fn binds(self, cache: Cache) -> bool {
        &&& self.entries[0] == (BindGroupEntry { binding: 0, resource: BindingResource::Transform })
        &&& self.entries[1] == (BindGroupEntry { binding: 1, resource: BindingResource::Sampler })
        &&& self.entries[2] == (BindGroupEntry {
            binding: 2,
            resource: BindingResource::Atlas(cache),
        })
    }
}

impl RenderPipeline {
    /// Whether this is the pipeline of glyph quads: instances drawn as
    /// triangle strips that wind clockwise and restart on a 16-bit index,
    /// composited by alpha into every channel of the target.
    pub open spec fn draws_quads(self, depth_stencil: bool) -> bool {
        &&& self.buffer.reads_instances()
        &&& self.topology == Topology::TriangleStrip
        &&& self.front_face == FrontFace::Cw
        &&& self.strip_index_format == Some(IndexFormat::Uint16)
        &&& self.depth_stencil == depth_stencil
        &&& self.blend == BlendState::alpha_compositing()
        &&& self.write_mask == ColorWrites::all()
    }
}

impl Resources {
    /// Whether the layout of the resource group has its three bindings: the
    /// transform for the vertex stage, sampler and atlas for the fragment
    /// stage.
    pub open spec fn has_uniform_layout(self) -> bool {
        &&& self.uniform_layout[0] == (BindGroupLayoutEntry {
            binding: 0,
            visibility: ShaderStage::Vertex,
            ty: BindingType::UniformBuffer { min_binding_size: TRANSFORM_SIZE as u64 },
        })
        &&& self.uniform_layout[1] == (BindGroupLayoutEntry {
            binding: 1,
            visibility: ShaderStage::Fragment,
            ty: BindingType::FilteringSampler,
        })
        &&& self.uniform_layout[2] == (BindGroupLayoutEntry {
            binding: 2,
            visibility: ShaderStage::Fragment,
            ty: BindingType::FilterableTexture2d,
        })
    }

    /// Whether these are the resources of a pipeline that was built with
    /// `filter_mode`, with or without depth-stencil state, and whose atlas is
    /// now `cache`.
    pub open spec fn built(self, filter_mode: FilterMode, depth_stencil: bool, cache: Cache) -> bool {
        &&& self.transform.contents@ == identity()
        &&& self.sampler == Sampler::clamped(filter_mode)
        &&& self.cache == cache
        &&& self.has_uniform_layout()
        &&& self.uniforms.binds(cache)
        &&& self.raw.draws_quads(depth_stencil)
    }

    /// Whether the resources fit together: the transform buffer is created
    /// with the identity, the group binds the atlas that the pipeline holds,
    /// by the layout's bindings, and the render pipeline reads instances.
    pub open spec fn wf(self) -> bool {
        &&& self.transform.contents@ == identity()
        &&& self.has_uniform_layout()
        &&& self.uniforms.binds(self.cache)
        &&& self.raw.buffer.reads_instances()
    }
}

/// The identity matrix as sixteen numbers, row after row.
pub fn identity_matrix() -> (matrix: [Scalar; 16])
    ensures
        matrix@ == identity(),
{
    let one = Scalar { bits: ONE_BITS };
    let zero = Scalar { bits: ZERO_BITS };
    let matrix: [Scalar; 16] = [
        one, zero, zero, zero,
        zero, one, zero, zero,
        zero, zero, one, zero,
        zero, zero, zero, one,
    ];
    assert(matrix@ =~= identity());
    matrix
}

/// Lays out the attributes of an instance one after the other and takes
/// their sum as the stride.
pub fn instance_layout() -> (layout: VertexBufferLayout)
    ensures
        layout.reads_instances(),
{
    let formats: [VertexFormat; 5] = [
        VertexFormat::Float32x3,
        VertexFormat::Float32x2,
        VertexFormat::Float32x2,
        VertexFormat::Float32x2,
        VertexFormat::Float32x4,
    ];
    assert(formats@ =~= instance_formats());
    let first = VertexAttribute { format: formats[0], offset: 0, shader_location: 0 };
    let mut attributes: [VertexAttribute; 5] = [first; 5];
    let mut offset: u64 = 0;
    let mut i: usize = 0;
    while i < 5
        invariant
            i <= 5,
            formats@ == instance_formats(),
            offset == size_of_first(instance_formats(), i as int),
            offset <= 16 * i,
            forall|k: int|
                0 <= k < i ==> (#[trigger] attributes[k]) == (VertexAttribute {
                    format: instance_formats()[k],
                    offset: size_of_first(instance_formats(), k) as u64,
                    shader_location: k as u32,
                }),
        decreases 5 - i,
    {
        attributes[i] = VertexAttribute {
            format: formats[i],
            offset,
            shader_location: i as u32,
        };
        offset = offset + formats[i].size();
        i += 1;
    }
    assert(size_of_first(instance_formats(), 5) == INSTANCE_SIZE) by {
        reveal_with_fuel(size_of_first, 6);
    }
    VertexBufferLayout { array_stride: offset, step_mode: StepMode::Instance, attributes }
}

/// Binds the transform, the sampler and a view of `cache` at bindings 0 to 2.
pub fn create_uniforms(cache: Cache) -> (uniforms: BindGroup)
    ensures
        uniforms.binds(cache),
{
    BindGroup {
        entries: [
            BindGroupEntry { binding: 0, resource: BindingResource::Transform },
            BindGroupEntry { binding: 1, resource: BindingResource::Sampler },
            BindGroupEntry { binding: 2, resource: BindingResource::Atlas(cache) },
        ],
    }
}

/// The attributes of the instance layout start at bytes 0, 12, 20, 28 and 36
/// of an instance of 52 bytes. Each reads the words of one field of the
/// instance, in the order of the fields, and together they read all of it.
pub proof fn attributes_read_fields(layout: VertexBufferLayout, instance: Instance)
    requires
        layout.reads_instances(),
    ensures
        layout.attributes[0].offset == 0,
        layout.attributes[1].offset == 12,
        layout.attributes[2].offset == 20,
        layout.attributes[3].offset == 28,
        layout.attributes[4].offset == 36,
        layout.array_stride == 52,
        attribute_words(instance, layout.attributes[0]) == bits_of(instance.left_top@),
        attribute_words(instance, layout.attributes[1]) == bits_of(instance.right_bottom@),
        attribute_words(instance, layout.attributes[2]) == bits_of(instance.tex_left_top@),
        attribute_words(instance, layout.attributes[3]) == bits_of(instance.tex_right_bottom@),
        attribute_words(instance, layout.attributes[4]) == bits_of(instance.color@),
        layout.attributes[4].offset + layout.attributes[4].format.spec_size()
            == layout.array_stride,
{
    reveal_with_fuel(size_of_first, 6);
    assert(attribute_words(instance, layout.attributes[0]) =~= bits_of(instance.left_top@));
    assert(attribute_words(instance, layout.attributes[1]) =~= bits_of(instance.right_bottom@));
    assert(attribute_words(instance, layout.attributes[2]) =~= bits_of(instance.tex_left_top@));
    assert(attribute_words(instance, layout.attributes[3]) =~= bits_of(
        instance.tex_right_bottom@,
    ));
    assert(attribute_words(instance, layout.attributes[4]) =~= bits_of(instance.color@));
}

/// In the bytes of a run of instances, whichever the byte order, the
/// attribute of an instance lies at the attribute's offset within the
/// instance's own stride, and it is the bytes of the words that the attribute
/// reads.
pub proof fn attributes_lie_at_their_offsets(
    layout: VertexBufferLayout,
    instances: Seq<Instance>,
    index: int,
    location: int,
)
    requires
        layout.reads_instances(),
        0 <= index < instances.len(),
        0 <= location < 5,
    ensures
        ({
            let attribute = layout.attributes[location];
            let start = index * layout.array_stride + attribute.offset;
            let end = start + attribute.format.spec_size();
            let words = attribute_words(instances[index], attribute);
            &&& 0 <= start <= end <= layout.array_stride * instances.len()
            &&& little_endian_image(flatten(instances)).subrange(start, end)
                == little_endian_image(words)
            &&& big_endian_image(flatten(instances)).subrange(start, end) == big_endian_image(
                words,
            )
        }),
{
    reveal_with_fuel(size_of_first, 6);
    let attribute = layout.attributes[location];
    let start = index * 52 + attribute.offset;
    let end = start + attribute.format.spec_size();
    let words = attribute_words(instances[index], attribute);
    let all = flatten(instances);
    assert(attribute.offset % 4 == 0 && attribute.offset + attribute.format.spec_size() <= 52);
    let little = little_endian_image(all).subrange(start, end);
    let big = big_endian_image(all).subrange(start, end);
    assert forall|j: int| 0 <= j < end - start implies #[trigger] little[j]
        == little_endian_image(words)[j] && #[trigger] big[j] == big_endian_image(words)[j] by {
        let word = index * 13 + attribute.offset / 4 + j / 4;
        assert((start + j) / 4 == word);
        assert((start + j) % 4 == j % 4);
        assert(word / 13 == index);
        assert(word % 13 == attribute.offset / 4 + j / 4);
    }
    assert(little =~= little_endian_image(words));
    assert(big =~= big_endian_image(words));
}

} // verus!
