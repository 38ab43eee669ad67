//! The description of a pipeline before anything is allocated: buffer groups,
//! textures, bind groups and shader passes, tied together by labels.

use vstd::prelude::*;
use crate::label::ShaderLabel;

verus! {

/// Pixel formats that a texture or a pass output can have.
#[derive(Clone, Copy, Debug, PartialEq, Eq, Structural)]
pub enum TextureFormat {
    Rgba8UnormSrgb,
    Bgra8UnormSrgb,
    Rgba16Float,
    Depth32Float,
}

/// Width and height in pixels.
#[derive(Clone, Copy, Debug, PartialEq, Eq, Structural)]
pub struct PhysicalSize {
    pub width: u32,
    pub height: u32,
}

/// What the presentation surface offers: its drawable size and its format.
#[derive(Clone, Copy, Debug, PartialEq, Eq, Structural)]
pub struct SurfaceContext {
    pub size: PhysicalSize,
    pub format: TextureFormat,
}

/// The shader stages that can see a binding.
#[derive(Clone, Copy, Debug, PartialEq, Eq, Structural)]
pub enum ShaderStages {
    Vertex,
    Fragment,
    VertexFragment,
}

/// The resource that one binding of a bind group holds.
#[derive(Clone, Copy, Debug, PartialEq, Eq, Structural)]
pub enum BindingType {
    UniformBuffer,
    Texture { filterable: bool },
    Sampler { filtering: bool },
}

/// One entry of a binding layout; its binding number is its place in the layout.
#[derive(Clone, Copy, Debug, PartialEq, Eq, Structural)]
pub struct BindingEntry {
    pub visibility: ShaderStages,
    pub ty: BindingType,
}

/// The layout of a bind group: its entries in binding order.
#[derive(Debug)]
pub struct BindingLayout {
    pub entries: Vec<BindingEntry>,
}

impl View for BindingLayout {
    type V = Seq<BindingEntry>;

    open spec fn view(&self) -> Seq<BindingEntry> {
        self.entries@
    }
}

impl BindingLayout {
    /// Whether two layouts have the same entries in the same order.
    pub fn matches(&self, other: &BindingLayout) -> (equal: bool)
        ensures
            equal == (self@ == other@),
    {
        if self.entries.len() != other.entries.len() {
            return false;
        }
        let mut i: usize = 0;
        while i < self.entries.len()
            invariant
                i <= self.entries.len(),
                self.entries.len() == other.entries.len(),
                forall|j: int| 0 <= j < i ==> self@[j] == other@[j],
            decreases self.entries.len() - i,
        {
            if self.entries[i] != other.entries[i] {
                assert(self@[i as int] != other@[i as int]);
                return false;
            }
            i += 1;
        }
        assert(self@ =~= other@);
        true
    }
}

/// How a declared texture is used.
#[derive(Debug)]
pub enum TextureKind {
    /// Written and read as depth.
    DepthAttachment,
    /// An offscreen colour attachment: written by one pass, sampled by a later one.
    RenderTarget,
    /// A sampled texture that is filled once, from `data` where there is any.
    Unloaded { data: Option<Vec<u8>> },
}

/// A texture to be created.
#[derive(Debug)]
pub struct ScheduledTexture {
    pub label: ShaderLabel,
    pub size: PhysicalSize,
    pub format: TextureFormat,
    pub kind: TextureKind,
}

impl TextureKind {
    /// Whether a pass can render into a texture of this kind.
    pub open spec fn is_attachment(&self) -> bool {
        self is DepthAttachment || self is RenderTarget
    }
}

/// The format of every offscreen colour attachment.
pub const RENDER_TARGET_FORMAT: TextureFormat = TextureFormat::Rgba16Float;

/// The format of every depth attachment.
pub const DEPTH_FORMAT: TextureFormat = TextureFormat::Depth32Float;

impl ScheduledTexture {
    /// A depth attachment of the given size.
    pub fn depth(label: ShaderLabel, size: PhysicalSize) -> (texture: ScheduledTexture)
        ensures
            texture.label == label,
            texture.size == size,
            texture.format == DEPTH_FORMAT,
            texture.kind is DepthAttachment,
    {
        ScheduledTexture { label, size, format: DEPTH_FORMAT, kind: TextureKind::DepthAttachment }
    }

    /// An offscreen colour attachment of the given size.
    pub fn render_target(label: ShaderLabel, size: PhysicalSize) -> (texture: ScheduledTexture)
        ensures
            texture.label == label,
            texture.size == size,
            texture.format == RENDER_TARGET_FORMAT,
            texture.kind is RenderTarget,
    {
        ScheduledTexture {
            label,
            size,
            format: RENDER_TARGET_FORMAT,
            kind: TextureKind::RenderTarget,
        }
    }
}

/// What a texture may be used for once it is created.
#[derive(Clone, Copy, Debug, PartialEq, Eq, Structural)]
pub struct TextureUsage {
    pub render_attachment: bool,
    pub texture_binding: bool,
    pub copy_dst: bool,
}

/// The size, format and uses of a texture that is yet to be created.
#[derive(Clone, Copy, Debug, PartialEq, Eq, Structural)]
pub struct TextureDescriptor {
    pub size: PhysicalSize,
    pub format: TextureFormat,
    pub usage: TextureUsage,
}

/// What a sampler does past the edge of a texture.
#[derive(Clone, Copy, Debug, PartialEq, Eq, Structural)]
pub enum AddressMode {
    ClampToEdge,
    Repeat,
    MirrorRepeat,
}

/// How a sampler picks a value between texels.
#[derive(Clone, Copy, Debug, PartialEq, Eq, Structural)]
pub enum FilterMode {
    Nearest,
    Linear,
}

/// A sampler that is yet to be created.
#[derive(Clone, Copy, Debug, PartialEq, Eq, Structural)]
pub struct SamplerDescriptor {
    pub address_mode_u: AddressMode,
    pub address_mode_v: AddressMode,
    pub address_mode_w: AddressMode,
    pub mag_filter: FilterMode,
    pub min_filter: FilterMode,
    pub mipmap_filter: FilterMode,
}

/// Where the texture of a read-only texture bind group comes from.
#[derive(Debug)]
pub enum TextureSource {
    /// The texture declared under this label in the pipeline's texture list.
    Declared(ShaderLabel),
    /// A texture of the bind group's own, filled from `data` where there is any.
    Unloaded { desc: TextureDescriptor, sampler: SamplerDescriptor, data: Option<Vec<u8>> },
}

/// What a bind group binds.
#[derive(Debug)]
pub enum ScheduledBindGroupType {
    /// A block of bytes of fixed length, seeded with `contents`.
    Uniform { contents: Vec<u8> },
    /// A sampled texture with its sampler.
    ReadOnlyTexture(TextureSource),
}

/// A bind group to be created.
#[derive(Debug)]
pub struct ScheduledBindGroup {
    pub label: ShaderLabel,
    pub layout: BindingLayout,
    pub form: ScheduledBindGroupType,
}

impl ScheduledBindGroup {
    /// The name of the declared texture that this bind group samples, if it
    /// samples one.
    pub open spec fn declared_texture(&self) -> Option<Seq<char>> {
        match self.form {
            ScheduledBindGroupType::ReadOnlyTexture(TextureSource::Declared(label)) => Some(
                label@,
            ),
            _ => None,
        }
    }
}

/// The buffers of one drawn object.
#[derive(Debug)]
pub struct MeshData {
    pub v_buf: Vec<u8>,
    pub i_buf: Vec<u32>,
    pub num_indices: u32,
}

/// The objects that one pass draws, with the bind groups that belong to these
/// objects alone.
#[derive(Debug)]
pub struct BufferGroup {
    pub label: ShaderLabel,
    pub objects: Vec<MeshData>,
    pub unique_bind_groups: Vec<ShaderLabel>,
}

/// How vertices are assembled into primitives.
#[derive(Clone, Copy, Debug, PartialEq, Eq, Structural)]
pub enum PrimitiveTopology {
    PointList,
    LineList,
    TriangleList,
    TriangleStrip,
}

/// The comparison of the depth test.
#[derive(Clone, Copy, Debug, PartialEq, Eq, Structural)]
pub enum CompareFunction {
    Never,
    Less,
    LessEqual,
    Greater,
    Always,
}

/// The depth test of a pass.
#[derive(Clone, Copy, Debug, PartialEq, Eq, Structural)]
pub struct DepthStencilState {
    pub format: TextureFormat,
    pub depth_write_enabled: bool,
    pub depth_compare: CompareFunction,
}

/// How a pass output is combined with what the target already holds.
#[derive(Clone, Copy, Debug, PartialEq, Eq, Structural)]
pub enum BlendState {
    Replace,
    AlphaBlending,
}

/// One colour output of a shader.
#[derive(Clone, Copy, Debug, PartialEq, Eq, Structural)]
pub struct ColorTargetState {
    pub format: TextureFormat,
    pub blend: Option<BlendState>,
}

/// A shader program with its fixed-function state. The source is carried
/// through and never read.
#[derive(Debug)]
pub struct ShaderDefinition {
    pub shader_source: String,
    pub bg_layouts: Vec<BindingLayout>,
    pub vertex_stride: usize,
    pub primitive_state: PrimitiveTopology,
    pub depth_stencil: Option<DepthStencilState>,
    pub targets: Vec<ColorTargetState>,
}

/// One render pass: the buffer group it draws, the bind groups it reads in
/// binding order, the textures it writes (none: the presentation surface), and
/// its depth texture.
#[derive(Debug)]
pub struct ScheduledShaderNodeDescription {
    pub buffer_group: ShaderLabel,
    pub bind_groups: Vec<ShaderLabel>,
    pub targets: Option<Vec<ShaderLabel>>,
    pub depth: Option<ShaderLabel>,
    pub shader: ShaderDefinition,
}

/// Everything a pipeline is made of. The order of `shader_nodes` is the order
/// in which the passes run.
#[derive(Debug)]
pub struct ScheduledPipelineDescription {
    pub shader_nodes: Vec<ScheduledShaderNodeDescription>,
    pub buffers: Vec<BufferGroup>,
    pub bind_groups: Vec<ScheduledBindGroup>,
    pub textures: Vec<ScheduledTexture>,
}

} // verus!
