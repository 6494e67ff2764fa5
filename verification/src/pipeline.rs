//! The fixed rasterization pipeline that draws the textured quad.

use crate::geometry::{IndexFormat, Vertex, VertexBufferLayout};
use crate::texture::{BindGroupLayoutEntry, TextureFormat};
use vstd::prelude::*;

verus! {

/// What a colour is multiplied by before blending.
#[derive(Debug, Clone, Copy, PartialEq, Eq, Structural)]
pub enum BlendFactor {
    Zero,
    One,
    SrcAlpha,
    OneMinusSrcAlpha,
    DstAlpha,
    OneMinusDstAlpha,
}

/// How the two weighted colours are combined.
#[derive(Debug, Clone, Copy, PartialEq, Eq, Structural)]
pub enum BlendOperation {
    Add,
    Subtract,
    ReverseSubtract,
    Min,
    Max,
}

/// How the colour of a fragment meets the colour already in the target.
#[derive(Debug, Clone, Copy, PartialEq, Eq, Structural)]
pub struct BlendState {
    pub src_factor: BlendFactor,
    pub dst_factor: BlendFactor,
    pub operation: BlendOperation,
}

/// The channels of the target that are written.
#[derive(Debug, Clone, Copy, PartialEq, Eq, Structural)]
pub struct ColorWrite {
    pub red: bool,
    pub green: bool,
    pub blue: bool,
    pub alpha: bool,
}

/// The colour target of the pipeline.
#[derive(Debug, Clone, Copy, PartialEq, Eq, Structural)]
pub struct ColorTargetState {
    pub format: TextureFormat,
    pub color_blend: BlendState,
    pub alpha_blend: BlendState,
    pub write_mask: ColorWrite,
}

/// How vertices are assembled into primitives.
#[derive(Debug, Clone, Copy, PartialEq, Eq, Structural)]
pub enum PrimitiveTopology {
    PointList,
    LineList,
    LineStrip,
    TriangleList,
    TriangleStrip,
}

/// The winding of a triangle that faces the viewer.
#[derive(Debug, Clone, Copy, PartialEq, Eq, Structural)]
pub enum FrontFace {
    Ccw,
    Cw,
}

/// Which triangles are dropped by the way they face.
#[derive(Debug, Clone, Copy, PartialEq, Eq, Structural)]
pub enum CullMode {
    Off,
    Front,
    Back,
}

/// How the inside of a polygon is drawn.
#[derive(Debug, Clone, Copy, PartialEq, Eq, Structural)]
pub enum PolygonMode {
    Fill,
    Line,
    Point,
}

/// Primitive assembly and rasterization.
#[derive(Debug, Clone, Copy, PartialEq, Eq, Structural)]
pub struct PrimitiveState {
    pub topology: PrimitiveTopology,
    pub strip_index_format: Option<IndexFormat>,
    pub front_face: FrontFace,
    pub cull_mode: CullMode,
    pub polygon_mode: PolygonMode,
}

/// The depth formats that a depth test can use.
#[derive(Debug, Clone, Copy, PartialEq, Eq, Structural)]
pub enum DepthFormat {
    Depth32Float,
    Depth24Plus,
    Depth24PlusStencil8,
}

/// When a fragment passes the depth test.
#[derive(Debug, Clone, Copy, PartialEq, Eq, Structural)]
pub enum CompareFunction {
    Never,
    Less,
    Equal,
    LessEqual,
    Greater,
    NotEqual,
    GreaterEqual,
    Always,
}

/// A depth test. The pipeline of the quad has none.
#[derive(Debug, Clone, Copy, PartialEq, Eq, Structural)]
pub struct DepthStencilState {
    pub format: DepthFormat,
    pub depth_write_enabled: bool,
    pub depth_compare: CompareFunction,
}

/// How many samples a pixel has, and which of them are written.
#[derive(Debug, Clone, Copy, PartialEq, Eq, Structural)]
pub struct MultisampleState {
    pub count: u32,
    pub mask: u64,
    pub alpha_to_coverage_enabled: bool,
}

/// The vertex stage: the entry point of its shader module and the vertex
/// buffers that feed it.
#[derive(Debug, Clone, Copy, PartialEq, Eq)]
pub struct VertexState {
    pub entry_point: &'static str,
    pub buffers: [VertexBufferLayout; 1],
}

/// The fragment stage: the entry point of its shader module and the targets
/// that it writes.
#[derive(Debug, Clone, Copy, PartialEq, Eq)]
pub struct FragmentState {
    pub entry_point: &'static str,
    pub targets: [ColorTargetState; 1],
}

/// Everything about the pipeline but the device and the two shader modules.
#[derive(Debug, Clone, Copy, PartialEq, Eq)]
pub struct RenderPipelineDescriptor {
    /// The layouts of the bind groups that the pipeline takes, by group index.
    pub bind_group_layouts: [[BindGroupLayoutEntry; 2]; 1],
    pub vertex: VertexState,
    pub primitive: PrimitiveState,
    pub depth_stencil: Option<DepthStencilState>,
    pub multisample: MultisampleState,
    pub fragment: Option<FragmentState>,
}

impl BlendState {
    /// The fragment's colour replaces the target's: the source counts once,
    /// the destination not at all.
    pub open spec fn replace() -> BlendState {
        BlendState {
            src_factor: BlendFactor::One,
            dst_factor: BlendFactor::Zero,
            operation: BlendOperation::Add,
        }
    }
}

impl ColorWrite {
    /// All four channels.
    pub open spec fn all() -> ColorWrite {
        ColorWrite { red: true, green: true, blue: true, alpha: true }
    }
}

/// The colour target: 8-bit BGRA encoded to sRGB, every fragment replacing
/// what was there, in all four channels.
pub fn color_target_state() -> (target: ColorTargetState)
    ensures
        target == (ColorTargetState {
            format: TextureFormat::Bgra8UnormSrgb,
            color_blend: BlendState::replace(),
            alpha_blend: BlendState::replace(),
            write_mask: ColorWrite::all(),
        }),
{
    let replace = BlendState {
        src_factor: BlendFactor::One,
        dst_factor: BlendFactor::Zero,
        operation: BlendOperation::Add,
    };
    ColorTargetState {
        format: TextureFormat::Bgra8UnormSrgb,
        color_blend: replace,
        alpha_blend: replace,
        write_mask: ColorWrite { red: true, green: true, blue: true, alpha: true },
    }
}

impl RenderPipelineDescriptor {
    /// The fixed state of the quad's pipeline over the bind group layout
    /// `layout`: both stages enter at `main`; the vertex stage reads one
    /// buffer in the layout of `Vertex::desc`; triangles come as a list, face
    /// front where they run counter-clockwise, are filled, and are dropped
    /// where they face back; there is no depth or stencil test; each pixel has
    /// one sample; and the fragment stage writes the one target of
    /// `color_target_state`.
    pub open spec fn is_quad_pipeline(self, layout: [BindGroupLayoutEntry; 2]) -> bool {
        &&& self.bind_group_layouts[0] == layout
        &&& self.vertex.entry_point@ == "main"@
        &&& self.vertex.buffers[0] == Vertex::layout()
        &&& self.primitive == (PrimitiveState {
            topology: PrimitiveTopology::TriangleList,
            strip_index_format: None,
            front_face: FrontFace::Ccw,
            cull_mode: CullMode::Back,
            polygon_mode: PolygonMode::Fill,
        })
        &&& self.depth_stencil is None
        &&& self.multisample == (MultisampleState {
            count: 1,
            mask: u64::MAX,
            alpha_to_coverage_enabled: false,
        })
        &&& self.fragment is Some
        &&& self.fragment->Some_0.entry_point@ == "main"@
        &&& self.fragment->Some_0.targets[0] == (ColorTargetState {
            format: TextureFormat::Bgra8UnormSrgb,
            color_blend: BlendState::replace(),
            alpha_blend: BlendState::replace(),
            write_mask: ColorWrite::all(),
        })
    }
}

/// Describes the pipeline of the quad over the bind group layout `layout`.
pub fn create_pipeline(layout: [BindGroupLayoutEntry; 2]) -> (desc: RenderPipelineDescriptor)
    ensures
        desc.is_quad_pipeline(layout),
{
    RenderPipelineDescriptor {
        bind_group_layouts: [layout],
        vertex: VertexState { entry_point: "main", buffers: [Vertex::desc()] },
        primitive: PrimitiveState {
            topology: PrimitiveTopology::TriangleList,
            strip_index_format: None,
            front_face: FrontFace::Ccw,
            cull_mode: CullMode::Back,
            polygon_mode: PolygonMode::Fill,
        },
        depth_stencil: None,
        multisample: MultisampleState {
            count: 1,
            mask: 0xffff_ffff_ffff_ffff,
            alpha_to_coverage_enabled: false,
        },
        fragment: Some(FragmentState { entry_point: "main", targets: [color_target_state()] }),
    }
}

} // verus!
