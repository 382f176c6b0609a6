//! The fixed render pipeline: programmable stages, vertex input,
//! rasterization, blending and output, as one immutable description.

use crate::chain::PixelFormat;
use crate::geometry::VertexLayout;
use crate::shader::ShaderKind;
use vstd::prelude::*;

verus! {

/// Winding of a front-facing triangle.
#[derive(Clone, Copy, Debug, PartialEq, Eq, Structural)]
pub enum FrontFace {
    Ccw,
    Cw,
}

/// Which faces are discarded.
#[derive(Clone, Copy, Debug, PartialEq, Eq, Structural)]
pub enum CullMode {
    Off,
    Front,
    Back,
}

/// Weight of one side of a blend equation.
#[derive(Clone, Copy, Debug, PartialEq, Eq, Structural)]
pub enum BlendFactor {
    Zero,
    One,
    SrcAlpha,
    OneMinusSrcAlpha,
}

/// Operator of a blend equation.
#[derive(Clone, Copy, Debug, PartialEq, Eq, Structural)]
pub enum BlendOperation {
    Add,
    Subtract,
    ReverseSubtract,
    Min,
    Max,
}

/// One blend equation: `source * src_factor (operation) destination * dst_factor`.
#[derive(Clone, Copy, Debug, PartialEq, Eq, Structural)]
pub struct BlendDescriptor {
    pub src_factor: BlendFactor,
    pub dst_factor: BlendFactor,
    pub operation: BlendOperation,
}

/// The colour channels that a draw may write.
#[derive(Clone, Copy, Debug, PartialEq, Eq, Structural)]
pub struct ColorWrite {
    pub red: bool,
    pub green: bool,
    pub blue: bool,
    pub alpha: bool,
}

/// How vertices are assembled into primitives.
#[derive(Clone, Copy, Debug, PartialEq, Eq, Structural)]
pub enum PrimitiveTopology {
    PointList,
    LineList,
    LineStrip,
    TriangleList,
    TriangleStrip,
}

/// Width of the entries of an index buffer.
#[derive(Clone, Copy, Debug, PartialEq, Eq, Structural)]
pub enum IndexFormat {
    Uint16,
    Uint32,
}

/// Rasterization state. The two depth-bias scales are single-precision
/// numbers held as bit patterns.
#[derive(Clone, Copy, Debug, PartialEq, Eq, Structural)]
pub struct RasterizationState {
    pub front_face: FrontFace,
    pub cull_mode: CullMode,
    pub depth_bias: i32,
    pub depth_bias_slope_scale: u32,
    pub depth_bias_clamp: u32,
}

/// One colour output of the pipeline.
#[derive(Clone, Copy, Debug, PartialEq, Eq, Structural)]
pub struct ColorState {
    pub format: PixelFormat,
    pub color_blend: BlendDescriptor,
    pub alpha_blend: BlendDescriptor,
    pub write_mask: ColorWrite,
}

/// The complete description from which the pipeline object is created.
#[derive(Debug, PartialEq, Eq)]
pub struct PipelineState {
    /// Number of bind group layouts of the pipeline layout.
    pub bind_group_layouts: u32,
    pub vertex_stage: ShaderKind,
    pub fragment_stage: Option<ShaderKind>,
    pub rasterization: Option<RasterizationState>,
    pub primitive_topology: PrimitiveTopology,
    pub color_states: Vec<ColorState>,
    pub has_depth_stencil: bool,
    pub index_format: IndexFormat,
    pub vertex_buffers: Vec<VertexLayout>,
    pub sample_count: u32,
    pub sample_mask: u32,
    pub alpha_to_coverage_enabled: bool,
}

impl BlendDescriptor {
    /// The equation that replaces the destination by the source.
    pub open spec fn replace() -> BlendDescriptor {
        BlendDescriptor {
            src_factor: BlendFactor::One,
            dst_factor: BlendFactor::Zero,
            operation: BlendOperation::Add,
        }
    }
}

impl ColorWrite {
    /// Every channel.
    pub open spec fn all() -> ColorWrite {
        ColorWrite { red: true, green: true, blue: true, alpha: true }
    }
}

impl RasterizationState {
    /// Counter-clockwise triangles face front, back faces are culled, and
    /// there is no depth bias.
    pub open spec fn fixed() -> RasterizationState {
        RasterizationState {
            front_face: FrontFace::Ccw,
            cull_mode: CullMode::Back,
            depth_bias: 0,
            depth_bias_slope_scale: 0,
            depth_bias_clamp: 0,
        }
    }
}

impl ColorState {
    /// An output of the given format that every draw overwrites in all
    /// channels, without blending.
    pub open spec fn opaque(format: PixelFormat) -> ColorState {
        ColorState {
            format,
            color_blend: BlendDescriptor::replace(),
            alpha_blend: BlendDescriptor::replace(),
            write_mask: ColorWrite::all(),
        }
    }
}

impl PipelineState {
    /// This is the fixed pipeline for the given output format and vertex
    /// buffer layout: both stages, no bound resources, the fixed rasterization
    /// state, a triangle list with 16-bit indices, exactly one colour output
    /// that is overwritten, no depth or stencil attachment, one sample per
    /// pixel with no sample masked out.
    pub open spec fn is_fixed_for(self, format: PixelFormat, layout: VertexLayout) -> bool {
        &&& self.bind_group_layouts == 0
        &&& self.vertex_stage == ShaderKind::Vertex
        &&& self.fragment_stage == Some(ShaderKind::Fragment)
        &&& self.rasterization == Some(RasterizationState::fixed())
        &&& self.primitive_topology == PrimitiveTopology::TriangleList
        &&& self.color_states@ == seq![ColorState::opaque(format)]
        &&& !self.has_depth_stencil
        &&& self.index_format == IndexFormat::Uint16
        &&& self.vertex_buffers@ == seq![layout]
        &&& self.sample_count == 1
        &&& self.sample_mask == u32::MAX
        &&& self.alpha_to_coverage_enabled
    }

    /// The format of the pipeline's only colour output, if it has exactly one.
    pub open spec fn target_format(self) -> Option<PixelFormat> {
        if self.color_states@.len() == 1 {
            Some(self.color_states@[0].format)
        } else {
            None
        }
    }

    /// Describes the fixed pipeline for an output of the given pixel format and
    /// vertices of the given layout.
    pub fn build(target_format: PixelFormat, vertex_layout: VertexLayout) -> (pipeline:
        PipelineState)
        ensures
            pipeline.is_fixed_for(target_format, vertex_layout),
            pipeline.target_format() == Some(target_format),
    {
        let replace = BlendDescriptor {
            src_factor: BlendFactor::One,
            dst_factor: BlendFactor::Zero,
            operation: BlendOperation::Add,
        };
        let mut color_states: Vec<ColorState> = Vec::new();
        color_states.push(
            ColorState {
                format: target_format,
                color_blend: replace,
                alpha_blend: replace,
                write_mask: ColorWrite { red: true, green: true, blue: true, alpha: true },
            },
        );
        let mut vertex_buffers: Vec<VertexLayout> = Vec::new();
        vertex_buffers.push(vertex_layout);
        assert(color_states@ =~= seq![ColorState::opaque(target_format)]);
        assert(vertex_buffers@ =~= seq![vertex_layout]);
        PipelineState {
            bind_group_layouts: 0,
            vertex_stage: ShaderKind::Vertex,
            fragment_stage: Some(ShaderKind::Fragment),
            rasterization: Some(
                RasterizationState {
                    front_face: FrontFace::Ccw,
                    cull_mode: CullMode::Back,
                    depth_bias: 0,
                    depth_bias_slope_scale: 0,
                    depth_bias_clamp: 0,
                },
            ),
            primitive_topology: PrimitiveTopology::TriangleList,
            color_states,
            has_depth_stencil: false,
            index_format: IndexFormat::Uint16,
            vertex_buffers,
            sample_count: 1,
            sample_mask: u32::MAX,
            alpha_to_coverage_enabled: true,
        }
    }

    /// Whether the pipeline has to be built anew to draw into images of the
    /// given format: exactly when that is not the format of its only output.
    pub fn needs_rebuild(&self, target_format: PixelFormat) -> (rebuild: bool)
        ensures
            rebuild == (self.target_format() != Some(target_format)),
    {
        if self.color_states.len() != 1 {
            true
        } else {
            self.color_states[0].format != target_format
        }
    }
}

} // verus!
