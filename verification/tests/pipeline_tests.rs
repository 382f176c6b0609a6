use triangle_renderer::chain::PixelFormat;
use triangle_renderer::geometry::Vertex;
use triangle_renderer::pipeline::BlendDescriptor;
use triangle_renderer::pipeline::BlendFactor;
use triangle_renderer::pipeline::BlendOperation;
use triangle_renderer::pipeline::ColorState;
use triangle_renderer::pipeline::ColorWrite;
use triangle_renderer::pipeline::CullMode;
use triangle_renderer::pipeline::FrontFace;
use triangle_renderer::pipeline::IndexFormat;
use triangle_renderer::pipeline::PipelineState;
use triangle_renderer::pipeline::PrimitiveTopology;
use triangle_renderer::pipeline::RasterizationState;
use triangle_renderer::shader::ShaderKind;

fn replace() -> BlendDescriptor {
    BlendDescriptor {
        src_factor: BlendFactor::One,
        dst_factor: BlendFactor::Zero,
        operation: BlendOperation::Add,
    }
}

#[test]
fn pipeline_has_both_stages_and_no_bound_resources() {
    let pipeline = PipelineState::build(PixelFormat::Bgra8UnormSrgb, Vertex::desc());
    assert_eq!(pipeline.bind_group_layouts, 0);
    assert_eq!(pipeline.vertex_stage, ShaderKind::Vertex);
    assert_eq!(pipeline.fragment_stage, Some(ShaderKind::Fragment));
}

#[test]
fn pipeline_rasterization_is_fixed() {
    let pipeline = PipelineState::build(PixelFormat::Bgra8UnormSrgb, Vertex::desc());
    assert_eq!(
        pipeline.rasterization,
        Some(RasterizationState {
            front_face: FrontFace::Ccw,
            cull_mode: CullMode::Back,
            depth_bias: 0,
            depth_bias_slope_scale: 0,
            depth_bias_clamp: 0,
        })
    );
    let state = pipeline.rasterization.unwrap();
    assert_eq!(f32::from_bits(state.depth_bias_slope_scale), 0.0);
    assert_eq!(f32::from_bits(state.depth_bias_clamp), 0.0);
}

#[test]
fn pipeline_has_one_opaque_color_output() {
    let pipeline = PipelineState::build(PixelFormat::Rgba8Unorm, Vertex::desc());
    assert_eq!(
        pipeline.color_states,
        vec![ColorState {
            format: PixelFormat::Rgba8Unorm,
            color_blend: replace(),
            alpha_blend: replace(),
            write_mask: ColorWrite { red: true, green: true, blue: true, alpha: true },
        }]
    );
}

#[test]
fn pipeline_draws_triangle_lists_without_depth_or_multisampling() {
    let pipeline = PipelineState::build(PixelFormat::Bgra8UnormSrgb, Vertex::desc());
    assert_eq!(pipeline.primitive_topology, PrimitiveTopology::TriangleList);
    assert!(!pipeline.has_depth_stencil);
    assert_eq!(pipeline.index_format, IndexFormat::Uint16);
    assert_eq!(pipeline.sample_count, 1);
    assert_eq!(pipeline.sample_mask, 0xFFFF_FFFF);
    assert!(pipeline.alpha_to_coverage_enabled);
}

#[test]
fn pipeline_takes_the_given_vertex_layout() {
    let pipeline = PipelineState::build(PixelFormat::Bgra8UnormSrgb, Vertex::desc());
    assert_eq!(pipeline.vertex_buffers, vec![Vertex::desc()]);
}

#[test]
fn pipeline_is_rebuilt_only_for_another_format() {
    let pipeline = PipelineState::build(PixelFormat::Bgra8UnormSrgb, Vertex::desc());
    assert!(!pipeline.needs_rebuild(PixelFormat::Bgra8UnormSrgb));
    assert!(pipeline.needs_rebuild(PixelFormat::Bgra8Unorm));
    assert!(pipeline.needs_rebuild(PixelFormat::Rgba8Unorm));
    assert!(pipeline.needs_rebuild(PixelFormat::Rgba8UnormSrgb));
}

#[test]
fn pipeline_without_single_output_needs_rebuild() {
    let mut pipeline = PipelineState::build(PixelFormat::Bgra8UnormSrgb, Vertex::desc());
    let extra = pipeline.color_states[0];
    pipeline.color_states.push(extra);
    assert!(pipeline.needs_rebuild(PixelFormat::Bgra8UnormSrgb));
    pipeline.color_states.clear();
    assert!(pipeline.needs_rebuild(PixelFormat::Bgra8UnormSrgb));
}
