use render_backend::diligent_types::PipelineStateStatus;
use render_backend::pipeline::{diligent_pso_failed, diligent_pso_ready};
use render_backend::diligent_types::{
    ComparisonFunction, CullMode, DiligentBlendFactor, DiligentBlendOperation, DiligentPrimitiveTopology,
    FillMode, InputElementFrequency, StencilOp, ValueType, COLOR_MASK_NONE,
};
use render_backend::gpu_types::{
    BlendFactor, BlendOperation, CompareFunction, Face, FrontFace, PolygonMode, PrimitiveTopology,
    StencilOperation, VertexFormat, VertexStepMode, COLOR_WRITE_ALL,
};
use render_backend::pipeline::{
    build_vertex_layout, entry_point, location_semantic, no_write_blend_target, pipeline_name,
    plan_graphics_pipeline, sort_by_location, translate_blend_target, translate_depth_stencil,
    translate_rasterizer, translate_stencil_face, AttributeRecord, BlendComponent, BlendState,
    ColorTargetInput, DepthStencilState, PipelineError, PrimitiveState, StencilFaceState, StencilState,
    VertexAttribute, VertexBufferLayout, FORMAT_UNKNOWN,
};

const RGBA8: u32 = 28;
const D32: u32 = 40;

fn attr(format: VertexFormat, offset: u64, shader_location: u32) -> VertexAttribute {
    VertexAttribute { format, offset, shader_location }
}

fn buffer(step_mode: VertexStepMode, attributes: Vec<VertexAttribute>) -> VertexBufferLayout {
    VertexBufferLayout { array_stride: 0, step_mode, attributes }
}

fn primitive(polygon_mode: PolygonMode) -> PrimitiveState {
    PrimitiveState {
        topology: PrimitiveTopology::TriangleList,
        front_face: FrontFace::Ccw,
        cull_mode: Some(Face::Back),
        unclipped_depth: false,
        polygon_mode,
        conservative: false,
    }
}

fn ignore_face() -> StencilFaceState {
    StencilFaceState {
        compare: CompareFunction::Always,
        fail_op: StencilOperation::Keep,
        depth_fail_op: StencilOperation::Keep,
        pass_op: StencilOperation::Keep,
    }
}

fn depth_state(stencil: StencilState) -> DepthStencilState {
    DepthStencilState {
        format: D32,
        depth_write_enabled: Some(true),
        depth_compare: Some(CompareFunction::Greater),
        stencil,
        bias_constant: 2,
    }
}

fn no_stencil() -> StencilState {
    StencilState { front: ignore_face(), back: ignore_face(), read_mask: 0, write_mask: 0 }
}

#[test]
fn semantics_and_entry_points() {
    assert_eq!(location_semantic(0), "LOC0");
    assert_eq!(location_semantic(12), "LOC12");
    assert_eq!(entry_point(None), "main");
    assert_eq!(entry_point(Some("vs_main")), "vs_main");
    assert_eq!(pipeline_name(Some("pbr"), "bevy_render_pipeline"), "bevy_pbr");
    assert_eq!(pipeline_name(None, "bevy_render_pipeline"), "bevy_render_pipeline");
}

#[test]
fn vertex_layout_orders_by_location_with_buffer_slots() {
    let buffers = vec![
        buffer(VertexStepMode::Vertex, vec![attr(VertexFormat::Float32x3, 0, 2), attr(VertexFormat::Float32x2, 12, 0)]),
        buffer(VertexStepMode::Instance, vec![attr(VertexFormat::Unorm8x4, 4, 1)]),
    ];
    let layout = build_vertex_layout(&buffers).unwrap();
    assert_eq!(layout.len(), 3);
    assert_eq!(layout[0].semantic, "LOC0");
    assert_eq!(layout[0].buffer_slot, 0);
    assert_eq!(layout[0].relative_offset, 12);
    assert_eq!(layout[0].num_components, 2);
    assert_eq!(layout[1].semantic, "LOC1");
    assert_eq!(layout[1].buffer_slot, 1);
    assert_eq!(layout[1].value_type, ValueType::Uint8);
    assert!(layout[1].normalized);
    assert_eq!(layout[1].frequency, InputElementFrequency::PerInstance);
    assert_eq!(layout[2].semantic, "LOC2");
    assert_eq!(layout[2].frequency, InputElementFrequency::PerVertex);
    for (i, e) in layout.iter().enumerate() {
        assert_eq!(e.input_index, i as u32);
    }
}

#[test]
fn vertex_layout_refuses_unmapped_formats_and_empty_input() {
    let buffers = vec![buffer(VertexStepMode::Vertex, vec![attr(VertexFormat::Float64, 0, 0)])];
    assert!(build_vertex_layout(&buffers).is_none());
    assert!(build_vertex_layout(&[]).is_none());
    assert!(build_vertex_layout(&[buffer(VertexStepMode::Vertex, Vec::new())]).is_none());
}

#[test]
fn location_sort_is_stable() {
    let rec = |location, buffer_slot| AttributeRecord {
        location,
        buffer_slot,
        offset: 0,
        num_components: 1,
        value_type: ValueType::Float32,
        normalized: false,
        frequency: InputElementFrequency::PerVertex,
    };
    let sorted = sort_by_location(&[rec(3, 0), rec(1, 1), rec(3, 2), rec(0, 3)]);
    let order: Vec<(u32, u32)> = sorted.iter().map(|r| (r.location, r.buffer_slot)).collect();
    assert_eq!(order, vec![(0, 3), (1, 1), (3, 0), (3, 2)]);
}

#[test]
fn blend_targets_translate_factors_and_masks() {
    let blend = BlendState {
        color: BlendComponent {
            src_factor: BlendFactor::SrcAlpha,
            dst_factor: BlendFactor::OneMinusSrcAlpha,
            operation: BlendOperation::Add,
        },
        alpha: BlendComponent { src_factor: BlendFactor::One, dst_factor: BlendFactor::Zero, operation: BlendOperation::Max },
    };
    let rt = translate_blend_target(&ColorTargetInput { format: RGBA8, write_mask: COLOR_WRITE_ALL, blend: Some(blend) });
    let b = rt.blend.unwrap();
    assert_eq!(b.src_blend, DiligentBlendFactor::SrcAlpha);
    assert_eq!(b.dest_blend, DiligentBlendFactor::InvSrcAlpha);
    assert_eq!(b.blend_op, DiligentBlendOperation::Add);
    assert_eq!(b.blend_op_alpha, DiligentBlendOperation::Max);
    assert_eq!(rt.write_mask, 15);
    let no_blend = translate_blend_target(&ColorTargetInput { format: RGBA8, write_mask: 1, blend: None });
    assert_eq!(no_blend.blend, None);
    assert_eq!(no_blend.write_mask, 1);
    assert_eq!(no_write_blend_target().write_mask, COLOR_MASK_NONE);
}

#[test]
fn depth_stencil_translation() {
    assert_eq!(translate_depth_stencil(None), None);
    let mut unknown = depth_state(no_stencil());
    unknown.format = FORMAT_UNKNOWN;
    assert_eq!(translate_depth_stencil(Some(unknown)), None);

    let ds = translate_depth_stencil(Some(depth_state(no_stencil()))).unwrap();
    assert!(ds.depth_write_enable);
    assert_eq!(ds.depth_func, ComparisonFunction::Greater);
    assert_eq!(ds.stencil, None);

    let face = StencilFaceState {
        compare: CompareFunction::Equal,
        fail_op: StencilOperation::Zero,
        depth_fail_op: StencilOperation::Keep,
        pass_op: StencilOperation::Replace,
    };
    let stencil = StencilState { front: face, back: ignore_face(), read_mask: 0x1ff, write_mask: 0xff };
    assert!(stencil.is_enabled());
    assert!(!no_stencil().is_enabled());
    let ds = translate_depth_stencil(Some(depth_state(stencil))).unwrap();
    let s = ds.stencil.unwrap();
    assert_eq!(s.read_mask, 0xff);
    assert_eq!(s.front.pass_op, StencilOp::Replace);
    assert_eq!(s.front.func, ComparisonFunction::Equal);
    assert_eq!(s.back, translate_stencil_face(&ignore_face()));

    let mut defaults = depth_state(no_stencil());
    defaults.depth_write_enabled = None;
    defaults.depth_compare = None;
    let ds = translate_depth_stencil(Some(defaults)).unwrap();
    assert!(!ds.depth_write_enable);
    assert_eq!(ds.depth_func, ComparisonFunction::Always);
}

#[test]
fn rasterizer_translation() {
    let ra = translate_rasterizer(&primitive(PolygonMode::Line), &Some(depth_state(no_stencil()))).unwrap();
    assert_eq!(ra.fill_mode, FillMode::Wireframe);
    assert_eq!(ra.cull_mode, CullMode::Back);
    assert!(ra.front_counter_clockwise);
    assert!(ra.depth_clip_enable);
    assert_eq!(ra.depth_bias, 2);
    assert_eq!(translate_rasterizer(&primitive(PolygonMode::Point), &None), None);
}

#[test]
fn graphics_pipeline_plan_checks_in_order() {
    let vb = vec![buffer(VertexStepMode::Vertex, vec![attr(VertexFormat::Float32x3, 0, 0)])];
    let target = Some(ColorTargetInput { format: RGBA8, write_mask: COLOR_WRITE_ALL, blend: None });
    let targets = vec![target, None];
    let plan = plan_graphics_pipeline(
        Some(&targets),
        Some(depth_state(no_stencil())),
        &vb,
        primitive(PolygonMode::Fill),
        1,
        4,
        0x1_0000_000f,
        Some("mesh"),
    )
    .ok()
    .unwrap();
    assert_eq!(plan.name, "bevy_mesh");
    assert_eq!(plan.rtv_formats, vec![RGBA8, FORMAT_UNKNOWN]);
    assert_eq!(plan.blend_targets[1], no_write_blend_target());
    assert_eq!(plan.dsv_format, D32);
    assert_eq!(plan.layout.len(), 1);
    assert_eq!(plan.topology, DiligentPrimitiveTopology::TriangleList);
    assert_eq!(plan.sample_count, 4);
    assert_eq!(plan.sample_mask, 0xf);

    let nine = vec![target; 9];
    assert_eq!(
        plan_graphics_pipeline(Some(&nine), None, &vb, primitive(PolygonMode::Fill), 1, 1, 1, None).err(),
        Some(PipelineError::TooManyTargets { count: 9 })
    );
    assert_eq!(
        plan_graphics_pipeline(None, None, &vb, primitive(PolygonMode::Fill), 1, 1, 1, None).err(),
        Some(PipelineError::NoTargets)
    );
    assert_eq!(
        plan_graphics_pipeline(Some(&targets), None, &[], primitive(PolygonMode::Fill), 1, 1, 1, None).err(),
        Some(PipelineError::VertexLayout)
    );
    assert_eq!(
        plan_graphics_pipeline(Some(&targets), None, &vb, primitive(PolygonMode::Fill), 0, 1, 1, None).err(),
        Some(PipelineError::NoResourceSignatures)
    );
    assert_eq!(
        plan_graphics_pipeline(Some(&targets), None, &vb, primitive(PolygonMode::Point), 1, 1, 1, None).err(),
        Some(PipelineError::PointPolygonMode)
    );
    let depth_only = plan_graphics_pipeline(None, Some(depth_state(no_stencil())), &vb, primitive(PolygonMode::Fill), 1, 1, 1, None)
        .ok()
        .unwrap();
    assert_eq!(depth_only.name, "bevy_render_pipeline");
    assert!(depth_only.rtv_formats.is_empty());
}

#[test]
fn pipeline_state_status_decides_readiness() {
    assert!(diligent_pso_ready(None));
    assert!(!diligent_pso_ready(Some(Ok(PipelineStateStatus::Compiling))));
    assert!(diligent_pso_ready(Some(Ok(PipelineStateStatus::Ready))));
    assert!(diligent_pso_ready(Some(Ok(PipelineStateStatus::Failed))));
    assert!(diligent_pso_ready(Some(Err("status unavailable".to_string()))));
    assert!(!diligent_pso_failed(None));
    assert!(diligent_pso_failed(Some(Ok(PipelineStateStatus::Failed))));
    assert!(!diligent_pso_failed(Some(Ok(PipelineStateStatus::Compiling))));
    assert!(!diligent_pso_failed(Some(Err("status unavailable".to_string()))));
}
