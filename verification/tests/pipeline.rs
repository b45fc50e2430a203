use telera::pipeline::{
    BlendMode, ColorWrites, CompareFunction, DepthFormat, DepthStencilDesc, Face, FrontFace, MultisampleDesc,
    PolygonMode, PrimitiveDesc, PrimitiveTopology, UIPipeline,
};

const ATTR: [wgpu::VertexAttribute; 2] = [
    wgpu::VertexAttribute { format: wgpu::VertexFormat::Float32x3, offset: 0, shader_location: 0 },
    wgpu::VertexAttribute { format: wgpu::VertexFormat::Float32x3, offset: 12, shader_location: 1 },
];

#[test]
fn layouts_are_kept_in_order() {
    let mut p = UIPipeline::new(wgpu::TextureFormat::Bgra8UnormSrgb);
    assert_eq!(p.pixel_format(), wgpu::TextureFormat::Bgra8UnormSrgb);
    assert!(p.vertex_buffer_layouts().is_empty());
    let first = wgpu::VertexBufferLayout { array_stride: 24, step_mode: wgpu::VertexStepMode::Vertex, attributes: &ATTR };
    let second = wgpu::VertexBufferLayout { array_stride: 12, step_mode: wgpu::VertexStepMode::Instance, attributes: &ATTR[..1] };
    p.add_buffer_layout(first.clone());
    p.add_buffer_layout(second.clone());
    assert_eq!(p.vertex_buffer_layouts(), &vec![first, second]);
    assert_eq!(p.pixel_format(), wgpu::TextureFormat::Bgra8UnormSrgb);
}

#[test]
fn fixed_pipeline_choices() {
    let p = UIPipeline::new(wgpu::TextureFormat::Rgba8UnormSrgb);
    let d = p.pipeline_desc();
    assert_eq!(d.color_target.format, wgpu::TextureFormat::Rgba8UnormSrgb);
    assert_eq!(d.color_target.blend, Some(BlendMode::Replace));
    assert_eq!(d.color_target.write_mask, ColorWrites { red: true, green: true, blue: true, alpha: true });
    assert_eq!((d.vertex_entry_point, d.fragment_entry_point), ("vs_main", "fs_main"));
    assert_eq!(d.label, "UI Render Pipeline");
    assert_eq!((d.bind_group_layouts, d.push_constant_ranges), (0, 0));
    assert_eq!(
        d.primitive,
        PrimitiveDesc {
            topology: PrimitiveTopology::TriangleList,
            strip_index_format: None,
            front_face: FrontFace::Ccw,
            cull_mode: Some(Face::Back),
            unclipped_depth: false,
            polygon_mode: PolygonMode::Fill,
            conservative: false,
        }
    );
    assert_eq!(
        d.depth_stencil,
        Some(DepthStencilDesc {
            format: DepthFormat::Depth32Float,
            depth_write_enabled: true,
            depth_compare: CompareFunction::Always,
            default_stencil: true,
            default_bias: true,
        })
    );
    assert_eq!(d.multisample, MultisampleDesc { count: 1, mask: 1, alpha_to_coverage_enabled: false });
    assert_eq!(d.multiview, None);
    assert!(!d.uses_cache);
}
