//! The description of the interface's render pipeline that is gathered before
//! the pipeline is built.

use vstd::prelude::*;

verus! {

#[verifier::external_type_specification]
#[verifier::external_body]
pub struct ExVertexBufferLayout<'a>(wgpu::VertexBufferLayout<'a>);

/// How vertices are grouped into primitives.
#[derive(Clone, Copy, PartialEq, Eq, Structural, Debug)]
pub enum PrimitiveTopology {
    PointList,
    LineList,
    LineStrip,
    TriangleList,
    TriangleStrip,
}

/// The width of the indices that end a strip.
#[derive(Clone, Copy, PartialEq, Eq, Structural, Debug)]
pub enum IndexFormat {
    Uint16,
    Uint32,
}

/// The winding of triangles that face the viewer.
#[derive(Clone, Copy, PartialEq, Eq, Structural, Debug)]
pub enum FrontFace {
    Ccw,
    Cw,
}

/// A side of a triangle.
#[derive(Clone, Copy, PartialEq, Eq, Structural, Debug)]
pub enum Face {
    Front,
    Back,
}

/// How triangles are filled.
#[derive(Clone, Copy, PartialEq, Eq, Structural, Debug)]
pub enum PolygonMode {
    Fill,
    Line,
    Point,
}

/// The comparison a depth test makes.
#[derive(Clone, Copy, PartialEq, Eq, Structural, Debug)]
pub enum CompareFunction {
    Never,
    Less,
    Equal,
    LessEqual,
    Greater,
    NotEqual,
    GreaterEqual,
    Always,
}

/// Formats a depth buffer can have.
#[derive(Clone, Copy, PartialEq, Eq, Structural, Debug)]
pub enum DepthFormat {
    Depth16Unorm,
    Depth24Plus,
    Depth24PlusStencil8,
    Depth32Float,
    Depth32FloatStencil8,
}

/// How a fragment's colour is combined with the target's.
#[derive(Clone, Copy, PartialEq, Eq, Structural, Debug)]
pub enum BlendMode {
    /// The fragment's colour replaces the target's.
    Replace,
    AlphaBlending,
    PremultipliedAlphaBlending,
}

/// Which colour channels a fragment writes.
#[derive(Clone, Copy, PartialEq, Eq, Structural, Debug)]
pub struct ColorWrites {
    pub red: bool,
    pub green: bool,
    pub blue: bool,
    pub alpha: bool,
}

/// The colour target of a pipeline.
#[derive(Clone, Copy, Debug)]
pub struct ColorTargetDesc {
    pub format: wgpu::TextureFormat,
    pub blend: Option<BlendMode>,
    pub write_mask: ColorWrites,
}

/// How vertices become primitives and which of them are drawn.
#[derive(Clone, Copy, PartialEq, Eq, Structural, Debug)]
pub struct PrimitiveDesc {
    pub topology: PrimitiveTopology,
    pub strip_index_format: Option<IndexFormat>,
    pub front_face: FrontFace,
    pub cull_mode: Option<Face>,
    pub unclipped_depth: bool,
    pub polygon_mode: PolygonMode,
    pub conservative: bool,
}

/// The depth test of a pipeline.
#[derive(Clone, Copy, PartialEq, Eq, Structural, Debug)]
pub struct DepthStencilDesc {
    pub format: DepthFormat,
    pub depth_write_enabled: bool,
    pub depth_compare: CompareFunction,
    /// The stencil state is the default one: no stencil test.
    pub default_stencil: bool,
    /// The depth bias is the default one: none.
    pub default_bias: bool,
}

/// Multisampling of a pipeline.
#[derive(Clone, Copy, PartialEq, Eq, Structural, Debug)]
pub struct MultisampleDesc {
    pub count: u32,
    pub mask: u64,
    pub alpha_to_coverage_enabled: bool,
}

/// Every choice the interface pipeline is built with, beside its vertex
/// buffer layouts.
#[derive(Clone, Copy, Debug)]
pub struct PipelineDesc {
    pub label: &'static str,
    pub layout_label: &'static str,
    pub shader_label: &'static str,
    pub vertex_entry_point: &'static str,
    pub fragment_entry_point: &'static str,
    /// Number of bind group layouts of the pipeline layout.
    pub bind_group_layouts: usize,
    /// Number of push constant ranges of the pipeline layout.
    pub push_constant_ranges: usize,
    /// The single colour target.
    pub color_target: ColorTargetDesc,
    pub primitive: PrimitiveDesc,
    pub depth_stencil: Option<DepthStencilDesc>,
    pub multisample: MultisampleDesc,
    /// Number of array layers rendered to at once, when more than one.
    pub multiview: Option<u32>,
    /// A pipeline cache is used.
    pub uses_cache: bool,
}

/// All four colour channels.
pub open spec fn all_channels() -> ColorWrites {
    ColorWrites { red: true, green: true, blue: true, alpha: true }
}

/// The interface pipeline for the given pixel format: one colour target that
/// is replaced in all channels; triangle lists, counter-clockwise front
/// faces, back faces culled, filled, clipped and not conservative; a 32-bit
/// float depth buffer that is written and always passes, with no stencil and
/// no bias; one sample with all bits of the mask and no alpha to coverage;
/// no multiview and no cache.
pub open spec fn ui_pipeline_desc(format: wgpu::TextureFormat) -> PipelineDesc {
    PipelineDesc {
        label: "UI Render Pipeline",
        layout_label: "UI Render Pipeline Layout",
        shader_label: "UI Shader Module",
        vertex_entry_point: "vs_main",
        fragment_entry_point: "fs_main",
        bind_group_layouts: 0,
        push_constant_ranges: 0,
        color_target: ColorTargetDesc {
            format,
            blend: Some(BlendMode::Replace),
            write_mask: all_channels(),
        },
        primitive: PrimitiveDesc {
            topology: PrimitiveTopology::TriangleList,
            strip_index_format: None,
            front_face: FrontFace::Ccw,
            cull_mode: Some(Face::Back),
            unclipped_depth: false,
            polygon_mode: PolygonMode::Fill,
            conservative: false,
        },
        depth_stencil: Some(DepthStencilDesc {
            format: DepthFormat::Depth32Float,
            depth_write_enabled: true,
            depth_compare: CompareFunction::Always,
            default_stencil: true,
            default_bias: true,
        }),
        multisample: MultisampleDesc { count: 1, mask: 1, alpha_to_coverage_enabled: false },
        multiview: None,
        uses_cache: false,
    }
}

/// The pixel format and vertex buffer layouts of the interface pipeline.
pub struct UIPipeline {
    pixel_format: wgpu::TextureFormat,
    vertex_buffer_layouts: Vec<wgpu::VertexBufferLayout<'static>>,
}

impl UIPipeline {
    /// The format the pipeline renders to.
    pub closed spec fn format(&self) -> wgpu::TextureFormat {
        self.pixel_format
    }

    /// The vertex buffer layouts, in the order they were added.
    pub closed spec fn layouts(&self) -> Seq<wgpu::VertexBufferLayout<'static>> {
        self.vertex_buffer_layouts@
    }

    /// A pipeline description for the given pixel format, with no vertex
    /// buffers yet.
    pub fn new(pixel_format: wgpu::TextureFormat) -> (p: Self)
        ensures
            p.format() == pixel_format,
            p.layouts() == Seq::<wgpu::VertexBufferLayout<'static>>::empty(),
    {
        UIPipeline { pixel_format, vertex_buffer_layouts: Vec::new() }
    }

    /// Adds the layout of the next vertex buffer.
    pub fn add_buffer_layout(&mut self, layout: wgpu::VertexBufferLayout<'static>)
        ensures
            final(self).format() == old(self).format(),
            final(self).layouts() == old(self).layouts().push(layout),
    {
        self.vertex_buffer_layouts.push(layout);
    }

    /// The format the pipeline renders to.
    pub fn pixel_format(&self) -> (f: wgpu::TextureFormat)
        ensures
            f == self.format(),
    {
        self.pixel_format
    }

    /// Every choice the pipeline is built with, beside its vertex buffer
    /// layouts.
    pub fn pipeline_desc(&self) -> (d: PipelineDesc)
        ensures
            d == ui_pipeline_desc(self.format()),
    {
        PipelineDesc {
            label: "UI Render Pipeline",
            layout_label: "UI Render Pipeline Layout",
            shader_label: "UI Shader Module",
            vertex_entry_point: "vs_main",
            fragment_entry_point: "fs_main",
            bind_group_layouts: 0,
            push_constant_ranges: 0,
            color_target: ColorTargetDesc {
                format: self.pixel_format,
                blend: Some(BlendMode::Replace),
                write_mask: ColorWrites { red: true, green: true, blue: true, alpha: true },
            },
            primitive: PrimitiveDesc {
                topology: PrimitiveTopology::TriangleList,
                strip_index_format: None,
                front_face: FrontFace::Ccw,
                cull_mode: Some(Face::Back),
                unclipped_depth: false,
                polygon_mode: PolygonMode::Fill,
                conservative: false,
            },
            depth_stencil: Some(DepthStencilDesc {
                format: DepthFormat::Depth32Float,
                depth_write_enabled: true,
                depth_compare: CompareFunction::Always,
                default_stencil: true,
                default_bias: true,
            }),
            multisample: MultisampleDesc { count: 1, mask: 1, alpha_to_coverage_enabled: false },
            multiview: None,
            uses_cache: false,
        }
    }

    /// The vertex buffer layouts, in the order they were added.
    pub fn vertex_buffer_layouts(&self) -> (layouts: &Vec<wgpu::VertexBufferLayout<'static>>)
        ensures
            layouts@ == self.layouts(),
    {
        &self.vertex_buffer_layouts
    }
}

} // verus!
