//! Graphics pipeline layout decisions: push-constant ranges per shader
//! stage and the vertex input layout.
use vstd::prelude::*;
use crate::descriptors::{SHADER_STAGE_FRAGMENT, SHADER_STAGE_VERTEX};
use crate::swapchain::Extent2D;
use crate::config::{HEIGHT, WIDTH};

verus! {

/// `VK_VERTEX_INPUT_RATE_VERTEX`
pub const VERTEX_INPUT_RATE_VERTEX: i32 = 0;

/// `VK_PIPELINE_BIND_POINT_GRAPHICS`
pub const PIPELINE_BIND_POINT_GRAPHICS: i32 = 0;

/// `VK_PRIMITIVE_TOPOLOGY_TRIANGLE_LIST`
pub const PRIMITIVE_TOPOLOGY_TRIANGLE_LIST: i32 = 3;

/// `VK_POLYGON_MODE_FILL`
pub const POLYGON_MODE_FILL: i32 = 0;

/// `VK_POLYGON_MODE_LINE`
pub const POLYGON_MODE_LINE: i32 = 1;

/// `VK_CULL_MODE_BACK_BIT`
pub const CULL_MODE_BACK: u32 = 0x2;

/// `VK_FRONT_FACE_CLOCKWISE`
pub const FRONT_FACE_CLOCKWISE: i32 = 1;

/// `VK_SAMPLE_COUNT_1_BIT`
pub const SAMPLE_COUNT_1: u32 = 0x1;

/// `VK_STENCIL_OP_KEEP`
pub const STENCIL_OP_KEEP: i32 = 0;

/// `VK_COMPARE_OP_LESS_OR_EQUAL`
pub const COMPARE_OP_LESS_OR_EQUAL: i32 = 3;

/// `VK_COMPARE_OP_ALWAYS`
pub const COMPARE_OP_ALWAYS: i32 = 7;

/// `VK_COMPARE_OP_NEVER`
pub const COMPARE_OP_NEVER: i32 = 0;

/// `VK_COMPARE_OP_LESS`
pub const COMPARE_OP_LESS: i32 = 1;

/// `VK_CULL_MODE_NONE`
pub const CULL_MODE_NONE: u32 = 0;

/// `VK_LOGIC_OP_CLEAR`
pub const LOGIC_OP_CLEAR: i32 = 0;

/// `VK_BLEND_FACTOR_ZERO`
pub const BLEND_FACTOR_ZERO: i32 = 0;

/// `VK_BLEND_FACTOR_ONE`
pub const BLEND_FACTOR_ONE: i32 = 1;

/// `VK_BLEND_OP_ADD`
pub const BLEND_OP_ADD: i32 = 0;

/// `VK_LOGIC_OP_COPY`
pub const LOGIC_OP_COPY: i32 = 3;

/// All four colour components: R, G, B and A.
pub const COLOR_COMPONENT_RGBA: u32 = 0xf;

/// How triangles are turned into fragments. Line width and depth-bias
/// factors are fixed (one pixel; no bias) and set where the pipeline is
/// created.
#[derive(Clone, Copy, PartialEq, Eq, Structural, Debug)]
pub struct RasterizationSettings {
    pub depth_clamp_enable: bool,
    pub rasterizer_discard_enable: bool,
    pub polygon_mode: i32,
    pub cull_mode: u32,
    pub front_face: i32,
    pub depth_bias_enable: bool,
}

/// What the stencil test does on one face.
#[derive(Clone, Copy, PartialEq, Eq, Structural, Debug)]
pub struct StencilOpSettings {
    pub fail_op: i32,
    pub pass_op: i32,
    pub depth_fail_op: i32,
    pub compare_op: i32,
    pub compare_mask: u32,
    pub write_mask: u32,
    pub reference: u32,
}

/// The depth and stencil tests. The depth bounds are fixed to the whole
/// range, 0 to 1, and set where the pipeline is created.
#[derive(Clone, Copy, PartialEq, Eq, Structural, Debug)]
pub struct DepthStencilSettings {
    pub depth_test_enable: bool,
    pub depth_write_enable: bool,
    pub depth_compare_op: i32,
    pub depth_bounds_test_enable: bool,
    pub stencil_test_enable: bool,
    pub front: StencilOpSettings,
    pub back: StencilOpSettings,
}

/// How one colour attachment is blended.
#[derive(Clone, Copy, PartialEq, Eq, Structural, Debug)]
pub struct ColorBlendAttachmentSettings {
    pub blend_enable: bool,
    pub color_write_mask: u32,
    pub src_color_blend_factor: i32,
    pub dst_color_blend_factor: i32,
    pub color_blend_op: i32,
    pub src_alpha_blend_factor: i32,
    pub dst_alpha_blend_factor: i32,
    pub alpha_blend_op: i32,
}

/// The fixed-function state of a graphics pipeline, before the pipeline is
/// created: the viewport and scissor cover `extent` from the origin, with
/// depths from 0 to 1; multisampling takes one sample per pixel, with the
/// minimum sample shading at 1; the blend constants are all 0.
#[derive(Clone, Copy, PartialEq, Eq, Structural, Debug)]
pub struct PipelineSettings {
    pub pipeline_bindpoint: i32,
    pub topology: i32,
    pub primitive_restart_enable: bool,
    pub extent: Extent2D,
    pub rasterization: RasterizationSettings,
    pub rasterization_samples: u32,
    pub sample_shading_enable: bool,
    pub alpha_to_coverage_enable: bool,
    pub alpha_to_one_enable: bool,
    pub depth_stencil: DepthStencilSettings,
    pub color_blend_attachment: ColorBlendAttachmentSettings,
    pub logic_op_enable: bool,
    pub logic_op: i32,
    pub push_constants: PushConstantOffsets,
}

/// A stencil face that keeps every value and always passes.
pub open spec fn keep_stencil_op() -> StencilOpSettings {
    StencilOpSettings {
        fail_op: STENCIL_OP_KEEP,
        pass_op: STENCIL_OP_KEEP,
        depth_fail_op: STENCIL_OP_KEEP,
        compare_op: COMPARE_OP_ALWAYS,
        compare_mask: 0,
        write_mask: 0,
        reference: 0,
    }
}

/// The engine's default pipeline state: triangle lists; filled polygons
/// with back faces culled and clockwise front faces; one sample per pixel;
/// depth test and write with less-or-equal, no stencil test; one colour
/// attachment written in full without blending; no logic op; no push
/// constants.
pub open spec fn default_settings(extent: Extent2D, pipeline_bindpoint: i32) -> PipelineSettings {
    PipelineSettings {
        pipeline_bindpoint,
        topology: PRIMITIVE_TOPOLOGY_TRIANGLE_LIST,
        primitive_restart_enable: false,
        extent,
        rasterization: RasterizationSettings {
            depth_clamp_enable: false,
            rasterizer_discard_enable: false,
            polygon_mode: POLYGON_MODE_FILL,
            cull_mode: CULL_MODE_BACK,
            front_face: FRONT_FACE_CLOCKWISE,
            depth_bias_enable: false,
        },
        rasterization_samples: SAMPLE_COUNT_1,
        sample_shading_enable: false,
        alpha_to_coverage_enable: false,
        alpha_to_one_enable: false,
        depth_stencil: DepthStencilSettings {
            depth_test_enable: true,
            depth_write_enable: true,
            depth_compare_op: COMPARE_OP_LESS_OR_EQUAL,
            depth_bounds_test_enable: false,
            stencil_test_enable: false,
            front: keep_stencil_op(),
            back: keep_stencil_op(),
        },
        color_blend_attachment: ColorBlendAttachmentSettings {
            blend_enable: false,
            color_write_mask: COLOR_COMPONENT_RGBA,
            src_color_blend_factor: BLEND_FACTOR_ONE,
            dst_color_blend_factor: BLEND_FACTOR_ZERO,
            color_blend_op: BLEND_OP_ADD,
            src_alpha_blend_factor: BLEND_FACTOR_ONE,
            dst_alpha_blend_factor: BLEND_FACTOR_ZERO,
            alpha_blend_op: BLEND_OP_ADD,
        },
        logic_op_enable: false,
        logic_op: LOGIC_OP_COPY,
        push_constants: PushConstantOffsets {
            vertex_shader_push_constants_byte_offset: None,
            fragment_shader_push_constants_byte_offset: None,
        },
    }
}

/// The push-constant bytes claimed so far by each shader stage.
#[derive(Clone, Copy, PartialEq, Eq, Structural, Debug)]
pub struct PushConstantOffsets {
    pub vertex_shader_push_constants_byte_offset: Option<u32>,
    pub fragment_shader_push_constants_byte_offset: Option<u32>,
}

/// `size` more bytes after `offset`, where there is one.
pub open spec fn grown(offset: Option<u32>, size: u32) -> Option<u32> {
    match offset {
        Some(o) => Some((o + size) as u32),
        None => Some(size),
    }
}

/// The offset can take `size` more bytes.
pub open spec fn can_grow(offset: Option<u32>, size: u32) -> bool {
    match offset {
        Some(o) => o + size <= u32::MAX,
        None => true,
    }
}

impl PushConstantOffsets {
    /// No push constants yet.
    pub fn new() -> (p: Self)
        ensures
            p.vertex_shader_push_constants_byte_offset is None,
            p.fragment_shader_push_constants_byte_offset is None,
    {
        PushConstantOffsets {
            vertex_shader_push_constants_byte_offset: None,
            fragment_shader_push_constants_byte_offset: None,
        }
    }

    /// Adds `size` bytes of vertex-shader push constants.
    pub fn add_vertex_shader_push_constants(&mut self, size: u32)
        requires
            can_grow(old(self).vertex_shader_push_constants_byte_offset, size),
        ensures
            final(self).vertex_shader_push_constants_byte_offset == grown(
                old(self).vertex_shader_push_constants_byte_offset,
                size,
            ),
            final(self).fragment_shader_push_constants_byte_offset == old(
                self,
            ).fragment_shader_push_constants_byte_offset,
    {
        match self.vertex_shader_push_constants_byte_offset {
            Some(offset) => {
                self.vertex_shader_push_constants_byte_offset = Some(offset + size);
            },
            None => {
                self.vertex_shader_push_constants_byte_offset = Some(size);
            },
        }
    }

    /// Adds `size` bytes of fragment-shader push constants.
    pub fn add_fragment_shader_push_constants(&mut self, size: u32)
        requires
            can_grow(old(self).fragment_shader_push_constants_byte_offset, size),
        ensures
            final(self).fragment_shader_push_constants_byte_offset == grown(
                old(self).fragment_shader_push_constants_byte_offset,
                size,
            ),
            final(self).vertex_shader_push_constants_byte_offset == old(
                self,
            ).vertex_shader_push_constants_byte_offset,
    {
        match self.fragment_shader_push_constants_byte_offset {
            Some(offset) => {
                self.fragment_shader_push_constants_byte_offset = Some(offset + size);
            },
            None => {
                self.fragment_shader_push_constants_byte_offset = Some(size);
            },
        }
    }

    /// Adds the push constants of a `P` for the shader stage `stage`, which
    /// must be the vertex or the fragment stage.
    pub fn add_push_constants<P>(&mut self, stage: u32)
        requires
            stage == SHADER_STAGE_VERTEX || stage == SHADER_STAGE_FRAGMENT,
            stage == SHADER_STAGE_VERTEX ==> can_grow(
                old(self).vertex_shader_push_constants_byte_offset,
                vstd::layout::size_of::<P>() as u32,
            ),
            stage == SHADER_STAGE_FRAGMENT ==> can_grow(
                old(self).fragment_shader_push_constants_byte_offset,
                vstd::layout::size_of::<P>() as u32,
            ),
        ensures
            stage == SHADER_STAGE_VERTEX ==> *final(self) == (PushConstantOffsets {
                vertex_shader_push_constants_byte_offset: grown(
                    old(self).vertex_shader_push_constants_byte_offset,
                    vstd::layout::size_of::<P>() as u32,
                ),
                ..*old(self)
            }),
            stage == SHADER_STAGE_FRAGMENT ==> *final(self) == (PushConstantOffsets {
                fragment_shader_push_constants_byte_offset: grown(
                    old(self).fragment_shader_push_constants_byte_offset,
                    vstd::layout::size_of::<P>() as u32,
                ),
                ..*old(self)
            }),
    {
        let size = core::mem::size_of::<P>() as u32;
        if stage == SHADER_STAGE_VERTEX {
            self.add_vertex_shader_push_constants(size);
        } else {
            self.add_fragment_shader_push_constants(size);
        }
    }
}

/// A stencil face left at its zero values: keep on every outcome, compare
/// never, no masks.
pub open spec fn zero_stencil_op() -> StencilOpSettings {
    StencilOpSettings {
        fail_op: STENCIL_OP_KEEP,
        pass_op: STENCIL_OP_KEEP,
        depth_fail_op: STENCIL_OP_KEEP,
        compare_op: COMPARE_OP_NEVER,
        compare_mask: 0,
        write_mask: 0,
        reference: 0,
    }
}

/// The pipeline state of the engine's first pipeline builder: drawn at the
/// initial window size, triangle lists, filled polygons with no culling and
/// clockwise front faces, one sample per pixel, depth test and write with
/// less-than and no stencil test (the stencil faces at their zero values),
/// one colour attachment written in full without blending, logic op
/// CLEAR (not enabled), no push constants.
pub open spec fn fixed_window_settings() -> PipelineSettings {
    PipelineSettings {
        pipeline_bindpoint: PIPELINE_BIND_POINT_GRAPHICS,
        topology: PRIMITIVE_TOPOLOGY_TRIANGLE_LIST,
        primitive_restart_enable: false,
        extent: Extent2D { width: WIDTH, height: HEIGHT },
        rasterization: RasterizationSettings {
            depth_clamp_enable: false,
            rasterizer_discard_enable: false,
            polygon_mode: POLYGON_MODE_FILL,
            cull_mode: CULL_MODE_NONE,
            front_face: FRONT_FACE_CLOCKWISE,
            depth_bias_enable: false,
        },
        rasterization_samples: SAMPLE_COUNT_1,
        sample_shading_enable: false,
        alpha_to_coverage_enable: false,
        alpha_to_one_enable: false,
        depth_stencil: DepthStencilSettings {
            depth_test_enable: true,
            depth_write_enable: true,
            depth_compare_op: COMPARE_OP_LESS,
            depth_bounds_test_enable: false,
            stencil_test_enable: false,
            front: zero_stencil_op(),
            back: zero_stencil_op(),
        },
        color_blend_attachment: ColorBlendAttachmentSettings {
            blend_enable: false,
            color_write_mask: COLOR_COMPONENT_RGBA,
            src_color_blend_factor: BLEND_FACTOR_ONE,
            dst_color_blend_factor: BLEND_FACTOR_ZERO,
            color_blend_op: BLEND_OP_ADD,
            src_alpha_blend_factor: BLEND_FACTOR_ONE,
            dst_alpha_blend_factor: BLEND_FACTOR_ZERO,
            alpha_blend_op: BLEND_OP_ADD,
        },
        logic_op_enable: false,
        logic_op: LOGIC_OP_CLEAR,
        push_constants: PushConstantOffsets {
            vertex_shader_push_constants_byte_offset: None,
            fragment_shader_push_constants_byte_offset: None,
        },
    }
}

fn keep_stencil_op_exec() -> (op: StencilOpSettings)
    ensures
        op == keep_stencil_op(),
{
    StencilOpSettings {
        fail_op: STENCIL_OP_KEEP,
        pass_op: STENCIL_OP_KEEP,
        depth_fail_op: STENCIL_OP_KEEP,
        compare_op: COMPARE_OP_ALWAYS,
        compare_mask: 0,
        write_mask: 0,
        reference: 0,
    }
}

impl PipelineSettings {
    /// The default state of a pipeline drawing into `swapchain_extent`.
    pub fn default(swapchain_extent: Extent2D, pipeline_bindpoint: i32) -> (p: Self)
        ensures
            p == default_settings(swapchain_extent, pipeline_bindpoint),
            !p.rasterization.rasterizer_discard_enable,
            !p.rasterization.depth_clamp_enable,
            !p.rasterization.depth_bias_enable,
            p.rasterization.polygon_mode == POLYGON_MODE_FILL,
    {
        PipelineSettings {
            pipeline_bindpoint,
            topology: PRIMITIVE_TOPOLOGY_TRIANGLE_LIST,
            primitive_restart_enable: false,
            extent: swapchain_extent,
            rasterization: RasterizationSettings {
                depth_clamp_enable: false,
                rasterizer_discard_enable: false,
                polygon_mode: POLYGON_MODE_FILL,
                cull_mode: CULL_MODE_BACK,
                front_face: FRONT_FACE_CLOCKWISE,
                depth_bias_enable: false,
            },
            rasterization_samples: SAMPLE_COUNT_1,
            sample_shading_enable: false,
            alpha_to_coverage_enable: false,
            alpha_to_one_enable: false,
            depth_stencil: DepthStencilSettings {
                depth_test_enable: true,
                depth_write_enable: true,
                depth_compare_op: COMPARE_OP_LESS_OR_EQUAL,
                depth_bounds_test_enable: false,
                stencil_test_enable: false,
                front: keep_stencil_op_exec(),
                back: keep_stencil_op_exec(),
            },
            color_blend_attachment: ColorBlendAttachmentSettings {
                blend_enable: false,
                color_write_mask: COLOR_COMPONENT_RGBA,
                src_color_blend_factor: BLEND_FACTOR_ONE,
                dst_color_blend_factor: BLEND_FACTOR_ZERO,
                color_blend_op: BLEND_OP_ADD,
                src_alpha_blend_factor: BLEND_FACTOR_ONE,
                dst_alpha_blend_factor: BLEND_FACTOR_ZERO,
                alpha_blend_op: BLEND_OP_ADD,
            },
            logic_op_enable: false,
            logic_op: LOGIC_OP_COPY,
            push_constants: PushConstantOffsets::new(),
        }
    }

    /// The state of the engine's first pipeline builder, at the initial
    /// window size.
    pub fn fixed_window_default() -> (p: Self)
        ensures
            p == fixed_window_settings(),
            !p.rasterization.rasterizer_discard_enable,
            !p.rasterization.depth_clamp_enable,
            !p.rasterization.depth_bias_enable,
            p.rasterization.polygon_mode == POLYGON_MODE_FILL,
    {
        let zero_op = StencilOpSettings {
            fail_op: STENCIL_OP_KEEP,
            pass_op: STENCIL_OP_KEEP,
            depth_fail_op: STENCIL_OP_KEEP,
            compare_op: COMPARE_OP_NEVER,
            compare_mask: 0,
            write_mask: 0,
            reference: 0,
        };
        PipelineSettings {
            pipeline_bindpoint: PIPELINE_BIND_POINT_GRAPHICS,
            topology: PRIMITIVE_TOPOLOGY_TRIANGLE_LIST,
            primitive_restart_enable: false,
            extent: Extent2D { width: WIDTH, height: HEIGHT },
            rasterization: RasterizationSettings {
                depth_clamp_enable: false,
                rasterizer_discard_enable: false,
                polygon_mode: POLYGON_MODE_FILL,
                cull_mode: CULL_MODE_NONE,
                front_face: FRONT_FACE_CLOCKWISE,
                depth_bias_enable: false,
            },
            rasterization_samples: SAMPLE_COUNT_1,
            sample_shading_enable: false,
            alpha_to_coverage_enable: false,
            alpha_to_one_enable: false,
            depth_stencil: DepthStencilSettings {
                depth_test_enable: true,
                depth_write_enable: true,
                depth_compare_op: COMPARE_OP_LESS,
                depth_bounds_test_enable: false,
                stencil_test_enable: false,
                front: zero_op,
                back: zero_op,
            },
            color_blend_attachment: ColorBlendAttachmentSettings {
                blend_enable: false,
                color_write_mask: COLOR_COMPONENT_RGBA,
                src_color_blend_factor: BLEND_FACTOR_ONE,
                dst_color_blend_factor: BLEND_FACTOR_ZERO,
                color_blend_op: BLEND_OP_ADD,
                src_alpha_blend_factor: BLEND_FACTOR_ONE,
                dst_alpha_blend_factor: BLEND_FACTOR_ZERO,
                alpha_blend_op: BLEND_OP_ADD,
            },
            logic_op_enable: false,
            logic_op: LOGIC_OP_CLEAR,
            push_constants: PushConstantOffsets::new(),
        }
    }

    /// Draws polygons as outlines; everything else stays as it was.
    pub fn wireframe_mode(self) -> (p: Self)
        ensures
            p == with_wireframe(self),
    {
        let mut p = self;
        p.rasterization.polygon_mode = POLYGON_MODE_LINE;
        p
    }

    /// Adds the push constants of a `P` for the shader stage `stage`, which
    /// must be the vertex or the fragment stage; everything else stays as
    /// it was.
    pub fn add_push_constants<P>(self, stage: u32) -> (p: Self)
        requires
            stage == SHADER_STAGE_VERTEX || stage == SHADER_STAGE_FRAGMENT,
            stage == SHADER_STAGE_VERTEX ==> can_grow(
                self.push_constants.vertex_shader_push_constants_byte_offset,
                vstd::layout::size_of::<P>() as u32,
            ),
            stage == SHADER_STAGE_FRAGMENT ==> can_grow(
                self.push_constants.fragment_shader_push_constants_byte_offset,
                vstd::layout::size_of::<P>() as u32,
            ),
        ensures
            stage == SHADER_STAGE_VERTEX ==> p == (PipelineSettings {
                push_constants: PushConstantOffsets {
                    vertex_shader_push_constants_byte_offset: grown(
                        self.push_constants.vertex_shader_push_constants_byte_offset,
                        vstd::layout::size_of::<P>() as u32,
                    ),
                    ..self.push_constants
                },
                ..self
            }),
            stage == SHADER_STAGE_FRAGMENT ==> p == (PipelineSettings {
                push_constants: PushConstantOffsets {
                    fragment_shader_push_constants_byte_offset: grown(
                        self.push_constants.fragment_shader_push_constants_byte_offset,
                        vstd::layout::size_of::<P>() as u32,
                    ),
                    ..self.push_constants
                },
                ..self
            }),
    {
        let mut p = self;
        p.push_constants.add_push_constants::<P>(stage);
        p
    }
}

/// `p` with polygons drawn as outlines.
pub open spec fn with_wireframe(p: PipelineSettings) -> PipelineSettings {
    PipelineSettings {
        rasterization: RasterizationSettings { polygon_mode: POLYGON_MODE_LINE, ..p.rasterization },
        ..p
    }
}

/// Wireframe mode changes the polygon mode alone, and asking for it twice
/// is the same as asking once.
pub proof fn law_wireframe_mode_is_idempotent(p: PipelineSettings)
    ensures
        with_wireframe(with_wireframe(p)) == with_wireframe(p),
        with_wireframe(p).rasterization.polygon_mode == POLYGON_MODE_LINE,
        p.rasterization.polygon_mode == POLYGON_MODE_LINE ==> with_wireframe(p) == p,
        with_wireframe(p).rasterization.cull_mode == p.rasterization.cull_mode,
        with_wireframe(p).depth_stencil == p.depth_stencil,
        with_wireframe(p).color_blend_attachment == p.color_blend_attachment,
        with_wireframe(p).push_constants == p.push_constants,
{
}

/// How a vertex buffer is stepped through.
#[derive(Clone, Copy, PartialEq, Eq, Structural, Debug)]
pub struct VertexInputBindingDescription {
    pub binding: u32,
    pub stride: u32,
    pub input_rate: i32,
}

/// Where one attribute of a vertex lies.
#[derive(Clone, Copy, PartialEq, Eq, Structural, Debug)]
pub struct VertexInputAttributeDescription {
    pub location: u32,
    pub binding: u32,
    pub format: i32,
    pub offset: u32,
}

/// One binding, 0, stepping one whole `V` per vertex.
pub fn vertex_binding_descriptions<V>() -> (d: Vec<VertexInputBindingDescription>)
    ensures
        d@ == seq![
            VertexInputBindingDescription {
                binding: 0,
                stride: vstd::layout::size_of::<V>() as u32,
                input_rate: VERTEX_INPUT_RATE_VERTEX,
            },
        ],
{
    let d = vec![
        VertexInputBindingDescription {
            binding: 0,
            stride: core::mem::size_of::<V>() as u32,
            input_rate: VERTEX_INPUT_RATE_VERTEX,
        },
    ];
    proof {
        assert(d@ =~= seq![
            VertexInputBindingDescription {
                binding: 0,
                stride: vstd::layout::size_of::<V>() as u32,
                input_rate: VERTEX_INPUT_RATE_VERTEX,
            },
        ]);
    }
    d
}

/// The attribute at `location` of a vertex made of three `C` components
/// (position, normal, color), one after the other.
pub open spec fn attribute_at<C>(location: u32, format: i32) -> VertexInputAttributeDescription {
    VertexInputAttributeDescription {
        location,
        binding: 0,
        format,
        offset: (location * vstd::layout::size_of::<C>()) as u32,
    }
}

/// The three attributes of a vertex made of three `C` components, each of
/// the given format, at locations 0, 1 and 2.
pub fn vertex_attribute_descriptions<C>(format: i32) -> (d: Vec<VertexInputAttributeDescription>)
    ensures
        d@ == seq![attribute_at::<C>(0, format), attribute_at::<C>(1, format), attribute_at::<C>(2, format)],
{
    vstd::layout::layout_for_type_is_valid::<C>();
    let offset0: usize = 0;
    let offset1 = core::mem::size_of::<C>();
    let offset2 = offset1 + core::mem::size_of::<C>();
    let d = vec![
        VertexInputAttributeDescription {
            location: 0,
            binding: 0,
            format,
            offset: offset0 as u32,
        },
        VertexInputAttributeDescription {
            location: 1,
            binding: 0,
            format,
            offset: offset1 as u32,
        },
        VertexInputAttributeDescription {
            location: 2,
            binding: 0,
            format,
            offset: offset2 as u32,
        },
    ];
    proof {
        assert(d@ =~= seq![attribute_at::<C>(0, format), attribute_at::<C>(1, format), attribute_at::<C>(2, format)]);
    }
    d
}

/// Push constants of one stage grow by each addition and leave the other
/// stage's as they were.
pub proof fn law_push_constants_accumulate(offset: Option<u32>, first: u32, second: u32)
    requires
        can_grow(offset, first),
        can_grow(grown(offset, first), second),
    ensures
        grown(grown(offset, first), second) == Some(
            (match offset {
                Some(o) => o + first + second,
                None => first + second,
            }) as u32,
        ),
{
}

/// Each of the three attributes of a vertex made of three `C` components
/// lies within the vertex: with binding 0 and the stride of a whole `V`
/// (which holds the three components), attribute `k` starts at `k` times
/// the component size and ends within the stride.
pub proof fn law_attributes_within_stride<V, C>(format: i32)
    requires
        3 * vstd::layout::size_of::<C>() <= vstd::layout::size_of::<V>(),
        vstd::layout::size_of::<V>() <= u32::MAX,
    ensures
        forall|k: u32|
            0 <= k < 3 ==> {
                let a = #[trigger] attribute_at::<C>(k, format);
                &&& a.binding == 0
                &&& a.location == k
                &&& a.offset == k * vstd::layout::size_of::<C>()
                &&& a.offset + vstd::layout::size_of::<C>() <= (vstd::layout::size_of::<V>() as u32)
            },
{
    let c = vstd::layout::size_of::<C>();
    assert forall|k: u32| 0 <= k < 3 implies {
        let a = #[trigger] attribute_at::<C>(k, format);
        &&& a.binding == 0
        &&& a.location == k
        &&& a.offset == k * vstd::layout::size_of::<C>()
        &&& a.offset + vstd::layout::size_of::<C>() <= (vstd::layout::size_of::<V>() as u32)
    } by {
        assert(k * c + c <= 3 * c) by (nonlinear_arith)
            requires
                k < 3,
        ;
        assert(k * c >= 0) by (nonlinear_arith);
    }
}

/// Both default pipeline states rasterize what they are given: primitives
/// are not discarded before rasterization, depths are not clamped, no
/// depth bias is added, polygons are filled, one sample is taken per pixel,
/// and every colour component is written without blending.
pub proof fn law_default_pipelines_rasterize(extent: Extent2D, pipeline_bindpoint: i32)
    ensures
        forall|p: PipelineSettings|
            p == default_settings(extent, pipeline_bindpoint) || p == fixed_window_settings()
                ==> {
                &&& !p.rasterization.rasterizer_discard_enable
                &&& !p.rasterization.depth_clamp_enable
                &&& !p.rasterization.depth_bias_enable
                &&& p.rasterization.polygon_mode == 0
                &&& p.rasterization_samples == 1
                &&& !p.color_blend_attachment.blend_enable
                &&& p.color_blend_attachment.color_write_mask == 0xf
                &&& p.depth_stencil.depth_test_enable
                &&& p.depth_stencil.depth_write_enable
            },
{
}

} // verus!
