//! Lists of Vulkan handles that the renderer looks up by index, and the
//! plan of the descriptor set layouts it creates.
use vstd::prelude::*;
use ash::vk::{DescriptorSetLayout, Framebuffer};
use crate::descriptors::{DESCRIPTOR_TYPE_UNIFORM_BUFFER_DYNAMIC, SHADER_STAGE_FRAGMENT, SHADER_STAGE_VERTEX};

verus! {

#[verifier::external_type_specification]
#[verifier::external_body]
pub struct ExDescriptorSetLayout(DescriptorSetLayout);

#[verifier::external_type_specification]
#[verifier::external_body]
pub struct ExFramebuffer(Framebuffer);

/// The descriptor set layouts of the engine, one per binding index.
pub struct DescriptorSetLayoutsCache(pub Vec<DescriptorSetLayout>);

impl DescriptorSetLayoutsCache {
    /// The layout for `binding_index`.
    pub fn get_layout(&self, binding_index: usize) -> (layout: DescriptorSetLayout)
        requires
            binding_index < self.0.len(),
        ensures
            layout == self.0@[binding_index as int],
    {
        self.0[binding_index]
    }
}

/// The frame buffers of the swapchain, one per swapchain image.
pub struct FrameBuffers {
    pub frame_buffers: Vec<Framebuffer>,
}

impl FrameBuffers {
    /// The frame buffer of swapchain image `image_index`.
    pub fn get(&self, image_index: usize) -> (frame_buffer: Framebuffer)
        requires
            image_index < self.frame_buffers.len(),
        ensures
            frame_buffer == self.frame_buffers@[image_index as int],
    {
        self.frame_buffers[image_index]
    }
}

/// One binding of a descriptor set layout, and the flags its layout is
/// created with.
#[derive(Clone, Copy, PartialEq, Eq, Structural, Debug)]
pub struct LayoutBindingPlan {
    pub binding: u32,
    pub descriptor_count: u32,
    pub descriptor_type: i32,
    pub stage_flags: u32,
    pub create_flags: u32,
}

/// The layouts of the cache, in binding order: binding 0 a dynamic uniform
/// buffer for the vertex shader, binding 1 one for the fragment shader;
/// one descriptor each, no creation flags.
pub open spec fn cache_layout_bindings_spec() -> Seq<LayoutBindingPlan> {
    seq![
        LayoutBindingPlan {
            binding: 0,
            descriptor_count: 1,
            descriptor_type: DESCRIPTOR_TYPE_UNIFORM_BUFFER_DYNAMIC,
            stage_flags: SHADER_STAGE_VERTEX,
            create_flags: 0,
        },
        LayoutBindingPlan {
            binding: 1,
            descriptor_count: 1,
            descriptor_type: DESCRIPTOR_TYPE_UNIFORM_BUFFER_DYNAMIC,
            stage_flags: SHADER_STAGE_FRAGMENT,
            create_flags: 0,
        },
    ]
}

/// The layouts that the cache is created with, one per binding index.
pub fn cache_layout_bindings() -> (plan: Vec<LayoutBindingPlan>)
    ensures
        plan@ == cache_layout_bindings_spec(),
{
    let plan = vec![
        LayoutBindingPlan {
            binding: 0,
            descriptor_count: 1,
            descriptor_type: DESCRIPTOR_TYPE_UNIFORM_BUFFER_DYNAMIC,
            stage_flags: SHADER_STAGE_VERTEX,
            create_flags: 0,
        },
        LayoutBindingPlan {
            binding: 1,
            descriptor_count: 1,
            descriptor_type: DESCRIPTOR_TYPE_UNIFORM_BUFFER_DYNAMIC,
            stage_flags: SHADER_STAGE_FRAGMENT,
            create_flags: 0,
        },
    ];
    proof {
        assert(plan@ =~= cache_layout_bindings_spec());
    }
    plan
}

} // verus!
