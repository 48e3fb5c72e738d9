use ash::vk;
use penguin_engine::buffers::MemoryUsage as BufferMemoryUsage;
use penguin_engine::descriptors::{
    dynamic_offsets, element_offset, frame_dynamic_offset, global_and_frame_offset,
    packed_buffer_size, DescriptorSetBindingFrequency, DescriptorVariant, BUFFER_USAGE_STORAGE_BUFFER,
    BUFFER_USAGE_UNIFORM_BUFFER, BUFFER_USAGE_VERTEX_BUFFER, DESCRIPTOR_POOL_CREATE_FREE_DESCRIPTOR_SET,
    DESCRIPTOR_TYPE_STORAGE_BUFFER, DESCRIPTOR_TYPE_STORAGE_BUFFER_DYNAMIC,
    DESCRIPTOR_TYPE_UNIFORM_BUFFER, DESCRIPTOR_TYPE_UNIFORM_BUFFER_DYNAMIC, SHADER_STAGE_COMPUTE,
    SHADER_STAGE_FRAGMENT, SHADER_STAGE_VERTEX,
};
use penguin_engine::events::{
    app_action, application_action, process_keyboard_input, LoopAction, LoopEvent,
    WindowEventKind, KEY_A, KEY_ESCAPE,
};
use penguin_engine::game::{ApplicationConfig, GameInstance};
use penguin_engine::handles::{cache_layout_bindings, DescriptorSetLayoutsCache, FrameBuffers};
use ash::vk::Handle;
use penguin_engine::cstring::{raw_c_string_to_string, try_raw_c_string_to_string};
use penguin_engine::input::{update_input, ElementState, InputEvents, InputPlugin, KeyboardInput};
use penguin_engine::memory::frame_slice;
use penguin_engine::memory::{
    depth_format_candidates, find_depth_image_format, find_memory_type_index,
    find_supported_format, frames_packed_offset, packed_range_from_min_align,
    uniform_buffer_packed_size, FormatProperties, MemType, MemoryProperties, MemoryRequirements,
    MemoryUsage, FORMAT_D24_UNORM_S8_UINT, FORMAT_D32_SFLOAT, FORMAT_D32_SFLOAT_S8_UINT,
    FORMAT_FEATURE_DEPTH_STENCIL_ATTACHMENT, IMAGE_TILING_LINEAR, IMAGE_TILING_OPTIMAL,
    MEMORY_PROPERTY_DEVICE_LOCAL, MEMORY_PROPERTY_HOST_COHERENT, MEMORY_PROPERTY_HOST_VISIBLE,
    MEMORY_PROPERTY_LAZILY_ALLOCATED,
};
use penguin_engine::pipeline::{
    vertex_attribute_descriptions, vertex_binding_descriptions, PipelineSettings,
    PushConstantOffsets, BLEND_FACTOR_ONE, BLEND_FACTOR_ZERO, COLOR_COMPONENT_RGBA,
    COMPARE_OP_ALWAYS, COMPARE_OP_LESS_OR_EQUAL, CULL_MODE_BACK, FRONT_FACE_CLOCKWISE,
    LOGIC_OP_COPY, PIPELINE_BIND_POINT_GRAPHICS, CULL_MODE_NONE, COMPARE_OP_LESS, COMPARE_OP_NEVER,
    LOGIC_OP_CLEAR, POLYGON_MODE_FILL, POLYGON_MODE_LINE,
    PRIMITIVE_TOPOLOGY_TRIANGLE_LIST, SAMPLE_COUNT_1, STENCIL_OP_KEEP, VERTEX_INPUT_RATE_VERTEX,
};
use penguin_engine::render::{draw_bind_plan, next_frame, BindStep, RenderObjectKey};
use penguin_engine::resources::HashResource;
use penguin_engine::schedule::AppSteps;
use penguin_engine::shaders::{
    shader_kind_from_file_name, shader_stage, try_shader_kind_from_file_name, ShaderKind,
};
use penguin_engine::swapchain::Extent2D;
use penguin_engine::time::Time;

#[test]
fn packed_range_is_min_align_for_nonempty_types() {
    assert_eq!(packed_range_from_min_align::<[u8; 64]>(256), 256);
    assert_eq!(packed_range_from_min_align::<[u8; 300]>(256), 256);
    assert_eq!(packed_range_from_min_align::<u64>(4), 4);
    assert_eq!(packed_range_from_min_align::<[u8; 80]>(1), 1);
    assert_eq!(packed_range_from_min_align::<[u8; 64]>(0), 0);
    assert_eq!(packed_range_from_min_align::<()>(256), 0);
}

#[test]
fn uniform_buffer_layout() {
    assert_eq!(frames_packed_offset::<[u8; 16]>(64, 3), 192);
    assert_eq!(uniform_buffer_packed_size::<[u8; 16], [u8; 32]>(64, 2), 192);
    assert_eq!(uniform_buffer_packed_size::<(), [u8; 32]>(64, 2), 128);
}

#[test]
fn memory_usage_flags() {
    assert_eq!(MemoryUsage::GpuMemCpuWritable.memory_property_flags(), 0x1 | 0x2 | 0x4);
    assert_eq!(MemoryUsage::GpuOnly.memory_property_flags(), 0x1);
    assert_eq!(MemoryUsage::CpuMemGpuVisible.memory_property_flags(), 0x2 | 0x4);
    assert_eq!(MemoryUsage::GpuOnlyLazy.memory_property_flags(), 0x1 | 0x10);
    assert_eq!(BufferMemoryUsage::CpuToGpu.memory_property_flags(), 0x2 | 0x4);
    assert_eq!(BufferMemoryUsage::GpuOnly.memory_property_flags(), 0x1);
    assert_ne!(MemType::Persistent, MemType::Dynamic);
}

#[test]
fn memory_constants_match_ash() {
    assert_eq!(MEMORY_PROPERTY_DEVICE_LOCAL, vk::MemoryPropertyFlags::DEVICE_LOCAL.as_raw());
    assert_eq!(MEMORY_PROPERTY_HOST_VISIBLE, vk::MemoryPropertyFlags::HOST_VISIBLE.as_raw());
    assert_eq!(MEMORY_PROPERTY_HOST_COHERENT, vk::MemoryPropertyFlags::HOST_COHERENT.as_raw());
    assert_eq!(MEMORY_PROPERTY_LAZILY_ALLOCATED, vk::MemoryPropertyFlags::LAZILY_ALLOCATED.as_raw());
    assert_eq!(FORMAT_D32_SFLOAT, ash::vk::Format::D32_SFLOAT.as_raw());
    assert_eq!(FORMAT_D32_SFLOAT_S8_UINT, ash::vk::Format::D32_SFLOAT_S8_UINT.as_raw());
    assert_eq!(FORMAT_D24_UNORM_S8_UINT, ash::vk::Format::D24_UNORM_S8_UINT.as_raw());
    assert_eq!(IMAGE_TILING_OPTIMAL, ash::vk::ImageTiling::OPTIMAL.as_raw());
    assert_eq!(IMAGE_TILING_LINEAR, ash::vk::ImageTiling::LINEAR.as_raw());
    assert_eq!(
        FORMAT_FEATURE_DEPTH_STENCIL_ATTACHMENT,
        ash::vk::FormatFeatureFlags::DEPTH_STENCIL_ATTACHMENT.as_raw()
    );
}

#[test]
fn memory_type_choice() {
    let props = MemoryProperties {
        memory_type_count: 3,
        memory_type_flags: vec![0x1, 0x6, 0x7, 0x6],
    };
    let any = MemoryRequirements { size: 64, alignment: 16, memory_type_bits: 0b1111 };
    assert_eq!(find_memory_type_index(&any, &props, 0x6), Some(1));
    assert_eq!(find_memory_type_index(&any, &props, 0x1), Some(0));
    let not_first_two = MemoryRequirements { size: 64, alignment: 16, memory_type_bits: 0b1100 };
    assert_eq!(find_memory_type_index(&not_first_two, &props, 0x6), Some(2));
    let only_last = MemoryRequirements { size: 64, alignment: 16, memory_type_bits: 0b1000 };
    assert_eq!(find_memory_type_index(&only_last, &props, 0x6), None);
    assert_eq!(find_memory_type_index(&any, &props, 0x10), None);
}

#[test]
fn depth_format_choice() {
    assert_eq!(
        depth_format_candidates(),
        vec![FORMAT_D32_SFLOAT, FORMAT_D32_SFLOAT_S8_UINT, FORMAT_D24_UNORM_S8_UINT]
    );
    let none = FormatProperties { linear_tiling_features: 0, optimal_tiling_features: 0 };
    let optimal = FormatProperties { linear_tiling_features: 0, optimal_tiling_features: 0x200 };
    let linear = FormatProperties { linear_tiling_features: 0x200, optimal_tiling_features: 0 };
    assert_eq!(find_depth_image_format(&vec![none, optimal, optimal]), FORMAT_D32_SFLOAT_S8_UINT);
    assert_eq!(find_depth_image_format(&vec![optimal, none, none]), FORMAT_D32_SFLOAT);
    assert_eq!(
        find_supported_format(&vec![1, 2], &vec![linear, none], IMAGE_TILING_LINEAR, 0x200),
        Some(1)
    );
    assert_eq!(
        find_supported_format(&vec![1, 2], &vec![linear, none], IMAGE_TILING_OPTIMAL, 0x200),
        None
    );
    assert_eq!(find_supported_format(&vec![1], &vec![linear], 5, 0x200), None);
}

#[test]
fn descriptor_variants() {
    let s = DescriptorVariant::UniformStatic(SHADER_STAGE_VERTEX);
    let d = DescriptorVariant::UniformDynamic(SHADER_STAGE_FRAGMENT);
    assert_eq!(s.stage_flags(), SHADER_STAGE_VERTEX);
    assert_eq!(d.stage_flags(), SHADER_STAGE_FRAGMENT);
    assert_eq!(DescriptorVariant::Storage.stage_flags(), 0);
    assert_eq!(s.descriptor_type(), DESCRIPTOR_TYPE_UNIFORM_BUFFER);
    assert_eq!(d.descriptor_type(), DESCRIPTOR_TYPE_UNIFORM_BUFFER_DYNAMIC);
    assert_eq!(DescriptorVariant::Storage.descriptor_type(), DESCRIPTOR_TYPE_STORAGE_BUFFER);
    assert_eq!(
        DescriptorVariant::StorageDynamic.descriptor_type(),
        DESCRIPTOR_TYPE_STORAGE_BUFFER_DYNAMIC
    );
    assert_eq!(s.buffer_usage(), BUFFER_USAGE_UNIFORM_BUFFER);
    assert_eq!(DescriptorVariant::StorageDynamic.buffer_usage(), BUFFER_USAGE_STORAGE_BUFFER);
    assert_eq!(d.memory_usage(), BufferMemoryUsage::CpuToGpu);
    assert_eq!(DescriptorSetBindingFrequency::Global.descriptor_flag_bits(), 0);
    assert_eq!(DescriptorSetBindingFrequency::PerPass.descriptor_flag_bits(), 0);
    assert_eq!(
        DescriptorSetBindingFrequency::PerFrame.descriptor_flag_bits(),
        DESCRIPTOR_POOL_CREATE_FREE_DESCRIPTOR_SET
    );
}

#[test]
fn descriptor_constants_match_ash() {
    assert_eq!(SHADER_STAGE_VERTEX, vk::ShaderStageFlags::VERTEX.as_raw());
    assert_eq!(SHADER_STAGE_FRAGMENT, vk::ShaderStageFlags::FRAGMENT.as_raw());
    assert_eq!(SHADER_STAGE_COMPUTE, vk::ShaderStageFlags::COMPUTE.as_raw());
    assert_eq!(DESCRIPTOR_TYPE_UNIFORM_BUFFER, vk::DescriptorType::UNIFORM_BUFFER.as_raw());
    assert_eq!(DESCRIPTOR_TYPE_STORAGE_BUFFER, vk::DescriptorType::STORAGE_BUFFER.as_raw());
    assert_eq!(
        DESCRIPTOR_TYPE_UNIFORM_BUFFER_DYNAMIC,
        vk::DescriptorType::UNIFORM_BUFFER_DYNAMIC.as_raw()
    );
    assert_eq!(
        DESCRIPTOR_TYPE_STORAGE_BUFFER_DYNAMIC,
        vk::DescriptorType::STORAGE_BUFFER_DYNAMIC.as_raw()
    );
    assert_eq!(BUFFER_USAGE_UNIFORM_BUFFER, vk::BufferUsageFlags::UNIFORM_BUFFER.as_raw());
    assert_eq!(BUFFER_USAGE_STORAGE_BUFFER, vk::BufferUsageFlags::STORAGE_BUFFER.as_raw());
    assert_eq!(BUFFER_USAGE_VERTEX_BUFFER, vk::BufferUsageFlags::VERTEX_BUFFER.as_raw());
    assert_eq!(
        DESCRIPTOR_POOL_CREATE_FREE_DESCRIPTOR_SET,
        vk::DescriptorPoolCreateFlags::FREE_DESCRIPTOR_SET.as_raw()
    );
}

#[test]
fn descriptor_offsets() {
    let d = DescriptorVariant::UniformDynamic(SHADER_STAGE_VERTEX);
    assert_eq!(dynamic_offsets::<[u8; 48]>(d, 3), vec![144]);
    let s = DescriptorVariant::UniformStatic(SHADER_STAGE_VERTEX);
    assert_eq!(dynamic_offsets::<[u8; 48]>(s, 3), Vec::<u32>::new());
    assert_eq!(element_offset::<[u8; 12]>(5), 60);
    assert_eq!(packed_buffer_size(256, 3), 768);
    assert_eq!(frame_dynamic_offset::<[u8; 80]>(1), 80);
    assert_eq!(global_and_frame_offset::<[u8; 64], [u8; 16]>(2), 96);
}

#[test]
fn pipeline_defaults() {
    let extent = Extent2D { width: 640, height: 400 };
    let p = PipelineSettings::default(extent, PIPELINE_BIND_POINT_GRAPHICS);
    assert_eq!(p.extent, extent);
    assert_eq!(p.topology, PRIMITIVE_TOPOLOGY_TRIANGLE_LIST);
    assert_eq!(p.rasterization.polygon_mode, POLYGON_MODE_FILL);
    assert_eq!(p.rasterization.cull_mode, CULL_MODE_BACK);
    assert_eq!(p.rasterization.front_face, FRONT_FACE_CLOCKWISE);
    assert_eq!(p.rasterization_samples, SAMPLE_COUNT_1);
    assert!(p.depth_stencil.depth_test_enable);
    assert!(p.depth_stencil.depth_write_enable);
    assert!(!p.depth_stencil.stencil_test_enable);
    assert_eq!(p.depth_stencil.depth_compare_op, COMPARE_OP_LESS_OR_EQUAL);
    assert_eq!(p.depth_stencil.front, p.depth_stencil.back);
    assert_eq!(p.depth_stencil.front.fail_op, STENCIL_OP_KEEP);
    assert_eq!(p.depth_stencil.front.compare_op, COMPARE_OP_ALWAYS);
    assert!(!p.color_blend_attachment.blend_enable);
    assert_eq!(p.color_blend_attachment.color_write_mask, COLOR_COMPONENT_RGBA);
    assert_eq!(p.color_blend_attachment.src_color_blend_factor, BLEND_FACTOR_ONE);
    assert_eq!(p.color_blend_attachment.dst_color_blend_factor, BLEND_FACTOR_ZERO);
    assert_eq!(p.logic_op, LOGIC_OP_COPY);
    assert!(!p.logic_op_enable);
    assert_eq!(p.push_constants, PushConstantOffsets::new());
    let w = p.wireframe_mode();
    assert_eq!(w.rasterization.polygon_mode, POLYGON_MODE_LINE);
    assert_eq!(w.rasterization.cull_mode, CULL_MODE_BACK);
    assert_eq!(w.wireframe_mode(), w);
    let old = PipelineSettings::fixed_window_default();
    assert_eq!(old.extent, Extent2D { width: 640, height: 400 });
    assert_eq!(old.rasterization.cull_mode, CULL_MODE_NONE);
    assert_eq!(old.depth_stencil.depth_compare_op, COMPARE_OP_LESS);
    assert_eq!(old.depth_stencil.front.compare_op, COMPARE_OP_NEVER);
    assert_eq!(old.logic_op, LOGIC_OP_CLEAR);
    assert_eq!(old.topology, PRIMITIVE_TOPOLOGY_TRIANGLE_LIST);
}

#[test]
fn pipeline_constants_match_ash() {
    assert_eq!(PIPELINE_BIND_POINT_GRAPHICS, vk::PipelineBindPoint::GRAPHICS.as_raw());
    assert_eq!(PRIMITIVE_TOPOLOGY_TRIANGLE_LIST, vk::PrimitiveTopology::TRIANGLE_LIST.as_raw());
    assert_eq!(POLYGON_MODE_FILL, vk::PolygonMode::FILL.as_raw());
    assert_eq!(POLYGON_MODE_LINE, vk::PolygonMode::LINE.as_raw());
    assert_eq!(CULL_MODE_BACK, vk::CullModeFlags::BACK.as_raw());
    assert_eq!(FRONT_FACE_CLOCKWISE, vk::FrontFace::CLOCKWISE.as_raw());
    assert_eq!(SAMPLE_COUNT_1, vk::SampleCountFlags::TYPE_1.as_raw());
    assert_eq!(STENCIL_OP_KEEP, vk::StencilOp::KEEP.as_raw());
    assert_eq!(COMPARE_OP_ALWAYS, vk::CompareOp::ALWAYS.as_raw());
    assert_eq!(COMPARE_OP_LESS_OR_EQUAL, vk::CompareOp::LESS_OR_EQUAL.as_raw());
    assert_eq!(BLEND_FACTOR_ONE, vk::BlendFactor::ONE.as_raw());
    assert_eq!(BLEND_FACTOR_ZERO, vk::BlendFactor::ZERO.as_raw());
    assert_eq!(LOGIC_OP_COPY, vk::LogicOp::COPY.as_raw());
    assert_eq!(LOGIC_OP_CLEAR, vk::LogicOp::CLEAR.as_raw());
    assert_eq!(CULL_MODE_NONE, vk::CullModeFlags::NONE.as_raw());
    assert_eq!(COMPARE_OP_LESS, vk::CompareOp::LESS.as_raw());
    assert_eq!(COMPARE_OP_NEVER, vk::CompareOp::NEVER.as_raw());
    assert_eq!(COLOR_COMPONENT_RGBA, (vk::ColorComponentFlags::R | vk::ColorComponentFlags::G | vk::ColorComponentFlags::B | vk::ColorComponentFlags::A).as_raw());
    assert_eq!(VERTEX_INPUT_RATE_VERTEX, vk::VertexInputRate::VERTEX.as_raw());
}

#[test]
fn push_constants_accumulate() {
    let mut p = PushConstantOffsets::new();
    p.add_vertex_shader_push_constants(16);
    p.add_vertex_shader_push_constants(8);
    assert_eq!(p.vertex_shader_push_constants_byte_offset, Some(24));
    assert_eq!(p.fragment_shader_push_constants_byte_offset, None);
    p.add_push_constants::<[u8; 12]>(SHADER_STAGE_FRAGMENT);
    assert_eq!(p.fragment_shader_push_constants_byte_offset, Some(12));
    let s = PipelineSettings::default(Extent2D { width: 1, height: 1 }, 0)
        .add_push_constants::<[u8; 64]>(SHADER_STAGE_VERTEX)
        .add_push_constants::<[u8; 64]>(SHADER_STAGE_VERTEX);
    assert_eq!(s.push_constants.vertex_shader_push_constants_byte_offset, Some(128));
    assert_eq!(s.push_constants.fragment_shader_push_constants_byte_offset, None);
}

#[test]
fn vertex_layout() {
    let b = vertex_binding_descriptions::<[f32; 9]>();
    assert_eq!(b.len(), 1);
    assert_eq!(b[0].binding, 0);
    assert_eq!(b[0].stride, 36);
    assert_eq!(b[0].input_rate, VERTEX_INPUT_RATE_VERTEX);
    let a = vertex_attribute_descriptions::<[f32; 3]>(106);
    assert_eq!(a.len(), 3);
    assert_eq!((a[0].location, a[0].offset, a[0].format), (0, 0, 106));
    assert_eq!((a[1].location, a[1].offset), (1, 12));
    assert_eq!((a[2].location, a[2].offset, a[2].binding), (2, 24, 0));
    for attribute in a.iter() {
        assert!(attribute.offset + 12 <= b[0].stride);
    }
}

fn key(code: u32, state: ElementState) -> KeyboardInput {
    KeyboardInput { virtual_keycode: Some(code), state }
}

#[test]
fn key_goes_down_then_is_held_then_released() {
    let _plugin = InputPlugin;
    let mut input = InputEvents::new();
    assert!(input.is_key_up(KEY_A));
    input.update(key(KEY_A, ElementState::Pressed));
    update_input(&mut input);
    assert!(input.is_key_just_down(KEY_A));
    assert!(input.is_key_up(KEY_A));
    update_input(&mut input);
    assert!(!input.is_key_just_down(KEY_A));
    assert!(input.is_key_down(KEY_A));
    input.update(key(KEY_A, ElementState::Released));
    update_input(&mut input);
    assert!(input.is_key_just_up(KEY_A));
    assert!(input.is_key_up(KEY_A));
    update_input(&mut input);
    assert!(!input.is_key_just_up(KEY_A));
    assert!(!input.check_key_state(KEY_A, ElementState::Pressed));
}

#[test]
fn releasing_an_up_key_does_nothing() {
    let mut input = InputEvents::default();
    input.update(key(5, ElementState::Released));
    update_input(&mut input);
    assert!(!input.is_key_just_up(5));
    assert!(input.is_key_up(5));
    input.update(KeyboardInput { virtual_keycode: None, state: ElementState::Pressed });
    update_input(&mut input);
    assert!(!input.is_key_just_down(5));
}

#[test]
fn loop_actions() {
    let esc = key(KEY_ESCAPE, ElementState::Pressed);
    let a = key(KEY_A, ElementState::Pressed);
    assert!(matches!(app_action(LoopEvent::Window(WindowEventKind::CloseRequested)), LoopAction::Exit));
    assert!(matches!(app_action(LoopEvent::Window(WindowEventKind::KeyboardInput(esc))), LoopAction::Exit));
    assert!(matches!(
        app_action(LoopEvent::Window(WindowEventKind::KeyboardInput(a))),
        LoopAction::UpdateInput(KeyboardInput { virtual_keycode: Some(KEY_A), state: ElementState::Pressed })
    ));
    let esc_up = key(KEY_ESCAPE, ElementState::Released);
    assert!(matches!(
        app_action(LoopEvent::Window(WindowEventKind::KeyboardInput(esc_up))),
        LoopAction::UpdateInput(_)
    ));
    assert!(matches!(app_action(LoopEvent::MainEventsCleared), LoopAction::RunSchedule));
    assert!(matches!(app_action(LoopEvent::LoopDestroyed), LoopAction::Shutdown));
    assert!(matches!(app_action(LoopEvent::RedrawRequested), LoopAction::Nothing));
    assert!(matches!(app_action(LoopEvent::Window(WindowEventKind::Other)), LoopAction::Nothing));
    assert!(matches!(application_action(LoopEvent::MainEventsCleared), LoopAction::TickAndDraw));
    assert!(matches!(
        application_action(LoopEvent::Window(WindowEventKind::KeyboardInput(a))),
        LoopAction::ProcessKeyboardInput(Some(KEY_A), ElementState::Pressed)
    ));
    assert!(matches!(application_action(LoopEvent::Window(WindowEventKind::KeyboardInput(esc))), LoopAction::Exit));
    assert!(matches!(application_action(LoopEvent::Other), LoopAction::Nothing));
}

#[test]
fn keyboard_handler_reports_a() {
    assert_eq!(process_keyboard_input(Some(KEY_A), ElementState::Pressed), Some("Pressing A"));
    assert_eq!(process_keyboard_input(Some(KEY_A), ElementState::Released), None);
    assert_eq!(process_keyboard_input(Some(11), ElementState::Pressed), None);
    assert_eq!(process_keyboard_input(None, ElementState::Pressed), None);
}

#[test]
fn key_codes_match_winit() {
    assert_eq!(winit::event::VirtualKeyCode::Escape as u32, KEY_ESCAPE);
    assert_eq!(winit::event::VirtualKeyCode::A as u32, KEY_A);
}

#[test]
fn plugin_steps_keep_their_order() {
    let steps = AppSteps::builder()
        .add_plugin(vec![1, 2], vec![10], vec![])
        .add_plugin(vec![3], vec![11, 12], vec![20])
        .add_startup_steps(vec![4])
        .add_run_steps(vec![13])
        .add_shutdown_steps(vec![21]);
    let (startup, run, shutdown) = steps.build();
    assert_eq!(startup, vec![1, 2, 3, 4]);
    assert_eq!(run, vec![10, 11, 12, 13]);
    assert_eq!(shutdown, vec![20, 21]);
}

#[test]
fn objects_bind_only_on_change() {
    let objs = vec![
        RenderObjectKey { material: 1, mesh: 1 },
        RenderObjectKey { material: 1, mesh: 1 },
        RenderObjectKey { material: 2, mesh: 1 },
    ];
    let both = BindStep { bind_material: true, bind_mesh: true };
    let none = BindStep { bind_material: false, bind_mesh: false };
    let material = BindStep { bind_material: true, bind_mesh: false };
    assert_eq!(draw_bind_plan(&objs), vec![both, none, material]);
    let back = vec![
        RenderObjectKey { material: 1, mesh: 1 },
        RenderObjectKey { material: 1, mesh: 2 },
        RenderObjectKey { material: 1, mesh: 1 },
    ];
    let mesh = BindStep { bind_material: false, bind_mesh: true };
    assert_eq!(draw_bind_plan(&back), vec![both, mesh, mesh]);
    assert_eq!(draw_bind_plan(&vec![]), Vec::<BindStep>::new());
    assert_eq!(next_frame(0), (1, 1));
    assert_eq!(next_frame(1), (2, 0));
}

#[test]
fn resources_give_back_what_was_stored() {
    let mut meshes: HashResource<u32> = HashResource::new();
    assert!(!meshes.contains("triangle"));
    meshes.insert("triangle", 3);
    assert!(meshes.contains("triangle"));
    assert!(!meshes.contains("quad"));
    meshes.insert("quad", 4);
    assert_eq!(*meshes.get_rc("triangle"), 3);
    meshes.insert("triangle", 5);
    assert_eq!(*meshes.get_rc("triangle"), 5);
    assert_eq!(*meshes.get_rc("quad"), 4);
    let a = meshes.get_rc("quad");
    let b = meshes.get_rc("quad");
    assert!(std::rc::Rc::ptr_eq(&a, &b));
}

#[test]
fn time_starts_at_zero() {
    let mut t = Time::init();
    assert_eq!(t.delta(), (0, 0));
    t.tick();
    let (secs, nanos) = t.delta();
    assert!(nanos < 1_000_000_000);
    assert!(secs < 60);
    t.record_delta(3, 250);
    assert_eq!(t.delta(), (3, 250));
}

#[test]
fn shader_kinds_by_extension() {
    assert_eq!(try_shader_kind_from_file_name("simple.vert"), Some(ShaderKind::Vertex));
    assert_eq!(try_shader_kind_from_file_name("simple.frag"), Some(ShaderKind::Fragment));
    assert_eq!(try_shader_kind_from_file_name("blur.comp"), Some(ShaderKind::Compute));
    assert_eq!(try_shader_kind_from_file_name("sub/dir/x.vert"), Some(ShaderKind::Vertex));
    assert_eq!(try_shader_kind_from_file_name("notes.txt"), None);
    assert_eq!(try_shader_kind_from_file_name("vert"), None);
    assert_eq!(try_shader_kind_from_file_name(".vert"), None);
    assert_eq!(try_shader_kind_from_file_name(""), None);
    assert_eq!(shader_kind_from_file_name("a.b.frag"), ShaderKind::Fragment);
    assert_eq!(shader_stage(ShaderKind::Vertex), SHADER_STAGE_VERTEX);
    assert_eq!(shader_stage(ShaderKind::Fragment), SHADER_STAGE_FRAGMENT);
    assert_eq!(shader_stage(ShaderKind::Compute), SHADER_STAGE_COMPUTE);
}

#[test]
fn game_keeps_its_settings() {
    let config = ApplicationConfig { width: 640, height: 400 };
    let mut g = GameInstance::create(config);
    g.init();
    g.on_window_resize(800, 600);
    assert_eq!(g.app_config, config);
}

#[test]
fn asset_paths() {
    assert_eq!(penguin_engine::mesh::mesh_file_path("monkey.obj"), "assets/meshes/monkey.obj");
    assert_eq!(penguin_engine::shaders::shader_file_path("simple.vert"), "src/shaders/simple.vert");
}

#[test]
fn triangles_become_colored_corners() {
    let tris = vec![[10, 11, 12], [20, 21, 22]];
    let (verts, count) = penguin_engine::mesh::triangle_corner_vertices(&tris);
    assert_eq!(count, 6);
    assert_eq!(verts, vec![(10, 0), (11, 1), (12, 2), (20, 0), (21, 1), (22, 2)]);
    let (none, zero) = penguin_engine::mesh::triangle_corner_vertices::<u8>(&vec![]);
    assert!(none.is_empty());
    assert_eq!(zero, 0);
}

#[test]
fn spirv_magic() {
    assert_eq!(penguin_engine::shaders::SPIRV_MAGIC, 0x07230203);
    assert!(penguin_engine::shaders::is_spirv_binary(&[0x07230203, 5]));
    assert!(!penguin_engine::shaders::is_spirv_binary(&[5, 0x07230203]));
    assert!(!penguin_engine::shaders::is_spirv_binary(&[]));
}

#[test]
fn handle_lookup() {
    let layouts = DescriptorSetLayoutsCache(vec![<vk::DescriptorSetLayout as Handle>::from_raw(7), <vk::DescriptorSetLayout as Handle>::from_raw(9)]);
    assert_eq!(Handle::as_raw(layouts.get_layout(1)), 9);
    let fbs = FrameBuffers { frame_buffers: vec![<vk::Framebuffer as Handle>::from_raw(3)] };
    assert_eq!(Handle::as_raw(fbs.get(0)), 3);
    let plan = cache_layout_bindings();
    assert_eq!(plan.len(), 2);
    assert_eq!(plan[0].binding, 0);
    assert_eq!(plan[0].stage_flags, SHADER_STAGE_VERTEX);
    assert_eq!(plan[1].binding, 1);
    assert_eq!(plan[1].stage_flags, SHADER_STAGE_FRAGMENT);
    assert_eq!(plan[1].descriptor_type, DESCRIPTOR_TYPE_UNIFORM_BUFFER_DYNAMIC);
    assert_eq!(plan[1].descriptor_count, 1);
}

fn c_chars(s: &[u8], len: usize) -> Vec<i8> {
    let mut v: Vec<i8> = s.iter().map(|&b| b as i8).collect();
    v.resize(len, 0);
    v
}

#[test]
fn c_strings_become_strings() {
    let name = c_chars(b"VK_LAYER_KHRONOS_validation", 256);
    assert_eq!(raw_c_string_to_string(&name), "VK_LAYER_KHRONOS_validation");
    let accented = c_chars(&[0x63, 0xC3, 0xA9, 0x00, 0x41], 5);
    assert_eq!(try_raw_c_string_to_string(&accented), Some("cé".to_string()));
    let no_nul = c_chars(b"abc", 3);
    assert_eq!(try_raw_c_string_to_string(&no_nul), None);
    let broken = c_chars(&[0xC3, 0x00], 2);
    assert_eq!(try_raw_c_string_to_string(&broken), None);
    assert_eq!(try_raw_c_string_to_string(&[0]), Some(String::new()));
}

#[test]
fn frame_slices() {
    assert_eq!(frame_slice::<[u8; 16]>(64, 0), (0, 16));
    assert_eq!(frame_slice::<[u8; 16]>(64, 2), (128, 16));
    let (first, len) = frame_slice::<[u8; 48]>(64, 0);
    let (second, _) = frame_slice::<[u8; 48]>(64, 1);
    assert!(first + len <= second);
    let (big0, big_len) = frame_slice::<[u8; 300]>(256, 0);
    let (big1, _) = frame_slice::<[u8; 300]>(256, 1);
    assert_eq!(big1, 256);
    assert!(big0 + big_len > big1);
}
