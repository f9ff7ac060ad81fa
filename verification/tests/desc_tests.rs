use minitriangle::desc::{
    command_buffer_desc, command_pool_desc, device_desc, extension_name, frame_extent,
    framebuffer_desc, image_view_desc, instance_desc, pipeline_desc, record_commands,
    render_pass_desc, shader_entry_point, swapchain_desc, sync_objects_desc, ClearColor,
    Extent2d, ExtensionId, RectDesc, RenderCmd, ATTACHMENT_LOAD_OP_CLEAR,
    ATTACHMENT_LOAD_OP_DONT_CARE, ATTACHMENT_STORE_OP_DONT_CARE, ATTACHMENT_STORE_OP_STORE,
    COLOR_SPACE_SRGB_NONLINEAR, CULL_MODE_BACK, FENCE_CREATE_SIGNALED, FORMAT_R8G8B8A8_SRGB,
    FRONT_FACE_CLOCKWISE, IMAGE_LAYOUT_PRESENT_SRC, IMAGE_LAYOUT_UNDEFINED,
    IMAGE_USAGE_COLOR_ATTACHMENT, PIPELINE_BIND_POINT_GRAPHICS, PRESENT_MODE_IMMEDIATE,
    PRIMITIVE_TOPOLOGY_TRIANGLE_LIST, QUEUE_FAMILY_GRAPHICS_AND_PRESENT, SAMPLE_COUNT_1,
    SHADER_STAGE_FRAGMENT, SHADER_STAGE_VERTEX, SUBPASS_EXTERNAL,
};
use minitriangle::window::window_config;

#[test]
fn dimensions_agree_everywhere() {
    // The four places a dimension is used must all carry the same
    // 1920 x 1080 frame extent, and so must the window itself.
    let e = frame_extent();
    assert_eq!(e, Extent2d { width: 1920, height: 1080 });
    assert_eq!(swapchain_desc().extent, e);
    let p = pipeline_desc();
    assert_eq!(p.viewport.width, e.width);
    assert_eq!(p.viewport.height, e.height);
    assert_eq!(p.scissor.extent, e);
    assert_eq!(framebuffer_desc().extent, e);
    assert_eq!(window_config().extent, e);
    // The render area of the recorded pass begin matches too.
    match record_commands()[0] {
        RenderCmd::BeginRenderPass { render_area, .. } => assert_eq!(render_area.extent, e),
        ref other => panic!("expected a render-pass begin, got {:?}", other),
    }
}

#[test]
fn exactly_one_triangle_is_drawn() {
    let cmds = record_commands();
    assert_eq!(cmds.len(), 4);
    assert_eq!(
        cmds[0],
        RenderCmd::BeginRenderPass {
            render_area: RectDesc { x: 0, y: 0, extent: Extent2d { width: 1920, height: 1080 } },
            clear: ClearColor { red: 0, green: 0, blue: 0, alpha: 1 },
        }
    );
    assert_eq!(cmds[1], RenderCmd::BindPipeline { bind_point: PIPELINE_BIND_POINT_GRAPHICS });
    assert_eq!(
        cmds[2],
        RenderCmd::Draw { vertex_count: 3, instance_count: 1, first_vertex: 0, first_instance: 0 }
    );
    assert_eq!(cmds[3], RenderCmd::EndRenderPass);
    // Exactly one draw in the whole recording.
    let draws = cmds
        .iter()
        .filter(|c| matches!(c, RenderCmd::Draw { .. }))
        .count();
    assert_eq!(draws, 1);
    // And the pipeline it runs under assembles triangle lists.
    assert_eq!(pipeline_desc().topology, PRIMITIVE_TOPOLOGY_TRIANGLE_LIST);
}

#[test]
fn instance_asks_for_the_two_surface_extensions() {
    let d = instance_desc();
    assert_eq!(d.api_version, 0x0040_2000);
    assert_eq!(d.extensions, vec![ExtensionId::Surface, ExtensionId::PlatformSurface]);
    assert_eq!(d.enabled_layer_count, 0);
    assert_eq!(extension_name(ExtensionId::Surface), "VK_KHR_surface");
    assert_eq!(extension_name(ExtensionId::PlatformSurface), "VK_KHR_win32_surface");
}

#[test]
fn device_asks_for_one_queue_of_family_zero() {
    let d = device_desc();
    assert_eq!(d.queue_family_index, QUEUE_FAMILY_GRAPHICS_AND_PRESENT);
    assert_eq!(d.queue_family_index, 0);
    assert_eq!(d.queue_count, 1);
    assert_eq!(d.extensions, vec![ExtensionId::Swapchain]);
    assert_eq!(extension_name(ExtensionId::Swapchain), "VK_KHR_swapchain");
    assert_eq!(d.enabled_layer_count, 0);
    assert!(!d.any_feature_enabled);
}

#[test]
fn swapchain_is_a_single_srgb_image_presented_immediately() {
    let d = swapchain_desc();
    assert_eq!(d.min_image_count, 1);
    assert_eq!(d.format, FORMAT_R8G8B8A8_SRGB);
    assert_eq!(d.format, 43);
    assert_eq!(d.color_space, COLOR_SPACE_SRGB_NONLINEAR);
    assert_eq!(d.image_array_layers, 1);
    assert_eq!(d.image_usage, IMAGE_USAGE_COLOR_ATTACHMENT);
    assert_eq!(d.present_mode, PRESENT_MODE_IMMEDIATE);
    assert!(d.clipped);
}

#[test]
fn image_view_is_a_plain_2d_color_view() {
    let d = image_view_desc();
    assert_eq!(d.format, FORMAT_R8G8B8A8_SRGB);
    assert_eq!(d.base_mip_level, 0);
    assert_eq!(d.level_count, 1);
    assert_eq!(d.base_array_layer, 0);
    assert_eq!(d.layer_count, 1);
}

#[test]
fn render_pass_clears_then_stores_then_presents() {
    let d = render_pass_desc();
    assert_eq!(d.attachment_count, 1);
    assert_eq!(d.subpass_count, 1);
    assert_eq!(d.attachment.format, FORMAT_R8G8B8A8_SRGB);
    assert_eq!(d.attachment.samples, SAMPLE_COUNT_1);
    assert_eq!(d.attachment.load_op, ATTACHMENT_LOAD_OP_CLEAR);
    assert_eq!(d.attachment.store_op, ATTACHMENT_STORE_OP_STORE);
    assert_eq!(d.attachment.stencil_load_op, ATTACHMENT_LOAD_OP_DONT_CARE);
    assert_eq!(d.attachment.stencil_store_op, ATTACHMENT_STORE_OP_DONT_CARE);
    assert_eq!(d.attachment.initial_layout, IMAGE_LAYOUT_UNDEFINED);
    assert_eq!(d.attachment.final_layout, IMAGE_LAYOUT_PRESENT_SRC);
    assert_eq!(d.dependency.src_subpass, SUBPASS_EXTERNAL);
    assert_eq!(d.dependency.dst_subpass, 0);
}

#[test]
fn pipeline_has_two_stages_and_no_vertex_input() {
    let d = pipeline_desc();
    assert_eq!(d.stage_count, 2);
    assert_eq!(d.vertex_stage, SHADER_STAGE_VERTEX);
    assert_eq!(d.fragment_stage, SHADER_STAGE_FRAGMENT);
    assert_eq!(d.vertex_binding_count, 0);
    assert_eq!(d.vertex_attribute_count, 0);
    assert!(!d.primitive_restart);
    assert_eq!(d.cull_mode, CULL_MODE_BACK);
    assert_eq!(d.front_face, FRONT_FACE_CLOCKWISE);
    assert!(!d.blend_enable);
    assert!(!d.logic_op_enable);
    assert_eq!(d.descriptor_set_layout_count, 0);
    assert_eq!(d.push_constant_range_count, 0);
    assert_eq!(shader_entry_point(), "main");
}

#[test]
fn one_pool_one_primary_buffer() {
    assert_eq!(command_pool_desc().queue_family_index, 0);
    let d = command_buffer_desc();
    assert_eq!(d.count, 1);
    assert_eq!(d.level, 0);
}

#[test]
fn fence_starts_signaled() {
    let d = sync_objects_desc();
    assert_eq!(d.semaphore_count, 2);
    assert_eq!(d.fence_count, 1);
    assert!(d.fence_signaled);
    assert_eq!(d.fence_flags, FENCE_CREATE_SIGNALED);
}
