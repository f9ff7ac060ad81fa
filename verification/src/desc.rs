//! The constant creation descriptors of the render setup.
//!
//! Every object the program creates is described by a fixed,
//! unparameterized record of plain values. The builders below return
//! those records, and their contracts pin every field, so a driver
//! that feeds them to the platform calls is known to request exactly
//! the setup the program is about: one 1920 x 1080 window, one sRGB
//! swapchain image, one render pass that clears and stores, one
//! pipeline that draws a single triangle.

use vstd::prelude::*;

verus! {

// Frame dimensions shared by the window, the swapchain, the viewport,
// the scissor rectangle and the framebuffer.
pub const FRAME_WIDTH: u32 = 1920;

pub const FRAME_HEIGHT: u32 = 1080;

// Numeric identifiers of the graphics interface, matching the
// compiled shader contract.
pub const FORMAT_R8G8B8A8_SRGB: u32 = 43;

pub const COLOR_SPACE_SRGB_NONLINEAR: u32 = 0;

pub const PRESENT_MODE_IMMEDIATE: u32 = 0;

pub const IMAGE_USAGE_COLOR_ATTACHMENT: u32 = 0x10;

pub const SHARING_MODE_EXCLUSIVE: u32 = 0;

pub const SURFACE_TRANSFORM_IDENTITY: u32 = 0x1;

pub const COMPOSITE_ALPHA_OPAQUE: u32 = 0x1;

pub const IMAGE_VIEW_TYPE_2D: u32 = 1;

pub const COMPONENT_SWIZZLE_IDENTITY: u32 = 0;

pub const IMAGE_ASPECT_COLOR: u32 = 0x1;

pub const SAMPLE_COUNT_1: u32 = 0x1;

pub const ATTACHMENT_LOAD_OP_CLEAR: u32 = 1;

pub const ATTACHMENT_LOAD_OP_DONT_CARE: u32 = 2;

pub const ATTACHMENT_STORE_OP_STORE: u32 = 0;

pub const ATTACHMENT_STORE_OP_DONT_CARE: u32 = 1;

pub const IMAGE_LAYOUT_UNDEFINED: u32 = 0;

pub const IMAGE_LAYOUT_PRESENT_SRC: u32 = 1000001002;

pub const IMAGE_LAYOUT_COLOR_ATTACHMENT_OPTIMAL: u32 = 2;

pub const PIPELINE_BIND_POINT_GRAPHICS: u32 = 0;

pub const SUBPASS_EXTERNAL: u32 = 0xFFFF_FFFF;

pub const PIPELINE_STAGE_COLOR_ATTACHMENT_OUTPUT: u32 = 0x400;

pub const ACCESS_COLOR_ATTACHMENT_WRITE: u32 = 0x100;

pub const PRIMITIVE_TOPOLOGY_TRIANGLE_LIST: u32 = 3;

pub const POLYGON_MODE_FILL: u32 = 0;

pub const CULL_MODE_BACK: u32 = 0x2;

pub const FRONT_FACE_CLOCKWISE: u32 = 1;

pub const SHADER_STAGE_VERTEX: u32 = 0x1;

pub const SHADER_STAGE_FRAGMENT: u32 = 0x10;

pub const COLOR_COMPONENTS_RGBA: u32 = 0xF;

pub const COMMAND_BUFFER_LEVEL_PRIMARY: u32 = 0;

pub const FENCE_CREATE_SIGNALED: u32 = 0x1;

pub const QUEUE_FAMILY_GRAPHICS_AND_PRESENT: u32 = 0;

/// Interface version 1.2.0, encoded as the graphics interface packs
/// it: major in bits 22 and up, minor in bits 12 to 21.
pub const API_VERSION_1_2: u32 = 0x0040_2000;

/// A width and height in pixels.
#[derive(Clone, Copy, PartialEq, Eq, Structural, Debug)]
pub struct Extent2d {
    pub width: u32,
    pub height: u32,
}

/// The fixed frame extent every dimension of the setup is taken from.
pub fn frame_extent() -> (e: Extent2d)
    ensures
        e.width == FRAME_WIDTH,
        e.height == FRAME_HEIGHT,
{
    Extent2d { width: FRAME_WIDTH, height: FRAME_HEIGHT }
}

/// An interface extension the program enables by name.
#[derive(Clone, Copy, PartialEq, Eq, Structural, Debug)]
pub enum ExtensionId {
    Surface,
    PlatformSurface,
    Swapchain,
}

/// The name under which the platform knows an extension.
pub fn extension_name(e: ExtensionId) -> (r: &'static str)
    ensures
        e == ExtensionId::Surface ==> r@ == "VK_KHR_surface"@,
        e == ExtensionId::PlatformSurface ==> r@ == "VK_KHR_win32_surface"@,
        e == ExtensionId::Swapchain ==> r@ == "VK_KHR_swapchain"@,
{
    match e {
        ExtensionId::Surface => "VK_KHR_surface",
        ExtensionId::PlatformSurface => "VK_KHR_win32_surface",
        ExtensionId::Swapchain => "VK_KHR_swapchain",
    }
}

/// What the instance creation call asks for.
#[derive(PartialEq, Debug)]
pub struct InstanceDesc {
    pub api_version: u32,
    pub extensions: Vec<ExtensionId>,
    pub enabled_layer_count: u32,
}

/// The instance descriptor: interface version 1.2 and the two surface
/// extensions, no layers.
pub fn instance_desc() -> (d: InstanceDesc)
    ensures
        d.api_version == API_VERSION_1_2,
        d.extensions@ == seq![ExtensionId::Surface, ExtensionId::PlatformSurface],
        d.enabled_layer_count == 0,
{
    let mut extensions: Vec<ExtensionId> = Vec::new();
    extensions.push(ExtensionId::Surface);
    extensions.push(ExtensionId::PlatformSurface);
    proof {
        assert(extensions@ =~= seq![ExtensionId::Surface, ExtensionId::PlatformSurface]);
    }
    InstanceDesc { api_version: API_VERSION_1_2, extensions, enabled_layer_count: 0 }
}

/// What the logical-device creation call asks for.
#[derive(PartialEq, Debug)]
pub struct DeviceDesc {
    pub queue_family_index: u32,
    pub queue_count: u32,
    pub extensions: Vec<ExtensionId>,
    pub enabled_layer_count: u32,
    /// The program requests no optional device feature.
    pub any_feature_enabled: bool,
}

/// The logical-device descriptor: one queue of family 0 (assumed to
/// support both graphics and present), the swapchain extension, no
/// layers and no optional features.
pub fn device_desc() -> (d: DeviceDesc)
    ensures
        d.queue_family_index == QUEUE_FAMILY_GRAPHICS_AND_PRESENT,
        d.queue_count == 1,
        d.extensions@ == seq![ExtensionId::Swapchain],
        d.enabled_layer_count == 0,
        !d.any_feature_enabled,
{
    let mut extensions: Vec<ExtensionId> = Vec::new();
    extensions.push(ExtensionId::Swapchain);
    proof {
        assert(extensions@ =~= seq![ExtensionId::Swapchain]);
    }
    DeviceDesc {
        queue_family_index: QUEUE_FAMILY_GRAPHICS_AND_PRESENT,
        queue_count: 1,
        extensions,
        enabled_layer_count: 0,
        any_feature_enabled: false,
    }
}

/// What the swapchain creation call asks for.
#[derive(Clone, Copy, PartialEq, Eq, Structural, Debug)]
pub struct SwapchainDesc {
    pub min_image_count: u32,
    pub format: u32,
    pub color_space: u32,
    pub extent: Extent2d,
    pub image_array_layers: u32,
    pub image_usage: u32,
    pub sharing_mode: u32,
    pub queue_family_index: u32,
    pub pre_transform: u32,
    pub composite_alpha: u32,
    pub present_mode: u32,
    pub clipped: bool,
}

/// The swapchain descriptor: a single 8-bit sRGB image at the frame
/// extent, immediate present mode.
pub fn swapchain_desc() -> (d: SwapchainDesc)
    ensures
        d.min_image_count == 1,
        d.format == FORMAT_R8G8B8A8_SRGB,
        d.color_space == COLOR_SPACE_SRGB_NONLINEAR,
        d.extent == frame_extent_spec(),
        d.image_array_layers == 1,
        d.image_usage == IMAGE_USAGE_COLOR_ATTACHMENT,
        d.sharing_mode == SHARING_MODE_EXCLUSIVE,
        d.queue_family_index == QUEUE_FAMILY_GRAPHICS_AND_PRESENT,
        d.pre_transform == SURFACE_TRANSFORM_IDENTITY,
        d.composite_alpha == COMPOSITE_ALPHA_OPAQUE,
        d.present_mode == PRESENT_MODE_IMMEDIATE,
        d.clipped,
        d == swapchain_desc_spec(),
{
    SwapchainDesc {
        min_image_count: 1,
        format: FORMAT_R8G8B8A8_SRGB,
        color_space: COLOR_SPACE_SRGB_NONLINEAR,
        extent: Extent2d { width: FRAME_WIDTH, height: FRAME_HEIGHT },
        image_array_layers: 1,
        image_usage: IMAGE_USAGE_COLOR_ATTACHMENT,
        sharing_mode: SHARING_MODE_EXCLUSIVE,
        queue_family_index: QUEUE_FAMILY_GRAPHICS_AND_PRESENT,
        pre_transform: SURFACE_TRANSFORM_IDENTITY,
        composite_alpha: COMPOSITE_ALPHA_OPAQUE,
        present_mode: PRESENT_MODE_IMMEDIATE,
        clipped: true,
    }
}

/// The fixed frame extent, at the specification level.
pub open spec fn frame_extent_spec() -> Extent2d {
    Extent2d { width: FRAME_WIDTH, height: FRAME_HEIGHT }
}

/// What the image-view creation call asks for.
#[derive(Clone, Copy, PartialEq, Eq, Structural, Debug)]
pub struct ImageViewDesc {
    pub view_type: u32,
    pub format: u32,
    pub swizzle_r: u32,
    pub swizzle_g: u32,
    pub swizzle_b: u32,
    pub swizzle_a: u32,
    pub aspect_mask: u32,
    pub base_mip_level: u32,
    pub level_count: u32,
    pub base_array_layer: u32,
    pub layer_count: u32,
}

/// The image-view descriptor: a plain 2D color view of the swapchain
/// image, identity swizzle, one mip level, one layer.
pub fn image_view_desc() -> (d: ImageViewDesc)
    ensures
        d.view_type == IMAGE_VIEW_TYPE_2D,
        d.format == FORMAT_R8G8B8A8_SRGB,
        d.swizzle_r == COMPONENT_SWIZZLE_IDENTITY,
        d.swizzle_g == COMPONENT_SWIZZLE_IDENTITY,
        d.swizzle_b == COMPONENT_SWIZZLE_IDENTITY,
        d.swizzle_a == COMPONENT_SWIZZLE_IDENTITY,
        d.aspect_mask == IMAGE_ASPECT_COLOR,
        d.base_mip_level == 0,
        d.level_count == 1,
        d.base_array_layer == 0,
        d.layer_count == 1,
{
    ImageViewDesc {
        view_type: IMAGE_VIEW_TYPE_2D,
        format: FORMAT_R8G8B8A8_SRGB,
        swizzle_r: COMPONENT_SWIZZLE_IDENTITY,
        swizzle_g: COMPONENT_SWIZZLE_IDENTITY,
        swizzle_b: COMPONENT_SWIZZLE_IDENTITY,
        swizzle_a: COMPONENT_SWIZZLE_IDENTITY,
        aspect_mask: IMAGE_ASPECT_COLOR,
        base_mip_level: 0,
        level_count: 1,
        base_array_layer: 0,
        layer_count: 1,
    }
}

/// The one color attachment of the render pass.
#[derive(Clone, Copy, PartialEq, Eq, Structural, Debug)]
pub struct AttachmentDesc {
    pub format: u32,
    pub samples: u32,
    pub load_op: u32,
    pub store_op: u32,
    pub stencil_load_op: u32,
    pub stencil_store_op: u32,
    pub initial_layout: u32,
    pub final_layout: u32,
}

/// The one subpass dependency of the render pass.
#[derive(Clone, Copy, PartialEq, Eq, Structural, Debug)]
pub struct SubpassDependencyDesc {
    pub src_subpass: u32,
    pub dst_subpass: u32,
    pub src_stage_mask: u32,
    pub src_access_mask: u32,
    pub dst_stage_mask: u32,
    pub dst_access_mask: u32,
}

/// What the render-pass creation call asks for.
#[derive(Clone, Copy, PartialEq, Eq, Structural, Debug)]
pub struct RenderPassDesc {
    pub attachment: AttachmentDesc,
    pub attachment_count: u32,
    pub subpass_count: u32,
    pub color_attachment_index: u32,
    pub color_attachment_layout: u32,
    pub bind_point: u32,
    pub dependency: SubpassDependencyDesc,
}

/// The render-pass descriptor: one sRGB color attachment that is
/// cleared on load and stored at the end, handed over ready to
/// present, with one graphics subpass.
pub fn render_pass_desc() -> (d: RenderPassDesc)
    ensures
        d.attachment == (AttachmentDesc {
            format: FORMAT_R8G8B8A8_SRGB,
            samples: SAMPLE_COUNT_1,
            load_op: ATTACHMENT_LOAD_OP_CLEAR,
            store_op: ATTACHMENT_STORE_OP_STORE,
            stencil_load_op: ATTACHMENT_LOAD_OP_DONT_CARE,
            stencil_store_op: ATTACHMENT_STORE_OP_DONT_CARE,
            initial_layout: IMAGE_LAYOUT_UNDEFINED,
            final_layout: IMAGE_LAYOUT_PRESENT_SRC,
        }),
        d.attachment_count == 1,
        d.subpass_count == 1,
        d.color_attachment_index == 0,
        d.color_attachment_layout == IMAGE_LAYOUT_COLOR_ATTACHMENT_OPTIMAL,
        d.bind_point == PIPELINE_BIND_POINT_GRAPHICS,
        d.dependency == (SubpassDependencyDesc {
            src_subpass: SUBPASS_EXTERNAL,
            dst_subpass: 0,
            src_stage_mask: PIPELINE_STAGE_COLOR_ATTACHMENT_OUTPUT,
            src_access_mask: 0,
            dst_stage_mask: PIPELINE_STAGE_COLOR_ATTACHMENT_OUTPUT,
            dst_access_mask: ACCESS_COLOR_ATTACHMENT_WRITE,
        }),
{
    RenderPassDesc {
        attachment: AttachmentDesc {
            format: FORMAT_R8G8B8A8_SRGB,
            samples: SAMPLE_COUNT_1,
            load_op: ATTACHMENT_LOAD_OP_CLEAR,
            store_op: ATTACHMENT_STORE_OP_STORE,
            stencil_load_op: ATTACHMENT_LOAD_OP_DONT_CARE,
            stencil_store_op: ATTACHMENT_STORE_OP_DONT_CARE,
            initial_layout: IMAGE_LAYOUT_UNDEFINED,
            final_layout: IMAGE_LAYOUT_PRESENT_SRC,
        },
        attachment_count: 1,
        subpass_count: 1,
        color_attachment_index: 0,
        color_attachment_layout: IMAGE_LAYOUT_COLOR_ATTACHMENT_OPTIMAL,
        bind_point: PIPELINE_BIND_POINT_GRAPHICS,
        dependency: SubpassDependencyDesc {
            src_subpass: SUBPASS_EXTERNAL,
            dst_subpass: 0,
            src_stage_mask: PIPELINE_STAGE_COLOR_ATTACHMENT_OUTPUT,
            src_access_mask: 0,
            dst_stage_mask: PIPELINE_STAGE_COLOR_ATTACHMENT_OUTPUT,
            dst_access_mask: ACCESS_COLOR_ATTACHMENT_WRITE,
        },
    }
}

/// The viewport, in whole pixels and whole depth units (the platform
/// call takes the same values as floating point).
#[derive(Clone, Copy, PartialEq, Eq, Structural, Debug)]
pub struct ViewportDesc {
    pub x: u32,
    pub y: u32,
    pub width: u32,
    pub height: u32,
    pub min_depth: u32,
    pub max_depth: u32,
}

/// A rectangle with an integer offset, used for the scissor and the
/// render area.
#[derive(Clone, Copy, PartialEq, Eq, Structural, Debug)]
pub struct RectDesc {
    pub x: i32,
    pub y: i32,
    pub extent: Extent2d,
}

/// What the graphics-pipeline creation call asks for.
#[derive(Clone, Copy, PartialEq, Eq, Structural, Debug)]
pub struct PipelineDesc {
    pub stage_count: u32,
    pub vertex_stage: u32,
    pub fragment_stage: u32,
    pub vertex_binding_count: u32,
    pub vertex_attribute_count: u32,
    pub topology: u32,
    pub primitive_restart: bool,
    pub viewport: ViewportDesc,
    pub viewport_count: u32,
    pub scissor: RectDesc,
    pub scissor_count: u32,
    pub polygon_mode: u32,
    pub cull_mode: u32,
    pub front_face: u32,
    pub depth_clamp: bool,
    pub rasterizer_discard: bool,
    pub line_width: u32,
    pub sample_count: u32,
    pub sample_shading: bool,
    pub blend_enable: bool,
    pub color_write_mask: u32,
    pub logic_op_enable: bool,
    pub descriptor_set_layout_count: u32,
    pub push_constant_range_count: u32,
    pub subpass: u32,
}

/// The pipeline descriptor: two shader stages, no vertex input,
/// triangle-list topology, a full-frame viewport and scissor,
/// back-face culling, no blending, an empty layout.
pub fn pipeline_desc() -> (d: PipelineDesc)
    ensures
        d.stage_count == 2,
        d.vertex_stage == SHADER_STAGE_VERTEX,
        d.fragment_stage == SHADER_STAGE_FRAGMENT,
        d.vertex_binding_count == 0,
        d.vertex_attribute_count == 0,
        d.topology == PRIMITIVE_TOPOLOGY_TRIANGLE_LIST,
        !d.primitive_restart,
        d.viewport == (ViewportDesc {
            x: 0,
            y: 0,
            width: FRAME_WIDTH,
            height: FRAME_HEIGHT,
            min_depth: 0,
            max_depth: 1,
        }),
        d.viewport_count == 1,
        d.scissor == (RectDesc { x: 0, y: 0, extent: frame_extent_spec() }),
        d.scissor_count == 1,
        d.polygon_mode == POLYGON_MODE_FILL,
        d.cull_mode == CULL_MODE_BACK,
        d.front_face == FRONT_FACE_CLOCKWISE,
        !d.depth_clamp,
        !d.rasterizer_discard,
        d.line_width == 1,
        d.sample_count == SAMPLE_COUNT_1,
        !d.sample_shading,
        !d.blend_enable,
        d.color_write_mask == COLOR_COMPONENTS_RGBA,
        !d.logic_op_enable,
        d.descriptor_set_layout_count == 0,
        d.push_constant_range_count == 0,
        d.subpass == 0,
        d == pipeline_desc_spec(),
{
    PipelineDesc {
        stage_count: 2,
        vertex_stage: SHADER_STAGE_VERTEX,
        fragment_stage: SHADER_STAGE_FRAGMENT,
        vertex_binding_count: 0,
        vertex_attribute_count: 0,
        topology: PRIMITIVE_TOPOLOGY_TRIANGLE_LIST,
        primitive_restart: false,
        viewport: ViewportDesc {
            x: 0,
            y: 0,
            width: FRAME_WIDTH,
            height: FRAME_HEIGHT,
            min_depth: 0,
            max_depth: 1,
        },
        viewport_count: 1,
        scissor: RectDesc { x: 0, y: 0, extent: Extent2d { width: FRAME_WIDTH, height: FRAME_HEIGHT } },
        scissor_count: 1,
        polygon_mode: POLYGON_MODE_FILL,
        cull_mode: CULL_MODE_BACK,
        front_face: FRONT_FACE_CLOCKWISE,
        depth_clamp: false,
        rasterizer_discard: false,
        line_width: 1,
        sample_count: SAMPLE_COUNT_1,
        sample_shading: false,
        blend_enable: false,
        color_write_mask: COLOR_COMPONENTS_RGBA,
        logic_op_enable: false,
        descriptor_set_layout_count: 0,
        push_constant_range_count: 0,
        subpass: 0,
    }
}

/// The entry point both compiled shader binaries export, which the
/// pipeline stages name.
pub fn shader_entry_point() -> (r: &'static str)
    ensures
        r@ == "main"@,
{
    "main"
}

/// What the framebuffer creation call asks for.
#[derive(Clone, Copy, PartialEq, Eq, Structural, Debug)]
pub struct FramebufferDesc {
    pub attachment_count: u32,
    pub extent: Extent2d,
    pub layers: u32,
}

/// The framebuffer descriptor: one attachment at the frame extent.
pub fn framebuffer_desc() -> (d: FramebufferDesc)
    ensures
        d.attachment_count == 1,
        d.extent == frame_extent_spec(),
        d.layers == 1,
        d == framebuffer_desc_spec(),
{
    FramebufferDesc {
        attachment_count: 1,
        extent: Extent2d { width: FRAME_WIDTH, height: FRAME_HEIGHT },
        layers: 1,
    }
}

/// What the command-pool creation call asks for.
#[derive(Clone, Copy, PartialEq, Eq, Structural, Debug)]
pub struct CommandPoolDesc {
    pub queue_family_index: u32,
}

/// The command-pool descriptor: a pool on queue family 0.
pub fn command_pool_desc() -> (d: CommandPoolDesc)
    ensures
        d.queue_family_index == QUEUE_FAMILY_GRAPHICS_AND_PRESENT,
{
    CommandPoolDesc { queue_family_index: QUEUE_FAMILY_GRAPHICS_AND_PRESENT }
}

/// What the command-buffer allocation call asks for.
#[derive(Clone, Copy, PartialEq, Eq, Structural, Debug)]
pub struct CommandBufferDesc {
    pub level: u32,
    pub count: u32,
}

/// The command-buffer descriptor: one primary buffer.
pub fn command_buffer_desc() -> (d: CommandBufferDesc)
    ensures
        d.level == COMMAND_BUFFER_LEVEL_PRIMARY,
        d.count == 1,
{
    CommandBufferDesc { level: COMMAND_BUFFER_LEVEL_PRIMARY, count: 1 }
}

/// The clear color, in whole color units per channel (the platform
/// call takes the same values as floating point): opaque black.
#[derive(Clone, Copy, PartialEq, Eq, Structural, Debug)]
pub struct ClearColor {
    pub red: u32,
    pub green: u32,
    pub blue: u32,
    pub alpha: u32,
}

/// One command recorded into the command buffer.
#[derive(Clone, Copy, PartialEq, Eq, Structural, Debug)]
pub enum RenderCmd {
    BeginRenderPass { render_area: RectDesc, clear: ClearColor },
    BindPipeline { bind_point: u32 },
    Draw { vertex_count: u32, instance_count: u32, first_vertex: u32, first_instance: u32 },
    EndRenderPass,
}

/// The command sequence recorded once into the one primary command
/// buffer, at the specification level.
pub open spec fn recorded_commands() -> Seq<RenderCmd> {
    seq![
        RenderCmd::BeginRenderPass {
            render_area: RectDesc { x: 0, y: 0, extent: frame_extent_spec() },
            clear: ClearColor { red: 0, green: 0, blue: 0, alpha: 1 },
        },
        RenderCmd::BindPipeline { bind_point: PIPELINE_BIND_POINT_GRAPHICS },
        RenderCmd::Draw { vertex_count: 3, instance_count: 1, first_vertex: 0, first_instance: 0 },
        RenderCmd::EndRenderPass,
    ]
}

/// The commands to record into the command buffer: begin the render
/// pass over the full frame with an opaque-black clear, bind the
/// graphics pipeline, draw 3 vertices in 1 instance, end the pass.
pub fn record_commands() -> (c: Vec<RenderCmd>)
    ensures
        c@ == recorded_commands(),
{
    let mut c: Vec<RenderCmd> = Vec::new();
    c.push(
        RenderCmd::BeginRenderPass {
            render_area: RectDesc {
                x: 0,
                y: 0,
                extent: Extent2d { width: FRAME_WIDTH, height: FRAME_HEIGHT },
            },
            clear: ClearColor { red: 0, green: 0, blue: 0, alpha: 1 },
        },
    );
    c.push(RenderCmd::BindPipeline { bind_point: PIPELINE_BIND_POINT_GRAPHICS });
    c.push(
        RenderCmd::Draw { vertex_count: 3, instance_count: 1, first_vertex: 0, first_instance: 0 },
    );
    c.push(RenderCmd::EndRenderPass);
    proof {
        assert(c@ =~= recorded_commands());
    }
    c
}

/// Law: the recorded command sequence contains exactly one draw, and
/// that draw covers exactly 3 vertices and 1 instance, under a
/// pipeline whose topology is the triangle list.
pub proof fn lemma_single_triangle_draw()
    ensures
        recorded_commands().len() == 4,
        forall|i: int|
            0 <= i < recorded_commands().len() && (#[trigger] recorded_commands()[i]) is Draw
                ==> recorded_commands()[i] == (RenderCmd::Draw {
                vertex_count: 3u32,
                instance_count: 1u32,
                first_vertex: 0u32,
                first_instance: 0u32,
            }),
        exists|i: int| 0 <= i < recorded_commands().len() && (#[trigger] recorded_commands()[i]) is Draw,
        forall|i: int, j: int|
            0 <= i < recorded_commands().len() && 0 <= j < recorded_commands().len() && (
            #[trigger] recorded_commands()[i]) is Draw && (#[trigger] recorded_commands()[j]) is Draw
                ==> i == j,
{
    assert(recorded_commands()[2] is Draw);
}

/// Law: the swapchain extent, the pipeline viewport, the pipeline
/// scissor and the framebuffer extent all agree with the one frame
/// extent, by construction.
pub proof fn lemma_dimensions_agree(
    sc: SwapchainDesc,
    p: PipelineDesc,
    fb: FramebufferDesc,
)
    requires
        sc == swapchain_desc_spec(),
        p == pipeline_desc_spec(),
        fb == framebuffer_desc_spec(),
    ensures
        sc.extent == frame_extent_spec(),
        p.viewport.width == frame_extent_spec().width,
        p.viewport.height == frame_extent_spec().height,
        p.scissor.extent == frame_extent_spec(),
        fb.extent == frame_extent_spec(),
{
}

/// The swapchain descriptor at the specification level.
pub open spec fn swapchain_desc_spec() -> SwapchainDesc {
    SwapchainDesc {
        min_image_count: 1u32,
        format: FORMAT_R8G8B8A8_SRGB,
        color_space: COLOR_SPACE_SRGB_NONLINEAR,
        extent: frame_extent_spec(),
        image_array_layers: 1u32,
        image_usage: IMAGE_USAGE_COLOR_ATTACHMENT,
        sharing_mode: SHARING_MODE_EXCLUSIVE,
        queue_family_index: QUEUE_FAMILY_GRAPHICS_AND_PRESENT,
        pre_transform: SURFACE_TRANSFORM_IDENTITY,
        composite_alpha: COMPOSITE_ALPHA_OPAQUE,
        present_mode: PRESENT_MODE_IMMEDIATE,
        clipped: true,
    }
}

/// The pipeline descriptor at the specification level.
pub open spec fn pipeline_desc_spec() -> PipelineDesc {
    PipelineDesc {
        stage_count: 2u32,
        vertex_stage: SHADER_STAGE_VERTEX,
        fragment_stage: SHADER_STAGE_FRAGMENT,
        vertex_binding_count: 0u32,
        vertex_attribute_count: 0u32,
        topology: PRIMITIVE_TOPOLOGY_TRIANGLE_LIST,
        primitive_restart: false,
        viewport: ViewportDesc {
            x: 0u32,
            y: 0u32,
            width: FRAME_WIDTH,
            height: FRAME_HEIGHT,
            min_depth: 0u32,
            max_depth: 1u32,
        },
        viewport_count: 1u32,
        scissor: RectDesc { x: 0i32, y: 0i32, extent: frame_extent_spec() },
        scissor_count: 1u32,
        polygon_mode: POLYGON_MODE_FILL,
        cull_mode: CULL_MODE_BACK,
        front_face: FRONT_FACE_CLOCKWISE,
        depth_clamp: false,
        rasterizer_discard: false,
        line_width: 1u32,
        sample_count: SAMPLE_COUNT_1,
        sample_shading: false,
        blend_enable: false,
        color_write_mask: COLOR_COMPONENTS_RGBA,
        logic_op_enable: false,
        descriptor_set_layout_count: 0u32,
        push_constant_range_count: 0u32,
        subpass: 0u32,
    }
}

/// The framebuffer descriptor at the specification level.
pub open spec fn framebuffer_desc_spec() -> FramebufferDesc {
    FramebufferDesc { attachment_count: 1u32, extent: frame_extent_spec(), layers: 1u32 }
}

/// What the two semaphore creations and the one fence creation ask
/// for.
#[derive(Clone, Copy, PartialEq, Eq, Structural, Debug)]
pub struct SyncObjectsDesc {
    pub semaphore_count: u32,
    pub fence_count: u32,
    /// The fence starts signaled, so the first frame's wait passes.
    pub fence_signaled: bool,
    pub fence_flags: u32,
}

/// The synchronization descriptor: two semaphores and one
/// pre-signaled fence.
pub fn sync_objects_desc() -> (d: SyncObjectsDesc)
    ensures
        d.semaphore_count == 2,
        d.fence_count == 1,
        d.fence_signaled,
        d.fence_flags == FENCE_CREATE_SIGNALED,
{
    SyncObjectsDesc {
        semaphore_count: 2,
        fence_count: 1,
        fence_signaled: true,
        fence_flags: FENCE_CREATE_SIGNALED,
    }
}

} // verus!
