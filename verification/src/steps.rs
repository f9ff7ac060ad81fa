//! The creation steps of the initialization sequence and their
//! dependency order.

use vstd::prelude::*;

verus! {

/// One step of the fixed initialization sequence. Each step creates
/// one object (or one small group of objects created together) of the
/// window or graphics subsystem.
#[derive(Clone, Copy, PartialEq, Eq, Structural, Debug)]
pub enum Step {
    Window,
    Instance,
    Surface,
    PhysicalDevice,
    LogicalDevice,
    Swapchain,
    ImageView,
    RenderPass,
    Pipeline,
    Framebuffer,
    CommandPool,
    CommandBuffer,
    SyncObjects,
}

/// The position of a step in the canonical creation order.
pub open spec fn step_rank(s: Step) -> int {
    match s {
        Step::Window => 0,
        Step::Instance => 1,
        Step::Surface => 2,
        Step::PhysicalDevice => 3,
        Step::LogicalDevice => 4,
        Step::Swapchain => 5,
        Step::ImageView => 6,
        Step::RenderPass => 7,
        Step::Pipeline => 8,
        Step::Framebuffer => 9,
        Step::CommandPool => 10,
        Step::CommandBuffer => 11,
        Step::SyncObjects => 12,
    }
}

/// The steps whose objects a step's creation call consumes directly.
pub open spec fn step_deps(s: Step) -> Set<Step> {
    match s {
        Step::Window => Set::empty(),
        Step::Instance => Set::empty(),
        Step::Surface => set![Step::Window, Step::Instance],
        Step::PhysicalDevice => set![Step::Instance],
        Step::LogicalDevice => set![Step::PhysicalDevice],
        Step::Swapchain => set![Step::LogicalDevice, Step::Surface],
        Step::ImageView => set![Step::LogicalDevice, Step::Swapchain],
        Step::RenderPass => set![Step::LogicalDevice],
        Step::Pipeline => set![Step::LogicalDevice, Step::RenderPass],
        Step::Framebuffer => set![Step::LogicalDevice, Step::ImageView, Step::RenderPass],
        Step::CommandPool => set![Step::LogicalDevice],
        Step::CommandBuffer => set![
            Step::LogicalDevice,
            Step::CommandPool,
            Step::Pipeline,
            Step::RenderPass,
            Step::Framebuffer,
        ],
        Step::SyncObjects => set![Step::LogicalDevice],
    }
}

/// The one order in which the program creates its objects.
pub open spec fn canonical_order() -> Seq<Step> {
    seq![
        Step::Window,
        Step::Instance,
        Step::Surface,
        Step::PhysicalDevice,
        Step::LogicalDevice,
        Step::Swapchain,
        Step::ImageView,
        Step::RenderPass,
        Step::Pipeline,
        Step::Framebuffer,
        Step::CommandPool,
        Step::CommandBuffer,
        Step::SyncObjects,
    ]
}

/// The canonical creation order as a vector, for a driver that walks
/// the sequence step by step.
pub fn creation_order() -> (o: Vec<Step>)
    ensures
        o@ == canonical_order(),
{
    let mut o: Vec<Step> = Vec::new();
    o.push(Step::Window);
    o.push(Step::Instance);
    o.push(Step::Surface);
    o.push(Step::PhysicalDevice);
    o.push(Step::LogicalDevice);
    o.push(Step::Swapchain);
    o.push(Step::ImageView);
    o.push(Step::RenderPass);
    o.push(Step::Pipeline);
    o.push(Step::Framebuffer);
    o.push(Step::CommandPool);
    o.push(Step::CommandBuffer);
    o.push(Step::SyncObjects);
    proof {
        assert(o@ =~= canonical_order());
    }
    o
}

/// The name of a step, for step-named diagnostics.
pub fn step_name(s: Step) -> (r: &'static str)
    ensures
        s == Step::Window ==> r@ == "window"@,
        s == Step::Instance ==> r@ == "instance"@,
        s == Step::Surface ==> r@ == "surface"@,
        s == Step::PhysicalDevice ==> r@ == "physical device"@,
        s == Step::LogicalDevice ==> r@ == "logical device"@,
        s == Step::Swapchain ==> r@ == "swapchain"@,
        s == Step::ImageView ==> r@ == "image view"@,
        s == Step::RenderPass ==> r@ == "render pass"@,
        s == Step::Pipeline ==> r@ == "pipeline"@,
        s == Step::Framebuffer ==> r@ == "framebuffer"@,
        s == Step::CommandPool ==> r@ == "command pool"@,
        s == Step::CommandBuffer ==> r@ == "command buffer"@,
        s == Step::SyncObjects ==> r@ == "sync objects"@,
{
    match s {
        Step::Window => "window",
        Step::Instance => "instance",
        Step::Surface => "surface",
        Step::PhysicalDevice => "physical device",
        Step::LogicalDevice => "logical device",
        Step::Swapchain => "swapchain",
        Step::ImageView => "image view",
        Step::RenderPass => "render pass",
        Step::Pipeline => "pipeline",
        Step::Framebuffer => "framebuffer",
        Step::CommandPool => "command pool",
        Step::CommandBuffer => "command buffer",
        Step::SyncObjects => "sync objects",
    }
}

/// Law: the canonical order lists every step exactly once, at its
/// rank.
pub proof fn lemma_creation_order_complete()
    ensures
        canonical_order().len() == 13,
        forall|i: int|
            0 <= i < canonical_order().len() ==> step_rank(#[trigger] canonical_order()[i]) == i,
{
}

/// Law: the canonical creation order is a topological order of the
/// dependency relation: every object a step's creation call consumes
/// was created strictly earlier in the order.
pub proof fn lemma_creation_order_topological()
    ensures
        forall|i: int, d: Step|
            0 <= i < canonical_order().len() && #[trigger] step_deps(canonical_order()[i]).contains(
                d,
            ) ==> 0 <= step_rank(d) < i && canonical_order()[step_rank(d)] == d,
{
    assert forall|i: int, d: Step|
        0 <= i < canonical_order().len() && #[trigger] step_deps(canonical_order()[i]).contains(
            d,
        ) implies 0 <= step_rank(d) < i && canonical_order()[step_rank(d)] == d by {
        let s = canonical_order()[i];
        assert(step_rank(s) == i);
        assert(step_deps(s).contains(d) ==> step_rank(d) < step_rank(s));
    }
}

} // verus!
