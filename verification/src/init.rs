//! The initialization context: one record owning every handle the
//! program creates, with checked, dependency-ordered construction.
//!
//! Every creation step is a method that refuses to run before the
//! objects its platform call consumes exist, refuses to run twice,
//! and fails with a step-named error when the platform call produced
//! nothing. Handles are plain numeric values the application obtains
//! from the platform and hands in; the context never invents one.
//! Which recorded handles each platform call must consume is stated
//! by [`InitContext::step_call`]: the application asks for the
//! step's bound call, makes it with exactly those handles, and hands
//! the produced handle back to the step's method.

use vstd::prelude::*;
use crate::steps::{step_deps, Step};

verus! {

/// Why a creation step or the frame submission was refused.
#[derive(Clone, Copy, PartialEq, Eq, Structural, Debug)]
pub enum InitError {
    /// The step was attempted before one of the objects it consumes
    /// existed.
    MissingDependency(Step),
    /// The step was attempted a second time; no object is ever
    /// recreated.
    AlreadyCreated(Step),
    /// The platform call for the step produced no object.
    CreationFailed(Step),
    /// Frame submission was attempted before initialization was
    /// complete.
    NotInitialized,
    /// Frame submission was attempted a second time; the one frame is
    /// submitted exactly once.
    FrameAlreadySubmitted,
    /// Queue family 0 of the picked device does not support both
    /// graphics and present, which the logical-device step requires.
    UnsuitableQueueFamily,
}

/// What one queue family of a physical device supports, as the
/// platform enumerates it.
#[derive(Clone, Copy, PartialEq, Eq, Structural, Debug)]
pub struct QueueFamilyCaps {
    pub graphics: bool,
    pub present: bool,
}

/// The selection policy for the device queue, made explicit and
/// checked: the program uses queue 0 of family 0, so family 0 must
/// exist and support both graphics and present.
pub open spec fn family_zero_suitable(families: Seq<QueueFamilyCaps>) -> bool {
    families.len() > 0 && families[0].graphics && families[0].present
}

/// The error a refused creation step reports, given the state the
/// step found: a missing dependency outranks re-creation, which
/// outranks a failed platform call.
pub open spec fn step_error(pre: InitContext, s: Step) -> InitError {
    if !pre.deps_ready(s) {
        InitError::MissingDependency(s)
    } else if pre.completed(s) {
        InitError::AlreadyCreated(s)
    } else {
        InitError::CreationFailed(s)
    }
}

/// The condition under which a creation step succeeds: its
/// dependencies exist, it has not run before, and the platform call
/// produced its object.
pub open spec fn step_accepts(pre: InitContext, s: Step, produced: bool) -> bool {
    pre.deps_ready(s) && !pre.completed(s) && produced
}

/// The context that owns every handle of the setup. A `None` field is
/// an object not yet created. Handles are opaque numeric values; the
/// context only threads them, it never fabricates or reuses one.
#[derive(Clone, Copy, PartialEq, Eq, Structural, Debug)]
pub struct InitContext {
    pub window: Option<u64>,
    pub device_context: Option<u64>,
    pub instance: Option<u64>,
    pub surface: Option<u64>,
    pub physical_device: Option<u64>,
    pub device: Option<u64>,
    pub queue: Option<u64>,
    pub swapchain: Option<u64>,
    pub image: Option<u64>,
    pub image_view: Option<u64>,
    pub render_pass: Option<u64>,
    pub pipeline: Option<u64>,
    pub framebuffer: Option<u64>,
    pub command_pool: Option<u64>,
    pub command_buffer: Option<u64>,
    pub image_available: Option<u64>,
    pub render_finished: Option<u64>,
    pub in_flight: Option<u64>,
    pub frame_submitted: bool,
}

/// The platform call one step makes, carrying the recorded handles
/// that call must consume. Everything a call asks for beyond these
/// handles is the step's constant descriptor.
#[derive(Clone, Copy, PartialEq, Eq, Structural, Debug)]
pub enum StepCall {
    /// Open the window; consumes no handle.
    OpenWindow,
    /// Create the graphics instance; consumes no handle.
    CreateInstance,
    /// Create the surface on the recorded instance, bound to the
    /// recorded window.
    CreateSurface { instance: u64, window: u64 },
    /// Enumerate the physical devices of the recorded instance.
    EnumerateDevices { instance: u64 },
    /// Enumerate the queue families of the recorded physical device
    /// and create the logical device from it.
    CreateLogicalDevice { physical_device: u64 },
    /// Create the swapchain on the recorded device, over the recorded
    /// surface.
    CreateSwapchain { device: u64, surface: u64 },
    /// Create the view over the recorded swapchain image, on the
    /// recorded device.
    CreateImageView { device: u64, image: u64 },
    /// Create the render pass on the recorded device.
    CreateRenderPass { device: u64 },
    /// Create the pipeline on the recorded device, over the recorded
    /// render pass; the two shader modules and the empty layout are
    /// created inside this call.
    CreateGraphicsPipeline { device: u64, render_pass: u64 },
    /// Create the framebuffer on the recorded device, over the
    /// recorded image view and render pass.
    CreateFramebuffer { device: u64, image_view: u64, render_pass: u64 },
    /// Create the command pool on the recorded device.
    CreateCommandPool { device: u64 },
    /// Allocate the one command buffer from the recorded pool and
    /// record it once, over the recorded pipeline, render pass and
    /// framebuffer.
    RecordCommandBuffer {
        device: u64,
        command_pool: u64,
        pipeline: u64,
        render_pass: u64,
        framebuffer: u64,
    },
    /// Create the two semaphores and the fence on the recorded
    /// device.
    CreateSyncObjects { device: u64 },
}

/// The call a step must make, bound to the handles the context has
/// recorded: every handle argument of a later creation call is the
/// result of the earlier call that produced it.
pub open spec fn step_call_spec(c: InitContext, s: Step) -> StepCall {
    match s {
        Step::Window => StepCall::OpenWindow,
        Step::Instance => StepCall::CreateInstance,
        Step::Surface => StepCall::CreateSurface {
            instance: c.instance.unwrap(),
            window: c.window.unwrap(),
        },
        Step::PhysicalDevice => StepCall::EnumerateDevices { instance: c.instance.unwrap() },
        Step::LogicalDevice => StepCall::CreateLogicalDevice {
            physical_device: c.physical_device.unwrap(),
        },
        Step::Swapchain => StepCall::CreateSwapchain {
            device: c.device.unwrap(),
            surface: c.surface.unwrap(),
        },
        Step::ImageView => StepCall::CreateImageView {
            device: c.device.unwrap(),
            image: c.image.unwrap(),
        },
        Step::RenderPass => StepCall::CreateRenderPass { device: c.device.unwrap() },
        Step::Pipeline => StepCall::CreateGraphicsPipeline {
            device: c.device.unwrap(),
            render_pass: c.render_pass.unwrap(),
        },
        Step::Framebuffer => StepCall::CreateFramebuffer {
            device: c.device.unwrap(),
            image_view: c.image_view.unwrap(),
            render_pass: c.render_pass.unwrap(),
        },
        Step::CommandPool => StepCall::CreateCommandPool { device: c.device.unwrap() },
        Step::CommandBuffer => StepCall::RecordCommandBuffer {
            device: c.device.unwrap(),
            command_pool: c.command_pool.unwrap(),
            pipeline: c.pipeline.unwrap(),
            render_pass: c.render_pass.unwrap(),
            framebuffer: c.framebuffer.unwrap(),
        },
        Step::SyncObjects => StepCall::CreateSyncObjects { device: c.device.unwrap() },
    }
}

/// The handles a step's creation call produced and the context
/// recorded.
pub open spec fn step_handles(c: InitContext, s: Step) -> Set<u64> {
    match s {
        Step::Window => set![c.window.unwrap(), c.device_context.unwrap()],
        Step::Instance => set![c.instance.unwrap()],
        Step::Surface => set![c.surface.unwrap()],
        Step::PhysicalDevice => set![c.physical_device.unwrap()],
        Step::LogicalDevice => set![c.device.unwrap(), c.queue.unwrap()],
        Step::Swapchain => set![c.swapchain.unwrap(), c.image.unwrap()],
        Step::ImageView => set![c.image_view.unwrap()],
        Step::RenderPass => set![c.render_pass.unwrap()],
        Step::Pipeline => set![c.pipeline.unwrap()],
        Step::Framebuffer => set![c.framebuffer.unwrap()],
        Step::CommandPool => set![c.command_pool.unwrap()],
        Step::CommandBuffer => set![c.command_buffer.unwrap()],
        Step::SyncObjects => set![
            c.image_available.unwrap(),
            c.render_finished.unwrap(),
            c.in_flight.unwrap(),
        ],
    }
}

/// Whether a call consumes the given handle.
pub open spec fn call_consumes(call: StepCall, h: u64) -> bool {
    match call {
        StepCall::OpenWindow => false,
        StepCall::CreateInstance => false,
        StepCall::CreateSurface { instance, window } => h == instance || h == window,
        StepCall::EnumerateDevices { instance } => h == instance,
        StepCall::CreateLogicalDevice { physical_device } => h == physical_device,
        StepCall::CreateSwapchain { device, surface } => h == device || h == surface,
        StepCall::CreateImageView { device, image } => h == device || h == image,
        StepCall::CreateRenderPass { device } => h == device,
        StepCall::CreateGraphicsPipeline { device, render_pass } => h == device || h
            == render_pass,
        StepCall::CreateFramebuffer { device, image_view, render_pass } => h == device || h
            == image_view || h == render_pass,
        StepCall::CreateCommandPool { device } => h == device,
        StepCall::RecordCommandBuffer {
            device,
            command_pool,
            pipeline,
            render_pass,
            framebuffer,
        } => h == device || h == command_pool || h == pipeline || h == render_pass || h
            == framebuffer,
        StepCall::CreateSyncObjects { device } => h == device,
    }
}

/// Law: every handle a step's bound call consumes was recorded by a
/// step the call depends on — each handle argument of a later
/// creation call is the result of the earlier call that produced it.
pub proof fn lemma_step_call_consumes_dependencies(c: InitContext, s: Step, h: u64)
    requires
        call_consumes(step_call_spec(c, s), h),
    ensures
        exists|d: Step| #[trigger] step_deps(s).contains(d) && step_handles(c, d).contains(h),
{
    match s {
        Step::Window => {},
        Step::Instance => {},
        Step::Surface => {
            if h == c.instance.unwrap() {
                assert(step_deps(s).contains(Step::Instance) && step_handles(c, Step::Instance)
                    .contains(h));
            } else {
                assert(step_deps(s).contains(Step::Window) && step_handles(c, Step::Window)
                    .contains(h));
            }
        },
        Step::PhysicalDevice => {
            assert(step_deps(s).contains(Step::Instance) && step_handles(c, Step::Instance)
                .contains(h));
        },
        Step::LogicalDevice => {
            assert(step_deps(s).contains(Step::PhysicalDevice) && step_handles(
                c,
                Step::PhysicalDevice,
            ).contains(h));
        },
        Step::Swapchain => {
            if h == c.device.unwrap() {
                assert(step_deps(s).contains(Step::LogicalDevice) && step_handles(
                    c,
                    Step::LogicalDevice,
                ).contains(h));
            } else {
                assert(step_deps(s).contains(Step::Surface) && step_handles(c, Step::Surface)
                    .contains(h));
            }
        },
        Step::ImageView => {
            if h == c.device.unwrap() {
                assert(step_deps(s).contains(Step::LogicalDevice) && step_handles(
                    c,
                    Step::LogicalDevice,
                ).contains(h));
            } else {
                assert(step_deps(s).contains(Step::Swapchain) && step_handles(c, Step::Swapchain)
                    .contains(h));
            }
        },
        Step::RenderPass => {
            assert(step_deps(s).contains(Step::LogicalDevice) && step_handles(
                c,
                Step::LogicalDevice,
            ).contains(h));
        },
        Step::Pipeline => {
            if h == c.device.unwrap() {
                assert(step_deps(s).contains(Step::LogicalDevice) && step_handles(
                    c,
                    Step::LogicalDevice,
                ).contains(h));
            } else {
                assert(step_deps(s).contains(Step::RenderPass) && step_handles(
                    c,
                    Step::RenderPass,
                ).contains(h));
            }
        },
        Step::Framebuffer => {
            if h == c.device.unwrap() {
                assert(step_deps(s).contains(Step::LogicalDevice) && step_handles(
                    c,
                    Step::LogicalDevice,
                ).contains(h));
            } else if h == c.image_view.unwrap() {
                assert(step_deps(s).contains(Step::ImageView) && step_handles(c, Step::ImageView)
                    .contains(h));
            } else {
                assert(step_deps(s).contains(Step::RenderPass) && step_handles(
                    c,
                    Step::RenderPass,
                ).contains(h));
            }
        },
        Step::CommandPool => {
            assert(step_deps(s).contains(Step::LogicalDevice) && step_handles(
                c,
                Step::LogicalDevice,
            ).contains(h));
        },
        Step::CommandBuffer => {
            if h == c.device.unwrap() {
                assert(step_deps(s).contains(Step::LogicalDevice) && step_handles(
                    c,
                    Step::LogicalDevice,
                ).contains(h));
            } else if h == c.command_pool.unwrap() {
                assert(step_deps(s).contains(Step::CommandPool) && step_handles(
                    c,
                    Step::CommandPool,
                ).contains(h));
            } else if h == c.pipeline.unwrap() {
                assert(step_deps(s).contains(Step::Pipeline) && step_handles(c, Step::Pipeline)
                    .contains(h));
            } else if h == c.render_pass.unwrap() {
                assert(step_deps(s).contains(Step::RenderPass) && step_handles(
                    c,
                    Step::RenderPass,
                ).contains(h));
            } else {
                assert(step_deps(s).contains(Step::Framebuffer) && step_handles(
                    c,
                    Step::Framebuffer,
                ).contains(h));
            }
        },
        Step::SyncObjects => {
            assert(step_deps(s).contains(Step::LogicalDevice) && step_handles(
                c,
                Step::LogicalDevice,
            ).contains(h));
        },
    }
}

impl InitContext {
    /// Whether the objects of a step exist. Objects created by one
    /// call (a device and its queue, a swapchain and its image, the
    /// three synchronization objects) exist together.
    pub open spec fn completed(self, s: Step) -> bool {
        match s {
            Step::Window => self.window is Some,
            Step::Instance => self.instance is Some,
            Step::Surface => self.surface is Some,
            Step::PhysicalDevice => self.physical_device is Some,
            Step::LogicalDevice => self.device is Some,
            Step::Swapchain => self.swapchain is Some,
            Step::ImageView => self.image_view is Some,
            Step::RenderPass => self.render_pass is Some,
            Step::Pipeline => self.pipeline is Some,
            Step::Framebuffer => self.framebuffer is Some,
            Step::CommandPool => self.command_pool is Some,
            Step::CommandBuffer => self.command_buffer is Some,
            Step::SyncObjects => self.in_flight is Some,
        }
    }

    /// Whether every object a step's creation call consumes exists.
    pub open spec fn deps_ready(self, s: Step) -> bool {
        match s {
            Step::Window => true,
            Step::Instance => true,
            Step::Surface => self.completed(Step::Window) && self.completed(Step::Instance),
            Step::PhysicalDevice => self.completed(Step::Instance),
            Step::LogicalDevice => self.completed(Step::PhysicalDevice),
            Step::Swapchain => self.completed(Step::LogicalDevice) && self.completed(Step::Surface),
            Step::ImageView => self.completed(Step::LogicalDevice) && self.completed(
                Step::Swapchain,
            ),
            Step::RenderPass => self.completed(Step::LogicalDevice),
            Step::Pipeline => self.completed(Step::LogicalDevice) && self.completed(
                Step::RenderPass,
            ),
            Step::Framebuffer => self.completed(Step::LogicalDevice) && self.completed(
                Step::ImageView,
            ) && self.completed(Step::RenderPass),
            Step::CommandPool => self.completed(Step::LogicalDevice),
            Step::CommandBuffer => self.completed(Step::LogicalDevice) && self.completed(
                Step::CommandPool,
            ) && self.completed(Step::Pipeline) && self.completed(Step::RenderPass)
                && self.completed(Step::Framebuffer),
            Step::SyncObjects => self.completed(Step::LogicalDevice),
        }
    }

    /// Whether every step has run.
    pub open spec fn fully_initialized(self) -> bool {
        &&& self.completed(Step::Window)
        &&& self.completed(Step::Instance)
        &&& self.completed(Step::Surface)
        &&& self.completed(Step::PhysicalDevice)
        &&& self.completed(Step::LogicalDevice)
        &&& self.completed(Step::Swapchain)
        &&& self.completed(Step::ImageView)
        &&& self.completed(Step::RenderPass)
        &&& self.completed(Step::Pipeline)
        &&& self.completed(Step::Framebuffer)
        &&& self.completed(Step::CommandPool)
        &&& self.completed(Step::CommandBuffer)
        &&& self.completed(Step::SyncObjects)
    }

    /// The context's well-formedness: objects created together exist
    /// together; no object exists before the objects its creation
    /// consumed; no frame was submitted before initialization was
    /// complete.
    pub open spec fn wf(self) -> bool {
        &&& (self.window is Some <==> self.device_context is Some)
        &&& (self.device is Some <==> self.queue is Some)
        &&& (self.swapchain is Some <==> self.image is Some)
        &&& (self.image_available is Some <==> self.render_finished is Some)
        &&& (self.image_available is Some <==> self.in_flight is Some)
        &&& (self.completed(Step::Surface) ==> self.deps_ready(Step::Surface))
        &&& (self.completed(Step::PhysicalDevice) ==> self.deps_ready(Step::PhysicalDevice))
        &&& (self.completed(Step::LogicalDevice) ==> self.deps_ready(Step::LogicalDevice))
        &&& (self.completed(Step::Swapchain) ==> self.deps_ready(Step::Swapchain))
        &&& (self.completed(Step::ImageView) ==> self.deps_ready(Step::ImageView))
        &&& (self.completed(Step::RenderPass) ==> self.deps_ready(Step::RenderPass))
        &&& (self.completed(Step::Pipeline) ==> self.deps_ready(Step::Pipeline))
        &&& (self.completed(Step::Framebuffer) ==> self.deps_ready(Step::Framebuffer))
        &&& (self.completed(Step::CommandPool) ==> self.deps_ready(Step::CommandPool))
        &&& (self.completed(Step::CommandBuffer) ==> self.deps_ready(Step::CommandBuffer))
        &&& (self.completed(Step::SyncObjects) ==> self.deps_ready(Step::SyncObjects))
        &&& (self.frame_submitted ==> self.fully_initialized())
    }

    /// The context before anything is created.
    pub open spec fn initial() -> InitContext {
        InitContext {
            window: None,
            device_context: None,
            instance: None,
            surface: None,
            physical_device: None,
            device: None,
            queue: None,
            swapchain: None,
            image: None,
            image_view: None,
            render_pass: None,
            pipeline: None,
            framebuffer: None,
            command_pool: None,
            command_buffer: None,
            image_available: None,
            render_finished: None,
            in_flight: None,
            frame_submitted: false,
        }
    }

    /// A fresh context: nothing created, nothing submitted.
    pub fn new() -> (c: InitContext)
        ensures
            c == InitContext::initial(),
            c.wf(),
            forall|s: Step| !c.completed(s),
            !c.frame_submitted,
    {
        let c = InitContext {
            window: None,
            device_context: None,
            instance: None,
            surface: None,
            physical_device: None,
            device: None,
            queue: None,
            swapchain: None,
            image: None,
            image_view: None,
            render_pass: None,
            pipeline: None,
            framebuffer: None,
            command_pool: None,
            command_buffer: None,
            image_available: None,
            render_finished: None,
            in_flight: None,
            frame_submitted: false,
        };
        proof {
            assert forall|s: Step| !c.completed(s) by {
                match s {
                    Step::Window => {},
                    Step::Instance => {},
                    Step::Surface => {},
                    Step::PhysicalDevice => {},
                    Step::LogicalDevice => {},
                    Step::Swapchain => {},
                    Step::ImageView => {},
                    Step::RenderPass => {},
                    Step::Pipeline => {},
                    Step::Framebuffer => {},
                    Step::CommandPool => {},
                    Step::CommandBuffer => {},
                    Step::SyncObjects => {},
                }
            }
        }
        c
    }

    /// Record the created window and its device context.
    pub fn create_window(&mut self, handles: Option<(u64, u64)>) -> (r: Result<(), InitError>)
        requires
            old(self).wf(),
        ensures
            final(self).wf(),
            r is Ok <==> step_accepts(*old(self), Step::Window, handles is Some),
            r is Ok ==> *final(self) == (InitContext {
                window: Some(handles.unwrap().0),
                device_context: Some(handles.unwrap().1),
                ..*old(self)
            }),
            r is Err ==> *final(self) == *old(self) && r == Err::<(), InitError>(
                step_error(*old(self), Step::Window),
            ),
    {
        if self.window.is_some() {
            return Err(InitError::AlreadyCreated(Step::Window));
        }
        match handles {
            None => Err(InitError::CreationFailed(Step::Window)),
            Some((w, dc)) => {
                self.window = Some(w);
                self.device_context = Some(dc);
                Ok(())
            },
        }
    }

    /// Record the created graphics instance.
    pub fn create_instance(&mut self, handle: Option<u64>) -> (r: Result<(), InitError>)
        requires
            old(self).wf(),
        ensures
            final(self).wf(),
            r is Ok <==> step_accepts(*old(self), Step::Instance, handle is Some),
            r is Ok ==> *final(self) == (InitContext { instance: handle, ..*old(self) }),
            r is Err ==> *final(self) == *old(self) && r == Err::<(), InitError>(
                step_error(*old(self), Step::Instance),
            ),
    {
        if self.instance.is_some() {
            return Err(InitError::AlreadyCreated(Step::Instance));
        }
        match handle {
            None => Err(InitError::CreationFailed(Step::Instance)),
            Some(h) => {
                self.instance = Some(h);
                Ok(())
            },
        }
    }

    /// Record the created rendering surface, bound to the window.
    pub fn create_surface(&mut self, handle: Option<u64>) -> (r: Result<(), InitError>)
        requires
            old(self).wf(),
        ensures
            final(self).wf(),
            r is Ok <==> step_accepts(*old(self), Step::Surface, handle is Some),
            r is Ok ==> *final(self) == (InitContext { surface: handle, ..*old(self) }),
            r is Err ==> *final(self) == *old(self) && r == Err::<(), InitError>(
                step_error(*old(self), Step::Surface),
            ),
    {
        if !(self.window.is_some() && self.instance.is_some()) {
            return Err(InitError::MissingDependency(Step::Surface));
        }
        if self.surface.is_some() {
            return Err(InitError::AlreadyCreated(Step::Surface));
        }
        match handle {
            None => Err(InitError::CreationFailed(Step::Surface)),
            Some(h) => {
                self.surface = Some(h);
                Ok(())
            },
        }
    }

    /// Pick a physical device from the enumerated list and record it.
    /// The policy is the program's: the first enumerated device, with
    /// no suitability check; an empty enumeration fails the step.
    pub fn pick_physical_device(&mut self, devices: &Vec<u64>) -> (r: Result<(), InitError>)
        requires
            old(self).wf(),
        ensures
            final(self).wf(),
            r is Ok <==> step_accepts(*old(self), Step::PhysicalDevice, devices.len() > 0),
            r is Ok ==> *final(self) == (InitContext {
                physical_device: Some(devices[0]),
                ..*old(self)
            }),
            r is Err ==> *final(self) == *old(self) && r == Err::<(), InitError>(
                step_error(*old(self), Step::PhysicalDevice),
            ),
    {
        if !self.instance.is_some() {
            return Err(InitError::MissingDependency(Step::PhysicalDevice));
        }
        if self.physical_device.is_some() {
            return Err(InitError::AlreadyCreated(Step::PhysicalDevice));
        }
        if devices.len() == 0 {
            return Err(InitError::CreationFailed(Step::PhysicalDevice));
        }
        let h: u64 = devices[0];
        self.physical_device = Some(h);
        Ok(())
    }

    /// Record the created logical device and its queue. The queue is
    /// queue 0 of family 0 of the picked device, so the step demands
    /// the platform's enumeration of that device's queue families and
    /// refuses a device whose family 0 does not support both graphics
    /// and present.
    pub fn create_logical_device(
        &mut self,
        families: &Vec<QueueFamilyCaps>,
        handles: Option<(u64, u64)>,
    ) -> (r: Result<(), InitError>)
        requires
            old(self).wf(),
        ensures
            final(self).wf(),
            r is Ok <==> (step_accepts(*old(self), Step::LogicalDevice, handles is Some)
                && family_zero_suitable(families@)),
            r is Ok ==> *final(self) == (InitContext {
                device: Some(handles.unwrap().0),
                queue: Some(handles.unwrap().1),
                ..*old(self)
            }),
            r is Err ==> *final(self) == *old(self),
            !old(self).deps_ready(Step::LogicalDevice) ==> r == Err::<(), InitError>(
                InitError::MissingDependency(Step::LogicalDevice),
            ),
            old(self).deps_ready(Step::LogicalDevice) && old(self).completed(Step::LogicalDevice)
                ==> r == Err::<(), InitError>(InitError::AlreadyCreated(Step::LogicalDevice)),
            old(self).deps_ready(Step::LogicalDevice) && !old(self).completed(Step::LogicalDevice)
                && !family_zero_suitable(families@) ==> r == Err::<(), InitError>(
                InitError::UnsuitableQueueFamily,
            ),
            old(self).deps_ready(Step::LogicalDevice) && !old(self).completed(Step::LogicalDevice)
                && family_zero_suitable(families@) && handles is None ==> r == Err::<(), InitError>(
                InitError::CreationFailed(Step::LogicalDevice),
            ),
    {
        if !self.physical_device.is_some() {
            return Err(InitError::MissingDependency(Step::LogicalDevice));
        }
        if self.device.is_some() {
            return Err(InitError::AlreadyCreated(Step::LogicalDevice));
        }
        if families.len() == 0 {
            return Err(InitError::UnsuitableQueueFamily);
        }
        let family0: QueueFamilyCaps = families[0];
        if !(family0.graphics && family0.present) {
            return Err(InitError::UnsuitableQueueFamily);
        }
        match handles {
            None => Err(InitError::CreationFailed(Step::LogicalDevice)),
            Some((d, q)) => {
                self.device = Some(d);
                self.queue = Some(q);
                Ok(())
            },
        }
    }

    /// Record the created swapchain and its single image.
    pub fn create_swapchain(&mut self, handles: Option<(u64, u64)>) -> (r: Result<(), InitError>)
        requires
            old(self).wf(),
        ensures
            final(self).wf(),
            r is Ok <==> step_accepts(*old(self), Step::Swapchain, handles is Some),
            r is Ok ==> *final(self) == (InitContext {
                swapchain: Some(handles.unwrap().0),
                image: Some(handles.unwrap().1),
                ..*old(self)
            }),
            r is Err ==> *final(self) == *old(self) && r == Err::<(), InitError>(
                step_error(*old(self), Step::Swapchain),
            ),
    {
        if !(self.device.is_some() && self.surface.is_some()) {
            return Err(InitError::MissingDependency(Step::Swapchain));
        }
        if self.swapchain.is_some() {
            return Err(InitError::AlreadyCreated(Step::Swapchain));
        }
        match handles {
            None => Err(InitError::CreationFailed(Step::Swapchain)),
            Some((s, i)) => {
                self.swapchain = Some(s);
                self.image = Some(i);
                Ok(())
            },
        }
    }

    /// Record the created view over the swapchain image.
    pub fn create_image_view(&mut self, handle: Option<u64>) -> (r: Result<(), InitError>)
        requires
            old(self).wf(),
        ensures
            final(self).wf(),
            r is Ok <==> step_accepts(*old(self), Step::ImageView, handle is Some),
            r is Ok ==> *final(self) == (InitContext { image_view: handle, ..*old(self) }),
            r is Err ==> *final(self) == *old(self) && r == Err::<(), InitError>(
                step_error(*old(self), Step::ImageView),
            ),
    {
        if !(self.device.is_some() && self.swapchain.is_some()) {
            return Err(InitError::MissingDependency(Step::ImageView));
        }
        if self.image_view.is_some() {
            return Err(InitError::AlreadyCreated(Step::ImageView));
        }
        match handle {
            None => Err(InitError::CreationFailed(Step::ImageView)),
            Some(h) => {
                self.image_view = Some(h);
                Ok(())
            },
        }
    }

    /// Record the created render pass.
    pub fn create_render_pass(&mut self, handle: Option<u64>) -> (r: Result<(), InitError>)
        requires
            old(self).wf(),
        ensures
            final(self).wf(),
            r is Ok <==> step_accepts(*old(self), Step::RenderPass, handle is Some),
            r is Ok ==> *final(self) == (InitContext { render_pass: handle, ..*old(self) }),
            r is Err ==> *final(self) == *old(self) && r == Err::<(), InitError>(
                step_error(*old(self), Step::RenderPass),
            ),
    {
        if !self.device.is_some() {
            return Err(InitError::MissingDependency(Step::RenderPass));
        }
        if self.render_pass.is_some() {
            return Err(InitError::AlreadyCreated(Step::RenderPass));
        }
        match handle {
            None => Err(InitError::CreationFailed(Step::RenderPass)),
            Some(h) => {
                self.render_pass = Some(h);
                Ok(())
            },
        }
    }

    /// Record the created graphics pipeline, built over the render
    /// pass from the two compiled shader stages.
    pub fn create_graphics_pipeline(&mut self, handle: Option<u64>) -> (r: Result<(), InitError>)
        requires
            old(self).wf(),
        ensures
            final(self).wf(),
            r is Ok <==> step_accepts(*old(self), Step::Pipeline, handle is Some),
            r is Ok ==> *final(self) == (InitContext { pipeline: handle, ..*old(self) }),
            r is Err ==> *final(self) == *old(self) && r == Err::<(), InitError>(
                step_error(*old(self), Step::Pipeline),
            ),
    {
        if !(self.device.is_some() && self.render_pass.is_some()) {
            return Err(InitError::MissingDependency(Step::Pipeline));
        }
        if self.pipeline.is_some() {
            return Err(InitError::AlreadyCreated(Step::Pipeline));
        }
        match handle {
            None => Err(InitError::CreationFailed(Step::Pipeline)),
            Some(h) => {
                self.pipeline = Some(h);
                Ok(())
            },
        }
    }

    /// Record the created framebuffer over the image view.
    pub fn create_framebuffers(&mut self, handle: Option<u64>) -> (r: Result<(), InitError>)
        requires
            old(self).wf(),
        ensures
            final(self).wf(),
            r is Ok <==> step_accepts(*old(self), Step::Framebuffer, handle is Some),
            r is Ok ==> *final(self) == (InitContext { framebuffer: handle, ..*old(self) }),
            r is Err ==> *final(self) == *old(self) && r == Err::<(), InitError>(
                step_error(*old(self), Step::Framebuffer),
            ),
    {
        if !(self.device.is_some() && self.image_view.is_some() && self.render_pass.is_some()) {
            return Err(InitError::MissingDependency(Step::Framebuffer));
        }
        if self.framebuffer.is_some() {
            return Err(InitError::AlreadyCreated(Step::Framebuffer));
        }
        match handle {
            None => Err(InitError::CreationFailed(Step::Framebuffer)),
            Some(h) => {
                self.framebuffer = Some(h);
                Ok(())
            },
        }
    }

    /// Record the created command pool.
    pub fn create_command_pool(&mut self, handle: Option<u64>) -> (r: Result<(), InitError>)
        requires
            old(self).wf(),
        ensures
            final(self).wf(),
            r is Ok <==> step_accepts(*old(self), Step::CommandPool, handle is Some),
            r is Ok ==> *final(self) == (InitContext { command_pool: handle, ..*old(self) }),
            r is Err ==> *final(self) == *old(self) && r == Err::<(), InitError>(
                step_error(*old(self), Step::CommandPool),
            ),
    {
        if !self.device.is_some() {
            return Err(InitError::MissingDependency(Step::CommandPool));
        }
        if self.command_pool.is_some() {
            return Err(InitError::AlreadyCreated(Step::CommandPool));
        }
        match handle {
            None => Err(InitError::CreationFailed(Step::CommandPool)),
            Some(h) => {
                self.command_pool = Some(h);
                Ok(())
            },
        }
    }

    /// Record the one primary command buffer, allocated from the pool
    /// and recorded once with the fixed command sequence.
    pub fn create_command_buffers(&mut self, handle: Option<u64>) -> (r: Result<(), InitError>)
        requires
            old(self).wf(),
        ensures
            final(self).wf(),
            r is Ok <==> step_accepts(*old(self), Step::CommandBuffer, handle is Some),
            r is Ok ==> *final(self) == (InitContext { command_buffer: handle, ..*old(self) }),
            r is Err ==> *final(self) == *old(self) && r == Err::<(), InitError>(
                step_error(*old(self), Step::CommandBuffer),
            ),
    {
        if !(self.device.is_some() && self.command_pool.is_some() && self.pipeline.is_some()
            && self.render_pass.is_some() && self.framebuffer.is_some()) {
            return Err(InitError::MissingDependency(Step::CommandBuffer));
        }
        if self.command_buffer.is_some() {
            return Err(InitError::AlreadyCreated(Step::CommandBuffer));
        }
        match handle {
            None => Err(InitError::CreationFailed(Step::CommandBuffer)),
            Some(h) => {
                self.command_buffer = Some(h);
                Ok(())
            },
        }
    }

    /// Record the two semaphores and the pre-signaled fence.
    pub fn create_sync_objects(&mut self, handles: Option<(u64, u64, u64)>) -> (r: Result<
        (),
        InitError,
    >)
        requires
            old(self).wf(),
        ensures
            final(self).wf(),
            r is Ok <==> step_accepts(*old(self), Step::SyncObjects, handles is Some),
            r is Ok ==> *final(self) == (InitContext {
                image_available: Some(handles.unwrap().0),
                render_finished: Some(handles.unwrap().1),
                in_flight: Some(handles.unwrap().2),
                ..*old(self)
            }),
            r is Err ==> *final(self) == *old(self) && r == Err::<(), InitError>(
                step_error(*old(self), Step::SyncObjects),
            ),
    {
        if !self.device.is_some() {
            return Err(InitError::MissingDependency(Step::SyncObjects));
        }
        if self.in_flight.is_some() {
            return Err(InitError::AlreadyCreated(Step::SyncObjects));
        }
        match handles {
            None => Err(InitError::CreationFailed(Step::SyncObjects)),
            Some((a, r2, f)) => {
                self.image_available = Some(a);
                self.render_finished = Some(r2);
                self.in_flight = Some(f);
                Ok(())
            },
        }
    }

    /// The platform call to make for the given step, bound to the
    /// recorded handles it must consume. Refused, with the same
    /// step-named error the step itself reports, before the step's
    /// dependencies exist or once the step has run.
    pub fn step_call(&self, s: Step) -> (r: Result<StepCall, InitError>)
        requires
            self.wf(),
        ensures
            r is Ok <==> (self.deps_ready(s) && !self.completed(s)),
            r is Ok ==> r == Ok::<StepCall, InitError>(step_call_spec(*self, s)),
            r is Err ==> r == Err::<StepCall, InitError>(step_error(*self, s)),
    {
        match s {
            Step::Window => {
                if self.window.is_some() {
                    return Err(InitError::AlreadyCreated(Step::Window));
                }
                Ok(StepCall::OpenWindow)
            },
            Step::Instance => {
                if self.instance.is_some() {
                    return Err(InitError::AlreadyCreated(Step::Instance));
                }
                Ok(StepCall::CreateInstance)
            },
            Step::Surface => {
                if !(self.window.is_some() && self.instance.is_some()) {
                    return Err(InitError::MissingDependency(Step::Surface));
                }
                if self.surface.is_some() {
                    return Err(InitError::AlreadyCreated(Step::Surface));
                }
                Ok(StepCall::CreateSurface {
                    instance: self.instance.unwrap(),
                    window: self.window.unwrap(),
                })
            },
            Step::PhysicalDevice => {
                if !self.instance.is_some() {
                    return Err(InitError::MissingDependency(Step::PhysicalDevice));
                }
                if self.physical_device.is_some() {
                    return Err(InitError::AlreadyCreated(Step::PhysicalDevice));
                }
                Ok(StepCall::EnumerateDevices { instance: self.instance.unwrap() })
            },
            Step::LogicalDevice => {
                if !self.physical_device.is_some() {
                    return Err(InitError::MissingDependency(Step::LogicalDevice));
                }
                if self.device.is_some() {
                    return Err(InitError::AlreadyCreated(Step::LogicalDevice));
                }
                Ok(StepCall::CreateLogicalDevice {
                    physical_device: self.physical_device.unwrap(),
                })
            },
            Step::Swapchain => {
                if !(self.device.is_some() && self.surface.is_some()) {
                    return Err(InitError::MissingDependency(Step::Swapchain));
                }
                if self.swapchain.is_some() {
                    return Err(InitError::AlreadyCreated(Step::Swapchain));
                }
                Ok(StepCall::CreateSwapchain {
                    device: self.device.unwrap(),
                    surface: self.surface.unwrap(),
                })
            },
            Step::ImageView => {
                if !(self.device.is_some() && self.swapchain.is_some()) {
                    return Err(InitError::MissingDependency(Step::ImageView));
                }
                if self.image_view.is_some() {
                    return Err(InitError::AlreadyCreated(Step::ImageView));
                }
                Ok(StepCall::CreateImageView {
                    device: self.device.unwrap(),
                    image: self.image.unwrap(),
                })
            },
            Step::RenderPass => {
                if !self.device.is_some() {
                    return Err(InitError::MissingDependency(Step::RenderPass));
                }
                if self.render_pass.is_some() {
                    return Err(InitError::AlreadyCreated(Step::RenderPass));
                }
                Ok(StepCall::CreateRenderPass { device: self.device.unwrap() })
            },
            Step::Pipeline => {
                if !(self.device.is_some() && self.render_pass.is_some()) {
                    return Err(InitError::MissingDependency(Step::Pipeline));
                }
                if self.pipeline.is_some() {
                    return Err(InitError::AlreadyCreated(Step::Pipeline));
                }
                Ok(StepCall::CreateGraphicsPipeline {
                    device: self.device.unwrap(),
                    render_pass: self.render_pass.unwrap(),
                })
            },
            Step::Framebuffer => {
                if !(self.device.is_some() && self.image_view.is_some()
                    && self.render_pass.is_some()) {
                    return Err(InitError::MissingDependency(Step::Framebuffer));
                }
                if self.framebuffer.is_some() {
                    return Err(InitError::AlreadyCreated(Step::Framebuffer));
                }
                Ok(StepCall::CreateFramebuffer {
                    device: self.device.unwrap(),
                    image_view: self.image_view.unwrap(),
                    render_pass: self.render_pass.unwrap(),
                })
            },
            Step::CommandPool => {
                if !self.device.is_some() {
                    return Err(InitError::MissingDependency(Step::CommandPool));
                }
                if self.command_pool.is_some() {
                    return Err(InitError::AlreadyCreated(Step::CommandPool));
                }
                Ok(StepCall::CreateCommandPool { device: self.device.unwrap() })
            },
            Step::CommandBuffer => {
                if !(self.device.is_some() && self.command_pool.is_some()
                    && self.pipeline.is_some() && self.render_pass.is_some()
                    && self.framebuffer.is_some()) {
                    return Err(InitError::MissingDependency(Step::CommandBuffer));
                }
                if self.command_buffer.is_some() {
                    return Err(InitError::AlreadyCreated(Step::CommandBuffer));
                }
                Ok(StepCall::RecordCommandBuffer {
                    device: self.device.unwrap(),
                    command_pool: self.command_pool.unwrap(),
                    pipeline: self.pipeline.unwrap(),
                    render_pass: self.render_pass.unwrap(),
                    framebuffer: self.framebuffer.unwrap(),
                })
            },
            Step::SyncObjects => {
                if !self.device.is_some() {
                    return Err(InitError::MissingDependency(Step::SyncObjects));
                }
                if self.in_flight.is_some() {
                    return Err(InitError::AlreadyCreated(Step::SyncObjects));
                }
                Ok(StepCall::CreateSyncObjects { device: self.device.unwrap() })
            },
        }
    }
}

/// Law: a well-formed context never holds an object whose
/// dependencies are missing — whichever order the steps were tried
/// in, every object that exists was created after everything its
/// creation consumed.
pub proof fn lemma_wf_respects_dependencies(c: InitContext)
    requires
        c.wf(),
    ensures
        forall|s: Step, d: Step|
            c.completed(s) && #[trigger] step_deps(s).contains(d) ==> c.completed(d),
{
    assert forall|s: Step, d: Step|
        c.completed(s) && #[trigger] step_deps(s).contains(d) implies c.completed(d) by {
        match s {
            Step::Window => {},
            Step::Instance => {},
            Step::Surface => {},
            Step::PhysicalDevice => {},
            Step::LogicalDevice => {},
            Step::Swapchain => {},
            Step::ImageView => {},
            Step::RenderPass => {},
            Step::Pipeline => {},
            Step::Framebuffer => {},
            Step::CommandPool => {},
            Step::CommandBuffer => {},
            Step::SyncObjects => {},
        }
    }
}

} // verus!
