//! The single frame submission: the ordered plan of queue operations
//! that draws and presents the one triangle.

use vstd::prelude::*;
use crate::desc::PIPELINE_STAGE_COLOR_ATTACHMENT_OUTPUT;
use crate::init::{InitContext, InitError};

verus! {

/// One operation of the frame submission, over the handles the
/// context owns.
#[derive(Clone, Copy, PartialEq, Eq, Structural, Debug)]
pub enum FrameOp {
    /// Wait on the in-flight fence (pre-signaled, so the first and
    /// only frame passes immediately); no timeout is applied.
    WaitFence { fence: u64 },
    /// Acquire the next swapchain image, signaling the given
    /// semaphore when it is available.
    AcquireImage { swapchain: u64, signal_semaphore: u64 },
    /// Submit the pre-recorded command buffer, gated on the wait
    /// semaphore at the color-output stage, signaling the given
    /// semaphore and fence when done.
    SubmitCommands {
        command_buffer: u64,
        queue: u64,
        wait_semaphore: u64,
        wait_stage: u32,
        signal_semaphore: u64,
        fence: u64,
    },
    /// Present the acquired image, gated on the wait semaphore.
    PresentImage { queue: u64, swapchain: u64, wait_semaphore: u64 },
}

/// The frame plan of a fully initialized context: wait on the fence,
/// acquire the image, submit the command buffer, present — each
/// submission gated on the semaphore the step before it signals.
pub open spec fn frame_plan_spec(c: InitContext) -> Seq<FrameOp> {
    seq![
        FrameOp::WaitFence { fence: c.in_flight.unwrap() },
        FrameOp::AcquireImage {
            swapchain: c.swapchain.unwrap(),
            signal_semaphore: c.image_available.unwrap(),
        },
        FrameOp::SubmitCommands {
            command_buffer: c.command_buffer.unwrap(),
            queue: c.queue.unwrap(),
            wait_semaphore: c.image_available.unwrap(),
            wait_stage: PIPELINE_STAGE_COLOR_ATTACHMENT_OUTPUT,
            signal_semaphore: c.render_finished.unwrap(),
            fence: c.in_flight.unwrap(),
        },
        FrameOp::PresentImage {
            queue: c.queue.unwrap(),
            swapchain: c.swapchain.unwrap(),
            wait_semaphore: c.render_finished.unwrap(),
        },
    ]
}

/// Whether an operation signals the given semaphore.
pub open spec fn op_signals(op: FrameOp, sem: u64) -> bool {
    match op {
        FrameOp::AcquireImage { signal_semaphore, .. } => signal_semaphore == sem,
        FrameOp::SubmitCommands { signal_semaphore, .. } => signal_semaphore == sem,
        _ => false,
    }
}

/// Whether an operation waits on the given semaphore.
pub open spec fn op_waits_on(op: FrameOp, sem: u64) -> bool {
    match op {
        FrameOp::SubmitCommands { wait_semaphore, .. } => wait_semaphore == sem,
        FrameOp::PresentImage { wait_semaphore, .. } => wait_semaphore == sem,
        _ => false,
    }
}

impl InitContext {
    /// Whether every creation step has run, decidably.
    pub fn is_fully_initialized(&self) -> (b: bool)
        ensures
            b == self.fully_initialized(),
    {
        self.window.is_some() && self.instance.is_some() && self.surface.is_some()
            && self.physical_device.is_some() && self.device.is_some() && self.swapchain.is_some()
            && self.image_view.is_some() && self.render_pass.is_some() && self.pipeline.is_some()
            && self.framebuffer.is_some() && self.command_pool.is_some()
            && self.command_buffer.is_some() && self.in_flight.is_some()
    }

    /// Plan the one frame submission. Succeeds exactly once, and only
    /// on a fully initialized context; the returned operations are to
    /// be performed in order.
    pub fn draw_frame(&mut self) -> (r: Result<Vec<FrameOp>, InitError>)
        requires
            old(self).wf(),
        ensures
            final(self).wf(),
            r is Ok <==> (old(self).fully_initialized() && !old(self).frame_submitted),
            !old(self).fully_initialized() ==> *final(self) == *old(self) && r == Err::<
                Vec<FrameOp>,
                InitError,
            >(InitError::NotInitialized),
            old(self).fully_initialized() && old(self).frame_submitted ==> *final(self) == *old(
                self,
            ) && r == Err::<Vec<FrameOp>, InitError>(InitError::FrameAlreadySubmitted),
            r is Ok ==> *final(self) == (InitContext { frame_submitted: true, ..*old(self) }),
            r matches Ok(plan) ==> plan@ == frame_plan_spec(*old(self)),
    {
        if !self.is_fully_initialized() {
            return Err(InitError::NotInitialized);
        }
        if self.frame_submitted {
            return Err(InitError::FrameAlreadySubmitted);
        }
        let fence: u64 = self.in_flight.unwrap();
        let swapchain: u64 = self.swapchain.unwrap();
        let image_available: u64 = self.image_available.unwrap();
        let render_finished: u64 = self.render_finished.unwrap();
        let queue: u64 = self.queue.unwrap();
        let command_buffer: u64 = self.command_buffer.unwrap();
        let mut plan: Vec<FrameOp> = Vec::new();
        plan.push(FrameOp::WaitFence { fence });
        plan.push(FrameOp::AcquireImage { swapchain, signal_semaphore: image_available });
        plan.push(
            FrameOp::SubmitCommands {
                command_buffer,
                queue,
                wait_semaphore: image_available,
                wait_stage: PIPELINE_STAGE_COLOR_ATTACHMENT_OUTPUT,
                signal_semaphore: render_finished,
                fence,
            },
        );
        plan.push(FrameOp::PresentImage { queue, swapchain, wait_semaphore: render_finished });
        self.frame_submitted = true;
        proof {
            assert(plan@ =~= frame_plan_spec(*old(self)));
        }
        Ok(plan)
    }
}

/// Law: in the frame plan, every semaphore an operation waits on is
/// signaled by an earlier operation of the plan — the acquire gates
/// the submission, and the submission gates the present.
pub proof fn lemma_frame_plan_orders_waits(c: InitContext)
    ensures
        forall|i: int, sem: u64|
            0 <= i < frame_plan_spec(c).len() && #[trigger] op_waits_on(frame_plan_spec(c)[i], sem)
                ==> exists|j: int|
                0 <= j < i && #[trigger] op_signals(frame_plan_spec(c)[j], sem),
{
    assert forall|i: int, sem: u64|
        0 <= i < frame_plan_spec(c).len() && #[trigger] op_waits_on(
            frame_plan_spec(c)[i],
            sem,
        ) implies exists|j: int| 0 <= j < i && #[trigger] op_signals(frame_plan_spec(c)[j], sem) by {
        if i == 2 {
            assert(op_signals(frame_plan_spec(c)[1], sem));
        } else {
            assert(i == 3);
            assert(op_signals(frame_plan_spec(c)[2], sem));
        }
    }
}

/// Law: the frame plan submits the command buffer exactly once and
/// presents exactly once.
pub proof fn lemma_frame_submitted_and_presented_once(c: InitContext)
    ensures
        frame_plan_spec(c).len() == 4,
        forall|i: int|
            0 <= i < frame_plan_spec(c).len() && (#[trigger] frame_plan_spec(c)[i]) is
                SubmitCommands ==> i == 2,
        frame_plan_spec(c)[2] is SubmitCommands,
        forall|i: int|
            0 <= i < frame_plan_spec(c).len() && (#[trigger] frame_plan_spec(c)[i]) is PresentImage
                ==> i == 3,
        frame_plan_spec(c)[3] is PresentImage,
{
}

} // verus!
