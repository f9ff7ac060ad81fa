//! The end-to-end shape of a run: the window appears, the whole
//! creation sequence succeeds in order, one frame is submitted and
//! presented exactly once, and the loop keeps polling until the
//! window is closed or the escape key is pressed.

use minitriangle::frame::FrameOp;
use minitriangle::init::{InitContext, InitError, QueueFamilyCaps};
use minitriangle::window::{pump_once, WM_DESTROY, WM_QUIT};

fn launch() -> InitContext {
    let mut c = InitContext::new();
    c.create_window(Some((100, 101))).unwrap();
    c.create_instance(Some(1)).unwrap();
    c.create_surface(Some(2)).unwrap();
    c.pick_physical_device(&vec![3]).unwrap();
    c.create_logical_device(&vec![QueueFamilyCaps { graphics: true, present: true }], Some((4, 5))).unwrap();
    c.create_swapchain(Some((6, 7))).unwrap();
    c.create_image_view(Some(8)).unwrap();
    c.create_render_pass(Some(9)).unwrap();
    c.create_graphics_pipeline(Some(10)).unwrap();
    c.create_framebuffers(Some(11)).unwrap();
    c.create_command_pool(Some(12)).unwrap();
    c.create_command_buffers(Some(13)).unwrap();
    c.create_sync_objects(Some((14, 15, 16))).unwrap();
    c
}

#[test]
fn one_frame_then_poll_until_close() {
    // A frame cannot be drawn before initialization is complete.
    let mut early = InitContext::new();
    assert_eq!(early.draw_frame(), Err(InitError::NotInitialized));

    let mut c = launch();
    assert!(c.is_fully_initialized());

    // The one frame: wait, acquire, submit, present — gated in order
    // on the semaphores and the pre-signaled fence.
    let plan = c.draw_frame().unwrap();
    assert_eq!(
        plan,
        vec![
            FrameOp::WaitFence { fence: 16 },
            FrameOp::AcquireImage { swapchain: 6, signal_semaphore: 14 },
            FrameOp::SubmitCommands {
                command_buffer: 13,
                queue: 5,
                wait_semaphore: 14,
                wait_stage: 0x400,
                signal_semaphore: 15,
                fence: 16,
            },
            FrameOp::PresentImage { queue: 5, swapchain: 6, wait_semaphore: 15 },
        ]
    );
    let submits = plan
        .iter()
        .filter(|op| matches!(op, FrameOp::SubmitCommands { .. }))
        .count();
    let presents = plan
        .iter()
        .filter(|op| matches!(op, FrameOp::PresentImage { .. }))
        .count();
    assert_eq!(submits, 1);
    assert_eq!(presents, 1);

    // The frame is submitted exactly once: a second submission is
    // refused however long the window stays open.
    assert_eq!(c.draw_frame(), Err(InitError::FrameAlreadySubmitted));

    // The loop polls an empty queue indefinitely without stopping.
    for _ in 0..1000 {
        let mut queue: Vec<u32> = Vec::new();
        let (stop, dispatched) = pump_once(&mut queue, false);
        assert!(!stop);
        assert!(dispatched.is_empty());
    }

    // Closing the window: destroy is dispatched, the posted quit
    // stops the loop on the next drain.
    let mut queue: Vec<u32> = vec![WM_DESTROY];
    let (stop, dispatched) = pump_once(&mut queue, false);
    assert!(!stop);
    assert_eq!(dispatched, vec![WM_DESTROY]);
    let mut queue: Vec<u32> = vec![WM_QUIT];
    let (stop, _) = pump_once(&mut queue, false);
    assert!(stop);
}

#[test]
fn escape_ends_the_run_too() {
    let mut c = launch();
    let _plan = c.draw_frame().unwrap();
    let mut queue: Vec<u32> = Vec::new();
    let (stop, _) = pump_once(&mut queue, true);
    assert!(stop);
}
