//! The window configuration and the message-pump decisions.
//!
//! The platform delivers messages as plain numeric codes. The
//! functions here decide everything the window procedure and the
//! message loop decide — post quit on destroy, dispatch everything
//! else, stop the loop exactly on a quit message or the escape key —
//! while the surrounding application performs the deliveries.

use vstd::prelude::*;
use crate::desc::{Extent2d, FRAME_HEIGHT, FRAME_WIDTH};

verus! {

/// The message code the platform sends when the window is destroyed.
pub const WM_DESTROY: u32 = 0x0002;

/// The message code that ends the message loop.
pub const WM_QUIT: u32 = 0x0012;

// Window class styles: redraw on size changes, one device context
// per window.
pub const CS_VREDRAW: u32 = 0x0001;

pub const CS_HREDRAW: u32 = 0x0002;

pub const CS_OWNDC: u32 = 0x0020;

// Window styles: an ordinary overlapped window, shown at creation.
pub const WS_OVERLAPPEDWINDOW: u32 = 0x00CF0000;

pub const WS_VISIBLE: u32 = 0x10000000;

/// The sentinel position that lets the platform place the window.
pub const USE_DEFAULT_POSITION: i32 = -2147483648;

// Pixel format flags and type.
pub const PFD_DOUBLEBUFFER: u32 = 0x0000_0001;

pub const PFD_DRAW_TO_WINDOW: u32 = 0x0000_0004;

pub const PFD_SUPPORT_OPENGL: u32 = 0x0000_0020;

pub const PFD_TYPE_RGBA: u32 = 0;

/// What the window creation call asks for.
#[derive(Clone, Copy, PartialEq, Eq, Structural, Debug)]
pub struct WindowConfig {
    pub class_style: u32,
    pub style: u32,
    pub x: i32,
    pub y: i32,
    pub extent: Extent2d,
}

/// The window configuration: a visible overlapped window of the
/// fixed frame extent at the platform's default position.
pub fn window_config() -> (c: WindowConfig)
    ensures
        c.class_style == CS_OWNDC | CS_HREDRAW | CS_VREDRAW,
        c.style == WS_OVERLAPPEDWINDOW | WS_VISIBLE,
        c.x == USE_DEFAULT_POSITION,
        c.y == USE_DEFAULT_POSITION,
        c.extent == (Extent2d { width: FRAME_WIDTH, height: FRAME_HEIGHT }),
{
    WindowConfig {
        class_style: CS_OWNDC | CS_HREDRAW | CS_VREDRAW,
        style: WS_OVERLAPPEDWINDOW | WS_VISIBLE,
        x: USE_DEFAULT_POSITION,
        y: USE_DEFAULT_POSITION,
        extent: Extent2d { width: FRAME_WIDTH, height: FRAME_HEIGHT },
    }
}

/// The name under which the window class is registered.
pub fn window_class_name() -> (r: &'static str)
    ensures
        r@ == "MyClass"@,
{
    "MyClass"
}

/// The window title.
pub fn window_title() -> (r: &'static str)
    ensures
        r@ == "GLWIN"@,
{
    "GLWIN"
}

/// What the pixel format of the window's device context asks for.
#[derive(Clone, Copy, PartialEq, Eq, Structural, Debug)]
pub struct PixelFormatConfig {
    pub version: u16,
    pub flags: u32,
    pub pixel_type: u32,
    pub color_bits: u8,
    pub alpha_bits: u8,
    pub depth_bits: u8,
}

/// The pixel format: a double-buffered 32-bit RGBA format with an
/// 8-bit alpha channel and a 32-bit depth buffer.
pub fn pixel_format_config() -> (c: PixelFormatConfig)
    ensures
        c.version == 1,
        c.flags == PFD_DRAW_TO_WINDOW | PFD_SUPPORT_OPENGL | PFD_DOUBLEBUFFER,
        c.pixel_type == PFD_TYPE_RGBA,
        c.color_bits == 32,
        c.alpha_bits == 8,
        c.depth_bits == 32,
{
    PixelFormatConfig {
        version: 1,
        flags: PFD_DRAW_TO_WINDOW | PFD_SUPPORT_OPENGL | PFD_DOUBLEBUFFER,
        pixel_type: PFD_TYPE_RGBA,
        color_bits: 32,
        alpha_bits: 8,
        depth_bits: 32,
    }
}

/// What the window procedure does with one message.
#[derive(Clone, Copy, PartialEq, Eq, Structural, Debug)]
pub enum MsgResponse {
    /// Post the quit message to the queue.
    PostQuit,
    /// Hand the message to the platform's default handling.
    PassToDefault,
}

/// The window procedure's decision: post a quit signal on the destroy
/// message, defer every other message to default handling.
pub fn window_proc(msg: u32) -> (r: MsgResponse)
    ensures
        r == MsgResponse::PostQuit <==> msg == WM_DESTROY,
        r == MsgResponse::PassToDefault <==> msg != WM_DESTROY,
{
    if msg == WM_DESTROY {
        MsgResponse::PostQuit
    } else {
        MsgResponse::PassToDefault
    }
}

/// The number of messages at the front of the queue before the first
/// quit message — the whole queue when no quit message is pending.
pub open spec fn quit_free_prefix_len(q: Seq<u32>) -> int
    decreases q.len(),
{
    if q.len() == 0 {
        0
    } else if q[0] == WM_QUIT {
        0
    } else {
        1 + quit_free_prefix_len(q.drop_first())
    }
}

/// Whether a quit message is pending anywhere in the queue.
pub open spec fn has_quit(q: Seq<u32>) -> bool {
    exists|i: int| 0 <= i < q.len() && q[i] == WM_QUIT
}

/// Law: the quit-free prefix is exactly the part of the queue before
/// the first quit message — it spans the whole queue if and only if
/// no quit message is pending, and otherwise ends at a quit message
/// that no earlier position anticipates.
pub proof fn lemma_quit_free_prefix(q: Seq<u32>)
    ensures
        0 <= quit_free_prefix_len(q) <= q.len(),
        quit_free_prefix_len(q) < q.len() ==> q[quit_free_prefix_len(q)] == WM_QUIT,
        forall|i: int| 0 <= i < quit_free_prefix_len(q) ==> q[i] != WM_QUIT,
        has_quit(q) <==> quit_free_prefix_len(q) < q.len(),
    decreases q.len(),
{
    if q.len() == 0 {
    } else if q[0] == WM_QUIT {
    } else {
        lemma_quit_free_prefix(q.drop_first());
        let k = quit_free_prefix_len(q);
        assert forall|i: int| 0 <= i < k implies q[i] != WM_QUIT by {
            if i > 0 {
                assert(q.drop_first()[i - 1] != WM_QUIT);
            }
        }
        if has_quit(q) {
            let w = choose|i: int| 0 <= i < q.len() && q[i] == WM_QUIT;
            assert(q.drop_first()[w - 1] == WM_QUIT);
            assert(has_quit(q.drop_first()));
        }
        if quit_free_prefix_len(q) < q.len() {
            assert(q[k] == q.drop_first()[k - 1]);
        }
    }
}

/// Drain the pending message queue without blocking, as the message
/// loop does once per iteration: remove messages from the front and
/// dispatch each one until the queue is empty (keep running) or a
/// quit message is removed (stop). Messages behind a quit message
/// stay in the queue.
///
/// Returns whether the application should keep running, and the
/// messages to dispatch, in order. On an empty queue it reports
/// "keep running" and changes nothing.
pub fn handle_message(queue: &mut Vec<u32>) -> (r: (bool, Vec<u32>))
    ensures
        r.0 <==> !has_quit(old(queue)@),
        r.1@ == old(queue)@.take(quit_free_prefix_len(old(queue)@)),
        r.0 ==> final(queue)@ == Seq::<u32>::empty(),
        !r.0 ==> final(queue)@ == old(queue)@.skip(quit_free_prefix_len(old(queue)@) + 1),
        old(queue)@.len() == 0 ==> r.0 && final(queue)@ == old(queue)@ && r.1@.len() == 0,
{
    proof {
        lemma_quit_free_prefix(old(queue)@);
    }
    let ghost q0: Seq<u32> = old(queue)@;
    let ghost k: int = quit_free_prefix_len(q0);
    let mut dispatched: Vec<u32> = Vec::new();
    proof {
        assert(queue@ =~= q0.skip(0));
        assert(dispatched@ =~= q0.take(0));
    }
    loop
        invariant
            q0 == old(queue)@,
            k == quit_free_prefix_len(q0),
            dispatched@.len() <= k,
            dispatched@ == q0.take(dispatched@.len() as int),
            queue@ == q0.skip(dispatched@.len() as int),
            0 <= k <= q0.len(),
            k < q0.len() ==> q0[k] == WM_QUIT,
            forall|i: int| 0 <= i < k ==> q0[i] != WM_QUIT,
            has_quit(q0) <==> k < q0.len(),
        decreases queue@.len(),
    {
        if queue.len() == 0 {
            proof {
                assert(dispatched@.len() == q0.len());
                assert(k == q0.len());
                assert(dispatched@ =~= q0.take(k));
                assert(queue@ =~= Seq::<u32>::empty());
            }
            return (true, dispatched);
        }
        let ghost drained: int = dispatched@.len() as int;
        let msg: u32 = queue.remove(0);
        proof {
            assert(msg == q0[drained]);
        }
        if msg == WM_QUIT {
            proof {
                assert(drained == k);
                assert(dispatched@ =~= q0.take(k));
                assert(queue@ =~= q0.skip(k + 1));
            }
            return (false, dispatched);
        }
        proof {
            if drained == k {
                assert(k < q0.len());
                assert(q0[k] == WM_QUIT);
                assert(false);
            }
        }
        dispatched.push(msg);
        proof {
            assert(dispatched@ =~= q0.take(dispatched@.len() as int));
            assert(queue@ =~= q0.skip(dispatched@.len() as int));
        }
    }
}

/// One iteration of the main loop's exit decision: drain the pending
/// messages, then test the escape key. The loop stops exactly when a
/// quit message was pending or the escape key is down — never for any
/// other message.
pub fn pump_once(queue: &mut Vec<u32>, escape_pressed: bool) -> (r: (bool, Vec<u32>))
    ensures
        r.0 <==> (has_quit(old(queue)@) || escape_pressed),
        r.1@ == old(queue)@.take(quit_free_prefix_len(old(queue)@)),
        !has_quit(old(queue)@) ==> final(queue)@ == Seq::<u32>::empty(),
        has_quit(old(queue)@) ==> final(queue)@ == old(queue)@.skip(
            quit_free_prefix_len(old(queue)@) + 1,
        ),
{
    let (keep_running, dispatched) = handle_message(queue);
    let stop = !keep_running || escape_pressed;
    (stop, dispatched)
}

} // verus!
