use minitriangle::desc::{Extent2d, FRAME_HEIGHT, FRAME_WIDTH};
use minitriangle::window::{
    handle_message, pixel_format_config, pump_once, window_class_name, window_config,
    window_proc, window_title, MsgResponse, CS_HREDRAW, CS_OWNDC, CS_VREDRAW, PFD_DOUBLEBUFFER,
    PFD_DRAW_TO_WINDOW, PFD_SUPPORT_OPENGL, PFD_TYPE_RGBA, USE_DEFAULT_POSITION, WM_DESTROY,
    WM_QUIT, WS_OVERLAPPEDWINDOW, WS_VISIBLE,
};

#[test]
fn destroy_posts_quit_and_nothing_else_does() {
    assert_eq!(window_proc(WM_DESTROY), MsgResponse::PostQuit);
    // A spread of other message codes: none posts quit.
    for msg in [0u32, 1, 3, WM_QUIT, 0x000F, 0x0100, 0x0200, 0xFFFF] {
        assert_eq!(window_proc(msg), MsgResponse::PassToDefault);
    }
}

#[test]
fn empty_queue_continues_and_changes_nothing() {
    let mut queue: Vec<u32> = Vec::new();
    let (keep_running, dispatched) = handle_message(&mut queue);
    assert!(keep_running);
    assert!(dispatched.is_empty());
    assert!(queue.is_empty());
    // Draining again is just as uneventful.
    let (keep_running, dispatched) = handle_message(&mut queue);
    assert!(keep_running);
    assert!(dispatched.is_empty());
    assert!(queue.is_empty());
}

#[test]
fn queue_without_quit_dispatches_everything_and_continues() {
    let mut queue: Vec<u32> = vec![1, 3, 0x0100, 0x0200];
    let (keep_running, dispatched) = handle_message(&mut queue);
    assert!(keep_running);
    assert_eq!(dispatched, vec![1, 3, 0x0100, 0x0200]);
    assert!(queue.is_empty());
}

#[test]
fn quit_message_stops_the_loop() {
    let mut queue: Vec<u32> = vec![1, 3, WM_QUIT, 7, 9];
    let (keep_running, dispatched) = handle_message(&mut queue);
    assert!(!keep_running);
    // Only the messages before the quit were dispatched; the quit was
    // removed; the rest stays pending.
    assert_eq!(dispatched, vec![1, 3]);
    assert_eq!(queue, vec![7, 9]);
}

#[test]
fn quit_at_the_front_stops_immediately() {
    let mut queue: Vec<u32> = vec![WM_QUIT, 5];
    let (keep_running, dispatched) = handle_message(&mut queue);
    assert!(!keep_running);
    assert!(dispatched.is_empty());
    assert_eq!(queue, vec![5]);
}

#[test]
fn pump_stops_exactly_on_quit_or_escape() {
    // Neither quit nor escape: keep polling.
    let mut queue: Vec<u32> = vec![1, 2, 3];
    let (stop, _) = pump_once(&mut queue, false);
    assert!(!stop);

    // Escape alone stops, even with an empty queue.
    let mut queue: Vec<u32> = Vec::new();
    let (stop, _) = pump_once(&mut queue, true);
    assert!(stop);

    // A quit message alone stops.
    let mut queue: Vec<u32> = vec![WM_QUIT];
    let (stop, _) = pump_once(&mut queue, false);
    assert!(stop);

    // Both at once still stop.
    let mut queue: Vec<u32> = vec![WM_QUIT];
    let (stop, _) = pump_once(&mut queue, true);
    assert!(stop);
}

#[test]
fn window_config_matches_the_fixed_frame() {
    let c = window_config();
    assert_eq!(c.extent, Extent2d { width: 1920, height: 1080 });
    assert_eq!(c.extent, Extent2d { width: FRAME_WIDTH, height: FRAME_HEIGHT });
    assert_eq!(c.class_style, CS_OWNDC | CS_HREDRAW | CS_VREDRAW);
    assert_eq!(c.style, WS_OVERLAPPEDWINDOW | WS_VISIBLE);
    assert_eq!(c.x, USE_DEFAULT_POSITION);
    assert_eq!(c.y, USE_DEFAULT_POSITION);
}

#[test]
fn window_names_are_fixed() {
    assert_eq!(window_class_name(), "MyClass");
    assert_eq!(window_title(), "GLWIN");
}

#[test]
fn pixel_format_is_double_buffered_rgba() {
    let p = pixel_format_config();
    assert_eq!(p.version, 1);
    assert_eq!(p.flags, PFD_DRAW_TO_WINDOW | PFD_SUPPORT_OPENGL | PFD_DOUBLEBUFFER);
    assert_eq!(p.pixel_type, PFD_TYPE_RGBA);
    assert_eq!(p.color_bits, 32);
    assert_eq!(p.alpha_bits, 8);
    assert_eq!(p.depth_bits, 32);
}
