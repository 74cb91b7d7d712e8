use xgameruntime::input_log::{
    owner_wnd_proc_action, PointerTarget,
    marker_rect, message_name, pointer_position, text_rect, wnd_proc_action, InputLog, LogLine, Rect, WindowAction,
    WM_CHAR, WM_CLOSE, WM_DESTROY, WM_ENTERSIZEMOVE, WM_EXITSIZEMOVE, WM_KEYDOWN, WM_LBUTTONDOWN, WM_MOUSEMOVE,
    WM_NCLBUTTONUP, WM_NCMOUSEMOVE, WM_PAINT, WM_SETFOCUS, WM_SIZE, WM_TIMER,
};

#[test]
fn names_of_messages() {
    assert_eq!(message_name(WM_MOUSEMOVE), "WM_MOUSEMOVE");
    assert_eq!(message_name(WM_NCLBUTTONUP), "WM_NCLBUTTONUP");
    assert_eq!(message_name(0x0112), "WM_SYSCOMMAND");
    assert_eq!(message_name(5), "WM_SIZE");
    assert_eq!(message_name(0x9999), "other");
}

#[test]
fn pointer_position_is_signed_words() {
    assert_eq!(pointer_position(0x0020_0010), (16, 32));
    assert_eq!(pointer_position(0xFFFF_FFFF), (-1, -1));
    assert_eq!(pointer_position(-1), (-1, -1));
    assert_eq!(pointer_position(0x0001_8000), (-32768, 1));
}

#[test]
fn input_messages_are_counted() {
    let mut log = InputLog::new();
    assert_eq!(log.last_mouse_x, -1);
    assert_eq!(log.log_message(WM_MOUSEMOVE, 0, 0x0005_0007), LogLine::Position { msg: WM_MOUSEMOVE, x: 7, y: 5 });
    assert_eq!(log.log_message(WM_NCMOUSEMOVE, 0, 0), LogLine::Position { msg: WM_NCMOUSEMOVE, x: 0, y: 0 });
    assert_eq!(log.log_message(WM_LBUTTONDOWN, 1, 2), LogLine::Detail { msg: WM_LBUTTONDOWN });
    assert_eq!(log.log_message(WM_KEYDOWN, 0x41, 0), LogLine::Detail { msg: WM_KEYDOWN });
    assert_eq!(log.log_message(WM_CHAR, 0x61, 0), LogLine::Detail { msg: WM_CHAR });
    assert_eq!(log.log_message(WM_SETFOCUS, 0, 0), LogLine::Detail { msg: WM_SETFOCUS });
    assert_eq!(log.move_count, 2);
    assert_eq!(log.button_count, 1);
    assert_eq!(log.key_count, 2);
    assert_eq!(log.input_count, 5);
    assert_eq!(log.last_message, WM_SETFOCUS);
    assert_eq!((log.last_mouse_x, log.last_mouse_y), (0, 0));
}

#[test]
fn size_move_loop_and_minimize() {
    let mut log = InputLog::new();
    assert_eq!(log.log_message(WM_ENTERSIZEMOVE, 0, 0), LogLine::EnterSizeMove);
    assert!(log.in_size_move);
    assert_eq!(log.log_message(WM_EXITSIZEMOVE, 0, 0), LogLine::ExitSizeMove);
    assert!(!log.in_size_move);
    assert_eq!(log.log_message(WM_SIZE, 1, 0), LogLine::Minimized);
    assert_eq!(log.log_message(WM_SIZE, 0, 0), LogLine::Silent);
    assert_eq!(log.log_message(WM_PAINT, 0, 0), LogLine::Silent);
    assert_eq!(log.input_count, 0);
    assert_eq!(log.last_message, WM_PAINT);
}

#[test]
fn counters_wrap_and_stay_in_agreement() {
    let mut log = InputLog::new();
    log.input_count = u32::MAX;
    log.move_count = u32::MAX;
    log.log_message(WM_MOUSEMOVE, 0, 0);
    assert_eq!(log.input_count, 0);
    assert_eq!(log.move_count, 0);
    assert_eq!(log.input_count, log.move_count.wrapping_add(log.button_count).wrapping_add(log.key_count));
}

#[test]
fn window_procedure_actions() {
    assert_eq!(wnd_proc_action(WM_TIMER, 0), WindowAction::Invalidate);
    assert_eq!(wnd_proc_action(WM_PAINT, 0), WindowAction::Paint);
    assert_eq!(wnd_proc_action(WM_KEYDOWN, 0x1B), WindowAction::Quit);
    assert_eq!(wnd_proc_action(WM_KEYDOWN, 0x41), WindowAction::Default);
    assert_eq!(wnd_proc_action(WM_CLOSE, 0), WindowAction::Destroy);
    assert_eq!(wnd_proc_action(WM_DESTROY, 0), WindowAction::Quit);
}

#[test]
fn marker_moves_with_time() {
    assert_eq!(marker_rect(0, 900, 0), Rect { left: 20, top: 80, right: 60, bottom: 120 });
    assert_eq!(marker_rect(0, 900, 80), Rect { left: 30, top: 80, right: 70, bottom: 120 });
    assert_eq!(marker_rect(0, 900, 8 * 840), Rect { left: 20, top: 80, right: 60, bottom: 120 });
    assert_eq!(marker_rect(0, 10, 123456), Rect { left: 20, top: 80, right: 60, bottom: 120 });
    assert_eq!(text_rect(884, 681), Rect { left: 20, top: 145, right: 864, bottom: 661 });
}

#[test]
fn pointer_target_reported_on_change() {
    let mut t = PointerTarget::new();
    assert!(t.observe(5));
    assert!(!t.observe(5));
    assert!(t.observe(6));
    assert!(t.observe(0));
    assert!(!t.observe(0));
    assert_eq!(owner_wnd_proc_action(WM_DESTROY), WindowAction::Quit);
    assert_eq!(owner_wnd_proc_action(WM_PAINT), WindowAction::Default);
}
