use egui_baseview::events::{
    Event, EventStatus, InputEvent, KeyState, KeyboardEvent, MouseEvent, Pos, ScrollDelta,
    WheelUnit, WindowEvent, WindowInfo,
};
use egui_baseview::geom::PhySize;
use egui_baseview::input::{
    Code, Key, KeyValue, Modifiers, MouseButton, NamedKey, Platform, PointerButton, RawModifiers,
};
use egui_baseview::output::{
    CursorIcon, FrameOutput, LogicalSize, OutputCommand, Rgba, ViewportCommand,
};
use egui_baseview::rational::Rat;
use egui_baseview::settings::{OpenSettings, WindowScalePolicy};
use egui_baseview::window::{Queue, WindowState};

fn rat(n: i64) -> Rat {
    Rat { num: n, den: 1 }
}

fn open_settings(width: i64, height: i64, scale: WindowScalePolicy) -> OpenSettings {
    OpenSettings {
        scale_policy: scale,
        logical_width: rat(width),
        logical_height: rat(height),
        title: String::from("session"),
    }
}

fn session(platform: Platform) -> WindowState {
    WindowState::new(
        &open_settings(400, 200, WindowScalePolicy::ScaleFactor(rat(2))),
        platform,
    )
}

fn no_raw_mods() -> RawModifiers {
    RawModifiers { alt: false, ctrl: false, shift: false, meta: false }
}

fn frame_output() -> FrameOutput {
    FrameOutput {
        root_viewport_present: true,
        viewport_commands: Vec::new(),
        repaint_delay_micros: u64::MAX,
        output_commands: Vec::new(),
        cursor_icon: CursorIcon::Default,
    }
}

fn key_event(state: KeyState, code: Code, key: KeyValue) -> KeyboardEvent {
    KeyboardEvent { state, code, key, repeat: false }
}

#[test]
fn open_at_fixed_scale_sets_physical_size() {
    let s = session(Platform::Other);
    assert_eq!(s.physical_size, PhySize { width: 800, height: 400 });
    assert_eq!(s.pixels_per_point, rat(2));
    assert_eq!(s.screen_rect.width, rat(400));
    assert_eq!(s.screen_rect.height, rat(200));
    assert_eq!(s.repaint_after, Some(0));
    assert!(s.focused);
    assert!(!s.close_requested);
    assert_eq!(s.bg_color, Rgba { r: 0, g: 0, b: 0, a: 255 });
}

#[test]
fn system_scale_policy_assumes_one_until_resize() {
    let s = WindowState::new(
        &open_settings(300, 100, WindowScalePolicy::SystemScaleFactor),
        Platform::Other,
    );
    assert_eq!(s.pixels_per_point, rat(1));
    assert_eq!(s.physical_size, PhySize { width: 300, height: 100 });
}

#[test]
fn resize_recomputes_logical_rect_exactly_and_forces_repaint() {
    let mut s = session(Platform::Other);
    let status = s.on_event(
        &InputEvent::Window(WindowEvent::Resized(WindowInfo {
            physical_size: PhySize { width: 1000, height: 500 },
            system_scale: rat(1),
        })),
        77,
    );
    assert_eq!(status, EventStatus::Captured);
    // Fixed scale policy: still 2 pixels per point, logical 500 x 250.
    assert!(s.screen_rect.width.same_value(rat(500)));
    assert!(s.screen_rect.height.same_value(rat(250)));
    assert_eq!(s.physical_size, PhySize { width: 1000, height: 500 });
    // The resize schedules an immediate repaint...
    assert_eq!(s.repaint_after, Some(77));
    // ...so the next tick renders even though the GUI layer asks for none.
    let q = Queue::new(s.bg_color, s.close_requested, s.physical_size);
    let decision = s.end_frame(&q, &frame_output(), 78);
    assert!(decision.render.is_some());
}

#[test]
fn resize_under_system_policy_takes_reported_scale() {
    let mut s = WindowState::new(
        &open_settings(300, 100, WindowScalePolicy::SystemScaleFactor),
        Platform::Other,
    );
    s.on_event(
        &InputEvent::Window(WindowEvent::Resized(WindowInfo {
            physical_size: PhySize { width: 450, height: 150 },
            system_scale: Rat { num: 3, den: 2 },
        })),
        5,
    );
    assert_eq!(s.pixels_per_point, Rat { num: 3, den: 2 });
    assert!(s.screen_rect.width.same_value(rat(300)));
    assert!(s.screen_rect.height.same_value(rat(100)));
}

#[test]
fn press_after_move_reports_button_at_last_position() {
    let mut s = session(Platform::Other);
    let pos = Pos { x: rat(12), y: rat(34) };
    s.on_event(
        &InputEvent::Mouse(MouseEvent::CursorMoved { position: pos, modifiers: no_raw_mods() }),
        0,
    );
    s.on_event(
        &InputEvent::Mouse(MouseEvent::ButtonPressed {
            button: MouseButton::Left,
            modifiers: no_raw_mods(),
        }),
        0,
    );
    assert_eq!(s.events.len(), 2);
    assert_eq!(s.events[0], Event::PointerMoved(pos));
    assert_eq!(
        s.events[1],
        Event::PointerButton {
            pos,
            button: PointerButton::Primary,
            pressed: true,
            modifiers: Modifiers { alt: false, ctrl: false, shift: false, mac_cmd: false, command: false },
        }
    );
}

#[test]
fn press_without_move_is_dropped() {
    let mut s = session(Platform::Other);
    s.on_event(
        &InputEvent::Mouse(MouseEvent::ButtonPressed {
            button: MouseButton::Left,
            modifiers: no_raw_mods(),
        }),
        0,
    );
    assert!(s.events.is_empty());
}

#[test]
fn unrecognised_button_is_dropped() {
    let mut s = session(Platform::Other);
    s.on_event(
        &InputEvent::Mouse(MouseEvent::CursorMoved {
            position: Pos { x: rat(1), y: rat(1) },
            modifiers: no_raw_mods(),
        }),
        0,
    );
    s.on_event(
        &InputEvent::Mouse(MouseEvent::ButtonPressed {
            button: MouseButton::Back,
            modifiers: no_raw_mods(),
        }),
        0,
    );
    assert_eq!(s.events.len(), 1);
}

#[test]
fn pointer_leave_clears_position() {
    let mut s = session(Platform::Other);
    let pos = Pos { x: rat(5), y: rat(6) };
    s.on_event(
        &InputEvent::Mouse(MouseEvent::CursorMoved { position: pos, modifiers: no_raw_mods() }),
        0,
    );
    s.on_event(&InputEvent::Mouse(MouseEvent::CursorLeft), 0);
    assert_eq!(s.events[1], Event::PointerGone);
    // A press after the leave is dropped again.
    s.on_event(
        &InputEvent::Mouse(MouseEvent::ButtonPressed {
            button: MouseButton::Left,
            modifiers: no_raw_mods(),
        }),
        0,
    );
    assert_eq!(s.events.len(), 2);
}

#[test]
fn pixel_scroll_is_scaled_to_points() {
    let mut s = session(Platform::Other);
    s.on_event(
        &InputEvent::Mouse(MouseEvent::WheelScrolled {
            delta: ScrollDelta::Pixels { x: rat(10), y: rat(-6) },
            modifiers: no_raw_mods(),
        }),
        0,
    );
    match &s.events[0] {
        Event::MouseWheel { unit, delta, .. } => {
            assert_eq!(*unit, WheelUnit::Point);
            // 2 pixels per point: 10 pixels are exactly 5 points.
            assert!(delta.x.same_value(rat(5)));
            assert!(delta.y.same_value(rat(-3)));
        }
        other => panic!("expected a wheel event, got {:?}", other),
    }
}

#[test]
fn line_scroll_passes_through_and_mac_inverts_horizontal() {
    let mut s = session(Platform::Mac);
    s.on_event(
        &InputEvent::Mouse(MouseEvent::WheelScrolled {
            delta: ScrollDelta::Lines { x: rat(2), y: rat(3) },
            modifiers: no_raw_mods(),
        }),
        0,
    );
    match &s.events[0] {
        Event::MouseWheel { unit, delta, .. } => {
            assert_eq!(*unit, WheelUnit::Line);
            assert!(delta.x.same_value(rat(-2)));
            assert!(delta.y.same_value(rat(3)));
        }
        other => panic!("expected a wheel event, got {:?}", other),
    }
}

#[test]
fn typing_a_plain_letter_emits_key_and_text() {
    let mut s = session(Platform::Other);
    s.apply_keyboard_event(
        &key_event(KeyState::Down, Code::Other, KeyValue::Character("a".to_string())),
        None,
    );
    assert_eq!(s.events.len(), 2);
    match &s.events[0] {
        Event::Key { key, pressed, .. } => {
            assert_eq!(*key, Key::A);
            assert!(*pressed);
        }
        other => panic!("expected a key event, got {:?}", other),
    }
    assert_eq!(s.events[1], Event::Text("a".to_string()));
}

#[test]
fn control_chord_suppresses_text() {
    let mut s = session(Platform::Other);
    s.apply_keyboard_event(
        &key_event(KeyState::Down, Code::ControlLeft, KeyValue::Named(NamedKey::Control)),
        None,
    );
    assert!(s.events.is_empty());
    s.apply_keyboard_event(
        &key_event(KeyState::Down, Code::Other, KeyValue::Character("a".to_string())),
        None,
    );
    // The key event is reported, but no text is typed while control is down.
    assert_eq!(s.events.len(), 1);
    assert!(matches!(s.events[0], Event::Key { key: Key::A, .. }));
}

#[test]
fn cut_chord_emits_cut_and_no_text() {
    let mut s = session(Platform::Other);
    s.apply_keyboard_event(
        &key_event(KeyState::Down, Code::ControlLeft, KeyValue::Named(NamedKey::Control)),
        None,
    );
    s.apply_keyboard_event(
        &key_event(KeyState::Down, Code::KeyX, KeyValue::Character("x".to_string())),
        None,
    );
    assert_eq!(s.events.len(), 2);
    assert!(matches!(s.events[0], Event::Key { key: Key::X, .. }));
    assert_eq!(s.events[1], Event::Cut);
}

#[test]
fn copy_chord_emits_copy_and_no_text() {
    let mut s = session(Platform::Other);
    s.apply_keyboard_event(
        &key_event(KeyState::Down, Code::ControlRight, KeyValue::Named(NamedKey::Control)),
        None,
    );
    s.apply_keyboard_event(
        &key_event(KeyState::Down, Code::KeyC, KeyValue::Character("c".to_string())),
        None,
    );
    assert_eq!(s.events.len(), 2);
    assert!(matches!(s.events[0], Event::Key { key: Key::C, .. }));
    assert_eq!(s.events[1], Event::Copy);
}

#[test]
fn paste_chord_types_the_clipboard_text_not_the_key() {
    let mut s = session(Platform::Other);
    s.apply_keyboard_event(
        &key_event(KeyState::Down, Code::ControlLeft, KeyValue::Named(NamedKey::Control)),
        None,
    );
    s.apply_keyboard_event(
        &key_event(KeyState::Down, Code::KeyV, KeyValue::Character("v".to_string())),
        Some("hello".to_string()),
    );
    assert_eq!(s.events.len(), 2);
    assert!(matches!(s.events[0], Event::Key { key: Key::V, .. }));
    assert_eq!(s.events[1], Event::Text("hello".to_string()));
}

#[test]
fn paste_without_clipboard_text_types_nothing() {
    let mut s = session(Platform::Other);
    s.apply_keyboard_event(
        &key_event(KeyState::Down, Code::ControlLeft, KeyValue::Named(NamedKey::Control)),
        None,
    );
    s.apply_keyboard_event(
        &key_event(KeyState::Down, Code::KeyV, KeyValue::Character("v".to_string())),
        None,
    );
    assert_eq!(s.events.len(), 1);
    assert!(matches!(s.events[0], Event::Key { key: Key::V, .. }));
}

#[test]
fn windows_legacy_paste_uses_shift_insert() {
    let mut s = session(Platform::Windows);
    s.apply_keyboard_event(
        &key_event(KeyState::Down, Code::ShiftLeft, KeyValue::Named(NamedKey::Shift)),
        None,
    );
    s.apply_keyboard_event(
        &key_event(KeyState::Down, Code::Insert, KeyValue::Named(NamedKey::Insert)),
        Some("pasted".to_string()),
    );
    assert_eq!(s.events.len(), 2);
    assert!(matches!(s.events[0], Event::Key { key: Key::Insert, .. }));
    assert_eq!(s.events[1], Event::Text("pasted".to_string()));
}

#[test]
fn meta_key_sets_command_only_on_mac() {
    let mut mac = session(Platform::Mac);
    mac.apply_keyboard_event(
        &key_event(KeyState::Down, Code::MetaLeft, KeyValue::Named(NamedKey::Meta)),
        None,
    );
    assert!(mac.modifiers.command);
    assert!(mac.modifiers.mac_cmd);

    let mut other = session(Platform::Other);
    other.apply_keyboard_event(
        &key_event(KeyState::Down, Code::MetaLeft, KeyValue::Named(NamedKey::Meta)),
        None,
    );
    assert!(!other.modifiers.command);
    assert!(!other.modifiers.mac_cmd);
}

#[test]
fn control_on_mac_does_not_set_command() {
    let mut mac = session(Platform::Mac);
    mac.apply_keyboard_event(
        &key_event(KeyState::Down, Code::ControlLeft, KeyValue::Named(NamedKey::Control)),
        None,
    );
    assert!(mac.modifiers.ctrl);
    assert!(!mac.modifiers.command);
}

#[test]
fn focus_events_are_recorded() {
    let mut s = session(Platform::Other);
    s.on_event(&InputEvent::Window(WindowEvent::Unfocused), 0);
    s.on_event(&InputEvent::Window(WindowEvent::Focused), 0);
    assert_eq!(s.events[0], Event::WindowFocused(false));
    assert_eq!(s.events[1], Event::WindowFocused(true));
    assert!(s.focused);
}

#[test]
fn begin_frame_drains_the_accumulator() {
    let mut s = session(Platform::Other);
    s.on_event(
        &InputEvent::Mouse(MouseEvent::CursorMoved {
            position: Pos { x: rat(1), y: rat(2) },
            modifiers: no_raw_mods(),
        }),
        0,
    );
    let input = s.begin_frame(123);
    assert_eq!(input.time_micros, 123);
    assert_eq!(input.events.len(), 1);
    assert!(s.events.is_empty());
    assert_eq!(input.pixels_per_point, rat(2));
    assert!(input.screen_rect.width.same_value(rat(400)));
}

#[test]
fn zero_repaint_delay_renders_in_the_same_tick() {
    let mut s = session(Platform::Other);
    // Consume the initial scheduled repaint first.
    let q = Queue::new(s.bg_color, s.close_requested, s.physical_size);
    let first = s.end_frame(&q, &frame_output(), 0);
    assert!(first.render.is_some());
    assert_eq!(s.repaint_after, None);

    let mut out = frame_output();
    out.repaint_delay_micros = 0;
    let decision = s.end_frame(&q, &out, 10);
    assert!(decision.render.is_some());
}

#[test]
fn nonzero_repaint_delay_waits_for_the_scheduled_time() {
    let mut s = session(Platform::Other);
    let q = Queue::new(s.bg_color, s.close_requested, s.physical_size);
    s.end_frame(&q, &frame_output(), 0);

    let mut out = frame_output();
    out.repaint_delay_micros = 1000;
    let deferred = s.end_frame(&q, &out, 100);
    assert!(deferred.render.is_none());
    assert_eq!(s.repaint_after, Some(1100));

    // Still before the scheduled time: no render, and the wake moves to
    // this tick's time plus the delay, as each undrawn tick re-schedules.
    let early = s.end_frame(&q, &out, 1099);
    assert!(early.render.is_none());
    assert_eq!(s.repaint_after, Some(2099));
    // At the scheduled time the tick renders.
    let due = s.end_frame(&q, &out, 2099);
    assert!(due.render.is_some());
    assert_eq!(s.repaint_after, None);
}

#[test]
fn render_parameters_take_the_queued_background_and_size() {
    let mut s = session(Platform::Other);
    let mut q = Queue::new(s.bg_color, s.close_requested, s.physical_size);
    q.bg_color(Rgba { r: 10, g: 20, b: 30, a: 255 });
    q.resize(PhySize { width: 640, height: 480 });
    let decision = s.end_frame(&q, &frame_output(), 0);
    let params = decision.render.expect("initial tick renders");
    assert_eq!(params.bg_color, Rgba { r: 10, g: 20, b: 30, a: 255 });
    assert_eq!(params.physical_size, PhySize { width: 640, height: 480 });
    assert_eq!(params.pixels_per_point, rat(2));
    assert_eq!(s.bg_color, Rgba { r: 10, g: 20, b: 30, a: 255 });
    assert_eq!(s.physical_size, PhySize { width: 640, height: 480 });
}

#[test]
fn close_request_from_the_update_closure_closes() {
    let mut s = session(Platform::Other);
    let mut q = Queue::new(s.bg_color, s.close_requested, s.physical_size);
    q.close_window();
    let decision = s.end_frame(&q, &frame_output(), 0);
    assert!(decision.close);
    assert!(s.close_requested);
}

#[test]
fn viewport_close_command_closes() {
    let mut s = session(Platform::Other);
    let q = Queue::new(s.bg_color, s.close_requested, s.physical_size);
    let mut out = frame_output();
    out.viewport_commands.push(ViewportCommand::Close);
    let decision = s.end_frame(&q, &out, 0);
    assert!(decision.close);
}

#[test]
fn inner_size_command_resizes_clamped_to_one_point() {
    let mut s = session(Platform::Other);
    let q = Queue::new(s.bg_color, s.close_requested, s.physical_size);
    let mut out = frame_output();
    out.viewport_commands.push(ViewportCommand::InnerSize(LogicalSize {
        width: rat(320),
        height: Rat { num: 1, den: 2 },
    }));
    let decision = s.end_frame(&q, &out, 0);
    let size = decision.resize.expect("a resize was requested");
    assert_eq!(size.width, rat(320));
    assert_eq!(size.height, rat(1));
}

#[test]
fn last_inner_size_command_wins() {
    let mut s = session(Platform::Other);
    let q = Queue::new(s.bg_color, s.close_requested, s.physical_size);
    let mut out = frame_output();
    out.viewport_commands.push(ViewportCommand::InnerSize(LogicalSize {
        width: rat(100),
        height: rat(100),
    }));
    out.viewport_commands.push(ViewportCommand::InnerSize(LogicalSize {
        width: rat(200),
        height: rat(150),
    }));
    let decision = s.end_frame(&q, &out, 0);
    let size = decision.resize.expect("a resize was requested");
    assert_eq!(size.width, rat(200));
    assert_eq!(size.height, rat(150));
}

#[test]
fn gui_dropping_the_root_viewport_closes_at_once() {
    let mut s = session(Platform::Other);
    let q = Queue::new(s.bg_color, s.close_requested, s.physical_size);
    let mut out = frame_output();
    out.root_viewport_present = false;
    out.repaint_delay_micros = 0;
    out.cursor_icon = CursorIcon::Text;
    let decision = s.end_frame(&q, &out, 0);
    assert!(decision.close);
    assert!(decision.render.is_none());
    assert!(decision.resize.is_none());
    assert!(decision.set_cursor.is_none());
}

#[test]
fn cursor_changes_only_when_it_differs() {
    let mut s = session(Platform::Other);
    let q = Queue::new(s.bg_color, s.close_requested, s.physical_size);
    let mut out = frame_output();
    out.cursor_icon = CursorIcon::Text;
    let first = s.end_frame(&q, &out, 0);
    assert_eq!(first.set_cursor, Some(CursorIcon::Text));
    let second = s.end_frame(&q, &out, 1);
    assert_eq!(second.set_cursor, None);
}

#[test]
fn side_effect_commands_never_abort_the_frame() {
    let mut s = session(Platform::Other);
    let q = Queue::new(s.bg_color, s.close_requested, s.physical_size);
    let mut out = frame_output();
    // Copying text and images and opening an address are attempted
    // best-effort; a machine without a clipboard or an opener just
    // swallows them.
    out.output_commands.push(OutputCommand::CopyText("copied".to_string()));
    out.output_commands.push(OutputCommand::CopyImage);
    out.output_commands.push(OutputCommand::OpenUrl("file:///nonexistent".to_string()));
    let decision = s.end_frame(&q, &out, 0);
    assert!(!decision.close);
    assert!(decision.render.is_some());
}

#[test]
fn plain_typing_through_the_event_callback() {
    let mut s = session(Platform::Other);
    let status = s.on_event(
        &InputEvent::Keyboard(key_event(
            KeyState::Down,
            Code::Other,
            KeyValue::Character("q".to_string()),
        )),
        0,
    );
    assert_eq!(status, EventStatus::Captured);
    assert_eq!(s.events.len(), 2);
    assert!(matches!(s.events[0], Event::Key { key: Key::Q, pressed: true, .. }));
    assert_eq!(s.events[1], Event::Text("q".to_string()));
}

#[test]
fn paste_through_the_event_callback_reads_the_real_clipboard() {
    let mut s = session(Platform::Other);
    s.on_event(
        &InputEvent::Keyboard(key_event(
            KeyState::Down,
            Code::ControlLeft,
            KeyValue::Named(NamedKey::Control),
        )),
        0,
    );
    s.on_event(
        &InputEvent::Keyboard(key_event(
            KeyState::Down,
            Code::KeyV,
            KeyValue::Character("v".to_string()),
        )),
        0,
    );
    // The key event always arrives; whether a text event follows depends
    // on what the machine's clipboard holds, so only the shape is checked:
    // at most one pasted text after the key event.
    assert!(!s.events.is_empty());
    assert!(matches!(s.events[0], Event::Key { key: Key::V, pressed: true, .. }));
    assert!(s.events.len() <= 2);
    if s.events.len() == 2 {
        assert!(matches!(s.events[1], Event::Text(_)));
    }
}
