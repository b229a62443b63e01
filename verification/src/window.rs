use vstd::prelude::*;

use crate::events::{
    Event, EventStatus, InputEvent, KeyState, KeyboardEvent, MouseEvent, Pos, ScrollDelta,
    WheelDelta, WheelUnit, WindowEvent, WindowInfo,
};
use crate::geom::{calculate_screen_rect, is_exact_quotient, lemma_screen_rect_exact, round_to_u32,
    spec_round_u32, spec_screen_rect, PhySize, ScreenRect};
use crate::host::{open_url_detached, ClipboardHandle};
use crate::input::{
    is_copy_command, is_cut_command, is_paste_command, spec_is_copy_command, spec_is_cut_command,
    spec_is_paste_command, spec_translate_mouse_button, spec_translate_virtual_key,
    translate_mouse_button, translate_virtual_key, Code, KeyValue, Modifiers, MouseButton,
    Platform, RawModifiers,
};
use crate::output::{
    CursorIcon, FrameDecision, FrameOutput, FrameOutputModel, LogicalSize, OutputCommand,
    RenderParams, Rgba, ViewportCommand,
};
use crate::rational::Rat;
use crate::settings::{OpenSettings, WindowScalePolicy};

verus! {

/// The scoped mutation handle passed to the embedder's build and update
/// closures: it collects the changes the closure asks for, and the session
/// applies them when the closure has returned.
#[derive(Clone, Copy, Debug, PartialEq, Eq, Structural)]
pub struct Queue {
    pub bg_color: Rgba,
    pub close_requested: bool,
    pub physical_size: PhySize,
}

impl Queue {
    /// A handle starting from the session's current values.
    pub fn new(bg_color: Rgba, close_requested: bool, physical_size: PhySize) -> (q: Queue)
        ensures
            q == (Queue { bg_color, close_requested, physical_size }),
    {
        Queue { bg_color, close_requested, physical_size }
    }

    /// Set the background color.
    pub fn bg_color(&mut self, bg_color: Rgba)
        ensures
            *final(self) == (Queue { bg_color, ..*old(self) }),
    {
        self.bg_color = bg_color;
    }

    /// Set the physical size of the window.
    pub fn resize(&mut self, physical_size: PhySize)
        ensures
            *final(self) == (Queue { physical_size, ..*old(self) }),
    {
        self.physical_size = physical_size;
    }

    /// Close the window.
    pub fn close_window(&mut self)
        ensures
            *final(self) == (Queue { close_requested: true, ..*old(self) }),
    {
        self.close_requested = true;
    }
}

/// The mathematical state of a window session: every field the contracts
/// speak about. It leaves out only the clipboard handle, whose contents
/// belong to the machine, not to the session.
#[verifier::ext_equal]
pub ghost struct Model {
    pub platform: Platform,
    pub events: Seq<Event>,
    pub modifiers: Modifiers,
    pub pointer_pos: Option<Pos>,
    pub current_cursor_icon: CursorIcon,
    pub physical_size: PhySize,
    pub scale_policy: WindowScalePolicy,
    pub pixels_per_point: Rat,
    pub screen_rect: ScreenRect,
    pub bg_color: Rgba,
    pub close_requested: bool,
    pub repaint_after: Option<u64>,
    pub focused: bool,
}

impl Model {
    pub open spec fn wf(self) -> bool {
        &&& self.pixels_per_point.is_pos()
        &&& self.pixels_per_point.small()
        &&& self.scale_policy.wf()
        &&& self.screen_rect.wf()
    }
}

/// Modifier flags after a mouse event's raw modifiers: the windowing layer
/// reports alt, shift and control; control doubles as the primary shortcut
/// modifier here.
pub open spec fn spec_modifiers_after_raw(m: Modifiers, raw: RawModifiers) -> Modifiers {
    Modifiers { alt: raw.alt, shift: raw.shift, command: raw.ctrl, ..m }
}

/// Modifier flags after a key went down or up: shift, control and alt are
/// tracked by their codes; control doubles as the primary shortcut modifier
/// except on the Mac family, where the meta key plays that role instead.
pub open spec fn spec_modifiers_after_key(
    m: Modifiers,
    code: Code,
    pressed: bool,
    platform: Platform,
) -> Modifiers {
    match code {
        Code::ShiftLeft | Code::ShiftRight => Modifiers { shift: pressed, ..m },
        Code::ControlLeft | Code::ControlRight => if platform == Platform::Mac {
            Modifiers { ctrl: pressed, ..m }
        } else {
            Modifiers { ctrl: pressed, command: pressed, ..m }
        },
        Code::AltLeft | Code::AltRight => Modifiers { alt: pressed, ..m },
        Code::MetaLeft | Code::MetaRight => if platform == Platform::Mac {
            Modifiers { mac_cmd: pressed, command: pressed, ..m }
        } else {
            m
        },
        _ => m,
    }
}

/// A wheel delta normalised to the GUI layer's vocabulary: line scrolls
/// pass through, pixel scrolls are scaled to points, and on the Mac family
/// the horizontal direction is inverted to undo a platform quirk.
pub open spec fn spec_wheel(delta: ScrollDelta, ppp: Rat, platform: Platform) -> (
    WheelUnit,
    WheelDelta,
) {
    let unit = match delta {
        ScrollDelta::Lines { .. } => WheelUnit::Line,
        ScrollDelta::Pixels { .. } => WheelUnit::Point,
    };
    let d = match delta {
        ScrollDelta::Lines { x, y } => WheelDelta { x, y },
        ScrollDelta::Pixels { x, y } => WheelDelta {
            x: x.spec_mul(ppp.spec_recip()),
            y: y.spec_mul(ppp.spec_recip()),
        },
    };
    if platform == Platform::Mac {
        (unit, WheelDelta { x: d.x.spec_neg(), ..d })
    } else {
        (unit, d)
    }
}

/// The session state after one mouse event.
pub open spec fn spec_after_mouse(s: Model, event: MouseEvent) -> Model {
    match event {
        MouseEvent::CursorMoved { position, modifiers } => {
            let m = spec_modifiers_after_raw(s.modifiers, modifiers);
            Model {
                modifiers: m,
                pointer_pos: Some(position),
                events: s.events.push(Event::PointerMoved(position)),
                ..s
            }
        },
        MouseEvent::ButtonPressed { button, modifiers } => spec_after_button(s, button, modifiers, true),
        MouseEvent::ButtonReleased { button, modifiers } => spec_after_button(s, button, modifiers, false),
        MouseEvent::WheelScrolled { delta, modifiers } => {
            let m = spec_modifiers_after_raw(s.modifiers, modifiers);
            let (unit, d) = spec_wheel(delta, s.pixels_per_point, s.platform);
            Model {
                modifiers: m,
                events: s.events.push(Event::MouseWheel { unit, delta: d, modifiers: m }),
                ..s
            }
        },
        MouseEvent::CursorLeft => Model {
            pointer_pos: None,
            events: s.events.push(Event::PointerGone),
            ..s
        },
        MouseEvent::Other => s,
    }
}

/// The session state after a button press or release: a pointer-button
/// event is recorded only when a pointer position is known and the button
/// is one the GUI layer recognises.
pub open spec fn spec_after_button(
    s: Model,
    button: MouseButton,
    raw: RawModifiers,
    pressed: bool,
) -> Model {
    let m = spec_modifiers_after_raw(s.modifiers, raw);
    match (s.pointer_pos, spec_translate_mouse_button(button)) {
        (Some(pos), Some(b)) => Model {
            modifiers: m,
            events: s.events.push(
                Event::PointerButton { pos, button: b, pressed, modifiers: m },
            ),
            ..s
        },
        _ => Model { modifiers: m, ..s },
    }
}

/// The events one keyboard event appends, given the already-updated
/// modifiers `m` and the text `clip` that a paste chord pulled from the
/// clipboard (`None` where there was none or the chord is no paste). The
/// key's own event comes first when the key maps into the GUI vocabulary;
/// a key press then appends exactly one of: a cut event, a copy event, the
/// pasted clipboard text, or — for a plain printable key with no control
/// modifier held — the typed text.
pub open spec fn spec_key_events(
    m: Modifiers,
    event: KeyboardEvent,
    platform: Platform,
    clip: Option<String>,
) -> Seq<Event> {
    let pressed = event.state == KeyState::Down;
    spec_translated_key_events(m, event, pressed) + spec_chord_events(
        m,
        event,
        pressed,
        platform,
        clip,
    )
}

/// The key's own event, where the key maps into the GUI vocabulary.
pub open spec fn spec_translated_key_events(
    m: Modifiers,
    event: KeyboardEvent,
    pressed: bool,
) -> Seq<Event> {
    match spec_translate_virtual_key(event.key) {
        Some(k) => seq![Event::Key { key: k, pressed, repeat: event.repeat, modifiers: m }],
        None => Seq::empty(),
    }
}

/// What a key press types besides the key itself: exactly one of a cut
/// event, a copy event, the pasted clipboard text, or — for a printable
/// key with no control modifier held — the typed text; a release types
/// nothing.
pub open spec fn spec_chord_events(
    m: Modifiers,
    event: KeyboardEvent,
    pressed: bool,
    platform: Platform,
    clip: Option<String>,
) -> Seq<Event> {
    if !pressed {
        Seq::empty()
    } else if spec_is_cut_command(m, event.code, platform) {
        seq![Event::Cut]
    } else if spec_is_copy_command(m, event.code, platform) {
        seq![Event::Copy]
    } else if spec_is_paste_command(m, event.code, platform) {
        match clip {
            Some(text) => seq![Event::Text(text)],
            None => Seq::empty(),
        }
    } else {
        match event.key {
            KeyValue::Character(text) => if !m.ctrl && !m.command {
                seq![Event::Text(text)]
            } else {
                Seq::empty()
            },
            KeyValue::Named(_) => Seq::empty(),
        }
    }
}

/// The session state after one keyboard event, given the clipboard text a
/// paste chord obtained.
pub open spec fn spec_after_keyboard(s: Model, event: KeyboardEvent, clip: Option<String>) -> Model {
    let pressed = event.state == KeyState::Down;
    let m = spec_modifiers_after_key(s.modifiers, event.code, pressed, s.platform);
    Model { modifiers: m, events: s.events + spec_key_events(m, event, s.platform, clip), ..s }
}

/// The session state after one window event: a resize re-derives the scale
/// factor from the policy, recomputes the logical screen rectangle exactly,
/// and forces a repaint at the very next tick; focus changes are recorded
/// and passed on as events.
pub open spec fn spec_after_window(s: Model, event: WindowEvent, now: u64) -> Model {
    match event {
        WindowEvent::Resized(info) => {
            let ppp = match s.scale_policy {
                WindowScalePolicy::ScaleFactor(factor) => factor,
                WindowScalePolicy::SystemScaleFactor => info.system_scale,
            };
            Model {
                pixels_per_point: ppp,
                physical_size: info.physical_size,
                screen_rect: spec_screen_rect(info.physical_size, ppp),
                repaint_after: Some(now),
                ..s
            }
        },
        WindowEvent::Focused => Model {
            focused: true,
            events: s.events.push(Event::WindowFocused(true)),
            ..s
        },
        WindowEvent::Unfocused => Model {
            focused: false,
            events: s.events.push(Event::WindowFocused(false)),
            ..s
        },
        WindowEvent::WillClose => s,
    }
}

/// Whether the GUI layer asked to close its viewport this frame.
pub open spec fn spec_commands_close(cmds: Seq<ViewportCommand>) -> bool
    decreases cmds.len(),
{
    if cmds.len() == 0 {
        false
    } else {
        cmds.last() == ViewportCommand::Close || spec_commands_close(cmds.drop_last())
    }
}

/// A requested size clamped to at least one point each way.
pub open spec fn spec_clamp_size(size: LogicalSize) -> LogicalSize {
    LogicalSize { width: size.width.spec_max_one(), height: size.height.spec_max_one() }
}

/// The last inner-size request of the frame, clamped; `None` where the
/// frame requested none.
pub open spec fn spec_last_resize(cmds: Seq<ViewportCommand>) -> Option<LogicalSize>
    decreases cmds.len(),
{
    if cmds.len() == 0 {
        None
    } else {
        match cmds.last() {
            ViewportCommand::InnerSize(size) => Some(spec_clamp_size(size)),
            _ => spec_last_resize(cmds.drop_last()),
        }
    }
}

/// Whether a frame whose GUI pass asked to wait `delay_micros` repaints in
/// this very tick: yes when a scheduled repaint time has been reached, or
/// when the GUI layer asks for an immediate repaint (delay zero).
pub open spec fn spec_repaint_now(repaint_after: Option<u64>, delay_micros: u64, now: u64) -> bool {
    match repaint_after {
        Some(t) => now >= t || delay_micros == 0,
        None => delay_micros == 0,
    }
}

/// The scheduled repaint time after a tick that did not repaint: the tick
/// time plus the requested delay, kept unchanged where that time does not
/// exist.
pub open spec fn spec_repaint_schedule(
    repaint_after: Option<u64>,
    delay_micros: u64,
    now: u64,
) -> Option<u64> {
    if now + delay_micros <= u64::MAX {
        Some((now + delay_micros) as u64)
    } else {
        repaint_after
    }
}

/// The session state and the windowing layer's to-do list after one frame
/// tick, given the mutations the update closure queued and what the GUI
/// layer's pass reported. When the GUI layer dropped the root viewport the
/// window closes at once and the rest of the output is ignored. Otherwise
/// the tick closes when asked (by the closure or a viewport command),
/// resizes to the last requested inner size, repaints now or schedules a
/// later repaint, and changes the cursor only when it differs.
pub open spec fn spec_end_frame(s: Model, queue: Queue, out: FrameOutputModel, now: u64) -> (
    Model,
    FrameDecision,
) {
    let s1 = Model {
        bg_color: queue.bg_color,
        close_requested: queue.close_requested,
        physical_size: queue.physical_size,
        ..s
    };
    if !out.root_viewport_present {
        (
            s1,
            FrameDecision {
                close: true,
                resize: None,
                render: None,
                set_cursor: None,
            },
        )
    } else {
        let close = queue.close_requested || spec_commands_close(out.viewport_commands);
        let resize = spec_last_resize(out.viewport_commands);
        let repaint_now = spec_repaint_now(s.repaint_after, out.repaint_delay_micros, now);
        let repaint_after = if repaint_now {
            None
        } else {
            spec_repaint_schedule(s.repaint_after, out.repaint_delay_micros, now)
        };
        let render = if repaint_now {
            Some(
                RenderParams {
                    bg_color: queue.bg_color,
                    physical_size: queue.physical_size,
                    pixels_per_point: s.pixels_per_point,
                },
            )
        } else {
            None
        };
        let set_cursor = if out.cursor_icon != s.current_cursor_icon {
            Some(out.cursor_icon)
        } else {
            None
        };
        (
            Model { repaint_after, current_cursor_icon: out.cursor_icon, ..s1 },
            FrameDecision { close, resize, render, set_cursor },
        )
    }
}

/// The session state after any one event from the windowing layer.
pub open spec fn spec_after_input(s: Model, event: InputEvent, now: u64, clip: Option<String>) -> Model {
    match event {
        InputEvent::Mouse(m) => spec_after_mouse(s, m),
        InputEvent::Keyboard(k) => spec_after_keyboard(s, k, clip),
        InputEvent::Window(w) => spec_after_window(s, w, now),
    }
}

/// What the session asks of an event before handling it; only machine
/// limits: scroll amounts and a reported system scale small enough that
/// the exact arithmetic cannot overflow, the scale positive.
pub open spec fn spec_event_wf(event: InputEvent) -> bool {
    match event {
        InputEvent::Mouse(MouseEvent::WheelScrolled { delta, .. }) => match delta {
            ScrollDelta::Lines { x, y } => x.small() && y.small(),
            ScrollDelta::Pixels { x, y } => x.small() && y.small(),
        },
        InputEvent::Window(WindowEvent::Resized(info)) => info.system_scale.is_pos()
            && info.system_scale.small(),
        _ => true,
    }
}

/// One window session: the state the event-translation and repaint logic
/// works on, plus the clipboard handle. The embedder owns the GUI context,
/// the renderer backend and its own state beside it, and drives this
/// session from the windowing layer's callbacks.
pub struct WindowState {
    pub platform: Platform,
    pub events: Vec<Event>,
    pub modifiers: Modifiers,
    pub pointer_pos: Option<Pos>,
    pub current_cursor_icon: CursorIcon,
    pub physical_size: PhySize,
    pub scale_policy: WindowScalePolicy,
    pub pixels_per_point: Rat,
    pub screen_rect: ScreenRect,
    pub bg_color: Rgba,
    pub close_requested: bool,
    pub repaint_after: Option<u64>,
    pub focused: bool,
    /// The platform clipboard; opaque to the contracts, which never speak
    /// of its contents.
    pub clipboard: ClipboardHandle,
}

impl WindowState {
    /// The mathematical value of this session.
    pub open spec fn model(self) -> Model {
        Model {
            platform: self.platform,
            events: self.events@,
            modifiers: self.modifiers,
            pointer_pos: self.pointer_pos,
            current_cursor_icon: self.current_cursor_icon,
            physical_size: self.physical_size,
            scale_policy: self.scale_policy,
            pixels_per_point: self.pixels_per_point,
            screen_rect: self.screen_rect,
            bg_color: self.bg_color,
            close_requested: self.close_requested,
            repaint_after: self.repaint_after,
            focused: self.focused,
        }
    }

    pub open spec fn wf(self) -> bool {
        self.model().wf()
    }

    /// The scale factor a fresh session assumes until the first resize
    /// event reports a real one: the fixed factor, or one.
    pub open spec fn spec_initial_ppp(policy: WindowScalePolicy) -> Rat {
        match policy {
            WindowScalePolicy::ScaleFactor(factor) => factor,
            WindowScalePolicy::SystemScaleFactor => Rat { num: 1, den: 1 },
        }
    }

    /// Open a session: the scale comes from the policy, the screen
    /// rectangle is the requested logical size, the physical size is the
    /// logical size times the scale rounded to whole pixels, and the first
    /// frame tick is already scheduled to repaint.
    pub fn new(open_settings: &OpenSettings, platform: Platform) -> (s: WindowState)
        requires
            open_settings.scale_policy.wf(),
            open_settings.logical_width.small(),
            open_settings.logical_height.small(),
            open_settings.logical_width.num >= 0,
            open_settings.logical_height.num >= 0,
        ensures
            s.wf(),
            s.platform == platform,
            s.events@ == Seq::<Event>::empty(),
            s.modifiers == (Modifiers {
                alt: false,
                ctrl: false,
                shift: false,
                mac_cmd: false,
                command: false,
            }),
            s.pointer_pos is None,
            s.current_cursor_icon == CursorIcon::Default,
            s.scale_policy == open_settings.scale_policy,
            s.pixels_per_point == Self::spec_initial_ppp(open_settings.scale_policy),
            s.screen_rect == (ScreenRect {
                width: open_settings.logical_width,
                height: open_settings.logical_height,
            }),
            s.physical_size.width == spec_round_u32(
                open_settings.logical_width.spec_mul(s.pixels_per_point),
            ),
            s.physical_size.height == spec_round_u32(
                open_settings.logical_height.spec_mul(s.pixels_per_point),
            ),
            s.bg_color == (Rgba { r: 0, g: 0, b: 0, a: 255 }),
            !s.close_requested,
            s.repaint_after == Some(0u64),
            s.focused,
    {
        let pixels_per_point = match open_settings.scale_policy {
            WindowScalePolicy::ScaleFactor(factor) => factor,
            WindowScalePolicy::SystemScaleFactor => Rat::of_int(1),
        };
        let width_rat = open_settings.logical_width.mul(pixels_per_point);
        let height_rat = open_settings.logical_height.mul(pixels_per_point);
        proof {
            assert(0 <= width_rat.num <= 0x4000_0000_0000_0000i64 && 0 < width_rat.den
                <= 0x4000_0000_0000_0000i64 && 0 <= height_rat.num <= 0x4000_0000_0000_0000i64
                && 0 < height_rat.den <= 0x4000_0000_0000_0000i64) by (nonlinear_arith)
                requires
                    width_rat.num == open_settings.logical_width.num * pixels_per_point.num,
                    width_rat.den == open_settings.logical_width.den * pixels_per_point.den,
                    height_rat.num == open_settings.logical_height.num * pixels_per_point.num,
                    height_rat.den == open_settings.logical_height.den * pixels_per_point.den,
                    open_settings.logical_width.small(),
                    open_settings.logical_height.small(),
                    open_settings.logical_width.num >= 0,
                    open_settings.logical_height.num >= 0,
                    pixels_per_point.is_pos(),
                    pixels_per_point.small(),
            ;
        }
        let width_px = round_to_u32(width_rat);
        let height_px = round_to_u32(height_rat);
        WindowState {
            platform,
            events: Vec::new(),
            modifiers: Modifiers::none(),
            pointer_pos: None,
            current_cursor_icon: CursorIcon::Default,
            physical_size: PhySize { width: width_px, height: height_px },
            scale_policy: open_settings.scale_policy,
            pixels_per_point,
            screen_rect: ScreenRect {
                width: open_settings.logical_width,
                height: open_settings.logical_height,
            },
            bg_color: Rgba::black(),
            close_requested: false,
            repaint_after: Some(0),
            focused: true,
            clipboard: ClipboardHandle::new(),
        }
    }

    /// Update the pressed key modifiers when a mouse event has sent a new
    /// set of raw modifiers.
    pub fn update_modifiers(&mut self, modifiers: &RawModifiers)
        ensures
            final(self).model() == (Model {
                modifiers: spec_modifiers_after_raw(old(self).model().modifiers, *modifiers),
                ..old(self).model()
            }),
    {
        self.modifiers.alt = modifiers.alt;
        self.modifiers.shift = modifiers.shift;
        self.modifiers.command = modifiers.ctrl;
    }

    /// Track a key's effect on the modifier flags.
    fn update_key_modifiers(&mut self, code: Code, pressed: bool)
        ensures
            final(self).model() == (Model {
                modifiers: spec_modifiers_after_key(
                    old(self).model().modifiers,
                    code,
                    pressed,
                    old(self).model().platform,
                ),
                ..old(self).model()
            }),
    {
        match code {
            Code::ShiftLeft | Code::ShiftRight => {
                self.modifiers.shift = pressed;
            },
            Code::ControlLeft | Code::ControlRight => {
                self.modifiers.ctrl = pressed;
                if !matches!(self.platform, Platform::Mac) {
                    self.modifiers.command = pressed;
                }
            },
            Code::AltLeft | Code::AltRight => {
                self.modifiers.alt = pressed;
            },
            Code::MetaLeft | Code::MetaRight => {
                if matches!(self.platform, Platform::Mac) {
                    self.modifiers.mac_cmd = pressed;
                    self.modifiers.command = pressed;
                }
            },
            _ => {},
        }
        proof {
            assert(self.model() =~= Model {
                modifiers: spec_modifiers_after_key(
                    old(self).model().modifiers,
                    code,
                    pressed,
                    old(self).model().platform,
                ),
                ..old(self).model()
            });
        }
    }

    /// Record the key's own event where the key maps into the GUI
    /// vocabulary.
    fn push_translated_key(&mut self, event: &KeyboardEvent, pressed: bool)
        ensures
            final(self).model() == (Model {
                events: old(self).model().events + spec_translated_key_events(
                    old(self).model().modifiers,
                    *event,
                    pressed,
                ),
                ..old(self).model()
            }),
    {
        if let Some(key) = translate_virtual_key(&event.key) {
            self.events.push(
                Event::Key { key, pressed, repeat: event.repeat, modifiers: self.modifiers },
            );
        }
        proof {
            assert(self.model().events =~= old(self).model().events
                + spec_translated_key_events(old(self).model().modifiers, *event, pressed));
            assert(self.model() =~= Model {
                events: old(self).model().events + spec_translated_key_events(
                    old(self).model().modifiers,
                    *event,
                    pressed,
                ),
                ..old(self).model()
            });
        }
    }

    /// Record what a key press types besides the key itself: a cut, copy
    /// or paste chord, or plain text.
    fn push_chord_events(&mut self, event: &KeyboardEvent, pressed: bool, pasted: Option<String>)
        ensures
            final(self).model() == (Model {
                events: old(self).model().events + spec_chord_events(
                    old(self).model().modifiers,
                    *event,
                    pressed,
                    old(self).model().platform,
                    pasted,
                ),
                ..old(self).model()
            }),
    {
        if pressed {
            if is_cut_command(self.modifiers, event.code, self.platform) {
                self.events.push(Event::Cut);
            } else if is_copy_command(self.modifiers, event.code, self.platform) {
                self.events.push(Event::Copy);
            } else if is_paste_command(self.modifiers, event.code, self.platform) {
                if let Some(text) = pasted {
                    self.events.push(Event::Text(text));
                }
            } else if let KeyValue::Character(text) = &event.key {
                if !self.modifiers.ctrl && !self.modifiers.command {
                    self.events.push(Event::Text(text.clone()));
                }
            }
        }
        proof {
            assert(self.model().events =~= old(self).model().events + spec_chord_events(
                old(self).model().modifiers,
                *event,
                pressed,
                old(self).model().platform,
                pasted,
            ));
            assert(self.model() =~= Model {
                events: old(self).model().events + spec_chord_events(
                    old(self).model().modifiers,
                    *event,
                    pressed,
                    old(self).model().platform,
                    pasted,
                ),
                ..old(self).model()
            });
        }
    }

    /// Apply one keyboard event, with `pasted` standing for the text a
    /// paste chord takes from the clipboard. This is the whole keyboard
    /// logic with its one outside dependency handed in as an argument, so
    /// it is exact for every value of that argument; `on_event` wires it to
    /// the real clipboard.
    pub fn apply_keyboard_event(&mut self, event: &KeyboardEvent, pasted: Option<String>)
        requires
            old(self).wf(),
        ensures
            final(self).wf(),
            final(self).model() == spec_after_keyboard(old(self).model(), *event, pasted),
    {
        let ghost s0 = old(self).model();
        let pressed = match event.state {
            KeyState::Down => true,
            KeyState::Up => false,
        };
        let ghost m = spec_modifiers_after_key(s0.modifiers, event.code, pressed, s0.platform);

        self.update_key_modifiers(event.code, pressed);
        self.push_translated_key(event, pressed);
        self.push_chord_events(event, pressed, pasted);

        proof {
            let key_part = spec_translated_key_events(m, *event, pressed);
            let chord_part = spec_chord_events(m, *event, pressed, s0.platform, pasted);
            assert(self.model().events =~= s0.events + (key_part + chord_part));
            assert(spec_key_events(m, *event, s0.platform, pasted) == key_part + chord_part);
            assert(self.model() =~= spec_after_keyboard(s0, *event, pasted));
        }
    }

    /// Record a button press or release: only with a known pointer
    /// position, and only for a button the GUI layer recognises.
    fn handle_button(&mut self, button: MouseButton, raw: RawModifiers, pressed: bool)
        ensures
            final(self).model() == spec_after_button(old(self).model(), button, raw, pressed),
    {
        self.update_modifiers(&raw);
        if let Some(pos) = self.pointer_pos {
            if let Some(b) = translate_mouse_button(button) {
                self.events.push(
                    Event::PointerButton { pos, button: b, pressed, modifiers: self.modifiers },
                );
            }
        }
        proof {
            assert(self.model() =~= spec_after_button(old(self).model(), button, raw, pressed));
        }
    }

    /// Handle one mouse event: pure translation into the GUI layer's
    /// vocabulary, accumulated for the next frame tick.
    pub fn on_mouse_event(&mut self, event: &MouseEvent)
        requires
            old(self).wf(),
            spec_event_wf(InputEvent::Mouse(*event)),
        ensures
            final(self).wf(),
            final(self).model() == spec_after_mouse(old(self).model(), *event),
    {
        match event {
            MouseEvent::CursorMoved { position, modifiers } => {
                self.update_modifiers(modifiers);
                self.pointer_pos = Some(*position);
                self.events.push(Event::PointerMoved(*position));
                proof {
                    assert(self.model() =~= spec_after_mouse(old(self).model(), *event));
                }
            },
            MouseEvent::ButtonPressed { button, modifiers } => {
                self.handle_button(*button, *modifiers, true);
            },
            MouseEvent::ButtonReleased { button, modifiers } => {
                self.handle_button(*button, *modifiers, false);
            },
            MouseEvent::WheelScrolled { delta, modifiers } => {
                self.update_modifiers(modifiers);
                let points_per_pixel = self.pixels_per_point.recip();
                let (unit, d) = match delta {
                    ScrollDelta::Lines { x, y } => (WheelUnit::Line, WheelDelta { x: *x, y: *y }),
                    ScrollDelta::Pixels { x, y } => {
                        let dx = x.mul(points_per_pixel);
                        let dy = y.mul(points_per_pixel);
                        proof {
                            assert(dx.num > i64::MIN && dy.num > i64::MIN) by (nonlinear_arith)
                                requires
                                    dx.num == x.num * points_per_pixel.num,
                                    dy.num == y.num * points_per_pixel.num,
                                    x.small(),
                                    y.small(),
                                    points_per_pixel.small(),
                            ;
                        }
                        (WheelUnit::Point, WheelDelta { x: dx, y: dy })
                    },
                };
                let d = if matches!(self.platform, Platform::Mac) {
                    WheelDelta { x: d.x.neg(), ..d }
                } else {
                    d
                };
                self.events.push(Event::MouseWheel { unit, delta: d, modifiers: self.modifiers });
                proof {
                    assert(self.model() =~= spec_after_mouse(old(self).model(), *event));
                }
            },
            MouseEvent::CursorLeft => {
                self.pointer_pos = None;
                self.events.push(Event::PointerGone);
                proof {
                    assert(self.model() =~= spec_after_mouse(old(self).model(), *event));
                }
            },
            MouseEvent::Other => {},
        }
    }

    /// Handle one window event: a resize re-derives the scale factor and
    /// the exact logical screen rectangle and forces a repaint at the next
    /// tick; focus changes become events.
    pub fn on_window_event(&mut self, event: &WindowEvent, now: u64)
        requires
            old(self).wf(),
            spec_event_wf(InputEvent::Window(*event)),
        ensures
            final(self).wf(),
            final(self).model() == spec_after_window(old(self).model(), *event, now),
    {
        match event {
            WindowEvent::Resized(info) => {
                self.pixels_per_point = match self.scale_policy {
                    WindowScalePolicy::ScaleFactor(factor) => factor,
                    WindowScalePolicy::SystemScaleFactor => info.system_scale,
                };
                self.physical_size = info.physical_size;
                self.screen_rect = calculate_screen_rect(self.physical_size, self.pixels_per_point);
                self.repaint_after = Some(now);
                proof {
                    assert(self.model() =~= spec_after_window(old(self).model(), *event, now));
                }
            },
            WindowEvent::Focused => {
                self.events.push(Event::WindowFocused(true));
                self.focused = true;
                proof {
                    assert(self.model() =~= spec_after_window(old(self).model(), *event, now));
                }
            },
            WindowEvent::Unfocused => {
                self.events.push(Event::WindowFocused(false));
                self.focused = false;
                proof {
                    assert(self.model() =~= spec_after_window(old(self).model(), *event, now));
                }
            },
            WindowEvent::WillClose => {},
        }
    }

    /// Handle any one event from the windowing layer. The one outside
    /// dependency is the clipboard a paste chord reads: whatever text that
    /// yields, the new state is the exact step for it.
    pub fn on_event(&mut self, event: &InputEvent, now: u64) -> (status: EventStatus)
        requires
            old(self).wf(),
            spec_event_wf(*event),
        ensures
            final(self).wf(),
            status == EventStatus::Captured,
            exists|clip: Option<String>|
                final(self).model() == spec_after_input(old(self).model(), *event, now, clip),
    {
        match event {
            InputEvent::Mouse(mouse_event) => {
                self.on_mouse_event(mouse_event);
                proof {
                    assert(self.model() == spec_after_input(
                        old(self).model(),
                        *event,
                        now,
                        None::<String>,
                    ));
                }
            },
            InputEvent::Keyboard(keyboard_event) => {
                let pressed = matches!(keyboard_event.state, KeyState::Down);
                let m = modifiers_after_key(
                    self.modifiers,
                    keyboard_event.code,
                    pressed,
                    self.platform,
                );
                let clip: Option<String> = if pressed && !is_cut_command(
                    m,
                    keyboard_event.code,
                    self.platform,
                ) && !is_copy_command(m, keyboard_event.code, self.platform) && is_paste_command(
                    m,
                    keyboard_event.code,
                    self.platform,
                ) {
                    self.clipboard.get()
                } else {
                    None
                };
                let ghost clip_snapshot = clip;
                self.apply_keyboard_event(keyboard_event, clip);
                proof {
                    assert(self.model() == spec_after_input(
                        old(self).model(),
                        *event,
                        now,
                        clip_snapshot,
                    ));
                }
            },
            InputEvent::Window(window_event) => {
                self.on_window_event(window_event, now);
                proof {
                    assert(self.model() == spec_after_input(
                        old(self).model(),
                        *event,
                        now,
                        None::<String>,
                    ));
                }
            },
        }
        EventStatus::Captured
    }

    /// Apply the mutations an embedder closure queued on its handle.
    pub fn apply_queue(&mut self, queue: &Queue)
        ensures
            final(self).model() == (Model {
                bg_color: queue.bg_color,
                close_requested: queue.close_requested,
                physical_size: queue.physical_size,
                ..old(self).model()
            }),
    {
        self.bg_color = queue.bg_color;
        self.close_requested = queue.close_requested;
        self.physical_size = queue.physical_size;
        proof {
            assert(self.model() =~= Model {
                bg_color: queue.bg_color,
                close_requested: queue.close_requested,
                physical_size: queue.physical_size,
                ..old(self).model()
            });
        }
    }

    /// Start a frame tick: recompute the exact logical screen rectangle
    /// from the current physical size and scale, and hand out the input
    /// accumulated since the last tick, leaving the accumulator empty.
    pub fn begin_frame(&mut self, now: u64) -> (input: FrameInput)
        requires
            old(self).wf(),
        ensures
            final(self).wf(),
            final(self).model() == (Model {
                screen_rect: spec_screen_rect(
                    old(self).physical_size,
                    old(self).pixels_per_point,
                ),
                events: Seq::<Event>::empty(),
                ..old(self).model()
            }),
            input.time_micros == now,
            input.screen_rect == spec_screen_rect(old(self).physical_size, old(self).pixels_per_point),
            input.pixels_per_point == old(self).pixels_per_point,
            input.events@ == old(self).events@,
            input.modifiers == old(self).modifiers,
            input.focused == old(self).focused,
    {
        self.screen_rect = calculate_screen_rect(self.physical_size, self.pixels_per_point);
        let mut events: Vec<Event> = Vec::new();
        core::mem::swap(&mut events, &mut self.events);
        proof {
            assert(self.model() =~= Model {
                screen_rect: spec_screen_rect(old(self).physical_size, old(self).pixels_per_point),
                events: Seq::<Event>::empty(),
                ..old(self).model()
            });
        }
        FrameInput {
            time_micros: now,
            screen_rect: self.screen_rect,
            pixels_per_point: self.pixels_per_point,
            events,
            modifiers: self.modifiers,
            focused: self.focused,
        }
    }

    /// Finish a frame tick: apply the closure's queued mutations, act on
    /// the GUI layer's frame output, and tell the windowing layer what to
    /// do. Clipboard copies and address-opening requests are issued here;
    /// their failures are swallowed, as they never abort a frame.
    pub fn end_frame(&mut self, queue: &Queue, output: &FrameOutput, now: u64) -> (decision:
        FrameDecision)
        requires
            old(self).wf(),
            output.wf(),
        ensures
            final(self).wf(),
            final(self).model() == spec_end_frame(
                old(self).model(),
                *queue,
                output.model(),
                now,
            ).0,
            decision == spec_end_frame(old(self).model(), *queue, output.model(), now).1,
    {
        let ghost s0 = old(self).model();
        self.apply_queue(queue);

        if !output.root_viewport_present {
            return FrameDecision { close: true, resize: None, render: None, set_cursor: None };
        }

        let mut close = queue.close_requested;
        let mut resize: Option<LogicalSize> = None;
        let n_cmds = output.viewport_commands.len();
        let mut idx: usize = 0;
        while idx < n_cmds
            invariant
                n_cmds == output.viewport_commands@.len(),
                0 <= idx <= n_cmds,
                output.wf(),
                close == (queue.close_requested || spec_commands_close(
                    output.viewport_commands@.subrange(0, idx as int),
                )),
                resize == spec_last_resize(output.viewport_commands@.subrange(0, idx as int)),
            decreases n_cmds - idx,
        {
            let ghost pre = output.viewport_commands@.subrange(0, idx as int);
            let ghost post = output.viewport_commands@.subrange(0, idx + 1int);
            match output.viewport_commands[idx] {
                ViewportCommand::Close => {
                    close = true;
                },
                ViewportCommand::InnerSize(size) => {
                    resize = Some(
                        LogicalSize { width: size.width.max_one(), height: size.height.max_one() },
                    );
                },
                ViewportCommand::Other => {},
            }
            proof {
                assert(post.drop_last() == pre);
                assert(post.last() == output.viewport_commands@[idx as int]);
            }
            idx += 1;
        }
        proof {
            assert(output.viewport_commands@.subrange(0, n_cmds as int)
                == output.viewport_commands@);
        }

        let do_repaint_now = match self.repaint_after {
            Some(t) => now >= t || output.repaint_delay_micros == 0,
            None => output.repaint_delay_micros == 0,
        };
        let render: Option<RenderParams> = if do_repaint_now {
            self.repaint_after = None;
            Some(
                RenderParams {
                    bg_color: self.bg_color,
                    physical_size: self.physical_size,
                    pixels_per_point: self.pixels_per_point,
                },
            )
        } else {
            if output.repaint_delay_micros <= u64::MAX - now {
                self.repaint_after = Some(now + output.repaint_delay_micros);
            }
            None
        };

        let ghost s2 = self.model();
        let n_out = output.output_commands.len();
        let mut k: usize = 0;
        while k < n_out
            invariant
                n_out == output.output_commands@.len(),
                0 <= k <= n_out,
                self.model() == s2,
            decreases n_out - k,
        {
            match &output.output_commands[k] {
                OutputCommand::CopyText(text) => {
                    let _ = self.clipboard.set(text.clone());
                },
                OutputCommand::CopyImage => {},
                OutputCommand::OpenUrl(url) => {
                    let _ = open_url_detached(url.as_str());
                },
            }
            k += 1;
        }

        let set_cursor: Option<CursorIcon> = if output.cursor_icon != self.current_cursor_icon {
            self.current_cursor_icon = output.cursor_icon;
            Some(output.cursor_icon)
        } else {
            None
        };

        let decision = FrameDecision { close, resize, render, set_cursor };
        proof {
            assert(self.model() =~= spec_end_frame(s0, *queue, output.model(), now).0);
            assert(decision == spec_end_frame(s0, *queue, output.model(), now).1);
        }
        decision
    }
}

/// The modifier flags a key event leaves behind, as a value.
fn modifiers_after_key(m: Modifiers, code: Code, pressed: bool, platform: Platform) -> (r:
    Modifiers)
    ensures
        r == spec_modifiers_after_key(m, code, pressed, platform),
{
    match code {
        Code::ShiftLeft | Code::ShiftRight => Modifiers { shift: pressed, ..m },
        Code::ControlLeft | Code::ControlRight => if matches!(platform, Platform::Mac) {
            Modifiers { ctrl: pressed, ..m }
        } else {
            Modifiers { ctrl: pressed, command: pressed, ..m }
        },
        Code::AltLeft | Code::AltRight => Modifiers { alt: pressed, ..m },
        Code::MetaLeft | Code::MetaRight => if matches!(platform, Platform::Mac) {
            Modifiers { mac_cmd: pressed, command: pressed, ..m }
        } else {
            m
        },
        _ => m,
    }
}

/// The input snapshot a frame tick hands to the GUI layer's begin pass.
pub struct FrameInput {
    /// Time of the tick, in microseconds since the session started.
    pub time_micros: u64,
    /// The logical screen rectangle, freshly recomputed.
    pub screen_rect: ScreenRect,
    /// The current pixels-per-point scale factor.
    pub pixels_per_point: Rat,
    /// The events accumulated since the last tick, oldest first.
    pub events: Vec<Event>,
    /// The modifier flags as tracked through those events.
    pub modifiers: Modifiers,
    /// Whether the window has focus.
    pub focused: bool,
}

/// A pointer press right after a pointer move yields a pointer-button
/// event, pressed, at the position of that move (for any button the GUI
/// layer recognises).
pub proof fn lemma_press_after_move(
    s: Model,
    position: Pos,
    raw_move: RawModifiers,
    button: MouseButton,
    raw_press: RawModifiers,
)
    requires
        spec_translate_mouse_button(button) is Some,
    ensures
        ({
            let s1 = spec_after_mouse(s, MouseEvent::CursorMoved { position, modifiers: raw_move });
            let s2 = spec_after_mouse(
                s1,
                MouseEvent::ButtonPressed { button, modifiers: raw_press },
            );
            let m2 = spec_modifiers_after_raw(
                spec_modifiers_after_raw(s.modifiers, raw_move),
                raw_press,
            );
            s2.events == s.events + seq![
                Event::PointerMoved(position),
                Event::PointerButton {
                    pos: position,
                    button: spec_translate_mouse_button(button)->0,
                    pressed: true,
                    modifiers: m2,
                },
            ]
        }),
{
    let s1 = spec_after_mouse(s, MouseEvent::CursorMoved { position, modifiers: raw_move });
    let s2 = spec_after_mouse(s1, MouseEvent::ButtonPressed { button, modifiers: raw_press });
    let m2 = spec_modifiers_after_raw(spec_modifiers_after_raw(s.modifiers, raw_move), raw_press);
    assert(s2.events =~= s.events + seq![
        Event::PointerMoved(position),
        Event::PointerButton {
            pos: position,
            button: spec_translate_mouse_button(button)->0,
            pressed: true,
            modifiers: m2,
        },
    ]);
}

/// A button press that arrives before any pointer move is silently
/// dropped: no event is recorded (only the modifier flags move).
pub proof fn lemma_press_without_pointer(s: Model, button: MouseButton, raw: RawModifiers)
    requires
        s.pointer_pos is None,
    ensures
        spec_after_mouse(s, MouseEvent::ButtonPressed { button, modifiers: raw }).events
            == s.events,
{
}

/// A repaint delay of zero from the GUI layer makes the same tick render.
pub proof fn lemma_zero_delay_renders(s: Model, queue: Queue, out: FrameOutputModel, now: u64)
    requires
        out.root_viewport_present,
        out.repaint_delay_micros == 0,
    ensures
        spec_end_frame(s, queue, out, now).1.render is Some,
{
}

/// A non-zero repaint delay with no repaint due yet does not render; the
/// session schedules the wake for the tick time plus the delay.
pub proof fn lemma_nonzero_delay_schedules(s: Model, queue: Queue, out: FrameOutputModel, now: u64)
    requires
        out.root_viewport_present,
        out.repaint_delay_micros > 0,
        s.repaint_after is Some ==> now < s.repaint_after->0,
        now + out.repaint_delay_micros <= u64::MAX,
    ensures
        spec_end_frame(s, queue, out, now).1.render is None,
        spec_end_frame(s, queue, out, now).0.repaint_after == Some(
            (now + out.repaint_delay_micros) as u64,
        ),
{
}

/// A scheduled repaint time is respected on both sides: before it, a tick
/// whose GUI pass asks for a later repaint does not render; from that time
/// on, the next tick renders no matter what delay the GUI pass reports.
pub proof fn lemma_schedule_respected(
    s: Model,
    queue: Queue,
    out: FrameOutputModel,
    now: u64,
    t: u64,
)
    requires
        out.root_viewport_present,
        s.repaint_after == Some(t),
    ensures
        now < t && out.repaint_delay_micros > 0 ==> spec_end_frame(
            s,
            queue,
            out,
            now,
        ).1.render is None,
        now >= t ==> spec_end_frame(s, queue, out, now).1.render is Some,
{
}

/// A resize event recomputes the logical screen rectangle as the exact
/// quotient of the new physical size by the new scale factor — multiplying
/// the logical extent back by the scale recovers the physical extent with
/// no rounding — and forces the next frame tick to repaint, whatever
/// repaint delay that tick's GUI pass reports.
pub proof fn lemma_resize_exact_and_repaints(
    s: Model,
    info: WindowInfo,
    now: u64,
    queue: Queue,
    out: FrameOutputModel,
    later: u64,
)
    requires
        s.wf(),
        info.system_scale.is_pos(),
        info.system_scale.small(),
        out.root_viewport_present,
        later >= now,
    ensures
        ({
            let s1 = spec_after_window(s, WindowEvent::Resized(info), now);
            &&& s1.repaint_after == Some(now)
            &&& is_exact_quotient(
                s1.screen_rect.width,
                info.physical_size.width as int,
                s1.pixels_per_point,
            )
            &&& is_exact_quotient(
                s1.screen_rect.height,
                info.physical_size.height as int,
                s1.pixels_per_point,
            )
            &&& spec_end_frame(s1, queue, out, later).1.render is Some
        }),
{
    let s1 = spec_after_window(s, WindowEvent::Resized(info), now);
    let ppp = s1.pixels_per_point;
    assert(info.physical_size.width * ppp.den < 0x7fff_ffff_ffff_ffffi64
        && info.physical_size.height * ppp.den < 0x7fff_ffff_ffff_ffffi64) by (nonlinear_arith)
        requires
            ppp.small(),
            info.physical_size.width <= u32::MAX,
            info.physical_size.height <= u32::MAX,
    ;
    lemma_screen_rect_exact(info.physical_size, ppp, s1.screen_rect);
}

/// Cut, copy and paste fire exactly on their documented chords, cut taking
/// precedence over copy and copy over paste; and a chord press never also
/// types the key's own character: cut and copy append no text event at
/// all, and whatever text a paste press appends is the clipboard's text.
pub proof fn lemma_chords(
    m: Modifiers,
    event: KeyboardEvent,
    platform: Platform,
    clip: Option<String>,
)
    requires
        event.state == KeyState::Down,
    ensures
        ({
            let app = spec_key_events(m, event, platform, clip);
            let cut = spec_is_cut_command(m, event.code, platform);
            let copy = spec_is_copy_command(m, event.code, platform);
            let paste = spec_is_paste_command(m, event.code, platform);
            &&& (app.contains(Event::Cut) <==> cut)
            &&& (app.contains(Event::Copy) <==> (!cut && copy))
            &&& (cut || (!cut && copy) ==> forall|i: int|
                0 <= i < app.len() ==> !(#[trigger] app[i] is Text))
            &&& (!cut && !copy && paste ==> forall|i: int|
                0 <= i < app.len() && #[trigger] app[i] is Text ==> clip is Some && app[i]
                    == Event::Text(clip->0))
        }),
{
    let app = spec_key_events(m, event, platform, clip);
    let key_part = spec_translated_key_events(m, event, true);
    let chord_part = spec_chord_events(m, event, true, platform, clip);
    let cut = spec_is_cut_command(m, event.code, platform);
    let copy = spec_is_copy_command(m, event.code, platform);
    let paste = spec_is_paste_command(m, event.code, platform);
    assert(app == key_part + chord_part);
    assert(key_part.len() <= 1 && chord_part.len() <= 1);
    assert forall|i: int| 0 <= i < key_part.len() implies !(#[trigger] key_part[i] is Text)
        && !(key_part[i] is Cut) && !(key_part[i] is Copy) by {}
    if cut {
        assert(chord_part == seq![Event::Cut]);
        assert(app[key_part.len() as int] == Event::Cut);
        assert(app.contains(Event::Cut));
    } else {
        assert(!app.contains(Event::Cut)) by {
            if app.contains(Event::Cut) {
                let i = choose|i: int| 0 <= i < app.len() && app[i] == Event::Cut;
                if i < key_part.len() {
                    assert(key_part[i] == Event::Cut);
                } else {
                    assert(chord_part[i - key_part.len()] == Event::Cut);
                }
            }
        }
    }
    if !cut && copy {
        assert(chord_part == seq![Event::Copy]);
        assert(app[key_part.len() as int] == Event::Copy);
        assert(app.contains(Event::Copy));
    } else {
        assert(!app.contains(Event::Copy)) by {
            if app.contains(Event::Copy) {
                let i = choose|i: int| 0 <= i < app.len() && app[i] == Event::Copy;
                if i < key_part.len() {
                    assert(key_part[i] == Event::Copy);
                } else {
                    assert(chord_part[i - key_part.len()] == Event::Copy);
                }
            }
        }
    }
    if cut || (!cut && copy) {
        assert forall|i: int| 0 <= i < app.len() implies !(#[trigger] app[i] is Text) by {
            if i < key_part.len() {
                assert(app[i] == key_part[i]);
            } else {
                assert(app[i] == chord_part[i - key_part.len()]);
            }
        }
    }
    if !cut && !copy && paste {
        assert forall|i: int| 0 <= i < app.len() && #[trigger] app[i] is Text implies clip is Some
            && app[i] == Event::Text(clip->0) by {
            if i < key_part.len() {
                assert(app[i] == key_part[i]);
            } else {
                assert(app[i] == chord_part[i - key_part.len()]);
            }
        }
    }
}

} // verus!
