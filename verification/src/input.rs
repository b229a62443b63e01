use vstd::prelude::*;

use vstd::utf8::encode_utf8;

verus! {

/// The operating-system family the window runs on. Key-chord detection and
/// a few input quirks differ between families, so the session takes this as
/// explicit configuration instead of reading ambient compile-time state.
#[derive(Clone, Copy, Debug, PartialEq, Eq, Structural)]
pub enum Platform {
    Windows,
    Mac,
    Other,
}

/// A mouse button as the windowing layer reports it.
#[derive(Clone, Copy, Debug, PartialEq, Eq, Structural)]
pub enum MouseButton {
    Left,
    Middle,
    Right,
    Back,
    Forward,
    Other,
}

/// A pointer button in the GUI layer's vocabulary. Only the three buttons
/// below are recognised; everything else is dropped.
#[derive(Clone, Copy, Debug, PartialEq, Eq, Structural)]
pub enum PointerButton {
    Primary,
    Secondary,
    Middle,
}

/// The GUI layer's mapping of a platform mouse button.
pub open spec fn spec_translate_mouse_button(button: MouseButton) -> Option<PointerButton> {
    match button {
        MouseButton::Left => Some(PointerButton::Primary),
        MouseButton::Right => Some(PointerButton::Secondary),
        MouseButton::Middle => Some(PointerButton::Middle),
        _ => None,
    }
}

/// Map a platform mouse button to the GUI layer's pointer button; buttons
/// outside the recognised three have no mapping.
pub fn translate_mouse_button(button: MouseButton) -> (r: Option<PointerButton>)
    ensures
        r == spec_translate_mouse_button(button),
{
    match button {
        MouseButton::Left => Some(PointerButton::Primary),
        MouseButton::Right => Some(PointerButton::Secondary),
        MouseButton::Middle => Some(PointerButton::Middle),
        _ => None,
    }
}

/// Modifier flags in the GUI layer's vocabulary. `command` is the primary
/// shortcut modifier: the command key on a Mac family system, control
/// elsewhere. `mac_cmd` is set only on the Mac family.
#[derive(Clone, Copy, Debug, PartialEq, Eq, Structural)]
pub struct Modifiers {
    pub alt: bool,
    pub ctrl: bool,
    pub shift: bool,
    pub mac_cmd: bool,
    pub command: bool,
}

impl Modifiers {
    /// No modifier held.
    pub fn none() -> (r: Modifiers)
        ensures
            r == (Modifiers { alt: false, ctrl: false, shift: false, mac_cmd: false, command: false }),
    {
        Modifiers { alt: false, ctrl: false, shift: false, mac_cmd: false, command: false }
    }
}

/// Raw modifier flags attached by the windowing layer to a mouse event.
#[derive(Clone, Copy, Debug, PartialEq, Eq, Structural)]
pub struct RawModifiers {
    pub alt: bool,
    pub ctrl: bool,
    pub shift: bool,
    pub meta: bool,
}

/// A physical key code. Only the codes the session logic reads are
/// distinguished; every other code behaves alike and is folded into `Other`.
#[derive(Clone, Copy, Debug, PartialEq, Eq, Structural)]
pub enum Code {
    ShiftLeft,
    ShiftRight,
    ControlLeft,
    ControlRight,
    AltLeft,
    AltRight,
    MetaLeft,
    MetaRight,
    KeyX,
    KeyC,
    KeyV,
    Delete,
    Insert,
    Other,
}

/// Whether a key chord is the platform family's cut command: the primary
/// shortcut modifier with the X key, or shift-delete on the Windows family.
pub open spec fn spec_is_cut_command(modifiers: Modifiers, code: Code, platform: Platform) -> bool {
    ||| (modifiers.command && code == Code::KeyX)
    ||| (platform == Platform::Windows && modifiers.shift && code == Code::Delete)
}

pub fn is_cut_command(modifiers: Modifiers, code: Code, platform: Platform) -> (r: bool)
    ensures
        r == spec_is_cut_command(modifiers, code, platform),
{
    (modifiers.command && code == Code::KeyX)
        || (platform == Platform::Windows && modifiers.shift && code == Code::Delete)
}

/// Whether a key chord is the platform family's copy command: the primary
/// shortcut modifier with the C key, or control-insert on the Windows family.
pub open spec fn spec_is_copy_command(modifiers: Modifiers, code: Code, platform: Platform) -> bool {
    ||| (modifiers.command && code == Code::KeyC)
    ||| (platform == Platform::Windows && modifiers.ctrl && code == Code::Insert)
}

pub fn is_copy_command(modifiers: Modifiers, code: Code, platform: Platform) -> (r: bool)
    ensures
        r == spec_is_copy_command(modifiers, code, platform),
{
    (modifiers.command && code == Code::KeyC)
        || (platform == Platform::Windows && modifiers.ctrl && code == Code::Insert)
}

/// Whether a key chord is the platform family's paste command: the primary
/// shortcut modifier with the V key, or shift-insert on the Windows family.
pub open spec fn spec_is_paste_command(modifiers: Modifiers, code: Code, platform: Platform) -> bool {
    ||| (modifiers.command && code == Code::KeyV)
    ||| (platform == Platform::Windows && modifiers.shift && code == Code::Insert)
}

pub fn is_paste_command(modifiers: Modifiers, code: Code, platform: Platform) -> (r: bool)
    ensures
        r == spec_is_paste_command(modifiers, code, platform),
{
    (modifiers.command && code == Code::KeyV)
        || (platform == Platform::Windows && modifiers.shift && code == Code::Insert)
}

/// A named (non-printing) logical key, as the platform keyboard layer
/// reports it. Keys the table below does not know are `Unidentified`.
#[derive(Clone, Copy, Debug, PartialEq, Eq, Structural)]
pub enum NamedKey {
    Alt,
    Control,
    Shift,
    Meta,
    Enter,
    Tab,
    ArrowDown,
    ArrowLeft,
    ArrowRight,
    ArrowUp,
    End,
    Home,
    PageDown,
    PageUp,
    Backspace,
    Delete,
    Insert,
    Escape,
    Copy,
    Cut,
    Paste,
    F1,
    F2,
    F3,
    F4,
    F5,
    F6,
    F7,
    F8,
    F9,
    F10,
    F11,
    F12,
    Unidentified,
}

/// The logical key value of a keyboard event: either the text it would
/// type, or a named non-printing key.
#[derive(Clone, Debug, PartialEq, Eq)]
pub enum KeyValue {
    Character(String),
    Named(NamedKey),
}

/// A logical key in the GUI layer's vocabulary.
#[derive(Clone, Copy, Debug, PartialEq, Eq, Structural)]
pub enum Key {
    ArrowDown,
    ArrowLeft,
    ArrowRight,
    ArrowUp,
    Escape,
    Tab,
    Backspace,
    Enter,
    Space,
    Insert,
    Delete,
    Home,
    End,
    PageUp,
    PageDown,
    Copy,
    Cut,
    Paste,
    Num0,
    Num1,
    Num2,
    Num3,
    Num4,
    Num5,
    Num6,
    Num7,
    Num8,
    Num9,
    A,
    B,
    C,
    D,
    E,
    F,
    G,
    H,
    I,
    J,
    K,
    L,
    M,
    N,
    O,
    P,
    Q,
    R,
    S,
    T,
    U,
    V,
    W,
    X,
    Y,
    Z,
    F1,
    F2,
    F3,
    F4,
    F5,
    F6,
    F7,
    F8,
    F9,
    F10,
    F11,
    F12,
}

/// The GUI key for a named platform key; modifier and unknown keys have none.
pub open spec fn spec_key_of_named(named: NamedKey) -> Option<Key> {
    match named {
        NamedKey::Enter => Some(Key::Enter),
        NamedKey::Tab => Some(Key::Tab),
        NamedKey::ArrowDown => Some(Key::ArrowDown),
        NamedKey::ArrowLeft => Some(Key::ArrowLeft),
        NamedKey::ArrowRight => Some(Key::ArrowRight),
        NamedKey::ArrowUp => Some(Key::ArrowUp),
        NamedKey::End => Some(Key::End),
        NamedKey::Home => Some(Key::Home),
        NamedKey::PageDown => Some(Key::PageDown),
        NamedKey::PageUp => Some(Key::PageUp),
        NamedKey::Backspace => Some(Key::Backspace),
        NamedKey::Delete => Some(Key::Delete),
        NamedKey::Insert => Some(Key::Insert),
        NamedKey::Escape => Some(Key::Escape),
        NamedKey::Copy => Some(Key::Copy),
        NamedKey::Cut => Some(Key::Cut),
        NamedKey::Paste => Some(Key::Paste),
        NamedKey::F1 => Some(Key::F1),
        NamedKey::F2 => Some(Key::F2),
        NamedKey::F3 => Some(Key::F3),
        NamedKey::F4 => Some(Key::F4),
        NamedKey::F5 => Some(Key::F5),
        NamedKey::F6 => Some(Key::F6),
        NamedKey::F7 => Some(Key::F7),
        NamedKey::F8 => Some(Key::F8),
        NamedKey::F9 => Some(Key::F9),
        NamedKey::F10 => Some(Key::F10),
        NamedKey::F11 => Some(Key::F11),
        NamedKey::F12 => Some(Key::F12),
        _ => None,
    }
}

pub fn key_of_named(named: NamedKey) -> (r: Option<Key>)
    ensures
        r == spec_key_of_named(named),
{
    match named {
        NamedKey::Enter => Some(Key::Enter),
        NamedKey::Tab => Some(Key::Tab),
        NamedKey::ArrowDown => Some(Key::ArrowDown),
        NamedKey::ArrowLeft => Some(Key::ArrowLeft),
        NamedKey::ArrowRight => Some(Key::ArrowRight),
        NamedKey::ArrowUp => Some(Key::ArrowUp),
        NamedKey::End => Some(Key::End),
        NamedKey::Home => Some(Key::Home),
        NamedKey::PageDown => Some(Key::PageDown),
        NamedKey::PageUp => Some(Key::PageUp),
        NamedKey::Backspace => Some(Key::Backspace),
        NamedKey::Delete => Some(Key::Delete),
        NamedKey::Insert => Some(Key::Insert),
        NamedKey::Escape => Some(Key::Escape),
        NamedKey::Copy => Some(Key::Copy),
        NamedKey::Cut => Some(Key::Cut),
        NamedKey::Paste => Some(Key::Paste),
        NamedKey::F1 => Some(Key::F1),
        NamedKey::F2 => Some(Key::F2),
        NamedKey::F3 => Some(Key::F3),
        NamedKey::F4 => Some(Key::F4),
        NamedKey::F5 => Some(Key::F5),
        NamedKey::F6 => Some(Key::F6),
        NamedKey::F7 => Some(Key::F7),
        NamedKey::F8 => Some(Key::F8),
        NamedKey::F9 => Some(Key::F9),
        NamedKey::F10 => Some(Key::F10),
        NamedKey::F11 => Some(Key::F11),
        NamedKey::F12 => Some(Key::F12),
        _ => None,
    }
}

/// The GUI key typed by a single text byte: letters (either case), digits
/// and the space bar; every other byte has no key of its own. The numbers
/// are ASCII codes, spelled out because byte literals cannot be used here:
/// 32 is the space, 48 to 57 the digits, 65 to 90 the upper-case letters
/// and 97 to 122 the lower-case ones.
pub open spec fn spec_key_of_byte(b: u8) -> Option<Key> {
    if b == 32 {
        Some(Key::Space)
    } else if 48 <= b <= 57 {
        spec_key_of_digit(b)
    } else if 97 <= b <= 122 {
        spec_key_of_letter((b - (97 - 65)) as u8)
    } else if 65 <= b <= 90 {
        spec_key_of_letter(b)
    } else {
        None
    }
}

/// The GUI key of an upper-case ASCII letter.
pub open spec fn spec_key_of_letter(b: u8) -> Option<Key> {
    match b {
        65 => Some(Key::A),
        66 => Some(Key::B),
        67 => Some(Key::C),
        68 => Some(Key::D),
        69 => Some(Key::E),
        70 => Some(Key::F),
        71 => Some(Key::G),
        72 => Some(Key::H),
        73 => Some(Key::I),
        74 => Some(Key::J),
        75 => Some(Key::K),
        76 => Some(Key::L),
        77 => Some(Key::M),
        78 => Some(Key::N),
        79 => Some(Key::O),
        80 => Some(Key::P),
        81 => Some(Key::Q),
        82 => Some(Key::R),
        83 => Some(Key::S),
        84 => Some(Key::T),
        85 => Some(Key::U),
        86 => Some(Key::V),
        87 => Some(Key::W),
        88 => Some(Key::X),
        89 => Some(Key::Y),
        90 => Some(Key::Z),
        _ => None,
    }
}

/// The GUI key of an ASCII digit.
pub open spec fn spec_key_of_digit(b: u8) -> Option<Key> {
    match b {
        48 => Some(Key::Num0),
        49 => Some(Key::Num1),
        50 => Some(Key::Num2),
        51 => Some(Key::Num3),
        52 => Some(Key::Num4),
        53 => Some(Key::Num5),
        54 => Some(Key::Num6),
        55 => Some(Key::Num7),
        56 => Some(Key::Num8),
        57 => Some(Key::Num9),
        _ => None,
    }
}

fn key_of_letter(b: u8) -> (r: Option<Key>)
    ensures
        r == spec_key_of_letter(b),
{
    match b {
        65 => Some(Key::A),
        66 => Some(Key::B),
        67 => Some(Key::C),
        68 => Some(Key::D),
        69 => Some(Key::E),
        70 => Some(Key::F),
        71 => Some(Key::G),
        72 => Some(Key::H),
        73 => Some(Key::I),
        74 => Some(Key::J),
        75 => Some(Key::K),
        76 => Some(Key::L),
        77 => Some(Key::M),
        78 => Some(Key::N),
        79 => Some(Key::O),
        80 => Some(Key::P),
        81 => Some(Key::Q),
        82 => Some(Key::R),
        83 => Some(Key::S),
        84 => Some(Key::T),
        85 => Some(Key::U),
        86 => Some(Key::V),
        87 => Some(Key::W),
        88 => Some(Key::X),
        89 => Some(Key::Y),
        90 => Some(Key::Z),
        _ => None,
    }
}

fn key_of_digit(b: u8) -> (r: Option<Key>)
    ensures
        r == spec_key_of_digit(b),
{
    match b {
        48 => Some(Key::Num0),
        49 => Some(Key::Num1),
        50 => Some(Key::Num2),
        51 => Some(Key::Num3),
        52 => Some(Key::Num4),
        53 => Some(Key::Num5),
        54 => Some(Key::Num6),
        55 => Some(Key::Num7),
        56 => Some(Key::Num8),
        57 => Some(Key::Num9),
        _ => None,
    }
}

fn key_of_byte(b: u8) -> (r: Option<Key>)
    ensures
        r == spec_key_of_byte(b),
{
    if b == 32 {
        Some(Key::Space)
    } else if 48 <= b && b <= 57 {
        key_of_digit(b)
    } else if 97 <= b && b <= 122 {
        key_of_letter(b - (97 - 65))
    } else if 65 <= b && b <= 90 {
        key_of_letter(b)
    } else {
        None
    }
}

/// The GUI key of a logical key value: named keys go through the named-key
/// table; character values map only when their text encodes to a single
/// byte (a plain ASCII character).
pub open spec fn spec_translate_virtual_key(key: KeyValue) -> Option<Key> {
    match key {
        KeyValue::Named(named) => spec_key_of_named(named),
        KeyValue::Character(s) => if encode_utf8(s@).len() == 1 {
            spec_key_of_byte(encode_utf8(s@)[0])
        } else {
            None
        },
    }
}

/// Map a logical key value to the GUI layer's key; values outside the
/// finite table have no mapping and are dropped upstream.
pub fn translate_virtual_key(key: &KeyValue) -> (r: Option<Key>)
    ensures
        r == spec_translate_virtual_key(*key),
{
    match key {
        KeyValue::Named(named) => key_of_named(*named),
        KeyValue::Character(s) => {
            let bytes = s.as_str().as_bytes();
            if bytes.len() == 1 {
                key_of_byte(bytes[0])
            } else {
                None
            }
        },
    }
}

} // verus!
