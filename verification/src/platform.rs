//! Input translation: SDL3 events in, toolkit input events out.

use crate::draw::FloatBits;
use vstd::prelude::*;

verus! {

/// Left shift, in an SDL3 modifier state.
pub const MOD_LSHIFT: u16 = 0x0001;

/// Right shift, in an SDL3 modifier state.
pub const MOD_RSHIFT: u16 = 0x0002;

/// Left control, in an SDL3 modifier state.
pub const MOD_LCTRL: u16 = 0x0040;

/// Right control, in an SDL3 modifier state.
pub const MOD_RCTRL: u16 = 0x0080;

/// Left alt, in an SDL3 modifier state.
pub const MOD_LALT: u16 = 0x0100;

/// Right alt, in an SDL3 modifier state.
pub const MOD_RALT: u16 = 0x0200;

/// Left GUI key, in an SDL3 modifier state.
pub const MOD_LGUI: u16 = 0x0400;

/// Right GUI key, in an SDL3 modifier state.
pub const MOD_RGUI: u16 = 0x0800;

/// SDL3's number for the left mouse button.
pub const BUTTON_LEFT: u8 = 1;

/// SDL3's number for the middle mouse button.
pub const BUTTON_MIDDLE: u8 = 2;

/// SDL3's number for the right mouse button.
pub const BUTTON_RIGHT: u8 = 3;

/// SDL3's number for the first extra mouse button.
pub const BUTTON_X1: u8 = 4;

/// SDL3's number for the second extra mouse button.
pub const BUTTON_X2: u8 = 5;

/// The mouse buttons the toolkit is told about.
#[derive(Clone, Copy, Debug, PartialEq, Eq, Structural)]
pub enum MouseButton {
    Left,
    Right,
    Middle,
    Back,
    Forward,
}

/// Whether a button or key went down or came up.
#[derive(Clone, Copy, Debug, PartialEq, Eq, Structural)]
pub enum ButtonState {
    Pressed,
    Released,
}

/// Which modifier keys are held, either side counting alike.
#[derive(Clone, Copy, Debug, PartialEq, Eq, Structural)]
pub struct KeyboardModifiers {
    pub alt: bool,
    pub shift: bool,
    pub control: bool,
    pub system: bool,
}

/// An input event as the toolkit takes it.
#[allow(inconsistent_fields)]
#[derive(Clone, Copy, Debug, PartialEq, Eq, Structural)]
pub enum OsEvent {
    /// A mouse button changed state.
    MouseInput { button: MouseButton, state: ButtonState },
    /// The cursor moved to a position.
    CursorMoved { x: FloatBits, y: FloatBits },
    /// A key changed state, or, with `text`, a character was typed.
    KeyboardInput { button: KeyCode, state: ButtonState, text: Option<char> },
    /// The modifier keys that are held.
    KeyboardModifiers(KeyboardModifiers),
    /// The wheel turned by the given horizontal and vertical amounts.
    MouseWheel(FloatBits, FloatBits),
}

/// What the backend reads of an SDL3 event.
#[derive(Debug, PartialEq, Eq)]
pub enum Event {
    MouseWheel { x: FloatBits, y: FloatBits },
    /// A button went down; `mouse_btn` is SDL3's number for it.
    MouseButtonDown { mouse_btn: u8 },
    /// A button came up.
    MouseButtonUp { mouse_btn: u8 },
    /// Text was entered, possibly several characters at once.
    TextInput { text: String },
    /// A key went down; `keymod` is the modifier state.
    KeyDown { scancode: Option<i32>, keymod: u16 },
    /// A key came up.
    KeyUp { scancode: Option<i32>, keymod: u16 },
    MouseMotion { x: FloatBits, y: FloatBits },
    /// Any other event.
    Other,
}

/// State of the SDL3 side of the backend. There is none to keep.
#[derive(Clone, Copy, Debug, PartialEq, Eq, Structural)]
pub struct Platform;

/// The keys the toolkit knows about, as far as SDL3 scancodes can name them.
#[derive(Clone, Copy, Debug, PartialEq, Eq, Structural)]
pub enum KeyCode {
    /// A key that has no other variant. Text input is reported under it.
    Unknown,
    KeyA,
    KeyB,
    KeyC,
    KeyD,
    KeyE,
    KeyF,
    KeyG,
    KeyH,
    KeyI,
    KeyJ,
    KeyK,
    KeyL,
    KeyM,
    KeyN,
    KeyO,
    KeyP,
    KeyQ,
    KeyR,
    KeyS,
    KeyT,
    KeyU,
    KeyV,
    KeyW,
    KeyX,
    KeyY,
    KeyZ,
    Digit1,
    Digit2,
    Digit3,
    Digit4,
    Digit5,
    Digit6,
    Digit7,
    Digit8,
    Digit9,
    Digit0,
    Enter,
    Escape,
    Backspace,
    Tab,
    Space,
    Minus,
    Equal,
    BracketLeft,
    BracketRight,
    Backslash,
    Semicolon,
    Quote,
    Backquote,
    Comma,
    Period,
    Slash,
    F1,
    F2,
    F3,
    F4,
    F5,
    F6,
    F7,
    F8,
    F9,
    F10,
    F11,
    F12,
    Insert,
    Home,
    PageUp,
    Delete,
    End,
    PageDown,
    ArrowRight,
    ArrowLeft,
    ArrowDown,
    ArrowUp,
    NumpadDivide,
    NumpadMultiply,
    NumpadSubtract,
    NumpadAdd,
    NumpadEnter,
    Numpad1,
    Numpad2,
    Numpad3,
    Numpad4,
    Numpad5,
    Numpad6,
    Numpad7,
    Numpad8,
    Numpad9,
    Numpad0,
    NumpadDecimal,
    ControlLeft,
    ShiftLeft,
    AltLeft,
    SuperLeft,
    ControlRight,
    ShiftRight,
    AltRight,
    SuperRight,
}

/// The key that stands for an SDL3 scancode, if the toolkit has one.
///
/// Scancodes are given by their numeric value, which is the USB keyboard
/// usage id of the key's position.
pub open spec fn scancode_key(code: i32) -> Option<KeyCode> {
    match code {
        4 => Some(KeyCode::KeyA),
        5 => Some(KeyCode::KeyB),
        6 => Some(KeyCode::KeyC),
        7 => Some(KeyCode::KeyD),
        8 => Some(KeyCode::KeyE),
        9 => Some(KeyCode::KeyF),
        10 => Some(KeyCode::KeyG),
        11 => Some(KeyCode::KeyH),
        12 => Some(KeyCode::KeyI),
        13 => Some(KeyCode::KeyJ),
        14 => Some(KeyCode::KeyK),
        15 => Some(KeyCode::KeyL),
        16 => Some(KeyCode::KeyM),
        17 => Some(KeyCode::KeyN),
        18 => Some(KeyCode::KeyO),
        19 => Some(KeyCode::KeyP),
        20 => Some(KeyCode::KeyQ),
        21 => Some(KeyCode::KeyR),
        22 => Some(KeyCode::KeyS),
        23 => Some(KeyCode::KeyT),
        24 => Some(KeyCode::KeyU),
        25 => Some(KeyCode::KeyV),
        26 => Some(KeyCode::KeyW),
        27 => Some(KeyCode::KeyX),
        28 => Some(KeyCode::KeyY),
        29 => Some(KeyCode::KeyZ),
        30 => Some(KeyCode::Digit1),
        31 => Some(KeyCode::Digit2),
        32 => Some(KeyCode::Digit3),
        33 => Some(KeyCode::Digit4),
        34 => Some(KeyCode::Digit5),
        35 => Some(KeyCode::Digit6),
        36 => Some(KeyCode::Digit7),
        37 => Some(KeyCode::Digit8),
        38 => Some(KeyCode::Digit9),
        39 => Some(KeyCode::Digit0),
        40 => Some(KeyCode::Enter),
        41 => Some(KeyCode::Escape),
        42 => Some(KeyCode::Backspace),
        43 => Some(KeyCode::Tab),
        44 => Some(KeyCode::Space),
        45 => Some(KeyCode::Minus),
        46 => Some(KeyCode::Equal),
        47 => Some(KeyCode::BracketLeft),
        48 => Some(KeyCode::BracketRight),
        49 => Some(KeyCode::Backslash),
        51 => Some(KeyCode::Semicolon),
        52 => Some(KeyCode::Quote),
        53 => Some(KeyCode::Backquote),
        54 => Some(KeyCode::Comma),
        55 => Some(KeyCode::Period),
        56 => Some(KeyCode::Slash),
        58 => Some(KeyCode::F1),
        59 => Some(KeyCode::F2),
        60 => Some(KeyCode::F3),
        61 => Some(KeyCode::F4),
        62 => Some(KeyCode::F5),
        63 => Some(KeyCode::F6),
        64 => Some(KeyCode::F7),
        65 => Some(KeyCode::F8),
        66 => Some(KeyCode::F9),
        67 => Some(KeyCode::F10),
        68 => Some(KeyCode::F11),
        69 => Some(KeyCode::F12),
        73 => Some(KeyCode::Insert),
        74 => Some(KeyCode::Home),
        75 => Some(KeyCode::PageUp),
        76 => Some(KeyCode::Delete),
        77 => Some(KeyCode::End),
        78 => Some(KeyCode::PageDown),
        79 => Some(KeyCode::ArrowRight),
        80 => Some(KeyCode::ArrowLeft),
        81 => Some(KeyCode::ArrowDown),
        82 => Some(KeyCode::ArrowUp),
        84 => Some(KeyCode::NumpadDivide),
        85 => Some(KeyCode::NumpadMultiply),
        86 => Some(KeyCode::NumpadSubtract),
        87 => Some(KeyCode::NumpadAdd),
        88 => Some(KeyCode::NumpadEnter),
        89 => Some(KeyCode::Numpad1),
        90 => Some(KeyCode::Numpad2),
        91 => Some(KeyCode::Numpad3),
        92 => Some(KeyCode::Numpad4),
        93 => Some(KeyCode::Numpad5),
        94 => Some(KeyCode::Numpad6),
        95 => Some(KeyCode::Numpad7),
        96 => Some(KeyCode::Numpad8),
        97 => Some(KeyCode::Numpad9),
        98 => Some(KeyCode::Numpad0),
        99 => Some(KeyCode::NumpadDecimal),
        224 => Some(KeyCode::ControlLeft),
        225 => Some(KeyCode::ShiftLeft),
        226 => Some(KeyCode::AltLeft),
        227 => Some(KeyCode::SuperLeft),
        228 => Some(KeyCode::ControlRight),
        229 => Some(KeyCode::ShiftRight),
        230 => Some(KeyCode::AltRight),
        231 => Some(KeyCode::SuperRight),
        _ => None,
    }
}

/// Whether a scancode lies in one of the blocks of positions that the toolkit
/// has keys for: the typing area, the function keys up to F12, the navigation
/// cluster, the keypad, and the eight modifier keys.
pub open spec fn scancode_is_mapped(code: i32) -> bool {
    ||| (4 <= code <= 56 && code != 50)
    ||| 58 <= code <= 69
    ||| 73 <= code <= 82
    ||| 84 <= code <= 99
    ||| 224 <= code <= 231
}

/// Translates an SDL3 scancode to the toolkit's key, `None` where the toolkit
/// has no key for that position.
pub fn map_scancode(code: i32) -> (key: Option<KeyCode>)
    ensures
        key == scancode_key(code),
        key is Some <==> scancode_is_mapped(code),
        key != Some(KeyCode::Unknown),
{
    match code {
        4 => Some(KeyCode::KeyA),
        5 => Some(KeyCode::KeyB),
        6 => Some(KeyCode::KeyC),
        7 => Some(KeyCode::KeyD),
        8 => Some(KeyCode::KeyE),
        9 => Some(KeyCode::KeyF),
        10 => Some(KeyCode::KeyG),
        11 => Some(KeyCode::KeyH),
        12 => Some(KeyCode::KeyI),
        13 => Some(KeyCode::KeyJ),
        14 => Some(KeyCode::KeyK),
        15 => Some(KeyCode::KeyL),
        16 => Some(KeyCode::KeyM),
        17 => Some(KeyCode::KeyN),
        18 => Some(KeyCode::KeyO),
        19 => Some(KeyCode::KeyP),
        20 => Some(KeyCode::KeyQ),
        21 => Some(KeyCode::KeyR),
        22 => Some(KeyCode::KeyS),
        23 => Some(KeyCode::KeyT),
        24 => Some(KeyCode::KeyU),
        25 => Some(KeyCode::KeyV),
        26 => Some(KeyCode::KeyW),
        27 => Some(KeyCode::KeyX),
        28 => Some(KeyCode::KeyY),
        29 => Some(KeyCode::KeyZ),
        30 => Some(KeyCode::Digit1),
        31 => Some(KeyCode::Digit2),
        32 => Some(KeyCode::Digit3),
        33 => Some(KeyCode::Digit4),
        34 => Some(KeyCode::Digit5),
        35 => Some(KeyCode::Digit6),
        36 => Some(KeyCode::Digit7),
        37 => Some(KeyCode::Digit8),
        38 => Some(KeyCode::Digit9),
        39 => Some(KeyCode::Digit0),
        40 => Some(KeyCode::Enter),
        41 => Some(KeyCode::Escape),
        42 => Some(KeyCode::Backspace),
        43 => Some(KeyCode::Tab),
        44 => Some(KeyCode::Space),
        45 => Some(KeyCode::Minus),
        46 => Some(KeyCode::Equal),
        47 => Some(KeyCode::BracketLeft),
        48 => Some(KeyCode::BracketRight),
        49 => Some(KeyCode::Backslash),
        51 => Some(KeyCode::Semicolon),
        52 => Some(KeyCode::Quote),
        53 => Some(KeyCode::Backquote),
        54 => Some(KeyCode::Comma),
        55 => Some(KeyCode::Period),
        56 => Some(KeyCode::Slash),
        58 => Some(KeyCode::F1),
        59 => Some(KeyCode::F2),
        60 => Some(KeyCode::F3),
        61 => Some(KeyCode::F4),
        62 => Some(KeyCode::F5),
        63 => Some(KeyCode::F6),
        64 => Some(KeyCode::F7),
        65 => Some(KeyCode::F8),
        66 => Some(KeyCode::F9),
        67 => Some(KeyCode::F10),
        68 => Some(KeyCode::F11),
        69 => Some(KeyCode::F12),
        73 => Some(KeyCode::Insert),
        74 => Some(KeyCode::Home),
        75 => Some(KeyCode::PageUp),
        76 => Some(KeyCode::Delete),
        77 => Some(KeyCode::End),
        78 => Some(KeyCode::PageDown),
        79 => Some(KeyCode::ArrowRight),
        80 => Some(KeyCode::ArrowLeft),
        81 => Some(KeyCode::ArrowDown),
        82 => Some(KeyCode::ArrowUp),
        84 => Some(KeyCode::NumpadDivide),
        85 => Some(KeyCode::NumpadMultiply),
        86 => Some(KeyCode::NumpadSubtract),
        87 => Some(KeyCode::NumpadAdd),
        88 => Some(KeyCode::NumpadEnter),
        89 => Some(KeyCode::Numpad1),
        90 => Some(KeyCode::Numpad2),
        91 => Some(KeyCode::Numpad3),
        92 => Some(KeyCode::Numpad4),
        93 => Some(KeyCode::Numpad5),
        94 => Some(KeyCode::Numpad6),
        95 => Some(KeyCode::Numpad7),
        96 => Some(KeyCode::Numpad8),
        97 => Some(KeyCode::Numpad9),
        98 => Some(KeyCode::Numpad0),
        99 => Some(KeyCode::NumpadDecimal),
        224 => Some(KeyCode::ControlLeft),
        225 => Some(KeyCode::ShiftLeft),
        226 => Some(KeyCode::AltLeft),
        227 => Some(KeyCode::SuperLeft),
        228 => Some(KeyCode::ControlRight),
        229 => Some(KeyCode::ShiftRight),
        230 => Some(KeyCode::AltRight),
        231 => Some(KeyCode::SuperRight),
        _ => None,
    }
}

/// No two scancodes share a key: the key tells which position was pressed.
pub proof fn lemma_scancode_key_injective(a: i32, b: i32)
    requires
        scancode_key(a) is Some,
        scancode_key(a) == scancode_key(b),
    ensures
        a == b,
{
}

/// The toolkit's button for SDL3's number of a mouse button.
pub open spec fn mouse_button(button: u8) -> Option<MouseButton> {
    if button == BUTTON_LEFT {
        Some(MouseButton::Left)
    } else if button == BUTTON_RIGHT {
        Some(MouseButton::Right)
    } else if button == BUTTON_MIDDLE {
        Some(MouseButton::Middle)
    } else if button == BUTTON_X1 {
        Some(MouseButton::Back)
    } else if button == BUTTON_X2 {
        Some(MouseButton::Forward)
    } else {
        None
    }
}

/// Translates SDL3's number of a mouse button, `None` for a button that SDL3
/// does not know.
pub fn map_mouse_button(button: u8) -> (r: Option<MouseButton>)
    ensures
        r == mouse_button(button),
        r is Some <==> 1 <= button <= 5,
{
    match button {
        1 => Some(MouseButton::Left),
        2 => Some(MouseButton::Middle),
        3 => Some(MouseButton::Right),
        4 => Some(MouseButton::Back),
        5 => Some(MouseButton::Forward),
        _ => None,
    }
}

/// Whether a modifier state holds the given key.
pub open spec fn holds(keymod: u16, key: u16) -> bool {
    keymod & key != 0
}

/// The modifiers of an SDL3 modifier state: each is held where its left or
/// its right key is.
pub open spec fn modifiers(keymod: u16) -> KeyboardModifiers {
    KeyboardModifiers {
        alt: holds(keymod, MOD_LALT) || holds(keymod, MOD_RALT),
        shift: holds(keymod, MOD_LSHIFT) || holds(keymod, MOD_RSHIFT),
        control: holds(keymod, MOD_LCTRL) || holds(keymod, MOD_RCTRL),
        system: holds(keymod, MOD_LGUI) || holds(keymod, MOD_RGUI),
    }
}

/// Translates an SDL3 modifier state.
pub fn map_modifiers(keymod: u16) -> (r: KeyboardModifiers)
    ensures
        r == modifiers(keymod),
{
    assert((keymod & 0x0300 != 0) == (keymod & 0x0100 != 0 || keymod & 0x0200 != 0))
        by (bit_vector);
    assert((keymod & 0x0003 != 0) == (keymod & 0x0001 != 0 || keymod & 0x0002 != 0))
        by (bit_vector);
    assert((keymod & 0x00C0 != 0) == (keymod & 0x0040 != 0 || keymod & 0x0080 != 0))
        by (bit_vector);
    assert((keymod & 0x0C00 != 0) == (keymod & 0x0400 != 0 || keymod & 0x0800 != 0))
        by (bit_vector);
    KeyboardModifiers {
        alt: keymod & 0x0300 != 0,
        shift: keymod & 0x0003 != 0,
        control: keymod & 0x00C0 != 0,
        system: keymod & 0x0C00 != 0,
    }
}

/// Whether an event belongs to the window: it does where it names a window
/// and that window is this one.
pub fn filter_event(window_id: u32, event_window_id: Option<u32>) -> (r: bool)
    ensures
        r == (event_window_id == Some(window_id)),
{
    match event_window_id {
        Some(id) => id == window_id,
        None => false,
    }
}

/// The event that reports a typed character.
pub open spec fn typed(ch: char) -> OsEvent {
    OsEvent::KeyboardInput { button: KeyCode::Unknown, state: ButtonState::Pressed, text: Some(ch) }
}

/// The events that report a mouse button.
pub open spec fn button_events(button: u8, state: ButtonState) -> Seq<OsEvent> {
    match mouse_button(button) {
        Some(button) => seq![OsEvent::MouseInput { button, state }],
        None => Seq::empty(),
    }
}

/// The events that report a key: the modifiers first, then the key itself
/// where the toolkit has one for it.
pub open spec fn key_events(scancode: i32, keymod: u16, state: ButtonState) -> Seq<OsEvent> {
    let held = seq![OsEvent::KeyboardModifiers(modifiers(keymod))];
    match scancode_key(scancode) {
        Some(button) => held.push(OsEvent::KeyboardInput { button, state, text: None }),
        None => held,
    }
}

/// What the toolkit is to be told of an SDL3 event, in order; `None` where the
/// event is none of the toolkit's business.
pub open spec fn translate(event: Event) -> Option<Seq<OsEvent>> {
    match event {
        Event::MouseWheel { x, y } => Some(seq![OsEvent::MouseWheel(x, y)]),
        Event::MouseButtonDown { mouse_btn } => Some(
            button_events(mouse_btn, ButtonState::Pressed),
        ),
        Event::MouseButtonUp { mouse_btn } => Some(button_events(mouse_btn, ButtonState::Released)),
        Event::TextInput { text } => Some(text@.map_values(|ch: char| typed(ch))),
        Event::KeyDown { scancode: Some(scancode), keymod } => Some(
            key_events(scancode, keymod, ButtonState::Pressed),
        ),
        Event::KeyUp { scancode: Some(scancode), keymod } => Some(
            key_events(scancode, keymod, ButtonState::Released),
        ),
        Event::MouseMotion { x, y } => Some(seq![OsEvent::CursorMoved { x, y }]),
        _ => None,
    }
}

fn button_input(button: u8, state: ButtonState) -> (events: Vec<OsEvent>)
    ensures
        events@ == button_events(button, state),
{
    let mut events: Vec<OsEvent> = Vec::new();
    match map_mouse_button(button) {
        Some(button) => {
            events.push(OsEvent::MouseInput { button, state });
        },
        None => {},
    }
    assert(events@ =~= button_events(button, state));
    events
}

fn key_input(scancode: i32, keymod: u16, state: ButtonState) -> (events: Vec<OsEvent>)
    ensures
        events@ == key_events(scancode, keymod, state),
{
    let mut events: Vec<OsEvent> = Vec::new();
    events.push(OsEvent::KeyboardModifiers(map_modifiers(keymod)));
    match map_scancode(scancode) {
        Some(button) => {
            events.push(OsEvent::KeyboardInput { button, state, text: None });
        },
        None => {},
    }
    assert(events@ =~= key_events(scancode, keymod, state));
    events
}

fn text_input(text: &String) -> (events: Vec<OsEvent>)
    ensures
        events@ == text@.map_values(|ch: char| typed(ch)),
{
    let mut events: Vec<OsEvent> = Vec::new();
    for ch in it: text.as_str().chars()
        invariant
            it.seq() == text@,
            events@ == text@.take(it.index() as int).map_values(|ch: char| typed(ch)),
    {
        events.push(
            OsEvent::KeyboardInput {
                button: KeyCode::Unknown,
                state: ButtonState::Pressed,
                text: Some(ch),
            },
        );
        assert(events@ =~= text@.take(it.index() + 1).map_values(|ch: char| typed(ch)));
    }
    assert(text@.take(text@.len() as int) =~= text@);
    events
}

impl Platform {
    /// A new platform adapter.
    pub fn new() -> (platform: Self)
        ensures
            platform == Platform,
    {
        Platform
    }

    /// Translates one SDL3 event.
    ///
    /// Gives the events to feed to the toolkit, in order, which may be none;
    /// or `None` where the event is not handled: a key without scancode, or
    /// any event other than wheel, button, text, key and motion.
    pub fn handle_event(&mut self, event: &Event) -> (r: Option<Vec<OsEvent>>)
        ensures
            *final(self) == *old(self),
            match r {
                Some(events) => translate(*event) == Some(events@),
                None => translate(*event) is None,
            },
    {
        match event {
            Event::MouseWheel { x, y } => {
                let mut events: Vec<OsEvent> = Vec::new();
                events.push(OsEvent::MouseWheel(*x, *y));
                assert(events@ =~= seq![OsEvent::MouseWheel(*x, *y)]);
                Some(events)
            },
            Event::MouseButtonDown { mouse_btn } => Some(
                button_input(*mouse_btn, ButtonState::Pressed),
            ),
            Event::MouseButtonUp { mouse_btn } => Some(
                button_input(*mouse_btn, ButtonState::Released),
            ),
            Event::TextInput { text } => Some(text_input(text)),
            Event::KeyDown { scancode: Some(scancode), keymod } => Some(
                key_input(*scancode, *keymod, ButtonState::Pressed),
            ),
            Event::KeyUp { scancode: Some(scancode), keymod } => Some(
                key_input(*scancode, *keymod, ButtonState::Released),
            ),
            Event::MouseMotion { x, y } => {
                let mut events: Vec<OsEvent> = Vec::new();
                events.push(OsEvent::CursorMoved { x: *x, y: *y });
                assert(events@ =~= seq![OsEvent::CursorMoved { x: *x, y: *y }]);
                Some(events)
            },
            _ => None,
        }
    }
}

impl Default for Platform {
    fn default() -> (platform: Self)
        ensures
            platform == Platform,
    {
        Platform::new()
    }
}

} // verus!
