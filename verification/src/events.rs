//! Input that has arrived and was not yet applied to the view.
//!
//! Events are recorded as they come and applied once per frame. Each kind of input keeps
//! only its latest value: a second wheel movement before the next frame replaces the first.
use crate::common::Scalar;
use vstd::prelude::*;

verus! {

/// Which mouse button is held down.
#[derive(Clone, Copy, Debug, PartialEq, Eq, Structural)]
pub enum MouseButtonPressedState {
    NotPressed,
    LeftPressed,
    MiddlePressed,
    RightPressed,
}

impl Default for MouseButtonPressedState {
    fn default() -> (s: Self)
        ensures
            s == MouseButtonPressedState::NotPressed,
    {
        MouseButtonPressedState::NotPressed
    }
}

/// The one modifier key that is held down, if exactly one is.
#[derive(Clone, Copy, Debug, PartialEq, Eq, Structural)]
pub enum KeyModifierState {
    NotModified,
    Shift,
    Ctrl,
    Alt,
    Logo,
}

impl Default for KeyModifierState {
    fn default() -> (s: Self)
        ensures
            s == KeyModifierState::NotModified,
    {
        KeyModifierState::NotModified
    }
}

/// The latest size of the window, in pixels, if it changed since the last frame.
#[derive(Clone, Copy, Debug, PartialEq, Eq, Structural)]
pub enum ResizedState {
    NotResized,
    Resized(PhysicalSize),
}

impl Default for ResizedState {
    fn default() -> (s: Self)
        ensures
            s == ResizedState::NotResized,
    {
        ResizedState::NotResized
    }
}

/// The latest navigation key that was pressed, if one was since the last frame.
#[derive(Clone, Copy, Debug, PartialEq, Eq, Structural)]
pub enum KeyStrokeState {
    NoStroke,
    Left,
    Right,
    Up,
    Down,
    Space,
}

impl Default for KeyStrokeState {
    fn default() -> (s: Self)
        ensures
            s == KeyStrokeState::NoStroke,
    {
        KeyStrokeState::NoStroke
    }
}

/// Whether a key or button went down or came up.
#[derive(Clone, Copy, Debug, PartialEq, Eq, Structural)]
pub enum ElementState {
    Pressed,
    Released,
}

/// A button of the mouse.
#[derive(Clone, Copy, Debug, PartialEq, Eq, Structural)]
pub enum MouseButton {
    Left,
    Right,
    Middle,
    Back,
    Forward,
    Other(u16),
}

/// A key that has a name rather than a character. The viewer reacts to the arrows and to
/// the space bar; every other named key is `Other`.
#[derive(Clone, Copy, Debug, PartialEq, Eq, Structural)]
pub enum NamedKey {
    ArrowLeft,
    ArrowRight,
    ArrowUp,
    ArrowDown,
    Space,
    Other,
}

/// A movement of the scroll wheel: horizontal and vertical amount, counted in lines or in
/// pixels.
#[derive(Clone, Copy, Debug, PartialEq, Eq, Structural)]
pub enum MouseScrollDelta {
    LineDelta(Scalar, Scalar),
    PixelDelta(Scalar, Scalar),
}

impl MouseScrollDelta {
    /// The vertical amount.
    pub open spec fn vertical(self) -> Scalar {
        match self {
            MouseScrollDelta::LineDelta(_, y) => y,
            MouseScrollDelta::PixelDelta(_, y) => y,
        }
    }
}

/// Size of a window in pixels.
#[derive(Clone, Copy, Debug, PartialEq, Eq, Structural)]
pub struct PhysicalSize {
    pub width: u32,
    pub height: u32,
}

/// The set of modifier keys that are held down, one bit for each.
#[derive(Clone, Copy, Debug, PartialEq, Eq, Structural)]
pub struct ModifiersState {
    pub bits: u32,
}

/// Bit of the shift key.
pub const SHIFT: u32 = 0x004;

/// Bit of the control key.
pub const CONTROL: u32 = 0x020;

/// Bit of the alt key.
pub const ALT: u32 = 0x100;

/// Bit of the logo key.
pub const SUPER: u32 = 0x800;

impl ModifiersState {
    /// The modifier that is held down alone; `NotModified` when none is, or several are.
    pub open spec fn single(self) -> KeyModifierState {
        if self.bits == SHIFT {
            KeyModifierState::Shift
        } else if self.bits == CONTROL {
            KeyModifierState::Ctrl
        } else if self.bits == ALT {
            KeyModifierState::Alt
        } else if self.bits == SUPER {
            KeyModifierState::Logo
        } else {
            KeyModifierState::NotModified
        }
    }

    pub fn empty() -> (m: Self)
        ensures
            m.bits == 0,
            m.single() == KeyModifierState::NotModified,
    {
        ModifiersState { bits: 0 }
    }

    pub fn shift() -> (m: Self)
        ensures
            m.bits == SHIFT,
            m.single() == KeyModifierState::Shift,
    {
        ModifiersState { bits: SHIFT }
    }

    pub fn control() -> (m: Self)
        ensures
            m.bits == CONTROL,
            m.single() == KeyModifierState::Ctrl,
    {
        ModifiersState { bits: CONTROL }
    }

    pub fn alt() -> (m: Self)
        ensures
            m.bits == ALT,
            m.single() == KeyModifierState::Alt,
    {
        ModifiersState { bits: ALT }
    }

    pub fn logo() -> (m: Self)
        ensures
            m.bits == SUPER,
            m.single() == KeyModifierState::Logo,
    {
        ModifiersState { bits: SUPER }
    }

    pub fn from_bits(bits: u32) -> (m: Self)
        ensures
            m.bits == bits,
    {
        ModifiersState { bits }
    }

    /// The modifier that is held down alone.
    pub fn key_modifier(&self) -> (k: KeyModifierState)
        ensures
            k == self.single(),
    {
        if self.bits == SHIFT {
            KeyModifierState::Shift
        } else if self.bits == CONTROL {
            KeyModifierState::Ctrl
        } else if self.bits == ALT {
            KeyModifierState::Alt
        } else if self.bits == SUPER {
            KeyModifierState::Logo
        } else {
            KeyModifierState::NotModified
        }
    }
}

impl Default for ModifiersState {
    fn default() -> (m: Self)
        ensures
            m.bits == 0,
    {
        ModifiersState { bits: 0 }
    }
}

/// The key that a keyboard event is about: one with a name, or any other.
#[derive(Clone, Copy, Debug, PartialEq, Eq, Structural)]
pub enum Key {
    Named(NamedKey),
    Unnamed,
}

/// What the window reports.
#[derive(Clone, Copy, Debug, PartialEq, Eq, Structural)]
pub enum WindowEvent {
    MouseWheel { delta: MouseScrollDelta },
    MouseInput { state: ElementState, button: MouseButton },
    CursorMoved,
    KeyboardInput { state: ElementState, logical_key: Key },
    ModifiersChanged(ModifiersState),
    Resized(PhysicalSize),
    RedrawRequested,
    /// Any other event; the scene does not react to it.
    Unhandled,
}

impl WindowEvent {
    /// The scene reacts to the event, provided it comes from the scene's own window.
    pub open spec fn handled(self) -> bool {
        !(self is Unhandled)
    }
}

/// The input that awaits the next frame.
#[derive(Clone, Copy, Debug, PartialEq, Eq, Structural)]
pub struct EventController {
    pub mouse_button_pressed_state: MouseButtonPressedState,
    pub mouse_wheel_delta: Option<Scalar>,
    pub key_modifier_state: ModifiersState,
    pub resized_state: ResizedState,
    pub key_stroke_state: KeyStrokeState,
}

/// The button state after `button` went to `state`.
pub open spec fn button_state(state: ElementState, button: MouseButton) -> MouseButtonPressedState {
    match state {
        ElementState::Pressed => match button {
            MouseButton::Left => MouseButtonPressedState::LeftPressed,
            MouseButton::Middle => MouseButtonPressedState::MiddlePressed,
            MouseButton::Right => MouseButtonPressedState::RightPressed,
            _ => MouseButtonPressedState::NotPressed,
        },
        ElementState::Released => MouseButtonPressedState::NotPressed,
    }
}

/// The key stroke after `key` went to `state`.
pub open spec fn key_stroke(state: ElementState, key: NamedKey) -> KeyStrokeState {
    match state {
        ElementState::Pressed => match key {
            NamedKey::ArrowLeft => KeyStrokeState::Left,
            NamedKey::ArrowRight => KeyStrokeState::Right,
            NamedKey::ArrowUp => KeyStrokeState::Up,
            NamedKey::ArrowDown => KeyStrokeState::Down,
            NamedKey::Space => KeyStrokeState::Space,
            NamedKey::Other => KeyStrokeState::NoStroke,
        },
        ElementState::Released => KeyStrokeState::NoStroke,
    }
}

impl EventController {
    /// Nothing awaits the next frame: no resize, no key stroke, no wheel movement.
    pub open spec fn idle(&self) -> bool {
        &&& self.resized_state == ResizedState::NotResized
        &&& self.key_stroke_state == KeyStrokeState::NoStroke
        &&& self.mouse_wheel_delta is None
    }

    /// The controller once a frame has taken what awaited it: held buttons and modifiers
    /// stay, the rest is cleared.
    pub open spec fn consumed(self) -> EventController {
        EventController {
            mouse_button_pressed_state: self.mouse_button_pressed_state,
            mouse_wheel_delta: None,
            key_modifier_state: self.key_modifier_state,
            resized_state: ResizedState::NotResized,
            key_stroke_state: KeyStrokeState::NoStroke,
        }
    }

    /// Records a movement of the scroll wheel: its vertical amount replaces the pending one.
    pub fn mouse_wheel_update(&mut self, delta: MouseScrollDelta)
        ensures
            *final(self) == (EventController {
                mouse_wheel_delta: Some(delta.vertical()),
                ..*old(self)
            }),
    {
        self.mouse_wheel_delta = match delta {
            MouseScrollDelta::LineDelta(_, y) => Some(y),
            MouseScrollDelta::PixelDelta(_, y) => Some(y),
        }
    }

    /// Records that a mouse button was pressed or released.
    pub fn mouse_input_update(&mut self, state: ElementState, button: MouseButton)
        ensures
            *final(self) == (EventController {
                mouse_button_pressed_state: button_state(state, button),
                ..*old(self)
            }),
    {
        self.mouse_button_pressed_state = match state {
            ElementState::Pressed => match button {
                MouseButton::Left => MouseButtonPressedState::LeftPressed,
                MouseButton::Middle => MouseButtonPressedState::MiddlePressed,
                MouseButton::Right => MouseButtonPressedState::RightPressed,
                _ => MouseButtonPressedState::NotPressed,
            },
            ElementState::Released => MouseButtonPressedState::NotPressed,
        }
    }

    /// Records that a named key was pressed or released: a pressed arrow or space bar
    /// becomes the pending key stroke, anything else clears it.
    pub fn key_input_update(&mut self, state: ElementState, key: NamedKey)
        ensures
            *final(self) == (EventController {
                key_stroke_state: key_stroke(state, key),
                ..*old(self)
            }),
    {
        match state {
            ElementState::Pressed => match key {
                NamedKey::ArrowLeft => {
                    self.key_stroke_state = KeyStrokeState::Left;
                },
                NamedKey::ArrowRight => {
                    self.key_stroke_state = KeyStrokeState::Right;
                },
                NamedKey::ArrowUp => {
                    self.key_stroke_state = KeyStrokeState::Up;
                },
                NamedKey::ArrowDown => {
                    self.key_stroke_state = KeyStrokeState::Down;
                },
                NamedKey::Space => {
                    self.key_stroke_state = KeyStrokeState::Space;
                },
                _ => {
                    self.key_stroke_state = KeyStrokeState::NoStroke;
                },
            },
            ElementState::Released => {
                self.key_stroke_state = KeyStrokeState::NoStroke;
            },
        }
    }

    /// Records which modifier keys are held down.
    pub fn key_modifiers_update(&mut self, modifiers: ModifiersState)
        ensures
            *final(self) == (EventController { key_modifier_state: modifiers, ..*old(self) }),
    {
        self.key_modifier_state = modifiers;
    }

    /// Records the new size of the window.
    pub fn resize_update(&mut self, size: PhysicalSize)
        ensures
            *final(self) == (EventController {
                resized_state: ResizedState::Resized(size),
                ..*old(self)
            }),
    {
        self.resized_state = ResizedState::Resized(size);
    }
}

impl Default for EventController {
    fn default() -> (c: Self)
        ensures
            c.mouse_button_pressed_state == MouseButtonPressedState::NotPressed,
            c.mouse_wheel_delta is None,
            c.key_modifier_state.bits == 0,
            c.resized_state == ResizedState::NotResized,
            c.key_stroke_state == KeyStrokeState::NoStroke,
            c.idle(),
    {
        EventController {
            mouse_button_pressed_state: MouseButtonPressedState::NotPressed,
            mouse_wheel_delta: None,
            key_modifier_state: ModifiersState { bits: 0 },
            resized_state: ResizedState::NotResized,
            key_stroke_state: KeyStrokeState::NoStroke,
        }
    }
}

} // verus!
