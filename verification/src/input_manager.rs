//! The state of keys and mouse, as the last platform events left it.

use vstd::prelude::*;
use std::collections::HashMap;

verus! {

pub const KEY_A: u32 = 10;

pub const KEY_D: u32 = 13;

pub const KEY_S: u32 = 28;

pub const KEY_W: u32 = 32;

pub const KEY_LEFT: u32 = 70;

pub const KEY_UP: u32 = 71;

pub const KEY_RIGHT: u32 = 72;

pub const KEY_DOWN: u32 = 73;

#[derive(Clone, Copy, Debug, PartialEq, Eq)]
pub enum ElementState {
    Pressed,
    Released,
}

#[derive(Clone, Copy, Debug, PartialEq, Eq)]
pub enum MouseButton {
    Left,
    Right,
    Middle,
    Other(u8),
}

/// Where the cursor is, each coordinate a binary64 bit pattern.
#[derive(Clone, Copy, Debug, PartialEq, Eq)]
pub struct MousePosition {
    pub x_bits: u64,
    pub y_bits: u64,
}

/// What the input manager reads of a platform event.
#[derive(Clone, Copy, Debug, PartialEq, Eq)]
pub enum InputEvent {
    /// A key changed state; `virtual_keycode` is its code, if it has one.
    KeyboardInput { state: ElementState, virtual_keycode: Option<u32> },
    MouseInput { button: MouseButton },
    CursorMoved { position: MousePosition },
    /// Any event that carries no input.
    Other,
}

pub struct InputManager {
    keys: HashMap<u32, ElementState>,
    mouse_pos: MousePosition,
    mouse_button: MouseButton,
}

/// The input state as specifications see it. A key is tracked once an
/// event has named it.
#[verifier::ext_equal]
pub struct InputView {
    pub keys: Map<u32, ElementState>,
    pub mouse_pos: MousePosition,
    pub mouse_button: MouseButton,
}

impl InputView {
    /// The state after `event`.
    pub open spec fn updated(self, event: InputEvent) -> InputView {
        match event {
            InputEvent::KeyboardInput { state, virtual_keycode: Some(keycode) } => InputView {
                keys: self.keys.insert(keycode, state),
                ..self
            },
            InputEvent::MouseInput { button } => InputView { mouse_button: button, ..self },
            InputEvent::CursorMoved { position } => InputView { mouse_pos: position, ..self },
            _ => self,
        }
    }

    /// Whether the key is tracked and held down.
    pub open spec fn pressed(self, key: u32) -> bool {
        self.keys.contains_key(key) && self.keys[key] == ElementState::Pressed
    }
}

impl View for InputManager {
    type V = InputView;

    closed spec fn view(&self) -> InputView {
        InputView { keys: self.keys@, mouse_pos: self.mouse_pos, mouse_button: self.mouse_button }
    }
}

impl InputManager {
    /// No key tracked, the cursor at the origin, the left button last.
    pub fn new() -> (m: InputManager)
        ensures
            m@ == (InputView {
                keys: Map::empty(),
                mouse_pos: MousePosition { x_bits: 0, y_bits: 0 },
                mouse_button: MouseButton::Left,
            }),
    {
        InputManager {
            keys: HashMap::new(),
            mouse_pos: MousePosition { x_bits: 0, y_bits: 0 },
            mouse_button: MouseButton::Left,
        }
    }

    /// Takes in one platform event.
    pub fn update(&mut self, input_event: &InputEvent)
        ensures
            final(self)@ == old(self)@.updated(*input_event),
    {
        match input_event {
            InputEvent::KeyboardInput { state, virtual_keycode: Some(keycode) } => {
                self.keys.insert(*keycode, *state);
            },
            InputEvent::MouseInput { button } => {
                self.mouse_button = *button;
            },
            InputEvent::CursorMoved { position } => {
                self.mouse_pos = *position;
            },
            _ => {},
        }
    }

    /// The state of a tracked key.
    pub fn get_key_value(&self, key: u32) -> (state: ElementState)
        requires
            self@.keys.contains_key(key),
        ensures
            state == self@.keys[key],
    {
        match self.keys.get(&key) {
            Some(v) => *v,
            None => ElementState::Released,
        }
    }

    /// The state of the key, if it is tracked.
    pub fn try_get_key_value(&self, key: u32) -> (r: Result<ElementState, ()>)
        ensures
            match r {
                Ok(state) => self@.keys.contains_key(key) && state == self@.keys[key],
                Err(_) => !self@.keys.contains_key(key),
            },
    {
        match self.keys.get(&key) {
            Some(v) => Ok(*v),
            None => Err(()),
        }
    }

    /// Whether the key is tracked and held down.
    pub fn is_pressed(&self, key: u32) -> (b: bool)
        ensures
            b == self@.pressed(key),
    {
        match self.try_get_key_value(key) {
            Ok(v) => match v {
                ElementState::Pressed => true,
                ElementState::Released => false,
            },
            Err(_) => false,
        }
    }

    pub fn get_mouse_position(&self) -> (p: MousePosition)
        ensures
            p == self@.mouse_pos,
    {
        self.mouse_pos
    }

    pub fn get_mouse_button(&self) -> (b: MouseButton)
        ensures
            b == self@.mouse_button,
    {
        self.mouse_button
    }
}

} // verus!
