//! What the engine carries from one event to the next: the drawing backend
//! and the state of the keyboard.

use crate::renderer::RenderBackend;
use std::collections::HashSet;
use vstd::prelude::*;

verus! {

/// Which keys are held, and the last two presses.
pub struct KeyboardContext {
    pressed_keys: HashSet<u32>,
    last_pressed: Option<u32>,
    current_pressed: Option<u32>,
}

/// The keyboard state as mathematics sees it.
pub struct KeyboardView {
    /// The codes of the keys that are held.
    pub pressed: Set<u32>,
    /// What `current` was when the latest press came.
    pub last: Option<u32>,
    /// The key pressed most recently, until any key is released.
    pub current: Option<u32>,
}

impl KeyboardView {
    /// The state with no key held and no press remembered.
    pub open spec fn idle() -> KeyboardView {
        KeyboardView { pressed: Set::empty(), last: None, current: None }
    }

    /// The state after a key went down or up.
    ///
    /// A press adds the key to those held and becomes the current press, the
    /// one before it becoming the last. A release takes the key from those
    /// held and forgets the current press, whichever key that was.
    pub open spec fn after(self, keycode: u32, pressed: bool) -> KeyboardView {
        if pressed {
            KeyboardView {
                pressed: self.pressed.insert(keycode),
                last: self.current,
                current: Some(keycode),
            }
        } else {
            KeyboardView { pressed: self.pressed.remove(keycode), last: self.last, current: None }
        }
    }

    /// Whether the current press repeats the one before it.
    pub open spec fn repeated(self) -> bool {
        self.last is Some && self.last == self.current
    }
}

impl View for KeyboardContext {
    type V = KeyboardView;

    closed spec fn view(&self) -> KeyboardView {
        KeyboardView {
            pressed: self.pressed_keys@,
            last: self.last_pressed,
            current: self.current_pressed,
        }
    }
}

impl KeyboardContext {
    /// A keyboard with no key held.
    pub fn new() -> (keyboard: Self)
        ensures
            keyboard@ == KeyboardView::idle(),
    {
        Self { pressed_keys: HashSet::with_capacity(4), last_pressed: None, current_pressed: None }
    }

    /// Records that the key with this code went down or up.
    pub fn set_key_state(&mut self, keycode: u32, pressed: bool)
        ensures
            final(self)@ == old(self)@.after(keycode, pressed),
    {
        broadcast use vstd::std_specs::hash::group_hash_axioms;

        if pressed {
            self.pressed_keys.insert(keycode);
            self.last_pressed = self.current_pressed;
            self.current_pressed = Some(keycode);
        } else {
            self.pressed_keys.remove(&keycode);
            self.current_pressed = None;
        }
    }

    /// Whether the key with this code is held.
    pub fn is_pressed(&self, keycode: u32) -> (held: bool)
        ensures
            held == self@.pressed.contains(keycode),
    {
        broadcast use vstd::std_specs::hash::group_hash_axioms;

        self.pressed_keys.contains(&keycode)
    }

    /// Whether the current press is of the same key as the press before it.
    pub fn is_key_repeated(&self) -> (repeated: bool)
        ensures
            repeated == self@.repeated(),
    {
        match self.last_pressed {
            Some(last) => match self.current_pressed {
                Some(current) => last == current,
                None => false,
            },
            None => false,
        }
    }
}

/// The engine's context: a drawing backend and the keyboard.
pub struct Context {
    backend: Box<dyn RenderBackend>,
    keyboard: KeyboardContext,
}

impl Context {
    /// The keyboard state of this context.
    pub closed spec fn keyboard_view(&self) -> KeyboardView {
        self.keyboard@
    }

    /// A context with the default backend and an idle keyboard.
    pub fn new() -> (ctx: Context)
        ensures
            ctx.keyboard_view() == KeyboardView::idle(),
    {
        Self { backend: <dyn RenderBackend>::new(), keyboard: KeyboardContext::new() }
    }

    /// The keyboard, to read.
    pub fn keyboard(&self) -> (keyboard: &KeyboardContext)
        ensures
            keyboard@ == self.keyboard_view(),
    {
        &self.keyboard
    }

    /// The keyboard, to tell it of a key.
    pub fn keyboard_mut(&mut self) -> (keyboard: &mut KeyboardContext)
        ensures
            keyboard@ == old(self).keyboard_view(),
            final(self).keyboard_view() == final(keyboard)@,
    {
        &mut self.keyboard
    }
}

} // verus!
