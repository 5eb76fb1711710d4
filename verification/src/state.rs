//! The keys that the game listens to, as one bit each, and the state that
//! follows them from frame to frame.

use vstd::prelude::*;

verus! {

/// Bit of the key that moves left.
pub const BIT_LEFT: u16 = 0;

/// Bit of the key that moves right.
pub const BIT_RIGHT: u16 = 1;

/// Bit of the key that looks up.
pub const BIT_UP: u16 = 2;

/// Bit of the key that looks down.
pub const BIT_DOWN: u16 = 3;

/// Bit of the key that opens the map.
pub const BIT_MAP: u16 = 4;

/// Bit of the key that jumps.
pub const BIT_JUMP: u16 = 5;

/// Bit of the key that fires.
pub const BIT_FIRE: u16 = 6;

/// Bit of the key that takes the next weapon.
pub const BIT_WEAPON_NEXT: u16 = 7;

/// Bit of the key that takes the previous weapon.
pub const BIT_WEAPON_PREV: u16 = 8;

/// A set of game keys, one bit for each.
#[derive(Debug, Clone, Copy, PartialEq, Eq, Structural)]
pub struct KeyState(pub u16);

impl KeyState {
    /// Whether bit `n` is set.
    pub open spec fn bit(self, n: u16) -> bool {
        (self.0 >> n) & 1 == 1
    }

    /// This set with bit `n` set or cleared.
    pub open spec fn with_bit(self, n: u16, value: bool) -> KeyState {
        if value {
            KeyState(self.0 | (1u16 << n))
        } else {
            KeyState(self.0 & !(1u16 << n))
        }
    }

    /// The keys that are in this set and were not in `before`.
    pub open spec fn newly_set(self, before: KeyState) -> KeyState {
        KeyState(self.0 & (self.0 ^ before.0))
    }

    /// Setting a bit changes that bit and no other.
    pub proof fn lemma_with_bit(self, n: u16, value: bool, m: u16)
        requires
            n < 16,
            m < 16,
        ensures
            self.with_bit(n, value).bit(m) == if m == n {
                value
            } else {
                self.bit(m)
            },
    {
        let bits = self.0;
        assert(((bits | (1u16 << n)) >> m) & 1 == if m == n {
            1u16
        } else {
            (bits >> m) & 1
        }) by (bit_vector)
            requires
                n < 16,
                m < 16,
        ;
        assert(((bits & !(1u16 << n)) >> m) & 1 == if m == n {
            0u16
        } else {
            (bits >> m) & 1
        }) by (bit_vector)
            requires
                n < 16,
                m < 16,
        ;
    }

    /// A key is newly set exactly when it is set now and was not before.
    pub proof fn lemma_newly_set(self, before: KeyState, m: u16)
        requires
            m < 16,
        ensures
            self.newly_set(before).bit(m) == (self.bit(m) && !before.bit(m)),
    {
        let now = self.0;
        let old_bits = before.0;
        assert((((now & (now ^ old_bits)) >> m) & 1 == 1) == (((now >> m) & 1 == 1) && !((old_bits
            >> m) & 1 == 1))) by (bit_vector)
            requires
                m < 16,
        ;
    }

    /// Whether bit `n` is set.
    pub fn get(&self, n: u16) -> (value: bool)
        requires
            n < 16,
        ensures
            value == self.bit(n),
    {
        (self.0 >> n) & 1 == 1
    }

    /// Sets or clears bit `n`.
    pub fn set(&mut self, n: u16, value: bool)
        requires
            n < 16,
        ensures
            *final(self) == old(self).with_bit(n, value),
    {
        if value {
            self.0 = self.0 | (1u16 << n);
        } else {
            self.0 = self.0 & !(1u16 << n);
        }
    }

    /// Whether the key that moves left is in the set.
    pub fn left(&self) -> (value: bool)
        ensures
            value == self.bit(BIT_LEFT),
    {
        self.get(BIT_LEFT)
    }

    /// Puts the key that moves left into the set, or takes it out.
    pub fn set_left(&mut self, value: bool)
        ensures
            *final(self) == old(self).with_bit(BIT_LEFT, value),
    {
        self.set(BIT_LEFT, value)
    }

    /// Whether the key that moves right is in the set.
    pub fn right(&self) -> (value: bool)
        ensures
            value == self.bit(BIT_RIGHT),
    {
        self.get(BIT_RIGHT)
    }

    /// Puts the key that moves right into the set, or takes it out.
    pub fn set_right(&mut self, value: bool)
        ensures
            *final(self) == old(self).with_bit(BIT_RIGHT, value),
    {
        self.set(BIT_RIGHT, value)
    }

    /// Whether the key that looks up is in the set.
    pub fn up(&self) -> (value: bool)
        ensures
            value == self.bit(BIT_UP),
    {
        self.get(BIT_UP)
    }

    /// Puts the key that looks up into the set, or takes it out.
    pub fn set_up(&mut self, value: bool)
        ensures
            *final(self) == old(self).with_bit(BIT_UP, value),
    {
        self.set(BIT_UP, value)
    }

    /// Whether the key that looks down is in the set.
    pub fn down(&self) -> (value: bool)
        ensures
            value == self.bit(BIT_DOWN),
    {
        self.get(BIT_DOWN)
    }

    /// Puts the key that looks down into the set, or takes it out.
    pub fn set_down(&mut self, value: bool)
        ensures
            *final(self) == old(self).with_bit(BIT_DOWN, value),
    {
        self.set(BIT_DOWN, value)
    }

    /// Whether the key that opens the map is in the set.
    pub fn map(&self) -> (value: bool)
        ensures
            value == self.bit(BIT_MAP),
    {
        self.get(BIT_MAP)
    }

    /// Puts the key that opens the map into the set, or takes it out.
    pub fn set_map(&mut self, value: bool)
        ensures
            *final(self) == old(self).with_bit(BIT_MAP, value),
    {
        self.set(BIT_MAP, value)
    }

    /// Whether the key that jumps is in the set.
    pub fn jump(&self) -> (value: bool)
        ensures
            value == self.bit(BIT_JUMP),
    {
        self.get(BIT_JUMP)
    }

    /// Puts the key that jumps into the set, or takes it out.
    pub fn set_jump(&mut self, value: bool)
        ensures
            *final(self) == old(self).with_bit(BIT_JUMP, value),
    {
        self.set(BIT_JUMP, value)
    }

    /// Whether the key that fires is in the set.
    pub fn fire(&self) -> (value: bool)
        ensures
            value == self.bit(BIT_FIRE),
    {
        self.get(BIT_FIRE)
    }

    /// Puts the key that fires into the set, or takes it out.
    pub fn set_fire(&mut self, value: bool)
        ensures
            *final(self) == old(self).with_bit(BIT_FIRE, value),
    {
        self.set(BIT_FIRE, value)
    }

    /// Whether the key that takes the next weapon is in the set.
    pub fn weapon_next(&self) -> (value: bool)
        ensures
            value == self.bit(BIT_WEAPON_NEXT),
    {
        self.get(BIT_WEAPON_NEXT)
    }

    /// Puts the key that takes the next weapon into the set, or takes it out.
    pub fn set_weapon_next(&mut self, value: bool)
        ensures
            *final(self) == old(self).with_bit(BIT_WEAPON_NEXT, value),
    {
        self.set(BIT_WEAPON_NEXT, value)
    }

    /// Whether the key that takes the previous weapon is in the set.
    pub fn weapon_prev(&self) -> (value: bool)
        ensures
            value == self.bit(BIT_WEAPON_PREV),
    {
        self.get(BIT_WEAPON_PREV)
    }

    /// Puts the key that takes the previous weapon into the set, or takes it out.
    pub fn set_weapon_prev(&mut self, value: bool)
        ensures
            *final(self) == old(self).with_bit(BIT_WEAPON_PREV, value),
    {
        self.set(BIT_WEAPON_PREV, value)
    }
}

/// A key of the keyboard, as far as the game tells keys apart.
#[derive(Debug, Clone, Copy, PartialEq, Eq, Structural)]
pub enum Key {
    Left,
    Right,
    Up,
    Down,
    Z,
    X,
    A,
    S,
    /// Any key that the game does not listen to.
    Other,
}

/// The bit that a key drives, if the game listens to it: the arrows move
/// and look, `Z` jumps, `X` fires, `A` and `S` change weapon.
pub open spec fn key_bit(key: Key) -> Option<u16> {
    match key {
        Key::Left => Some(BIT_LEFT),
        Key::Right => Some(BIT_RIGHT),
        Key::Up => Some(BIT_UP),
        Key::Down => Some(BIT_DOWN),
        Key::Z => Some(BIT_JUMP),
        Key::X => Some(BIT_FIRE),
        Key::A => Some(BIT_WEAPON_PREV),
        Key::S => Some(BIT_WEAPON_NEXT),
        Key::Other => None,
    }
}

/// The key set after `key` went down or up: its bit follows it, and a key
/// that the game does not listen to changes nothing.
pub open spec fn keys_after(keys: KeyState, key: Key, pressed: bool) -> KeyState {
    match key_bit(key) {
        Some(n) => keys.with_bit(n, pressed),
        None => keys,
    }
}

/// The state that every scene sees: the keys held, and those that went down
/// since the last frame.
pub struct SharedGameState {
    /// The keys held now.
    pub key_state: KeyState,
    /// The keys that were held at the last update and not at the one before.
    pub key_trigger: KeyState,
    key_old: u16,
}

/// The shared state as mathematics sees it.
pub struct SharedGameStateView {
    /// The keys held now.
    pub key_state: KeyState,
    /// The keys that were held at the last update and not at the one before.
    pub key_trigger: KeyState,
    /// The keys that were held at the last update.
    pub key_old: KeyState,
}

impl View for SharedGameState {
    type V = SharedGameStateView;

    closed spec fn view(&self) -> SharedGameStateView {
        SharedGameStateView {
            key_state: self.key_state,
            key_trigger: self.key_trigger,
            key_old: KeyState(self.key_old),
        }
    }
}

impl SharedGameState {
    /// The state with no key held and none remembered.
    pub fn new() -> (state: SharedGameState)
        ensures
            state@ == (SharedGameStateView {
                key_state: KeyState(0),
                key_trigger: KeyState(0),
                key_old: KeyState(0),
            }),
    {
        SharedGameState { key_state: KeyState(0), key_trigger: KeyState(0), key_old: 0 }
    }

    /// Works out which keys went down since the last update, and remembers
    /// the keys held now for the next one.
    pub fn update_key_trigger(&mut self)
        ensures
            final(self)@ == (SharedGameStateView {
                key_state: old(self)@.key_state,
                key_trigger: old(self)@.key_state.newly_set(old(self)@.key_old),
                key_old: old(self)@.key_state,
            }),
    {
        let mut trigger: u16 = self.key_state.0 ^ self.key_old;
        trigger = self.key_state.0 & trigger;
        self.key_old = self.key_state.0;
        self.key_trigger = KeyState(trigger);
    }

    /// Takes note that `key` went down. A press that only repeats the one
    /// before it changes nothing.
    pub fn key_down_event(&mut self, key: Key, repeat: bool)
        ensures
            final(self)@ == (SharedGameStateView {
                key_state: if repeat {
                    old(self)@.key_state
                } else {
                    keys_after(old(self)@.key_state, key, true)
                },
                ..old(self)@
            }),
    {
        if repeat {
            return ;
        }
        match key {
            Key::Left => self.key_state.set_left(true),
            Key::Right => self.key_state.set_right(true),
            Key::Up => self.key_state.set_up(true),
            Key::Down => self.key_state.set_down(true),
            Key::Z => self.key_state.set_jump(true),
            Key::X => self.key_state.set_fire(true),
            Key::A => self.key_state.set_weapon_prev(true),
            Key::S => self.key_state.set_weapon_next(true),
            Key::Other => {},
        }
    }

    /// Takes note that `key` went up.
    pub fn key_up_event(&mut self, key: Key)
        ensures
            final(self)@ == (SharedGameStateView {
                key_state: keys_after(old(self)@.key_state, key, false),
                ..old(self)@
            }),
    {
        match key {
            Key::Left => self.key_state.set_left(false),
            Key::Right => self.key_state.set_right(false),
            Key::Up => self.key_state.set_up(false),
            Key::Down => self.key_state.set_down(false),
            Key::Z => self.key_state.set_jump(false),
            Key::X => self.key_state.set_fire(false),
            Key::A => self.key_state.set_weapon_prev(false),
            Key::S => self.key_state.set_weapon_next(false),
            Key::Other => {},
        }
    }
}

} // verus!
