use cave_world::state::{Key, KeyState, SharedGameState};

#[test]
fn each_key_has_its_own_bit() {
    let mut keys = KeyState(0);
    keys.set_left(true);
    assert_eq!(keys.0, 1 << 0);
    keys.set_right(true);
    assert_eq!(keys.0, 0b11);
    let mut keys = KeyState(0);
    keys.set_up(true);
    assert_eq!(keys.0, 1 << 2);
    let mut keys = KeyState(0);
    keys.set_down(true);
    assert_eq!(keys.0, 1 << 3);
    let mut keys = KeyState(0);
    keys.set_map(true);
    assert_eq!(keys.0, 1 << 4);
    let mut keys = KeyState(0);
    keys.set_jump(true);
    assert_eq!(keys.0, 1 << 5);
    let mut keys = KeyState(0);
    keys.set_fire(true);
    assert_eq!(keys.0, 1 << 6);
    let mut keys = KeyState(0);
    keys.set_weapon_next(true);
    assert_eq!(keys.0, 1 << 7);
    let mut keys = KeyState(0);
    keys.set_weapon_prev(true);
    assert_eq!(keys.0, 1 << 8);
}

#[test]
fn getters_read_the_bits_that_setters_write() {
    let keys = KeyState(0b1_0110_0101);
    assert!(keys.left());
    assert!(!keys.right());
    assert!(keys.up());
    assert!(!keys.down());
    assert!(!keys.map());
    assert!(keys.jump());
    assert!(keys.fire());
    assert!(!keys.weapon_next());
    assert!(keys.weapon_prev());
}

#[test]
fn clearing_a_bit_leaves_the_others() {
    let mut keys = KeyState(0xFFFF);
    keys.set_jump(false);
    assert_eq!(keys.0, 0xFFFF & !(1 << 5));
    keys.set_jump(false);
    assert_eq!(keys.0, 0xFFFF & !(1 << 5));
    keys.set_left(false);
    assert_eq!(keys.0, 0xFFFF & !(1 << 5) & !1);
    keys.set_jump(true);
    assert_eq!(keys.0, 0xFFFE);
}

#[test]
fn any_bit_can_be_set_and_read() {
    for n in 0..16u16 {
        let mut keys = KeyState(0);
        keys.set(n, true);
        assert_eq!(keys.0, 1 << n);
        for m in 0..16u16 {
            assert_eq!(keys.get(m), m == n);
        }
        keys.set(n, false);
        assert_eq!(keys.0, 0);
    }
}

#[test]
fn a_new_state_has_no_key() {
    let state = SharedGameState::new();
    assert_eq!(state.key_state, KeyState(0));
    assert_eq!(state.key_trigger, KeyState(0));
}

#[test]
fn key_down_sets_the_bit_of_the_key() {
    let cases = [
        (Key::Left, 1u16 << 0),
        (Key::Right, 1 << 1),
        (Key::Up, 1 << 2),
        (Key::Down, 1 << 3),
        (Key::Z, 1 << 5),
        (Key::X, 1 << 6),
        (Key::S, 1 << 7),
        (Key::A, 1 << 8),
        (Key::Other, 0),
    ];
    for (key, bits) in cases {
        let mut state = SharedGameState::new();
        state.key_down_event(key, false);
        assert_eq!(state.key_state.0, bits, "{:?}", key);
        assert_eq!(state.key_trigger.0, 0);
    }
}

#[test]
fn a_repeated_key_down_is_ignored() {
    let mut state = SharedGameState::new();
    state.key_down_event(Key::Z, true);
    assert_eq!(state.key_state.0, 0);
    state.key_down_event(Key::X, false);
    state.key_down_event(Key::Z, true);
    assert_eq!(state.key_state.0, 1 << 6);
}

#[test]
fn key_up_clears_the_bit_of_the_key() {
    let mut state = SharedGameState::new();
    state.key_state = KeyState(0x01FF);
    state.key_up_event(Key::Z);
    assert_eq!(state.key_state.0, 0x01FF & !(1 << 5));
    state.key_up_event(Key::A);
    assert_eq!(state.key_state.0, 0x00FF & !(1 << 5));
    state.key_up_event(Key::Other);
    assert_eq!(state.key_state.0, 0x00FF & !(1 << 5));
    state.key_up_event(Key::Left);
    state.key_up_event(Key::Right);
    state.key_up_event(Key::Up);
    state.key_up_event(Key::Down);
    state.key_up_event(Key::X);
    state.key_up_event(Key::S);
    // Only the map key, which no key of the keyboard drives, is left.
    assert_eq!(state.key_state.0, 1 << 4);
}

#[test]
fn trigger_holds_the_keys_that_just_went_down() {
    let mut state = SharedGameState::new();
    state.key_down_event(Key::Left, false);
    state.key_down_event(Key::Z, false);
    state.update_key_trigger();
    assert_eq!(state.key_trigger.0, (1 << 0) | (1 << 5));
    assert_eq!(state.key_state.0, (1 << 0) | (1 << 5));
    // Held keys do not trigger again.
    state.update_key_trigger();
    assert_eq!(state.key_trigger.0, 0);
    // A new key triggers alone.
    state.key_down_event(Key::X, false);
    state.update_key_trigger();
    assert_eq!(state.key_trigger.0, 1 << 6);
    // A released key does not trigger, and triggers again when pressed anew.
    state.key_up_event(Key::Z);
    state.update_key_trigger();
    assert_eq!(state.key_trigger.0, 0);
    state.key_down_event(Key::Z, false);
    state.update_key_trigger();
    assert_eq!(state.key_trigger.0, 1 << 5);
}

#[test]
fn trigger_is_now_and_not_before() {
    let mut state = SharedGameState::new();
    state.key_state = KeyState(0b1100);
    state.update_key_trigger();
    state.key_state = KeyState(0b1010);
    state.update_key_trigger();
    // now = 1010, before = 1100: only bit 1 is new.
    assert_eq!(state.key_trigger.0, 0b0010);
    assert_eq!(state.key_state.0, 0b1010);
}
