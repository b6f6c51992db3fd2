use strata::keyboard::{
    keysym_modifier, Key, KeyPattern, KeyState, ModState, Mods, SerializedMods, KEYSYM_ALT_L,
    KEYSYM_CONTROL_R, KEYSYM_META_L, KEYSYM_SHIFT_L,
};
use strata::lua_value::LuaValue;
use strata::modifier::Modifier;
use strata::ordered_map::OrderedMap;

fn state(depressed: u32, locked: u32) -> ModState {
    ModState {
        ctrl: false,
        alt: false,
        shift: depressed != 0,
        caps_lock: locked != 0,
        logo: false,
        num_lock: false,
        iso_level3_shift: false,
        iso_level5_shift: false,
        serialized: SerializedMods { depressed, latched: 0, locked, layout_effective: 0 },
    }
}

const KEY_A: u32 = 0x61;

#[test]
fn keysym_modifier_maps_meta_to_alt() {
    assert_eq!(keysym_modifier(KEYSYM_META_L).bits(), 0x010);
    assert_eq!(keysym_modifier(KEYSYM_ALT_L).bits(), 0x010);
    assert_eq!(keysym_modifier(KEYSYM_SHIFT_L).bits(), 0x001);
    assert_eq!(keysym_modifier(KEYSYM_CONTROL_R).bits(), 0x008);
    assert_eq!(keysym_modifier(0xfe03).bits(), 0x100);
    assert_eq!(keysym_modifier(0xfe11).bits(), 0x200);
    assert_eq!(keysym_modifier(0xffee).bits(), 0x800);
    assert_eq!(keysym_modifier(KEY_A).bits(), 0);
}

#[test]
fn pressing_and_releasing_shift() {
    let mut mods = Mods::new(state(0, 0));
    mods.update_modifiers(&state(1, 0), Key::new(KEYSYM_SHIFT_L), KeyState::Pressed);
    assert_eq!(mods.flags.bits(), 0x001);
    assert_eq!(mods.state, state(1, 0));
    mods.update_modifiers(&state(0, 0), Key::new(KEYSYM_SHIFT_L), KeyState::Released);
    assert_eq!(mods.flags.bits(), 0);
}

#[test]
fn ordinary_key_leaves_flags() {
    let mut mods = Mods::new(state(0, 0));
    mods.update_modifiers(&state(0, 0), Key::new(KEY_A), KeyState::Pressed);
    assert_eq!(mods.flags.bits(), 0);
    mods.update_modifiers(&state(0, 0), Key::new(KEY_A), KeyState::Released);
    assert_eq!(mods.flags.bits(), 0);
}

#[test]
fn unchanged_state_counts_as_depressed() {
    // a modifier the keymap does not know: its press leaves the state unchanged,
    // with something depressed
    let mut mods = Mods::new(state(4, 0));
    mods.update_modifiers(&state(4, 0), Key::new(0xffed), KeyState::Pressed);
    assert_eq!(mods.flags.bits(), 0x400);
}

#[test]
fn press_without_more_depressed_does_not_toggle() {
    let mut mods = Mods::new(state(3, 0));
    mods.update_modifiers(&state(1, 0), Key::new(KEYSYM_SHIFT_L), KeyState::Pressed);
    assert_eq!(mods.flags.bits(), 0);
    // the release still toggles
    mods.update_modifiers(&state(0, 0), Key::new(KEYSYM_SHIFT_L), KeyState::Released);
    assert_eq!(mods.flags.bits(), 0x001);
}

#[test]
fn lock_key_press_does_not_toggle() {
    // a lock key: as many depressed as newly locked
    let mut mods = Mods::new(state(0, 0));
    mods.update_modifiers(&state(2, 2), Key::new(KEYSYM_SHIFT_L), KeyState::Pressed);
    assert_eq!(mods.flags.bits(), 0);
}

#[test]
fn keybinding_fires_on_press_only() {
    let mut binds: OrderedMap<KeyPattern, &str> = OrderedMap::new();
    let ctrl = Modifier::from_name("Control_R").unwrap();
    binds.insert(KeyPattern { modifier: ctrl, key: Key::new(KEY_A) }, "run");

    let mut mods = Mods::new(state(0, 0));
    // press Control_R: the chord Control_R + Control_R is not bound
    assert_eq!(mods.on_keyboard(&state(4, 0), Key::new(KEYSYM_CONTROL_R), KeyState::Pressed, &binds), None);
    assert_eq!(mods.flags, ctrl);
    // press a with Control_R held
    assert_eq!(mods.on_keyboard(&state(4, 0), Key::new(KEY_A), KeyState::Pressed, &binds), Some(&"run"));
    // releasing a does not run it
    assert_eq!(mods.on_keyboard(&state(4, 0), Key::new(KEY_A), KeyState::Released, &binds), None);
    // release Control_R, then a alone is not bound
    assert_eq!(mods.on_keyboard(&state(0, 0), Key::new(KEYSYM_CONTROL_R), KeyState::Released, &binds), None);
    assert_eq!(mods.on_keyboard(&state(0, 0), Key::new(KEY_A), KeyState::Pressed, &binds), None);
}

#[test]
fn last_binding_wins() {
    let mut binds: OrderedMap<KeyPattern, u32> = OrderedMap::new();
    let p = KeyPattern { modifier: Modifier::empty(), key: Key::new(KEY_A) };
    assert_eq!(binds.insert(p, 1), None);
    assert_eq!(binds.insert(p, 2), Some(1));
    assert_eq!(binds.len(), 1);
    assert_eq!(binds.get(&p), Some(&2));
}

#[test]
fn key_from_value() {
    assert_eq!(Key::from_value(LuaValue::Integer(0x61)).unwrap().raw(), 0x61);
    assert_eq!(Key::from_value(LuaValue::Integer(0x1_0000_0061)).unwrap().raw(), 0x61);
    let e = Key::from_value(LuaValue::Nil).unwrap_err();
    assert_eq!(e.expected, "Key (integer)");
    assert_eq!(e.found, "nil");
    let e = Key::from_value(LuaValue::String).unwrap_err();
    assert_eq!(e.found, "string");
}

#[test]
fn set_state_keeps_flags() {
    let mut mods = Mods::new(state(0, 0));
    mods.update_modifiers(&state(1, 0), Key::new(KEYSYM_SHIFT_L), KeyState::Pressed);
    mods.set_state(state(0, 2));
    assert_eq!(mods.flags.bits(), 0x001);
    assert_eq!(mods.state, state(0, 2));
}

#[test]
fn values_for_scripts_read_back() {
    let k = Key::new(0xffe1);
    assert_eq!(k.to_value(), LuaValue::Integer(0xffe1));
    assert_eq!(Key::from_value(k.to_value()).unwrap(), k);
    let m = Modifier::from_name("Hyper_L").unwrap();
    assert_eq!(m.to_value(), LuaValue::Integer(0x400));
    assert_eq!(Modifier::from_value(m.to_value()).unwrap(), m);
}
