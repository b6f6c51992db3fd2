use vstd::prelude::*;

use crate::lua_value::{LuaValue, TypeError, lua_kind_name};
use crate::modifier::{Modifier, ModifierFlag, flag_bit, valid_bits};
use crate::ordered_map::{MapKey, OrderedMap};

verus! {

/// Raw keysym values of the keys that count as modifiers (X11 keysym codes).
pub const KEYSYM_SHIFT_L: u32 = 0xffe1;
pub const KEYSYM_SHIFT_R: u32 = 0xffe2;
pub const KEYSYM_CONTROL_L: u32 = 0xffe3;
pub const KEYSYM_CONTROL_R: u32 = 0xffe4;
pub const KEYSYM_META_L: u32 = 0xffe7;
pub const KEYSYM_META_R: u32 = 0xffe8;
pub const KEYSYM_ALT_L: u32 = 0xffe9;
pub const KEYSYM_ALT_R: u32 = 0xffea;
pub const KEYSYM_SUPER_L: u32 = 0xffeb;
pub const KEYSYM_SUPER_R: u32 = 0xffec;
pub const KEYSYM_HYPER_L: u32 = 0xffed;
pub const KEYSYM_HYPER_R: u32 = 0xffee;
pub const KEYSYM_ISO_LEVEL3_SHIFT: u32 = 0xfe03;
pub const KEYSYM_ISO_LEVEL5_SHIFT: u32 = 0xfe11;

/// What the compositor did with a key event that it kept for itself.
#[derive(Debug, Clone, Copy, PartialEq, Eq, Structural)]
pub enum KeyboardAction {
    ExecutedLua,
}

/// Whether a key went down or up.
#[derive(Debug, Clone, Copy, PartialEq, Eq, Structural)]
pub enum KeyState {
    Released,
    Pressed,
}

/// A keysym, by its raw value.
#[derive(Debug, Clone, Copy, PartialEq, Eq, Structural)]
pub struct Key(u32);

impl View for Key {
    type V = u32;

    closed spec fn view(&self) -> u32 {
        self.0
    }
}

impl Key {
    /// The key with this raw keysym value.
    pub fn new(raw: u32) -> (r: Key)
        ensures
            r@ == raw,
    {
        Key(raw)
    }

    /// The raw keysym value.
    pub fn raw(&self) -> (r: u32)
        ensures
            r == self@,
    {
        self.0
    }

    /// The value a script gets for this key: its keysym as an integer.
    pub fn to_value(&self) -> (r: LuaValue)
        ensures
            r == LuaValue::Integer(self@ as i64),
    {
        LuaValue::Integer(self.0 as i64)
    }

    /// Reads a key from a script value, which must be an integer; its low
    /// thirty-two bits are the keysym.
    pub fn from_value(value: LuaValue) -> (r: Result<Key, TypeError>)
        ensures
            match value {
                LuaValue::Integer(k) => r matches Ok(key) && key@ == k as u32,
                _ => r matches Err(e) && e.expected@ == "Key (integer)"@ && e.found@
                    == lua_kind_name(value),
            },
    {
        match value {
            LuaValue::Integer(k) => Ok(Key(k as u32)),
            _ => Err(TypeError { found: value.kind_name(), expected: "Key (integer)" }),
        }
    }
}

/// Two keys are equal exactly when their keysyms are.
pub proof fn lemma_key_view_injective(a: Key, b: Key)
    ensures
        (a@ == b@) == (a == b),
{
}

impl MapKey for Key {
    fn same_key(&self, other: &Self) -> (r: bool) {
        self.0 == other.0
    }
}

/// A chord: the modifier flags held, and the key.
#[derive(Debug, Clone, Copy, PartialEq, Eq, Structural)]
pub struct KeyPattern {
    pub modifier: Modifier,
    pub key: Key,
}

impl MapKey for KeyPattern {
    fn same_key(&self, other: &Self) -> (r: bool) {
        self.modifier.same_key(&other.modifier) && self.key.same_key(&other.key)
    }
}

/// The serialized modifier masks of the keyboard, as the wire protocol sends them.
#[derive(Debug, Clone, Copy, PartialEq, Eq, Structural)]
pub struct SerializedMods {
    pub depressed: u32,
    pub latched: u32,
    pub locked: u32,
    pub layout_effective: u32,
}

/// The keyboard's modifier state as the keymap reports it.
#[derive(Debug, Clone, Copy, PartialEq, Eq, Structural)]
pub struct ModState {
    pub ctrl: bool,
    pub alt: bool,
    pub shift: bool,
    pub caps_lock: bool,
    pub logo: bool,
    pub num_lock: bool,
    pub iso_level3_shift: bool,
    pub iso_level5_shift: bool,
    pub serialized: SerializedMods,
}

/// The flag that a keysym stands for; the Meta keys count as Alt.
pub open spec fn keysym_flag(keysym: u32) -> Option<ModifierFlag> {
    if keysym == KEYSYM_META_L {
        Some(ModifierFlag::AltL)
    } else if keysym == KEYSYM_META_R {
        Some(ModifierFlag::AltR)
    } else if keysym == KEYSYM_SHIFT_L {
        Some(ModifierFlag::ShiftL)
    } else if keysym == KEYSYM_SHIFT_R {
        Some(ModifierFlag::ShiftR)
    } else if keysym == KEYSYM_CONTROL_L {
        Some(ModifierFlag::ControlL)
    } else if keysym == KEYSYM_CONTROL_R {
        Some(ModifierFlag::ControlR)
    } else if keysym == KEYSYM_ALT_L {
        Some(ModifierFlag::AltL)
    } else if keysym == KEYSYM_ALT_R {
        Some(ModifierFlag::AltR)
    } else if keysym == KEYSYM_SUPER_L {
        Some(ModifierFlag::SuperL)
    } else if keysym == KEYSYM_SUPER_R {
        Some(ModifierFlag::SuperR)
    } else if keysym == KEYSYM_ISO_LEVEL3_SHIFT {
        Some(ModifierFlag::IsoLevel3Shift)
    } else if keysym == KEYSYM_ISO_LEVEL5_SHIFT {
        Some(ModifierFlag::IsoLevel5Shift)
    } else if keysym == KEYSYM_HYPER_L {
        Some(ModifierFlag::HyperL)
    } else if keysym == KEYSYM_HYPER_R {
        Some(ModifierFlag::HyperR)
    } else {
        None
    }
}

/// The bits that a key toggles: its flag's bit, or none for other keys.
pub open spec fn keysym_bits(keysym: u32) -> u16 {
    match keysym_flag(keysym) {
        Some(f) => flag_bit(f),
        None => 0,
    }
}

/// Whether a press, seen as the change from `old` to `new`, toggles the key's
/// flag: the key must look like a modifier (more depressed modifiers than the
/// change in locked ones) and be depressed (the state did not change, or more
/// modifiers are depressed than before).
pub open spec fn press_toggles(old: ModState, new: ModState) -> bool {
    let depressed = new == old || new.serialized.depressed > old.serialized.depressed;
    let is_modifier = new.serialized.depressed > new.serialized.locked - old.serialized.locked;
    is_modifier && depressed
}

/// A key event's effect on the modifier flags.
pub open spec fn next_flags(
    flags: u16,
    old: ModState,
    new: ModState,
    keysym: u32,
    state: KeyState,
) -> u16 {
    match state {
        KeyState::Pressed => if press_toggles(old, new) {
            flags ^ keysym_bits(keysym)
        } else {
            flags
        },
        KeyState::Released => flags ^ keysym_bits(keysym),
    }
}

/// A key that is not a modifier key never changes the flags.
pub proof fn lemma_non_modifier_keeps_flags(
    flags: u16,
    old: ModState,
    new: ModState,
    keysym: u32,
    state: KeyState,
)
    requires
        keysym_flag(keysym) is None,
    ensures
        next_flags(flags, old, new, keysym, state) == flags,
{
    assert(flags ^ 0u16 == flags) by (bit_vector);
}

/// The flags only ever hold bits of defined modifiers.
pub proof fn lemma_flags_stay_valid(
    flags: u16,
    old: ModState,
    new: ModState,
    keysym: u32,
    state: KeyState,
)
    requires
        valid_bits(flags),
    ensures
        valid_bits(next_flags(flags, old, new, keysym, state)),
{
    let b = keysym_bits(keysym);
    assert(valid_bits(b)) by {
        crate::modifier::lemma_flag_bits_valid();
        if let Some(f) = keysym_flag(keysym) {
            crate::modifier::lemma_flag_bit_valid(f);
        }
    }
    assert((flags ^ b) & !crate::modifier::ALL_MODIFIER_BITS == 0) by (bit_vector)
        requires
            flags & !crate::modifier::ALL_MODIFIER_BITS == 0,
            b & !crate::modifier::ALL_MODIFIER_BITS == 0,
    ;
}

/// Releasing a modifier key undoes the press before it when that press toggled
/// its flag; after a press that did not, the release toggles the flag.
pub proof fn lemma_press_then_release(
    flags: u16,
    s0: ModState,
    s1: ModState,
    s2: ModState,
    keysym: u32,
)
    ensures
        next_flags(next_flags(flags, s0, s1, keysym, KeyState::Pressed), s1, s2, keysym, KeyState::Released)
            == if press_toggles(s0, s1) {
            flags
        } else {
            flags ^ keysym_bits(keysym)
        },
{
    let b = keysym_bits(keysym);
    assert((flags ^ b) ^ b == flags) by (bit_vector);
}

/// Each modifier key toggles the bit of the flag with its own name and side
/// (left and right Meta count as left and right Alt); every other key toggles
/// nothing.
pub proof fn lemma_modifier_keys_toggle_their_flags(keysym: u32)
    ensures
        keysym_bits(0xffe1) == 0x001,
        keysym_bits(0xffe2) == 0x002,
        keysym_bits(0xffe3) == 0x004,
        keysym_bits(0xffe4) == 0x008,
        keysym_bits(0xffe7) == 0x010,
        keysym_bits(0xffe8) == 0x020,
        keysym_bits(0xffe9) == 0x010,
        keysym_bits(0xffea) == 0x020,
        keysym_bits(0xffeb) == 0x040,
        keysym_bits(0xffec) == 0x080,
        keysym_bits(0xfe03) == 0x100,
        keysym_bits(0xfe11) == 0x200,
        keysym_bits(0xffed) == 0x400,
        keysym_bits(0xffee) == 0x800,
        !(0xffe1 <= keysym <= 0xffe4 || 0xffe7 <= keysym <= 0xffee || keysym == 0xfe03
            || keysym == 0xfe11) ==> keysym_bits(keysym) == 0,
{
}

/// A press that depresses more modifiers while the locked ones stay as they
/// were toggles the key's flag, whatever is locked; every release toggles it.
/// A press that leaves the keymap's state as it was toggles it when something
/// is depressed; a press that changes the state without depressing more
/// modifiers, or that depresses no more than it newly locks, leaves the flags.
pub proof fn lemma_modifier_press_toggles(
    flags: u16,
    old: ModState,
    new: ModState,
    keysym: u32,
)
    ensures
        new.serialized.locked == old.serialized.locked && new.serialized.depressed
            > old.serialized.depressed ==> next_flags(flags, old, new, keysym, KeyState::Pressed)
            == flags ^ keysym_bits(keysym),
        next_flags(flags, old, new, keysym, KeyState::Released) == flags ^ keysym_bits(keysym),
        new == old ==> next_flags(flags, old, new, keysym, KeyState::Pressed) == if new.serialized.depressed
            > 0 {
            flags ^ keysym_bits(keysym)
        } else {
            flags
        },
        new != old && new.serialized.depressed <= old.serialized.depressed ==> next_flags(
            flags,
            old,
            new,
            keysym,
            KeyState::Pressed,
        ) == flags,
        new.serialized.locked >= old.serialized.locked && new.serialized.depressed
            <= new.serialized.locked - old.serialized.locked ==> next_flags(
            flags,
            old,
            new,
            keysym,
            KeyState::Pressed,
        ) == flags,
{
}

/// The callback registered last for a chord is the one a press of that chord
/// finds, and registering one chord leaves what every other chord finds.
pub proof fn lemma_last_binding_wins<V>(
    binds: Map<KeyPattern, V>,
    p: KeyPattern,
    cb: V,
    q: KeyPattern,
)
    ensures
        binds.insert(p, cb).contains_key(p),
        binds.insert(p, cb)[p] == cb,
        q != p ==> binds.insert(p, cb).contains_key(q) == binds.contains_key(q),
        q != p && binds.contains_key(q) ==> binds.insert(p, cb)[q] == binds[q],
{
}

/// The value a script gets for a key (its keysym as an integer) reads back as
/// the same key.
pub proof fn lemma_key_value_round_trip(raw: u32)
    ensures
        (raw as i64) as u32 == raw,
{
}

/// The flag that a keysym stands for, if it is a modifier key.
pub fn keysym_modifier(keysym: u32) -> (r: Modifier)
    ensures
        r@ == keysym_bits(keysym),
{
    let flag = if keysym == KEYSYM_META_L {
        Some(ModifierFlag::AltL)
    } else if keysym == KEYSYM_META_R {
        Some(ModifierFlag::AltR)
    } else if keysym == KEYSYM_SHIFT_L {
        Some(ModifierFlag::ShiftL)
    } else if keysym == KEYSYM_SHIFT_R {
        Some(ModifierFlag::ShiftR)
    } else if keysym == KEYSYM_CONTROL_L {
        Some(ModifierFlag::ControlL)
    } else if keysym == KEYSYM_CONTROL_R {
        Some(ModifierFlag::ControlR)
    } else if keysym == KEYSYM_ALT_L {
        Some(ModifierFlag::AltL)
    } else if keysym == KEYSYM_ALT_R {
        Some(ModifierFlag::AltR)
    } else if keysym == KEYSYM_SUPER_L {
        Some(ModifierFlag::SuperL)
    } else if keysym == KEYSYM_SUPER_R {
        Some(ModifierFlag::SuperR)
    } else if keysym == KEYSYM_ISO_LEVEL3_SHIFT {
        Some(ModifierFlag::IsoLevel3Shift)
    } else if keysym == KEYSYM_ISO_LEVEL5_SHIFT {
        Some(ModifierFlag::IsoLevel5Shift)
    } else if keysym == KEYSYM_HYPER_L {
        Some(ModifierFlag::HyperL)
    } else if keysym == KEYSYM_HYPER_R {
        Some(ModifierFlag::HyperR)
    } else {
        None
    };
    match flag {
        Some(f) => Modifier::from_flag(f),
        None => Modifier::empty(),
    }
}

/// The compositor's own modifier flags, beside the keymap's state they were last
/// updated from.
#[derive(Debug)]
pub struct Mods {
    pub flags: Modifier,
    pub state: ModState,
}

impl Mods {
    /// No flag held, starting from the keymap's current state.
    pub fn new(state: ModState) -> (r: Mods)
        ensures
            r.flags@ == 0,
            r.state == state,
    {
        Mods { flags: Modifier::empty(), state }
    }

    /// Takes the keymap's state after the keymap was replaced; the flags stay.
    pub fn set_state(&mut self, state: ModState)
        ensures
            final(self).flags == old(self).flags,
            final(self).state == state,
    {
        self.state = state;
    }

    /// Folds a key event into the flags: a release toggles the key's flag, a
    /// press toggles it when `press_toggles` holds; the new state is kept.
    pub fn update_modifiers(&mut self, new_state: &ModState, keysym: Key, state: KeyState)
        requires
            state == KeyState::Pressed ==> new_state.serialized.locked
                >= old(self).state.serialized.locked,
        ensures
            final(self).flags@ == next_flags(
                old(self).flags@,
                old(self).state,
                *new_state,
                keysym@,
                state,
            ),
            final(self).state == *new_state,
    {
        let old_state = self.state;
        let modflag = keysym_modifier(keysym.raw());
        match state {
            KeyState::Pressed => {
                let depressed = if *new_state == old_state {
                    true
                } else {
                    new_state.serialized.depressed > old_state.serialized.depressed
                };
                let is_modifier = new_state.serialized.depressed > new_state.serialized.locked
                    - old_state.serialized.locked;
                if is_modifier && depressed {
                    self.flags.toggle(modflag);
                }
            },
            KeyState::Released => {
                self.flags.toggle(modflag);
            },
        }
        self.state = *new_state;
    }

    /// Handles a key event: updates the flags, then, on a press, looks up the
    /// binding for the chord of the updated flags and the key. A binding that is
    /// found is returned for the caller to run, and the event is kept from clients.
    pub fn on_keyboard<'a, V>(
        &mut self,
        new_state: &ModState,
        keysym: Key,
        state: KeyState,
        keybinds: &'a OrderedMap<KeyPattern, V>,
    ) -> (r: Option<&'a V>)
        requires
            state == KeyState::Pressed ==> new_state.serialized.locked
                >= old(self).state.serialized.locked,
        ensures
            final(self).flags@ == next_flags(
                old(self).flags@,
                old(self).state,
                *new_state,
                keysym@,
                state,
            ),
            final(self).state == *new_state,
            ({
                let k = KeyPattern { modifier: final(self).flags, key: keysym };
                match r {
                    Some(cb) => state == KeyState::Pressed && keybinds@.contains_key(k)
                        && *cb == keybinds@[k],
                    None => state == KeyState::Released || !keybinds@.contains_key(k),
                }
            }),
    {
        self.update_modifiers(new_state, keysym, state);
        match state {
            KeyState::Pressed => {
                let k = KeyPattern { modifier: self.flags, key: keysym };
                keybinds.get(&k)
            },
            KeyState::Released => None,
        }
    }
}

} // verus!
