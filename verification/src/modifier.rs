use vstd::prelude::*;

use crate::lua_value::{LuaValue, TypeError, lua_kind_name};
use crate::ordered_map::MapKey;

verus! {

/// Mask of the bits that name a modifier key (twelve flags).
pub const ALL_MODIFIER_BITS: u16 = 0x0fff;

/// One modifier key that the compositor tracks on its own.
#[derive(Debug, Clone, Copy, PartialEq, Eq, Structural)]
pub enum ModifierFlag {
    ShiftL,
    ShiftR,
    ControlL,
    ControlR,
    AltL,
    AltR,
    SuperL,
    SuperR,
    IsoLevel3Shift,
    IsoLevel5Shift,
    HyperL,
    HyperR,
}

/// The single bit that stands for a flag.
pub open spec fn flag_bit(f: ModifierFlag) -> u16 {
    match f {
        ModifierFlag::ShiftL => 0x001,
        ModifierFlag::ShiftR => 0x002,
        ModifierFlag::ControlL => 0x004,
        ModifierFlag::ControlR => 0x008,
        ModifierFlag::AltL => 0x010,
        ModifierFlag::AltR => 0x020,
        ModifierFlag::SuperL => 0x040,
        ModifierFlag::SuperR => 0x080,
        ModifierFlag::IsoLevel3Shift => 0x100,
        ModifierFlag::IsoLevel5Shift => 0x200,
        ModifierFlag::HyperL => 0x400,
        ModifierFlag::HyperR => 0x800,
    }
}

/// The name under which a flag is known to configuration scripts.
pub open spec fn flag_name(f: ModifierFlag) -> Seq<char> {
    match f {
        ModifierFlag::ShiftL => "Shift_L"@,
        ModifierFlag::ShiftR => "Shift_R"@,
        ModifierFlag::ControlL => "Control_L"@,
        ModifierFlag::ControlR => "Control_R"@,
        ModifierFlag::AltL => "Alt_L"@,
        ModifierFlag::AltR => "Alt_R"@,
        ModifierFlag::SuperL => "Super_L"@,
        ModifierFlag::SuperR => "Super_R"@,
        ModifierFlag::IsoLevel3Shift => "ISO_Level3_Shift"@,
        ModifierFlag::IsoLevel5Shift => "ISO_Level5_Shift"@,
        ModifierFlag::HyperL => "Hyper_L"@,
        ModifierFlag::HyperR => "Hyper_R"@,
    }
}

/// Whether a set of bits names only defined modifiers.
pub open spec fn valid_bits(bits: u16) -> bool {
    bits & !ALL_MODIFIER_BITS == 0
}

/// Each flag's bit is one of the defined bits.
pub proof fn lemma_flag_bits_valid()
    by (bit_vector)
    ensures
        0u16 & !ALL_MODIFIER_BITS == 0,
        0x001u16 & !ALL_MODIFIER_BITS == 0,
        0x002u16 & !ALL_MODIFIER_BITS == 0,
        0x004u16 & !ALL_MODIFIER_BITS == 0,
        0x008u16 & !ALL_MODIFIER_BITS == 0,
        0x010u16 & !ALL_MODIFIER_BITS == 0,
        0x020u16 & !ALL_MODIFIER_BITS == 0,
        0x040u16 & !ALL_MODIFIER_BITS == 0,
        0x080u16 & !ALL_MODIFIER_BITS == 0,
        0x100u16 & !ALL_MODIFIER_BITS == 0,
        0x200u16 & !ALL_MODIFIER_BITS == 0,
        0x400u16 & !ALL_MODIFIER_BITS == 0,
        0x800u16 & !ALL_MODIFIER_BITS == 0,
{
}

/// Every flag's bit is a defined bit.
pub proof fn lemma_flag_bit_valid(f: ModifierFlag)
    ensures
        valid_bits(flag_bit(f)),
{
    lemma_flag_bits_valid();
}

/// The flag whose name is `name`, if any; names are compared exactly, case included.
pub open spec fn flag_named(name: Seq<char>) -> Option<ModifierFlag> {
    if name == "Shift_L"@ {
        Some(ModifierFlag::ShiftL)
    } else if name == "Shift_R"@ {
        Some(ModifierFlag::ShiftR)
    } else if name == "Control_L"@ {
        Some(ModifierFlag::ControlL)
    } else if name == "Control_R"@ {
        Some(ModifierFlag::ControlR)
    } else if name == "Alt_L"@ {
        Some(ModifierFlag::AltL)
    } else if name == "Alt_R"@ {
        Some(ModifierFlag::AltR)
    } else if name == "Super_L"@ {
        Some(ModifierFlag::SuperL)
    } else if name == "Super_R"@ {
        Some(ModifierFlag::SuperR)
    } else if name == "ISO_Level3_Shift"@ {
        Some(ModifierFlag::IsoLevel3Shift)
    } else if name == "ISO_Level5_Shift"@ {
        Some(ModifierFlag::IsoLevel5Shift)
    } else if name == "Hyper_L"@ {
        Some(ModifierFlag::HyperL)
    } else if name == "Hyper_R"@ {
        Some(ModifierFlag::HyperR)
    } else {
        None
    }
}

/// Each flag is found again under its own name, so no two flags share a name.
pub proof fn lemma_flag_name_round_trip(f: ModifierFlag)
    ensures
        flag_named(flag_name(f)) == Some(f),
{
    match f {
        ModifierFlag::ShiftL => {
            reveal_strlit("Shift_L");
        },
        ModifierFlag::ShiftR => {
            reveal_strlit("Shift_R");
            reveal_strlit("Shift_L");
            assert("Shift_R"@[6] != "Shift_L"@[6]);
        },
        ModifierFlag::ControlL => {
            reveal_strlit("Control_L");
            reveal_strlit("Shift_L");
            assert("Control_L"@.len() != "Shift_L"@.len());
            reveal_strlit("Shift_R");
            assert("Control_L"@.len() != "Shift_R"@.len());
        },
        ModifierFlag::ControlR => {
            reveal_strlit("Control_R");
            reveal_strlit("Shift_L");
            assert("Control_R"@.len() != "Shift_L"@.len());
            reveal_strlit("Shift_R");
            assert("Control_R"@.len() != "Shift_R"@.len());
            reveal_strlit("Control_L");
            assert("Control_R"@[8] != "Control_L"@[8]);
        },
        ModifierFlag::AltL => {
            reveal_strlit("Alt_L");
            reveal_strlit("Shift_L");
            assert("Alt_L"@.len() != "Shift_L"@.len());
            reveal_strlit("Shift_R");
            assert("Alt_L"@.len() != "Shift_R"@.len());
            reveal_strlit("Control_L");
            assert("Alt_L"@.len() != "Control_L"@.len());
            reveal_strlit("Control_R");
            assert("Alt_L"@.len() != "Control_R"@.len());
        },
        ModifierFlag::AltR => {
            reveal_strlit("Alt_R");
            reveal_strlit("Shift_L");
            assert("Alt_R"@.len() != "Shift_L"@.len());
            reveal_strlit("Shift_R");
            assert("Alt_R"@.len() != "Shift_R"@.len());
            reveal_strlit("Control_L");
            assert("Alt_R"@.len() != "Control_L"@.len());
            reveal_strlit("Control_R");
            assert("Alt_R"@.len() != "Control_R"@.len());
            reveal_strlit("Alt_L");
            assert("Alt_R"@[4] != "Alt_L"@[4]);
        },
        ModifierFlag::SuperL => {
            reveal_strlit("Super_L");
            reveal_strlit("Shift_L");
            assert("Super_L"@[1] != "Shift_L"@[1]);
            reveal_strlit("Shift_R");
            assert("Super_L"@[1] != "Shift_R"@[1]);
            reveal_strlit("Control_L");
            assert("Super_L"@.len() != "Control_L"@.len());
            reveal_strlit("Control_R");
            assert("Super_L"@.len() != "Control_R"@.len());
            reveal_strlit("Alt_L");
            assert("Super_L"@.len() != "Alt_L"@.len());
            reveal_strlit("Alt_R");
            assert("Super_L"@.len() != "Alt_R"@.len());
        },
        ModifierFlag::SuperR => {
            reveal_strlit("Super_R");
            reveal_strlit("Shift_L");
            assert("Super_R"@[1] != "Shift_L"@[1]);
            reveal_strlit("Shift_R");
            assert("Super_R"@[1] != "Shift_R"@[1]);
            reveal_strlit("Control_L");
            assert("Super_R"@.len() != "Control_L"@.len());
            reveal_strlit("Control_R");
            assert("Super_R"@.len() != "Control_R"@.len());
            reveal_strlit("Alt_L");
            assert("Super_R"@.len() != "Alt_L"@.len());
            reveal_strlit("Alt_R");
            assert("Super_R"@.len() != "Alt_R"@.len());
            reveal_strlit("Super_L");
            assert("Super_R"@[6] != "Super_L"@[6]);
        },
        ModifierFlag::IsoLevel3Shift => {
            reveal_strlit("ISO_Level3_Shift");
            reveal_strlit("Shift_L");
            assert("ISO_Level3_Shift"@.len() != "Shift_L"@.len());
            reveal_strlit("Shift_R");
            assert("ISO_Level3_Shift"@.len() != "Shift_R"@.len());
            reveal_strlit("Control_L");
            assert("ISO_Level3_Shift"@.len() != "Control_L"@.len());
            reveal_strlit("Control_R");
            assert("ISO_Level3_Shift"@.len() != "Control_R"@.len());
            reveal_strlit("Alt_L");
            assert("ISO_Level3_Shift"@.len() != "Alt_L"@.len());
            reveal_strlit("Alt_R");
            assert("ISO_Level3_Shift"@.len() != "Alt_R"@.len());
            reveal_strlit("Super_L");
            assert("ISO_Level3_Shift"@.len() != "Super_L"@.len());
            reveal_strlit("Super_R");
            assert("ISO_Level3_Shift"@.len() != "Super_R"@.len());
        },
        ModifierFlag::IsoLevel5Shift => {
            reveal_strlit("ISO_Level5_Shift");
            reveal_strlit("Shift_L");
            assert("ISO_Level5_Shift"@.len() != "Shift_L"@.len());
            reveal_strlit("Shift_R");
            assert("ISO_Level5_Shift"@.len() != "Shift_R"@.len());
            reveal_strlit("Control_L");
            assert("ISO_Level5_Shift"@.len() != "Control_L"@.len());
            reveal_strlit("Control_R");
            assert("ISO_Level5_Shift"@.len() != "Control_R"@.len());
            reveal_strlit("Alt_L");
            assert("ISO_Level5_Shift"@.len() != "Alt_L"@.len());
            reveal_strlit("Alt_R");
            assert("ISO_Level5_Shift"@.len() != "Alt_R"@.len());
            reveal_strlit("Super_L");
            assert("ISO_Level5_Shift"@.len() != "Super_L"@.len());
            reveal_strlit("Super_R");
            assert("ISO_Level5_Shift"@.len() != "Super_R"@.len());
            reveal_strlit("ISO_Level3_Shift");
            assert("ISO_Level5_Shift"@[9] != "ISO_Level3_Shift"@[9]);
        },
        ModifierFlag::HyperL => {
            reveal_strlit("Hyper_L");
            reveal_strlit("Shift_L");
            assert("Hyper_L"@[0] != "Shift_L"@[0]);
            reveal_strlit("Shift_R");
            assert("Hyper_L"@[0] != "Shift_R"@[0]);
            reveal_strlit("Control_L");
            assert("Hyper_L"@.len() != "Control_L"@.len());
            reveal_strlit("Control_R");
            assert("Hyper_L"@.len() != "Control_R"@.len());
            reveal_strlit("Alt_L");
            assert("Hyper_L"@.len() != "Alt_L"@.len());
            reveal_strlit("Alt_R");
            assert("Hyper_L"@.len() != "Alt_R"@.len());
            reveal_strlit("Super_L");
            assert("Hyper_L"@[0] != "Super_L"@[0]);
            reveal_strlit("Super_R");
            assert("Hyper_L"@[0] != "Super_R"@[0]);
            reveal_strlit("ISO_Level3_Shift");
            assert("Hyper_L"@.len() != "ISO_Level3_Shift"@.len());
            reveal_strlit("ISO_Level5_Shift");
            assert("Hyper_L"@.len() != "ISO_Level5_Shift"@.len());
        },
        ModifierFlag::HyperR => {
            reveal_strlit("Hyper_R");
            reveal_strlit("Shift_L");
            assert("Hyper_R"@[0] != "Shift_L"@[0]);
            reveal_strlit("Shift_R");
            assert("Hyper_R"@[0] != "Shift_R"@[0]);
            reveal_strlit("Control_L");
            assert("Hyper_R"@.len() != "Control_L"@.len());
            reveal_strlit("Control_R");
            assert("Hyper_R"@.len() != "Control_R"@.len());
            reveal_strlit("Alt_L");
            assert("Hyper_R"@.len() != "Alt_L"@.len());
            reveal_strlit("Alt_R");
            assert("Hyper_R"@.len() != "Alt_R"@.len());
            reveal_strlit("Super_L");
            assert("Hyper_R"@[0] != "Super_L"@[0]);
            reveal_strlit("Super_R");
            assert("Hyper_R"@[0] != "Super_R"@[0]);
            reveal_strlit("ISO_Level3_Shift");
            assert("Hyper_R"@.len() != "ISO_Level3_Shift"@.len());
            reveal_strlit("ISO_Level5_Shift");
            assert("Hyper_R"@.len() != "ISO_Level5_Shift"@.len());
            reveal_strlit("Hyper_L");
            assert("Hyper_R"@[6] != "Hyper_L"@[6]);
        },
    }
}

/// The integer a script gets for a set of flags (its bits) reads back as the
/// same set.
pub proof fn lemma_modifier_value_round_trip(bits: u16)
    requires
        valid_bits(bits),
    ensures
        (bits as i64) as u16 == bits,
        valid_bits((bits as i64) as u16),
{
}

/// Each name stands for the flag bit of the same key and side.
pub proof fn lemma_flag_names_bits()
    ensures
        flag_named("Shift_L"@) matches Some(f) && flag_bit(f) == 0x001,
        flag_named("Shift_R"@) matches Some(f) && flag_bit(f) == 0x002,
        flag_named("Control_L"@) matches Some(f) && flag_bit(f) == 0x004,
        flag_named("Control_R"@) matches Some(f) && flag_bit(f) == 0x008,
        flag_named("Alt_L"@) matches Some(f) && flag_bit(f) == 0x010,
        flag_named("Alt_R"@) matches Some(f) && flag_bit(f) == 0x020,
        flag_named("Super_L"@) matches Some(f) && flag_bit(f) == 0x040,
        flag_named("Super_R"@) matches Some(f) && flag_bit(f) == 0x080,
        flag_named("ISO_Level3_Shift"@) matches Some(f) && flag_bit(f) == 0x100,
        flag_named("ISO_Level5_Shift"@) matches Some(f) && flag_bit(f) == 0x200,
        flag_named("Hyper_L"@) matches Some(f) && flag_bit(f) == 0x400,
        flag_named("Hyper_R"@) matches Some(f) && flag_bit(f) == 0x800,
{
    lemma_flag_name_round_trip(ModifierFlag::ShiftL);
    lemma_flag_name_round_trip(ModifierFlag::ShiftR);
    lemma_flag_name_round_trip(ModifierFlag::ControlL);
    lemma_flag_name_round_trip(ModifierFlag::ControlR);
    lemma_flag_name_round_trip(ModifierFlag::AltL);
    lemma_flag_name_round_trip(ModifierFlag::AltR);
    lemma_flag_name_round_trip(ModifierFlag::SuperL);
    lemma_flag_name_round_trip(ModifierFlag::SuperR);
    lemma_flag_name_round_trip(ModifierFlag::IsoLevel3Shift);
    lemma_flag_name_round_trip(ModifierFlag::IsoLevel5Shift);
    lemma_flag_name_round_trip(ModifierFlag::HyperL);
    lemma_flag_name_round_trip(ModifierFlag::HyperR);
}

/// Compares two string slices by their characters.
fn str_eq(a: &str, b: &str) -> (r: bool)
    ensures
        r == (a@ == b@),
{
    let x = a.to_owned();
    let y = b.to_owned();
    x == y
}

impl ModifierFlag {
    /// The flag known under `name`, compared exactly.
    pub fn from_name(name: &str) -> (r: Option<ModifierFlag>)
        ensures
            r == flag_named(name@),
    {
        if str_eq(name, "Shift_L") {
            Some(ModifierFlag::ShiftL)
        } else if str_eq(name, "Shift_R") {
            Some(ModifierFlag::ShiftR)
        } else if str_eq(name, "Control_L") {
            Some(ModifierFlag::ControlL)
        } else if str_eq(name, "Control_R") {
            Some(ModifierFlag::ControlR)
        } else if str_eq(name, "Alt_L") {
            Some(ModifierFlag::AltL)
        } else if str_eq(name, "Alt_R") {
            Some(ModifierFlag::AltR)
        } else if str_eq(name, "Super_L") {
            Some(ModifierFlag::SuperL)
        } else if str_eq(name, "Super_R") {
            Some(ModifierFlag::SuperR)
        } else if str_eq(name, "ISO_Level3_Shift") {
            Some(ModifierFlag::IsoLevel3Shift)
        } else if str_eq(name, "ISO_Level5_Shift") {
            Some(ModifierFlag::IsoLevel5Shift)
        } else if str_eq(name, "Hyper_L") {
            Some(ModifierFlag::HyperL)
        } else if str_eq(name, "Hyper_R") {
            Some(ModifierFlag::HyperR)
        } else {
            None
        }
    }

    pub fn bit(&self) -> (r: u16)
        ensures
            r == flag_bit(*self),
    {
        match self {
            ModifierFlag::ShiftL => 0x001,
            ModifierFlag::ShiftR => 0x002,
            ModifierFlag::ControlL => 0x004,
            ModifierFlag::ControlR => 0x008,
            ModifierFlag::AltL => 0x010,
            ModifierFlag::AltR => 0x020,
            ModifierFlag::SuperL => 0x040,
            ModifierFlag::SuperR => 0x080,
            ModifierFlag::IsoLevel3Shift => 0x100,
            ModifierFlag::IsoLevel5Shift => 0x200,
            ModifierFlag::HyperL => 0x400,
            ModifierFlag::HyperR => 0x800,
        }
    }
}

/// A set of modifier flags, stored as bits; only the twelve defined bits can be set.
#[derive(Debug, Clone, Copy, PartialEq, Eq, Structural)]
pub struct Modifier {
    bits: u16,
}

impl View for Modifier {
    type V = u16;

    closed spec fn view(&self) -> u16 {
        self.bits
    }
}

impl Modifier {
    #[verifier::type_invariant]
    closed spec fn inv(self) -> bool {
        valid_bits(self.bits)
    }

    /// The empty set.
    pub fn empty() -> (r: Modifier)
        ensures
            r@ == 0,
    {
        proof {
            lemma_flag_bits_valid();
        }
        Modifier { bits: 0 }
    }

    /// The set that holds exactly one flag.
    pub fn from_flag(f: ModifierFlag) -> (r: Modifier)
        ensures
            r@ == flag_bit(f),
    {
        let b = f.bit();
        proof {
            lemma_flag_bits_valid();
        }
        Modifier { bits: b }
    }

    /// The set named `name` (one flag), compared exactly; `None` for any other name.
    pub fn from_name(name: &str) -> (r: Option<Modifier>)
        ensures
            r is Some <==> flag_named(name@) is Some,
            r matches Some(m) ==> m@ == flag_bit(flag_named(name@)->0),
    {
        match ModifierFlag::from_name(name) {
            Some(f) => Some(Modifier::from_flag(f)),
            None => None,
        }
    }

    /// The raw bits of the set.
    pub fn bits(&self) -> (r: u16)
        ensures
            r == self@,
            valid_bits(r),
    {
        proof {
            use_type_invariant(self);
        }
        self.bits
    }

    /// The set with these bits, when every bit names a defined modifier.
    pub fn from_bits(bits: u16) -> (r: Option<Modifier>)
        ensures
            r is Some <==> valid_bits(bits),
            r matches Some(m) ==> m@ == bits,
    {
        if bits & !ALL_MODIFIER_BITS == 0 {
            Some(Modifier { bits })
        } else {
            None
        }
    }

    /// Reads a modifier set from a script value: `nil` is the empty set, an
    /// integer is taken by its low sixteen bits, which must name defined flags.
    pub fn from_value(value: LuaValue) -> (r: Result<Modifier, TypeError>)
        ensures
            match value {
                LuaValue::Nil => r matches Ok(m) && m@ == 0,
                LuaValue::Integer(bits) => if valid_bits(bits as u16) {
                    r matches Ok(m) && m@ == bits as u16
                } else {
                    r matches Err(e) && e.expected@ == "Modifier (integer)"@ && e.found@
                        == "Invalid (integer)"@
                },
                _ => r matches Err(e) && e.expected@ == "table"@ && e.found@ == lua_kind_name(
                    value,
                ),
            },
    {
        match value {
            LuaValue::Nil => Ok(Modifier::empty()),
            LuaValue::Integer(bits) => match Modifier::from_bits(bits as u16) {
                Some(m) => Ok(m),
                None => Err(TypeError { expected: "Modifier (integer)", found: "Invalid (integer)" }),
            },
            _ => Err(TypeError { found: value.kind_name(), expected: "table" }),
        }
    }

    /// The value a script gets for this set: its bits as an integer.
    pub fn to_value(&self) -> (r: LuaValue)
        ensures
            r == LuaValue::Integer(self@ as i64),
    {
        LuaValue::Integer(self.bits as i64)
    }

    /// Whether no flag is set.
    pub fn is_empty(&self) -> (r: bool)
        ensures
            r == (self@ == 0),
    {
        self.bits == 0
    }

    /// Flips every flag of `other` in `self` (symmetric difference).
    pub fn toggle(&mut self, other: Modifier)
        ensures
            final(self)@ == old(self)@ ^ other@,
    {
        proof {
            use_type_invariant(&*self);
            use_type_invariant(&other);
        }
        let a = self.bits;
        let b = other.bits;
        assert((a ^ b) & !ALL_MODIFIER_BITS == 0) by (bit_vector)
            requires
                a & !ALL_MODIFIER_BITS == 0,
                b & !ALL_MODIFIER_BITS == 0,
        ;
        self.bits = a ^ b;
    }
}

/// Two sets are equal exactly when their bits are.
pub proof fn lemma_modifier_view_injective(a: Modifier, b: Modifier)
    ensures
        (a@ == b@) == (a == b),
{
}

impl MapKey for Modifier {
    fn same_key(&self, other: &Self) -> (r: bool) {
        self.bits == other.bits
    }
}

} // verus!
