use strata::lua_value::LuaValue;
use strata::modifier::{Modifier, ModifierFlag};

#[test]
fn from_name_finds_each_flag() {
    let names = [
        ("Shift_L", 0x001u16),
        ("Shift_R", 0x002),
        ("Control_L", 0x004),
        ("Control_R", 0x008),
        ("Alt_L", 0x010),
        ("Alt_R", 0x020),
        ("Super_L", 0x040),
        ("Super_R", 0x080),
        ("ISO_Level3_Shift", 0x100),
        ("ISO_Level5_Shift", 0x200),
        ("Hyper_L", 0x400),
        ("Hyper_R", 0x800),
    ];
    for (name, bits) in names {
        assert_eq!(Modifier::from_name(name).map(|m| m.bits()), Some(bits), "{}", name);
    }
}

#[test]
fn from_name_is_exact() {
    assert_eq!(Modifier::from_name("shift_l"), None);
    assert_eq!(Modifier::from_name("Shift"), None);
    assert_eq!(Modifier::from_name(""), None);
    assert_eq!(Modifier::from_name("Meta_L"), None);
    assert_eq!(ModifierFlag::from_name("Hyper_R"), Some(ModifierFlag::HyperR));
}

#[test]
fn from_bits_accepts_only_defined_bits() {
    assert_eq!(Modifier::from_bits(0x0fff).map(|m| m.bits()), Some(0x0fff));
    assert_eq!(Modifier::from_bits(0).map(|m| m.bits()), Some(0));
    assert_eq!(Modifier::from_bits(0x1000), None);
    assert_eq!(Modifier::from_bits(0x8001), None);
}

#[test]
fn toggle_is_symmetric_difference() {
    let mut m = Modifier::from_bits(0b0101).unwrap();
    m.toggle(Modifier::from_bits(0b0011).unwrap());
    assert_eq!(m.bits(), 0b0110);
    m.toggle(Modifier::from_bits(0b0011).unwrap());
    assert_eq!(m.bits(), 0b0101);
    assert!(!m.is_empty());
    assert!(Modifier::empty().is_empty());
}

#[test]
fn from_value_nil_is_empty() {
    assert_eq!(Modifier::from_value(LuaValue::Nil).unwrap().bits(), 0);
}

#[test]
fn from_value_integer() {
    let shift_ctrl = Modifier::from_value(LuaValue::Integer(0x005)).unwrap();
    assert_eq!(shift_ctrl.bits(), 0x005);
    // only the low sixteen bits are read
    let wrapped = Modifier::from_value(LuaValue::Integer(0x1_0000 + 0x040)).unwrap();
    assert_eq!(wrapped.bits(), 0x040);
}

#[test]
fn from_value_rejects_undefined_bits() {
    let e = Modifier::from_value(LuaValue::Integer(0x1000)).unwrap_err();
    assert_eq!(e.expected, "Modifier (integer)");
    assert_eq!(e.found, "Invalid (integer)");
    let e = Modifier::from_value(LuaValue::Integer(-1)).unwrap_err();
    assert_eq!(e.found, "Invalid (integer)");
}

#[test]
fn from_value_rejects_other_types() {
    let e = Modifier::from_value(LuaValue::String).unwrap_err();
    assert_eq!(e.expected, "table");
    assert_eq!(e.found, "string");
    let e = Modifier::from_value(LuaValue::Table).unwrap_err();
    assert_eq!(e.found, "table");
    let e = Modifier::from_value(LuaValue::Boolean(true)).unwrap_err();
    assert_eq!(e.found, "boolean");
    let e = Modifier::from_value(LuaValue::Number).unwrap_err();
    assert_eq!(e.found, "number");
}

#[test]
fn modifier_value_reads_back() {
    let m = Modifier::from_name("Super_R").unwrap();
    let back = Modifier::from_value(LuaValue::Integer(m.bits() as i64)).unwrap();
    assert_eq!(back, m);
}

#[test]
fn kind_names() {
    assert_eq!(LuaValue::Nil.kind_name(), "nil");
    assert_eq!(LuaValue::Integer(3).kind_name(), "number");
    assert_eq!(LuaValue::Function.kind_name(), "function");
    assert_eq!(LuaValue::Thread.kind_name(), "thread");
    assert_eq!(LuaValue::UserData.kind_name(), "userdata");
}
