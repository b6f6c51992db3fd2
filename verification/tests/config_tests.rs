use strata::config::{
    StrataConfig, StrataInputConfig, StrataRepeatInfoConfig, StrataXkbConfig, XkbOverrides,
};
use strata::keyboard::{Key, KeyPattern};
use strata::modifier::Modifier;

fn xkb(layout: &str) -> StrataXkbConfig {
    StrataXkbConfig {
        layout: layout.to_string(),
        rules: String::new(),
        model: String::new(),
        options: None,
        variant: String::new(),
    }
}

#[test]
fn repeat_info_default() {
    let r = StrataRepeatInfoConfig::default();
    assert_eq!((r.rate, r.delay), (20, 200));
}

#[test]
fn repeat_info_effective() {
    let r = StrataRepeatInfoConfig::default();
    assert_eq!(r.effective(None, None), (20, 200));
    assert_eq!(r.effective(Some(-30), None), (30, 200));
    assert_eq!(r.effective(None, Some(-500)), (20, 500));
    assert_eq!(r.effective(Some(0), Some(i32::MAX)), (0, i32::MAX));
    let neg = StrataRepeatInfoConfig { rate: -5, delay: -6 };
    assert_eq!(neg.effective(None, None), (5, 6));
}

#[test]
fn input_config_default() {
    let c: StrataInputConfig<u8> = StrataInputConfig::default();
    assert_eq!((c.repeat_info.rate, c.repeat_info.delay), (20, 200));
    let x = c.xkbconfig.as_ref().unwrap();
    assert_eq!(x.layout, "it");
    assert_eq!(x.rules, "");
    assert_eq!(x.model, "");
    assert_eq!(x.options.as_deref(), Some("caps:swapescape"));
    assert_eq!(x.variant, "");
    assert_eq!(c.global_keybinds.len(), 0);
    assert_eq!(c.global_mousebinds.len(), 0);
    let s: StrataConfig<u8> = StrataConfig::default();
    assert_eq!(s.input_config.xkbconfig.unwrap().layout, "it");
}

#[test]
fn xkb_config_default_is_empty() {
    let x = StrataXkbConfig::default();
    assert_eq!(x.layout, "");
    assert_eq!(x.options, None);
}

#[test]
fn keybind_registers_chord() {
    let mut c: StrataInputConfig<u8> = StrataInputConfig::default();
    let m = Modifier::from_name("Super_L").unwrap();
    c.keybind(m, Key::new(0x71), 1);
    c.keybind(m, Key::new(0x71), 2);
    c.keybind(Modifier::empty(), Key::new(0x71), 3);
    assert_eq!(c.global_keybinds.len(), 2);
    assert_eq!(c.global_keybinds.get(&KeyPattern { modifier: m, key: Key::new(0x71) }), Some(&2));
    assert_eq!(c.global_mousebinds.len(), 0);
}

#[test]
fn overrides_replace_given_settings() {
    let mut x = xkb("it");
    x.options = Some("caps:swapescape".to_string());
    x.apply_overrides(XkbOverrides {
        layout: Some("us".to_string()),
        rules: None,
        model: Some("pc105".to_string()),
        options: Some("ctrl:nocaps".to_string()),
        variant: None,
    });
    assert_eq!(x.layout, "us");
    assert_eq!(x.rules, "");
    assert_eq!(x.model, "pc105");
    assert_eq!(x.options.as_deref(), Some("ctrl:nocaps"));
    assert_eq!(x.variant, "");

    let mut y = xkb("de");
    y.apply_overrides(XkbOverrides { layout: None, rules: None, model: None, options: Some("grp:alt".to_string()), variant: Some("nodeadkeys".to_string()) });
    assert_eq!(y.layout, "de");
    assert_eq!(y.options.as_deref(), Some("grp:alt"));
    assert_eq!(y.variant, "nodeadkeys");
}

#[test]
fn update_success_puts_settings_back() {
    let mut slot = Some(xkb("it"));
    let mut applied = Vec::new();
    let r: Result<(), String> = StrataXkbConfig::update(
        &mut slot,
        |c| Ok(c.map(|mut c| {
            c.layout = "fr".to_string();
            c
        })),
        |c| {
            applied.push(c.layout.clone());
            Ok(())
        },
    );
    assert_eq!(r, Ok(()));
    assert_eq!(slot.unwrap().layout, "fr");
    assert_eq!(applied, vec!["fr".to_string()]);
}

#[test]
fn update_edit_error_empties_slot() {
    let mut slot = Some(xkb("it"));
    let r: Result<(), String> =
        StrataXkbConfig::update(&mut slot, |_| Err("bad".to_string()), |_| Ok(()));
    assert_eq!(r, Err("bad".to_string()));
    assert!(slot.is_none());
}

#[test]
fn update_apply_error_empties_slot() {
    let mut slot = Some(xkb("it"));
    let r: Result<(), String> =
        StrataXkbConfig::update(&mut slot, |c| Ok(c), |_| Err("invalid keymap".to_string()));
    assert_eq!(r, Err("invalid keymap".to_string()));
    assert!(slot.is_none());
}

#[test]
fn update_of_empty_slot_skips_apply() {
    let mut slot: Option<StrataXkbConfig> = None;
    let mut calls = 0;
    let r: Result<(), String> = StrataXkbConfig::update(
        &mut slot,
        |c| {
            assert!(c.is_none());
            Ok(c)
        },
        |_| {
            calls += 1;
            Ok(())
        },
    );
    assert_eq!(r, Ok(()));
    assert!(slot.is_none());
    assert_eq!(calls, 0);
}
