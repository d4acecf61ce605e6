use menubar::accel::{AccelEntry, AccelParseError, Accelerator, Modifiers, accel_entry};
use menubar::keycode::KeyCode;

fn mods(ctrl: bool, shift: bool, alt: bool, meta: bool) -> Modifiers {
    Modifiers { ctrl, shift, alt, meta }
}

#[test]
fn parse_simple_chord() {
    let a = Accelerator::parse("Ctrl+S").unwrap();
    assert_eq!(a, Accelerator { mods: mods(true, false, false, false), key: KeyCode::KeyS });
}

#[test]
fn parse_is_case_insensitive() {
    let a = Accelerator::parse("cTrL+sHiFt+z").unwrap();
    assert_eq!(a, Accelerator { mods: mods(true, true, false, false), key: KeyCode::KeyZ });
    let b = Accelerator::parse("CMD+ALT+DELETE").unwrap();
    assert_eq!(b, Accelerator { mods: mods(false, false, true, true), key: KeyCode::Delete });
}

#[test]
fn parse_accepts_any_modifier_order() {
    let a = Accelerator::parse("Shift+Ctrl+Z").unwrap();
    assert_eq!(a, Accelerator { mods: mods(true, true, false, false), key: KeyCode::KeyZ });
}

#[test]
fn parse_named_and_function_keys() {
    assert_eq!(Accelerator::parse("F5").unwrap().key, KeyCode::F5);
    assert_eq!(Accelerator::parse("F12").unwrap().key, KeyCode::F12);
    assert_eq!(Accelerator::parse("Enter").unwrap().key, KeyCode::Enter);
    assert_eq!(Accelerator::parse("space").unwrap().key, KeyCode::Space);
    assert_eq!(Accelerator::parse("Backspace").unwrap().key, KeyCode::Backspace);
    assert_eq!(Accelerator::parse("1").unwrap().key, KeyCode::Digit1);
    assert_eq!(Accelerator::parse("f").unwrap().key, KeyCode::KeyF);
}

#[test]
fn parse_rejects_unknown_modifier() {
    assert_eq!(Accelerator::parse("Foo+S"), Err(AccelParseError::UnrecognizedModifier));
    assert_eq!(Accelerator::parse("Ctrl+Win+S"), Err(AccelParseError::UnrecognizedModifier));
}

#[test]
fn parse_rejects_unknown_key() {
    assert_eq!(Accelerator::parse("Ctrl+Blah"), Err(AccelParseError::UnrecognizedKey));
    assert_eq!(Accelerator::parse("Ctrl+F13"), Err(AccelParseError::UnrecognizedKey));
    assert_eq!(Accelerator::parse("Ctrl+"), Err(AccelParseError::UnrecognizedKey));
    assert_eq!(Accelerator::parse(""), Err(AccelParseError::UnrecognizedKey));
}

#[test]
fn render_uses_fixed_modifier_order() {
    let a = Accelerator::new(mods(true, true, false, false), KeyCode::KeyZ);
    assert_eq!(a.render(), "Ctrl+Shift+Z");
    let b = Accelerator::new(mods(true, false, true, true), KeyCode::F2);
    assert_eq!(b.render(), "Ctrl+Alt+Cmd+F2");
    let c = Accelerator::new(mods(false, false, false, false), KeyCode::Enter);
    assert_eq!(c.render(), "Enter");
}

#[test]
fn parse_render_roundtrip_over_supported_set() {
    let keys = [
        KeyCode::KeyA,
        KeyCode::KeyQ,
        KeyCode::KeyZ,
        KeyCode::Digit0,
        KeyCode::Digit9,
        KeyCode::F1,
        KeyCode::F9,
        KeyCode::F10,
        KeyCode::F12,
        KeyCode::Space,
        KeyCode::Enter,
        KeyCode::Tab,
        KeyCode::Escape,
        KeyCode::Delete,
        KeyCode::Backspace,
    ];
    for mask in 0u32..16 {
        let m = mods(mask & 1 != 0, mask & 2 != 0, mask & 4 != 0, mask & 8 != 0);
        for key in keys {
            let a = Accelerator::new(m, key);
            let rendered = a.render();
            let parsed = Accelerator::parse(rendered.as_str()).unwrap();
            assert_eq!(parsed, a);
            assert_eq!(parsed.render(), rendered);
        }
    }
}

#[test]
fn accel_table_entry_encodes_chord() {
    let a = Accelerator::new(mods(true, false, false, false), KeyCode::KeyS);
    let e = accel_entry(&a, 1000);
    assert_eq!(e, AccelEntry { flags: 0x01 | 0x08, vk: 0x53, cmd: 1000 });
    let b = Accelerator::new(mods(true, true, true, false), KeyCode::F1);
    let e2 = accel_entry(&b, 1001);
    assert_eq!(e2, AccelEntry { flags: 0x01 | 0x08 | 0x04 | 0x10, vk: 0x70, cmd: 1001 });
}

#[test]
fn mac_rendering_uses_glyphs_in_mac_order() {
    let a = Accelerator::new(mods(true, true, false, false), KeyCode::KeyZ);
    assert_eq!(a.render_mac(), "\u{2303}\u{21e7}Z");
    let b = Accelerator::new(mods(false, true, true, true), KeyCode::KeyS);
    assert_eq!(b.render_mac(), "\u{2325}\u{21e7}\u{2318}S");
    let c = Accelerator::new(mods(false, false, false, false), KeyCode::F3);
    assert_eq!(c.render_mac(), "F3");
}
