use appium_client::commands::keyboard::{AndroidKey, AndroidKeyFlag, AndroidKeyMetaModifier, KeyEvent};

#[test]
fn new_key_event_is_plain() {
    let e = KeyEvent::new(AndroidKey::Home);
    assert_eq!(e, KeyEvent { keycode: AndroidKey::Home, metastate: 0, flags: 0 });
    let f: KeyEvent = AndroidKey::Home.into();
    assert_eq!(e, f);
}

#[test]
fn meta_modifiers_are_added_and_removed() {
    let shift = AndroidKeyMetaModifier::from_bits_retain(AndroidKeyMetaModifier::SHIFT_ON);
    let ctrl = AndroidKeyMetaModifier::from_bits_retain(AndroidKeyMetaModifier::CTRL_ON);
    let mut e = KeyEvent::new(AndroidKey::A).with_metamodifier(shift);
    assert_eq!(e.metastate, 0x1);
    e.add_metamodifier(ctrl);
    assert_eq!(e.metastate, 0x1001);
    e.remove_metamodifier(shift);
    assert_eq!(e.metastate, 0x1000);
    assert_eq!(e.flags, 0);
}

#[test]
fn flags_are_added_and_removed() {
    let soft = AndroidKeyFlag::from_bits_retain(AndroidKeyFlag::SOFT_KEYBOARD);
    let tainted = AndroidKeyFlag::from_bits_retain(AndroidKeyFlag::TAINTED);
    let mut e = KeyEvent::new(AndroidKey::Enter).with_flag(soft);
    assert_eq!(e.flags, 0x2);
    e.add_flag(tainted);
    assert_eq!(e.flags, 0x8000_0002);
    e.remove_flag(soft);
    assert_eq!(e.flags, 0x8000_0000);
    assert_eq!(tainted.bits(), 0x8000_0000);
}

#[test]
fn key_codes() {
    assert_eq!(AndroidKey::Unknown.code(), 0);
    assert_eq!(AndroidKey::Home.code(), 3);
    assert_eq!(AndroidKey::Back.code(), 4);
    assert_eq!(AndroidKey::Paste.code(), 279);
}
