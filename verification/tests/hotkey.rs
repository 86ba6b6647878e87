use awesome_clicker::hotkey::{HotkeyConfig, HotkeyEvent, HotkeyKey, HotkeyListener};

#[test]
fn key_names() {
    let names: Vec<&str> = HotkeyKey::all().into_iter().map(|k| k.name()).collect();
    assert_eq!(
        names,
        vec!["F1", "F2", "F3", "F4", "F5", "F6", "F7", "F8", "F9", "F10", "F11", "F12"]
    );
}

#[test]
fn picker_labels() {
    assert_eq!(HotkeyKey::F6.picker_label(true), "F6 (in use)");
    assert_eq!(HotkeyKey::F11.picker_label(false), "F11");
}

#[test]
fn default_hotkeys() {
    let c = HotkeyConfig::default();
    assert_eq!(c.toggle_key, HotkeyKey::F8);
    assert_eq!(c.capture_key, HotkeyKey::F6);
}

#[test]
fn hotkeys_cannot_share_a_key() {
    let mut c = HotkeyConfig::default();
    assert!(!c.key_available(true, HotkeyKey::F6));
    assert!(c.key_available(true, HotkeyKey::F8));
    assert!(!c.key_available(false, HotkeyKey::F8));
    assert!(!c.choose_toggle_key(HotkeyKey::F6));
    assert_eq!(c.toggle_key, HotkeyKey::F8);
    assert!(!c.choose_capture_key(HotkeyKey::F8));
    assert_eq!(c.capture_key, HotkeyKey::F6);
    assert!(c.choose_toggle_key(HotkeyKey::F1));
    assert_eq!(c.toggle_key, HotkeyKey::F1);
    assert!(c.choose_capture_key(HotkeyKey::F8));
    assert_eq!(c.capture_key, HotkeyKey::F8);
    assert!(!c.choose_capture_key(HotkeyKey::F8));
}

#[test]
fn listener_turns_keys_into_events() {
    let c = HotkeyConfig::default();
    let mut l = HotkeyListener::new();
    assert_eq!(l.on_key_press(HotkeyKey::F6, &c), Some(HotkeyEvent::Capture { x: 0, y: 0 }));
    l.on_mouse_move(640, -3);
    assert_eq!(l.on_key_press(HotkeyKey::F8, &c), Some(HotkeyEvent::Toggle));
    assert_eq!(l.on_key_press(HotkeyKey::F6, &c), Some(HotkeyEvent::Capture { x: 640, y: -3 }));
    assert_eq!(l.on_key_press(HotkeyKey::F2, &c), None);
}
