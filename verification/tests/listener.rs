//! The push-to-talk key across keyboards.

use murmur::controller::Event;
use murmur::keyboards::{
    beat, heartbeat_age, key_found, keyboard_caps, missing_key_warning, parse_key,
    supervisor_stopped, Found, Listener, KEY_A, KEY_RIGHTALT, KEY_Z,
};

fn name(ev: Option<Event>) -> String {
    match ev {
        None => "-".to_string(),
        Some(Event::HotkeyDown) => "down".to_string(),
        Some(Event::HotkeyUp) => "up".to_string(),
        Some(Event::OtherKey) => "other".to_string(),
        Some(Event::KeyboardsOk) => "ok".to_string(),
        Some(Event::KeyboardsMissing(msg)) => msg,
        Some(_) => "?".to_string(),
    }
}

fn open(l: &mut Listener, device: &str, keys: Vec<u16>) -> bool {
    let mut scan = l.begin_scan();
    l.opened(&mut scan, device, Found::Keys(Some(keys)))
}

fn scan(l: &mut Listener, denied: bool) -> String {
    let mut s = l.begin_scan();
    if denied {
        assert!(!l.opened(&mut s, "event9", Found::Denied));
    }
    assert!(!l.opened(&mut s, "event8", Found::Failed));
    name(l.end_scan(&s))
}

#[test]
fn keys_have_codes() {
    assert_eq!(parse_key("KEY_RIGHTALT"), 100);
    assert_eq!(parse_key("KEY_F13"), 183);
    assert_eq!(parse_key("KEY_A"), 30);
    assert_eq!(parse_key("KEY_NONSENSE"), KEY_RIGHTALT);
    assert_eq!(parse_key(""), KEY_RIGHTALT);
    assert_eq!(key_found(Some(7)), 7);
    assert_eq!(key_found(None), KEY_RIGHTALT);
    assert_eq!(evdev::KeyCode::KEY_RIGHTALT.code(), KEY_RIGHTALT);
    assert_eq!(evdev::KeyCode::KEY_A.code(), KEY_A);
    assert_eq!(evdev::KeyCode::KEY_Z.code(), KEY_Z);
}

#[test]
fn press_and_release() {
    let mut l = Listener::new(100);
    assert_eq!(l.hotkey(), 100);
    assert_eq!(name(l.key_event("event1", 100, 100, 1)), "down");
    assert_eq!(name(l.key_event("event1", 100, 100, 2)), "-");
    assert_eq!(name(l.key_event("event1", 100, 100, 1)), "-");
    assert_eq!(name(l.key_event("event1", 100, 100, 0)), "up");
    assert_eq!(name(l.key_event("event1", 100, 100, 0)), "-");
}

#[test]
fn two_keyboards_hold_one_key() {
    let mut l = Listener::new(100);
    assert_eq!(name(l.key_event("event1", 100, 100, 1)), "down");
    assert_eq!(name(l.key_event("event2", 100, 100, 1)), "-");
    assert_eq!(name(l.key_event("event1", 100, 100, 0)), "-");
    assert_eq!(name(l.key_event("event2", 100, 100, 0)), "up");
}

#[test]
fn other_keys_count_only_while_held() {
    let mut l = Listener::new(100);
    assert_eq!(name(l.key_event("event1", 100, 30, 1)), "-");
    l.key_event("event1", 100, 100, 1);
    assert_eq!(name(l.key_event("event2", 100, 30, 1)), "other");
    assert_eq!(name(l.key_event("event2", 100, 30, 0)), "-");
    assert_eq!(name(l.key_event("event2", 100, 0xff, 1)), "other");
    assert_eq!(name(l.key_event("event2", 100, 0x100, 1)), "-");
}

#[test]
fn vanished_keyboards_let_go() {
    let mut l = Listener::new(100);
    assert!(open(&mut l, "event1", vec![30, 44, 100]));
    assert!(!l.wants("event1"));
    l.key_event("event1", 100, 100, 1);
    assert_eq!(name(l.device_gone("event1")), "up");
    assert!(l.wants("event1"));
    assert_eq!(name(l.device_gone("event1")), "-");
    l.key_event("event1", 100, 100, 1);
    l.key_event("event2", 100, 100, 1);
    assert_eq!(name(l.device_gone("event1")), "-");
    assert_eq!(name(l.device_gone("event2")), "up");
}

#[test]
fn a_new_key_lets_go_of_the_old() {
    let mut l = Listener::new(100);
    assert_eq!(name(l.set_key(97)), "-");
    l.key_event("event1", 97, 97, 1);
    assert_eq!(name(l.set_key(100)), "up");
    assert_eq!(name(l.key_event("event1", 100, 97, 0)), "-");
    assert_eq!(name(l.key_event("event1", 100, 100, 1)), "down");
}

#[test]
fn devices_worth_opening() {
    let l = Listener::new(100);
    assert!(l.wants("event0"));
    assert!(!l.wants("mouse0"));
    assert!(!l.wants("by-path"));
    assert!(!l.wants("even"));
}

#[test]
fn devices_worth_listening_to() {
    assert_eq!(keyboard_caps(Some(vec![30, 44]), 100), Some(vec![30, 44]));
    assert_eq!(keyboard_caps(Some(vec![100]), 100), Some(vec![100]));
    assert_eq!(keyboard_caps(Some(vec![30]), 100), None);
    assert_eq!(keyboard_caps(Some(vec![]), 100), None);
    assert_eq!(keyboard_caps(None, 100), None);
    let mut l = Listener::new(100);
    assert!(!open(&mut l, "event1", vec![1, 2]));
    assert!(l.wants("event1"));
}

#[test]
fn problems_are_told_once() {
    let mut l = Listener::new(100);
    assert_eq!(scan(&mut l, false), "No keyboard found.");
    assert_eq!(scan(&mut l, false), "-");
    assert_eq!(
        scan(&mut l, true),
        "Can't read keyboards. Add yourself to the input group: sudo usermod -aG input $USER, then log out and in."
    );
    open(&mut l, "event1", vec![30, 44]);
    assert_eq!(
        scan(&mut l, true),
        "No connected keyboard has a Right Alt key. Pick another in Settings."
    );
    open(&mut l, "event2", vec![100]);
    assert_eq!(scan(&mut l, true), "ok");
    assert_eq!(scan(&mut l, false), "-");
    l.device_gone("event2");
    l.set_key(183);
    assert_eq!(
        scan(&mut l, false),
        "No connected keyboard has a F13 key. Pick another in Settings."
    );
    assert_eq!(
        missing_key_warning("KEY_LEFTMETA"),
        "No connected keyboard has a Left Super key. Pick another in Settings."
    );
}

#[test]
fn a_good_first_scan_says_nothing() {
    let mut l = Listener::new(100);
    open(&mut l, "event1", vec![30, 44, 100]);
    assert_eq!(scan(&mut l, false), "-");
}

#[test]
fn heartbeats_age() {
    assert_eq!(heartbeat_age(0, 500), None);
    assert_eq!(beat(0), 1);
    assert_eq!(heartbeat_age(beat(0), 0), Some(0));
    assert_eq!(heartbeat_age(beat(100), 350), Some(250));
    assert_eq!(heartbeat_age(beat(100), 50), Some(0));
    assert!(!supervisor_stopped(0, 1_000_000));
    assert!(!supervisor_stopped(beat(0), 20_000));
    assert!(supervisor_stopped(beat(0), 20_001));
}
