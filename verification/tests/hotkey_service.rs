use std::cell::Cell;
use std::cell::RefCell;
use std::rc::Rc;

use livesplit_hotkey::DebounceState;
use livesplit_hotkey::Error;
use livesplit_hotkey::Key;
use livesplit_hotkey::KeyCode;
use livesplit_hotkey::PumpDirective;
use livesplit_hotkey::RegistrationTable;
use livesplit_hotkey::MSG_EXIT;
use livesplit_hotkey::{pump_step, startup_outcome, startup_report};

type Callback = Box<dyn Fn()>;

#[test]
fn press_repeat_scenario() {
    // Three raw presses with no release in between fire the callback once;
    // a release followed by another press fires it a second time.
    let mut table: RegistrationTable<Callback> = RegistrationTable::new();
    let count = Rc::new(Cell::new(0u32));
    let counter = count.clone();
    table
        .register(Key::Press(KeyCode::A), Box::new(move || counter.set(counter.get() + 1)))
        .unwrap();

    let mut state = DebounceState::new();
    let raw_a: u32 = 0x41;
    for _ in 0..3 {
        if let Some(ev) = state.on_raw_transition(raw_a, true) {
            if let Some(cb) = table.lookup(ev) {
                cb();
            }
        }
    }
    assert_eq!(count.get(), 1);

    if let Some(ev) = state.on_raw_transition(raw_a, false) {
        if let Some(cb) = table.lookup(ev) {
            cb();
        }
    }
    if let Some(ev) = state.on_raw_transition(raw_a, true) {
        if let Some(cb) = table.lookup(ev) {
            cb();
        }
    }
    assert_eq!(count.get(), 2);
}

#[test]
fn press_and_release_fire_in_order() {
    // With both directions registered, a press then a release fire both
    // callbacks exactly once, in that order.
    let log = Rc::new(RefCell::new(Vec::new()));
    let mut table: RegistrationTable<Callback> = RegistrationTable::new();
    let press_log = log.clone();
    table
        .register(Key::Press(KeyCode::A), Box::new(move || press_log.borrow_mut().push("press")))
        .unwrap();
    let release_log = log.clone();
    table
        .register(
            Key::Release(KeyCode::A),
            Box::new(move || release_log.borrow_mut().push("release")),
        )
        .unwrap();

    let mut state = DebounceState::new();
    for down in [true, false] {
        if let Some(ev) = state.on_transition(KeyCode::A, down) {
            if let Some(cb) = table.lookup(ev) {
                cb();
            }
        }
    }
    assert_eq!(*log.borrow(), vec!["press", "release"]);
}

#[test]
fn duplicate_registration_keeps_first_callback() {
    // A second registration of the same hotkey fails and the first callback
    // remains active.
    let mut table: RegistrationTable<Callback> = RegistrationTable::new();
    let count = Rc::new(Cell::new(0u32));
    let first = count.clone();
    table
        .register(Key::Press(KeyCode::A), Box::new(move || first.set(first.get() + 1)))
        .unwrap();
    let second = table.register(Key::Press(KeyCode::A), Box::new(|| panic!("shadowed")));
    assert_eq!(second, Err(Error::AlreadyRegistered));

    let mut state = DebounceState::new();
    if let Some(ev) = state.on_transition(KeyCode::A, true) {
        if let Some(cb) = table.lookup(ev) {
            cb();
        }
    }
    assert_eq!(count.get(), 1);
}

#[test]
fn unregister_without_registration_fails() {
    // Unregistering a hotkey that was never registered fails with
    // `NotRegistered` and leaves the table as it was.
    let mut table: RegistrationTable<u32> = RegistrationTable::new();
    table.register(Key::Press(KeyCode::F1), 7).unwrap();
    assert_eq!(table.unregister(Key::Release(KeyCode::F1)), Err(Error::NotRegistered));
    assert_eq!(table.unregister(Key::Press(KeyCode::F2)), Err(Error::NotRegistered));
    assert_eq!(table.lookup(Key::Press(KeyCode::F1)), Some(&7));
}

#[test]
fn reregister_after_unregister() {
    // register / register fails, unregister / register succeeds.
    let mut table: RegistrationTable<u32> = RegistrationTable::new();
    let key = Key::Press(KeyCode::NumPad0);
    assert_eq!(table.register(key, 1), Ok(()));
    assert_eq!(table.register(key, 2), Err(Error::AlreadyRegistered));
    assert_eq!(table.unregister(key), Ok(()));
    assert_eq!(table.register(key, 3), Ok(()));
    assert_eq!(table.lookup(key), Some(&3));
}

#[test]
fn key_code_round_trip() {
    let samples = [
        KeyCode::Backspace,
        KeyCode::Space,
        KeyCode::Left,
        KeyCode::Down,
        KeyCode::Digit0,
        KeyCode::A,
        KeyCode::Z,
        KeyCode::NumPad0,
        KeyCode::NumPad9,
        KeyCode::F1,
        KeyCode::F12,
    ];
    for key in samples {
        assert_eq!(KeyCode::from_raw(key.raw_value()), Some(key));
    }
    assert_eq!(KeyCode::Space.raw_value(), 0x20);
    assert_eq!(KeyCode::A.raw_value(), 0x41);
    assert_eq!(KeyCode::NumPad0.raw_value(), 0x60);
    assert_eq!(KeyCode::F12.raw_value(), 0x7b);
}

#[test]
fn unrecognized_raw_codes_are_rejected() {
    assert_eq!(KeyCode::from_raw(0x00), None);
    assert_eq!(KeyCode::from_raw(0x07), None);
    assert_eq!(KeyCode::from_raw(0xfe), None);

    // An unrecognized notification produces nothing and does not disturb the
    // held flags of recognized keys.
    let mut state = DebounceState::new();
    assert_eq!(state.on_raw_transition(0x07, true), None);
    assert_eq!(state.on_raw_transition(0x1_0000, true), None);
    assert_eq!(state.on_raw_transition(0x41, true), Some(Key::Press(KeyCode::A)));
}

#[test]
fn repeat_presses_are_suppressed() {
    let mut state = DebounceState::new();
    assert_eq!(state.on_transition(KeyCode::Space, true), Some(Key::Press(KeyCode::Space)));
    assert_eq!(state.on_transition(KeyCode::Space, true), None);
    assert_eq!(state.on_transition(KeyCode::Space, true), None);
    assert_eq!(state.on_transition(KeyCode::Space, false), Some(Key::Release(KeyCode::Space)));
    assert_eq!(state.on_transition(KeyCode::Space, true), Some(Key::Press(KeyCode::Space)));
}

#[test]
fn releases_are_never_suppressed() {
    // A release with no press on record is still forwarded (a key held
    // before the hook was installed must not get stuck), and two releases
    // in a row are forwarded twice.
    let mut state = DebounceState::new();
    assert_eq!(state.on_transition(KeyCode::B, false), Some(Key::Release(KeyCode::B)));
    assert_eq!(state.on_transition(KeyCode::B, false), Some(Key::Release(KeyCode::B)));
    assert_eq!(state.on_transition(KeyCode::B, true), Some(Key::Press(KeyCode::B)));
}

#[test]
fn distinct_keys_do_not_interfere() {
    let mut state = DebounceState::new();
    assert_eq!(state.on_transition(KeyCode::A, true), Some(Key::Press(KeyCode::A)));
    assert_eq!(state.on_transition(KeyCode::B, true), Some(Key::Press(KeyCode::B)));
    assert_eq!(state.on_transition(KeyCode::A, true), None);
    assert_eq!(state.on_transition(KeyCode::B, false), Some(Key::Release(KeyCode::B)));
    assert_eq!(state.on_transition(KeyCode::A, true), None);
}

#[test]
fn pump_recognizes_shutdown_and_failure() {
    assert!(matches!(pump_step(MSG_EXIT, 1), PumpDirective::Exit));
    assert!(matches!(pump_step(MSG_EXIT, -1), PumpDirective::Exit));
    assert!(matches!(pump_step(0x100, -1), PumpDirective::Fail));
    assert!(matches!(pump_step(0x100, 0), PumpDirective::Continue));
    assert!(matches!(pump_step(0x101, 1), PumpDirective::Continue));
}

#[test]
fn startup_signals_map_to_errors() {
    assert_eq!(startup_report(true, 42), Ok(42));
    assert_eq!(startup_report(false, 42), Err(Error::WindowsHook));
    assert_eq!(startup_outcome(Some(Ok(7))), Ok(7));
    assert_eq!(startup_outcome(Some(Err(Error::WindowsHook))), Err(Error::WindowsHook));
    assert_eq!(startup_outcome(Some(Err(Error::MessageLoop))), Err(Error::MessageLoop));
    assert_eq!(startup_outcome(None), Err(Error::ThreadStopped));
}
