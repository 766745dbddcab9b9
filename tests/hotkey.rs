use twiez_macro::hotkey::{
    action_for, parse_key, presence_after, resolve_key, HotkeyAction, HotkeyMonitor, KeyEdge,
    MonitorSlot, PresenceUpdate,
};
use twiez_macro::settings::ActivationMode;

#[test]
fn parse_key_names() {
    assert_eq!(parse_key("F1"), Some(0x70));
    assert_eq!(parse_key("F6"), Some(0x75));
    assert_eq!(parse_key("F10"), Some(0x79));
    assert_eq!(parse_key("F12"), Some(0x7B));
    assert_eq!(parse_key("SPACE"), Some(0x20));
    assert_eq!(parse_key(" "), Some(0x20));
    assert_eq!(parse_key("XBUTTON1"), Some(0x05));
    assert_eq!(parse_key("XBUTTON2"), Some(0x06));
    assert_eq!(parse_key("A"), Some(0x41));
    assert_eq!(parse_key("Z"), Some(0x5A));
    assert_eq!(parse_key("0"), Some(0x30));
    assert_eq!(parse_key("9"), Some(0x39));
}

#[test]
fn parse_key_ignores_case() {
    assert_eq!(parse_key("f6"), Some(0x75));
    assert_eq!(parse_key("q"), Some(0x51));
    assert_eq!(parse_key("space"), Some(0x20));
    assert_eq!(parse_key("xButton2"), Some(0x06));
}

#[test]
fn parse_key_unknown_names() {
    assert_eq!(parse_key(""), None);
    assert_eq!(parse_key("F13"), None);
    assert_eq!(parse_key("F0"), None);
    assert_eq!(parse_key("ENTER"), None);
    assert_eq!(parse_key("!"), None);
}

#[test]
fn resolve_key_falls_back_to_f6() {
    assert_eq!(resolve_key(None), 0x75);
    assert_eq!(resolve_key(Some("nope")), 0x75);
    assert_eq!(resolve_key(Some("f8")), 0x77);
}

#[test]
fn hold_press_then_release_starts_once_and_stops_once() {
    let mut m = HotkeyMonitor::new();
    let samples = [false, true, true, true, false, false];
    let mut actions = Vec::new();
    for d in samples {
        let e = m.poll(true, d);
        actions.push(action_for(e, ActivationMode::Hold));
    }
    assert_eq!(actions.iter().filter(|a| **a == HotkeyAction::Start).count(), 1);
    assert_eq!(actions.iter().filter(|a| **a == HotkeyAction::Stop).count(), 1);
    assert_eq!(actions[1], HotkeyAction::Start);
    assert_eq!(actions[4], HotkeyAction::Stop);
}

#[test]
fn toggle_press_then_release_toggles_once_on_press() {
    let mut m = HotkeyMonitor::new();
    let samples = [true, true, false, false];
    let mut actions = Vec::new();
    for d in samples {
        let e = m.poll(true, d);
        actions.push(action_for(e, ActivationMode::Toggle));
    }
    assert_eq!(
        actions,
        vec![HotkeyAction::Toggle, HotkeyAction::Nothing, HotkeyAction::Nothing, HotkeyAction::Nothing]
    );
}

#[test]
fn disarmed_polls_are_inert_and_keep_state() {
    let mut m = HotkeyMonitor::new();
    assert_eq!(m.poll(false, true), KeyEdge::Inert);
    assert_eq!(m.poll(true, true), KeyEdge::Press);
    assert_eq!(m.poll(false, false), KeyEdge::Inert);
    assert_eq!(m.poll(true, true), KeyEdge::Steady);
    assert_eq!(m.poll(true, false), KeyEdge::Release);
}

#[test]
fn presence_after_actions() {
    assert_eq!(presence_after(HotkeyAction::Toggle, true), PresenceUpdate::Active);
    assert_eq!(presence_after(HotkeyAction::Toggle, false), PresenceUpdate::Idle);
    assert_eq!(presence_after(HotkeyAction::Start, false), PresenceUpdate::Active);
    assert_eq!(presence_after(HotkeyAction::Stop, true), PresenceUpdate::Idle);
    assert_eq!(presence_after(HotkeyAction::Nothing, true), PresenceUpdate::Unchanged);
}

#[test]
fn reregistering_retires_previous_monitor() {
    let mut slot = MonitorSlot::new();
    assert!(!slot.retire());
    slot.install();
    assert!(slot.retire());
    slot.install();
    assert!(slot.retire());
    assert!(!slot.retire());
}
