use twiez_macro::engine::{EngineCommand, EngineError, MacroEngine, MacroStatus};
use twiez_macro::settings::{MacroButton, MacroSettings};

fn limited_settings() -> MacroSettings {
    let mut s = MacroSettings::default();
    s.min_cps = 8;
    s.max_cps = 12;
    s.randomize_cps = true;
    s.randomization = 1800;
    s.click_limit_enabled = true;
    s.click_limit = 5;
    s
}

#[test]
fn new_engine_is_idle_with_default_status() {
    let e = MacroEngine::new();
    let st = e.status();
    assert!(!st.running);
    assert!(!st.armed);
    assert_eq!(st.min_cps, 8);
    assert_eq!(st.max_cps, 12);
    assert_eq!(st.button, MacroButton::Left);
    assert_eq!(st.randomization, 1800);
    assert_eq!(st.duty_cycle, 5000);
    assert!(!e.is_armed());
    assert!(!e.is_running());
}

#[test]
fn arm_and_disarm_are_idempotent() {
    let mut e = MacroEngine::new();
    let a1 = e.arm();
    let a2 = e.arm();
    assert!(a1.armed);
    assert_eq!(a1, a2);
    assert!(e.is_armed());
    let d1 = e.disarm();
    let d2 = e.disarm();
    assert!(!d1.armed);
    assert_eq!(d1, d2);
    assert!(!e.is_armed());
    assert!(!d2.running);
}

#[test]
fn start_while_running_fails_already_running() {
    let mut e = MacroEngine::new();
    let s = MacroSettings::default();
    let st = e.start(&s).unwrap();
    assert!(st.running);
    assert!(e.status().running);
    assert!(matches!(e.start(&s), Err(EngineError::AlreadyRunning)));
    assert!(e.status().running);
}

#[test]
fn stop_while_idle_fails_not_running() {
    let mut e = MacroEngine::new();
    assert!(matches!(e.stop(), Err(EngineError::NotRunning)));
    assert!(!e.status().running);
}

#[test]
fn start_then_stop_reports_each_state() {
    let mut e = MacroEngine::new();
    e.arm();
    let s = limited_settings();
    let started = e.start(&s).unwrap();
    assert!(started.running);
    assert!(started.armed);
    assert_eq!(started.click_limit, 5);
    assert!(started.randomization == 1800);
    let stopped = e.stop().unwrap();
    assert!(!stopped.running);
    assert!(stopped.armed);
    assert_eq!(stopped.click_limit, 5);
    assert!(matches!(e.stop(), Err(EngineError::NotRunning)));
}

#[test]
fn finish_clears_running_without_stop() {
    let mut e = MacroEngine::new();
    e.start(&MacroSettings::default()).unwrap();
    e.finish();
    assert!(!e.status().running);
    assert!(e.start(&MacroSettings::default()).is_ok());
}

#[test]
fn start_is_allowed_while_disarmed() {
    let mut e = MacroEngine::new();
    let st = e.start(&MacroSettings::default()).unwrap();
    assert!(st.running);
    assert!(!st.armed);
}

#[test]
fn toggle_command_follows_running() {
    let mut e = MacroEngine::new();
    assert_eq!(e.toggle_command(), EngineCommand::Start);
    e.start(&MacroSettings::default()).unwrap();
    assert_eq!(e.toggle_command(), EngineCommand::Stop);
    e.stop().unwrap();
    assert_eq!(e.toggle_command(), EngineCommand::Start);
}

#[test]
fn status_from_settings_echoes_fields() {
    let s = limited_settings();
    let st = MacroStatus::from_settings(true, &s);
    assert!(st.running);
    assert!(!st.armed);
    assert_eq!(st.min_cps, 8);
    assert_eq!(st.max_cps, 12);
    assert_eq!(st.click_limit, 5);
    assert!(st.click_limit_enabled);
    assert_eq!(st.duty_cycle, 5000);
}

#[test]
fn engine_error_messages() {
    assert_eq!(EngineError::AlreadyRunning.message(), "macro already running");
    assert_eq!(EngineError::NotRunning.message(), "macro not running");
    assert_eq!(EngineError::Input("denied".to_string()).message(), "input dispatch failed: denied");
    assert_eq!(EngineError::Thread("no memory".to_string()).message(), "thread error: no memory");
}
