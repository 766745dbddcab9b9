use twiez_macro::settings::{
    presence_link_change, settings_file, validate_settings, ActivationMode, MacroButton,
    MacroSettings, PresenceLink, SettingsError,
};

#[test]
fn defaults() {
    let s = MacroSettings::default();
    assert_eq!(s.min_cps, 8);
    assert_eq!(s.max_cps, 12);
    assert_eq!(s.button, MacroButton::Left);
    assert_eq!(s.randomization, 1800);
    assert_eq!(s.hotkey.as_deref(), Some("F6"));
    assert_eq!(s.activation_key, "F6");
    assert_eq!(s.activation_mode, ActivationMode::Toggle);
    assert_eq!(s.duty_cycle, 5000);
    assert_eq!(s.language, "en");
    assert!(s.safe_mode && s.tray_mode);
    assert!(!s.click_limit_enabled && !s.randomize_cps && !s.discord_enabled);
}

#[test]
fn validation_errors() {
    let mut s = MacroSettings::default();
    assert_eq!(validate_settings(&s), Ok(()));
    s.min_cps = 0;
    assert_eq!(validate_settings(&s), Err(SettingsError::ZeroCps));
    s.min_cps = 5;
    s.max_cps = 0;
    assert_eq!(validate_settings(&s), Err(SettingsError::ZeroCps));
    s.max_cps = 4;
    assert_eq!(validate_settings(&s), Err(SettingsError::MinAboveMax));
    s.max_cps = 5;
    assert_eq!(validate_settings(&s), Ok(()));
    assert_eq!(SettingsError::ZeroCps.message(), "CPS cannot be zero");
    assert_eq!(SettingsError::MinAboveMax.message(), "Min CPS cannot exceed Max CPS");
}

#[test]
fn settings_file_is_joined_under_base() {
    let p = settings_file("data");
    assert_eq!(std::path::Path::new(&p), std::path::Path::new("data").join("settings.json"));
    assert!(p.ends_with("settings.json"));
    assert_ne!(p, "data");
}

#[test]
fn presence_link_follows_flag_changes() {
    let a = MacroSettings::default();
    let mut b = MacroSettings::default();
    assert_eq!(presence_link_change(&a, &b), PresenceLink::Keep);
    b.discord_enabled = true;
    assert_eq!(presence_link_change(&a, &b), PresenceLink::Connect);
    assert_eq!(presence_link_change(&b, &a), PresenceLink::Disconnect);
}
