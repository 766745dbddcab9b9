use vstd::prelude::*;

verus! {

/// Fixed-point scale of the ratios held in the settings: `10_000` stands for `1.0`.
pub const BASIS_POINTS: u32 = 10_000;

/// The pointer button that each click presses and releases.
#[derive(Debug, Clone, Copy, PartialEq, Eq, Structural)]
pub enum MacroButton {
    Left,
    Right,
    Middle,
}

/// How the hotkey drives the engine.
#[derive(Debug, Clone, Copy, PartialEq, Eq, Structural)]
pub enum ActivationMode {
    /// Clicking lasts as long as the key is held down.
    Hold,
    /// Each press flips between clicking and not clicking.
    Toggle,
}

/// The user's configuration. Ratios are held in basis points
/// (`BASIS_POINTS` stands for `1.0`).
#[derive(Debug, Clone)]
pub struct MacroSettings {
    pub min_cps: u32,
    pub max_cps: u32,
    pub button: MacroButton,
    pub middle_button: bool,
    pub keyboard_enabled: bool,
    pub keyboard_key: Option<u16>,
    /// Share of each interval that may be added or taken away at random, in basis points.
    pub randomization: u32,
    pub safe_mode: bool,
    pub tray_mode: bool,
    pub startup_on_boot: bool,
    pub hotkey: Option<String>,
    pub activation_mode: ActivationMode,
    pub activation_key: String,
    pub click_limit_enabled: bool,
    pub click_limit: u32,
    /// Kept for compatibility of the stored file; the timing does not read it.
    pub duty_cycle: u32,
    pub randomize_cps: bool,
    pub discord_enabled: bool,
    pub language: String,
}

impl MacroSettings {
    /// The rates are usable: both positive and in order.
    pub open spec fn valid_rates(&self) -> bool {
        0 < self.min_cps && self.min_cps <= self.max_cps
    }
}

impl Default for MacroSettings {
    fn default() -> (r: MacroSettings)
        ensures
            r.min_cps == 8,
            r.max_cps == 12,
            r.button == MacroButton::Left,
            !r.middle_button,
            !r.keyboard_enabled,
            r.keyboard_key is None,
            r.randomization == 1800,
            r.safe_mode,
            r.tray_mode,
            !r.startup_on_boot,
            r.hotkey is Some && r.hotkey->0@ == "F6"@,
            r.activation_mode == ActivationMode::Toggle,
            r.activation_key@ == "F6"@,
            !r.click_limit_enabled,
            r.click_limit == 0,
            r.duty_cycle == 5000,
            !r.randomize_cps,
            !r.discord_enabled,
            r.language@ == "en"@,
    {
        MacroSettings {
            min_cps: 8,
            max_cps: 12,
            button: MacroButton::Left,
            middle_button: false,
            keyboard_enabled: false,
            keyboard_key: None,
            randomization: 1800,
            safe_mode: true,
            tray_mode: true,
            startup_on_boot: false,
            hotkey: Some(String::from_str("F6")),
            activation_mode: ActivationMode::Toggle,
            activation_key: String::from_str("F6"),
            click_limit_enabled: false,
            click_limit: 0,
            duty_cycle: 5000,
            randomize_cps: false,
            discord_enabled: false,
            language: String::from_str("en"),
        }
    }
}

/// Why a configuration was refused.
#[derive(Debug, Clone, Copy, PartialEq, Eq, Structural)]
pub enum SettingsError {
    /// The minimum or the maximum rate is zero.
    ZeroCps,
    /// The minimum rate exceeds the maximum rate.
    MinAboveMax,
}

impl SettingsError {
    /// The message shown to the user.
    pub fn message(&self) -> (r: &'static str)
        ensures
            *self == SettingsError::ZeroCps ==> r@ == "CPS cannot be zero"@,
            *self == SettingsError::MinAboveMax ==> r@ == "Min CPS cannot exceed Max CPS"@,
    {
        match self {
            SettingsError::ZeroCps => "CPS cannot be zero",
            SettingsError::MinAboveMax => "Min CPS cannot exceed Max CPS",
        }
    }
}

/// Checks the rates of a configuration before it reaches the engine.
pub fn validate_settings(s: &MacroSettings) -> (r: Result<(), SettingsError>)
    ensures
        r is Ok <==> s.valid_rates(),
        r == Err::<(), SettingsError>(SettingsError::ZeroCps) <==> (s.min_cps == 0 || s.max_cps == 0),
        r == Err::<(), SettingsError>(SettingsError::MinAboveMax) <==> (0 < s.min_cps && 0 < s.max_cps
            && s.min_cps > s.max_cps),
{
    if s.min_cps == 0 || s.max_cps == 0 {
        Err(SettingsError::ZeroCps)
    } else if s.min_cps > s.max_cps {
        Err(SettingsError::MinAboveMax)
    } else {
        Ok(())
    }
}

/// The name of the file that holds the settings inside the data directory.
pub const SETTINGS_FILE_NAME: &'static str = "settings.json";

/// The path that `base` and `name` form when `name` is joined under `base`.
pub uninterp spec fn joined_path(base: Seq<char>, name: Seq<char>) -> Seq<char>;

/// Relies on std::path::Path::join: the path formed depends on the two parts alone.
#[verifier::external_body]
fn join_path(base: &str, name: &str) -> (r: String)
    ensures
        r@ == joined_path(base@, name@),
{
    std::path::Path::new(base).join(name).to_string_lossy().into_owned()
}

/// The settings file inside the data directory `base_dir`.
pub fn settings_file(base_dir: &str) -> (r: String)
    ensures
        r@ == joined_path(base_dir@, SETTINGS_FILE_NAME@),
{
    join_path(base_dir, SETTINGS_FILE_NAME)
}

/// What becomes of the link to the presence service when settings change.
#[derive(Debug, Clone, Copy, PartialEq, Eq, Structural)]
pub enum PresenceLink {
    Keep,
    /// Connect, then report idleness.
    Connect,
    Disconnect,
}

/// The presence link follows the `discord_enabled` flag when it changes.
pub fn presence_link_change(before: &MacroSettings, after: &MacroSettings) -> (r: PresenceLink)
    ensures
        r == (if before.discord_enabled == after.discord_enabled {
            PresenceLink::Keep
        } else if after.discord_enabled {
            PresenceLink::Connect
        } else {
            PresenceLink::Disconnect
        }),
{
    if before.discord_enabled == after.discord_enabled {
        PresenceLink::Keep
    } else if after.discord_enabled {
        PresenceLink::Connect
    } else {
        PresenceLink::Disconnect
    }
}

} // verus!
