use vstd::prelude::*;
use crate::settings::{MacroButton, MacroSettings};

verus! {

/// What a run of the engine reports: its live flags and the settings it echoes.
#[derive(Debug, Clone, Copy, PartialEq, Eq, Structural)]
pub struct MacroStatus {
    pub running: bool,
    pub armed: bool,
    pub min_cps: u32,
    pub max_cps: u32,
    pub button: MacroButton,
    pub keyboard_enabled: bool,
    /// In basis points.
    pub randomization: u32,
    pub click_limit_enabled: bool,
    pub click_limit: u32,
    /// In basis points.
    pub duty_cycle: u32,
}

/// The status that echoes `s`, with the given running flag and not armed.
pub open spec fn status_from(running: bool, s: MacroSettings) -> MacroStatus {
    MacroStatus {
        running,
        armed: false,
        min_cps: s.min_cps,
        max_cps: s.max_cps,
        button: s.button,
        keyboard_enabled: s.keyboard_enabled,
        randomization: s.randomization,
        click_limit_enabled: s.click_limit_enabled,
        click_limit: s.click_limit,
        duty_cycle: s.duty_cycle,
    }
}

impl MacroStatus {
    /// The status that echoes `settings`, with the given running flag and not armed.
    pub fn from_settings(running: bool, settings: &MacroSettings) -> (r: MacroStatus)
        ensures
            r == status_from(running, *settings),
    {
        MacroStatus {
            running,
            armed: false,
            min_cps: settings.min_cps,
            max_cps: settings.max_cps,
            button: settings.button,
            keyboard_enabled: settings.keyboard_enabled,
            randomization: settings.randomization,
            click_limit_enabled: settings.click_limit_enabled,
            click_limit: settings.click_limit,
            duty_cycle: settings.duty_cycle,
        }
    }
}

/// Why an engine operation did not happen.
#[derive(Debug, Clone)]
pub enum EngineError {
    /// A worker is already active.
    AlreadyRunning,
    /// No worker is active.
    NotRunning,
    /// A click could not be dispatched.
    Input(String),
    /// The worker thread could not be started.
    Thread(String),
}

impl EngineError {
    /// The message shown to the user.
    pub fn message(&self) -> (r: String)
        ensures
            self is AlreadyRunning ==> r@ == "macro already running"@,
            self is NotRunning ==> r@ == "macro not running"@,
            self is Input ==> r@ == "input dispatch failed: "@ + self->Input_0@,
            self is Thread ==> r@ == "thread error: "@ + self->Thread_0@,
    {
        match self {
            EngineError::AlreadyRunning => String::from_str("macro already running"),
            EngineError::NotRunning => String::from_str("macro not running"),
            EngineError::Input(e) => {
                let mut m = String::from_str("input dispatch failed: ");
                m.append(e.as_str());
                m
            },
            EngineError::Thread(e) => {
                let mut m = String::from_str("thread error: ");
                m.append(e.as_str());
                m
            },
        }
    }
}

/// The state of the engine: whether the hotkey may act, whether a worker is
/// active, and the status last recorded from the settings.
pub struct EngineState {
    pub running: bool,
    pub armed: bool,
    pub last: MacroStatus,
}

/// The status reported in state `v`: the recorded fields with the live flags.
pub open spec fn status_of(v: EngineState) -> MacroStatus {
    MacroStatus { running: v.running, armed: v.armed, ..v.last }
}

pub open spec fn arm_next(v: EngineState) -> EngineState {
    EngineState { armed: true, last: MacroStatus { armed: true, ..v.last }, ..v }
}

pub open spec fn disarm_next(v: EngineState) -> EngineState {
    EngineState { armed: false, last: MacroStatus { armed: false, ..v.last }, ..v }
}

/// The state after `start(s)`: unchanged while a worker is active.
pub open spec fn start_next(v: EngineState, s: MacroSettings) -> EngineState {
    if v.running { v } else { EngineState { running: true, last: status_from(true, s), ..v } }
}

pub open spec fn start_result(v: EngineState, s: MacroSettings) -> Result<MacroStatus, EngineError> {
    if v.running {
        Err(EngineError::AlreadyRunning)
    } else {
        Ok(status_of(start_next(v, s)))
    }
}

/// The state after `stop()`: unchanged while no worker is active.
pub open spec fn stop_next(v: EngineState) -> EngineState {
    if !v.running { v } else {
        EngineState { running: false, last: MacroStatus { running: false, ..v.last }, ..v }
    }
}

pub open spec fn stop_result(v: EngineState) -> Result<MacroStatus, EngineError> {
    if !v.running {
        Err(EngineError::NotRunning)
    } else {
        Ok(status_of(stop_next(v)))
    }
}

/// The state after a worker has ended on its own.
pub open spec fn finish_next(v: EngineState) -> EngineState {
    EngineState { running: false, ..v }
}

/// What a toggle does in the current state.
#[derive(Debug, Clone, Copy, PartialEq, Eq, Structural)]
pub enum EngineCommand {
    Start,
    Stop,
}

pub open spec fn toggle_command_of(v: EngineState) -> EngineCommand {
    if v.running { EngineCommand::Stop } else { EngineCommand::Start }
}

/// The run/arm state of the click engine. The worker thread that a running
/// engine stands for is owned by whoever drives the engine.
pub struct MacroEngine {
    running: bool,
    armed: bool,
    last_status: MacroStatus,
}

impl View for MacroEngine {
    type V = EngineState;

    closed spec fn view(&self) -> EngineState {
        EngineState { running: self.running, armed: self.armed, last: self.last_status }
    }
}

impl MacroEngine {
    /// An idle engine that reports the default settings.
    pub fn new() -> (r: MacroEngine)
        ensures
            !r@.running,
            !r@.armed,
            status_of(r@) == (MacroStatus {
                running: false,
                armed: false,
                min_cps: 8,
                max_cps: 12,
                button: MacroButton::Left,
                keyboard_enabled: false,
                randomization: 1800,
                click_limit_enabled: false,
                click_limit: 0,
                duty_cycle: 5000,
            }),
    {
        MacroEngine {
            running: false,
            armed: false,
            last_status: MacroStatus {
                running: false,
                armed: false,
                min_cps: 8,
                max_cps: 12,
                button: MacroButton::Left,
                keyboard_enabled: false,
                randomization: 1800,
                click_limit_enabled: false,
                click_limit: 0,
                duty_cycle: 5000,
            },
        }
    }

    /// The recorded settings fields with the live flags.
    pub fn status(&self) -> (r: MacroStatus)
        ensures
            r == status_of(self@),
    {
        MacroStatus { running: self.running, armed: self.armed, ..self.last_status }
    }

    pub fn is_armed(&self) -> (r: bool)
        ensures
            r == self@.armed,
    {
        self.armed
    }

    pub fn is_running(&self) -> (r: bool)
        ensures
            r == self@.running,
    {
        self.running
    }

    /// Lets the hotkey act; nothing else changes.
    pub fn arm(&mut self) -> (r: MacroStatus)
        ensures
            final(self)@ == arm_next(old(self)@),
            r == status_of(final(self)@),
    {
        self.armed = true;
        self.last_status.armed = true;
        self.status()
    }

    /// Makes the hotkey inert; nothing else changes.
    pub fn disarm(&mut self) -> (r: MacroStatus)
        ensures
            final(self)@ == disarm_next(old(self)@),
            r == status_of(final(self)@),
    {
        self.armed = false;
        self.last_status.armed = false;
        self.status()
    }

    /// Records that a worker runs on `settings`; refused while one already runs.
    pub fn start(&mut self, settings: &MacroSettings) -> (r: Result<MacroStatus, EngineError>)
        ensures
            final(self)@ == start_next(old(self)@, *settings),
            r == start_result(old(self)@, *settings),
    {
        if self.running {
            return Err(EngineError::AlreadyRunning);
        }
        self.running = true;
        self.last_status = MacroStatus::from_settings(true, settings);
        Ok(self.status())
    }

    /// Records that the worker is told to stop; refused while none runs.
    pub fn stop(&mut self) -> (r: Result<MacroStatus, EngineError>)
        ensures
            final(self)@ == stop_next(old(self)@),
            r == stop_result(old(self)@),
    {
        if !self.running {
            return Err(EngineError::NotRunning);
        }
        self.running = false;
        self.last_status.running = false;
        Ok(self.status())
    }

    /// Records that the worker has ended on its own.
    pub fn finish(&mut self)
        ensures
            final(self)@ == finish_next(old(self)@),
    {
        self.running = false;
    }

    /// Whether a toggle stops the running worker or starts one.
    pub fn toggle_command(&self) -> (r: EngineCommand)
        ensures
            r == toggle_command_of(self@),
    {
        if self.running { EngineCommand::Stop } else { EngineCommand::Start }
    }
}

/// Arming and disarming are idempotent: a second call changes nothing, and the
/// armed flag ends as the last call set it.
pub proof fn lemma_arm_disarm_idempotent(v: EngineState)
    ensures
        arm_next(arm_next(v)) == arm_next(v),
        disarm_next(disarm_next(v)) == disarm_next(v),
        arm_next(v).armed,
        !disarm_next(v).armed,
        arm_next(disarm_next(v)).armed == arm_next(v).armed,
        disarm_next(arm_next(v)).armed == disarm_next(v).armed,
        arm_next(v).running == v.running,
        disarm_next(v).running == v.running,
{
}

/// At most one worker: starting while running fails with `AlreadyRunning` and
/// stopping while idle fails with `NotRunning`, both leaving the state as it was.
pub proof fn lemma_mutual_exclusion(v: EngineState, s: MacroSettings)
    ensures
        v.running ==> start_result(v, s) is Err && start_result(v, s)->Err_0 is AlreadyRunning
            && start_next(v, s) == v,
        !v.running ==> stop_result(v) is Err && stop_result(v)->Err_0 is NotRunning
            && stop_next(v) == v,
        !v.running ==> start_result(start_next(v, s), s) is Err,
        v.running ==> stop_result(stop_next(v)) is Err,
{
}

/// A successful start reports and leaves the engine running; a successful stop
/// reports and leaves it stopped.
pub proof fn lemma_start_stop_effects(v: EngineState, s: MacroSettings)
    ensures
        !v.running ==> start_result(v, s) is Ok && start_result(v, s)->Ok_0.running
            && status_of(start_next(v, s)).running,
        v.running ==> stop_result(v) is Ok && !stop_result(v)->Ok_0.running
            && !status_of(stop_next(v)).running,
        !status_of(finish_next(v)).running,
{
}

} // verus!
