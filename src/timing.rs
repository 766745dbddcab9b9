use vstd::prelude::*;
use crate::settings::{MacroButton, MacroSettings, BASIS_POINTS};

verus! {

/// No cycle is shorter than this many microseconds.
pub const MIN_CYCLE_MICROS: u64 = 1_000;

/// Microseconds in one second.
pub const MICROS_PER_SECOND: u64 = 1_000_000;

/// The jitter ratio is capped at this many basis points (0.45).
pub const MAX_JITTER_BP: u32 = 4_500;

/// A running worker reports its status at most about once per this many milliseconds.
pub const STATUS_INTERVAL_MS: u64 = 900;

/// The rate actually used for a cycle: at least one click per second.
pub open spec fn effective_cps(cps: u32) -> int {
    if cps == 0 { 1 } else { cps as int }
}

/// The nominal length of a cycle at `cps` clicks per second, in microseconds.
pub open spec fn base_micros(cps: u32) -> int {
    MICROS_PER_SECOND as int / effective_cps(cps)
}

/// The jitter ratio in basis points: the configured randomization capped at 0.45.
pub open spec fn jitter_bp(randomization: u32) -> int {
    if randomization > MAX_JITTER_BP { MAX_JITTER_BP as int } else { randomization as int }
}

/// How far a cycle at `cps` may stray from its nominal length, in microseconds.
pub open spec fn span_micros(cps: u32, randomization: u32) -> int {
    base_micros(cps) * jitter_bp(randomization) / BASIS_POINTS as int
}

/// The shortest cycle at `cps`: the nominal length less the span, and never under the floor.
pub open spec fn cycle_lower(cps: u32, randomization: u32) -> int {
    let v = base_micros(cps) - span_micros(cps, randomization);
    if v < MIN_CYCLE_MICROS { MIN_CYCLE_MICROS as int } else { v }
}

/// The longest cycle at `cps`: the nominal length plus the span, and never under the floor.
pub open spec fn cycle_upper(cps: u32, randomization: u32) -> int {
    let v = base_micros(cps) + span_micros(cps, randomization);
    if v < MIN_CYCLE_MICROS { MIN_CYCLE_MICROS as int } else { v }
}

/// The rate of a cycle: the drawn rate when rates are randomized, else the maximum.
pub open spec fn cycle_cps(s: MacroSettings, cps_draw: u32) -> u32 {
    if s.randomize_cps { cps_draw } else { s.max_cps }
}

/// The length of a cycle whose jitter draw is `offset` in `[0, 2 * span]`:
/// the nominal length shifted by `offset - span`, and never under the floor.
pub open spec fn cycle_length(cps: u32, randomization: u32, offset: int) -> int {
    let v = base_micros(cps) - span_micros(cps, randomization) + offset;
    if v < MIN_CYCLE_MICROS { MIN_CYCLE_MICROS as int } else { v }
}

/// The draws that a cycle of `s` may be computed from.
pub open spec fn draws_allowed(s: MacroSettings, cps_draw: u32, offset: u64) -> bool {
    &&& s.randomize_cps ==> s.min_cps <= cps_draw <= s.max_cps
    &&& offset <= 2 * span_micros(cycle_cps(s, cps_draw), s.randomization)
}

proof fn lemma_span_bounds(cps: u32, randomization: u32)
    ensures
        0 <= base_micros(cps) <= MICROS_PER_SECOND,
        0 <= span_micros(cps, randomization) <= base_micros(cps),
        2 * span_micros(cps, randomization) <= base_micros(cps),
{
    let b = base_micros(cps);
    let j = jitter_bp(randomization);
    assert(0 <= b <= MICROS_PER_SECOND) by (nonlinear_arith)
        requires b == MICROS_PER_SECOND as int / effective_cps(cps), effective_cps(cps) >= 1;
    assert(0 <= b * j / 10_000 && 2 * (b * j / 10_000) <= b) by (nonlinear_arith)
        requires 0 <= b, 0 <= j <= 4_500;
}

/// The nominal cycle length at `cps` clicks per second.
pub fn base_cycle_micros(cps: u32) -> (r: u64)
    ensures
        r == base_micros(cps),
{
    let c: u64 = if cps == 0 { 1 } else { cps as u64 };
    MICROS_PER_SECOND / c
}

/// How far a cycle at `cps` may stray from its nominal length.
pub fn jitter_span_micros(cps: u32, randomization: u32) -> (r: u64)
    ensures
        r == span_micros(cps, randomization),
{
    proof { lemma_span_bounds(cps, randomization); }
    let base = base_cycle_micros(cps);
    let ratio: u64 = if randomization > MAX_JITTER_BP { MAX_JITTER_BP as u64 } else { randomization as u64 };
    assert(base * ratio <= 1_000_000 * 4_500) by (nonlinear_arith)
        requires base <= 1_000_000, ratio <= 4_500;
    base * ratio / (BASIS_POINTS as u64)
}

/// The length of one cycle of `s`, given the rate drawn for it (read only when
/// rates are randomized) and its jitter draw `offset` in `[0, 2 * span]`.
pub fn cycle_micros_for(s: &MacroSettings, cps_draw: u32, offset: u64) -> (r: u64)
    requires
        draws_allowed(*s, cps_draw, offset),
    ensures
        r == cycle_length(cycle_cps(*s, cps_draw), s.randomization, offset as int),
{
    let cps = if s.randomize_cps { cps_draw } else { s.max_cps };
    proof { lemma_span_bounds(cps, s.randomization); }
    let base = base_cycle_micros(cps);
    let span = jitter_span_micros(cps, s.randomization);
    let v = base - span + offset;
    if v < MIN_CYCLE_MICROS { MIN_CYCLE_MICROS } else { v }
}

/// Relies on rand::Rng::gen_range over an inclusive range, drawn from
/// rand::thread_rng: the value lies in the range (an empty range panics,
/// which `requires` rules out).
#[verifier::external_body]
fn draw_between(low: u64, high: u64) -> (r: u64)
    requires
        low <= high,
    ensures
        low <= r <= high,
{
    rand::Rng::gen_range(&mut rand::thread_rng(), low..=high)
}

/// Draws the length of the next cycle of `s`.
pub fn next_cycle_micros(s: &MacroSettings) -> (r: u64)
    requires
        s.randomize_cps ==> s.min_cps <= s.max_cps,
    ensures
        exists|c: u32, o: u64| draws_allowed(*s, c, o)
            && r == cycle_length(cycle_cps(*s, c), s.randomization, o as int),
        s.randomize_cps ==> exists|c: u32| s.min_cps <= c <= s.max_cps
            && #[trigger] cycle_lower(c, s.randomization) <= r <= cycle_upper(c, s.randomization),
        !s.randomize_cps ==> cycle_lower(s.max_cps, s.randomization) <= r
            <= cycle_upper(s.max_cps, s.randomization),
{
    let cps_draw: u32 = if s.randomize_cps {
        draw_between(s.min_cps as u64, s.max_cps as u64) as u32
    } else {
        s.max_cps
    };
    let cps = if s.randomize_cps { cps_draw } else { s.max_cps };
    proof { lemma_span_bounds(cps, s.randomization); }
    let span = jitter_span_micros(cps, s.randomization);
    let offset = draw_between(0, 2 * span);
    let r = cycle_micros_for(s, cps_draw, offset);
    proof {
        lemma_cycle_within(cps, s.randomization, offset as int);
    }
    r
}

/// A cycle computed from any allowed jitter draw lies between the shortest and
/// the longest cycle at its rate.
pub proof fn lemma_cycle_within(cps: u32, randomization: u32, offset: int)
    requires
        0 <= offset <= 2 * span_micros(cps, randomization),
    ensures
        cycle_lower(cps, randomization) <= cycle_length(cps, randomization, offset)
            <= cycle_upper(cps, randomization),
{
}

/// With fixed rate `C` and randomization `R` (capped at 0.45), every cycle lies in
/// `[max(floor, base * (1 - R)), base * (1 + R)]`, `base` being `1 / C` seconds,
/// wherever that upper end is not under the floor.
pub proof fn lemma_fixed_rate_cycle_bounds(s: MacroSettings, offset: u64)
    requires
        !s.randomize_cps,
        draws_allowed(s, 0, offset),
        base_micros(s.max_cps) + span_micros(s.max_cps, s.randomization) >= MIN_CYCLE_MICROS,
    ensures
        ({
            let len = cycle_length(cycle_cps(s, 0), s.randomization, offset as int);
            let lo = base_micros(s.max_cps) - span_micros(s.max_cps, s.randomization);
            &&& len >= MIN_CYCLE_MICROS
            &&& len >= lo
            &&& len <= base_micros(s.max_cps) + span_micros(s.max_cps, s.randomization)
        }),
{
}

/// Whether a running worker reports its status, `elapsed_ms` after its last report.
pub fn status_due(elapsed_ms: u64) -> (r: bool)
    ensures
        r == (elapsed_ms > STATUS_INTERVAL_MS),
{
    elapsed_ms > STATUS_INTERVAL_MS
}

/// The run ends after `clicks` clicks of a run of `s`.
pub open spec fn limit_reached(s: MacroSettings, clicks: u32) -> bool {
    s.click_limit_enabled && s.click_limit > 0 && clicks >= s.click_limit
}

/// One clicking session: the settings snapshot it was started with and the
/// number of clicks dispatched so far. The snapshot never changes during the run.
pub struct ClickRun {
    settings: MacroSettings,
    clicks: u32,
}

impl ClickRun {
    pub closed spec fn snapshot(&self) -> MacroSettings {
        self.settings
    }

    pub closed spec fn clicks(&self) -> u32 {
        self.clicks
    }

    /// A run of `settings` before its first click.
    pub fn new(settings: MacroSettings) -> (r: ClickRun)
        ensures
            r.snapshot() == settings,
            r.clicks() == 0,
    {
        ClickRun { settings, clicks: 0 }
    }

    /// The button each click of this run presses.
    pub fn button(&self) -> (r: MacroButton)
        ensures
            r == self.snapshot().button,
    {
        self.settings.button
    }

    /// Counts one dispatched click; returns whether the run goes on.
    pub fn record_click(&mut self) -> (more: bool)
        ensures
            final(self).snapshot() == old(self).snapshot(),
            final(self).clicks() == (if old(self).clicks() == u32::MAX { u32::MAX } else {
                (old(self).clicks() + 1) as u32
            }),
            more == !limit_reached(final(self).snapshot(), final(self).clicks()),
    {
        self.clicks = self.clicks.saturating_add(1);
        !(self.settings.click_limit_enabled && self.settings.click_limit > 0
            && self.clicks >= self.settings.click_limit)
    }

    /// Draws the length of this run's next cycle from its own snapshot.
    pub fn next_cycle(&self) -> (r: u64)
        requires
            self.snapshot().randomize_cps ==> self.snapshot().min_cps <= self.snapshot().max_cps,
        ensures
            exists|c: u32, o: u64| draws_allowed(self.snapshot(), c, o)
                && r == cycle_length(cycle_cps(self.snapshot(), c), self.snapshot().randomization, o as int),
    {
        next_cycle_micros(&self.settings)
    }
}

/// With a click limit of `n`, a run goes on after each of its first `n - 1`
/// clicks and ends right after the `n`-th: exactly `n` clicks are dispatched.
pub proof fn lemma_click_limit_exact(s: MacroSettings, k: u32)
    requires
        s.click_limit_enabled,
        s.click_limit > 0,
    ensures
        1 <= k < s.click_limit ==> !limit_reached(s, k),
        limit_reached(s, s.click_limit),
{
}

/// Without a click limit, no click ends a run.
pub proof fn lemma_no_limit_never_ends(s: MacroSettings, k: u32)
    requires
        !s.click_limit_enabled || s.click_limit == 0,
    ensures
        !limit_reached(s, k),
{
}

} // verus!
