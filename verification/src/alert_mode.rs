//! Alert mode: a process-wide switch that shortens polling intervals while
//! the fused threat score is high.

use vstd::prelude::*;
use crate::settings::{EnvSnapshot, env_value, number_or, value_or};

verus! {

/// Whether alert mode is on.
pub struct AlertModeState {
    pub active: bool,
}

impl AlertModeState {
    /// Alert mode starts off.
    pub fn new() -> (s: Self)
        ensures
            !s.active,
    {
        AlertModeState { active: false }
    }
}

/// Whether automatic alert mode is configured: `AUTO_ALERT_MODE` is `true`.
pub fn auto_alert_enabled(env: &EnvSnapshot) -> (r: bool)
    ensures
        r == (value_or(env_value(env, "AUTO_ALERT_MODE"@), "false"@) == "true"@),
{
    env.value_is("AUTO_ALERT_MODE", "false", "true")
}

/// Turns alert mode on.
pub fn activate_alert_mode(state: &mut AlertModeState)
    ensures
        final(state).active,
{
    state.active = true;
}

/// Turns alert mode off.
pub fn deactivate_alert_mode(state: &mut AlertModeState)
    ensures
        !final(state).active,
{
    state.active = false;
}

/// Whether alert mode is on.
pub fn is_alert_mode_active(state: &AlertModeState) -> (r: bool)
    ensures
        r == state.active,
{
    state.active
}

/// The configured polling multiplier: `ACTIVE_ZONE_MULTIPLIER`, or 2.
pub open spec fn configured_multiplier(env: &EnvSnapshot) -> nat {
    number_or(env_value(env, "ACTIVE_ZONE_MULTIPLIER"@), u64::MAX as nat, 2)
}

/// How many times faster polling runs: the configured multiplier in alert
/// mode, else 1.
pub fn get_polling_multiplier(state: &AlertModeState, env: &EnvSnapshot) -> (r: u64)
    ensures
        r == if state.active {
            configured_multiplier(env)
        } else {
            1
        },
{
    if state.active {
        env.number_or("ACTIVE_ZONE_MULTIPLIER", u64::MAX, 2)
    } else {
        1
    }
}

/// The polling interval for a base interval: divided by the multiplier (at
/// least 1) in alert mode, else unchanged.
pub open spec fn poll_interval_for(active: bool, env: &EnvSnapshot, base: nat) -> nat {
    if active {
        base / (if configured_multiplier(env) >= 1 {
            configured_multiplier(env)
        } else {
            1
        })
    } else {
        base
    }
}

/// The polling interval: `base_seconds` divided by the multiplier (at least 1)
/// in alert mode, else `base_seconds` unchanged.
pub fn adjusted_poll_interval(state: &AlertModeState, env: &EnvSnapshot, base_seconds: u64) -> (r:
    u64)
    ensures
        r == poll_interval_for(state.active, env, base_seconds as nat),
{
    if state.active {
        let m = get_polling_multiplier(state, env);
        let m = if m >= 1 {
            m
        } else {
            1
        };
        base_seconds / m
    } else {
        base_seconds
    }
}

/// Whether alert mode is on after a fused score is checked: unchanged when
/// automatic alert mode is disabled, else on exactly when the score reached
/// the threshold.
pub open spec fn alert_mode_after(enabled: bool, active: bool, score_reached: bool) -> bool {
    if enabled {
        score_reached
    } else {
        active
    }
}

/// Updates alert mode after a fused score was compared with the threshold:
/// with automatic alert mode enabled, it turns on when the score reached the
/// threshold and off when it did not.
pub fn update_alert_mode(state: &mut AlertModeState, enabled: bool, score_reached: bool)
    ensures
        final(state).active == alert_mode_after(enabled, old(state).active, score_reached),
{
    if !enabled {
        return ;
    }
    let currently_active = is_alert_mode_active(state);
    if !currently_active && score_reached {
        activate_alert_mode(state);
    } else if currently_active && !score_reached {
        deactivate_alert_mode(state);
    }
}

/// Polling is never slower in alert mode than outside it: for every mode,
/// environment and base interval, the adjusted interval is at most the base.
pub proof fn law_alert_mode_never_slows_polling(active: bool, env: &EnvSnapshot, base: nat)
    ensures
        poll_interval_for(active, env, base) <= base,
{
    let m = configured_multiplier(env);
    let d: nat = if m >= 1 {
        m
    } else {
        1
    };
    assert(base / d <= base) by (nonlinear_arith)
        requires
            d >= 1,
    ;
}

} // verus!
