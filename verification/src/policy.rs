//! The two reactive policies: pausing media when a bud leaves the ear, and
//! warning once when a bud's battery runs low; and when to look for the
//! accessory again.
use vstd::prelude::*;

verus! {

/// What the ear-detection policy asks of the media controller.
#[derive(Clone, Copy, Debug, PartialEq, Eq, Structural, Hash)]
pub enum MediaAction {
    Pause,
    Resume,
}

/// Outcome of the low-battery policy: whether to raise an alert now, and the
/// new value of the "already alerted" flag.
#[derive(Clone, Copy, Debug, PartialEq, Eq, Structural, Hash)]
pub struct LowBatteryDecision {
    pub alert: bool,
    pub alerted: bool,
}

/// The action that ear detection asks for: resume when both buds are in the
/// ear and media is held paused, pause when a bud is out and media is not
/// held paused, nothing otherwise or when the feature is off.
pub open spec fn ear_action(both_in_ear: bool, enabled: bool, paused: bool) -> Option<MediaAction> {
    if !enabled {
        None
    } else if both_in_ear && paused {
        Some(MediaAction::Resume)
    } else if !both_in_ear && !paused {
        Some(MediaAction::Pause)
    } else {
        None
    }
}

/// The paused flag once an action has been tried: it follows the action only
/// if the action succeeded.
pub open spec fn paused_after(paused: bool, action: Option<MediaAction>, succeeded: bool) -> bool {
    match action {
        Some(MediaAction::Pause) => if succeeded {
            true
        } else {
            paused
        },
        Some(MediaAction::Resume) => if succeeded {
            false
        } else {
            paused
        },
        None => paused,
    }
}

/// A bud counts as low when its level is known, it is not charging and it
/// is at or below the threshold. A bud whose level is not known is never
/// low.
pub open spec fn bud_low(level: Option<u8>, charging: bool, threshold: u8) -> bool {
    match level {
        Some(l) => !charging && l <= threshold,
        None => false,
    }
}

/// The low-battery rule: a threshold of 0 switches it off and clears the
/// flag; otherwise an alert is raised on entering "low" and the flag is
/// cleared on leaving it.
pub open spec fn low_battery_decision(low: bool, threshold: u8, alerted: bool) -> LowBatteryDecision {
    if threshold == 0 {
        LowBatteryDecision { alert: false, alerted: false }
    } else if low {
        LowBatteryDecision { alert: !alerted, alerted: true }
    } else {
        LowBatteryDecision { alert: false, alerted: false }
    }
}

/// Decides what ear detection asks of the media controller, from the two
/// in-ear flags, the setting and whether media is currently held paused.
pub fn ear_detection_policy(
    left_in_ear: bool,
    right_in_ear: bool,
    enabled: bool,
    paused: bool,
) -> (action: Option<MediaAction>)
    ensures
        action == ear_action(left_in_ear && right_in_ear, enabled, paused),
{
    let both_in_ear = left_in_ear && right_in_ear;
    if !enabled {
        None
    } else if both_in_ear && paused {
        Some(MediaAction::Resume)
    } else if !both_in_ear && !paused {
        Some(MediaAction::Pause)
    } else {
        None
    }
}

/// The paused flag after `action` was handed to the media controller and
/// `succeeded` says how that went. A failed action leaves the flag as it
/// was.
pub fn settle_ear_action(paused: bool, action: Option<MediaAction>, succeeded: bool) -> (now_paused:
    bool)
    ensures
        now_paused == paused_after(paused, action, succeeded),
{
    match action {
        Some(MediaAction::Pause) => if succeeded {
            true
        } else {
            paused
        },
        Some(MediaAction::Resume) => if succeeded {
            false
        } else {
            paused
        },
        None => paused,
    }
}

/// Decides whether to warn about the battery, from the two buds' levels
/// (`None` where not known) and charging flags, the threshold and whether a
/// warning is already out.
pub fn low_battery_policy(
    left_level: Option<u8>,
    left_charging: bool,
    right_level: Option<u8>,
    right_charging: bool,
    threshold: u8,
    alerted: bool,
) -> (decision: LowBatteryDecision)
    ensures
        decision == low_battery_decision(
            bud_low(left_level, left_charging, threshold) || bud_low(
                right_level,
                right_charging,
                threshold,
            ),
            threshold,
            alerted,
        ),
{
    if threshold == 0 {
        return LowBatteryDecision { alert: false, alerted: false };
    }
    let low_left = match left_level {
        Some(level) => !left_charging && level <= threshold,
        None => false,
    };
    let low_right = match right_level {
        Some(level) => !right_charging && level <= threshold,
        None => false,
    };
    if low_left || low_right {
        LowBatteryDecision { alert: !alerted, alerted: true }
    } else {
        LowBatteryDecision { alert: false, alerted: false }
    }
}

/// Ear detection acts on edges only: when it is applied twice while "both
/// buds in ear" and the setting stay the same, and the first action, if
/// there was one, succeeded, the second application asks for nothing and
/// leaves the flag alone.
pub proof fn lemma_ear_detection_idempotent(both_in_ear: bool, enabled: bool, paused: bool)
    ensures
        ({
            let first = ear_action(both_in_ear, enabled, paused);
            let then_paused = paused_after(paused, first, true);
            &&& ear_action(both_in_ear, enabled, then_paused) is None
            &&& paused_after(then_paused, ear_action(both_in_ear, enabled, then_paused), true)
                == then_paused
        }),
{
}

/// A failed action changes nothing, so the same reading asks for the same
/// action again.
pub proof fn lemma_ear_detection_retries(both_in_ear: bool, enabled: bool, paused: bool)
    ensures
        ({
            let first = ear_action(both_in_ear, enabled, paused);
            let then_paused = paused_after(paused, first, false);
            then_paused == paused && ear_action(both_in_ear, enabled, then_paused) == first
        }),
{
}

/// The low-battery alert is edge-triggered: it is raised only on entering
/// "low" with a threshold above 0, the same reading right after raises none,
/// and the flag is never set while the threshold is 0.
pub proof fn lemma_low_battery_edge_triggered(low: bool, threshold: u8, alerted: bool)
    ensures
        ({
            let first = low_battery_decision(low, threshold, alerted);
            let second = low_battery_decision(low, threshold, first.alerted);
            &&& first.alert <==> (threshold > 0 && low && !alerted)
            &&& first.alerted <==> (threshold > 0 && low)
            &&& !second.alert
            &&& second.alerted == first.alerted
        }),
{
}

/// Milliseconds between two periodic probes for a connected accessory.
pub const AUTODETECT_INTERVAL_MS: u64 = 2000;

/// Whether a periodic probe is due, `elapsed_ms` after the last one.
pub fn autodetect_due(elapsed_ms: u64) -> (due: bool)
    ensures
        due == (elapsed_ms >= AUTODETECT_INTERVAL_MS),
{
    elapsed_ms >= AUTODETECT_INTERVAL_MS
}

} // verus!
