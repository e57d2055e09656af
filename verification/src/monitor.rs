use vstd::prelude::*;

verus! {

use crate::state::SharedState;
use crate::window::WindowModel;

/// How long the inactivity monitor sleeps between checks, in milliseconds.
pub const TICK_INTERVAL_MS: u64 = 1000;

/// How long the widget may stay visible with no activity, in milliseconds.
pub const INACTIVITY_THRESHOLD_MS: u64 = 30_000;

/// Whether a monitor tick must conceal the widget: the elapsed time since
/// the last activity exceeds the threshold and the widget is visible.
pub open spec fn should_conceal(activity_ms: u64, now_ms: u64, threshold_ms: u64, visible: bool) -> bool {
    visible && now_ms - activity_ms > threshold_ms
}

/// One tick of the inactivity monitor: read the activity timestamp once,
/// and conceal the widget exactly when the threshold is exceeded and the
/// widget is visible. The monitor never touches the timestamp itself.
pub fn inactivity_tick(state: &SharedState, window: &mut WindowModel, now_ms: u64, threshold_ms: u64) -> (hid: bool)
    requires
        state.activity_ms <= now_ms,
    ensures
        hid == should_conceal(state.activity_ms, now_ms, threshold_ms, old(window).is_visible_spec()),
        hid ==> *final(window) == WindowModel::hidden(*old(window)),
        !hid ==> *final(window) == *old(window),
        final(window).is_visible_spec() == (old(window).is_visible_spec() && !hid),
        old(window).wf() ==> final(window).wf(),
{
    let elapsed_ms: u64 = now_ms - state.activity_ms;
    if elapsed_ms > threshold_ms && window.is_visible() {
        window.conceal();
        true
    } else {
        false
    }
}

/// After an activity event at `activity_ms`, the monitor does not conceal
/// the widget at any moment up to the threshold after that event, whatever
/// the widget's visibility.
pub proof fn lemma_no_conceal_before_threshold(activity_ms: u64, now_ms: u64, threshold_ms: u64, visible: bool)
    requires
        activity_ms <= now_ms,
        now_ms - activity_ms <= threshold_ms,
    ensures
        !should_conceal(activity_ms, now_ms, threshold_ms, visible),
{
}

} // verus!
