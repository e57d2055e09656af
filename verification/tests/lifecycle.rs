use clipwatch::controller::{activate, toggle_visibility, toggle_widget_cmd, VisibilityOps};
use clipwatch::monitor::{inactivity_tick, INACTIVITY_THRESHOLD_MS, TICK_INTERVAL_MS};
use clipwatch::poller::{poll_cycle, POLL_INTERVAL_MS};
use clipwatch::state::SharedState;
use clipwatch::window::WindowModel;

#[test]
fn event_fires_iff_content_changes() {
    let mut st = SharedState::new(0);
    let mut w = WindowModel::new_hidden();
    let out = poll_cycle(&mut st, &mut w, Some("a".to_string()), 100);
    assert_eq!(out.event, Some("a".to_string()));
    let out = poll_cycle(&mut st, &mut w, Some("a".to_string()), 200);
    assert_eq!(out.event, None);
    let out = poll_cycle(&mut st, &mut w, Some("b".to_string()), 300);
    assert_eq!(out.event, Some("b".to_string()));
    assert_eq!(st.snapshot, Some("b".to_string()));
}

#[test]
fn empty_read_never_updates_or_fires() {
    let mut st = SharedState::new(0);
    let mut w = WindowModel::new_hidden();
    let out = poll_cycle(&mut st, &mut w, Some(String::new()), 100);
    assert_eq!(out.event, None);
    assert_eq!(st.snapshot, None);
    assert_eq!(st.activity_ms, 0);
    assert!(!w.is_visible());
}

#[test]
fn failed_read_skips_cycle() {
    let mut st = SharedState::new(0);
    let mut w = WindowModel::new_hidden();
    let out = poll_cycle(&mut st, &mut w, None, 100);
    assert_eq!(out.event, None);
    assert_eq!(out.ops, VisibilityOps { show: false, conceal: false, focus: false });
    assert_eq!(st.snapshot, None);
    assert!(!w.is_visible());
}

#[test]
fn activity_reset_then_no_conceal_until_threshold() {
    let mut st = SharedState::new(0);
    let mut w = WindowModel::new_hidden();
    toggle_visibility(&mut st, &mut w, 5000);
    assert_eq!(st.activity_ms, 5000);
    assert!(w.is_visible());
    let hid = inactivity_tick(&st, &mut w, 5000 + INACTIVITY_THRESHOLD_MS, INACTIVITY_THRESHOLD_MS);
    assert!(!hid);
    assert!(w.is_visible());
    let hid = inactivity_tick(&st, &mut w, 5000 + INACTIVITY_THRESHOLD_MS + 1, INACTIVITY_THRESHOLD_MS);
    assert!(hid);
    assert!(!w.is_visible());
}

#[test]
fn show_twice_same_as_once() {
    let mut w = WindowModel::new_hidden();
    w.show();
    let once = w;
    w.show();
    assert_eq!(w, once);
    assert!(w.is_visible());
}

#[test]
fn conceal_twice_same_as_once() {
    let mut w = WindowModel::new_hidden();
    w.show();
    w.focus();
    w.conceal();
    let once = w;
    w.conceal();
    assert_eq!(w, once);
    assert!(!w.is_visible());
    assert!(!w.focused);
}

#[test]
fn conceal_on_hidden_window_is_noop() {
    let st = SharedState::new(0);
    let mut w = WindowModel::new_hidden();
    let hid = inactivity_tick(&st, &mut w, INACTIVITY_THRESHOLD_MS + 1, INACTIVITY_THRESHOLD_MS);
    assert!(!hid);
    assert_eq!(w, WindowModel::new_hidden());
}

#[test]
fn scenario_first_copy_fires_once() {
    // Clipboard holds "x"; the snapshot is still empty, so the first cycle
    // fires one event and shows the widget; the next cycle is silent.
    let mut st = SharedState::new(0);
    let mut w = WindowModel::new_hidden();
    let out = poll_cycle(&mut st, &mut w, Some("x".to_string()), 500);
    assert_eq!(out.event, Some("x".to_string()));
    assert_eq!(st.snapshot, Some("x".to_string()));
    assert!(w.is_visible());
    assert!(w.focused);
    assert_eq!(out.ops, VisibilityOps { show: true, conceal: false, focus: true });
    let out = poll_cycle(&mut st, &mut w, Some("x".to_string()), 1000);
    assert_eq!(out.event, None);
    assert_eq!(st.snapshot, Some("x".to_string()));
}

#[test]
fn scenario_inactivity_conceals_after_31_seconds() {
    // Widget visible with activity at t = 0; the monitor ticks each second;
    // at t = 31 s the widget transitions to hidden.
    let mut st = SharedState::new(0);
    let mut w = WindowModel::new_hidden();
    activate(&mut st, &mut w, 0);
    assert!(w.is_visible());
    let mut concealed_at: Option<u64> = None;
    for tick in 1..=31u64 {
        let now = tick * TICK_INTERVAL_MS;
        let hid = inactivity_tick(&st, &mut w, now, INACTIVITY_THRESHOLD_MS);
        if hid && concealed_at.is_none() {
            concealed_at = Some(now);
        }
    }
    assert_eq!(concealed_at, Some(31_000));
    assert!(!w.is_visible());
}

#[test]
fn scenario_toggle_shows_focuses_and_resets() {
    // Widget hidden; the external toggle command makes it visible and
    // focused and resets the activity timestamp to the present moment.
    let mut st = SharedState::new(0);
    let mut w = WindowModel::new_hidden();
    let ops = toggle_visibility(&mut st, &mut w, 7000);
    assert!(w.is_visible());
    assert!(w.focused);
    assert_eq!(st.activity_ms, 7000);
    assert_eq!(ops, VisibilityOps { show: true, conceal: false, focus: true });
}

#[test]
fn scenario_recopy_of_same_text_is_silent() {
    // Clipboard "changes" from "a" to "a": no event fires and the activity
    // timestamp stays where it was.
    let mut st = SharedState::new(0);
    let mut w = WindowModel::new_hidden();
    poll_cycle(&mut st, &mut w, Some("a".to_string()), 1000);
    let visible_before = w.is_visible();
    let out = poll_cycle(&mut st, &mut w, Some("a".to_string()), 9000);
    assert_eq!(out.event, None);
    assert_eq!(st.activity_ms, 1000);
    assert_eq!(w.is_visible(), visible_before);
}

#[test]
fn toggle_on_visible_widget_conceals_and_keeps_timer() {
    let mut st = SharedState::new(0);
    let mut w = WindowModel::new_hidden();
    toggle_visibility(&mut st, &mut w, 1000);
    assert!(w.is_visible());
    let ops = toggle_visibility(&mut st, &mut w, 2000);
    assert!(!w.is_visible());
    assert_eq!(st.activity_ms, 1000);
    assert_eq!(ops, VisibilityOps { show: false, conceal: true, focus: false });
}

#[test]
fn toggle_widget_cmd_defers_to_toggle() {
    let mut st = SharedState::new(0);
    let mut w = WindowModel::new_hidden();
    let ops = toggle_widget_cmd(&mut st, &mut w, 400);
    assert!(w.is_visible());
    assert!(w.focused);
    assert_eq!(st.activity_ms, 400);
    assert_eq!(ops, VisibilityOps { show: true, conceal: false, focus: true });
}

#[test]
fn activate_on_visible_widget_only_resets_timer() {
    let mut st = SharedState::new(0);
    let mut w = WindowModel::new_hidden();
    toggle_visibility(&mut st, &mut w, 1000);
    let ops = activate(&mut st, &mut w, 2500);
    assert_eq!(st.activity_ms, 2500);
    assert!(w.is_visible());
    assert_eq!(ops, VisibilityOps { show: false, conceal: false, focus: false });
}

#[test]
fn reset_timer_moves_timestamp_forward() {
    let mut st = SharedState::new(100);
    st.reset_timer(250);
    assert_eq!(st.activity_ms, 250);
    assert_eq!(st.snapshot, None);
}

#[test]
fn accept_if_new_compare_then_write() {
    let mut st = SharedState::new(0);
    assert!(!st.accept_if_new(&String::new()));
    assert!(st.accept_if_new(&"one".to_string()));
    assert!(!st.accept_if_new(&"one".to_string()));
    assert!(st.accept_if_new(&"two".to_string()));
    assert_eq!(st.snapshot, Some("two".to_string()));
    assert_eq!(st.activity_ms, 0);
}

#[test]
fn configured_cadence_constants() {
    assert_eq!(POLL_INTERVAL_MS, 500);
    assert_eq!(TICK_INTERVAL_MS, 1000);
    assert_eq!(INACTIVITY_THRESHOLD_MS, 30_000);
}
