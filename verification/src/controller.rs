use vstd::prelude::*;

verus! {

use crate::state::SharedState;
use crate::window::WindowModel;

/// The window-system calls one controller step asks for. The caller mirrors
/// each requested call onto the real window: conceal, or show then focus.
#[derive(Clone, Copy, PartialEq, Eq, Structural, Debug)]
pub struct VisibilityOps {
    pub show: bool,
    pub conceal: bool,
    pub focus: bool,
}

impl VisibilityOps {
    /// No window-system call is needed.
    pub open spec fn quiet() -> VisibilityOps {
        VisibilityOps { show: false, conceal: false, focus: false }
    }

    /// Show the window, then give it focus.
    pub open spec fn show_focus() -> VisibilityOps {
        VisibilityOps { show: true, conceal: false, focus: true }
    }

    /// Conceal the window.
    pub open spec fn conceal_only() -> VisibilityOps {
        VisibilityOps { show: false, conceal: true, focus: false }
    }
}

/// What a toggle does to the window: a visible widget is concealed, a hidden
/// one is shown and focused.
pub open spec fn toggled(w: WindowModel) -> WindowModel {
    if w.is_visible_spec() {
        WindowModel::hidden(w)
    } else {
        WindowModel::with_focus(WindowModel::shown(w))
    }
}

/// What an activate does to the window: a hidden widget is shown and
/// focused, a visible one is left alone.
pub open spec fn activated(w: WindowModel) -> WindowModel {
    if w.is_visible_spec() {
        w
    } else {
        WindowModel::with_focus(WindowModel::shown(w))
    }
}

/// Handler for the explicit external toggle command: conceal the widget if
/// it is visible; otherwise show it, focus it, and reset the activity
/// timestamp. Toggling to visible is an activity event; toggling to hidden
/// touches no state.
pub fn toggle_visibility(state: &mut SharedState, window: &mut WindowModel, now_ms: u64) -> (ops: VisibilityOps)
    requires
        old(state).activity_ms <= now_ms,
    ensures
        *final(window) == toggled(*old(window)),
        final(window).wf(),
        final(state).snapshot == old(state).snapshot,
        !old(window).is_visible_spec() ==> final(state).activity_ms == now_ms,
        old(window).is_visible_spec() ==> *final(state) == *old(state),
        final(state).activity_ms >= old(state).activity_ms,
        final(state).wf() == old(state).wf(),
        ops == (if old(window).is_visible_spec() {
            VisibilityOps::conceal_only()
        } else {
            VisibilityOps::show_focus()
        }),
{
    if window.is_visible() {
        window.conceal();
        VisibilityOps { show: false, conceal: true, focus: false }
    } else {
        window.show();
        window.focus();
        state.reset_timer(now_ms);
        VisibilityOps { show: true, conceal: false, focus: true }
    }
}

/// The poller's show path: unconditionally reset the activity timestamp,
/// and if the widget is currently hidden, show and focus it, so that new
/// content becomes visible even after an earlier dismissal.
pub fn activate(state: &mut SharedState, window: &mut WindowModel, now_ms: u64) -> (ops: VisibilityOps)
    requires
        old(state).activity_ms <= now_ms,
    ensures
        *final(window) == activated(*old(window)),
        old(window).wf() ==> final(window).wf(),
        final(window).is_visible_spec(),
        !old(window).is_visible_spec() ==> final(window).focused,
        final(state).activity_ms == now_ms,
        final(state).activity_ms >= old(state).activity_ms,
        final(state).snapshot == old(state).snapshot,
        final(state).wf() == old(state).wf(),
        ops == (if old(window).is_visible_spec() {
            VisibilityOps::quiet()
        } else {
            VisibilityOps::show_focus()
        }),
{
    state.reset_timer(now_ms);
    if !window.is_visible() {
        window.show();
        window.focus();
        VisibilityOps { show: true, conceal: false, focus: true }
    } else {
        VisibilityOps { show: false, conceal: false, focus: false }
    }
}

/// The command-surface entry point; it simply defers to the toggle handler.
pub fn toggle_widget_cmd(state: &mut SharedState, window: &mut WindowModel, now_ms: u64) -> (ops: VisibilityOps)
    requires
        old(state).activity_ms <= now_ms,
    ensures
        *final(window) == toggled(*old(window)),
        final(window).wf(),
        final(state).snapshot == old(state).snapshot,
        !old(window).is_visible_spec() ==> final(state).activity_ms == now_ms,
        old(window).is_visible_spec() ==> *final(state) == *old(state),
        final(state).activity_ms >= old(state).activity_ms,
        final(state).wf() == old(state).wf(),
        ops == (if old(window).is_visible_spec() {
            VisibilityOps::conceal_only()
        } else {
            VisibilityOps::show_focus()
        }),
{
    toggle_visibility(state, window, now_ms)
}

} // verus!
