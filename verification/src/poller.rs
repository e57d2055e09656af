use vstd::prelude::*;

verus! {

use crate::controller::{activate, VisibilityOps};
use crate::state::{is_new_content, SharedState};
use crate::window::WindowModel;

/// How long the poller sleeps between clipboard reads, in milliseconds.
/// This sets the maximum detection latency.
pub const POLL_INTERVAL_MS: u64 = 500;

/// The outcome of one external clipboard read handed to the poller:
/// `None` where the read failed this cycle, `Some` with the text otherwise.
pub open spec fn read_view(read: Option<String>) -> Option<Seq<char>> {
    match read {
        Option::Some(s) => Option::Some(s@),
        Option::None => Option::None,
    }
}

/// Whether one cycle publishes the "clipboard-changed" event: exactly when
/// the read succeeded with non-empty text that differs from the snapshot.
pub open spec fn fires_event(snap: Option<Seq<char>>, read: Option<Seq<char>>) -> bool {
    match read {
        Option::Some(s) => is_new_content(snap, s),
        Option::None => false,
    }
}

/// What one poller cycle decided: the payload of the "clipboard-changed"
/// event where it fires, and the window-system calls to mirror.
pub struct PollOutcome {
    pub event: Option<String>,
    pub ops: VisibilityOps,
}

/// One cycle of the clipboard poller, fed the result of the external
/// clipboard read (`None` for a failed read). The event fires if and only
/// if the read is non-empty text that differs from the snapshot; a fired
/// event carries the new content, which becomes the snapshot, resets the
/// activity timestamp and makes the widget visible. A failed, empty or
/// repeated read leaves everything untouched.
pub fn poll_cycle(state: &mut SharedState, window: &mut WindowModel, read: Option<String>, now_ms: u64) -> (out: PollOutcome)
    requires
        old(state).activity_ms <= now_ms,
    ensures
        out.event is Some <==> fires_event(old(state).snap(), read_view(read)),
        read_view(read) matches Option::Some(s) && s.len() == 0 ==> out.event is None,
        read_view(read) matches Option::Some(s) && s.len() == 0 ==> *final(state) == *old(state),
        out.event matches Option::Some(e) ==> read_view(read) == Option::Some(e@),
        fires_event(old(state).snap(), read_view(read)) ==> final(state).snap() == read_view(read),
        fires_event(old(state).snap(), read_view(read)) ==> final(state).activity_ms == now_ms,
        fires_event(old(state).snap(), read_view(read)) ==> *final(window) == crate::controller::activated(*old(window)),
        fires_event(old(state).snap(), read_view(read)) ==> final(window).is_visible_spec(),
        fires_event(old(state).snap(), read_view(read)) ==> out.ops == (if old(window).is_visible_spec() {
            VisibilityOps::quiet()
        } else {
            VisibilityOps::show_focus()
        }),
        !fires_event(old(state).snap(), read_view(read)) ==> *final(state) == *old(state),
        !fires_event(old(state).snap(), read_view(read)) ==> *final(window) == *old(window),
        !fires_event(old(state).snap(), read_view(read)) ==> out.ops == VisibilityOps::quiet(),
        old(state).wf() ==> final(state).wf(),
        old(window).wf() ==> final(window).wf(),
        final(state).activity_ms >= old(state).activity_ms,
{
    match read {
        Option::None => PollOutcome {
            event: Option::None,
            ops: VisibilityOps { show: false, conceal: false, focus: false },
        },
        Option::Some(content) => {
            let changed: bool = state.accept_if_new(&content);
            if changed {
                let ops = activate(state, window, now_ms);
                PollOutcome { event: Option::Some(content), ops }
            } else {
                PollOutcome {
                    event: Option::None,
                    ops: VisibilityOps { show: false, conceal: false, focus: false },
                }
            }
        },
    }
}

} // verus!
