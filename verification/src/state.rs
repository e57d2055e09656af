use vstd::prelude::*;

verus! {

/// Whether a freshly read clipboard text is "new content" with respect to the
/// current snapshot: non-empty and different from the last accepted value.
pub open spec fn is_new_content(snap: Option<Seq<char>>, read: Seq<char>) -> bool {
    read.len() > 0 && snap != Option::Some(read)
}

/// The shared state store: the most recently accepted clipboard text and the
/// moment of the last activity event, on a monotone millisecond clock.
///
/// The store is the single source of truth shared by the poller, the
/// inactivity monitor and the visibility controller; callers keep all access
/// mutually exclusive (one worker at a time holds the store).
pub struct SharedState {
    /// The clipboard snapshot: `None` until the first non-empty read is
    /// accepted, then always the last accepted text.
    pub snapshot: Option<String>,
    /// The activity timestamp, in milliseconds of the monotone clock.
    pub activity_ms: u64,
}

impl SharedState {
    /// The snapshot as a mathematical value.
    pub open spec fn snap(&self) -> Option<Seq<char>> {
        match self.snapshot {
            Option::Some(s) => Option::Some(s@),
            Option::None => Option::None,
        }
    }

    /// Well-formed: an accepted snapshot is never the empty text.
    pub open spec fn wf(&self) -> bool {
        self.snapshot matches Option::Some(s) ==> s@.len() > 0
    }

    /// A fresh store with no snapshot and the activity clock set to `now_ms`.
    pub fn new(now_ms: u64) -> (s: SharedState)
        ensures
            s.wf(),
            s.snap() is None,
            s.activity_ms == now_ms,
    {
        SharedState { snapshot: Option::None, activity_ms: now_ms }
    }

    /// Reset the activity timestamp to the present moment. The clock is
    /// monotone, so the timestamp never moves backward.
    pub fn reset_timer(&mut self, now_ms: u64)
        requires
            old(self).activity_ms <= now_ms,
        ensures
            final(self).activity_ms == now_ms,
            final(self).activity_ms >= old(self).activity_ms,
            final(self).snapshot == old(self).snapshot,
            final(self).wf() == old(self).wf(),
    {
        self.activity_ms = now_ms;
    }

    /// Atomic compare-then-write on the snapshot: accept `content` exactly
    /// when it is non-empty and differs from the current snapshot, and say
    /// whether it was accepted. The activity timestamp is untouched; only a
    /// show-triggering component resets it.
    pub fn accept_if_new(&mut self, content: &String) -> (changed: bool)
        ensures
            changed == is_new_content(old(self).snap(), content@),
            changed ==> final(self).snap() == Option::Some(content@),
            changed ==> final(self).wf(),
            !changed ==> *final(self) == *old(self),
            final(self).activity_ms == old(self).activity_ms,
    {
        let changed: bool = if content.as_str().is_empty() {
            false
        } else {
            match &self.snapshot {
                Option::Some(prev) => !(*prev == *content),
                Option::None => true,
            }
        };
        if changed {
            self.snapshot = Option::Some(content.clone());
        }
        changed
    }
}

} // verus!
