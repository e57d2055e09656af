use vstd::prelude::*;

verus! {

/// The two logical states of the widget window.
#[derive(Clone, Copy, PartialEq, Eq, Structural, Debug)]
pub enum VisibilityState {
    Hidden,
    Visible,
}

/// A model of the external widget window, mirroring what the window system
/// reports: whether the window is shown, and whether it has input focus.
/// The window system's own show/hide/focus calls are idempotent, and so are
/// the model's; visibility is always re-derived from this mirror rather than
/// cached elsewhere.
#[derive(Clone, Copy, PartialEq, Eq, Structural, Debug)]
pub struct WindowModel {
    pub visibility: VisibilityState,
    pub focused: bool,
}

impl WindowModel {
    /// Only a shown window can hold focus.
    pub open spec fn wf(&self) -> bool {
        self.focused ==> self.visibility == VisibilityState::Visible
    }

    pub open spec fn is_visible_spec(&self) -> bool {
        self.visibility == VisibilityState::Visible
    }

    /// The window after a show call: shown, focus as it was.
    pub open spec fn shown(w: WindowModel) -> WindowModel {
        WindowModel { visibility: VisibilityState::Visible, focused: w.focused }
    }

    /// The window after a hide call: concealed and without focus.
    pub open spec fn hidden(w: WindowModel) -> WindowModel {
        WindowModel { visibility: VisibilityState::Hidden, focused: false }
    }

    /// The window after a focus call: focus taken, visibility as it was.
    pub open spec fn with_focus(w: WindowModel) -> WindowModel {
        WindowModel { visibility: w.visibility, focused: true }
    }

    /// A fresh widget window starts concealed.
    pub fn new_hidden() -> (w: WindowModel)
        ensures
            w.wf(),
            !w.is_visible_spec(),
            !w.focused,
    {
        WindowModel { visibility: VisibilityState::Hidden, focused: false }
    }

    /// What the window system reports of the widget.
    pub fn is_visible(&self) -> (b: bool)
        ensures
            b == self.is_visible_spec(),
    {
        match self.visibility {
            VisibilityState::Visible => true,
            VisibilityState::Hidden => false,
        }
    }

    pub fn show(&mut self)
        ensures
            *final(self) == Self::shown(*old(self)),
            final(self).wf(),
    {
        self.visibility = VisibilityState::Visible;
    }

    pub fn conceal(&mut self)
        ensures
            *final(self) == Self::hidden(*old(self)),
            final(self).wf(),
    {
        self.visibility = VisibilityState::Hidden;
        self.focused = false;
    }

    pub fn focus(&mut self)
        requires
            old(self).is_visible_spec(),
        ensures
            *final(self) == Self::with_focus(*old(self)),
            final(self).wf(),
    {
        self.focused = true;
    }

    /// Showing is idempotent: a second show call leaves the window exactly
    /// where a single one does.
    pub proof fn lemma_show_idempotent(w: WindowModel)
        ensures
            Self::shown(Self::shown(w)) == Self::shown(w),
    {
    }

    /// Hiding is idempotent: hiding an already-hidden window is a no-op, so
    /// two hide calls in a row end exactly where a single one does.
    pub proof fn lemma_hide_idempotent(w: WindowModel)
        ensures
            Self::hidden(Self::hidden(w)) == Self::hidden(w),
            !w.is_visible_spec() && !w.focused ==> Self::hidden(w) == w,
    {
    }
}

} // verus!
