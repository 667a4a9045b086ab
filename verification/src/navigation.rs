//! Which screen mode, popup and focus are active, and the legal moves between
//! them.

use vstd::prelude::*;
use crate::state::{Focus, PopupMode, UiMode, is_first_index};
use crate::state::{lemma_mode_tabs_distinct, lemma_popup_tabs_distinct};

verus! {

/// The view and focus to go back to when a menu or form is left.
#[derive(Debug, Clone, Copy, PartialEq, Eq, Structural)]
pub struct ReturnPoint {
    pub ui_mode: UiMode,
    pub focus: Focus,
}

/// An open popup and the focus it took over from.
#[derive(Debug, Clone, Copy, PartialEq, Eq, Structural)]
pub struct OpenPopup {
    pub mode: PopupMode,
    pub return_focus: Focus,
}

/// The navigation state: the screen mode, the focus, the popup over it if one
/// is open, and where to return to from a menu or form.
#[derive(Debug, Clone, Copy, PartialEq, Eq, Structural)]
pub struct Navigation {
    pub ui_mode: UiMode,
    pub focus: Focus,
    pub popup: Option<OpenPopup>,
    pub return_to: Option<ReturnPoint>,
}

impl Navigation {
    /// The regions that can hold the focus now: the popup's while one is
    /// open, the screen mode's otherwise.
    pub open spec fn active_tabs(self) -> Seq<Focus> {
        match self.popup {
            Some(popup) => popup.mode.tabs(),
            None => self.ui_mode.tabs(),
        }
    }

    /// The focus of the screen under the popup, or the focus itself when no
    /// popup is open.
    pub open spec fn underlying_focus(self) -> Focus {
        match self.popup {
            Some(popup) => popup.return_focus,
            None => self.focus,
        }
    }

    /// The open popup's kind.
    pub open spec fn popup_mode(self) -> Option<PopupMode> {
        match self.popup {
            Some(popup) => Some(popup.mode),
            None => None,
        }
    }

    /// The state is legal: the focus is one the active list offers, the focus
    /// under a popup is one the screen mode offers, and a return point is
    /// held exactly while a menu or form is shown and names a view and a
    /// focus of that view.
    pub open spec fn wf(self) -> bool {
        &&& self.active_tabs().contains(self.focus)
        &&& self.ui_mode.tabs().contains(self.underlying_focus())
        &&& self.return_to is Some <==> !self.ui_mode.is_view()
        &&& self.return_to matches Some(point) ==> point.ui_mode.is_view()
            && point.ui_mode.tabs().contains(point.focus)
    }

    /// The state at start-up: the given view, or `Title` if `mode` is no
    /// view, with the focus on the title where the view offers it.
    pub open spec fn start(mode: UiMode) -> Navigation {
        let ui_mode = if mode.is_view() {
            mode
        } else {
            UiMode::Title
        };
        Navigation {
            ui_mode,
            focus: Focus::Title.or_first_of(ui_mode.tabs()),
            popup: None,
            return_to: None,
        }
    }

    /// Takes `candidate` as the focus if the active list offers it.
    pub open spec fn with_focus(self, candidate: Focus) -> Navigation {
        if self.active_tabs().contains(candidate) {
            Navigation { focus: candidate, ..self }
        } else {
            self
        }
    }

    /// Moves the focus one region forward in the active list.
    pub open spec fn focus_next(self) -> Navigation {
        Navigation { focus: self.focus.next_spec(self.active_tabs()), ..self }
    }

    /// Moves the focus one region back in the active list.
    pub open spec fn focus_prev(self) -> Navigation {
        Navigation { focus: self.focus.prev_spec(self.active_tabs()), ..self }
    }

    /// Shows the view `mode`: any popup closes, any return point is dropped,
    /// and the focus is kept if the view offers it and is the view's first
    /// region otherwise. A `mode` that is no view changes nothing.
    pub open spec fn switch_view(self, mode: UiMode) -> Navigation {
        if mode.is_view() {
            Navigation {
                ui_mode: mode,
                focus: self.underlying_focus().or_first_of(mode.tabs()),
                popup: None,
                return_to: None,
            }
        } else {
            self
        }
    }

    /// Whether the menu or form `mode` can be entered: only from a view, and
    /// only if `mode` is not itself a view.
    pub open spec fn can_enter(self, mode: UiMode) -> bool {
        self.ui_mode.is_view() && !mode.is_view()
    }

    /// Enters the menu or form `mode` from a view: the view and its focus are
    /// recorded, any popup closes, and the focus goes to `wanted` if `mode`
    /// offers it and to the first region of `mode` otherwise. Where
    /// `can_enter` fails nothing changes.
    pub open spec fn enter(self, mode: UiMode, wanted: Focus) -> Navigation {
        if self.can_enter(mode) {
            Navigation {
                ui_mode: mode,
                focus: wanted.or_first_of(mode.tabs()),
                popup: None,
                return_to: Some(
                    ReturnPoint { ui_mode: self.ui_mode, focus: self.underlying_focus() },
                ),
            }
        } else {
            self
        }
    }

    /// Leaves a menu or form: the recorded view and focus come back and any
    /// popup closes. Without a return point nothing changes.
    pub open spec fn leave(self) -> Navigation {
        match self.return_to {
            Some(point) => Navigation {
                ui_mode: point.ui_mode,
                focus: point.focus.or_first_of(point.ui_mode.tabs()),
                popup: None,
                return_to: None,
            },
            None => self,
        }
    }

    /// Leaves the config menu if it is shown, enters it otherwise.
    pub open spec fn toggle_config(self) -> Navigation {
        if self.ui_mode == UiMode::Config {
            self.leave()
        } else {
            self.enter(UiMode::Config, self.underlying_focus())
        }
    }

    /// Opens `popup` over the screen. The screen mode stays; the focus moves
    /// into the popup's list; the focus of the screen is remembered. A popup
    /// that was open is replaced.
    pub open spec fn open_popup(self, popup: PopupMode) -> Navigation {
        Navigation {
            focus: self.focus.or_first_of(popup.tabs()),
            popup: Some(OpenPopup { mode: popup, return_focus: self.underlying_focus() }),
            ..self
        }
    }

    /// Closes the popup and gives the focus back to the screen. Without a
    /// popup nothing changes.
    pub open spec fn close_popup(self) -> Navigation {
        match self.popup {
            Some(popup) => Navigation {
                focus: popup.return_focus.or_first_of(self.ui_mode.tabs()),
                popup: None,
                ..self
            },
            None => self,
        }
    }

    /// The regions that can hold the focus now.
    pub fn get_available_tabs(&self) -> (tabs: Vec<Focus>)
        ensures
            tabs@ == self.active_tabs(),
            tabs.len() > 0,
    {
        match self.popup {
            Some(popup) => popup.mode.get_available_tabs(),
            None => self.ui_mode.get_available_tabs(),
        }
    }

    /// The focus of the screen under the popup, or the focus itself.
    pub fn screen_focus(&self) -> (focus: Focus)
        ensures
            focus == self.underlying_focus(),
    {
        match self.popup {
            Some(popup) => popup.return_focus,
            None => self.focus,
        }
    }

    /// The state at start-up.
    pub fn new(mode: UiMode) -> (nav: Navigation)
        ensures
            nav == Navigation::start(mode),
            nav.wf(),
    {
        let ui_mode = if mode.is_view_mode() {
            mode
        } else {
            let ghost views = UiMode::view_modes_spec();
            assert(views[1] == UiMode::Title);
            UiMode::Title
        };
        let tabs = ui_mode.get_available_tabs();
        Navigation { ui_mode, focus: Focus::Title.or_first(&tabs), popup: None, return_to: None }
    }

    /// Takes `candidate` as the focus if the active list offers it.
    pub fn adopt_focus(&mut self, candidate: Focus)
        ensures
            *final(self) == old(self).with_focus(candidate),
            old(self).wf() ==> final(self).wf(),
    {
        let tabs = self.get_available_tabs();
        if candidate.is_among(&tabs) {
            self.focus = candidate;
        }
    }

    /// Moves the focus one region forward in the active list.
    pub fn next_focus(&mut self)
        ensures
            *final(self) == old(self).focus_next(),
            old(self).wf() ==> final(self).wf(),
    {
        let tabs = self.get_available_tabs();
        self.focus = self.focus.next(&tabs);
    }

    /// Moves the focus one region back in the active list.
    pub fn previous_focus(&mut self)
        ensures
            *final(self) == old(self).focus_prev(),
            old(self).wf() ==> final(self).wf(),
    {
        let tabs = self.get_available_tabs();
        self.focus = self.focus.prev(&tabs);
    }

    /// Shows the view `mode`.
    pub fn set_view(&mut self, mode: UiMode)
        ensures
            *final(self) == old(self).switch_view(mode),
            mode.is_view() ==> final(self).wf(),
            old(self).wf() ==> final(self).wf(),
    {
        if mode.is_view_mode() {
            let tabs = mode.get_available_tabs();
            let focus = self.screen_focus().or_first(&tabs);
            *self = Navigation { ui_mode: mode, focus, popup: None, return_to: None };
        }
    }

    /// Enters the menu or form `mode` if that is legal, and says whether it
    /// was.
    pub fn enter_mode(&mut self, mode: UiMode, wanted: Focus) -> (entered: bool)
        ensures
            entered == old(self).can_enter(mode),
            *final(self) == old(self).enter(mode, wanted),
            old(self).wf() ==> final(self).wf(),
    {
        if self.ui_mode.is_view_mode() && !mode.is_view_mode() {
            let tabs = mode.get_available_tabs();
            let point = ReturnPoint { ui_mode: self.ui_mode, focus: self.screen_focus() };
            *self = Navigation {
                ui_mode: mode,
                focus: wanted.or_first(&tabs),
                popup: None,
                return_to: Some(point),
            };
            true
        } else {
            false
        }
    }

    /// Leaves a menu or form, and says whether there was one to leave.
    pub fn leave_mode(&mut self) -> (left: bool)
        ensures
            left == old(self).return_to is Some,
            *final(self) == old(self).leave(),
            old(self).wf() ==> final(self).wf(),
    {
        match self.return_to {
            Some(point) => {
                let tabs = point.ui_mode.get_available_tabs();
                *self = Navigation {
                    ui_mode: point.ui_mode,
                    focus: point.focus.or_first(&tabs),
                    popup: None,
                    return_to: None,
                };
                true
            },
            None => false,
        }
    }

    /// Opens `popup` over the screen.
    pub fn show_popup(&mut self, popup: PopupMode)
        ensures
            *final(self) == old(self).open_popup(popup),
            old(self).wf() ==> final(self).wf(),
    {
        let tabs = popup.get_available_tabs();
        let return_focus = self.screen_focus();
        self.focus = self.focus.or_first(&tabs);
        self.popup = Some(OpenPopup { mode: popup, return_focus });
    }

    /// Closes the popup, and says whether one was open.
    pub fn hide_popup(&mut self) -> (closed: bool)
        ensures
            closed == old(self).popup is Some,
            *final(self) == old(self).close_popup(),
            old(self).wf() ==> final(self).wf(),
    {
        match self.popup {
            Some(popup) => {
                let tabs = self.ui_mode.get_available_tabs();
                self.focus = popup.return_focus.or_first(&tabs);
                self.popup = None;
                true
            },
            None => false,
        }
    }
}

/// After a change of screen mode the focus is one that the new mode offers:
/// this holds of showing a view, of entering a menu or form, and of leaving
/// one, whatever the state before. Toggling the config menu from a legal
/// state leaves the focus in the active list whether or not the mode changed.
pub proof fn lemma_focus_legal_after_mode_change(nav: Navigation, mode: UiMode, wanted: Focus)
    ensures
        mode.is_view() ==> nav.switch_view(mode).ui_mode == mode && mode.tabs().contains(
            nav.switch_view(mode).focus,
        ),
        nav.can_enter(mode) ==> nav.enter(mode, wanted).ui_mode == mode && mode.tabs().contains(
            nav.enter(mode, wanted).focus,
        ),
        nav.return_to is Some ==> nav.leave().ui_mode.tabs().contains(nav.leave().focus),
        nav.wf() ==> nav.toggle_config().active_tabs().contains(nav.toggle_config().focus),
{
    lemma_mode_tabs_distinct(mode);
    if nav.return_to is Some {
        lemma_mode_tabs_distinct(nav.return_to->0.ui_mode);
    }
    lemma_mode_tabs_distinct(UiMode::Config);
}

/// Every move keeps a legal state legal.
pub proof fn lemma_moves_keep_wf(nav: Navigation, mode: UiMode, popup: PopupMode, focus: Focus)
    requires
        nav.wf(),
    ensures
        nav.with_focus(focus).wf(),
        nav.focus_next().wf(),
        nav.focus_prev().wf(),
        nav.switch_view(mode).wf(),
        nav.enter(mode, focus).wf(),
        nav.leave().wf(),
        nav.toggle_config().wf(),
        nav.open_popup(popup).wf(),
        nav.close_popup().wf(),
{
    lemma_mode_tabs_distinct(mode);
    lemma_mode_tabs_distinct(nav.ui_mode);
    lemma_mode_tabs_distinct(UiMode::Config);
    lemma_popup_tabs_distinct(popup);
    if nav.popup is Some {
        lemma_popup_tabs_distinct(nav.popup->0.mode);
    }
    if nav.return_to is Some {
        lemma_mode_tabs_distinct(nav.return_to->0.ui_mode);
    }
    lemma_walk_stays_in(nav.focus, nav.active_tabs());
}

/// A step forward or back over a list that is not empty lands in the list.
pub proof fn lemma_walk_stays_in(focus: Focus, available: Seq<Focus>)
    requires
        available.len() > 0,
    ensures
        available.contains(focus.next_spec(available)),
        available.contains(focus.prev_spec(available)),
{
    let n = available.len() as int;
    let i = focus.effective_index(available);
    if available.contains(focus) {
        let at = choose|at: int| 0 <= at < n && available[at] == focus;
        lemma_first_index_exists(available, focus, at);
    }
    assert(0 <= i < n);
    assert(0 <= (i + 1) % n < n);
    assert(0 <= (i - 1 + n) % n < n);
}

/// A region that stands in a list has a first place there.
proof fn lemma_first_index_exists(available: Seq<Focus>, focus: Focus, at: int)
    requires
        0 <= at < available.len(),
        available[at] == focus,
    ensures
        exists|i: int| is_first_index(available, focus, i),
    decreases at,
{
    if exists|m: int| 0 <= m < at && available[m] == focus {
        let m = choose|m: int| 0 <= m < at && available[m] == focus;
        lemma_first_index_exists(available, focus, m);
    } else {
        assert(is_first_index(available, focus, at));
    }
}

/// Entering a menu or form from a view and leaving it again restores the
/// view and the focus exactly; so does toggling the config menu twice.
pub proof fn lemma_enter_then_leave_restores(nav: Navigation, mode: UiMode, wanted: Focus)
    requires
        nav.wf(),
        nav.popup is None,
        nav.can_enter(mode),
    ensures
        nav.enter(mode, wanted).leave() == nav,
        nav.toggle_config().toggle_config() == nav,
{
    let views = UiMode::view_modes_spec();
    assert(!views.contains(UiMode::Config)) by {
        assert forall|i: int| 0 <= i < views.len() implies views[i] != UiMode::Config by {}
    }
}

/// Entering a menu or form while a popup is open closes the popup, and
/// leaving the menu or form then restores the view and the focus that the
/// screen had under the popup.
pub proof fn lemma_enter_over_popup_then_leave(nav: Navigation, mode: UiMode, wanted: Focus)
    requires
        nav.wf(),
        nav.can_enter(mode),
    ensures
        nav.enter(mode, wanted).leave() == nav.close_popup(),
{
}

/// Opening a popup and closing it restores the screen mode and the focus
/// exactly, and the popup never changes the screen mode.
pub proof fn lemma_open_then_close_restores(nav: Navigation, popup: PopupMode)
    requires
        nav.wf(),
        nav.popup is None,
    ensures
        nav.open_popup(popup).ui_mode == nav.ui_mode,
        nav.open_popup(popup).close_popup() == nav,
{
}

} // verus!
