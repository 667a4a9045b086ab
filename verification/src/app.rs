//! The application state and what a keystroke, a palette command or a
//! collaborator's report does to it. Nothing here performs I/O: persistence
//! intents and toasts are queued for the caller to carry out.

use vstd::prelude::*;
use vstd::string::*;
use crate::actions::{Action, Actions, BindingView, KeyBindingTable};
use crate::actions::{binds, conflict_free, default_rows, is_resolution, resolution};
use crate::actions::{lemma_default_binds, lemma_distinct_actions_conflict_free, lemma_resolution};
use crate::actions::lemma_bindings_disjoint;
use crate::kanban::{Board, card_exists, has_card};
use crate::key::Key;
use crate::navigation::{Navigation, lemma_moves_keep_wf};
use crate::navigation::{lemma_enter_then_leave_restores, lemma_open_then_close_restores};
use crate::state::{AppState, Focus, PopupMode, UiMode};
use crate::widgets::{CommandPalette, CommandPaletteActions, PaletteView, SearchEntry, ToastType};

verus! {

/// Whether the event loop goes on after an event.
#[derive(Debug, Clone, Copy, PartialEq, Eq, Structural)]
pub enum AppReturn {
    Exit,
    Continue,
}

/// A request for work that the core does not do itself.
#[derive(Debug, Clone, Copy, PartialEq, Eq, Structural, Hash)]
pub enum IoEvent {
    SaveLocalData,
    SaveCloudData,
    LoadSave,
    ResetVisibleBoardsandCards,
    ExportToJson,
}

/// A toast the core asks to be shown.
#[derive(Debug)]
pub struct ToastRequest {
    pub toast_type: ToastType,
    pub message: String,
}

/// A toast request as plain values.
pub struct ToastView {
    pub toast_type: ToastType,
    pub message: Seq<char>,
}

impl View for ToastRequest {
    type V = ToastView;

    open spec fn view(&self) -> ToastView {
        ToastView { toast_type: self.toast_type, message: self.message@ }
    }
}

/// The user's settings, as far as the core reads them.
#[derive(Debug)]
pub struct AppConfig {
    pub db_path: String,
    pub default_view: UiMode,
}

impl AppConfig {
    /// The first line of the settings list.
    pub open spec fn db_path_line(self) -> Seq<char> {
        "db_path: "@ + self.db_path@
    }

    /// The second line of the settings list.
    pub open spec fn default_view_line(self) -> Seq<char> {
        "default_view: "@ + self.default_view.label()
    }

    /// The settings of a fresh installation whose database lies at `db_path`.
    pub fn default(db_path: String) -> (config: AppConfig)
        ensures
            config.db_path == db_path,
            config.default_view == UiMode::TitleHelpLog,
    {
        AppConfig { db_path, default_view: UiMode::TitleHelpLog }
    }

    /// The settings as lines of `name: value`.
    pub fn to_list(&self) -> (lines: Vec<String>)
        ensures
            lines.len() == 2,
            lines[0]@ == self.db_path_line(),
            lines[1]@ == self.default_view_line(),
    {
        let mut first = "db_path: ".to_owned();
        first.append(self.db_path.as_str());
        let mut second = "default_view: ".to_owned();
        second.append(self.default_view.as_str());
        let mut lines: Vec<String> = Vec::new();
        lines.push(first);
        lines.push(second);
        lines
    }
}

/// The actions that are legal in a context: only quitting before start-up is
/// done, everything once it is, and everything but the changes of screen mode
/// while a popup is open.
pub open spec fn contextual_actions(status: AppState, popup: Option<PopupMode>) -> Seq<Action> {
    if status == AppState::Init {
        seq![Action::Quit]
    } else if popup is Some {
        seq![
            Action::Quit,
            Action::NextFocus,
            Action::PreviousFocus,
            Action::GoUp,
            Action::GoDown,
            Action::TakeUserInput,
            Action::Escape,
            Action::Enter,
        ]
    } else {
        seq![
            Action::Quit,
            Action::NextFocus,
            Action::PreviousFocus,
            Action::SetUiMode,
            Action::ToggleConfig,
            Action::GoUp,
            Action::GoDown,
            Action::TakeUserInput,
            Action::Escape,
            Action::Enter,
        ]
    }
}

/// The contextual actions never bind a chord twice.
pub proof fn lemma_contextual_actions_conflict_free(status: AppState, popup: Option<PopupMode>)
    ensures
        conflict_free(default_rows(contextual_actions(status, popup))),
{
    lemma_distinct_actions_conflict_free(contextual_actions(status, popup));
}

/// The application state as plain values.
pub struct AppView {
    pub nav: Navigation,
    pub status: AppState,
    pub bindings: Seq<BindingView>,
    pub actions: Seq<Action>,
    pub is_loading: bool,
    pub go_up: bool,
    pub go_down: bool,
    pub current_obj_index: usize,
    pub input: Seq<char>,
    pub boards: Seq<Board>,
    pub current_board_id: Option<u128>,
    pub current_card_id: Option<u128>,
    pub debug_menu_toggled: bool,
    pub default_view: UiMode,
    pub palette: PaletteView,
    pub io_events: Seq<IoEvent>,
    pub toasts: Seq<ToastView>,
}

impl AppView {
    /// The state is legal: the navigation state is, no chord is bound twice,
    /// the contextual actions are those of the context, and the palette's
    /// cursors fit its lists.
    pub open spec fn wf(self) -> bool {
        &&& self.nav.wf()
        &&& conflict_free(self.bindings)
        &&& self.actions == contextual_actions(self.status, self.nav.popup_mode())
        &&& self.palette.wf()
    }

    /// The state before start-up is done: the start-up navigation state for
    /// `default_view`, only quitting possible, nothing typed, nothing
    /// current, nothing queued.
    pub open spec fn initial(
        default_view: UiMode,
        bindings: Seq<BindingView>,
        palette: PaletteView,
    ) -> AppView {
        AppView {
            nav: Navigation::start(default_view),
            status: AppState::Init,
            bindings,
            actions: seq![Action::Quit],
            is_loading: false,
            go_up: false,
            go_down: false,
            current_obj_index: 0,
            input: Seq::empty(),
            boards: Seq::empty(),
            current_board_id: None,
            current_card_id: None,
            debug_menu_toggled: false,
            default_view,
            palette,
            io_events: Seq::empty(),
            toasts: Seq::empty(),
        }
    }

    /// The state with another navigation state, and the contextual actions
    /// that go with it.
    pub open spec fn with_nav(self, nav: Navigation) -> AppView {
        AppView { nav, actions: contextual_actions(self.status, nav.popup_mode()), ..self }
    }

    /// The state with another status, and the contextual actions that go with
    /// it.
    pub open spec fn with_status(self, status: AppState) -> AppView {
        AppView {
            status,
            actions: contextual_actions(status, self.nav.popup_mode()),
            ..self
        }
    }

    /// The state after an intent was queued for the worker: the intent is
    /// last in the queue and the loading flag is up.
    pub open spec fn dispatched(self, event: IoEvent) -> AppView {
        AppView { is_loading: true, io_events: self.io_events.push(event), ..self }
    }

    /// The state after a toast was asked for.
    pub open spec fn toasted(self, toast_type: ToastType, message: Seq<char>) -> AppView {
        AppView { toasts: self.toasts.push(ToastView { toast_type, message }), ..self }
    }

    /// The state after a palette command ran to its end: the input is
    /// cleared and text entry is over.
    pub open spec fn finished(self) -> AppView {
        AppView { input: Seq::empty(), ..self.with_status(AppState::Initialized) }
    }

    /// The state after the popup closed and, where that is legal, the menu or
    /// form `mode` was entered with the list cursor at its start.
    pub open spec fn entered_menu(self, mode: UiMode, wanted: Focus) -> AppView {
        let closed = self.nav.close_popup();
        if closed.can_enter(mode) {
            AppView { current_obj_index: 0, ..self.with_nav(closed.enter(mode, wanted)) }
        } else {
            self.with_nav(closed)
        }
    }

    /// Whether the current board holds the current card.
    pub open spec fn current_card_found(self) -> bool {
        match (self.current_board_id, self.current_card_id) {
            (Some(board_id), Some(card_id)) => card_exists(self.boards, board_id, card_id),
            _ => false,
        }
    }

    /// The state after the palette command `command` ran. `Quit` changes
    /// nothing: it ends the event loop.
    pub open spec fn ran(self, command: CommandPaletteActions) -> AppView {
        let closed = self.nav.close_popup();
        match command {
            CommandPaletteActions::ExportToJSON => self.with_nav(closed).dispatched(
                IoEvent::ExportToJson,
            ).finished(),
            CommandPaletteActions::Quit => self,
            CommandPaletteActions::OpenConfigMenu => self.entered_menu(
                UiMode::Config,
                Focus::Config,
            ).finished(),
            CommandPaletteActions::OpenMainMenu => self.entered_menu(
                UiMode::MainMenu,
                Focus::MainMenu,
            ).finished(),
            CommandPaletteActions::OpenHelpMenu => self.entered_menu(
                UiMode::HelpMenu,
                Focus::Body,
            ).finished(),
            CommandPaletteActions::SaveKanbanState => self.with_nav(closed).dispatched(
                IoEvent::SaveLocalData,
            ).finished(),
            CommandPaletteActions::NewBoard => if self.nav.ui_mode.is_view() {
                self.with_nav(closed.enter(UiMode::NewBoard, Focus::NewBoardName)).finished()
            } else {
                self.with_nav(closed).toasted(
                    ToastType::Error,
                    "Cannot create a new board in this view"@,
                ).finished()
            },
            CommandPaletteActions::NewCard => if self.nav.ui_mode.is_view() {
                if self.current_board_id is None {
                    self.with_nav(closed).toasted(
                        ToastType::Error,
                        "No board Selected / Available"@,
                    ).with_status(AppState::Initialized)
                } else {
                    self.with_nav(closed.enter(UiMode::NewCard, Focus::NewCardName)).finished()
                }
            } else {
                self.with_nav(closed).toasted(
                    ToastType::Error,
                    "Cannot create a new card in this view"@,
                ).finished()
            },
            CommandPaletteActions::ResetUI => self.with_nav(
                closed.switch_view(self.default_view),
            ).dispatched(IoEvent::ResetVisibleBoardsandCards).finished(),
            CommandPaletteActions::ChangeUIMode => self.with_nav(
                self.nav.open_popup(PopupMode::ChangeUIMode),
            ).finished(),
            CommandPaletteActions::ChangeCurrentCardStatus => if self.nav.ui_mode.is_view() {
                if self.current_card_found() {
                    AppView {
                        current_obj_index: 0,
                        ..self.with_nav(self.nav.open_popup(PopupMode::ChangeCurrentCardStatus))
                    }.with_status(AppState::Initialized)
                } else {
                    self.toasted(ToastType::Error, "Could not find current card"@).finished()
                }
            } else {
                self.with_nav(closed).toasted(
                    ToastType::Error,
                    "Cannot change card status in this view"@,
                ).finished()
            },
            CommandPaletteActions::LoadASave => self.with_nav(
                closed.enter(UiMode::LoadSave, closed.focus),
            ).finished(),
            CommandPaletteActions::DebugMenu => AppView {
                debug_menu_toggled: !self.debug_menu_toggled,
                ..self.with_nav(closed)
            }.finished(),
            CommandPaletteActions::ChangeTheme => self.with_nav(
                self.nav.open_popup(PopupMode::ChangeTheme),
            ).finished(),
            CommandPaletteActions::CreateATheme => self.with_nav(
                closed.enter(UiMode::CreateTheme, closed.focus),
            ).finished(),
        }
    }

    /// What running the command under the palette's cursor does: `Quit` ends
    /// the event loop and changes nothing, any other command has its effect,
    /// and with no command under the cursor only text entry ends.
    pub open spec fn command_run(self) -> (AppView, AppReturn) {
        match self.palette.selected_command() {
            Some(command) => if command == CommandPaletteActions::Quit {
                (self, AppReturn::Exit)
            } else {
                (self.ran(command), AppReturn::Continue)
            },
            None => (self.with_status(AppState::Initialized), AppReturn::Continue),
        }
    }

    /// What a keystroke does during text entry: `Enter` commits, which runs
    /// the selected command if the command palette is open and otherwise
    /// just ends text entry; `Esc` ends text entry; the text of any other
    /// chord is appended to the input.
    pub open spec fn typed(self, key: Key) -> (AppView, AppReturn) {
        if key == Key::Enter {
            if self.nav.popup_mode() == Some(PopupMode::CommandPalette) {
                self.command_run()
            } else {
                (self.with_status(AppState::Initialized), AppReturn::Continue)
            }
        } else if key == Key::Esc {
            (self.with_status(AppState::Initialized), AppReturn::Continue)
        } else {
            (AppView { input: self.input + key.label(), ..self }, AppReturn::Continue)
        }
    }

    /// What an action does outside text entry. `key` is the chord that
    /// triggered it; `SetUiMode` reads its digit.
    pub open spec fn acted(self, action: Action, key: Key) -> (AppView, AppReturn) {
        match action {
            Action::Quit => (self, AppReturn::Exit),
            Action::NextFocus => (self.with_nav(self.nav.focus_next()), AppReturn::Continue),
            Action::PreviousFocus => (self.with_nav(self.nav.focus_prev()), AppReturn::Continue),
            Action::SetUiMode => (
                self.with_nav(self.nav.switch_view(UiMode::from_number_spec(key.digit_spec()))),
                AppReturn::Continue,
            ),
            Action::ToggleConfig => if self.nav.ui_mode == UiMode::Config {
                (
                    AppView { current_obj_index: 0, ..self.with_nav(self.nav.leave()) },
                    AppReturn::Continue,
                )
            } else {
                (self.with_nav(self.nav.toggle_config()), AppReturn::Continue)
            },
            Action::GoUp => if self.nav.ui_mode == UiMode::Config {
                (AppView { go_up: true, ..self }, AppReturn::Continue)
            } else {
                (self, AppReturn::Continue)
            },
            Action::GoDown => if self.nav.ui_mode == UiMode::Config {
                (AppView { go_down: true, ..self }, AppReturn::Continue)
            } else {
                (self, AppReturn::Continue)
            },
            Action::TakeUserInput => (self.with_status(AppState::UserInput), AppReturn::Continue),
            Action::Escape => if self.nav.popup is Some {
                (self.with_nav(self.nav.close_popup()), AppReturn::Continue)
            } else {
                (self.with_nav(self.nav.leave()), AppReturn::Continue)
            },
            Action::Enter => if self.nav.popup_mode() == Some(PopupMode::CommandPalette) {
                self.command_run()
            } else {
                (self, AppReturn::Continue)
            },
        }
    }

    /// What a keystroke does: during text entry it is typed; otherwise it is
    /// resolved by the key binding table against the contextual actions and
    /// the action is carried out, and a chord that resolves to nothing
    /// changes nothing.
    pub open spec fn stepped(self, key: Key) -> (AppView, AppReturn) {
        if self.status == AppState::UserInput {
            self.typed(key)
        } else {
            match resolution(self.bindings, self.actions, key) {
                Some(action) => self.acted(action, key),
                None => (self, AppReturn::Continue),
            }
        }
    }

    /// The state after `popup` was opened: the command palette starts text
    /// entry unless start-up is still under way.
    pub open spec fn popup_opened(self, popup: PopupMode) -> AppView {
        let opened = self.with_nav(self.nav.open_popup(popup));
        if popup == PopupMode::CommandPalette && self.status != AppState::Init {
            opened.with_status(AppState::UserInput)
        } else {
            opened
        }
    }
}

/// The toast requests in `toasts`, as plain values.
pub open spec fn toast_views(toasts: Seq<ToastRequest>) -> Seq<ToastView> {
    Seq::new(toasts.len(), |i: int| toasts[i]@)
}

/// The application: the navigation state, the text being typed, the command
/// palette, and the queues of intents and toasts for the collaborators.
pub struct App {
    bindings: KeyBindingTable,
    actions: Actions,
    is_loading: bool,
    state: AppState,
    nav: Navigation,
    boards: Vec<Board>,
    go_up: bool,
    go_down: bool,
    current_obj_index: usize,
    current_user_input: String,
    current_board_id: Option<u128>,
    current_card_id: Option<u128>,
    debug_menu_toggled: bool,
    default_view: UiMode,
    command_palette: CommandPalette,
    io_events: Vec<IoEvent>,
    toasts: Vec<ToastRequest>,
}

impl View for App {
    type V = AppView;

    closed spec fn view(&self) -> AppView {
        AppView {
            nav: self.nav,
            status: self.state,
            bindings: self.bindings@,
            actions: self.actions@,
            is_loading: self.is_loading,
            go_up: self.go_up,
            go_down: self.go_down,
            current_obj_index: self.current_obj_index,
            input: self.current_user_input@,
            boards: self.boards@,
            current_board_id: self.current_board_id,
            current_card_id: self.current_card_id,
            debug_menu_toggled: self.debug_menu_toggled,
            default_view: self.default_view,
            palette: self.command_palette@,
            io_events: self.io_events@,
            toasts: toast_views(self.toasts@),
        }
    }
}

/// The contextual actions of a context, as a set.
pub fn actions_for(status: AppState, popup: Option<PopupMode>) -> (set: Actions)
    ensures
        set@ == contextual_actions(status, popup),
        set.wf(),
{
    let list = if status == AppState::Init {
        vec![Action::Quit]
    } else if popup.is_some() {
        vec![
            Action::Quit,
            Action::NextFocus,
            Action::PreviousFocus,
            Action::GoUp,
            Action::GoDown,
            Action::TakeUserInput,
            Action::Escape,
            Action::Enter,
        ]
    } else {
        vec![
            Action::Quit,
            Action::NextFocus,
            Action::PreviousFocus,
            Action::SetUiMode,
            Action::ToggleConfig,
            Action::GoUp,
            Action::GoDown,
            Action::TakeUserInput,
            Action::Escape,
            Action::Enter,
        ]
    };
    proof {
        assert(list@ =~= contextual_actions(status, popup));
        lemma_contextual_actions_conflict_free(status, popup);
    }
    Actions::from(list)
}

impl App {
    /// The application before start-up is done, with the built-in key
    /// bindings: it shows `default_view` (or `Title` if that is no view),
    /// only quitting is possible, no popup is open and nothing is queued.
    pub fn new(default_view: UiMode) -> (app: App)
        ensures
            app@ == AppView::initial(default_view, default_rows(Action::all()), app@.palette),
            app@.palette.available == CommandPaletteActions::vocabulary(),
            app@.palette.commands is None,
            app@.palette.cards is None,
            app@.palette.boards is None,
            app@.wf(),
    {
        App::with_bindings(default_view, KeyBindingTable::defaults())
    }

    /// The application before start-up is done, with the user's key
    /// bindings.
    pub fn with_bindings(default_view: UiMode, bindings: KeyBindingTable) -> (app: App)
        ensures
            app@ == AppView::initial(default_view, bindings@, app@.palette),
            app@.palette.available == CommandPaletteActions::vocabulary(),
            app@.palette.commands is None,
            app@.palette.cards is None,
            app@.palette.boards is None,
            bindings.wf() ==> app@.wf(),
    {
        let app = App {
            bindings,
            actions: actions_for(AppState::Init, None),
            is_loading: false,
            state: AppState::Init,
            nav: Navigation::new(default_view),
            boards: Vec::new(),
            go_up: false,
            go_down: false,
            current_obj_index: 0,
            current_user_input: String::new(),
            current_board_id: None,
            current_card_id: None,
            debug_menu_toggled: false,
            default_view,
            command_palette: CommandPalette::new(),
            io_events: Vec::new(),
            toasts: Vec::new(),
        };
        assert(app@.toasts =~= Seq::<ToastView>::empty());
        assert(app@.actions =~= seq![Action::Quit]);
        app
    }

    fn set_nav(&mut self, nav: Navigation)
        ensures
            final(self)@ == old(self)@.with_nav(nav),
    {
        self.nav = nav;
        self.actions = actions_for(self.state, App::popup_of(&nav));
    }

    fn set_status(&mut self, status: AppState)
        ensures
            final(self)@ == old(self)@.with_status(status),
    {
        self.state = status;
        self.actions = actions_for(status, App::popup_of(&self.nav));
    }

    fn popup_of(nav: &Navigation) -> (popup: Option<PopupMode>)
        ensures
            popup == nav.popup_mode(),
    {
        match nav.popup {
            Some(open) => Some(open.mode),
            None => None,
        }
    }

    fn send_toast(&mut self, toast_type: ToastType, message: &str)
        ensures
            final(self)@ == old(self)@.toasted(toast_type, message@),
    {
        self.toasts.push(ToastRequest { toast_type, message: message.to_owned() });
        assert(final(self)@.toasts =~= old(self)@.toasts.push(
            ToastView { toast_type, message: message@ },
        ));
    }

    fn finish_command(&mut self)
        ensures
            final(self)@ == old(self)@.finished(),
    {
        self.set_status(AppState::Initialized);
        self.current_user_input = String::new();
    }

    fn enter_menu(&mut self, mode: UiMode, wanted: Focus)
        ensures
            final(self)@ == old(self)@.entered_menu(mode, wanted),
    {
        let mut nav = self.nav;
        nav.hide_popup();
        if nav.enter_mode(mode, wanted) {
            self.current_obj_index = 0;
        }
        self.set_nav(nav);
    }

    /// Queues an intent for the worker and raises the loading flag. The flag
    /// comes down with `loaded`, or with `dispatch_failed` if the intent
    /// could not be handed over.
    pub fn dispatch(&mut self, action: IoEvent)
        ensures
            final(self)@ == old(self)@.dispatched(action),
            final(self)@.wf() <== old(self)@.wf(),
    {
        self.is_loading = true;
        self.io_events.push(action);
    }

    /// Hands out the queued intents, oldest first, and empties the queue.
    pub fn take_io_events(&mut self) -> (events: Vec<IoEvent>)
        ensures
            events@ == old(self)@.io_events,
            final(self)@ == (AppView { io_events: Seq::empty(), ..old(self)@ }),
    {
        let mut events: Vec<IoEvent> = Vec::new();
        std::mem::swap(&mut events, &mut self.io_events);
        events
    }

    /// Hands out the queued toast requests, oldest first, and empties the
    /// queue.
    pub fn take_toasts(&mut self) -> (toasts: Vec<ToastRequest>)
        ensures
            toast_views(toasts@) == old(self)@.toasts,
            final(self)@ == (AppView { toasts: Seq::empty(), ..old(self)@ }),
    {
        let mut toasts: Vec<ToastRequest> = Vec::new();
        std::mem::swap(&mut toasts, &mut self.toasts);
        assert(final(self)@.toasts =~= Seq::<ToastView>::empty());
        toasts
    }

    /// The worker could not be reached: the loading flag comes down and
    /// nothing else changes.
    pub fn dispatch_failed(&mut self)
        ensures
            final(self)@ == (AppView { is_loading: false, ..old(self)@ }),
    {
        self.is_loading = false;
    }

    /// The worker is done: the loading flag comes down and nothing else
    /// changes.
    pub fn loaded(&mut self)
        ensures
            final(self)@ == (AppView { is_loading: false, ..old(self)@ }),
    {
        self.is_loading = false;
    }

    /// Start-up is done: the full set of contextual actions applies.
    pub fn initialized(&mut self)
        ensures
            final(self)@ == old(self)@.with_status(AppState::Initialized),
            final(self)@.wf() <== old(self)@.wf(),
    {
        self.set_status(AppState::initialized());
    }

    /// Replaces the boards.
    pub fn set_boards(&mut self, boards: Vec<Board>)
        ensures
            final(self)@ == (AppView { boards: boards@, ..old(self)@ }),
    {
        self.boards = boards;
    }

    /// Sets which board and card are current.
    pub fn set_current(&mut self, board_id: Option<u128>, card_id: Option<u128>)
        ensures
            final(self)@ == (AppView {
                current_board_id: board_id,
                current_card_id: card_id,
                ..old(self)@
            }),
    {
        self.current_board_id = board_id;
        self.current_card_id = card_id;
    }

    /// Replaces the text being typed.
    pub fn set_current_user_input(&mut self, input: String)
        ensures
            final(self)@ == (AppView { input: input@, ..old(self)@ }),
    {
        self.current_user_input = input;
    }

    /// Takes `focus` as the focus if the active list offers it; otherwise
    /// nothing changes.
    pub fn change_focus(&mut self, focus: Focus)
        ensures
            final(self)@ == old(self)@.with_nav(old(self)@.nav.with_focus(focus)),
            final(self)@.wf() <== old(self)@.wf(),
    {
        let mut nav = self.nav;
        nav.adopt_focus(focus);
        self.set_nav(nav);
    }

    /// Opens `popup` over the screen. Opening the command palette starts text
    /// entry.
    pub fn open_popup(&mut self, popup: PopupMode)
        ensures
            final(self)@ == old(self)@.popup_opened(popup),
            final(self)@.wf() <== old(self)@.wf(),
    {
        let mut nav = self.nav;
        nav.show_popup(popup);
        let typing = popup == PopupMode::CommandPalette && self.state != AppState::Init;
        self.set_nav(nav);
        if typing {
            self.set_status(AppState::UserInput);
        }
    }

    /// Closes the popup and restores the focus the screen had before it
    /// opened.
    pub fn close_popup(&mut self)
        ensures
            final(self)@ == old(self)@.with_nav(old(self)@.nav.close_popup()),
            final(self)@.wf() <== old(self)@.wf(),
    {
        let mut nav = self.nav;
        nav.hide_popup();
        self.set_nav(nav);
    }

    /// Takes in the outcome of a search for the text being typed, if the
    /// command palette is open; otherwise nothing changes. `hits` are the
    /// texts that the similarity search over the palette's index returned,
    /// best first; `cards` and `boards` are the collaborator's ranked titles.
    pub fn update_command_palette(
        &mut self,
        hits: &Vec<String>,
        cards: Vec<SearchEntry>,
        boards: Vec<SearchEntry>,
    )
        ensures
            final(self)@ == (if old(self)@.nav.popup_mode() == Some(PopupMode::CommandPalette) {
                AppView {
                    palette: old(self)@.palette.updated(
                        old(self)@.input,
                        hits@,
                        cards@,
                        boards@,
                        old(self)@.nav.focus,
                    ),
                    ..old(self)@
                }
            } else {
                old(self)@
            }),
            final(self)@.wf() <== old(self)@.wf(),
    {
        if App::popup_of(&self.nav) == Some(PopupMode::CommandPalette) {
            self.command_palette.update(
                self.current_user_input.as_str(),
                hits,
                cards,
                boards,
                self.nav.focus,
            );
        }
    }

    /// Runs the command under the palette's cursor.
    pub fn run_selected_command(&mut self) -> (outcome: AppReturn)
        ensures
            (final(self)@, outcome) == old(self)@.command_run(),
            final(self)@.wf() <== old(self)@.wf(),
    {
        proof {
            if self@.wf() {
                lemma_command_run_keeps_wf(self@);
            }
        }
        match self.command_palette.selected_command() {
            None => {
                self.set_status(AppState::Initialized);
                AppReturn::Continue
            },
            Some(command) => {
                match command {
                    CommandPaletteActions::Quit => AppReturn::Exit,
                    CommandPaletteActions::OpenConfigMenu
                    | CommandPaletteActions::OpenMainMenu
                    | CommandPaletteActions::OpenHelpMenu
                    | CommandPaletteActions::LoadASave
                    | CommandPaletteActions::CreateATheme => {
                        self.run_menu_command(command);
                        AppReturn::Continue
                    },
                    CommandPaletteActions::NewBoard
                    | CommandPaletteActions::NewCard
                    | CommandPaletteActions::ChangeCurrentCardStatus => {
                        self.run_form_command(command);
                        AppReturn::Continue
                    },
                    _ => {
                        self.run_plain_command(command);
                        AppReturn::Continue
                    },
                }
            },
        }
    }

    /// The commands that open a menu.
    fn run_menu_command(&mut self, command: CommandPaletteActions)
        requires
            command == CommandPaletteActions::OpenConfigMenu || command
                == CommandPaletteActions::OpenMainMenu || command
                == CommandPaletteActions::OpenHelpMenu || command
                == CommandPaletteActions::LoadASave || command
                == CommandPaletteActions::CreateATheme,
        ensures
            final(self)@ == old(self)@.ran(command),
    {
        match command {
            CommandPaletteActions::OpenConfigMenu => {
                self.enter_menu(UiMode::Config, Focus::Config);
            },
            CommandPaletteActions::OpenMainMenu => {
                self.enter_menu(UiMode::MainMenu, Focus::MainMenu);
            },
            CommandPaletteActions::OpenHelpMenu => {
                self.enter_menu(UiMode::HelpMenu, Focus::Body);
            },
            _ => {
                let mode = if command == CommandPaletteActions::LoadASave {
                    UiMode::LoadSave
                } else {
                    UiMode::CreateTheme
                };
                let mut closed = self.nav;
                closed.hide_popup();
                let focus = closed.focus;
                closed.enter_mode(mode, focus);
                self.set_nav(closed);
            },
        }
        self.finish_command();
    }

    /// The commands that need a board view, and say so in a toast when they
    /// are run elsewhere.
    fn run_form_command(&mut self, command: CommandPaletteActions)
        requires
            command == CommandPaletteActions::NewBoard || command
                == CommandPaletteActions::NewCard || command
                == CommandPaletteActions::ChangeCurrentCardStatus,
        ensures
            final(self)@ == old(self)@.ran(command),
    {
        let mut closed = self.nav;
        closed.hide_popup();
        if !self.nav.ui_mode.is_view_mode() {
            self.set_nav(closed);
            let message = match command {
                CommandPaletteActions::NewBoard => "Cannot create a new board in this view",
                CommandPaletteActions::NewCard => "Cannot create a new card in this view",
                _ => "Cannot change card status in this view",
            };
            self.send_toast(ToastType::Error, message);
            self.finish_command();
            return ;
        }
        match command {
            CommandPaletteActions::NewBoard => {
                closed.enter_mode(UiMode::NewBoard, Focus::NewBoardName);
                self.set_nav(closed);
                self.finish_command();
            },
            CommandPaletteActions::NewCard => {
                if self.current_board_id.is_none() {
                    self.set_nav(closed);
                    self.send_toast(ToastType::Error, "No board Selected / Available");
                    self.set_status(AppState::Initialized);
                } else {
                    closed.enter_mode(UiMode::NewCard, Focus::NewCardName);
                    self.set_nav(closed);
                    self.finish_command();
                }
            },
            _ => {
                if self.current_card_is_found() {
                    let mut nav = self.nav;
                    nav.show_popup(PopupMode::ChangeCurrentCardStatus);
                    self.set_nav(nav);
                    self.current_obj_index = 0;
                    self.set_status(AppState::Initialized);
                } else {
                    self.send_toast(ToastType::Error, "Could not find current card");
                    self.finish_command();
                }
            },
        }
    }

    /// The commands that close the palette and queue work, and those that
    /// put another popup in its place.
    fn run_plain_command(&mut self, command: CommandPaletteActions)
        requires
            command == CommandPaletteActions::ExportToJSON || command
                == CommandPaletteActions::SaveKanbanState || command
                == CommandPaletteActions::ResetUI || command
                == CommandPaletteActions::ChangeUIMode || command
                == CommandPaletteActions::DebugMenu || command
                == CommandPaletteActions::ChangeTheme,
        ensures
            final(self)@ == old(self)@.ran(command),
    {
        let mut nav = self.nav;
        match command {
            CommandPaletteActions::ExportToJSON => {
                nav.hide_popup();
                self.set_nav(nav);
                self.dispatch(IoEvent::ExportToJson);
            },
            CommandPaletteActions::SaveKanbanState => {
                nav.hide_popup();
                self.set_nav(nav);
                self.dispatch(IoEvent::SaveLocalData);
            },
            CommandPaletteActions::ResetUI => {
                nav.hide_popup();
                nav.set_view(self.default_view);
                self.set_nav(nav);
                self.dispatch(IoEvent::ResetVisibleBoardsandCards);
            },
            CommandPaletteActions::ChangeUIMode => {
                nav.show_popup(PopupMode::ChangeUIMode);
                self.set_nav(nav);
            },
            CommandPaletteActions::DebugMenu => {
                nav.hide_popup();
                self.debug_menu_toggled = !self.debug_menu_toggled;
                self.set_nav(nav);
            },
            _ => {
                nav.show_popup(PopupMode::ChangeTheme);
                self.set_nav(nav);
            },
        }
        self.finish_command();
    }

    fn current_card_is_found(&self) -> (found: bool)
        ensures
            found == self@.current_card_found(),
    {
        match (self.current_board_id, self.current_card_id) {
            (Some(board_id), Some(card_id)) => has_card(&self.boards, board_id, card_id),
            _ => false,
        }
    }

    /// The key binding table.
    pub fn bindings(&self) -> (bindings: &KeyBindingTable)
        ensures
            bindings@ == self@.bindings,
    {
        &self.bindings
    }

    /// The contextual actions.
    pub fn actions(&self) -> (actions: &Actions)
        ensures
            actions@ == self@.actions,
    {
        &self.actions
    }

    /// Whether start-up is done and whether text is being typed.
    pub fn state(&self) -> (state: &AppState)
        ensures
            *state == self@.status,
    {
        &self.state
    }

    /// Whether an intent is with the worker.
    pub fn is_loading(&self) -> (loading: bool)
        ensures
            loading == self@.is_loading,
    {
        self.is_loading
    }

    /// The region that holds the focus.
    pub fn current_focus(&self) -> (focus: &Focus)
        ensures
            *focus == self@.nav.focus,
    {
        &self.nav.focus
    }

    /// The screen mode.
    pub fn ui_mode(&self) -> (mode: UiMode)
        ensures
            mode == self@.nav.ui_mode,
    {
        self.nav.ui_mode
    }

    /// The open popup, if any.
    pub fn popup_mode(&self) -> (popup: Option<PopupMode>)
        ensures
            popup == self@.nav.popup_mode(),
    {
        App::popup_of(&self.nav)
    }

    /// The whole navigation state.
    pub fn navigation(&self) -> (nav: Navigation)
        ensures
            nav == self@.nav,
    {
        self.nav
    }

    /// Whether the config list was asked to scroll up.
    pub fn go_up(&self) -> (up: bool)
        ensures
            up == self@.go_up,
    {
        self.go_up
    }

    /// Whether the config list was asked to scroll down.
    pub fn go_down(&self) -> (down: bool)
        ensures
            down == self@.go_down,
    {
        self.go_down
    }

    /// Takes note that the scroll requests were carried out.
    pub fn clear_scroll(&mut self)
        ensures
            final(self)@ == (AppView { go_up: false, go_down: false, ..old(self)@ }),
    {
        self.go_up = false;
        self.go_down = false;
    }

    /// The place of the cursor in the list of the menu that is shown.
    pub fn current_obj_index(&self) -> (index: usize)
        ensures
            index == self@.current_obj_index,
    {
        self.current_obj_index
    }

    /// The text being typed.
    pub fn current_user_input(&self) -> (input: &str)
        ensures
            input@ == self@.input,
    {
        self.current_user_input.as_str()
    }

    /// The boards.
    pub fn boards(&self) -> (boards: &Vec<Board>)
        ensures
            boards@ == self@.boards,
    {
        &self.boards
    }

    /// Whether the debug panel is shown.
    pub fn debug_menu_toggled(&self) -> (shown: bool)
        ensures
            shown == self@.debug_menu_toggled,
    {
        self.debug_menu_toggled
    }

    /// The command palette.
    pub fn command_palette(&self) -> (palette: &CommandPalette)
        ensures
            palette@ == self@.palette,
    {
        &self.command_palette
    }

    /// Moves the cursor of one of the palette's lists; see
    /// `CommandPalette::select`.
    pub fn select_in_palette(&mut self, list: Focus, index: Option<usize>)
        ensures
            final(self)@.palette == (PaletteView {
                command_cursor: if list == Focus::CommandPaletteCommand {
                    old(self)@.palette.command_cursor.with_selected(index)
                } else {
                    old(self)@.palette.command_cursor
                },
                card_cursor: if list == Focus::CommandPaletteCard {
                    old(self)@.palette.card_cursor.with_selected(index)
                } else {
                    old(self)@.palette.card_cursor
                },
                board_cursor: if list == Focus::CommandPaletteBoard {
                    old(self)@.palette.board_cursor.with_selected(index)
                } else {
                    old(self)@.palette.board_cursor
                },
                ..old(self)@.palette
            }),
            final(self)@ == (AppView { palette: final(self)@.palette, ..old(self)@ }),
            final(self)@.wf() <== old(self)@.wf(),
    {
        self.command_palette.select(list, index);
    }

    /// Handles a keystroke.
    pub fn do_action(&mut self, key: Key) -> (outcome: AppReturn)
        ensures
            (final(self)@, outcome) == old(self)@.stepped(key),
            final(self)@.wf() <== old(self)@.wf(),
    {
        proof {
            if self@.wf() {
                lemma_step_keeps_wf(self@, key);
            }
        }
        if self.state == AppState::UserInput {
            if key == Key::Enter {
                if App::popup_of(&self.nav) == Some(PopupMode::CommandPalette) {
                    return self.run_selected_command();
                }
                self.set_status(AppState::Initialized);
            } else if key == Key::Esc {
                self.set_status(AppState::Initialized);
            } else {
                key.push_label(&mut self.current_user_input);
            }
            return AppReturn::Continue;
        }
        match self.bindings.resolve(key, &self.actions) {
            None => AppReturn::Continue,
            Some(action) => {
                let mut nav = self.nav;
                match action {
                    Action::Quit => {
                        return AppReturn::Exit;
                    },
                    Action::NextFocus => {
                        nav.next_focus();
                        self.set_nav(nav);
                    },
                    Action::PreviousFocus => {
                        nav.previous_focus();
                        self.set_nav(nav);
                    },
                    Action::SetUiMode => {
                        nav.set_view(UiMode::from_number(key.to_digit()));
                        self.set_nav(nav);
                    },
                    Action::ToggleConfig => {
                        if nav.ui_mode == UiMode::Config {
                            nav.leave_mode();
                            self.set_nav(nav);
                            self.current_obj_index = 0;
                        } else {
                            let focus = nav.screen_focus();
                            nav.enter_mode(UiMode::Config, focus);
                            self.set_nav(nav);
                        }
                    },
                    Action::GoUp => {
                        if nav.ui_mode == UiMode::Config {
                            self.go_up = true;
                        }
                    },
                    Action::GoDown => {
                        if nav.ui_mode == UiMode::Config {
                            self.go_down = true;
                        }
                    },
                    Action::TakeUserInput => {
                        self.set_status(AppState::UserInput);
                    },
                    Action::Escape => {
                        if !nav.hide_popup() {
                            nav.leave_mode();
                        }
                        self.set_nav(nav);
                    },
                    Action::Enter => {
                        if App::popup_of(&nav) == Some(PopupMode::CommandPalette) {
                            return self.run_selected_command();
                        }
                    },
                }
                AppReturn::Continue
            },
        }
    }
}

/// Changing the navigation state to a legal one, changing the status,
/// queueing an intent, asking for a toast and finishing a command each keep a
/// legal state legal.
proof fn lemma_parts_keep_wf(
    app: AppView,
    nav: Navigation,
    status: AppState,
    event: IoEvent,
    toast_type: ToastType,
    message: Seq<char>,
)
    requires
        app.wf(),
    ensures
        nav.wf() ==> app.with_nav(nav).wf(),
        app.with_status(status).wf(),
        app.dispatched(event).wf(),
        app.toasted(toast_type, message).wf(),
        app.finished().wf(),
{
}

/// Entering a menu from a legal state leaves a legal state.
proof fn lemma_entered_menu_keeps_wf(app: AppView, mode: UiMode, wanted: Focus)
    requires
        app.wf(),
    ensures
        app.entered_menu(mode, wanted).wf(),
{
    let closed = app.nav.close_popup();
    lemma_moves_keep_wf(app.nav, mode, PopupMode::ChangeUIMode, wanted);
    lemma_moves_keep_wf(closed, mode, PopupMode::ChangeUIMode, wanted);
    lemma_parts_keep_wf(
        app,
        closed,
        app.status,
        IoEvent::SaveLocalData,
        ToastType::Error,
        Seq::empty(),
    );
    lemma_parts_keep_wf(
        app,
        closed.enter(mode, wanted),
        app.status,
        IoEvent::SaveLocalData,
        ToastType::Error,
        Seq::empty(),
    );
}

/// Closing the popup, moving to `nav`, then queueing an intent or asking for
/// a toast, and finishing or merely ending text entry: each such chain keeps
/// a legal state legal.
proof fn lemma_chain_keeps_wf(
    app: AppView,
    nav: Navigation,
    event: IoEvent,
    toast_type: ToastType,
    message: Seq<char>,
)
    requires
        app.wf(),
        nav.wf(),
    ensures
        app.with_nav(nav).finished().wf(),
        app.with_nav(nav).with_status(AppState::Initialized).wf(),
        app.with_nav(nav).dispatched(event).finished().wf(),
        app.with_nav(nav).toasted(toast_type, message).finished().wf(),
        app.with_nav(nav).toasted(toast_type, message).with_status(AppState::Initialized).wf(),
        app.toasted(toast_type, message).finished().wf(),
{
    let moved = app.with_nav(nav);
    lemma_parts_keep_wf(app, nav, AppState::Initialized, event, toast_type, message);
    lemma_parts_keep_wf(moved, nav, AppState::Initialized, event, toast_type, message);
    lemma_parts_keep_wf(
        moved.dispatched(event),
        nav,
        AppState::Initialized,
        event,
        toast_type,
        message,
    );
    lemma_parts_keep_wf(
        moved.toasted(toast_type, message),
        nav,
        AppState::Initialized,
        event,
        toast_type,
        message,
    );
    lemma_parts_keep_wf(
        app.toasted(toast_type, message),
        nav,
        AppState::Initialized,
        event,
        toast_type,
        message,
    );
}

/// Running a palette command from a legal state leaves a legal state.
pub proof fn lemma_ran_keeps_wf(app: AppView, command: CommandPaletteActions)
    requires
        app.wf(),
    ensures
        app.ran(command).wf(),
{
    let closed = app.nav.close_popup();
    let none: Seq<char> = Seq::empty();
    lemma_moves_keep_wf(app.nav, UiMode::Config, PopupMode::ChangeUIMode, Focus::Config);
    assert(closed.wf());
    match command {
        CommandPaletteActions::ExportToJSON => {
            lemma_chain_keeps_wf(app, closed, IoEvent::ExportToJson, ToastType::Error, none);
        },
        CommandPaletteActions::Quit => {},
        CommandPaletteActions::OpenConfigMenu => {
            lemma_entered_menu_keeps_wf(app, UiMode::Config, Focus::Config);
            let entered = app.entered_menu(UiMode::Config, Focus::Config);
            lemma_parts_keep_wf(
                entered,
                entered.nav,
                AppState::Initialized,
                IoEvent::SaveLocalData,
                ToastType::Error,
                none,
            );
        },
        CommandPaletteActions::OpenMainMenu => {
            lemma_entered_menu_keeps_wf(app, UiMode::MainMenu, Focus::MainMenu);
            let entered = app.entered_menu(UiMode::MainMenu, Focus::MainMenu);
            lemma_parts_keep_wf(
                entered,
                entered.nav,
                AppState::Initialized,
                IoEvent::SaveLocalData,
                ToastType::Error,
                none,
            );
        },
        CommandPaletteActions::OpenHelpMenu => {
            lemma_entered_menu_keeps_wf(app, UiMode::HelpMenu, Focus::Body);
            let entered = app.entered_menu(UiMode::HelpMenu, Focus::Body);
            lemma_parts_keep_wf(
                entered,
                entered.nav,
                AppState::Initialized,
                IoEvent::SaveLocalData,
                ToastType::Error,
                none,
            );
        },
        CommandPaletteActions::SaveKanbanState => {
            lemma_chain_keeps_wf(app, closed, IoEvent::SaveLocalData, ToastType::Error, none);
        },
        CommandPaletteActions::NewBoard => {
            let entered = closed.enter(UiMode::NewBoard, Focus::NewBoardName);
            lemma_moves_keep_wf(
                closed,
                UiMode::NewBoard,
                PopupMode::ChangeUIMode,
                Focus::NewBoardName,
            );
            lemma_chain_keeps_wf(app, entered, IoEvent::SaveLocalData, ToastType::Error, none);
            lemma_chain_keeps_wf(
                app,
                closed,
                IoEvent::SaveLocalData,
                ToastType::Error,
                "Cannot create a new board in this view"@,
            );
        },
        CommandPaletteActions::NewCard => {
            let entered = closed.enter(UiMode::NewCard, Focus::NewCardName);
            lemma_moves_keep_wf(
                closed,
                UiMode::NewCard,
                PopupMode::ChangeUIMode,
                Focus::NewCardName,
            );
            lemma_chain_keeps_wf(app, entered, IoEvent::SaveLocalData, ToastType::Error, none);
            lemma_chain_keeps_wf(
                app,
                closed,
                IoEvent::SaveLocalData,
                ToastType::Error,
                "No board Selected / Available"@,
            );
            lemma_chain_keeps_wf(
                app,
                closed,
                IoEvent::SaveLocalData,
                ToastType::Error,
                "Cannot create a new card in this view"@,
            );
        },
        CommandPaletteActions::ResetUI => {
            let shown = closed.switch_view(app.default_view);
            lemma_moves_keep_wf(closed, app.default_view, PopupMode::ChangeUIMode, closed.focus);
            lemma_chain_keeps_wf(
                app,
                shown,
                IoEvent::ResetVisibleBoardsandCards,
                ToastType::Error,
                none,
            );
        },
        CommandPaletteActions::ChangeUIMode => {
            let opened = app.nav.open_popup(PopupMode::ChangeUIMode);
            lemma_chain_keeps_wf(app, opened, IoEvent::SaveLocalData, ToastType::Error, none);
        },
        CommandPaletteActions::ChangeCurrentCardStatus => {
            let opened = app.nav.open_popup(PopupMode::ChangeCurrentCardStatus);
            lemma_moves_keep_wf(
                app.nav,
                UiMode::Config,
                PopupMode::ChangeCurrentCardStatus,
                Focus::Config,
            );
            lemma_parts_keep_wf(
                app,
                opened,
                AppState::Initialized,
                IoEvent::SaveLocalData,
                ToastType::Error,
                none,
            );
            let picked = AppView { current_obj_index: 0, ..app.with_nav(opened) };
            lemma_parts_keep_wf(
                picked,
                opened,
                AppState::Initialized,
                IoEvent::SaveLocalData,
                ToastType::Error,
                none,
            );
            lemma_chain_keeps_wf(
                app,
                closed,
                IoEvent::SaveLocalData,
                ToastType::Error,
                "Could not find current card"@,
            );
            lemma_chain_keeps_wf(
                app,
                closed,
                IoEvent::SaveLocalData,
                ToastType::Error,
                "Cannot change card status in this view"@,
            );
        },
        CommandPaletteActions::LoadASave => {
            let entered = closed.enter(UiMode::LoadSave, closed.focus);
            lemma_moves_keep_wf(closed, UiMode::LoadSave, PopupMode::ChangeUIMode, closed.focus);
            lemma_chain_keeps_wf(app, entered, IoEvent::SaveLocalData, ToastType::Error, none);
        },
        CommandPaletteActions::DebugMenu => {
            lemma_parts_keep_wf(
                app,
                closed,
                AppState::Initialized,
                IoEvent::SaveLocalData,
                ToastType::Error,
                none,
            );
            let toggled = AppView {
                debug_menu_toggled: !app.debug_menu_toggled,
                ..app.with_nav(closed)
            };
            lemma_parts_keep_wf(
                toggled,
                closed,
                AppState::Initialized,
                IoEvent::SaveLocalData,
                ToastType::Error,
                none,
            );
        },
        CommandPaletteActions::ChangeTheme => {
            let opened = app.nav.open_popup(PopupMode::ChangeTheme);
            lemma_moves_keep_wf(app.nav, UiMode::Config, PopupMode::ChangeTheme, Focus::Config);
            lemma_chain_keeps_wf(app, opened, IoEvent::SaveLocalData, ToastType::Error, none);
        },
        CommandPaletteActions::CreateATheme => {
            let entered = closed.enter(UiMode::CreateTheme, closed.focus);
            lemma_moves_keep_wf(closed, UiMode::CreateTheme, PopupMode::ChangeUIMode, closed.focus);
            lemma_chain_keeps_wf(app, entered, IoEvent::SaveLocalData, ToastType::Error, none);
        },
    }
}

/// Running the command under the cursor from a legal state leaves a legal
/// state.
pub proof fn lemma_command_run_keeps_wf(app: AppView)
    requires
        app.wf(),
    ensures
        app.command_run().0.wf(),
{
    match app.palette.selected_command() {
        Some(command) => {
            lemma_ran_keeps_wf(app, command);
        },
        None => {},
    }
}

/// A keystroke in a legal state leaves a legal state: whatever the key, the
/// focus stays in the active list, the contextual actions stay those of the
/// context, and the palette's cursors stay within its lists.
pub proof fn lemma_step_keeps_wf(app: AppView, key: Key)
    requires
        app.wf(),
    ensures
        app.stepped(key).0.wf(),
{
    lemma_command_run_keeps_wf(app);
    lemma_moves_keep_wf(
        app.nav,
        UiMode::from_number_spec(key.digit_spec()),
        PopupMode::CommandPalette,
        Focus::Title,
    );
}

/// What some chords resolve to under the built-in bindings once start-up is
/// done and no popup is open.
pub proof fn lemma_full_set_resolution(status: AppState)
    requires
        status != AppState::Init,
    ensures
        built_in_resolution(status, None, Key::Char('c')) == Some(Action::ToggleConfig),
        built_in_resolution(status, None, Key::Char('q')) == Some(Action::Quit),
        built_in_resolution(status, None, Key::Ctrl('c')) == Some(Action::Quit),
        built_in_resolution(status, None, Key::Tab) == Some(Action::NextFocus),
        built_in_resolution(status, None, Key::ShiftTab) == Some(Action::PreviousFocus),
        built_in_resolution(status, None, Key::Esc) == Some(Action::Escape),
        built_in_resolution(status, None, Key::Char('x')) is None,
{
    let set = contextual_actions(status, None);
    let rows = default_rows(Action::all());
    lemma_binding(set, 4, 0);
    lemma_binding(set, 0, 1);
    lemma_binding(set, 0, 0);
    lemma_binding(set, 1, 0);
    lemma_binding(set, 2, 0);
    lemma_binding(set, 8, 0);
    assert forall|a: Action| !is_resolution(rows, set, Key::Char('x'), a) by {
        lemma_default_binds(set, Key::Char('x'), a);
        assert(!a.keys_spec().contains(Key::Char('x')));
    }
}

/// What a chord resolves to in a context under the built-in bindings.
pub open spec fn built_in_resolution(status: AppState, popup: Option<PopupMode>, key: Key) -> Option<
    Action,
> {
    resolution(default_rows(Action::all()), contextual_actions(status, popup), key)
}

/// Under the built-in bindings, the chord at place `k` of the action at place
/// `i` of a context resolves to that action.
proof fn lemma_binding(context: Seq<Action>, i: int, k: int)
    requires
        0 <= i < context.len(),
        0 <= k < context[i].keys_spec().len(),
    ensures
        resolution(default_rows(Action::all()), context, context[i].keys_spec()[k]) == Some(
            context[i],
        ),
{
    let rows = default_rows(Action::all());
    let action = context[i];
    let key = action.keys_spec()[k];
    assert(context.contains(action));
    assert(action.keys_spec().contains(key));
    lemma_default_binds(context, key, action);
    assert forall|other: Action| #[trigger] binds(rows, context, key, other) implies action.ordinal()
        <= other.ordinal() by {
        lemma_default_binds(context, key, other);
        if other != action {
            lemma_bindings_disjoint(action, other, key);
        }
    }
    lemma_resolution(rows, context, key, action);
}

/// Opening the config menu from a board view with a key bound to that and
/// closing it with the same key restores the screen mode and the focus
/// exactly, and leaves the menu's cursor at the start.
pub proof fn lemma_config_key_round_trip(app: AppView, key: Key)
    requires
        app.wf(),
        app.status == AppState::Initialized,
        app.nav.popup is None,
        app.nav.ui_mode.is_view(),
        resolution(app.bindings, app.actions, key) == Some(Action::ToggleConfig),
    ensures
        app.stepped(key).0.nav.ui_mode == UiMode::Config,
        app.stepped(key).0.stepped(key).0.nav == app.nav,
        app.stepped(key).0.stepped(key).0.current_obj_index == 0,
{
    lemma_enter_then_leave_restores(app.nav, UiMode::Config, app.nav.focus);
    let views = UiMode::view_modes_spec();
    assert(!views.contains(UiMode::Config)) by {
        assert forall|i: int| 0 <= i < views.len() implies views[i] != UiMode::Config by {}
    }
}

/// With the built-in bindings the key `c` opens and closes the config menu,
/// so pressing it twice in a board view restores the screen mode and the
/// focus exactly.
pub proof fn lemma_built_in_config_round_trip(app: AppView)
    requires
        app.wf(),
        app.bindings == default_rows(Action::all()),
        app.status == AppState::Initialized,
        app.nav.popup is None,
        app.nav.ui_mode.is_view(),
    ensures
        app.stepped(Key::Char('c')).0.nav.ui_mode == UiMode::Config,
        app.stepped(Key::Char('c')).0.stepped(Key::Char('c')).0.nav == app.nav,
{
    lemma_full_set_resolution(app.status);
    lemma_config_key_round_trip(app, Key::Char('c'));
}

/// Opening a popup over a legal state and closing it with a key bound to
/// `Escape` restores the screen mode and the focus exactly, provided text
/// entry is left first where the popup started it.
pub proof fn lemma_popup_escape_round_trip(app: AppView, popup: PopupMode, key: Key)
    requires
        app.wf(),
        app.status == AppState::Initialized,
        app.nav.popup is None,
        resolution(
            app.bindings,
            contextual_actions(AppState::Initialized, Some(popup)),
            key,
        ) == Some(Action::Escape),
    ensures
        app.popup_opened(popup).nav.ui_mode == app.nav.ui_mode,
        app.popup_opened(popup).with_status(AppState::Initialized).stepped(key).0.nav == app.nav,
{
    lemma_open_then_close_restores(app.nav, popup);
}

/// Only quitting ends the event loop: a keystroke returns `Exit` only if it
/// resolves to `Quit` outside text entry, or if it runs the palette's `Quit`
/// command.
pub proof fn lemma_exit_only_on_quit(app: AppView, key: Key)
    ensures
        app.stepped(key).1 == AppReturn::Exit ==> {
            ||| app.status != AppState::UserInput && resolution(app.bindings, app.actions, key)
                == Some(Action::Quit)
            ||| app.nav.popup_mode() == Some(PopupMode::CommandPalette)
                && app.palette.selected_command() == Some(CommandPaletteActions::Quit)
        },
        app.stepped(key).1 == AppReturn::Exit ==> app.stepped(key).0 == app,
{
}

impl CommandPalette {
    /// Runs the command under the palette's cursor in `app`.
    pub fn handle_command(app: &mut App) -> (outcome: AppReturn)
        ensures
            (final(app)@, outcome) == old(app)@.command_run(),
            final(app)@.wf() <== old(app)@.wf(),
    {
        app.run_selected_command()
    }
}

} // verus!
