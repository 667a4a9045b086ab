//! Screen modes, popups, focus regions, and the cyclic walk over the regions a
//! mode offers.

use vstd::prelude::*;
use vstd::string::*;
use vstd::arithmetic::div_mod::{lemma_mod_add_multiples_vanish, lemma_small_mod};
use crate::text::{decimal, push_decimal, str_eq};

verus! {

/// A named full-screen layout. The first eight are the board views, which the
/// number keys select; the rest are menus and forms entered from a view.
#[derive(Debug, Clone, Copy, PartialEq, Eq, Structural, Hash)]
pub enum UiMode {
    Zen,
    Title,
    Help,
    Log,
    TitleHelp,
    TitleLog,
    HelpLog,
    TitleHelpLog,
    Config,
    EditConfig,
    MainMenu,
    HelpMenu,
    NewBoard,
    NewCard,
    LoadSave,
    CreateTheme,
    EditKeybindings,
}

/// An overlay on top of a screen mode. At most one is open at a time.
#[derive(Debug, Clone, Copy, PartialEq, Eq, Structural, Hash)]
pub enum PopupMode {
    CommandPalette,
    ChangeUIMode,
    ChangeCurrentCardStatus,
    ChangeTheme,
    ConfirmDiscardCardChanges,
}

/// Whether the application has finished starting and whether it is taking
/// free text.
#[derive(Debug, Clone, Copy, PartialEq, Eq, Structural, Hash)]
pub enum AppState {
    Init,
    Initialized,
    UserInput,
}

/// A region of the screen that can hold the keyboard focus.
#[derive(Debug, Clone, Copy, PartialEq, Eq, Structural, Hash)]
pub enum Focus {
    Title,
    Body,
    Help,
    Log,
    Config,
    ConfigHelp,
    MainMenu,
    NewBoardName,
    NewBoardDescription,
    NewCardName,
    CardDescription,
    CardTags,
    CardComments,
    SubmitButton,
    ThemeEditor,
    ThemeSelector,
    ChangeUiModePopup,
    ChangeCardStatusPopup,
    CommandPaletteCommand,
    CommandPaletteCard,
    CommandPaletteBoard,
    CloseButton,
    EditKeybindingsTable,
}

impl UiMode {
    /// The mode's name as shown to the user.
    pub open spec fn label(self) -> Seq<char> {
        match self {
            UiMode::Zen => "Zen"@,
            UiMode::Title => "Title"@,
            UiMode::Help => "Help"@,
            UiMode::Log => "Log"@,
            UiMode::TitleHelp => "Title and Help"@,
            UiMode::TitleLog => "Title and Log"@,
            UiMode::HelpLog => "Help and Log"@,
            UiMode::TitleHelpLog => "Title, Help and Log"@,
            UiMode::Config => "Config"@,
            UiMode::EditConfig => "Edit Config"@,
            UiMode::MainMenu => "Main Menu"@,
            UiMode::HelpMenu => "Help Menu"@,
            UiMode::NewBoard => "New Board"@,
            UiMode::NewCard => "New Card"@,
            UiMode::LoadSave => "Load a Save"@,
            UiMode::CreateTheme => "Create Theme"@,
            UiMode::EditKeybindings => "Edit Keybindings"@,
        }
    }

    /// The board views, in the order of the number keys `1` to `8`.
    pub open spec fn view_modes_spec() -> Seq<UiMode> {
        seq![
            UiMode::Zen,
            UiMode::Title,
            UiMode::Help,
            UiMode::Log,
            UiMode::TitleHelp,
            UiMode::TitleLog,
            UiMode::HelpLog,
            UiMode::TitleHelpLog,
        ]
    }

    /// Whether the mode is one of the eight board views.
    pub open spec fn is_view(self) -> bool {
        UiMode::view_modes_spec().contains(self)
    }

    /// The view a number selects; any number outside `1..=8` selects `Title`.
    pub open spec fn from_number_spec(n: u8) -> UiMode {
        if 1 <= n <= 8 {
            UiMode::view_modes_spec()[n - 1]
        } else {
            UiMode::Title
        }
    }

    /// The regions that can take the focus in this mode, in tab order.
    pub open spec fn tabs(self) -> Seq<Focus> {
        match self {
            UiMode::Zen => seq![Focus::Body],
            UiMode::Title => seq![Focus::Title, Focus::Body],
            UiMode::Help => seq![Focus::Body, Focus::Help],
            UiMode::Log => seq![Focus::Body, Focus::Log],
            UiMode::TitleHelp => seq![Focus::Title, Focus::Body, Focus::Help],
            UiMode::TitleLog => seq![Focus::Title, Focus::Body, Focus::Log],
            UiMode::HelpLog => seq![Focus::Body, Focus::Help, Focus::Log],
            UiMode::TitleHelpLog => seq![Focus::Title, Focus::Body, Focus::Help, Focus::Log],
            UiMode::Config => seq![Focus::Config, Focus::ConfigHelp, Focus::Log],
            UiMode::EditConfig => seq![Focus::Title],
            UiMode::MainMenu => seq![Focus::MainMenu, Focus::Help, Focus::Log],
            UiMode::HelpMenu => seq![Focus::Help, Focus::Log],
            UiMode::NewBoard => seq![
                Focus::NewBoardName,
                Focus::NewBoardDescription,
                Focus::SubmitButton,
            ],
            UiMode::NewCard => seq![
                Focus::NewCardName,
                Focus::CardDescription,
                Focus::CardTags,
                Focus::CardComments,
                Focus::SubmitButton,
            ],
            UiMode::LoadSave => seq![Focus::Body],
            UiMode::CreateTheme => seq![Focus::ThemeEditor, Focus::SubmitButton],
            UiMode::EditKeybindings => seq![Focus::EditKeybindingsTable, Focus::SubmitButton],
        }
    }

    /// One entry of the numbered listing of views: the number, the view's name
    /// and a separator.
    pub open spec fn listing_entry(n: int) -> Seq<char> {
        decimal(n as nat) + ": "@ + UiMode::from_number_spec(n as u8).label() + " ||| "@
    }

    /// The listing of the views numbered `1` to `upto`.
    pub open spec fn listing(upto: int) -> Seq<char>
        decreases upto,
    {
        if upto <= 0 {
            Seq::empty()
        } else {
            UiMode::listing(upto - 1) + UiMode::listing_entry(upto)
        }
    }

    /// The mode's name as shown to the user.
    pub fn as_str(&self) -> (name: &'static str)
        ensures
            name@ == self.label(),
    {
        match self {
            UiMode::Zen => "Zen",
            UiMode::Title => "Title",
            UiMode::Help => "Help",
            UiMode::Log => "Log",
            UiMode::TitleHelp => "Title and Help",
            UiMode::TitleLog => "Title and Log",
            UiMode::HelpLog => "Help and Log",
            UiMode::TitleHelpLog => "Title, Help and Log",
            UiMode::Config => "Config",
            UiMode::EditConfig => "Edit Config",
            UiMode::MainMenu => "Main Menu",
            UiMode::HelpMenu => "Help Menu",
            UiMode::NewBoard => "New Board",
            UiMode::NewCard => "New Card",
            UiMode::LoadSave => "Load a Save",
            UiMode::CreateTheme => "Create Theme",
            UiMode::EditKeybindings => "Edit Keybindings",
        }
    }

    /// The mode's name as an owned string.
    pub fn to_string(&self) -> (name: String)
        ensures
            name@ == self.label(),
    {
        self.as_str().to_owned()
    }

    /// Every mode, in declaration order.
    pub open spec fn every_spec() -> Seq<UiMode> {
        seq![
            UiMode::Zen,
            UiMode::Title,
            UiMode::Help,
            UiMode::Log,
            UiMode::TitleHelp,
            UiMode::TitleLog,
            UiMode::HelpLog,
            UiMode::TitleHelpLog,
            UiMode::Config,
            UiMode::EditConfig,
            UiMode::MainMenu,
            UiMode::HelpMenu,
            UiMode::NewBoard,
            UiMode::NewCard,
            UiMode::LoadSave,
            UiMode::CreateTheme,
            UiMode::EditKeybindings,
        ]
    }

    /// Every mode, in declaration order.
    pub fn every() -> (modes: &'static [UiMode])
        ensures
            modes@ == UiMode::every_spec(),
            forall|mode: UiMode| #[trigger] modes@.contains(mode),
    {
        let modes: &'static [UiMode] = &[
            UiMode::Zen,
            UiMode::Title,
            UiMode::Help,
            UiMode::Log,
            UiMode::TitleHelp,
            UiMode::TitleLog,
            UiMode::HelpLog,
            UiMode::TitleHelpLog,
            UiMode::Config,
            UiMode::EditConfig,
            UiMode::MainMenu,
            UiMode::HelpMenu,
            UiMode::NewBoard,
            UiMode::NewCard,
            UiMode::LoadSave,
            UiMode::CreateTheme,
            UiMode::EditKeybindings,
        ];
        proof {
            assert(modes@ =~= UiMode::every_spec());
            assert forall|mode: UiMode| #[trigger] modes@.contains(mode) by {
                let at: int = match mode {
                    UiMode::Zen => 0,
                    UiMode::Title => 1,
                    UiMode::Help => 2,
                    UiMode::Log => 3,
                    UiMode::TitleHelp => 4,
                    UiMode::TitleLog => 5,
                    UiMode::HelpLog => 6,
                    UiMode::TitleHelpLog => 7,
                    UiMode::Config => 8,
                    UiMode::EditConfig => 9,
                    UiMode::MainMenu => 10,
                    UiMode::HelpMenu => 11,
                    UiMode::NewBoard => 12,
                    UiMode::NewCard => 13,
                    UiMode::LoadSave => 14,
                    UiMode::CreateTheme => 15,
                    UiMode::EditKeybindings => 16,
                };
                assert(modes@[at] == mode);
            }
        }
        modes
    }

    /// The mode with the given name, if there is one.
    pub fn from_string(s: &str) -> (mode: Option<UiMode>)
        ensures
            forall|m: UiMode| mode == Some(m) <==> #[trigger] m.label() == s@,
    {
        let modes = UiMode::every();
        let mut n: usize = 0;
        while n < modes.len()
            invariant
                0 <= n <= modes.len(),
                forall|mode: UiMode| #[trigger] modes@.contains(mode),
                forall|m: int| 0 <= m < n ==> (#[trigger] modes@[m]).label() != s@,
            decreases modes.len() - n,
        {
            let candidate = modes[n];
            if str_eq(s, candidate.as_str()) {
                proof {
                    lemma_mode_labels_distinct();
                }
                return Some(candidate);
            }
            n = n + 1;
        }
        proof {
            assert forall|m: UiMode| #[trigger] m.label() != s@ by {
                assert(modes@.contains(m));
            }
        }
        None
    }

    /// The view a number selects; any number outside `1..=8` selects `Title`.
    pub fn from_number(n: u8) -> (mode: UiMode)
        ensures
            mode == UiMode::from_number_spec(n),
            mode.is_view(),
    {
        let mode = match n {
            1 => UiMode::Zen,
            2 => UiMode::Title,
            3 => UiMode::Help,
            4 => UiMode::Log,
            5 => UiMode::TitleHelp,
            6 => UiMode::TitleLog,
            7 => UiMode::HelpLog,
            8 => UiMode::TitleHelpLog,
            _ => UiMode::Title,
        };
        proof {
            let views = UiMode::view_modes_spec();
            if 1 <= n <= 8 {
                assert(views[n - 1] == mode);
            } else {
                assert(views[1] == mode);
            }
        }
        mode
    }

    /// The board views, in the order of the number keys `1` to `8`.
    pub fn view_modes() -> (views: &'static [UiMode])
        ensures
            views@ == UiMode::view_modes_spec(),
    {
        let views: &'static [UiMode] = &[
            UiMode::Zen,
            UiMode::Title,
            UiMode::Help,
            UiMode::Log,
            UiMode::TitleHelp,
            UiMode::TitleLog,
            UiMode::HelpLog,
            UiMode::TitleHelpLog,
        ];
        assert(views@ =~= UiMode::view_modes_spec());
        views
    }

    /// Whether the mode is one of the eight board views.
    pub fn is_view_mode(&self) -> (view: bool)
        ensures
            view == self.is_view(),
    {
        let ghost views = UiMode::view_modes_spec();
        match self {
            UiMode::Zen => {
                assert(views[0] == *self);
                true
            },
            UiMode::Title => {
                assert(views[1] == *self);
                true
            },
            UiMode::Help => {
                assert(views[2] == *self);
                true
            },
            UiMode::Log => {
                assert(views[3] == *self);
                true
            },
            UiMode::TitleHelp => {
                assert(views[4] == *self);
                true
            },
            UiMode::TitleLog => {
                assert(views[5] == *self);
                true
            },
            UiMode::HelpLog => {
                assert(views[6] == *self);
                true
            },
            UiMode::TitleHelpLog => {
                assert(views[7] == *self);
                true
            },
            _ => false,
        }
    }

    /// The regions that can take the focus in this mode, in tab order.
    pub fn get_available_tabs(&self) -> (tabs: Vec<Focus>)
        ensures
            tabs@ == self.tabs(),
            tabs.len() > 0,
    {
        let tabs = match self {
            UiMode::Zen => vec![Focus::Body],
            UiMode::Title => vec![Focus::Title, Focus::Body],
            UiMode::Help => vec![Focus::Body, Focus::Help],
            UiMode::Log => vec![Focus::Body, Focus::Log],
            UiMode::TitleHelp => vec![Focus::Title, Focus::Body, Focus::Help],
            UiMode::TitleLog => vec![Focus::Title, Focus::Body, Focus::Log],
            UiMode::HelpLog => vec![Focus::Body, Focus::Help, Focus::Log],
            UiMode::TitleHelpLog => vec![Focus::Title, Focus::Body, Focus::Help, Focus::Log],
            UiMode::Config => vec![Focus::Config, Focus::ConfigHelp, Focus::Log],
            UiMode::EditConfig => vec![Focus::Title],
            UiMode::MainMenu => vec![Focus::MainMenu, Focus::Help, Focus::Log],
            UiMode::HelpMenu => vec![Focus::Help, Focus::Log],
            UiMode::NewBoard => vec![
                Focus::NewBoardName,
                Focus::NewBoardDescription,
                Focus::SubmitButton,
            ],
            UiMode::NewCard => vec![
                Focus::NewCardName,
                Focus::CardDescription,
                Focus::CardTags,
                Focus::CardComments,
                Focus::SubmitButton,
            ],
            UiMode::LoadSave => vec![Focus::Body],
            UiMode::CreateTheme => vec![Focus::ThemeEditor, Focus::SubmitButton],
            UiMode::EditKeybindings => vec![Focus::EditKeybindingsTable, Focus::SubmitButton],
        };
        assert(tabs@ =~= self.tabs());
        tabs
    }

    /// The numbered listing of the eight views, each entry followed by a
    /// separator: `1: Zen ||| 2: Title ||| ...`.
    pub fn all() -> (listing: String)
        ensures
            listing@ == UiMode::listing(8),
    {
        let mut s = String::new();
        let mut i: u8 = 1;
        assert(s@ =~= UiMode::listing(0));
        while i < 9
            invariant
                1 <= i <= 9,
                s@ == UiMode::listing(i - 1),
            decreases 9 - i,
        {
            let ghost before = s@;
            push_decimal(&mut s, i as u16);
            s.append(": ");
            s.append(UiMode::from_number(i).as_str());
            s.append(" ||| ");
            assert(s@ =~= before + UiMode::listing_entry(i as int));
            i = i + 1;
        }
        s
    }
}

/// No two modes share a name.
pub proof fn lemma_mode_labels_distinct()
    ensures
        forall|a: UiMode, b: UiMode| #[trigger] a.label() == #[trigger] b.label() ==> a == b,
{
    reveal_strlit("Zen");
    reveal_strlit("Title");
    reveal_strlit("Help");
    reveal_strlit("Log");
    reveal_strlit("Title and Help");
    reveal_strlit("Title and Log");
    reveal_strlit("Help and Log");
    reveal_strlit("Title, Help and Log");
    reveal_strlit("Config");
    reveal_strlit("Edit Config");
    reveal_strlit("Main Menu");
    reveal_strlit("Help Menu");
    reveal_strlit("New Board");
    reveal_strlit("New Card");
    reveal_strlit("Load a Save");
    reveal_strlit("Create Theme");
    reveal_strlit("Edit Keybindings");
    assert forall|a: UiMode, b: UiMode| #[trigger] a.label() == #[trigger] b.label() implies a
        == b by {
        let x = a.label();
        let y = b.label();
        assert(x.len() == y.len());
        assert(x[0] == y[0]);
        assert(x[2] == y[2]);
        if x.len() > 10 {
            assert(x[10] == y[10]);
        }
        if x.len() > 4 {
            assert(x[4] == y[4]);
        }
    }
}

impl PopupMode {
    /// The regions that can take the focus while the popup is open, in tab
    /// order.
    pub open spec fn tabs(self) -> Seq<Focus> {
        match self {
            PopupMode::CommandPalette => seq![
                Focus::CommandPaletteCommand,
                Focus::CommandPaletteCard,
                Focus::CommandPaletteBoard,
            ],
            PopupMode::ChangeUIMode => seq![Focus::ChangeUiModePopup],
            PopupMode::ChangeCurrentCardStatus => seq![Focus::ChangeCardStatusPopup],
            PopupMode::ChangeTheme => seq![Focus::ThemeSelector],
            PopupMode::ConfirmDiscardCardChanges => seq![Focus::SubmitButton, Focus::CloseButton],
        }
    }

    /// The regions that can take the focus while the popup is open, in tab
    /// order.
    pub fn get_available_tabs(&self) -> (tabs: Vec<Focus>)
        ensures
            tabs@ == self.tabs(),
            tabs.len() > 0,
    {
        let tabs = match self {
            PopupMode::CommandPalette => vec![
                Focus::CommandPaletteCommand,
                Focus::CommandPaletteCard,
                Focus::CommandPaletteBoard,
            ],
            PopupMode::ChangeUIMode => vec![Focus::ChangeUiModePopup],
            PopupMode::ChangeCurrentCardStatus => vec![Focus::ChangeCardStatusPopup],
            PopupMode::ChangeTheme => vec![Focus::ThemeSelector],
            PopupMode::ConfirmDiscardCardChanges => vec![Focus::SubmitButton, Focus::CloseButton],
        };
        assert(tabs@ =~= self.tabs());
        tabs
    }
}

impl AppState {
    /// The state of an application that has finished starting.
    pub fn initialized() -> (state: AppState)
        ensures
            state == AppState::Initialized,
    {
        AppState::Initialized
    }

    /// Whether the application has finished starting and is not taking text.
    pub fn is_initialized(&self) -> (yes: bool)
        ensures
            yes == (*self == AppState::Initialized),
    {
        matches!(self, AppState::Initialized)
    }
}

impl Default for AppState {
    fn default() -> (state: AppState)
        ensures
            state == AppState::Init,
    {
        AppState::Init
    }
}

/// `i` is the first place where `focus` stands in `available`.
pub open spec fn is_first_index(available: Seq<Focus>, focus: Focus, i: int) -> bool {
    &&& 0 <= i < available.len()
    &&& available[i] == focus
    &&& forall|m: int| 0 <= m < i ==> available[m] != focus
}

impl Focus {
    /// The region's name.
    pub open spec fn label(self) -> Seq<char> {
        match self {
            Focus::Title => "Title"@,
            Focus::Body => "Body"@,
            Focus::Help => "Help"@,
            Focus::Log => "Log"@,
            Focus::Config => "Config"@,
            Focus::ConfigHelp => "Config Help"@,
            Focus::MainMenu => "Main Menu"@,
            Focus::NewBoardName => "New Board Name"@,
            Focus::NewBoardDescription => "New Board Description"@,
            Focus::NewCardName => "New Card Name"@,
            Focus::CardDescription => "Card Description"@,
            Focus::CardTags => "Card Tags"@,
            Focus::CardComments => "Card Comments"@,
            Focus::SubmitButton => "Submit Button"@,
            Focus::ThemeEditor => "Theme Editor"@,
            Focus::ThemeSelector => "Theme Selector"@,
            Focus::ChangeUiModePopup => "Change UI Mode Popup"@,
            Focus::ChangeCardStatusPopup => "Change Card Status Popup"@,
            Focus::CommandPaletteCommand => "Command Palette Command"@,
            Focus::CommandPaletteCard => "Command Palette Card"@,
            Focus::CommandPaletteBoard => "Command Palette Board"@,
            Focus::CloseButton => "Close Button"@,
            Focus::EditKeybindingsTable => "Edit Keybindings Table"@,
        }
    }

    /// The index the cyclic walk starts from: where the region first stands in
    /// `available`, or `0` if it is not there.
    pub open spec fn effective_index(self, available: Seq<Focus>) -> int {
        if available.contains(self) {
            choose|i: int| is_first_index(available, self, i)
        } else {
            0
        }
    }

    /// The region after this one in `available`, wrapping at the end.
    pub open spec fn next_spec(self, available: Seq<Focus>) -> Focus {
        available[(self.effective_index(available) + 1) % (available.len() as int)]
    }

    /// The region before this one in `available`, wrapping at the start.
    pub open spec fn prev_spec(self, available: Seq<Focus>) -> Focus {
        available[(self.effective_index(available) - 1 + available.len()) % (
        available.len() as int)]
    }

    /// This region if `available` offers it, otherwise the first region that
    /// `available` offers.
    pub open spec fn or_first_of(self, available: Seq<Focus>) -> Focus {
        if available.contains(self) {
            self
        } else {
            available[0]
        }
    }

    /// The region's name.
    pub fn current(&self) -> (name: &'static str)
        ensures
            name@ == self.label(),
    {
        match self {
            Focus::Title => "Title",
            Focus::Body => "Body",
            Focus::Help => "Help",
            Focus::Log => "Log",
            Focus::Config => "Config",
            Focus::ConfigHelp => "Config Help",
            Focus::MainMenu => "Main Menu",
            Focus::NewBoardName => "New Board Name",
            Focus::NewBoardDescription => "New Board Description",
            Focus::NewCardName => "New Card Name",
            Focus::CardDescription => "Card Description",
            Focus::CardTags => "Card Tags",
            Focus::CardComments => "Card Comments",
            Focus::SubmitButton => "Submit Button",
            Focus::ThemeEditor => "Theme Editor",
            Focus::ThemeSelector => "Theme Selector",
            Focus::ChangeUiModePopup => "Change UI Mode Popup",
            Focus::ChangeCardStatusPopup => "Change Card Status Popup",
            Focus::CommandPaletteCommand => "Command Palette Command",
            Focus::CommandPaletteCard => "Command Palette Card",
            Focus::CommandPaletteBoard => "Command Palette Board",
            Focus::CloseButton => "Close Button",
            Focus::EditKeybindingsTable => "Edit Keybindings Table",
        }
    }

    /// Every region, in declaration order.
    pub open spec fn every_spec() -> Seq<Focus> {
        seq![
            Focus::Title,
            Focus::Body,
            Focus::Help,
            Focus::Log,
            Focus::Config,
            Focus::ConfigHelp,
            Focus::MainMenu,
            Focus::NewBoardName,
            Focus::NewBoardDescription,
            Focus::NewCardName,
            Focus::CardDescription,
            Focus::CardTags,
            Focus::CardComments,
            Focus::SubmitButton,
            Focus::ThemeEditor,
            Focus::ThemeSelector,
            Focus::ChangeUiModePopup,
            Focus::ChangeCardStatusPopup,
            Focus::CommandPaletteCommand,
            Focus::CommandPaletteCard,
            Focus::CommandPaletteBoard,
            Focus::CloseButton,
            Focus::EditKeybindingsTable,
        ]
    }

    /// Every region, in declaration order.
    pub fn every() -> (regions: &'static [Focus])
        ensures
            regions@ == Focus::every_spec(),
            forall|focus: Focus| #[trigger] regions@.contains(focus),
    {
        let regions: &'static [Focus] = &[
            Focus::Title,
            Focus::Body,
            Focus::Help,
            Focus::Log,
            Focus::Config,
            Focus::ConfigHelp,
            Focus::MainMenu,
            Focus::NewBoardName,
            Focus::NewBoardDescription,
            Focus::NewCardName,
            Focus::CardDescription,
            Focus::CardTags,
            Focus::CardComments,
            Focus::SubmitButton,
            Focus::ThemeEditor,
            Focus::ThemeSelector,
            Focus::ChangeUiModePopup,
            Focus::ChangeCardStatusPopup,
            Focus::CommandPaletteCommand,
            Focus::CommandPaletteCard,
            Focus::CommandPaletteBoard,
            Focus::CloseButton,
            Focus::EditKeybindingsTable,
        ];
        proof {
            assert(regions@ =~= Focus::every_spec());
            assert forall|focus: Focus| #[trigger] regions@.contains(focus) by {
                let at: int = match focus {
                    Focus::Title => 0,
                    Focus::Body => 1,
                    Focus::Help => 2,
                    Focus::Log => 3,
                    Focus::Config => 4,
                    Focus::ConfigHelp => 5,
                    Focus::MainMenu => 6,
                    Focus::NewBoardName => 7,
                    Focus::NewBoardDescription => 8,
                    Focus::NewCardName => 9,
                    Focus::CardDescription => 10,
                    Focus::CardTags => 11,
                    Focus::CardComments => 12,
                    Focus::SubmitButton => 13,
                    Focus::ThemeEditor => 14,
                    Focus::ThemeSelector => 15,
                    Focus::ChangeUiModePopup => 16,
                    Focus::ChangeCardStatusPopup => 17,
                    Focus::CommandPaletteCommand => 18,
                    Focus::CommandPaletteCard => 19,
                    Focus::CommandPaletteBoard => 20,
                    Focus::CloseButton => 21,
                    Focus::EditKeybindingsTable => 22,
                };
                assert(regions@[at] == focus);
            }
        }
        regions
    }

    /// The region with the given name; `Title` if no region has that name.
    pub fn from_str(s: &str) -> (focus: Focus)
        ensures
            forall|f: Focus| #[trigger] f.label() == s@ ==> focus == f,
            (forall|f: Focus| #[trigger] f.label() != s@) ==> focus == Focus::Title,
    {
        let regions = Focus::every();
        let mut n: usize = 0;
        while n < regions.len()
            invariant
                0 <= n <= regions.len(),
                forall|focus: Focus| #[trigger] regions@.contains(focus),
                forall|m: int| 0 <= m < n ==> (#[trigger] regions@[m]).label() != s@,
            decreases regions.len() - n,
        {
            let candidate = regions[n];
            if str_eq(s, candidate.current()) {
                proof {
                    lemma_focus_labels_distinct();
                }
                return candidate;
            }
            n = n + 1;
        }
        proof {
            assert forall|f: Focus| #[trigger] f.label() != s@ by {
                assert(regions@.contains(f));
            }
        }
        Focus::Title
    }

    /// Whether `available` offers this region.
    pub fn is_among(&self, available: &Vec<Focus>) -> (found: bool)
        ensures
            found == available@.contains(*self),
    {
        let mut n: usize = 0;
        while n < available.len()
            invariant
                0 <= n <= available.len(),
                forall|m: int| 0 <= m < n ==> available@[m] != *self,
            decreases available.len() - n,
        {
            if available[n] == *self {
                return true;
            }
            n = n + 1;
        }
        false
    }

    /// Where the region first stands in `available`, or `0` if it is not
    /// there.
    pub fn position(&self, available: &Vec<Focus>) -> (index: usize)
        ensures
            index == self.effective_index(available@),
            available@.contains(*self) ==> is_first_index(available@, *self, index as int),
            available.len() > 0 ==> index < available.len(),
    {
        let mut n: usize = 0;
        while n < available.len()
            invariant
                0 <= n <= available.len(),
                forall|m: int| 0 <= m < n ==> available@[m] != *self,
            decreases available.len() - n,
        {
            if available[n] == *self {
                proof {
                    lemma_effective_index(available@, *self, n as int);
                }
                return n;
            }
            n = n + 1;
        }
        0
    }

    /// The region after this one in `available_tabs`, wrapping at the end. A
    /// region that is not in the list counts as standing at its start.
    pub fn next(&self, available_tabs: &Vec<Focus>) -> (focus: Focus)
        requires
            available_tabs.len() > 0,
        ensures
            focus == self.next_spec(available_tabs@),
            available_tabs@.contains(focus),
            forall|i: int| #[trigger]
                is_first_index(available_tabs@, *self, i) ==> focus == available_tabs@[if i + 1
                    == available_tabs.len() {
                    0
                } else {
                    i + 1
                }],
    {
        let index = self.position(available_tabs);
        let next_index = (index + 1) % available_tabs.len();
        proof {
            lemma_wrap(index as int, available_tabs.len() as int);
            assert forall|i: int| #[trigger]
                is_first_index(available_tabs@, *self, i) implies i == index by {
                lemma_effective_index(available_tabs@, *self, i);
            }
        }
        available_tabs[next_index]
    }

    /// The region before this one in `available_tabs`, wrapping at the start.
    /// A region that is not in the list counts as standing at its start.
    pub fn prev(&self, available_tabs: &Vec<Focus>) -> (focus: Focus)
        requires
            available_tabs.len() > 0,
        ensures
            focus == self.prev_spec(available_tabs@),
            available_tabs@.contains(focus),
            forall|i: int| #[trigger]
                is_first_index(available_tabs@, *self, i) ==> focus == available_tabs@[if i == 0 {
                    available_tabs.len() - 1
                } else {
                    i - 1
                }],
    {
        let index = self.position(available_tabs);
        let prev_index = if index == 0 {
            available_tabs.len() - 1
        } else {
            index - 1
        };
        proof {
            lemma_wrap(index as int, available_tabs.len() as int);
            assert forall|i: int| #[trigger]
                is_first_index(available_tabs@, *self, i) implies i == index by {
                lemma_effective_index(available_tabs@, *self, i);
            }
        }
        available_tabs[prev_index]
    }

    /// This region if `available` offers it, otherwise the first region that
    /// `available` offers.
    pub fn or_first(&self, available: &Vec<Focus>) -> (focus: Focus)
        requires
            available.len() > 0,
        ensures
            focus == self.or_first_of(available@),
            available@.contains(focus),
    {
        if self.is_among(available) {
            *self
        } else {
            available[0]
        }
    }
}

impl Default for Focus {
    fn default() -> (focus: Focus)
        ensures
            focus == Focus::Body,
    {
        Focus::Body
    }
}

/// How an index moves one step forward or back around a cycle of `n` places.
proof fn lemma_wrap(i: int, n: int)
    requires
        0 <= i < n,
    ensures
        (i + 1) % n == if i + 1 == n {
            0
        } else {
            i + 1
        },
        (i - 1 + n) % n == if i == 0 {
            n - 1
        } else {
            i - 1
        },
{
    if i + 1 == n {
        lemma_mod_add_multiples_vanish(0, n);
        lemma_small_mod(0, n as nat);
    } else {
        lemma_small_mod((i + 1) as nat, n as nat);
    }
    if i == 0 {
        lemma_small_mod((n - 1) as nat, n as nat);
    } else {
        lemma_mod_add_multiples_vanish(i - 1, n);
        lemma_small_mod((i - 1) as nat, n as nat);
    }
}

/// A first index, once found, is the index the walk starts from.
pub proof fn lemma_effective_index(available: Seq<Focus>, focus: Focus, i: int)
    requires
        is_first_index(available, focus, i),
    ensures
        focus.effective_index(available) == i,
{
    assert(available.contains(focus));
    let chosen = choose|c: int| is_first_index(available, focus, c);
    assert(is_first_index(available, focus, chosen));
}

/// No two regions share a name.
pub proof fn lemma_focus_labels_distinct()
    ensures
        forall|a: Focus, b: Focus| #[trigger] a.label() == #[trigger] b.label() ==> a == b,
{
    reveal_strlit("Title");
    reveal_strlit("Body");
    reveal_strlit("Help");
    reveal_strlit("Log");
    reveal_strlit("Config");
    reveal_strlit("Config Help");
    reveal_strlit("Main Menu");
    reveal_strlit("New Board Name");
    reveal_strlit("New Board Description");
    reveal_strlit("New Card Name");
    reveal_strlit("Card Description");
    reveal_strlit("Card Tags");
    reveal_strlit("Card Comments");
    reveal_strlit("Submit Button");
    reveal_strlit("Theme Editor");
    reveal_strlit("Theme Selector");
    reveal_strlit("Change UI Mode Popup");
    reveal_strlit("Change Card Status Popup");
    reveal_strlit("Command Palette Command");
    reveal_strlit("Command Palette Card");
    reveal_strlit("Command Palette Board");
    reveal_strlit("Close Button");
    reveal_strlit("Edit Keybindings Table");
    assert forall|a: Focus, b: Focus| #[trigger] a.label() == #[trigger] b.label() implies a
        == b by {
        let x = a.label();
        let y = b.label();
        assert(x.len() == y.len());
        assert(x[0] == y[0]);
        assert(x[1] == y[1]);
    }
}

/// Walking forward and then back, or back and then forward, over a list
/// without repeats returns to the region the walk started from, provided the
/// list offers that region.
pub proof fn lemma_next_prev_round_trip(focus: Focus, available: Seq<Focus>)
    requires
        available.contains(focus),
        available.no_duplicates(),
    ensures
        focus.next_spec(available).prev_spec(available) == focus,
        focus.prev_spec(available).next_spec(available) == focus,
{
    let n = available.len() as int;
    let i = choose|i: int| 0 <= i < n && available[i] == focus;
    assert(is_first_index(available, focus, i));
    lemma_effective_index(available, focus, i);
    lemma_wrap(i, n);
    let up = (i + 1) % n;
    let down = (i - 1 + n) % n;
    assert(is_first_index(available, available[up], up));
    lemma_effective_index(available, available[up], up);
    lemma_wrap(up, n);
    assert(is_first_index(available, available[down], down));
    lemma_effective_index(available, available[down], down);
    lemma_wrap(down, n);
}

/// Every screen mode offers at least one region and lists none twice.
pub proof fn lemma_mode_tabs_distinct(mode: UiMode)
    ensures
        mode.tabs().len() > 0,
        mode.tabs().no_duplicates(),
{
}

/// Every popup offers at least one region and lists none twice.
pub proof fn lemma_popup_tabs_distinct(popup: PopupMode)
    ensures
        popup.tabs().len() > 0,
        popup.tabs().no_duplicates(),
{
}

/// In every screen mode, from every region the mode offers: forward then back,
/// or back then forward, ends where it started.
pub proof fn lemma_round_trip_in_mode(mode: UiMode, focus: Focus)
    requires
        mode.tabs().contains(focus),
    ensures
        focus.next_spec(mode.tabs()).prev_spec(mode.tabs()) == focus,
        focus.prev_spec(mode.tabs()).next_spec(mode.tabs()) == focus,
{
    lemma_mode_tabs_distinct(mode);
    lemma_next_prev_round_trip(focus, mode.tabs());
}

} // verus!
