//! Toasts, the command vocabulary, and the command palette's search state.

use vstd::prelude::*;
use vstd::string::*;
use std::time::Duration;
use crate::state::Focus;
use crate::text::{lowercase_of, str_eq, to_lowercase};

verus! {

/// The kind of a toast notification.
#[derive(Debug, Clone, Copy, PartialEq, Eq, Structural, Hash)]
pub enum ToastType {
    Error,
    Warning,
    Info,
    Loading,
}

impl ToastType {
    /// The kind's name, which is also a toast's default title.
    pub open spec fn label(self) -> Seq<char> {
        match self {
            ToastType::Error => "Error"@,
            ToastType::Warning => "Warning"@,
            ToastType::Info => "Info"@,
            ToastType::Loading => "Loading"@,
        }
    }

    /// The kind's colour as red, green and blue.
    pub open spec fn color(self) -> (u8, u8, u8) {
        match self {
            ToastType::Error => (255u8, 0u8, 0u8),
            ToastType::Warning => (255u8, 255u8, 0u8),
            ToastType::Info => (0u8, 255u8, 255u8),
            ToastType::Loading => (0u8, 255u8, 0u8),
        }
    }

    /// The kind's name.
    pub fn as_str(&self) -> (name: &'static str)
        ensures
            name@ == self.label(),
    {
        match self {
            ToastType::Error => "Error",
            ToastType::Warning => "Warning",
            ToastType::Info => "Info",
            ToastType::Loading => "Loading",
        }
    }

    /// The kind's colour as red, green and blue.
    pub fn as_color(&self) -> (rgb: (u8, u8, u8))
        ensures
            rgb == self.color(),
    {
        match self {
            ToastType::Error => (255, 0, 0),
            ToastType::Warning => (255, 255, 0),
            ToastType::Info => (0, 255, 255),
            ToastType::Loading => (0, 255, 0),
        }
    }
}

/// How long a toast takes to fade in, in milliseconds.
pub const TOAST_FADE_IN_TIME: u64 = 200;

/// How long a toast takes to fade out, in milliseconds.
pub const TOAST_FADE_OUT_TIME: u64 = 400;

/// Where a toast is in its life.
#[derive(Debug, Clone, Copy, PartialEq, Eq, Structural, Hash)]
pub enum ToastPhase {
    FadingIn,
    Shown,
    FadingOut,
}

/// The phase of a toast that has been up for `elapsed_ms` of its
/// `duration_ms`: it fades in for the fade-in time, fades out over the last
/// fade-out time of its duration, and is shown in full in between.
pub open spec fn phase_at(elapsed_ms: u128, duration_ms: u128) -> ToastPhase {
    if elapsed_ms < TOAST_FADE_IN_TIME {
        ToastPhase::FadingIn
    } else if elapsed_ms + TOAST_FADE_OUT_TIME < duration_ms {
        ToastPhase::Shown
    } else {
        ToastPhase::FadingOut
    }
}

/// How far into its fade-out a toast is, in milliseconds; `0` before the
/// fade-out starts.
pub open spec fn fade_out_elapsed_spec(elapsed_ms: u128, duration_ms: u128) -> int {
    if elapsed_ms + TOAST_FADE_OUT_TIME > duration_ms {
        elapsed_ms + TOAST_FADE_OUT_TIME - duration_ms
    } else {
        0
    }
}

/// The phase of a toast that has been up for `elapsed_ms` of its
/// `duration_ms`.
pub fn toast_phase(elapsed_ms: u128, duration_ms: u128) -> (phase: ToastPhase)
    ensures
        phase == phase_at(elapsed_ms, duration_ms),
{
    if elapsed_ms < TOAST_FADE_IN_TIME as u128 {
        ToastPhase::FadingIn
    } else if duration_ms >= TOAST_FADE_OUT_TIME as u128 && elapsed_ms < duration_ms
        - TOAST_FADE_OUT_TIME as u128 {
        ToastPhase::Shown
    } else {
        ToastPhase::FadingOut
    }
}

/// How far into its fade-out a toast is, in milliseconds, as far as that
/// fits the machine's widest integer.
pub fn fade_out_elapsed(elapsed_ms: u128, duration_ms: u128) -> (into: u128)
    ensures
        fade_out_elapsed_spec(elapsed_ms, duration_ms) <= u128::MAX ==> into
            == fade_out_elapsed_spec(elapsed_ms, duration_ms),
        fade_out_elapsed_spec(elapsed_ms, duration_ms) > u128::MAX ==> into == u128::MAX,
{
    let fade: u128 = TOAST_FADE_OUT_TIME as u128;
    if duration_ms >= fade {
        let start = duration_ms - fade;
        if elapsed_ms > start {
            elapsed_ms - start
        } else {
            0
        }
    } else {
        let short = fade - duration_ms;
        if elapsed_ms <= u128::MAX - short {
            elapsed_ms + short
        } else {
            u128::MAX
        }
    }
}

/// Whether a toast has outlived its duration and is to be taken down.
pub fn toast_expired(elapsed_ms: u128, duration_ms: u128) -> (expired: bool)
    ensures
        expired == (elapsed_ms > duration_ms),
{
    elapsed_ms > duration_ms
}

/// `tokio::time::Instant`, a point on the monotonic clock. It is carried
/// through and never looked into.
#[verifier::external_type_specification]
#[verifier::external_body]
pub struct ExInstant(tokio::time::Instant);

/// `tokio::time::Instant::now`: the instant at which it is called. It depends
/// on the clock, so nothing is claimed of the value.
#[verifier::external_body]
fn instant_now() -> tokio::time::Instant {
    tokio::time::Instant::now()
}

/// A notification shown for a while in a corner of the screen.
#[derive(Debug)]
pub struct ToastWidget {
    pub title: String,
    pub message: String,
    pub duration: Duration,
    pub start_time: tokio::time::Instant,
    pub toast_type: ToastType,
    pub toast_color: (u8, u8, u8),
}

impl ToastWidget {
    /// A toast that starts now, titled by its kind and coloured by its kind.
    pub fn new(message: String, duration: Duration, toast_type: ToastType) -> (toast: ToastWidget)
        ensures
            toast.title@ == toast_type.label(),
            toast.message == message,
            toast.duration == duration,
            toast.toast_type == toast_type,
            toast.toast_color == toast_type.color(),
    {
        ToastWidget {
            title: toast_type.as_str().to_owned(),
            message,
            duration,
            start_time: instant_now(),
            toast_type,
            toast_color: toast_type.as_color(),
        }
    }

    /// A toast that starts now, with a title of its own and the colour of its
    /// kind.
    pub fn new_with_title(
        title: String,
        message: String,
        duration: Duration,
        toast_type: ToastType,
    ) -> (toast: ToastWidget)
        ensures
            toast.title == title,
            toast.message == message,
            toast.duration == duration,
            toast.toast_type == toast_type,
            toast.toast_color == toast_type.color(),
    {
        ToastWidget {
            title,
            message,
            duration,
            start_time: instant_now(),
            toast_type,
            toast_color: toast_type.as_color(),
        }
    }
}

impl Clone for ToastWidget {
    fn clone(&self) -> (copy: ToastWidget)
        ensures
            copy == *self,
    {
        ToastWidget {
            title: self.title.clone(),
            message: self.message.clone(),
            duration: self.duration,
            start_time: self.start_time,
            toast_type: self.toast_type,
            toast_color: self.toast_color,
        }
    }
}

/// A command the palette can run.
#[derive(Debug, Clone, Copy, PartialEq, Eq, Structural, Hash)]
pub enum CommandPaletteActions {
    ExportToJSON,
    OpenConfigMenu,
    SaveKanbanState,
    LoadASave,
    NewBoard,
    NewCard,
    ResetUI,
    OpenMainMenu,
    OpenHelpMenu,
    ChangeUIMode,
    ChangeCurrentCardStatus,
    DebugMenu,
    ChangeTheme,
    CreateATheme,
    Quit,
}

impl CommandPaletteActions {
    /// The command's name as the palette shows it.
    pub open spec fn label(self) -> Seq<char> {
        match self {
            CommandPaletteActions::ExportToJSON => "Export to JSON"@,
            CommandPaletteActions::OpenConfigMenu => "Open Config Menu"@,
            CommandPaletteActions::SaveKanbanState => "Save Kanban State"@,
            CommandPaletteActions::LoadASave => "Load a Save"@,
            CommandPaletteActions::NewBoard => "New Board"@,
            CommandPaletteActions::NewCard => "New Card"@,
            CommandPaletteActions::ResetUI => "Reset UI"@,
            CommandPaletteActions::OpenMainMenu => "Open Main Menu"@,
            CommandPaletteActions::OpenHelpMenu => "Open Help Menu"@,
            CommandPaletteActions::ChangeUIMode => "Change UI Mode"@,
            CommandPaletteActions::ChangeCurrentCardStatus => "Change Current Card Status"@,
            CommandPaletteActions::DebugMenu => "Toggle Debug Panel"@,
            CommandPaletteActions::ChangeTheme => "Change Theme"@,
            CommandPaletteActions::CreateATheme => "Create a Theme"@,
            CommandPaletteActions::Quit => "Quit"@,
        }
    }

    /// The command's name in lower case, the form the search index holds.
    pub open spec fn lower_label(self) -> Seq<char> {
        match self {
            CommandPaletteActions::ExportToJSON => "export to json"@,
            CommandPaletteActions::OpenConfigMenu => "open config menu"@,
            CommandPaletteActions::SaveKanbanState => "save kanban state"@,
            CommandPaletteActions::LoadASave => "load a save"@,
            CommandPaletteActions::NewBoard => "new board"@,
            CommandPaletteActions::NewCard => "new card"@,
            CommandPaletteActions::ResetUI => "reset ui"@,
            CommandPaletteActions::OpenMainMenu => "open main menu"@,
            CommandPaletteActions::OpenHelpMenu => "open help menu"@,
            CommandPaletteActions::ChangeUIMode => "change ui mode"@,
            CommandPaletteActions::ChangeCurrentCardStatus => "change current card status"@,
            CommandPaletteActions::DebugMenu => "toggle debug panel"@,
            CommandPaletteActions::ChangeTheme => "change theme"@,
            CommandPaletteActions::CreateATheme => "create a theme"@,
            CommandPaletteActions::Quit => "quit"@,
        }
    }

    /// The command vocabulary: every command but the debug panel toggle, which
    /// is a developer's aid.
    pub open spec fn vocabulary() -> Seq<CommandPaletteActions> {
        seq![
            CommandPaletteActions::ExportToJSON,
            CommandPaletteActions::OpenConfigMenu,
            CommandPaletteActions::SaveKanbanState,
            CommandPaletteActions::LoadASave,
            CommandPaletteActions::NewBoard,
            CommandPaletteActions::NewCard,
            CommandPaletteActions::ResetUI,
            CommandPaletteActions::OpenMainMenu,
            CommandPaletteActions::OpenHelpMenu,
            CommandPaletteActions::ChangeUIMode,
            CommandPaletteActions::ChangeCurrentCardStatus,
            CommandPaletteActions::ChangeTheme,
            CommandPaletteActions::CreateATheme,
            CommandPaletteActions::Quit,
        ]
    }

    /// The command vocabulary.
    pub fn all() -> (commands: Vec<CommandPaletteActions>)
        ensures
            commands@ == CommandPaletteActions::vocabulary(),
    {
        let commands = vec![
            CommandPaletteActions::ExportToJSON,
            CommandPaletteActions::OpenConfigMenu,
            CommandPaletteActions::SaveKanbanState,
            CommandPaletteActions::LoadASave,
            CommandPaletteActions::NewBoard,
            CommandPaletteActions::NewCard,
            CommandPaletteActions::ResetUI,
            CommandPaletteActions::OpenMainMenu,
            CommandPaletteActions::OpenHelpMenu,
            CommandPaletteActions::ChangeUIMode,
            CommandPaletteActions::ChangeCurrentCardStatus,
            CommandPaletteActions::ChangeTheme,
            CommandPaletteActions::CreateATheme,
            CommandPaletteActions::Quit,
        ];
        assert(commands@ =~= CommandPaletteActions::vocabulary());
        commands
    }

    /// The command vocabulary with the debug panel toggle at its end.
    pub fn all_with_debug() -> (commands: Vec<CommandPaletteActions>)
        ensures
            commands@ == CommandPaletteActions::vocabulary().push(CommandPaletteActions::DebugMenu),
    {
        let mut commands = CommandPaletteActions::all();
        commands.push(CommandPaletteActions::DebugMenu);
        commands
    }

    /// Every command, in declaration order.
    pub open spec fn every_spec() -> Seq<CommandPaletteActions> {
        seq![
            CommandPaletteActions::ExportToJSON,
            CommandPaletteActions::OpenConfigMenu,
            CommandPaletteActions::SaveKanbanState,
            CommandPaletteActions::LoadASave,
            CommandPaletteActions::NewBoard,
            CommandPaletteActions::NewCard,
            CommandPaletteActions::ResetUI,
            CommandPaletteActions::OpenMainMenu,
            CommandPaletteActions::OpenHelpMenu,
            CommandPaletteActions::ChangeUIMode,
            CommandPaletteActions::ChangeCurrentCardStatus,
            CommandPaletteActions::DebugMenu,
            CommandPaletteActions::ChangeTheme,
            CommandPaletteActions::CreateATheme,
            CommandPaletteActions::Quit,
        ]
    }

    /// Every command, in declaration order.
    pub fn every() -> (commands: &'static [CommandPaletteActions])
        ensures
            commands@ == CommandPaletteActions::every_spec(),
            forall|c: CommandPaletteActions| #[trigger] commands@.contains(c),
    {
        let commands: &'static [CommandPaletteActions] = &[
            CommandPaletteActions::ExportToJSON,
            CommandPaletteActions::OpenConfigMenu,
            CommandPaletteActions::SaveKanbanState,
            CommandPaletteActions::LoadASave,
            CommandPaletteActions::NewBoard,
            CommandPaletteActions::NewCard,
            CommandPaletteActions::ResetUI,
            CommandPaletteActions::OpenMainMenu,
            CommandPaletteActions::OpenHelpMenu,
            CommandPaletteActions::ChangeUIMode,
            CommandPaletteActions::ChangeCurrentCardStatus,
            CommandPaletteActions::DebugMenu,
            CommandPaletteActions::ChangeTheme,
            CommandPaletteActions::CreateATheme,
            CommandPaletteActions::Quit,
        ];
        proof {
            assert(commands@ =~= CommandPaletteActions::every_spec());
            assert forall|c: CommandPaletteActions| #[trigger] commands@.contains(c) by {
                let at: int = match c {
                    CommandPaletteActions::ExportToJSON => 0,
                    CommandPaletteActions::OpenConfigMenu => 1,
                    CommandPaletteActions::SaveKanbanState => 2,
                    CommandPaletteActions::LoadASave => 3,
                    CommandPaletteActions::NewBoard => 4,
                    CommandPaletteActions::NewCard => 5,
                    CommandPaletteActions::ResetUI => 6,
                    CommandPaletteActions::OpenMainMenu => 7,
                    CommandPaletteActions::OpenHelpMenu => 8,
                    CommandPaletteActions::ChangeUIMode => 9,
                    CommandPaletteActions::ChangeCurrentCardStatus => 10,
                    CommandPaletteActions::DebugMenu => 11,
                    CommandPaletteActions::ChangeTheme => 12,
                    CommandPaletteActions::CreateATheme => 13,
                    CommandPaletteActions::Quit => 14,
                };
                assert(commands@[at] == c);
            }
        }
        commands
    }

    /// The command's name as the palette shows it.
    pub fn as_str(&self) -> (name: &'static str)
        ensures
            name@ == self.label(),
    {
        match self {
            CommandPaletteActions::ExportToJSON => "Export to JSON",
            CommandPaletteActions::OpenConfigMenu => "Open Config Menu",
            CommandPaletteActions::SaveKanbanState => "Save Kanban State",
            CommandPaletteActions::LoadASave => "Load a Save",
            CommandPaletteActions::NewBoard => "New Board",
            CommandPaletteActions::NewCard => "New Card",
            CommandPaletteActions::ResetUI => "Reset UI",
            CommandPaletteActions::OpenMainMenu => "Open Main Menu",
            CommandPaletteActions::OpenHelpMenu => "Open Help Menu",
            CommandPaletteActions::ChangeUIMode => "Change UI Mode",
            CommandPaletteActions::ChangeCurrentCardStatus => "Change Current Card Status",
            CommandPaletteActions::DebugMenu => "Toggle Debug Panel",
            CommandPaletteActions::ChangeTheme => "Change Theme",
            CommandPaletteActions::CreateATheme => "Create a Theme",
            CommandPaletteActions::Quit => "Quit",
        }
    }

    /// The command's name in lower case.
    pub fn as_lowercase_str(&self) -> (name: &'static str)
        ensures
            name@ == self.lower_label(),
    {
        match self {
            CommandPaletteActions::ExportToJSON => "export to json",
            CommandPaletteActions::OpenConfigMenu => "open config menu",
            CommandPaletteActions::SaveKanbanState => "save kanban state",
            CommandPaletteActions::LoadASave => "load a save",
            CommandPaletteActions::NewBoard => "new board",
            CommandPaletteActions::NewCard => "new card",
            CommandPaletteActions::ResetUI => "reset ui",
            CommandPaletteActions::OpenMainMenu => "open main menu",
            CommandPaletteActions::OpenHelpMenu => "open help menu",
            CommandPaletteActions::ChangeUIMode => "change ui mode",
            CommandPaletteActions::ChangeCurrentCardStatus => "change current card status",
            CommandPaletteActions::DebugMenu => "toggle debug panel",
            CommandPaletteActions::ChangeTheme => "change theme",
            CommandPaletteActions::CreateATheme => "create a theme",
            CommandPaletteActions::Quit => "quit",
        }
    }

    /// The command's name as an owned string.
    pub fn to_string(&self) -> (name: String)
        ensures
            name@ == self.label(),
    {
        self.as_str().to_owned()
    }

    /// The command whose name is exactly `s`, if there is one.
    pub fn from_exact(s: &str) -> (command: Option<CommandPaletteActions>)
        ensures
            forall|c: CommandPaletteActions| command == Some(c) <==> #[trigger] c.label() == s@,
    {
        let commands = CommandPaletteActions::every();
        let mut n: usize = 0;
        while n < commands.len()
            invariant
                0 <= n <= commands.len(),
                forall|c: CommandPaletteActions| #[trigger] commands@.contains(c),
                forall|m: int| 0 <= m < n ==> (#[trigger] commands@[m]).label() != s@,
            decreases commands.len() - n,
        {
            let candidate = commands[n];
            if str_eq(s, candidate.as_str()) {
                proof {
                    lemma_command_labels_distinct();
                }
                return Some(candidate);
            }
            n = n + 1;
        }
        proof {
            assert forall|c: CommandPaletteActions| #[trigger] c.label() != s@ by {
                assert(commands@.contains(c));
            }
        }
        None
    }

    /// The command whose lower-case name is exactly `lowered`, if there is
    /// one.
    pub fn from_lowercase(lowered: &str) -> (command: Option<CommandPaletteActions>)
        ensures
            forall|c: CommandPaletteActions|
                command == Some(c) <==> #[trigger] c.lower_label() == lowered@,
    {
        let commands = CommandPaletteActions::every();
        let mut n: usize = 0;
        while n < commands.len()
            invariant
                0 <= n <= commands.len(),
                forall|c: CommandPaletteActions| #[trigger] commands@.contains(c),
                forall|m: int| 0 <= m < n ==> (#[trigger] commands@[m]).lower_label() != lowered@,
            decreases commands.len() - n,
        {
            let candidate = commands[n];
            if str_eq(lowered, candidate.as_lowercase_str()) {
                proof {
                    lemma_command_lower_labels_distinct();
                }
                return Some(candidate);
            }
            n = n + 1;
        }
        proof {
            assert forall|c: CommandPaletteActions| #[trigger] c.lower_label() != lowered@ by {
                assert(commands@.contains(c));
            }
        }
        None
    }

    /// The command named `s`. With `lowercase_match` the text is first put in
    /// lower case and then held against the lower-case names; without it the
    /// text must be a name exactly.
    pub fn from_string(s: &str, lowercase_match: bool) -> (command: Option<CommandPaletteActions>)
        ensures
            lowercase_match ==> forall|c: CommandPaletteActions|
                command == Some(c) <==> #[trigger] c.lower_label() == lowercase_of(s@),
            !lowercase_match ==> forall|c: CommandPaletteActions|
                command == Some(c) <==> #[trigger] c.label() == s@,
    {
        if lowercase_match {
            let lowered = to_lowercase(s);
            CommandPaletteActions::from_lowercase(lowered.as_str())
        } else {
            CommandPaletteActions::from_exact(s)
        }
    }
}

/// No two commands share a name.
pub proof fn lemma_command_labels_distinct()
    ensures
        forall|a: CommandPaletteActions, b: CommandPaletteActions| #[trigger]
            a.label() == #[trigger] b.label() ==> a == b,
{
    reveal_strlit("Export to JSON");
    reveal_strlit("Open Config Menu");
    reveal_strlit("Save Kanban State");
    reveal_strlit("Load a Save");
    reveal_strlit("New Board");
    reveal_strlit("New Card");
    reveal_strlit("Reset UI");
    reveal_strlit("Open Main Menu");
    reveal_strlit("Open Help Menu");
    reveal_strlit("Change UI Mode");
    reveal_strlit("Change Current Card Status");
    reveal_strlit("Toggle Debug Panel");
    reveal_strlit("Change Theme");
    reveal_strlit("Create a Theme");
    reveal_strlit("Quit");
    assert forall|a: CommandPaletteActions, b: CommandPaletteActions| #[trigger]
        a.label() == #[trigger] b.label() implies a == b by {
        let x = a.label();
        let y = b.label();
        assert(x.len() == y.len());
        assert(x[0] == y[0]);
        assert(x[1] == y[1]);
        if x.len() > 5 {
            assert(x[5] == y[5]);
        }
    }
}

/// No two commands share a lower-case name.
pub proof fn lemma_command_lower_labels_distinct()
    ensures
        forall|a: CommandPaletteActions, b: CommandPaletteActions| #[trigger]
            a.lower_label() == #[trigger] b.lower_label() ==> a == b,
{
    reveal_strlit("export to json");
    reveal_strlit("open config menu");
    reveal_strlit("save kanban state");
    reveal_strlit("load a save");
    reveal_strlit("new board");
    reveal_strlit("new card");
    reveal_strlit("reset ui");
    reveal_strlit("open main menu");
    reveal_strlit("open help menu");
    reveal_strlit("change ui mode");
    reveal_strlit("change current card status");
    reveal_strlit("toggle debug panel");
    reveal_strlit("change theme");
    reveal_strlit("create a theme");
    reveal_strlit("quit");
    assert forall|a: CommandPaletteActions, b: CommandPaletteActions| #[trigger]
        a.lower_label() == #[trigger] b.lower_label() implies a == b by {
        let x = a.lower_label();
        let y = b.lower_label();
        assert(x.len() == y.len());
        assert(x[0] == y[0]);
        assert(x[1] == y[1]);
        if x.len() > 5 {
            assert(x[5] == y[5]);
        }
    }
}

/// A cursor over a list: the selected place, if any, and the list's length.
#[derive(Debug, Clone, Copy, PartialEq, Eq, Structural)]
pub struct Selection {
    pub selected: Option<usize>,
    pub len: usize,
}

impl Selection {
    /// The cursor points into the list or nowhere.
    pub open spec fn wf(self) -> bool {
        self.selected matches Some(i) ==> i < self.len
    }

    /// The cursor after the list's length became `len`: a place past the new
    /// end is given up, and where that leaves nothing selected in a focused
    /// list that is not empty, the first place is selected.
    pub open spec fn resized(self, len: usize, focused: bool) -> Selection {
        let kept = match self.selected {
            Some(i) => if i < len {
                Some(i)
            } else {
                None
            },
            None => None,
        };
        Selection {
            selected: if kept is None && focused && len > 0 {
                Some(0usize)
            } else {
                kept
            },
            len,
        }
    }

    /// The cursor after `index` was asked for: a place in the list is taken,
    /// anything else selects nothing.
    pub open spec fn with_selected(self, index: Option<usize>) -> Selection {
        Selection {
            selected: match index {
                Some(i) => if i < self.len {
                    Some(i)
                } else {
                    None
                },
                None => None,
            },
            ..self
        }
    }

    /// A cursor over a list of `len` entries with nothing selected.
    pub fn new(len: usize) -> (cursor: Selection)
        ensures
            cursor == (Selection { selected: None, len }),
            cursor.wf(),
    {
        Selection { selected: None, len }
    }

    /// The selected place. In a well-formed cursor it lies in the list.
    pub fn selected(&self) -> (index: Option<usize>)
        ensures
            index == self.selected,
    {
        self.selected
    }

    /// Follows a change of the list's length.
    pub fn resize(&mut self, len: usize, focused: bool)
        ensures
            *final(self) == old(self).resized(len, focused),
            final(self).wf(),
    {
        let kept = match self.selected {
            Some(i) => if i < len {
                Some(i)
            } else {
                None
            },
            None => None,
        };
        let selected = if kept.is_none() && focused && len > 0 {
            Some(0)
        } else {
            kept
        };
        *self = Selection { selected, len };
    }

    /// Selects `index` if it lies in the list, nothing otherwise.
    pub fn select(&mut self, index: Option<usize>)
        ensures
            *final(self) == old(self).with_selected(index),
            final(self).wf(),
    {
        self.selected = match index {
            Some(i) => if i < self.len {
                Some(i)
            } else {
                None
            },
            None => None,
        };
    }
}

/// `ngrammatic::Corpus`, a search index over texts. Of what it holds only
/// the set of texts is spoken of, under the name `corpus_texts`.
#[verifier::external_type_specification]
#[verifier::external_body]
pub struct ExCorpus(ngrammatic::Corpus);

/// The texts that a search index holds: those it was given, each once.
pub uninterp spec fn corpus_texts(corpus: ngrammatic::Corpus) -> Set<Seq<char>>;

/// Whether a search index keeps each text as it is given, that is, whether
/// it was built without a key transformation.
pub uninterp spec fn keeps_texts_as_given(corpus: ngrammatic::Corpus) -> bool;

/// `ngrammatic::CorpusBuilder`, from `new` to `finish`, with the given arity
/// and automatic padding on both sides: an index that holds no text yet and
/// will keep each text as it is given.
#[verifier::external_body]
fn empty_corpus(arity: usize) -> (corpus: ngrammatic::Corpus)
    ensures
        corpus_texts(corpus) == Set::<Seq<char>>::empty(),
        keeps_texts_as_given(corpus),
{
    ngrammatic::CorpusBuilder::new().arity(arity).pad_full(ngrammatic::Pad::Auto).finish()
}

/// `ngrammatic::Corpus::add_text` on an index without a key transformation:
/// the index then holds `text` beside what it held before.
#[verifier::external_body]
fn corpus_add_text(corpus: &mut ngrammatic::Corpus, text: &str)
    requires
        keeps_texts_as_given(*old(corpus)),
    ensures
        corpus_texts(*final(corpus)) == corpus_texts(*old(corpus)).insert(text@),
        keeps_texts_as_given(*final(corpus)),
{
    corpus.add_text(text);
}

/// One ranked entry of the card or board list: a title and the identifier of
/// the card or board it stands for.
pub type SearchEntry = (String, u128);

/// The command named by a lower-case text, if any command has that name.
pub open spec fn command_named(lowered: Seq<char>) -> Option<CommandPaletteActions> {
    if exists|c: CommandPaletteActions| #[trigger] c.lower_label() == lowered {
        Some(choose|c: CommandPaletteActions| #[trigger] c.lower_label() == lowered)
    } else {
        None
    }
}

/// The commands that the first `n` search hits name, in the order of the
/// hits. A hit that names no command is passed over.
pub open spec fn matched_commands(hits: Seq<String>, n: int) -> Seq<CommandPaletteActions>
    decreases n,
{
    if n <= 0 {
        Seq::empty()
    } else {
        let earlier = matched_commands(hits, n - 1);
        match command_named(lowercase_of(hits[n - 1]@)) {
            Some(command) => earlier.push(command),
            None => earlier,
        }
    }
}

/// The command list for a query: the commands the hits name, in the order of
/// the hits; the whole vocabulary where the query is empty or the hits name
/// no command.
pub open spec fn command_results(
    query: Seq<char>,
    hits: Seq<String>,
    available: Seq<CommandPaletteActions>,
) -> Seq<CommandPaletteActions> {
    let matched = matched_commands(hits, hits.len() as int);
    if query.len() == 0 || matched.len() == 0 {
        available
    } else {
        matched
    }
}

/// The card or board list for a query: the ranked list as given once the
/// query has two characters, nothing before that.
pub open spec fn entry_results(query: Seq<char>, ranked: Seq<SearchEntry>) -> Seq<SearchEntry> {
    if query.len() >= 2 {
        ranked
    } else {
        Seq::empty()
    }
}

/// What a command palette holds, as plain values.
pub struct PaletteView {
    pub commands: Option<Seq<CommandPaletteActions>>,
    pub cards: Option<Seq<SearchEntry>>,
    pub boards: Option<Seq<SearchEntry>>,
    pub available: Seq<CommandPaletteActions>,
    pub texts: Set<Seq<char>>,
    pub command_cursor: Selection,
    pub card_cursor: Selection,
    pub board_cursor: Selection,
}

impl PaletteView {
    /// Each cursor knows the length of its list and points into it or
    /// nowhere, and the search index holds the lower-case names of the
    /// vocabulary and nothing else.
    pub open spec fn wf(self) -> bool {
        &&& self.command_cursor.wf()
        &&& self.card_cursor.wf()
        &&& self.board_cursor.wf()
        &&& self.command_cursor.len == list_len(self.commands)
        &&& self.card_cursor.len == list_len(self.cards)
        &&& self.board_cursor.len == list_len(self.boards)
        &&& self.texts == indexed_texts(self.available)
    }

    /// The palette after a query: the three lists are recomputed and each
    /// cursor follows its list, the focused list's cursor as focused.
    pub open spec fn updated(
        self,
        query: Seq<char>,
        hits: Seq<String>,
        cards: Seq<SearchEntry>,
        boards: Seq<SearchEntry>,
        focus: Focus,
    ) -> PaletteView {
        let commands = command_results(query, hits, self.available);
        let cards = entry_results(query, cards);
        let boards = entry_results(query, boards);
        PaletteView {
            commands: Some(commands),
            cards: Some(cards),
            boards: Some(boards),
            command_cursor: self.command_cursor.resized(
                commands.len() as usize,
                focus == Focus::CommandPaletteCommand,
            ),
            card_cursor: self.card_cursor.resized(
                cards.len() as usize,
                focus == Focus::CommandPaletteCard,
            ),
            board_cursor: self.board_cursor.resized(
                boards.len() as usize,
                focus == Focus::CommandPaletteBoard,
            ),
            ..self
        }
    }

    /// The command under the cursor.
    pub open spec fn selected_command(self) -> Option<CommandPaletteActions> {
        match (self.command_cursor.selected, self.commands) {
            (Some(i), Some(list)) => if i < list.len() {
                Some(list[i as int])
            } else {
                None
            },
            _ => None,
        }
    }
}

/// The length of a list that may not have been computed yet.
pub open spec fn list_len<T>(list: Option<Seq<T>>) -> usize {
    match list {
        Some(entries) => entries.len() as usize,
        None => 0usize,
    }
}

/// The texts a search index over `commands` holds: the lower-case form of
/// each command's name.
pub open spec fn indexed_texts(commands: Seq<CommandPaletteActions>) -> Set<Seq<char>> {
    Set::new(
        |text: Seq<char>|
            exists|i: int|
                0 <= i < commands.len() && text == lowercase_of(
                    (#[trigger] commands[i]).label(),
                ),
    )
}

/// The command palette: the vocabulary, a search index over it, the three
/// ranked lists of the last query, and a cursor for each list.
pub struct CommandPalette {
    command_search_results: Option<Vec<CommandPaletteActions>>,
    card_search_results: Option<Vec<SearchEntry>>,
    board_search_results: Option<Vec<SearchEntry>>,
    available_commands: Vec<CommandPaletteActions>,
    corpus: ngrammatic::Corpus,
    command_cursor: Selection,
    card_cursor: Selection,
    board_cursor: Selection,
}

impl View for CommandPalette {
    type V = PaletteView;

    closed spec fn view(&self) -> PaletteView {
        PaletteView {
            commands: match self.command_search_results {
                Some(list) => Some(list@),
                None => None,
            },
            cards: match self.card_search_results {
                Some(list) => Some(list@),
                None => None,
            },
            boards: match self.board_search_results {
                Some(list) => Some(list@),
                None => None,
            },
            available: self.available_commands@,
            texts: corpus_texts(self.corpus),
            command_cursor: self.command_cursor,
            card_cursor: self.card_cursor,
            board_cursor: self.board_cursor,
        }
    }
}

/// The commands that `hits` name, in the order of the hits.
pub fn commands_among(hits: &Vec<String>) -> (matched: Vec<CommandPaletteActions>)
    ensures
        matched@ == matched_commands(hits@, hits.len() as int),
{
    let mut matched: Vec<CommandPaletteActions> = Vec::new();
    let mut n: usize = 0;
    while n < hits.len()
        invariant
            0 <= n <= hits.len(),
            matched@ == matched_commands(hits@, n as int),
        decreases hits.len() - n,
    {
        let found = CommandPaletteActions::from_string(hits[n].as_str(), true);
        proof {
            let lowered = lowercase_of(hits@[n as int]@);
            match found {
                Some(c) => {
                    assert(c.lower_label() == lowered);
                    let chosen = choose|c: CommandPaletteActions| #[trigger]
                        c.lower_label() == lowered;
                    assert(found == Some(chosen));
                },
                None => {},
            }
            assert(found == command_named(lowered));
        }
        if let Some(command) = found {
            matched.push(command);
        }
        n = n + 1;
    }
    matched
}

impl CommandPalette {
    /// A palette over the command vocabulary, with nothing searched yet.
    pub fn new() -> (palette: CommandPalette)
        ensures
            palette@.available == CommandPaletteActions::vocabulary(),
            palette@.commands is None,
            palette@.cards is None,
            palette@.boards is None,
            palette@.command_cursor == (Selection { selected: None, len: 0 }),
            palette@.card_cursor == (Selection { selected: None, len: 0 }),
            palette@.board_cursor == (Selection { selected: None, len: 0 }),
            palette@.wf(),
    {
        CommandPalette::with_commands(CommandPaletteActions::all())
    }

    /// A palette over the given vocabulary, with nothing searched yet. Its
    /// search index is built on bigrams and holds the lower-case name of each
    /// command.
    pub fn with_commands(commands: Vec<CommandPaletteActions>) -> (palette: CommandPalette)
        ensures
            palette@.available == commands@,
            palette@.commands is None,
            palette@.cards is None,
            palette@.boards is None,
            palette@.command_cursor == (Selection { selected: None, len: 0 }),
            palette@.card_cursor == (Selection { selected: None, len: 0 }),
            palette@.board_cursor == (Selection { selected: None, len: 0 }),
            palette@.wf(),
    {
        let mut corpus = empty_corpus(2);
        let mut n: usize = 0;
        assert(corpus_texts(corpus) =~= indexed_texts(commands@.take(0)));
        while n < commands.len()
            invariant
                0 <= n <= commands.len(),
                keeps_texts_as_given(corpus),
                corpus_texts(corpus) == indexed_texts(commands@.take(n as int)),
            decreases commands.len() - n,
        {
            let lowered = to_lowercase(commands[n].as_str());
            corpus_add_text(&mut corpus, lowered.as_str());
            proof {
                let before = commands@.take(n as int);
                let after = commands@.take(n as int + 1);
                assert forall|text: Seq<char>|
                    indexed_texts(before).insert(lowered@).contains(text) <==> indexed_texts(
                        after,
                    ).contains(text) by {
                    if indexed_texts(before).contains(text) {
                        let i = choose|i: int|
                            0 <= i < before.len() && text == lowercase_of(
                                (#[trigger] before[i]).label(),
                            );
                        assert(after[i] == before[i]);
                    }
                    if text == lowered@ {
                        assert(after[n as int] == commands@[n as int]);
                    }
                    if indexed_texts(after).contains(text) {
                        let i = choose|i: int|
                            0 <= i < after.len() && text == lowercase_of(
                                (#[trigger] after[i]).label(),
                            );
                        if i < n {
                            assert(before[i] == after[i]);
                        }
                    }
                }
                assert(indexed_texts(before).insert(lowered@) =~= indexed_texts(after));
            }
            n = n + 1;
        }
        assert(commands@.take(commands.len() as int) =~= commands@);
        CommandPalette {
            command_search_results: None,
            card_search_results: None,
            board_search_results: None,
            available_commands: commands,
            corpus,
            command_cursor: Selection::new(0),
            card_cursor: Selection::new(0),
            board_cursor: Selection::new(0),
        }
    }

    /// The search index, for whoever runs the similarity search.
    pub fn corpus(&self) -> (corpus: &ngrammatic::Corpus)
        ensures
            corpus_texts(*corpus) == self@.texts,
    {
        &self.corpus
    }

    /// The vocabulary.
    pub fn available_commands(&self) -> (commands: &Vec<CommandPaletteActions>)
        ensures
            commands@ == self@.available,
    {
        &self.available_commands
    }

    /// The ranked commands of the last query.
    pub fn command_search_results(&self) -> (list: Option<&Vec<CommandPaletteActions>>)
        ensures
            match list {
                Some(entries) => self@.commands == Some(entries@),
                None => self@.commands is None,
            },
    {
        self.command_search_results.as_ref()
    }

    /// The ranked cards of the last query.
    pub fn card_search_results(&self) -> (list: Option<&Vec<SearchEntry>>)
        ensures
            match list {
                Some(entries) => self@.cards == Some(entries@),
                None => self@.cards is None,
            },
    {
        self.card_search_results.as_ref()
    }

    /// The ranked boards of the last query.
    pub fn board_search_results(&self) -> (list: Option<&Vec<SearchEntry>>)
        ensures
            match list {
                Some(entries) => self@.boards == Some(entries@),
                None => self@.boards is None,
            },
    {
        self.board_search_results.as_ref()
    }

    /// The cursor over the command list.
    pub fn command_cursor(&self) -> (cursor: Selection)
        ensures
            cursor == self@.command_cursor,
    {
        self.command_cursor
    }

    /// The cursor over the card list.
    pub fn card_cursor(&self) -> (cursor: Selection)
        ensures
            cursor == self@.card_cursor,
    {
        self.card_cursor
    }

    /// The cursor over the board list.
    pub fn board_cursor(&self) -> (cursor: Selection)
        ensures
            cursor == self@.board_cursor,
    {
        self.board_cursor
    }

    /// The command under the cursor, if the cursor points at one.
    pub fn selected_command(&self) -> (command: Option<CommandPaletteActions>)
        ensures
            command == self@.selected_command(),
    {
        match (self.command_cursor.selected, &self.command_search_results) {
            (Some(i), Some(list)) => if i < list.len() {
                Some(list[i])
            } else {
                None
            },
            _ => None,
        }
    }

    /// Takes in the outcome of a query. `hits` are the texts the similarity
    /// search over the index returned for `query`, best first; `cards` and
    /// `boards` are the ranked titles from the board collaborator; `focus` is
    /// the region that holds the focus.
    pub fn update(
        &mut self,
        query: &str,
        hits: &Vec<String>,
        cards: Vec<SearchEntry>,
        boards: Vec<SearchEntry>,
        focus: Focus,
    )
        ensures
            final(self)@ == old(self)@.updated(query@, hits@, cards@, boards@, focus),
            final(self)@.wf() <== old(self)@.wf(),
    {
        let long_enough = query.unicode_len() >= 2;
        let matched = commands_among(hits);
        let commands = if query.unicode_len() == 0 || matched.len() == 0 {
            self.available_commands.clone()
        } else {
            matched
        };
        let shown_cards = if long_enough {
            cards
        } else {
            Vec::new()
        };
        let shown_boards = if long_enough {
            boards
        } else {
            Vec::new()
        };
        assert(commands@ =~= command_results(query@, hits@, self.available_commands@));
        assert(shown_cards@ =~= entry_results(query@, cards@));
        assert(shown_boards@ =~= entry_results(query@, boards@));
        self.command_cursor.resize(commands.len(), focus == Focus::CommandPaletteCommand);
        self.card_cursor.resize(shown_cards.len(), focus == Focus::CommandPaletteCard);
        self.board_cursor.resize(shown_boards.len(), focus == Focus::CommandPaletteBoard);
        self.command_search_results = Some(commands);
        self.card_search_results = Some(shown_cards);
        self.board_search_results = Some(shown_boards);
    }

    /// Moves the cursor of the list that `list` names to `index`, or to
    /// nothing if `index` is not a place in that list. A `list` that is none
    /// of the palette's three regions changes nothing.
    pub fn select(&mut self, list: Focus, index: Option<usize>)
        ensures
            final(self)@ == (PaletteView {
                command_cursor: if list == Focus::CommandPaletteCommand {
                    old(self)@.command_cursor.with_selected(index)
                } else {
                    old(self)@.command_cursor
                },
                card_cursor: if list == Focus::CommandPaletteCard {
                    old(self)@.card_cursor.with_selected(index)
                } else {
                    old(self)@.card_cursor
                },
                board_cursor: if list == Focus::CommandPaletteBoard {
                    old(self)@.board_cursor.with_selected(index)
                } else {
                    old(self)@.board_cursor
                },
                ..old(self)@
            }),
            final(self)@.wf() <== old(self)@.wf(),
    {
        match list {
            Focus::CommandPaletteCommand => self.command_cursor.select(index),
            Focus::CommandPaletteCard => self.card_cursor.select(index),
            Focus::CommandPaletteBoard => self.board_cursor.select(index),
            _ => {},
        }
    }
}

/// An empty query yields the whole vocabulary and no cards or boards; a query
/// of one character yields no cards or boards; and a query whose hits name no
/// command yields the whole vocabulary, so the command list is empty only if
/// the vocabulary is.
pub proof fn lemma_palette_never_blank(
    query: Seq<char>,
    hits: Seq<String>,
    ranked: Seq<SearchEntry>,
    available: Seq<CommandPaletteActions>,
)
    ensures
        query.len() == 0 ==> command_results(query, hits, available) == available,
        query.len() <= 1 ==> entry_results(query, ranked).len() == 0,
        matched_commands(hits, hits.len() as int).len() == 0 ==> command_results(
            query,
            hits,
            available,
        ) == available,
        available.len() > 0 ==> command_results(query, hits, available).len() > 0,
{
}

} // verus!
