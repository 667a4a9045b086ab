use std::time::Duration;

use rust_kanban::state::Focus;
use rust_kanban::widgets::{
    commands_among, fade_out_elapsed, toast_expired, toast_phase, CommandPalette,
    CommandPaletteActions, Selection, ToastPhase, ToastType, ToastWidget,
};

fn vocabulary() -> Vec<CommandPaletteActions> {
    vec![
        CommandPaletteActions::ExportToJSON,
        CommandPaletteActions::OpenConfigMenu,
        CommandPaletteActions::SaveKanbanState,
        CommandPaletteActions::LoadASave,
        CommandPaletteActions::NewBoard,
        CommandPaletteActions::NewCard,
        CommandPaletteActions::ResetUI,
        CommandPaletteActions::OpenMainMenu,
        CommandPaletteActions::OpenHelpMenu,
        CommandPaletteActions::ChangeUIMode,
        CommandPaletteActions::ChangeCurrentCardStatus,
        CommandPaletteActions::ChangeTheme,
        CommandPaletteActions::CreateATheme,
        CommandPaletteActions::Quit,
    ]
}

fn search(palette: &CommandPalette, query: &str) -> Vec<String> {
    palette
        .corpus()
        .search(&query.to_lowercase(), 0.2)
        .into_iter()
        .map(|hit| hit.text)
        .collect()
}

fn entries(titles: &[&str]) -> Vec<(String, u128)> {
    titles.iter().enumerate().map(|(i, title)| (title.to_string(), i as u128 + 1)).collect()
}

#[test]
fn toast_kinds_have_names_and_colours() {
    assert_eq!(ToastType::Error.as_str(), "Error");
    assert_eq!(ToastType::Warning.as_str(), "Warning");
    assert_eq!(ToastType::Info.as_str(), "Info");
    assert_eq!(ToastType::Loading.as_str(), "Loading");
    assert_eq!(ToastType::Error.as_color(), (255, 0, 0));
    assert_eq!(ToastType::Warning.as_color(), (255, 255, 0));
    assert_eq!(ToastType::Info.as_color(), (0, 255, 255));
    assert_eq!(ToastType::Loading.as_color(), (0, 255, 0));
}

#[test]
fn a_toast_is_titled_and_coloured_by_its_kind() {
    let before = tokio::time::Instant::now();
    let toast = ToastWidget::new("Saved".to_string(), Duration::from_secs(3), ToastType::Info);
    assert_eq!(toast.title, "Info");
    assert_eq!(toast.message, "Saved");
    assert_eq!(toast.duration, Duration::from_secs(3));
    assert_eq!(toast.toast_type, ToastType::Info);
    assert_eq!(toast.toast_color, (0, 255, 255));
    assert!(toast.start_time >= before);
    assert!(toast.start_time <= tokio::time::Instant::now());
}

#[test]
fn a_toast_can_have_a_title_of_its_own() {
    let toast = ToastWidget::new_with_title(
        "Disk".to_string(),
        "Almost full".to_string(),
        Duration::from_millis(1500),
        ToastType::Warning,
    );
    assert_eq!(toast.title, "Disk");
    assert_eq!(toast.message, "Almost full");
    assert_eq!(toast.duration, Duration::from_millis(1500));
    assert_eq!(toast.toast_type, ToastType::Warning);
    assert_eq!(toast.toast_color, (255, 255, 0));
    let copy = toast.clone();
    assert_eq!(copy.title, "Disk");
    assert_eq!(copy.start_time, toast.start_time);
}

#[test]
fn the_vocabulary_leaves_out_the_debug_toggle() {
    assert_eq!(CommandPaletteActions::all(), vocabulary());
    let mut with_debug = vocabulary();
    with_debug.push(CommandPaletteActions::DebugMenu);
    assert_eq!(CommandPaletteActions::all_with_debug(), with_debug);
    assert_eq!(CommandPaletteActions::every().len(), 15);
}

#[test]
fn command_names() {
    assert_eq!(CommandPaletteActions::ExportToJSON.as_str(), "Export to JSON");
    assert_eq!(CommandPaletteActions::OpenConfigMenu.as_str(), "Open Config Menu");
    assert_eq!(CommandPaletteActions::SaveKanbanState.as_str(), "Save Kanban State");
    assert_eq!(CommandPaletteActions::LoadASave.as_str(), "Load a Save");
    assert_eq!(CommandPaletteActions::NewBoard.as_str(), "New Board");
    assert_eq!(CommandPaletteActions::NewCard.as_str(), "New Card");
    assert_eq!(CommandPaletteActions::ResetUI.as_str(), "Reset UI");
    assert_eq!(CommandPaletteActions::OpenMainMenu.as_str(), "Open Main Menu");
    assert_eq!(CommandPaletteActions::OpenHelpMenu.as_str(), "Open Help Menu");
    assert_eq!(CommandPaletteActions::ChangeUIMode.as_str(), "Change UI Mode");
    assert_eq!(
        CommandPaletteActions::ChangeCurrentCardStatus.as_str(),
        "Change Current Card Status"
    );
    assert_eq!(CommandPaletteActions::DebugMenu.as_str(), "Toggle Debug Panel");
    assert_eq!(CommandPaletteActions::ChangeTheme.as_str(), "Change Theme");
    assert_eq!(CommandPaletteActions::CreateATheme.as_str(), "Create a Theme");
    assert_eq!(CommandPaletteActions::Quit.as_str(), "Quit");
    assert_eq!(CommandPaletteActions::Quit.to_string(), "Quit".to_string());
}

#[test]
fn lower_case_names_are_the_names_in_lower_case() {
    for command in CommandPaletteActions::every().iter() {
        assert_eq!(command.as_lowercase_str(), command.as_str().to_lowercase());
    }
}

#[test]
fn exact_names_parse_back() {
    for command in CommandPaletteActions::every().iter() {
        assert_eq!(CommandPaletteActions::from_string(command.as_str(), false), Some(*command));
        assert_eq!(CommandPaletteActions::from_exact(command.as_str()), Some(*command));
    }
    assert_eq!(CommandPaletteActions::from_string("quit", false), None);
    assert_eq!(CommandPaletteActions::from_string("Export to Json", false), None);
    assert_eq!(CommandPaletteActions::from_string("", false), None);
}

#[test]
fn names_parse_in_any_case_when_asked() {
    for command in CommandPaletteActions::every().iter() {
        let name = command.as_str();
        assert_eq!(CommandPaletteActions::from_string(name, true), Some(*command));
        assert_eq!(
            CommandPaletteActions::from_string(&name.to_uppercase(), true),
            Some(*command)
        );
        assert_eq!(
            CommandPaletteActions::from_string(&name.to_lowercase(), true),
            Some(*command)
        );
    }
    assert_eq!(
        CommandPaletteActions::from_string("QUIT", true),
        Some(CommandPaletteActions::Quit)
    );
    assert_eq!(CommandPaletteActions::from_string("quit ", true), None);
    assert_eq!(CommandPaletteActions::from_string("quits", true), None);
}

#[test]
fn from_lowercase_takes_lower_case_only() {
    assert_eq!(
        CommandPaletteActions::from_lowercase("new board"),
        Some(CommandPaletteActions::NewBoard)
    );
    assert_eq!(CommandPaletteActions::from_lowercase("New Board"), None);
}

#[test]
fn a_cursor_follows_its_list() {
    let mut cursor = Selection::new(0);
    assert_eq!(cursor, Selection { selected: None, len: 0 });
    cursor.resize(5, false);
    assert_eq!(cursor, Selection { selected: None, len: 5 });
    cursor.select(Some(4));
    assert_eq!(cursor.selected(), Some(4));
    cursor.resize(5, true);
    assert_eq!(cursor.selected(), Some(4));
    cursor.resize(4, false);
    assert_eq!(cursor, Selection { selected: None, len: 4 });
    cursor.select(Some(1));
    cursor.resize(2, false);
    assert_eq!(cursor.selected(), Some(1));
    cursor.resize(0, true);
    assert_eq!(cursor, Selection { selected: None, len: 0 });
}

#[test]
fn a_focused_list_defaults_to_its_first_entry() {
    let mut cursor = Selection::new(0);
    cursor.resize(3, true);
    assert_eq!(cursor.selected(), Some(0));
    let mut cursor = Selection { selected: Some(7), len: 9 };
    cursor.resize(3, true);
    assert_eq!(cursor.selected(), Some(0));
    let mut cursor = Selection { selected: Some(7), len: 9 };
    cursor.resize(3, false);
    assert_eq!(cursor.selected(), None);
}

#[test]
fn selecting_outside_the_list_selects_nothing() {
    let mut cursor = Selection::new(2);
    cursor.select(Some(2));
    assert_eq!(cursor.selected(), None);
    cursor.select(Some(1));
    assert_eq!(cursor.selected(), Some(1));
    cursor.select(None);
    assert_eq!(cursor.selected(), None);
}

#[test]
fn a_new_palette_has_searched_nothing() {
    let palette = CommandPalette::new();
    assert_eq!(*palette.available_commands(), vocabulary());
    assert!(palette.command_search_results().is_none());
    assert!(palette.card_search_results().is_none());
    assert!(palette.board_search_results().is_none());
    assert_eq!(palette.command_cursor(), Selection { selected: None, len: 0 });
    assert_eq!(palette.selected_command(), None);
}

#[test]
fn the_index_holds_the_lower_case_names() {
    let palette = CommandPalette::new();
    assert!(!palette.corpus().is_empty());
    for command in vocabulary() {
        assert_eq!(
            palette.corpus().key(command.as_lowercase_str()),
            Some(command.as_lowercase_str().to_string())
        );
        let hits = search(&palette, command.as_str());
        assert_eq!(hits.first().map(|s| s.as_str()), Some(command.as_lowercase_str()));
    }
    assert_eq!(palette.corpus().key("Quit"), None);
    assert_eq!(palette.corpus().key("toggle debug panel"), None);
    let with_debug = CommandPalette::with_commands(CommandPaletteActions::all_with_debug());
    assert!(with_debug.corpus().key("toggle debug panel").is_some());
}

#[test]
fn hits_are_read_as_commands_in_their_order() {
    let hits = vec![
        "quit".to_string(),
        "no such command".to_string(),
        "New Card".to_string(),
        "new board".to_string(),
    ];
    assert_eq!(
        commands_among(&hits),
        vec![
            CommandPaletteActions::Quit,
            CommandPaletteActions::NewCard,
            CommandPaletteActions::NewBoard,
        ]
    );
    assert!(commands_among(&Vec::new()).is_empty());
}

#[test]
fn an_empty_query_shows_the_whole_vocabulary_and_nothing_else() {
    let mut palette = CommandPalette::new();
    let hits = search(&palette, "");
    assert!(hits.is_empty());
    palette.update("", &hits, entries(&["a card"]), entries(&["a board"]), Focus::Body);
    assert_eq!(palette.command_search_results(), Some(&vocabulary()));
    assert_eq!(palette.card_search_results(), Some(&Vec::new()));
    assert_eq!(palette.board_search_results(), Some(&Vec::new()));
}

#[test]
fn an_empty_query_ignores_stray_hits() {
    let mut palette = CommandPalette::new();
    palette.update("", &vec!["quit".to_string()], Vec::new(), Vec::new(), Focus::Body);
    assert_eq!(palette.command_search_results(), Some(&vocabulary()));
}

#[test]
fn a_single_character_suppresses_cards_and_boards() {
    let mut palette = CommandPalette::new();
    let hits = search(&palette, "q");
    palette.update("q", &hits, entries(&["quiz"]), entries(&["queue"]), Focus::Body);
    assert_eq!(palette.card_search_results(), Some(&Vec::new()));
    assert_eq!(palette.board_search_results(), Some(&Vec::new()));
    assert!(!palette.command_search_results().unwrap().is_empty());
    palette.update("\u{e9}", &hits, entries(&["quiz"]), entries(&["queue"]), Focus::Body);
    assert_eq!(palette.card_search_results(), Some(&Vec::new()));
}

#[test]
fn two_characters_let_cards_and_boards_through_in_their_order() {
    let mut palette = CommandPalette::new();
    let hits = search(&palette, "qu");
    let cards = entries(&["quiz", "aqua", "quay"]);
    let boards = entries(&["queue"]);
    palette.update("qu", &hits, cards.clone(), boards.clone(), Focus::Body);
    assert_eq!(palette.card_search_results(), Some(&cards));
    assert_eq!(palette.board_search_results(), Some(&boards));
}

#[test]
fn a_query_that_matches_no_command_shows_the_whole_vocabulary() {
    let mut palette = CommandPalette::new();
    let hits = search(&palette, "zzzzzz");
    assert!(hits.is_empty());
    palette.update("zzzzzz", &hits, Vec::new(), Vec::new(), Focus::Body);
    assert_eq!(palette.command_search_results(), Some(&vocabulary()));
    palette.update("zz", &vec!["not a command".to_string()], Vec::new(), Vec::new(), Focus::Body);
    assert_eq!(palette.command_search_results(), Some(&vocabulary()));
}

#[test]
fn a_matching_query_ranks_the_matches_as_the_search_did() {
    let mut palette = CommandPalette::new();
    let hits = search(&palette, "open");
    assert!(!hits.is_empty());
    palette.update("open", &hits, Vec::new(), Vec::new(), Focus::Body);
    let shown = palette.command_search_results().unwrap();
    let expected: Vec<CommandPaletteActions> = hits
        .iter()
        .map(|text| CommandPaletteActions::from_string(text, true).unwrap())
        .collect();
    assert_eq!(*shown, expected);
    assert!(shown.contains(&CommandPaletteActions::OpenConfigMenu));
    assert!(shown.contains(&CommandPaletteActions::OpenMainMenu));
    assert!(shown.contains(&CommandPaletteActions::OpenHelpMenu));
}

#[test]
fn the_exact_name_is_the_best_match() {
    let mut palette = CommandPalette::new();
    let hits = search(&palette, "Quit");
    palette.update("Quit", &hits, Vec::new(), Vec::new(), Focus::CommandPaletteCommand);
    assert_eq!(palette.command_search_results().unwrap()[0], CommandPaletteActions::Quit);
    assert_eq!(palette.selected_command(), Some(CommandPaletteActions::Quit));
}

#[test]
fn cursors_are_invalidated_when_their_lists_shrink() {
    let mut palette = CommandPalette::new();
    let cards = entries(&["one", "two", "three"]);
    palette.update("on", &Vec::new(), cards, Vec::new(), Focus::CommandPaletteCommand);
    assert_eq!(palette.command_cursor(), Selection { selected: Some(0), len: 14 });
    assert_eq!(palette.card_cursor(), Selection { selected: None, len: 3 });
    assert_eq!(palette.board_cursor(), Selection { selected: None, len: 0 });
    palette.select(Focus::CommandPaletteCommand, Some(13));
    palette.select(Focus::CommandPaletteCard, Some(2));
    palette.select(Focus::Body, Some(1));
    assert_eq!(palette.command_cursor().selected(), Some(13));
    assert_eq!(palette.card_cursor().selected(), Some(2));
    assert_eq!(palette.selected_command(), Some(CommandPaletteActions::Quit));
    let hits = vec!["quit".to_string(), "new card".to_string()];
    palette.update("one", &hits, entries(&["one"]), Vec::new(), Focus::CommandPaletteBoard);
    assert_eq!(palette.command_cursor(), Selection { selected: None, len: 2 });
    assert_eq!(palette.card_cursor(), Selection { selected: None, len: 1 });
    assert_eq!(palette.board_cursor(), Selection { selected: None, len: 0 });
    assert_eq!(palette.selected_command(), None);
    palette.update("one", &hits, entries(&["one"]), Vec::new(), Focus::CommandPaletteCard);
    assert_eq!(palette.card_cursor(), Selection { selected: Some(0), len: 1 });
}

#[test]
fn a_toast_fades_in_stays_and_fades_out() {
    assert_eq!(toast_phase(0, 5000), ToastPhase::FadingIn);
    assert_eq!(toast_phase(199, 5000), ToastPhase::FadingIn);
    assert_eq!(toast_phase(200, 5000), ToastPhase::Shown);
    assert_eq!(toast_phase(4599, 5000), ToastPhase::Shown);
    assert_eq!(toast_phase(4600, 5000), ToastPhase::FadingOut);
    assert_eq!(toast_phase(5000, 5000), ToastPhase::FadingOut);
    assert_eq!(toast_phase(9000, 5000), ToastPhase::FadingOut);
}

#[test]
fn a_short_toast_is_never_shown_in_full() {
    assert_eq!(toast_phase(0, 300), ToastPhase::FadingIn);
    assert_eq!(toast_phase(200, 300), ToastPhase::FadingOut);
    assert_eq!(toast_phase(250, 600), ToastPhase::FadingOut);
    assert_eq!(toast_phase(200, 601), ToastPhase::Shown);
    assert_eq!(toast_phase(u128::MAX, u128::MAX), ToastPhase::FadingOut);
}

#[test]
fn the_fade_out_is_measured_from_its_start() {
    assert_eq!(fade_out_elapsed(4600, 5000), 0);
    assert_eq!(fade_out_elapsed(4700, 5000), 100);
    assert_eq!(fade_out_elapsed(5000, 5000), 400);
    assert_eq!(fade_out_elapsed(1000, 5000), 0);
    assert_eq!(fade_out_elapsed(0, 300), 100);
    assert_eq!(fade_out_elapsed(250, 300), 350);
    assert_eq!(fade_out_elapsed(u128::MAX, 0), u128::MAX);
    assert_eq!(fade_out_elapsed(u128::MAX - 400, 0), u128::MAX);
    assert_eq!(fade_out_elapsed(u128::MAX, u128::MAX), 400);
}

#[test]
fn a_toast_expires_after_its_duration() {
    assert!(!toast_expired(0, 5000));
    assert!(!toast_expired(5000, 5000));
    assert!(toast_expired(5001, 5000));
    assert!(toast_expired(1, 0));
}
