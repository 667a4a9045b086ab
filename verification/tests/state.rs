use rust_kanban::state::{AppState, Focus, PopupMode, UiMode};

fn all_modes() -> Vec<UiMode> {
    UiMode::every().to_vec()
}

#[test]
fn title_help_log_walks_forward_in_order() {
    let tabs = UiMode::TitleHelpLog.get_available_tabs();
    assert_eq!(tabs, vec![Focus::Title, Focus::Body, Focus::Help, Focus::Log]);
    let first = Focus::Body.next(&tabs);
    let second = first.next(&tabs);
    let third = second.next(&tabs);
    assert_eq!(first, Focus::Help);
    assert_eq!(second, Focus::Log);
    assert_eq!(third, Focus::Title);
}

#[test]
fn title_help_log_walks_back_in_order() {
    let tabs = UiMode::TitleHelpLog.get_available_tabs();
    assert_eq!(Focus::Body.prev(&tabs), Focus::Title);
    assert_eq!(Focus::Title.prev(&tabs), Focus::Log);
    assert_eq!(Focus::Log.prev(&tabs), Focus::Help);
}

#[test]
fn next_then_prev_returns_in_every_mode() {
    for mode in all_modes() {
        let tabs = mode.get_available_tabs();
        for focus in tabs.iter() {
            assert_eq!(focus.next(&tabs).prev(&tabs), *focus);
            assert_eq!(focus.prev(&tabs).next(&tabs), *focus);
        }
    }
}

#[test]
fn next_then_prev_returns_in_every_popup() {
    let popups = [
        PopupMode::CommandPalette,
        PopupMode::ChangeUIMode,
        PopupMode::ChangeCurrentCardStatus,
        PopupMode::ChangeTheme,
        PopupMode::ConfirmDiscardCardChanges,
    ];
    for popup in popups.iter() {
        let tabs = popup.get_available_tabs();
        for focus in tabs.iter() {
            assert_eq!(focus.next(&tabs).prev(&tabs), *focus);
            assert_eq!(focus.prev(&tabs).next(&tabs), *focus);
        }
    }
}

#[test]
fn a_focus_outside_the_list_counts_as_its_start() {
    let tabs = UiMode::TitleHelpLog.get_available_tabs();
    assert_eq!(Focus::Config.next(&tabs), Focus::Body);
    assert_eq!(Focus::Config.prev(&tabs), Focus::Log);
    assert_eq!(Focus::Config.position(&tabs), 0);
}

#[test]
fn a_single_region_walks_to_itself() {
    let tabs = UiMode::Zen.get_available_tabs();
    assert_eq!(tabs, vec![Focus::Body]);
    assert_eq!(Focus::Body.next(&tabs), Focus::Body);
    assert_eq!(Focus::Body.prev(&tabs), Focus::Body);
    assert_eq!(Focus::Title.next(&tabs), Focus::Body);
}

#[test]
fn the_first_occurrence_counts_in_a_list_with_repeats() {
    let tabs = vec![Focus::Body, Focus::Help, Focus::Body, Focus::Log];
    assert_eq!(Focus::Body.position(&tabs), 0);
    assert_eq!(Focus::Body.next(&tabs), Focus::Help);
    assert_eq!(Focus::Body.prev(&tabs), Focus::Log);
}

#[test]
fn or_first_keeps_a_legal_focus_and_corrects_an_illegal_one() {
    let tabs = UiMode::Help.get_available_tabs();
    assert_eq!(Focus::Help.or_first(&tabs), Focus::Help);
    assert_eq!(Focus::Title.or_first(&tabs), Focus::Body);
    assert!(Focus::Help.is_among(&tabs));
    assert!(!Focus::Title.is_among(&tabs));
}

#[test]
fn tabs_of_each_mode() {
    assert_eq!(UiMode::Zen.get_available_tabs(), vec![Focus::Body]);
    assert_eq!(UiMode::Title.get_available_tabs(), vec![Focus::Title, Focus::Body]);
    assert_eq!(UiMode::Help.get_available_tabs(), vec![Focus::Body, Focus::Help]);
    assert_eq!(UiMode::Log.get_available_tabs(), vec![Focus::Body, Focus::Log]);
    assert_eq!(
        UiMode::TitleHelp.get_available_tabs(),
        vec![Focus::Title, Focus::Body, Focus::Help]
    );
    assert_eq!(
        UiMode::TitleLog.get_available_tabs(),
        vec![Focus::Title, Focus::Body, Focus::Log]
    );
    assert_eq!(
        UiMode::HelpLog.get_available_tabs(),
        vec![Focus::Body, Focus::Help, Focus::Log]
    );
    assert_eq!(
        UiMode::Config.get_available_tabs(),
        vec![Focus::Config, Focus::ConfigHelp, Focus::Log]
    );
    assert_eq!(UiMode::EditConfig.get_available_tabs(), vec![Focus::Title]);
    assert_eq!(
        UiMode::MainMenu.get_available_tabs(),
        vec![Focus::MainMenu, Focus::Help, Focus::Log]
    );
    assert_eq!(UiMode::HelpMenu.get_available_tabs(), vec![Focus::Help, Focus::Log]);
    assert_eq!(
        UiMode::NewBoard.get_available_tabs(),
        vec![Focus::NewBoardName, Focus::NewBoardDescription, Focus::SubmitButton]
    );
    assert_eq!(
        UiMode::NewCard.get_available_tabs(),
        vec![
            Focus::NewCardName,
            Focus::CardDescription,
            Focus::CardTags,
            Focus::CardComments,
            Focus::SubmitButton,
        ]
    );
    assert_eq!(UiMode::LoadSave.get_available_tabs(), vec![Focus::Body]);
    assert_eq!(
        UiMode::CreateTheme.get_available_tabs(),
        vec![Focus::ThemeEditor, Focus::SubmitButton]
    );
    assert_eq!(
        UiMode::EditKeybindings.get_available_tabs(),
        vec![Focus::EditKeybindingsTable, Focus::SubmitButton]
    );
}

#[test]
fn tabs_of_each_popup() {
    assert_eq!(
        PopupMode::CommandPalette.get_available_tabs(),
        vec![
            Focus::CommandPaletteCommand,
            Focus::CommandPaletteCard,
            Focus::CommandPaletteBoard,
        ]
    );
    assert_eq!(PopupMode::ChangeUIMode.get_available_tabs(), vec![Focus::ChangeUiModePopup]);
    assert_eq!(
        PopupMode::ChangeCurrentCardStatus.get_available_tabs(),
        vec![Focus::ChangeCardStatusPopup]
    );
    assert_eq!(PopupMode::ChangeTheme.get_available_tabs(), vec![Focus::ThemeSelector]);
    assert_eq!(
        PopupMode::ConfirmDiscardCardChanges.get_available_tabs(),
        vec![Focus::SubmitButton, Focus::CloseButton]
    );
}

#[test]
fn no_mode_lists_a_region_twice() {
    for mode in all_modes() {
        let tabs = mode.get_available_tabs();
        assert!(!tabs.is_empty());
        for (i, a) in tabs.iter().enumerate() {
            for b in tabs.iter().skip(i + 1) {
                assert_ne!(a, b);
            }
        }
    }
}

#[test]
fn mode_names() {
    assert_eq!(UiMode::Zen.to_string(), "Zen");
    assert_eq!(UiMode::Title.to_string(), "Title");
    assert_eq!(UiMode::Help.to_string(), "Help");
    assert_eq!(UiMode::Log.to_string(), "Log");
    assert_eq!(UiMode::TitleHelp.to_string(), "Title and Help");
    assert_eq!(UiMode::TitleLog.to_string(), "Title and Log");
    assert_eq!(UiMode::HelpLog.to_string(), "Help and Log");
    assert_eq!(UiMode::TitleHelpLog.to_string(), "Title, Help and Log");
    assert_eq!(UiMode::Config.to_string(), "Config");
    assert_eq!(UiMode::EditConfig.to_string(), "Edit Config");
    assert_eq!(UiMode::MainMenu.as_str(), "Main Menu");
    assert_eq!(UiMode::HelpMenu.as_str(), "Help Menu");
    assert_eq!(UiMode::NewBoard.as_str(), "New Board");
    assert_eq!(UiMode::NewCard.as_str(), "New Card");
    assert_eq!(UiMode::LoadSave.as_str(), "Load a Save");
    assert_eq!(UiMode::CreateTheme.as_str(), "Create Theme");
    assert_eq!(UiMode::EditKeybindings.as_str(), "Edit Keybindings");
}

#[test]
fn mode_names_parse_back() {
    for mode in all_modes() {
        assert_eq!(UiMode::from_string(&mode.to_string()), Some(mode));
    }
    assert_eq!(UiMode::from_string("Title and Help"), Some(UiMode::TitleHelp));
}

#[test]
fn unknown_mode_names_parse_to_nothing() {
    assert_eq!(UiMode::from_string(""), None);
    assert_eq!(UiMode::from_string("zen"), None);
    assert_eq!(UiMode::from_string("Zen "), None);
    assert_eq!(UiMode::from_string("Title,Help and Log"), None);
}

#[test]
fn numbers_select_views() {
    assert_eq!(UiMode::from_number(1), UiMode::Zen);
    assert_eq!(UiMode::from_number(2), UiMode::Title);
    assert_eq!(UiMode::from_number(3), UiMode::Help);
    assert_eq!(UiMode::from_number(4), UiMode::Log);
    assert_eq!(UiMode::from_number(5), UiMode::TitleHelp);
    assert_eq!(UiMode::from_number(6), UiMode::TitleLog);
    assert_eq!(UiMode::from_number(7), UiMode::HelpLog);
    assert_eq!(UiMode::from_number(8), UiMode::TitleHelpLog);
}

#[test]
fn numbers_out_of_range_select_title() {
    assert_eq!(UiMode::from_number(0), UiMode::Title);
    assert_eq!(UiMode::from_number(9), UiMode::Title);
    assert_eq!(UiMode::from_number(255), UiMode::Title);
}

#[test]
fn the_views_are_the_first_eight_modes() {
    assert_eq!(
        UiMode::view_modes().to_vec(),
        vec![
            UiMode::Zen,
            UiMode::Title,
            UiMode::Help,
            UiMode::Log,
            UiMode::TitleHelp,
            UiMode::TitleLog,
            UiMode::HelpLog,
            UiMode::TitleHelpLog,
        ]
    );
    for mode in all_modes() {
        assert_eq!(mode.is_view_mode(), UiMode::view_modes().contains(&mode));
    }
    assert!(!UiMode::Config.is_view_mode());
    assert!(!UiMode::NewBoard.is_view_mode());
}

#[test]
fn the_listing_numbers_the_views() {
    assert_eq!(
        UiMode::all(),
        "1: Zen ||| 2: Title ||| 3: Help ||| 4: Log ||| 5: Title and Help ||| \
         6: Title and Log ||| 7: Help and Log ||| 8: Title, Help and Log ||| "
    );
}

#[test]
fn focus_names() {
    assert_eq!(Focus::Title.current(), "Title");
    assert_eq!(Focus::Body.current(), "Body");
    assert_eq!(Focus::Help.current(), "Help");
    assert_eq!(Focus::Log.current(), "Log");
    assert_eq!(Focus::Config.current(), "Config");
    assert_eq!(Focus::ConfigHelp.current(), "Config Help");
    assert_eq!(Focus::CommandPaletteCommand.current(), "Command Palette Command");
    assert_eq!(Focus::EditKeybindingsTable.current(), "Edit Keybindings Table");
    assert_eq!(Focus::every().len(), 23);
    assert_eq!(UiMode::every().len(), 17);
}

#[test]
fn focus_names_parse_back() {
    for focus in Focus::every().iter() {
        assert_eq!(Focus::from_str(focus.current()), *focus);
    }
}

#[test]
fn unknown_focus_names_parse_to_title() {
    assert_eq!(Focus::from_str(""), Focus::Title);
    assert_eq!(Focus::from_str("body"), Focus::Title);
    assert_eq!(Focus::from_str("Edit Config"), Focus::Title);
}

#[test]
fn the_default_focus_is_the_body() {
    assert_eq!(Focus::default(), Focus::Body);
}

#[test]
fn app_state_knows_when_it_is_initialized() {
    assert_eq!(AppState::default(), AppState::Init);
    assert_eq!(AppState::initialized(), AppState::Initialized);
    assert!(AppState::initialized().is_initialized());
    assert!(!AppState::Init.is_initialized());
    assert!(!AppState::UserInput.is_initialized());
}
