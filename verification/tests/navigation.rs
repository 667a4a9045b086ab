use rust_kanban::navigation::{Navigation, OpenPopup, ReturnPoint};
use rust_kanban::state::{Focus, PopupMode, UiMode};

fn is_legal(nav: &Navigation) -> bool {
    nav.get_available_tabs().contains(&nav.focus)
        && nav.ui_mode.get_available_tabs().contains(&nav.screen_focus())
        && (nav.return_to.is_some() == !nav.ui_mode.is_view_mode())
        && match nav.return_to {
            Some(point) => {
                point.ui_mode.is_view_mode()
                    && point.ui_mode.get_available_tabs().contains(&point.focus)
            }
            None => true,
        }
}

fn at(mode: UiMode, focus: Focus) -> Navigation {
    let mut nav = Navigation::new(mode);
    nav.adopt_focus(focus);
    assert_eq!(nav.focus, focus);
    nav
}

#[test]
fn start_up_puts_the_focus_on_the_title_where_there_is_one() {
    let nav = Navigation::new(UiMode::TitleHelpLog);
    assert_eq!(
        nav,
        Navigation {
            ui_mode: UiMode::TitleHelpLog,
            focus: Focus::Title,
            popup: None,
            return_to: None,
        }
    );
}

#[test]
fn start_up_corrects_the_focus_where_there_is_no_title() {
    let nav = Navigation::new(UiMode::Zen);
    assert_eq!(nav.ui_mode, UiMode::Zen);
    assert_eq!(nav.focus, Focus::Body);
}

#[test]
fn start_up_in_a_menu_falls_back_to_the_title_view() {
    let nav = Navigation::new(UiMode::Config);
    assert_eq!(nav.ui_mode, UiMode::Title);
    assert_eq!(nav.focus, Focus::Title);
    assert!(is_legal(&nav));
}

#[test]
fn a_mode_switch_keeps_a_focus_the_new_mode_offers() {
    let mut nav = at(UiMode::TitleHelpLog, Focus::Help);
    nav.set_view(UiMode::Help);
    assert_eq!(nav.ui_mode, UiMode::Help);
    assert_eq!(nav.focus, Focus::Help);
}

#[test]
fn a_mode_switch_resets_a_focus_the_new_mode_lacks() {
    let mut nav = at(UiMode::TitleHelpLog, Focus::Log);
    nav.set_view(UiMode::TitleHelp);
    assert_eq!(nav.ui_mode, UiMode::TitleHelp);
    assert_eq!(nav.focus, Focus::Title);
}

#[test]
fn after_any_mode_switch_the_focus_is_legal() {
    for from in UiMode::view_modes().iter() {
        for focus in from.get_available_tabs() {
            for to in UiMode::every().iter() {
                let mut nav = at(*from, focus);
                nav.set_view(*to);
                assert!(to.is_view_mode() == (nav.ui_mode == *to) || from == to);
                assert!(nav.ui_mode.get_available_tabs().contains(&nav.focus));
                assert!(is_legal(&nav));
                let mut nav = at(*from, focus);
                nav.enter_mode(*to, Focus::Body);
                assert!(nav.ui_mode.get_available_tabs().contains(&nav.focus));
                assert!(is_legal(&nav));
            }
        }
    }
}

#[test]
fn a_switch_to_a_menu_is_not_a_view_switch() {
    let mut nav = at(UiMode::Title, Focus::Body);
    nav.set_view(UiMode::Config);
    assert_eq!(nav, at(UiMode::Title, Focus::Body));
}

#[test]
fn entering_and_leaving_restores_mode_and_focus() {
    let menus = [
        UiMode::Config,
        UiMode::EditConfig,
        UiMode::MainMenu,
        UiMode::HelpMenu,
        UiMode::NewBoard,
        UiMode::NewCard,
        UiMode::LoadSave,
        UiMode::CreateTheme,
        UiMode::EditKeybindings,
    ];
    for from in UiMode::view_modes().iter() {
        for focus in from.get_available_tabs() {
            for menu in menus.iter() {
                let before = at(*from, focus);
                let mut nav = before;
                assert!(nav.enter_mode(*menu, Focus::NewBoardName));
                assert_eq!(nav.ui_mode, *menu);
                assert_eq!(nav.return_to, Some(ReturnPoint { ui_mode: *from, focus }));
                assert!(nav.leave_mode());
                assert_eq!(nav, before);
            }
        }
    }
}

#[test]
fn entering_takes_the_wanted_focus_if_the_mode_offers_it() {
    let mut nav = at(UiMode::TitleHelpLog, Focus::Body);
    assert!(nav.enter_mode(UiMode::NewBoard, Focus::NewBoardDescription));
    assert_eq!(nav.focus, Focus::NewBoardDescription);
    let mut nav = at(UiMode::TitleHelpLog, Focus::Body);
    assert!(nav.enter_mode(UiMode::NewBoard, Focus::Body));
    assert_eq!(nav.focus, Focus::NewBoardName);
}

#[test]
fn a_second_menu_is_rejected() {
    let mut nav = at(UiMode::TitleHelpLog, Focus::Body);
    assert!(nav.enter_mode(UiMode::NewBoard, Focus::NewBoardName));
    let inside = nav;
    assert!(!nav.enter_mode(UiMode::NewCard, Focus::NewCardName));
    assert_eq!(nav, inside);
    assert!(!nav.enter_mode(UiMode::Config, Focus::Config));
    assert_eq!(nav, inside);
}

#[test]
fn a_view_cannot_be_entered_as_a_menu() {
    let mut nav = at(UiMode::TitleHelpLog, Focus::Body);
    assert!(!nav.enter_mode(UiMode::Zen, Focus::Body));
    assert_eq!(nav, at(UiMode::TitleHelpLog, Focus::Body));
}

#[test]
fn leaving_without_a_return_point_changes_nothing() {
    let mut nav = at(UiMode::TitleHelpLog, Focus::Body);
    assert!(!nav.leave_mode());
    assert_eq!(nav, at(UiMode::TitleHelpLog, Focus::Body));
}

#[test]
fn a_view_switch_drops_the_return_point() {
    let mut nav = at(UiMode::TitleHelpLog, Focus::Log);
    nav.enter_mode(UiMode::Config, Focus::Log);
    assert_eq!(nav.focus, Focus::Log);
    nav.set_view(UiMode::Help);
    assert_eq!(
        nav,
        Navigation { ui_mode: UiMode::Help, focus: Focus::Body, popup: None, return_to: None }
    );
}

#[test]
fn a_popup_takes_the_focus_and_gives_it_back() {
    let before = at(UiMode::TitleHelpLog, Focus::Help);
    let mut nav = before;
    nav.show_popup(PopupMode::CommandPalette);
    assert_eq!(nav.ui_mode, UiMode::TitleHelpLog);
    assert_eq!(nav.focus, Focus::CommandPaletteCommand);
    assert_eq!(
        nav.popup,
        Some(OpenPopup { mode: PopupMode::CommandPalette, return_focus: Focus::Help })
    );
    assert_eq!(nav.screen_focus(), Focus::Help);
    assert!(is_legal(&nav));
    assert!(nav.hide_popup());
    assert_eq!(nav, before);
}

#[test]
fn every_popup_restores_every_state() {
    let popups = [
        PopupMode::CommandPalette,
        PopupMode::ChangeUIMode,
        PopupMode::ChangeCurrentCardStatus,
        PopupMode::ChangeTheme,
        PopupMode::ConfirmDiscardCardChanges,
    ];
    for mode in UiMode::view_modes().iter() {
        for focus in mode.get_available_tabs() {
            for popup in popups.iter() {
                let before = at(*mode, focus);
                let mut nav = before;
                nav.show_popup(*popup);
                assert_eq!(nav.ui_mode, before.ui_mode);
                assert!(popup.get_available_tabs().contains(&nav.focus));
                nav.next_focus();
                assert!(popup.get_available_tabs().contains(&nav.focus));
                assert!(nav.hide_popup());
                assert_eq!(nav, before);
            }
        }
    }
}

#[test]
fn a_popup_replacing_a_popup_keeps_the_screen_focus() {
    let before = at(UiMode::TitleHelpLog, Focus::Log);
    let mut nav = before;
    nav.show_popup(PopupMode::CommandPalette);
    nav.show_popup(PopupMode::ChangeUIMode);
    assert_eq!(nav.focus, Focus::ChangeUiModePopup);
    assert_eq!(nav.screen_focus(), Focus::Log);
    nav.hide_popup();
    assert_eq!(nav, before);
}

#[test]
fn closing_without_a_popup_changes_nothing() {
    let mut nav = at(UiMode::Title, Focus::Body);
    assert!(!nav.hide_popup());
    assert_eq!(nav, at(UiMode::Title, Focus::Body));
}

#[test]
fn an_illegal_focus_candidate_is_not_adopted() {
    let mut nav = at(UiMode::Title, Focus::Body);
    nav.adopt_focus(Focus::Log);
    assert_eq!(nav.focus, Focus::Body);
    nav.adopt_focus(Focus::Title);
    assert_eq!(nav.focus, Focus::Title);
    nav.show_popup(PopupMode::CommandPalette);
    nav.adopt_focus(Focus::Body);
    assert_eq!(nav.focus, Focus::CommandPaletteCommand);
    nav.adopt_focus(Focus::CommandPaletteBoard);
    assert_eq!(nav.focus, Focus::CommandPaletteBoard);
}

#[test]
fn entering_a_menu_over_a_popup_closes_the_popup() {
    let mut nav = at(UiMode::TitleHelpLog, Focus::Help);
    nav.show_popup(PopupMode::CommandPalette);
    assert!(nav.enter_mode(UiMode::NewBoard, Focus::NewBoardName));
    assert_eq!(nav.popup, None);
    assert_eq!(
        nav.return_to,
        Some(ReturnPoint { ui_mode: UiMode::TitleHelpLog, focus: Focus::Help })
    );
    assert!(nav.leave_mode());
    assert_eq!(nav, at(UiMode::TitleHelpLog, Focus::Help));
}
