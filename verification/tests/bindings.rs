use rust_kanban::actions::{
    default_bindings, find_conflicts, Action, Actions, Binding, KeyBindingTable, KeyConflict,
};
use rust_kanban::app::{App, AppReturn};
use rust_kanban::key::Key;
use rust_kanban::state::{Focus, UiMode};

fn row(action: Action, keys: &[Key]) -> Binding {
    Binding { action, keys: keys.to_vec() }
}

fn small_table() -> KeyBindingTable {
    KeyBindingTable::build(vec![
        row(Action::Quit, &[Key::Char('q'), Key::Ctrl('c')]),
        row(Action::NextFocus, &[Key::Tab]),
    ])
    .expect("no chord is bound twice")
}

#[test]
fn a_bound_chord_resolves_to_its_action() {
    let table = small_table();
    let context = Actions::from(vec![Action::Quit, Action::NextFocus]);
    assert_eq!(table.resolve(Key::Char('q'), &context), Some(Action::Quit));
    assert_eq!(table.resolve(Key::Ctrl('c'), &context), Some(Action::Quit));
    assert_eq!(table.resolve(Key::Tab, &context), Some(Action::NextFocus));
    assert_eq!(table.resolve(Key::Char('x'), &context), None);
}

#[test]
fn a_chord_resolves_only_to_an_action_of_the_context() {
    let table = small_table();
    let context = Actions::from(vec![Action::Quit]);
    assert_eq!(table.resolve(Key::Char('q'), &context), Some(Action::Quit));
    assert_eq!(table.resolve(Key::Tab, &context), None);
    assert_eq!(table.resolve(Key::Char('q'), &Actions::default()), None);
}

#[test]
fn an_action_the_table_leaves_out_has_no_chord() {
    let table = small_table();
    let context = Actions::from(vec![Action::Quit, Action::GoUp]);
    assert_eq!(table.resolve(Key::Up, &context), None);
}

#[test]
fn the_built_in_table_binds_every_action_to_its_keys() {
    let table = KeyBindingTable::defaults();
    assert_eq!(table.rows().len(), 10);
    let everything = Actions::from(Action::iterator().copied().collect::<Vec<Action>>());
    for (row, action) in table.rows().iter().zip(Action::iterator()) {
        assert_eq!(row.action, *action);
        assert_eq!(row.keys, action.keys().to_vec());
        for key in row.keys.iter() {
            assert_eq!(table.resolve(*key, &everything), Some(*action));
            assert_eq!(everything.find(*key), Some(action));
        }
    }
}

#[test]
fn default_bindings_follow_the_list() {
    let rows = default_bindings(&[Action::GoDown, Action::Quit]);
    assert_eq!(rows.len(), 2);
    assert_eq!(rows[0].action, Action::GoDown);
    assert_eq!(rows[0].keys, vec![Key::Down]);
    assert_eq!(rows[1].action, Action::Quit);
    assert_eq!(rows[1].keys, vec![Key::Ctrl('c'), Key::Char('q')]);
}

#[test]
fn two_actions_sharing_a_chord_fail_the_build() {
    let built = KeyBindingTable::build(vec![
        row(Action::Quit, &[Key::Char('q')]),
        row(Action::ToggleConfig, &[Key::Char('q')]),
    ]);
    assert_eq!(
        built.expect_err("q is bound twice"),
        vec![KeyConflict {
            key: Key::Char('q'),
            first: Action::Quit,
            second: Action::ToggleConfig,
            first_index: 0,
            second_index: 1,
        }]
    );
}

#[test]
fn every_conflicting_pair_and_chord_is_reported() {
    let rows = vec![
        row(Action::Quit, &[Key::Char('q'), Key::Esc, Key::Tab]),
        row(Action::Escape, &[Key::Esc, Key::Char('q')]),
        row(Action::GoUp, &[Key::Up]),
        row(Action::NextFocus, &[Key::Tab, Key::Esc]),
    ];
    let conflict = |key, first, second, first_index, second_index| KeyConflict {
        key,
        first,
        second,
        first_index,
        second_index,
    };
    let expected = vec![
        conflict(Key::Char('q'), Action::Quit, Action::Escape, 0, 1),
        conflict(Key::Esc, Action::Quit, Action::Escape, 0, 1),
        conflict(Key::Esc, Action::Quit, Action::NextFocus, 0, 3),
        conflict(Key::Tab, Action::Quit, Action::NextFocus, 0, 3),
        conflict(Key::Esc, Action::Escape, Action::NextFocus, 1, 3),
    ];
    assert_eq!(find_conflicts(&rows), expected);
    assert_eq!(KeyBindingTable::build(rows).expect_err("three chords collide"), expected);
}

#[test]
fn a_table_without_shared_chords_builds() {
    assert!(find_conflicts(&Vec::new()).is_empty());
    let table = KeyBindingTable::build(Vec::new()).expect("nothing to collide");
    assert!(table.rows().is_empty());
    let table = KeyBindingTable::build(vec![
        row(Action::Quit, &[Key::Char('q')]),
        row(Action::Quit, &[Key::Ctrl('c')]),
        row(Action::Enter, &[]),
    ])
    .expect("the same action may have two rows with different chords");
    let context = Actions::from(vec![Action::Quit, Action::Enter]);
    assert_eq!(table.resolve(Key::Ctrl('c'), &context), Some(Action::Quit));
    assert_eq!(table.resolve(Key::Enter, &context), None);
}

#[test]
fn the_application_follows_the_users_bindings() {
    let table = KeyBindingTable::build(vec![
        row(Action::Quit, &[Key::Char('x')]),
        row(Action::ToggleConfig, &[Key::Char('o')]),
        row(Action::NextFocus, &[Key::Right]),
    ])
    .expect("no chord is bound twice");
    let mut app = App::with_bindings(UiMode::TitleHelpLog, table);
    app.initialized();
    assert_eq!(app.bindings().rows().len(), 3);
    assert_eq!(app.do_action(Key::Char('q')), AppReturn::Continue);
    assert_eq!(app.do_action(Key::Tab), AppReturn::Continue);
    assert_eq!(*app.current_focus(), Focus::Title);
    app.do_action(Key::Right);
    assert_eq!(*app.current_focus(), Focus::Body);
    app.do_action(Key::Char('o'));
    assert_eq!(app.ui_mode(), UiMode::Config);
    app.do_action(Key::Char('c'));
    assert_eq!(app.ui_mode(), UiMode::Config);
    app.do_action(Key::Char('o'));
    assert_eq!(app.ui_mode(), UiMode::TitleHelpLog);
    assert_eq!(*app.current_focus(), Focus::Body);
    assert_eq!(app.do_action(Key::Char('x')), AppReturn::Exit);
}
