use rust_kanban::ui_helper::{
    check_if_mouse_is_in_area, check_size, crab_pattern_at, create_crab_pattern_1,
    create_crab_pattern_2, create_crab_pattern_3, draw_crab_pattern,
    get_sliding_window_over_text, palette_budget, palette_rows, PaletteRows, Rect,
};

fn rect(x: u16, y: u16, width: u16, height: u16) -> Rect {
    Rect { x, y, width, height }
}

fn rows(commands: usize, cards: usize, boards: usize) -> PaletteRows {
    PaletteRows { commands, cards, boards }
}

#[test]
fn a_narrow_terminal_is_told_its_width() {
    assert_eq!(
        check_size(&rect(0, 0, 100, 50)),
        "For optimal viewing experience, Terminal width should be >= 110, (current width 100)"
    );
    assert_eq!(
        check_size(&rect(0, 0, 0, 0)),
        "For optimal viewing experience, Terminal width should be >= 110, (current width 0)"
    );
    assert_eq!(
        check_size(&rect(0, 0, 109, 10)),
        "For optimal viewing experience, Terminal width should be >= 110, (current width 109)"
    );
}

#[test]
fn a_short_terminal_is_told_its_height() {
    assert_eq!(
        check_size(&rect(0, 0, 120, 20)),
        "For optimal viewing experience, Terminal height should be >= 30, (current height 20)"
    );
    assert_eq!(
        check_size(&rect(0, 0, 65535, 7)),
        "For optimal viewing experience, Terminal height should be >= 30, (current height 7)"
    );
}

#[test]
fn a_large_enough_terminal_is_ok() {
    assert_eq!(check_size(&rect(0, 0, 110, 30)), "Size OK");
    assert_eq!(check_size(&rect(5, 5, 65535, 65535)), "Size OK");
}

#[test]
fn the_mouse_is_in_an_area_up_to_its_far_edges() {
    let area = rect(10, 20, 5, 3);
    assert!(check_if_mouse_is_in_area((10, 20), area));
    assert!(check_if_mouse_is_in_area((15, 23), area));
    assert!(check_if_mouse_is_in_area((12, 21), area));
    assert!(!check_if_mouse_is_in_area((9, 21), area));
    assert!(!check_if_mouse_is_in_area((16, 21), area));
    assert!(!check_if_mouse_is_in_area((12, 19), area));
    assert!(!check_if_mouse_is_in_area((12, 24), area));
}

#[test]
fn an_area_at_the_edge_of_the_coordinates_does_not_wrap() {
    let area = rect(65530, 65530, 10, 10);
    assert!(check_if_mouse_is_in_area((65535, 65535), area));
    assert!(!check_if_mouse_is_in_area((3, 3), area));
    assert!(!check_if_mouse_is_in_area((65529, 65535), area));
}

#[test]
fn a_text_that_fits_is_shown_whole() {
    assert_eq!(get_sliding_window_over_text("hi", 1, 5), ("hi", 1));
    assert_eq!(get_sliding_window_over_text("hello", 5, 5), ("hello", 5));
    assert_eq!(get_sliding_window_over_text("", 0, 0), ("", 0));
}

#[test]
fn the_window_hugs_the_start_slides_and_hugs_the_end() {
    let text = "hello world";
    assert_eq!(get_sliding_window_over_text(text, 0, 5), ("hello", 0));
    assert_eq!(get_sliding_window_over_text(text, 1, 5), ("hello", 1));
    assert_eq!(get_sliding_window_over_text(text, 2, 5), ("hell", 2));
    assert_eq!(get_sliding_window_over_text(text, 5, 5), ("lo w", 2));
    assert_eq!(get_sliding_window_over_text(text, 8, 5), ("worl", 2));
    assert_eq!(get_sliding_window_over_text(text, 9, 5), ("orld", 2));
    assert_eq!(get_sliding_window_over_text(text, 10, 5), ("world", 4));
    assert_eq!(get_sliding_window_over_text(text, 11, 5), ("world", 5));
    assert_eq!(get_sliding_window_over_text(text, 6, 6), ("lo wor", 3));
}

#[test]
fn the_window_counts_characters_not_bytes() {
    let text = "h\u{e9}llo w\u{f6}rld";
    assert_eq!(get_sliding_window_over_text(text, 0, 5), ("h\u{e9}llo", 0));
    assert_eq!(get_sliding_window_over_text(text, 10, 5), ("w\u{f6}rld", 4));
    assert_eq!(get_sliding_window_over_text(text, 5, 5), ("lo w", 2));
}

#[test]
fn the_budget_is_what_the_other_widgets_leave() {
    assert_eq!(palette_budget(30, false), 18);
    assert_eq!(palette_budget(30, true), 16);
    assert_eq!(palette_budget(12, false), 0);
    assert_eq!(palette_budget(13, true), 0);
    assert_eq!(palette_budget(0, false), 0);
    assert_eq!(palette_budget(65535, true), 65521);
}

#[test]
fn lists_that_fit_get_their_entries_and_frame() {
    assert_eq!(palette_rows(14, 0, 0, 30), rows(16, 2, 2));
    assert_eq!(palette_rows(3, 4, 5, 30), rows(5, 6, 7));
    assert_eq!(palette_rows(0, 0, 0, 7), rows(2, 2, 2));
}

#[test]
fn commands_come_first_when_rows_are_short() {
    assert_eq!(palette_rows(14, 0, 0, 18), rows(14, 2, 2));
    assert_eq!(palette_rows(14, 10, 10, 18), rows(14, 2, 2));
    assert_eq!(palette_rows(2, 10, 10, 18), rows(4, 12, 2));
    assert_eq!(palette_rows(2, 3, 10, 18), rows(4, 5, 7));
    assert_eq!(palette_rows(2, 3, 10, 20), rows(4, 5, 9));
    assert_eq!(palette_rows(100, 100, 100, 10), rows(6, 2, 2));
}

#[test]
fn no_list_gets_less_than_two_rows() {
    assert_eq!(palette_rows(0, 0, 0, 0), rows(2, 2, 2));
    assert_eq!(palette_rows(9, 9, 9, 5), rows(2, 2, 2));
    assert_eq!(palette_rows(usize::MAX, usize::MAX, usize::MAX, 6), rows(2, 2, 2));
}

#[test]
fn a_budget_of_six_or_more_is_never_overdrawn() {
    for budget in 6..40usize {
        for commands in 0..16usize {
            for cards in [0usize, 1, 5, 50] {
                for boards in [0usize, 2, 30] {
                    let given = palette_rows(commands, cards, boards, budget);
                    assert!(given.commands >= 2 && given.cards >= 2 && given.boards >= 2);
                    assert!(given.commands + given.cards + given.boards <= budget);
                }
            }
        }
    }
}

#[test]
fn pattern_one_is_a_chequerboard_of_crabs() {
    assert_eq!(create_crab_pattern_1(2, 2, false), "\u{1F980}  \n  \u{1F980}\n");
    assert_eq!(create_crab_pattern_1(3, 1, false), "\u{1F980}  \u{1F980}\n");
    assert_eq!(create_crab_pattern_1(2, 2, true), "*  \n  *\n");
}

#[test]
fn pattern_two_repeats_a_block() {
    assert_eq!(create_crab_pattern_2(4, 2, true), "**      \n      **\n");
    assert_eq!(
        create_crab_pattern_2(4, 4, true),
        "**      \n      **\n**      \n            \n"
    );
    assert_eq!(
        create_crab_pattern_2(5, 1, false),
        " \u{1F980}  \u{1F980}        \u{1F980} \n"
    );
}

#[test]
fn pattern_three_is_a_chequerboard_of_padded_crabs() {
    assert_eq!(create_crab_pattern_3(2, 1, false), " \u{1F980}    \n");
    assert_eq!(create_crab_pattern_3(2, 2, true), "*   \n   *\n");
}

#[test]
fn empty_areas_give_empty_patterns() {
    assert_eq!(create_crab_pattern_1(0, 0, false), "");
    assert_eq!(create_crab_pattern_2(5, 0, false), "");
    assert_eq!(create_crab_pattern_3(0, 3, true), "\n\n\n");
}

#[test]
fn the_patterns_take_turns_by_the_second() {
    let one = create_crab_pattern_1(4, 3, false);
    let two = create_crab_pattern_2(4, 3, false);
    let three = create_crab_pattern_3(4, 3, false);
    assert_eq!(crab_pattern_at(4, 3, false, 0), one);
    assert_eq!(crab_pattern_at(4, 3, false, 999), one);
    assert_eq!(crab_pattern_at(4, 3, false, 1000), two);
    assert_eq!(crab_pattern_at(4, 3, false, 2500), three);
    assert_eq!(crab_pattern_at(4, 3, false, 3000), one);
    assert_eq!(crab_pattern_at(4, 3, false, u64::MAX), one);
}

#[test]
fn behind_a_popup_the_first_pattern_stays() {
    let masked = create_crab_pattern_1(4, 3, true);
    assert_eq!(crab_pattern_at(4, 3, true, 0), masked);
    assert_eq!(crab_pattern_at(4, 3, true, 1000), masked);
    assert_eq!(crab_pattern_at(4, 3, true, 2000), masked);
    assert_eq!(draw_crab_pattern(4, 3, true), masked);
}

#[test]
fn the_wallpaper_now_is_one_of_the_three() {
    let drawn = draw_crab_pattern(6, 2, false);
    let candidates = [
        create_crab_pattern_1(6, 2, false),
        create_crab_pattern_2(6, 2, false),
        create_crab_pattern_3(6, 2, false),
    ];
    assert!(candidates.contains(&drawn));
}
