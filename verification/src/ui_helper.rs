//! The arithmetic behind the screen: whether the terminal is large enough,
//! whether the mouse is over a region, which part of a long text a box shows,
//! how the palette's rows are shared out, and the idle wallpaper.

use vstd::prelude::*;
use vstd::string::*;
use crate::text::{decimal, push_char, push_decimal};

verus! {

/// The least terminal width the layouts are drawn for.
pub const MIN_TERM_WIDTH: u16 = 110;

/// The least terminal height the layouts are drawn for.
pub const MIN_TERM_HEIGHT: u16 = 30;

/// How long one wallpaper pattern stays before the next, in milliseconds.
pub const PATTERN_CHANGE_INTERVAL: u64 = 1000;

/// The character that stands for a hidden character, and that the wallpaper
/// is drawn with behind a popup.
pub const HIDDEN_PASSWORD_SYMBOL: char = '*';

/// The fewest rows a palette list is given.
pub const MIN_LIST_ROWS: usize = 2;

/// A rectangle of terminal cells: its top left corner and its size.
#[derive(Debug, Clone, Copy, PartialEq, Eq, Structural)]
pub struct Rect {
    pub x: u16,
    pub y: u16,
    pub width: u16,
    pub height: u16,
}

/// The verdict on a terminal of the given size: a complaint about the width
/// if it is too small, else one about the height if that is too small, else
/// `Size OK`.
pub open spec fn size_verdict(width: u16, height: u16) -> Seq<char> {
    if width < MIN_TERM_WIDTH {
        "For optimal viewing experience, Terminal width should be >= "@ + decimal(
            MIN_TERM_WIDTH as nat,
        ) + ", (current width "@ + decimal(width as nat) + ")"@
    } else if height < MIN_TERM_HEIGHT {
        "For optimal viewing experience, Terminal height should be >= "@ + decimal(
            MIN_TERM_HEIGHT as nat,
        ) + ", (current height "@ + decimal(height as nat) + ")"@
    } else {
        "Size OK"@
    }
}

/// Says whether the terminal is large enough, in words for the user.
pub fn check_size(rect: &Rect) -> (msg: String)
    ensures
        msg@ == size_verdict(rect.width, rect.height),
{
    let mut msg = String::new();
    if rect.width < MIN_TERM_WIDTH {
        msg.append("For optimal viewing experience, Terminal width should be >= ");
        push_decimal(&mut msg, MIN_TERM_WIDTH);
        msg.append(", (current width ");
        push_decimal(&mut msg, rect.width);
        msg.append(")");
        assert(msg@ =~= size_verdict(rect.width, rect.height));
    } else if rect.height < MIN_TERM_HEIGHT {
        msg.append("For optimal viewing experience, Terminal height should be >= ");
        push_decimal(&mut msg, MIN_TERM_HEIGHT);
        msg.append(", (current height ");
        push_decimal(&mut msg, rect.height);
        msg.append(")");
        assert(msg@ =~= size_verdict(rect.width, rect.height));
    } else {
        msg.append("Size OK");
        assert(msg@ =~= size_verdict(rect.width, rect.height));
    }
    msg
}

/// Whether the point lies in the rectangle, its far edges included.
pub open spec fn in_area(x: u16, y: u16, area: Rect) -> bool {
    &&& area.x <= x <= area.x + area.width
    &&& area.y <= y <= area.y + area.height
}

/// Whether the mouse is over the rectangle.
pub fn check_if_mouse_is_in_area(mouse_coordinates: (u16, u16), rect_to_check: Rect) -> (inside:
    bool)
    ensures
        inside == in_area(mouse_coordinates.0, mouse_coordinates.1, rect_to_check),
{
    let (x, y) = mouse_coordinates;
    let x1: u32 = rect_to_check.x as u32;
    let y1: u32 = rect_to_check.y as u32;
    let x2: u32 = x1 + rect_to_check.width as u32;
    let y2: u32 = y1 + rect_to_check.height as u32;
    x as u32 >= x1 && x as u32 <= x2 && y as u32 >= y1 && y as u32 <= y2
}

/// Where the window over a text of `len` characters starts, for a cursor at
/// `cursor` and a box `width` characters wide.
pub open spec fn window_start(len: int, cursor: int, width: int) -> int {
    if len <= width {
        0
    } else if cursor < width / 2 {
        0
    } else if cursor > len - width / 2 {
        len - width
    } else {
        cursor - width / 2
    }
}

/// Where the window ends.
pub open spec fn window_end(len: int, cursor: int, width: int) -> int {
    if len <= width {
        len
    } else if cursor < width / 2 {
        width
    } else if cursor > len - width / 2 {
        len
    } else {
        cursor + width / 2
    }
}

/// The part of `text` that a box of `display_box_width` characters shows
/// around the cursor, and the cursor's place within that part. A text that
/// fits is shown whole; otherwise the window hugs the start while the cursor
/// is in the first half box, hugs the end while it is in the last half box,
/// and is centred on the cursor in between.
pub fn get_sliding_window_over_text(text: &str, cursor_pos: usize, display_box_width: u16) -> (shown:
    (&str, u16))
    requires
        text@.len() <= u16::MAX,
        cursor_pos <= u16::MAX,
    ensures
        shown.0@ == text@.subrange(
            window_start(text@.len() as int, cursor_pos as int, display_box_width as int),
            window_end(text@.len() as int, cursor_pos as int, display_box_width as int),
        ),
        shown.1 == cursor_pos - window_start(
            text@.len() as int,
            cursor_pos as int,
            display_box_width as int,
        ),
{
    let text_width: usize = text.unicode_len();
    let width: usize = display_box_width as usize;
    if text_width <= width {
        assert(text@.subrange(0, text@.len() as int) =~= text@);
        return (text, cursor_pos as u16);
    }
    let half: usize = width / 2;
    let mut start_pos: usize = 0;
    let mut end_pos: usize = text_width;
    if cursor_pos < half {
        end_pos = width;
    } else if cursor_pos > text_width - half {
        start_pos = text_width - width;
    } else {
        start_pos = cursor_pos - half;
        end_pos = cursor_pos + half;
    }
    (text.substring_char(start_pos, end_pos), (cursor_pos - start_pos) as u16)
}

/// The rows for the palette's three lists out of a terminal of the given
/// height: what is left under the search box and the help, and two rows less
/// while the login banner is shown.
pub open spec fn palette_budget_spec(height: u16, logged_in: bool) -> int {
    let taken: int = if logged_in {
        14
    } else {
        12
    };
    if height >= taken {
        height - taken
    } else {
        0
    }
}

/// The rows for the palette's three lists out of a terminal of the given
/// height.
pub fn palette_budget(height: u16, logged_in: bool) -> (budget: usize)
    ensures
        budget == palette_budget_spec(height, logged_in),
{
    let taken: u16 = if logged_in {
        14
    } else {
        12
    };
    if height >= taken {
        (height - taken) as usize
    } else {
        0
    }
}

/// One list's share of the budget. The list wants `wanted` rows and `used`
/// rows are given away already. It gets all it wants if that still leaves
/// `kept_free` rows under the budget; otherwise it gets what the budget has
/// left after `used` and `held_back`, and never less than two rows.
pub open spec fn share(wanted: int, used: int, kept_free: int, held_back: int, budget: int) -> int {
    if used + wanted + kept_free < budget {
        wanted
    } else if budget - (used + held_back) < 2 {
        2
    } else {
        budget - (used + held_back)
    }
}

/// The rows of the command list: its entries and two for the frame, with two
/// rows kept for each of the other lists.
pub open spec fn command_rows(commands: int, budget: int) -> int {
    share(commands + 2, 0, 4, 4, budget)
}

/// The rows of the card list, with two rows kept for the board list.
pub open spec fn card_rows(commands: int, cards: int, budget: int) -> int {
    share(cards + 2, command_rows(commands, budget), 2, 2, budget)
}

/// The rows of the board list, which comes last.
pub open spec fn board_rows(commands: int, cards: int, boards: int, budget: int) -> int {
    share(
        boards + 2,
        command_rows(commands, budget) + card_rows(commands, cards, budget),
        0,
        2,
        budget,
    )
}

/// The rows given to each of the palette's lists.
#[derive(Debug, Clone, Copy, PartialEq, Eq, Structural)]
pub struct PaletteRows {
    pub commands: usize,
    pub cards: usize,
    pub boards: usize,
}

/// Shares `budget` rows out among the three lists, commands first, then
/// cards, then boards.
pub fn palette_rows(commands: usize, cards: usize, boards: usize, budget: usize) -> (rows:
    PaletteRows)
    ensures
        rows.commands == command_rows(commands as int, budget as int),
        rows.cards == card_rows(commands as int, cards as int, budget as int),
        rows.boards == board_rows(commands as int, cards as int, boards as int, budget as int),
{
    let total: u128 = budget as u128;
    let for_commands = one_share(commands as u128 + 2, 0, 4, 4, total);
    let for_cards = one_share(cards as u128 + 2, for_commands, 2, 2, total);
    let for_boards = one_share(boards as u128 + 2, for_commands + for_cards, 0, 2, total);
    PaletteRows {
        commands: for_commands as usize,
        cards: for_cards as usize,
        boards: for_boards as usize,
    }
}

fn one_share(wanted: u128, used: u128, kept_free: u128, held_back: u128, budget: u128) -> (rows:
    u128)
    requires
        2 <= wanted <= usize::MAX + 2,
        used <= 2 * usize::MAX,
        kept_free <= 4,
        held_back <= 4,
        budget <= usize::MAX,
    ensures
        rows == share(wanted as int, used as int, kept_free as int, held_back as int, budget as int),
        2 <= rows <= usize::MAX,
{
    if used + wanted + kept_free < budget {
        wanted
    } else if budget < used + held_back + 2 {
        2
    } else {
        budget - (used + held_back)
    }
}

/// Every list gets at least two rows; a budget of six rows or more is never
/// overdrawn; and where all three lists fit with their frames, each gets
/// exactly its entries and its frame.
pub proof fn lemma_rows_within_budget(commands: int, cards: int, boards: int, budget: int)
    requires
        0 <= commands,
        0 <= cards,
        0 <= boards,
    ensures
        command_rows(commands, budget) >= 2,
        card_rows(commands, cards, budget) >= 2,
        board_rows(commands, cards, boards, budget) >= 2,
        budget >= 6 ==> command_rows(commands, budget) + card_rows(commands, cards, budget)
            + board_rows(commands, cards, boards, budget) <= budget,
        (commands + 2) + (cards + 2) + (boards + 2) < budget ==> {
            &&& command_rows(commands, budget) == commands + 2
            &&& card_rows(commands, cards, budget) == cards + 2
            &&& board_rows(commands, cards, boards, budget) == boards + 2
        },
{
}

/// What one cell of a wallpaper pattern holds. Pattern 1 is a chequerboard
/// of single crabs and double blanks; pattern 2 repeats a block of four by
/// four cells; pattern 3 is a chequerboard of padded crabs. Behind a popup
/// the crab gives way to the hidden-character symbol.
pub open spec fn crab_cell(pattern: int, row: int, col: int, popup_mode: bool) -> Seq<char> {
    if pattern == 1 {
        if (row + col) % 2 == 0 {
            if popup_mode {
                seq![HIDDEN_PASSWORD_SYMBOL]
            } else {
                seq!['\u{1F980}']
            }
        } else {
            "  "@
        }
    } else {
        let marked = if pattern == 2 {
            (row % 4 == 0 && col % 4 <= 1) || (row % 4 == 1 && col % 4 >= 2) || (row % 4 == 2
                && col % 4 <= 1)
        } else {
            (row % 2 == 0 && col % 2 == 0) || (row % 2 == 1 && col % 2 == 1)
        };
        if marked {
            if popup_mode {
                seq![HIDDEN_PASSWORD_SYMBOL]
            } else {
                " \u{1F980} "@
            }
        } else {
            "   "@
        }
    }
}

/// The first `cols` cells of a pattern's row.
pub open spec fn crab_row(pattern: int, row: int, cols: int, popup_mode: bool) -> Seq<char>
    decreases cols,
{
    if cols <= 0 {
        Seq::empty()
    } else {
        crab_row(pattern, row, cols - 1, popup_mode) + crab_cell(
            pattern,
            row,
            cols - 1,
            popup_mode,
        )
    }
}

/// The first `rows` rows of a pattern `width` cells wide, each row ended by a
/// line feed.
pub open spec fn crab_pattern(pattern: int, width: int, rows: int, popup_mode: bool) -> Seq<char>
    decreases rows,
{
    if rows <= 0 {
        Seq::empty()
    } else {
        crab_pattern(pattern, width, rows - 1, popup_mode) + crab_row(
            pattern,
            rows - 1,
            width,
            popup_mode,
        ).push('\n')
    }
}

/// Appends one cell of a pattern.
fn push_crab_cell(out: &mut String, pattern: u8, row: u16, col: u16, popup_mode: bool)
    requires
        1 <= pattern <= 3,
    ensures
        final(out)@ == old(out)@ + crab_cell(pattern as int, row as int, col as int, popup_mode),
{
    if pattern == 1 {
        if (row as u32 + col as u32) % 2 == 0 {
            if popup_mode {
                push_char(out, HIDDEN_PASSWORD_SYMBOL);
            } else {
                push_char(out, '\u{1F980}');
            }
            assert(out@ =~= old(out)@ + crab_cell(1, row as int, col as int, popup_mode));
        } else {
            out.append("  ");
        }
    } else {
        let marked = if pattern == 2 {
            let block_row = row % 4;
            let block_col = col % 4;
            (block_row == 0 && block_col <= 1) || (block_row == 1 && block_col >= 2) || (block_row
                == 2 && block_col <= 1)
        } else {
            (row % 2 == 0 && col % 2 == 0) || (row % 2 == 1 && col % 2 == 1)
        };
        if marked {
            if popup_mode {
                push_char(out, HIDDEN_PASSWORD_SYMBOL);
                assert(out@ =~= old(out)@ + crab_cell(
                    pattern as int,
                    row as int,
                    col as int,
                    popup_mode,
                ));
            } else {
                out.append(" \u{1F980} ");
            }
        } else {
            out.append("   ");
        }
    }
}

/// A whole pattern of `height` rows and `width` cells a row.
fn create_crab_pattern(pattern: u8, width: u16, height: u16, popup_mode: bool) -> (text: String)
    requires
        1 <= pattern <= 3,
    ensures
        text@ == crab_pattern(pattern as int, width as int, height as int, popup_mode),
{
    let mut text = String::new();
    let mut row: u16 = 0;
    assert(text@ =~= crab_pattern(pattern as int, width as int, 0, popup_mode));
    while row < height
        invariant
            1 <= pattern <= 3,
            0 <= row <= height,
            text@ == crab_pattern(pattern as int, width as int, row as int, popup_mode),
        decreases height - row,
    {
        let ghost before = text@;
        let mut col: u16 = 0;
        assert(text@ =~= before + crab_row(pattern as int, row as int, 0, popup_mode));
        while col < width
            invariant
                1 <= pattern <= 3,
                0 <= col <= width,
                text@ == before + crab_row(pattern as int, row as int, col as int, popup_mode),
            decreases width - col,
        {
            push_crab_cell(&mut text, pattern, row, col, popup_mode);
            col = col + 1;
            assert(text@ =~= before + crab_row(pattern as int, row as int, col as int, popup_mode));
        }
        push_char(&mut text, '\n');
        row = row + 1;
        assert(text@ =~= crab_pattern(pattern as int, width as int, row as int, popup_mode));
    }
    text
}

/// The chequerboard of single crabs.
pub fn create_crab_pattern_1(width: u16, height: u16, popup_mode: bool) -> (text: String)
    ensures
        text@ == crab_pattern(1, width as int, height as int, popup_mode),
{
    create_crab_pattern(1, width, height, popup_mode)
}

/// The pattern of four by four blocks.
pub fn create_crab_pattern_2(width: u16, height: u16, popup_mode: bool) -> (text: String)
    ensures
        text@ == crab_pattern(2, width as int, height as int, popup_mode),
{
    create_crab_pattern(2, width, height, popup_mode)
}

/// The chequerboard of padded crabs.
pub fn create_crab_pattern_3(width: u16, height: u16, popup_mode: bool) -> (text: String)
    ensures
        text@ == crab_pattern(3, width as int, height as int, popup_mode),
{
    create_crab_pattern(3, width, height, popup_mode)
}

/// Which pattern is due at a time given in milliseconds: behind a popup
/// always the first, otherwise the three in turn, one per interval.
pub open spec fn pattern_due(time_offset: u64, popup_mode: bool) -> int {
    if popup_mode {
        1
    } else {
        (time_offset / PATTERN_CHANGE_INTERVAL) % 3 + 1
    }
}

/// The wallpaper for an area of the given size at the given time.
pub fn crab_pattern_at(width: u16, height: u16, popup_mode: bool, time_offset: u64) -> (text:
    String)
    ensures
        text@ == crab_pattern(
            pattern_due(time_offset, popup_mode),
            width as int,
            height as int,
            popup_mode,
        ),
{
    if popup_mode {
        create_crab_pattern_1(width, height, popup_mode)
    } else {
        let index = (time_offset / PATTERN_CHANGE_INTERVAL) % 3;
        if index == 0 {
            create_crab_pattern_1(width, height, popup_mode)
        } else if index == 1 {
            create_crab_pattern_2(width, height, popup_mode)
        } else {
            create_crab_pattern_3(width, height, popup_mode)
        }
    }
}

/// `std::time::SystemTime::now` and `duration_since` the Unix epoch, in
/// milliseconds; `0` for a clock that is set before the epoch. It depends on
/// the clock, so nothing is claimed of the value.
#[verifier::external_body]
fn get_time_offset() -> u64 {
    match std::time::SystemTime::now().duration_since(std::time::UNIX_EPOCH) {
        Ok(since_epoch) => since_epoch.as_millis() as u64,
        Err(_) => 0,
    }
}

/// The wallpaper for an area of the given size, now: behind a popup the first
/// pattern, otherwise whichever of the three is due.
pub fn draw_crab_pattern(width: u16, height: u16, popup_mode: bool) -> (text: String)
    ensures
        popup_mode ==> text@ == crab_pattern(1, width as int, height as int, popup_mode),
        exists|pattern: int|
            1 <= pattern <= 3 && text@ == #[trigger] crab_pattern(
                pattern,
                width as int,
                height as int,
                popup_mode,
            ),
{
    let now = get_time_offset();
    let text = crab_pattern_at(width, height, popup_mode, now);
    assert(text@ == crab_pattern(
        pattern_due(now, popup_mode),
        width as int,
        height as int,
        popup_mode,
    ));
    text
}

} // verus!
