//! Boards and cards, as far as navigation needs them: identifiers to look
//! things up by, and titles to show.

use vstd::prelude::*;

verus! {

/// A card: its identifier and its title.
#[derive(Debug)]
pub struct Card {
    pub id: u128,
    pub name: String,
}

/// A board: its identifier, its title and its cards.
#[derive(Debug)]
pub struct Board {
    pub id: u128,
    pub name: String,
    pub cards: Vec<Card>,
}

/// `i` is the first place in `boards` of a board with identifier `id`.
pub open spec fn is_first_board(boards: Seq<Board>, id: u128, i: int) -> bool {
    &&& 0 <= i < boards.len()
    &&& boards[i].id == id
    &&& forall|m: int| 0 <= m < i ==> boards[m].id != id
}

/// `i` is the first place in `cards` of a card with identifier `id`.
pub open spec fn is_first_card(cards: Seq<Card>, id: u128, i: int) -> bool {
    &&& 0 <= i < cards.len()
    &&& cards[i].id == id
    &&& forall|m: int| 0 <= m < i ==> cards[m].id != id
}

/// Whether the first board with identifier `board_id` holds a card with
/// identifier `card_id`.
pub open spec fn card_exists(boards: Seq<Board>, board_id: u128, card_id: u128) -> bool {
    exists|i: int, j: int|
        is_first_board(boards, board_id, i) && #[trigger] is_first_card(
            boards[i].cards@,
            card_id,
            j,
        )
}

/// The first board with the given identifier.
pub fn find_board(boards: &Vec<Board>, id: u128) -> (found: Option<&Board>)
    ensures
        match found {
            Some(board) => exists|i: int| #[trigger]
                is_first_board(boards@, id, i) && *board == boards@[i],
            None => forall|i: int| 0 <= i < boards.len() ==> (#[trigger] boards@[i]).id != id,
        },
{
    let mut n: usize = 0;
    while n < boards.len()
        invariant
            0 <= n <= boards.len(),
            forall|m: int| 0 <= m < n ==> (#[trigger] boards@[m]).id != id,
        decreases boards.len() - n,
    {
        if boards[n].id == id {
            assert(is_first_board(boards@, id, n as int));
            return Some(&boards[n]);
        }
        n = n + 1;
    }
    None
}

/// The first card of `board` with the given identifier.
pub fn find_card(board: &Board, id: u128) -> (found: Option<&Card>)
    ensures
        match found {
            Some(card) => exists|j: int| #[trigger]
                is_first_card(board.cards@, id, j) && *card == board.cards@[j],
            None => forall|j: int|
                0 <= j < board.cards.len() ==> (#[trigger] board.cards@[j]).id != id,
        },
{
    let mut n: usize = 0;
    while n < board.cards.len()
        invariant
            0 <= n <= board.cards.len(),
            forall|m: int| 0 <= m < n ==> (#[trigger] board.cards@[m]).id != id,
        decreases board.cards.len() - n,
    {
        if board.cards[n].id == id {
            assert(is_first_card(board.cards@, id, n as int));
            return Some(&board.cards[n]);
        }
        n = n + 1;
    }
    None
}

/// Whether the first board with identifier `board_id` holds a card with
/// identifier `card_id`.
pub fn has_card(boards: &Vec<Board>, board_id: u128, card_id: u128) -> (found: bool)
    ensures
        found == card_exists(boards@, board_id, card_id),
{
    match find_board(boards, board_id) {
        Some(board) => {
            let ghost i = choose|i: int| #[trigger]
                is_first_board(boards@, board_id, i) && *board == boards@[i];
            match find_card(board, card_id) {
                Some(card) => {
                    let ghost j = choose|j: int| #[trigger]
                        is_first_card(board.cards@, card_id, j) && *card == board.cards@[j];
                    assert(is_first_board(boards@, board_id, i) && is_first_card(
                        boards@[i].cards@,
                        card_id,
                        j,
                    ));
                    true
                },
                None => {
                    assert forall|a: int, b: int|
                        !(is_first_board(boards@, board_id, a) && #[trigger] is_first_card(
                            boards@[a].cards@,
                            card_id,
                            b,
                        )) by {
                        if is_first_board(boards@, board_id, a) {
                            assert(a == i);
                        }
                    }
                    false
                },
            }
        },
        None => false,
    }
}

} // verus!
