use draughts::board::{Board, Cell, CellFocusState, Marker, MarkerSymbol};

const ORDINARY_O: Marker = Marker { symbol: MarkerSymbol::O, is_ultra_instinct: false };
const ORDINARY_X: Marker = Marker { symbol: MarkerSymbol::X, is_ultra_instinct: false };
const ULTRA_X: Marker = Marker { symbol: MarkerSymbol::X, is_ultra_instinct: true };

fn snapshot(board: &Board) -> Vec<(Option<Marker>, bool, CellFocusState)> {
    let mut cells = Vec::new();
    for r in 0..8 {
        for c in 0..8 {
            let cell: &Cell = board.cell(r, c);
            cells.push((cell.marker(), cell.is_filled(), cell.state()));
        }
    }
    cells
}

#[test]
fn board_is_eight_by_eight() {
    let board = Board::new();
    assert_eq!(board.get_n_row(), 8);
    assert_eq!(board.get_n_col(), 8);
}

#[test]
fn filled_cells_are_the_even_squares() {
    let board = Board::new();
    for r in 0..8 {
        for c in 0..8 {
            assert_eq!(board.is_cell_filled(r, c), (r + c) % 2 == 0, "cell ({r}, {c})");
        }
    }
    assert!(board.is_cell_filled(0, 0));
    assert!(!board.is_cell_filled(7, 0));
    assert!(board.is_cell_filled(7, 7));
}

#[test]
fn filled_cells_stay_the_same_under_every_operation() {
    let mut board = Board::new();
    board.focus(0, 1);
    board.prepare_to_move(1, 1);
    board.unfocus(0, 1);
    board.move_marker(1, 1, 2, 1);
    board.move_marker(4, 4, 0, 0);
    board.place_marker(3, 4, ULTRA_X);
    for r in 0..8 {
        for c in 0..8 {
            assert_eq!(board.is_cell_filled(r, c), (r + c) % 2 == 0, "cell ({r}, {c})");
            assert_eq!(board.cell(r, c).is_filled(), (r + c) % 2 == 0, "cell ({r}, {c})");
        }
    }
}

#[test]
fn new_board_has_two_rows_of_each_side() {
    let board = Board::new();
    for r in 0..8 {
        for c in 0..8 {
            let expected = if (r + c) % 2 != 0 {
                None
            } else if r < 2 {
                Some(ORDINARY_O)
            } else if r >= 6 {
                Some(ORDINARY_X)
            } else {
                None
            };
            assert_eq!(board.cell(r, c).marker(), expected, "cell ({r}, {c})");
            assert_eq!(board.is_cell_has_marker(r, c), expected.is_some(), "cell ({r}, {c})");
            assert_eq!(board.cell(r, c).state(), CellFocusState::Unfocus, "cell ({r}, {c})");
        }
    }
}

#[test]
fn new_board_named_cells() {
    let board = Board::new();
    assert_eq!(board.cell(0, 0).marker(), Some(ORDINARY_O));
    assert_eq!(board.cell(1, 1).marker(), Some(ORDINARY_O));
    assert_eq!(board.cell(0, 1).marker(), None);
    assert_eq!(board.cell(2, 2).marker(), None);
    assert_eq!(board.cell(5, 5).marker(), None);
    assert_eq!(board.cell(6, 0).marker(), Some(ORDINARY_X));
    assert_eq!(board.cell(7, 1).marker(), Some(ORDINARY_X));
    assert_eq!(board.cell(7, 0).marker(), None);
    let markers: usize = snapshot(&board).iter().filter(|cell| cell.0.is_some()).count();
    assert_eq!(markers, 16);
}

#[test]
fn get_diffs_gives_both_distances() {
    let board = Board::new();
    assert_eq!(board.get_diffs(1, 5, 4, 2), (3, 3));
    assert_eq!(board.get_diffs(4, 2, 1, 5), (3, 3));
    assert_eq!(board.get_diffs(0, 0, 0, 0), (0, 0));
    assert_eq!(board.get_diffs(2, 7, 2, 0), (0, 7));
    assert_eq!(board.get_diffs(7, 3, 0, 3), (7, 0));
    assert_eq!(board.get_diffs(0, usize::MAX, usize::MAX, 0), (usize::MAX, usize::MAX));
}

#[test]
fn ordinary_marker_moves_one_diagonal_step() {
    let board = Board::new();
    assert!(board.can_marker_move(1, 1, 2, 2));
    assert!(board.can_marker_move(1, 1, 2, 0));
    assert!(board.can_marker_move(6, 2, 5, 1));
    assert!(board.can_marker_move(6, 2, 5, 3));
}

#[test]
fn ordinary_marker_cannot_move_two_steps() {
    let board = Board::new();
    assert!(!board.can_marker_move(1, 1, 3, 3));
    assert!(!board.can_marker_move(6, 2, 4, 4));
    assert!(!board.can_marker_move(6, 2, 3, 5));
}

#[test]
fn cannot_move_to_an_unfilled_cell() {
    let board = Board::new();
    assert!(!board.can_marker_move(1, 1, 2, 1));
    assert!(!board.can_marker_move(6, 2, 5, 2));
}

#[test]
fn cannot_move_onto_a_marker() {
    let board = Board::new();
    assert!(!board.can_marker_move(0, 0, 1, 1));
    assert!(!board.can_marker_move(7, 1, 6, 2));
    assert!(!board.can_marker_move(1, 1, 1, 1));
}

#[test]
fn cannot_move_from_an_empty_cell() {
    let board = Board::new();
    assert!(!board.can_marker_move(2, 2, 3, 3));
    assert!(!board.can_marker_move(3, 4, 4, 4));
}

#[test]
fn cannot_move_off_the_diagonal() {
    let mut board = Board::new();
    assert!(!board.can_marker_move(1, 1, 3, 1));
    assert!(!board.can_marker_move(1, 1, 2, 4));
    board.place_marker(3, 3, ULTRA_X);
    assert!(!board.can_marker_move(3, 3, 5, 3));
    assert!(!board.can_marker_move(3, 3, 3, 5));
    assert!(!board.can_marker_move(3, 3, 2, 6));
}

#[test]
fn ultra_instinct_marker_moves_any_diagonal_distance() {
    let mut board = Board::new();
    board.place_marker(3, 3, ULTRA_X);
    assert!(board.can_marker_move(3, 3, 4, 4));
    assert!(board.can_marker_move(3, 3, 5, 5));
    assert!(board.can_marker_move(3, 3, 2, 2));
    assert!(board.can_marker_move(3, 3, 5, 1));
    assert!(board.can_marker_move(3, 3, 2, 4));
    board.move_marker(3, 3, 2, 0);
    assert!(board.can_marker_move(2, 0, 5, 3));
}

#[test]
fn ultra_instinct_marker_still_needs_a_free_filled_target() {
    let mut board = Board::new();
    board.place_marker(3, 3, ULTRA_X);
    assert!(!board.can_marker_move(3, 3, 6, 6));
    assert!(!board.can_marker_move(3, 3, 1, 1));
    assert!(!board.can_marker_move(3, 3, 3, 3));
    assert!(!board.can_marker_move(3, 3, 4, 3));
}

#[test]
fn place_marker_replaces_what_is_there() {
    let mut board = Board::new();
    let before = snapshot(&board);
    board.place_marker(0, 0, ULTRA_X);
    assert_eq!(board.cell(0, 0).marker(), Some(ULTRA_X));
    let after = snapshot(&board);
    for i in 1..64 {
        assert_eq!(after[i], before[i]);
    }
    assert_eq!(after[0].1, before[0].1);
    assert_eq!(after[0].2, before[0].2);
}

#[test]
fn move_marker_relocates_the_marker() {
    let mut board = Board::new();
    board.move_marker(1, 1, 4, 4);
    assert!(!board.is_cell_has_marker(1, 1));
    assert!(board.is_cell_has_marker(4, 4));
    assert_eq!(board.cell(4, 4).marker(), Some(ORDINARY_O));

    board.move_marker(7, 7, 3, 5);
    assert!(!board.is_cell_has_marker(7, 7));
    assert_eq!(board.cell(3, 5).marker(), Some(ORDINARY_X));
}

#[test]
fn move_marker_keeps_the_ultra_instinct() {
    let mut board = Board::new();
    board.place_marker(3, 3, ULTRA_X);
    board.move_marker(3, 3, 5, 5);
    assert!(!board.is_cell_has_marker(3, 3));
    assert!(board.is_cell_has_marker(5, 5));
    assert_eq!(board.cell(5, 5).marker(), Some(ULTRA_X));
}

#[test]
fn move_marker_asks_no_rule() {
    let mut board = Board::new();
    board.move_marker(0, 0, 2, 1);
    assert_eq!(board.cell(2, 1).marker(), Some(ORDINARY_O));
    assert!(!board.is_cell_has_marker(0, 0));
    board.move_marker(6, 0, 1, 1);
    assert_eq!(board.cell(1, 1).marker(), Some(ORDINARY_X));
    assert!(!board.is_cell_has_marker(6, 0));
}

#[test]
fn move_marker_touches_no_other_cell() {
    let mut board = Board::new();
    board.focus(4, 4);
    board.prepare_to_move(1, 1);
    let before = snapshot(&board);
    board.move_marker(1, 1, 4, 4);
    let after = snapshot(&board);
    for r in 0..8 {
        for c in 0..8 {
            let i: usize = r * 8 + c;
            if (r, c) == (1, 1) {
                assert_eq!(after[i], (None, true, CellFocusState::Unfocus));
            } else if (r, c) == (4, 4) {
                assert_eq!(after[i], (Some(ORDINARY_O), true, CellFocusState::Focus));
            } else {
                assert_eq!(after[i], before[i], "cell ({r}, {c})");
            }
        }
    }
}

#[test]
fn move_marker_from_an_empty_cell_empties_the_target() {
    let mut board = Board::new();
    board.move_marker(3, 3, 0, 0);
    assert!(!board.is_cell_has_marker(0, 0));
    assert!(!board.is_cell_has_marker(3, 3));
}

#[test]
fn move_marker_onto_its_own_cell_keeps_the_marker() {
    let mut board = Board::new();
    board.focus(1, 1);
    board.move_marker(1, 1, 1, 1);
    assert_eq!(board.cell(1, 1).marker(), Some(ORDINARY_O));
    assert_eq!(board.cell(1, 1).state(), CellFocusState::Unfocus);
}

#[test]
fn highlights_are_set_cell_by_cell() {
    let mut board = Board::new();
    let before = snapshot(&board);

    board.focus(2, 3);
    assert_eq!(board.cell(2, 3).state(), CellFocusState::Focus);
    board.prepare_to_move(2, 3);
    assert_eq!(board.cell(2, 3).state(), CellFocusState::PrepareToMove);
    board.prepare_to_move(7, 7);
    assert_eq!(board.cell(7, 7).state(), CellFocusState::PrepareToMove);
    assert_eq!(board.cell(7, 7).marker(), Some(ORDINARY_X));
    board.focus(0, 0);

    let during = snapshot(&board);
    for r in 0..8 {
        for c in 0..8 {
            let i: usize = r * 8 + c;
            assert_eq!(during[i].0, before[i].0);
            assert_eq!(during[i].1, before[i].1);
            let expected = match (r, c) {
                (0, 0) => CellFocusState::Focus,
                (2, 3) | (7, 7) => CellFocusState::PrepareToMove,
                _ => CellFocusState::Unfocus,
            };
            assert_eq!(during[i].2, expected, "cell ({r}, {c})");
        }
    }

    board.unfocus(2, 3);
    board.unfocus(7, 7);
    board.unfocus(0, 0);
    assert_eq!(snapshot(&board), before);
}

#[test]
fn highlights_have_no_part_in_the_rule() {
    let mut board = Board::new();
    board.focus(1, 1);
    board.prepare_to_move(2, 2);
    assert!(board.can_marker_move(1, 1, 2, 2));
    board.focus(3, 3);
    assert!(!board.can_marker_move(1, 1, 3, 3));
}

#[test]
fn cell_gives_up_its_marker() {
    let board = Board::new();
    let mut cell = *board.cell(0, 0);
    assert_eq!(cell.remove_marker(), Some(ORDINARY_O));
    assert_eq!(cell.marker(), None);
    assert!(cell.is_filled());
    assert_eq!(cell.state(), CellFocusState::Unfocus);
    assert_eq!(cell.remove_marker(), None);
    assert_eq!(board.cell(0, 0).marker(), Some(ORDINARY_O));
}

#[test]
fn cell_changes_its_highlight() {
    let board = Board::new();
    let mut cell = *board.cell(6, 0);
    cell.focus();
    assert_eq!(cell.state(), CellFocusState::Focus);
    cell.prepare_to_move();
    assert_eq!(cell.state(), CellFocusState::PrepareToMove);
    cell.unfocus();
    assert_eq!(cell.state(), CellFocusState::Unfocus);
    assert_eq!(cell.marker(), Some(ORDINARY_X));
    assert!(cell.is_filled());
}
