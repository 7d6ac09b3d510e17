//! The turn state machine: a cursor moves over the board, Enter picks the
//! marker under it, and a second Enter puts that marker down on an empty
//! filled cell.
//!
//! A game is modelled by `GameView`: the board's grid, the cursor and the
//! phase. `GameView::step` says what one action makes of a game, and
//! `Game::next_turn` is proved to compute exactly that. Reading keys, painting
//! and leaving the process are the caller's part.

use crate::board::{
    in_bounds, initial_grid, moved_grid, valid_grid, with_state, Board, CellFocusState, CellView,
    Grid, N_COL, N_ROW,
};
use vstd::prelude::*;

verus! {

/// What a key press asks for.
#[derive(Clone, Copy, Debug, PartialEq, Eq, Structural)]
pub enum Action {
    MoveRight,
    MoveDown,
    MoveLeft,
    MoveUp,
    Enter,
    Exit,
    Invalid,
}

/// The row and column of a cell.
#[derive(Clone, Copy, Debug, PartialEq, Eq, Structural)]
pub struct CellPosition {
    pub r: usize,
    pub c: usize,
}

/// The phase of the pick-then-place interaction. The picked cell exists
/// only while a target is awaited.
#[derive(Clone, Copy, Debug, PartialEq, Eq, Structural)]
pub enum GameState {
    WaitingForMarkerSelection,
    WaitingForMoveTarget { selected: CellPosition },
}

/// What the caller is to do after a turn: go on, leave, or go on knowing
/// that the key meant nothing.
#[derive(Clone, Copy, Debug, PartialEq, Eq, Structural)]
pub enum TurnOutcome {
    Continue,
    Exit,
    Ignored,
}

/// The action a raw key code stands for.
pub open spec fn key_action(code: u8) -> Action {
    if code == 13 {
        Action::Enter
    } else if code == 75 {
        Action::MoveLeft
    } else if code == 72 {
        Action::MoveUp
    } else if code == 77 {
        Action::MoveRight
    } else if code == 80 {
        Action::MoveDown
    } else if code == 27 {
        Action::Exit
    } else {
        Action::Invalid
    }
}

/// What a turn with the given action tells the caller.
pub open spec fn outcome_of(action: Action) -> TurnOutcome {
    match action {
        Action::Exit => TurnOutcome::Exit,
        Action::Invalid => TurnOutcome::Ignored,
        _ => TurnOutcome::Continue,
    }
}

/// The action moves the cursor.
pub open spec fn is_direction(action: Action) -> bool {
    action is MoveRight || action is MoveDown || action is MoveLeft || action is MoveUp
}

/// The highlight that the cell at `(r, c)` has between turns: the cursor's
/// cell is focused, the picked cell (unless the cursor is on it) is prepared
/// to move, every other cell is unfocused.
pub open spec fn highlight(
    cursor: CellPosition,
    state: GameState,
    r: int,
    c: int,
) -> CellFocusState {
    if cursor.at(r, c) {
        CellFocusState::Focus
    } else if state matches GameState::WaitingForMoveTarget { selected } && selected.at(r, c) {
        CellFocusState::PrepareToMove
    } else {
        CellFocusState::Unfocus
    }
}

/// The grid with the markers of `grid` and the highlights that belong to
/// `cursor` and `state`.
pub open spec fn highlighted(grid: Grid, cursor: CellPosition, state: GameState) -> Grid {
    Seq::new(
        N_ROW as nat,
        |r: int|
            Seq::new(
                N_COL as nat,
                |c: int| CellView { state: highlight(cursor, state, r, c), ..grid[r][c] },
            ),
    )
}

impl CellPosition {
    /// The position names a cell of the board.
    pub open spec fn valid(self) -> bool {
        in_bounds(self.r as int, self.c as int)
    }

    /// The position is row `r`, column `c`.
    pub open spec fn at(self, r: int, c: int) -> bool {
        self.r == r && self.c == c
    }

    /// Where the cursor goes on an action: one cell in the given direction,
    /// staying put at the edge of the board; any other action leaves it.
    pub open spec fn stepped(self, action: Action) -> CellPosition {
        match action {
            Action::MoveUp if self.r > 0 => CellPosition { r: (self.r - 1) as usize, c: self.c },
            Action::MoveRight if self.c < N_COL - 1 => CellPosition {
                r: self.r,
                c: (self.c + 1) as usize,
            },
            Action::MoveDown if self.r < N_ROW - 1 => CellPosition {
                r: (self.r + 1) as usize,
                c: self.c,
            },
            Action::MoveLeft if self.c > 0 => CellPosition { r: self.r, c: (self.c - 1) as usize },
            _ => self,
        }
    }
}

/// The model of a game.
pub struct GameView {
    pub board: Grid,
    pub cursor: CellPosition,
    pub state: GameState,
}

impl GameView {
    /// The cell under the cursor.
    pub open spec fn under_cursor(self) -> CellView {
        self.board[self.cursor.r as int][self.cursor.c as int]
    }

    /// The invariant of a game between turns: the grid is a board's, the
    /// cursor and the picked cell are on the board, the picked cell holds a
    /// marker, markers stand on filled cells only, and every highlight is
    /// the one that cursor and phase call for.
    pub open spec fn wf(self) -> bool {
        &&& valid_grid(self.board)
        &&& self.cursor.valid()
        &&& self.state matches GameState::WaitingForMoveTarget { selected } ==> selected.valid()
            && self.board[selected.r as int][selected.c as int].marker is Some
        &&& forall|r: int, c: int|
            in_bounds(r, c) && (#[trigger] self.board[r][c]).marker is Some
                ==> self.board[r][c].fill
        &&& forall|r: int, c: int|
            in_bounds(r, c) ==> (#[trigger] self.board[r][c]).state == highlight(
                self.cursor,
                self.state,
                r,
                c,
            )
    }

    /// The action picks the marker under the cursor.
    pub open spec fn picks(self, action: Action) -> bool {
        &&& action is Enter
        &&& self.state is WaitingForMarkerSelection
        &&& self.under_cursor().marker is Some
    }

    /// The action puts the picked marker down under the cursor. Only the
    /// target is looked at: it must be filled and empty. The movement rule
    /// is not asked.
    pub open spec fn places(self, action: Action) -> bool {
        &&& action is Enter
        &&& self.state is WaitingForMoveTarget
        &&& self.under_cursor().fill
        &&& self.under_cursor().marker is None
    }

    /// The game after one turn with the given action. Exit leaves it as it
    /// is. Otherwise the cursor steps, Enter picks or places where it can,
    /// and the highlights follow the new cursor and phase.
    pub open spec fn step(self, action: Action) -> GameView {
        if action is Exit {
            self
        } else {
            let cursor = self.cursor.stepped(action);
            let state = if self.picks(action) {
                GameState::WaitingForMoveTarget { selected: self.cursor }
            } else if self.places(action) {
                GameState::WaitingForMarkerSelection
            } else {
                self.state
            };
            let markers = match self.state {
                GameState::WaitingForMoveTarget { selected } if self.places(action) => moved_grid(
                    self.board,
                    selected.r as int,
                    selected.c as int,
                    self.cursor.r as int,
                    self.cursor.c as int,
                ),
                _ => self.board,
            };
            GameView { board: highlighted(markers, cursor, state), cursor, state }
        }
    }

    /// The game after a turn for each of the given actions, in order.
    pub open spec fn run(self, actions: Seq<Action>) -> GameView
        decreases actions.len(),
    {
        if actions.len() == 0 {
            self
        } else {
            self.step(actions[0]).run(actions.drop_first())
        }
    }
}

/// A turn keeps the invariant of a game.
pub proof fn lemma_step_keeps_wf(game: GameView, action: Action)
    requires
        game.wf(),
    ensures
        game.step(action).wf(),
{
}

/// A turn that neither moves the cursor nor picks nor places a marker leaves
/// the game as it was. So do an invalid key, Enter where there is nothing to
/// pick or no room to place, and a step against the edge of the board.
pub proof fn lemma_idle_turn(game: GameView, action: Action)
    requires
        game.wf(),
        game.cursor.stepped(action) == game.cursor,
        !game.picks(action),
        !game.places(action),
    ensures
        game.step(action) == game,
{
    assert(game.step(action).board =~~= game.board);
}

/// Between turns exactly one cell is focused: the one under the cursor.
pub proof fn lemma_cursor_alone_is_focused(game: GameView)
    requires
        game.wf(),
    ensures
        forall|r: int, c: int|
            in_bounds(r, c) ==> ((#[trigger] game.board[r][c]).state is Focus
                <==> game.cursor.at(r, c)),
{
}

/// While a target is awaited, the picked cell is a filled cell that holds a
/// marker, and it is shown as prepared to move unless the cursor is on it.
pub proof fn lemma_picked_cell(game: GameView)
    requires
        game.wf(),
        game.state is WaitingForMoveTarget,
    ensures
        ({
            let selected = game.state->selected;
            let cell = game.board[selected.r as int][selected.c as int];
            &&& selected.valid()
            &&& cell.fill
            &&& cell.marker is Some
            &&& cell.state == if game.cursor == selected {
                CellFocusState::Focus
            } else {
                CellFocusState::PrepareToMove
            }
        }),
{
}

/// Moving the cursor about, however often, changes neither the phase nor
/// any marker, and keeps the invariant.
pub proof fn lemma_moving_keeps_markers(game: GameView, path: Seq<Action>)
    requires
        game.wf(),
        forall|i: int| 0 <= i < path.len() ==> is_direction(#[trigger] path[i]),
    ensures
        game.run(path).wf(),
        game.run(path).state == game.state,
        forall|r: int, c: int|
            in_bounds(r, c) ==> (#[trigger] game.run(path).board[r][c]).marker
                == game.board[r][c].marker,
    decreases path.len(),
{
    if path.len() > 0 {
        let next = game.step(path[0]);
        let rest = path.drop_first();
        lemma_step_keeps_wf(game, path[0]);
        assert forall|i: int| 0 <= i < rest.len() implies is_direction(#[trigger] rest[i]) by {
            assert(rest[i] == path[i + 1]);
        }
        lemma_moving_keeps_markers(next, rest);
    }
}

/// Picking and placing make a round trip. From a game that awaits a
/// selection with the cursor on a marker, Enter picks that marker. After any
/// cursor movements that end on an empty filled cell, a second Enter puts
/// the marker down there: the phase is back to awaiting a selection, no
/// cell is left prepared to move, the target holds the picked marker and
/// the cell it came from is empty.
pub proof fn lemma_pick_then_place(game: GameView, path: Seq<Action>)
    requires
        game.wf(),
        game.state is WaitingForMarkerSelection,
        game.under_cursor().marker is Some,
        forall|i: int| 0 <= i < path.len() ==> is_direction(#[trigger] path[i]),
        game.step(Action::Enter).run(path).under_cursor().fill,
        game.step(Action::Enter).run(path).under_cursor().marker is None,
    ensures
        ({
            let picked = game.step(Action::Enter);
            let aimed = picked.run(path);
            let placed = aimed.step(Action::Enter);
            &&& picked.state == GameState::WaitingForMoveTarget { selected: game.cursor }
            &&& aimed.state == picked.state
            &&& placed.wf()
            &&& placed.state is WaitingForMarkerSelection
            &&& placed.cursor == aimed.cursor
            &&& forall|r: int, c: int|
                in_bounds(r, c) ==> !((#[trigger] placed.board[r][c]).state is PrepareToMove)
            &&& placed.under_cursor().marker == game.under_cursor().marker
            &&& placed.board[game.cursor.r as int][game.cursor.c as int].marker is None
        }),
{
    let picked = game.step(Action::Enter);
    lemma_step_keeps_wf(game, Action::Enter);
    lemma_moving_keeps_markers(picked, path);
    let aimed = picked.run(path);
    lemma_step_keeps_wf(aimed, Action::Enter);
}

/// The game as it starts: the new board with the cursor on the bottom-left
/// cell, nothing picked.
pub open spec fn initial_game() -> GameView {
    GameView {
        board: with_state(initial_grid(), N_ROW - 1, 0, CellFocusState::Focus),
        cursor: CellPosition { r: (N_ROW - 1) as usize, c: 0 },
        state: GameState::WaitingForMarkerSelection,
    }
}

/// The board, the cursor and the phase of one game.
pub struct Game {
    board: Board,
    cursor: CellPosition,
    state: GameState,
}

impl View for Game {
    type V = GameView;

    closed spec fn view(&self) -> GameView {
        GameView { board: self.board@, cursor: self.cursor, state: self.state }
    }
}

impl Game {
    /// The game's invariant: see `GameView::wf`. `new` establishes it and
    /// `next_turn` keeps it.
    pub open spec fn wf(&self) -> bool {
        self@.wf()
    }

    /// A game on a new board, the cursor on the bottom-left cell.
    pub fn new() -> (game: Game)
        ensures
            game.wf(),
            game@ == initial_game(),
    {
        let mut board = Board::new();
        let r = board.get_n_row() - 1;
        let c: usize = 0;

        board.focus(r, c);

        Game {
            board,
            cursor: CellPosition { r, c },
            state: GameState::WaitingForMarkerSelection,
        }
    }

    /// The action that a raw key code stands for: 13 is Enter, 75, 72, 77
    /// and 80 are left, up, right and down, 27 is Exit, and every other code
    /// is invalid.
    pub fn get_action(code: u8) -> (action: Action)
        ensures
            action == key_action(code),
    {
        match code {
            13 => Action::Enter,
            75 => Action::MoveLeft,
            72 => Action::MoveUp,
            77 => Action::MoveRight,
            80 => Action::MoveDown,
            27 => Action::Exit,
            _ => Action::Invalid,
        }
    }

    /// Plays one turn. On Exit nothing is touched and the caller is told to
    /// leave. On any other action the game becomes what `GameView::step`
    /// says; an invalid key leaves it as it was.
    pub fn next_turn(&mut self, action: Action) -> (outcome: TurnOutcome)
        requires
            old(self).wf(),
        ensures
            final(self).wf(),
            final(self)@ == old(self)@.step(action),
            outcome == outcome_of(action),
            action is Exit || action is Invalid ==> final(self)@ == old(self)@,
    {
        let n_col = self.board.get_n_col();
        let n_row = self.board.get_n_row();

        let old_r = self.cursor.r;
        let old_c = self.cursor.c;
        let mut new_r: usize = old_r;
        let mut new_c: usize = old_c;
        let mut is_enter = false;
        let mut outcome = TurnOutcome::Continue;

        match action {
            Action::MoveUp => {
                if old_r > 0 {
                    new_r = old_r - 1;
                }
            },
            Action::MoveRight => {
                if old_c < n_col - 1 {
                    new_c = old_c + 1;
                }
            },
            Action::MoveDown => {
                if old_r < n_row - 1 {
                    new_r = old_r + 1;
                }
            },
            Action::MoveLeft => {
                if old_c > 0 {
                    new_c = old_c - 1;
                }
            },
            Action::Enter => {
                is_enter = true;
            },
            Action::Exit => {
                return TurnOutcome::Exit;
            },
            Action::Invalid => {
                outcome = TurnOutcome::Ignored;
            },
        }

        let new_cursor = CellPosition { r: new_r, c: new_c };

        if is_enter {
            match self.state {
                GameState::WaitingForMarkerSelection => {
                    if self.board.is_cell_has_marker(new_r, new_c) {
                        self.state = GameState::WaitingForMoveTarget { selected: new_cursor };
                    }
                },
                GameState::WaitingForMoveTarget { selected } => {
                    if self.board.is_cell_filled(new_r, new_c)
                        && !self.board.is_cell_has_marker(new_r, new_c) {
                        self.board.move_marker(selected.r, selected.c, new_r, new_c);
                        self.state = GameState::WaitingForMarkerSelection;
                    }
                },
            }
        }

        self.board.unfocus(old_r, old_c);
        match self.state {
            GameState::WaitingForMoveTarget { selected } => {
                self.board.prepare_to_move(selected.r, selected.c);
            },
            GameState::WaitingForMarkerSelection => (),
        }
        self.board.focus(new_r, new_c);

        self.cursor = new_cursor;

        proof {
            assert(self@.board =~~= old(self)@.step(action).board);
            if action is Invalid {
                lemma_idle_turn(old(self)@, action);
            }
        }
        outcome
    }

    /// The board.
    pub fn board(&self) -> (board: &Board)
        ensures
            board@ == self@.board,
    {
        &self.board
    }

    /// The cell the cursor is on.
    pub fn cursor(&self) -> (cursor: CellPosition)
        ensures
            cursor == self@.cursor,
    {
        self.cursor
    }

    /// The phase of the game.
    pub fn state(&self) -> (state: GameState)
        ensures
            state == self@.state,
    {
        self.state
    }
}

} // verus!
