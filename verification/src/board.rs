//! The board: an 8 by 8 grid of cells, the rule that says which marker moves
//! are legal, and the operations that change a cell.
//!
//! A board is modelled by its grid, a sequence of rows of `CellView`. Every
//! contract below is stated over that grid.

use crate::paint::{
    black, bold, on_bright_cyan, on_bright_green, on_bright_magenta, styling, Styling, Tint,
};
use colored::ColoredString;
use vstd::prelude::*;

verus! {

/// Number of rows of the board.
pub const N_ROW: usize = 8;

/// Number of columns of the board.
pub const N_COL: usize = 8;

/// The side a marker belongs to.
#[derive(Clone, Copy, Debug, PartialEq, Eq, Structural)]
pub enum MarkerSymbol {
    O,
    X,
}

/// A playing piece. An ultra-instinct marker may travel any distance along a
/// diagonal; an ordinary one moves a single diagonal step.
#[derive(Clone, Copy, Debug, PartialEq, Eq, Structural)]
pub struct Marker {
    pub symbol: MarkerSymbol,
    pub is_ultra_instinct: bool,
}

/// How a cell is highlighted. It decides the colour a cell is drawn in and
/// has no part in the movement rule.
#[derive(Clone, Copy, Debug, PartialEq, Eq, Structural)]
pub enum CellFocusState {
    Focus,
    Unfocus,
    PrepareToMove,
}

/// What a cell holds: its marker, whether markers are played on it, and its
/// highlight.
pub struct CellView {
    pub marker: Option<Marker>,
    pub fill: bool,
    pub state: CellFocusState,
}

/// The model of a board: `grid[r][c]` is the cell in row `r` (row 0 at the
/// top) and column `c`.
pub type Grid = Seq<Seq<CellView>>;

/// The squares that markers are played on: those whose row and column add up
/// to an even number.
pub open spec fn is_dark_square(r: int, c: int) -> bool {
    (r + c) % 2 == 0
}

/// `(r, c)` names a cell of the board.
pub open spec fn in_bounds(r: int, c: int) -> bool {
    0 <= r < N_ROW && 0 <= c < N_COL
}

/// A grid has the board's shape, and its filled cells are exactly the dark
/// squares.
pub open spec fn valid_grid(grid: Grid) -> bool {
    &&& grid.len() == N_ROW
    &&& forall|r: int| 0 <= r < N_ROW ==> (#[trigger] grid[r]).len() == N_COL
    &&& forall|r: int, c: int|
        in_bounds(r, c) ==> (#[trigger] grid[r][c]).fill == is_dark_square(r, c)
}

/// The grid with the cell at `(r, c)` replaced.
pub open spec fn with_cell(grid: Grid, r: int, c: int, cell: CellView) -> Grid {
    grid.update(r, grid[r].update(c, cell))
}

/// The grid with the highlight of the cell at `(r, c)` replaced.
pub open spec fn with_state(grid: Grid, r: int, c: int, state: CellFocusState) -> Grid {
    with_cell(grid, r, c, CellView { state, ..grid[r][c] })
}

/// The marker a new board has at `(r, c)`: an ordinary O on the dark squares
/// of the top two rows, an ordinary X on those of the bottom two, none
/// elsewhere.
pub open spec fn initial_marker(r: int, c: int) -> Option<Marker> {
    if r < 2 && is_dark_square(r, c) {
        Some(Marker { symbol: MarkerSymbol::O, is_ultra_instinct: false })
    } else if r >= N_ROW - 2 && is_dark_square(r, c) {
        Some(Marker { symbol: MarkerSymbol::X, is_ultra_instinct: false })
    } else {
        None
    }
}

/// The cell a new board has at `(r, c)`.
pub open spec fn initial_cell(r: int, c: int) -> CellView {
    CellView {
        marker: initial_marker(r, c),
        fill: is_dark_square(r, c),
        state: CellFocusState::Unfocus,
    }
}

/// The grid of a new board.
pub open spec fn initial_grid() -> Grid {
    Seq::new(N_ROW as nat, |r: int| Seq::new(N_COL as nat, |c: int| initial_cell(r, c)))
}

/// The distance between two coordinates.
pub open spec fn distance(a: int, b: int) -> int {
    if a > b {
        a - b
    } else {
        b - a
    }
}

/// The movement rule: the target is a filled cell without a marker, the
/// source holds a marker, the step runs along a diagonal, and it is a single
/// step unless the marker is ultra instinct.
pub open spec fn can_move(grid: Grid, from_r: int, from_c: int, to_r: int, to_c: int) -> bool {
    let x_diff = distance(from_r, to_r);
    let y_diff = distance(from_c, to_c);
    &&& grid[to_r][to_c].fill
    &&& grid[to_r][to_c].marker is None
    &&& grid[from_r][from_c].marker matches Some(marker)
    &&& x_diff == y_diff
    &&& (marker.is_ultra_instinct || x_diff + y_diff <= 2)
}

/// The cell at `(r, c)` after the marker of `(from_r, from_c)` was moved to
/// `(to_r, to_c)`: the target takes over whatever the source held, the source
/// is left empty and unfocused, and every other cell is as before.
pub open spec fn moved_cell(
    grid: Grid,
    from_r: int,
    from_c: int,
    to_r: int,
    to_c: int,
    r: int,
    c: int,
) -> CellView {
    let at_source = r == from_r && c == from_c;
    let at_target = r == to_r && c == to_c;
    CellView {
        marker: if at_target {
            grid[from_r][from_c].marker
        } else if at_source {
            None
        } else {
            grid[r][c].marker
        },
        fill: grid[r][c].fill,
        state: if at_source {
            CellFocusState::Unfocus
        } else {
            grid[r][c].state
        },
    }
}

/// The grid after the marker of `(from_r, from_c)` was moved to
/// `(to_r, to_c)`.
pub open spec fn moved_grid(grid: Grid, from_r: int, from_c: int, to_r: int, to_c: int) -> Grid {
    Seq::new(
        N_ROW as nat,
        |r: int|
            Seq::new(
                N_COL as nat,
                |c: int| moved_cell(grid, from_r, from_c, to_r, to_c, r, c),
            ),
    )
}

impl CellView {
    /// The three characters a cell is drawn with.
    pub open spec fn glyph(self) -> Seq<char> {
        match self.marker {
            Some(marker) => match marker.symbol {
                MarkerSymbol::O => seq![' ', 'O', ' '],
                MarkerSymbol::X => seq![' ', 'X', ' '],
            },
            None => seq![' ', ' ', ' '],
        }
    }

    /// The background a cell is drawn on: bright green under the cursor,
    /// bright magenta when picked for a move, bright cyan on an unfocused
    /// filled cell, none otherwise.
    pub open spec fn backdrop(self) -> Option<Tint> {
        match self.state {
            CellFocusState::Focus => Some(Tint::BrightGreen),
            CellFocusState::PrepareToMove => Some(Tint::BrightMagenta),
            CellFocusState::Unfocus => if self.fill {
                Some(Tint::BrightCyan)
            } else {
                None
            },
        }
    }

    /// How a cell is drawn: its glyph in bold black on its backdrop.
    pub open spec fn rendered(self) -> Styling {
        Styling {
            text: self.glyph(),
            foreground: Some(Tint::Black),
            background: self.backdrop(),
            bold: true,
        }
    }
}

/// One square of the board. Whether it is filled is fixed when the cell is
/// made; its marker and its highlight change.
#[derive(Clone, Copy, Debug)]
pub struct Cell {
    marker: Option<Marker>,
    fill: bool,
    state: CellFocusState,
}

impl View for Cell {
    type V = CellView;

    closed spec fn view(&self) -> CellView {
        CellView { marker: self.marker, fill: self.fill, state: self.state }
    }
}

impl Cell {
    /// The styled text the cell is drawn with.
    pub fn render(&self) -> (cs: ColoredString)
        ensures
            styling(cs) == self@.rendered(),
    {
        let mut s = "   ";
        match &self.marker {
            Some(marker) => {
                s = match marker.symbol {
                    MarkerSymbol::O => " O ",
                    MarkerSymbol::X => " X ",
                }
            },
            None => (),
        }
        proof {
            reveal_strlit("   ");
            reveal_strlit(" O ");
            reveal_strlit(" X ");
            assert(s@ =~= self@.glyph());
        }

        let mut cs = black(bold(s));

        match &self.state {
            CellFocusState::Focus => {
                cs = on_bright_green(cs);
            },
            CellFocusState::PrepareToMove => {
                cs = on_bright_magenta(cs);
            },
            CellFocusState::Unfocus => {
                if self.fill {
                    cs = on_bright_cyan(cs);
                }
            },
        }

        cs
    }

    /// Takes the marker off the cell and hands it back.
    pub fn remove_marker(&mut self) -> (marker: Option<Marker>)
        ensures
            marker == old(self)@.marker,
            final(self)@ == (CellView { marker: None, ..old(self)@ }),
    {
        let marker = self.marker;
        self.marker = None;
        marker
    }

    /// Highlights the cell as the one under the cursor.
    pub fn focus(&mut self)
        ensures
            final(self)@ == (CellView { state: CellFocusState::Focus, ..old(self)@ }),
    {
        self.state = CellFocusState::Focus;
    }

    /// Takes the highlight off the cell.
    pub fn unfocus(&mut self)
        ensures
            final(self)@ == (CellView { state: CellFocusState::Unfocus, ..old(self)@ }),
    {
        self.state = CellFocusState::Unfocus;
    }

    /// Highlights the cell as the one picked for a move.
    pub fn prepare_to_move(&mut self)
        ensures
            final(self)@ == (CellView { state: CellFocusState::PrepareToMove, ..old(self)@ }),
    {
        self.state = CellFocusState::PrepareToMove;
    }

    /// The marker on the cell, if any.
    pub fn marker(&self) -> (marker: Option<Marker>)
        ensures
            marker == self@.marker,
    {
        self.marker
    }

    /// Whether markers are played on the cell.
    pub fn is_filled(&self) -> (fill: bool)
        ensures
            fill == self@.fill,
    {
        self.fill
    }

    /// The cell's highlight.
    pub fn state(&self) -> (state: CellFocusState)
        ensures
            state == self@.state,
    {
        self.state
    }
}

/// The 8 by 8 board. It owns its cells; they are changed in place and never
/// added or removed.
pub struct Board {
    cells: Vec<Vec<Cell>>,
}

impl View for Board {
    type V = Grid;

    closed spec fn view(&self) -> Grid {
        Seq::new(
            self.cells@.len(),
            |r: int| Seq::new(self.cells@[r]@.len(), |c: int| self.cells@[r]@[c]@),
        )
    }
}

impl Board {
    /// The board's invariant: see `valid_grid`. `new` establishes it and
    /// every operation keeps it.
    pub open spec fn wf(&self) -> bool {
        valid_grid(self@)
    }

    /// On a well-formed board the cells are stored as eight rows of eight,
    /// and the grid shows each of them.
    proof fn lemma_storage(&self)
        requires
            self.wf(),
        ensures
            self.cells@.len() == N_ROW,
            forall|r: int| 0 <= r < N_ROW ==> (#[trigger] self.cells@[r])@.len() == N_COL,
            forall|r: int, c: int|
                in_bounds(r, c) ==> (#[trigger] self.cells@[r]@[c])@ == self@[r][c],
    {
        assert forall|r: int| 0 <= r < N_ROW implies (#[trigger] self.cells@[r])@.len()
            == N_COL by {
            assert(self@[r].len() == N_COL);
        }
    }

    /// A board with the two marker rows of each side in place and no cell
    /// highlighted.
    pub fn new() -> (board: Board)
        ensures
            board.wf(),
            board@ == initial_grid(),
    {
        let mut cells: Vec<Vec<Cell>> = Vec::new();

        for r in 0..N_ROW
            invariant
                cells@.len() == r,
                forall|i: int| 0 <= i < r ==> (#[trigger] cells@[i])@.len() == N_COL,
                forall|i: int, j: int|
                    0 <= i < r && 0 <= j < N_COL ==> (#[trigger] cells@[i]@[j])@
                        == initial_cell(i, j),
        {
            let mut row: Vec<Cell> = Vec::new();
            for c in 0..N_COL
                invariant
                    r < N_ROW,
                    row@.len() == c,
                    forall|j: int|
                        0 <= j < c ==> (#[trigger] row@[j])@ == initial_cell(r as int, j),
            {
                let fill = (r + c) % 2 == 0;
                let mut marker: Option<Marker> = None;
                if r < 2 && fill {
                    marker = Some(Marker { symbol: MarkerSymbol::O, is_ultra_instinct: false });
                } else if r >= N_ROW - 2 && fill {
                    marker = Some(Marker { symbol: MarkerSymbol::X, is_ultra_instinct: false });
                }
                let cell = Cell { marker, fill, state: CellFocusState::Unfocus };
                row.push(cell);
            }
            cells.push(row);
        }

        let board = Board { cells };
        assert(board@ =~~= initial_grid());
        board
    }

    /// The styled text of every cell, row by row, as it is to be painted.
    pub fn draw(&self) -> (frame: Vec<Vec<ColoredString>>)
        requires
            self.wf(),
        ensures
            frame@.len() == N_ROW,
            forall|r: int| 0 <= r < N_ROW ==> (#[trigger] frame@[r])@.len() == N_COL,
            forall|r: int, c: int|
                in_bounds(r, c) ==> styling(#[trigger] frame@[r]@[c]) == self@[r][c].rendered(),
    {
        let mut frame: Vec<Vec<ColoredString>> = Vec::new();
        for r in 0..N_ROW
            invariant
                self.wf(),
                frame@.len() == r,
                forall|i: int| 0 <= i < r ==> (#[trigger] frame@[i])@.len() == N_COL,
                forall|i: int, j: int|
                    0 <= i < r && 0 <= j < N_COL ==> styling(#[trigger] frame@[i]@[j])
                        == self@[i][j].rendered(),
        {
            let mut line: Vec<ColoredString> = Vec::new();
            for c in 0..N_COL
                invariant
                    self.wf(),
                    r < N_ROW,
                    line@.len() == c,
                    forall|j: int|
                        0 <= j < c ==> styling(#[trigger] line@[j])
                            == self@[r as int][j].rendered(),
            {
                proof {
                    self.lemma_storage();
                }
                line.push(self.cells[r][c].render());
            }
            frame.push(line);
        }
        frame
    }

    /// The cell at `(r, c)`.
    pub fn cell(&self, r: usize, c: usize) -> (cell: &Cell)
        requires
            self.wf(),
            r < N_ROW,
            c < N_COL,
        ensures
            cell@ == self@[r as int][c as int],
    {
        proof {
            self.lemma_storage();
        }
        &self.cells[r][c]
    }

    /// Highlights the cell at `(r, c)` as the one under the cursor.
    pub fn focus(&mut self, r: usize, c: usize)
        requires
            old(self).wf(),
            r < N_ROW,
            c < N_COL,
        ensures
            final(self).wf(),
            final(self)@ == with_state(old(self)@, r as int, c as int, CellFocusState::Focus),
    {
        proof {
            self.lemma_storage();
        }
        self.cells[r][c].focus();
        assert(self@ =~~= with_state(old(self)@, r as int, c as int, CellFocusState::Focus));
    }

    /// Takes the highlight off the cell at `(r, c)`.
    pub fn unfocus(&mut self, r: usize, c: usize)
        requires
            old(self).wf(),
            r < N_ROW,
            c < N_COL,
        ensures
            final(self).wf(),
            final(self)@ == with_state(old(self)@, r as int, c as int, CellFocusState::Unfocus),
    {
        proof {
            self.lemma_storage();
        }
        self.cells[r][c].unfocus();
        assert(self@ =~~= with_state(old(self)@, r as int, c as int, CellFocusState::Unfocus));
    }

    /// Highlights the cell at `(r, c)` as the one picked for a move.
    pub fn prepare_to_move(&mut self, r: usize, c: usize)
        requires
            old(self).wf(),
            r < N_ROW,
            c < N_COL,
        ensures
            final(self).wf(),
            final(self)@ == with_state(
                old(self)@,
                r as int,
                c as int,
                CellFocusState::PrepareToMove,
            ),
    {
        proof {
            self.lemma_storage();
        }
        self.cells[r][c].prepare_to_move();
        assert(self@ =~~= with_state(
            old(self)@,
            r as int,
            c as int,
            CellFocusState::PrepareToMove,
        ));
    }

    /// Puts `marker` on the cell at `(r, c)`, in place of any marker there.
    pub fn place_marker(&mut self, r: usize, c: usize, marker: Marker)
        requires
            old(self).wf(),
            r < N_ROW,
            c < N_COL,
        ensures
            final(self).wf(),
            final(self)@ == with_cell(
                old(self)@,
                r as int,
                c as int,
                CellView { marker: Some(marker), ..old(self)@[r as int][c as int] },
            ),
    {
        proof {
            self.lemma_storage();
        }
        self.cells[r][c].marker = Some(marker);
        assert(self@ =~~= with_cell(
            old(self)@,
            r as int,
            c as int,
            CellView { marker: Some(marker), ..old(self)@[r as int][c as int] },
        ));
    }

    /// The row distance and the column distance between two cells.
    pub fn get_diffs(&self, r1: usize, c1: usize, r2: usize, c2: usize) -> (diffs: (usize, usize))
        ensures
            diffs.0 == distance(r1 as int, r2 as int),
            diffs.1 == distance(c1 as int, c2 as int),
    {
        let x_diff = if r1 > r2 {
            r1 - r2
        } else {
            r2 - r1
        };
        let y_diff = if c1 > c2 {
            c1 - c2
        } else {
            c2 - c1
        };
        (x_diff, y_diff)
    }

    /// Whether the movement rule lets the marker at `(from_r, from_c)` go to
    /// `(to_r, to_c)`. It looks at neither the marker's side nor whose turn
    /// it is.
    ///
    /// The answer is `can_move`. What follows from it is spelled out: there
    /// is no move onto an unfilled or an occupied cell, from an empty cell or
    /// off the diagonal; a move covers at least one step; an ordinary marker
    /// covers exactly one; an ultra-instinct marker reaches every free filled
    /// cell on its diagonals.
    pub fn can_marker_move(&self, from_r: usize, from_c: usize, to_r: usize, to_c: usize) -> (ok:
        bool)
        requires
            self.wf(),
            from_r < N_ROW,
            from_c < N_COL,
            to_r < N_ROW,
            to_c < N_COL,
        ensures
            ok == can_move(self@, from_r as int, from_c as int, to_r as int, to_c as int),
            ({
                let source = self@[from_r as int][from_c as int];
                let target = self@[to_r as int][to_c as int];
                let x_diff = distance(from_r as int, to_r as int);
                let y_diff = distance(from_c as int, to_c as int);
                &&& !target.fill ==> !ok
                &&& target.marker is Some ==> !ok
                &&& source.marker is None ==> !ok
                &&& x_diff != y_diff ==> !ok
                &&& ok ==> x_diff >= 1
                &&& ok && !source.marker->0.is_ultra_instinct ==> x_diff == 1 && y_diff == 1
                &&& (source.marker is Some && source.marker->0.is_ultra_instinct && target.fill
                    && target.marker is None && x_diff == y_diff) ==> ok
            }),
    {
        let (x_diff, y_diff) = self.get_diffs(from_r, from_c, to_r, to_c);
        proof {
            self.lemma_storage();
        }

        if !self.is_cell_filled(to_r, to_c)
            || self.is_cell_has_marker(to_r, to_c)
            || self.cells[from_r][from_c].marker.is_none()
            || x_diff != y_diff
            || (!self.cells[from_r][from_c].marker.unwrap().is_ultra_instinct
                && x_diff + y_diff > 2) {
            return false;
        }

        true
    }

    /// Moves whatever the cell at `(from_r, from_c)` holds to `(to_r, to_c)`
    /// and takes the highlight off the source. The movement rule is not
    /// consulted: asking `can_marker_move` first is up to the caller.
    pub fn move_marker(&mut self, from_r: usize, from_c: usize, to_r: usize, to_c: usize)
        requires
            old(self).wf(),
            from_r < N_ROW,
            from_c < N_COL,
            to_r < N_ROW,
            to_c < N_COL,
        ensures
            final(self).wf(),
            final(self)@ == moved_grid(
                old(self)@,
                from_r as int,
                from_c as int,
                to_r as int,
                to_c as int,
            ),
            old(self)@[from_r as int][from_c as int].marker is Some && (from_r != to_r || from_c
                != to_c) ==> {
                &&& final(self)@[from_r as int][from_c as int].marker is None
                &&& final(self)@[to_r as int][to_c as int].marker
                    == old(self)@[from_r as int][from_c as int].marker
            },
    {
        proof {
            self.lemma_storage();
        }
        self.cells[from_r][from_c].unfocus();
        let marker = self.cells[from_r][from_c].remove_marker();
        self.cells[to_r][to_c].marker = marker;
        assert(self@ =~~= moved_grid(
            old(self)@,
            from_r as int,
            from_c as int,
            to_r as int,
            to_c as int,
        ));
    }

    /// Whether markers are played on the cell at `(r, c)`. This never changes:
    /// it is so exactly on the dark squares.
    pub fn is_cell_filled(&self, r: usize, c: usize) -> (filled: bool)
        requires
            self.wf(),
            r < N_ROW,
            c < N_COL,
        ensures
            filled == self@[r as int][c as int].fill,
            filled == ((r + c) % 2 == 0),
    {
        proof {
            self.lemma_storage();
        }
        self.cells[r][c].fill
    }

    /// Whether the cell at `(r, c)` holds a marker.
    pub fn is_cell_has_marker(&self, r: usize, c: usize) -> (held: bool)
        requires
            self.wf(),
            r < N_ROW,
            c < N_COL,
        ensures
            held == self@[r as int][c as int].marker is Some,
    {
        proof {
            self.lemma_storage();
        }
        let marker = &self.cells[r][c].marker;
        match marker {
            Some(_) => true,
            None => false,
        }
    }

    /// The number of rows.
    pub fn get_n_row(&self) -> (n: usize)
        ensures
            n == N_ROW,
    {
        N_ROW
    }

    /// The number of columns.
    pub fn get_n_col(&self) -> (n: usize)
        ensures
            n == N_COL,
    {
        N_COL
    }
}

} // verus!
