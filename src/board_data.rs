use vstd::prelude::*;
use crate::logic::{completes_line, line_filled};

verus! {

/// Where a game kept in a `GameData` stands.
#[derive(Copy, Clone, PartialEq, Eq, Structural, Debug)]
pub enum GameState {
    XsTurn,
    OsTurn,
    XWon,
    OWon,
    Stalemate,
}

/// The content of one cell.
#[derive(Copy, Clone, PartialEq, Eq, Structural, Debug)]
pub enum CellState {
    Empty,
    X,
    O,
}

/// A game as values: its state, its grid and how many moves were played.
pub struct DataView {
    pub state: GameState,
    pub board: Seq<CellState>,
    pub moves: nat,
}

impl DataView {
    /// The game before any move.
    pub open spec fn initial() -> DataView {
        DataView { state: GameState::XsTurn, board: Seq::new(9, |i: int| CellState::Empty), moves: 0 }
    }

    /// Nine cells, at most nine moves, and a cell left while a turn is open.
    pub open spec fn wf(self) -> bool {
        &&& self.board.len() == 9
        &&& self.moves <= 9
        &&& (self.state is XsTurn || self.state is OsTurn) ==> self.moves < 9
    }

    /// The mark of the player whose turn it is, if any.
    pub open spec fn mark(self) -> Option<CellState> {
        match self.state {
            GameState::XsTurn => Some(CellState::X),
            GameState::OsTurn => Some(CellState::O),
            _ => None,
        }
    }

    /// What a move at cell `i` makes of the game; `None` where it is refused
    /// (the game is over, the cell is outside the grid or already marked).
    pub open spec fn turn_result(self, i: int) -> Option<DataView> {
        if i < 0 || i >= 9 || self.mark() is None || self.board[i] != CellState::Empty {
            None
        } else {
            let mark = self.mark()->Some_0;
            let board = self.board.update(i, mark);
            let moves = self.moves + 1;
            let state = if completes_line(board, i, mark) {
                if mark == CellState::X {
                    GameState::XWon
                } else {
                    GameState::OWon
                }
            } else if moves == 9 {
                GameState::Stalemate
            } else if mark == CellState::X {
                GameState::OsTurn
            } else {
                GameState::XsTurn
            };
            Some(DataView { state, board, moves })
        }
    }
}

/// A game kept in one value and updated in place.
pub struct GameData {
    state: GameState,
    board: [CellState; 9],
    num_moves: u8,
}

impl View for GameData {
    type V = DataView;

    closed spec fn view(&self) -> DataView {
        DataView { state: self.state, board: self.board@, moves: self.num_moves as nat }
    }
}

impl GameData {
    pub fn new() -> (r: GameData)
        ensures
            r@ == DataView::initial(),
    {
        let r = GameData { state: GameState::XsTurn, board: [CellState::Empty; 9], num_moves: 0 };
        assert(r@.board =~= DataView::initial().board);
        r
    }

    pub fn state(&self) -> (r: GameState)
        ensures
            r == self@.state,
    {
        self.state
    }

    pub fn cell(&self, index: usize) -> (r: CellState)
        requires
            index < 9,
        ensures
            r == self@.board[index as int],
    {
        self.board[index]
    }

    /// Marks cell `board_index` for the player whose turn it is and returns
    /// the new state; returns `None`, and changes nothing, where the move is
    /// refused.
    pub fn turn(&mut self, board_index: usize) -> (r: Option<GameState>)
        requires
            old(self)@.wf(),
        ensures
            final(self)@.wf(),
            r is None <==> old(self)@.turn_result(board_index as int) is None,
            r is None ==> final(self)@ == old(self)@,
            r matches Some(s) ==> old(self)@.turn_result(board_index as int) == Some(final(self)@)
                && s == final(self)@.state,
    {
        let mark;
        match self.state {
            GameState::XsTurn => mark = CellState::X,
            GameState::OsTurn => mark = CellState::O,
            _ => return None,
        };
        if board_index >= 9 {
            return None;
        }
        match self.board[board_index] {
            CellState::Empty => self.board[board_index] = mark,
            _ => return None,
        }
        self.num_moves = self.num_moves + 1;
        self.check_board(board_index, mark);
        Some(self.state)
    }

    /// Whether cells `start`, `start + step` and `start + 2 * step` all hold
    /// `mark`.
    fn line_filled(&self, start: usize, step: usize, mark: CellState) -> (r: bool)
        requires
            start + 2 * step < 9,
        ensures
            r == line_filled(self@.board, start as int, step as int, mark),
    {
        self.board[start] == mark && self.board[start + step] == mark && self.board[start + 2 * step]
            == mark
    }

    /// Settles the state after `mark` was put in cell `board_index`: a win, a
    /// stalemate on a full count, or the other player's turn.
    fn check_board(&mut self, board_index: usize, mark: CellState)
        requires
            board_index < 9,
            old(self)@.mark() == Some(mark),
            old(self)@.board.len() == 9,
            1 <= old(self)@.moves <= 9,
        ensures
            final(self)@.board == old(self)@.board,
            final(self)@.moves == old(self)@.moves,
            final(self)@.state == (if completes_line(old(self)@.board, board_index as int, mark) {
                if mark == CellState::X {
                    GameState::XWon
                } else {
                    GameState::OWon
                }
            } else if old(self)@.moves == 9 {
                GameState::Stalemate
            } else if mark == CellState::X {
                GameState::OsTurn
            } else {
                GameState::XsTurn
            }),
    {
        let mut won = false;
        let (x, y) = (board_index % 3, board_index / 3);
        // primary diagonal
        if x == y {
            won = won || self.line_filled(0, 4, mark);
        }
        // secondary diagonal
        if x + y == 2 {
            won = won || self.line_filled(2, 2, mark);
        }
        // row and column
        won = won || self.line_filled(y * 3, 1, mark) || self.line_filled(x, 3, mark);
        if won {
            match self.state {
                GameState::XsTurn => self.state = GameState::XWon,
                GameState::OsTurn => self.state = GameState::OWon,
                _ => (),
            };
            return;
        }
        if self.num_moves == 9 {
            self.state = GameState::Stalemate;
            return;
        }
        match self.state {
            GameState::XsTurn => self.state = GameState::OsTurn,
            GameState::OsTurn => self.state = GameState::XsTurn,
            _ => (),
        }
    }
}

} // verus!
