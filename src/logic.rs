use vstd::prelude::*;

verus! {

/// Width and height of the grid.
pub const BOARD_SIZE: usize = 3;

/// Number of cells of the grid.
pub const BOARD_LENGTH: usize = 9;

/// One of the two players; `X` moves first.
#[derive(Copy, Clone, PartialEq, Eq, Structural, Debug)]
pub enum Player {
    X,
    O,
}

impl Player {
    /// The player who moves after `self`.
    pub open spec fn spec_next(self) -> Player {
        match self {
            Player::X => Player::O,
            Player::O => Player::X,
        }
    }

    pub fn next(&self) -> (r: Player)
        ensures
            r == self.spec_next(),
    {
        match self {
            Player::X => Player::O,
            Player::O => Player::X,
        }
    }
}

/// The content of one cell of the grid.
#[derive(Copy, Clone, PartialEq, Eq, Structural, Debug)]
pub enum Tile {
    Marked(Player),
    Empty,
}

impl Tile {
    pub fn is_marked(&self) -> (r: bool)
        ensures
            r == (*self is Marked),
    {
        match self {
            Tile::Empty => false,
            _ => true,
        }
    }
}

/// Where a game stands: whose turn it is, who has won, or a tie.
#[derive(Copy, Clone, PartialEq, Eq, Structural, Debug)]
pub enum GameState {
    InProgress(Player),
    Won(Player),
    Tied,
}

impl GameState {
    pub fn is_finished(&self) -> (r: bool)
        ensures
            r == !(*self is InProgress),
    {
        match self {
            GameState::InProgress(_) => false,
            _ => true,
        }
    }

    /// The player whose turn it is; only a game in progress has one.
    pub fn current_player(&self) -> (r: Player)
        requires
            *self is InProgress,
        ensures
            *self == GameState::InProgress(r),
    {
        match self {
            GameState::InProgress(player) => *player,
            _ => Player::X,
        }
    }
}

/// The grid, read row by row: cell `i` stands in column `i % 3` of row `i / 3`.
pub type Board = [Tile; BOARD_LENGTH];

/// Whether the three cells `start`, `start + step` and `start + 2 * step`
/// of `b` all hold `t`.
pub open spec fn line_filled<T>(b: Seq<T>, start: int, step: int, t: T) -> bool {
    &&& b[start] == t
    &&& b[start + step] == t
    &&& b[start + 2 * step] == t
}

/// Whether one of the lines through cell `i` is filled with `t`: its row, its
/// column, and the diagonals that pass through it.
pub open spec fn completes_line<T>(b: Seq<T>, i: int, t: T) -> bool {
    let x = i % 3;
    let y = i / 3;
    ||| line_filled(b, y * 3, 1, t)
    ||| line_filled(b, x, 3, t)
    ||| (x == y && line_filled(b, 0, 4, t))
    ||| (x + y == 2 && line_filled(b, 2, 2, t))
}

/// A game as values: its state, its grid and how many moves were played.
pub struct GameView {
    pub state: GameState,
    pub board: Seq<Tile>,
    pub moves: nat,
}

/// Why a move was refused.
#[derive(Copy, Clone, PartialEq, Eq, Structural, Debug)]
pub enum MoveError {
    TileTaken,
    WrongTurn,
    InvalidIndex,
    GameFinished,
}

impl GameView {
    /// The game before any move.
    pub open spec fn initial() -> GameView {
        GameView {
            state: GameState::InProgress(Player::X),
            board: Seq::new(9, |i: int| Tile::Empty),
            moves: 0,
        }
    }

    /// What a game can be: nine cells, at most nine moves, and a game in
    /// progress has a cell left to play.
    pub open spec fn wf(self) -> bool {
        &&& self.board.len() == 9
        &&& self.moves <= 9
        &&& self.state is InProgress ==> self.moves < 9
    }

    /// The state after `p` marked cell `i` as the move numbered `moves`
    /// (counted from one) on the grid `b`.
    pub open spec fn outcome(b: Seq<Tile>, i: int, p: Player, moves: nat) -> GameState {
        if completes_line(b, i, Tile::Marked(p)) {
            GameState::Won(p)
        } else if moves == 9 {
            GameState::Tied
        } else {
            GameState::InProgress(p.spec_next())
        }
    }

    /// What a move at cell `i`, by `player` where one is given, makes of the
    /// game: the checks in order, then the marked cell and the new state.
    pub open spec fn step(self, player: Option<Player>, i: int) -> Result<GameView, MoveError> {
        if i < 0 || i >= 9 {
            Err(MoveError::InvalidIndex)
        } else if !(self.state is InProgress) {
            Err(MoveError::GameFinished)
        } else {
            let p = self.state->InProgress_0;
            if player is Some && player->Some_0 != p {
                Err(MoveError::WrongTurn)
            } else if self.board[i] is Marked {
                Err(MoveError::TileTaken)
            } else {
                let board = self.board.update(i, Tile::Marked(p));
                Ok(
                    GameView {
                        state: GameView::outcome(board, i, p, self.moves + 1),
                        board,
                        moves: self.moves + 1,
                    },
                )
            }
        }
    }
}

/// A game: its state, its grid and the number of moves played.
#[derive(Copy, Clone, Debug)]
pub struct Game {
    state: GameState,
    board: Board,
    moves: u8,
}

impl View for Game {
    type V = GameView;

    closed spec fn view(&self) -> GameView {
        GameView { state: self.state, board: self.board@, moves: self.moves as nat }
    }
}

impl Game {
    #[verifier::type_invariant]
    spec fn inv(self) -> bool {
        self@.wf()
    }

    pub fn new() -> (r: Game)
        ensures
            r@ == GameView::initial(),
    {
        let r = Game {
            state: GameState::InProgress(Player::X),
            board: [Tile::Empty; BOARD_LENGTH],
            moves: 0,
        };
        assert(r@.board =~= GameView::initial().board);
        r
    }

    pub fn state(&self) -> (r: &GameState)
        ensures
            *r == self@.state,
    {
        &self.state
    }

    pub fn board(&self) -> (r: &Board)
        ensures
            r@ == self@.board,
    {
        &self.board
    }

    pub fn moves_played(&self) -> (r: u8)
        ensures
            r == self@.moves,
    {
        self.moves
    }

    /// Plays cell `board_index` for the player whose turn it is; where `player`
    /// is given it must be that player. The game itself is left as it was.
    pub fn make_move(&self, player: Option<Player>, board_index: usize) -> (r: Result<Game, MoveError>)
        ensures
            r is Ok <==> self@.step(player, board_index as int) is Ok,
            r matches Ok(g) ==> self@.step(player, board_index as int) == Ok::<GameView, MoveError>(g@),
            r matches Err(e) ==> self@.step(player, board_index as int) == Err::<GameView, MoveError>(e),
    {
        proof {
            use_type_invariant(self);
        }
        if board_index >= BOARD_LENGTH {
            return Err(MoveError::InvalidIndex);
        }
        if self.state.is_finished() {
            return Err(MoveError::GameFinished);
        }
        let player = match player {
            Some(received) => {
                let expected = self.state.current_player();
                if received != expected {
                    return Err(MoveError::WrongTurn);
                }
                received
            },
            None => self.state.current_player(),
        };
        if self.board[board_index].is_marked() {
            return Err(MoveError::TileTaken);
        }
        let marked_tile = Tile::Marked(player);
        let (board, state) = self.calculate_new_state(board_index, marked_tile);
        Ok(Game { board, moves: self.moves + 1, state })
    }

    /// Whether the cells `start`, `start + step` and `start + 2 * step` all
    /// hold `tile`.
    fn line_filled(board: &Board, start: usize, step: usize, tile: Tile) -> (r: bool)
        requires
            start + 2 * step < 9,
        ensures
            r == line_filled(board@, start as int, step as int, tile),
    {
        board[start] == tile && board[start + step] == tile && board[start + 2 * step] == tile
    }

    /// The grid with `tile` put in cell `board_index`, and the state that
    /// follows from it.
    fn calculate_new_state(&self, board_index: usize, tile: Tile) -> (r: (Board, GameState))
        requires
            board_index < 9,
            self@.state is InProgress,
            tile == Tile::Marked(self@.state->InProgress_0),
            self@.moves < 9,
        ensures
            r.0@ == self@.board.update(board_index as int, tile),
            r.1 == GameView::outcome(r.0@, board_index as int, self@.state->InProgress_0, self@.moves + 1),
    {
        let (x, y) = (board_index % BOARD_SIZE, board_index / BOARD_SIZE);
        let mut won = false;
        let mut board = self.board;
        board[board_index] = tile;
        let s = BOARD_SIZE;
        // primary diagonal
        if x == y {
            won = won || Game::line_filled(&board, 0, s + 1, tile);
        }
        // secondary diagonal
        if x + y == s - 1 {
            won = won || Game::line_filled(&board, s - 1, s - 1, tile);
        }
        // row and column
        won = won || Game::line_filled(&board, y * s, 1, tile) || Game::line_filled(&board, x, s, tile);
        let player = self.state.current_player();
        if won {
            return (board, GameState::Won(player));
        }
        if self.moves as usize + 1 == BOARD_LENGTH {
            return (board, GameState::Tied);
        }
        (board, GameState::InProgress(player.next()))
    }
}

/// The player whose turn it is after `moves` moves.
pub open spec fn player_for_count(moves: nat) -> Player {
    if moves % 2 == 0 {
        Player::X
    } else {
        Player::O
    }
}

impl GameView {
    /// While the game goes on, the count of moves fixes whose turn it is.
    pub open spec fn turn_follows_count(self) -> bool {
        self.state is InProgress ==> self.state->InProgress_0 == player_for_count(self.moves)
    }
}

/// Every cell of a new game can be played, and once played it cannot be
/// played again: a second move there is refused, and with no player given
/// it is refused as a taken tile.
pub proof fn lemma_each_cell_once(i: int, p: Option<Player>)
    requires
        0 <= i < 9,
    ensures
        GameView::initial().step(None, i) is Ok,
        GameView::initial().step(None, i)->Ok_0.step(p, i) is Err,
        GameView::initial().step(None, i)->Ok_0.step(None, i) == Err::<GameView, MoveError>(
            MoveError::TileTaken,
        ),
{
    let g = GameView::initial();
    let h = g.step(None, i)->Ok_0;
    assert(!completes_line(h.board, i, Tile::Marked(Player::X)));
}

/// A cell index outside the grid is refused as invalid, whatever the game.
pub proof fn lemma_index_out_of_range(g: GameView, p: Option<Player>, i: int)
    requires
        i >= 9,
    ensures
        g.step(p, i) == Err::<GameView, MoveError>(MoveError::InvalidIndex),
{
}

/// An accepted move adds one to the count and turns exactly one cell, the
/// one played, from empty to marked; the result is again a well formed game.
pub proof fn lemma_accepted_move(g: GameView, p: Option<Player>, i: int)
    requires
        g.wf(),
        g.step(p, i) is Ok,
    ensures
        g.step(p, i)->Ok_0.wf(),
        g.step(p, i)->Ok_0.moves == g.moves + 1,
        g.board[i] == Tile::Empty,
        g.step(p, i)->Ok_0.board[i] is Marked,
        g.step(p, i)->Ok_0.board.len() == g.board.len(),
        forall|j: int|
            0 <= j < 9 && j != i ==> #[trigger] g.step(p, i)->Ok_0.board[j] == g.board[j],
{
}

/// Turns alternate: a move is marked for the player whose turn it was, and
/// where the game goes on the turn passes to the other player.
pub proof fn lemma_turn_passes(g: GameView, p: Option<Player>, i: int)
    requires
        g.wf(),
        g.step(p, i) is Ok,
    ensures
        g.step(p, i)->Ok_0.board[i] == Tile::Marked(g.state->InProgress_0),
        g.step(p, i)->Ok_0.state is InProgress ==> g.step(p, i)->Ok_0.state
            == GameState::InProgress(g.state->InProgress_0.spec_next()),
{
}

/// Starting from a new game, whose turn it is always follows from the count
/// of moves: `X` after an even count, `O` after an odd one.
pub proof fn lemma_turn_follows_count(g: GameView, p: Option<Player>, i: int)
    requires
        g.wf(),
        g.turn_follows_count(),
        g.step(p, i) is Ok,
    ensures
        GameView::initial().turn_follows_count(),
        g.step(p, i)->Ok_0.turn_follows_count(),
{
}

/// A finished game refuses every move on the grid as finished.
pub proof fn lemma_finished_refuses(g: GameView, p: Option<Player>, i: int)
    requires
        !(g.state is InProgress),
        0 <= i < 9,
    ensures
        g.step(p, i) == Err::<GameView, MoveError>(MoveError::GameFinished),
{
}

/// A player given for a move that is not the one whose turn it is makes the
/// move refused as the wrong turn.
pub proof fn lemma_wrong_turn(g: GameView, q: Player, i: int)
    requires
        g.state is InProgress,
        g.state->InProgress_0 != q,
        0 <= i < 9,
    ensures
        g.step(Some(q), i) == Err::<GameView, MoveError>(MoveError::WrongTurn),
{
}

} // verus!
