use tictactoe::logic::{Game, GameState, MoveError, Player, Tile, BOARD_LENGTH};

fn play(indices: &[usize]) -> Game {
    let mut game = Game::new();
    for &i in indices {
        game = game.make_move(None, i).expect("move refused");
    }
    game
}

#[test]
fn new_game_is_empty() {
    let game = Game::new();
    assert_eq!(*game.state(), GameState::InProgress(Player::X));
    assert_eq!(game.moves_played(), 0);
    assert!(game.board().iter().all(|t| *t == Tile::Empty));
}

#[test]
fn each_cell_can_be_played_once() {
    for i in 0..BOARD_LENGTH {
        let game = Game::new();
        let after = game.make_move(None, i).unwrap();
        assert_eq!(after.board()[i], Tile::Marked(Player::X));
        assert_eq!(after.make_move(None, i).unwrap_err(), MoveError::TileTaken);
        assert_eq!(after.make_move(Some(Player::O), i).unwrap_err(), MoveError::TileTaken);
    }
}

#[test]
fn index_out_of_range_is_invalid() {
    let game = Game::new();
    assert_eq!(game.make_move(None, 9).unwrap_err(), MoveError::InvalidIndex);
    assert_eq!(game.make_move(Some(Player::X), 100).unwrap_err(), MoveError::InvalidIndex);
    let won = play(&[0, 3, 1, 4, 2]);
    assert_eq!(won.make_move(None, usize::MAX).unwrap_err(), MoveError::InvalidIndex);
}

#[test]
fn accepted_move_changes_one_cell() {
    let before = play(&[4, 0]);
    let after = before.make_move(None, 8).unwrap();
    assert_eq!(after.moves_played(), before.moves_played() + 1);
    let changed: Vec<usize> = (0..BOARD_LENGTH)
        .filter(|&j| before.board()[j] != after.board()[j])
        .collect();
    assert_eq!(changed, vec![8]);
    assert_eq!(before.board()[8], Tile::Empty);
    assert_eq!(after.board()[8], Tile::Marked(Player::X));
}

#[test]
fn turns_alternate() {
    let mut game = Game::new();
    let mut expected = Player::X;
    for &i in &[4usize, 0, 8, 2, 1, 7] {
        assert_eq!(*game.state(), GameState::InProgress(expected));
        game = game.make_move(Some(expected), i).unwrap();
        assert_eq!(game.board()[i], Tile::Marked(expected));
        expected = expected.next();
    }
    assert_eq!(*game.state(), GameState::InProgress(Player::X));
}

#[test]
fn top_row_wins() {
    let before = play(&[0, 3, 1, 4]);
    assert_eq!(*before.state(), GameState::InProgress(Player::X));
    let game = before.make_move(None, 2).unwrap();
    assert_eq!(*game.state(), GameState::Won(Player::X));
    assert_eq!(game.moves_played(), 5);
}

#[test]
fn main_diagonal_wins() {
    let before = play(&[0, 1, 4, 2]);
    assert_eq!(*before.state(), GameState::InProgress(Player::X));
    let game = before.make_move(None, 8).unwrap();
    assert_eq!(*game.state(), GameState::Won(Player::X));
}

#[test]
fn anti_diagonal_wins() {
    let game = play(&[2, 0, 4, 1, 6]);
    assert_eq!(*game.state(), GameState::Won(Player::X));
}

#[test]
fn column_wins_for_second_player() {
    let game = play(&[0, 1, 3, 4, 8, 7]);
    assert_eq!(*game.state(), GameState::Won(Player::O));
}

#[test]
fn edge_cell_checks_only_row_and_column() {
    // X holds 2, 4 and 5; the edge cell 5 lies on no diagonal.
    let game = play(&[2, 0, 4, 1, 5]);
    assert_eq!(*game.state(), GameState::InProgress(Player::O));
    // The centre completes the anti-diagonal 2, 4, 6.
    let game = play(&[2, 0, 6, 1, 3, 8, 4]);
    assert_eq!(*game.state(), GameState::Won(Player::X));
}

#[test]
fn win_on_the_ninth_move_is_a_win() {
    let game = play(&[0, 1, 2, 4, 3, 5, 7, 8, 6]);
    assert_eq!(*game.state(), GameState::Won(Player::X));
    assert_eq!(game.moves_played(), 9);
}

#[test]
fn full_grid_without_line_is_tied() {
    let indices = [0usize, 1, 2, 4, 3, 5, 7, 6, 8];
    let mut game = Game::new();
    for (n, &i) in indices.iter().enumerate() {
        game = game.make_move(None, i).unwrap();
        if n < 8 {
            assert!(matches!(game.state(), GameState::InProgress(_)));
        }
    }
    assert_eq!(*game.state(), GameState::Tied);
    assert_eq!(game.moves_played(), 9);
    assert!(game.board().iter().all(|t| t.is_marked()));
}

#[test]
fn finished_game_refuses_moves() {
    let won = play(&[0, 3, 1, 4, 2]);
    for i in 0..BOARD_LENGTH {
        assert_eq!(won.make_move(None, i).unwrap_err(), MoveError::GameFinished);
        assert_eq!(won.make_move(Some(Player::O), i).unwrap_err(), MoveError::GameFinished);
    }
    assert_eq!(*won.state(), GameState::Won(Player::X));
    let tied = play(&[0, 1, 2, 4, 3, 5, 7, 6, 8]);
    let board = *tied.board();
    assert_eq!(tied.make_move(None, 0).unwrap_err(), MoveError::GameFinished);
    assert_eq!(*tied.board(), board);
}

#[test]
fn wrong_player_is_refused() {
    let game = Game::new();
    assert_eq!(game.make_move(Some(Player::O), 0).unwrap_err(), MoveError::WrongTurn);
    assert_eq!(*game.state(), GameState::InProgress(Player::X));
    assert_eq!(game.moves_played(), 0);
    assert_eq!(game.board()[0], Tile::Empty);
    let game = play(&[4]);
    assert_eq!(game.make_move(Some(Player::X), 0).unwrap_err(), MoveError::WrongTurn);
}

#[test]
fn refusals_come_in_order() {
    let game = play(&[4]);
    // taken cell and wrong player: the player is checked first
    assert_eq!(game.make_move(Some(Player::X), 4).unwrap_err(), MoveError::WrongTurn);
    // out of range on a finished game: the index is checked first
    let won = play(&[0, 3, 1, 4, 2]);
    assert_eq!(won.make_move(Some(Player::O), 9).unwrap_err(), MoveError::InvalidIndex);
}

#[test]
fn refused_move_changes_nothing() {
    let game = play(&[4, 0]);
    let board = *game.board();
    for (player, i) in [(None, 4usize), (Some(Player::O), 1), (None, 12)] {
        assert!(game.make_move(player, i).is_err());
        assert_eq!(*game.board(), board);
        assert_eq!(game.moves_played(), 2);
        assert_eq!(*game.state(), GameState::InProgress(Player::X));
    }
}

#[test]
fn player_and_state_helpers() {
    assert_eq!(Player::X.next(), Player::O);
    assert_eq!(Player::O.next(), Player::X);
    assert!(!Tile::Empty.is_marked());
    assert!(Tile::Marked(Player::O).is_marked());
    assert!(!GameState::InProgress(Player::O).is_finished());
    assert!(GameState::Won(Player::O).is_finished());
    assert!(GameState::Tied.is_finished());
    assert_eq!(GameState::InProgress(Player::O).current_player(), Player::O);
}
