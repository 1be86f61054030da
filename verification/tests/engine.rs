use tictactoe::game::{Game, MoveError, Player, Winner, WINNING_COMBOS};

fn play(moves: &[usize]) -> Game {
    let mut game = Game::new();
    for index in moves.iter() {
        assert!(game.take_turn(*index).is_ok());
    }
    game
}

#[test]
fn test_game() {
    let mut game = Game::new();
    assert_eq!(game.has_ended(), false);
    assert_eq!(game.get_winner(), None);

    assert!(game.take_turn(0).is_ok());
    assert_eq!(game.take_turn(0).unwrap_err(), MoveError::IndexTakenError);
    assert_eq!(game.take_turn(10).unwrap_err(), MoveError::OutOfBoundsError);
    let turns = [1, 2, 3, 4, 5, 6];
    for turn in turns.iter() {
        assert!(game.take_turn(*turn).is_ok());
    }

    // player 1 has won at this time
    assert_eq!(game.take_turn(7).unwrap_err(), MoveError::GameEndedError);
    assert_eq!(game.get_winner().unwrap(), Winner::Player(Player::Player1));
}

#[test]
fn test_tied_game() {
    let mut game = Game::new();
    let turns = [0, 3, 1, 2, 4, 7, 5, 8, 6];
    for turn in turns.iter() {
        assert!(game.take_turn(*turn).is_ok());
    }
    assert_eq!(game.get_winner().unwrap(), Winner::Tie);
}

#[test]
fn new_game_is_empty_and_open() {
    let game = Game::new();
    assert_eq!(game.get_turn(), Player::Player1);
    assert_eq!(game.get_available_spaces(), vec![0, 1, 2, 3, 4, 5, 6, 7, 8]);
    assert_eq!(game.get_winning_combo(), None);
    assert_eq!(game.get_winner(), None);
    assert!(!game.no_more_moves());
    assert!(!game.has_ended());
}

#[test]
fn taken_cell_then_index_off_the_board() {
    let mut game = Game::new();
    assert_eq!(game.take_turn(0), Ok(()));
    assert_eq!(game.take_turn(0), Err(MoveError::IndexTakenError));
    assert_eq!(game.take_turn(9), Err(MoveError::OutOfBoundsError));
}

#[test]
fn top_row_wins_for_player_one() {
    let game = play(&[0, 3, 1, 4, 2]);
    assert_eq!(game.get_winner(), Some(Winner::Player(Player::Player1)));
    assert_eq!(game.get_winning_combo(), Some([0, 1, 2]));
    assert!(game.has_ended());
    assert!(!game.no_more_moves());
}

#[test]
fn full_board_without_a_line_is_a_tie() {
    let game = play(&[0, 3, 1, 2, 4, 7, 5, 8, 6]);
    assert_eq!(game.get_winner(), Some(Winner::Tie));
    assert_eq!(game.get_winning_combo(), None);
    assert!(game.has_ended());
    assert!(game.no_more_moves());
    assert_eq!(game.get_available_spaces(), Vec::<usize>::new());
}

#[test]
fn won_game_rejects_every_move() {
    let mut game = play(&[0, 3, 1, 4, 2]);
    let before = game.board_to_string();
    let indices = [0, 5, 8, 9, 10, 1000, usize::MAX];
    for index in indices.iter() {
        assert_eq!(game.take_turn(*index), Err(MoveError::GameEndedError));
    }
    assert_eq!(game.board_to_string(), before);
    assert_eq!(game.get_turn(), Player::Player2);
    assert_eq!(game.get_winner(), Some(Winner::Player(Player::Player1)));
}

#[test]
fn tied_game_rejects_every_move() {
    let mut game = play(&[0, 3, 1, 2, 4, 7, 5, 8, 6]);
    assert_eq!(game.take_turn(4), Err(MoveError::GameEndedError));
    assert_eq!(game.take_turn(9), Err(MoveError::GameEndedError));
    assert_eq!(game.get_winner(), Some(Winner::Tie));
}

#[test]
fn rejected_move_changes_nothing() {
    let mut game = play(&[4, 0]);
    let board = game.board_to_string();
    let spaces = game.get_available_spaces();
    assert_eq!(game.take_turn(4), Err(MoveError::IndexTakenError));
    assert_eq!(game.take_turn(0), Err(MoveError::IndexTakenError));
    assert_eq!(game.take_turn(9), Err(MoveError::OutOfBoundsError));
    assert_eq!(game.take_turn(usize::MAX), Err(MoveError::OutOfBoundsError));
    assert_eq!(game.board_to_string(), board);
    assert_eq!(game.get_available_spaces(), spaces);
    assert_eq!(game.get_turn(), Player::Player1);
}

#[test]
fn turn_follows_the_number_of_accepted_moves() {
    let mut game = Game::new();
    let moves = [4, 4, 0, 9, 8, 0, 1];
    let mut accepted = 0;
    for index in moves.iter() {
        if game.take_turn(*index).is_ok() {
            accepted += 1;
        }
        let expected = if accepted % 2 == 0 {
            Player::Player1
        } else {
            Player::Player2
        };
        assert_eq!(game.get_turn(), expected);
        assert_eq!(game.get_available_spaces().len(), 9 - accepted);
    }
    assert_eq!(accepted, 4);
}

#[test]
fn taken_cell_is_rejected_on_either_turn() {
    let mut game = Game::new();
    assert_eq!(game.take_turn(4), Ok(()));
    assert_eq!(game.get_turn(), Player::Player2);
    assert_eq!(game.take_turn(4), Err(MoveError::IndexTakenError));
    assert_eq!(game.take_turn(0), Ok(()));
    assert_eq!(game.get_turn(), Player::Player1);
    assert_eq!(game.take_turn(4), Err(MoveError::IndexTakenError));
    assert_eq!(game.take_turn(0), Err(MoveError::IndexTakenError));
}

#[test]
fn ended_stays_ended() {
    let mut game = play(&[2, 0, 4, 1, 6]);
    assert!(game.has_ended());
    for index in 0..12 {
        assert!(game.take_turn(index).is_err());
        assert!(game.has_ended());
        assert_eq!(game.get_winner(), Some(Winner::Player(Player::Player1)));
    }
}

#[test]
fn available_spaces_are_ascending_and_empty() {
    let game = play(&[8, 0, 4]);
    assert_eq!(game.get_available_spaces(), vec![1, 2, 3, 5, 6, 7]);
}

#[test]
fn each_line_of_the_table_wins() {
    for line in WINNING_COMBOS.iter() {
        // Player1 takes the line; Player2 answers on cells off it that
        // never make a line of their own.
        let others: Vec<usize> = (0..9).filter(|cell| !line.contains(cell)).collect();
        let replies = if others[0] + 1 == others[1] && others[1] + 1 == others[2] {
            [others[0], others[3]]
        } else if others[1] - others[0] == 3 && others[2] - others[1] == 3 {
            [others[0], others[1]]
        } else {
            [others[0], others[1]]
        };
        let game = play(&[line[0], replies[0], line[1], replies[1], line[2]]);
        assert_eq!(game.get_winning_combo(), Some(*line));
        assert_eq!(game.get_winner(), Some(Winner::Player(Player::Player1)));
    }
}

#[test]
fn player_two_can_win() {
    let game = play(&[0, 2, 1, 4, 8, 6]);
    assert_eq!(game.get_winner(), Some(Winner::Player(Player::Player2)));
    assert_eq!(game.get_winning_combo(), Some([2, 4, 6]));
    assert_eq!(game.get_turn(), Player::Player1);
}

#[test]
fn last_move_can_win_on_a_full_board() {
    let game = play(&[0, 1, 2, 4, 3, 5, 7, 6, 8]);
    assert!(game.no_more_moves());
    assert_eq!(game.get_winner(), Some(Winner::Tie));
    let game = play(&[0, 1, 2, 3, 4, 5, 7, 6, 8]);
    assert!(game.no_more_moves());
    assert_eq!(game.get_winner(), Some(Winner::Player(Player::Player1)));
    assert_eq!(game.get_winning_combo(), Some([0, 4, 8]));
}

#[test]
fn first_line_in_table_order_is_reported() {
    // Player1 completes the middle row and the middle column with one move.
    let game = play(&[3, 0, 5, 2, 1, 6, 7, 8, 4]);
    assert_eq!(game.get_winner(), Some(Winner::Player(Player::Player1)));
    assert_eq!(game.get_winning_combo(), Some([3, 4, 5]));
}

#[test]
fn table_lists_rows_columns_diagonals() {
    assert_eq!(
        WINNING_COMBOS,
        [
            [0, 1, 2],
            [3, 4, 5],
            [6, 7, 8],
            [0, 3, 6],
            [1, 4, 7],
            [2, 5, 8],
            [0, 4, 8],
            [2, 4, 6]
        ]
    );
}

#[test]
fn board_shows_the_marks_in_row_major_order() {
    assert_eq!(Game::new().board(), [None; 9]);
    let game = play(&[0, 4, 8]);
    let first = Some(Player::Player1);
    let second = Some(Player::Player2);
    assert_eq!(
        game.board(),
        [first, None, None, None, second, None, None, None, first]
    );
    let tied = play(&[0, 3, 1, 2, 4, 7, 5, 8, 6]);
    assert!(tied.board().iter().all(|cell| cell.is_some()));
    assert_eq!(tied.board().iter().filter(|cell| cell.is_none()).count(), 0);
}
