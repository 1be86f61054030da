//! The game engine: the board, whose turn it is, and how a move changes both.

pub mod laws;
pub mod paint;
pub mod position;
pub mod render;

use self::laws::{lemma_first_win_unique, lemma_fresh, lemma_place_wf, lemma_winning_line};
use self::position::Position;
use vstd::prelude::*;

verus! {

/// Why a move was rejected.
#[derive(Debug, PartialEq, Eq, Structural)]
pub enum MoveError {
    /// The game is over: it has been won or tied.
    GameEndedError,
    /// The index is not one of the nine cells.
    OutOfBoundsError,
    /// The cell already holds a mark.
    IndexTakenError,
}

/// One of the two players. `Player1` moves first.
#[derive(Debug, PartialEq, Eq, Copy, Clone, Structural)]
pub enum Player {
    Player1,
    Player2,
}

/// How a finished game ended.
#[derive(Debug, PartialEq, Eq, Structural)]
pub enum Winner {
    /// This player holds a line of three.
    Player(Player),
    /// The board is full and nobody holds a line.
    Tie,
}

/// The eight lines of three cells that win the game, in the order in which
/// they are scanned: the rows, the columns, the two diagonals.
pub const WINNING_COMBOS: [[usize; 3]; 8] = [
    [0, 1, 2],
    [3, 4, 5],
    [6, 7, 8],
    [0, 3, 6],
    [1, 4, 7],
    [2, 5, 8],
    [0, 4, 8],
    [2, 4, 6],
];

/// A game of tic-tac-toe. It starts empty with `Player1` to move and changes
/// only through [`Game::take_turn`].
pub struct Game {
    turn: Player,
    board: [Option<Player>; 9],
}

impl View for Game {
    type V = Position;

    closed spec fn view(&self) -> Position {
        Position { turn: self.turn, cells: self.board@ }
    }
}

impl Game {
    /// Every game is in a position that play can reach. This holds of each
    /// value of the type: `new` establishes it and `take_turn` keeps it.
    #[verifier::type_invariant]
    pub open spec fn wf(self) -> bool {
        self@.wf()
    }

    /// A new game: every cell empty, `Player1` to move.
    pub fn new() -> (game: Game)
        ensures
            game@ == Position::fresh(),
            game@.wf(),
    {
        let board: [Option<Player>; 9] = [None;9];
        proof {
            lemma_fresh();
            assert(board@ =~= Position::fresh().cells);
        }
        Game { turn: Player::Player1, board }
    }

    /// The player whose move is accepted next.
    pub fn get_turn(&self) -> (turn: Player)
        ensures
            turn == self@.turn,
    {
        self.turn
    }

    /// The nine cells of the board in row-major order, as they stand now.
    pub fn board(&self) -> (cells: [Option<Player>; 9])
        ensures
            cells@ == self@.cells,
    {
        self.board
    }

    /// The empty cells, in ascending order.
    pub fn get_available_spaces(&self) -> (spaces: Vec<usize>)
        ensures
            spaces@ == self@.open_cells(),
    {
        let mut open_spaces: Vec<usize> = Vec::new();
        let ghost all = Seq::new(9, |i: int| i as usize);
        let ghost empty = |i: usize| self@.cells[i as int] is None;
        let mut i: usize = 0;
        while i < 9
            invariant
                i <= 9,
                all == Seq::new(9, |i: int| i as usize),
                empty == |i: usize| self@.cells[i as int] is None,
                open_spaces@ == all.take(i as int).filter(empty),
            decreases 9 - i,
        {
            proof {
                reveal(Seq::filter);
                assert(all.take(i + 1).drop_last() =~= all.take(i as int));
            }
            if self.board[i].is_none() {
                open_spaces.push(i);
            }
            i += 1;
        }
        proof {
            assert(all.take(9) =~= all);
        }
        open_spaces
    }

    /// Whether the game is over: won or tied.
    pub fn has_ended(&self) -> (ended: bool)
        ensures
            ended == self@.ended(),
    {
        self.get_winner().is_some() || self.no_more_moves()
    }

    /// Whether every cell is marked.
    pub fn no_more_moves(&self) -> (full: bool)
        ensures
            full == self@.full(),
    {
        let mut i: usize = 0;
        while i < 9
            invariant
                i <= 9,
                forall|j: int| 0 <= j < i ==> (#[trigger] self@.cells[j]) is Some,
            decreases 9 - i,
        {
            if self.board[i].is_none() {
                return false;
            }
            i += 1;
        }
        true
    }

    /// The player who holds all three cells of line `k` of the table, if one
    /// player does.
    fn line_owner(&self, k: usize) -> (owner: Option<Player>)
        requires
            k < 8,
        ensures
            owner == self@.owner(k as int),
    {
        let combo = WINNING_COMBOS[k];
        match self.board[combo[0]] {
            Some(player) => {
                let second = match self.board[combo[1]] {
                    Some(other) => other == player,
                    None => false,
                };
                let third = match self.board[combo[2]] {
                    Some(other) => other == player,
                    None => false,
                };
                if second && third {
                    Some(player)
                } else {
                    None
                }
            },
            None => None,
        }
    }

    /// The first line of the table that one player holds, with that player.
    fn first_held_line(&self) -> (found: Option<(usize, Player)>)
        ensures
            match found {
                Some((k, player)) => self@.winning_line() == Some(k as int) && self@.owner(
                    k as int,
                ) == Some(player),
                None => self@.winning_line() is None,
            },
    {
        let mut k: usize = 0;
        while k < 8
            invariant
                k <= 8,
                forall|j: int| 0 <= j < k ==> self@.owner(j) is None,
            decreases 8 - k,
        {
            if let Some(player) = self.line_owner(k) {
                proof {
                    assert(self@.first_win(k as int));
                    lemma_winning_line(self@);
                    lemma_first_win_unique(self@, k as int, self@.winning_line().unwrap());
                }
                return Some((k, player));
            }
            k += 1;
        }
        proof {
            lemma_winning_line(self@);
        }
        None
    }

    /// The three cells of the winning line: the first line of the table, in
    /// table order, whose cells all hold the same player's mark.
    pub fn get_winning_combo(&self) -> (combo: Option<[usize; 3]>)
        ensures
            match combo {
                Some(line) => self@.winning_line() is Some && line
                    == WINNING_COMBOS[self@.winning_line().unwrap()],
                None => self@.winning_line() is None,
            },
    {
        match self.first_held_line() {
            Some((k, _)) => Some(WINNING_COMBOS[k]),
            None => None,
        }
    }

    /// How the game stands: won by the player who holds the winning line,
    /// tied when the board is full and nobody holds a line, `None` while the
    /// game is open.
    pub fn get_winner(&self) -> (winner: Option<Winner>)
        ensures
            winner == self@.outcome(),
    {
        match self.first_held_line() {
            Some((_, player)) => Some(Winner::Player(player)),
            None => {
                if self.no_more_moves() {
                    Some(Winner::Tie)
                } else {
                    None
                }
            },
        }
    }

    /// Submits a move of the player to move at cell `index`.
    ///
    /// A game that is over rejects every move, whatever the index. Otherwise
    /// an index off the board is rejected, then a cell that is already
    /// marked. A rejected move changes nothing. An accepted move marks the
    /// cell for the player to move and passes the turn to the other player.
    pub fn take_turn(&mut self, index: usize) -> (result: Result<(), MoveError>)
        ensures
            old(self)@.ended() ==> result == Err::<(), MoveError>(MoveError::GameEndedError),
            !old(self)@.ended() && index >= 9 ==> result == Err::<(), MoveError>(
                MoveError::OutOfBoundsError,
            ),
            !old(self)@.ended() && index < 9 && old(self)@.cells[index as int] is Some ==> result
                == Err::<(), MoveError>(MoveError::IndexTakenError),
            !old(self)@.ended() && index < 9 && old(self)@.cells[index as int] is None ==> result
                == Ok::<(), MoveError>(()),
            result is Ok ==> final(self)@ == old(self)@.place(index as int),
            result is Err ==> final(self)@ == old(self)@,
            result == old(self)@.verdict(index as int),
            final(self)@ == old(self)@.after_move(index as int),
            final(self)@.wf(),
    {
        proof {
            use_type_invariant(&*self);
        }
        if self.has_ended() {
            return Err(MoveError::GameEndedError);
        }
        if index > self.board.len() - 1 {
            return Err(MoveError::OutOfBoundsError);
        }
        if self.board[index].is_some() {
            return Err(MoveError::IndexTakenError);
        }
        let mut board = self.board;
        board[index] = Some(self.turn);
        let next = match self.turn {
            Player::Player1 => Player::Player2,
            Player::Player2 => Player::Player1,
        };
        proof {
            lemma_place_wf(self@, index as int);
            assert(board@ =~= self@.cells.update(index as int, Some(self.turn)));
        }
        *self = Game { turn: next, board };
        Ok(())
    }
}

} // verus!
