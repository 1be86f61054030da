//! The mathematical model of a game: a position is whose turn it is together
//! with the nine cells of the board. Everything the engine promises is stated
//! over positions.

use super::{MoveError, Player, Winner, WINNING_COMBOS};
use vstd::prelude::*;

verus! {

impl Player {
    /// The player who moves after `self`.
    pub open spec fn opponent(self) -> Player {
        match self {
            Player::Player1 => Player::Player2,
            Player::Player2 => Player::Player1,
        }
    }
}

/// A position of the game. `cells` lists the board in row-major order
/// (index = row * 3 + column); a cell holds the player who marked it, or
/// nothing.
pub struct Position {
    pub turn: Player,
    pub cells: Seq<Option<Player>>,
}

impl Position {
    /// The position every game starts from: an empty board, `Player1` to move.
    pub open spec fn fresh() -> Position {
        Position { turn: Player::Player1, cells: Seq::new(9, |i: int| None) }
    }

    /// The player who holds all three cells of line `k` of the table, if one
    /// player does.
    pub open spec fn owner(self, k: int) -> Option<Player> {
        let line = WINNING_COMBOS[k];
        let first = self.cells[line[0] as int];
        if first is Some && self.cells[line[1] as int] == first && self.cells[line[2] as int]
            == first {
            first
        } else {
            None
        }
    }

    /// Line `k` is held by one player and no line before it in the table is.
    pub open spec fn first_win(self, k: int) -> bool {
        &&& 0 <= k < 8
        &&& self.owner(k) is Some
        &&& forall|j: int| 0 <= j < k ==> self.owner(j) is None
    }

    /// The first line of the table, in table order, that one player holds.
    pub open spec fn winning_line(self) -> Option<int> {
        if exists|k: int| self.first_win(k) {
            Some(choose|k: int| self.first_win(k))
        } else {
            None
        }
    }

    /// Every cell is marked.
    pub open spec fn full(self) -> bool {
        forall|i: int| 0 <= i < 9 ==> (#[trigger] self.cells[i]) is Some
    }

    /// How the game stands: won by the holder of the winning line, tied when
    /// the board is full without one, and otherwise still open.
    pub open spec fn outcome(self) -> Option<Winner> {
        match self.winning_line() {
            Some(k) => Some(Winner::Player(self.owner(k).unwrap())),
            None => if self.full() {
                Some(Winner::Tie)
            } else {
                None
            },
        }
    }

    /// The game is over: it has been won or tied.
    pub open spec fn ended(self) -> bool {
        self.outcome() is Some
    }

    /// The answer to a move at `index`. The checks come in this order: a game
    /// that is over takes no move, whatever the index; then the index has to
    /// be on the board; then the cell has to be empty.
    pub open spec fn verdict(self, index: int) -> Result<(), MoveError> {
        if self.ended() {
            Err(MoveError::GameEndedError)
        } else if !(0 <= index < 9) {
            Err(MoveError::OutOfBoundsError)
        } else if self.cells[index] is Some {
            Err(MoveError::IndexTakenError)
        } else {
            Ok(())
        }
    }

    /// The position after the player to move marks cell `index`.
    pub open spec fn place(self, index: int) -> Position {
        Position { turn: self.turn.opponent(), cells: self.cells.update(index, Some(self.turn)) }
    }

    /// The position after a move at `index` is submitted: the mark is placed
    /// when the move is accepted, and nothing changes when it is rejected.
    pub open spec fn after_move(self, index: int) -> Position {
        if self.verdict(index) is Ok {
            self.place(index)
        } else {
            self
        }
    }

    /// The position after the moves of `moves` are submitted one by one.
    pub open spec fn after_moves(self, moves: Seq<int>) -> Position
        decreases moves.len(),
    {
        if moves.len() == 0 {
            self
        } else {
            self.after_moves(moves.drop_last()).after_move(moves.last())
        }
    }

    /// How many of the moves of `moves`, submitted one by one, are accepted.
    pub open spec fn accepted(self, moves: Seq<int>) -> nat
        decreases moves.len(),
    {
        if moves.len() == 0 {
            0
        } else {
            let before = self.after_moves(moves.drop_last());
            let last: nat = if before.verdict(moves.last()) is Ok {
                1
            } else {
                0
            };
            self.accepted(moves.drop_last()) + last
        }
    }

    /// The number of marked cells among the first `n`.
    pub open spec fn marks_below(self, n: int) -> nat
        decreases n,
    {
        if n <= 0 {
            0
        } else {
            let here: nat = if self.cells[n - 1] is Some {
                1
            } else {
                0
            };
            self.marks_below(n - 1) + here
        }
    }

    /// The number of marked cells.
    pub open spec fn marks(self) -> nat {
        self.marks_below(9)
    }

    /// The player to move when `n` marks are on the board: the players
    /// alternate and `Player1` begins.
    pub open spec fn mover(n: nat) -> Player {
        if n % 2 == 0 {
            Player::Player1
        } else {
            Player::Player2
        }
    }

    /// What holds of every position that play can reach: the board has nine
    /// cells, the turn fits the number of marks, and all lines that are held
    /// are held by the same player.
    pub open spec fn wf(self) -> bool {
        &&& self.cells.len() == 9
        &&& self.turn == Self::mover(self.marks())
        &&& forall|j: int, k: int|
            0 <= j < 8 && 0 <= k < 8 && self.owner(j) is Some && self.owner(k) is Some
                ==> self.owner(j) == self.owner(k)
    }

    /// The empty cells, in ascending order.
    pub open spec fn open_cells(self) -> Seq<usize> {
        Seq::new(9, |i: int| i as usize).filter(|i: usize| self.cells[i as int] is None)
    }
}

} // verus!
