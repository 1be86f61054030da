//! What holds of every game, proved over positions.

use super::position::Position;
use super::{MoveError, Winner};
use vstd::prelude::*;

verus! {

/// At most one line of the table is the first one that is held.
pub proof fn lemma_first_win_unique(p: Position, j: int, k: int)
    requires
        p.first_win(j),
        p.first_win(k),
    ensures
        j == k,
{
    if j < k {
        assert(p.owner(j) is None);
    } else if k < j {
        assert(p.owner(k) is None);
    }
}

/// Where some line is held, a first such line exists and lies no later in
/// the table.
pub proof fn lemma_first_win_exists(p: Position, k: int)
    requires
        0 <= k < 8,
        p.owner(k) is Some,
    ensures
        exists|j: int| 0 <= j <= k && p.first_win(j),
    decreases k,
{
    if forall|j: int| 0 <= j < k ==> p.owner(j) is None {
        assert(p.first_win(k));
    } else {
        let j = choose|j: int| 0 <= j < k && p.owner(j) is Some;
        lemma_first_win_exists(p, j);
    }
}

/// The winning line is the first line that is held; without one, no line is
/// held at all.
pub proof fn lemma_winning_line(p: Position)
    ensures
        match p.winning_line() {
            Some(k) => p.first_win(k),
            None => forall|k: int| 0 <= k < 8 ==> p.owner(k) is None,
        },
{
    if p.winning_line() is None {
        assert forall|k: int| 0 <= k < 8 implies p.owner(k) is None by {
            if p.owner(k) is Some {
                lemma_first_win_exists(p, k);
            }
        }
    }
}

/// A new game is in a position that play can reach, with no mark on the
/// board, and it is open.
pub proof fn lemma_fresh()
    ensures
        Position::fresh().wf(),
        Position::fresh().marks() == 0,
        Position::fresh().outcome() is None,
{
    let p = Position::fresh();
    reveal_with_fuel(Position::marks_below, 10);
    assert forall|k: int| 0 <= k < 8 implies p.owner(k) is None by {}
    assert(!p.full()) by {
        assert(p.cells[0] is None);
    }
}

/// A mark placed on an empty cell raises the number of marks by one.
pub proof fn lemma_place_adds_a_mark(p: Position, index: int)
    requires
        p.cells.len() == 9,
        0 <= index < 9,
        p.cells[index] is None,
    ensures
        p.place(index).marks() == p.marks() + 1,
{
    reveal_with_fuel(Position::marks_below, 10);
}

/// An accepted move leads from a position that play can reach to another.
pub proof fn lemma_place_wf(p: Position, index: int)
    requires
        p.wf(),
        p.verdict(index) is Ok,
    ensures
        p.place(index).wf(),
{
    let q = p.place(index);
    lemma_winning_line(p);
    lemma_place_adds_a_mark(p, index);
    assert forall|k: int| 0 <= k < 8 && q.owner(k) is Some implies q.owner(k) == Some(
        p.turn,
    ) by {
        assert(p.owner(k) is None);
    }
}

/// A rejected move changes nothing: neither the board nor the turn.
pub proof fn lemma_rejected_move_changes_nothing(p: Position, index: int)
    requires
        p.verdict(index) is Err,
    ensures
        p.after_move(index) == p,
{
}

/// An accepted move marks exactly the chosen cell, for the player who was to
/// move, and leaves every other cell as it was: a mark, once set, stays.
pub proof fn lemma_accepted_move_marks_one_cell(p: Position, index: int)
    requires
        p.cells.len() == 9,
        p.verdict(index) is Ok,
    ensures
        p.after_move(index).cells.len() == 9,
        p.after_move(index).cells[index] == Some(p.turn),
        p.after_move(index).turn == p.turn.opponent(),
        forall|i: int| 0 <= i < 9 && i != index ==> p.after_move(index).cells[i] == p.cells[i],
        forall|i: int|
            0 <= i < 9 && p.cells[i] is Some ==> p.after_move(index).cells[i] == p.cells[i],
{
}

/// While the game is open, a move at a marked cell is rejected as taken,
/// whoever is to move.
pub proof fn lemma_marked_cell_is_taken(p: Position, index: int)
    requires
        !p.ended(),
        0 <= index < 9,
        p.cells[index] is Some,
    ensures
        p.verdict(index) == Err::<(), MoveError>(MoveError::IndexTakenError),
{
}

/// While the game is open, a move at an index off the board is rejected as
/// out of bounds.
pub proof fn lemma_index_off_board_is_out_of_bounds(p: Position, index: int)
    requires
        !p.ended(),
        index < 0 || index >= 9,
    ensures
        p.verdict(index) == Err::<(), MoveError>(MoveError::OutOfBoundsError),
{
}

/// Once the game is over, every move is rejected as such, whatever the index.
pub proof fn lemma_ended_game_rejects_every_move(p: Position, index: int)
    requires
        p.ended(),
    ensures
        p.verdict(index) == Err::<(), MoveError>(MoveError::GameEndedError),
        p.after_move(index) == p,
{
}

/// A game that is over stays over: no sequence of further moves changes the
/// position, so the outcome stands.
pub proof fn lemma_ended_is_final(p: Position, moves: Seq<int>)
    requires
        p.ended(),
    ensures
        p.after_moves(moves) == p,
        p.after_moves(moves).ended(),
        p.after_moves(moves).outcome() == p.outcome(),
    decreases moves.len(),
{
    if moves.len() > 0 {
        lemma_ended_is_final(p, moves.drop_last());
    }
}

/// Being over is monotonic along any play: if the game is over after some
/// moves, it is over after any continuation of them, in the same position.
pub proof fn lemma_ended_is_monotonic(p: Position, moves: Seq<int>, more: Seq<int>)
    requires
        p.after_moves(moves).ended(),
    ensures
        p.after_moves(moves + more) == p.after_moves(moves),
        p.after_moves(moves + more).ended(),
    decreases more.len(),
{
    if more.len() == 0 {
        assert(moves + more =~= moves);
    } else {
        lemma_ended_is_monotonic(p, moves, more.drop_last());
        assert((moves + more).drop_last() =~= moves + more.drop_last());
        assert((moves + more).last() == more.last());
    }
}

/// The turn alternates with every accepted move: after the moves of `moves`
/// are submitted to a new game, `Player1` is to move if an even number of
/// them was accepted, and `Player2` if an odd number was.
pub proof fn lemma_turn_alternates(moves: Seq<int>)
    ensures
        Position::fresh().after_moves(moves).turn == Position::mover(
            Position::fresh().accepted(moves),
        ),
    decreases moves.len(),
{
    if moves.len() > 0 {
        lemma_turn_alternates(moves.drop_last());
    }
}

/// Every position that play reaches from a new game is well formed, and it
/// holds as many marks as moves were accepted.
pub proof fn lemma_play_is_well_formed(moves: Seq<int>)
    ensures
        Position::fresh().after_moves(moves).wf(),
        Position::fresh().after_moves(moves).marks() == Position::fresh().accepted(moves),
    decreases moves.len(),
{
    if moves.len() == 0 {
        lemma_fresh();
    } else {
        lemma_play_is_well_formed(moves.drop_last());
        let before = Position::fresh().after_moves(moves.drop_last());
        if before.verdict(moves.last()) is Ok {
            lemma_place_wf(before, moves.last());
            lemma_place_adds_a_mark(before, moves.last());
        }
    }
}

/// In a well-formed position the order of the table does not matter to the
/// outcome: whoever holds any line is the winner.
pub proof fn lemma_any_held_line_names_the_winner(p: Position, k: int)
    requires
        p.wf(),
        0 <= k < 8,
        p.owner(k) is Some,
    ensures
        p.outcome() == Some(Winner::Player(p.owner(k).unwrap())),
{
    lemma_first_win_exists(p, k);
    lemma_winning_line(p);
}

/// The empty cells are listed in ascending order, each once, and they are
/// exactly the cells without a mark.
pub proof fn lemma_open_cells(p: Position)
    requires
        p.cells.len() == 9,
    ensures
        forall|a: int, b: int|
            0 <= a < b < p.open_cells().len() ==> p.open_cells()[a] < p.open_cells()[b],
        forall|a: int|
            0 <= a < p.open_cells().len() ==> p.open_cells()[a] < 9
                && p.cells[p.open_cells()[a] as int] is None,
        forall|i: int|
            0 <= i < 9 && p.cells[i] is None ==> exists|a: int|
                0 <= a < p.open_cells().len() && p.open_cells()[a] == i,
        p.open_cells().len() + p.marks() == 9,
{
    lemma_open_prefix(p, 9);
    assert(Seq::new(9, |i: int| i as usize).take(9) =~= Seq::new(9, |i: int| i as usize));
}

/// The empty cells among the first `n`, in ascending order.
pub open spec fn open_prefix(p: Position, n: int) -> Seq<usize> {
    Seq::new(9, |i: int| i as usize).take(n).filter(|i: usize| p.cells[i as int] is None)
}

/// The statement of `lemma_open_cells` for the first `n` cells.
proof fn lemma_open_prefix(p: Position, n: int)
    requires
        p.cells.len() == 9,
        0 <= n <= 9,
    ensures
        forall|a: int, b: int|
            0 <= a < b < open_prefix(p, n).len() ==> open_prefix(p, n)[a] < open_prefix(p, n)[b],
        forall|a: int|
            0 <= a < open_prefix(p, n).len() ==> open_prefix(p, n)[a] < n && p.cells[open_prefix(
                p,
                n,
            )[a] as int] is None,
        forall|i: int|
            0 <= i < n && p.cells[i] is None ==> exists|a: int|
                0 <= a < open_prefix(p, n).len() && open_prefix(p, n)[a] == i,
        open_prefix(p, n).len() + p.marks_below(n) == n,
    decreases n,
{
    let all = Seq::new(9, |i: int| i as usize);
    let empty = |i: usize| p.cells[i as int] is None;
    reveal(Seq::filter);
    if n > 0 {
        lemma_open_prefix(p, n - 1);
        assert(all.take(n).drop_last() =~= all.take(n - 1));
        let before = open_prefix(p, n - 1);
        let open = open_prefix(p, n);
        if p.cells[n - 1] is None {
            assert(open == before.push((n - 1) as usize));
            assert forall|i: int| 0 <= i < n && p.cells[i] is None implies exists|a: int|
                0 <= a < open.len() && open[a] == i by {
                if i < n - 1 {
                    let a = choose|a: int| 0 <= a < before.len() && before[a] == i;
                    assert(open[a] == i);
                } else {
                    assert(open[before.len() as int] == i);
                }
            }
        } else {
            assert(open == before);
        }
    }
}

} // verus!
