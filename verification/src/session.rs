//! One turn of a game played over text: what the player typed becomes a cell
//! of the board, the move is submitted, and the reply says what to tell the
//! player. Reading the line and printing the reply are the caller's part.

use crate::game::laws::lemma_open_cells;
use crate::game::position::Position;
use crate::game::{Game, MoveError};
use vstd::prelude::*;

verus! {

/// Why an entry names no cell.
#[derive(Debug, PartialEq, Eq, Structural)]
pub enum InputError {
    /// The entry is not a number that fits the machine.
    NotANumber,
    /// The entry is zero: cells are counted from one.
    BelowRange,
}

/// What to tell the player after an entry.
#[derive(Debug, PartialEq, Eq)]
pub enum Reply {
    /// The mark was placed and the turn has passed on.
    Placed,
    /// The cell is taken; `choices` are the empty cells, counted from one,
    /// in ascending order.
    Taken { choices: Vec<usize> },
    /// `entered` is not the number of a cell.
    OutOfRange { entered: usize },
    /// The game is over.
    Ended,
    /// The entry is not a number.
    NotANumber,
}

/// What `str::trim` returns for a text: the text without the white space
/// at its start and at its end.
pub uninterp spec fn trimmed(text: Seq<char>) -> Seq<char>;

/// A decimal digit.
pub open spec fn is_digit(c: char) -> bool {
    '0' <= c && c <= '9'
}

/// The number that a sequence of decimal digits writes.
pub open spec fn digits_value(digits: Seq<char>) -> nat
    decreases digits.len(),
{
    if digits.len() == 0 {
        0
    } else {
        (10 * digits_value(digits.drop_last()) + (digits.last() as u32 - '0' as u32)) as nat
    }
}

/// A text without the `+` that may stand in front of a number.
pub open spec fn unsigned(text: Seq<char>) -> Seq<char> {
    if text.len() > 0 && text[0] == '+' {
        text.skip(1)
    } else {
        text
    }
}

/// One or more decimal digits and nothing else.
pub open spec fn all_digits(digits: Seq<char>) -> bool {
    &&& digits.len() > 0
    &&& forall|i: int| 0 <= i < digits.len() ==> is_digit(#[trigger] digits[i])
}

/// The number that a text writes in decimal: an optional `+`, then one or
/// more digits and nothing else, of a value that fits `usize`.
pub open spec fn number_of(text: Seq<char>) -> Option<usize> {
    if all_digits(unsigned(text)) && digits_value(unsigned(text)) <= usize::MAX {
        Some(digits_value(unsigned(text)) as usize)
    } else {
        None
    }
}

/// The cell that an entered number names: cells are entered counted from
/// one and indexed from zero.
pub open spec fn position_of_number(number: Option<usize>) -> Result<usize, InputError> {
    match number {
        None => Err(InputError::NotANumber),
        Some(n) => if n == 0 {
            Err(InputError::BelowRange)
        } else {
            Ok((n - 1) as usize)
        },
    }
}

/// The empty cells of a position as the player enters them: counted from
/// one, in ascending order.
pub open spec fn choices_of(before: Position) -> Seq<usize> {
    before.open_cells().map_values(|cell: usize| (cell + 1) as usize)
}

/// `reply` is the reply owed when `number` is entered in position `before`.
/// The number `n` stands for cell `n - 1`, so zero stands for no cell.
pub open spec fn answers(reply: Reply, before: Position, number: Option<usize>) -> bool {
    match number {
        None => reply is NotANumber,
        Some(n) => match before.verdict(n - 1) {
            Ok(()) => reply is Placed,
            Err(MoveError::GameEndedError) => reply is Ended,
            Err(MoveError::OutOfBoundsError) => reply matches Reply::OutOfRange { entered }
                && entered == n,
            Err(MoveError::IndexTakenError) => reply matches Reply::Taken { choices } && choices@
                == choices_of(before),
        },
    }
}

/// The position after `number` is entered in position `before`.
pub open spec fn position_after(before: Position, number: Option<usize>) -> Position {
    match number {
        None => before,
        Some(n) => before.after_move(n - 1),
    }
}

/// Calls `str::trim`, which returns the slice of the text between its
/// leading and its trailing white space. Which characters count as white
/// space is left to the standard library.
#[verifier::external_body]
fn trim(text: &str) -> (inner: &str)
    ensures
        inner@ == trimmed(text@),
{
    text.trim()
}

/// Calls `str::parse` for `usize`. It accepts an optional `+` followed by
/// decimal digits and nothing else, and fails on an empty text, on any
/// other character and on a value that does not fit.
#[verifier::external_body]
fn parse_number(text: &str) -> (number: Option<usize>)
    ensures
        number == number_of(text@),
{
    text.parse::<usize>().ok()
}

/// The number that an entry writes, white space around it aside.
fn entered_number(entry: &str) -> (number: Option<usize>)
    ensures
        number == number_of(trimmed(entry@)),
{
    parse_number(trim(entry))
}

/// The cell that an entered number names: one less than the number. No
/// number names no cell, and neither does zero.
pub fn position_of(number: Option<usize>) -> (position: Result<usize, InputError>)
    ensures
        position == position_of_number(number),
{
    match number {
        None => Err(InputError::NotANumber),
        Some(n) => {
            if n == 0 {
                Err(InputError::BelowRange)
            } else {
                Ok(n - 1)
            }
        },
    }
}

/// The cell that an entry names: the entry is trimmed, read as a decimal
/// number counted from one, and turned into an index counted from zero.
pub fn parse_input(input: &str) -> (position: Result<usize, InputError>)
    ensures
        position == position_of_number(number_of(trimmed(input@))),
{
    position_of(entered_number(input))
}

/// The empty cells as the player enters them: counted from one.
fn choices(game: &Game) -> (choices: Vec<usize>)
    ensures
        choices@ == choices_of(game@),
{
    let spaces = game.get_available_spaces();
    proof {
        use_type_invariant(game);
        lemma_open_cells(game@);
    }
    let mut choices: Vec<usize> = Vec::new();
    let mut i: usize = 0;
    while i < spaces.len()
        invariant
            i <= spaces.len(),
            spaces@ == game@.open_cells(),
            forall|a: int| 0 <= a < spaces.len() ==> spaces[a] < 9,
            choices@ == choices_of(game@).take(i as int),
        decreases spaces.len() - i,
    {
        choices.push(spaces[i] + 1);
        i += 1;
        assert(choices@ =~= choices_of(game@).take(i as int));
    }
    assert(choices_of(game@).take(spaces.len() as int) =~= choices_of(game@));
    choices
}

/// Submits the move that an entered number stands for, and says what to
/// tell the player. `number` is what the player entered, or `None` where
/// the entry was no number. The number `n` stands for cell `n - 1`.
///
/// The game changes exactly as `Game::take_turn` changes it for that cell,
/// and not at all where no cell is meant. The reply follows the answer of
/// the game; for a taken cell it lists the cells that are still empty.
pub fn reply_to(game: &mut Game, number: Option<usize>) -> (reply: Reply)
    ensures
        answers(reply, old(game)@, number),
        final(game)@ == position_after(old(game)@, number),
        final(game)@.wf(),
{
    match number {
        None => {
            proof {
                use_type_invariant(&*game);
            }
            Reply::NotANumber
        },
        Some(n) => {
            if n == 0 {
                proof {
                    use_type_invariant(&*game);
                }
                if game.has_ended() {
                    Reply::Ended
                } else {
                    Reply::OutOfRange { entered: n }
                }
            } else {
                match game.take_turn(n - 1) {
                    Ok(()) => Reply::Placed,
                    Err(MoveError::GameEndedError) => Reply::Ended,
                    Err(MoveError::OutOfBoundsError) => Reply::OutOfRange { entered: n },
                    Err(MoveError::IndexTakenError) => Reply::Taken { choices: choices(game) },
                }
            }
        },
    }
}

/// Takes one entry of the player to move: reads the number in it, submits
/// the move it stands for, and says what to tell the player.
pub fn respond(game: &mut Game, entry: &str) -> (reply: Reply)
    ensures
        answers(reply, old(game)@, number_of(trimmed(entry@))),
        final(game)@ == position_after(old(game)@, number_of(trimmed(entry@))),
        final(game)@.wf(),
{
    let number = entered_number(entry);
    reply_to(game, number)
}

} // verus!
