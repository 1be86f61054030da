//! The board as text: plain, and in colour for a terminal.

use super::paint::{
    blue, blue_text, clear, clear_text, on_white, on_white_text, red, red_text, truecolor,
    truecolor_text,
};
use super::position::Position;
use super::{Game, Player, WINNING_COMBOS};
use colored::ColoredString;
use vstd::prelude::*;
use vstd::string::StringExecFns;

verus! {

/// The character that stands for a cell in the plain text.
pub open spec fn glyph(cell: Option<Player>) -> char {
    match cell {
        Some(Player::Player1) => 'X',
        Some(Player::Player2) => 'O',
        None => ' ',
    }
}

/// The character that follows cell `i`: a line break after the last cell of
/// a row, a bar elsewhere.
pub open spec fn separator(i: int) -> char {
    if i % 3 == 2 {
        '\n'
    } else {
        '|'
    }
}

/// The digit shown in an empty cell `i`: its number, counted from one.
pub open spec fn hint(i: int) -> char {
    if i == 0 {
        '1'
    } else if i == 1 {
        '2'
    } else if i == 2 {
        '3'
    } else if i == 3 {
        '4'
    } else if i == 4 {
        '5'
    } else if i == 5 {
        '6'
    } else if i == 6 {
        '7'
    } else if i == 7 {
        '8'
    } else {
        '9'
    }
}

impl Position {
    /// The board as plain text: for each cell in turn its character and then
    /// its separator, eighteen characters in all.
    pub open spec fn text(self) -> Seq<char> {
        Seq::new(
            18,
            |j: int|
                if j % 2 == 0 {
                    glyph(self.cells[j / 2])
                } else {
                    separator(j / 2)
                },
        )
    }

    /// Cell `i` lies on the winning line.
    pub open spec fn on_winning_line(self, i: int) -> bool {
        match self.winning_line() {
            Some(k) => {
                let line = WINNING_COMBOS[k];
                line[0] == i || line[1] == i || line[2] == i
            },
            None => false,
        }
    }

    /// Cell `i` in colour: a red `X` for `Player1` and a blue `O` for
    /// `Player2`, on white where the cell lies on the winning line; the
    /// number of an empty cell in light grey.
    pub open spec fn colored_cell(self, i: int) -> ColoredString {
        match self.cells[i] {
            Some(Player::Player1) => if self.on_winning_line(i) {
                on_white_text(red_text(seq!['X']))
            } else {
                red_text(seq!['X'])
            },
            Some(Player::Player2) => if self.on_winning_line(i) {
                on_white_text(blue_text(seq!['O']))
            } else {
                blue_text(seq!['O'])
            },
            None => truecolor_text(seq![hint(i)], 211, 211, 211),
        }
    }

    /// The board in colour: for each cell in turn the cell and then its
    /// separator without colour, eighteen pieces in all.
    pub open spec fn colored_text(self) -> Seq<ColoredString> {
        Seq::new(
            18,
            |j: int|
                if j % 2 == 0 {
                    self.colored_cell(j / 2)
                } else {
                    clear_text(seq![separator(j / 2)])
                },
        )
    }
}

/// The text of the digit shown in an empty cell `i`.
fn hint_text(i: usize) -> (text: &'static str)
    requires
        i < 9,
    ensures
        text@ == seq![hint(i as int)],
{
    proof {
        reveal_strlit("1");
        reveal_strlit("2");
        reveal_strlit("3");
        reveal_strlit("4");
        reveal_strlit("5");
        reveal_strlit("6");
        reveal_strlit("7");
        reveal_strlit("8");
        reveal_strlit("9");
    }
    let text = match i {
        0 => "1",
        1 => "2",
        2 => "3",
        3 => "4",
        4 => "5",
        5 => "6",
        6 => "7",
        7 => "8",
        _ => "9",
    };
    assert(text@ =~= seq![hint(i as int)]);
    text
}

/// The text of the separator that follows cell `i`.
fn separator_text(i: usize) -> (text: &'static str)
    requires
        i < 9,
    ensures
        text@ == seq![separator(i as int)],
{
    proof {
        reveal_strlit("\n");
        reveal_strlit("|");
    }
    let text = if i % 3 == 2 {
        "\n"
    } else {
        "|"
    };
    assert(text@ =~= seq![separator(i as int)]);
    text
}

/// The text of the character that stands for a cell.
fn glyph_text(cell: Option<Player>) -> (text: &'static str)
    ensures
        text@ == seq![glyph(cell)],
{
    proof {
        reveal_strlit("X");
        reveal_strlit("O");
        reveal_strlit(" ");
    }
    let text = match cell {
        Some(Player::Player1) => "X",
        Some(Player::Player2) => "O",
        None => " ",
    };
    assert(text@ =~= seq![glyph(cell)]);
    text
}

impl Game {
    /// The board as plain text, three rows of `X`, `O` or a blank per cell,
    /// with `|` between the cells of a row and a line break after each row.
    pub fn board_to_string(&self) -> (text: String)
        ensures
            text@ == self@.text(),
    {
        let mut board_string = String::new();
        let mut i: usize = 0;
        while i < 9
            invariant
                i <= 9,
                board_string@ == self@.text().take(2 * i),
            decreases 9 - i,
        {
            board_string.append(glyph_text(self.board[i]));
            board_string.append(separator_text(i));
            i += 1;
            assert(board_string@ =~= self@.text().take(2 * i));
        }
        assert(self@.text().take(18) =~= self@.text());
        board_string
    }

    /// The board in colour, piece by piece: each cell and then its
    /// separator. A mark is a red `X` or a blue `O`, on white where it lies
    /// on the winning line; an empty cell shows its number, counted from
    /// one, in light grey; the separators carry no colour.
    pub fn board_to_colored_strings(&self) -> (pieces: Vec<ColoredString>)
        ensures
            pieces@ == self@.colored_text(),
    {
        let mut board_strings: Vec<ColoredString> = Vec::new();
        let winning_combo = self.get_winning_combo();
        let mut i: usize = 0;
        while i < 9
            invariant
                i <= 9,
                match winning_combo {
                    Some(line) => self@.winning_line() is Some && line
                        == WINNING_COMBOS[self@.winning_line().unwrap()],
                    None => self@.winning_line() is None,
                },
                board_strings@ == self@.colored_text().take(2 * i),
            decreases 9 - i,
        {
            let highlighted = match winning_combo {
                Some(line) => line[0] == i || line[1] == i || line[2] == i,
                None => false,
            };
            assert(highlighted == self@.on_winning_line(i as int));
            let cell = match self.board[i] {
                Some(Player::Player1) => {
                    let mark = red(glyph_text(Some(Player::Player1)));
                    if highlighted {
                        on_white(mark)
                    } else {
                        mark
                    }
                },
                Some(Player::Player2) => {
                    let mark = blue(glyph_text(Some(Player::Player2)));
                    if highlighted {
                        on_white(mark)
                    } else {
                        mark
                    }
                },
                None => truecolor(hint_text(i), 211, 211, 211),
            };
            assert(cell == self@.colored_cell(i as int));
            board_strings.push(cell);
            board_strings.push(clear(separator_text(i)));
            i += 1;
            assert(board_strings@ =~= self@.colored_text().take(2 * i));
        }
        assert(self@.colored_text().take(18) =~= self@.colored_text());
        board_strings
    }
}

} // verus!
