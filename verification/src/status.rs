//! The status report: a match rendered as lines of text.

use crate::game::{Game, GameState};
use crate::model::GameView;
use vstd::prelude::*;
use vstd::string::{StrSliceExecFns, StringExecFns};

verus! {

broadcast use vstd::string::to_string_from_display_ensures_for_str;

/// The decimal digit for `d`, where `d` is below ten.
pub open spec fn digit(d: nat) -> char
    recommends
        d < 10,
{
    "0123456789"@[d as int]
}

/// A number written in decimal, without sign or leading zeros.
pub open spec fn decimal(n: nat) -> Seq<char>
    decreases n,
{
    if n < 10 {
        seq![digit(n)]
    } else {
        decimal(n / 10).push(digit(n % 10))
    }
}

impl GameState {
    /// The state's name as it is written in reports.
    pub open spec fn text(self) -> Seq<char> {
        match self {
            GameState::Started => "Started"@,
            GameState::Ended => "Ended"@,
        }
    }

    /// The state's name as it is written in reports.
    pub fn label(&self) -> (name: &'static str)
        ensures
            name@ == self.text(),
    {
        match self {
            GameState::Started => "Started",
            GameState::Ended => "Ended",
        }
    }
}

/// The four lines of a status report, in order: the record's identifier,
/// the state of play, and each team's score.
pub open spec fn status_lines(game: GameView, key: Seq<char>) -> Seq<Seq<char>> {
    seq![
        key,
        "Game state: "@ + game.state.text(),
        "Team 1 score: "@ + decimal(game.team1.score),
        "Team 2 score: "@ + decimal(game.team2.score),
    ]
}

/// One decimal digit as text.
fn digit_text(d: u8) -> (text: &'static str)
    requires
        d < 10,
    ensures
        text@ == seq![digit(d as nat)],
{
    proof {
        reveal_strlit("0123456789");
    }
    "0123456789".substring_ascii(d as usize, d as usize + 1)
}

/// Writes a counter in decimal.
fn counter_text(n: u8) -> (text: String)
    ensures
        text@ == decimal(n as nat),
{
    let mut text = String::new();
    if n >= 100 {
        text.append(digit_text(n / 100));
    }
    if n >= 10 {
        text.append(digit_text((n / 10) % 10));
    }
    text.append(digit_text(n % 10));
    proof {
        reveal_with_fuel(decimal, 3);
        assert(text@ =~= decimal(n as nat));
    }
    text
}

/// Renders the status of a match stored under the identifier `key`. The
/// match is only read.
pub fn get_game_status(game: &Game, key: String) -> (lines: Vec<String>)
    ensures
        lines.deep_view() == status_lines(game@, key@),
{
    let ghost id = key@;
    let mut state_line = "Game state: ".to_string();
    state_line.append(game.state.label());
    let mut team1_line = "Team 1 score: ".to_string();
    team1_line.append(counter_text(game.team1.score).as_str());
    let mut team2_line = "Team 2 score: ".to_string();
    team2_line.append(counter_text(game.team2.score).as_str());
    let mut lines: Vec<String> = Vec::new();
    lines.push(key);
    lines.push(state_line);
    lines.push(team1_line);
    lines.push(team2_line);
    assert(lines.deep_view() =~= status_lines(game@, id));
    lines
}

} // verus!
