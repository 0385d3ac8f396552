//! The match record, its events, and the operations that create and
//! change it.

use crate::model::GameView;
use crate::team::Team;
use vstd::prelude::*;

verus! {

broadcast use vstd::string::to_string_from_display_ensures_for_str;

/// Where a match stands. A match begins as `Started`; no operation of this
/// crate ends one.
#[derive(Debug, Clone, Copy, PartialEq, Eq, Structural)]
pub enum GameState {
    Started,
    Ended,
}

/// The record of one match: two teams and the state of play.
#[derive(Debug, Clone)]
pub struct Game {
    pub team1: Team,
    pub team2: Team,
    pub state: GameState,
}

impl View for Game {
    type V = GameView;

    open spec fn view(&self) -> GameView {
        GameView { team1: self.team1@, team2: self.team2@, state: self.state }
    }
}

/// Notice that a match has been set up.
#[derive(Debug, Clone)]
pub struct GameEvent {
    pub message: String,
}

/// Notice that a goal was recorded, as the caller reported it.
#[derive(Debug, Clone)]
pub struct ScoreEvent {
    pub scoring_team: u8,
    pub player_name: String,
}

/// What can go wrong when a goal is recorded.
#[derive(Debug, Clone, Copy, PartialEq, Eq, Structural)]
pub enum ErrorCode {
    /// The team selector was neither 1 nor 2.
    InvalidTeam,
}

impl ErrorCode {
    /// The text shown for this error.
    pub open spec fn text(self) -> Seq<char> {
        match self {
            ErrorCode::InvalidTeam => "Invalid team specified."@,
        }
    }

    /// Renders the error for display.
    pub fn message(&self) -> (rendered: String)
        ensures
            rendered@ == self.text(),
    {
        match self {
            ErrorCode::InvalidTeam => "Invalid team specified.".to_string(),
        }
    }
}

/// Sets up a match between two teams. Each team starts without goals, with
/// one player per roster name in the order given. Empty names, empty
/// rosters and repeated names are accepted. The second component announces
/// the new match.
pub fn initialize_game(
    team1_name: String,
    team2_name: String,
    players_team1: Vec<String>,
    players_team2: Vec<String>,
) -> (started: (Game, GameEvent))
    ensures
        started.0@ == GameView::fresh(
            team1_name@,
            team2_name@,
            players_team1.deep_view(),
            players_team2.deep_view(),
        ),
        started.0.state == GameState::Started,
        started.0.team1.name@ == team1_name@,
        started.0.team2.name@ == team2_name@,
        started.0.team1.score == 0,
        started.0.team2.score == 0,
        started.0.team1.players@.len() == players_team1@.len(),
        started.0.team2.players@.len() == players_team2@.len(),
        forall|i: int|
            0 <= i < players_team1@.len() ==> (#[trigger] started.0.team1.players@[i]).name@
                == players_team1@[i]@ && started.0.team1.players@[i].goals == 0,
        forall|i: int|
            0 <= i < players_team2@.len() ==> (#[trigger] started.0.team2.players@[i]).name@
                == players_team2@[i]@ && started.0.team2.players@[i].goals == 0,
        started.1.message@ == "Game started"@,
{
    let game = Game {
        team1: Team::new(team1_name, players_team1),
        team2: Team::new(team2_name, players_team2),
        state: GameState::Started,
    };
    (game, GameEvent { message: "Game started".to_string() })
}

/// Tells whether `score_goal` may be called with this selector and name:
/// the selected team, if the selector names one, has room for the goal.
pub fn can_score_goal(game: &Game, scoring_team: u8, player_name: &String) -> (fits: bool)
    ensures
        fits == game@.can_score(scoring_team, player_name@),
{
    match scoring_team {
        1 => game.team1.can_score(player_name),
        2 => game.team2.can_score(player_name),
        _ => true,
    }
}

/// Records a goal for team 1 or team 2 under `player_name` and reports it.
/// The team's score grows by one whoever is named; the first player on its
/// roster with exactly that name, if any, is credited too. Any other
/// selector is refused with `InvalidTeam`, and the match is left as it was.
pub fn score_goal(game: &mut Game, scoring_team: u8, player_name: String) -> (outcome: Result<
    ScoreEvent,
    ErrorCode,
>)
    requires
        old(game)@.can_score(scoring_team, player_name@),
    ensures
        final(game)@ == old(game)@.after_goal(scoring_team, player_name@),
        final(game).state == old(game).state,
        match outcome {
            Ok(event) => {
                &&& GameView::names_team(scoring_team)
                &&& event.scoring_team == scoring_team
                &&& event.player_name@ == player_name@
            },
            Err(error) => {
                &&& !GameView::names_team(scoring_team)
                &&& error == ErrorCode::InvalidTeam
                &&& *final(game) == *old(game)
            },
        },
        scoring_team == 1 ==> final(game).team2 == old(game).team2,
        scoring_team == 2 ==> final(game).team1 == old(game).team1,
{
    match scoring_team {
        1 => game.team1.score_goal(&player_name),
        2 => game.team2.score_goal(&player_name),
        _ => {
            return Err(ErrorCode::InvalidTeam);
        },
    }
    Ok(ScoreEvent { scoring_team, player_name })
}

} // verus!
