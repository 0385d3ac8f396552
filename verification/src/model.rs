//! The mathematical model of a match, over which every contract is stated.

use crate::game::GameState;
use vstd::prelude::*;

verus! {

/// A player as contracts see it: a name and the goals credited to it.
pub struct PlayerView {
    pub name: Seq<char>,
    pub goals: nat,
}

impl PlayerView {
    /// A player who has not scored yet.
    pub open spec fn fresh(name: Seq<char>) -> PlayerView {
        PlayerView { name, goals: 0 }
    }

    /// The same player with one more goal.
    pub open spec fn credited(self) -> PlayerView {
        PlayerView { name: self.name, goals: self.goals + 1 }
    }
}

/// A team as contracts see it: a name, the roster in its given order, and
/// the goals credited to the team as a whole.
pub struct TeamView {
    pub name: Seq<char>,
    pub players: Seq<PlayerView>,
    pub score: nat,
}

impl TeamView {
    /// A team that has not scored yet, with one fresh player per roster
    /// name, in roster order.
    pub open spec fn fresh(name: Seq<char>, roster: Seq<Seq<char>>) -> TeamView {
        TeamView {
            name,
            players: Seq::new(roster.len(), |i: int| PlayerView::fresh(roster[i])),
            score: 0,
        }
    }

    /// Some player on the roster carries `name`.
    pub open spec fn has_player(self, name: Seq<char>) -> bool {
        exists|i: int| 0 <= i < self.players.len() && (#[trigger] self.players[i]).name == name
    }

    /// Position `i` holds the first player on the roster who carries `name`.
    /// This is the one player a goal under that name is credited to.
    pub open spec fn is_scorer(self, i: int, name: Seq<char>) -> bool {
        &&& 0 <= i < self.players.len()
        &&& self.players[i].name == name
        &&& forall|j: int| 0 <= j < i ==> (#[trigger] self.players[j]).name != name
    }

    /// The team after a goal scored under `name`: the score is one higher
    /// whoever is named, and the scorer, if the roster has one, is credited.
    pub open spec fn after_goal(self, name: Seq<char>) -> TeamView {
        TeamView {
            name: self.name,
            players: Seq::new(
                self.players.len(),
                |i: int|
                    if self.is_scorer(i, name) {
                        self.players[i].credited()
                    } else {
                        self.players[i]
                    },
            ),
            score: self.score + 1,
        }
    }

    /// A goal under `name` can be recorded in 8-bit counters: neither the
    /// team's score nor the scorer's count is at its maximum.
    pub open spec fn can_score(self, name: Seq<char>) -> bool {
        &&& self.score < u8::MAX
        &&& forall|i: int| self.is_scorer(i, name) ==> (#[trigger] self.players[i]).goals < u8::MAX
    }

    /// The goals credited to the team's players, taken together.
    pub open spec fn credited_goals(self) -> nat {
        goals_sum(self.players)
    }

    /// The players, taken together, are credited with no more goals than
    /// the team. The two differ by the goals scored under names that the
    /// roster does not have.
    pub open spec fn consistent(self) -> bool {
        self.credited_goals() <= self.score
    }
}

/// The sum of the goals of all `players`.
pub open spec fn goals_sum(players: Seq<PlayerView>) -> nat
    decreases players.len(),
{
    if players.len() == 0 {
        0
    } else {
        goals_sum(players.drop_last()) + players.last().goals
    }
}

/// One request to record a goal: the team selector and the scorer's name.
pub struct GoalCall {
    pub scoring_team: u8,
    pub player_name: Seq<char>,
}

/// How many of `calls` select `team`.
pub open spec fn goals_for(calls: Seq<GoalCall>, team: u8) -> nat {
    calls.filter(|call: GoalCall| call.scoring_team == team).len()
}

/// A match as contracts see it: its two teams and its state.
pub struct GameView {
    pub team1: TeamView,
    pub team2: TeamView,
    pub state: GameState,
}

impl GameView {
    /// The match as it stands right after it was set up: started, and
    /// nobody has scored.
    pub open spec fn fresh(
        team1_name: Seq<char>,
        team2_name: Seq<char>,
        players_team1: Seq<Seq<char>>,
        players_team2: Seq<Seq<char>>,
    ) -> GameView {
        GameView {
            team1: TeamView::fresh(team1_name, players_team1),
            team2: TeamView::fresh(team2_name, players_team2),
            state: GameState::Started,
        }
    }

    /// The selector names one of the two teams.
    pub open spec fn names_team(team: u8) -> bool {
        team == 1 || team == 2
    }

    /// The match after a goal for `team` under `name`. A selector that
    /// names no team changes nothing.
    pub open spec fn after_goal(self, team: u8, name: Seq<char>) -> GameView {
        if team == 1 {
            GameView { team1: self.team1.after_goal(name), team2: self.team2, state: self.state }
        } else if team == 2 {
            GameView { team1: self.team1, team2: self.team2.after_goal(name), state: self.state }
        } else {
            self
        }
    }

    /// The team that `team` selects can record a goal under `name`.
    pub open spec fn can_score(self, team: u8, name: Seq<char>) -> bool {
        &&& team == 1 ==> self.team1.can_score(name)
        &&& team == 2 ==> self.team2.can_score(name)
    }

    /// The team that `team` selects: the first for 1, the second otherwise.
    pub open spec fn side(self, team: u8) -> TeamView
        recommends
            GameView::names_team(team),
    {
        if team == 1 {
            self.team1
        } else {
            self.team2
        }
    }

    /// The team that `team` does not select.
    pub open spec fn other_side(self, team: u8) -> TeamView
        recommends
            GameView::names_team(team),
    {
        if team == 1 {
            self.team2
        } else {
            self.team1
        }
    }

    /// The match after every call in `calls` was served, first to last.
    pub open spec fn after_goals(self, calls: Seq<GoalCall>) -> GameView
        decreases calls.len(),
    {
        if calls.len() == 0 {
            self
        } else {
            self.after_goals(calls.drop_last()).after_goal(
                calls.last().scoring_team,
                calls.last().player_name,
            )
        }
    }

    /// Both teams are consistent.
    pub open spec fn consistent(self) -> bool {
        self.team1.consistent() && self.team2.consistent()
    }
}

} // verus!
