//! Players and teams.

use crate::model::{PlayerView, TeamView};
use vstd::prelude::*;

verus! {

/// A named participant on a team with an individual goal count.
#[derive(Debug, Clone)]
pub struct Player {
    pub name: String,
    pub goals: u8,
}

impl View for Player {
    type V = PlayerView;

    open spec fn view(&self) -> PlayerView {
        PlayerView { name: self.name@, goals: self.goals as nat }
    }
}

/// One side of a match: a name, an ordered roster and an aggregate score.
#[derive(Debug, Clone)]
pub struct Team {
    pub name: String,
    pub players: Vec<Player>,
    pub score: u8,
}

impl View for Team {
    type V = TeamView;

    open spec fn view(&self) -> TeamView {
        TeamView {
            name: self.name@,
            players: Seq::new(self.players@.len(), |i: int| self.players@[i]@),
            score: self.score as nat,
        }
    }
}

impl Team {
    /// Builds a team that has not scored yet. Every name in `players`
    /// becomes a player without goals, in the order given; an empty roster
    /// and repeated names are accepted as they are.
    pub fn new(name: String, players: Vec<String>) -> (team: Team)
        ensures
            team@ == TeamView::fresh(name@, players.deep_view()),
            team.name@ == name@,
            team.score == 0,
            team.players@.len() == players@.len(),
            forall|i: int|
                0 <= i < players@.len() ==> (#[trigger] team.players@[i]).name@ == players@[i]@
                    && team.players@[i].goals == 0,
    {
        let ghost names = players.deep_view();
        let mut roster: Vec<Player> = Vec::new();
        for player_name in it: players
            invariant
                roster@.len() == it.index(),
                forall|j: int|
                    0 <= j < roster@.len() ==> (#[trigger] roster@[j]).name@ == it.seq()[j]@
                        && roster@[j].goals == 0,
        {
            roster.push(Player { name: player_name, goals: 0 });
        }
        let team = Team { name, players: roster, score: 0 };
        assert(team@.players =~= TeamView::fresh(name@, names).players);
        team
    }

    /// Tells whether a goal under `player_name` can be credited: the score
    /// and the count of the player who would be credited are both below
    /// the largest value their counters hold.
    pub fn can_score(&self, player_name: &String) -> (fits: bool)
        ensures
            fits == self@.can_score(player_name@),
    {
        if self.score == u8::MAX {
            return false;
        }
        let mut i: usize = 0;
        while i < self.players.len()
            invariant
                i <= self.players@.len(),
                self.score < u8::MAX,
                forall|j: int| 0 <= j < i ==> (#[trigger] self.players@[j]).name@ != player_name@,
            decreases self.players@.len() - i,
        {
            if self.players[i].name == *player_name {
                assert(self@.is_scorer(i as int, player_name@));
                return self.players[i].goals < u8::MAX;
            }
            i += 1;
        }
        true
    }

    /// Credits one goal to the team, and to the first player on the roster
    /// whose name is exactly `player_name`, if there is one. A name that no
    /// player carries still counts for the team.
    pub fn score_goal(&mut self, player_name: &String)
        requires
            old(self)@.can_score(player_name@),
        ensures
            final(self)@ == old(self)@.after_goal(player_name@),
            final(self).score == old(self).score + 1,
            final(self).name@ == old(self).name@,
            final(self).players@.len() == old(self).players@.len(),
            forall|i: int|
                0 <= i < old(self).players@.len() ==> (#[trigger] final(self).players@[i]).name@
                    == old(self).players@[i].name@,
            forall|i: int|
                old(self)@.is_scorer(i, player_name@) ==> (#[trigger] final(self).players@[i]).goals
                    == old(self).players@[i].goals + 1,
            forall|i: int|
                0 <= i < old(self).players@.len() && !old(self)@.is_scorer(i, player_name@)
                    ==> (#[trigger] final(self).players@[i]).goals == old(self).players@[i].goals,
    {
        self.score += 1;
        let mut i: usize = 0;
        while i < self.players.len()
            invariant
                i <= self.players@.len(),
                self.players@ == old(self).players@,
                self.name@ == old(self).name@,
                self.score == old(self).score + 1,
                old(self)@.can_score(player_name@),
                forall|j: int| 0 <= j < i ==> (#[trigger] self.players@[j]).name@ != player_name@,
            decreases self.players@.len() - i,
        {
            if self.players[i].name == *player_name {
                assert(old(self)@.is_scorer(i as int, player_name@));
                self.players[i].goals += 1;
                assert(self@.players =~= old(self)@.after_goal(player_name@).players);
                return;
            }
            i += 1;
        }
        assert(self@.players =~= old(self)@.after_goal(player_name@).players);
    }
}

} // verus!
