//! What holds of every match, proved over the model.

use crate::model::{goals_for, goals_sum, GameView, GoalCall, PlayerView, TeamView};
use vstd::prelude::*;

verus! {

/// A roster that has a player of some name has a first one, and only one
/// position is the first.
pub proof fn lemma_scorer_exists(team: TeamView, name: Seq<char>)
    ensures
        team.has_player(name) <==> exists|i: int| team.is_scorer(i, name),
        forall|i: int, j: int| team.is_scorer(i, name) && team.is_scorer(j, name) ==> i == j,
{
    if team.has_player(name) {
        let k = choose|k: int| 0 <= k < team.players.len() && team.players[k].name == name;
        lemma_first_named(team, name, k);
    }
}

proof fn lemma_first_named(team: TeamView, name: Seq<char>, k: int)
    requires
        0 <= k < team.players.len(),
        team.players[k].name == name,
    ensures
        exists|i: int| team.is_scorer(i, name),
    decreases k,
{
    if exists|j: int| 0 <= j < k && team.players[j].name == name {
        let j = choose|j: int| 0 <= j < k && team.players[j].name == name;
        lemma_first_named(team, name, j);
    } else {
        assert(team.is_scorer(k, name));
    }
}

/// However many goals are recorded, each team's score grows by exactly the
/// number of calls that selected it, whether or not the names given were on
/// its roster. Calls that select neither team count for nobody.
pub proof fn lemma_score_counts_goals(game: GameView, calls: Seq<GoalCall>)
    ensures
        game.after_goals(calls).team1.score == game.team1.score + goals_for(calls, 1),
        game.after_goals(calls).team2.score == game.team2.score + goals_for(calls, 2),
        game.after_goals(calls).state == game.state,
    decreases calls.len(),
{
    reveal(Seq::filter);
    if calls.len() > 0 {
        lemma_score_counts_goals(game, calls.drop_last());
    }
}

/// In a match that began without goals, a team's score is the number of
/// calls that selected it.
pub proof fn lemma_score_is_goal_count(
    team1_name: Seq<char>,
    team2_name: Seq<char>,
    players_team1: Seq<Seq<char>>,
    players_team2: Seq<Seq<char>>,
    calls: Seq<GoalCall>,
)
    ensures
        ({
            let game = GameView::fresh(team1_name, team2_name, players_team1, players_team2);
            &&& game.after_goals(calls).team1.score == goals_for(calls, 1)
            &&& game.after_goals(calls).team2.score == goals_for(calls, 2)
        }),
{
    lemma_score_counts_goals(
        GameView::fresh(team1_name, team2_name, players_team1, players_team2),
        calls,
    );
}

/// A goal under a name that the selected team's roster has is credited to
/// one player of that name, the first: that player's count grows by one,
/// every other count in the match stays, and the team's score grows by one.
pub proof fn lemma_goal_credits_named_player(game: GameView, team: u8, name: Seq<char>)
    requires
        GameView::names_team(team),
        game.side(team).has_player(name),
    ensures
        ({
            let before = game.side(team);
            let after = game.after_goal(team, name).side(team);
            &&& after.score == before.score + 1
            &&& after.players.len() == before.players.len()
            &&& exists|i: int|
                {
                    &&& before.is_scorer(i, name)
                    &&& after.players[i].name == name
                    &&& after.players[i].goals == before.players[i].goals + 1
                    &&& forall|j: int|
                        0 <= j < before.players.len() && j != i ==> #[trigger] after.players[j]
                            == before.players[j]
                }
        }),
        game.after_goal(team, name).other_side(team) == game.other_side(team),
{
    lemma_scorer_exists(game.side(team), name);
}

/// A goal under a name that the selected team's roster lacks still counts
/// for the team, and changes no player anywhere in the match.
pub proof fn lemma_goal_for_unknown_player(game: GameView, team: u8, name: Seq<char>)
    requires
        GameView::names_team(team),
        !game.side(team).has_player(name),
    ensures
        game.after_goal(team, name).side(team).score == game.side(team).score + 1,
        game.after_goal(team, name).team1.players == game.team1.players,
        game.after_goal(team, name).team2.players == game.team2.players,
        game.after_goal(team, name).other_side(team) == game.other_side(team),
{
    lemma_scorer_exists(game.side(team), name);
    assert(game.after_goal(team, name).side(team).players =~= game.side(team).players);
}

/// A call whose selector names neither team changes nothing.
pub proof fn lemma_invalid_team_changes_nothing(game: GameView, team: u8, name: Seq<char>)
    requires
        !GameView::names_team(team),
    ensures
        game.after_goal(team, name) == game,
{
}

/// No player holds more goals than all players together.
pub proof fn lemma_goals_within_sum(players: Seq<PlayerView>, i: int)
    requires
        0 <= i < players.len(),
    ensures
        players[i].goals <= goals_sum(players),
    decreases players.len(),
{
    if i < players.len() - 1 {
        lemma_goals_within_sum(players.drop_last(), i);
    }
}

proof fn lemma_goals_sum_step(before: Seq<PlayerView>, after: Seq<PlayerView>, k: int)
    requires
        before.len() == after.len(),
        forall|i: int|
            0 <= i < before.len() ==> (#[trigger] after[i]).goals == before[i].goals + (if i == k {
                1nat
            } else {
                0nat
            }),
    ensures
        goals_sum(after) == goals_sum(before) + (if 0 <= k < before.len() {
            1nat
        } else {
            0nat
        }),
    decreases before.len(),
{
    if before.len() > 0 {
        lemma_goals_sum_step(before.drop_last(), after.drop_last(), k);
    }
}

/// A goal adds one to the goals credited to a team's players if the roster
/// has the name, and nothing if it does not.
pub proof fn lemma_goal_credits_at_most_one(team: TeamView, name: Seq<char>)
    ensures
        team.after_goal(name).credited_goals() == team.credited_goals() + (if team.has_player(name) {
            1nat
        } else {
            0nat
        }),
{
    lemma_scorer_exists(team, name);
    let after = team.after_goal(name);
    if team.has_player(name) {
        let k = choose|i: int| team.is_scorer(i, name);
        lemma_goals_sum_step(team.players, after.players, k);
    } else {
        assert(after.players =~= team.players);
    }
}

/// A match that was just set up is consistent, and recording goals keeps it
/// so: the players of a team never hold more goals than the team.
pub proof fn lemma_consistency_is_kept(game: GameView, calls: Seq<GoalCall>)
    requires
        game.consistent(),
    ensures
        game.after_goals(calls).consistent(),
    decreases calls.len(),
{
    if calls.len() > 0 {
        lemma_consistency_is_kept(game, calls.drop_last());
        let earlier = game.after_goals(calls.drop_last());
        lemma_goal_credits_at_most_one(earlier.team1, calls.last().player_name);
        lemma_goal_credits_at_most_one(earlier.team2, calls.last().player_name);
    }
}

/// A match that was just set up is consistent.
pub proof fn lemma_fresh_is_consistent(
    team1_name: Seq<char>,
    team2_name: Seq<char>,
    players_team1: Seq<Seq<char>>,
    players_team2: Seq<Seq<char>>,
)
    ensures
        GameView::fresh(team1_name, team2_name, players_team1, players_team2).consistent(),
{
    lemma_fresh_sum(TeamView::fresh(team1_name, players_team1).players);
    lemma_fresh_sum(TeamView::fresh(team2_name, players_team2).players);
}

proof fn lemma_fresh_sum(players: Seq<PlayerView>)
    requires
        forall|i: int| 0 <= i < players.len() ==> (#[trigger] players[i]).goals == 0,
    ensures
        goals_sum(players) == 0,
    decreases players.len(),
{
    if players.len() > 0 {
        lemma_fresh_sum(players.drop_last());
    }
}

/// A consistent team whose score is below the largest 8-bit value has room
/// for a goal under any name.
pub proof fn lemma_consistent_team_can_score(team: TeamView, name: Seq<char>)
    requires
        team.consistent(),
        team.score < u8::MAX,
    ensures
        team.can_score(name),
{
    assert forall|i: int| team.is_scorer(i, name) implies (#[trigger] team.players[i]).goals
        < u8::MAX by {
        lemma_goals_within_sum(team.players, i);
    }
}

} // verus!
