use soccer_game::{initialize_game, GameState, Team};

fn roster(list: &[&str]) -> Vec<String> {
    list.iter().map(|name| name.to_string()).collect()
}

#[test]
fn new_game_is_started_without_goals() {
    let (game, _) = initialize_game(
        "Lions".to_string(),
        "Tigers".to_string(),
        roster(&["Ann", "Ben", "Cem"]),
        roster(&["Dan", "Eve"]),
    );
    assert_eq!(game.state, GameState::Started);
    assert_eq!(game.team1.name, "Lions");
    assert_eq!(game.team2.name, "Tigers");
    assert_eq!(game.team1.score, 0);
    assert_eq!(game.team2.score, 0);
    assert_eq!(game.team1.players.len(), 3);
    assert_eq!(game.team2.players.len(), 2);
    assert!(game.team1.players.iter().all(|player| player.goals == 0));
    assert!(game.team2.players.iter().all(|player| player.goals == 0));
}

#[test]
fn rosters_keep_the_order_given() {
    let first = ["Zoe", "Adam", "Mia", "Adam", "bob"];
    let second = ["y", "x"];
    let (game, _) =
        initialize_game("A".to_string(), "B".to_string(), roster(&first), roster(&second));
    let got_first: Vec<&str> = game.team1.players.iter().map(|p| p.name.as_str()).collect();
    let got_second: Vec<&str> = game.team2.players.iter().map(|p| p.name.as_str()).collect();
    assert_eq!(got_first, first);
    assert_eq!(got_second, second);
}

#[test]
fn empty_names_and_empty_rosters_are_accepted() {
    let (game, _) = initialize_game(String::new(), String::new(), Vec::new(), roster(&[""]));
    assert_eq!(game.state, GameState::Started);
    assert_eq!(game.team1.name, "");
    assert_eq!(game.team2.name, "");
    assert!(game.team1.players.is_empty());
    assert_eq!(game.team2.players.len(), 1);
    assert_eq!(game.team2.players[0].name, "");
    assert_eq!(game.team2.players[0].goals, 0);
}

#[test]
fn a_name_may_stand_on_both_rosters_and_twice_on_one() {
    let (game, _) = initialize_game(
        "Same".to_string(),
        "Same".to_string(),
        roster(&["Kim", "Kim"]),
        roster(&["Kim"]),
    );
    assert_eq!(game.team1.players.len(), 2);
    assert_eq!(game.team1.players[0].name, "Kim");
    assert_eq!(game.team1.players[1].name, "Kim");
    assert_eq!(game.team2.players.len(), 1);
    assert_eq!(game.team2.players[0].name, "Kim");
}

#[test]
fn setting_up_announces_the_game() {
    let (_, event) =
        initialize_game("Red".to_string(), "Blue".to_string(), Vec::new(), Vec::new());
    assert_eq!(event.message, "Game started");
}

#[test]
fn team_new_gives_every_name_a_player_without_goals() {
    let team = Team::new("Owls".to_string(), roster(&["Ida", "Jon"]));
    assert_eq!(team.name, "Owls");
    assert_eq!(team.score, 0);
    assert_eq!(team.players.len(), 2);
    assert_eq!(team.players[0].name, "Ida");
    assert_eq!(team.players[0].goals, 0);
    assert_eq!(team.players[1].name, "Jon");
    assert_eq!(team.players[1].goals, 0);
}

#[test]
fn team_new_accepts_an_empty_roster() {
    let team = Team::new("Nobody".to_string(), Vec::new());
    assert_eq!(team.name, "Nobody");
    assert_eq!(team.score, 0);
    assert!(team.players.is_empty());
}
