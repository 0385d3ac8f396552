use soccer_game::{initialize_game, score_goal, ErrorCode, Game, GameState};

fn names(list: &[&str]) -> Vec<String> {
    list.iter().map(|name| name.to_string()).collect()
}

fn red_against_blue() -> Game {
    let (game, _) = initialize_game(
        "Red".to_string(),
        "Blue".to_string(),
        names(&["Alice", "Bob"]),
        names(&["Carl"]),
    );
    game
}

#[test]
fn end_to_end_red_against_blue() {
    let mut game = red_against_blue();

    let first = score_goal(&mut game, 1, "Alice".to_string());
    assert!(first.is_ok());
    assert_eq!(game.team1.score, 1);
    assert_eq!(game.team1.players[0].name, "Alice");
    assert_eq!(game.team1.players[0].goals, 1);
    assert_eq!(game.team1.players[1].name, "Bob");
    assert_eq!(game.team1.players[1].goals, 0);

    let second = score_goal(&mut game, 1, "Zed".to_string());
    assert!(second.is_ok());
    assert_eq!(game.team1.score, 2);
    assert_eq!(game.team1.players[0].goals, 1);
    assert_eq!(game.team1.players[1].goals, 0);

    let third = score_goal(&mut game, 2, "Carl".to_string());
    assert!(third.is_ok());
    assert_eq!(game.team2.score, 1);
    assert_eq!(game.team2.players[0].name, "Carl");
    assert_eq!(game.team2.players[0].goals, 1);

    let fourth = score_goal(&mut game, 3, "Carl".to_string());
    assert_eq!(fourth.err(), Some(ErrorCode::InvalidTeam));
    assert_eq!(game.team2.score, 1);
    assert_eq!(game.team2.players[0].goals, 1);
    assert_eq!(game.team1.score, 2);
    assert_eq!(game.state, GameState::Started);
}

#[test]
fn end_to_end_leaves_the_other_team_alone() {
    let mut game = red_against_blue();
    score_goal(&mut game, 1, "Alice".to_string()).unwrap();
    score_goal(&mut game, 1, "Zed".to_string()).unwrap();
    assert_eq!(game.team2.name, "Blue");
    assert_eq!(game.team2.score, 0);
    assert_eq!(game.team2.players.len(), 1);
    assert_eq!(game.team2.players[0].goals, 0);
    score_goal(&mut game, 2, "Carl".to_string()).unwrap();
    assert_eq!(game.team1.name, "Red");
    assert_eq!(game.team1.score, 2);
    assert_eq!(game.team1.players[0].goals, 1);
    assert_eq!(game.team1.players[1].goals, 0);
}
