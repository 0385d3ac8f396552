//! A record of one two-team soccer match: team names, rosters, per-player
//! goal counts and aggregate scores, with the operations that create the
//! record, credit a goal and render a status report.
//!
//! Every operation is a plain function on plain values. Whoever stores the
//! record or publishes its events does so around these functions.

pub mod game;
pub mod model;
pub mod status;
pub mod team;
pub mod theorems;

pub use crate::game::{
    can_score_goal, initialize_game, score_goal, ErrorCode, Game, GameEvent, GameState, ScoreEvent,
};
pub use crate::model::{GameView, GoalCall, PlayerView, TeamView};
pub use crate::status::get_game_status;
pub use crate::team::{Player, Team};
