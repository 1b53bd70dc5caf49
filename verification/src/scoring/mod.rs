//! The scoring engine: players, deliveries, innings and matches.

pub mod ball;
pub mod bounds;
pub mod cricket_match;
pub mod game;
pub mod innings;
pub mod player;
pub mod score;
pub mod search;
pub mod tally;

pub use ball::{BallEvents, BallOutcome, Wicket};
pub use cricket_match::{Match, MatchResult, MatchStatus, MatchType, WinMargin};
pub use innings::Innings;
pub use player::{Player, Team};
pub use score::CurrentScore;
