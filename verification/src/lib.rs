//! Ball-by-ball cricket scoring: deliveries are applied in play order to an
//! innings, and a match's result is derived from its recorded innings.

pub mod cricsheet;
pub mod error;
pub mod scoring;
pub mod text;

pub use scoring::{
    BallEvents, BallOutcome, CurrentScore, Innings, Match, MatchResult, MatchStatus, MatchType,
    Player, Team, Wicket, WinMargin,
};
