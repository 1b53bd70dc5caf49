//! Matches as the Cricsheet archive records them, and their replay through
//! the scoring engine.

pub mod delivery;
pub mod fixture;
pub mod record;
pub mod replay;
pub mod result;

pub use record::{
    BowlOut, Cricsheet, CricsheetInfo, CricsheetInnings, CricsheetMeta, Date, Delivery, Event,
    Extras, Fielder, Method, MiscountedOver, Missing, MissingPowerplays, Officials, Outcome, Over,
    PenaltyRuns, Registry, Replacement, ReplacementMatch, ReplacementRole, Review, Runs, Squad,
    Toss, Wicket,
};
