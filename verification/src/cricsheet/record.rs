//! The records of a Cricsheet match file.

use std::collections::HashMap;
use vstd::prelude::*;

verus! {

/// A whole match file.
#[derive(Debug, Clone)]
pub struct Cricsheet {
    pub meta: CricsheetMeta,
    pub info: CricsheetInfo,
    pub innings: Vec<CricsheetInnings>,
}

/// What the file says of itself.
#[derive(Debug, Clone)]
pub struct CricsheetMeta {
    pub data_version: String,
    pub created: String,
    pub revision: i32,
}

/// A day of the calendar, by its numbers.
#[derive(Debug, Clone)]
pub struct Date {
    pub year: i32,
    pub month: u32,
    pub day: u32,
}

/// The players that a side named for the match.
#[derive(Debug, Clone)]
pub struct Squad {
    pub team: String,
    pub players: Vec<String>,
}

/// What is known of the match besides its play.
///
/// `players` holds one squad for each side. A record with two squads for
/// one side is looked up by the first of them.
#[derive(Debug, Clone)]
pub struct CricsheetInfo {
    pub balls_per_over: i32,
    pub bowl_out: Option<Vec<BowlOut>>,
    pub city: Option<String>,
    pub dates: Vec<Date>,
    pub event: Option<Event>,
    pub gender: String,
    pub match_type: String,
    pub match_type_number: Option<i32>,
    pub missing: Option<Vec<Missing>>,
    pub officials: Option<Officials>,
    pub outcome: Outcome,
    pub overs: Option<i32>,
    pub player_of_match: Option<Vec<String>>,
    pub players: Vec<Squad>,
    pub registry: Registry,
    pub season: String,
    pub supersubs: Option<HashMap<String, String>>,
    pub team_type: String,
    pub teams: Vec<String>,
    pub toss: Toss,
    pub venue: Option<String>,
}

/// One innings of the file.
#[derive(Debug, Clone)]
pub struct CricsheetInnings {
    pub team: String,
    pub overs: Option<Vec<Over>>,
    pub absent_hurt: Option<Vec<String>>,
    pub penalty_runs: Option<PenaltyRuns>,
    pub declared: Option<bool>,
    pub forfeited: Option<bool>,
    pub miscounted_overs: Option<HashMap<String, MiscountedOver>>,
    pub super_over: Option<bool>,
}

/// Penalty runs awarded before an innings began and after it ended.
#[derive(Debug, Clone)]
pub struct PenaltyRuns {
    pub pre: Option<i32>,
    pub post: Option<i32>,
}

/// An over that the umpire counted wrongly.
#[derive(Debug, Clone)]
pub struct MiscountedOver {
    pub balls: String,
    pub umpire: Option<String>,
}

/// An over and its deliveries.
#[derive(Debug, Clone)]
pub struct Over {
    pub over: i32,
    pub deliveries: Vec<Delivery>,
}

/// One delivery as the file records it.
#[derive(Debug, Clone)]
pub struct Delivery {
    pub batter: String,
    pub bowler: String,
    pub extras: Option<Extras>,
    pub non_striker: String,
    pub replacements: Option<Replacement>,
    pub review: Option<Review>,
    pub runs: Runs,
    pub wickets: Option<Vec<Wicket>>,
}

/// The extras of a delivery, by kind.
#[derive(Debug, Clone)]
pub struct Extras {
    pub byes: Option<i32>,
    pub legbyes: Option<i32>,
    pub noballs: Option<i32>,
    pub penalty: Option<i32>,
    pub wides: Option<i32>,
}

/// Players replaced at a delivery.
#[derive(Debug, Clone)]
pub struct Replacement {
    pub role: Option<Vec<ReplacementRole>>,
    pub game: Option<Vec<ReplacementMatch>>,
}

/// A player who took over a role.
#[derive(Debug, Clone)]
pub struct ReplacementRole {
    pub player_in: String,
    pub out: Option<String>,
    pub reason: String,
    pub role: String,
}

/// A player who took another's place in the match.
#[derive(Debug, Clone)]
pub struct ReplacementMatch {
    pub player_in: String,
    pub out: Option<String>,
    pub reason: String,
    pub team: String,
}

/// A decision sent for review.
#[derive(Debug, Clone)]
pub struct Review {
    pub batter: String,
    pub by: String,
    pub decision: String,
    pub umpire: Option<String>,
    pub umpires_call: Option<bool>,
}

/// The runs of a delivery.
#[derive(Debug, Clone)]
pub struct Runs {
    pub batter: i32,
    pub extras: i32,
    pub non_boundary: Option<bool>,
    pub total: i32,
}

/// A dismissal as the file records it.
#[derive(Debug, Clone)]
pub struct Wicket {
    pub fielders: Option<Vec<Fielder>>,
    pub kind: String,
    pub player_out: String,
}

/// A fielder who had a hand in a dismissal.
#[derive(Debug, Clone)]
pub struct Fielder {
    pub name: Option<String>,
    pub substitute: Option<bool>,
}

/// One attempt of a bowl-out.
#[derive(Debug, Clone)]
pub struct BowlOut {
    pub bowler: String,
    pub outcome: String,
}

/// The competition that the match belongs to.
#[derive(Debug, Clone)]
pub struct Event {
    pub name: String,
    pub match_number: Option<i32>,
    pub group: Option<String>,
    pub stage: Option<String>,
}

/// Something that the file is known to lack.
#[derive(Debug, Clone)]
pub enum Missing {
    StringField(String),
    Powerplays(MissingPowerplays),
}

/// The powerplays that the file is known to lack.
#[derive(Debug, Clone)]
pub struct MissingPowerplays {
    pub powerplays: HashMap<String, Vec<String>>,
}

/// Those who officiated.
#[derive(Debug, Clone)]
pub struct Officials {
    pub match_referees: Option<Vec<String>>,
    pub reserve_umpires: Option<Vec<String>>,
    pub tv_umpires: Option<Vec<String>>,
    pub umpires: Option<Vec<String>>,
}

/// The margin of a win as the file records it.
#[derive(Debug, Clone, Copy)]
pub struct Method {
    pub innings: Option<i32>,
    pub runs: Option<i32>,
    pub wickets: Option<i32>,
}

/// How the match ended, as the file records it.
#[derive(Debug, Clone)]
pub struct Outcome {
    pub by: Option<Method>,
    pub bowl_out: Option<String>,
    pub eliminator: Option<String>,
    pub method: Option<String>,
    pub result: Option<String>,
    pub winner: Option<String>,
}

/// The identifiers of the people named in the file.
#[derive(Debug, Clone)]
pub struct Registry {
    pub people: HashMap<String, String>,
}

/// The toss.
#[derive(Debug, Clone)]
pub struct Toss {
    pub decision: String,
    pub winner: String,
    pub uncontested: Option<bool>,
}

} // verus!
