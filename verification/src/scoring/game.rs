//! A game kept as a list of innings, with its outcome as a flat record.

use std::collections::HashMap;
use vstd::prelude::*;
use crate::scoring::cricket_match::text_view;
use crate::scoring::innings::{Innings, InningsView};
use crate::scoring::player::Team;
use crate::scoring::bounds::{fits_i32, within_i32};
use crate::scoring::search::first_is_first;
use crate::scoring::tally::{
    chase_unfinished,
    find_second_side,
    first_side,
    innings_batted_by,
    innings_of,
    innings_views,
    not_batted_by,
    one_sided,
    runs_of,
    runs_scored_by,
};
use crate::text::str_eq;

verus! {

/// The side that batted in the second innings. Meaningful where two innings
/// have been played.
pub open spec fn second_batting(innings: Seq<InningsView>) -> Seq<char> {
    innings[1].batting_team.name
}

/// Of the sides of the first two innings, the one with the higher total;
/// the side of the second where the totals are level.
pub open spec fn side_ahead(innings: Seq<InningsView>) -> Seq<char> {
    if runs_of(innings, first_side(innings)) > runs_of(innings, second_batting(innings)) {
        first_side(innings)
    } else {
        second_batting(innings)
    }
}

/// Of the sides of the first two innings, the one with the lower total;
/// the side of the first where the totals are level.
pub open spec fn side_behind(innings: Seq<InningsView>) -> Seq<char> {
    if runs_of(innings, first_side(innings)) > runs_of(innings, second_batting(innings)) {
        second_batting(innings)
    } else {
        first_side(innings)
    }
}

/// Mathematical value of an [`Outcome`].
pub ghost struct OutcomeView {
    pub draw: bool,
    pub tie: bool,
    pub winner: Option<Seq<char>>,
    pub runs_margin: Option<int>,
    pub wickets_margin: Option<int>,
    pub method: Option<Seq<char>>,
    pub innings_win: bool,
    pub result: bool,
}

impl OutcomeView {
    /// The outcome that records nothing.
    pub open spec fn blank() -> OutcomeView {
        OutcomeView {
            draw: false,
            tie: false,
            winner: None,
            runs_margin: None,
            wickets_margin: None,
            method: None,
            innings_win: false,
            result: false,
        }
    }

    /// A drawn game.
    pub open spec fn drawn() -> OutcomeView {
        OutcomeView { draw: true, result: true, ..OutcomeView::blank() }
    }

    /// A tied game.
    pub open spec fn tied() -> OutcomeView {
        OutcomeView { tie: true, ..OutcomeView::blank() }
    }

    /// A game that `winner` won from `loser`, where `batting_last` batted in
    /// the last innings and stood with `wickets_left` wickets in hand at its
    /// end: by those wickets where the winner batted last, else by the runs
    /// between the totals; by an innings where the winner batted less often.
    pub open spec fn won(
        innings: Seq<InningsView>,
        winner: Seq<char>,
        loser: Seq<char>,
        batting_last: Seq<char>,
        wickets_left: int,
    ) -> OutcomeView {
        OutcomeView {
            draw: false,
            tie: false,
            winner: Some(winner),
            runs_margin: if winner == batting_last {
                None
            } else {
                Some(runs_of(innings, winner) - runs_of(innings, loser))
            },
            wickets_margin: if winner == batting_last {
                Some(wickets_left)
            } else {
                None
            },
            method: None,
            innings_win: innings_of(innings, winner) < innings_of(innings, loser),
            result: true,
        }
    }
}

/// How a game ended.
#[derive(Debug)]
pub struct Outcome {
    pub draw: bool,
    pub tie: bool,
    pub winner: Option<String>,
    pub runs_margin: Option<i32>,
    pub wickets_margin: Option<i32>,
    pub method: Option<String>,
    pub innings_win: bool,
    pub result: bool,
}

/// The value of an optional margin.
pub open spec fn margin_view(margin: Option<i32>) -> Option<int> {
    match margin {
        Some(n) => Some(n as int),
        None => None,
    }
}

impl View for Outcome {
    type V = OutcomeView;

    open spec fn view(&self) -> OutcomeView {
        OutcomeView {
            draw: self.draw,
            tie: self.tie,
            winner: text_view(self.winner),
            runs_margin: margin_view(self.runs_margin),
            wickets_margin: margin_view(self.wickets_margin),
            method: text_view(self.method),
            innings_win: self.innings_win,
            result: self.result,
        }
    }
}

impl Default for Outcome {
    fn default() -> (outcome: Outcome)
        ensures
            outcome@ == OutcomeView::blank(),
    {
        Outcome {
            draw: false,
            tie: false,
            winner: None,
            runs_margin: None,
            wickets_margin: None,
            method: None,
            innings_win: false,
            result: false,
        }
    }
}

/// What is known of a game besides its play.
#[derive(Debug)]
pub struct Meta {
    pub venue: Option<String>,
}

/// The value of an optional outcome.
pub open spec fn outcome_view(outcome: Option<Outcome>) -> Option<OutcomeView> {
    match outcome {
        Some(outcome) => Some(outcome@),
        None => None,
    }
}

/// Mathematical value of a [`Game`].
pub ghost struct GameView {
    pub teams: Map<String, Team>,
    pub innings: Seq<InningsView>,
    pub venue: Option<Seq<char>>,
    pub outcome: Option<OutcomeView>,
}

impl GameView {
    /// Whether an outcome that is reported as `reported` is recorded as it
    /// stands: it names a method, or it says that there was no result.
    pub open spec fn takes_as_reported(reported: OutcomeView) -> bool {
        reported.method is Some || !reported.result
    }

    /// Whether the game is a draw: fewer than two sides have batted, or the
    /// side batting last is behind with wickets in hand and no winner is reported.
    pub open spec fn is_drawn(self, reported: OutcomeView) -> bool {
        one_sided(self.innings) || (chase_unfinished(self.innings) && reported.winner is None)
    }

    /// Whether the outcome is a win: nothing else was reported, the game is
    /// no draw, and the totals of the sides of the first two innings differ.
    pub open spec fn is_won(self, reported: OutcomeView) -> bool {
        &&& !GameView::takes_as_reported(reported)
        &&& !self.is_drawn(reported)
        &&& runs_of(self.innings, first_side(self.innings)) != runs_of(
            self.innings,
            second_batting(self.innings),
        )
    }

    /// The outcome of the game, given what was reported of it.
    pub open spec fn reckoned(self, reported: OutcomeView) -> OutcomeView {
        if GameView::takes_as_reported(reported) {
            reported
        } else if self.is_drawn(reported) {
            OutcomeView::drawn()
        } else if !self.is_won(reported) {
            OutcomeView::tied()
        } else {
            OutcomeView::won(
                self.innings,
                side_ahead(self.innings),
                side_behind(self.innings),
                self.innings.last().batting_team.name,
                self.innings.last().score.wickets_left,
            )
        }
    }

    /// The margin in runs, where the outcome is a win by runs, can be held in an `i32`.
    pub open spec fn margin_fits(self, reported: OutcomeView) -> bool {
        self.is_won(reported) && side_ahead(self.innings)
            != self.innings.last().batting_team.name ==> fits_i32(
            runs_of(self.innings, side_ahead(self.innings)) - runs_of(
                self.innings,
                side_behind(self.innings),
            ),
        )
    }
}

/// A game: the sides by name, the innings played, and the outcome once scored.
#[derive(Debug)]
pub struct Game {
    pub teams: HashMap<String, Team>,
    pub innings: Vec<Innings>,
    pub meta: Meta,
    pub outcome: Option<Outcome>,
}

impl View for Game {
    type V = GameView;

    open spec fn view(&self) -> GameView {
        GameView {
            teams: self.teams@,
            innings: innings_views(self.innings@),
            venue: text_view(self.meta.venue),
            outcome: outcome_view(self.outcome),
        }
    }
}

fn get_margin(
    innings: &Vec<Innings>,
    winning_team: &str,
    losing_team: &str,
    batting_team: &str,
    last_innings_wickets_left: i32,
) -> (outcome: Outcome)
    requires
        winning_team@ != batting_team@ ==> fits_i32(
            runs_of(innings_views(innings@), winning_team@) - runs_of(
                innings_views(innings@),
                losing_team@,
            ),
        ),
    ensures
        outcome@ == OutcomeView::won(
            innings_views(innings@),
            winning_team@,
            losing_team@,
            batting_team@,
            last_innings_wickets_left as int,
        ),
{
    let mut runs_margin: Option<i32> = None;
    let mut wickets_margin: Option<i32> = None;
    let innings_win = innings_batted_by(innings, winning_team) < innings_batted_by(
        innings,
        losing_team,
    );
    if str_eq(winning_team, batting_team) {
        wickets_margin = Some(last_innings_wickets_left);
    } else {
        let winning_score = runs_scored_by(innings, winning_team);
        let losing_score = runs_scored_by(innings, losing_team);
        runs_margin = Some((winning_score - losing_score) as i32);
    }
    Outcome {
        draw: false,
        tie: false,
        winner: Some(winning_team.to_owned()),
        runs_margin,
        wickets_margin,
        method: None,
        innings_win,
        result: true,
    }
}

impl Game {
    /// A game between `teams` of which nothing has been played.
    pub fn new(meta: Meta, teams: HashMap<String, Team>) -> (game: Game)
        ensures
            game@ == (GameView {
                teams: teams@,
                innings: Seq::empty(),
                venue: text_view(meta.venue),
                outcome: None,
            }),
    {
        let game = Game { meta, teams, innings: Vec::new(), outcome: None };
        assert(innings_views(game.innings@) =~= Seq::empty());
        game
    }

    /// Whether the game can be scored on the report `outcome`: the margin of
    /// a win by runs is within an `i32`.
    pub fn can_score(&self, outcome: &Outcome) -> (ok: bool)
        ensures
            ok == self@.margin_fits(outcome@),
    {
        if outcome.method.is_some() || !outcome.result || self.innings.len() == 0 {
            return true;
        }
        let ghost played = self@.innings;
        match find_second_side(&self.innings) {
            None => true,
            Some(_) => {
                proof {
                    first_is_first(not_batted_by(played, first_side(played)));
                }
                let last = &self.innings[self.innings.len() - 1];
                let batting_team = last.batting_team.name.as_str();
                let bowling_team = last.bowling_team.name.as_str();
                let team_a = self.innings[0].batting_team.name.as_str();
                let team_b = self.innings[1].batting_team.name.as_str();
                let team_a_total = runs_scored_by(&self.innings, team_a);
                let team_b_total = runs_scored_by(&self.innings, team_b);
                if runs_scored_by(&self.innings, batting_team) < runs_scored_by(
                    &self.innings,
                    bowling_team,
                ) && last.score.wickets_left > 0 && outcome.winner.is_none() {
                    true
                } else if team_a_total == team_b_total {
                    true
                } else if team_a_total > team_b_total {
                    str_eq(team_a, batting_team) || within_i32(team_a_total - team_b_total)
                } else {
                    str_eq(team_b, batting_team) || within_i32(team_b_total - team_a_total)
                }
            },
        }
    }

    /// Records the outcome of the game: as reported where the report names a
    /// method or says that there was no result, else as the innings add up.
    pub fn score(&mut self, outcome: Outcome)
        requires
            old(self)@.margin_fits(outcome@),
        ensures
            final(self)@ == (GameView {
                outcome: Some(old(self)@.reckoned(outcome@)),
                ..old(self)@
            }),
    {
        if outcome.method.is_some() || !outcome.result {
            self.outcome = Some(outcome);
            return;
        }
        if self.innings.len() == 0 {
            self.outcome = Some(Outcome { draw: true, result: true, ..Outcome::default() });
            return;
        }
        let ghost played = self@.innings;
        let reckoned = match find_second_side(&self.innings) {
            None => Outcome { draw: true, result: true, ..Outcome::default() },
            Some(_) => {
                proof {
                    first_is_first(not_batted_by(played, first_side(played)));
                }
                let last = &self.innings[self.innings.len() - 1];
                let batting_team = last.batting_team.name.as_str();
                let bowling_team = last.bowling_team.name.as_str();
                let team_a = self.innings[0].batting_team.name.as_str();
                let team_b = self.innings[1].batting_team.name.as_str();
                let team_a_total = runs_scored_by(&self.innings, team_a);
                let team_b_total = runs_scored_by(&self.innings, team_b);
                if runs_scored_by(&self.innings, batting_team) < runs_scored_by(
                    &self.innings,
                    bowling_team,
                ) && last.score.wickets_left > 0 && outcome.winner.is_none() {
                    Outcome { draw: true, result: true, ..Outcome::default() }
                } else if team_a_total == team_b_total {
                    Outcome { tie: true, ..Outcome::default() }
                } else if team_a_total > team_b_total {
                    get_margin(
                        &self.innings,
                        team_a,
                        team_b,
                        batting_team,
                        last.score.wickets_left,
                    )
                } else {
                    get_margin(
                        &self.innings,
                        team_b,
                        team_a,
                        batting_team,
                        last.score.wickets_left,
                    )
                }
            },
        };
        self.outcome = Some(reckoned);
    }
}

} // verus!
