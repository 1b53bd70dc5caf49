//! From the recorded outcome of a match to its result.

use vstd::prelude::*;
use vstd::string::StringExecFns;
use crate::cricsheet::record::{Method, Outcome};
use crate::scoring::cricket_match::{
    MatchResult,
    ResultView,
    WinMargin,
    clone_text,
    low_byte,
    text_view,
    wickets_margin,
};
use crate::text::{decimal, push_decimal, str_eq};

verus! {

/// The low thirty-two bits of a count: the count itself where it is not
/// negative.
pub open spec fn low_word(n: int) -> u32 {
    (n % 0x1_0000_0000) as u32
}

fn runs_margin(runs: i32) -> (word: u32)
    ensures
        word == low_word(runs as int),
{
    if runs < 0 {
        (runs as i64 + 0x1_0000_0000) as u32
    } else {
        runs as u32
    }
}

fn text_is(text: &Option<String>, wanted: &str) -> (same: bool)
    ensures
        same == (text_view(*text) == Some(wanted@)),
{
    match text {
        Some(text) => str_eq(text.as_str(), wanted),
        None => false,
    }
}

impl Method {
    /// The margin in words: in runs where runs are recorded, else in
    /// wickets, and "by an innings and" where an innings is recorded too.
    /// Meaningful where runs or wickets are recorded.
    pub open spec fn text(&self) -> Seq<char> {
        let opening = if self.innings is Some {
            "Won by an innings and "@
        } else {
            "Won by "@
        };
        let margin = match self.runs {
            Some(runs) => decimal(runs as int) + " runs"@,
            None => match self.wickets {
                Some(wickets) => decimal(wickets as int) + " wickets"@,
                None => Seq::empty(),
            },
        };
        opening + margin
    }

    /// The margin in words.
    pub fn to_string(&self) -> (text: String)
        requires
            self.runs is Some || self.wickets is Some,
        ensures
            text@ == self.text(),
    {
        let mut text = if self.innings.is_some() {
            String::from_str("Won by an innings and ")
        } else {
            String::from_str("Won by ")
        };
        let ghost opening = text@;
        match self.runs {
            Some(runs) => {
                push_decimal(&mut text, runs as i64);
                text.append(" runs");
                assert(text@ =~= opening + (decimal(runs as int) + " runs"@));
            },
            None => match self.wickets {
                Some(wickets) => {
                    push_decimal(&mut text, wickets as i64);
                    text.append(" wickets");
                    assert(text@ =~= opening + (decimal(wickets as int) + " wickets"@));
                },
                None => {},
            },
        }
        text
    }
}

impl Outcome {
    /// The margin of the recorded win: in runs where runs are recorded, else
    /// in wickets where wickets are, and else by award.
    pub open spec fn margin(&self) -> WinMargin {
        match self.by {
            Some(by) => match by.runs {
                Some(runs) => WinMargin::Runs(low_word(runs as int)),
                None => match by.wickets {
                    Some(wickets) => WinMargin::Wickets(low_byte(wickets as int)),
                    None => WinMargin::Award,
                },
            },
            None => WinMargin::Award,
        }
    }

    /// The result that the record stands for, in a match between `team1` and
    /// `team2`: a draw, a tie or no result where the record says so; else the
    /// win of the side recorded as the winner; and no result where no winner
    /// is recorded, or one that is neither side.
    pub open spec fn match_result(&self, team1: Seq<char>, team2: Seq<char>) -> ResultView {
        if text_view(self.result) == Some("draw"@) {
            ResultView::Draw
        } else if text_view(self.result) == Some("tie"@) {
            ResultView::Tie { method: text_view(self.method) }
        } else if text_view(self.result) == Some("no result"@) {
            ResultView::NoResult
        } else {
            match self.winner {
                Some(winner) => if winner@ == team1 {
                    ResultView::Team1Won { margin: self.margin(), method: text_view(self.method) }
                } else if winner@ == team2 {
                    ResultView::Team2Won { margin: self.margin(), method: text_view(self.method) }
                } else {
                    ResultView::NoResult
                },
                None => ResultView::NoResult,
            }
        }
    }

    /// The result that the record stands for, in a match between the sides
    /// called `team1_name` and `team2_name`.
    pub fn create_match_result(&self, team1_name: &str, team2_name: &str) -> (result: MatchResult)
        ensures
            result@ == self.match_result(team1_name@, team2_name@),
    {
        if text_is(&self.result, "draw") {
            return MatchResult::Draw;
        }
        if text_is(&self.result, "tie") {
            return MatchResult::Tie { method: clone_text(&self.method) };
        }
        if text_is(&self.result, "no result") {
            return MatchResult::NoResult;
        }
        match &self.winner {
            Some(winner) => {
                let margin = match self.by {
                    Some(by) => match by.runs {
                        Some(runs) => WinMargin::Runs(runs_margin(runs)),
                        None => match by.wickets {
                            Some(wickets) => WinMargin::Wickets(wickets_margin(wickets)),
                            None => WinMargin::Award,
                        },
                    },
                    None => WinMargin::Award,
                };
                let method = clone_text(&self.method);
                if str_eq(winner.as_str(), team1_name) {
                    MatchResult::Team1Won { margin, method }
                } else if str_eq(winner.as_str(), team2_name) {
                    MatchResult::Team2Won { margin, method }
                } else {
                    MatchResult::NoResult
                }
            },
            None => MatchResult::NoResult,
        }
    }
}

} // verus!
