//! A match: two sides, the innings played, and the result they add up to.

use vstd::prelude::*;
use vstd::string::StringExecFns;
use crate::scoring::innings::{Innings, InningsView};
use crate::scoring::player::{Team, TeamView};
use crate::scoring::bounds::fits_i32;
use crate::scoring::search::first_is_first;
use crate::scoring::tally::{
    chase_unfinished,
    find_second_side,
    first_side,
    innings_batted_by,
    innings_victory,
    innings_views,
    is_two_sided,
    leading_side,
    not_batted_by,
    one_sided,
    runs_of,
    runs_scored_by,
    second_side,
    totals_fit,
    trailing_side,
};
use crate::text::str_eq;

verus! {

/// The value of an optional text.
pub open spec fn text_view(text: Option<String>) -> Option<Seq<char>> {
    match text {
        Some(text) => Some(text@),
        None => None,
    }
}

/// Mathematical value of a [`MatchType`].
pub ghost enum MatchTypeView {
    Test,
    OD,
    T20,
    Other(Seq<char>),
}

/// The format that a match is played in.
#[derive(Debug)]
pub enum MatchType {
    /// Test cricket.
    Test,
    /// One-day cricket.
    OD,
    /// Twenty20.
    T20,
    /// Another format, by its description.
    Other(String),
}

impl View for MatchType {
    type V = MatchTypeView;

    open spec fn view(&self) -> MatchTypeView {
        match self {
            MatchType::Test => MatchTypeView::Test,
            MatchType::OD => MatchTypeView::OD,
            MatchType::T20 => MatchTypeView::T20,
            MatchType::Other(description) => MatchTypeView::Other(description@),
        }
    }
}

impl Clone for MatchType {
    fn clone(&self) -> (copy: MatchType)
        ensures
            copy@ == self@,
    {
        match self {
            MatchType::Test => MatchType::Test,
            MatchType::OD => MatchType::OD,
            MatchType::T20 => MatchType::T20,
            MatchType::Other(description) => MatchType::Other(description.clone()),
        }
    }
}

impl Default for MatchType {
    fn default() -> (match_type: MatchType)
        ensures
            match_type@ == MatchTypeView::Other("Unknown"@),
    {
        MatchType::Other(String::from_str("Unknown"))
    }
}

/// How far a match has got.
#[derive(Debug)]
pub enum MatchStatus {
    NotStarted,
    InProgress,
    Completed,
    Abandoned,
    NoResult,
}

impl Clone for MatchStatus {
    fn clone(&self) -> (copy: MatchStatus)
        ensures
            copy == *self,
    {
        match self {
            MatchStatus::NotStarted => MatchStatus::NotStarted,
            MatchStatus::InProgress => MatchStatus::InProgress,
            MatchStatus::Completed => MatchStatus::Completed,
            MatchStatus::Abandoned => MatchStatus::Abandoned,
            MatchStatus::NoResult => MatchStatus::NoResult,
        }
    }
}

impl Default for MatchStatus {
    fn default() -> (status: MatchStatus)
        ensures
            status == MatchStatus::NotStarted,
    {
        MatchStatus::NotStarted
    }
}

/// By how much a match was won.
#[derive(Debug)]
pub enum WinMargin {
    /// By this many runs.
    Runs(u32),
    /// By this many wickets.
    Wickets(u8),
    /// By award (a forfeit, a disqualification): there is no playing margin.
    Award,
}

impl Clone for WinMargin {
    fn clone(&self) -> (copy: WinMargin)
        ensures
            copy == *self,
    {
        match self {
            WinMargin::Runs(runs) => WinMargin::Runs(*runs),
            WinMargin::Wickets(wickets) => WinMargin::Wickets(*wickets),
            WinMargin::Award => WinMargin::Award,
        }
    }
}

/// Mathematical value of a [`MatchResult`].
pub ghost enum ResultView {
    Team1Won { margin: WinMargin, method: Option<Seq<char>> },
    Team2Won { margin: WinMargin, method: Option<Seq<char>> },
    Tie { method: Option<Seq<char>> },
    Draw,
    NoResult,
}

impl ResultView {
    /// The method that settled the result, where one is recorded.
    pub open spec fn method(self) -> Option<Seq<char>> {
        match self {
            ResultView::Team1Won { method, .. } => method,
            ResultView::Team2Won { method, .. } => method,
            ResultView::Tie { method } => method,
            ResultView::Draw => None,
            ResultView::NoResult => None,
        }
    }

    /// This result settled by `method`. A draw and a no-result record no method.
    pub open spec fn with_method(self, method: Option<Seq<char>>) -> ResultView {
        match self {
            ResultView::Team1Won { margin, .. } => ResultView::Team1Won { margin, method },
            ResultView::Team2Won { margin, .. } => ResultView::Team2Won { margin, method },
            ResultView::Tie { .. } => ResultView::Tie { method },
            ResultView::Draw => ResultView::Draw,
            ResultView::NoResult => ResultView::NoResult,
        }
    }
}

/// How a match ended. A `method` names the rule that settled an interrupted
/// match, such as "D/L".
#[derive(Debug)]
pub enum MatchResult {
    Team1Won { margin: WinMargin, method: Option<String> },
    Team2Won { margin: WinMargin, method: Option<String> },
    Tie { method: Option<String> },
    Draw,
    NoResult,
}

impl View for MatchResult {
    type V = ResultView;

    open spec fn view(&self) -> ResultView {
        match self {
            MatchResult::Team1Won { margin, method } => ResultView::Team1Won {
                margin: *margin,
                method: text_view(*method),
            },
            MatchResult::Team2Won { margin, method } => ResultView::Team2Won {
                margin: *margin,
                method: text_view(*method),
            },
            MatchResult::Tie { method } => ResultView::Tie { method: text_view(*method) },
            MatchResult::Draw => ResultView::Draw,
            MatchResult::NoResult => ResultView::NoResult,
        }
    }
}

/// A copy of an optional text.
pub fn clone_text(text: &Option<String>) -> (copy: Option<String>)
    ensures
        text_view(copy) == text_view(*text),
{
    match text {
        Some(text) => Some(text.clone()),
        None => None,
    }
}

impl Clone for MatchResult {
    fn clone(&self) -> (copy: MatchResult)
        ensures
            copy@ == self@,
    {
        match self {
            MatchResult::Team1Won { margin, method } => MatchResult::Team1Won {
                margin: margin.clone(),
                method: clone_text(method),
            },
            MatchResult::Team2Won { margin, method } => MatchResult::Team2Won {
                margin: margin.clone(),
                method: clone_text(method),
            },
            MatchResult::Tie { method } => MatchResult::Tie { method: clone_text(method) },
            MatchResult::Draw => MatchResult::Draw,
            MatchResult::NoResult => MatchResult::NoResult,
        }
    }
}

/// The value of an optional result.
pub open spec fn result_view(result: Option<MatchResult>) -> Option<ResultView> {
    match result {
        Some(result) => Some(result@),
        None => None,
    }
}

/// The low eight bits of a count: the count itself from 0 to 255.
pub open spec fn low_byte(n: int) -> u8 {
    (n % 256) as u8
}

/// The margin by which `winner` beat `loser`, where `batting_last` batted in
/// the last innings and stood with `wickets_left` wickets in hand at its end.
///
/// A side that did not bat last wins by runs, and so does every winner by an
/// innings; a side that won while batting last wins by the wickets it had left.
pub open spec fn margin_of(
    innings: Seq<InningsView>,
    winner: Seq<char>,
    loser: Seq<char>,
    batting_last: Seq<char>,
    wickets_left: int,
) -> WinMargin {
    if !innings_victory(innings) && winner == batting_last {
        WinMargin::Wickets(low_byte(wickets_left))
    } else {
        WinMargin::Runs((runs_of(innings, winner) - runs_of(innings, loser)) as u32)
    }
}

/// Mathematical value of a [`Match`].
pub ghost struct MatchView {
    pub id: Seq<char>,
    pub title: Seq<char>,
    pub venue: Option<Seq<char>>,
    pub date: Option<Seq<char>>,
    pub match_type: MatchTypeView,
    pub team1: TeamView,
    pub team2: TeamView,
    pub innings: Seq<InningsView>,
    pub status: MatchStatus,
    pub result: Option<ResultView>,
}

impl MatchView {
    /// The recorded result, if any, names the method that settled it.
    pub open spec fn settled_by_method(self) -> bool {
        self.result is Some && self.result->0.method() is Some
    }

    /// The result that the innings add up to. Meaningful where an innings has
    /// been played.
    ///
    /// A draw where fewer than two sides have batted, or where the side
    /// batting last is behind with wickets in hand. Else a tie on equal
    /// totals, and else a win for the side with the higher total, which is
    /// recorded as the first team's where that side bears the first team's name.
    pub open spec fn decided(self) -> ResultView {
        if one_sided(self.innings) || chase_unfinished(self.innings) {
            ResultView::Draw
        } else if runs_of(self.innings, first_side(self.innings)) == runs_of(
            self.innings,
            second_side(self.innings),
        ) {
            ResultView::Tie { method: None }
        } else {
            let margin = margin_of(
                self.innings,
                leading_side(self.innings),
                trailing_side(self.innings),
                self.innings.last().batting_team.name,
                self.innings.last().score.wickets_left,
            );
            if leading_side(self.innings) == self.team1.name {
                ResultView::Team1Won { margin, method: None }
            } else {
                ResultView::Team2Won { margin, method: None }
            }
        }
    }

    /// Whether calculating the result changes anything: an innings has been
    /// played, and no result settled by a method stands.
    pub open spec fn open_to_calculation(self) -> bool {
        self.innings.len() > 0 && !self.settled_by_method()
    }

    /// The match once its result has been calculated.
    pub open spec fn after_calculation(self) -> MatchView {
        if self.open_to_calculation() {
            MatchView { result: Some(self.decided()), status: MatchStatus::Completed, ..self }
        } else {
            self
        }
    }
}

/// Calculating the result a second time changes nothing.
pub proof fn calculation_is_idempotent(played: MatchView)
    ensures
        played.after_calculation().after_calculation() == played.after_calculation(),
{
}

/// What the innings add up to is a draw, a tie or a win, and never by award:
/// the margin of a win is in runs or in wickets.
pub proof fn calculation_decides(played: MatchView)
    ensures
        !(played.decided() is NoResult),
        played.decided().method() is None,
        played.decided() is Team1Won ==> !(played.decided()->Team1Won_margin is Award),
        played.decided() is Team2Won ==> !(played.decided()->Team2Won_margin is Award),
{
}

/// A win by an innings is a win by runs, whoever batted last.
pub proof fn innings_victory_is_by_runs(
    innings: Seq<InningsView>,
    winner: Seq<char>,
    loser: Seq<char>,
    batting_last: Seq<char>,
    wickets_left: int,
)
    requires
        innings_victory(innings),
    ensures
        margin_of(innings, winner, loser, batting_last, wickets_left) is Runs,
{
}

/// A cricket match.
#[derive(Debug)]
pub struct Match {
    pub id: String,
    pub title: String,
    pub venue: Option<String>,
    pub date: Option<String>,
    pub match_type: MatchType,
    pub team1: Team,
    pub team2: Team,
    /// The innings played so far, in the order in which they were played.
    pub innings: Vec<Innings>,
    pub status: MatchStatus,
    /// The result, once there is one.
    pub result: Option<MatchResult>,
}

impl View for Match {
    type V = MatchView;

    open spec fn view(&self) -> MatchView {
        MatchView {
            id: self.id@,
            title: self.title@,
            venue: text_view(self.venue),
            date: text_view(self.date),
            match_type: self.match_type@,
            team1: self.team1@,
            team2: self.team2@,
            innings: innings_views(self.innings@),
            status: self.status,
            result: result_view(self.result),
        }
    }
}

fn clone_innings(innings: &Vec<Innings>) -> (copy: Vec<Innings>)
    ensures
        innings_views(copy@) == innings_views(innings@),
{
    let mut copy: Vec<Innings> = Vec::new();
    let mut i: usize = 0;
    while i < innings.len()
        invariant
            i <= innings.len(),
            copy@.len() == i,
            forall|j: int| 0 <= j < i ==> (#[trigger] copy@[j])@ == innings@[j]@,
        decreases innings.len() - i,
    {
        copy.push(innings[i].clone());
        i += 1;
    }
    assert(innings_views(copy@) =~= innings_views(innings@));
    copy
}

impl Clone for Match {
    fn clone(&self) -> (copy: Match)
        ensures
            copy@ == self@,
    {
        Match {
            id: self.id.clone(),
            title: self.title.clone(),
            venue: clone_text(&self.venue),
            date: clone_text(&self.date),
            match_type: self.match_type.clone(),
            team1: self.team1.clone(),
            team2: self.team2.clone(),
            innings: clone_innings(&self.innings),
            status: self.status.clone(),
            result: match &self.result {
                Some(result) => Some(result.clone()),
                None => None,
            },
        }
    }
}

fn names_method(result: &Option<MatchResult>) -> (named: bool)
    ensures
        named == (result_view(*result) is Some && result_view(*result)->0.method() is Some),
{
    match result {
        Some(MatchResult::Team1Won { method, .. }) => method.is_some(),
        Some(MatchResult::Team2Won { method, .. }) => method.is_some(),
        Some(MatchResult::Tie { method }) => method.is_some(),
        Some(MatchResult::Draw) => false,
        Some(MatchResult::NoResult) => false,
        None => false,
    }
}

/// The low eight bits of a count of wickets.
pub fn wickets_margin(wickets_left: i32) -> (byte: u8)
    ensures
        byte == low_byte(wickets_left as int),
{
    let remainder = wickets_left % 256;
    if remainder < 0 {
        (remainder + 256) as u8
    } else {
        remainder as u8
    }
}

impl Match {
    /// A match between `team1` and `team2` that has not started: no venue,
    /// no date, no innings, no result.
    pub fn new(id: String, title: String, match_type: MatchType, team1: Team, team2: Team) -> (created:
        Match)
        ensures
            created@ == (MatchView {
                id: id@,
                title: title@,
                venue: None,
                date: None,
                match_type: match_type@,
                team1: team1@,
                team2: team2@,
                innings: Seq::empty(),
                status: MatchStatus::NotStarted,
                result: None,
            }),
    {
        let created = Match {
            id,
            title,
            venue: None,
            date: None,
            match_type,
            team1,
            team2,
            innings: Vec::new(),
            status: MatchStatus::NotStarted,
            result: None,
        };
        assert(innings_views(created.innings@) =~= Seq::empty());
        created
    }

    /// This match, played at `venue`.
    pub fn with_venue(self, venue: String) -> (updated: Match)
        ensures
            updated@ == (MatchView { venue: Some(venue@), ..self@ }),
    {
        let mut updated = self;
        updated.venue = Some(venue);
        updated
    }

    /// This match, played on `date`.
    pub fn with_date(self, date: String) -> (updated: Match)
        ensures
            updated@ == (MatchView { date: Some(date@), ..self@ }),
    {
        let mut updated = self;
        updated.date = Some(date);
        updated
    }

    /// Appends an innings to those played.
    pub fn add_innings(&mut self, innings: Innings)
        ensures
            final(self)@ == (MatchView {
                innings: old(self)@.innings.push(innings@),
                ..old(self)@
            }),
    {
        self.innings.push(innings);
        assert(innings_views(self.innings@) =~= old(self)@.innings.push(innings@));
    }

    /// Sets the status.
    pub fn set_status(&mut self, status: MatchStatus)
        ensures
            final(self)@ == (MatchView { status, ..old(self)@ }),
    {
        self.status = status;
    }

    /// Records `result` as the result of the match, which is thereby completed.
    pub fn set_result(&mut self, result: MatchResult)
        ensures
            final(self)@ == (MatchView {
                result: Some(result@),
                status: MatchStatus::Completed,
                ..old(self)@
            }),
    {
        self.result = Some(result);
        self.status = MatchStatus::Completed;
    }

    /// Records `result`, settled by `method`, as the result of the match. A
    /// draw and a no-result are recorded as they are.
    pub fn set_result_with_method(&mut self, result: MatchResult, method: Option<String>)
        ensures
            final(self)@ == (MatchView {
                result: Some(result@.with_method(text_view(method))),
                status: MatchStatus::Completed,
                ..old(self)@
            }),
    {
        let result_with_method = match result {
            MatchResult::Team1Won { margin, .. } => MatchResult::Team1Won { margin, method },
            MatchResult::Team2Won { margin, .. } => MatchResult::Team2Won { margin, method },
            MatchResult::Tie { .. } => MatchResult::Tie { method },
            MatchResult::Draw => MatchResult::Draw,
            MatchResult::NoResult => MatchResult::NoResult,
        };
        self.set_result(result_with_method);
    }

    /// Whether the match is completed.
    pub fn is_completed(&self) -> (completed: bool)
        ensures
            completed == (self.status is Completed),
    {
        match self.status {
            MatchStatus::Completed => true,
            _ => false,
        }
    }

    /// Whether the match is in progress.
    pub fn is_in_progress(&self) -> (in_progress: bool)
        ensures
            in_progress == (self.status is InProgress),
    {
        match self.status {
            MatchStatus::InProgress => true,
            _ => false,
        }
    }

    /// The runs of the first team, over all the innings in which the batting
    /// side bore its name.
    pub fn team1_total_runs(&self) -> (total: i32)
        requires
            fits_i32(runs_of(self@.innings, self@.team1.name)),
        ensures
            total == runs_of(self@.innings, self@.team1.name),
    {
        runs_scored_by(&self.innings, self.team1.name.as_str()) as i32
    }

    /// The runs of the second team, over all the innings in which the batting
    /// side bore its name.
    pub fn team2_total_runs(&self) -> (total: i32)
        requires
            fits_i32(runs_of(self@.innings, self@.team2.name)),
        ensures
            total == runs_of(self@.innings, self@.team2.name),
    {
        runs_scored_by(&self.innings, self.team2.name.as_str()) as i32
    }

    /// Works out the result from the innings played and completes the match.
    ///
    /// Nothing changes where no innings has been played, nor where the
    /// recorded result names the method that settled it.
    pub fn calculate_result(&mut self)
        requires
            old(self)@.open_to_calculation() ==> totals_fit(old(self)@.innings),
        ensures
            final(self)@ == old(self)@.after_calculation(),
    {
        if self.innings.len() == 0 || names_method(&self.result) {
            return;
        }
        let ghost played = self@.innings;
        let decided = match find_second_side(&self.innings) {
            None => MatchResult::Draw,
            Some(second) => {
                proof {
                    first_is_first(not_batted_by(played, first_side(played)));
                }
                let last = &self.innings[self.innings.len() - 1];
                let batting_last = last.batting_team.name.as_str();
                let bowling_last = last.bowling_team.name.as_str();
                let team_a = self.innings[0].batting_team.name.as_str();
                let team_b = self.innings[second].batting_team.name.as_str();
                let team_a_total = runs_scored_by(&self.innings, team_a);
                let team_b_total = runs_scored_by(&self.innings, team_b);
                if runs_scored_by(&self.innings, batting_last) < runs_scored_by(
                    &self.innings,
                    bowling_last,
                ) && last.score.wickets_left > 0 {
                    MatchResult::Draw
                } else if team_a_total == team_b_total {
                    MatchResult::Tie { method: None }
                } else {
                    let (winner, loser) = if team_a_total > team_b_total {
                        (team_a, team_b)
                    } else {
                        (team_b, team_a)
                    };
                    let margin = self.calculate_win_margin(
                        winner,
                        loser,
                        batting_last,
                        last.score.wickets_left,
                    );
                    if str_eq(winner, self.team1.name.as_str()) {
                        MatchResult::Team1Won { margin, method: None }
                    } else {
                        MatchResult::Team2Won { margin, method: None }
                    }
                }
            },
        };
        self.result = Some(decided);
        self.status = MatchStatus::Completed;
    }

    /// The margin by which `winning_team` beat `losing_team`.
    fn calculate_win_margin(
        &self,
        winning_team: &str,
        losing_team: &str,
        batting_team: &str,
        last_innings_wickets_left: i32,
    ) -> (margin: WinMargin)
        requires
            totals_fit(self@.innings),
            runs_of(self@.innings, winning_team@) > runs_of(self@.innings, losing_team@),
        ensures
            margin == margin_of(
                self@.innings,
                winning_team@,
                losing_team@,
                batting_team@,
                last_innings_wickets_left as int,
            ),
    {
        if !self.is_innings_victory() && str_eq(winning_team, batting_team) {
            WinMargin::Wickets(wickets_margin(last_innings_wickets_left))
        } else {
            let winning_score = runs_scored_by(&self.innings, winning_team);
            let losing_score = runs_scored_by(&self.innings, losing_team);
            WinMargin::Runs((winning_score - losing_score) as u32)
        }
    }

    /// Whether one side was not made to bat as often as the other.
    pub fn is_innings_victory(&self) -> (by_innings: bool)
        ensures
            by_innings == innings_victory(self@.innings),
    {
        if self.innings.len() < 3 || !is_two_sided(&self.innings) {
            return false;
        }
        let ghost played = self@.innings;
        let second = find_second_side(&self.innings).unwrap();
        proof {
            first_is_first(not_batted_by(played, first_side(played)));
        }
        innings_batted_by(&self.innings, self.innings[0].batting_team.name.as_str())
            != innings_batted_by(&self.innings, self.innings[second].batting_team.name.as_str())
    }
}

} // verus!
