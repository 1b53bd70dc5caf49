//! From the record of a match to the match before any play.

use vstd::prelude::*;
use vstd::string::StringExecFns;
use crate::cricsheet::record::{Cricsheet, CricsheetInfo, Date, Squad};
use crate::scoring::cricket_match::{
    Match,
    MatchStatus,
    MatchType,
    MatchTypeView,
    MatchView,
    text_view,
};
use crate::scoring::player::{Player, PlayerView, Team, TeamView, player_views};
use crate::scoring::search::{first, first_is_at, first_is_first, first_is_nowhere};
use crate::text::{lowercase_of, str_eq, to_lowercase};

verus! {

/// The text of a calendar date in the form `YYYY-MM-DD`, a year from 0 to
/// 9999 in four digits and any other with its sign; nothing where the three
/// numbers name no day of the calendar, or one that is beyond what
/// `chrono::NaiveDate` holds.
pub uninterp spec fn calendar_date_text(year: int, month: int, day: int) -> Option<Seq<char>>;

/// Wraps `chrono::NaiveDate::from_ymd_opt`, which makes a date of a year, a
/// month and a day where they name one, and `to_string` on that date, which
/// writes it as `%Y-%m-%d`: the result is the text of the date, and nothing
/// where there is no such date.
#[verifier::external_body]
fn date_text(year: i32, month: u32, day: u32) -> (text: Option<String>)
    ensures
        text_view(text) == calendar_date_text(year as int, month as int, day as int),
{
    match chrono::NaiveDate::from_ymd_opt(year, month, day) {
        Some(date) => Some(date.to_string()),
        None => None,
    }
}

impl Date {
    /// The date as text, where it is a day of the calendar.
    pub open spec fn text(&self) -> Option<Seq<char>> {
        calendar_date_text(self.year as int, self.month as int, self.day as int)
    }

    /// The date in the form `YYYY-MM-DD`, and nothing where its numbers name
    /// no day of the calendar.
    pub fn to_text(&self) -> (text: Option<String>)
        ensures
            text_view(text) == self.text(),
    {
        date_text(self.year, self.month, self.day)
    }
}

/// For each squad, whether it is that of the side called `team`.
pub open spec fn squads_of(squads: Seq<Squad>, team: Seq<char>) -> Seq<bool> {
    Seq::new(squads.len(), |i: int| squads[i].team@ == team)
}

/// The players called by the given names, none of whom has batted or bowled.
pub open spec fn fresh_players(names: Seq<String>) -> Seq<PlayerView> {
    Seq::new(names.len(), |i: int| PlayerView::fresh(names[i]@))
}

/// The match type that a description stands for, given the description in
/// lowercase: the three formats by their names, any other by the description.
pub open spec fn match_type_named(lowered: Seq<char>, description: Seq<char>) -> MatchTypeView {
    if lowered == "test"@ {
        MatchTypeView::Test
    } else if lowered == "odi"@ {
        MatchTypeView::OD
    } else if lowered == "t20"@ {
        MatchTypeView::T20
    } else {
        MatchTypeView::Other(description)
    }
}

/// The match type that `description` stands for, given the description in
/// lowercase.
pub fn match_type_from(lowered: &str, description: &String) -> (match_type: MatchType)
    ensures
        match_type@ == match_type_named(lowered@, description@),
{
    if str_eq(lowered, "test") {
        MatchType::Test
    } else if str_eq(lowered, "odi") {
        MatchType::OD
    } else if str_eq(lowered, "t20") {
        MatchType::T20
    } else {
        MatchType::Other(description.clone())
    }
}

/// Where no side has two squads, looking a squad up by the name of its side
/// finds that squad.
pub proof fn lookup_finds_each_squad(info: CricsheetInfo, i: int)
    requires
        info.has_distinct_squads(),
        0 <= i < info.players@.len(),
    ensures
        info.squad_at(info.players@[i].team@) == Some(i),
{
    first_is_at(squads_of(info.players@, info.players@[i].team@), i);
}

impl CricsheetInfo {
    /// The record names the players of each side once: no side has two
    /// squads.
    pub open spec fn has_distinct_squads(&self) -> bool {
        forall|i: int, j: int|
            0 <= i < j < self.players@.len() ==> self.players@[i].team@
                != self.players@[j].team@
    }

    /// Position of the squad of the side called `team`, if one is recorded.
    pub open spec fn squad_at(&self, team: Seq<char>) -> Option<int> {
        first(squads_of(self.players@, team))
    }

    /// The side called `name` with the players of its squad, none of whom
    /// has batted or bowled. Meaningful where a squad is recorded for it.
    pub open spec fn side(&self, name: Seq<char>) -> TeamView {
        TeamView {
            players: fresh_players(self.players@[self.squad_at(name)->0].players@),
            name,
        }
    }

    /// The date of the first day of the match as text, where days are
    /// recorded and the first is a day of the calendar.
    pub open spec fn first_date(&self) -> Option<Seq<char>> {
        if self.dates@.len() > 0 {
            self.dates@[0].text()
        } else {
            None
        }
    }

    /// The match that the record describes, before any play: between the
    /// first two sides recorded, of the recorded type, at the recorded venue,
    /// on the first recorded day.
    pub open spec fn fixture(&self) -> MatchView {
        MatchView {
            id: "1"@,
            title: self.teams@[0]@ + " vs "@ + self.teams@[1]@,
            venue: text_view(self.venue),
            date: self.first_date(),
            match_type: match_type_named(lowercase_of(self.match_type@), self.match_type@),
            team1: self.side(self.teams@[0]@),
            team2: self.side(self.teams@[1]@),
            innings: Seq::empty(),
            status: MatchStatus::NotStarted,
            result: None,
        }
    }

    /// Position of the squad of the side called `name`, if one is recorded.
    pub fn find_squad(&self, name: &str) -> (found: Option<usize>)
        ensures
            match found {
                Some(i) => self.squad_at(name@) == Some(i as int),
                None => self.squad_at(name@) is None,
            },
    {
        let ghost flags = squads_of(self.players@, name@);
        let mut i: usize = 0;
        while i < self.players.len()
            invariant
                i <= self.players.len(),
                flags == squads_of(self.players@, name@),
                forall|j: int| 0 <= j < i ==> !flags[j],
            decreases self.players.len() - i,
        {
            if str_eq(self.players[i].team.as_str(), name) {
                proof {
                    first_is_at(flags, i as int);
                }
                return Some(i);
            }
            i += 1;
        }
        proof {
            first_is_nowhere(flags);
        }
        None
    }

    fn side_called(&self, name: &String) -> (team: Team)
        requires
            self.squad_at(name@) is Some,
        ensures
            team@ == self.side(name@),
    {
        let squad = self.find_squad(name.as_str()).unwrap();
        proof {
            first_is_first(squads_of(self.players@, name@));
        }
        let names = &self.players[squad].players;
        let mut players: Vec<Player> = Vec::new();
        let mut i: usize = 0;
        while i < names.len()
            invariant
                i <= names.len(),
                players@.len() == i,
                forall|j: int|
                    0 <= j < i ==> (#[trigger] players@[j])@ == PlayerView::fresh(names@[j]@),
            decreases names.len() - i,
        {
            players.push(Player::new(names[i].clone()));
            i += 1;
        }
        assert(player_views(players@) =~= fresh_players(names@));
        Team { name: name.clone(), players }
    }

    /// The side called `name` with the players of its squad.
    pub fn team(self, name: &String) -> (team: Team)
        requires
            self.squad_at(name@) is Some,
        ensures
            team@ == self.side(name@),
    {
        self.side_called(name)
    }
}

impl Cricsheet {
    /// The match that the file describes, before any play.
    pub fn create_game(&self) -> (cricket_match: Match)
        requires
            self.info.teams@.len() >= 2,
            self.info.squad_at(self.info.teams@[0]@) is Some,
            self.info.squad_at(self.info.teams@[1]@) is Some,
        ensures
            cricket_match@ == self.info.fixture(),
    {
        let team1 = self.info.side_called(&self.info.teams[0]);
        let team2 = self.info.side_called(&self.info.teams[1]);
        let lowered = to_lowercase(self.info.match_type.as_str());
        let match_type = match_type_from(lowered.as_str(), &self.info.match_type);
        let mut title = self.info.teams[0].clone();
        title.append(" vs ");
        title.append(self.info.teams[1].as_str());
        let mut cricket_match = Match::new(String::from_str("1"), title, match_type, team1, team2);
        if let Some(venue) = &self.info.venue {
            cricket_match = cricket_match.with_venue(venue.clone());
        }
        if self.info.dates.len() > 0 {
            if let Some(date) = self.info.dates[0].to_text() {
                cricket_match = cricket_match.with_date(date);
            }
        }
        cricket_match
    }
}

} // verus!
