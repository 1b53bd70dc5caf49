//! Players with their batting and bowling figures, and the rosters they form.

use vstd::prelude::*;
use vstd::string::StringExecFns;
use crate::scoring::bounds::fits_i32;
use crate::scoring::search::{first, first_is_at, first_is_nowhere};
use crate::text::{decimal, occurs_in, push_decimal, str_contains, str_eq};

verus! {

/// Mathematical value of a [`Player`]: text as character sequences, counters as integers.
pub ghost struct PlayerView {
    pub name: Seq<char>,
    pub runs: int,
    pub balls_faced: int,
    pub fours: int,
    pub sixes: int,
    pub out: bool,
    pub dismissal: Option<Seq<char>>,
    pub balls_bowled: int,
    pub runs_conceded: int,
    pub wickets_taken: int,
    pub maidens: int,
    pub wides: int,
    pub no_balls: int,
}

impl PlayerView {
    /// A player who has neither batted nor bowled.
    pub open spec fn fresh(name: Seq<char>) -> PlayerView {
        PlayerView {
            name,
            runs: 0,
            balls_faced: 0,
            fours: 0,
            sixes: 0,
            out: false,
            dismissal: None,
            balls_bowled: 0,
            runs_conceded: 0,
            wickets_taken: 0,
            maidens: 0,
            wides: 0,
            no_balls: 0,
        }
    }

    /// Every counter can be held in an `i32`.
    pub open spec fn fits(self) -> bool {
        &&& fits_i32(self.runs)
        &&& fits_i32(self.balls_faced)
        &&& fits_i32(self.fours)
        &&& fits_i32(self.sixes)
        &&& fits_i32(self.balls_bowled)
        &&& fits_i32(self.runs_conceded)
        &&& fits_i32(self.wickets_taken)
        &&& fits_i32(self.maidens)
        &&& fits_i32(self.wides)
        &&& fits_i32(self.no_balls)
    }

    /// Whether the player has been in: a ball faced, or out without facing one.
    pub open spec fn has_batted(self) -> bool {
        self.balls_faced > 0 || self.out
    }

    /// Whether the player has bowled a legal ball.
    pub open spec fn has_bowled(self) -> bool {
        self.balls_bowled > 0
    }

    /// The batting figures on one line: runs, with an asterisk while not out,
    /// balls faced in brackets, fours and sixes, and the strike rate where a
    /// ball was faced.
    pub open spec fn batting_line(self, strike_rate: Seq<char>) -> Seq<char> {
        let not_out = if self.out {
            ""@
        } else {
            "*"@
        };
        let rate = if self.balls_faced != 0 {
            ", SR: "@ + strike_rate
        } else {
            ""@
        };
        "Batting: "@ + decimal(self.runs) + not_out + "("@ + decimal(self.balls_faced) + "), "@
            + decimal(self.fours) + " 4s, "@ + decimal(self.sixes) + " 6s"@ + rate
    }

    /// The overs bowled as text: the completed overs, then a point and the
    /// balls of the unfinished over where there are any.
    pub open spec fn overs_text(self) -> Seq<char> {
        if self.overs_bowled().1 == 0 {
            decimal(self.overs_bowled().0)
        } else {
            decimal(self.overs_bowled().0) + "."@ + decimal(self.overs_bowled().1)
        }
    }

    /// The bowling figures on one line: wickets and runs, overs in brackets,
    /// maidens, wides, no-balls and the economy rate.
    pub open spec fn bowling_line(self, economy_rate: Seq<char>) -> Seq<char> {
        "Bowling: "@ + decimal(self.wickets_taken) + "-"@ + decimal(self.runs_conceded) + " ("@
            + self.overs_text() + " overs), "@ + decimal(self.maidens) + " maidens, "@ + decimal(
            self.wides,
        ) + " wides, "@ + decimal(self.no_balls) + " no balls, Econ: "@ + economy_rate
    }

    /// The figures behind the player's name: the batting line for a player who
    /// has been in, the bowling line for one who has bowled, both where both
    /// hold, and "No stats" where neither does.
    pub open spec fn figures(self, strike_rate: Seq<char>, economy_rate: Seq<char>) -> Seq<char> {
        if self.has_batted() && self.has_bowled() {
            self.batting_line(strike_rate) + "; "@ + self.bowling_line(economy_rate)
        } else if self.has_batted() {
            self.batting_line(strike_rate)
        } else if self.has_bowled() {
            self.bowling_line(economy_rate)
        } else {
            "No stats"@
        }
    }

    /// The player's name and figures on one line.
    pub open spec fn summary(self, strike_rate: Seq<char>, economy_rate: Seq<char>) -> Seq<char> {
        self.name + ": "@ + self.figures(strike_rate, economy_rate)
    }

    /// Completed overs and the balls of the unfinished over, for a bowler who
    /// has delivered `balls_bowled` legal balls. A negative count is split
    /// towards zero, so both parts are then zero or negative.
    pub open spec fn overs_bowled(self) -> (int, int) {
        if self.balls_bowled >= 0 {
            (self.balls_bowled / 6, self.balls_bowled % 6)
        } else {
            (-((-self.balls_bowled) / 6), -((-self.balls_bowled) % 6))
        }
    }
}

/// A named participant with batting and bowling figures.
///
/// `dismissal` records how the player got out and is `None` for a player who is not out.
#[derive(Debug)]
pub struct Player {
    pub name: String,
    pub runs: i32,
    pub balls_faced: i32,
    pub fours: i32,
    pub sixes: i32,
    pub out: bool,
    pub dismissal: Option<String>,
    pub balls_bowled: i32,
    pub runs_conceded: i32,
    pub wickets_taken: i32,
    pub maidens: i32,
    pub wides: i32,
    pub no_balls: i32,
}

impl View for Player {
    type V = PlayerView;

    open spec fn view(&self) -> PlayerView {
        PlayerView {
            name: self.name@,
            runs: self.runs as int,
            balls_faced: self.balls_faced as int,
            fours: self.fours as int,
            sixes: self.sixes as int,
            out: self.out,
            dismissal: match self.dismissal {
                Some(kind) => Some(kind@),
                None => None,
            },
            balls_bowled: self.balls_bowled as int,
            runs_conceded: self.runs_conceded as int,
            wickets_taken: self.wickets_taken as int,
            maidens: self.maidens as int,
            wides: self.wides as int,
            no_balls: self.no_balls as int,
        }
    }
}

impl Clone for Player {
    fn clone(&self) -> (copy: Player)
        ensures
            copy@ == self@,
    {
        Player {
            name: self.name.clone(),
            runs: self.runs,
            balls_faced: self.balls_faced,
            fours: self.fours,
            sixes: self.sixes,
            out: self.out,
            dismissal: match &self.dismissal {
                Some(kind) => Some(kind.clone()),
                None => None,
            },
            balls_bowled: self.balls_bowled,
            runs_conceded: self.runs_conceded,
            wickets_taken: self.wickets_taken,
            maidens: self.maidens,
            wides: self.wides,
            no_balls: self.no_balls,
        }
    }
}

impl Default for Player {
    fn default() -> (player: Player)
        ensures
            player@ == PlayerView::fresh(Seq::empty()),
    {
        Player::new(String::new())
    }
}

impl Player {
    /// A player called `name` with every figure at zero.
    pub fn new(name: String) -> (player: Player)
        ensures
            player@ == PlayerView::fresh(name@),
    {
        Player {
            name,
            runs: 0,
            balls_faced: 0,
            fours: 0,
            sixes: 0,
            out: false,
            dismissal: None,
            balls_bowled: 0,
            runs_conceded: 0,
            wickets_taken: 0,
            maidens: 0,
            wides: 0,
            no_balls: 0,
        }
    }

    /// Completed overs bowled and the balls bowled of the current over.
    pub fn overs_bowled(&self) -> (overs: (i32, i32))
        ensures
            (overs.0 as int, overs.1 as int) == self@.overs_bowled(),
    {
        (self.balls_bowled / 6, self.balls_bowled % 6)
    }

    fn batting_line(&self, strike_rate: &str) -> (line: String)
        ensures
            line@ == self@.batting_line(strike_rate@),
    {
        proof {
            reveal_strlit("");
        }
        let mut line = String::from_str("Batting: ");
        push_decimal(&mut line, self.runs as i64);
        if !self.out {
            line.append("*");
        }
        line.append("(");
        push_decimal(&mut line, self.balls_faced as i64);
        line.append("), ");
        push_decimal(&mut line, self.fours as i64);
        line.append(" 4s, ");
        push_decimal(&mut line, self.sixes as i64);
        line.append(" 6s");
        if self.balls_faced != 0 {
            line.append(", SR: ");
            line.append(strike_rate);
        }
        assert(line@ =~= self@.batting_line(strike_rate@));
        line
    }

    fn bowling_line(&self, economy_rate: &str) -> (line: String)
        ensures
            line@ == self@.bowling_line(economy_rate@),
    {
        let (overs, balls) = self.overs_bowled();
        let mut line = String::from_str("Bowling: ");
        push_decimal(&mut line, self.wickets_taken as i64);
        line.append("-");
        push_decimal(&mut line, self.runs_conceded as i64);
        line.append(" (");
        let ghost before_overs = line@;
        push_decimal(&mut line, overs as i64);
        if balls != 0 {
            line.append(".");
            push_decimal(&mut line, balls as i64);
        }
        assert(line@ =~= before_overs + self@.overs_text());
        line.append(" overs), ");
        push_decimal(&mut line, self.maidens as i64);
        line.append(" maidens, ");
        push_decimal(&mut line, self.wides as i64);
        line.append(" wides, ");
        push_decimal(&mut line, self.no_balls as i64);
        line.append(" no balls, Econ: ");
        line.append(economy_rate);
        assert(line@ =~= self@.bowling_line(economy_rate@));
        line
    }

    /// The player's name and figures on one line. `strike_rate` is the runs
    /// per hundred balls faced, and `economy_rate` the runs conceded per over,
    /// each as the text to show; the first is shown only for a player who has
    /// faced a ball, the second only for one who has bowled one.
    pub fn summary(&self, strike_rate: &str, economy_rate: &str) -> (text: String)
        ensures
            text@ == self@.summary(strike_rate@, economy_rate@),
    {
        let has_batted = self.balls_faced > 0 || self.out;
        let has_bowled = self.balls_bowled > 0;
        let mut text = self.name.clone();
        text.append(": ");
        if has_batted {
            text.append(self.batting_line(strike_rate).as_str());
            if has_bowled {
                text.append("; ");
                text.append(self.bowling_line(economy_rate).as_str());
            }
        } else if has_bowled {
            text.append(self.bowling_line(economy_rate).as_str());
        } else {
            text.append("No stats");
        }
        assert(text@ =~= self@.summary(strike_rate@, economy_rate@));
        text
    }
}

/// The values of a roster's players, in roster order.
pub open spec fn player_views(players: Seq<Player>) -> Seq<PlayerView> {
    Seq::new(players.len(), |i: int| players[i]@)
}

/// Where one player of a roster has changed, the value of the roster has
/// changed in that player's value alone.
pub proof fn one_player_changed(before: Seq<Player>, after: Seq<Player>, i: int)
    requires
        0 <= i < before.len(),
        after.len() == before.len(),
        forall|j: int| 0 <= j < before.len() && j != i ==> after[j] == before[j],
    ensures
        player_views(after) == player_views(before).update(i, after[i]@),
{
    assert(player_views(after) =~= player_views(before).update(i, after[i]@));
}

/// For each player of the roster, whether the player is called `name`.
pub open spec fn named(players: Seq<PlayerView>, name: Seq<char>) -> Seq<bool> {
    Seq::new(players.len(), |i: int| players[i].name == name)
}

/// For each player of the roster, whether the player's name occurs in `text`.
pub open spec fn named_in(players: Seq<PlayerView>, text: Seq<char>) -> Seq<bool> {
    Seq::new(players.len(), |i: int| occurs_in(players[i].name, text))
}

/// Position of the first player called `name`, if the roster has one.
pub open spec fn position_named(players: Seq<PlayerView>, name: Seq<char>) -> Option<int> {
    first(named(players, name))
}

/// Position of the first player whose name occurs in `text`, if the roster has one.
pub open spec fn position_named_in(players: Seq<PlayerView>, text: Seq<char>) -> Option<int> {
    first(named_in(players, text))
}

/// Mathematical value of a [`Team`].
pub ghost struct TeamView {
    pub players: Seq<PlayerView>,
    pub name: Seq<char>,
}

impl TeamView {
    /// No two players of the roster bear the same name.
    pub open spec fn has_distinct_names(self) -> bool {
        forall|i: int, j: int|
            0 <= i < j < self.players.len() ==> self.players[i].name != self.players[j].name
    }
}

/// In a roster without a name that occurs twice, looking a player up by name
/// finds that player.
pub proof fn lookup_finds_each_player(team: TeamView, i: int)
    requires
        team.has_distinct_names(),
        0 <= i < team.players.len(),
    ensures
        position_named(team.players, team.players[i].name) == Some(i),
{
    first_is_at(named(team.players, team.players[i].name), i);
}

/// A named side and its roster in batting order.
#[derive(Debug)]
pub struct Team {
    pub players: Vec<Player>,
    pub name: String,
}

impl View for Team {
    type V = TeamView;

    open spec fn view(&self) -> TeamView {
        TeamView { players: player_views(self.players@), name: self.name@ }
    }
}

impl Clone for Team {
    fn clone(&self) -> (copy: Team)
        ensures
            copy@ == self@,
    {
        let mut players: Vec<Player> = Vec::new();
        let mut i: usize = 0;
        while i < self.players.len()
            invariant
                i <= self.players.len(),
                players@.len() == i,
                forall|j: int| 0 <= j < i ==> (#[trigger] players@[j])@ == self.players@[j]@,
            decreases self.players.len() - i,
        {
            players.push(self.players[i].clone());
            i += 1;
        }
        assert(player_views(players@) =~= player_views(self.players@));
        Team { players, name: self.name.clone() }
    }
}

impl Team {
    /// Position in the roster of the first player called `player_name`.
    pub fn get_player_index(&self, player_name: &str) -> (found: Option<usize>)
        ensures
            match found {
                Some(i) => position_named(self@.players, player_name@) == Some(i as int),
                None => position_named(self@.players, player_name@) is None,
            },
    {
        let ghost flags = named(self@.players, player_name@);
        let mut i: usize = 0;
        while i < self.players.len()
            invariant
                i <= self.players.len(),
                flags == named(self@.players, player_name@),
                forall|j: int| 0 <= j < i ==> !flags[j],
            decreases self.players.len() - i,
        {
            if str_eq(self.players[i].name.as_str(), player_name) {
                proof {
                    first_is_at(flags, i as int);
                }
                return Some(i);
            }
            i += 1;
        }
        proof {
            first_is_nowhere(flags);
        }
        None
    }

    /// Position in the roster of the first player whose name occurs in `text`.
    pub fn get_player_index_within(&self, text: &str) -> (found: Option<usize>)
        ensures
            match found {
                Some(i) => position_named_in(self@.players, text@) == Some(i as int),
                None => position_named_in(self@.players, text@) is None,
            },
    {
        let ghost flags = named_in(self@.players, text@);
        let mut i: usize = 0;
        while i < self.players.len()
            invariant
                i <= self.players.len(),
                flags == named_in(self@.players, text@),
                forall|j: int| 0 <= j < i ==> !flags[j],
            decreases self.players.len() - i,
        {
            if str_contains(text, self.players[i].name.as_str()) {
                proof {
                    first_is_at(flags, i as int);
                }
                return Some(i);
            }
            i += 1;
        }
        proof {
            first_is_nowhere(flags);
        }
        None
    }

    /// Mutable access to the first player called `player_name`: what the
    /// caller writes through the reference replaces that player in the
    /// roster, and nothing else changes.
    pub fn get_player(&mut self, player_name: &str) -> (found: Option<&mut Player>)
        ensures
            match found {
                Some(player) => {
                    let i = position_named(old(self)@.players, player_name@)->0;
                    &&& position_named(old(self)@.players, player_name@) is Some
                    &&& *player == old(self).players@[i]
                    &&& final(self).players@ == old(self).players@.update(i, *final(player))
                    &&& final(self).name == old(self).name
                },
                None => {
                    &&& position_named(old(self)@.players, player_name@) is None
                    &&& *final(self) == *old(self)
                },
            },
    {
        match self.get_player_index(player_name) {
            Some(i) => {
                let player = &mut self.players[i];
                Some(player)
            },
            None => None,
        }
    }
}

} // verus!
