//! One delivery: what was scored, who was at the crease, who fell.

use vstd::prelude::*;
use vstd::string::StringExecFns;
use crate::error::{BallOutcomeValidation, ValidationView};
use crate::scoring::player::{Player, PlayerView};

verus! {

/// Mathematical value of a [`Wicket`].
pub ghost struct WicketView {
    pub player_out: Seq<char>,
    pub kind: Seq<char>,
}

/// A dismissal: who is out, and how.
#[derive(Debug, PartialEq)]
pub struct Wicket {
    pub player_out: String,
    pub kind: String,
}

impl View for Wicket {
    type V = WicketView;

    open spec fn view(&self) -> WicketView {
        WicketView { player_out: self.player_out@, kind: self.kind@ }
    }
}

impl Clone for Wicket {
    fn clone(&self) -> (copy: Wicket)
        ensures
            copy@ == self@,
    {
        Wicket { player_out: self.player_out.clone(), kind: self.kind.clone() }
    }
}

/// The values of a list of dismissals, in order.
pub open spec fn wicket_views(wickets: Seq<Wicket>) -> Seq<WicketView> {
    Seq::new(wickets.len(), |i: int| wickets[i]@)
}

/// Mathematical value of a [`BallEvents`].
pub ghost enum EventView {
    Bye(int),
    LegBye(int),
    NoBall(int),
    Wicket(Seq<WicketView>),
    Wide(int),
    Penalty(int),
    Four,
    Six,
}

/// Something that happened on a delivery besides runs off the bat.
#[derive(Debug, PartialEq)]
pub enum BallEvents {
    Bye(i32),
    LegBye(i32),
    NoBall(i32),
    Wicket(Vec<Wicket>),
    Wide(i32),
    Penalty(i32),
    Four,
    Six,
}

impl View for BallEvents {
    type V = EventView;

    open spec fn view(&self) -> EventView {
        match self {
            BallEvents::Bye(n) => EventView::Bye(*n as int),
            BallEvents::LegBye(n) => EventView::LegBye(*n as int),
            BallEvents::NoBall(n) => EventView::NoBall(*n as int),
            BallEvents::Wicket(wickets) => EventView::Wicket(wicket_views(wickets@)),
            BallEvents::Wide(n) => EventView::Wide(*n as int),
            BallEvents::Penalty(n) => EventView::Penalty(*n as int),
            BallEvents::Four => EventView::Four,
            BallEvents::Six => EventView::Six,
        }
    }
}

/// The values of a list of events, in order.
pub open spec fn event_views(events: Seq<BallEvents>) -> Seq<EventView> {
    Seq::new(events.len(), |i: int| events[i]@)
}

/// Mathematical value of a [`BallOutcome`].
pub ghost struct BallView {
    pub runs: int,
    pub wicket: Option<Seq<WicketView>>,
    pub no_ball: Option<int>,
    pub wide: Option<int>,
    pub byes: Option<int>,
    pub leg_byes: Option<int>,
    pub free_hit: bool,
    pub four: bool,
    pub six: bool,
    pub on_strike: PlayerView,
    pub off_strike: PlayerView,
    pub bowler: PlayerView,
    pub penalty: Option<int>,
}

/// The runs that an extra carries, nothing where the extra did not occur.
pub open spec fn extra_runs(extra: Option<int>) -> int {
    match extra {
        Some(n) => n,
        None => 0,
    }
}

impl BallView {
    /// A delivery on which `runs` came off the bat and nothing else happened.
    pub open spec fn plain(
        runs: int,
        on_strike: PlayerView,
        off_strike: PlayerView,
        bowler: PlayerView,
    ) -> BallView {
        BallView {
            runs,
            wicket: None,
            no_ball: None,
            wide: None,
            byes: None,
            leg_byes: None,
            free_hit: false,
            four: false,
            six: false,
            on_strike,
            off_strike,
            bowler,
            penalty: None,
        }
    }

    /// This delivery with `event` recorded on it; an event of a kind that was
    /// already recorded replaces the earlier one.
    pub open spec fn with_event(self, event: EventView) -> BallView {
        match event {
            EventView::Bye(n) => BallView { byes: Some(n), ..self },
            EventView::LegBye(n) => BallView { leg_byes: Some(n), ..self },
            EventView::NoBall(n) => BallView { no_ball: Some(n), ..self },
            EventView::Wicket(wickets) => BallView { wicket: Some(wickets), ..self },
            EventView::Wide(n) => BallView { wide: Some(n), ..self },
            EventView::Penalty(n) => BallView { penalty: Some(n), ..self },
            EventView::Four => BallView { four: true, ..self },
            EventView::Six => BallView { six: true, ..self },
        }
    }

    /// This delivery with `events` recorded on it one after the other.
    pub open spec fn with_events(self, events: Seq<EventView>) -> BallView
        decreases events.len(),
    {
        if events.len() == 0 {
            self
        } else {
            self.with_events(events.drop_last()).with_event(events.last())
        }
    }

    /// The dismissals on this delivery, none where no wicket fell.
    pub open spec fn dismissals(self) -> Seq<WicketView> {
        match self.wicket {
            Some(wickets) => wickets,
            None => Seq::empty(),
        }
    }

    /// Whether the delivery counts as one of the six balls of the over.
    pub open spec fn is_legal(self) -> bool {
        self.wide is None && self.no_ball is None
    }

    /// Everything this delivery adds to the batting side's total.
    pub open spec fn total_runs(self) -> int {
        self.runs + extra_runs(self.wide) + extra_runs(self.no_ball) + extra_runs(self.byes)
            + extra_runs(self.leg_byes) + extra_runs(self.penalty)
    }

    /// The error that validation raises for this delivery, if it raises one.
    pub open spec fn conflict(self) -> Option<ValidationView> {
        if self.four && self.six {
            Some(ValidationView::DoubleOutcome("Four"@, "Six"@))
        } else if self.byes is Some && self.leg_byes is Some {
            Some(ValidationView::DoubleOutcome("Bye"@, "Leg Bye"@))
        } else {
            None
        }
    }
}

/// The outcome of one delivery.
#[derive(Debug)]
pub struct BallOutcome {
    pub runs: i32,
    pub wicket: Option<Vec<Wicket>>,
    pub no_ball: Option<i32>,
    pub wide: Option<i32>,
    pub byes: Option<i32>,
    pub leg_byes: Option<i32>,
    pub free_hit: bool,
    pub four: bool,
    pub six: bool,
    pub on_strike: Player,
    pub off_strike: Player,
    pub bowler: Player,
    pub penalty: Option<i32>,
}

/// The value of an optional run count.
pub open spec fn count_view(count: Option<i32>) -> Option<int> {
    match count {
        Some(n) => Some(n as int),
        None => None,
    }
}

/// The runs that an extra carries, nothing where the extra did not occur.
pub fn run_count(extra: Option<i32>) -> (n: i64)
    ensures
        n == extra_runs(count_view(extra)),
{
    match extra {
        Some(n) => n as i64,
        None => 0,
    }
}

impl View for BallOutcome {
    type V = BallView;

    open spec fn view(&self) -> BallView {
        BallView {
            runs: self.runs as int,
            wicket: match self.wicket {
                Some(wickets) => Some(wicket_views(wickets@)),
                None => None,
            },
            no_ball: count_view(self.no_ball),
            wide: count_view(self.wide),
            byes: count_view(self.byes),
            leg_byes: count_view(self.leg_byes),
            free_hit: self.free_hit,
            four: self.four,
            six: self.six,
            on_strike: self.on_strike@,
            off_strike: self.off_strike@,
            bowler: self.bowler@,
            penalty: count_view(self.penalty),
        }
    }
}

impl Default for BallOutcome {
    fn default() -> (outcome: BallOutcome)
        ensures
            outcome@ == BallView::plain(
                0,
                PlayerView::fresh(Seq::empty()),
                PlayerView::fresh(Seq::empty()),
                PlayerView::fresh(Seq::empty()),
            ),
    {
        BallOutcome::new(0, Vec::new(), Player::default(), Player::default(), Player::default())
    }
}

impl BallOutcome {
    /// Everything this delivery adds to the batting side's total: the runs
    /// off the bat and every extra.
    pub fn total_runs(&self) -> (total: i64)
        ensures
            total == self@.total_runs(),
    {
        self.runs as i64 + run_count(self.wide) + run_count(self.no_ball) + run_count(self.byes)
            + run_count(self.leg_byes) + run_count(self.penalty)
    }

    /// Describes a delivery on which `runs` came off the bat and `ball_events`
    /// happened, in that order.
    pub fn new(
        runs: i32,
        ball_events: Vec<BallEvents>,
        on_strike: Player,
        off_strike: Player,
        bowler: Player,
    ) -> (outcome: BallOutcome)
        ensures
            outcome@ == BallView::plain(runs as int, on_strike@, off_strike@, bowler@).with_events(
                event_views(ball_events@),
            ),
    {
        let mut outcome = BallOutcome {
            runs,
            wicket: None,
            no_ball: None,
            wide: None,
            byes: None,
            leg_byes: None,
            free_hit: false,
            four: false,
            six: false,
            on_strike,
            off_strike,
            bowler,
            penalty: None,
        };
        let ghost start = outcome@;
        let ghost events = event_views(ball_events@);
        for event in it: ball_events
            invariant
                it.seq() == ball_events@,
                events == event_views(ball_events@),
                outcome@ == start.with_events(events.take(it.index() as int)),
        {
            assert(events.take(it.index() + 1).drop_last() =~= events.take(it.index() as int));
            match event {
                BallEvents::Bye(n) => outcome.byes = Some(n),
                BallEvents::LegBye(n) => outcome.leg_byes = Some(n),
                BallEvents::NoBall(n) => outcome.no_ball = Some(n),
                BallEvents::Wicket(wickets) => outcome.wicket = Some(wickets),
                BallEvents::Wide(n) => outcome.wide = Some(n),
                BallEvents::Four => outcome.four = true,
                BallEvents::Six => outcome.six = true,
                BallEvents::Penalty(n) => outcome.penalty = Some(n),
            }
        }
        assert(events.take(ball_events@.len() as int) =~= events);
        outcome
    }

    /// Rejects a delivery recorded both as a four and as a six, or both with
    /// byes and with leg byes.
    pub fn validate(&self) -> (checked: Result<(), BallOutcomeValidation>)
        ensures
            match checked {
                Ok(_) => self@.conflict() is None,
                Err(error) => self@.conflict() == Some(error@),
            },
    {
        if self.four && self.six {
            return Err(
                BallOutcomeValidation::DoubleOutcome(
                    String::from_str("Four"),
                    String::from_str("Six"),
                ),
            );
        }
        if self.byes.is_some() && self.leg_byes.is_some() {
            return Err(
                BallOutcomeValidation::DoubleOutcome(
                    String::from_str("Bye"),
                    String::from_str("Leg Bye"),
                ),
            );
        }
        Ok(())
    }
}

} // verus!
