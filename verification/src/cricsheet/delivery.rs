//! From a recorded delivery to the delivery that the scoring engine takes.

use vstd::prelude::*;
use crate::cricsheet::record::{Delivery, Wicket};
use crate::scoring::ball::{
    BallEvents,
    BallOutcome,
    BallView,
    Wicket as LibWicket,
    WicketView,
    count_view,
    event_views,
    wicket_views,
};
use crate::scoring::player::{Player, PlayerView};

verus! {

fn record_event(events: &mut Vec<BallEvents>, event: BallEvents, Ghost(plain): Ghost<BallView>)
    ensures
        plain.with_events(event_views(final(events)@)) == plain.with_events(
            event_views(old(events)@),
        ).with_event(event@),
{
    events.push(event);
    assert(event_views(events@).drop_last() =~= event_views(old(events)@));
}

/// The value of a recorded dismissal: who is out, and how.
pub open spec fn dismissal_view(wicket: Wicket) -> WicketView {
    WicketView { player_out: wicket.player_out@, kind: wicket.kind@ }
}

impl Delivery {
    /// The byes recorded for the delivery, if any.
    pub open spec fn byes(&self) -> Option<int> {
        match self.extras {
            Some(extras) => count_view(extras.byes),
            None => None,
        }
    }

    /// The leg byes recorded for the delivery, if any.
    pub open spec fn leg_byes(&self) -> Option<int> {
        match self.extras {
            Some(extras) => count_view(extras.legbyes),
            None => None,
        }
    }

    /// The wides recorded for the delivery, if any.
    pub open spec fn wides(&self) -> Option<int> {
        match self.extras {
            Some(extras) => count_view(extras.wides),
            None => None,
        }
    }

    /// The no-balls recorded for the delivery, if any.
    pub open spec fn no_balls(&self) -> Option<int> {
        match self.extras {
            Some(extras) => count_view(extras.noballs),
            None => None,
        }
    }

    /// The penalty runs recorded for the delivery, if any.
    pub open spec fn penalty(&self) -> Option<int> {
        match self.extras {
            Some(extras) => count_view(extras.penalty),
            None => None,
        }
    }

    /// The recorded dismissals, where the delivery has any.
    pub open spec fn dismissals(&self) -> Option<Seq<WicketView>> {
        match self.wickets {
            Some(wickets) => Some(Seq::new(wickets@.len(), |i: int| dismissal_view(wickets@[i]))),
            None => None,
        }
    }

    /// Whether `runs` off the bat were a boundary: the batter made as many,
    /// and the record does not say that they were run.
    pub open spec fn is_boundary(&self, runs: int) -> bool {
        self.runs.batter == runs && self.runs.non_boundary != Some(true)
    }

    /// The delivery as the scoring engine takes it, bowled by `bowler` to
    /// `striker` with `non_striker` at the other end.
    pub open spec fn outcome(
        &self,
        striker: PlayerView,
        non_striker: PlayerView,
        bowler: PlayerView,
    ) -> BallView {
        BallView {
            runs: self.runs.batter as int,
            wicket: self.dismissals(),
            no_ball: self.no_balls(),
            wide: self.wides(),
            byes: self.byes(),
            leg_byes: self.leg_byes(),
            free_hit: false,
            four: self.is_boundary(4),
            six: self.is_boundary(6),
            on_strike: striker,
            off_strike: non_striker,
            bowler,
            penalty: self.penalty(),
        }
    }

    fn lib_wickets(wickets: &Vec<Wicket>) -> (converted: Vec<LibWicket>)
        ensures
            wicket_views(converted@) == Seq::new(
                wickets@.len(),
                |i: int| dismissal_view(wickets@[i]),
            ),
    {
        let mut converted: Vec<LibWicket> = Vec::new();
        let mut i: usize = 0;
        while i < wickets.len()
            invariant
                i <= wickets.len(),
                converted@.len() == i,
                forall|j: int|
                    0 <= j < i ==> (#[trigger] converted@[j])@ == dismissal_view(wickets@[j]),
            decreases wickets.len() - i,
        {
            converted.push(
                LibWicket {
                    player_out: wickets[i].player_out.clone(),
                    kind: wickets[i].kind.clone(),
                },
            );
            i += 1;
        }
        assert(wicket_views(converted@) =~= Seq::new(
            wickets@.len(),
            |i: int| dismissal_view(wickets@[i]),
        ));
        converted
    }

    /// Turns the record into the delivery that the scoring engine takes.
    pub fn parse(&self, striker: Player, non_striker: Player, bowler: Player) -> (outcome:
        BallOutcome)
        requires
            !(self.byes() is Some && self.leg_byes() is Some),
        ensures
            outcome@ == self.outcome(striker@, non_striker@, bowler@),
            outcome@.conflict() is None,
    {
        let ghost plain = BallView::plain(self.runs.batter as int, striker@, non_striker@, bowler@);
        let mut ball_events: Vec<BallEvents> = Vec::new();
        assert(event_views(ball_events@) =~= Seq::empty());
        if let Some(extras) = &self.extras {
            if let Some(byes) = extras.byes {
                record_event(&mut ball_events, BallEvents::Bye(byes), Ghost(plain));
            }
            if let Some(leg_byes) = extras.legbyes {
                record_event(&mut ball_events, BallEvents::LegBye(leg_byes), Ghost(plain));
            }
            if let Some(wides) = extras.wides {
                record_event(&mut ball_events, BallEvents::Wide(wides), Ghost(plain));
            }
            if let Some(penalty) = extras.penalty {
                record_event(&mut ball_events, BallEvents::Penalty(penalty), Ghost(plain));
            }
            if let Some(no_balls) = extras.noballs {
                record_event(&mut ball_events, BallEvents::NoBall(no_balls), Ghost(plain));
            }
        }
        if let Some(wickets) = &self.wickets {
            let converted = Delivery::lib_wickets(wickets);
            record_event(&mut ball_events, BallEvents::Wicket(converted), Ghost(plain));
        }
        let run = match self.runs.non_boundary {
            Some(run) => run,
            None => false,
        };
        if self.runs.batter == 4 && !run {
            record_event(&mut ball_events, BallEvents::Four, Ghost(plain));
        }
        if self.runs.batter == 6 && !run {
            record_event(&mut ball_events, BallEvents::Six, Ghost(plain));
        }
        BallOutcome::new(self.runs.batter, ball_events, striker, non_striker, bowler)
    }
}

} // verus!
