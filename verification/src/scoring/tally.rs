//! What a list of innings adds up to for each side.

use vstd::prelude::*;
use crate::scoring::innings::{Innings, InningsView};
use crate::scoring::bounds::fits_i32;
use crate::scoring::search::{first, first_is_at, first_is_first, first_is_nowhere};
use crate::text::str_eq;

verus! {

/// The values of a list of innings, in order.
pub open spec fn innings_views(innings: Seq<Innings>) -> Seq<InningsView> {
    Seq::new(innings.len(), |i: int| innings[i]@)
}

/// The runs that `team` scored, over all the innings in which it batted.
pub open spec fn runs_of(innings: Seq<InningsView>, team: Seq<char>) -> int
    decreases innings.len(),
{
    if innings.len() == 0 {
        0
    } else {
        runs_of(innings.drop_last(), team) + if innings.last().batting_team.name == team {
            innings.last().score.runs
        } else {
            0
        }
    }
}

/// The number of innings in which `team` batted.
pub open spec fn innings_of(innings: Seq<InningsView>, team: Seq<char>) -> int
    decreases innings.len(),
{
    if innings.len() == 0 {
        0
    } else {
        innings_of(innings.drop_last(), team) + if innings.last().batting_team.name == team {
            1int
        } else {
            0int
        }
    }
}

/// No side's total is beyond an `i32`.
pub open spec fn totals_fit(innings: Seq<InningsView>) -> bool {
    forall|team: Seq<char>| fits_i32(#[trigger] runs_of(innings, team))
}

/// For each innings, whether a side other than `team` batted in it.
pub open spec fn not_batted_by(innings: Seq<InningsView>, team: Seq<char>) -> Seq<bool> {
    Seq::new(innings.len(), |i: int| innings[i].batting_team.name != team)
}

/// The side that batted first. Meaningful where an innings has been played.
pub open spec fn first_side(innings: Seq<InningsView>) -> Seq<char> {
    innings[0].batting_team.name
}

/// The earliest innings of a side other than the one that batted first.
pub open spec fn second_side_at(innings: Seq<InningsView>) -> Option<int> {
    first(not_batted_by(innings, first_side(innings)))
}

/// The other side: the first to bat after the side that batted first.
/// Meaningful where two sides have batted.
pub open spec fn second_side(innings: Seq<InningsView>) -> Seq<char> {
    innings[second_side_at(innings)->0].batting_team.name
}

/// Fewer than two sides have batted.
pub open spec fn one_sided(innings: Seq<InningsView>) -> bool {
    innings.len() == 0 || second_side_at(innings) is None
}

/// Exactly two sides have batted.
pub open spec fn two_sided(innings: Seq<InningsView>) -> bool {
    &&& !one_sided(innings)
    &&& forall|i: int|
        0 <= i < innings.len() ==> {
            ||| (#[trigger] innings[i]).batting_team.name == first_side(innings)
            ||| innings[i].batting_team.name == second_side(innings)
        }
}

/// One side was not made to bat as often as the other: at least three
/// innings were played, by exactly two sides, and not equally many by each.
pub open spec fn innings_victory(innings: Seq<InningsView>) -> bool {
    &&& innings.len() >= 3
    &&& two_sided(innings)
    &&& innings_of(innings, first_side(innings)) != innings_of(innings, second_side(innings))
}

/// The side batting last is behind with wickets in hand: it has scored less
/// than the side bowling last, and its last innings was not bowled out.
pub open spec fn chase_unfinished(innings: Seq<InningsView>) -> bool {
    &&& runs_of(innings, innings.last().batting_team.name) < runs_of(
        innings,
        innings.last().bowling_team.name,
    )
    &&& innings.last().score.wickets_left > 0
}

/// The side with the higher total, of the two that batted.
pub open spec fn leading_side(innings: Seq<InningsView>) -> Seq<char> {
    if runs_of(innings, first_side(innings)) > runs_of(innings, second_side(innings)) {
        first_side(innings)
    } else {
        second_side(innings)
    }
}

/// The side with the lower total, of the two that batted.
pub open spec fn trailing_side(innings: Seq<InningsView>) -> Seq<char> {
    if runs_of(innings, first_side(innings)) > runs_of(innings, second_side(innings)) {
        second_side(innings)
    } else {
        first_side(innings)
    }
}

/// A side that batted in no innings has no runs.
pub proof fn no_innings_no_runs(innings: Seq<InningsView>, team: Seq<char>)
    requires
        forall|i: int| 0 <= i < innings.len() ==> (#[trigger] innings[i]).batting_team.name != team,
    ensures
        runs_of(innings, team) == 0,
    decreases innings.len(),
{
    if innings.len() > 0 {
        no_innings_no_runs(innings.drop_last(), team);
    }
}

/// The runs that `team` scored, over all the innings in which it batted.
pub fn runs_scored_by(innings: &Vec<Innings>, team: &str) -> (total: i128)
    ensures
        total == runs_of(innings_views(innings@), team@),
        -2147483648 * innings.len() <= total <= 2147483647 * innings.len(),
{
    let ghost all = innings_views(innings@);
    let mut total: i128 = 0;
    let mut i: usize = 0;
    while i < innings.len()
        invariant
            i <= innings.len(),
            all == innings_views(innings@),
            total == runs_of(all.take(i as int), team@),
            -2147483648 * i <= total <= 2147483647 * i,
        decreases innings.len() - i,
    {
        assert(all.take(i as int + 1).drop_last() =~= all.take(i as int));
        if str_eq(innings[i].batting_team.name.as_str(), team) {
            total = total + innings[i].score.runs as i128;
        }
        i += 1;
    }
    assert(all.take(i as int) =~= all);
    total
}

/// The number of innings in which `team` batted.
pub fn innings_batted_by(innings: &Vec<Innings>, team: &str) -> (count: usize)
    ensures
        count == innings_of(innings_views(innings@), team@),
{
    let ghost all = innings_views(innings@);
    let mut count: usize = 0;
    let mut i: usize = 0;
    while i < innings.len()
        invariant
            i <= innings.len(),
            all == innings_views(innings@),
            count == innings_of(all.take(i as int), team@),
            count <= i,
        decreases innings.len() - i,
    {
        assert(all.take(i as int + 1).drop_last() =~= all.take(i as int));
        if str_eq(innings[i].batting_team.name.as_str(), team) {
            count += 1;
        }
        i += 1;
    }
    assert(all.take(i as int) =~= all);
    count
}

/// Whether no side's total is beyond an `i32`.
pub fn all_totals_fit(innings: &Vec<Innings>) -> (fit: bool)
    ensures
        fit == totals_fit(innings_views(innings@)),
{
    let ghost all = innings_views(innings@);
    let mut i: usize = 0;
    while i < innings.len()
        invariant
            i <= innings.len(),
            all == innings_views(innings@),
            forall|j: int|
                0 <= j < i ==> fits_i32(runs_of(all, (#[trigger] all[j]).batting_team.name)),
        decreases innings.len() - i,
    {
        let total = runs_scored_by(innings, innings[i].batting_team.name.as_str());
        if total < -2147483648 || total > 2147483647 {
            return false;
        }
        i += 1;
    }
    assert forall|team: Seq<char>| fits_i32(#[trigger] runs_of(all, team)) by {
        if exists|j: int| 0 <= j < all.len() && (#[trigger] all[j]).batting_team.name == team {
            let j = choose|j: int|
                0 <= j < all.len() && (#[trigger] all[j]).batting_team.name == team;
            assert(fits_i32(runs_of(all, all[j].batting_team.name)));
        } else {
            no_innings_no_runs(all, team);
        }
    }
    true
}

/// The earliest innings of a side other than the one that batted first.
pub fn find_second_side(innings: &Vec<Innings>) -> (found: Option<usize>)
    ensures
        match found {
            Some(i) => second_side_at(innings_views(innings@)) == Some(i as int),
            None => second_side_at(innings_views(innings@)) is None,
        },
{
    let ghost flags = not_batted_by(innings_views(innings@), first_side(innings_views(innings@)));
    if innings.len() == 0 {
        proof {
            first_is_nowhere(flags);
        }
        return None;
    }
    let mut i: usize = 1;
    assert(!flags[0]);
    while i < innings.len()
        invariant
            1 <= i <= innings.len(),
            flags == not_batted_by(
                innings_views(innings@),
                first_side(innings_views(innings@)),
            ),
            forall|j: int| 0 <= j < i ==> !flags[j],
        decreases innings.len() - i,
    {
        if !str_eq(
            innings[i].batting_team.name.as_str(),
            innings[0].batting_team.name.as_str(),
        ) {
            proof {
                first_is_at(flags, i as int);
            }
            return Some(i);
        }
        i += 1;
    }
    proof {
        first_is_nowhere(flags);
    }
    None
}

/// Whether exactly two sides have batted.
pub fn is_two_sided(innings: &Vec<Innings>) -> (two: bool)
    ensures
        two == two_sided(innings_views(innings@)),
{
    if innings.len() == 0 {
        return false;
    }
    let ghost all = innings_views(innings@);
    match find_second_side(innings) {
        None => false,
        Some(second) => {
            proof {
                first_is_first(not_batted_by(all, first_side(all)));
            }
            let mut i: usize = 0;
            while i < innings.len()
                invariant
                    i <= innings.len(),
                    0 < second < innings.len(),
                    all == innings_views(innings@),
                    second_side_at(all) == Some(second as int),
                    forall|j: int|
                        0 <= j < i ==> {
                            ||| (#[trigger] all[j]).batting_team.name == first_side(all)
                            ||| all[j].batting_team.name == second_side(all)
                        },
                decreases innings.len() - i,
            {
                let name = innings[i].batting_team.name.as_str();
                if !str_eq(name, innings[0].batting_team.name.as_str()) && !str_eq(
                    name,
                    innings[second].batting_team.name.as_str(),
                ) {
                    assert(all[i as int].batting_team.name != first_side(all));
                    return false;
                }
                i += 1;
            }
            true
        },
    }
}

} // verus!
