//! The live-set poller: once per tick the surrounding program fetches the
//! list of followed channels that are live and hands the login names here.
//! The poller diffs that list against the one from the previous tick and
//! names the channels that have just gone live, so that each transition from
//! offline to live is reported exactly once.
use vstd::prelude::*;

use crate::text::{join_with, join_strings, views_of};

verus! {

/// The identifiers in current that were absent from previous: the channels
/// that have just gone live, in fetch order.
pub open spec fn newly_live(previous: Seq<Seq<char>>, current: Seq<Seq<char>>) -> Seq<Seq<char>> {
    current.filter(|login: Seq<char>| !previous.contains(login))
}

proof fn lemma_newly_live_empty(previous: Seq<Seq<char>>)
    ensures
        newly_live(previous, Seq::empty()) == Seq::<Seq<char>>::empty(),
{
    reveal(Seq::filter);
}

proof fn lemma_newly_live_snoc(previous: Seq<Seq<char>>, current: Seq<Seq<char>>, i: int)
    requires
        0 <= i < current.len(),
    ensures
        newly_live(previous, current.take(i + 1)) == if !previous.contains(current[i]) {
            newly_live(previous, current.take(i)).push(current[i])
        } else {
            newly_live(previous, current.take(i))
        },
{
    reveal(Seq::filter);
    assert(current.take(i + 1).drop_last() =~= current.take(i));
    assert(current.take(i + 1).last() == current[i]);
}

/// The given vector holds a string whose characters equal x's.
pub fn contains_string(v: &Vec<String>, x: &String) -> (r: bool)
    ensures
        r == views_of(v@).contains(x@),
{
    let mut i: usize = 0;
    while i < v.len()
        invariant
            i <= v@.len(),
            forall|k: int| 0 <= k < i ==> views_of(v@)[k] != x@,
        decreases v@.len() - i,
    {
        let e: &String = &v[i];
        if e.eq(x) {
            proof {
                assert(views_of(v@)[i as int] == x@);
            }
            return true;
        }
        i = i + 1;
    }
    proof {
        if views_of(v@).contains(x@) {
            let k = choose|k: int| 0 <= k < views_of(v@).len() && views_of(v@)[k] == x@;
            assert(views_of(v@)[k] != x@);
        }
    }
    false
}

/// Holds the live set observed at the previous tick; nothing older is kept.
pub struct LivePoller {
    pub previous: Vec<String>,
}

impl LivePoller {
    /// A poller that has not seen any live set yet.
    pub fn new() -> (r: LivePoller)
        ensures
            r.previous@.len() == 0,
    {
        LivePoller { previous: Vec::new() }
    }

    /// Records the live set of a full refresh without raising anything, so
    /// that the next tick does not re-report channels already known live.
    pub fn seed(&mut self, current: Vec<String>)
        ensures
            final(self).previous == current,
    {
        self.previous = current;
    }

    /// One reconciliation: diffs the fetched live set against the previous
    /// tick's, replaces the stored set unconditionally, and returns the
    /// newly live identifiers in fetch order, or nothing when no channel
    /// went live.
    pub fn reconcile(&mut self, current: Vec<String>) -> (r: Option<Vec<String>>)
        ensures
            final(self).previous == current,
            ({
                let nl = newly_live(views_of(old(self).previous@), views_of(current@));
                &&& (r is Some <==> nl.len() > 0)
                &&& (r matches Some(v) ==> views_of(v@) == nl)
            }),
    {
        let ghost prev = views_of(self.previous@);
        let ghost cur = views_of(current@);
        let mut fresh: Vec<String> = Vec::new();
        let mut i: usize = 0;
        proof {
            assert(cur.take(0) =~= Seq::<Seq<char>>::empty());
            lemma_newly_live_empty(prev);
            assert(views_of(fresh@) =~= Seq::<Seq<char>>::empty());
        }
        while i < current.len()
            invariant
                prev == views_of(self.previous@),
                cur == views_of(current@),
                i <= current@.len(),
                views_of(fresh@) == newly_live(prev, cur.take(i as int)),
            decreases current@.len() - i,
        {
            proof {
                lemma_newly_live_snoc(prev, cur, i as int);
            }
            let c: &String = &current[i];
            if !contains_string(&self.previous, c) {
                let copied = c.clone();
                fresh.push(copied);
                proof {
                    assert(views_of(fresh@) =~= newly_live(prev, cur.take(i as int)).push(
                        cur[i as int],
                    ));
                }
            }
            i = i + 1;
        }
        proof {
            assert(cur.take(current@.len() as int) =~= cur);
        }
        self.previous = current;
        if fresh.len() == 0 {
            None
        } else {
            Some(fresh)
        }
    }
}

proof fn lemma_newly_live_all_known(previous: Seq<Seq<char>>, current: Seq<Seq<char>>)
    requires
        forall|i: int| 0 <= i < current.len() ==> previous.contains(#[trigger] current[i]),
    ensures
        newly_live(previous, current).len() == 0,
    decreases current.len(),
{
    reveal(Seq::filter);
    if current.len() > 0 {
        assert forall|i: int| 0 <= i < current.drop_last().len() implies previous.contains(
            #[trigger] current.drop_last()[i],
        ) by {
            assert(current.drop_last()[i] == current[i]);
        }
        lemma_newly_live_all_known(previous, current.drop_last());
        assert(previous.contains(current[current.len() - 1]));
    }
}

/// Seeding law: a reconciliation against a live set equal to the one just
/// seeded finds nothing newly live, so the tick right after a full refresh
/// does not re-report the channels already known live at the refresh.
pub proof fn lemma_seed_then_unchanged_quiet(current: Seq<Seq<char>>)
    ensures
        newly_live(current, current).len() == 0,
{
    assert forall|i: int| 0 <= i < current.len() implies current.contains(
        #[trigger] current[i],
    ) by {
        assert(0 <= i < current.len() && current[i] == current[i]);
    }
    lemma_newly_live_all_known(current, current);
}

/// The one-line summary under which live-channel notifications are shown.
pub fn notification_summary() -> (r: String)
    ensures
        r@ == "Iced Twitch GUI"@,
{
    String::from_str("Iced Twitch GUI")
}

/// The text of a notification naming the newly live channels.
pub open spec fn notification_body_spec(names: Seq<Seq<char>>) -> Seq<char> {
    "The following streamers have started streaming: "@ + join_with(names, ", "@)
}

pub fn notification_body(names: &Vec<String>) -> (r: String)
    ensures
        r@ == notification_body_spec(views_of(names@)),
{
    let mut out: String = String::from_str("The following streamers have started streaming: ");
    let joined = join_strings(names, ", ");
    out.append(joined.as_str());
    out
}

} // verus!
