//! The record of recent start attempts, by which a crash loop is told.

use vstd::prelude::*;
use crate::clock::{nanos_between_stamps, stamp_span_nanos, Timestamp};

verus! {

/// How far back start attempts count, in minutes.
pub const HORIZON_MINUTES: i64 = 5;

/// The number of start attempts within the horizon from which on no further
/// start is tried.
pub const CRASH_LIMIT: usize = 3;

/// Whether an attempt made at `then` is at most `horizon` minutes old at
/// `now`, to the nanosecond. An attempt that lies ahead of `now` is.
pub open spec fn within_horizon(now: Timestamp, then: Timestamp, horizon: int) -> bool {
    stamp_span_nanos(now, then) <= horizon * 60_000_000_000
}

/// The attempts among `stamps`, in their order, that are at most `horizon`
/// minutes old at `now`.
pub open spec fn retained(stamps: Seq<Timestamp>, now: Timestamp, horizon: int) -> Seq<Timestamp> {
    stamps.filter(|then: Timestamp| within_horizon(now, then, horizon))
}

/// The times of the start attempts that still count, oldest first.
pub struct CrashLedger {
    stamps: Vec<Timestamp>,
}

impl View for CrashLedger {
    type V = Seq<Timestamp>;

    closed spec fn view(&self) -> Seq<Timestamp> {
        self.stamps@
    }
}

impl CrashLedger {
    /// A ledger without attempts.
    pub fn new() -> (ledger: CrashLedger)
        ensures
            ledger@ == Seq::<Timestamp>::empty(),
    {
        CrashLedger { stamps: Vec::new() }
    }

    /// Appends an attempt made at `now`.
    pub fn record(&mut self, now: Timestamp)
        ensures
            final(self)@ == old(self)@.push(now),
            final(self)@.len() == old(self)@.len() + 1,
    {
        self.stamps.push(now);
    }

    /// Removes every attempt that is more than `horizon` minutes old at
    /// `now`, and keeps the others in their order.
    pub fn prune(&mut self, now: Timestamp, horizon: i64)
        ensures
            final(self)@ == retained(old(self)@, now, horizon as int),
            forall|i: int|
                0 <= i < final(self)@.len() ==> within_horizon(
                    now,
                    #[trigger] final(self)@[i],
                    horizon as int,
                ),
            final(self)@.len() <= old(self)@.len(),
    {
        let ghost before = self.stamps@;
        let ghost keep = |then: Timestamp| within_horizon(now, then, horizon as int);
        let limit: i128 = horizon as i128 * 60_000_000_000;
        let mut kept: Vec<Timestamp> = Vec::new();
        let mut i: usize = 0;
        proof {
            reveal(Seq::filter);
            assert(before.take(0) =~= Seq::<Timestamp>::empty());
        }
        while i < self.stamps.len()
            invariant
                i <= self.stamps.len(),
                self.stamps@ == before,
                keep == |then: Timestamp| within_horizon(now, then, horizon as int),
                limit == horizon * 60_000_000_000,
                kept@ == before.take(i as int).filter(keep),
            decreases self.stamps.len() - i,
        {
            let then: Timestamp = self.stamps[i];
            proof {
                assert(before.take(i as int + 1) =~= before.take(i as int).push(then));
                before.take(i as int).lemma_filter_push(then, keep);
            }
            if nanos_between_stamps(now, then) <= limit {
                kept.push(then);
            }
            i = i + 1;
        }
        proof {
            assert(before.take(i as int) =~= before);
            lemma_retained_within_horizon(before, now, horizon as int);
        }
        self.stamps = kept;
    }

    /// The number of attempts in the ledger.
    pub fn count(&self) -> (n: usize)
        ensures
            n == self@.len(),
    {
        self.stamps.len()
    }

    /// The time of the attempt at place `index`, counted from the oldest.
    pub fn get(&self, index: usize) -> (then: Option<Timestamp>)
        ensures
            then == if index < self@.len() {
                Some(self@[index as int])
            } else {
                None
            },
    {
        if index < self.stamps.len() {
            Some(self.stamps[index])
        } else {
            None
        }
    }
}

/// After pruning, no attempt in the ledger is older than the horizon, every
/// attempt that was within the horizon is still there, and none was added.
pub proof fn lemma_retained_within_horizon(stamps: Seq<Timestamp>, now: Timestamp, horizon: int)
    ensures
        forall|i: int|
            0 <= i < retained(stamps, now, horizon).len() ==> within_horizon(
                now,
                #[trigger] retained(stamps, now, horizon)[i],
                horizon,
            ),
        forall|i: int|
            0 <= i < stamps.len() && within_horizon(now, stamps[i], horizon) ==> retained(
                stamps,
                now,
                horizon,
            ).contains(#[trigger] stamps[i]),
        forall|i: int|
            0 <= i < retained(stamps, now, horizon).len() ==> stamps.contains(
                #[trigger] retained(stamps, now, horizon)[i],
            ),
        retained(stamps, now, horizon).len() <= stamps.len(),
{
    let keep = |then: Timestamp| within_horizon(now, then, horizon);
    let out = stamps.filter(keep);
    assert forall|i: int| 0 <= i < out.len() implies within_horizon(
        now,
        #[trigger] out[i],
        horizon,
    ) by {
        stamps.lemma_filter_pred(keep, i);
    }
    assert forall|i: int| 0 <= i < stamps.len() && within_horizon(
        now,
        stamps[i],
        horizon,
    ) implies out.contains(#[trigger] stamps[i]) by {
        stamps.lemma_filter_contains(keep, i);
    }
    assert forall|i: int| 0 <= i < out.len() implies stamps.contains(#[trigger] out[i]) by {
        assert(out.contains(out[i]));
        stamps.lemma_filter_contains_rev(keep, out[i]);
    }
    stamps.lemma_filter_len(keep);
}

/// Where every attempt is within the horizon, pruning removes none.
pub proof fn lemma_retained_all(stamps: Seq<Timestamp>, now: Timestamp, horizon: int)
    requires
        forall|i: int| 0 <= i < stamps.len() ==> within_horizon(now, #[trigger] stamps[i], horizon),
    ensures
        retained(stamps, now, horizon) == stamps,
    decreases stamps.len(),
{
    reveal(Seq::filter);
    if stamps.len() > 0 {
        lemma_retained_all(stamps.drop_last(), now, horizon);
        assert(stamps.drop_last().push(stamps.last()) =~= stamps);
    }
}

/// Where every attempt is older than the horizon, pruning removes all.
pub proof fn lemma_retained_none(stamps: Seq<Timestamp>, now: Timestamp, horizon: int)
    requires
        forall|i: int|
            0 <= i < stamps.len() ==> !within_horizon(now, #[trigger] stamps[i], horizon),
    ensures
        retained(stamps, now, horizon) == Seq::<Timestamp>::empty(),
    decreases stamps.len(),
{
    reveal(Seq::filter);
    if stamps.len() > 0 {
        lemma_retained_none(stamps.drop_last(), now, horizon);
    }
}

/// Among the first `upto + 1` attempts, one more is retained than among the
/// first `upto`, where the attempt at `upto` is within the horizon; and no
/// fewer are retained among the first `more` for any `more` beyond `upto`.
proof fn lemma_retained_prefix(
    stamps: Seq<Timestamp>,
    now: Timestamp,
    horizon: int,
    upto: int,
    more: int,
)
    requires
        0 <= upto < more <= stamps.len(),
        within_horizon(now, stamps[upto], horizon),
    ensures
        retained(stamps.take(more), now, horizon).len() >= retained(
            stamps.take(upto),
            now,
            horizon,
        ).len() + 1,
{
    let keep = |then: Timestamp| within_horizon(now, then, horizon);
    assert(stamps.take(upto + 1) =~= stamps.take(upto).push(stamps[upto]));
    stamps.take(upto).lemma_filter_push(stamps[upto], keep);
    assert(stamps.take(more).take(upto + 1) =~= stamps.take(upto + 1));
    stamps.take(more).lemma_filter_take_len(keep, upto + 1);
}

/// Where three attempts are within the horizon, at least three are retained.
pub proof fn lemma_three_recent_attempts(
    stamps: Seq<Timestamp>,
    now: Timestamp,
    horizon: int,
    first: int,
    second: int,
    third: int,
)
    requires
        0 <= first < second < third < stamps.len(),
        within_horizon(now, stamps[first], horizon),
        within_horizon(now, stamps[second], horizon),
        within_horizon(now, stamps[third], horizon),
    ensures
        retained(stamps, now, horizon).len() >= 3,
{
    lemma_retained_prefix(stamps, now, horizon, first, second);
    lemma_retained_prefix(stamps, now, horizon, second, third);
    lemma_retained_prefix(stamps, now, horizon, third, stamps.len() as int);
    assert(stamps.take(stamps.len() as int) =~= stamps);
}

} // verus!
