//! The activity tracker: play detection and the recent plays of this session.
use vstd::prelude::*;

pub mod detector;
pub mod model;

use std::collections::VecDeque;

use detector::PlayDetector;
use model::{same_play, PlayObservation, RecentPlay};
use crate::clock::UtcTime;

verus! {

/// Where recorded plays are kept.
pub trait ActivityStore {
    fn push(&mut self, play: RecentPlay);

    fn recent(&self) -> Vec<RecentPlay>;
}

/// The most recent plays of this session, newest first, at most `capacity` of them.
pub struct InMemoryActivityStore {
    capacity: usize,
    entries: VecDeque<RecentPlay>,
}

/// The plays kept after `play` is added to `entries`: `play` first, then the
/// earlier plays, the oldest dropped when `capacity` plays are kept.
pub open spec fn kept_after_push(entries: Seq<RecentPlay>, capacity: nat, play: RecentPlay) -> Seq<
    RecentPlay,
> {
    seq![play] + if entries.len() == capacity && entries.len() > 0 {
        entries.drop_last()
    } else {
        entries
    }
}

/// Every play of `a` holds the content of the play at the same place in `b`.
pub open spec fn same_plays(a: Seq<RecentPlay>, b: Seq<RecentPlay>) -> bool {
    a.len() == b.len() && forall|i: int| 0 <= i < a.len() ==> same_play(#[trigger] a[i], b[i])
}

impl InMemoryActivityStore {
    /// The plays kept, newest first.
    pub closed spec fn entries(&self) -> Seq<RecentPlay> {
        self.entries@
    }

    /// How many plays are kept at most.
    pub closed spec fn capacity(&self) -> nat {
        self.capacity as nat
    }

    /// An empty store that keeps up to `capacity` plays.
    pub fn new(capacity: usize) -> (s: Self)
        ensures
            s.entries().len() == 0,
            s.capacity() == capacity,
    {
        InMemoryActivityStore { capacity, entries: VecDeque::new() }
    }
}

impl ActivityStore for InMemoryActivityStore {
    /// Adds a play in front; the oldest play leaves when the store is full.
    fn push(&mut self, play: RecentPlay)
        ensures
            final(self).entries() == kept_after_push(old(self).entries(), old(self).capacity(), play),
            final(self).capacity() == old(self).capacity(),
    {
        if self.entries.len() == self.capacity {
            self.entries.pop_back();
        }
        self.entries.push_front(play);
        assert(self.entries@ =~= kept_after_push(old(self).entries(), old(self).capacity(), play));
    }

    /// Copies of the kept plays, newest first.
    fn recent(&self) -> (r: Vec<RecentPlay>)
        ensures
            same_plays(r@, self.entries()),
    {
        let mut r: Vec<RecentPlay> = Vec::new();
        let mut i: usize = 0;
        while i < self.entries.len()
            invariant
                i <= self.entries@.len(),
                r@.len() == i,
                forall|k: int| 0 <= k < i ==> same_play(#[trigger] r@[k], self.entries@[k]),
            decreases self.entries@.len() - i,
        {
            let play = self.entries[i].duplicate();
            r.push(play);
            i = i + 1;
        }
        r
    }
}

/// A store with room for at least one play never keeps more than its capacity.
pub proof fn lemma_store_stays_within_capacity(
    entries: Seq<RecentPlay>,
    capacity: nat,
    play: RecentPlay,
)
    requires
        capacity > 0,
        entries.len() <= capacity,
    ensures
        kept_after_push(entries, capacity, play).len() <= capacity,
        kept_after_push(entries, capacity, play)[0] == play,
{
}

/// A push keeps the newest play first and drops only the oldest: after
/// `play` is pushed, the store holds `play` followed by the earlier plays,
/// cut to one less than the capacity.
pub proof fn lemma_push_keeps_newest_first(entries: Seq<RecentPlay>, capacity: nat, play: RecentPlay)
    requires
        capacity > 0,
        entries.len() <= capacity,
    ensures
        kept_after_push(entries, capacity, play) == seq![play] + entries.take(
            if entries.len() < capacity {
                entries.len() as int
            } else {
                capacity - 1
            },
        ),
        kept_after_push(entries, capacity, play).len() <= capacity,
{
    if entries.len() < capacity {
        assert(entries.take(entries.len() as int) =~= entries);
    } else {
        assert(entries.take(capacity - 1) =~= entries.drop_last());
    }
}

/// The play detector together with the recent plays of this session.
pub struct ActivityTracker {
    detector: PlayDetector,
    store: InMemoryActivityStore,
}

/// Whether the tracker `after` is `before` after taking one frame at some
/// moment, a new attempt being named by a random UUID: the detector stepped,
/// and a play it completed (if any) joined the recent plays.
pub open spec fn observed(
    before: ActivityTracker,
    observation: PlayObservation,
    after: ActivityTracker,
) -> bool {
    &&& after.capacity() == before.capacity()
    &&& exists|now_ms: u64, wall: UtcTime, id: String, play: Option<RecentPlay>|
        #![trigger detector::yields(play, detector::step(before.tracking(), observation, now_ms, wall, id).1, wall)]
        {
            &&& crate::clock::uuid_v4_text(id@)
            &&& after.tracking() == detector::step(
                before.tracking(),
                observation,
                now_ms,
                wall,
                id,
            ).0
            &&& detector::yields(
                play,
                detector::step(before.tracking(), observation, now_ms, wall, id).1,
                wall,
            )
            &&& after.plays() == match play {
                Some(p) => kept_after_push(before.plays(), before.capacity(), p),
                None => before.plays(),
            }
        }
}

/// Whether the tracker `after` is `before` with its attempt forgotten and its
/// recent plays kept.
pub open spec fn forgot_attempt(before: ActivityTracker, after: ActivityTracker) -> bool {
    &&& detector::idle(after.tracking())
    &&& after.plays() == before.plays()
    &&& after.capacity() == before.capacity()
}

impl ActivityTracker {
    /// The detector's tracking state.
    pub closed spec fn tracking(&self) -> detector::Tracking {
        self.detector.state()
    }

    /// The recent plays, newest first.
    pub closed spec fn plays(&self) -> Seq<RecentPlay> {
        self.store.entries()
    }

    /// How many recent plays are kept at most.
    pub closed spec fn capacity(&self) -> nat {
        self.store.capacity()
    }

    /// A tracker that follows no attempt and keeps up to twenty plays.
    pub fn new() -> (t: Self)
        ensures
            detector::idle(t.tracking()),
            t.plays().len() == 0,
            t.capacity() == 20,
    {
        ActivityTracker { detector: PlayDetector::new(), store: InMemoryActivityStore::new(20) }
    }

    /// Forgets the attempt in progress; the recent plays stay.
    pub fn reset(&mut self)
        ensures
            detector::idle(final(self).tracking()),
            final(self).plays() == old(self).plays(),
            final(self).capacity() == old(self).capacity(),
    {
        self.detector.reset();
    }

    /// Takes one frame; a play it completes joins the recent plays, which are returned.
    pub fn observe(&mut self, observation: PlayObservation) -> (r: Vec<RecentPlay>)
        ensures
            observed(*old(self), observation, *final(self)),
            same_plays(r@, final(self).plays()),
    {
        let play = self.detector.observe(observation);
        let ghost found = play;
        match play {
            Some(p) => self.store.push(p),
            None => {},
        }
        self.store.recent()
    }
}

} // verus!
