//! The throttle that guards outbound remote calls: at most `capacity`
//! permits are held at once, and two grants lie at least `pacing` time units
//! apart. The state here is the policy itself — which requests may be
//! granted, and what a grant or a release does to the state; the caller owns
//! the clock and the waiting.

use vstd::prelude::*;

verus! {

/// The default number of permits that may be held at once.
pub const DEFAULT_CAPACITY: u64 = 2;

/// The default pacing delay between two grants, in milliseconds.
pub const DEFAULT_PACING_MILLIS: u64 = 100;

/// A capacity-bounded, paced permit counter. `held` counts the permits
/// currently out; `last_grant` is the time of the most recent grant.
pub struct Throttle {
    pub capacity: u64,
    pub pacing: u64,
    pub held: u64,
    pub last_grant: Option<u64>,
}

/// One thing that can happen to a throttle: a request for a permit at a
/// given time, or the release of a held permit.
pub enum ThrottleEvent {
    Request(u64),
    Release,
}

impl Throttle {
    /// A throttle is well formed when it has room for at least one permit
    /// and holds no more permits than its capacity.
    pub open spec fn wf(self) -> bool {
        1 <= self.capacity && self.held <= self.capacity
    }

    /// A request at time `now` may be granted when a permit slot is free
    /// and at least `pacing` has passed since the last grant.
    pub open spec fn spec_can_grant(self, now: u64) -> bool {
        &&& self.held < self.capacity
        &&& match self.last_grant {
            Option::None => true,
            Option::Some(t) => now >= t + self.pacing,
        }
    }

    /// Makes a throttle with no permits held and no grant on record.
    pub fn new(capacity: u64, pacing: u64) -> (r: Throttle)
        requires
            capacity >= 1,
        ensures
            r == (Throttle { capacity, pacing, held: 0u64, last_grant: Option::<u64>::None }),
            r.wf(),
    {
        Throttle { capacity, pacing, held: 0, last_grant: None }
    }

    /// Makes a throttle with the default capacity and pacing.
    pub fn with_defaults() -> (r: Throttle)
        ensures
            r == (Throttle {
                capacity: DEFAULT_CAPACITY,
                pacing: DEFAULT_PACING_MILLIS,
                held: 0u64,
                last_grant: Option::<u64>::None,
            }),
            r.wf(),
    {
        Throttle::new(DEFAULT_CAPACITY, DEFAULT_PACING_MILLIS)
    }

    /// Says whether a request at time `now` may be granted.
    pub fn can_grant(&self, now: u64) -> (r: bool)
        ensures
            r == self.spec_can_grant(now),
    {
        self.held < self.capacity && match self.last_grant {
            Option::None => true,
            Option::Some(t) => now >= t && now - t >= self.pacing,
        }
    }

    /// Grants a permit at time `now`; the caller must have seen that the
    /// grant is allowed.
    pub fn grant(&mut self, now: u64)
        requires
            old(self).wf(),
            old(self).spec_can_grant(now),
        ensures
            *final(self) == throttle_step(*old(self), ThrottleEvent::Request(now)),
            final(self).wf(),
            final(self).held == old(self).held + 1,
            final(self).last_grant == Option::Some(now),
            final(self).capacity == old(self).capacity,
            final(self).pacing == old(self).pacing,
    {
        self.held = self.held + 1;
        self.last_grant = Some(now);
    }

    /// Returns a held permit to the pool; with no permit out this does
    /// nothing.
    pub fn release(&mut self)
        requires
            old(self).wf(),
        ensures
            *final(self) == throttle_step(*old(self), ThrottleEvent::Release),
            final(self).wf(),
            old(self).held > 0 ==> final(self).held == old(self).held - 1,
            old(self).held == 0 ==> final(self).held == 0,
            final(self).last_grant == old(self).last_grant,
            final(self).capacity == old(self).capacity,
            final(self).pacing == old(self).pacing,
    {
        if self.held > 0 {
            self.held = self.held - 1;
        }
    }
}

/// What one event does to a throttle: a request is granted exactly when the
/// throttle allows it, and a release frees one held permit.
pub open spec fn throttle_step(s: Throttle, e: ThrottleEvent) -> Throttle {
    match e {
        ThrottleEvent::Request(now) => if s.spec_can_grant(now) {
            Throttle { held: (s.held + 1) as u64, last_grant: Option::Some(now), ..s }
        } else {
            s
        },
        ThrottleEvent::Release => if s.held > 0 {
            Throttle { held: (s.held - 1) as u64, ..s }
        } else {
            s
        },
    }
}

/// The throttle after a whole sequence of events.
pub open spec fn throttle_run(s: Throttle, events: Seq<ThrottleEvent>) -> Throttle
    decreases events.len(),
{
    if events.len() == 0 {
        s
    } else {
        throttle_run(throttle_step(s, events[0]), events.skip(1))
    }
}

/// The times at which requests in an event sequence were granted, in order.
pub open spec fn grant_times(s: Throttle, events: Seq<ThrottleEvent>) -> Seq<u64>
    decreases events.len(),
{
    if events.len() == 0 {
        Seq::empty()
    } else {
        let rest = grant_times(throttle_step(s, events[0]), events.skip(1));
        match events[0] {
            ThrottleEvent::Request(now) => if s.spec_can_grant(now) {
                seq![now] + rest
            } else {
                rest
            },
            ThrottleEvent::Release => rest,
        }
    }
}

/// However many concurrent callers drive a well-formed throttle, and in
/// whatever order their requests and releases arrive, the number of held
/// permits never exceeds the capacity, and the capacity and pacing never
/// change.
pub proof fn lemma_throttle_capacity(s: Throttle, events: Seq<ThrottleEvent>)
    requires
        s.wf(),
    ensures
        throttle_run(s, events).wf(),
        throttle_run(s, events).held <= s.capacity,
        throttle_run(s, events).capacity == s.capacity,
        throttle_run(s, events).pacing == s.pacing,
    decreases events.len(),
{
    if events.len() > 0 {
        let s1 = throttle_step(s, events[0]);
        assert(s1.wf());
        lemma_throttle_capacity(s1, events.skip(1));
    }
}

/// `times` keeps a gap of at least `pacing` between each pair of
/// neighbouring entries.
pub open spec fn paced(times: Seq<u64>, pacing: u64) -> bool {
    forall|i: int| 0 <= i < times.len() - 1 ==> #[trigger] times[i] + pacing <= times[i + 1]
}

proof fn lemma_throttle_pacing_aux(s: Throttle, events: Seq<ThrottleEvent>)
    ensures
        paced(grant_times(s, events), s.pacing),
        s.last_grant matches Some(t) ==> (grant_times(s, events).len() > 0 ==> t + s.pacing
            <= grant_times(s, events)[0]),
    decreases events.len(),
{
    if events.len() > 0 {
        let s1 = throttle_step(s, events[0]);
        assert(s1.pacing == s.pacing);
        lemma_throttle_pacing_aux(s1, events.skip(1));
        let rest = grant_times(s1, events.skip(1));
        match events[0] {
            ThrottleEvent::Request(now) => {
                if s.spec_can_grant(now) {
                    let ts = grant_times(s, events);
                    assert(ts == seq![now] + rest);
                    assert(s1.last_grant == Option::Some(now));
                    assert(rest.len() > 0 ==> now + s.pacing <= rest[0]);
                    assert forall|i: int| 0 <= i < ts.len() - 1 implies #[trigger] ts[i] + s.pacing
                        <= ts[i + 1] by {
                        if i == 0 {
                            assert(ts[0] == now);
                            assert(ts[1] == rest[0]);
                        } else {
                            assert(ts[i] == rest[i - 1]);
                            assert(ts[i + 1] == rest[i]);
                        }
                    }
                }
            },
            ThrottleEvent::Release => {
                assert(s1.last_grant == s.last_grant);
            },
        }
    }
}

/// Grants are paced: in the grant times of any event sequence, each grant
/// lies at least `pacing` after the one before it. In particular, two
/// acquisitions issued back to back by one caller are at least `pacing`
/// apart.
pub proof fn lemma_throttle_pacing(s: Throttle, events: Seq<ThrottleEvent>)
    ensures
        paced(grant_times(s, events), s.pacing),
{
    lemma_throttle_pacing_aux(s, events);
}

} // verus!
