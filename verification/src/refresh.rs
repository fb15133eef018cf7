//! The key set that all requests share, and the rule by which a refresh of
//! it is started by one request on behalf of all that wait for it.
//!
//! The cache does not fetch and does not wait: it advises. Whoever owns it
//! puts it behind a lock and acts on the advice.

use vstd::prelude::*;
use crate::keys::KeyMaterial;
use crate::keys::SigningKeySet;

verus! {

/// What a request does after it found no key for its token.
#[derive(Clone, Copy, Debug, PartialEq, Eq, Structural)]
pub enum MissAdvice {
    /// No fetch is under way: this request fetches the key set and reports
    /// the outcome with [`KeyCache::complete_fetch`].
    Fetch,
    /// Another request is fetching: this one waits for that fetch and goes
    /// by its outcome.
    Wait,
    /// The set was replaced after this request read it: it looks again.
    Reload,
}

/// The coordination state of a cache: how many times the key set was
/// replaced, and whether a fetch is under way.
pub struct GateView {
    pub generation: int,
    pub fetching: bool,
}

/// What happens to a cache.
pub enum GateEvent {
    /// A request that read the set at generation `seen` found no key.
    Miss { seen: int },
    /// The fetch ended and did, or did not, replace the set.
    Completed { replaced: bool },
}

/// The advice that a miss gets in a given state.
pub open spec fn advice_for(state: GateView, seen: int) -> MissAdvice {
    if seen != state.generation {
        MissAdvice::Reload
    } else if state.fetching {
        MissAdvice::Wait
    } else {
        MissAdvice::Fetch
    }
}

/// The number after `generation`. Generations are compared for equality
/// only, so the count may start over.
pub open spec fn next_generation(generation: int) -> int {
    if generation == u64::MAX {
        0
    } else {
        generation + 1
    }
}

/// The state after an event.
pub open spec fn gate_after(state: GateView, event: GateEvent) -> GateView {
    match event {
        GateEvent::Miss { seen } => GateView {
            generation: state.generation,
            fetching: state.fetching || advice_for(state, seen) == MissAdvice::Fetch,
        },
        GateEvent::Completed { replaced } => GateView {
            generation: if replaced {
                next_generation(state.generation)
            } else {
                state.generation
            },
            fetching: false,
        },
    }
}

/// The state after a run of events.
pub open spec fn gate_after_all(state: GateView, events: Seq<GateEvent>) -> GateView
    decreases events.len(),
{
    if events.len() == 0 {
        state
    } else {
        gate_after(gate_after_all(state, events.drop_last()), events.last())
    }
}

/// How many fetches a run of events starts.
pub open spec fn fetches_started(state: GateView, events: Seq<GateEvent>) -> nat
    decreases events.len(),
{
    if events.len() == 0 {
        0
    } else {
        let before = gate_after_all(state, events.drop_last());
        let started: nat = match events.last() {
            GateEvent::Miss { seen } => if advice_for(before, seen) == MissAdvice::Fetch {
                1
            } else {
                0
            },
            GateEvent::Completed { .. } => 0,
        };
        fetches_started(state, events.drop_last()) + started
    }
}

/// How many fetches end in a run of events.
pub open spec fn fetches_completed(events: Seq<GateEvent>) -> nat
    decreases events.len(),
{
    if events.len() == 0 {
        0
    } else {
        let ended: nat = match events.last() {
            GateEvent::Miss { .. } => 0,
            GateEvent::Completed { .. } => 1,
        };
        fetches_completed(events.drop_last()) + ended
    }
}

/// The key set shared by all requests, with the state that coordinates its
/// refresh.
pub struct KeyCache {
    current: SigningKeySet,
    generation: u64,
    fetching: bool,
}

impl KeyCache {
    /// The keys that the cache holds.
    pub closed spec fn keys(&self) -> Map<Seq<char>, KeyMaterial> {
        self.current@
    }

    /// The coordination state of the cache.
    pub closed spec fn gate(&self) -> GateView {
        GateView { generation: self.generation as int, fetching: self.fetching }
    }

    /// A cache that starts with the given keys.
    pub fn new(initial: SigningKeySet) -> (out: KeyCache)
        ensures
            out.keys() == initial@,
            out.gate() == (GateView { generation: 0, fetching: false }),
    {
        KeyCache { current: initial, generation: 0, fetching: false }
    }

    /// The key set to verify against.
    pub fn current(&self) -> (out: &SigningKeySet)
        ensures
            out@ == self.keys(),
    {
        &self.current
    }

    /// The generation of the key set: a request notes it when it reads the
    /// set and hands it back when it reports a miss.
    pub fn generation(&self) -> (out: u64)
        ensures
            out == self.gate().generation,
    {
        self.generation
    }

    /// Whether a fetch is under way.
    pub fn is_fetching(&self) -> (out: bool)
        ensures
            out == self.gate().fetching,
    {
        self.fetching
    }

    /// The key set by which a request that waited for a fetch ends: the
    /// current set if the set was replaced since the request read it at
    /// generation `seen`, and `None`, for a failed fetch, if it was not.
    pub fn refreshed_since(&self, seen: u64) -> (out: Option<&SigningKeySet>)
        ensures
            match out {
                Some(keys) => self.gate().generation != seen && keys@ == self.keys(),
                None => self.gate().generation == seen,
            },
    {
        if self.generation != seen {
            Some(&self.current)
        } else {
            None
        }
    }

    /// Takes note of a miss by a request that read the set at generation
    /// `seen`, and says what that request does next. At most one request
    /// is told to fetch until that fetch is reported complete.
    pub fn report_miss(&mut self, seen: u64) -> (advice: MissAdvice)
        ensures
            advice == advice_for(old(self).gate(), seen as int),
            final(self).gate() == gate_after(old(self).gate(), GateEvent::Miss { seen: seen as int }),
            final(self).keys() == old(self).keys(),
    {
        if seen != self.generation {
            MissAdvice::Reload
        } else if self.fetching {
            MissAdvice::Wait
        } else {
            self.fetching = true;
            MissAdvice::Fetch
        }
    }

    /// Ends the fetch. A fetched set replaces the old one as a whole and
    /// starts a new generation; a failed fetch (`None`) leaves keys and
    /// generation as they were.
    pub fn complete_fetch(&mut self, fetched: Option<SigningKeySet>)
        ensures
            final(self).gate() == gate_after(
                old(self).gate(),
                GateEvent::Completed { replaced: fetched is Some },
            ),
            final(self).keys() == match fetched {
                Some(keys) => keys@,
                None => old(self).keys(),
            },
    {
        match fetched {
            Some(keys) => {
                self.current = keys;
                self.generation = if self.generation == u64::MAX {
                    0
                } else {
                    self.generation + 1
                };
            },
            None => {},
        }
        self.fetching = false;
    }
}

/// Every completion in the run is reported while a fetch is under way, as
/// the request that fetches does.
pub open spec fn well_reported(state: GateView, events: Seq<GateEvent>) -> bool
    decreases events.len(),
{
    if events.len() == 0 {
        true
    } else {
        &&& well_reported(state, events.drop_last())
        &&& events.last() is Completed ==> gate_after_all(state, events.drop_last()).fetching
    }
}

/// The number of fetches under way: one or none.
pub open spec fn in_flight(state: GateView) -> nat {
    if state.fetching {
        1
    } else {
        0
    }
}

/// Whatever requests do and in whatever order, as long as only the request
/// that fetches reports a completion: the fetches started and not yet
/// completed are the one under way, or none. So between two completions
/// at most one fetch is started.
pub proof fn law_one_fetch_in_flight(state: GateView, events: Seq<GateEvent>)
    requires
        well_reported(state, events),
    ensures
        fetches_started(state, events) + in_flight(state) == fetches_completed(events) + in_flight(
            gate_after_all(state, events),
        ),
        fetches_started(state, events) <= fetches_completed(events) + 1,
    decreases events.len(),
{
    if events.len() > 0 {
        law_one_fetch_in_flight(state, events.drop_last());
    }
}

/// Requests that miss on the same generation of an idle cache, in any
/// number and with no completion in between, start one fetch: the first
/// is told to fetch and every other to wait.
pub proof fn law_concurrent_misses_start_one_fetch(state: GateView, misses: Seq<GateEvent>)
    requires
        !state.fetching,
        misses.len() > 0,
        forall|i: int|
            0 <= i < misses.len() ==> #[trigger] misses[i] == (GateEvent::Miss {
                seen: state.generation,
            }),
    ensures
        fetches_started(state, misses) == 1,
        gate_after_all(state, misses) == (GateView { generation: state.generation, fetching: true }),
    decreases misses.len(),
{
    let front = misses.drop_last();
    if front.len() == 0 {
        assert(gate_after_all(state, front) == state);
        assert(fetches_started(state, front) == 0);
    } else {
        assert forall|i: int| 0 <= i < front.len() implies #[trigger] front[i] == (GateEvent::Miss {
            seen: state.generation,
        }) by {
            assert(front[i] == misses[i]);
        }
        law_concurrent_misses_start_one_fetch(state, front);
    }
    assert(misses.last() == misses[misses.len() - 1]);
}

} // verus!
