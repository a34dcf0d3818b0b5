//! The usage tracker: one authoritative usage state per resource of a device.

use std::collections::HashMap;
use vstd::prelude::*;
use crate::error::Error;
use crate::life::{LifetimeGuard, released, retained};
use crate::usage::{
    PRESENT, UsageFlags, WRITE_ALL, lemma_exclusive_not_read_only, lemma_join_includes,
    lemma_join_read_only,
};

verus! {

broadcast use vstd::std_specs::hash::group_hash_axioms;

/// Identity of a buffer or a texture.
pub type ResourceId = u64;

/// Identity of a device queue.
pub type QueueId = u64;

/// What the tracker knows of a resource that has been used.
#[derive(Clone, Copy, Debug, PartialEq, Eq)]
pub struct ResourceState {
    pub usage: UsageFlags,
    pub last_known_owner: QueueId,
}

/// The entry of one registered resource.
#[derive(Clone, Copy, Debug, PartialEq, Eq)]
pub struct Track {
    /// The usage the resource was registered with.
    pub initial: UsageFlags,
    /// `None` until the first transition.
    pub state: Option<ResourceState>,
}

/// What the caller allows a transition to do.
#[derive(Clone, Copy, Debug, PartialEq, Eq)]
pub enum TrackPermit {
    /// The state may be kept or extended, never replaced.
    Extend,
    /// Any outcome is allowed.
    Replace,
}

/// The decision taken on a requested usage.
#[derive(Clone, Copy, Debug, PartialEq, Eq)]
pub enum Tracktion {
    /// The resource had no state yet. No barrier is needed.
    Init,
    /// The requested usage is covered by the current one. No barrier is needed.
    Keep,
    /// The requested usage was merged into the current one, which was `old`.
    /// No barrier is needed.
    Extend { old: UsageFlags },
    /// The current usage, which was `old`, was overwritten. A barrier from
    /// `old` to the requested usage is mandatory.
    Replace { old: UsageFlags },
}

/// The decision on a request for `usage` under `permit`, where `current` is
/// the usage of the resource so far, if it has one.
pub open spec fn decide(current: Option<UsageFlags>, usage: UsageFlags, permit: TrackPermit)
    -> Result<Tracktion, Error> {
    match current {
        None => Ok(Tracktion::Init),
        Some(old) => if old.compatible(usage) {
            if old.includes(usage) {
                Ok(Tracktion::Keep)
            } else {
                Ok(Tracktion::Extend { old })
            }
        } else if permit == TrackPermit::Replace {
            Ok(Tracktion::Replace { old })
        } else {
            Err(Error::PermitViolation)
        },
    }
}

/// The state of a resource after a request for `usage` under `permit` made
/// on `queue`.
pub open spec fn state_after(
    current: Option<ResourceState>,
    usage: UsageFlags,
    permit: TrackPermit,
    queue: QueueId,
) -> Option<ResourceState> {
    match current {
        None => Some(ResourceState { usage, last_known_owner: queue }),
        Some(state) => match decide(Some(state.usage), usage, permit) {
            Ok(Tracktion::Extend { old }) => Some(
                ResourceState { usage: old.join(usage), last_known_owner: state.last_known_owner },
            ),
            Ok(Tracktion::Replace { old }) => Some(
                ResourceState { usage, last_known_owner: queue },
            ),
            _ => current,
        },
    }
}

/// The usage held in a state, if there is a state.
pub open spec fn usage_in(state: Option<ResourceState>) -> Option<UsageFlags> {
    match state {
        None => None,
        Some(s) => Some(s.usage),
    }
}

/// The table of a tracker: every registered resource with its entry.
pub type Table = Map<ResourceId, Track>;

/// The table after `id` is registered with `initial`.
pub open spec fn register_in(table: Table, id: ResourceId, initial: UsageFlags) -> Table {
    table.insert(id, Track { initial, state: None })
}

/// The current usage of `id` in a table: `None` if it is not registered or
/// has not been used yet.
pub open spec fn usage_at(table: Table, id: ResourceId) -> Option<UsageFlags> {
    if table.contains_key(id) {
        usage_in(table[id].state)
    } else {
        None
    }
}

/// What a request for `usage` on `id` under `permit` returns.
pub open spec fn transit_result(
    table: Table,
    id: ResourceId,
    usage: UsageFlags,
    permit: TrackPermit,
) -> Result<Tracktion, Error> {
    if table.contains_key(id) {
        decide(usage_at(table, id), usage, permit)
    } else {
        Err(Error::ResourceNotTracked)
    }
}

/// The table after a request for `usage` on `id` under `permit`, made on
/// `queue`. A request that fails leaves the table as it was.
pub open spec fn transit_in(
    table: Table,
    id: ResourceId,
    usage: UsageFlags,
    permit: TrackPermit,
    queue: QueueId,
) -> Table {
    if table.contains_key(id) {
        table.insert(
            id,
            Track {
                initial: table[id].initial,
                state: state_after(table[id].state, usage, permit, queue),
            },
        )
    } else {
        table
    }
}

/// The tracker of a device: one entry for every registered resource.
pub struct UsageTracker {
    queue: QueueId,
    table: HashMap<u64, Track>,
}

impl View for UsageTracker {
    type V = Table;

    closed spec fn view(&self) -> Table {
        self.table@
    }
}

impl UsageTracker {
    /// The queue on whose behalf this tracker takes resources over.
    pub closed spec fn owner(&self) -> QueueId {
        self.queue
    }

    pub open spec fn registered(&self, id: ResourceId) -> bool {
        self@.contains_key(id)
    }

    /// The current usage of a resource: `None` if it is not registered or
    /// has not been used yet.
    pub open spec fn usage_of(&self, id: ResourceId) -> Option<UsageFlags> {
        usage_at(self@, id)
    }

    /// A tracker with no resource in it.
    pub fn new(queue: QueueId) -> (tracker: UsageTracker)
        ensures
            tracker@ == Table::empty(),
            tracker.owner() == queue,
    {
        UsageTracker { queue, table: HashMap::new() }
    }

    pub fn queue(&self) -> (queue: QueueId)
        ensures
            queue == self.owner(),
    {
        self.queue
    }

    /// Registers a resource. It has no state until its first transition. An
    /// entry that was there under the same identity is forgotten, and with it
    /// the reference that the tracker may have held: `remove` gives that
    /// reference back, `register` does not.
    pub fn register(&mut self, id: ResourceId, initial_usage: UsageFlags)
        ensures
            final(self)@ == register_in(old(self)@, id, initial_usage),
            final(self).owner() == old(self).owner(),
    {
        self.table.insert(id, Track { initial: initial_usage, state: None });
    }

    pub fn is_registered(&self, id: ResourceId) -> (r: bool)
        ensures
            r == self.registered(id),
    {
        self.table.contains_key(&id)
    }

    /// The entry of a resource.
    pub fn get(&self, id: ResourceId) -> (r: Option<Track>)
        ensures
            r == (if self.registered(id) {
                Some(self@[id])
            } else {
                None
            }),
    {
        match self.table.get(&id) {
            Some(track) => Some(*track),
            None => None,
        }
    }

    /// The current usage of a resource.
    pub fn query(&self, id: ResourceId) -> (r: Option<UsageFlags>)
        ensures
            r == self.usage_of(id),
    {
        match self.table.get(&id) {
            Some(track) => match track.state {
                Some(state) => Some(state.usage),
                None => None,
            },
            None => None,
        }
    }

    /// Moves a resource to `usage`, as far as `permit` allows, and reports
    /// what that took. The lookup, the decision and the update are one step.
    ///
    /// The tracker takes a reference on the resource when it first gives it
    /// a state, and keeps it until the resource is removed.
    pub fn transit(
        &mut self,
        id: ResourceId,
        guard: &mut LifetimeGuard,
        usage: UsageFlags,
        permit: TrackPermit,
    ) -> (r: Result<Tracktion, Error>)
        ensures
            final(self).owner() == old(self).owner(),
            r == transit_result(old(self)@, id, usage, permit),
            final(self)@ == transit_in(old(self)@, id, usage, permit, old(self).owner()),
            final(guard)@ == (if r == Ok::<Tracktion, Error>(Tracktion::Init) {
                retained(old(guard)@)
            } else {
                old(guard)@
            }),
    {
        let track = match self.table.get(&id) {
            Some(track) => *track,
            None => {
                return Err(Error::ResourceNotTracked);
            },
        };
        let state = match track.state {
            Some(state) => state,
            None => {
                guard.retain();
                self.table.insert(
                    id,
                    Track {
                        initial: track.initial,
                        state: Some(ResourceState { usage, last_known_owner: self.queue }),
                    },
                );
                return Ok(Tracktion::Init);
            },
        };
        let current = state.usage;
        if current.is_compatible_with(usage) {
            if current.contains(usage) {
                Ok(Tracktion::Keep)
            } else {
                self.table.insert(
                    id,
                    Track {
                        initial: track.initial,
                        state: Some(
                            ResourceState {
                                usage: current.union(usage),
                                last_known_owner: state.last_known_owner,
                            },
                        ),
                    },
                );
                Ok(Tracktion::Extend { old: current })
            }
        } else {
            match permit {
                TrackPermit::Replace => {
                    self.table.insert(
                        id,
                        Track {
                            initial: track.initial,
                            state: Some(ResourceState { usage, last_known_owner: self.queue }),
                        },
                    );
                    Ok(Tracktion::Replace { old: current })
                },
                TrackPermit::Extend => {
                    Err(Error::PermitViolation)
                },
            }
        }
    }

    /// Takes a resource out of the table and gives back the reference that
    /// the tracker held on it, if it held one. Returns the entry.
    pub fn remove(&mut self, id: ResourceId, guard: &mut LifetimeGuard) -> (r: Option<Track>)
        ensures
            final(self).owner() == old(self).owner(),
            final(self)@ == old(self)@.remove(id),
            r == (if old(self).registered(id) {
                Some(old(self)@[id])
            } else {
                None
            }),
            final(guard)@ == (if old(self).usage_of(id) is Some {
                released(old(guard)@)
            } else {
                old(guard)@
            }),
    {
        match self.table.remove(&id) {
            Some(track) => {
                if track.state.is_some() {
                    guard.release();
                }
                Some(track)
            },
            None => {
                None
            },
        }
    }
}

/// A resource that has just been registered answers its first request with
/// `Init`, whatever was in the table before and whatever usage is asked for.
/// The same request made again is answered with `Keep`.
pub proof fn law_first_use_is_init_then_keep(
    table: Table,
    id: ResourceId,
    initial: UsageFlags,
    usage: UsageFlags,
    queue: QueueId,
)
    ensures
        ({
            let fresh = register_in(table, id, initial);
            let used = transit_in(fresh, id, usage, TrackPermit::Extend, queue);
            &&& transit_result(fresh, id, usage, TrackPermit::Extend) == Ok::<Tracktion, Error>(
                Tracktion::Init,
            )
            &&& usage_at(used, id) == Some(usage)
            &&& transit_result(used, id, usage, TrackPermit::Extend) == Ok::<Tracktion, Error>(
                Tracktion::Keep,
            )
            &&& transit_in(used, id, usage, TrackPermit::Extend, queue) == used
        }),
{
    lemma_join_includes(usage, usage);
}

/// Two read-only usages asked for in turn on a resource that has just been
/// registered end in their union, which is read-only again, and the second
/// request never fails. Where the second usage brings a flag that the first
/// does not have, the second request is answered with `Extend`, and `old` is
/// the first usage; where it brings none, it is answered with `Keep`.
pub proof fn law_read_only_usages_merge(
    table: Table,
    id: ResourceId,
    initial: UsageFlags,
    first: UsageFlags,
    second: UsageFlags,
    queue: QueueId,
)
    requires
        first.read_only(),
        second.read_only(),
    ensures
        ({
            let fresh = register_in(table, id, initial);
            let one = transit_in(fresh, id, first, TrackPermit::Extend, queue);
            let two = transit_in(one, id, second, TrackPermit::Extend, queue);
            let answer = transit_result(one, id, second, TrackPermit::Extend);
            &&& usage_at(two, id) == Some(first.join(second))
            &&& first.join(second).read_only()
            &&& !first.includes(second) ==> answer == Ok::<Tracktion, Error>(
                Tracktion::Extend { old: first },
            )
            &&& first.includes(second) ==> answer == Ok::<Tracktion, Error>(Tracktion::Keep)
        }),
{
    lemma_join_includes(first, second);
    lemma_join_read_only(first, second);
}

/// From a usage that writes or presents, a request for any other usage
/// fails with `PermitViolation` under `Extend` and leaves the table as it
/// was. Under `Replace` it succeeds, reports the usage that was recorded as
/// `old`, and records the new one.
pub proof fn law_exclusive_usage_needs_replace(
    table: Table,
    id: ResourceId,
    usage: UsageFlags,
    queue: QueueId,
)
    requires
        usage_at(table, id) is Some,
        usage_at(table, id)->0.bits & (WRITE_ALL | PRESENT) != 0,
        usage != usage_at(table, id)->0,
    ensures
        table.contains_key(id),
        transit_result(table, id, usage, TrackPermit::Extend) == Err::<Tracktion, Error>(
            Error::PermitViolation,
        ),
        transit_in(table, id, usage, TrackPermit::Extend, queue) == table,
        transit_result(table, id, usage, TrackPermit::Replace) == Ok::<Tracktion, Error>(
            Tracktion::Replace { old: usage_at(table, id)->0 },
        ),
        usage_at(transit_in(table, id, usage, TrackPermit::Replace, queue), id) == Some(usage),
{
    lemma_exclusive_not_read_only(usage_at(table, id)->0);
}

/// No request is ever answered with `Replace` under `Extend`, and a request
/// under `Replace` on a registered resource never fails.
pub proof fn law_permit_bounds_outcome(
    table: Table,
    id: ResourceId,
    usage: UsageFlags,
)
    ensures
        !(transit_result(table, id, usage, TrackPermit::Extend) matches Ok(
            Tracktion::Replace { .. },
        )),
        table.contains_key(id) ==> transit_result(table, id, usage, TrackPermit::Replace) is Ok,
{
}

} // verus!
