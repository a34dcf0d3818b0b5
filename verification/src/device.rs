//! A device: its resources and their usage, the work that the GPU has not
//! finished, and its swapchains.
//!
//! A resource lives as long as somebody holds a reference on it or a
//! submission that names it has not retired. Destroying a resource gives a
//! reference back; a resource that nobody holds any more, but that the GPU
//! may still use, is freed by the `retire` that ends its last submission.

use std::collections::HashMap;
use vstd::prelude::*;
use crate::error::Error;
use crate::life::{LifetimeGuard, released, retained};
use crate::swap_chain::{
    AcquireEvent, AcquiredImage, FenceId, FrameSlot, PresentPlan, SemaphoreId, SwapChain,
    SwapChainDescriptor, SwapChainId, SwapChainState, SwapImageIndex, created,
    lemma_present_keeps_wf, plan_for, present_usage,
};
use crate::track::{
    QueueId, ResourceId, Table, TrackPermit, Tracktion, UsageTracker, register_in, transit_in,
    transit_result, usage_at,
};
use crate::usage::UsageFlags;

verus! {

broadcast use vstd::std_specs::hash::group_hash_axioms;

/// The submissions that have not retired, as pairs of the fence of a
/// submission and a resource that it names.
pub type InFlight = Set<(FenceId, ResourceId)>;

/// How a call of `destroy_resource` left the resource.
#[derive(Clone, Copy, Debug, PartialEq, Eq)]
pub enum Destruction {
    /// There is no such resource.
    NotRegistered,
    /// Other references remain: the resource stays as it is.
    Retained,
    /// Nobody holds the resource any more, but a submission that has not
    /// retired names it: it is freed when that submission retires.
    Deferred,
    /// The resource is freed.
    Freed,
}

/// Some submission that has not retired names `id`.
pub open spec fn referenced_in(in_flight: InFlight, id: ResourceId) -> bool {
    exists|fence: FenceId| in_flight.contains((fence, id))
}

/// The pairs that a submission under `fence` adds.
pub open spec fn submission(fence: FenceId, resources: Seq<ResourceId>) -> InFlight {
    Set::new(|pair: (FenceId, ResourceId)| pair.0 == fence && resources.contains(pair.1))
}

/// What is left in flight when the submissions under `fence` have retired.
pub open spec fn without_fence(in_flight: InFlight, fence: FenceId) -> InFlight {
    Set::new(|pair: (FenceId, ResourceId)| in_flight.contains(pair) && pair.0 != fence)
}

/// A device as a value.
pub struct DeviceState {
    pub queue: QueueId,
    /// The usage table of the tracker.
    pub table: Table,
    /// The reference count of every registered resource.
    pub counts: Map<ResourceId, nat>,
    pub in_flight: InFlight,
    /// The resources that nobody holds any more and that wait for the GPU.
    pub deferred: Set<ResourceId>,
    pub chains: Seq<SwapChainState>,
}

impl DeviceState {
    /// What holds of every device: the tracker has an entry for exactly the
    /// registered resources, a resource that waits for the GPU is not
    /// registered any more and is named by a submission in flight, and every
    /// swapchain is well-formed.
    pub open spec fn wf(self) -> bool {
        &&& self.table.dom() =~= self.counts.dom()
        &&& forall|id: ResourceId| #[trigger]
            self.deferred.contains(id) ==> !self.counts.contains_key(id) && referenced_in(
                self.in_flight,
                id,
            )
        &&& forall|i: int| 0 <= i < self.chains.len() ==> (#[trigger] self.chains[i]).wf()
    }

    /// The resource is registered, or waits for the GPU to let go of it.
    pub open spec fn alive(self, id: ResourceId) -> bool {
        self.counts.contains_key(id) || self.deferred.contains(id)
    }

    /// The references that the tracker holds on a resource: one while it
    /// has a usage recorded for it.
    pub open spec fn share(self, id: ResourceId) -> nat {
        if usage_at(self.table, id) is Some {
            1
        } else {
            0
        }
    }

    /// The device after `id` was registered with `usage`. A resource that
    /// was registered before keeps its references but for the one that the
    /// tracker held; one that waited for the GPU is in use again.
    pub open spec fn after_register(self, id: ResourceId, usage: UsageFlags) -> DeviceState {
        DeviceState {
            table: register_in(self.table, id, usage),
            counts: if self.counts.contains_key(id) {
                if self.share(id) == 1 {
                    self.counts.insert(id, released(self.counts[id]))
                } else {
                    self.counts
                }
            } else {
                self.counts.insert(id, 1)
            },
            deferred: self.deferred.remove(id),
            ..self
        }
    }

    /// The device after a request for `usage` on `id`.
    pub open spec fn after_transit(
        self,
        id: ResourceId,
        usage: UsageFlags,
        permit: TrackPermit,
    ) -> DeviceState {
        DeviceState {
            table: transit_in(self.table, id, usage, permit, self.queue),
            counts: if transit_result(self.table, id, usage, permit) == Ok::<Tracktion, Error>(
                Tracktion::Init,
            ) {
                self.counts.insert(id, retained(self.counts[id]))
            } else {
                self.counts
            },
            ..self
        }
    }

    /// Giving one reference back leaves nobody but the tracker with one.
    pub open spec fn last_reference(self, id: ResourceId) -> bool {
        self.counts.contains_key(id) && released(self.counts[id]) <= self.share(id)
    }

    pub open spec fn destroy_answer(self, id: ResourceId) -> Destruction {
        if !self.counts.contains_key(id) {
            if self.deferred.contains(id) {
                Destruction::Deferred
            } else {
                Destruction::NotRegistered
            }
        } else if !self.last_reference(id) {
            Destruction::Retained
        } else if referenced_in(self.in_flight, id) {
            Destruction::Deferred
        } else {
            Destruction::Freed
        }
    }

    /// The device after one reference on `id` was given back.
    pub open spec fn after_destroy(self, id: ResourceId) -> DeviceState {
        if !self.counts.contains_key(id) {
            self
        } else if !self.last_reference(id) {
            DeviceState { counts: self.counts.insert(id, released(self.counts[id])), ..self }
        } else {
            DeviceState {
                table: self.table.remove(id),
                counts: self.counts.remove(id),
                deferred: if referenced_in(self.in_flight, id) {
                    self.deferred.insert(id)
                } else {
                    self.deferred
                },
                ..self
            }
        }
    }

    /// The device after the texture of every slot was registered with
    /// `usage`, in the order of the slots.
    pub open spec fn after_register_all(self, slots: Seq<FrameSlot>, usage: UsageFlags) -> DeviceState
        decreases slots.len(),
    {
        if slots.len() == 0 {
            self
        } else {
            self.after_register_all(slots.drop_last(), usage).after_register(
                slots.last().texture_id,
                usage,
            )
        }
    }

    /// The device after a swapchain was created over `slots`: the textures
    /// of the slots are registered with the usage of the descriptor, and the
    /// swapchain is the newest of the device.
    pub open spec fn after_create(
        self,
        desc: SwapChainDescriptor,
        slots: Seq<FrameSlot>,
        sem_available: SemaphoreId,
    ) -> DeviceState {
        let registered = self.after_register_all(slots, desc.usage);
        DeviceState {
            chains: self.chains.push(
                created(self.chains.len() as SwapChainId, desc, slots, sem_available),
            ),
            ..registered
        }
    }

    /// Why a present on `chain` cannot be served, if it cannot.
    pub open spec fn present_error(self, chain: SwapChainId) -> Option<Error> {
        if chain >= self.chains.len() {
            Some(Error::ResourceNotTracked)
        } else {
            self.chains[chain as int].present_error(self.table)
        }
    }

    /// The device after the oldest acquired image of `chain` was presented:
    /// the texture is in `PRESENT`, and the submission that takes it there
    /// is in flight under the fence of the frame.
    pub open spec fn after_present(self, chain: SwapChainId) -> DeviceState {
        if self.present_error(chain) is Some {
            self
        } else {
            let state = self.chains[chain as int];
            let frame = state.frames[state.acquired[0] as int];
            let answer = transit_result(
                self.table,
                frame.texture_id,
                present_usage(),
                TrackPermit::Replace,
            );
            DeviceState {
                table: transit_in(
                    self.table,
                    frame.texture_id,
                    present_usage(),
                    TrackPermit::Replace,
                    self.queue,
                ),
                counts: if answer == Ok::<Tracktion, Error>(Tracktion::Init) {
                    self.counts.insert(frame.texture_id, retained(self.counts[frame.texture_id]))
                } else {
                    self.counts
                },
                in_flight: self.in_flight.insert((frame.fence, frame.texture_id)),
                chains: self.chains.update(chain as int, state.with_presented()),
                ..self
            }
        }
    }

    /// The device after a command buffer that names `resources` was
    /// submitted with `fence`.
    pub open spec fn after_submit(self, fence: FenceId, resources: Seq<ResourceId>) -> DeviceState {
        DeviceState { in_flight: self.in_flight.union(submission(fence, resources)), ..self }
    }

    /// The resources that are freed when the submissions under `fence`
    /// retire: those that waited for the GPU and are named by nothing that
    /// is left in flight.
    pub open spec fn freed_by(self, fence: FenceId) -> Set<ResourceId> {
        Set::new(
            |id: ResourceId|
                self.deferred.contains(id) && !referenced_in(
                    without_fence(self.in_flight, fence),
                    id,
                ),
        )
    }

    /// The device after the submissions under `fence` have retired.
    pub open spec fn after_retire(self, fence: FenceId) -> DeviceState {
        DeviceState {
            in_flight: without_fence(self.in_flight, fence),
            deferred: Set::new(
                |id: ResourceId|
                    self.deferred.contains(id) && referenced_in(
                        without_fence(self.in_flight, fence),
                        id,
                    ),
            ),
            ..self
        }
    }
}

/// Says whether a pair under any fence names `id`.
fn names(in_flight: &Vec<(FenceId, ResourceId)>, id: ResourceId) -> (r: bool)
    ensures
        r == referenced_in(in_flight@.to_set(), id),
{
    let mut i: usize = 0;
    while i < in_flight.len()
        invariant
            i <= in_flight@.len(),
            forall|k: int| 0 <= k < i ==> (#[trigger] in_flight@[k]).1 != id,
        decreases in_flight@.len() - i,
    {
        if in_flight[i].1 == id {
            assert(in_flight@.to_set().contains((in_flight@[i as int].0, id)));
            return true;
        }
        i = i + 1;
    }
    assert forall|fence: FenceId| !in_flight@.to_set().contains((fence, id)) by {
        if in_flight@.contains((fence, id)) {
            let k = choose|k: int| 0 <= k < in_flight@.len() && in_flight@[k] == (fence, id);
            assert(in_flight@[k].1 == id);
        }
    }
    false
}

/// Says whether `id` is in the list.
fn holds(list: &Vec<ResourceId>, id: ResourceId) -> (r: bool)
    ensures
        r == list@.to_set().contains(id),
{
    let mut i: usize = 0;
    while i < list.len()
        invariant
            i <= list@.len(),
            forall|k: int| 0 <= k < i ==> list@[k] != id,
        decreases list@.len() - i,
    {
        if list[i] == id {
            return true;
        }
        i = i + 1;
    }
    false
}

/// Takes `id` out of a list without repetition.
fn forget(list: &mut Vec<ResourceId>, id: ResourceId)
    requires
        old(list)@.no_duplicates(),
    ensures
        final(list)@.no_duplicates(),
        final(list)@.to_set() == old(list)@.to_set().remove(id),
{
    let mut i: usize = 0;
    while i < list.len()
        invariant
            i <= list@.len(),
            list@ == old(list)@,
            list@.no_duplicates(),
            forall|k: int| 0 <= k < i ==> list@[k] != id,
        decreases list@.len() - i,
    {
        if list[i] == id {
            list.remove(i);
            assert forall|a: int, b: int|
                0 <= a < list@.len() && 0 <= b < list@.len() && a != b implies list@[a]
                != list@[b] by {
                let a0 = if a < i {
                    a
                } else {
                    a + 1
                };
                let b0 = if b < i {
                    b
                } else {
                    b + 1
                };
                assert(list@[a] == old(list)@[a0]);
                assert(list@[b] == old(list)@[b0]);
            }
            assert forall|x: ResourceId|
                list@.to_set().contains(x) <==> old(list)@.to_set().remove(id).contains(
                    x,
                ) by {
                if list@.contains(x) {
                    let k = choose|k: int| 0 <= k < list@.len() && list@[k] == x;
                    let k0 = if k < i {
                        k
                    } else {
                        k + 1
                    };
                    assert(old(list)@[k0] == x);
                    assert(old(list)@.contains(x));
                    assert(k0 != i);
                }
                if old(list)@.contains(x) && x != id {
                    let k = choose|k: int| 0 <= k < old(list)@.len() && old(list)@[k] == x;
                    let k1 = if k < i {
                        k
                    } else {
                        k - 1
                    };
                    assert(list@[k1] == x);
                }
            }
            assert(list@.to_set() =~= old(list)@.to_set().remove(id));
            return ;
        }
        i = i + 1;
    }
    assert(!list@.contains(id));
    assert(list@.to_set() =~= old(list)@.to_set().remove(id));
}

/// The device: the tracker, the reference counts, the submissions in flight
/// and the resources that wait for them.
pub struct Device {
    tracker: UsageTracker,
    guards: HashMap<u64, LifetimeGuard>,
    in_flight: Vec<(FenceId, ResourceId)>,
    deferred: Vec<ResourceId>,
    chains: Vec<SwapChain>,
}

impl View for Device {
    type V = DeviceState;

    closed spec fn view(&self) -> DeviceState {
        DeviceState {
            queue: self.tracker.owner(),
            table: self.tracker@,
            counts: Map::new(
                |id: ResourceId| self.guards@.contains_key(id),
                |id: ResourceId| self.guards@[id]@,
            ),
            in_flight: self.in_flight@.to_set(),
            deferred: self.deferred@.to_set(),
            chains: Seq::new(self.chains@.len(), |i: int| self.chains@[i]@),
        }
    }
}

impl Device {
    /// What the representation keeps beyond the value.
    pub closed spec fn inv(&self) -> bool {
        self.deferred@.no_duplicates()
    }

    pub open spec fn wf(&self) -> bool {
        self.inv() && self@.wf()
    }

    /// A device with nothing in it. `queue` is its one queue.
    pub fn new(queue: QueueId) -> (device: Device)
        ensures
            device.wf(),
            device@.queue == queue,
            device@.table == Table::empty(),
            device@.counts == Map::<ResourceId, nat>::empty(),
            device@.in_flight == InFlight::empty(),
            device@.deferred == Set::<ResourceId>::empty(),
            device@.chains == Seq::<SwapChainState>::empty(),
    {
        let device = Device {
            tracker: UsageTracker::new(queue),
            guards: HashMap::new(),
            in_flight: Vec::new(),
            deferred: Vec::new(),
            chains: Vec::new(),
        };
        device
    }

    /// Registers a resource: it has one reference, held by the caller, and
    /// no usage yet.
    pub fn register_resource(&mut self, id: ResourceId, initial_usage: UsageFlags)
        requires
            old(self).wf(),
        ensures
            final(self).wf(),
            final(self)@ == old(self)@.after_register(id, initial_usage),
    {
        match self.guards.remove(&id) {
            Some(mut guard) => {
                self.tracker.remove(id, &mut guard);
                self.tracker.register(id, initial_usage);
                self.guards.insert(id, guard);
                assert(self@.deferred =~= old(self)@.deferred.remove(id));
            },
            None => {
                self.tracker.register(id, initial_usage);
                self.guards.insert(id, LifetimeGuard::new());
                forget(&mut self.deferred, id);
            },
        }
        assert(self@.counts =~= old(self)@.after_register(id, initial_usage).counts);
        assert(self@.table =~= old(self)@.after_register(id, initial_usage).table);
    }

    /// Moves a resource to `usage`, as far as `permit` allows.
    pub fn transit(&mut self, id: ResourceId, usage: UsageFlags, permit: TrackPermit) -> (r: Result<
        Tracktion,
        Error,
    >)
        requires
            old(self).wf(),
        ensures
            final(self).wf(),
            r == transit_result(old(self)@.table, id, usage, permit),
            final(self)@ == old(self)@.after_transit(id, usage, permit),
    {
        match self.guards.remove(&id) {
            Some(mut guard) => {
                let r = self.tracker.transit(id, &mut guard, usage, permit);
                self.guards.insert(id, guard);
                assert(self@.counts =~= old(self)@.after_transit(id, usage, permit).counts);
                r
            },
            None => {
                assert(self@.counts =~= old(self)@.counts);
                let r = Err(Error::ResourceNotTracked);
                r
            },
        }
    }

    /// The current usage of a resource.
    pub fn query(&self, id: ResourceId) -> (r: Option<UsageFlags>)
        ensures
            r == usage_at(self@.table, id),
    {
        self.tracker.query(id)
    }

    /// Whether a resource is registered or waits for the GPU.
    pub fn is_alive(&self, id: ResourceId) -> (r: bool)
        ensures
            r == self@.alive(id),
    {
        self.guards.contains_key(&id) || holds(&self.deferred, id)
    }

    /// The reference count of a registered resource.
    pub fn ref_count(&self, id: ResourceId) -> (r: Option<u64>)
        ensures
            r is Some <==> self@.counts.contains_key(id),
            r is Some ==> r->0 == self@.counts[id],
    {
        match self.guards.get(&id) {
            Some(guard) => Some(guard.ref_count()),
            None => None,
        }
    }

    /// Takes one more reference on a registered resource. Returns whether
    /// there is such a resource.
    pub fn retain(&mut self, id: ResourceId) -> (r: bool)
        requires
            old(self).wf(),
        ensures
            final(self).wf(),
            r == old(self)@.counts.contains_key(id),
            final(self)@ == (DeviceState {
                counts: if old(self)@.counts.contains_key(id) {
                    old(self)@.counts.insert(id, retained(old(self)@.counts[id]))
                } else {
                    old(self)@.counts
                },
                ..old(self)@
            }),
    {
        match self.guards.remove(&id) {
            Some(mut guard) => {
                guard.retain();
                self.guards.insert(id, guard);
                assert(self@.counts =~= old(self)@.counts.insert(
                    id,
                    retained(old(self)@.counts[id]),
                ));
                true
            },
            None => {
                assert(self@.counts =~= old(self)@.counts);
                false
            },
        }
    }

    /// Gives back one reference on a resource. When that leaves nobody but
    /// the tracker with one, the resource is registered no more: it is freed
    /// at once if no submission in flight names it, and when the last such
    /// submission retires otherwise. The call never fails; it says what
    /// became of the resource.
    pub fn destroy_resource(&mut self, id: ResourceId) -> (r: Destruction)
        requires
            old(self).wf(),
        ensures
            final(self).wf(),
            r == old(self)@.destroy_answer(id),
            final(self)@ == old(self)@.after_destroy(id),
    {
        match self.guards.remove(&id) {
            Some(mut guard) => {
                guard.release();
                let share: u64 = if self.tracker.query(id).is_some() {
                    1
                } else {
                    0
                };
                if guard.ref_count() > share {
                    self.guards.insert(id, guard);
                    assert(self@.counts =~= old(self)@.after_destroy(id).counts);
                    Destruction::Retained
                } else {
                    self.tracker.remove(id, &mut guard);
                    assert(self@.counts =~= old(self)@.counts.remove(id));
                    if names(&self.in_flight, id) {
                        assert(!old(self)@.deferred.contains(id));
                        self.deferred.push(id);
                        proof {
                            old(self).deferred@.lemma_push_to_set_commute(id);
                        }
                        Destruction::Deferred
                    } else {
                        Destruction::Freed
                    }
                }
            },
            None => {
                assert(self@.counts =~= old(self)@.counts);
                if holds(&self.deferred, id) {
                    Destruction::Deferred
                } else {
                    Destruction::NotRegistered
                }
            },
        }
    }

    /// Notes that a command buffer that names `resources` was submitted,
    /// and that `fence` is signalled when the GPU has run it.
    pub fn submit(&mut self, fence: FenceId, resources: &Vec<ResourceId>)
        requires
            old(self).wf(),
        ensures
            final(self).wf(),
            final(self)@ == old(self)@.after_submit(fence, resources@),
    {
        let mut i: usize = 0;
        assert(self@.in_flight =~= old(self)@.in_flight.union(
            submission(fence, resources@.take(0)),
        ));
        while i < resources.len()
            invariant
                i <= resources@.len(),
                self.wf(),
                self@ == (DeviceState {
                    in_flight: old(self)@.in_flight.union(
                        submission(fence, resources@.take(i as int)),
                    ),
                    ..old(self)@
                }),
            decreases resources@.len() - i,
        {
            let ghost before = self.in_flight@;
            let ghost state = self@;
            let id = resources[i];
            self.in_flight.push((fence, id));
            proof {
                before.lemma_push_to_set_commute((fence, id));
                let taken = resources@.take(i as int);
                let more = resources@.take(i + 1);
                assert forall|pair: (FenceId, ResourceId)|
                    submission(fence, more).contains(pair) <==> (submission(
                        fence,
                        taken,
                    ).contains(pair) || pair == (fence, id)) by {
                    if more.contains(pair.1) {
                        let k = choose|k: int| 0 <= k < more.len() && more[k] == pair.1;
                        if k < taken.len() {
                            assert(taken[k] == pair.1);
                        }
                    }
                    if taken.contains(pair.1) {
                        let k = choose|k: int| 0 <= k < taken.len() && taken[k] == pair.1;
                        assert(more[k] == pair.1);
                    }
                    if pair == (fence, id) {
                        assert(more[i as int] == id);
                    }
                }
                assert(self@.in_flight =~= old(self)@.in_flight.union(submission(fence, more)));
                assert(self@.deferred == state.deferred);
                assert(self@.chains == state.chains);
                assert forall|d: ResourceId| #[trigger]
                    self@.deferred.contains(d) implies !self@.counts.contains_key(d)
                    && referenced_in(self@.in_flight, d) by {
                    let f = choose|f: FenceId| state.in_flight.contains((f, d));
                    assert(self@.in_flight.contains((f, d)));
                }
                assert(self@.wf());
                assert(self.inv());
            }
            i = i + 1;
        }
        assert(resources@.take(resources@.len() as int) =~= resources@);
    }

    /// Notes that `fence` was seen signalled: every submission under it has
    /// retired. Frees the resources that waited for nothing else, and
    /// returns them, each once.
    pub fn retire(&mut self, fence: FenceId) -> (freed: Vec<ResourceId>)
        requires
            old(self).wf(),
        ensures
            final(self).wf(),
            final(self)@ == old(self)@.after_retire(fence),
            freed@.no_duplicates(),
            freed@.to_set() == old(self)@.freed_by(fence),
    {
        let mut left: Vec<(FenceId, ResourceId)> = Vec::new();
        let mut i: usize = 0;
        while i < self.in_flight.len()
            invariant
                i <= self.in_flight@.len(),
                forall|pair: (FenceId, ResourceId)|
                    left@.contains(pair) <==> (pair.0 != fence && exists|k: int|
                        0 <= k < i && self.in_flight@[k] == pair),
            decreases self.in_flight@.len() - i,
        {
            let pair = self.in_flight[i];
            let ghost before = left@;
            if pair.0 != fence {
                left.push(pair);
            }
            proof {
                assert forall|p: (FenceId, ResourceId)|
                    left@.contains(p) <==> (p.0 != fence && exists|k: int|
                        0 <= k < i + 1 && self.in_flight@[k] == p) by {
                    if left@.contains(p) {
                        let j = choose|j: int| 0 <= j < left@.len() && left@[j] == p;
                        if j < before.len() {
                            assert(before[j] == p);
                            assert(before.contains(p));
                            let k = choose|k: int| 0 <= k < i && self.in_flight@[k] == p;
                            assert(0 <= k < i + 1 && self.in_flight@[k] == p);
                        } else {
                            assert(self.in_flight@[i as int] == p);
                        }
                    }
                    if p.0 != fence && exists|k: int|
                        0 <= k < i + 1 && self.in_flight@[k] == p {
                        let k = choose|k: int| 0 <= k < i + 1 && self.in_flight@[k] == p;
                        if k < i {
                            assert(before.contains(p));
                            let j = choose|j: int| 0 <= j < before.len() && before[j] == p;
                            assert(left@[j] == p);
                        } else {
                            assert(left@[before.len() as int] == p);
                        }
                    }
                }
            }
            i = i + 1;
        }
        assert(left@.to_set() =~= without_fence(self@.in_flight, fence)) by {
            assert forall|p: (FenceId, ResourceId)|
                left@.to_set().contains(p) <==> without_fence(self@.in_flight, fence).contains(
                    p,
                ) by {
                if self.in_flight@.contains(p) {
                    let k = choose|k: int| 0 <= k < self.in_flight@.len() && self.in_flight@[k] == p;
                    assert(0 <= k < i && self.in_flight@[k] == p);
                }
                if left@.contains(p) {
                    let k = choose|k: int| 0 <= k < i && self.in_flight@[k] == p;
                    assert(self.in_flight@.contains(p));
                }
            }
        }
        let mut freed: Vec<ResourceId> = Vec::new();
        let mut kept: Vec<ResourceId> = Vec::new();
        let mut j: usize = 0;
        while j < self.deferred.len()
            invariant
                j <= self.deferred@.len(),
                self.deferred@.no_duplicates(),
                freed@.no_duplicates(),
                kept@.no_duplicates(),
                forall|id: ResourceId|
                    freed@.contains(id) <==> (!referenced_in(left@.to_set(), id) && exists|k: int|
                        0 <= k < j && self.deferred@[k] == id),
                forall|id: ResourceId|
                    kept@.contains(id) <==> (referenced_in(left@.to_set(), id) && exists|k: int|
                        0 <= k < j && self.deferred@[k] == id),
            decreases self.deferred@.len() - j,
        {
            let id = self.deferred[j];
            let ghost freed_before = freed@;
            let ghost kept_before = kept@;
            let used = names(&left, id);
            proof {
                assert(!freed_before.contains(id) && !kept_before.contains(id)) by {
                    if exists|k: int| 0 <= k < j && self.deferred@[k] == id {
                        let k = choose|k: int| 0 <= k < j && self.deferred@[k] == id;
                        assert(self.deferred@[k] == self.deferred@[j as int]);
                    }
                }
            }
            if used {
                kept.push(id);
            } else {
                freed.push(id);
            }
            proof {
                assert forall|x: ResourceId|
                    freed@.contains(x) <==> (!referenced_in(left@.to_set(), x) && exists|k: int|
                        0 <= k < j + 1 && self.deferred@[k] == x) by {
                    if freed@.contains(x) {
                        let m = choose|m: int| 0 <= m < freed@.len() && freed@[m] == x;
                        if m < freed_before.len() {
                            assert(freed_before[m] == x);
                            assert(freed_before.contains(x));
                            let k = choose|k: int| 0 <= k < j && self.deferred@[k] == x;
                            assert(0 <= k < j + 1 && self.deferred@[k] == x);
                        } else {
                            assert(self.deferred@[j as int] == x);
                        }
                    }
                    if !referenced_in(left@.to_set(), x) && exists|k: int|
                        0 <= k < j + 1 && self.deferred@[k] == x {
                        let k = choose|k: int| 0 <= k < j + 1 && self.deferred@[k] == x;
                        if k < j {
                            assert(freed_before.contains(x));
                            let m = choose|m: int|
                                0 <= m < freed_before.len() && freed_before[m] == x;
                            assert(freed@[m] == x);
                        } else {
                            assert(freed@[freed_before.len() as int] == x);
                        }
                    }
                }
                assert forall|x: ResourceId|
                    kept@.contains(x) <==> (referenced_in(left@.to_set(), x) && exists|k: int|
                        0 <= k < j + 1 && self.deferred@[k] == x) by {
                    if kept@.contains(x) {
                        let m = choose|m: int| 0 <= m < kept@.len() && kept@[m] == x;
                        if m < kept_before.len() {
                            assert(kept_before[m] == x);
                            assert(kept_before.contains(x));
                            let k = choose|k: int| 0 <= k < j && self.deferred@[k] == x;
                            assert(0 <= k < j + 1 && self.deferred@[k] == x);
                        } else {
                            assert(self.deferred@[j as int] == x);
                        }
                    }
                    if referenced_in(left@.to_set(), x) && exists|k: int|
                        0 <= k < j + 1 && self.deferred@[k] == x {
                        let k = choose|k: int| 0 <= k < j + 1 && self.deferred@[k] == x;
                        if k < j {
                            assert(kept_before.contains(x));
                            let m = choose|m: int|
                                0 <= m < kept_before.len() && kept_before[m] == x;
                            assert(kept@[m] == x);
                        } else {
                            assert(kept@[kept_before.len() as int] == x);
                        }
                    }
                }
            }
            j = j + 1;
        }
        proof {
            assert forall|x: ResourceId|
                freed@.to_set().contains(x) <==> old(self)@.freed_by(fence).contains(x) by {
                if self.deferred@.contains(x) {
                    let k = choose|k: int| 0 <= k < self.deferred@.len() && self.deferred@[k] == x;
                    assert(0 <= k < j && self.deferred@[k] == x);
                }
                if freed@.contains(x) {
                    let k = choose|k: int| 0 <= k < j && self.deferred@[k] == x;
                    assert(self.deferred@[k] == x);
                }
            }
            assert(freed@.to_set() =~= old(self)@.freed_by(fence));
            assert forall|x: ResourceId|
                kept@.to_set().contains(x) <==> old(self)@.after_retire(fence).deferred.contains(
                    x,
                ) by {
                if self.deferred@.contains(x) {
                    let k = choose|k: int| 0 <= k < self.deferred@.len() && self.deferred@[k] == x;
                    assert(0 <= k < j && self.deferred@[k] == x);
                }
                if kept@.contains(x) {
                    let k = choose|k: int| 0 <= k < j && self.deferred@[k] == x;
                    assert(self.deferred@[k] == x);
                }
            }
            assert(kept@.to_set() =~= old(self)@.after_retire(fence).deferred);
        }
        self.in_flight = left;
        self.deferred = kept;
        freed
    }

    /// How many swapchains the device has.
    pub fn swap_chain_count(&self) -> (r: usize)
        ensures
            r == self@.chains.len(),
    {
        self.chains.len()
    }

    /// A swapchain of the device.
    pub fn swap_chain(&self, chain: SwapChainId) -> (r: Option<&SwapChain>)
        ensures
            r is Some <==> chain < self@.chains.len(),
            r is Some ==> r->0@ == self@.chains[chain as int],
    {
        if chain < self.chains.len() as u64 {
            Some(&self.chains[chain as usize])
        } else {
            None
        }
    }

    /// Takes in what the backend answered to an acquire on a swapchain of
    /// the device. A swapchain that the device does not have is answered
    /// with `ResourceNotTracked`.
    pub fn swapchain_acquire(&mut self, chain: SwapChainId, event: AcquireEvent) -> (r: Result<
        AcquiredImage,
        Error,
    >)
        requires
            old(self).wf(),
        ensures
            final(self).wf(),
            chain >= old(self)@.chains.len() ==> final(self)@ == old(self)@ && r == Err::<
                AcquiredImage,
                Error,
            >(Error::ResourceNotTracked),
            chain < old(self)@.chains.len() ==> {
                &&& r == old(self)@.chains[chain as int].acquire_answer(event)
                &&& final(self)@ == (DeviceState {
                    chains: old(self)@.chains.update(
                        chain as int,
                        old(self)@.chains[chain as int].after_acquire(event),
                    ),
                    ..old(self)@
                })
            },
    {
        if chain >= self.chains.len() as u64 {
            return Err(Error::ResourceNotTracked);
        }
        let position = chain as usize;
        let r = self.chains[position].acquire(event);
        assert(self@.chains =~= old(self)@.chains.update(
            chain as int,
            old(self)@.chains[chain as int].after_acquire(event),
        ));
        r
    }

    /// Creates a swapchain over the frames that the backend allocated, and
    /// registers the texture of each. Returns the identity of the swapchain.
    pub fn create_swap_chain(
        &mut self,
        desc: SwapChainDescriptor,
        slots: Vec<FrameSlot>,
        sem_available: SemaphoreId,
    ) -> (id: SwapChainId)
        requires
            old(self).wf(),
            slots@.len() <= u32::MAX,
        ensures
            final(self).wf(),
            id == old(self)@.chains.len(),
            final(self)@ == old(self)@.after_create(desc, slots@, sem_available),
    {
        let mut i: usize = 0;
        while i < slots.len()
            invariant
                i <= slots@.len(),
                self.wf(),
                self@ == old(self)@.after_register_all(slots@.take(i as int), desc.usage),
            decreases slots@.len() - i,
        {
            self.register_resource(slots[i].texture_id, desc.usage);
            assert(slots@.take(i + 1).drop_last() =~= slots@.take(i as int));
            i = i + 1;
        }
        assert(slots@.take(slots@.len() as int) =~= slots@);
        let ghost registered = self@;
        proof {
            lemma_register_all_keeps_chains(old(self)@, slots@, desc.usage);
        }
        let id = self.chains.len() as u64;
        let chain = SwapChain::new(id, desc, slots, sem_available);
        self.chains.push(chain);
        assert(self@.chains =~= registered.chains.push(
            created(id, desc, slots@, sem_available),
        ));
        assert(self@.deferred == registered.deferred);
        assert forall|i: int| 0 <= i < self@.chains.len() implies (#[trigger] self@.chains[i]).wf() by {
            if i < registered.chains.len() {
                assert(self@.chains[i] == registered.chains[i]);
            }
        }
        id
    }

    /// Says what presenting the oldest acquired image of a swapchain takes,
    /// and notes the submission that the caller is about to make. A
    /// swapchain that the device does not have is answered with
    /// `ResourceNotTracked`. A present that cannot be served changes nothing.
    pub fn swapchain_present(&mut self, chain: SwapChainId) -> (r: Result<PresentPlan, Error>)
        requires
            old(self).wf(),
        ensures
            final(self).wf(),
            final(self)@ == old(self)@.after_present(chain),
            match old(self)@.present_error(chain) {
                Some(error) => r == Err::<PresentPlan, Error>(error),
                None => r is Ok && plan_for(
                    old(self)@.chains[chain as int],
                    old(self)@.table,
                    r->Ok_0,
                ),
            },
    {
        if chain >= self.chains.len() as u64 {
            return Err(Error::ResourceNotTracked);
        }
        let position = chain as usize;
        let ghost state = old(self)@.chains[position as int];
        let texture = match self.chains[position].next_present() {
            Some(index) => match self.chains[position].frame(index) {
                Some(frame) => Some(frame.texture_id),
                None => None,
            },
            None => None,
        };
        let held = match texture {
            Some(id) => self.guards.remove(&id),
            None => None,
        };
        match held {
            Some(mut guard) => {
                let r = self.chains[position].present(&mut self.tracker, &mut guard);
                self.guards.insert(texture.unwrap(), guard);
                match &r {
                    Ok(plan) => {
                        let ghost before = self.in_flight@;
                        self.in_flight.push((plan.fence, plan.texture_id));
                        proof {
                            before.lemma_push_to_set_commute((plan.fence, plan.texture_id));
                            assert(self@.counts =~= old(self)@.after_present(chain).counts);
                            assert(self@.chains =~= old(self)@.after_present(chain).chains);
                            assert forall|d: ResourceId| #[trigger]
                                self@.deferred.contains(d) implies !self@.counts.contains_key(d)
                                && referenced_in(self@.in_flight, d) by {
                                let f = choose|f: FenceId| old(self)@.in_flight.contains((f, d));
                                assert(self@.in_flight.contains((f, d)));
                            }
                            assert forall|i: int| 0 <= i < self@.chains.len() implies (
                            #[trigger] self@.chains[i]).wf() by {
                                if i != position {
                                    assert(self@.chains[i] == old(self)@.chains[i]);
                                }
                            }
                        }
                    },
                    Err(_) => {
                        assert(self@.counts =~= old(self)@.counts);
                        assert(self@.chains =~= old(self)@.chains);
                    },
                }
                r
            },
            None => {
                let mut spare = LifetimeGuard::new();
                assert(self@.counts =~= old(self)@.counts);
                assert(state.present_error(old(self)@.table) is Some) by {
                    if !state.lost && state.acquired.len() > 0 {
                        lemma_present_keeps_wf(state);
                    }
                }
                let r = self.chains[position].present(&mut self.tracker, &mut spare);
                assert(self@.chains =~= old(self)@.chains);
                r
            },
        }
    }

    /// Takes in how the backend answered the present call on a swapchain.
    /// A refusal means that the surface is lost. Returns `ResourceNotTracked`
    /// for a swapchain that the device does not have.
    pub fn swapchain_finish_present(&mut self, chain: SwapChainId, presented: bool) -> (r: Result<
        (),
        Error,
    >)
        requires
            old(self).wf(),
        ensures
            final(self).wf(),
            chain >= old(self)@.chains.len() ==> final(self)@ == old(self)@ && r == Err::<
                (),
                Error,
            >(Error::ResourceNotTracked),
            chain < old(self)@.chains.len() ==> {
                let state = old(self)@.chains[chain as int];
                &&& r == (if state.lost || !presented {
                    Err::<(), Error>(Error::SurfaceLost)
                } else {
                    Ok::<(), Error>(())
                })
                &&& final(self)@ == (DeviceState {
                    chains: old(self)@.chains.update(
                        chain as int,
                        SwapChainState { lost: state.lost || !presented, ..state },
                    ),
                    ..old(self)@
                })
            },
    {
        if chain >= self.chains.len() as u64 {
            return Err(Error::ResourceNotTracked);
        }
        let position = chain as usize;
        let r = self.chains[position].finish_present(presented);
        assert(self@.chains =~= old(self)@.chains.update(
            chain as int,
            SwapChainState {
                lost: old(self)@.chains[chain as int].lost || !presented,
                ..old(self)@.chains[chain as int]
            },
        ));
        r
    }

    /// Notes that the fence of a frame of a swapchain was seen signalled,
    /// and retires the submissions under that fence. Returns the resources
    /// that this freed, each once.
    pub fn swapchain_fence_signaled(&mut self, chain: SwapChainId, index: SwapImageIndex) -> (freed:
        Vec<ResourceId>)
        requires
            old(self).wf(),
        ensures
            final(self).wf(),
            freed@.no_duplicates(),
            !(chain < old(self)@.chains.len() && (index as int) < old(
                self,
            )@.chains[chain as int].frames.len()) ==> final(self)@ == old(self)@ && freed@
                == Seq::<ResourceId>::empty(),
            chain < old(self)@.chains.len() && (index as int) < old(
                self,
            )@.chains[chain as int].frames.len() ==> {
                let state = old(self)@.chains[chain as int];
                let fence = state.frames[index as int].fence;
                &&& freed@.to_set() == old(self)@.freed_by(fence)
                &&& final(self)@ == (DeviceState {
                    chains: old(self)@.chains.update(chain as int, state.after_signal(index)),
                    ..old(self)@.after_retire(fence)
                })
            },
    {
        if chain >= self.chains.len() as u64 {
            return Vec::new();
        }
        let position = chain as usize;
        let fence = match self.chains[position].frame(index) {
            Some(frame) => frame.fence,
            None => {
                return Vec::new();
            },
        };
        self.chains[position].fence_signaled(index);
        assert(self@.chains =~= old(self)@.chains.update(
            chain as int,
            old(self)@.chains[chain as int].after_signal(index),
        ));
        self.retire(fence)
    }
}

/// Registering resources leaves the swapchains of a device as they are.
pub proof fn lemma_register_all_keeps_chains(
    state: DeviceState,
    slots: Seq<FrameSlot>,
    usage: UsageFlags,
)
    ensures
        state.after_register_all(slots, usage).chains == state.chains,
    decreases slots.len(),
{
    if slots.len() > 0 {
        lemma_register_all_keeps_chains(state, slots.drop_last(), usage);
    }
}

/// A resource that loses its last holder while a submission in flight names
/// it is not freed: it stays alive and waits.
pub proof fn law_destroy_waits_for_gpu(state: DeviceState, id: ResourceId)
    requires
        state.wf(),
        state.last_reference(id),
        referenced_in(state.in_flight, id),
    ensures
        state.destroy_answer(id) == Destruction::Deferred,
        state.after_destroy(id).alive(id),
        state.after_destroy(id).deferred.contains(id),
        !state.after_destroy(id).counts.contains_key(id),
        state.after_destroy(id).wf(),
{
    let next = state.after_destroy(id);
    assert forall|d: ResourceId| #[trigger] next.deferred.contains(d) implies !next.counts.contains_key(
        d,
    ) && referenced_in(next.in_flight, d) by {
        if d != id {
            assert(state.deferred.contains(d));
        }
    }
}

/// Destroying a resource that only the submissions under one fence still
/// name, and then seeing that fence signalled, frees the resource, once:
/// it is alive in between, the `retire` returns it, and it is alive no more.
pub proof fn law_destroy_then_retire(state: DeviceState, id: ResourceId, fence: FenceId)
    requires
        state.wf(),
        state.last_reference(id),
        state.in_flight.contains((fence, id)),
        forall|f: FenceId| state.in_flight.contains((f, id)) ==> f == fence,
    ensures
        state.after_destroy(id).alive(id),
        state.after_destroy(id).freed_by(fence).contains(id),
        !state.after_destroy(id).after_retire(fence).alive(id),
        state.after_destroy(id).after_retire(fence).wf(),
{
    law_destroy_waits_for_gpu(state, id);
    law_retire_frees_once(state.after_destroy(id), id, fence, fence);
}

/// A resource that waits for the GPU stays alive while a submission under
/// another fence names it, whichever fence is signalled.
pub proof fn law_retire_keeps_what_is_in_use(
    state: DeviceState,
    id: ResourceId,
    fence: FenceId,
    other: FenceId,
)
    requires
        state.wf(),
        state.deferred.contains(id),
        state.in_flight.contains((other, id)),
        other != fence,
    ensures
        !state.freed_by(fence).contains(id),
        state.after_retire(fence).alive(id),
{
    assert(without_fence(state.in_flight, fence).contains((other, id)));
}

/// A resource that waits for the submissions under one fence is freed when
/// that fence is signalled, and never again: it is alive no more, and no
/// later `retire` returns it.
pub proof fn law_retire_frees_once(state: DeviceState, id: ResourceId, fence: FenceId, later: FenceId)
    requires
        state.wf(),
        state.deferred.contains(id),
        forall|f: FenceId| state.in_flight.contains((f, id)) ==> f == fence,
    ensures
        state.freed_by(fence).contains(id),
        !state.after_retire(fence).alive(id),
        !state.after_retire(fence).freed_by(later).contains(id),
        state.after_retire(fence).wf(),
{
    assert forall|f: FenceId| !without_fence(state.in_flight, fence).contains((f, id)) by {}
}

} // verus!
