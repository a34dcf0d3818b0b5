//! The swapchain: a ring of frames that are acquired, rendered to and
//! presented in turn.
//!
//! A frame is `Idle` until the presentation engine hands its image out, then
//! `Acquired` until it is presented, then `Submitted` until the GPU has run
//! the command buffer that was submitted with the present. Images are
//! presented in the order in which they were acquired.
//!
//! The backend calls (acquire an image, wait for a fence, submit, present)
//! are made by the caller. [`SwapChain::acquire`] takes what the backend
//! answered; [`SwapChain::present`] says what to record and submit.

use vstd::prelude::*;
use crate::command::{CommandBuffer, CommandRecorder, ResourceRange, commands_for};
use crate::error::Error;
use crate::life::{LifetimeGuard, retained};
use crate::resource::{TextureFormat, texture_usage, texture_usage_of};
use crate::track::{
    QueueId, ResourceId, Table, Track, TrackPermit, Tracktion, UsageTracker, transit_in,
    transit_result, usage_at,
};
use crate::usage::{
    PRESENT, UsageFlags, WRITE_ALL, lemma_exclusive_not_read_only, lemma_join_includes,
};

verus! {

pub type SwapChainId = u64;

pub type TextureId = ResourceId;

pub type TextureViewId = u64;

pub type FenceId = u64;

pub type SemaphoreId = u64;

pub type CommandBufferId = u64;

/// Counts the acquires and presents of one swapchain texture.
pub type SwapImageEpoch = u16;

/// Position of a frame in the ring.
pub type SwapImageIndex = u32;

/// The time an acquire and a fence wait are given: without end.
pub const WAIT_FOREVER_NS: u64 = 0xffff_ffff_ffff_ffff;

/// What a swapchain is created for.
#[derive(Clone, Copy, Debug, PartialEq, Eq)]
pub struct SwapChainDescriptor {
    pub usage: UsageFlags,
    pub format: TextureFormat,
    pub width: u32,
    pub height: u32,
}

impl SwapChainDescriptor {
    /// A descriptor from the usage bits of the API. `None` if a bit among
    /// them is no usage that a texture can be created with.
    pub fn new(usage: u32, format: TextureFormat, width: u32, height: u32) -> (r: Option<
        SwapChainDescriptor,
    >)
        ensures
            r == (match texture_usage_of(usage) {
                Some(usage) => Some(SwapChainDescriptor { usage, format, width, height }),
                None => None,
            }),
    {
        match texture_usage(usage) {
            Some(usage) => Some(SwapChainDescriptor { usage, format, width, height }),
            None => None,
        }
    }
}

/// The way back from a texture to the swapchain that owns it. It is there
/// to tell a stale reference to the texture from a current one, and for
/// nothing else.
#[derive(Clone, Copy, Debug, PartialEq, Eq)]
pub struct SwapChainLink {
    pub swap_chain_id: SwapChainId,
    pub epoch: SwapImageEpoch,
    pub image_index: SwapImageIndex,
}

#[derive(Clone, Copy, Debug, PartialEq, Eq)]
pub enum FrameState {
    /// Free to be handed out.
    Idle,
    /// Handed out, not presented yet.
    Acquired,
    /// Presented; the GPU may still run its command buffer.
    Submitted,
}

/// What the backend allocated for one frame, once, when the swapchain was
/// created.
#[derive(Clone, Copy, Debug, PartialEq, Eq)]
pub struct FrameSlot {
    pub texture_id: TextureId,
    pub view_id: TextureViewId,
    pub fence: FenceId,
    pub sem_available: SemaphoreId,
    pub sem_present: SemaphoreId,
    pub command_buffer: CommandBufferId,
}

/// One slot of the ring.
#[derive(Clone, Copy, Debug, PartialEq, Eq)]
pub struct Frame {
    pub texture_id: TextureId,
    pub view_id: TextureViewId,
    pub fence: FenceId,
    pub sem_available: SemaphoreId,
    pub sem_present: SemaphoreId,
    pub command_buffer: CommandBufferId,
    pub link: SwapChainLink,
    pub state: FrameState,
}

/// What the backend answered to a request for the next image.
#[derive(Clone, Copy, Debug, PartialEq, Eq)]
pub enum AcquireEvent {
    /// The image at this position is handed out.
    Image(SwapImageIndex),
    /// No image became available in time.
    Timeout,
    /// The surface has changed under the swapchain.
    OutOfDate,
    /// The surface is gone.
    SurfaceLost,
}

/// An image that was acquired, and what has to happen before it is used.
#[derive(Clone, Copy, Debug, PartialEq, Eq)]
pub struct AcquiredImage {
    pub image_index: SwapImageIndex,
    pub texture_id: TextureId,
    pub view_id: TextureViewId,
    /// The epoch of the texture, this acquire counted.
    pub epoch: SwapImageEpoch,
    /// The semaphore that the backend signals when the image can be written.
    pub semaphore: SemaphoreId,
    /// The fence of the frame. The caller waits on it, without a timeout,
    /// before it touches the command buffer of the frame.
    pub fence: FenceId,
    /// The frame was submitted before and nobody has seen its fence
    /// signalled since: the wait may block until that submission retires.
    pub fence_pending: bool,
}

/// What the caller has to do to present the oldest acquired image.
#[derive(Debug)]
pub struct PresentPlan {
    pub image_index: SwapImageIndex,
    pub texture_id: TextureId,
    /// The epoch of the texture, this present counted.
    pub epoch: SwapImageEpoch,
    /// What the tracker decided on the transition to `PRESENT`.
    pub tracktion: Tracktion,
    /// The command buffer of the frame, to be recorded anew.
    pub command_buffer: CommandBufferId,
    /// All that the command buffer holds: the barrier into `PRESENT`, or
    /// nothing where the texture needs none.
    pub commands: CommandBuffer,
    /// The fence of the frame: reset before the submission, signalled by it.
    /// The command buffer is submitted with no semaphore to wait for or to
    /// signal.
    pub fence: FenceId,
}

/// The epoch after one more acquire or present. It starts again at zero
/// after the last value.
pub open spec fn next_epoch(epoch: SwapImageEpoch) -> SwapImageEpoch {
    if epoch == u16::MAX {
        0
    } else {
        (epoch + 1) as u16
    }
}

/// A swapchain texture has one mip level and one layer.
pub open spec fn frame_range() -> ResourceRange {
    ResourceRange::Texture { levels: 1, layers: 1 }
}

/// The frame made from a slot, at position `index` of swapchain `id`.
pub open spec fn frame_of(slot: FrameSlot, id: SwapChainId, index: SwapImageIndex) -> Frame {
    Frame {
        texture_id: slot.texture_id,
        view_id: slot.view_id,
        fence: slot.fence,
        sem_available: slot.sem_available,
        sem_present: slot.sem_present,
        command_buffer: slot.command_buffer,
        link: SwapChainLink { swap_chain_id: id, epoch: 0, image_index: index },
        state: FrameState::Idle,
    }
}

/// A swapchain as a value.
pub struct SwapChainState {
    pub id: SwapChainId,
    pub desc: SwapChainDescriptor,
    pub frames: Seq<Frame>,
    /// The images that are acquired and not presented, oldest first.
    pub acquired: Seq<SwapImageIndex>,
    /// The semaphore that the next acquire hands to the backend.
    pub sem_available: SemaphoreId,
    pub lost: bool,
}

impl SwapChainState {
    /// What holds of every swapchain: no image is acquired twice, every
    /// acquired image lies in the ring, and the frames that are `Acquired`
    /// are those in the queue.
    pub open spec fn wf(self) -> bool {
        &&& self.frames.len() <= u32::MAX
        &&& self.acquired.no_duplicates()
        &&& forall|k: int|
            0 <= k < self.acquired.len() ==> (#[trigger] self.acquired[k] as int)
                < self.frames.len()
        &&& forall|i: SwapImageIndex|
            (i as int) < self.frames.len() ==> (self.frames[i as int].state is Acquired
                <==> #[trigger] self.acquired.contains(i))
        &&& forall|i: int|
            0 <= i < self.frames.len() ==> (#[trigger] self.frames[i]).link.image_index == i
                && self.frames[i].link.swap_chain_id == self.id
    }

    /// A reference to a swapchain texture that was captured as `link` is
    /// current: the texture is a frame of this swapchain and has been
    /// neither acquired nor presented since.
    pub open spec fn current(self, link: SwapChainLink) -> bool {
        &&& link.swap_chain_id == self.id
        &&& (link.image_index as int) < self.frames.len()
        &&& self.frames[link.image_index as int].link == link
    }

    /// The image at `index` can be handed out.
    pub open spec fn accepts(self, index: SwapImageIndex) -> bool {
        (index as int) < self.frames.len() && !(self.frames[index as int].state is Acquired)
    }

    /// The swapchain after the image at `index` was handed out: the image is
    /// the newest in the queue, its frame has taken the semaphore that the
    /// backend was given, and the swapchain keeps the one of the frame for
    /// the next acquire.
    pub open spec fn with_acquired(self, index: SwapImageIndex) -> SwapChainState {
        let frame = self.frames[index as int];
        SwapChainState {
            frames: self.frames.update(
                index as int,
                Frame {
                    sem_available: self.sem_available,
                    link: SwapChainLink { epoch: next_epoch(frame.link.epoch), ..frame.link },
                    state: FrameState::Acquired,
                    ..frame
                },
            ),
            acquired: self.acquired.push(index),
            sem_available: frame.sem_available,
            ..self
        }
    }

    /// The swapchain after the backend answered an acquire with `event`.
    pub open spec fn after_acquire(self, event: AcquireEvent) -> SwapChainState {
        if self.lost {
            self
        } else {
            match event {
                AcquireEvent::Image(index) => if self.accepts(index) {
                    self.with_acquired(index)
                } else {
                    self
                },
                AcquireEvent::Timeout => self,
                AcquireEvent::OutOfDate => SwapChainState { lost: true, ..self },
                AcquireEvent::SurfaceLost => SwapChainState { lost: true, ..self },
            }
        }
    }

    /// What `acquire` returns on `event`.
    pub open spec fn acquire_answer(self, event: AcquireEvent) -> Result<AcquiredImage, Error> {
        if self.lost {
            Err(Error::SurfaceLost)
        } else {
            match event {
                AcquireEvent::Image(index) => if self.accepts(index) {
                    let frame = self.frames[index as int];
                    Ok(
                        AcquiredImage {
                            image_index: index,
                            texture_id: frame.texture_id,
                            view_id: frame.view_id,
                            epoch: next_epoch(frame.link.epoch),
                            semaphore: self.sem_available,
                            fence: frame.fence,
                            fence_pending: frame.state is Submitted,
                        },
                    )
                } else {
                    Err(Error::InvalidImage)
                },
                AcquireEvent::Timeout => Err(Error::Timeout),
                AcquireEvent::OutOfDate => Err(Error::SurfaceLost),
                AcquireEvent::SurfaceLost => Err(Error::SurfaceLost),
            }
        }
    }

    /// The swapchain after its oldest acquired image was presented.
    pub open spec fn with_presented(self) -> SwapChainState {
        let index = self.acquired[0];
        let frame = self.frames[index as int];
        SwapChainState {
            frames: self.frames.update(
                index as int,
                Frame {
                    link: SwapChainLink { epoch: next_epoch(frame.link.epoch), ..frame.link },
                    state: FrameState::Submitted,
                    ..frame
                },
            ),
            acquired: self.acquired.remove(0),
            ..self
        }
    }

    /// Why a present cannot be served, if it cannot.
    pub open spec fn present_error(self, table: Table) -> Option<Error> {
        if self.lost {
            Some(Error::SurfaceLost)
        } else if self.acquired.len() == 0 {
            Some(Error::NothingAcquired)
        } else if !table.contains_key(self.frames[self.acquired[0] as int].texture_id) {
            Some(Error::ResourceNotTracked)
        } else {
            None
        }
    }

    /// The swapchain after the fence of the frame at `index` was seen
    /// signalled.
    pub open spec fn after_signal(self, index: SwapImageIndex) -> SwapChainState {
        if (index as int) < self.frames.len() && self.frames[index as int].state is Submitted {
            SwapChainState {
                frames: self.frames.update(
                    index as int,
                    Frame { state: FrameState::Idle, ..self.frames[index as int] },
                ),
                ..self
            }
        } else {
            self
        }
    }
}

/// Handing out an image that the swapchain accepts keeps the swapchain
/// well-formed.
pub proof fn lemma_acquire_keeps_wf(state: SwapChainState, index: SwapImageIndex)
    requires
        state.wf(),
        state.accepts(index),
    ensures
        state.with_acquired(index).wf(),
{
    let next = state.with_acquired(index);
    assert(!state.acquired.contains(index));
    assert forall|i: SwapImageIndex| (i as int) < next.frames.len() implies (next.frames[i as int].state
        is Acquired <==> #[trigger] next.acquired.contains(i)) by {
        if i == index {
            assert(next.acquired[state.acquired.len() as int] == i);
        } else {
            if state.acquired.contains(i) {
                let k = choose|k: int| 0 <= k < state.acquired.len() && state.acquired[k] == i;
                assert(next.acquired[k] == i);
            }
            if next.acquired.contains(i) {
                let k = choose|k: int| 0 <= k < next.acquired.len() && next.acquired[k] == i;
                assert(state.acquired[k] == i);
            }
        }
    }
}

/// Presenting the oldest acquired image keeps the swapchain well-formed.
pub proof fn lemma_present_keeps_wf(state: SwapChainState)
    requires
        state.wf(),
        state.acquired.len() > 0,
    ensures
        state.with_presented().wf(),
        (state.acquired[0] as int) < state.frames.len(),
{
    let next = state.with_presented();
    let index = state.acquired[0];
    assert forall|k: int| 0 <= k < next.acquired.len() implies next.acquired[k]
        == state.acquired[k + 1] by {}
    assert forall|i: SwapImageIndex| (i as int) < next.frames.len() implies (next.frames[i as int].state
        is Acquired <==> #[trigger] next.acquired.contains(i)) by {
        if i == index {
            if next.acquired.contains(i) {
                let k = choose|k: int| 0 <= k < next.acquired.len() && next.acquired[k] == i;
                assert(state.acquired[k + 1] == state.acquired[0]);
            }
        } else {
            if state.acquired.contains(i) {
                let k = choose|k: int| 0 <= k < state.acquired.len() && state.acquired[k] == i;
                assert(next.acquired[k - 1] == i);
            }
            if next.acquired.contains(i) {
                let k = choose|k: int| 0 <= k < next.acquired.len() && next.acquired[k] == i;
                assert(state.acquired[k + 1] == i);
            }
        }
    }
}

/// The swapchain that `SwapChain::new` makes of the slots that the backend
/// allocated: one idle frame for each slot, in the order of the slots.
pub open spec fn created(
    id: SwapChainId,
    desc: SwapChainDescriptor,
    slots: Seq<FrameSlot>,
    sem_available: SemaphoreId,
) -> SwapChainState {
    SwapChainState {
        id,
        desc,
        frames: Seq::new(slots.len(), |i: int| frame_of(slots[i], id, i as SwapImageIndex)),
        acquired: Seq::empty(),
        sem_available,
        lost: false,
    }
}

/// The usage that a texture is presented in.
pub open spec fn present_usage() -> UsageFlags {
    UsageFlags { bits: PRESENT }
}

/// `plan` is what presenting the oldest acquired image of `state` takes,
/// where `table` is the table of the tracker before the present.
pub open spec fn plan_for(state: SwapChainState, table: Table, plan: PresentPlan) -> bool {
    let index = state.acquired[0];
    let frame = state.frames[index as int];
    let answer = transit_result(table, frame.texture_id, present_usage(), TrackPermit::Replace);
    &&& answer is Ok
    &&& plan.image_index == index
    &&& plan.texture_id == frame.texture_id
    &&& plan.epoch == next_epoch(frame.link.epoch)
    &&& plan.tracktion == answer->Ok_0
    &&& plan.command_buffer == frame.command_buffer
    &&& plan.commands@ == commands_for(
        answer->Ok_0,
        frame.texture_id,
        frame_range(),
        present_usage(),
    )
    &&& plan.fence == frame.fence
}

/// One of the first `count` frames has the texture `id`.
pub open spec fn among_textures(frames: Seq<Frame>, count: int, id: ResourceId) -> bool {
    exists|i: int| 0 <= i < count && i < frames.len() && #[trigger] frames[i].texture_id == id
}

/// The table after the textures of the first `count` frames were registered
/// with `usage`.
pub open spec fn table_with_textures(
    table: Table,
    frames: Seq<Frame>,
    count: int,
    usage: UsageFlags,
) -> Table {
    Map::new(
        |id: ResourceId| table.contains_key(id) || among_textures(frames, count, id),
        |id: ResourceId|
            if among_textures(frames, count, id) {
                Track { initial: usage, state: None }
            } else {
                table[id]
            },
    )
}

/// The ring of frames of one presentation surface.
pub struct SwapChain {
    id: SwapChainId,
    desc: SwapChainDescriptor,
    frames: Vec<Frame>,
    acquired: Vec<SwapImageIndex>,
    sem_available: SemaphoreId,
    lost: bool,
}

impl View for SwapChain {
    type V = SwapChainState;

    closed spec fn view(&self) -> SwapChainState {
        SwapChainState {
            id: self.id,
            desc: self.desc,
            frames: self.frames@,
            acquired: self.acquired@,
            sem_available: self.sem_available,
            lost: self.lost,
        }
    }
}

fn bump(epoch: SwapImageEpoch) -> (r: SwapImageEpoch)
    ensures
        r == next_epoch(epoch),
{
    if epoch == u16::MAX {
        0
    } else {
        epoch + 1
    }
}

impl SwapChain {
    /// A swapchain over the frames that the backend allocated, one for each
    /// slot, in the order of the slots. The number of frames is fixed from
    /// here on. `sem_available` is the semaphore for the first acquire.
    pub fn new(
        id: SwapChainId,
        desc: SwapChainDescriptor,
        slots: Vec<FrameSlot>,
        sem_available: SemaphoreId,
    ) -> (chain: SwapChain)
        requires
            slots@.len() <= u32::MAX,
        ensures
            chain@.wf(),
            chain@ == created(id, desc, slots@, sem_available),
    {
        let mut frames: Vec<Frame> = Vec::new();
        let mut i: usize = 0;
        while i < slots.len()
            invariant
                i <= slots@.len() <= u32::MAX,
                frames@.len() == i,
                forall|j: int|
                    0 <= j < i ==> #[trigger] frames@[j] == frame_of(
                        slots@[j],
                        id,
                        j as SwapImageIndex,
                    ),
            decreases slots@.len() - i,
        {
            let slot = slots[i];
            frames.push(
                Frame {
                    texture_id: slot.texture_id,
                    view_id: slot.view_id,
                    fence: slot.fence,
                    sem_available: slot.sem_available,
                    sem_present: slot.sem_present,
                    command_buffer: slot.command_buffer,
                    link: SwapChainLink {
                        swap_chain_id: id,
                        epoch: 0,
                        image_index: i as SwapImageIndex,
                    },
                    state: FrameState::Idle,
                },
            );
            i = i + 1;
        }
        let chain = SwapChain {
            id,
            desc,
            frames,
            acquired: Vec::new(),
            sem_available,
            lost: false,
        };
        assert forall|k: SwapImageIndex| (k as int) < chain@.frames.len() implies (chain@.frames[k as int].state
            is Acquired <==> #[trigger] chain@.acquired.contains(k)) by {
            assert(chain@.frames[k as int] == frame_of(slots@[k as int], id, k));
        }
        assert(chain@.frames =~= created(id, desc, slots@, sem_available).frames);
        chain
    }

    pub fn id(&self) -> (r: SwapChainId)
        ensures
            r == self@.id,
    {
        self.id
    }

    pub fn descriptor(&self) -> (r: SwapChainDescriptor)
        ensures
            r == self@.desc,
    {
        self.desc
    }

    /// The depth of the ring.
    pub fn frame_count(&self) -> (r: usize)
        ensures
            r == self@.frames.len(),
    {
        self.frames.len()
    }

    /// The frame at `index`, if the ring is that deep.
    pub fn frame(&self, index: SwapImageIndex) -> (r: Option<Frame>)
        ensures
            r == (if (index as int) < self@.frames.len() {
                Some(self@.frames[index as int])
            } else {
                None
            }),
    {
        if (index as usize) < self.frames.len() {
            Some(self.frames[index as usize])
        } else {
            None
        }
    }

    /// How many images are acquired and not presented yet.
    pub fn acquired_count(&self) -> (r: usize)
        ensures
            r == self@.acquired.len(),
    {
        self.acquired.len()
    }

    /// The image that the next present takes: the oldest that is acquired.
    pub fn next_present(&self) -> (r: Option<SwapImageIndex>)
        ensures
            r == (if self@.acquired.len() > 0 {
                Some(self@.acquired[0])
            } else {
                None
            }),
    {
        if self.acquired.len() > 0 {
            Some(self.acquired[0])
        } else {
            None
        }
    }

    /// The semaphore to hand to the backend with the next acquire.
    pub fn acquire_semaphore(&self) -> (r: SemaphoreId)
        ensures
            r == self@.sem_available,
    {
        self.sem_available
    }

    pub fn is_lost(&self) -> (r: bool)
        ensures
            r == self@.lost,
    {
        self.lost
    }

    /// Tells a current reference to a swapchain texture from a stale one.
    pub fn is_current(&self, link: SwapChainLink) -> (r: bool)
        ensures
            r == self@.current(link),
    {
        if link.swap_chain_id != self.id || (link.image_index as usize) >= self.frames.len() {
            return false;
        }
        let held = self.frames[link.image_index as usize].link;
        held.swap_chain_id == link.swap_chain_id && held.epoch == link.epoch && held.image_index
            == link.image_index
    }

    /// Registers the texture of every frame with `tracker`, with the usage
    /// of the descriptor. Nothing else in the tracker changes.
    pub fn register_frames(&self, tracker: &mut UsageTracker)
        ensures
            final(tracker).owner() == old(tracker).owner(),
            final(tracker)@ == table_with_textures(
                old(tracker)@,
                self@.frames,
                self@.frames.len() as int,
                self@.desc.usage,
            ),
    {
        let mut i: usize = 0;
        while i < self.frames.len()
            invariant
                i <= self.frames@.len(),
                tracker.owner() == old(tracker).owner(),
                tracker@ == table_with_textures(
                    old(tracker)@,
                    self@.frames,
                    i as int,
                    self@.desc.usage,
                ),
            decreases self.frames@.len() - i,
        {
            let texture = self.frames[i].texture_id;
            tracker.register(texture, self.desc.usage);
            assert forall|id: ResourceId|
                among_textures(self@.frames, i + 1, id) <==> (among_textures(
                    self@.frames,
                    i as int,
                    id,
                ) || id == texture) by {
                if among_textures(self@.frames, i + 1, id) {
                    let k = choose|k: int|
                        0 <= k < i + 1 && k < self@.frames.len() && #[trigger] self@.frames[k].texture_id
                            == id;
                    if k < i {
                        assert(among_textures(self@.frames, i as int, id));
                    }
                }
                if id == texture {
                    assert(self@.frames[i as int].texture_id == id);
                }
            }
            assert(tracker@ =~= table_with_textures(
                old(tracker)@,
                self@.frames,
                i + 1,
                self@.desc.usage,
            ));
            i = i + 1;
        }
    }

    /// Takes in what the backend answered to an acquire that was made with
    /// [`SwapChain::acquire_semaphore`] and without a timeout.
    ///
    /// On an image, the image joins the queue of acquired images as the
    /// newest, its frame and the swapchain trade semaphores, and the epoch of
    /// its texture goes up by one. The caller then waits on the fence of the
    /// frame before it uses the texture.
    ///
    /// A lost or outdated surface is final: from then on every acquire and
    /// every present is answered with `SurfaceLost`. A timeout changes
    /// nothing. An image that the swapchain cannot accept is refused with
    /// `InvalidImage` and changes nothing.
    pub fn acquire(&mut self, event: AcquireEvent) -> (r: Result<AcquiredImage, Error>)
        requires
            old(self)@.wf(),
        ensures
            final(self)@.wf(),
            final(self)@ == old(self)@.after_acquire(event),
            r == old(self)@.acquire_answer(event),
    {
        if self.lost {
            return Err(Error::SurfaceLost);
        }
        match event {
            AcquireEvent::Image(index) => {
                if (index as usize) >= self.frames.len() {
                    return Err(Error::InvalidImage);
                }
                let frame = self.frames[index as usize];
                match frame.state {
                    FrameState::Acquired => {
                        return Err(Error::InvalidImage);
                    },
                    _ => {},
                }
                proof {
                    lemma_acquire_keeps_wf(self@, index);
                }
                let semaphore = self.sem_available;
                let epoch = bump(frame.link.epoch);
                self.acquired.push(index);
                self.frames.set(
                    index as usize,
                    Frame {
                        sem_available: semaphore,
                        link: SwapChainLink { epoch, ..frame.link },
                        state: FrameState::Acquired,
                        ..frame
                    },
                );
                self.sem_available = frame.sem_available;
                let fence_pending = match frame.state {
                    FrameState::Submitted => true,
                    _ => false,
                };
                Ok(
                    AcquiredImage {
                        image_index: index,
                        texture_id: frame.texture_id,
                        view_id: frame.view_id,
                        epoch,
                        semaphore,
                        fence: frame.fence,
                        fence_pending,
                    },
                )
            },
            AcquireEvent::Timeout => Err(Error::Timeout),
            AcquireEvent::OutOfDate => {
                self.lost = true;
                Err(Error::SurfaceLost)
            },
            AcquireEvent::SurfaceLost => {
                self.lost = true;
                Err(Error::SurfaceLost)
            },
        }
    }

    /// Presents the oldest acquired image.
    ///
    /// The image leaves the queue, the epoch of its texture goes up by one,
    /// the tracker moves the texture to `PRESENT` under `TrackPermit::Replace`,
    /// and the frame counts as submitted. What comes back says which command
    /// buffer to record, with what, and which fence to reset and hand to the
    /// submission. `guard` is the guard of the texture that is presented.
    ///
    /// A present that cannot be served changes nothing: not the swapchain,
    /// not the tracker, not the guard.
    pub fn present(&mut self, tracker: &mut UsageTracker, guard: &mut LifetimeGuard) -> (r: Result<
        PresentPlan,
        Error,
    >)
        requires
            old(self)@.wf(),
        ensures
            final(self)@.wf(),
            final(tracker).owner() == old(tracker).owner(),
            match old(self)@.present_error(old(tracker)@) {
                Some(error) => {
                    &&& r == Err::<PresentPlan, Error>(error)
                    &&& final(self)@ == old(self)@
                    &&& final(tracker)@ == old(tracker)@
                    &&& final(guard)@ == old(guard)@
                },
                None => {
                    let texture = old(self)@.frames[old(self)@.acquired[0] as int].texture_id;
                    let answer = transit_result(
                        old(tracker)@,
                        texture,
                        present_usage(),
                        TrackPermit::Replace,
                    );
                    &&& r is Ok
                    &&& plan_for(old(self)@, old(tracker)@, r->Ok_0)
                    &&& final(self)@ == old(self)@.with_presented()
                    &&& final(tracker)@ == transit_in(
                        old(tracker)@,
                        texture,
                        present_usage(),
                        TrackPermit::Replace,
                        old(tracker).owner(),
                    )
                    &&& final(guard)@ == (if answer == Ok::<Tracktion, Error>(Tracktion::Init) {
                        retained(old(guard)@)
                    } else {
                        old(guard)@
                    })
                },
            },
    {
        if self.lost {
            return Err(Error::SurfaceLost);
        }
        if self.acquired.len() == 0 {
            return Err(Error::NothingAcquired);
        }
        proof {
            lemma_present_keeps_wf(self@);
        }
        let index = self.acquired[0];
        let frame = self.frames[index as usize];
        if !tracker.is_registered(frame.texture_id) {
            return Err(Error::ResourceNotTracked);
        }
        let usage = UsageFlags::from_bits(PRESENT);
        let tracktion = match tracker.transit(frame.texture_id, guard, usage, TrackPermit::Replace) {
            Ok(tracktion) => tracktion,
            Err(error) => {
                return Err(error);
            },
        };
        let epoch = bump(frame.link.epoch);
        self.acquired.remove(0);
        self.frames.set(
            index as usize,
            Frame {
                link: SwapChainLink { epoch, ..frame.link },
                state: FrameState::Submitted,
                ..frame
            },
        );
        let mut recorder = CommandRecorder::new();
        recorder.transition(
            tracktion,
            frame.texture_id,
            ResourceRange::Texture { levels: 1, layers: 1 },
            usage,
        );
        let commands = recorder.finish();
        Ok(
            PresentPlan {
                image_index: index,
                texture_id: frame.texture_id,
                epoch,
                tracktion,
                command_buffer: frame.command_buffer,
                commands,
                fence: frame.fence,
            },
        )
    }

    /// Takes in how the backend answered the present call that followed a
    /// plan. A refusal means that the surface is lost, which is final.
    pub fn finish_present(&mut self, presented: bool) -> (r: Result<(), Error>)
        ensures
            final(self)@ == (SwapChainState {
                lost: old(self)@.lost || !presented,
                ..old(self)@
            }),
            r == (if old(self)@.lost || !presented {
                Err::<(), Error>(Error::SurfaceLost)
            } else {
                Ok::<(), Error>(())
            }),
            old(self)@.wf() ==> final(self)@.wf(),
    {
        if self.lost || !presented {
            self.lost = true;
            Err(Error::SurfaceLost)
        } else {
            Ok(())
        }
    }

    /// Notes that the fence of the frame at `index` was seen signalled: the
    /// submission of that frame has retired, and a frame that was `Submitted`
    /// is `Idle` again.
    pub fn fence_signaled(&mut self, index: SwapImageIndex)
        requires
            old(self)@.wf(),
        ensures
            final(self)@.wf(),
            final(self)@ == old(self)@.after_signal(index),
    {
        if (index as usize) < self.frames.len() {
            let frame = self.frames[index as usize];
            match frame.state {
                FrameState::Submitted => {
                    self.frames.set(index as usize, Frame { state: FrameState::Idle, ..frame });
                    assert forall|i: SwapImageIndex| (i as int) < self@.frames.len() implies (self@.frames[i as int].state
                        is Acquired <==> #[trigger] self@.acquired.contains(i)) by {
                        assert(old(self)@.frames[i as int].state is Acquired
                            <==> old(self)@.acquired.contains(i));
                    }
                },
                _ => {},
            }
        }
    }
}

/// One call on a swapchain, as far as the queue of acquired images goes.
pub enum Step {
    /// The backend hands out the image at this position.
    Acquire(SwapImageIndex),
    /// The oldest acquired image is presented.
    Present,
}

impl SwapChainState {
    /// A present is served: the surface is there and an image is acquired.
    pub open spec fn presentable(self) -> bool {
        !self.lost && self.acquired.len() > 0
    }

    /// The swapchain after one step. A step that is refused changes nothing.
    pub open spec fn step(self, step: Step) -> SwapChainState {
        match step {
            Step::Acquire(index) => self.after_acquire(AcquireEvent::Image(index)),
            Step::Present => if self.presentable() {
                self.with_presented()
            } else {
                self
            },
        }
    }

    /// The image that one step acquires, if it acquires one.
    pub open spec fn acquired_by(self, step: Step) -> Seq<SwapImageIndex> {
        match step {
            Step::Acquire(index) => if !self.lost && self.accepts(index) {
                seq![index]
            } else {
                Seq::empty()
            },
            Step::Present => Seq::empty(),
        }
    }

    /// The image that one step presents, if it presents one.
    pub open spec fn presented_by(self, step: Step) -> Seq<SwapImageIndex> {
        match step {
            Step::Acquire(index) => Seq::empty(),
            Step::Present => if self.presentable() {
                seq![self.acquired[0]]
            } else {
                Seq::empty()
            },
        }
    }

    /// The swapchain after a run of steps.
    pub open spec fn run(self, steps: Seq<Step>) -> SwapChainState
        decreases steps.len(),
    {
        if steps.len() == 0 {
            self
        } else {
            self.run(steps.drop_last()).step(steps.last())
        }
    }

    /// The images acquired in a run of steps, in the order of the acquires.
    pub open spec fn acquires(self, steps: Seq<Step>) -> Seq<SwapImageIndex>
        decreases steps.len(),
    {
        if steps.len() == 0 {
            Seq::empty()
        } else {
            self.acquires(steps.drop_last()) + self.run(steps.drop_last()).acquired_by(
                steps.last(),
            )
        }
    }

    /// The images presented in a run of steps, in the order of the presents.
    pub open spec fn presents(self, steps: Seq<Step>) -> Seq<SwapImageIndex>
        decreases steps.len(),
    {
        if steps.len() == 0 {
            Seq::empty()
        } else {
            self.presents(steps.drop_last()) + self.run(steps.drop_last()).presented_by(
                steps.last(),
            )
        }
    }
}

/// A sequence without repetition whose items all lie below `bound` has at
/// most `bound` items.
pub proof fn lemma_distinct_below(items: Seq<SwapImageIndex>, bound: nat)
    requires
        items.no_duplicates(),
        forall|k: int| 0 <= k < items.len() ==> (#[trigger] items[k] as int) < bound,
    ensures
        items.len() <= bound,
    decreases bound,
{
    if items.len() == 0 {
    } else if bound == 0 {
        assert((items[0] as int) < 0);
    } else {
        let top = (bound - 1) as nat;
        if exists|j: int| 0 <= j < items.len() && items[j] as int == top {
            let j = choose|j: int| 0 <= j < items.len() && items[j] as int == top;
            let rest = items.remove(j);
            assert forall|k: int| 0 <= k < rest.len() implies (#[trigger] rest[k] as int)
                < top by {
                if k < j {
                    assert(rest[k] == items[k]);
                } else {
                    assert(rest[k] == items[k + 1]);
                }
            }
            assert forall|a: int, b: int| 0 <= a < rest.len() && 0 <= b < rest.len() && a
                != b implies rest[a] != rest[b] by {
                let a0 = if a < j {
                    a
                } else {
                    a + 1
                };
                let b0 = if b < j {
                    b
                } else {
                    b + 1
                };
                assert(rest[a] == items[a0]);
                assert(rest[b] == items[b0]);
            }
            lemma_distinct_below(rest, top);
        } else {
            assert forall|k: int| 0 <= k < items.len() implies (#[trigger] items[k] as int)
                < top by {
                assert(!(items[k] as int == top));
            }
            lemma_distinct_below(items, top);
        }
    }
}

/// At no time are more images acquired than the ring has frames.
pub proof fn law_acquired_within_ring(state: SwapChainState)
    requires
        state.wf(),
    ensures
        state.acquired.len() <= state.frames.len(),
{
    lemma_distinct_below(state.acquired, state.frames.len());
}

/// Every step keeps a swapchain well-formed, whether it is served or refused.
pub proof fn law_step_keeps_wf(state: SwapChainState, step: Step)
    requires
        state.wf(),
    ensures
        state.step(step).wf(),
{
    match step {
        Step::Acquire(index) => {
            if !state.lost && state.accepts(index) {
                lemma_acquire_keeps_wf(state, index);
            }
        },
        Step::Present => {
            if state.presentable() {
                lemma_present_keeps_wf(state);
            }
        },
    }
}

/// Images are presented in the order in which they were acquired: after any
/// run of acquires and presents, the images presented so far, followed by
/// those still waiting, are the images that were waiting at the start,
/// followed by those acquired since, each in its order. The swapchain stays
/// well-formed throughout, so the queue never outgrows the ring.
pub proof fn law_presents_follow_acquires(state: SwapChainState, steps: Seq<Step>)
    requires
        state.wf(),
    ensures
        state.run(steps).wf(),
        state.run(steps).acquired.len() <= state.frames.len(),
        state.run(steps).frames.len() == state.frames.len(),
        state.presents(steps) + state.run(steps).acquired == state.acquired + state.acquires(
            steps,
        ),
    decreases steps.len(),
{
    if steps.len() == 0 {
        assert(state.presents(steps) + state.run(steps).acquired =~= state.acquired
            + state.acquires(steps));
    } else {
        let before = steps.drop_last();
        let last = steps.last();
        law_presents_follow_acquires(state, before);
        let prev = state.run(before);
        law_step_keeps_wf(prev, last);
        let next = prev.step(last);
        assert(state.presents(before) + prev.acquired == state.acquired + state.acquires(
            before,
        ));
        match last {
            Step::Acquire(index) => {
                if !prev.lost && prev.accepts(index) {
                    assert(state.presents(steps) + next.acquired =~= (state.presents(before)
                        + prev.acquired).push(index));
                    assert(state.acquired + state.acquires(steps) =~= (state.acquired
                        + state.acquires(before)).push(index));
                } else {
                    assert(next == prev);
                }
            },
            Step::Present => {
                if prev.presentable() {
                    assert(state.presents(steps) + next.acquired =~= state.presents(before) + (
                    seq![prev.acquired[0]] + prev.acquired.remove(0)));
                } else {
                    assert(state.presents(steps) =~= state.presents(before));
                }
            },
        }
    }
    law_acquired_within_ring(state.run(steps));
}

/// What was allocated for a frame stays with it: no step changes the depth
/// of the ring, nor the texture, the view, the fence, the present semaphore
/// or the command buffer of any frame, nor where the frame stands in which
/// swapchain.
pub proof fn law_frames_keep_their_resources(state: SwapChainState, steps: Seq<Step>, i: int)
    requires
        state.wf(),
        0 <= i < state.frames.len(),
    ensures
        state.run(steps).frames.len() == state.frames.len(),
        state.run(steps).id == state.id,
        state.run(steps).desc == state.desc,
        state.run(steps).frames[i].texture_id == state.frames[i].texture_id,
        state.run(steps).frames[i].view_id == state.frames[i].view_id,
        state.run(steps).frames[i].fence == state.frames[i].fence,
        state.run(steps).frames[i].sem_present == state.frames[i].sem_present,
        state.run(steps).frames[i].command_buffer == state.frames[i].command_buffer,
        state.run(steps).frames[i].link.swap_chain_id == state.frames[i].link.swap_chain_id,
        state.run(steps).frames[i].link.image_index == state.frames[i].link.image_index,
    decreases steps.len(),
{
    if steps.len() > 0 {
        law_frames_keep_their_resources(state, steps.drop_last(), i);
        law_presents_follow_acquires(state, steps.drop_last());
        let prev = state.run(steps.drop_last());
        if steps.last() is Present && prev.presentable() {
            lemma_present_keeps_wf(prev);
        }
    }
}

impl SwapChainState {
    /// The semaphore is the one that the next acquire hands to the backend,
    /// or the one that some frame holds.
    pub open spec fn has_semaphore(self, semaphore: SemaphoreId) -> bool {
        self.sem_available == semaphore || exists|i: int|
            0 <= i < self.frames.len() && (#[trigger] self.frames[i]).sem_available == semaphore
    }

    /// No two frames hold the same semaphore, and none holds the one that
    /// the next acquire hands to the backend.
    pub open spec fn semaphores_distinct(self) -> bool {
        &&& forall|i: int|
            0 <= i < self.frames.len() ==> (#[trigger] self.frames[i]).sem_available
                != self.sem_available
        &&& forall|i: int, j: int|
            0 <= i < self.frames.len() && 0 <= j < self.frames.len() && i != j ==> (
            #[trigger] self.frames[i]).sem_available != (#[trigger] self.frames[j]).sem_available
    }

    /// How often the image at `index` is acquired or presented by one step.
    pub open spec fn touched_by(self, step: Step, index: int) -> nat {
        match step {
            Step::Acquire(acquired) => if !self.lost && self.accepts(acquired) && acquired
                == index {
                1
            } else {
                0
            },
            Step::Present => if self.presentable() && self.acquired[0] == index {
                1
            } else {
                0
            },
        }
    }

    /// How often the image at `index` is acquired or presented in a run of
    /// steps.
    pub open spec fn touches(self, steps: Seq<Step>, index: int) -> nat
        decreases steps.len(),
    {
        if steps.len() == 0 {
            0
        } else {
            self.touches(steps.drop_last(), index) + self.run(steps.drop_last()).touched_by(
                steps.last(),
                index,
            )
        }
    }
}

/// The epoch after `count` more acquires and presents.
pub open spec fn epoch_after(epoch: SwapImageEpoch, count: nat) -> SwapImageEpoch {
    ((epoch + count) % 0x1_0000) as u16
}

/// The semaphores only change hands. Every step leaves the swapchain with
/// the semaphores it had, and where no two of them were the same before,
/// no two are the same after: each acquire is made with a semaphore that no
/// frame holds.
pub proof fn law_semaphores_rotate(state: SwapChainState, step: Step, semaphore: SemaphoreId)
    requires
        state.wf(),
    ensures
        state.step(step).has_semaphore(semaphore) == state.has_semaphore(semaphore),
        state.semaphores_distinct() ==> state.step(step).semaphores_distinct(),
{
    let next = state.step(step);
    match step {
        Step::Acquire(index) => {
            if !state.lost && state.accepts(index) {
                let at = index as int;
                assert forall|i: int| 0 <= i < state.frames.len() && i != at implies (
                #[trigger] next.frames[i]).sem_available == state.frames[i].sem_available by {}
                if state.has_semaphore(semaphore) {
                    if state.sem_available == semaphore {
                        assert(next.frames[at].sem_available == semaphore);
                    } else {
                        let i = choose|i: int|
                            0 <= i < state.frames.len() && (#[trigger] state.frames[i]).sem_available
                                == semaphore;
                        if i != at {
                            assert(next.frames[i].sem_available == semaphore);
                        }
                    }
                }
                if next.has_semaphore(semaphore) {
                    if next.sem_available == semaphore {
                        assert(state.frames[at].sem_available == semaphore);
                    } else {
                        let i = choose|i: int|
                            0 <= i < next.frames.len() && (#[trigger] next.frames[i]).sem_available
                                == semaphore;
                        if i != at {
                            assert(state.frames[i].sem_available == semaphore);
                        }
                    }
                }
                if state.semaphores_distinct() {
                    assert forall|i: int| 0 <= i < next.frames.len() implies (
                    #[trigger] next.frames[i]).sem_available != next.sem_available by {
                        if i != at {
                            assert(state.frames[i].sem_available != state.frames[at].sem_available);
                        }
                    }
                    assert forall|i: int, j: int|
                        0 <= i < next.frames.len() && 0 <= j < next.frames.len() && i
                            != j implies (#[trigger] next.frames[i]).sem_available != (
                    #[trigger] next.frames[j]).sem_available by {
                        if i != at && j != at {
                            assert(state.frames[i].sem_available != state.frames[j].sem_available);
                        }
                    }
                }
            }
        },
        Step::Present => {
            if state.presentable() {
                lemma_present_keeps_wf(state);
                let at = state.acquired[0] as int;
                assert forall|i: int| 0 <= i < state.frames.len() implies (
                #[trigger] next.frames[i]).sem_available == state.frames[i].sem_available by {}
                if state.has_semaphore(semaphore) && state.sem_available != semaphore {
                    let i = choose|i: int|
                        0 <= i < state.frames.len() && (#[trigger] state.frames[i]).sem_available
                            == semaphore;
                    assert(next.frames[i].sem_available == semaphore);
                }
                if next.has_semaphore(semaphore) && next.sem_available != semaphore {
                    let i = choose|i: int|
                        0 <= i < next.frames.len() && (#[trigger] next.frames[i]).sem_available
                            == semaphore;
                    assert(state.frames[i].sem_available == semaphore);
                }
                if state.semaphores_distinct() {
                    assert forall|i: int, j: int|
                        0 <= i < next.frames.len() && 0 <= j < next.frames.len() && i
                            != j implies (#[trigger] next.frames[i]).sem_available != (
                    #[trigger] next.frames[j]).sem_available by {
                        assert(state.frames[i].sem_available != state.frames[j].sem_available);
                    }
                }
            }
        },
    }
}

/// The epoch of a swapchain texture counts its acquires and presents: after
/// any run of steps it has gone up by one for each time the image was
/// acquired and for each time it was presented, starting again at zero
/// after its last value.
pub proof fn law_epoch_counts_cycles(state: SwapChainState, steps: Seq<Step>, index: int)
    requires
        state.wf(),
        0 <= index < state.frames.len(),
    ensures
        state.run(steps).frames.len() == state.frames.len(),
        state.run(steps).frames[index].link.epoch == epoch_after(
            state.frames[index].link.epoch,
            state.touches(steps, index),
        ),
    decreases steps.len(),
{
    if steps.len() > 0 {
        let before = steps.drop_last();
        let last = steps.last();
        law_epoch_counts_cycles(state, before, index);
        law_presents_follow_acquires(state, before);
        let prev = state.run(before);
        if last is Present && prev.presentable() {
            lemma_present_keeps_wf(prev);
        }
        if prev.touched_by(last, index) == 1 {
            assert(state.run(steps).frames[index].link.epoch == next_epoch(
                prev.frames[index].link.epoch,
            ));
        } else {
            assert(state.run(steps).frames[index].link.epoch == prev.frames[index].link.epoch);
        }
    }
}

/// An acquire and a present each make the references to their texture
/// stale: a link that was current before the step is current no more, and
/// the links of the other textures stay as they were.
pub proof fn law_cycles_make_references_stale(state: SwapChainState, step: Step, link: SwapChainLink)
    requires
        state.wf(),
        state.current(link),
    ensures
        state.step(step).current(link) <==> state.touched_by(step, link.image_index as int) == 0,
{
    if step is Present && state.presentable() {
        lemma_present_keeps_wf(state);
    }
}

/// Presenting a registered texture under `Replace` never fails and never
/// extends: it finds the texture new, finds it in `PRESENT` already, or
/// replaces another usage. Either way the texture ends in `PRESENT`.
pub proof fn law_present_transition(table: Table, texture: ResourceId, queue: QueueId)
    requires
        table.contains_key(texture),
    ensures
        ({
            let answer = transit_result(table, texture, present_usage(), TrackPermit::Replace);
            let current = usage_at(table, texture);
            &&& answer is Ok
            &&& current is None <==> answer->Ok_0 is Init
            &&& current == Some(present_usage()) <==> answer->Ok_0 is Keep
            &&& (current is Some && current != Some(present_usage())) <==> answer->Ok_0
                == (Tracktion::Replace { old: current->0 })
            &&& usage_at(
                transit_in(table, texture, present_usage(), TrackPermit::Replace, queue),
                texture,
            ) == Some(present_usage())
        }),
{
    assert(PRESENT & (WRITE_ALL | PRESENT) != 0) by (bit_vector);
    lemma_exclusive_not_read_only(present_usage());
    lemma_join_includes(present_usage(), present_usage());
}

} // verus!
