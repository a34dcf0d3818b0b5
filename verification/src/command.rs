//! Barriers and the recorder that puts them into a command buffer.
//!
//! The tracker only says what a transition took. This module turns a
//! decision into the barrier that the backend needs, if it needs one.

use vstd::prelude::*;
use crate::error::Error;
use crate::life::retained;
use crate::resource::Resource;
use crate::track::{ResourceId, TrackPermit, Tracktion, UsageTracker, transit_in, transit_result};
use crate::usage::{
    COPY_DST, COPY_SRC, INDEX, PRESENT, RENDER_TARGET, SAMPLED, STORAGE, UNIFORM, UsageFlags,
    VERTEX,
};

verus! {

/// Read by a copy.
pub const ACCESS_TRANSFER_READ: u32 = 1;

/// Written by a copy.
pub const ACCESS_TRANSFER_WRITE: u32 = 2;

/// Read by a shader.
pub const ACCESS_SHADER_READ: u32 = 4;

/// Written by a shader.
pub const ACCESS_SHADER_WRITE: u32 = 8;

/// Written as an attachment of a render pass.
pub const ACCESS_ATTACHMENT_WRITE: u32 = 16;

/// Read as indices.
pub const ACCESS_INDEX_READ: u32 = 32;

/// Read as vertices.
pub const ACCESS_VERTEX_READ: u32 = 64;

/// Read as uniform data.
pub const ACCESS_UNIFORM_READ: u32 = 128;

/// The start of the pipeline: nothing has to have happened.
pub const STAGE_TOP_OF_PIPE: u32 = 1;

/// Vertices and indices are fetched.
pub const STAGE_VERTEX_INPUT: u32 = 2;

/// Any shader runs.
pub const STAGE_SHADERS: u32 = 4;

/// Colour values are written to the attachments.
pub const STAGE_ATTACHMENT_OUTPUT: u32 = 8;

/// Copies run.
pub const STAGE_TRANSFER: u32 = 16;

/// The end of the pipeline: everything has happened.
pub const STAGE_BOTTOM_OF_PIPE: u32 = 32;

/// How the memory of a texture is arranged for the GPU.
#[derive(Clone, Copy, Debug, PartialEq, Eq)]
pub enum Layout {
    /// Nothing is known of the contents.
    Undefined,
    /// Fit for every usage, best for none.
    General,
    /// Fit for a render target.
    ColorAttachment,
    /// Fit for sampling.
    ShaderReadOnly,
    /// Fit for the source of a copy.
    TransferSrc,
    /// Fit for the destination of a copy.
    TransferDst,
    /// What the presentation engine asks for.
    Present,
}

/// The part of a resource that a barrier covers.
#[derive(Clone, Copy, Debug, PartialEq, Eq)]
pub enum ResourceRange {
    /// The first `size` bytes of a buffer.
    Buffer { size: u64 },
    /// The first `levels` mip levels of the first `layers` array layers of a
    /// texture.
    Texture { levels: u32, layers: u32 },
}

/// Stage, access and layout of one side of a barrier.
#[derive(Clone, Copy, Debug, PartialEq, Eq)]
pub struct BarrierState {
    pub stage: u32,
    pub access: u32,
    pub layout: Layout,
}

/// A memory and layout barrier on one resource.
#[derive(Clone, Copy, Debug, PartialEq, Eq)]
pub struct Barrier {
    pub resource: ResourceId,
    pub range: ResourceRange,
    /// The usage left behind.
    pub before: UsageFlags,
    /// The usage entered.
    pub after: UsageFlags,
    pub source: BarrierState,
    pub destination: BarrierState,
}

/// One recorded command.
#[derive(Clone, Copy, Debug, PartialEq, Eq)]
pub enum Command {
    PipelineBarrier(Barrier),
    Draw { vertices: u32, instances: u32 },
    Dispatch { x: u32, y: u32, z: u32 },
}

/// `value` if `usage` has one of the flags, nothing otherwise.
pub open spec fn when(usage: UsageFlags, flag: u32, value: u32) -> u32 {
    if usage.bits & flag != 0 {
        value
    } else {
        0
    }
}

/// The accesses that a usage stands for. Presenting is no access.
pub open spec fn access_of(usage: UsageFlags) -> u32 {
    when(usage, COPY_SRC, ACCESS_TRANSFER_READ) | when(usage, COPY_DST, ACCESS_TRANSFER_WRITE)
        | when(usage, SAMPLED, ACCESS_SHADER_READ) | when(
        usage,
        STORAGE,
        ACCESS_SHADER_READ | ACCESS_SHADER_WRITE,
    ) | when(usage, RENDER_TARGET, ACCESS_ATTACHMENT_WRITE) | when(usage, INDEX, ACCESS_INDEX_READ)
        | when(usage, VERTEX, ACCESS_VERTEX_READ) | when(usage, UNIFORM, ACCESS_UNIFORM_READ)
}

/// The pipeline stages in which a usage touches the resource. Presenting
/// touches it in none.
pub open spec fn stages_of(usage: UsageFlags) -> u32 {
    when(usage, COPY_SRC | COPY_DST, STAGE_TRANSFER) | when(
        usage,
        SAMPLED | STORAGE | UNIFORM,
        STAGE_SHADERS,
    ) | when(usage, RENDER_TARGET, STAGE_ATTACHMENT_OUTPUT) | when(
        usage,
        INDEX | VERTEX,
        STAGE_VERTEX_INPUT,
    )
}

/// The layout that a usage asks for: a layout of its own for each single
/// usage that has one, `Undefined` for no usage, `General` for the rest.
pub open spec fn layout_of(usage: UsageFlags) -> Layout {
    if usage.bits == 0 {
        Layout::Undefined
    } else if usage.bits == PRESENT {
        Layout::Present
    } else if usage.bits == RENDER_TARGET {
        Layout::ColorAttachment
    } else if usage.bits == SAMPLED {
        Layout::ShaderReadOnly
    } else if usage.bits == COPY_SRC {
        Layout::TransferSrc
    } else if usage.bits == COPY_DST {
        Layout::TransferDst
    } else {
        Layout::General
    }
}

/// The barrier that takes `resource` from `before` to `after`.
///
/// Stage, access and layout of each side come from the usage on that side.
/// A side whose usage touches the resource in no stage waits for nothing
/// (as a source) or holds nothing back (as a destination). A barrier into
/// `PRESENT` runs from the top of the pipeline to its bottom, since the
/// command buffer it is recorded in holds no shader work.
pub open spec fn barrier_between(
    resource: ResourceId,
    range: ResourceRange,
    before: UsageFlags,
    after: UsageFlags,
) -> Barrier {
    Barrier {
        resource,
        range,
        before,
        after,
        source: BarrierState {
            stage: if after.bits == PRESENT || stages_of(before) == 0 {
                STAGE_TOP_OF_PIPE
            } else {
                stages_of(before)
            },
            access: access_of(before),
            layout: layout_of(before),
        },
        destination: BarrierState {
            stage: if after.bits == PRESENT || stages_of(after) == 0 {
                STAGE_BOTTOM_OF_PIPE
            } else {
                stages_of(after)
            },
            access: access_of(after),
            layout: layout_of(after),
        },
    }
}

/// The barrier that a decision asks for: one for `Replace`, none for the
/// others.
pub open spec fn barrier_for(
    tracktion: Tracktion,
    resource: ResourceId,
    range: ResourceRange,
    usage: UsageFlags,
) -> Option<Barrier> {
    match tracktion {
        Tracktion::Replace { old } => Some(barrier_between(resource, range, old, usage)),
        _ => None,
    }
}

/// The commands that a decision adds to a command buffer.
pub open spec fn commands_for(
    tracktion: Tracktion,
    resource: ResourceId,
    range: ResourceRange,
    usage: UsageFlags,
) -> Seq<Command> {
    match barrier_for(tracktion, resource, range, usage) {
        Some(barrier) => seq![Command::PipelineBarrier(barrier)],
        None => Seq::empty(),
    }
}

fn pick(usage: UsageFlags, flag: u32, value: u32) -> (r: u32)
    ensures
        r == when(usage, flag, value),
{
    if usage.bits & flag != 0 {
        value
    } else {
        0
    }
}

pub fn usage_access(usage: UsageFlags) -> (r: u32)
    ensures
        r == access_of(usage),
{
    pick(usage, COPY_SRC, ACCESS_TRANSFER_READ) | pick(usage, COPY_DST, ACCESS_TRANSFER_WRITE)
        | pick(usage, SAMPLED, ACCESS_SHADER_READ) | pick(
        usage,
        STORAGE,
        ACCESS_SHADER_READ | ACCESS_SHADER_WRITE,
    ) | pick(usage, RENDER_TARGET, ACCESS_ATTACHMENT_WRITE) | pick(usage, INDEX, ACCESS_INDEX_READ)
        | pick(usage, VERTEX, ACCESS_VERTEX_READ) | pick(usage, UNIFORM, ACCESS_UNIFORM_READ)
}

pub fn usage_stages(usage: UsageFlags) -> (r: u32)
    ensures
        r == stages_of(usage),
{
    pick(usage, COPY_SRC | COPY_DST, STAGE_TRANSFER) | pick(
        usage,
        SAMPLED | STORAGE | UNIFORM,
        STAGE_SHADERS,
    ) | pick(usage, RENDER_TARGET, STAGE_ATTACHMENT_OUTPUT) | pick(
        usage,
        INDEX | VERTEX,
        STAGE_VERTEX_INPUT,
    )
}

pub fn usage_layout(usage: UsageFlags) -> (r: Layout)
    ensures
        r == layout_of(usage),
{
    if usage.bits == 0 {
        Layout::Undefined
    } else if usage.bits == PRESENT {
        Layout::Present
    } else if usage.bits == RENDER_TARGET {
        Layout::ColorAttachment
    } else if usage.bits == SAMPLED {
        Layout::ShaderReadOnly
    } else if usage.bits == COPY_SRC {
        Layout::TransferSrc
    } else if usage.bits == COPY_DST {
        Layout::TransferDst
    } else {
        Layout::General
    }
}

/// Builds the barrier from `before` to `after`.
pub fn make_barrier(resource: ResourceId, range: ResourceRange, before: UsageFlags, after: UsageFlags) -> (r:
    Barrier)
    ensures
        r == barrier_between(resource, range, before, after),
{
    let from = usage_stages(before);
    let to = usage_stages(after);
    let present = after.bits == PRESENT;
    Barrier {
        resource,
        range,
        before,
        after,
        source: BarrierState {
            stage: if present || from == 0 {
                STAGE_TOP_OF_PIPE
            } else {
                from
            },
            access: usage_access(before),
            layout: usage_layout(before),
        },
        destination: BarrierState {
            stage: if present || to == 0 {
                STAGE_BOTTOM_OF_PIPE
            } else {
                to
            },
            access: usage_access(after),
            layout: usage_layout(after),
        },
    }
}

/// The barrier that the decision `tracktion` on a request for `usage` asks
/// for, if it asks for one.
pub fn transition_barrier(
    tracktion: Tracktion,
    resource: ResourceId,
    range: ResourceRange,
    usage: UsageFlags,
) -> (r: Option<Barrier>)
    ensures
        r == barrier_for(tracktion, resource, range, usage),
{
    match tracktion {
        Tracktion::Replace { old } => Some(make_barrier(resource, range, old, usage)),
        _ => None,
    }
}

/// Commands in the order in which they were recorded.
#[derive(Debug)]
pub struct CommandBuffer {
    pub commands: Vec<Command>,
}

impl View for CommandBuffer {
    type V = Seq<Command>;

    open spec fn view(&self) -> Seq<Command> {
        self.commands@
    }
}

/// Collects the commands of one command buffer.
pub struct CommandRecorder {
    commands: Vec<Command>,
}

impl View for CommandRecorder {
    type V = Seq<Command>;

    closed spec fn view(&self) -> Seq<Command> {
        self.commands@
    }
}

impl CommandRecorder {
    /// Begins an empty command buffer.
    pub fn new() -> (recorder: CommandRecorder)
        ensures
            recorder@ == Seq::<Command>::empty(),
    {
        CommandRecorder { commands: Vec::new() }
    }

    pub fn len(&self) -> (n: usize)
        ensures
            n == self@.len(),
    {
        self.commands.len()
    }

    /// Records what the decision `tracktion` on a request for `usage` takes:
    /// the barrier from the old usage for `Replace`, nothing for the others.
    /// Returns whether a barrier was recorded.
    pub fn transition(
        &mut self,
        tracktion: Tracktion,
        resource: ResourceId,
        range: ResourceRange,
        usage: UsageFlags,
    ) -> (emitted: bool)
        ensures
            final(self)@ == old(self)@ + commands_for(tracktion, resource, range, usage),
            emitted == barrier_for(tracktion, resource, range, usage).is_some(),
    {
        match transition_barrier(tracktion, resource, range, usage) {
            Some(barrier) => {
                self.commands.push(Command::PipelineBarrier(barrier));
                true
            },
            None => {
                false
            },
        }
    }

    /// Moves `resource` to `usage` in `tracker`, as far as `permit` allows,
    /// and records what that takes: the barrier over the whole resource
    /// where its usage was replaced, nothing otherwise. A request that the
    /// tracker refuses records nothing.
    pub fn use_resource(
        &mut self,
        tracker: &mut UsageTracker,
        resource: &mut Resource,
        usage: UsageFlags,
        permit: TrackPermit,
    ) -> (r: Result<Tracktion, Error>)
        ensures
            r == transit_result(old(tracker)@, old(resource).id, usage, permit),
            final(tracker)@ == transit_in(
                old(tracker)@,
                old(resource).id,
                usage,
                permit,
                old(tracker).owner(),
            ),
            final(tracker).owner() == old(tracker).owner(),
            final(resource).id == old(resource).id,
            final(resource).full_range == old(resource).full_range,
            final(resource).life_guard@ == (if r == Ok::<Tracktion, Error>(Tracktion::Init) {
                retained(old(resource).life_guard@)
            } else {
                old(resource).life_guard@
            }),
            final(self)@ == old(self)@ + (match r {
                Ok(tracktion) => commands_for(
                    tracktion,
                    old(resource).id,
                    old(resource).full_range,
                    usage,
                ),
                Err(_) => Seq::<Command>::empty(),
            }),
    {
        let id = resource.id;
        let range = resource.full_range;
        match tracker.transit(id, &mut resource.life_guard, usage, permit) {
            Ok(tracktion) => {
                self.transition(tracktion, id, range, usage);
                Ok(tracktion)
            },
            Err(error) => {
                Err(error)
            },
        }
    }

    pub fn draw(&mut self, vertices: u32, instances: u32)
        ensures
            final(self)@ == old(self)@.push(Command::Draw { vertices, instances }),
    {
        self.commands.push(Command::Draw { vertices, instances });
    }

    pub fn dispatch(&mut self, x: u32, y: u32, z: u32)
        ensures
            final(self)@ == old(self)@.push(Command::Dispatch { x, y, z }),
    {
        self.commands.push(Command::Dispatch { x, y, z });
    }

    /// Ends the command buffer.
    pub fn finish(self) -> (buffer: CommandBuffer)
        ensures
            buffer@ == self@,
    {
        CommandBuffer { commands: self.commands }
    }
}

} // verus!
