use gpu_track::command::{
    make_barrier, transition_barrier, usage_access, usage_layout, usage_stages, Barrier,
    BarrierState, Command, CommandRecorder, Layout, ResourceRange,
};
use gpu_track::command::{
    ACCESS_ATTACHMENT_WRITE, ACCESS_INDEX_READ, ACCESS_SHADER_READ, ACCESS_SHADER_WRITE,
    ACCESS_TRANSFER_READ, ACCESS_TRANSFER_WRITE, ACCESS_UNIFORM_READ, ACCESS_VERTEX_READ,
    STAGE_ATTACHMENT_OUTPUT, STAGE_BOTTOM_OF_PIPE, STAGE_SHADERS, STAGE_TOP_OF_PIPE,
    STAGE_TRANSFER, STAGE_VERTEX_INPUT,
};
use gpu_track::error::Error;
use gpu_track::resource::Resource;
use gpu_track::track::{TrackPermit, Tracktion, UsageTracker};
use gpu_track::usage::UsageFlags;
use gpu_track::usage::{
    COPY_DST, COPY_SRC, INDEX, PRESENT, RENDER_TARGET, SAMPLED, STORAGE, UNIFORM, VERTEX,
};

fn flags(bits: u32) -> UsageFlags {
    UsageFlags::from_bits(bits)
}

fn texture() -> ResourceRange {
    ResourceRange::Texture { levels: 1, layers: 1 }
}

#[test]
fn access_of_each_usage() {
    assert_eq!(usage_access(flags(COPY_SRC)), ACCESS_TRANSFER_READ);
    assert_eq!(usage_access(flags(COPY_DST)), ACCESS_TRANSFER_WRITE);
    assert_eq!(usage_access(flags(SAMPLED)), ACCESS_SHADER_READ);
    assert_eq!(usage_access(flags(STORAGE)), ACCESS_SHADER_READ | ACCESS_SHADER_WRITE);
    assert_eq!(usage_access(flags(RENDER_TARGET)), ACCESS_ATTACHMENT_WRITE);
    assert_eq!(usage_access(flags(INDEX)), ACCESS_INDEX_READ);
    assert_eq!(usage_access(flags(VERTEX)), ACCESS_VERTEX_READ);
    assert_eq!(usage_access(flags(UNIFORM)), ACCESS_UNIFORM_READ);
    assert_eq!(usage_access(flags(PRESENT)), 0);
    assert_eq!(usage_access(flags(0)), 0);
    assert_eq!(usage_access(flags(SAMPLED | UNIFORM)), 132);
    assert_eq!(usage_access(flags(STORAGE)), 12);
}

#[test]
fn stages_of_each_usage() {
    assert_eq!(usage_stages(flags(COPY_SRC)), STAGE_TRANSFER);
    assert_eq!(usage_stages(flags(COPY_DST)), STAGE_TRANSFER);
    assert_eq!(usage_stages(flags(COPY_SRC | COPY_DST)), 16);
    assert_eq!(usage_stages(flags(SAMPLED)), STAGE_SHADERS);
    assert_eq!(usage_stages(flags(STORAGE)), STAGE_SHADERS);
    assert_eq!(usage_stages(flags(UNIFORM)), STAGE_SHADERS);
    assert_eq!(usage_stages(flags(RENDER_TARGET)), STAGE_ATTACHMENT_OUTPUT);
    assert_eq!(usage_stages(flags(INDEX)), STAGE_VERTEX_INPUT);
    assert_eq!(usage_stages(flags(VERTEX)), STAGE_VERTEX_INPUT);
    assert_eq!(usage_stages(flags(INDEX | VERTEX | UNIFORM)), 6);
    assert_eq!(usage_stages(flags(PRESENT)), 0);
    assert_eq!(usage_stages(flags(0)), 0);
}

#[test]
fn layout_of_each_usage() {
    assert_eq!(usage_layout(flags(0)), Layout::Undefined);
    assert_eq!(usage_layout(flags(PRESENT)), Layout::Present);
    assert_eq!(usage_layout(flags(RENDER_TARGET)), Layout::ColorAttachment);
    assert_eq!(usage_layout(flags(SAMPLED)), Layout::ShaderReadOnly);
    assert_eq!(usage_layout(flags(COPY_SRC)), Layout::TransferSrc);
    assert_eq!(usage_layout(flags(COPY_DST)), Layout::TransferDst);
    assert_eq!(usage_layout(flags(STORAGE)), Layout::General);
    assert_eq!(usage_layout(flags(SAMPLED | COPY_SRC)), Layout::General);
    assert_eq!(usage_layout(flags(VERTEX)), Layout::General);
}

#[test]
fn present_barrier_runs_from_top_to_bottom() {
    let barrier = make_barrier(10, texture(), flags(RENDER_TARGET), flags(PRESENT));
    assert_eq!(
        barrier,
        Barrier {
            resource: 10,
            range: texture(),
            before: flags(RENDER_TARGET),
            after: flags(PRESENT),
            source: BarrierState {
                stage: STAGE_TOP_OF_PIPE,
                access: ACCESS_ATTACHMENT_WRITE,
                layout: Layout::ColorAttachment,
            },
            destination: BarrierState {
                stage: STAGE_BOTTOM_OF_PIPE,
                access: 0,
                layout: Layout::Present,
            },
        }
    );
    assert_eq!(barrier.source.stage, 1);
    assert_eq!(barrier.source.access, 16);
    assert_eq!(barrier.destination.stage, 32);
}

#[test]
fn buffer_barrier_derives_both_sides_from_the_usages() {
    let range = ResourceRange::Buffer { size: 256 };
    let barrier = make_barrier(5, range, flags(COPY_DST), flags(VERTEX | INDEX));
    assert_eq!(
        barrier,
        Barrier {
            resource: 5,
            range,
            before: flags(COPY_DST),
            after: flags(VERTEX | INDEX),
            source: BarrierState { stage: 16, access: 2, layout: Layout::TransferDst },
            destination: BarrierState { stage: 2, access: 96, layout: Layout::General },
        }
    );
}

#[test]
fn leaving_present_waits_for_nothing() {
    let barrier = make_barrier(10, texture(), flags(PRESENT), flags(RENDER_TARGET));
    assert_eq!(
        barrier.source,
        BarrierState { stage: STAGE_TOP_OF_PIPE, access: 0, layout: Layout::Present }
    );
    assert_eq!(
        barrier.destination,
        BarrierState {
            stage: STAGE_ATTACHMENT_OUTPUT,
            access: ACCESS_ATTACHMENT_WRITE,
            layout: Layout::ColorAttachment,
        }
    );
}

#[test]
fn a_barrier_to_no_usage_holds_nothing_back() {
    let barrier = make_barrier(10, texture(), flags(SAMPLED), flags(0));
    assert_eq!(
        barrier.source,
        BarrierState { stage: STAGE_SHADERS, access: ACCESS_SHADER_READ, layout: Layout::ShaderReadOnly }
    );
    assert_eq!(
        barrier.destination,
        BarrierState { stage: STAGE_BOTTOM_OF_PIPE, access: 0, layout: Layout::Undefined }
    );
}

#[test]
fn only_replace_asks_for_a_barrier() {
    let usage = flags(STORAGE);
    assert_eq!(transition_barrier(Tracktion::Init, 1, texture(), usage), None);
    assert_eq!(transition_barrier(Tracktion::Keep, 1, texture(), usage), None);
    assert_eq!(
        transition_barrier(Tracktion::Extend { old: flags(SAMPLED) }, 1, texture(), usage),
        None
    );
    assert_eq!(
        transition_barrier(Tracktion::Replace { old: flags(SAMPLED) }, 1, texture(), usage),
        Some(make_barrier(1, texture(), flags(SAMPLED), usage))
    );
}

#[test]
fn recorder_keeps_commands_in_order() {
    let mut recorder = CommandRecorder::new();
    assert_eq!(recorder.len(), 0);
    assert!(!recorder.transition(Tracktion::Init, 1, texture(), flags(RENDER_TARGET)));
    assert!(!recorder.transition(Tracktion::Keep, 1, texture(), flags(RENDER_TARGET)));
    assert!(!recorder.transition(
        Tracktion::Extend { old: flags(SAMPLED) },
        2,
        texture(),
        flags(SAMPLED | UNIFORM)
    ));
    assert_eq!(recorder.len(), 0);
    recorder.draw(3, 1);
    assert!(recorder.transition(
        Tracktion::Replace { old: flags(RENDER_TARGET) },
        1,
        texture(),
        flags(SAMPLED)
    ));
    recorder.dispatch(8, 4, 2);
    let buffer = recorder.finish();
    assert_eq!(
        buffer.commands,
        vec![
            Command::Draw { vertices: 3, instances: 1 },
            Command::PipelineBarrier(make_barrier(1, texture(), flags(RENDER_TARGET), flags(SAMPLED))),
            Command::Dispatch { x: 8, y: 4, z: 2 },
        ]
    );
}

#[test]
fn use_resource_records_what_the_tracker_decides() {
    let mut tracker = UsageTracker::new(1);
    let mut recorder = CommandRecorder::new();
    let mut vertices = Resource::buffer(5, 1024);
    let mut target = Resource::texture(6, 3, 2);
    assert_eq!(vertices.full_range, ResourceRange::Buffer { size: 1024 });
    assert_eq!(target.full_range, ResourceRange::Texture { levels: 3, layers: 2 });
    assert_eq!(target.life_guard.ref_count(), 1);

    assert_eq!(
        recorder.use_resource(&mut tracker, &mut vertices, flags(COPY_DST), TrackPermit::Replace),
        Err(Error::ResourceNotTracked)
    );
    tracker.register(5, flags(0));
    tracker.register(6, flags(0));
    assert_eq!(
        recorder.use_resource(&mut tracker, &mut vertices, flags(COPY_DST), TrackPermit::Replace),
        Ok(Tracktion::Init)
    );
    assert_eq!(vertices.life_guard.ref_count(), 2);
    assert_eq!(
        recorder.use_resource(&mut tracker, &mut vertices, flags(VERTEX), TrackPermit::Extend),
        Err(Error::PermitViolation)
    );
    assert_eq!(recorder.len(), 0);
    assert_eq!(
        recorder.use_resource(&mut tracker, &mut vertices, flags(VERTEX), TrackPermit::Replace),
        Ok(Tracktion::Replace { old: flags(COPY_DST) })
    );
    assert_eq!(
        recorder.use_resource(&mut tracker, &mut vertices, flags(INDEX), TrackPermit::Extend),
        Ok(Tracktion::Extend { old: flags(VERTEX) })
    );
    assert_eq!(
        recorder.use_resource(&mut tracker, &mut target, flags(RENDER_TARGET), TrackPermit::Extend),
        Ok(Tracktion::Init)
    );
    recorder.draw(6, 1);
    assert_eq!(
        recorder.use_resource(&mut tracker, &mut target, flags(SAMPLED), TrackPermit::Replace),
        Ok(Tracktion::Replace { old: flags(RENDER_TARGET) })
    );
    assert_eq!(vertices.life_guard.ref_count(), 2);
    assert_eq!(target.life_guard.ref_count(), 2);
    let buffer = recorder.finish();
    assert_eq!(
        buffer.commands,
        vec![
            Command::PipelineBarrier(make_barrier(
                5,
                ResourceRange::Buffer { size: 1024 },
                flags(COPY_DST),
                flags(VERTEX)
            )),
            Command::Draw { vertices: 6, instances: 1 },
            Command::PipelineBarrier(make_barrier(
                6,
                ResourceRange::Texture { levels: 3, layers: 2 },
                flags(RENDER_TARGET),
                flags(SAMPLED)
            )),
        ]
    );
}
