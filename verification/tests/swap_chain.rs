use gpu_track::command::{make_barrier, Command, ResourceRange};
use gpu_track::error::Error;
use gpu_track::life::LifetimeGuard;
use gpu_track::resource::TextureFormat;
use gpu_track::swap_chain::{
    AcquireEvent, AcquiredImage, Frame, FrameSlot, FrameState, SwapChain, SwapChainDescriptor,
    SwapChainLink, WAIT_FOREVER_NS,
};
use gpu_track::track::{Track, TrackPermit, Tracktion, UsageTracker};
use gpu_track::usage::UsageFlags;
use gpu_track::usage::{PRESENT, RENDER_TARGET, SAMPLED};

fn flags(bits: u32) -> UsageFlags {
    UsageFlags::from_bits(bits)
}

fn descriptor() -> SwapChainDescriptor {
    SwapChainDescriptor {
        usage: flags(RENDER_TARGET),
        format: TextureFormat::Bgra8Unorm,
        width: 640,
        height: 480,
    }
}

fn slot(index: u64) -> FrameSlot {
    FrameSlot {
        texture_id: 100 + index,
        view_id: 200 + index,
        fence: 300 + index,
        sem_available: 400 + index,
        sem_present: 500 + index,
        command_buffer: 600 + index,
    }
}

fn chain_of(frames: u64) -> SwapChain {
    SwapChain::new(7, descriptor(), (0..frames).map(slot).collect(), 999)
}

fn tracker_for(chain: &SwapChain) -> UsageTracker {
    let mut tracker = UsageTracker::new(1);
    chain.register_frames(&mut tracker);
    tracker
}

fn texture_range() -> ResourceRange {
    ResourceRange::Texture { levels: 1, layers: 1 }
}

#[test]
fn descriptor_from_api_bits() {
    assert_eq!(
        SwapChainDescriptor::new(16, TextureFormat::Bgra8UnormSrgb, 800, 600),
        Some(SwapChainDescriptor {
            usage: flags(RENDER_TARGET),
            format: TextureFormat::Bgra8UnormSrgb,
            width: 800,
            height: 600,
        })
    );
    assert_eq!(SwapChainDescriptor::new(32, TextureFormat::Bgra8Unorm, 800, 600), None);
    assert_eq!(SwapChainDescriptor::new(16 | 64, TextureFormat::Bgra8Unorm, 800, 600), None);
}

#[test]
fn a_new_chain_has_idle_frames_in_slot_order() {
    let chain = chain_of(3);
    assert_eq!(chain.id(), 7);
    assert_eq!(chain.descriptor(), descriptor());
    assert_eq!(chain.frame_count(), 3);
    assert_eq!(chain.acquired_count(), 0);
    assert_eq!(chain.next_present(), None);
    assert_eq!(chain.acquire_semaphore(), 999);
    assert!(!chain.is_lost());
    assert_eq!(
        chain.frame(1),
        Some(Frame {
            texture_id: 101,
            view_id: 201,
            fence: 301,
            sem_available: 401,
            sem_present: 501,
            command_buffer: 601,
            link: SwapChainLink { swap_chain_id: 7, epoch: 0, image_index: 1 },
            state: FrameState::Idle,
        })
    );
    assert_eq!(chain.frame(3), None);
    assert_eq!(WAIT_FOREVER_NS, u64::MAX);
}

#[test]
fn register_frames_registers_every_texture() {
    let chain = chain_of(2);
    let mut tracker = UsageTracker::new(1);
    let mut guard = LifetimeGuard::new();
    tracker.register(50, flags(SAMPLED));
    tracker.transit(50, &mut guard, flags(SAMPLED), TrackPermit::Extend).unwrap();
    tracker.register(101, flags(SAMPLED));
    chain.register_frames(&mut tracker);
    assert_eq!(tracker.get(100), Some(Track { initial: flags(RENDER_TARGET), state: None }));
    assert_eq!(tracker.get(101), Some(Track { initial: flags(RENDER_TARGET), state: None }));
    assert_eq!(tracker.query(50), Some(flags(SAMPLED)));
    assert!(!tracker.is_registered(102));
}

#[test]
fn acquire_hands_out_the_texture_and_trades_semaphores() {
    let mut chain = chain_of(2);
    let image = chain.acquire(AcquireEvent::Image(1)).unwrap();
    assert_eq!(
        image,
        AcquiredImage {
            image_index: 1,
            texture_id: 101,
            view_id: 201,
            epoch: 1,
            semaphore: 999,
            fence: 301,
            fence_pending: false,
        }
    );
    assert_eq!(chain.acquire_semaphore(), 401);
    let frame = chain.frame(1).unwrap();
    assert_eq!(frame.sem_available, 999);
    assert_eq!(frame.sem_present, 501);
    assert_eq!(frame.fence, 301);
    assert_eq!(frame.command_buffer, 601);
    assert_eq!(frame.state, FrameState::Acquired);
    assert_eq!(frame.link, SwapChainLink { swap_chain_id: 7, epoch: 1, image_index: 1 });
    assert_eq!(chain.frame(0), Some(Frame {
        texture_id: 100,
        view_id: 200,
        fence: 300,
        sem_available: 400,
        sem_present: 500,
        command_buffer: 600,
        link: SwapChainLink { swap_chain_id: 7, epoch: 0, image_index: 0 },
        state: FrameState::Idle,
    }));
    assert_eq!(chain.acquired_count(), 1);
    assert_eq!(chain.next_present(), Some(1));
}

#[test]
fn acquire_refuses_images_it_cannot_accept() {
    let mut chain = chain_of(2);
    assert_eq!(chain.acquire(AcquireEvent::Image(2)), Err(Error::InvalidImage));
    assert_eq!(chain.acquire(AcquireEvent::Image(u32::MAX)), Err(Error::InvalidImage));
    chain.acquire(AcquireEvent::Image(0)).unwrap();
    assert_eq!(chain.acquire(AcquireEvent::Image(0)), Err(Error::InvalidImage));
    assert_eq!(chain.acquired_count(), 1);
    assert_eq!(chain.acquire_semaphore(), 400);
    assert_eq!(chain.frame(0).unwrap().link.epoch, 1);
    assert!(!chain.is_lost());
}

#[test]
fn acquire_timeout_changes_nothing() {
    let mut chain = chain_of(2);
    assert_eq!(chain.acquire(AcquireEvent::Timeout), Err(Error::Timeout));
    assert!(!chain.is_lost());
    assert_eq!(chain.acquired_count(), 0);
    assert_eq!(chain.acquire_semaphore(), 999);
    assert!(chain.acquire(AcquireEvent::Image(0)).is_ok());
}

#[test]
fn a_lost_surface_is_final() {
    for event in [AcquireEvent::SurfaceLost, AcquireEvent::OutOfDate] {
        let mut chain = chain_of(2);
        let mut tracker = tracker_for(&chain);
        let mut guard = LifetimeGuard::new();
        chain.acquire(AcquireEvent::Image(0)).unwrap();
        assert_eq!(chain.acquire(event), Err(Error::SurfaceLost));
        assert!(chain.is_lost());
        assert_eq!(chain.acquire(AcquireEvent::Image(1)), Err(Error::SurfaceLost));
        assert_eq!(chain.acquire(AcquireEvent::Timeout), Err(Error::SurfaceLost));
        assert_eq!(chain.present(&mut tracker, &mut guard).err(), Some(Error::SurfaceLost));
        assert_eq!(chain.acquired_count(), 1);
        assert_eq!(tracker.query(100), None);
        assert_eq!(chain.finish_present(true), Err(Error::SurfaceLost));
    }
}

#[test]
fn present_on_an_empty_queue_is_refused() {
    let mut chain = chain_of(2);
    let mut tracker = tracker_for(&chain);
    let mut guard = LifetimeGuard::new();
    assert_eq!(chain.present(&mut tracker, &mut guard).err(), Some(Error::NothingAcquired));
    assert_eq!(chain.acquired_count(), 0);
    assert_eq!(chain.frame(0).unwrap().link.epoch, 0);
    assert_eq!(tracker.query(100), None);
    assert_eq!(guard.ref_count(), 1);
    chain.acquire(AcquireEvent::Image(0)).unwrap();
    assert!(chain.present(&mut tracker, &mut guard).is_ok());
    assert_eq!(chain.present(&mut tracker, &mut guard).err(), Some(Error::NothingAcquired));
}

#[test]
fn present_of_an_unregistered_texture_changes_nothing() {
    let mut chain = chain_of(2);
    let mut tracker = UsageTracker::new(1);
    let mut guard = LifetimeGuard::new();
    chain.acquire(AcquireEvent::Image(0)).unwrap();
    assert_eq!(chain.present(&mut tracker, &mut guard).err(), Some(Error::ResourceNotTracked));
    assert_eq!(chain.acquired_count(), 1);
    assert_eq!(chain.next_present(), Some(0));
    assert_eq!(chain.frame(0).unwrap().link.epoch, 1);
    assert_eq!(chain.frame(0).unwrap().state, FrameState::Acquired);
    assert_eq!(guard.ref_count(), 1);
}

#[test]
fn present_of_a_rendered_texture_records_the_barrier() {
    let mut chain = chain_of(2);
    let mut tracker = tracker_for(&chain);
    let mut guard = LifetimeGuard::new();
    chain.acquire(AcquireEvent::Image(0)).unwrap();
    tracker.transit(100, &mut guard, flags(RENDER_TARGET), TrackPermit::Extend).unwrap();
    let plan = chain.present(&mut tracker, &mut guard).unwrap();
    assert_eq!(plan.image_index, 0);
    assert_eq!(plan.texture_id, 100);
    assert_eq!(plan.epoch, 2);
    assert_eq!(plan.tracktion, Tracktion::Replace { old: flags(RENDER_TARGET) });
    assert_eq!(plan.command_buffer, 600);
    assert_eq!(plan.fence, 300);
    assert_eq!(
        plan.commands.commands,
        vec![Command::PipelineBarrier(make_barrier(
            100,
            texture_range(),
            flags(RENDER_TARGET),
            flags(PRESENT)
        ))]
    );
    assert_eq!(tracker.query(100), Some(flags(PRESENT)));
    assert_eq!(chain.frame(0).unwrap().state, FrameState::Submitted);
    assert_eq!(chain.frame(0).unwrap().link.epoch, 2);
    assert_eq!(chain.acquired_count(), 0);
}

#[test]
fn present_of_a_fresh_or_presented_texture_records_nothing() {
    let mut chain = chain_of(1);
    let mut tracker = tracker_for(&chain);
    let mut guard = LifetimeGuard::new();
    chain.acquire(AcquireEvent::Image(0)).unwrap();
    let plan = chain.present(&mut tracker, &mut guard).unwrap();
    assert_eq!(plan.tracktion, Tracktion::Init);
    assert!(plan.commands.commands.is_empty());
    assert_eq!(guard.ref_count(), 2);
    assert_eq!(tracker.query(100), Some(flags(PRESENT)));
    chain.acquire(AcquireEvent::Image(0)).unwrap();
    let plan = chain.present(&mut tracker, &mut guard).unwrap();
    assert_eq!(plan.tracktion, Tracktion::Keep);
    assert!(plan.commands.commands.is_empty());
    assert_eq!(plan.epoch, 4);
    assert_eq!(guard.ref_count(), 2);
}

#[test]
fn presents_follow_the_order_of_acquires() {
    let mut chain = chain_of(4);
    let mut tracker = tracker_for(&chain);
    let mut presented = Vec::new();
    for index in [2u32, 0, 3] {
        chain.acquire(AcquireEvent::Image(index)).unwrap();
    }
    let mut guard = LifetimeGuard::new();
    presented.push(chain.present(&mut tracker, &mut guard).unwrap().image_index);
    chain.acquire(AcquireEvent::Image(1)).unwrap();
    chain.acquire(AcquireEvent::Image(2)).unwrap();
    while chain.acquired_count() > 0 {
        let mut guard = LifetimeGuard::new();
        presented.push(chain.present(&mut tracker, &mut guard).unwrap().image_index);
    }
    assert_eq!(presented, vec![2, 0, 3, 1, 2]);
}

#[test]
fn the_queue_never_outgrows_the_ring() {
    let mut chain = chain_of(3);
    for index in 0..3u32 {
        assert!(chain.acquire(AcquireEvent::Image(index)).is_ok());
        assert!(chain.acquired_count() <= chain.frame_count());
    }
    for index in 0..8u32 {
        assert_eq!(chain.acquire(AcquireEvent::Image(index)), Err(Error::InvalidImage));
        assert_eq!(chain.acquired_count(), 3);
    }
}

#[test]
fn two_frames_end_to_end() {
    let mut chain = chain_of(2);
    let mut tracker = tracker_for(&chain);
    let mut guard_a = LifetimeGuard::new();

    let a = chain.acquire(AcquireEvent::Image(0)).unwrap();
    assert_eq!(a.texture_id, 100);
    assert_eq!(a.epoch, 1);
    assert!(!a.fence_pending);

    assert_eq!(
        tracker.transit(a.texture_id, &mut guard_a, flags(RENDER_TARGET), TrackPermit::Replace),
        Ok(Tracktion::Init)
    );
    let plan = chain.present(&mut tracker, &mut guard_a).unwrap();
    assert_eq!(plan.texture_id, 100);
    assert_eq!(plan.epoch, 2);
    assert_eq!(plan.tracktion, Tracktion::Replace { old: flags(RENDER_TARGET) });
    assert_eq!(plan.commands.commands.len(), 1);
    assert_eq!(chain.finish_present(true), Ok(()));

    let b = chain.acquire(AcquireEvent::Image(1)).unwrap();
    assert_eq!(b.texture_id, 101);
    assert_eq!(b.epoch, 1);
    assert_eq!(b.fence, 301);
    assert!(!b.fence_pending);

    let again = chain.acquire(AcquireEvent::Image(0)).unwrap();
    assert_eq!(again.texture_id, 100);
    assert_eq!(again.epoch, 3);
    assert_eq!(again.fence, 300);
    assert!(again.fence_pending);
    assert_eq!(chain.acquired_count(), 2);
}

#[test]
fn a_signalled_fence_makes_the_next_wait_trivial() {
    let mut chain = chain_of(1);
    let mut tracker = tracker_for(&chain);
    let mut guard = LifetimeGuard::new();
    chain.acquire(AcquireEvent::Image(0)).unwrap();
    chain.present(&mut tracker, &mut guard).unwrap();
    chain.fence_signaled(0);
    assert_eq!(chain.frame(0).unwrap().state, FrameState::Idle);
    assert!(!chain.acquire(AcquireEvent::Image(0)).unwrap().fence_pending);
    chain.fence_signaled(0);
    assert_eq!(chain.frame(0).unwrap().state, FrameState::Acquired);
    chain.fence_signaled(5);
    assert_eq!(chain.frame_count(), 1);
}

#[test]
fn a_refused_present_call_loses_the_surface() {
    let mut chain = chain_of(1);
    assert_eq!(chain.finish_present(true), Ok(()));
    assert!(!chain.is_lost());
    assert_eq!(chain.finish_present(false), Err(Error::SurfaceLost));
    assert!(chain.is_lost());
    assert_eq!(chain.acquire(AcquireEvent::Image(0)), Err(Error::SurfaceLost));
}

#[test]
fn the_epoch_starts_again_after_its_last_value() {
    let mut chain = chain_of(1);
    let mut tracker = tracker_for(&chain);
    let mut guard = LifetimeGuard::new();
    let mut last: u16 = 0;
    for _ in 0..32768u32 {
        let image = chain.acquire(AcquireEvent::Image(0)).unwrap();
        assert_eq!(image.epoch, last.wrapping_add(1));
        last = chain.present(&mut tracker, &mut guard).unwrap().epoch;
    }
    assert_eq!(last, 0);
    assert_eq!(chain.acquire(AcquireEvent::Image(0)).unwrap().epoch, 1);
}

#[test]
fn frames_keep_what_was_allocated_for_them() {
    let mut chain = chain_of(2);
    let mut tracker = tracker_for(&chain);
    let mut guard = LifetimeGuard::new();
    for round in 0..6u32 {
        let index = round % 2;
        chain.acquire(AcquireEvent::Image(index)).unwrap();
        chain.present(&mut tracker, &mut guard).unwrap();
        for position in 0..2u32 {
            let frame = chain.frame(position).unwrap();
            let made = slot(position as u64);
            assert_eq!(frame.texture_id, made.texture_id);
            assert_eq!(frame.view_id, made.view_id);
            assert_eq!(frame.fence, made.fence);
            assert_eq!(frame.sem_present, made.sem_present);
            assert_eq!(frame.command_buffer, made.command_buffer);
        }
    }
    let mut semaphores = vec![
        chain.acquire_semaphore(),
        chain.frame(0).unwrap().sem_available,
        chain.frame(1).unwrap().sem_available,
    ];
    semaphores.sort();
    assert_eq!(semaphores, vec![400, 401, 999]);
}

#[test]
fn a_cycle_makes_captured_links_stale() {
    let mut chain = chain_of(2);
    let mut tracker = tracker_for(&chain);
    let mut guard = LifetimeGuard::new();
    let idle = chain.frame(0).unwrap().link;
    let other = chain.frame(1).unwrap().link;
    assert!(chain.is_current(idle));
    chain.acquire(AcquireEvent::Image(0)).unwrap();
    assert!(!chain.is_current(idle));
    assert!(chain.is_current(other));
    let acquired = chain.frame(0).unwrap().link;
    assert_eq!(acquired, SwapChainLink { swap_chain_id: 7, epoch: 1, image_index: 0 });
    assert!(chain.is_current(acquired));
    chain.present(&mut tracker, &mut guard).unwrap();
    assert!(!chain.is_current(acquired));
    assert!(chain.is_current(other));
    assert!(!chain.is_current(SwapChainLink { swap_chain_id: 8, epoch: 2, image_index: 0 }));
    assert!(!chain.is_current(SwapChainLink { swap_chain_id: 7, epoch: 0, image_index: 2 }));
    assert!(chain.is_current(SwapChainLink { swap_chain_id: 7, epoch: 2, image_index: 0 }));
}
