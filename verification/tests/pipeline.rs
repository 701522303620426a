use kullat::buffer::{AllocationError, Allocator, DeviceCaps};
use kullat::format::{abgr8888, preferred_formats, select};
use kullat::pipeline::{Pipeline, PipelineError, ProtocolError};
use kullat::ring::SlotState;
use kullat::surface::SurfaceContext;

fn test_allocator(max_extent: u32) -> Allocator {
    Allocator::new(&vec![DeviceCaps {
        has_export_extension: true,
        formats: vec![abgr8888()],
        max_extent,
    }])
}

fn test_pipeline(width: u32, height: u32) -> Pipeline {
    let alloc = test_allocator(16384);
    let surface = SurfaceContext::create(width, height, false);
    Pipeline::create(alloc, surface, 2, width, height, abgr8888()).expect("pipeline comes up")
}

#[test]
fn create_builds_an_idle_ring() {
    let p = test_pipeline(1280, 800);
    assert_eq!(p.ring.slots.len(), 2);
    for slot in &p.ring.slots {
        assert_eq!(slot.state, SlotState::Idle);
        assert!(!slot.stale);
        assert_eq!(slot.buffer.width, 1280);
        assert_eq!(slot.buffer.height, 800);
        assert_eq!(slot.buffer.format, abgr8888());
    }
    assert_eq!(p.ring.next_to_send, 0);
    assert!(p.ring.pending_present.is_none());
    assert!(!p.consumer_ready);
}

#[test]
fn create_without_device_fails() {
    let alloc = Allocator::new(&Vec::new());
    let surface = SurfaceContext::create(64, 64, false);
    let r = Pipeline::create(alloc, surface, 2, 64, 64, abgr8888());
    assert!(matches!(r, Err(AllocationError::DeviceUnavailable)));
}

#[test]
fn nothing_is_sent_before_the_consumer_is_ready() {
    let mut p = test_pipeline(640, 480);
    assert_eq!(p.next_send(), Ok(None));
    p.consumer_ready();
    let sent = p.next_send().unwrap();
    assert_eq!(sent, Some(0));
}

#[test]
fn end_to_end_double_buffer_cycle() {
    // negotiate, send buffer 0, take its completion, expect buffer 1 on the
    // wire and buffer 0 presented on the next redraw tick, then idle again
    let desired = preferred_formats(false);
    let available = vec![abgr8888()];
    let format = select(&desired, &available).expect("a common format exists");
    let alloc = test_allocator(16384);
    let surface = SurfaceContext::create(1280, 800, false);
    let mut p = Pipeline::create(alloc, surface, 2, 1280, 800, format).unwrap();

    p.consumer_ready();
    assert_eq!(p.next_send(), Ok(Some(0)));
    assert_eq!(p.ring.slots[0].state, SlotState::SentToConsumer);

    // completion for buffer 0 arrives
    assert_eq!(p.frame_done(0), Ok(true));
    assert_eq!(p.ring.slots[0].state, SlotState::ReturnedByConsumer);
    assert_eq!(p.ring.pending_present, Some(0));

    // the pipeline immediately wants the next slot on the wire
    assert_eq!(p.next_send(), Ok(Some(1)));
    assert_eq!(p.ring.slots[1].state, SlotState::SentToConsumer);

    // next redraw tick: buffer 0 goes to presenting, then back to idle
    assert_eq!(p.begin_present(), Some(0));
    assert_eq!(p.ring.slots[0].state, SlotState::Presenting);
    assert!(p.presented(0));
    assert_eq!(p.ring.slots[0].state, SlotState::Idle);
}

#[test]
fn out_of_order_completion_is_a_protocol_error_and_harmless() {
    let mut p = test_pipeline(640, 480);
    p.consumer_ready();
    assert_eq!(p.next_send(), Ok(Some(0)));

    // a completion for the wrong buffer must be rejected...
    let r = p.frame_done(1);
    assert_eq!(r, Err(PipelineError::Protocol(ProtocolError::OutOfOrderCompletion)));

    // ...without corrupting the ring: slot 0 is still in flight
    assert_eq!(p.ring.slots[0].state, SlotState::SentToConsumer);
    assert_eq!(p.ring.slots[1].state, SlotState::Idle);

    // and the valid completion still processes afterwards
    assert_eq!(p.frame_done(0), Ok(true));
    assert_eq!(p.ring.slots[0].state, SlotState::ReturnedByConsumer);
}

#[test]
fn completion_without_anything_in_flight_is_unexpected() {
    let mut p = test_pipeline(640, 480);
    p.consumer_ready();
    let r = p.frame_done(0);
    assert_eq!(r, Err(PipelineError::Protocol(ProtocolError::UnexpectedCompletion)));
}

#[test]
fn resize_keeps_the_in_flight_buffer_and_replaces_the_rest() {
    let mut p = test_pipeline(1280, 800);
    p.consumer_ready();
    assert_eq!(p.next_send(), Ok(Some(0)));
    assert_eq!(p.frame_done(0), Ok(true));
    assert_eq!(p.next_send(), Ok(Some(1)));
    let in_flight_handles = p.ring.slots[1].buffer.handles.clone();

    // resize while buffer 1 is with the consumer
    assert_eq!(p.resize(800, 600), Ok(()));

    // buffer 0 (and the queue) is reallocated at the new size immediately
    assert_eq!(p.ring.slots[0].state, SlotState::Idle);
    assert!(!p.ring.slots[0].stale);
    assert_eq!(p.ring.slots[0].buffer.width, 800);
    assert_eq!(p.ring.slots[0].buffer.height, 600);
    assert!(p.ring.pending_present.is_none());
    assert_eq!(p.surface.width, 800);
    assert_eq!(p.surface.height, 600);

    // buffer 1 keeps its buffer until its completion arrives
    assert_eq!(p.ring.slots[1].state, SlotState::SentToConsumer);
    assert!(p.ring.slots[1].stale);
    assert_eq!(p.ring.slots[1].buffer.width, 1280);
    assert_eq!(p.ring.slots[1].buffer.handles, in_flight_handles);

    // its completion discards the stale content and reallocates the slot
    assert_eq!(p.frame_done(1), Ok(false));
    assert_eq!(p.ring.slots[1].state, SlotState::Idle);
    assert!(!p.ring.slots[1].stale);
    assert_eq!(p.ring.slots[1].buffer.width, 800);
    assert_eq!(p.ring.slots[1].buffer.height, 600);
    assert_ne!(p.ring.slots[1].buffer.handles, in_flight_handles);
    // the discarded frame was never queued for presentation
    assert!(p.ring.pending_present.is_none());
}

#[test]
fn session_close_drops_the_stale_in_flight_buffer() {
    let mut p = test_pipeline(1280, 800);
    p.consumer_ready();
    assert_eq!(p.next_send(), Ok(Some(0)));
    assert_eq!(p.resize(800, 600), Ok(()));
    assert!(p.ring.slots[0].stale);

    // the session closes before the completion arrives: the handoff is
    // abandoned and the slot's buffer replaced before its next use
    p.consumer_disconnected();
    assert_eq!(p.ring.slots[0].state, SlotState::Idle);
    assert!(p.ring.slots[0].stale);

    // a new session comes up; the cursor moved on to slot 1, which the
    // resize already replaced at the new size
    p.consumer_ready();
    assert_eq!(p.next_send(), Ok(Some(1)));
    assert_eq!(p.frame_done(1), Ok(true));

    // the dropped slot is replaced right before its next use
    assert_eq!(p.next_send(), Ok(Some(0)));
    assert!(!p.ring.slots[0].stale);
    assert_eq!(p.ring.slots[0].buffer.width, 800);
    assert_eq!(p.ring.slots[0].buffer.height, 600);
}

#[test]
fn a_late_completion_supersedes_an_unpresented_frame() {
    let mut p = test_pipeline(640, 480);
    p.consumer_ready();
    assert_eq!(p.next_send(), Ok(Some(0)));
    assert_eq!(p.frame_done(0), Ok(true));
    assert_eq!(p.next_send(), Ok(Some(1)));
    // no redraw happened yet; buffer 1 completes too
    assert_eq!(p.frame_done(1), Ok(true));
    // the newest completed frame is the one queued; the older one returned
    // to the pool unpresented
    assert_eq!(p.ring.pending_present, Some(1));
    assert_eq!(p.ring.slots[0].state, SlotState::Idle);
    assert_eq!(p.ring.slots[1].state, SlotState::ReturnedByConsumer);
}

#[test]
fn no_two_slots_present_at_once() {
    let mut p = test_pipeline(640, 480);
    p.consumer_ready();
    assert_eq!(p.next_send(), Ok(Some(0)));
    assert_eq!(p.frame_done(0), Ok(true));
    assert_eq!(p.begin_present(), Some(0));

    // while slot 0 presents, a second completed frame cannot enter
    // presentation: the redraw tick yields nothing
    assert_eq!(p.next_send(), Ok(Some(1)));
    assert_eq!(p.frame_done(1), Ok(true));
    assert_eq!(p.begin_present(), None);
    let presenting = p
        .ring
        .slots
        .iter()
        .filter(|s| s.state == SlotState::Presenting)
        .count();
    assert_eq!(presenting, 1);

    // once slot 0 is done, slot 1 presents
    assert!(p.presented(0));
    assert_eq!(p.begin_present(), Some(1));
}

#[test]
fn resize_failure_changes_nothing() {
    let mut p = test_pipeline(640, 480);
    p.consumer_ready();
    assert_eq!(p.next_send(), Ok(Some(0)));
    let handles_before: Vec<u64> = p.ring.slots.iter().flat_map(|s| s.buffer.handles.clone()).collect();

    // the device cannot allocate this extent: the ring must stay as it was
    let r = p.resize(1_000_000, 1_000_000);
    assert_eq!(r, Err(AllocationError::OutOfMemory));
    let handles_after: Vec<u64> = p.ring.slots.iter().flat_map(|s| s.buffer.handles.clone()).collect();
    assert_eq!(handles_before, handles_after);
    assert_eq!(p.ring.width, 640);
    assert_eq!(p.ring.height, 480);
    assert_eq!(p.surface.width, 640);
    assert_eq!(p.ring.slots[0].state, SlotState::SentToConsumer);
    assert!(!p.ring.slots[0].stale);
}

#[test]
fn closing_stops_all_sends() {
    let mut p = test_pipeline(640, 480);
    p.consumer_ready();
    p.close();
    assert!(p.closing);
    assert_eq!(p.next_send(), Ok(None));
}

#[test]
fn local_rendering_runs_only_without_a_consumer() {
    let mut p = test_pipeline(640, 480);

    // no consumer attached: frames render directly
    let slot = p.begin_local_render().unwrap();
    assert_eq!(slot, Some(0));
    assert_eq!(p.ring.slots[0].state, SlotState::RenderingLocal);
    // only one slot renders locally at a time
    assert_eq!(p.begin_local_render(), Ok(None));
    assert!(p.local_rendered(0));
    assert_eq!(p.ring.slots[0].state, SlotState::Idle);

    // with a consumer session up, the local path stays off
    p.consumer_ready();
    assert_eq!(p.begin_local_render(), Ok(None));
}

#[test]
fn failed_reallocation_on_completion_is_fatal_and_harmless() {
    let mut p = test_pipeline(1280, 800);
    p.consumer_ready();
    assert_eq!(p.next_send(), Ok(Some(0)));
    assert_eq!(p.resize(800, 600), Ok(()));
    assert!(p.ring.slots[0].stale);

    // exhaust the handle numbers: the stale slot cannot be replaced
    p.allocator.next_handle = u64::MAX;
    let r = p.frame_done(0);
    assert_eq!(r, Err(PipelineError::Allocation(AllocationError::OutOfMemory)));
    // nothing changed: the slot still awaits replacement
    assert_eq!(p.ring.slots[0].state, SlotState::SentToConsumer);
    assert!(p.ring.slots[0].stale);
}

#[test]
fn failed_refresh_before_send_is_fatal_and_harmless() {
    let mut p = test_pipeline(1280, 800);
    p.consumer_ready();
    assert_eq!(p.next_send(), Ok(Some(0)));
    assert_eq!(p.resize(800, 600), Ok(()));
    p.consumer_disconnected();
    assert!(p.ring.slots[0].stale);
    assert_eq!(p.ring.slots[0].state, SlotState::Idle);

    // the cursor reaches the dropped slot, but its replacement cannot be
    // allocated any more
    p.consumer_ready();
    assert_eq!(p.next_send(), Ok(Some(1)));
    assert_eq!(p.frame_done(1), Ok(true));
    p.allocator.next_handle = u64::MAX;
    assert_eq!(p.next_send(), Err(AllocationError::OutOfMemory));
    assert_eq!(p.ring.slots[0].state, SlotState::Idle);
    assert!(p.ring.slots[0].stale);
}

#[test]
fn round_robin_rotates_through_the_ring() {
    let mut p = test_pipeline(640, 480);
    p.consumer_ready();
    for expected in [0usize, 1, 0, 1] {
        let sent = p.next_send().unwrap();
        assert_eq!(sent, Some(expected));
        assert_eq!(p.frame_done(expected), Ok(true));
        let k = p.begin_present().unwrap();
        assert!(p.presented(k));
    }
}
