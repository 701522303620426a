//! The presentation loop's decisions.
//!
//! A single-threaded, event-driven loop owns the surface and the buffer
//! ring and is the sole mutator of both. The unverified shell receives
//! platform window events and exchange-channel messages, hands each one to
//! the matching method here, and performs the GPU, window and channel work
//! these decisions call for: transmitting a frame descriptor, blitting and
//! swapping, announcing a new buffer set, shutting down. Platform events
//! take priority over channel events when both are ready in one tick, and
//! the shell calls `next_send` only when the outbound channel has room, so
//! a full channel simply leaves the send pending until a later tick.

use vstd::prelude::*;

use crate::buffer::{AllocationError, Allocator};
use crate::ring::{BufferRing, SlotState};
use crate::surface::SurfaceContext;

verus! {

/// A completion notification that violates the exchange protocol. Such a
/// notification is rejected without touching any state, so the session can
/// be torn down — or later valid notifications be processed — cleanly.
#[derive(Clone, Copy, PartialEq, Eq, Structural, Debug)]
pub enum ProtocolError {
    /// A completion arrived while no buffer was in flight.
    UnexpectedCompletion,
    /// A completion named a different buffer than the one in flight:
    /// completions must arrive in the order buffers were sent.
    OutOfOrderCompletion,
}

/// Everything that can go wrong while driving the exchange.
#[derive(Clone, Copy, PartialEq, Eq, Structural, Debug)]
pub enum PipelineError {
    Protocol(ProtocolError),
    Allocation(AllocationError),
}

/// The presentation pipeline: allocator, surface, buffer ring, and the
/// session flags the loop dispatches on.
pub struct Pipeline {
    pub allocator: Allocator,
    pub surface: SurfaceContext,
    pub ring: BufferRing,
    /// A ready handle has been received from the consumer at least once and
    /// the session is up; no frame is handed out before that.
    pub consumer_ready: bool,
    /// A frame should go to the consumer as soon as the channel has room
    /// and the cursor slot is free.
    pub send_wanted: bool,
    /// The window was asked to close; nothing is handed out any more.
    pub closing: bool,
}

impl Pipeline {
    pub open spec fn wf(self) -> bool {
        &&& self.allocator.wf()
        &&& self.ring.wf()
    }

    /// Whether a send can go out right now: the session is up, a send is
    /// wanted, the loop is not closing, nothing is already in flight, and
    /// the cursor slot is free.
    pub open spec fn spec_can_dispatch(self) -> bool {
        &&& self.consumer_ready
        &&& self.send_wanted
        &&& !self.closing
        &&& !self.ring.spec_has_in_flight()
        &&& self.ring.slots@[self.ring.next_to_send as int].state == SlotState::Idle
    }

    /// Whether the local render path can take the cursor slot right now: no
    /// consumer session is up, the loop is not closing, no slot is already
    /// rendering locally, and the cursor slot is free.
    pub open spec fn spec_can_render_locally(self) -> bool {
        &&& !self.consumer_ready
        &&& !self.closing
        &&& (forall|i: int|
            0 <= i < self.ring.slots@.len() ==> (#[trigger] self.ring.slots@[i]).state
                != SlotState::RenderingLocal)
        &&& self.ring.slots@[self.ring.next_to_send as int].state == SlotState::Idle
    }

    /// Whether a completion notification for the given slot is the one the
    /// protocol expects: exactly the buffer in flight.
    pub open spec fn spec_completion_valid(self, slot: usize) -> bool {
        self.ring.spec_in_flight_is(slot as int)
    }

    /// Builds the pipeline at startup: allocates `ring_size` buffers of the
    /// negotiated format at the surface's initial size and arranges them in
    /// an all-idle ring. Succeeds exactly when the allocator admits all of
    /// them; on failure nothing is kept.
    pub fn create(
        allocator: Allocator,
        surface: SurfaceContext,
        ring_size: usize,
        width: u32,
        height: u32,
        format: crate::format::PixelFormat,
    ) -> (r: Result<Pipeline, AllocationError>)
        requires
            allocator.wf(),
            ring_size >= 2,
            width >= 1,
            height >= 1,
        ensures
            r is Ok <==> allocator.spec_can_allocate(width, height, format)
                && allocator.next_handle + ring_size <= u64::MAX,
            match r {
                Ok(p) => {
                    &&& p.wf()
                    &&& p.ring.slots@.len() == ring_size
                    &&& forall|i: int|
                        0 <= i < ring_size ==> (#[trigger] p.ring.slots@[i]).state
                            == SlotState::Idle && !p.ring.slots@[i].stale
                            && p.ring.slots@[i].buffer.width == width
                            && p.ring.slots@[i].buffer.height == height
                            && p.ring.slots@[i].buffer.format == format
                    &&& p.ring.next_to_send == 0
                    &&& p.ring.pending_present is None
                    &&& p.ring.width == width
                    &&& p.ring.height == height
                    &&& p.ring.format == format
                    &&& p.surface == surface
                    &&& p.allocator.device == allocator.device
                    &&& p.allocator.next_handle == allocator.next_handle + ring_size
                    &&& !p.consumer_ready
                    &&& !p.send_wanted
                    &&& !p.closing
                },
                Err(e) => e == if !allocator.spec_can_allocate(width, height, format) {
                    allocator.spec_alloc_error(width, height, format)
                } else {
                    AllocationError::OutOfMemory
                },
            },
    {
        let ghost a0 = allocator;
        let mut alloc = allocator;
        let available = match &alloc.device {
            Some(d) => crate::format::contains_format(&d.formats, format) && width >= 1 && width
                <= d.max_extent && height >= 1 && height <= d.max_extent,
            None => false,
        };
        if !available || alloc.next_handle > u64::MAX - ring_size as u64 {
            let e = match &alloc.device {
                None => AllocationError::DeviceUnavailable,
                Some(d) => {
                    if !crate::format::contains_format(&d.formats, format) {
                        AllocationError::UnsupportedFormat
                    } else {
                        AllocationError::OutOfMemory
                    }
                },
            };
            return Err(e);
        }
        let mut bufs: Vec<crate::buffer::FrameBuffer> = Vec::new();
        let mut i: usize = 0;
        while i < ring_size
            invariant
                0 <= i <= ring_size,
                ring_size >= 2,
                width >= 1,
                height >= 1,
                bufs@.len() == i,
                alloc.wf(),
                alloc.device == a0.device,
                alloc.next_handle == a0.next_handle + i,
                a0.spec_can_allocate(width, height, format),
                a0.next_handle + ring_size <= u64::MAX,
                forall|j: int|
                    0 <= j < i ==> (#[trigger] bufs@[j]).wf() && bufs@[j].width == width
                        && bufs@[j].height == height && bufs@[j].format == format,
            decreases ring_size - i,
        {
            let b = match alloc.allocate(width, height, format) {
                Ok(b) => b,
                Err(e) => {
                    proof {
                        assert(false);
                    }
                    return Err(e);
                },
            };
            bufs.push(b);
            i += 1;
        }
        let ring = BufferRing::new(bufs, width, height, format);
        Ok(
            Pipeline {
                allocator: alloc,
                surface,
                ring,
                consumer_ready: false,
                send_wanted: false,
                closing: false,
            },
        )
    }

    /// Records that the consumer registered a display and is ready to take
    /// frames: the session comes up and a frame is wanted on the wire.
    pub fn consumer_ready(&mut self)
        requires
            old(self).wf(),
        ensures
            final(self).wf(),
            final(self).consumer_ready,
            final(self).send_wanted,
            final(self).closing == old(self).closing,
            final(self).ring == old(self).ring,
            final(self).allocator == old(self).allocator,
            final(self).surface == old(self).surface,
    {
        self.consumer_ready = true;
        self.send_wanted = true;
    }

    /// Records that the consumer went away. Not an error: the session goes
    /// down, the in-flight handoff (if any) is silently abandoned, and no
    /// frame is wanted until a consumer registers again. A frame already
    /// returned stays queued and is still presented.
    pub fn consumer_disconnected(&mut self)
        requires
            old(self).wf(),
        ensures
            final(self).wf(),
            !final(self).consumer_ready,
            !final(self).send_wanted,
            final(self).closing == old(self).closing,
            final(self).allocator == old(self).allocator,
            final(self).surface == old(self).surface,
            final(self).ring.slots@.len() == old(self).ring.slots@.len(),
            !final(self).ring.spec_has_in_flight(),
            forall|i: int|
                0 <= i < old(self).ring.slots@.len() ==> if old(self).ring.slots@[i].state
                    == SlotState::SentToConsumer {
                    (#[trigger] final(self).ring.slots@[i]).state == SlotState::Idle
                        && final(self).ring.slots@[i].buffer == old(self).ring.slots@[i].buffer
                        && final(self).ring.slots@[i].stale == old(self).ring.slots@[i].stale
                } else {
                    final(self).ring.slots@[i] == old(self).ring.slots@[i]
                },
            final(self).ring.pending_present == old(self).ring.pending_present,
            final(self).ring.next_to_send == old(self).ring.next_to_send,
            final(self).ring.width == old(self).ring.width,
            final(self).ring.height == old(self).ring.height,
            final(self).ring.format == old(self).ring.format,
    {
        self.ring.drop_in_flight();
        self.consumer_ready = false;
        self.send_wanted = false;
    }

    /// Records that the window was asked to close: the loop winds down and
    /// hands nothing out any more. The shell releases the surface and the
    /// allocator and signals the session closed.
    pub fn close(&mut self)
        requires
            old(self).wf(),
        ensures
            final(self).wf(),
            final(self).closing,
            final(self).consumer_ready == old(self).consumer_ready,
            final(self).send_wanted == old(self).send_wanted,
            final(self).ring == old(self).ring,
            final(self).allocator == old(self).allocator,
            final(self).surface == old(self).surface,
    {
        self.closing = true;
    }

    /// Decides whether a frame goes on the wire now. When the session is up,
    /// a send is wanted, nothing is in flight and the cursor slot is free,
    /// the cursor slot goes in flight and its index is returned; the shell
    /// transmits that slot's descriptor and handles. A cursor slot left
    /// stale by a resize or a dropped session is first replaced at the
    /// ring's current size; only that replacement can fail, changing
    /// nothing.
    pub fn next_send(&mut self) -> (r: Result<Option<usize>, AllocationError>)
        requires
            old(self).wf(),
        ensures
            final(self).wf(),
            r is Err ==> *final(self) == *old(self),
            r is Err <==> old(self).spec_can_dispatch() && old(self).ring.slots@[old(
                self,
            ).ring.next_to_send as int].stale && !old(self).allocator.spec_can_allocate(
                old(self).ring.width,
                old(self).ring.height,
                old(self).ring.format,
            ),
            match r {
                Ok(Some(k)) => {
                    &&& old(self).spec_can_dispatch()
                    &&& k == old(self).ring.next_to_send
                    &&& final(self).ring.slots@.len() == old(self).ring.slots@.len()
                    &&& final(self).ring.spec_in_flight_is(k as int)
                    &&& final(self).ring.slots@[k as int].state == SlotState::SentToConsumer
                    &&& !final(self).ring.slots@[k as int].stale
                    &&& final(self).ring.slots@[k as int].buffer.width == old(self).ring.width
                    &&& final(self).ring.slots@[k as int].buffer.height == old(self).ring.height
                    &&& final(self).ring.slots@[k as int].buffer.format == old(self).ring.format
                    &&& (!old(self).ring.slots@[k as int].stale ==> final(self).ring.slots@[
                        k as int].buffer == old(self).ring.slots@[k as int].buffer)
                    &&& forall|i: int|
                        0 <= i < old(self).ring.slots@.len() && i != k ==> final(self).ring.slots@[i] == old(self).ring.slots@[i]
                    &&& final(self).ring.next_to_send == (k + 1) % (
                    old(self).ring.slots@.len() as int)
                    &&& final(self).ring.pending_present == old(self).ring.pending_present
                    &&& final(self).ring.width == old(self).ring.width
                    &&& final(self).ring.height == old(self).ring.height
                    &&& final(self).ring.format == old(self).ring.format
                    &&& !final(self).send_wanted
                    &&& final(self).consumer_ready == old(self).consumer_ready
                    &&& final(self).closing == old(self).closing
                    &&& final(self).surface == old(self).surface
                    &&& final(self).allocator.device == old(self).allocator.device
                },
                Ok(None) => *final(self) == *old(self) && !old(self).spec_can_dispatch(),
                Err(e) => e == old(self).allocator.spec_alloc_error(
                    old(self).ring.width,
                    old(self).ring.height,
                    old(self).ring.format,
                ),
            },
    {
        if !self.consumer_ready || !self.send_wanted || self.closing {
            return Ok(None);
        }
        if self.ring.in_flight_slot().is_some() {
            return Ok(None);
        }
        let k = self.ring.next_to_send;
        if !(self.ring.slots[k].state == SlotState::Idle) {
            return Ok(None);
        }
        if self.ring.slots[k].stale {
            let b = match self.allocator.allocate(
                self.ring.width,
                self.ring.height,
                self.ring.format,
            ) {
                Ok(b) => b,
                Err(e) => {
                    return Err(e);
                },
            };
            self.ring.refresh_idle(k, b);
        }
        let sent = self.ring.mark_sent();
        self.send_wanted = false;
        Ok(Some(sent))
    }

    /// Takes the consumer's completion notification for the given slot.
    /// Completions are consumed strictly in send order; with one buffer in
    /// flight at a time, only the in-flight slot's completion is valid. Any
    /// other notification is a protocol error and leaves the whole pipeline
    /// untouched, so the state is never corrupted and later valid
    /// notifications still process. A valid completion queues the frame for
    /// presentation and asks for the next send — unless the buffer went
    /// stale meanwhile, in which case its content is discarded and the slot
    /// is reallocated at the current size, as promised for resizes that
    /// overlap an in-flight frame. Returns whether the frame was queued.
    pub fn frame_done(&mut self, slot: usize) -> (r: Result<bool, PipelineError>)
        requires
            old(self).wf(),
        ensures
            final(self).wf(),
            r is Err ==> *final(self) == *old(self),
            r is Ok <==> old(self).spec_completion_valid(slot) && (old(self).ring.slots@[
                slot as int].stale ==> old(self).allocator.spec_can_allocate(
                old(self).ring.width,
                old(self).ring.height,
                old(self).ring.format,
            )),
            match r {
                Ok(queued) => {
                    &&& queued == !old(self).ring.slots@[slot as int].stale
                    &&& final(self).ring.slots@.len() == old(self).ring.slots@.len()
                    &&& (queued ==> {
                        &&& final(self).ring.slots@[slot as int].state
                            == SlotState::ReturnedByConsumer
                        &&& final(self).ring.slots@[slot as int].buffer == old(self).ring.slots@[
                            slot as int].buffer
                        &&& final(self).ring.pending_present == Some(slot)
                        &&& (match old(self).ring.pending_present {
                            Some(j) => j != slot && final(self).ring.slots@[j as int].state
                                == SlotState::Idle,
                            None => true,
                        })
                        &&& forall|i: int|
                            0 <= i < old(self).ring.slots@.len() && i != slot && old(
                                self,
                            ).ring.pending_present != Some(i as usize) ==> final(self).ring.slots@[i] == old(self).ring.slots@[i]
                        &&& final(self).allocator == old(self).allocator
                    })
                    &&& (!queued ==> {
                        &&& final(self).ring.slots@[slot as int].state == SlotState::Idle
                        &&& !final(self).ring.slots@[slot as int].stale
                        &&& final(self).ring.slots@[slot as int].buffer.wf()
                        &&& final(self).ring.slots@[slot as int].buffer.width == old(
                            self,
                        ).ring.width
                        &&& final(self).ring.slots@[slot as int].buffer.height == old(
                            self,
                        ).ring.height
                        &&& final(self).ring.slots@[slot as int].buffer.format == old(
                            self,
                        ).ring.format
                        &&& final(self).ring.pending_present == old(self).ring.pending_present
                        &&& forall|i: int|
                            0 <= i < old(self).ring.slots@.len() && i != slot ==> final(self).ring.slots@[i] == old(self).ring.slots@[i]
                        &&& final(self).allocator.device == old(self).allocator.device
                    })
                    &&& !final(self).ring.spec_has_in_flight()
                    &&& final(self).ring.next_to_send == old(self).ring.next_to_send
                    &&& final(self).ring.width == old(self).ring.width
                    &&& final(self).ring.height == old(self).ring.height
                    &&& final(self).ring.format == old(self).ring.format
                    &&& final(self).send_wanted
                    &&& final(self).consumer_ready == old(self).consumer_ready
                    &&& final(self).closing == old(self).closing
                    &&& final(self).surface == old(self).surface
                },
                Err(PipelineError::Protocol(pe)) => {
                    &&& !old(self).spec_completion_valid(slot)
                    &&& pe == if !old(self).ring.spec_has_in_flight() {
                        ProtocolError::UnexpectedCompletion
                    } else {
                        ProtocolError::OutOfOrderCompletion
                    }
                },
                Err(PipelineError::Allocation(ae)) => {
                    &&& old(self).spec_completion_valid(slot)
                    &&& old(self).ring.slots@[slot as int].stale
                    &&& ae == old(self).allocator.spec_alloc_error(
                        old(self).ring.width,
                        old(self).ring.height,
                        old(self).ring.format,
                    )
                },
            },
    {
        let expected = self.ring.in_flight_slot();
        let k = match expected {
            None => {
                return Err(PipelineError::Protocol(ProtocolError::UnexpectedCompletion));
            },
            Some(k) => k,
        };
        if slot != k {
            return Err(PipelineError::Protocol(ProtocolError::OutOfOrderCompletion));
        }
        if self.ring.slots[k].stale {
            let b = match self.allocator.allocate(
                self.ring.width,
                self.ring.height,
                self.ring.format,
            ) {
                Ok(b) => b,
                Err(e) => {
                    return Err(PipelineError::Allocation(e));
                },
            };
            self.ring.retire_stale(k, b);
            self.send_wanted = true;
            proof {
                assert forall|i: int|
                    0 <= i < self.ring.slots@.len() implies (#[trigger] self.ring.slots@[i]).state
                    != SlotState::SentToConsumer by {
                    if self.ring.slots@[i].state == SlotState::SentToConsumer {
                        assert(old(self).ring.slots@[i].state == SlotState::SentToConsumer);
                        assert(old(self).ring.slots@[k as int].state
                            == SlotState::SentToConsumer);
                        assert(i == k as int);
                    }
                }
            }
            Ok(false)
        } else {
            let _dropped = self.ring.mark_returned(k);
            self.send_wanted = true;
            let n = self.ring.slots.len();
            proof {
                assert forall|i: int|
                    0 <= i < self.ring.slots@.len() implies (#[trigger] self.ring.slots@[i]).state
                    != SlotState::SentToConsumer by {
                    assert(self.ring.slots@.len() == n);
                    if i == k as int {
                        assert(self.ring.slots@[i].state == SlotState::ReturnedByConsumer);
                    } else if old(self).ring.pending_present == Some(i as usize) {
                        let j = old(self).ring.pending_present->Some_0;
                        assert(self.ring.slots@[j as int].state == SlotState::Idle);
                        assert(j as int == i);
                        assert(self.ring.slots@[i].state == SlotState::Idle);
                    } else {
                        assert(self.ring.slots@[i] == old(self).ring.slots@[i]);
                        if self.ring.slots@[i].state == SlotState::SentToConsumer {
                            assert(old(self).ring.slots@[i].state == SlotState::SentToConsumer);
                            assert(old(self).ring.slots@[k as int].state
                                == SlotState::SentToConsumer);
                            assert(i == k as int);
                        }
                    }
                }
            }
            Ok(true)
        }
    }

    /// Takes the queued frame, if any, into presentation on a redraw
    /// opportunity: the returned slot is the one the shell now blits onto
    /// the surface and swaps. Nothing happens while another slot is still
    /// presenting — at most one slot presents at a time — or while no frame
    /// is queued.
    pub fn begin_present(&mut self) -> (r: Option<usize>)
        requires
            old(self).wf(),
        ensures
            final(self).wf(),
            match r {
                Some(k) => {
                    &&& !old(self).ring.spec_has_presenting()
                    &&& old(self).ring.pending_present == Some(k)
                    &&& final(self).ring.slots@.len() == old(self).ring.slots@.len()
                    &&& final(self).ring.slots@[k as int].state == SlotState::Presenting
                    &&& final(self).ring.slots@[k as int].buffer == old(self).ring.slots@[
                        k as int].buffer
                    &&& !final(self).ring.slots@[k as int].stale
                    &&& final(self).ring.slots@[k as int].buffer.width == old(self).ring.width
                    &&& final(self).ring.slots@[k as int].buffer.height == old(self).ring.height
                    &&& final(self).ring.pending_present is None
                    &&& forall|i: int|
                        0 <= i < old(self).ring.slots@.len() && i != k ==> final(self).ring.slots@[i] == old(self).ring.slots@[i]
                    &&& final(self).ring.next_to_send == old(self).ring.next_to_send
                    &&& final(self).ring.width == old(self).ring.width
                    &&& final(self).ring.height == old(self).ring.height
                    &&& final(self).ring.format == old(self).ring.format
                    &&& final(self).allocator == old(self).allocator
                    &&& final(self).surface == old(self).surface
                    &&& final(self).consumer_ready == old(self).consumer_ready
                    &&& final(self).send_wanted == old(self).send_wanted
                    &&& final(self).closing == old(self).closing
                },
                None => *final(self) == *old(self) && (old(self).ring.spec_has_presenting() || old(
                    self,
                ).ring.pending_present is None),
            },
    {
        match self.ring.find_state(SlotState::Presenting) {
            Some(_) => None,
            None => self.ring.begin_present(),
        }
    }

    /// Returns a presented slot to the pool once the swap has completed.
    /// Reports whether the slot was indeed presenting; when it was not —
    /// for instance because a resize replaced it meanwhile — nothing
    /// changes.
    pub fn presented(&mut self, slot: usize) -> (r: bool)
        requires
            old(self).wf(),
        ensures
            final(self).wf(),
            r <==> slot < old(self).ring.slots@.len() && old(self).ring.slots@[slot as int].state
                == SlotState::Presenting,
            r ==> {
                &&& final(self).ring.slots@.len() == old(self).ring.slots@.len()
                &&& final(self).ring.slots@[slot as int].state == SlotState::Idle
                &&& final(self).ring.slots@[slot as int].buffer == old(self).ring.slots@[
                    slot as int].buffer
                &&& forall|i: int|
                    0 <= i < old(self).ring.slots@.len() && i != slot ==> final(self).ring.slots@[i] == old(self).ring.slots@[i]
                &&& final(self).ring.pending_present == old(self).ring.pending_present
                &&& final(self).ring.next_to_send == old(self).ring.next_to_send
                &&& final(self).ring.width == old(self).ring.width
                &&& final(self).ring.height == old(self).ring.height
                &&& final(self).ring.format == old(self).ring.format
                &&& final(self).allocator == old(self).allocator
                &&& final(self).surface == old(self).surface
                &&& final(self).consumer_ready == old(self).consumer_ready
                &&& final(self).send_wanted == old(self).send_wanted
                &&& final(self).closing == old(self).closing
            },
            !r ==> *final(self) == *old(self),
    {
        if slot < self.ring.slots.len() {
            if self.ring.slots[slot].state == SlotState::Presenting {
                self.ring.finish_present(slot);
                return true;
            }
        }
        false
    }

    /// Applies a window resize or scale change. The surface and the ring
    /// move to the new size: every slot not in flight is reallocated at the
    /// new size immediately, under the same negotiated format; a slot in
    /// flight keeps its buffer until its completion arrives and is only
    /// marked stale; the queued frame, now outdated, is discarded. On
    /// success the shell announces the new buffer set to the consumer
    /// before any further frame goes out. The replacement is all-or-
    /// nothing: on allocation failure the pipeline is left exactly as it
    /// was and the error is surfaced as fatal.
    pub fn resize(&mut self, width: u32, height: u32) -> (r: Result<(), AllocationError>)
        requires
            old(self).wf(),
        ensures
            final(self).wf(),
            r is Ok <==> old(self).allocator.spec_can_allocate(
                width,
                height,
                old(self).ring.format,
            ) && old(self).allocator.next_handle + old(self).ring.spec_replaced_count()
                <= u64::MAX,
            // whatever the outcome, a slot in flight keeps its buffer: it is
            // never deallocated before its completion arrives
            forall|i: int|
                0 <= i < old(self).ring.slots@.len() && old(self).ring.slots@[i].state
                    == SlotState::SentToConsumer ==> (#[trigger] final(self).ring.slots@[i]).buffer
                    == old(self).ring.slots@[i].buffer,
            match r {
                Ok(u) => {
                    &&& final(self).allocator.next_handle == old(self).allocator.next_handle + old(
                        self,
                    ).ring.spec_replaced_count()
                    &&& final(self).surface.width == width
                    &&& final(self).surface.height == height
                    &&& final(self).surface.supports_ten_bit == old(
                        self,
                    ).surface.supports_ten_bit
                    &&& final(self).ring.width == width
                    &&& final(self).ring.height == height
                    &&& final(self).ring.format == old(self).ring.format
                    &&& final(self).ring.next_to_send == old(self).ring.next_to_send
                    &&& final(self).ring.pending_present is None
                    &&& final(self).ring.slots@.len() == old(self).ring.slots@.len()
                    &&& forall|i: int|
                        0 <= i < old(self).ring.slots@.len() ==> BufferRing::spec_resized_slot(
                            old(self).ring.slots@[i],
                            (#[trigger] final(self).ring.slots@[i]),
                            width,
                            height,
                            old(self).ring.format,
                        )
                    &&& final(self).allocator.device == old(self).allocator.device
                    &&& final(self).send_wanted == old(self).send_wanted
                    &&& final(self).consumer_ready == old(self).consumer_ready
                    &&& final(self).closing == old(self).closing
                },
                Err(e) => {
                    &&& *final(self) == *old(self)
                    &&& e == if !old(self).allocator.spec_can_allocate(
                        width,
                        height,
                        old(self).ring.format,
                    ) {
                        old(self).allocator.spec_alloc_error(width, height, old(self).ring.format)
                    } else {
                        AllocationError::OutOfMemory
                    }
                },
            },
    {
        match self.ring.apply_resize(&mut self.allocator, width, height) {
            Ok(u) => {
                self.surface.resize(width, height);
                Ok(())
            },
            Err(e) => Err(e),
        }
    }

    /// Hands the cursor slot to the local renderer for direct presentation,
    /// for the rare path where no consumer is attached: the shell renders
    /// into the returned slot, blits it, and reports back. Nothing is
    /// handed out while a consumer session is up, while closing, while a
    /// slot is already rendering locally, or while the cursor slot is busy.
    /// A stale cursor slot is first replaced; only that replacement can
    /// fail, changing nothing.
    pub fn begin_local_render(&mut self) -> (r: Result<Option<usize>, AllocationError>)
        requires
            old(self).wf(),
        ensures
            final(self).wf(),
            r is Err ==> *final(self) == *old(self),
            r is Err <==> old(self).spec_can_render_locally() && old(self).ring.slots@[old(
                self,
            ).ring.next_to_send as int].stale && !old(self).allocator.spec_can_allocate(
                old(self).ring.width,
                old(self).ring.height,
                old(self).ring.format,
            ),
            match r {
                Ok(Some(k)) => {
                    &&& old(self).spec_can_render_locally()
                    &&& k == old(self).ring.next_to_send
                    &&& final(self).ring.slots@.len() == old(self).ring.slots@.len()
                    &&& final(self).ring.slots@[k as int].state == SlotState::RenderingLocal
                    &&& !final(self).ring.slots@[k as int].stale
                    &&& final(self).ring.slots@[k as int].buffer.width == old(self).ring.width
                    &&& final(self).ring.slots@[k as int].buffer.height == old(self).ring.height
                    &&& forall|i: int|
                        0 <= i < old(self).ring.slots@.len() && i != k ==> final(self).ring.slots@[i] == old(self).ring.slots@[i]
                    &&& final(self).ring.next_to_send == (k + 1) % (
                    old(self).ring.slots@.len() as int)
                    &&& final(self).consumer_ready == old(self).consumer_ready
                    &&& final(self).send_wanted == old(self).send_wanted
                    &&& final(self).closing == old(self).closing
                    &&& final(self).surface == old(self).surface
                    &&& final(self).allocator.device == old(self).allocator.device
                },
                Ok(None) => *final(self) == *old(self) && !old(self).spec_can_render_locally(),
                Err(e) => e == old(self).allocator.spec_alloc_error(
                    old(self).ring.width,
                    old(self).ring.height,
                    old(self).ring.format,
                ),
            },
    {
        if self.consumer_ready || self.closing {
            return Ok(None);
        }
        if self.ring.find_state(SlotState::RenderingLocal).is_some() {
            return Ok(None);
        }
        let k = self.ring.next_to_send;
        if !(self.ring.slots[k].state == SlotState::Idle) {
            return Ok(None);
        }
        if self.ring.slots[k].stale {
            let b = match self.allocator.allocate(
                self.ring.width,
                self.ring.height,
                self.ring.format,
            ) {
                Ok(b) => b,
                Err(e) => {
                    return Err(e);
                },
            };
            self.ring.refresh_idle(k, b);
        }
        let local = self.ring.mark_local();
        Ok(Some(local))
    }

    /// Returns a locally rendered slot to the pool once the shell has shown
    /// its frame. Reports whether the slot was indeed rendering locally.
    pub fn local_rendered(&mut self, slot: usize) -> (r: bool)
        requires
            old(self).wf(),
        ensures
            final(self).wf(),
            r <==> slot < old(self).ring.slots@.len() && old(self).ring.slots@[slot as int].state
                == SlotState::RenderingLocal,
            r ==> {
                &&& final(self).ring.slots@.len() == old(self).ring.slots@.len()
                &&& final(self).ring.slots@[slot as int].state == SlotState::Idle
                &&& forall|i: int|
                    0 <= i < old(self).ring.slots@.len() && i != slot ==> final(self).ring.slots@[i] == old(self).ring.slots@[i]
                &&& final(self).allocator == old(self).allocator
                &&& final(self).surface == old(self).surface
            },
            !r ==> *final(self) == *old(self),
    {
        if slot < self.ring.slots.len() {
            if self.ring.slots[slot].state == SlotState::RenderingLocal {
                self.ring.finish_local(slot);
                return true;
            }
        }
        false
    }
}

} // verus!
