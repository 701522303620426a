//! The buffer ring: a fixed pool of frame buffer slots and their ownership.
//!
//! Each slot's buffer is owned at any instant by exactly one party, recorded
//! in the slot's state: resting in the pool, being rendered locally, in
//! flight to the consumer, returned and queued for presentation, or being
//! presented. The ring keeps a round-robin cursor for the slot least
//! recently sent, and remembers at most one slot queued for presentation.
//! The central invariants: at most one slot is in flight to the consumer, at
//! most one is queued, and at most one is presenting at any point.

use vstd::prelude::*;

use crate::buffer::FrameBuffer;
use crate::format::PixelFormat;

verus! {

/// Who owns a slot's buffer at this instant.
#[derive(Clone, Copy, PartialEq, Eq, Structural, Debug)]
pub enum SlotState {
    /// In the pool, free to be handed out.
    Idle,
    /// Being rendered into locally; used only while no consumer is attached.
    RenderingLocal,
    /// Handed to the remote consumer, awaiting its completion notification.
    SentToConsumer,
    /// Returned by the consumer, queued for presentation.
    ReturnedByConsumer,
    /// Being copied onto the surface and swapped.
    Presenting,
}

/// One ring slot: the buffer, who owns it, and whether its content or
/// dimensions are out of date (after a resize or a dropped session) so that
/// it must be replaced before its next use.
pub struct Slot {
    pub state: SlotState,
    pub buffer: FrameBuffer,
    pub stale: bool,
}

/// The fixed-size pool of frame buffers cycled between local rendering,
/// the remote consumer, and presentation.
pub struct BufferRing {
    pub slots: Vec<Slot>,
    /// Round-robin cursor: the slot least recently handed out.
    pub next_to_send: usize,
    /// The slot queued for presentation, if any.
    pub pending_present: Option<usize>,
    /// Current buffer dimensions; every non-stale slot matches them.
    pub width: u32,
    pub height: u32,
    /// The negotiated format; fixed for the ring's whole life.
    pub format: PixelFormat,
}

impl BufferRing {
    /// At most one slot is in the given state.
    pub open spec fn at_most_one_in(self, s: SlotState) -> bool {
        forall|i: int, j: int|
            0 <= i < self.slots@.len() && 0 <= j < self.slots@.len() && (#[trigger] self.slots@[i]).state
                == s && (#[trigger] self.slots@[j]).state == s ==> i == j
    }

    /// The ring's invariant.
    pub open spec fn wf(self) -> bool {
        &&& self.slots@.len() >= 2
        &&& self.next_to_send < self.slots@.len()
        &&& self.width >= 1
        &&& self.height >= 1
        &&& self.at_most_one_in(SlotState::Presenting)
        &&& self.at_most_one_in(SlotState::SentToConsumer)
        &&& self.at_most_one_in(SlotState::ReturnedByConsumer)
        &&& self.at_most_one_in(SlotState::RenderingLocal)
        &&& match self.pending_present {
            Some(k) => k < self.slots@.len() && self.slots@[k as int].state
                == SlotState::ReturnedByConsumer,
            None => forall|i: int|
                0 <= i < self.slots@.len() ==> (#[trigger] self.slots@[i]).state
                    != SlotState::ReturnedByConsumer,
        }
        &&& forall|i: int|
            0 <= i < self.slots@.len() ==> (#[trigger] self.slots@[i]).buffer.wf()
        &&& forall|i: int|
            0 <= i < self.slots@.len() ==> (#[trigger] self.slots@[i]).buffer.format == self.format
        &&& forall|i: int|
            0 <= i < self.slots@.len() && !(#[trigger] self.slots@[i]).stale ==> self.slots@[i].buffer.width
                == self.width && self.slots@[i].buffer.height == self.height
        &&& forall|i: int|
            0 <= i < self.slots@.len() && (#[trigger] self.slots@[i]).stale ==> self.slots@[i].state
                == SlotState::SentToConsumer || self.slots@[i].state == SlotState::Idle
    }

    /// Whether some slot is in flight to the consumer.
    pub open spec fn spec_has_in_flight(self) -> bool {
        exists|i: int|
            0 <= i < self.slots@.len() && (#[trigger] self.slots@[i]).state
                == SlotState::SentToConsumer
    }

    /// Whether the given slot is the one in flight.
    pub open spec fn spec_in_flight_is(self, k: int) -> bool {
        &&& 0 <= k < self.slots@.len()
        &&& self.slots@[k].state == SlotState::SentToConsumer
    }

    /// Whether some slot is being presented.
    pub open spec fn spec_has_presenting(self) -> bool {
        exists|i: int|
            0 <= i < self.slots@.len() && (#[trigger] self.slots@[i]).state == SlotState::Presenting
    }

    /// Builds a ring from freshly allocated buffers: every slot idle and
    /// current, the cursor on slot zero, nothing queued for presentation.
    pub fn new(buffers: Vec<FrameBuffer>, width: u32, height: u32, format: PixelFormat) -> (r:
        BufferRing)
        requires
            buffers@.len() >= 2,
            width >= 1,
            height >= 1,
            forall|i: int| 0 <= i < buffers@.len() ==> (#[trigger] buffers@[i]).wf(),
            forall|i: int| 0 <= i < buffers@.len() ==> (#[trigger] buffers@[i]).format == format,
            forall|i: int|
                0 <= i < buffers@.len() ==> (#[trigger] buffers@[i]).width == width && buffers@[i].height
                    == height,
        ensures
            r.wf(),
            r.slots@.len() == buffers@.len(),
            forall|i: int|
                0 <= i < buffers@.len() ==> (#[trigger] r.slots@[i]).state == SlotState::Idle
                    && !r.slots@[i].stale && r.slots@[i].buffer == buffers@[i],
            r.next_to_send == 0,
            r.pending_present is None,
            r.width == width,
            r.height == height,
            r.format == format,
    {
        let ghost orig = buffers@;
        let mut rest = buffers;
        let mut slots: Vec<Slot> = Vec::new();
        while rest.len() > 0
            invariant
                slots@.len() + rest@.len() == orig.len(),
                forall|i: int|
                    0 <= i < slots@.len() ==> (#[trigger] slots@[i]).state == SlotState::Idle
                        && !slots@[i].stale && slots@[i].buffer == orig[i],
                forall|i: int| 0 <= i < rest@.len() ==> rest@[i] == orig[slots@.len() + i],
            decreases rest@.len(),
        {
            let b = rest.remove(0);
            slots.push(Slot { state: SlotState::Idle, buffer: b, stale: false });
        }
        BufferRing { slots, next_to_send: 0, pending_present: None, width, height, format }
    }

    /// Hands the cursor slot to the consumer: the slot least recently sent
    /// goes in flight and the cursor advances round-robin. Nothing else
    /// moves.
    pub fn mark_sent(&mut self) -> (k: usize)
        requires
            old(self).wf(),
            !old(self).spec_has_in_flight(),
            old(self).slots@[old(self).next_to_send as int].state == SlotState::Idle,
            !old(self).slots@[old(self).next_to_send as int].stale,
        ensures
            final(self).wf(),
            k == old(self).next_to_send,
            final(self).slots@.len() == old(self).slots@.len(),
            final(self).slots@[k as int].state == SlotState::SentToConsumer,
            final(self).slots@[k as int].buffer == old(self).slots@[k as int].buffer,
            !final(self).slots@[k as int].stale,
            forall|i: int|
                0 <= i < old(self).slots@.len() && i != k ==> final(self).slots@[i] == old(
                    self,
                ).slots@[i],
            final(self).next_to_send == (old(self).next_to_send + 1) % (
            old(self).slots@.len() as int),
            final(self).pending_present == old(self).pending_present,
            final(self).width == old(self).width,
            final(self).height == old(self).height,
            final(self).format == old(self).format,
    {
        let k = self.next_to_send;
        let n = self.slots.len();
        let slot = &mut self.slots[k];
        slot.state = SlotState::SentToConsumer;
        self.next_to_send = if k + 1 == n {
            0
        } else {
            k + 1
        };
        proof {
            if k + 1 == n {
                vstd::arithmetic::div_mod::lemma_mod_self_0(n as int);
            } else {
                vstd::arithmetic::div_mod::lemma_small_mod((k + 1) as nat, n as nat);
            }
        }
        k
    }

    /// Finds the slot currently in flight to the consumer, if any.
    pub fn in_flight_slot(&self) -> (r: Option<usize>)
        ensures
            match r {
                Some(k) => self.spec_in_flight_is(k as int),
                None => !self.spec_has_in_flight(),
            },
    {
        let mut i: usize = 0;
        while i < self.slots.len()
            invariant
                0 <= i <= self.slots@.len(),
                forall|j: int|
                    0 <= j < i ==> (#[trigger] self.slots@[j]).state != SlotState::SentToConsumer,
            decreases self.slots@.len() - i,
        {
            if matches!(self.slots[i].state, SlotState::SentToConsumer) {
                return Some(i);
            }
            i += 1;
        }
        None
    }

    /// Accepts the consumer's completion of the in-flight slot: the slot is
    /// queued for presentation. A frame that was still queued and never
    /// presented is dropped back to the pool, so the queue holds the newest
    /// completed frame; the dropped slot's index is returned.
    pub fn mark_returned(&mut self, k: usize) -> (dropped: Option<usize>)
        requires
            old(self).wf(),
            old(self).spec_in_flight_is(k as int),
            !old(self).slots@[k as int].stale,
        ensures
            final(self).wf(),
            final(self).slots@.len() == old(self).slots@.len(),
            final(self).slots@[k as int].state == SlotState::ReturnedByConsumer,
            final(self).slots@[k as int].buffer == old(self).slots@[k as int].buffer,
            !final(self).slots@[k as int].stale,
            final(self).pending_present == Some(k),
            dropped == old(self).pending_present,
            match old(self).pending_present {
                Some(j) => j != k && final(self).slots@[j as int].state == SlotState::Idle
                    && final(self).slots@[j as int].buffer == old(self).slots@[j as int].buffer
                    && final(self).slots@[j as int].stale == old(self).slots@[j as int].stale,
                None => true,
            },
            forall|i: int|
                0 <= i < old(self).slots@.len() && i != k && old(self).pending_present != Some(
                    i as usize,
                ) ==> final(self).slots@[i] == old(self).slots@[i],
            final(self).next_to_send == old(self).next_to_send,
            final(self).width == old(self).width,
            final(self).height == old(self).height,
            final(self).format == old(self).format,
    {
        let dropped = self.pending_present;
        match dropped {
            Some(j) => {
                let stale_queue = &mut self.slots[j];
                stale_queue.state = SlotState::Idle;
            },
            None => {},
        }
        let slot = &mut self.slots[k];
        slot.state = SlotState::ReturnedByConsumer;
        self.pending_present = Some(k);
        dropped
    }

    /// Accepts the consumer's completion of an in-flight slot whose buffer
    /// went stale meanwhile: its content is discarded rather than queued,
    /// and the slot rejoins the pool with the given replacement buffer,
    /// allocated at the ring's current size.
    pub fn retire_stale(&mut self, k: usize, replacement: FrameBuffer)
        requires
            old(self).wf(),
            old(self).spec_in_flight_is(k as int),
            old(self).slots@[k as int].stale,
            replacement.wf(),
            replacement.format == old(self).format,
            replacement.width == old(self).width,
            replacement.height == old(self).height,
        ensures
            final(self).wf(),
            final(self).slots@.len() == old(self).slots@.len(),
            final(self).slots@[k as int].state == SlotState::Idle,
            !final(self).slots@[k as int].stale,
            final(self).slots@[k as int].buffer == replacement,
            forall|i: int|
                0 <= i < old(self).slots@.len() && i != k ==> final(self).slots@[i] == old(
                    self,
                ).slots@[i],
            final(self).pending_present == old(self).pending_present,
            final(self).next_to_send == old(self).next_to_send,
            final(self).width == old(self).width,
            final(self).height == old(self).height,
            final(self).format == old(self).format,
    {
        let slot = &mut self.slots[k];
        slot.state = SlotState::Idle;
        slot.stale = false;
        slot.buffer = replacement;
    }

    /// Replaces the buffer of an idle slot whose content or dimensions went
    /// stale, bringing the slot back to current.
    pub fn refresh_idle(&mut self, k: usize, replacement: FrameBuffer)
        requires
            old(self).wf(),
            k < old(self).slots@.len(),
            old(self).slots@[k as int].state == SlotState::Idle,
            replacement.wf(),
            replacement.format == old(self).format,
            replacement.width == old(self).width,
            replacement.height == old(self).height,
        ensures
            final(self).wf(),
            final(self).slots@.len() == old(self).slots@.len(),
            final(self).slots@[k as int].state == SlotState::Idle,
            !final(self).slots@[k as int].stale,
            final(self).slots@[k as int].buffer == replacement,
            forall|i: int|
                0 <= i < old(self).slots@.len() && i != k ==> final(self).slots@[i] == old(
                    self,
                ).slots@[i],
            final(self).pending_present == old(self).pending_present,
            final(self).next_to_send == old(self).next_to_send,
            final(self).width == old(self).width,
            final(self).height == old(self).height,
            final(self).format == old(self).format,
    {
        let slot = &mut self.slots[k];
        slot.stale = false;
        slot.buffer = replacement;
    }

    /// Finds a slot in the given state, if one exists.
    pub fn find_state(&self, s: SlotState) -> (r: Option<usize>)
        ensures
            match r {
                Some(k) => k < self.slots@.len() && self.slots@[k as int].state == s,
                None => forall|i: int|
                    0 <= i < self.slots@.len() ==> (#[trigger] self.slots@[i]).state != s,
            },
    {
        let mut i: usize = 0;
        while i < self.slots.len()
            invariant
                0 <= i <= self.slots@.len(),
                forall|j: int| 0 <= j < i ==> (#[trigger] self.slots@[j]).state != s,
            decreases self.slots@.len() - i,
        {
            if self.slots[i].state == s {
                return Some(i);
            }
            i += 1;
        }
        None
    }

    /// Hands the cursor slot to the local renderer, for the rare path where
    /// no consumer is attached and frames are rendered directly. The cursor
    /// advances round-robin; only one slot renders locally at a time.
    pub fn mark_local(&mut self) -> (k: usize)
        requires
            old(self).wf(),
            forall|i: int|
                0 <= i < old(self).slots@.len() ==> (#[trigger] old(self).slots@[i]).state
                    != SlotState::RenderingLocal,
            old(self).slots@[old(self).next_to_send as int].state == SlotState::Idle,
            !old(self).slots@[old(self).next_to_send as int].stale,
        ensures
            final(self).wf(),
            k == old(self).next_to_send,
            final(self).slots@.len() == old(self).slots@.len(),
            final(self).slots@[k as int].state == SlotState::RenderingLocal,
            final(self).slots@[k as int].buffer == old(self).slots@[k as int].buffer,
            !final(self).slots@[k as int].stale,
            forall|i: int|
                0 <= i < old(self).slots@.len() && i != k ==> final(self).slots@[i] == old(
                    self,
                ).slots@[i],
            final(self).next_to_send == (old(self).next_to_send + 1) % (
            old(self).slots@.len() as int),
            final(self).pending_present == old(self).pending_present,
            final(self).width == old(self).width,
            final(self).height == old(self).height,
            final(self).format == old(self).format,
    {
        let k = self.next_to_send;
        let n = self.slots.len();
        let slot = &mut self.slots[k];
        slot.state = SlotState::RenderingLocal;
        self.next_to_send = if k + 1 == n {
            0
        } else {
            k + 1
        };
        proof {
            if k + 1 == n {
                vstd::arithmetic::div_mod::lemma_mod_self_0(n as int);
            } else {
                vstd::arithmetic::div_mod::lemma_small_mod((k + 1) as nat, n as nat);
            }
        }
        k
    }

    /// Returns a locally rendered slot to the pool once the shell has shown
    /// its frame.
    pub fn finish_local(&mut self, k: usize)
        requires
            old(self).wf(),
            k < old(self).slots@.len(),
            old(self).slots@[k as int].state == SlotState::RenderingLocal,
        ensures
            final(self).wf(),
            final(self).slots@.len() == old(self).slots@.len(),
            final(self).slots@[k as int].state == SlotState::Idle,
            final(self).slots@[k as int].buffer == old(self).slots@[k as int].buffer,
            final(self).slots@[k as int].stale == old(self).slots@[k as int].stale,
            forall|i: int|
                0 <= i < old(self).slots@.len() && i != k ==> final(self).slots@[i] == old(
                    self,
                ).slots@[i],
            final(self).pending_present == old(self).pending_present,
            final(self).next_to_send == old(self).next_to_send,
            final(self).width == old(self).width,
            final(self).height == old(self).height,
            final(self).format == old(self).format,
    {
        let slot = &mut self.slots[k];
        slot.state = SlotState::Idle;
    }

    /// Takes the queued slot, if any, into presentation. At most one slot
    /// presents at a time, so none may be presenting when this is called.
    pub fn begin_present(&mut self) -> (r: Option<usize>)
        requires
            old(self).wf(),
            !old(self).spec_has_presenting(),
        ensures
            final(self).wf(),
            r == old(self).pending_present,
            final(self).slots@.len() == old(self).slots@.len(),
            match r {
                Some(k) => {
                    &&& final(self).slots@[k as int].state == SlotState::Presenting
                    &&& final(self).slots@[k as int].buffer == old(self).slots@[k as int].buffer
                    &&& !final(self).slots@[k as int].stale
                    &&& final(self).pending_present is None
                    &&& forall|i: int|
                        0 <= i < old(self).slots@.len() && i != k ==> final(self).slots@[i] == old(
                            self,
                        ).slots@[i]
                },
                None => *final(self) == *old(self),
            },
            final(self).next_to_send == old(self).next_to_send,
            final(self).width == old(self).width,
            final(self).height == old(self).height,
            final(self).format == old(self).format,
    {
        match self.pending_present {
            Some(k) => {
                let slot = &mut self.slots[k];
                slot.state = SlotState::Presenting;
                self.pending_present = None;
                Some(k)
            },
            None => None,
        }
    }

    /// Returns a presented slot to the pool once the swap has completed.
    pub fn finish_present(&mut self, k: usize)
        requires
            old(self).wf(),
            k < old(self).slots@.len(),
            old(self).slots@[k as int].state == SlotState::Presenting,
        ensures
            final(self).wf(),
            final(self).slots@.len() == old(self).slots@.len(),
            final(self).slots@[k as int].state == SlotState::Idle,
            final(self).slots@[k as int].buffer == old(self).slots@[k as int].buffer,
            final(self).slots@[k as int].stale == old(self).slots@[k as int].stale,
            forall|i: int|
                0 <= i < old(self).slots@.len() && i != k ==> final(self).slots@[i] == old(
                    self,
                ).slots@[i],
            final(self).pending_present == old(self).pending_present,
            final(self).next_to_send == old(self).next_to_send,
            final(self).width == old(self).width,
            final(self).height == old(self).height,
            final(self).format == old(self).format,
    {
        let slot = &mut self.slots[k];
        slot.state = SlotState::Idle;
    }

    /// How a resize to the given extent leaves one slot: a slot in flight
    /// keeps its buffer and is only marked stale, every other slot rejoins
    /// the pool with a fresh buffer of the new size and the old format.
    pub open spec fn spec_resized_slot(
        before: Slot,
        after: Slot,
        width: u32,
        height: u32,
        format: PixelFormat,
    ) -> bool {
        if before.state == SlotState::SentToConsumer {
            &&& after.state == SlotState::SentToConsumer
            &&& after.stale
            &&& after.buffer == before.buffer
        } else {
            &&& after.state == SlotState::Idle
            &&& !after.stale
            &&& after.buffer.wf()
            &&& after.buffer.width == width
            &&& after.buffer.height == height
            &&& after.buffer.format == format
        }
    }

    /// How many slots a resize replaces immediately: every slot except the
    /// one in flight to the consumer.
    pub open spec fn spec_replaced_count(self) -> int {
        self.slots@.len() - if self.spec_has_in_flight() {
            1int
        } else {
            0int
        }
    }

    /// Applies a window resize to the ring: every slot not in flight is
    /// replaced right away with a buffer freshly allocated at the new size
    /// and the ring's unchanged format; an in-flight slot keeps its buffer —
    /// it stays with the consumer until its completion arrives — and is only
    /// marked stale. A queued frame's content is outdated, so the queue is
    /// emptied. The replacement is all-or-nothing: when the allocator cannot
    /// provide the new buffers, the ring and the allocator are left exactly
    /// as they were and the error is reported.
    pub fn apply_resize(
        &mut self,
        alloc: &mut crate::buffer::Allocator,
        width: u32,
        height: u32,
    ) -> (r: Result<(), crate::buffer::AllocationError>)
        requires
            old(self).wf(),
            old(alloc).wf(),
        ensures
            final(self).wf(),
            final(alloc).wf(),
            final(alloc).device == old(alloc).device,
            r is Ok <==> old(alloc).spec_can_allocate(width, height, old(self).format) && old(
                alloc,
            ).next_handle + old(self).spec_replaced_count() <= u64::MAX,
            // whatever the outcome, a slot in flight keeps its buffer: it is
            // never deallocated before its completion arrives
            forall|i: int|
                0 <= i < old(self).slots@.len() && old(self).slots@[i].state
                    == SlotState::SentToConsumer ==> (#[trigger] final(self).slots@[i]).buffer
                    == old(self).slots@[i].buffer,
            match r {
                Ok(u) => {
                    &&& final(alloc).next_handle == old(alloc).next_handle + old(
                        self,
                    ).spec_replaced_count()
                    &&& final(self).width == width
                    &&& final(self).height == height
                    &&& final(self).format == old(self).format
                    &&& final(self).next_to_send == old(self).next_to_send
                    &&& final(self).pending_present is None
                    &&& final(self).slots@.len() == old(self).slots@.len()
                    &&& forall|i: int|
                        0 <= i < old(self).slots@.len() ==> BufferRing::spec_resized_slot(
                            old(self).slots@[i],
                            (#[trigger] final(self).slots@[i]),
                            width,
                            height,
                            old(self).format,
                        )
                },
                Err(e) => {
                    &&& *final(self) == *old(self)
                    &&& *final(alloc) == *old(alloc)
                    &&& e == if !old(alloc).spec_can_allocate(width, height, old(self).format) {
                        old(alloc).spec_alloc_error(width, height, old(self).format)
                    } else {
                        crate::buffer::AllocationError::OutOfMemory
                    }
                },
            },
    {
        let n = self.slots.len();
        let in_flight = self.in_flight_slot();
        let count: usize = if in_flight.is_some() {
            n - 1
        } else {
            n
        };
        let available = match &alloc.device {
            Some(d) => crate::format::contains_format(&d.formats, self.format) && width >= 1
                && width <= d.max_extent && height >= 1 && height <= d.max_extent,
            None => false,
        };
        if !available || alloc.next_handle > u64::MAX - count as u64 {
            let e = match &alloc.device {
                None => crate::buffer::AllocationError::DeviceUnavailable,
                Some(d) => {
                    if !crate::format::contains_format(&d.formats, self.format) {
                        crate::buffer::AllocationError::UnsupportedFormat
                    } else {
                        crate::buffer::AllocationError::OutOfMemory
                    }
                },
            };
            return Err(e);
        }
        let format = self.format;
        self.width = width;
        self.height = height;
        self.pending_present = None;
        let ghost old_slots = old(self).slots@;
        let mut i: usize = 0;
        while i < n
            invariant
                0 <= i <= n,
                n == self.slots@.len(),
                n == old_slots.len(),
                n >= 2,
                old_slots == old(self).slots@,
                old(self).wf(),
                format == old(self).format,
                alloc.wf(),
                alloc.device == old(alloc).device,
                old(alloc).spec_can_allocate(width, height, old(self).format),
                width >= 1,
                height >= 1,
                self.format == old(self).format,
                self.width == width,
                self.height == height,
                self.next_to_send == old(self).next_to_send,
                self.next_to_send < n,
                self.pending_present is None,
                match in_flight {
                    Some(ks) => old(self).spec_in_flight_is(ks as int) && alloc.next_handle + (
                    (n - i) - (if i <= ks {
                        1int
                    } else {
                        0int
                    })) <= u64::MAX && alloc.next_handle == old(alloc).next_handle + (i - (
                    if ks < i {
                        1int
                    } else {
                        0int
                    })),
                    None => (forall|j: int|
                        0 <= j < n ==> (#[trigger] old_slots[j]).state
                            != SlotState::SentToConsumer) && alloc.next_handle + (n - i)
                        <= u64::MAX && alloc.next_handle == old(alloc).next_handle + i,
                },
                forall|j: int|
                    0 <= j < i ==> BufferRing::spec_resized_slot(
                        old_slots[j],
                        (#[trigger] self.slots@[j]),
                        width,
                        height,
                        old(self).format,
                    ),
                forall|j: int| i <= j < n ==> self.slots@[j] == old_slots[j],
            decreases n - i,
        {
            if matches!(self.slots[i].state, SlotState::SentToConsumer) {
                proof {
                    assert(old_slots[i as int].state == SlotState::SentToConsumer);
                    assert(old(self).slots@[i as int].state == SlotState::SentToConsumer);
                    match in_flight {
                        Some(ks) => {
                            assert(old(self).slots@[ks as int].state
                                == SlotState::SentToConsumer);
                            assert(i == ks);
                        },
                        None => {
                            assert(false);
                        },
                    }
                }
                let slot = &mut self.slots[i];
                slot.stale = true;
            } else {
                proof {
                    assert(self.slots@[i as int] == old_slots[i as int]);
                    assert(old(self).slots@[i as int].state != SlotState::SentToConsumer);
                    match in_flight {
                        Some(ks) => {
                            if i <= ks {
                                assert(old(self).slots@[ks as int].state
                                    == SlotState::SentToConsumer);
                                assert(i != ks);
                            }
                        },
                        None => {},
                    }
                    assert(alloc.next_handle < u64::MAX);
                }
                let b = match alloc.allocate(width, height, format) {
                    Ok(b) => b,
                    Err(e) => {
                        proof {
                            assert(false);
                        }
                        return Err(e);
                    },
                };
                let slot = &mut self.slots[i];
                slot.state = SlotState::Idle;
                slot.stale = false;
                slot.buffer = b;
            }
            i += 1;
        }
        Ok(())
    }

    /// Abandons the in-flight handoff when the session to the consumer goes
    /// away: the slot rejoins the pool and no completion is expected for it
    /// any more. Its staleness is kept, so a buffer outdated by a resize is
    /// still replaced before reuse.
    pub fn drop_in_flight(&mut self)
        requires
            old(self).wf(),
        ensures
            final(self).wf(),
            final(self).slots@.len() == old(self).slots@.len(),
            !final(self).spec_has_in_flight(),
            forall|i: int|
                0 <= i < old(self).slots@.len() ==> if old(self).slots@[i].state
                    == SlotState::SentToConsumer {
                    (#[trigger] final(self).slots@[i]).state == SlotState::Idle
                        && final(self).slots@[i].buffer == old(self).slots@[i].buffer
                        && final(self).slots@[i].stale == old(self).slots@[i].stale
                } else {
                    final(self).slots@[i] == old(self).slots@[i]
                },
            final(self).pending_present == old(self).pending_present,
            final(self).next_to_send == old(self).next_to_send,
            final(self).width == old(self).width,
            final(self).height == old(self).height,
            final(self).format == old(self).format,
    {
        match self.in_flight_slot() {
            Some(k) => {
                let slot = &mut self.slots[k];
                slot.state = SlotState::Idle;
            },
            None => {},
        }
    }
}

/// Two slots never present at once: in a well-formed ring of any size, any
/// two presenting slot indices name the same slot.
pub proof fn lemma_single_presenting(r: BufferRing, i: int, j: int)
    requires
        r.wf(),
        0 <= i < r.slots@.len(),
        0 <= j < r.slots@.len(),
        r.slots@[i].state == SlotState::Presenting,
        r.slots@[j].state == SlotState::Presenting,
    ensures
        i == j,
{
}

/// At most one slot is mid-transit to the consumer at a time: any two
/// in-flight slot indices name the same slot, so a completion can only ever
/// answer the one buffer that was sent — the order of completions is the
/// order of sends.
pub proof fn lemma_single_in_flight(r: BufferRing, i: int, j: int)
    requires
        r.wf(),
        r.spec_in_flight_is(i),
        r.spec_in_flight_is(j),
    ensures
        i == j,
{
}

/// The slot queued for presentation never coincides with the slot the
/// consumer is rendering into.
pub proof fn lemma_pending_not_in_flight(r: BufferRing, k: usize, j: int)
    requires
        r.wf(),
        r.pending_present == Some(k),
        r.spec_in_flight_is(j),
    ensures
        k as int != j,
{
}

} // verus!
