//! The mailbox: the one record through which the driver hands over events.
//!
//! The driver fills the record and raises `have_event`; this side reads
//! it under the lock and gives it back by raising `event_acked`. At most
//! one event is in the mailbox at any time.

use vstd::prelude::*;
use crate::raw_spinlock;
use crate::types::EVENT_BUFFER_BYTES;

verus! {

/// The shared record, field by field in layout order.
pub struct SharedMemRegion {
    pub spinlock: i32,
    pub event_acked: i32,
    pub have_event: i32,
    pub event_type: u32,
    pub event_buffer: Vec<u8>,
}

/// The shared record as contracts see it.
pub struct SharedMemRegionView {
    pub spinlock: i32,
    pub event_acked: i32,
    pub have_event: i32,
    pub event_type: u32,
    pub event_buffer: Seq<u8>,
}

impl View for SharedMemRegion {
    type V = SharedMemRegionView;

    open spec fn view(&self) -> SharedMemRegionView {
        SharedMemRegionView {
            spinlock: self.spinlock,
            event_acked: self.event_acked,
            have_event: self.have_event,
            event_type: self.event_type,
            event_buffer: self.event_buffer@,
        }
    }
}

impl SharedMemRegionView {
    /// The record is at rest: nobody holds the lock, both flags are 0 or
    /// 1 and the buffer has its fixed size.
    pub open spec fn wf(self) -> bool {
        &&& self.spinlock == raw_spinlock::UNLOCKED
        &&& (self.event_acked == 0 || self.event_acked == 1)
        &&& (self.have_event == 0 || self.have_event == 1)
        &&& self.event_buffer.len() == EVENT_BUFFER_BYTES
    }

    /// The record as it is when a connection opens.
    pub open spec fn fresh() -> SharedMemRegionView {
        SharedMemRegionView {
            spinlock: raw_spinlock::UNLOCKED,
            event_acked: 1,
            have_event: 0,
            event_type: 0,
            event_buffer: Seq::new(EVENT_BUFFER_BYTES as nat, |i: int| 0u8),
        }
    }

    /// The record after the driver has posted an event into it: the
    /// payload at the start of the buffer, zeroes behind it.
    pub open spec fn posted(self, event_type: u32, payload: Seq<u8>) -> SharedMemRegionView {
        SharedMemRegionView {
            spinlock: self.spinlock,
            event_acked: 0,
            have_event: 1,
            event_type,
            event_buffer: Seq::new(
                EVENT_BUFFER_BYTES as nat,
                |i: int| if i < payload.len() { payload[i] } else { 0u8 },
            ),
        }
    }

    /// The record after this side has acknowledged the pending event.
    pub open spec fn acked(self) -> SharedMemRegionView {
        SharedMemRegionView { event_acked: 1, have_event: 0, ..self }
    }
}

impl SharedMemRegion {
    /// A zeroed record with the lock free, no event pending and nothing
    /// left to acknowledge.
    pub fn new() -> (r: SharedMemRegion)
        ensures
            r@ == SharedMemRegionView::fresh(),
            r@.wf(),
    {
        let mut event_buffer: Vec<u8> = Vec::new();
        let mut i: usize = 0;
        while i < EVENT_BUFFER_BYTES
            invariant
                i <= EVENT_BUFFER_BYTES,
                event_buffer@.len() == i,
                forall|j: int| 0 <= j < i ==> event_buffer@[j] == 0u8,
            decreases EVENT_BUFFER_BYTES - i,
        {
            event_buffer.push(0u8);
            i = i + 1;
        }
        let mut r = SharedMemRegion {
            spinlock: 0,
            event_acked: 1,
            have_event: 0,
            event_type: 0,
            event_buffer,
        };
        raw_spinlock::init(&mut r.spinlock);
        assert(r@.event_buffer =~= SharedMemRegionView::fresh().event_buffer);
        r
    }

    /// Whether the record is at rest.
    pub fn is_wf(&self) -> (r: bool)
        ensures
            r == self@.wf(),
    {
        self.spinlock == raw_spinlock::UNLOCKED && (self.event_acked == 0 || self.event_acked == 1)
            && (self.have_event == 0 || self.have_event == 1) && self.event_buffer.len()
            == EVENT_BUFFER_BYTES
    }

    /// The driver's half of the protocol: puts an event into the mailbox.
    ///
    /// The driver posts only into an empty mailbox and only what fits the
    /// buffer; anything else is refused and leaves the record as it was.
    pub fn post_event(&mut self, event_type: u32, payload: &[u8]) -> (posted: bool)
        requires
            old(self)@.wf(),
        ensures
            final(self)@.wf(),
            posted == (old(self)@.have_event == 0 && payload@.len() <= EVENT_BUFFER_BYTES),
            posted ==> final(self)@ == old(self)@.posted(event_type, payload@),
            !posted ==> final(self)@ == old(self)@,
    {
        raw_spinlock::lock(&mut self.spinlock);
        if self.have_event != 0 || payload.len() > EVENT_BUFFER_BYTES {
            raw_spinlock::unlock(&mut self.spinlock);
            return false;
        }
        let mut i: usize = 0;
        while i < EVENT_BUFFER_BYTES
            invariant
                i <= EVENT_BUFFER_BYTES,
                payload@.len() <= EVENT_BUFFER_BYTES,
                self.event_buffer@.len() == EVENT_BUFFER_BYTES,
                self.spinlock == old(self).spinlock || self.spinlock == raw_spinlock::LOCKED,
                self.event_acked == old(self).event_acked,
                self.have_event == old(self).have_event,
                forall|j: int|
                    0 <= j < i ==> self.event_buffer@[j] == (if j < payload@.len() {
                        payload@[j]
                    } else {
                        0u8
                    }),
            decreases EVENT_BUFFER_BYTES - i,
        {
            let byte: u8 = if i < payload.len() { payload[i] } else { 0 };
            self.event_buffer.set(i, byte);
            i = i + 1;
        }
        self.event_type = event_type;
        self.event_acked = 0;
        self.have_event = 1;
        raw_spinlock::unlock(&mut self.spinlock);
        assert(self@.event_buffer =~= old(self)@.posted(event_type, payload@).event_buffer);
        true
    }
}

} // verus!
