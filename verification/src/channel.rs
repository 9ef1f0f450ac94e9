//! The event ingestion buffer: a one-slot mailbox that privileges freshness
//! over completeness. A push overwrites whatever the consumer has not yet
//! taken, so the consumer always observes the latest known total, though it
//! may miss superseded intermediate values.

use vstd::prelude::*;

use crate::workspace::DirectoryEvent;

verus! {

/// A bounded buffer of capacity one with send-coalescing: a newer event
/// silently replaces an unconsumed older one.
pub struct CoalescingSlot {
    slot: Option<DirectoryEvent>,
}

impl View for CoalescingSlot {
    type V = Option<DirectoryEvent>;

    closed spec fn view(&self) -> Option<DirectoryEvent> {
        self.slot
    }
}

impl CoalescingSlot {
    /// An empty slot: nothing has been pushed yet.
    pub fn new() -> (s: CoalescingSlot)
        ensures
            s@ is None,
    {
        CoalescingSlot { slot: None }
    }

    /// Deliver an event, dropping any event the consumer has not taken yet:
    /// after a push the slot holds exactly the newest event, whatever it
    /// held before.
    pub fn push(&mut self, event: DirectoryEvent)
        ensures
            final(self)@ == Some(event),
    {
        self.slot = Some(event);
    }

    /// Consume whatever the slot holds, leaving it empty.
    pub fn take(&mut self) -> (event: Option<DirectoryEvent>)
        ensures
            event == old(self)@,
            final(self)@ is None,
    {
        let event = self.slot;
        self.slot = None;
        event
    }
}

} // verus!
