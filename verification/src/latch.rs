//! The hand-off between interrupt context and the main loop.
//!
//! Each event kind gets one single-slot mailbox: a tick flag set by the timer
//! interrupt, and a key slot overwritten by the keyboard interrupt. The single
//! consumer reads and clears a slot in one step. A second key published before
//! the first is consumed silently overwrites it: the latch retains at most one
//! pending key, and the latest writer wins. No operation blocks, allocates, or
//! loops; each touches exactly one slot.

use vstd::prelude::*;

use crate::input::InputEvent;

verus! {

/// The pair of single-slot mailboxes shared by the interrupt publishers and
/// the polling consumer. One latch exists per process; it is created once at
/// start and handed by reference to both sides.
#[derive(Clone, Copy, Debug)]
pub struct EventLatch {
    /// True while a timer tick is pending and not yet consumed.
    pub ticked: bool,
    /// The most recently published keyboard event, if not yet consumed.
    pub key: Option<InputEvent>,
}

/// The latch after a timer interrupt publishes a tick: the flag is set,
/// the key slot is untouched.
pub open spec fn published_tick(l: EventLatch) -> EventLatch {
    EventLatch { ticked: true, ..l }
}

/// The latch after the consumer drains the tick flag.
pub open spec fn consumed_tick(l: EventLatch) -> EventLatch {
    EventLatch { ticked: false, ..l }
}

/// The latch after a keyboard interrupt publishes `k`: the slot holds `k`
/// and nothing else, whatever it held before.
pub open spec fn published_key(l: EventLatch, k: InputEvent) -> EventLatch {
    EventLatch { key: Some(k), ..l }
}

/// The latch after the consumer takes the key slot.
pub open spec fn consumed_key(l: EventLatch) -> EventLatch {
    EventLatch { key: None, ..l }
}

impl EventLatch {
    /// An empty latch: no tick pending, no key pending.
    pub fn new() -> (r: EventLatch)
        ensures
            r.ticked == false,
            r.key == None::<InputEvent>,
    {
        EventLatch { ticked: false, key: None }
    }

    /// Sets the tick flag. Called on every timer interrupt; a second call
    /// before consumption finds the flag already set and changes nothing.
    pub fn publish_tick(&mut self)
        ensures
            *final(self) == published_tick(*old(self)),
    {
        self.ticked = true;
    }

    /// Overwrites the key slot with `k`, discarding any unconsumed event.
    pub fn publish_key(&mut self, k: InputEvent)
        ensures
            *final(self) == published_key(*old(self), k),
    {
        self.key = Some(k);
    }

    /// Drains the tick flag, reporting whether a tick had been pending.
    pub fn consume_tick(&mut self) -> (r: bool)
        ensures
            r == old(self).ticked,
            *final(self) == consumed_tick(*old(self)),
    {
        let r = self.ticked;
        self.ticked = false;
        r
    }

    /// Takes and clears the key slot, returning the pending event if any.
    pub fn consume_key(&mut self) -> (r: Option<InputEvent>)
        ensures
            r == old(self).key,
            *final(self) == consumed_key(*old(self)),
    {
        let r = self.key;
        self.key = None;
        r
    }
}

/// Draining the tick flag is idempotent: after a publish, the first consume
/// reports the pending tick and clears the flag, so a second consume without
/// an intervening publish reports none.
pub proof fn lemma_tick_consume_idempotent(l: EventLatch)
    ensures
        published_tick(l).ticked == true,
        consumed_tick(published_tick(l)).ticked == false,
        consumed_tick(consumed_tick(published_tick(l))).ticked == false,
{
}

/// The key slot keeps only the latest writer: publishing `a` and then `b`
/// before any consume leaves exactly `b` pending, and consuming it empties
/// the slot.
pub proof fn lemma_key_latest_write_wins(l: EventLatch, a: InputEvent, b: InputEvent)
    ensures
        published_key(published_key(l, a), b).key == Some(b),
        consumed_key(published_key(published_key(l, a), b)).key == None::<InputEvent>,
{
}

} // verus!
