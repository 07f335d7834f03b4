//! The shared reading slot: a single-item, overwrite-on-publish broadcast
//! cell carrying the most recent sensor reading to any number of consumers.
//!
//! A publish never blocks and never fails; it replaces any pending value and
//! wakes every consumer that began waiting earlier. Each consumer tracks the
//! publish count it has last seen, so a wait is satisfied exactly by a
//! publish that happened after that consumer last received — a consumed
//! value is never redelivered, and intermediate values are lost, never
//! queued. Suspension is modelled cooperatively: `poll_next` returns `None`
//! where the real task would suspend until the next publish.

use vstd::prelude::*;

verus! {

/// One sensor reading: temperature in hundredths of a degree Celsius and
/// relative humidity in whole percent. Only the latest reading matters;
/// a reading has no identity or history of its own.
#[derive(Clone, Copy, Debug, PartialEq, Eq, Structural)]
pub struct TempData {
    /// Temperature in hundredths of a degree Celsius.
    pub t: i16,
    /// Relative humidity in whole percent.
    pub h: u8,
}

/// The single-slot mailbox. `seq` counts publishes since boot; `value` is
/// the latest published reading, present exactly after the first publish.
#[derive(Debug)]
pub struct ReadingSlot {
    /// The most recent published reading, if any was ever published.
    pub value: Option<TempData>,
    /// How many publishes have happened since the slot was created.
    pub seq: u64,
}

/// One consumer's view of the slot: the publish count at which it last
/// received a value (or subscribed).
#[derive(Clone, Copy, Debug, PartialEq, Eq, Structural)]
pub struct SlotConsumer {
    /// The slot's publish count when this consumer last received or subscribed.
    pub seen: u64,
}

/// A slot is well formed when it holds a value exactly after the first publish.
pub open spec fn slot_wf(s: ReadingSlot) -> bool {
    s.seq == 0 <==> s.value is None
}

/// The slot after `publish(v)`: the stored value is unconditionally replaced
/// and the publish count advances.
pub open spec fn publish_model(s: ReadingSlot, v: TempData) -> ReadingSlot {
    ReadingSlot { value: Some(v), seq: (s.seq + 1) as u64 }
}

/// A consumer's wait is satisfied exactly when a publish happened after the
/// consumer last received or subscribed.
pub open spec fn wait_ready(s: ReadingSlot, c: SlotConsumer) -> bool {
    c.seen < s.seq
}

/// The consumer after it has received the slot's pending value.
pub open spec fn received(s: ReadingSlot, c: SlotConsumer) -> SlotConsumer {
    SlotConsumer { seen: s.seq }
}

impl ReadingSlot {
    /// Create the slot, empty, before any publish. Done once at boot; the
    /// slot then lives for the whole process.
    pub fn new() -> (s: Self)
        ensures
            s.seq == 0,
            s.value is None,
            slot_wf(s),
    {
        ReadingSlot { value: None, seq: 0 }
    }

    /// Publish a reading: never blocks, never fails, overwrites any pending
    /// unread value, and wakes every consumer that was waiting (any consumer
    /// whose `seen` count is at most the old publish count is ready after).
    pub fn publish(&mut self, v: TempData)
        requires
            old(self).seq < u64::MAX,
        ensures
            *final(self) == publish_model(*old(self), v),
            final(self).value == Some(v),
            final(self).seq == old(self).seq + 1,
            slot_wf(*final(self)),
            forall|c: SlotConsumer| c.seen <= old(self).seq ==> wait_ready(*final(self), c),
    {
        self.value = Some(v);
        self.seq = self.seq + 1;
    }
}

impl SlotConsumer {
    /// Begin consuming from the slot: this consumer is satisfied only by
    /// publishes made from now on.
    pub fn subscribe(slot: &ReadingSlot) -> (c: SlotConsumer)
        ensures
            c.seen == slot.seq,
            !wait_ready(*slot, c),
    {
        SlotConsumer { seen: slot.seq }
    }

    /// One poll of the consumer's wait: returns the latest reading if one
    /// was published since this consumer last received, and `None` where the
    /// real task would suspend until the next publish. The slot itself is
    /// untouched, so every other consumer still receives the same value.
    pub fn poll_next(&mut self, slot: &ReadingSlot) -> (r: Option<TempData>)
        ensures
            wait_ready(*slot, *old(self)) ==> r == slot.value && *final(self) == received(*slot, *old(self)),
            !wait_ready(*slot, *old(self)) ==> r is None && *final(self) == *old(self),
            slot_wf(*slot) && wait_ready(*slot, *old(self)) ==> r is Some,
    {
        if self.seen < slot.seq {
            self.seen = slot.seq;
            slot.value
        } else {
            None
        }
    }
}

/// Overwrite law: publishing `v1` and then `v2` before a consumer polls
/// wakes that consumer exactly once, and delivers `v2` only — the
/// overwritten `v1` is lost, and no second wake follows.
pub proof fn lemma_slot_overwrite(s: ReadingSlot, c: SlotConsumer, v1: TempData, v2: TempData)
    requires
        c.seen == s.seq,
        s.seq + 2 <= u64::MAX,
    ensures
        ({
            let s2 = publish_model(publish_model(s, v1), v2);
            &&& wait_ready(s2, c)
            &&& s2.value == Some(v2)
            &&& !wait_ready(s2, received(s2, c))
        }),
{
}

/// Broadcast law: two consumers that begin waiting before a publish are both
/// woken by it and both receive the same published value.
pub proof fn lemma_slot_broadcast(s: ReadingSlot, c1: SlotConsumer, c2: SlotConsumer, v: TempData)
    requires
        c1.seen == s.seq,
        c2.seen == s.seq,
        s.seq < u64::MAX,
    ensures
        wait_ready(publish_model(s, v), c1),
        wait_ready(publish_model(s, v), c2),
        publish_model(s, v).value == Some(v),
{
}

/// Staleness law: a consumer that has just received suspends on its next
/// wait until a further publish — a consumed value is never redelivered.
pub proof fn lemma_slot_staleness(s: ReadingSlot, c: SlotConsumer)
    ensures
        !wait_ready(s, received(s, c)),
{
}

} // verus!
