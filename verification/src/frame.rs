use vstd::prelude::*;

verus! {

/// One captured frame: a sequence number assigned at publish time and the
/// encoded image bytes, owned by this value alone.
pub struct Image {
    pub idx: usize,
    pub data: Vec<u8>,
}

impl Image {
    pub fn new(idx: usize, data: Vec<u8>) -> (r: Image)
        ensures
            r.idx == idx,
            r.data == data,
    {
        Image { idx, data }
    }
}

/// One publish step on the abstract slot state `(sequence, bytes)`: the
/// sequence number advances by one, saturating only at the largest
/// representable value, and the bytes are replaced wholesale.
pub open spec fn publish_step(state: (nat, Seq<u8>), bytes: Seq<u8>) -> (nat, Seq<u8>) {
    (if state.0 < usize::MAX as nat { state.0 + 1 } else { state.0 }, bytes)
}

/// The abstract slot state after publishing `payloads` in order, starting
/// from the fresh state `(0, empty)`.
pub open spec fn state_after_publishes(payloads: Seq<Seq<u8>>) -> (nat, Seq<u8>)
    decreases payloads.len(),
{
    if payloads.len() == 0 {
        (0, Seq::<u8>::empty())
    } else {
        publish_step(state_after_publishes(payloads.drop_last()), payloads.last())
    }
}

/// The single shared store for the most recent frame. It keeps no history:
/// every publish overwrites the previous frame. The producer mutates it,
/// consumers read it by copy; the exclusion needed for that sharing is the
/// caller's concern and is held only around these O(1) operations.
pub struct FrameSlot {
    current: Image,
}

impl FrameSlot {
    /// The sequence number of the latest published frame; 0 means that no
    /// frame has been published yet.
    pub closed spec fn sequence(&self) -> nat {
        self.current.idx as nat
    }

    /// The bytes of the latest published frame.
    pub closed spec fn bytes(&self) -> Seq<u8> {
        self.current.data@
    }

    /// The whole abstract state: `(sequence, bytes)`.
    pub open spec fn state(&self) -> (nat, Seq<u8>) {
        (self.sequence(), self.bytes())
    }

    /// A fresh slot holds no frame: sequence 0 and empty bytes.
    pub fn new() -> (r: FrameSlot)
        ensures
            r.sequence() == 0,
            r.bytes() == Seq::<u8>::empty(),
    {
        FrameSlot { current: Image::new(0, Vec::new()) }
    }

    /// Replace the stored frame with a new one whose sequence number is one
    /// past the previous one (saturating only at the representable limit).
    /// The previous bytes are dropped: no history is retained.
    pub fn publish(&mut self, data: Vec<u8>)
        ensures
            final(self).state() == publish_step(old(self).state(), data@),
    {
        let next: usize = if self.current.idx < usize::MAX {
            self.current.idx + 1
        } else {
            self.current.idx
        };
        self.current = Image::new(next, data);
    }

    /// Read the current sequence number together with a copy of the current
    /// bytes. The two always belong to the same publish: a reader can never
    /// observe a sequence number paired with another frame's bytes.
    pub fn snapshot(&self) -> (r: (usize, Vec<u8>))
        ensures
            r.0 as nat == self.sequence(),
            r.1@ == self.bytes(),
    {
        (self.current.idx, self.current.data.clone())
    }
}

/// Law: a publish never lowers the sequence number, so the sequence numbers
/// that any reader observes over time never decrease.
pub proof fn lemma_publish_never_decreases_sequence(state: (nat, Seq<u8>), bytes: Seq<u8>)
    ensures
        publish_step(state, bytes).0 >= state.0,
{
}

/// Law: starting from a fresh slot, after the Nth publish (for N at most the
/// largest representable sequence number) the slot state — and hence any
/// snapshot of it — shows sequence N and exactly the bytes handed to the Nth
/// publish.
pub proof fn lemma_snapshot_after_nth_publish(payloads: Seq<Seq<u8>>)
    requires
        0 < payloads.len() <= usize::MAX,
    ensures
        state_after_publishes(payloads).0 == payloads.len(),
        state_after_publishes(payloads).1 == payloads.last(),
    decreases payloads.len(),
{
    if payloads.len() > 1 {
        lemma_snapshot_after_nth_publish(payloads.drop_last());
    } else {
        assert(payloads.drop_last().len() == 0);
        assert(state_after_publishes(payloads.drop_last()).0 == 0);
    }
}

} // verus!
