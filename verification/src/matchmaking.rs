//! The single-slot matchmaking queue.
//!
//! The slot holds the identity of the single outstanding challenger, or
//! nothing. A later request overwrites an earlier one — last request wins —
//! and a started game always empties the slot, whatever it held. The slot is
//! the one piece of state touched from both the command path and the
//! dispatch path; callers wrap it in their own mutual exclusion and keep the
//! read-decide-write sequence of one operation inside one critical section.

use vstd::prelude::*;
use crate::identity::PeerId;

verus! {

/// One matchmaking event as seen at the slot.
pub enum SlotOp {
    /// A `GameRequest` from the peer with this identity.
    Request { from: Seq<u8> },
    /// A `GameStart`, local or remote.
    Start,
}

/// The slot value after one event: a request seats its sender as the sole
/// challenger, a start clears the slot.
pub open spec fn slot_step(s: Option<Seq<u8>>, op: SlotOp) -> Option<Seq<u8>> {
    match op {
        SlotOp::Request { from } => Some(from),
        SlotOp::Start => None,
    }
}

/// The slot value after a sequence of events.
pub open spec fn slot_after(init: Option<Seq<u8>>, ops: Seq<SlotOp>) -> Option<Seq<u8>>
    decreases ops.len(),
{
    if ops.len() == 0 {
        init
    } else {
        slot_step(slot_after(init, ops.drop_last()), ops.last())
    }
}

/// After any sequence of events the slot is decided by the last event alone:
/// it holds at most the latest requester, and a start always leaves it
/// empty, regardless of everything before.
pub proof fn lemma_slot_last_event_decides(init: Option<Seq<u8>>, ops: Seq<SlotOp>)
    requires
        ops.len() > 0,
    ensures
        ops.last() is Start ==> slot_after(init, ops) is None,
        forall|from: Seq<u8>|
            ops.last() == (SlotOp::Request { from }) ==> slot_after(init, ops) == Some(from),
{
}

/// The single-capacity matchmaking queue: at most one waiting challenger.
pub struct MatchSlot {
    holder: Option<PeerId>,
}

impl View for MatchSlot {
    type V = Option<Seq<u8>>;

    closed spec fn view(&self) -> Option<Seq<u8>> {
        match self.holder {
            Some(p) => Some(p@),
            None => None,
        }
    }
}

/// What a local `/min` command decided.
pub enum MinDecision {
    /// The slot held a challenger: this node accepts, broadcasts
    /// `GameStart { from: self, orig_sender, game_id }`, and hosts the
    /// session itself.
    Accept { orig_sender: PeerId, game_id: u64 },
    /// The slot was empty: this node broadcasts `GameRequest` and waits.
    Queued,
}

impl MatchSlot {
    /// An empty slot.
    pub fn empty() -> (r: MatchSlot)
        ensures
            r@ is None,
    {
        MatchSlot { holder: None }
    }

    /// The waiting challenger, if any.
    pub fn current(&self) -> (r: Option<&PeerId>)
        ensures
            match r {
                Some(p) => self@ == Some(p@),
                None => self@ is None,
            },
    {
        match &self.holder {
            Some(p) => Some(p),
            None => None,
        }
    }

    /// An incoming `GameRequest`: its sender becomes the sole waiting
    /// challenger, overwriting any earlier one.
    pub fn on_game_request(&mut self, from: &PeerId)
        ensures
            final(self)@ == Some(from@),
            final(self)@ == slot_step(old(self)@, SlotOp::Request { from: from@ }),
    {
        self.holder = Some(*from);
    }

    /// A `GameStart`, seen or sent: a started game always empties the queue,
    /// even if the current holder differs from the named requester.
    pub fn on_game_start(&mut self)
        ensures
            final(self)@ is None,
            final(self)@ == slot_step(old(self)@, SlotOp::Start),
    {
        self.holder = None;
    }

    /// The local `/min` command: if a challenger waits, accept — the slot
    /// empties and the caller broadcasts the start; if the slot is empty,
    /// queue this node itself.
    pub fn local_min(&mut self, self_id: &PeerId, game_id: u64) -> (r: MinDecision)
        ensures
            match old(self)@ {
                Some(other) => final(self)@ is None && (r matches MinDecision::Accept {
                    orig_sender,
                    game_id: g,
                } && orig_sender@ == other && g == game_id),
                None => final(self)@ == Some(self_id@) && r is Queued,
            },
    {
        let cur = self.holder;
        match cur {
            Some(other) => {
                self.holder = None;
                MinDecision::Accept { orig_sender: other, game_id }
            }
            None => {
                self.holder = Some(*self_id);
                MinDecision::Queued
            }
        }
    }
}

} // verus!
