//! The correlator: the registry that matches a response to its pending call.

use crate::errors::{RTDError, RTDErrorView};
use crate::frame::Frame;
use crate::text::same_text;
use vstd::prelude::*;

verus! {

/// The delivery cell of one pending call: the token it is registered under,
/// and the response once it has arrived.
#[derive(Debug)]
pub struct PendingSlot {
    token: String,
    frame: Option<Frame>,
}

/// What the reader of a slot finds.
#[derive(Debug, PartialEq, Eq)]
pub enum SlotPoll {
    /// The slot is registered and no response has arrived yet.
    Pending,
    /// The response; the slot is consumed with it.
    Ready(Frame),
    /// No slot is registered under the token: the call was cancelled.
    Cancelled,
}

/// The registry of pending calls. Under each correlation token there is at
/// most one slot. Once closed, a registry holds no waiting slot and takes no
/// new registration.
#[derive(Debug)]
pub struct Correlator {
    slots: Vec<PendingSlot>,
    closed: bool,
}

/// No two slots are registered under the same token.
spec fn distinct(slots: Seq<PendingSlot>) -> bool {
    forall|i: int, j: int|
        0 <= i < slots.len() && 0 <= j < slots.len() && i != j ==> (#[trigger] slots[i]).token@
            != (#[trigger] slots[j]).token@
}

/// Every slot holds a response.
spec fn all_delivered(slots: Seq<PendingSlot>) -> bool {
    forall|i: int| 0 <= i < slots.len() ==> (#[trigger] slots[i]).frame is Some
}

/// Whether the slot at an index is registered under a token.
spec fn at(slots: Seq<PendingSlot>, i: int, token: Seq<char>) -> bool {
    0 <= i < slots.len() && slots[i].token@ == token
}

/// Whether some slot is registered under a token.
spec fn registered(slots: Seq<PendingSlot>, token: Seq<char>) -> bool {
    exists|i: int| at(slots, i, token)
}

/// The registry as a map from tokens to what their slots hold.
spec fn slot_map(slots: Seq<PendingSlot>) -> Map<Seq<char>, Option<Frame>> {
    Map::new(
        |token: Seq<char>| registered(slots, token),
        |token: Seq<char>| slots[choose|i: int| at(slots, i, token)].frame,
    )
}

/// With distinct tokens, a slot found under a token is the slot of the map.
proof fn lemma_slot_of(slots: Seq<PendingSlot>, i: int)
    requires
        distinct(slots),
        0 <= i < slots.len(),
    ensures
        slot_map(slots).contains_key(slots[i].token@),
        slot_map(slots)[slots[i].token@] == slots[i].frame,
{
    let token = slots[i].token@;
    assert(at(slots, i, token));
    let j = choose|j: int| at(slots, j, token);
    assert(at(slots, j, token));
    assert(i == j);
}

/// Registering a fresh token adds its entry to the map.
proof fn lemma_push(slots: Seq<PendingSlot>, slot: PendingSlot)
    requires
        distinct(slots),
        !registered(slots, slot.token@),
    ensures
        distinct(slots.push(slot)),
        slot_map(slots.push(slot)) == slot_map(slots).insert(slot.token@, slot.frame),
{
    let after = slots.push(slot);
    assert forall|i: int, j: int|
        0 <= i < after.len() && 0 <= j < after.len() && i != j implies (#[trigger] after[i]).token@
        != (#[trigger] after[j]).token@ by {
        if i < slots.len() {
            assert(at(slots, i, after[i].token@));
        }
        if j < slots.len() {
            assert(at(slots, j, after[j].token@));
        }
    }
    let wanted = slot_map(slots).insert(slot.token@, slot.frame);
    assert forall|token: Seq<char>| slot_map(after).contains_key(token) <==> wanted.contains_key(
        token,
    ) by {
        if registered(after, token) {
            let i = choose|i: int| at(after, i, token);
            if i < slots.len() {
                assert(at(slots, i, token));
            }
        }
        if registered(slots, token) {
            let i = choose|i: int| at(slots, i, token);
            assert(at(after, i, token));
        }
        assert(at(after, slots.len() as int, slot.token@));
    }
    assert forall|token: Seq<char>| slot_map(after).contains_key(token) implies slot_map(
        after,
    )[token] == wanted[token] by {
        let i = choose|i: int| at(after, i, token);
        lemma_slot_of(after, i);
        if i < slots.len() {
            lemma_slot_of(slots, i);
        }
    }
    assert(slot_map(after) =~= wanted);
}

/// Taking a slot out removes its entry from the map.
proof fn lemma_remove(slots: Seq<PendingSlot>, i: int)
    requires
        distinct(slots),
        0 <= i < slots.len(),
    ensures
        distinct(slots.remove(i)),
        slot_map(slots.remove(i)) == slot_map(slots).remove(slots[i].token@),
        !registered(slots.remove(i), slots[i].token@),
{
    let after = slots.remove(i);
    let gone = slots[i].token@;
    assert forall|k: int| 0 <= k < after.len() implies #[trigger] after[k] == slots[if k < i {
        k
    } else {
        k + 1
    }] by {}
    assert forall|a: int, b: int|
        0 <= a < after.len() && 0 <= b < after.len() && a != b implies (#[trigger] after[a]).token@
        != (#[trigger] after[b]).token@ by {
        let a0 = if a < i { a } else { a + 1 };
        let b0 = if b < i { b } else { b + 1 };
        assert(after[a] == slots[a0]);
        assert(after[b] == slots[b0]);
    }
    assert forall|k: int| !at(after, k, gone) by {
        if 0 <= k < after.len() {
            let k0 = if k < i { k } else { k + 1 };
            assert(after[k] == slots[k0]);
        }
    }
    let wanted = slot_map(slots).remove(gone);
    assert forall|token: Seq<char>| slot_map(after).contains_key(token) <==> wanted.contains_key(
        token,
    ) by {
        if registered(after, token) {
            let k = choose|k: int| at(after, k, token);
            let k0 = if k < i { k } else { k + 1 };
            assert(after[k] == slots[k0]);
            assert(at(slots, k0, token));
        }
        if registered(slots, token) && token != gone {
            let k0 = choose|k: int| at(slots, k, token);
            let k = if k0 < i { k0 } else { k0 - 1 };
            assert(after[k] == slots[k0]);
            assert(at(after, k, token));
        }
    }
    assert forall|token: Seq<char>| slot_map(after).contains_key(token) implies slot_map(
        after,
    )[token] == wanted[token] by {
        let k = choose|k: int| at(after, k, token);
        let k0 = if k < i { k } else { k + 1 };
        assert(after[k] == slots[k0]);
        lemma_slot_of(after, k);
        lemma_slot_of(slots, k0);
    }
    assert(slot_map(after) =~= wanted);
}

/// Whether a slot stands in a sequence at an index from `from` on.
spec fn stands_from(slots: Seq<PendingSlot>, from: int, slot: PendingSlot) -> bool {
    exists|j: int| from <= j < slots.len() && #[trigger] slots[j] == slot
}

/// Keeping the fulfilled slots of a registry, and only those, keeps the
/// delivered part of its map.
proof fn lemma_kept(before: Seq<PendingSlot>, kept: Seq<PendingSlot>)
    requires
        distinct(before),
        distinct(kept),
        forall|k: int|
            0 <= k < kept.len() ==> (#[trigger] kept[k]).frame is Some && stands_from(
                before,
                0,
                kept[k],
            ),
        forall|j: int|
            0 <= j < before.len() && (#[trigger] before[j]).frame is Some ==> stands_from(
                kept,
                0,
                before[j],
            ),
    ensures
        slot_map(kept) == delivered_only(slot_map(before)),
{
    let wanted = delivered_only(slot_map(before));
    assert forall|token: Seq<char>| slot_map(kept).contains_key(token) <==> wanted.contains_key(
        token,
    ) by {
        if registered(kept, token) {
            let k = choose|k: int| at(kept, k, token);
            assert(stands_from(before, 0, kept[k]));
            let j = choose|j: int| 0 <= j < before.len() && #[trigger] before[j] == kept[k];
            lemma_slot_of(before, j);
        }
        if wanted.contains_key(token) {
            let j = choose|j: int| at(before, j, token);
            lemma_slot_of(before, j);
            assert(stands_from(kept, 0, before[j]));
            let k = choose|k: int| 0 <= k < kept.len() && #[trigger] kept[k] == before[j];
            assert(at(kept, k, token));
        }
    }
    assert forall|token: Seq<char>| slot_map(kept).contains_key(token) implies slot_map(
        kept,
    )[token] == wanted[token] by {
        let k = choose|k: int| at(kept, k, token);
        lemma_slot_of(kept, k);
        assert(stands_from(before, 0, kept[k]));
        let j = choose|j: int| 0 <= j < before.len() && #[trigger] before[j] == kept[k];
        lemma_slot_of(before, j);
    }
    assert(slot_map(kept) =~= wanted);
}

/// Whether a registry takes a frame: the frame carries a token, and the slot
/// under that token still waits.
pub open spec fn takes(slots: Map<Seq<char>, Option<Frame>>, frame: Frame) -> bool {
    match frame@.extra {
        Some(token) => slots.contains_key(token) && slots[token] is None,
        None => false,
    }
}

/// The registry after a frame is offered to it: the frame fills the slot that
/// takes it, and nothing else changes.
pub open spec fn offered(slots: Map<Seq<char>, Option<Frame>>, frame: Frame) -> Map<
    Seq<char>,
    Option<Frame>,
> {
    if takes(slots, frame) {
        slots.insert(frame@.extra->0, Some(frame))
    } else {
        slots
    }
}

/// Whether no slot of a registry waits.
pub open spec fn none_waiting(slots: Map<Seq<char>, Option<Frame>>) -> bool {
    forall|token: Seq<char>| slots.contains_key(token) ==> (#[trigger] slots[token]) is Some
}

/// The registry after the calls that still wait are cancelled: the slots
/// that hold a response, and no others.
pub open spec fn delivered_only(slots: Map<Seq<char>, Option<Frame>>) -> Map<
    Seq<char>,
    Option<Frame>,
> {
    Map::new(
        |token: Seq<char>| slots.contains_key(token) && slots[token] is Some,
        |token: Seq<char>| slots[token],
    )
}

impl View for Correlator {
    type V = Map<Seq<char>, Option<Frame>>;

    /// Each registered token, with the response that its slot holds, or
    /// `None` while the slot waits.
    closed spec fn view(&self) -> Map<Seq<char>, Option<Frame>> {
        slot_map(self.slots@)
    }
}

impl Correlator {
    #[verifier::type_invariant]
    spec fn inv(self) -> bool {
        distinct(self.slots@) && (self.closed ==> all_delivered(self.slots@))
    }

    /// Whether the registry has been closed.
    pub closed spec fn closed(&self) -> bool {
        self.closed
    }

    /// The error that refuses a registration under a token, if one does.
    pub open spec fn subscribing(
        closed: bool,
        slots: Map<Seq<char>, Option<Frame>>,
        token: Seq<char>,
    ) -> Option<RTDErrorView> {
        if closed {
            Some(RTDErrorView::Cancelled)
        } else if slots.contains_key(token) {
            Some(RTDErrorView::AlreadySubscribed)
        } else {
            None
        }
    }

    /// A registry without registrations, open.
    pub fn new() -> (made: Self)
        ensures
            made@ == Map::<Seq<char>, Option<Frame>>::empty(),
            !made.closed(),
    {
        let made = Correlator { slots: Vec::new(), closed: false };
        assert(made@ =~= Map::<Seq<char>, Option<Frame>>::empty()) by {
            assert forall|token: Seq<char>| !registered(made.slots@, token) by {
                assert forall|i: int| !at(made.slots@, i, token) by {}
            }
        }
        made
    }

    /// Moves the slots out, leaving an empty registry behind.
    fn take_slots(&mut self) -> (slots: Vec<PendingSlot>)
        ensures
            slots == old(self).slots,
            final(self).slots@ == Seq::<PendingSlot>::empty(),
            final(self).closed == old(self).closed,
    {
        let mut slots: Vec<PendingSlot> = Vec::new();
        core::mem::swap(&mut self.slots, &mut slots);
        slots
    }

    /// Where the slot under a token stands, if one is registered.
    fn find(&self, token: &str) -> (found: Option<usize>)
        ensures
            match found {
                Some(i) => at(self.slots@, i as int, token@),
                None => !registered(self.slots@, token@),
            },
    {
        let mut i: usize = 0;
        while i < self.slots.len()
            invariant
                i <= self.slots.len(),
                forall|k: int| 0 <= k < i ==> !at(self.slots@, k, token@),
            decreases self.slots.len() - i,
        {
            if same_text(self.slots[i].token.as_str(), token) {
                return Some(i);
            }
            i += 1;
        }
        None
    }

    /// Whether the registry has been closed. In a closed registry no slot
    /// waits.
    pub fn is_closed(&self) -> (closed: bool)
        ensures
            closed == self.closed(),
            closed ==> none_waiting(self@),
    {
        proof {
            use_type_invariant(self);
            if self.closed {
                assert forall|token: Seq<char>| self@.contains_key(token) implies (
                #[trigger] self@[token]) is Some by {
                    let i = choose|i: int| at(self.slots@, i, token);
                    lemma_slot_of(self.slots@, i);
                }
            }
        }
        self.closed
    }

    /// Whether a slot is registered under the token.
    pub fn is_subscribed(&self, token: &str) -> (found: bool)
        ensures
            found == self@.contains_key(token@),
    {
        self.find(token).is_some()
    }

    /// Registers a waiting slot under a token. Fails, and changes nothing,
    /// with `Cancelled` where the registry is closed, else with
    /// `AlreadySubscribed` where the token is registered already.
    pub fn subscribe(&mut self, token: &str) -> (done: Result<(), RTDError>)
        ensures
            final(self).closed() == old(self).closed(),
            match done {
                Ok(_) => Self::subscribing(old(self).closed(), old(self)@, token@) is None
                    && final(self)@ == old(self)@.insert(token@, None),
                Err(error) => Self::subscribing(old(self).closed(), old(self)@, token@) == Some(
                    error@,
                ) && final(self)@ == old(self)@,
            },
    {
        proof {
            use_type_invariant(&*self);
        }
        if self.closed {
            return Err(RTDError::Cancelled);
        }
        match self.find(token) {
            Some(_) => Err(RTDError::AlreadySubscribed),
            None => {
                let slot = PendingSlot { token: token.to_owned(), frame: None };
                proof {
                    lemma_push(self.slots@, slot);
                }
                let mut slots = self.take_slots();
                slots.push(slot);
                self.slots = slots;
                Ok(())
            },
        }
    }

    /// Offers a frame to the registry. Where the frame carries a token and the
    /// slot under it still waits, the slot is fulfilled with the frame and
    /// `None` is returned. Any other frame comes back unchanged, to be routed
    /// elsewhere, and the registry stays as it was.
    pub fn notify(&mut self, frame: Frame) -> (unmatched: Option<Frame>)
        ensures
            final(self).closed() == old(self).closed(),
            final(self)@ == offered(old(self)@, frame),
            unmatched == if takes(old(self)@, frame) {
                None
            } else {
                Some(frame)
            },
    {
        proof {
            use_type_invariant(&*self);
        }
        let found = match frame.extra() {
            Some(token) => self.find(token),
            None => None,
        };
        match found {
            None => Some(frame),
            Some(i) => {
                proof {
                    lemma_slot_of(self.slots@, i as int);
                }
                if self.slots[i].frame.is_some() {
                    Some(frame)
                } else {
                    proof {
                        lemma_remove(self.slots@, i as int);
                    }
                    let mut slots = self.take_slots();
                    let slot = slots.remove(i);
                    let fulfilled = PendingSlot { token: slot.token, frame: Some(frame) };
                    proof {
                        lemma_push(slots@, fulfilled);
                        assert(old(self)@.remove(slot.token@).insert(slot.token@, Some(frame))
                            =~= old(self)@.insert(slot.token@, Some(frame)));
                    }
                    slots.push(fulfilled);
                    self.slots = slots;
                    None
                }
            },
        }
    }

    /// Removes the registration under a token, whatever its slot holds.
    /// Nothing happens where none is registered.
    pub fn unsubscribe(&mut self, token: &str)
        ensures
            final(self).closed() == old(self).closed(),
            final(self)@ == old(self)@.remove(token@),
    {
        proof {
            use_type_invariant(&*self);
        }
        match self.find(token) {
            None => {
                assert(old(self)@.remove(token@) =~= old(self)@);
            },
            Some(i) => {
                proof {
                    lemma_remove(self.slots@, i as int);
                }
                let mut slots = self.take_slots();
                slots.remove(i);
                self.slots = slots;
            },
        }
    }

    /// Closes the registry. Every call that still waits is cancelled: the
    /// slots without a response are removed, those that hold one stay for
    /// their readers.
    pub fn close(&mut self)
        ensures
            final(self).closed(),
            final(self)@ == delivered_only(old(self)@),
    {
        proof {
            use_type_invariant(&*self);
        }
        let mut slots = self.take_slots();
        let ghost before = slots@;
        let mut kept: Vec<PendingSlot> = Vec::new();
        while slots.len() > 0
            invariant
                distinct(before),
                distinct(kept@),
                slots@.len() <= before.len(),
                slots@ == before.take(slots@.len() as int),
                forall|k: int|
                    0 <= k < kept@.len() ==> (#[trigger] kept@[k]).frame is Some && stands_from(
                        before,
                        slots@.len() as int,
                        kept@[k],
                    ),
                forall|j: int|
                    slots@.len() <= j < before.len() && (#[trigger] before[j]).frame is Some
                        ==> stands_from(kept@, 0, before[j]),
            decreases slots.len(),
        {
            let ghost n = slots@.len() as int;
            let ghost held = kept@;
            let slot = slots.pop().unwrap();
            assert(slot == before[n - 1]);
            if slot.frame.is_some() {
                proof {
                    assert forall|k: int| !at(held, k, slot.token@) by {
                        if 0 <= k < held.len() {
                            assert(stands_from(before, n, held[k]));
                        }
                    }
                    lemma_push(held, slot);
                }
                kept.push(slot);
            }
            proof {
                assert forall|k: int| 0 <= k < kept@.len() implies (#[trigger] kept@[k]).frame
                    is Some && stands_from(before, n - 1, kept@[k]) by {
                    if k < held.len() {
                        assert(stands_from(before, n, held[k]));
                        let j = choose|j: int| n <= j < before.len() && #[trigger] before[j] == held[k];
                        assert(before[j] == kept@[k]);
                    } else {
                        assert(before[n - 1] == kept@[k]);
                    }
                }
                assert forall|j: int|
                    n - 1 <= j < before.len() && (#[trigger] before[j]).frame is Some implies stands_from(
                    kept@,
                    0,
                    before[j],
                ) by {
                    if j >= n {
                        assert(stands_from(held, 0, before[j]));
                        let k = choose|k: int| 0 <= k < held.len() && #[trigger] held[k] == before[j];
                        assert(kept@[k] == before[j]);
                    } else {
                        assert(kept@[kept@.len() - 1] == before[j]);
                    }
                }
            }
        }
        proof {
            lemma_kept(before, kept@);
        }
        self.slots = kept;
        self.closed = true;
    }

    /// Reads the slot under a token. A response is handed out once: the slot
    /// is consumed with it. A missing registration reads as cancelled. In a
    /// closed registry no slot reads as pending.
    pub fn poll(&mut self, token: &str) -> (found: SlotPoll)
        ensures
            final(self).closed() == old(self).closed(),
            old(self).closed() ==> !(found is Pending),
            match found {
                SlotPoll::Pending => old(self)@.contains_key(token@) && old(self)@[token@] is None
                    && final(self)@ == old(self)@,
                SlotPoll::Ready(frame) => old(self)@.contains_key(token@) && old(self)@[token@]
                    == Some(frame) && final(self)@ == old(self)@.remove(token@),
                SlotPoll::Cancelled => !old(self)@.contains_key(token@) && final(self)@ == old(
                    self,
                )@,
            },
    {
        proof {
            use_type_invariant(&*self);
        }
        match self.find(token) {
            None => SlotPoll::Cancelled,
            Some(i) => {
                proof {
                    lemma_slot_of(self.slots@, i as int);
                }
                if self.slots[i].frame.is_none() {
                    SlotPoll::Pending
                } else {
                    proof {
                        lemma_remove(self.slots@, i as int);
                    }
                    let mut slots = self.take_slots();
                    let slot = slots.remove(i);
                    self.slots = slots;
                    match slot.frame {
                        Some(frame) => SlotPoll::Ready(frame),
                        None => SlotPoll::Cancelled,
                    }
                }
            },
        }
    }
}

} // verus!
