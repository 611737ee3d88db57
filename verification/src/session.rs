//! Per-session media slot bookkeeping: which outgoing audio slot carries
//! which remote speaker, and when to ask the browser peer for more slots.

use std::collections::HashMap;
use crate::transmit::AnswerAccepted;
use vstd::prelude::*;

verus! {

broadcast use vstd::std_specs::hash::group_hash_axioms;

/// Identifier assigned to a connected WebRTC session.
#[derive(Clone, Copy, Debug, PartialEq, Eq, Hash, Structural)]
pub struct SessionId(pub u32);

/// The slot table of a session: outgoing audio slots that carry nobody yet,
/// and the slot assigned to each remote speaker (keyed by its session id).
#[verifier::ext_equal]
pub struct SlotTable<M> {
    /// Unassigned slots, the next one to hand out last.
    pub available: Seq<M>,
    /// Slot assigned to each remote speaker.
    pub remote: Map<u32, M>,
}

impl<M> SlotTable<M> {
    /// How many remote speakers the peer can receive at once.
    pub open spec fn capacity(self) -> nat {
        self.remote.len() + self.available.len()
    }

    /// The table after looking up (or handing out) the slot of `origin`,
    /// and the slot found.
    pub open spec fn allocate(self, origin: u32) -> (SlotTable<M>, Option<M>) {
        if self.remote.contains_key(origin) {
            (self, Some(self.remote[origin]))
        } else if self.available.len() > 0 {
            let mid = self.available.last();
            (
                SlotTable { available: self.available.drop_last(), remote: self.remote.insert(origin, mid) },
                Some(mid),
            )
        } else {
            (self, None)
        }
    }

    /// The table after `origin` left: its slot, if any, is free again.
    pub open spec fn release(self, origin: u32) -> SlotTable<M> {
        if self.remote.contains_key(origin) {
            SlotTable {
                available: self.available.push(self.remote[origin]),
                remote: self.remote.remove(origin),
            }
        } else {
            self
        }
    }

    /// Every slot of the table, free or assigned.
    pub open spec fn all_slots(self) -> Set<M> {
        self.available.to_set().union(self.remote.values())
    }

    /// No slot occurs twice, neither among the free ones nor among the
    /// assigned ones nor in both.
    pub open spec fn distinct(self) -> bool {
        &&& forall|i: int, j: int|
            0 <= i < self.available.len() && 0 <= j < self.available.len() && i != j
                ==> self.available[i] != self.available[j]
        &&& forall|a: u32, b: u32|
            self.remote.contains_key(a) && self.remote.contains_key(b) && a != b
                ==> self.remote[a] != self.remote[b]
        &&& forall|a: u32, i: int|
            self.remote.contains_key(a) && 0 <= i < self.available.len() ==> self.remote[a]
                != self.available[i]
    }
}

/// How many slots to request from the peer when a speaker finds none free:
/// nothing while an offer is pending, otherwise enough to double the
/// capacity (at least two slots in all), saturating at `usize::MAX`.
pub open spec fn slots_to_request(pending: bool, capacity: nat) -> Option<nat> {
    if pending {
        None
    } else {
        let base = if capacity == 0 { 1 } else { capacity };
        let desired = if base * 2 > usize::MAX { usize::MAX as nat } else { base * 2 };
        if desired <= capacity {
            None
        } else {
            Some((desired - capacity) as nat)
        }
    }
}

/// Local SDP offer waiting for the peer's answer, with the slots it adds.
pub struct PendingNegotiation<O, M> {
    /// Handle required to accept the corresponding answer.
    pub offer: O,
    /// Slots that become usable once the answer is accepted.
    pub mids: Vec<M>,
}

/// What to do with an audio frame forwarded from another session.
#[derive(Debug)]
pub enum ForwardRoute<M> {
    /// Drop the frame: the peer is not connected, or the frame is its own.
    Drop,
    /// Write the frame to this slot.
    Write(M),
    /// No slot is free: ask the peer for this many more slots.
    RequestSlots(usize),
    /// No slot is free and no more can be requested now.
    NoSlot,
}

/// What to do with a signaling message from the client.
pub enum SignalStep<O, M> {
    /// Stop the session.
    Stop,
    /// Nothing to do.
    Ignore,
    /// An answer arrived while no offer was pending.
    UnexpectedAnswer,
    /// Accept `sdp` as the answer to the pending offer; once accepted, hand
    /// its slots to [`SessionMedia::complete_negotiation`].
    AcceptAnswer { sdp: String, pending: PendingNegotiation<O, M> },
}

/// A WebRTC event, reduced to what the session decides on.
pub enum SessionEvent<M> {
    /// The peer connected.
    Connected,
    /// ICE connectivity was lost.
    IceDisconnected,
    /// Another ICE connectivity change.
    IceStateChanged,
    /// A media line was added.
    MediaAdded { mid: M, audio: bool, sending: bool },
    /// An audio frame arrived from the peer.
    MediaData,
    /// Sender feedback or a paused stream.
    Quiet,
    /// Any other event.
    Other,
}

/// How the session loop goes on after an event.
#[derive(Clone, Copy, Debug, PartialEq, Eq, Structural)]
pub enum EventStep {
    /// Keep polling.
    Continue,
    /// Count the received frame and forward it to the room, then keep polling.
    Forward,
    /// End the session loop.
    Done,
}

/// Media slot state of one session.
pub struct SessionMedia<O, M> {
    /// Negotiated outgoing audio slots that are not assigned to a remote speaker.
    available: Vec<M>,
    /// Mapping from remote speaker sessions to their outgoing audio slot.
    remote: HashMap<u32, M>,
    /// In-flight local SDP offer.
    pending: Option<PendingNegotiation<O, M>>,
    /// How many of the peer's answers the WebRTC engine has accepted.
    accepted: Ghost<nat>,
}

impl<O, M: Copy> SessionMedia<O, M> {
    /// The slot table.
    pub closed spec fn slots(&self) -> SlotTable<M> {
        SlotTable { available: self.available@, remote: self.remote@ }
    }

    /// Whether an offer is waiting for the peer's answer.
    pub closed spec fn has_pending(&self) -> bool {
        self.pending is Some
    }

    /// The offer handle and slots of the pending negotiation.
    pub closed spec fn pending(&self) -> Option<(O, Seq<M>)> {
        match self.pending {
            Some(p) => Some((p.offer, p.mids@)),
            None => None,
        }
    }

    /// A session's table assigns slots to finitely many speakers, so the laws
    /// on slot tables that need a finite table hold of it.
    pub proof fn lemma_remote_finite(&self)
        ensures
            self.slots().remote.dom().finite(),
    {
    }

    /// How many of the peer's answers the WebRTC engine has accepted in this
    /// session; only its acknowledgement counts one more.
    pub closed spec fn answers_accepted(&self) -> nat {
        self.accepted@
    }

    /// The capacity fits a `usize`.
    pub closed spec fn wf(&self) -> bool {
        self.slots().capacity() <= usize::MAX
    }

    /// An empty slot table with no pending negotiation.
    pub fn new() -> (media: Self)
        ensures
            media.wf(),
            media.slots().available == Seq::<M>::empty(),
            media.slots().remote == Map::<u32, M>::empty(),
            media.pending() is None,
    {
        SessionMedia { available: Vec::new(), remote: HashMap::new(), pending: None, accepted: Ghost(0) }
    }

    /// Current number of remote speakers this peer can receive.
    pub fn remote_audio_capacity(&self) -> (capacity: usize)
        requires
            self.wf(),
        ensures
            capacity == self.slots().capacity(),
    {
        self.remote.len() + self.available.len()
    }

    /// Whether an offer is waiting for the peer's answer.
    pub fn negotiation_pending(&self) -> (pending: bool)
        ensures
            pending == self.has_pending(),
    {
        self.pending.is_some()
    }

    /// Record a media line added by the peer; sending audio lines become
    /// free slots.
    pub fn media_added(&mut self, mid: M, audio: bool, sending: bool)
        requires
            old(self).wf(),
            old(self).slots().capacity() < usize::MAX,
        ensures
            final(self).wf(),
            final(self).slots().remote == old(self).slots().remote,
            final(self).slots().available == if audio && sending {
                old(self).slots().available.push(mid)
            } else {
                old(self).slots().available
            },
            final(self).pending() == old(self).pending(),
    {
        if audio && sending {
            self.available.push(mid);
        }
    }

    /// Return or allocate the outgoing slot for a remote speaker.
    pub fn forwarded_audio_mid(&mut self, origin: SessionId) -> (mid: Option<M>)
        requires
            old(self).wf(),
        ensures
            final(self).wf(),
            (final(self).slots(), mid) == old(self).slots().allocate(origin.0),
            mid is None <==> (!old(self).slots().remote.contains_key(origin.0) && old(self).slots().available.len()
                == 0),
            mid matches Some(m) ==> final(self).slots().remote.contains_key(origin.0)
                && final(self).slots().remote[origin.0] == m,
            final(self).slots().capacity() == old(self).slots().capacity(),
            final(self).pending() == old(self).pending(),
            old(self).slots().distinct() ==> final(self).slots().distinct(),
    {
        proof {
            lemma_allocate_returns_slot(self.slots(), origin.0);
            lemma_allocate_keeps_capacity(self.slots(), origin.0);
            if self.slots().distinct() {
                lemma_distinct_preserved(self.slots(), origin.0);
            }
        }
        match self.remote.get(&origin.0) {
            Some(mid) => {
                return Some(*mid);
            },
            None => {},
        }
        match self.available.pop() {
            Some(mid) => {
                self.remote.insert(origin.0, mid);
                assert(self.slots() =~= old(self).slots().allocate(origin.0).0);
                Some(mid)
            },
            None => None,
        }
    }

    /// Release the outgoing slot used by a departed speaker.
    pub fn release_forwarded_audio(&mut self, origin: SessionId)
        requires
            old(self).wf(),
        ensures
            final(self).wf(),
            final(self).slots() == old(self).slots().release(origin.0),
            !old(self).slots().remote.contains_key(origin.0) ==> final(self).slots() == old(self).slots(),
            !final(self).slots().remote.contains_key(origin.0),
            final(self).slots().capacity() == old(self).slots().capacity(),
            final(self).pending() == old(self).pending(),
            old(self).slots().distinct() ==> final(self).slots().distinct(),
    {
        proof {
            lemma_release_frees_only_its_slot(self.slots(), origin.0);
            lemma_release_keeps_capacity(self.slots(), origin.0);
            if self.slots().distinct() {
                lemma_distinct_preserved(self.slots(), origin.0);
            }
        }
        match self.remote.remove(&origin.0) {
            Some(mid) => {
                self.available.push(mid);
                assert(self.slots() =~= old(self).slots().release(origin.0));
            },
            None => {},
        }
    }

    /// How many slots to request from the peer now, if any.
    pub fn plan_negotiation(&self) -> (count: Option<usize>)
        requires
            self.wf(),
        ensures
            match slots_to_request(self.has_pending(), self.slots().capacity()) {
                Some(n) => count == Some(n as usize),
                None => count is None,
            },
    {
        if self.pending.is_some() {
            return None;
        }
        let current = self.remote_audio_capacity();
        let base = if current == 0 { 1 } else { current };
        let desired = if base > usize::MAX / 2 { usize::MAX } else { base * 2 };
        if desired <= current {
            None
        } else {
            Some(desired - current)
        }
    }

    /// Route an audio frame that session `origin` forwarded to this one,
    /// whose own id is `own`; `connected` tells whether the peer is connected.
    pub fn route_forwarded_audio(&mut self, connected: bool, own: SessionId, origin: SessionId) -> (route:
        ForwardRoute<M>)
        requires
            old(self).wf(),
        ensures
            final(self).wf(),
            final(self).pending() == old(self).pending(),
            !connected || origin == own ==> final(self).slots() == old(self).slots() && route is Drop,
            connected && origin != own ==> {
                let (table, found) = old(self).slots().allocate(origin.0);
                &&& final(self).slots() == table
                &&& match found {
                    Some(mid) => route == ForwardRoute::Write(mid),
                    None => match slots_to_request(old(self).has_pending(), table.capacity()) {
                        Some(n) => route == ForwardRoute::<M>::RequestSlots(n as usize),
                        None => route is NoSlot,
                    },
                }
            },
    {
        if !connected {
            return ForwardRoute::Drop;
        }
        if origin.0 == own.0 {
            return ForwardRoute::Drop;
        }
        match self.forwarded_audio_mid(origin) {
            Some(mid) => ForwardRoute::Write(mid),
            None => match self.plan_negotiation() {
                Some(n) => ForwardRoute::RequestSlots(n),
                None => ForwardRoute::NoSlot,
            },
        }
    }

    /// Remember the offer just sent to the peer and the slots it adds.
    pub fn begin_negotiation(&mut self, offer: O, mids: Vec<M>)
        requires
            old(self).wf(),
            !old(self).has_pending(),
        ensures
            final(self).wf(),
            final(self).slots() == old(self).slots(),
            final(self).pending() == Some((offer, mids@)),
    {
        self.pending = Some(PendingNegotiation { offer, mids });
    }

    /// Take the pending negotiation, leaving none.
    pub fn take_pending(&mut self) -> (taken: Option<PendingNegotiation<O, M>>)
        requires
            old(self).wf(),
        ensures
            final(self).wf(),
            final(self).slots() == old(self).slots(),
            final(self).pending() is None,
            match taken {
                Some(p) => old(self).pending() == Some((p.offer, p.mids@)),
                None => old(self).pending() is None,
            },
    {
        self.pending.take()
    }

    /// Count the WebRTC engine's acceptance of an answer; nothing else
    /// changes.
    pub fn acknowledge(&mut self, acceptance: &AnswerAccepted)
        requires
            old(self).wf(),
        ensures
            final(self).wf(),
            final(self).slots() == old(self).slots(),
            final(self).pending() == old(self).pending(),
            final(self).answers_accepted() == old(self).answers_accepted() + 1,
    {
        proof {
            self.accepted = Ghost(self.accepted@ + 1);
        }
    }

    /// The peer accepted the slots of a negotiation: they become free slots.
    pub fn complete_negotiation(&mut self, mids: Vec<M>)
        requires
            old(self).wf(),
            old(self).slots().capacity() + mids@.len() <= usize::MAX,
        ensures
            final(self).wf(),
            final(self).slots().remote == old(self).slots().remote,
            final(self).slots().available == old(self).slots().available + mids@,
            final(self).pending() == old(self).pending(),
            final(self).answers_accepted() == old(self).answers_accepted(),
    {
        let mut mids = mids;
        self.available.append(&mut mids);
    }

    /// Decide on a signaling message from the client.
    pub fn on_signal(&mut self, message: crate::signaling::SignalMessage) -> (step: SignalStep<O, M>)
        requires
            old(self).wf(),
        ensures
            final(self).wf(),
            final(self).slots() == old(self).slots(),
            match message {
                crate::signaling::SignalMessage::Close => step is Stop && final(self).pending()
                    == old(self).pending(),
                crate::signaling::SignalMessage::Offer { .. } => step is Ignore
                    && final(self).pending() == old(self).pending(),
                crate::signaling::SignalMessage::Answer { sdp } => final(self).pending() is None
                    && match old(self).pending() {
                    None => step is UnexpectedAnswer,
                    Some((offer, mids)) => step matches SignalStep::AcceptAnswer { sdp: s, pending: p }
                        && s == sdp && p.offer == offer && p.mids@ == mids,
                },
            },
    {
        match message {
            crate::signaling::SignalMessage::Answer { sdp } => match self.take_pending() {
                Some(pending) => SignalStep::AcceptAnswer { sdp, pending },
                None => SignalStep::UnexpectedAnswer,
            },
            crate::signaling::SignalMessage::Offer { sdp: _ } => SignalStep::Ignore,
            crate::signaling::SignalMessage::Close => SignalStep::Stop,
        }
    }

    /// Handle a single WebRTC event.
    pub fn handle_event(&mut self, event: SessionEvent<M>) -> (step: EventStep)
        requires
            old(self).wf(),
            old(self).slots().capacity() < usize::MAX,
        ensures
            final(self).wf(),
            final(self).pending() == old(self).pending(),
            final(self).slots().remote == old(self).slots().remote,
            match event {
                SessionEvent::MediaAdded { mid, audio, sending } => step == EventStep::Continue
                    && final(self).slots().available == if audio && sending {
                    old(self).slots().available.push(mid)
                } else {
                    old(self).slots().available
                },
                SessionEvent::IceDisconnected => step == EventStep::Done && final(self).slots()
                    == old(self).slots(),
                SessionEvent::MediaData => step == EventStep::Forward && final(self).slots()
                    == old(self).slots(),
                _ => step == EventStep::Continue && final(self).slots() == old(self).slots(),
            },
    {
        match event {
            SessionEvent::IceDisconnected => EventStep::Done,
            SessionEvent::MediaAdded { mid, audio, sending } => {
                self.media_added(mid, audio, sending);
                EventStep::Continue
            },
            SessionEvent::MediaData => EventStep::Forward,
            _ => EventStep::Continue,
        }
    }
}

/// Looking up a speaker's slot always answers with the slot the speaker
/// holds afterwards: its existing slot, or else the most recently freed one.
/// Nothing is found, and nothing changes, only when the speaker holds no slot
/// and none is free.
pub proof fn lemma_allocate_returns_slot<M>(table: SlotTable<M>, origin: u32)
    ensures
        table.allocate(origin).1 is None <==> (!table.remote.contains_key(origin) && table.available.len() == 0),
        table.allocate(origin).1 is None ==> table.allocate(origin).0 == table,
        table.allocate(origin).0.remote.contains_key(origin) ==> table.allocate(origin).1 == Some(
            table.allocate(origin).0.remote[origin],
        ),
        table.allocate(origin).1 is Some ==> table.allocate(origin).0.remote.contains_key(origin),
        table.remote.contains_key(origin) ==> table.allocate(origin).0 == table && table.allocate(origin).1
            == Some(table.remote[origin]),
        !table.remote.contains_key(origin) && table.available.len() > 0 ==> {
            let (after, found) = table.allocate(origin);
            &&& found == Some(table.available[table.available.len() - 1])
            &&& after.available == table.available.subrange(0, table.available.len() - 1)
            &&& after.remote.dom() == table.remote.dom().insert(origin)
            &&& forall|k: u32| #[trigger] table.remote.contains_key(k) ==> after.remote[k] == table.remote[k]
        },
{
}

/// Releasing a speaker frees exactly the slot it held and nothing else: a
/// speaker without a slot changes nothing, no speaker is ever added, the
/// departed one holds no slot afterwards, and every other speaker keeps its
/// slot.
pub proof fn lemma_release_frees_only_its_slot<M>(table: SlotTable<M>, origin: u32)
    ensures
        !table.remote.contains_key(origin) ==> table.release(origin) == table,
        table.release(origin).remote.dom() == table.remote.dom().remove(origin),
        !table.release(origin).remote.contains_key(origin),
        forall|k: u32|
            k != origin && #[trigger] table.remote.contains_key(k) ==> table.release(origin).remote[k]
                == table.remote[k],
        table.remote.contains_key(origin) ==> table.release(origin).available == table.available.push(
            table.remote[origin],
        ),
{
    assert(table.release(origin).remote.dom() =~= table.remote.dom().remove(origin));
}

/// Handing out a slot, or finding the one already assigned, never changes
/// how many speakers the peer can receive.
pub proof fn lemma_allocate_keeps_capacity<M>(table: SlotTable<M>, origin: u32)
    requires
        table.remote.dom().finite(),
    ensures
        table.allocate(origin).0.capacity() == table.capacity(),
        table.allocate(origin).0.remote.dom().finite(),
{
}

/// Releasing a slot never changes how many speakers the peer can receive.
pub proof fn lemma_release_keeps_capacity<M>(table: SlotTable<M>, origin: u32)
    requires
        table.remote.dom().finite(),
    ensures
        table.release(origin).capacity() == table.capacity(),
        table.release(origin).remote.dom().finite(),
{
}

/// Releasing a speaker right after it was handed a fresh slot restores the
/// slot table exactly as it was.
pub proof fn lemma_release_undoes_allocate<M>(table: SlotTable<M>, origin: u32)
    requires
        !table.remote.contains_key(origin),
        table.available.len() > 0,
    ensures
        table.allocate(origin).0.release(origin) == table,
{
    let after = table.allocate(origin).0;
    assert(after.release(origin).available =~= table.available);
    assert(after.release(origin).remote =~= table.remote);
}

/// Looking up a speaker's slot a second time finds the same slot and
/// changes nothing.
pub proof fn lemma_allocate_stable<M>(table: SlotTable<M>, origin: u32)
    ensures
        table.allocate(origin).1 is Some ==> table.allocate(origin).0.allocate(origin) == (
            table.allocate(origin).0,
            table.allocate(origin).1,
        ),
{
}

/// Handing out and releasing slots keeps every slot distinct, so two
/// speakers never share a slot.
pub proof fn lemma_distinct_preserved<M>(table: SlotTable<M>, origin: u32)
    requires
        table.distinct(),
    ensures
        table.allocate(origin).0.distinct(),
        table.release(origin).distinct(),
{
    let a = table.allocate(origin).0;
    if !table.remote.contains_key(origin) && table.available.len() > 0 {
        let mid = table.available.last();
        assert forall|x: u32, y: u32|
            a.remote.contains_key(x) && a.remote.contains_key(y) && x != y implies a.remote[x]
            != a.remote[y] by {
            if x == origin {
                assert(table.remote[y] != table.available[table.available.len() - 1]);
            } else if y == origin {
                assert(table.remote[x] != table.available[table.available.len() - 1]);
            }
        }
        assert forall|x: u32, i: int|
            a.remote.contains_key(x) && 0 <= i < a.available.len() implies a.remote[x]
            != a.available[i] by {
            if x == origin {
                assert(table.available[i] != table.available[table.available.len() - 1]);
            } else {
                assert(a.available[i] == table.available[i]);
            }
        }
        assert forall|i: int, j: int|
            0 <= i < a.available.len() && 0 <= j < a.available.len() && i != j implies a.available[i]
            != a.available[j] by {
            assert(a.available[i] == table.available[i]);
            assert(a.available[j] == table.available[j]);
        }
    }
    let r = table.release(origin);
    if table.remote.contains_key(origin) {
        let mid = table.remote[origin];
        assert forall|i: int, j: int|
            0 <= i < r.available.len() && 0 <= j < r.available.len() && i != j implies r.available[i]
            != r.available[j] by {
            if i < table.available.len() && j < table.available.len() {
                assert(r.available[i] == table.available[i]);
                assert(r.available[j] == table.available[j]);
            } else if i < table.available.len() {
                assert(r.available[i] == table.available[i]);
                assert(r.available[j] == mid);
            } else {
                assert(r.available[j] == table.available[j]);
                assert(r.available[i] == mid);
            }
        }
        assert forall|x: u32, i: int|
            r.remote.contains_key(x) && 0 <= i < r.available.len() implies r.remote[x]
            != r.available[i] by {
            if i < table.available.len() {
                assert(r.available[i] == table.available[i]);
            } else {
                assert(r.available[i] == mid);
            }
        }
    }
}

/// Handing out a slot and releasing one only move slots between the free
/// ones and the assigned ones: the table holds the same slots before and
/// after.
pub proof fn lemma_slots_kept<M>(table: SlotTable<M>, origin: u32)
    ensures
        table.allocate(origin).0.all_slots() == table.all_slots(),
        table.release(origin).all_slots() == table.all_slots(),
{
    let a = table.allocate(origin).0;
    if !table.remote.contains_key(origin) && table.available.len() > 0 {
        let mid = table.available.last();
        assert forall|m: M| a.all_slots().contains(m) <==> table.all_slots().contains(m) by {
            if a.available.to_set().contains(m) {
                let i = choose|i: int| 0 <= i < a.available.len() && a.available[i] == m;
                assert(table.available[i] == m);
            }
            if a.remote.values().contains(m) {
                let k = choose|k: u32| a.remote.contains_key(k) && a.remote[k] == m;
                if k != origin {
                    assert(table.remote.contains_key(k));
                } else {
                    assert(table.available[table.available.len() - 1] == m);
                }
            }
            if table.available.to_set().contains(m) {
                let i = choose|i: int| 0 <= i < table.available.len() && table.available[i] == m;
                if i < table.available.len() - 1 {
                    assert(a.available[i] == m);
                } else {
                    assert(a.remote.contains_key(origin) && a.remote[origin] == m);
                }
            }
            if table.remote.values().contains(m) {
                let k = choose|k: u32| table.remote.contains_key(k) && table.remote[k] == m;
                assert(a.remote.contains_key(k) && a.remote[k] == m);
            }
        }
        assert(a.all_slots() =~= table.all_slots());
    }
    let r = table.release(origin);
    if table.remote.contains_key(origin) {
        let mid = table.remote[origin];
        assert forall|m: M| r.all_slots().contains(m) <==> table.all_slots().contains(m) by {
            if r.available.to_set().contains(m) {
                let i = choose|i: int| 0 <= i < r.available.len() && r.available[i] == m;
                if i < table.available.len() {
                    assert(table.available[i] == m);
                } else {
                    assert(table.remote.contains_key(origin) && table.remote[origin] == m);
                }
            }
            if r.remote.values().contains(m) {
                let k = choose|k: u32| r.remote.contains_key(k) && r.remote[k] == m;
                assert(table.remote.contains_key(k) && table.remote[k] == m);
            }
            if table.available.to_set().contains(m) {
                let i = choose|i: int| 0 <= i < table.available.len() && table.available[i] == m;
                assert(r.available[i] == m);
            }
            if table.remote.values().contains(m) {
                let k = choose|k: u32| table.remote.contains_key(k) && table.remote[k] == m;
                if k != origin {
                    assert(r.remote.contains_key(k) && r.remote[k] == m);
                } else {
                    assert(r.available[r.available.len() - 1] == m);
                }
            }
        }
        assert(r.all_slots() =~= table.all_slots());
    }
}

/// A speaker that finds no free slot triggers a request that doubles the
/// capacity (to at least two), saturating at `usize::MAX`; no request is
/// made while an offer is pending, and one is always made otherwise unless
/// the capacity is already `usize::MAX`.
pub proof fn lemma_request_doubles_capacity(pending: bool, capacity: nat)
    requires
        capacity <= usize::MAX,
    ensures
        pending ==> slots_to_request(pending, capacity) is None,
        !pending && capacity < usize::MAX ==> slots_to_request(pending, capacity) is Some,
        !pending && capacity == usize::MAX ==> slots_to_request(pending, capacity) is None,
        !pending && capacity == 0 ==> slots_to_request(pending, capacity) == Some(2nat),
        !pending && 0 < capacity && capacity * 2 <= usize::MAX ==> slots_to_request(
            pending,
            capacity,
        ) == Some(capacity),
        !pending && capacity * 2 > usize::MAX ==> slots_to_request(pending, capacity) == if capacity
            < usize::MAX {
            Some((usize::MAX - capacity) as nat)
        } else {
            None
        },
{
}

} // verus!
