//! Playback sessions and the event registry.
//!
//! A session is the per-group voice connection: the group, the voice
//! channel it is connected to, and the observers attached to its active
//! track.  The registry (`attach`) appends an observer and nothing more —
//! it does not deduplicate; keeping at most one observer of each event
//! class resident is the callers' obligation, discharged by the join
//! protocol.  Exclusive access to a session is mediated by the group's
//! lock; here the lock is modelled by `&mut` access to the `GroupSlot`
//! holding the session, which Verus makes exclusive by construction.

use vstd::prelude::*;

use crate::observer::Observer;

verus! {

/// The event class an observer reacts to.
#[derive(Clone, Copy, Debug, PartialEq, Eq, Structural)]
pub enum ObserverClass {
    TrackEnd,
    Fade,
    FadeComplete,
}

/// The event class a given observer belongs to.
pub open spec fn class_of(o: Observer) -> ObserverClass {
    match o {
        Observer::TrackEnd(_) => ObserverClass::TrackEnd,
        Observer::Fade(_) => ObserverClass::Fade,
        Observer::FadeComplete(_) => ObserverClass::FadeComplete,
    }
}

/// How many observers of class `c` are attached, among `obs`.
pub open spec fn count_class(obs: Seq<Observer>, c: ObserverClass) -> nat
    decreases obs.len(),
{
    if obs.len() == 0 {
        0
    } else {
        count_class(obs.drop_last(), c) + if class_of(obs.last()) == c {
            1nat
        } else {
            0nat
        }
    }
}

/// Attaching one more observer raises the count of its own class by one
/// and leaves every other class's count unchanged.
pub proof fn lemma_count_class_push(obs: Seq<Observer>, o: Observer, c: ObserverClass)
    ensures
        count_class(obs.push(o), c) == count_class(obs, c) + if class_of(o) == c {
            1nat
        } else {
            0nat
        },
{
    assert(obs.push(o).drop_last() =~= obs);
    assert(obs.push(o).last() == o);
}

/// The mathematical view of a playback session.
#[verifier::ext_equal]
pub struct SessionView {
    pub group: u64,
    pub channel: u64,
    pub observers: Seq<Observer>,
}

/// One established voice connection for one group: the voice channel it
/// plays into and the observers attached to its active track.
#[derive(Clone, Debug, PartialEq, Eq)]
pub struct Session {
    /// The voice group (guild) this session belongs to.
    pub group: u64,
    /// The voice channel the session is connected to.
    pub channel: u64,
    /// The event registry: the observers attached to the active track.
    pub observers: Vec<Observer>,
}

impl View for Session {
    type V = SessionView;

    open spec fn view(&self) -> SessionView {
        SessionView { group: self.group, channel: self.channel, observers: self.observers@ }
    }
}

impl Session {
    /// A fresh session for `(group, channel)`, with no observer attached.
    pub fn new(group: u64, channel: u64) -> (s: Session)
        ensures
            s@.group == group,
            s@.channel == channel,
            s@.observers == Seq::<Observer>::empty(),
    {
        let s = Session { group, channel, observers: Vec::new() };
        proof {
            assert(s@.observers =~= Seq::<Observer>::empty());
        }
        s
    }

    /// Attach `o` to the active track.  The registry appends, nothing
    /// more: it is the caller's part — under the session's exclusive
    /// lock — not to attach a class twice.
    pub fn attach(&mut self, o: Observer)
        ensures
            final(self)@.group == old(self)@.group,
            final(self)@.channel == old(self)@.channel,
            final(self)@.observers == old(self)@.observers.push(o),
    {
        self.observers.push(o);
    }
}

/// The slot in which the coordinator holds a group's session: empty until
/// a join succeeds, and replaced — not extended — by a re-join.  Mutable
/// access to the slot stands for holding the group's exclusive lock.
#[derive(Clone, Debug, PartialEq, Eq)]
pub struct GroupSlot {
    pub session: Option<Session>,
}

impl View for GroupSlot {
    type V = Option<SessionView>;

    open spec fn view(&self) -> Option<SessionView> {
        match self.session {
            Some(s) => Some(s@),
            Option::None => Option::None,
        }
    }
}

impl GroupSlot {
    /// A slot with no session established yet.
    pub fn empty() -> (slot: GroupSlot)
        ensures
            slot@ is None,
    {
        GroupSlot { session: Option::None }
    }
}

/// The per-class invariant of a held session: however the slot was
/// reached, at most one track-end observer is attached to it.
pub open spec fn slot_wf(slot: Option<SessionView>) -> bool {
    slot matches Some(s) ==> count_class(s.observers, ObserverClass::TrackEnd) <= 1
}

} // verus!
