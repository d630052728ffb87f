//! The join protocol: establish a playback session and arm its observers.
//!
//! The protocol runs in two steps around the engine's connect call, which
//! the surrounding program performs.  `decide_join` inspects the presence
//! lookup's answer and either refuses outright or names the channel to
//! connect to; `complete_join` consumes the engine's verdict and, on
//! success, installs in the group's slot a fresh session with exactly one
//! track-end observer attached.  The whole completion runs under `&mut`
//! access to the slot — the model of holding the group's exclusive lock —
//! so concurrent join attempts are serialized and can never race to attach
//! duplicate observers.  Either step owes the requester exactly one
//! acknowledgement, which it returns as a `Notice` (never two: the return
//! type carries exactly one).

use vstd::prelude::*;

use crate::notice::Notice;
use crate::observer::{Observer, TrackEndNotifier};
use crate::session::{
    class_of, count_class, lemma_count_class_push, slot_wf, GroupSlot, ObserverClass, Session,
    SessionView,
};

verus! {

/// The engine's verdict on a connect request.
#[derive(Clone, Copy, Debug, PartialEq, Eq, Structural)]
pub enum ConnectResult {
    Connected,
    Failed,
}

/// The first step's outcome: refuse without touching the engine, or
/// connect to the named voice channel.
#[derive(Clone, Copy, Debug, PartialEq, Eq, Structural)]
pub enum JoinDecision {
    /// The request dies here; `notice` is the one acknowledgement owed.
    Refused { notice: Notice },
    /// Ask the engine for a session on this voice channel.
    Connect { channel: u64 },
}

/// The session a successful join installs: fresh for `(group, channel)`,
/// with exactly one track-end observer bound to the requesting text
/// channel — and no fade observer; those are armed by the playback-start
/// path, not by joining.
pub open spec fn joined_session(group: u64, channel: u64, text_channel: u64) -> SessionView {
    SessionView {
        group,
        channel,
        observers: seq![Observer::TrackEnd(TrackEndNotifier { chan_id: text_channel })],
    }
}

/// The whole protocol as one transition on the group's slot: what the slot
/// holds afterwards, and the one acknowledgement sent.  An unresolvable
/// voice channel refuses before the engine is consulted, so the outcome is
/// then the same whatever `engine` would say; a failed connect leaves the
/// slot as it was; a successful connect replaces the slot's session with
/// `joined_session`.
pub open spec fn join_protocol(
    slot: Option<SessionView>,
    group: u64,
    voice_channel: Option<u64>,
    text_channel: u64,
    engine: ConnectResult,
) -> (Option<SessionView>, Notice) {
    match voice_channel {
        Option::None => (slot, Notice::NotInChannel),
        Some(channel) => match engine {
            ConnectResult::Connected => (
                Some(joined_session(group, channel, text_channel)),
                Notice::Joined { channel },
            ),
            ConnectResult::Failed => (slot, Notice::JoinFailed),
        },
    }
}

/// First step of the protocol: act on the presence lookup's answer.  No
/// session and no observer exist yet on either path; a request whose user
/// occupies no voice channel is refused with `NotInChannel` and the engine
/// is never asked.
pub fn decide_join(voice_channel: Option<u64>) -> (d: JoinDecision)
    ensures
        voice_channel is None ==> d == (JoinDecision::Refused { notice: Notice::NotInChannel }),
        voice_channel matches Some(channel) ==> d == (JoinDecision::Connect { channel }),
{
    match voice_channel {
        Option::None => JoinDecision::Refused { notice: Notice::NotInChannel },
        Some(channel) => JoinDecision::Connect { channel },
    }
}

/// Second step of the protocol, run while holding the group's lock (the
/// `&mut` slot): consume the engine's verdict for the connect that
/// `decide_join` requested, install the fresh session with its one
/// track-end observer on success, and return the one acknowledgement owed.
pub fn complete_join(
    slot: &mut GroupSlot,
    group: u64,
    voice_channel: u64,
    text_channel: u64,
    engine: ConnectResult,
) -> (notice: Notice)
    ensures
        final(slot)@ == join_protocol(
            old(slot)@,
            group,
            Some(voice_channel),
            text_channel,
            engine,
        ).0,
        notice == join_protocol(old(slot)@, group, Some(voice_channel), text_channel, engine).1,
{
    match engine {
        ConnectResult::Connected => {
            let mut session = Session::new(group, voice_channel);
            session.attach(Observer::TrackEnd(TrackEndNotifier { chan_id: text_channel }));
            proof {
                assert(session@.observers =~= joined_session(
                    group,
                    voice_channel,
                    text_channel,
                ).observers);
                assert(session@ =~= joined_session(group, voice_channel, text_channel));
            }
            slot.session = Some(session);
            Notice::Joined { channel: voice_channel }
        },
        ConnectResult::Failed => Notice::JoinFailed,
    }
}

/// A join with no resolvable voice channel creates nothing: for every
/// prior slot state and whatever the engine would have answered, the slot
/// is exactly as it was — no session, hence no observer, came into being —
/// and the one acknowledgement is `NotInChannel`.
pub proof fn lemma_unresolved_join_creates_nothing(
    slot: Option<SessionView>,
    group: u64,
    text_channel: u64,
    engine: ConnectResult,
)
    ensures
        join_protocol(slot, group, Option::None, text_channel, engine).0 == slot,
        join_protocol(slot, group, Option::None, text_channel, engine).1 == Notice::NotInChannel,
{
}

/// A successful join attaches exactly one track-end observer and no fade
/// and no fade-complete observer: the installed session's registry holds
/// one observer, of the track-end class, bound to the requesting text
/// channel.
pub proof fn lemma_join_attaches_single_track_end(
    slot: Option<SessionView>,
    group: u64,
    channel: u64,
    text_channel: u64,
)
    ensures
        ({
            let joined = join_protocol(
                slot,
                group,
                Some(channel),
                text_channel,
                ConnectResult::Connected,
            ).0;
            &&& joined matches Some(s)
            &&& count_class(s.observers, ObserverClass::TrackEnd) == 1
            &&& count_class(s.observers, ObserverClass::Fade) == 0
            &&& count_class(s.observers, ObserverClass::FadeComplete) == 0
            &&& s.observers.len() == 1
            &&& s.observers[0] == Observer::TrackEnd(TrackEndNotifier { chan_id: text_channel })
        }),
{
    let o = Observer::TrackEnd(TrackEndNotifier { chan_id: text_channel });
    let obs = joined_session(group, channel, text_channel).observers;
    assert(obs =~= Seq::<Observer>::empty().push(o));
    lemma_count_class_push(Seq::<Observer>::empty(), o, ObserverClass::TrackEnd);
    lemma_count_class_push(Seq::<Observer>::empty(), o, ObserverClass::Fade);
    lemma_count_class_push(Seq::<Observer>::empty(), o, ObserverClass::FadeComplete);
}

/// One protocol run keeps the slot invariant: starting from a slot holding
/// at most one track-end observer, the slot afterwards still holds at most
/// one — exactly one when the connect succeeded.  A refusal and a failed
/// connect keep the old session; a successful connect installs a fresh
/// session with its single observer, replacing — never extending — what
/// the slot held.
pub proof fn lemma_join_preserves_single_track_end(
    slot: Option<SessionView>,
    group: u64,
    voice_channel: Option<u64>,
    text_channel: u64,
    engine: ConnectResult,
)
    requires
        slot_wf(slot),
    ensures
        slot_wf(join_protocol(slot, group, voice_channel, text_channel, engine).0),
        voice_channel is Some && engine == ConnectResult::Connected ==> count_class(
            join_protocol(slot, group, voice_channel, text_channel, engine).0->0.observers,
            ObserverClass::TrackEnd,
        ) == 1,
{
    match voice_channel {
        Some(channel) => {
            if engine == ConnectResult::Connected {
                lemma_join_attaches_single_track_end(slot, group, channel, text_channel);
            }
        },
        Option::None => {},
    }
}

/// Join attempts for the same group are serialized by the group's lock,
/// and however two of them interleave with each other — each completion
/// runs whole while holding the lock — the slot never ends up with two
/// track-end observers on one session: after any two protocol runs the
/// held session has at most one, exactly one if the later run connected.
pub proof fn lemma_two_joins_never_duplicate(
    slot: Option<SessionView>,
    group: u64,
    first_voice_channel: Option<u64>,
    first_text_channel: u64,
    first_engine: ConnectResult,
    second_voice_channel: Option<u64>,
    second_text_channel: u64,
    second_engine: ConnectResult,
)
    requires
        slot_wf(slot),
    ensures
        ({
            let after_first = join_protocol(
                slot,
                group,
                first_voice_channel,
                first_text_channel,
                first_engine,
            ).0;
            let after_second = join_protocol(
                after_first,
                group,
                second_voice_channel,
                second_text_channel,
                second_engine,
            ).0;
            &&& slot_wf(after_second)
            &&& second_voice_channel is Some && second_engine == ConnectResult::Connected
                ==> count_class(after_second->0.observers, ObserverClass::TrackEnd) == 1
        }),
{
    lemma_join_preserves_single_track_end(
        slot,
        group,
        first_voice_channel,
        first_text_channel,
        first_engine,
    );
    lemma_join_preserves_single_track_end(
        join_protocol(slot, group, first_voice_channel, first_text_channel, first_engine).0,
        group,
        second_voice_channel,
        second_text_channel,
        second_engine,
    );
}

} // verus!
