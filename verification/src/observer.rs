//! The three track-lifecycle observers and their reactions.
//!
//! The engine drives observers from its own concurrency domain: on each
//! event it hands the observer a borrowed view of the track state and takes
//! back a `Reaction` — the engine commands to issue, the notifications to
//! send, and the continue/cancel signal.  Each observer is a pure function
//! of that view and of its immutable binding (the destination text channel);
//! the surrounding program performs the commands and the sends.

use vstd::prelude::*;

use crate::fade::{fade_cancels, halved_u32};
use crate::notice::Notice;

verus! {

/// A borrowed view of one playing track's current state, as the engine
/// hands it to an observer.  The volume is in millionths of full scale.
#[derive(Clone, Copy, Debug, PartialEq, Eq, Structural)]
pub struct TrackView {
    pub volume: u32,
}

/// The event context an observer is invoked with: either a track event
/// carrying the current view of each track in the batch, or an event of
/// some other class, which carries no track.
#[derive(Clone, Debug, PartialEq, Eq)]
pub enum EventInfo {
    Track { tracks: Vec<TrackView> },
    Other,
}

/// An observer's continue/cancel signal.  `Cancel` asks the engine never to
/// invoke this observer again for this track; the engine owes that the
/// request is honoured.
#[derive(Clone, Copy, Debug, PartialEq, Eq, Structural)]
pub enum Action {
    Continue,
    Cancel,
}

/// A command an observer issues to the track through the engine.  Command
/// failures are non-fatal to the fade: only the continue/cancel signal is
/// authoritative.
#[derive(Clone, Copy, Debug, PartialEq, Eq, Structural)]
pub enum TrackCommand {
    /// Set the track volume, in millionths of full scale.
    SetVolume(u32),
    /// Stop the track.
    Stop,
}

/// Everything one observer invocation asks of the outside: the commands to
/// issue to the track, in order; the notifications to send, in order; and
/// the continue/cancel signal to hand back to the engine.
#[derive(Clone, Debug, PartialEq, Eq)]
pub struct Reaction {
    pub commands: Vec<TrackCommand>,
    pub notices: Vec<Notice>,
    pub action: Action,
}

/// The single track a fade tick acts on, if the event carries exactly one;
/// an event of another class, an empty batch or a batch of several tracks
/// gives the tick no usable track.
pub open spec fn single_track(ctx: EventInfo) -> Option<TrackView> {
    match ctx {
        EventInfo::Track { tracks } => if tracks@.len() == 1 {
            Some(tracks@[0])
        } else {
            Option::None
        },
        EventInfo::Other => Option::None,
    }
}

/// What the track-end observer owes for an event: no commands, no
/// cancellation, and — for a track event — exactly one notification
/// carrying the size of the batch of ended tracks.
pub open spec fn is_track_end_reaction(ctx: EventInfo, r: Reaction) -> bool {
    &&& r.commands@ == Seq::<TrackCommand>::empty()
    &&& r.action == Action::Continue
    &&& match ctx {
        EventInfo::Track { tracks } => {
            &&& r.notices@.len() == 1
            &&& r.notices@[0] matches Notice::TracksEnded { count } && count == tracks@.len()
        },
        EventInfo::Other => r.notices@ == Seq::<Notice>::empty(),
    }
}

/// What the fade observer owes for a tick.  With a usable track at volume
/// `v`: always the set-volume command for the halved volume; if the halved
/// volume has dropped below the fade threshold, additionally exactly one
/// stop command, one "stopping" notification and the cancel signal, else
/// one "volume reduced" notification and the continue signal.  Without a
/// usable track (already-stopped or missing): no command at all — never a
/// stop against a dangling track — and the cancel signal.
pub open spec fn is_fade_reaction(ctx: EventInfo, r: Reaction) -> bool {
    match single_track(ctx) {
        Some(t) => if fade_cancels(t.volume as nat) {
            &&& r.commands@ == seq![TrackCommand::SetVolume(halved_u32(t.volume)), TrackCommand::Stop]
            &&& r.notices@ == seq![Notice::Stopping]
            &&& r.action == Action::Cancel
        } else {
            &&& r.commands@ == seq![TrackCommand::SetVolume(halved_u32(t.volume))]
            &&& r.notices@ == seq![Notice::VolumeReduced]
            &&& r.action == Action::Continue
        },
        Option::None => {
            &&& r.commands@ == Seq::<TrackCommand>::empty()
            &&& r.notices@ == Seq::<Notice>::empty()
            &&& r.action == Action::Cancel
        },
    }
}

/// What the fade-complete observer owes: exactly one "faded out completely"
/// notification, whatever the event carries, and nothing else.
pub open spec fn is_fade_complete_reaction(r: Reaction) -> bool {
    &&& r.commands@ == Seq::<TrackCommand>::empty()
    &&& r.notices@ == seq![Notice::FadedOut]
    &&& r.action == Action::Continue
}

/// Fires when the engine signals that one or more tracks have ended;
/// reports the size of the batch to its bound text channel.
#[derive(Clone, Copy, Debug, PartialEq, Eq, Structural)]
pub struct TrackEndNotifier {
    pub chan_id: u64,
}

impl TrackEndNotifier {
    /// React to one track-end event: one notification carrying the count of
    /// ended tracks, no commands, no cancellation.
    pub fn act(&self, ctx: &EventInfo) -> (r: Reaction)
        ensures
            is_track_end_reaction(*ctx, r),
    {
        let mut notices: Vec<Notice> = Vec::new();
        if let EventInfo::Track { tracks } = ctx {
            notices.push(Notice::TracksEnded { count: tracks.len() });
        }
        proof {
            match *ctx {
                EventInfo::Track { .. } => {},
                EventInfo::Other => {
                    assert(notices@ =~= Seq::<Notice>::empty());
                },
            }
        }
        Reaction { commands: Vec::new(), notices, action: Action::Continue }
    }
}

/// Fires on each periodic tick while a track plays; halves the volume and
/// decides whether the fade goes on or terminates in a stop.
#[derive(Clone, Copy, Debug, PartialEq, Eq, Structural)]
pub struct SongFader {
    pub chan_id: u64,
}

impl SongFader {
    /// React to one fade tick, per `is_fade_reaction`: the decision is a
    /// pure function of the volume read on this invocation.
    pub fn act(&self, ctx: &EventInfo) -> (r: Reaction)
        ensures
            is_fade_reaction(*ctx, r),
    {
        let mut commands: Vec<TrackCommand> = Vec::new();
        let mut notices: Vec<Notice> = Vec::new();
        let mut action = Action::Cancel;
        if let EventInfo::Track { tracks } = ctx {
            if tracks.len() == 1 {
                let volume = tracks[0].volume;
                let new_volume = volume / 2;
                commands.push(TrackCommand::SetVolume(new_volume));
                if new_volume < crate::fade::FADE_THRESHOLD {
                    commands.push(TrackCommand::Stop);
                    notices.push(Notice::Stopping);
                } else {
                    notices.push(Notice::VolumeReduced);
                    action = Action::Continue;
                }
            }
        }
        proof {
            match single_track(*ctx) {
                Some(t) => {
                    if fade_cancels(t.volume as nat) {
                        assert(commands@ =~= seq![
                            TrackCommand::SetVolume(halved_u32(t.volume)),
                            TrackCommand::Stop,
                        ]);
                        assert(notices@ =~= seq![Notice::Stopping]);
                    } else {
                        assert(commands@ =~= seq![TrackCommand::SetVolume(halved_u32(t.volume))]);
                        assert(notices@ =~= seq![Notice::VolumeReduced]);
                    }
                },
                Option::None => {
                    assert(commands@ =~= Seq::<TrackCommand>::empty());
                    assert(notices@ =~= Seq::<Notice>::empty());
                },
            }
        }
        Reaction { commands, notices, action }
    }
}

/// Fires exactly once, strictly after the fade observer has cancelled
/// itself (an ordering the engine owes); reports that the fade is complete.
#[derive(Clone, Copy, Debug, PartialEq, Eq, Structural)]
pub struct SongEndNotifier {
    pub chan_id: u64,
}

impl SongEndNotifier {
    /// React to the fade-completion event: exactly one "faded out
    /// completely" notification, nothing else.
    pub fn act(&self, _ctx: &EventInfo) -> (r: Reaction)
        ensures
            is_fade_complete_reaction(r),
    {
        let mut notices: Vec<Notice> = Vec::new();
        notices.push(Notice::FadedOut);
        proof {
            assert(notices@ =~= seq![Notice::FadedOut]);
        }
        Reaction { commands: Vec::new(), notices, action: Action::Continue }
    }
}

/// The tagged union behind which the engine sees every observer: one
/// capability, `on_event`, dispatched over the observer kinds.
#[derive(Clone, Copy, Debug, PartialEq, Eq, Structural)]
pub enum Observer {
    TrackEnd(TrackEndNotifier),
    Fade(SongFader),
    FadeComplete(SongEndNotifier),
}

impl Observer {
    /// React to one engine event with this observer's reaction.
    pub fn on_event(&self, ctx: &EventInfo) -> (r: Reaction)
        ensures
            self matches Observer::TrackEnd(_) ==> is_track_end_reaction(*ctx, r),
            self matches Observer::Fade(_) ==> is_fade_reaction(*ctx, r),
            self matches Observer::FadeComplete(_) ==> is_fade_complete_reaction(r),
    {
        match self {
            Observer::TrackEnd(o) => o.act(ctx),
            Observer::Fade(o) => o.act(ctx),
            Observer::FadeComplete(o) => o.act(ctx),
        }
    }
}

/// A track-end event carrying a batch of ended tracks is answered with
/// exactly one notification, and the count that notification carries is
/// exactly the size of the batch.
pub proof fn lemma_track_end_single_notification(ctx: EventInfo, r: Reaction)
    requires
        ctx is Track,
        is_track_end_reaction(ctx, r),
    ensures
        r.notices@.len() == 1,
        r.notices@[0] matches Notice::TracksEnded { count } && count == ctx->tracks@.len(),
{
}

} // verus!
