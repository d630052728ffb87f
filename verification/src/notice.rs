//! Outbound notifications, as data.
//!
//! The coordinator never talks to the network itself: each decision returns
//! the notification it owes as a `Notice` value, and the surrounding program
//! renders it as text and delivers it (delivery failures are logged there and
//! never fed back into the coordinator).

use vstd::prelude::*;

verus! {

/// One outbound acknowledgement or progress report, addressed to the text
/// channel an observer or join request is bound to.
#[derive(Clone, Copy, Debug, PartialEq, Eq, Structural)]
pub enum Notice {
    /// The requesting user occupies no resolvable voice channel; no session
    /// was created.
    NotInChannel,
    /// The session was established on the given voice channel.
    Joined { channel: u64 },
    /// The engine refused to establish the session.
    JoinFailed,
    /// The engine reported a batch of ended tracks of the given size.
    TracksEnded { count: usize },
    /// A fade tick halved the volume and playback continues.
    VolumeReduced,
    /// A fade tick drove the volume below the fade threshold; the track is
    /// being stopped.
    Stopping,
    /// The fade has completed; the track is silent and stopped.
    FadedOut,
}

} // verus!
