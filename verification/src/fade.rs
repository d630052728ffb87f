//! The fade protocol: exponential volume decay toward silence.
//!
//! Volume is carried as an integer number of millionths of full scale
//! (`FULL_VOLUME` is 1.0), so that halving and the threshold comparison are
//! exact.  Each periodic tick halves the volume; once the halved volume
//! drops below the fade threshold (0.01 of full scale) the track is stopped
//! and the observer cancels itself.  The tick is a pure transition function
//! of the volume read at invocation time — no fade state is stored — so the
//! observer can be re-attached mid-fade without resuming from stale state.

use vstd::prelude::*;

verus! {

/// Full volume, in millionths of full scale (1.0).
pub const FULL_VOLUME: u32 = 1_000_000;

/// The fade threshold, in millionths of full scale (0.01).  A tick whose
/// halved volume falls below this value stops the track and cancels the
/// fade observer.
pub const FADE_THRESHOLD: u32 = 10_000;

/// The volume one tick leaves behind: exactly half the volume it read.
pub open spec fn halved(v: nat) -> nat {
    v / 2
}

/// `halved`, at the width the engine commands carry.
pub open spec fn halved_u32(v: u32) -> u32 {
    (halved(v as nat)) as u32
}

/// Whether the tick that reads volume `v` is the terminating one: the
/// volume it writes back is already below the fade threshold.
pub open spec fn fade_cancels(v: nat) -> bool {
    halved(v) < FADE_THRESHOLD
}

/// The volume left after `ticks` fade ticks starting from volume `v`.
pub open spec fn volume_after(v: nat, ticks: nat) -> nat
    decreases ticks,
{
    if ticks == 0 {
        v
    } else {
        halved(volume_after(v, (ticks - 1) as nat))
    }
}

/// How many ticks a fade starting at volume `v` takes until the tick that
/// cancels it (that tick included).  Every fade ends: halving strictly
/// shrinks any volume large enough to continue.
pub open spec fn ticks_until_cancel(v: nat) -> nat
    decreases v,
{
    if fade_cancels(v) {
        1
    } else {
        1 + ticks_until_cancel(halved(v))
    }
}

/// Peeling one tick off the front of a fade: running `ticks` ticks from the
/// halved volume is the same as running `ticks + 1` ticks from the volume
/// itself.
pub proof fn lemma_volume_after_shift(v: nat, ticks: nat)
    ensures
        volume_after(halved(v), ticks) == volume_after(v, ticks + 1),
    decreases ticks,
{
    if ticks == 0 {
        assert(volume_after(v, 0) == v);
        assert(volume_after(v, 1) == halved(v));
    } else {
        lemma_volume_after_shift(v, (ticks - 1) as nat);
        assert(volume_after(halved(v), ticks) == halved(volume_after(halved(v), (ticks - 1) as nat)));
        assert(volume_after(v, ticks + 1) == halved(volume_after(v, ticks)));
    }
}

/// The shape of every fade: each tick exactly halves the volume; every tick
/// before the last reads a volume still at or above twice the threshold, so
/// it strictly lowers the volume and continues; and the final tick — the
/// first whose halved volume drops below the threshold — is reached after
/// finitely many ticks.  That final tick is the one that issues the stop
/// command and the cancel signal (see the fade observer's contract); the
/// engine owes that no tick follows a cancel.
pub proof fn lemma_fade_halves_until_threshold(v: nat)
    ensures
        forall|k: nat| volume_after(v, k + 1) == halved(volume_after(v, k)),
        forall|k: nat| k + 1 < ticks_until_cancel(v) ==> !fade_cancels(volume_after(v, k)),
        forall|k: nat|
            k + 1 < ticks_until_cancel(v) ==> volume_after(v, k + 1) < #[trigger] volume_after(
                v,
                k,
            ),
        fade_cancels(volume_after(v, (ticks_until_cancel(v) - 1) as nat)),
        ticks_until_cancel(v) >= 1,
    decreases v,
{
    if fade_cancels(v) {
        assert(volume_after(v, 0) == v);
    } else {
        lemma_fade_halves_until_threshold(halved(v));
        assert forall|k: nat| k + 1 < ticks_until_cancel(v) implies !fade_cancels(
            volume_after(v, k),
        ) by {
            if k > 0 {
                lemma_volume_after_shift(v, (k - 1) as nat);
                assert(!fade_cancels(volume_after(halved(v), (k - 1) as nat)));
            }
        }
        lemma_volume_after_shift(v, (ticks_until_cancel(halved(v)) - 1) as nat);
    }
    assert forall|k: nat| k + 1 < ticks_until_cancel(v) implies volume_after(v, k + 1)
        < #[trigger] volume_after(v, k) by {
        assert(!fade_cancels(volume_after(v, k)));
    }
}

} // verus!
