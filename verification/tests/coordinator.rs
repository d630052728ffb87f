use voicefade::fade::FADE_THRESHOLD;
use voicefade::fade::FULL_VOLUME;
use voicefade::join::complete_join;
use voicefade::join::decide_join;
use voicefade::join::ConnectResult;
use voicefade::join::JoinDecision;
use voicefade::notice::Notice;
use voicefade::observer::Action;
use voicefade::observer::EventInfo;
use voicefade::observer::Observer;
use voicefade::observer::Reaction;
use voicefade::observer::SongEndNotifier;
use voicefade::observer::SongFader;
use voicefade::observer::TrackCommand;
use voicefade::observer::TrackEndNotifier;
use voicefade::observer::TrackView;
use voicefade::session::GroupSlot;

fn tick(fader: &SongFader, volume: u32) -> Reaction {
    fader.act(&EventInfo::Track { tracks: vec![TrackView { volume }] })
}

#[test]
fn fade_tick_halves_volume() {
    let fader = SongFader { chan_id: 10 };
    let r = tick(&fader, FULL_VOLUME);
    assert_eq!(r.commands, vec![TrackCommand::SetVolume(500_000)]);
    assert_eq!(r.notices, vec![Notice::VolumeReduced]);
    assert_eq!(r.action, Action::Continue);
}

#[test]
fn fade_tick_at_threshold_boundary_continues() {
    // The halved volume equals the threshold exactly: not yet below it.
    let fader = SongFader { chan_id: 10 };
    let r = tick(&fader, 2 * FADE_THRESHOLD);
    assert_eq!(r.commands, vec![TrackCommand::SetVolume(FADE_THRESHOLD)]);
    assert_eq!(r.notices, vec![Notice::VolumeReduced]);
    assert_eq!(r.action, Action::Continue);
}

#[test]
fn fade_tick_below_threshold_stops_once() {
    let fader = SongFader { chan_id: 10 };
    let r = tick(&fader, 2 * FADE_THRESHOLD - 1);
    assert_eq!(
        r.commands,
        vec![TrackCommand::SetVolume(FADE_THRESHOLD - 1), TrackCommand::Stop]
    );
    assert_eq!(r.notices, vec![Notice::Stopping]);
    assert_eq!(r.action, Action::Cancel);
}

#[test]
fn fade_tick_zero_volume_stops() {
    let fader = SongFader { chan_id: 10 };
    let r = tick(&fader, 0);
    assert_eq!(r.commands, vec![TrackCommand::SetVolume(0), TrackCommand::Stop]);
    assert_eq!(r.notices, vec![Notice::Stopping]);
    assert_eq!(r.action, Action::Cancel);
}

#[test]
fn fade_tick_missing_track_cancels_without_stop() {
    let fader = SongFader { chan_id: 10 };
    for ctx in [
        EventInfo::Other,
        EventInfo::Track { tracks: vec![] },
        EventInfo::Track {
            tracks: vec![TrackView { volume: 500 }, TrackView { volume: 600 }],
        },
    ] {
        let r = fader.act(&ctx);
        assert_eq!(r.commands, vec![]);
        assert_eq!(r.notices, vec![]);
        assert_eq!(r.action, Action::Cancel);
    }
}

#[test]
fn fade_scenario_full_volume_to_silence() {
    // Full volume, tick by tick: six "volume reduced" ticks halve the
    // volume down to 15625 millionths, the seventh drives it below the
    // threshold, stops the track and cancels; the engine then invokes the
    // fade-complete observer, which reports exactly once.
    let fader = SongFader { chan_id: 10 };
    let mut volume: u32 = FULL_VOLUME;
    let mut reduced_ticks = 0;
    loop {
        let r = tick(&fader, volume);
        let expected = volume / 2;
        assert_eq!(r.commands[0], TrackCommand::SetVolume(expected));
        volume = expected;
        if r.action == Action::Cancel {
            assert_eq!(
                r.commands,
                vec![TrackCommand::SetVolume(expected), TrackCommand::Stop]
            );
            assert_eq!(r.notices, vec![Notice::Stopping]);
            break;
        }
        assert_eq!(r.commands, vec![TrackCommand::SetVolume(expected)]);
        assert_eq!(r.notices, vec![Notice::VolumeReduced]);
        reduced_ticks += 1;
        assert!(reduced_ticks < 100, "fade must terminate");
    }
    assert_eq!(reduced_ticks, 6);
    assert_eq!(volume, 7_812);
    assert!(volume < FADE_THRESHOLD);

    let end = SongEndNotifier { chan_id: 10 };
    let r = end.act(&EventInfo::Other);
    assert_eq!(r.notices, vec![Notice::FadedOut]);
    assert_eq!(r.commands, vec![]);
    assert_eq!(r.action, Action::Continue);
}

#[test]
fn track_end_batch_reports_count() {
    let notifier = TrackEndNotifier { chan_id: 20 };
    let r = notifier.act(&EventInfo::Track {
        tracks: vec![TrackView { volume: 1 }],
    });
    assert_eq!(r.notices, vec![Notice::TracksEnded { count: 1 }]);
    assert_eq!(r.commands, vec![]);
    assert_eq!(r.action, Action::Continue);

    let r = notifier.act(&EventInfo::Track {
        tracks: vec![
            TrackView { volume: 1 },
            TrackView { volume: 2 },
            TrackView { volume: 3 },
        ],
    });
    assert_eq!(r.notices, vec![Notice::TracksEnded { count: 3 }]);
}

#[test]
fn track_end_other_event_is_silent() {
    let notifier = TrackEndNotifier { chan_id: 20 };
    let r = notifier.act(&EventInfo::Other);
    assert_eq!(r.notices, vec![]);
    assert_eq!(r.commands, vec![]);
    assert_eq!(r.action, Action::Continue);
}

#[test]
fn song_end_notifier_reports_exactly_once() {
    let end = SongEndNotifier { chan_id: 30 };
    let r = end.act(&EventInfo::Track {
        tracks: vec![TrackView { volume: 0 }],
    });
    assert_eq!(r.notices, vec![Notice::FadedOut]);
}

#[test]
fn observer_dispatch_matches_kind() {
    let ctx = EventInfo::Track {
        tracks: vec![TrackView { volume: 80_000 }],
    };
    let fade = Observer::Fade(SongFader { chan_id: 1 });
    assert_eq!(fade.on_event(&ctx), SongFader { chan_id: 1 }.act(&ctx));
    let end = Observer::TrackEnd(TrackEndNotifier { chan_id: 1 });
    assert_eq!(end.on_event(&ctx), TrackEndNotifier { chan_id: 1 }.act(&ctx));
    let done = Observer::FadeComplete(SongEndNotifier { chan_id: 1 });
    assert_eq!(done.on_event(&ctx), SongEndNotifier { chan_id: 1 }.act(&ctx));
}

#[test]
fn join_without_voice_channel_is_refused() {
    let d = decide_join(None);
    assert_eq!(
        d,
        JoinDecision::Refused {
            notice: Notice::NotInChannel
        }
    );
}

#[test]
fn join_resolves_voice_channel() {
    let d = decide_join(Some(42));
    assert_eq!(d, JoinDecision::Connect { channel: 42 });
}

#[test]
fn successful_join_attaches_single_track_end_observer() {
    let mut slot = GroupSlot::empty();
    let notice = complete_join(&mut slot, 7, 42, 99, ConnectResult::Connected);
    assert_eq!(notice, Notice::Joined { channel: 42 });
    let session = slot.session.expect("session established");
    assert_eq!(session.group, 7);
    assert_eq!(session.channel, 42);
    assert_eq!(
        session.observers,
        vec![Observer::TrackEnd(TrackEndNotifier { chan_id: 99 })]
    );
}

#[test]
fn failed_join_leaves_slot_untouched() {
    let mut slot = GroupSlot::empty();
    let notice = complete_join(&mut slot, 7, 42, 99, ConnectResult::Failed);
    assert_eq!(notice, Notice::JoinFailed);
    assert!(slot.session.is_none());

    // A failed re-join keeps the previously established session.
    let _ = complete_join(&mut slot, 7, 42, 99, ConnectResult::Connected);
    let before = slot.session.clone();
    let notice = complete_join(&mut slot, 7, 50, 99, ConnectResult::Failed);
    assert_eq!(notice, Notice::JoinFailed);
    assert_eq!(slot.session, before);
}

#[test]
fn rejoin_never_duplicates_track_end_observer() {
    let mut slot = GroupSlot::empty();
    let _ = complete_join(&mut slot, 7, 42, 99, ConnectResult::Connected);
    let _ = complete_join(&mut slot, 7, 43, 99, ConnectResult::Connected);
    let session = slot.session.expect("session established");
    assert_eq!(session.channel, 43);
    assert_eq!(
        session.observers,
        vec![Observer::TrackEnd(TrackEndNotifier { chan_id: 99 })]
    );
}
