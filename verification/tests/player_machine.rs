use audiobookshelf_client::player::{
    play_command, Action, Command, Event, Mode, Player, PlayerError, PositionOffset, Resolution,
};
use audiobookshelf_client::source::SourceKind;
use audiobookshelf_client::track::{Session, Track};

fn track(start_offset: i64, duration: i64, local: bool) -> Track {
    Track {
        start_offset,
        duration,
        content_url: format!("/api/items/book/file/{start_offset}"),
        local_path: if local { Some(format!("/books/{start_offset}.mp3")) } else { None },
    }
}

fn session(tracks: Vec<Track>, current_time: i64) -> Session {
    Session { tracks, current_time }
}

fn two_tracks() -> Vec<Track> {
    vec![track(0, 100, false), track(100, 50, false)]
}

fn ready(serial: Option<u64>) -> Event {
    Event::Resolved { serial, outcome: Resolution::Ready }
}

/// Loads a session and queues its start track; returns the token of the
/// queued buffer.
fn loaded(player: &mut Player, tracks: Vec<Track>, current_time: i64) -> u64 {
    let serial = match player.step(Event::Load(session(tracks, current_time))) {
        Action::Resolve { serial, .. } => serial,
        other => panic!("unexpected action {other:?}"),
    };
    match player.step(ready(serial)) {
        Action::Start { token: Some(token), .. } => token,
        other => panic!("unexpected action {other:?}"),
    }
}

#[test]
fn new_player_is_idle() {
    let player = Player::new();
    assert_eq!(player.mode(), Mode::Idle);
    assert_eq!(player.current_track(), None);
    assert!(player.tracks().is_none());
    assert!(player.resolving().is_none());
    assert_eq!(player.position(5), None);
}

#[test]
fn load_resolves_the_track_of_the_reported_position_and_starts_playing() {
    let mut player = Player::new();
    let action = player.step(Event::Load(session(two_tracks(), 120)));
    assert_eq!(action, Action::Resolve { track: 1, serial: Some(0) });
    assert_eq!(player.mode(), Mode::Idle);
    let (wanted, kind) = player.resolving().unwrap();
    assert_eq!(wanted.start_offset, 100);
    assert_eq!(kind, SourceKind::RemoteStream);
    let action = player.step(ready(Some(0)));
    assert_eq!(action, Action::Start { offset: 20, token: Some(0), play: true });
    assert_eq!(player.mode(), Mode::Playing);
    assert_eq!(player.current_track(), Some(1));
    assert!(player.resolving().is_none());
}

#[test]
fn load_with_a_position_out_of_range_is_refused() {
    let mut player = Player::new();
    let action = player.step(Event::Load(session(two_tracks(), 151)));
    assert_eq!(action, Action::Fail(PlayerError::OutOfRangePosition));
    assert_eq!(player.mode(), Mode::Idle);
    let action = player.step(Event::Load(session(Vec::new(), 0)));
    assert_eq!(action, Action::Fail(PlayerError::OutOfRangePosition));
    assert_eq!(player.mode(), Mode::Idle);
}

#[test]
fn load_that_cannot_be_resolved_changes_nothing() {
    let mut player = Player::new();
    loaded(&mut player, two_tracks(), 0);
    let serial = match player.step(Event::Load(session(vec![track(0, 7, false)], 3))) {
        Action::Resolve { track: 0, serial } => serial,
        other => panic!("unexpected action {other:?}"),
    };
    let action = player.step(Event::Resolved { serial, outcome: Resolution::DecodeError });
    assert_eq!(action, Action::Fail(PlayerError::DecodeError));
    assert_eq!(player.mode(), Mode::Playing);
    assert_eq!(player.tracks().unwrap().len(), 2);
    assert_eq!(player.current_track(), Some(0));
}

#[test]
fn seek_scenario_on_two_tracks() {
    let mut player = Player::new();
    loaded(&mut player, two_tracks(), 0);
    assert_eq!(
        player.step(Event::Command(Command::SeekTo(100))),
        Action::SeekInBuffer { offset: 100 }
    );
    assert_eq!(player.current_track(), Some(0));
    let action = player.step(Event::Command(Command::SeekTo(101)));
    assert_eq!(action, Action::Resolve { track: 1, serial: Some(1) });
    assert_eq!(
        player.step(ready(Some(1))),
        Action::Start { offset: 1, token: Some(1), play: true }
    );
    assert_eq!(player.current_track(), Some(1));
    assert_eq!(
        player.step(Event::Command(Command::SeekTo(151))),
        Action::Fail(PlayerError::OutOfRangePosition)
    );
    assert_eq!(player.current_track(), Some(1));
    assert_eq!(player.mode(), Mode::Playing);
}

#[test]
fn seek_out_of_range_leaves_the_state_unchanged() {
    let mut player = Player::new();
    let token = loaded(&mut player, two_tracks(), 30);
    player.step(Event::Command(Command::Pause));
    let action = player.step(Event::Command(Command::SeekTo(1_000)));
    assert_eq!(action, Action::Fail(PlayerError::OutOfRangePosition));
    assert_eq!(player.mode(), Mode::Paused);
    assert_eq!(player.current_track(), Some(0));
    assert!(player.resolving().is_none());
    // The queued buffer is still the awaited one.
    assert_eq!(
        player.step(Event::EndOfBuffer(token)),
        Action::Resolve { track: 1, serial: Some(1) }
    );
}

#[test]
fn seek_to_a_negative_position_is_refused() {
    let mut player = Player::new();
    loaded(&mut player, two_tracks(), 0);
    assert_eq!(
        player.step(Event::Command(Command::SeekTo(-1))),
        Action::Fail(PlayerError::OutOfRangePosition)
    );
}

#[test]
fn seek_into_a_gap_is_refused() {
    let mut player = Player::new();
    loaded(&mut player, vec![track(0, 10, false), track(20, 10, false)], 0);
    assert_eq!(
        player.step(Event::Command(Command::SeekTo(15))),
        Action::Fail(PlayerError::OutOfRangePosition)
    );
    assert_eq!(player.current_track(), Some(0));
}

#[test]
fn seek_without_a_session_does_nothing() {
    let mut player = Player::new();
    assert_eq!(player.step(Event::Command(Command::SeekTo(5))), Action::Nothing);
    assert_eq!(player.mode(), Mode::Idle);
}

#[test]
fn seek_to_another_track_keeps_the_pause() {
    let mut player = Player::new();
    loaded(&mut player, two_tracks(), 0);
    assert_eq!(player.step(Event::Command(Command::Pause)), Action::Pause);
    let serial = match player.step(Event::Command(Command::SeekTo(140))) {
        Action::Resolve { track: 1, serial } => serial,
        other => panic!("unexpected action {other:?}"),
    };
    assert_eq!(
        player.step(ready(serial)),
        Action::Start { offset: 40, token: serial, play: false }
    );
    assert_eq!(player.mode(), Mode::Paused);
}

#[test]
fn seek_that_cannot_be_resolved_changes_nothing() {
    let mut player = Player::new();
    let token = loaded(&mut player, two_tracks(), 0);
    let serial = match player.step(Event::Command(Command::SeekTo(140))) {
        Action::Resolve { track: 1, serial } => serial,
        other => panic!("unexpected action {other:?}"),
    };
    let action =
        player.step(Event::Resolved { serial, outcome: Resolution::SourceUnavailable });
    assert_eq!(action, Action::Fail(PlayerError::SourceUnavailable));
    assert_eq!(player.current_track(), Some(0));
    assert_eq!(player.mode(), Mode::Playing);
    assert_eq!(
        player.step(Event::Command(Command::SeekTo(50))),
        Action::SeekInBuffer { offset: 50 }
    );
    assert_eq!(
        player.step(Event::EndOfBuffer(token)),
        Action::Resolve { track: 1, serial: Some(2) }
    );
}

#[test]
fn play_and_pause_switch_between_playing_and_paused() {
    let mut player = Player::new();
    assert_eq!(player.step(Event::Command(Command::Play)), Action::Nothing);
    assert_eq!(player.step(Event::Command(Command::Pause)), Action::Nothing);
    loaded(&mut player, two_tracks(), 0);
    assert_eq!(player.step(Event::Command(Command::Pause)), Action::Pause);
    assert_eq!(player.mode(), Mode::Paused);
    assert_eq!(player.step(Event::Command(Command::Play)), Action::Play);
    assert_eq!(player.mode(), Mode::Playing);
}

#[test]
fn play_request_stands_for_play_or_pause() {
    assert_eq!(play_command(true), Command::Play);
    assert_eq!(play_command(false), Command::Pause);
}

#[test]
fn volume_and_position_queries_are_answered_in_every_state() {
    let mut player = Player::new();
    assert_eq!(player.step(Event::Command(Command::SetVolume(250))), Action::SetVolume(250));
    assert_eq!(player.step(Event::Command(Command::GetVolume)), Action::ReplyVolume);
    assert_eq!(player.step(Event::Command(Command::GetPosition)), Action::ReplyPosition);
    assert_eq!(player.position(0), None);
    loaded(&mut player, two_tracks(), 120);
    assert_eq!(player.step(Event::Command(Command::GetPosition)), Action::ReplyPosition);
    assert_eq!(
        player.position(20),
        Some(PositionOffset { offset: 120, duration: 150 })
    );
    assert_eq!(player.mode(), Mode::Playing);
}

#[test]
fn auto_advance_through_three_tracks_finishes_once() {
    let mut player = Player::new();
    let tracks = vec![track(0, 10, false), track(10, 10, false), track(20, 10, false)];
    let mut token = loaded(&mut player, tracks, 0);
    let mut resolutions = 0;
    let mut finishes = 0;
    let mut queued = vec![player.current_track().unwrap()];
    loop {
        match player.step(Event::EndOfBuffer(token)) {
            Action::Resolve { track, serial } => {
                resolutions += 1;
                assert_eq!(player.current_track(), Some(track));
                match player.step(ready(serial)) {
                    Action::Start { offset: 0, token: Some(next), play: true } => {
                        queued.push(track);
                        token = next;
                    },
                    other => panic!("unexpected action {other:?}"),
                }
            },
            Action::Finish => {
                finishes += 1;
                break;
            },
            other => panic!("unexpected action {other:?}"),
        }
    }
    assert_eq!(resolutions, 2);
    assert_eq!(finishes, 1);
    assert_eq!(queued, vec![0, 1, 2]);
    assert_eq!(player.mode(), Mode::Finished);
    for stale in 0..5 {
        assert_eq!(player.step(Event::EndOfBuffer(stale)), Action::Nothing);
        assert_eq!(player.mode(), Mode::Finished);
    }
}

#[test]
fn seek_leaves_the_finished_state_and_reloads_the_track() {
    let mut player = Player::new();
    let token = loaded(&mut player, vec![track(0, 10, false)], 0);
    assert_eq!(player.step(Event::EndOfBuffer(token)), Action::Finish);
    assert_eq!(player.mode(), Mode::Finished);
    let serial = match player.step(Event::Command(Command::SeekTo(4))) {
        Action::Resolve { track: 0, serial } => serial,
        other => panic!("unexpected action {other:?}"),
    };
    assert_eq!(
        player.step(ready(serial)),
        Action::Start { offset: 4, token: serial, play: true }
    );
    assert_eq!(player.mode(), Mode::Playing);
}

#[test]
fn track_that_cannot_be_read_is_skipped_during_auto_advance() {
    let mut player = Player::new();
    let tracks = vec![track(0, 10, false), track(10, 10, false), track(20, 10, false)];
    let token = loaded(&mut player, tracks, 0);
    let serial = match player.step(Event::EndOfBuffer(token)) {
        Action::Resolve { track: 1, serial } => serial,
        other => panic!("unexpected action {other:?}"),
    };
    let next = match player.step(Event::Resolved { serial, outcome: Resolution::DecodeError }) {
        Action::Resolve { track: 2, serial } => serial,
        other => panic!("unexpected action {other:?}"),
    };
    assert_eq!(player.current_track(), Some(2));
    let action =
        player.step(Event::Resolved { serial: next, outcome: Resolution::SourceUnavailable });
    assert_eq!(action, Action::Finish);
    assert_eq!(player.mode(), Mode::Finished);
    assert_eq!(player.current_track(), Some(2));
}

#[test]
fn signal_of_a_replaced_buffer_is_ignored() {
    let mut player = Player::new();
    let old = loaded(&mut player, two_tracks(), 0);
    let serial = match player.step(Event::Command(Command::SeekTo(120))) {
        Action::Resolve { serial, .. } => serial,
        other => panic!("unexpected action {other:?}"),
    };
    let new = match player.step(ready(serial)) {
        Action::Start { token: Some(token), .. } => token,
        other => panic!("unexpected action {other:?}"),
    };
    assert_ne!(old, new);
    assert_eq!(player.step(Event::EndOfBuffer(old)), Action::Nothing);
    assert_eq!(player.current_track(), Some(1));
    assert_eq!(player.mode(), Mode::Playing);
    assert_eq!(player.step(Event::EndOfBuffer(new)), Action::Finish);
    assert_eq!(player.step(Event::EndOfBuffer(old)), Action::Nothing);
    assert_eq!(player.step(Event::EndOfBuffer(new)), Action::Nothing);
}

#[test]
fn outcome_of_a_superseded_resolution_is_dropped() {
    let mut player = Player::new();
    loaded(&mut player, two_tracks(), 0);
    let first = match player.step(Event::Command(Command::SeekTo(120))) {
        Action::Resolve { serial, .. } => serial,
        other => panic!("unexpected action {other:?}"),
    };
    let second = match player.step(Event::Command(Command::SeekTo(130))) {
        Action::Resolve { serial, .. } => serial,
        other => panic!("unexpected action {other:?}"),
    };
    assert_ne!(first, second);
    assert_eq!(player.step(ready(first)), Action::Nothing);
    assert_eq!(player.current_track(), Some(0));
    assert_eq!(
        player.step(ready(second)),
        Action::Start { offset: 30, token: second, play: true }
    );
    assert_eq!(player.step(ready(second)), Action::Nothing);
}

#[test]
fn local_mode_asks_for_the_local_file_first() {
    let mut player = Player::new();
    player.use_local(true);
    player.step(Event::Load(session(vec![track(0, 10, true), track(10, 10, false)], 0)));
    assert_eq!(player.resolving().unwrap().1, SourceKind::LocalFile);
    player.step(ready(Some(0)));
    player.step(Event::Command(Command::SeekTo(15)));
    assert_eq!(player.resolving().unwrap().1, SourceKind::RemoteStream);
    player.use_local(false);
    player.step(Event::Command(Command::SeekTo(15)));
    assert_eq!(player.resolving().unwrap().1, SourceKind::RemoteStream);
}

#[test]
fn dropped_reply_is_reported_and_changes_nothing() {
    let mut player = Player::new();
    loaded(&mut player, two_tracks(), 0);
    assert_eq!(
        player.step(Event::ReplyDropped),
        Action::Fail(PlayerError::ReplyChannelClosed)
    );
    assert_eq!(player.mode(), Mode::Playing);
}

#[test]
fn closed_queue_shuts_the_loop_down() {
    let mut player = Player::new();
    assert_eq!(player.step(Event::ChannelClosed), Action::Shutdown);
    loaded(&mut player, two_tracks(), 0);
    assert_eq!(player.step(Event::ChannelClosed), Action::Shutdown);
}
