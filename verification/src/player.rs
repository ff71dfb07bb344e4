//! The event loop of the player as a state machine.
//!
//! The caller owns the audio sink, the command queue and every stream. It
//! feeds each thing that happens to [`Player::step`] as an [`Event`] and
//! carries out the [`Action`] that comes back. Opening and decoding a track
//! takes two steps: the player asks for it with [`Action::Resolve`], and the
//! caller reports how it went with [`Event::Resolved`]. Only then does the
//! player let go of the buffer that is queued, so a track that cannot be
//! read leaves everything as it was.
//!
//! Every buffer gets a serial number when it is asked for. The number comes
//! back with the decoding result and later with the end-of-buffer signal,
//! and the player listens only to the number it is waiting for: what is
//! left over from a buffer that was replaced changes nothing.

use crate::source::{first_source, SourceKind};
use crate::track::{
    lemma_locate_from, lemma_out_of_range_is_beyond_total, locate, located, total_duration,
    well_formed, Session, Track,
};
use vstd::prelude::*;

verus! {

/// What can go wrong while the player runs. None of these ends the event
/// loop.
#[derive(Debug, Clone, Copy, PartialEq, Eq)]
pub enum PlayerError {
    /// Neither the local file nor the remote stream could be opened.
    SourceUnavailable,
    /// The audio data could not be decoded.
    DecodeError,
    /// The position lies in no track of the session.
    OutOfRangePosition,
    /// The caller went away before the answer to its query was sent.
    ReplyChannelClosed,
}

/// A control command, as the control surface sends it.
#[derive(Debug, Clone, Copy, PartialEq, Eq)]
pub enum Command {
    Play,
    Pause,
    /// Move to an absolute session position.
    SeekTo(i64),
    /// Set the volume, in thousandths of full volume.
    SetVolume(u16),
    GetVolume,
    GetPosition,
}

/// The command that a play request stands for: to play if the flag is
/// set, to pause if it is not.
pub fn play_command(play: bool) -> (command: Command)
    ensures
        command == if play {
            Command::Play
        } else {
            Command::Pause
        },
{
    if play {
        Command::Play
    } else {
        Command::Pause
    }
}

/// How opening and decoding a track went.
#[derive(Debug, Clone, Copy, PartialEq, Eq)]
pub enum Resolution {
    /// The decoded buffer is ready to be queued.
    Ready,
    SourceUnavailable,
    DecodeError,
}

/// Something that happened and that the player has to react to.
#[derive(Debug, Clone, PartialEq, Eq)]
pub enum Event {
    /// A session was fetched and is to be played.
    Load(Session),
    /// A control command arrived.
    Command(Command),
    /// The buffer that was queued under this serial number was rendered to
    /// its end.
    EndOfBuffer(u64),
    /// The track asked for under this serial number was resolved, or could
    /// not be.
    Resolved { serial: Option<u64>, outcome: Resolution },
    /// An answer could not be delivered to the caller that asked.
    ReplyDropped,
    /// The command queue was closed: no caller is left.
    ChannelClosed,
}

/// What the caller has to do after a step.
#[derive(Debug, Clone, Copy, PartialEq, Eq)]
pub enum Action {
    /// Nothing.
    Nothing,
    /// Unpause the sink.
    Play,
    /// Pause the sink.
    Pause,
    /// Set the sink's volume, in thousandths of full volume.
    SetVolume(u16),
    /// Answer with the sink's volume.
    ReplyVolume,
    /// Answer with what [`Player::position`] returns for the sink's elapsed
    /// time.
    ReplyPosition,
    /// Seek inside the queued buffer.
    SeekInBuffer { offset: u64 },
    /// Open and decode the track, touching nothing else, and report the
    /// outcome as [`Event::Resolved`] with the same serial number.
    Resolve { track: usize, serial: Option<u64> },
    /// Clear the sink, queue the decoded buffer, seek to `offset`, send
    /// [`Event::EndOfBuffer`] with `token` once the buffer was rendered to
    /// its end (never, if there is no token), and unpause the sink if `play`
    /// is set.
    Start { offset: u64, token: Option<u64>, play: bool },
    /// The last track has ended: leave the sink idle.
    Finish,
    /// Surface the error: to the caller that sent the command, or to the log
    /// where no caller is left.
    Fail(PlayerError),
    /// Leave the event loop.
    Shutdown,
}

/// The states of the player.
#[derive(Debug, Clone, Copy, PartialEq, Eq)]
pub enum Mode {
    /// No session is loaded.
    Idle,
    Playing,
    Paused,
    /// The session was played to its end, or what was left of it could not
    /// be read. The sink is idle; a seek starts playback again.
    Finished,
}

/// Why a track is being resolved.
#[derive(Debug, Clone, Copy, PartialEq, Eq)]
pub enum PendingKind {
    /// To start a newly loaded session.
    Load,
    /// To seek into a track that is not queued.
    Seek,
    /// To go on with the next track after the queued one ended.
    Advance,
}

/// A track that is being resolved, in the model of the player.
pub struct PendingState {
    pub kind: PendingKind,
    /// The tracks of the session that is being loaded; empty otherwise.
    pub staged: Seq<Track>,
    /// The index of the track, in the staged session for a load and in the
    /// loaded session otherwise.
    pub track: usize,
    /// Where in the track playback is to start.
    pub offset: u64,
    /// The serial number of the buffer to be.
    pub serial: Option<u64>,
}

/// The mathematical model of a [`Player`].
pub struct PlayerState {
    /// The tracks of the loaded session, if one is loaded.
    pub tracks: Option<Seq<Track>>,
    /// The index of the active track; zero while no session is loaded.
    pub current_track: usize,
    /// Whether the sink was paused last.
    pub paused: bool,
    /// Whether the sink holds a buffer of the active track.
    pub queued: bool,
    /// Whether local files are tried before the remote stream.
    pub use_local: bool,
    /// The serial number whose end-of-buffer signal is awaited.
    pub armed: Option<u64>,
    /// The next serial number to hand out.
    pub next_serial: u64,
    /// The track that is being resolved, if any.
    pub pending: Option<PendingState>,
}

/// Hands out the next serial number: the number itself and the counter
/// after it. No number is handed out once the counter has reached its
/// maximum, so no number is ever handed out twice.
pub open spec fn issue(next: u64) -> (Option<u64>, u64) {
    if next < u64::MAX {
        (Some(next), (next + 1) as u64)
    } else {
        (None, next)
    }
}

/// Where playback goes for an absolute position: the track that the track
/// index finds and the offset inside it. `None` when the position lies
/// beyond every track, or in front of the track found.
pub open spec fn target(tracks: Seq<Track>, position: int) -> Option<(usize, u64)> {
    match located(tracks, position) {
        Some((index, offset)) => if offset >= 0 {
            Some((index as usize, offset as u64))
        } else {
            None
        },
        None => None,
    }
}

/// The error that a failed resolution is reported as.
pub open spec fn failure(outcome: Resolution) -> PlayerError {
    match outcome {
        Resolution::DecodeError => PlayerError::DecodeError,
        _ => PlayerError::SourceUnavailable,
    }
}

impl PlayerState {
    /// The state of a new player.
    pub open spec fn idle() -> PlayerState {
        PlayerState {
            tracks: None,
            current_track: 0,
            paused: false,
            queued: false,
            use_local: false,
            armed: None,
            next_serial: 0,
            pending: None,
        }
    }

    /// The invariant of the player's state.
    pub open spec fn wf(self) -> bool {
        &&& match self.tracks {
            Some(tracks) => self.current_track < tracks.len(),
            None => self.current_track == 0 && !self.paused && !self.queued,
        }
        &&& match self.armed {
            Some(token) => self.queued && token < self.next_serial,
            None => true,
        }
        &&& match self.pending {
            Some(pending) => {
                &&& match pending.serial {
                    Some(serial) => {
                        &&& serial < self.next_serial
                        &&& self.armed matches Some(token) ==> token < serial
                    },
                    None => true,
                }
                &&& match pending.kind {
                    PendingKind::Load => pending.track < pending.staged.len(),
                    PendingKind::Seek => {
                        &&& pending.staged.len() == 0
                        &&& self.tracks matches Some(tracks) && pending.track < tracks.len()
                    },
                    PendingKind::Advance => {
                        &&& pending.staged.len() == 0
                        &&& pending.offset == 0
                        &&& self.tracks is Some
                        &&& pending.track == self.current_track
                        &&& !self.queued
                    },
                }
            },
            None => true,
        }
    }

    /// The state of the player as the control surface sees it.
    pub open spec fn mode(self) -> Mode {
        if self.tracks is None {
            Mode::Idle
        } else if !self.queued && self.pending is None {
            Mode::Finished
        } else if self.paused {
            Mode::Paused
        } else {
            Mode::Playing
        }
    }

    /// Asks for a track to be resolved: hands out a serial number, notes
    /// what the track is for, and tells the caller to resolve it. A track
    /// that was being resolved before is forgotten.
    pub open spec fn begin(
        self,
        kind: PendingKind,
        staged: Seq<Track>,
        track: usize,
        offset: u64,
    ) -> (PlayerState, Action) {
        let (serial, next_serial) = issue(self.next_serial);
        (
            PlayerState {
                next_serial,
                pending: Some(PendingState { kind, staged, track, offset, serial }),
                ..self
            },
            Action::Resolve { track, serial },
        )
    }

    /// A session arrives: its start track is resolved if the reported
    /// position can be played, and nothing changes if it cannot.
    pub open spec fn load(self, tracks: Seq<Track>, current_time: int) -> (PlayerState, Action) {
        match target(tracks, current_time) {
            Some((track, offset)) => self.begin(PendingKind::Load, tracks, track, offset),
            None => (self, Action::Fail(PlayerError::OutOfRangePosition)),
        }
    }

    /// A seek arrives: inside the queued buffer if the position falls into
    /// the active track and its buffer is queued, by resolving the track
    /// found otherwise. A position that cannot be played is refused and
    /// nothing changes. Without a session there is nothing to do.
    pub open spec fn seek(self, position: int) -> (PlayerState, Action) {
        match self.tracks {
            Some(tracks) => match target(tracks, position) {
                Some((track, offset)) => if track == self.current_track && self.queued {
                    (self, Action::SeekInBuffer { offset })
                } else {
                    self.begin(PendingKind::Seek, Seq::empty(), track, offset)
                },
                None => (self, Action::Fail(PlayerError::OutOfRangePosition)),
            },
            None => (self, Action::Nothing),
        }
    }

    /// A control command arrives.
    pub open spec fn command(self, command: Command) -> (PlayerState, Action) {
        match command {
            Command::Play => if self.tracks is Some {
                (PlayerState { paused: false, ..self }, Action::Play)
            } else {
                (self, Action::Nothing)
            },
            Command::Pause => if self.tracks is Some {
                (PlayerState { paused: true, ..self }, Action::Pause)
            } else {
                (self, Action::Nothing)
            },
            Command::SeekTo(position) => self.seek(position as int),
            Command::SetVolume(level) => (self, Action::SetVolume(level)),
            Command::GetVolume => (self, Action::ReplyVolume),
            Command::GetPosition => (self, Action::ReplyPosition),
        }
    }

    /// The active track is done with, because it ended or because it could
    /// not be read: the next track becomes the active one and is resolved,
    /// or, after the last track, the player is finished.
    pub open spec fn advance(self) -> (PlayerState, Action) {
        let has_next = self.tracks matches Some(tracks) && self.current_track + 1 < tracks.len();
        if has_next {
            let next = (self.current_track + 1) as usize;
            PlayerState { current_track: next, queued: false, armed: None, ..self }.begin(
                PendingKind::Advance,
                Seq::empty(),
                next,
                0,
            )
        } else {
            (PlayerState { queued: false, armed: None, pending: None, ..self }, Action::Finish)
        }
    }

    /// An end-of-buffer signal arrives: the player advances if the signal
    /// is the awaited one, and nothing happens if it is not.
    pub open spec fn end_of_buffer(self, token: u64) -> (PlayerState, Action) {
        if self.armed == Some(token) {
            self.advance()
        } else {
            (self, Action::Nothing)
        }
    }

    /// The outcome of resolving a track arrives. It is dropped unless it
    /// carries the serial number of the track that is being resolved. A
    /// ready buffer is queued in place of the old one. A track that could
    /// not be read is skipped during auto-advance; for a load or a seek the
    /// error is surfaced and nothing else changes.
    pub open spec fn resolved(self, serial: Option<u64>, outcome: Resolution) -> (
        PlayerState,
        Action,
    ) {
        match self.pending {
            Some(pending) => if pending.serial != serial {
                (self, Action::Nothing)
            } else if outcome is Ready {
                match pending.kind {
                    PendingKind::Load => (
                        PlayerState {
                            tracks: Some(pending.staged),
                            current_track: pending.track,
                            paused: false,
                            queued: true,
                            armed: pending.serial,
                            pending: None,
                            ..self
                        },
                        Action::Start { offset: pending.offset, token: pending.serial, play: true },
                    ),
                    _ => (
                        PlayerState {
                            current_track: pending.track,
                            queued: true,
                            armed: pending.serial,
                            pending: None,
                            ..self
                        },
                        Action::Start {
                            offset: pending.offset,
                            token: pending.serial,
                            play: !self.paused,
                        },
                    ),
                }
            } else if pending.kind is Advance {
                self.advance()
            } else {
                (PlayerState { pending: None, ..self }, Action::Fail(failure(outcome)))
            },
            None => (self, Action::Nothing),
        }
    }

    /// The transition function of the player: the state after an event and
    /// the action that the caller has to carry out.
    pub open spec fn step(self, event: Event) -> (PlayerState, Action) {
        match event {
            Event::Load(session) => self.load(session.tracks@, session.current_time as int),
            Event::Command(command) => self.command(command),
            Event::EndOfBuffer(token) => self.end_of_buffer(token),
            Event::Resolved { serial, outcome } => self.resolved(serial, outcome),
            Event::ReplyDropped => (self, Action::Fail(PlayerError::ReplyChannelClosed)),
            Event::ChannelClosed => (self, Action::Shutdown),
        }
    }

    /// The track list that the track being resolved belongs to.
    pub open spec fn resolving_in(self) -> Seq<Track> {
        match self.pending {
            Some(pending) => if pending.kind is Load {
                pending.staged
            } else {
                match self.tracks {
                    Some(tracks) => tracks,
                    None => Seq::empty(),
                }
            },
            None => Seq::empty(),
        }
    }

    /// Whether the player still listens to a serial number: it awaits its
    /// end-of-buffer signal, or the outcome of resolving its track.
    pub open spec fn listens_to(self, serial: u64) -> bool {
        ||| self.armed == Some(serial)
        ||| self.pending matches Some(pending) && pending.serial == Some(serial)
    }
}

/// The track that `target` names is one of the list, and its offset is
/// the one that the track index gives.
pub proof fn lemma_target(tracks: Seq<Track>, position: int)
    requires
        i64::MIN <= position <= i64::MAX,
    ensures
        match target(tracks, position) {
            Some((track, offset)) => {
                &&& track < tracks.len()
                &&& located(tracks, position) matches Some((index, distance))
                &&& index == track || index > usize::MAX
                &&& distance == offset
            },
            None => true,
        },
{
    lemma_locate_from(tracks, position, 0);
}

/// The transition function keeps the invariant.
pub proof fn lemma_step_keeps_wf(state: PlayerState, event: Event)
    requires
        state.wf(),
    ensures
        state.step(event).0.wf(),
{
    match event {
        Event::Load(session) => {
            lemma_target(session.tracks@, session.current_time as int);
        },
        Event::Command(Command::SeekTo(position)) => {
            if state.tracks is Some {
                lemma_target(state.tracks.unwrap(), position as int);
            }
        },
        _ => {},
    }
}

/// The state after a sequence of events, one step for each.
pub open spec fn run(state: PlayerState, events: Seq<Event>) -> PlayerState
    decreases events.len(),
{
    if events.len() == 0 {
        state
    } else {
        run(state.step(events[0]).0, events.drop_first())
    }
}

/// Running a sequence of events keeps the invariant.
pub proof fn lemma_run_keeps_wf(state: PlayerState, events: Seq<Event>)
    requires
        state.wf(),
    ensures
        run(state, events).wf(),
    decreases events.len(),
{
    if events.len() > 0 {
        lemma_step_keeps_wf(state, events[0]);
        lemma_run_keeps_wf(state.step(events[0]).0, events.drop_first());
    }
}

/// A seek to a position beyond the total duration of a well-formed session
/// is refused as out of range and leaves the state as it was.
pub proof fn lemma_seek_beyond_total(state: PlayerState, position: i64)
    requires
        state.wf(),
        state.tracks matches Some(tracks) && well_formed(tracks) && position > total_duration(
            tracks,
        ),
    ensures
        state.step(Event::Command(Command::SeekTo(position))) == (
            state,
            Action::Fail(PlayerError::OutOfRangePosition),
        ),
{
    lemma_out_of_range_is_beyond_total(state.tracks.unwrap(), position as int);
}

/// When the awaited end-of-buffer signal arrives on the last track the
/// player is finished, and every signal after that changes nothing and
/// asks for nothing.
pub proof fn lemma_finished_is_terminal(state: PlayerState, token: u64, later: u64)
    requires
        state.wf(),
        state.tracks matches Some(tracks) && state.current_track + 1 == tracks.len(),
        state.armed == Some(token),
    ensures
        ({
            let (after, action) = state.step(Event::EndOfBuffer(token));
            &&& action == Action::Finish
            &&& after.mode() == Mode::Finished
            &&& after.step(Event::EndOfBuffer(later)) == (after, Action::Nothing)
        }),
{
}

/// A finished player ignores every end-of-buffer signal.
pub proof fn lemma_finished_ignores_signals(state: PlayerState, token: u64)
    requires
        state.wf(),
        state.mode() == Mode::Finished,
    ensures
        state.step(Event::EndOfBuffer(token)) == (state, Action::Nothing),
{
}

/// A step that ends the wait for an end-of-buffer signal, by clearing the
/// sink for another buffer or otherwise, retires the serial number: the
/// player no longer listens to it.
pub proof fn lemma_replaced_buffer_is_retired(state: PlayerState, event: Event, token: u64)
    requires
        state.wf(),
        state.armed == Some(token),
        state.step(event).0.armed != Some(token),
    ensures
        token < state.step(event).0.next_serial,
        !state.step(event).0.listens_to(token),
{
    lemma_step_keeps_wf(state, event);
}

/// Whenever the caller is told to clear the sink for another buffer, or to
/// leave it idle, the serial number of the buffer that was queued until
/// then is retired.
pub proof fn lemma_clearing_retires_the_queued_buffer(
    state: PlayerState,
    event: Event,
    token: u64,
)
    requires
        state.wf(),
        state.armed == Some(token),
        state.step(event).1 is Start || state.step(event).1 is Finish,
    ensures
        token < state.step(event).0.next_serial,
        !state.step(event).0.listens_to(token),
{
    lemma_step_keeps_wf(state, event);
}

/// A serial number that was handed out and that the player does not listen
/// to is never listened to again.
pub proof fn lemma_retired_stays_retired(state: PlayerState, event: Event, serial: u64)
    requires
        state.wf(),
        serial < state.next_serial,
        !state.listens_to(serial),
    ensures
        serial < state.step(event).0.next_serial,
        !state.step(event).0.listens_to(serial),
{
}

/// Whatever happens after a buffer was discarded, its end-of-buffer signal
/// and the outcome of resolving it change nothing and ask for nothing.
pub proof fn lemma_discarded_buffer_never_signals(
    state: PlayerState,
    serial: u64,
    events: Seq<Event>,
    outcome: Resolution,
)
    requires
        state.wf(),
        serial < state.next_serial,
        !state.listens_to(serial),
    ensures
        ({
            let later = run(state, events);
            &&& later.step(Event::EndOfBuffer(serial)) == (later, Action::Nothing)
            &&& later.step(Event::Resolved { serial: Some(serial), outcome }) == (
                later,
                Action::Nothing,
            )
        }),
    decreases events.len(),
{
    if events.len() > 0 {
        lemma_step_keeps_wf(state, events[0]);
        lemma_retired_stays_retired(state, events[0], serial);
        lemma_discarded_buffer_never_signals(
            state.step(events[0]).0,
            serial,
            events.drop_first(),
            outcome,
        );
    }
}

/// Only the closing of the command queue ends the event loop.
pub proof fn lemma_only_closed_queue_shuts_down(state: PlayerState, event: Event)
    ensures
        state.step(event).1 == Action::Shutdown <==> event is ChannelClosed,
{
}

/// The playing state: the session that is loaded and the track that is
/// active in it.
struct PlayingState {
    session: Session,
    current_track: usize,
}

/// A track that is being resolved.
struct Pending {
    kind: PendingKind,
    /// The session that is being loaded; `None` for a seek or an advance.
    staged: Option<Session>,
    track: usize,
    offset: u64,
    serial: Option<u64>,
}

/// The answer to a position query.
#[derive(Debug, Clone, Copy, PartialEq, Eq)]
pub struct PositionOffset {
    /// The absolute session position that is playing.
    pub offset: i128,
    /// The total duration of the session.
    pub duration: i128,
}

/// The player: what is loaded, what is queued in the sink, and what is
/// being resolved.
pub struct Player {
    playing: Option<PlayingState>,
    paused: bool,
    queued: bool,
    use_local: bool,
    armed: Option<u64>,
    next_serial: u64,
    pending: Option<Pending>,
}

impl Pending {
    spec fn model(self) -> PendingState {
        PendingState {
            kind: self.kind,
            staged: match self.staged {
                Some(session) => session.tracks@,
                None => Seq::empty(),
            },
            track: self.track,
            offset: self.offset,
            serial: self.serial,
        }
    }
}

impl View for Player {
    type V = PlayerState;

    closed spec fn view(&self) -> PlayerState {
        PlayerState {
            tracks: match self.playing {
                Some(playing) => Some(playing.session.tracks@),
                None => None,
            },
            current_track: match self.playing {
                Some(playing) => playing.current_track,
                None => 0,
            },
            paused: self.paused,
            queued: self.queued,
            use_local: self.use_local,
            armed: self.armed,
            next_serial: self.next_serial,
            pending: match self.pending {
                Some(pending) => Some(pending.model()),
                None => None,
            },
        }
    }
}

/// Whether two serial numbers are the same.
fn same_serial(a: Option<u64>, b: Option<u64>) -> (same: bool)
    ensures
        same == (a == b),
{
    match (a, b) {
        (Some(x), Some(y)) => x == y,
        (None, None) => true,
        _ => false,
    }
}

/// Makes another track of the loaded session the active one.
fn set_current_track(playing: &mut Option<PlayingState>, track: usize)
    ensures
        *final(playing) == match *old(playing) {
            Some(state) => Some(PlayingState { session: state.session, current_track: track }),
            None => None,
        },
    no_unwind
{
    match playing {
        Some(state) => {
            state.current_track = track;
        },
        None => {},
    }
}

/// Where playback goes for an absolute position.
fn find_target(tracks: &Vec<Track>, position: i64) -> (found: Option<(usize, u64)>)
    ensures
        found == target(tracks@, position as int),
{
    match locate(tracks, position) {
        Some((index, offset)) => {
            if offset >= 0 {
                Some((index, offset as u64))
            } else {
                None
            }
        },
        None => None,
    }
}

impl Player {
    #[verifier::type_invariant]
    spec fn inv(self) -> bool {
        &&& self@.wf()
        &&& self.pending matches Some(pending) ==> (pending.staged is Some
            <==> pending.kind is Load)
    }

    /// A player without a session.
    pub fn new() -> (player: Player)
        ensures
            player@ == PlayerState::idle(),
    {
        Player {
            playing: None,
            paused: false,
            queued: false,
            use_local: false,
            armed: None,
            next_serial: 0,
            pending: None,
        }
    }

    /// Says whether audio files are first looked for on the local file
    /// system, which works when the player runs on the server's machine.
    pub fn use_local(&mut self, use_local: bool)
        ensures
            final(self)@ == (PlayerState { use_local, ..old(self)@ }),
    {
        proof {
            use_type_invariant(&*self);
        }
        self.use_local = use_local;
    }

    fn begin(
        &mut self,
        kind: PendingKind,
        staged: Option<Session>,
        track: usize,
        offset: u64,
    ) -> (action: Action)
        requires
            match kind {
                PendingKind::Load => staged matches Some(session) && track < session.tracks.len(),
                PendingKind::Seek => {
                    &&& staged is None
                    &&& old(self)@.tracks matches Some(tracks) && track < tracks.len()
                },
                PendingKind::Advance => {
                    &&& staged is None
                    &&& offset == 0
                    &&& old(self)@.tracks is Some
                    &&& track == old(self)@.current_track
                    &&& !old(self)@.queued
                },
            },
        ensures
            (final(self)@, action) == old(self)@.begin(
                kind,
                match staged {
                    Some(session) => session.tracks@,
                    None => Seq::empty(),
                },
                track,
                offset,
            ),
    {
        proof {
            use_type_invariant(&*self);
        }
        let serial = if self.next_serial < u64::MAX {
            let serial = self.next_serial;
            self.next_serial = serial + 1;
            Some(serial)
        } else {
            None
        };
        self.pending = Some(Pending { kind, staged, track, offset, serial });
        Action::Resolve { track, serial }
    }

    fn load(&mut self, session: Session) -> (action: Action)
        ensures
            (final(self)@, action) == old(self)@.load(
                session.tracks@,
                session.current_time as int,
            ),
    {
        proof {
            lemma_target(session.tracks@, session.current_time as int);
        }
        match find_target(&session.tracks, session.current_time) {
            Some((track, offset)) => self.begin(PendingKind::Load, Some(session), track, offset),
            None => Action::Fail(PlayerError::OutOfRangePosition),
        }
    }

    fn seek(&mut self, position: i64) -> (action: Action)
        ensures
            (final(self)@, action) == old(self)@.seek(position as int),
    {
        proof {
            use_type_invariant(&*self);
        }
        let found = match &self.playing {
            Some(playing) => {
                proof {
                    lemma_target(playing.session.tracks@, position as int);
                }
                match find_target(&playing.session.tracks, position) {
                    Some((track, offset)) => Some(
                        (track, offset, track == playing.current_track && self.queued),
                    ),
                    None => None,
                }
            },
            None => {
                return Action::Nothing;
            },
        };
        match found {
            Some((track, offset, in_buffer)) => {
                if in_buffer {
                    Action::SeekInBuffer { offset }
                } else {
                    self.begin(PendingKind::Seek, None, track, offset)
                }
            },
            None => Action::Fail(PlayerError::OutOfRangePosition),
        }
    }

    fn command(&mut self, command: Command) -> (action: Action)
        ensures
            (final(self)@, action) == old(self)@.command(command),
    {
        proof {
            use_type_invariant(&*self);
        }
        match command {
            Command::Play => {
                if self.playing.is_some() {
                    self.paused = false;
                    Action::Play
                } else {
                    Action::Nothing
                }
            },
            Command::Pause => {
                if self.playing.is_some() {
                    self.paused = true;
                    Action::Pause
                } else {
                    Action::Nothing
                }
            },
            Command::SeekTo(position) => self.seek(position),
            Command::SetVolume(level) => Action::SetVolume(level),
            Command::GetVolume => Action::ReplyVolume,
            Command::GetPosition => Action::ReplyPosition,
        }
    }

    fn advance(&mut self) -> (action: Action)
        ensures
            (final(self)@, action) == old(self)@.advance(),
    {
        proof {
            use_type_invariant(&*self);
        }
        self.armed = None;
        self.queued = false;
        self.pending = None;
        let next = match &self.playing {
            Some(playing) => {
                if playing.session.tracks.len() - playing.current_track > 1 {
                    Some(playing.current_track + 1)
                } else {
                    None
                }
            },
            None => None,
        };
        match next {
            Some(next) => {
                set_current_track(&mut self.playing, next);
                self.begin(PendingKind::Advance, None, next, 0)
            },
            None => Action::Finish,
        }
    }

    fn end_of_buffer(&mut self, token: u64) -> (action: Action)
        ensures
            (final(self)@, action) == old(self)@.end_of_buffer(token),
    {
        if same_serial(self.armed, Some(token)) {
            self.advance()
        } else {
            Action::Nothing
        }
    }

    fn resolved(&mut self, serial: Option<u64>, outcome: Resolution) -> (action: Action)
        ensures
            (final(self)@, action) == old(self)@.resolved(serial, outcome),
    {
        proof {
            use_type_invariant(&*self);
        }
        let awaited = match &self.pending {
            Some(pending) => Some((pending.kind, same_serial(pending.serial, serial))),
            None => None,
        };
        match awaited {
            Some((kind, true)) => {
                match outcome {
                    Resolution::Ready => self.queue(),
                    _ => match kind {
                        PendingKind::Advance => self.advance(),
                        _ => {
                            self.pending = None;
                            match outcome {
                                Resolution::DecodeError => Action::Fail(PlayerError::DecodeError),
                                _ => Action::Fail(PlayerError::SourceUnavailable),
                            }
                        },
                    },
                }
            },
            _ => Action::Nothing,
        }
    }

    /// Queues the buffer of the track that was being resolved.
    fn queue(&mut self) -> (action: Action)
        requires
            old(self)@.pending is Some,
        ensures
            (final(self)@, action) == old(self)@.resolved(
                old(self)@.pending.unwrap().serial,
                Resolution::Ready,
            ),
    {
        proof {
            use_type_invariant(&*self);
        }
        let mut resolved: Option<Pending> = None;
        core::mem::swap(&mut self.pending, &mut resolved);
        match resolved {
            Some(Pending { kind, staged, track, offset, serial }) => {
                self.armed = None;
                let play = match staged {
                    Some(session) => {
                        self.playing = Some(PlayingState { session, current_track: track });
                        self.paused = false;
                        true
                    },
                    None => {
                        set_current_track(&mut self.playing, track);
                        !self.paused
                    },
                };
                self.queued = true;
                self.armed = serial;
                Action::Start { offset, token: serial, play }
            },
            None => Action::Nothing,
        }
    }

    /// Reacts to an event: moves the player to its next state and returns
    /// what the caller has to do.
    pub fn step(&mut self, event: Event) -> (action: Action)
        ensures
            (final(self)@, action) == old(self)@.step(event),
            final(self)@.wf(),
    {
        let action = match event {
            Event::Load(session) => self.load(session),
            Event::Command(command) => self.command(command),
            Event::EndOfBuffer(token) => self.end_of_buffer(token),
            Event::Resolved { serial, outcome } => self.resolved(serial, outcome),
            Event::ReplyDropped => Action::Fail(PlayerError::ReplyChannelClosed),
            Event::ChannelClosed => Action::Shutdown,
        };
        proof {
            use_type_invariant(&*self);
        }
        action
    }

    /// The state of the player as the control surface sees it.
    pub fn mode(&self) -> (mode: Mode)
        ensures
            mode == self@.mode(),
            self@.wf(),
    {
        proof {
            use_type_invariant(self);
        }
        if self.playing.is_none() {
            Mode::Idle
        } else if !self.queued && self.pending.is_none() {
            Mode::Finished
        } else if self.paused {
            Mode::Paused
        } else {
            Mode::Playing
        }
    }

    /// The index of the active track, if a session is loaded.
    pub fn current_track(&self) -> (index: Option<usize>)
        ensures
            index == if self@.tracks is Some {
                Some(self@.current_track)
            } else {
                None
            },
    {
        match &self.playing {
            Some(playing) => Some(playing.current_track),
            None => None,
        }
    }

    /// The tracks of the loaded session, if one is loaded.
    pub fn tracks(&self) -> (tracks: Option<&Vec<Track>>)
        ensures
            match tracks {
                Some(list) => self@.tracks == Some(list@),
                None => self@.tracks is None,
            },
    {
        match &self.playing {
            Some(playing) => Some(&playing.session.tracks),
            None => None,
        }
    }

    /// The track that the caller was last asked to resolve and has not
    /// reported on yet, with the kind of source to try first.
    pub fn resolving(&self) -> (wanted: Option<(&Track, SourceKind)>)
        ensures
            match wanted {
                Some((track, kind)) => {
                    &&& self@.pending matches Some(pending)
                    &&& *track == self@.resolving_in()[pending.track as int]
                    &&& kind == crate::source::first_choice(
                        self@.use_local,
                        track.local_path is Some,
                    )
                },
                None => self@.pending is None,
            },
    {
        proof {
            use_type_invariant(self);
        }
        match &self.pending {
            Some(pending) => {
                let track = match &pending.staged {
                    Some(session) => &session.tracks[pending.track],
                    None => match &self.playing {
                        Some(playing) => &playing.session.tracks[pending.track],
                        None => {
                            proof {
                                assert(false);
                            }
                            return None;
                        },
                    },
                };
                Some((track, first_source(self.use_local, track)))
            },
            None => None,
        }
    }

    /// The answer to a position query, given the time that the sink has
    /// rendered of the queued buffer: the start of the active track plus
    /// that time, and the total duration of the session. `None` when no
    /// session is loaded.
    pub fn position(&self, elapsed: i64) -> (reply: Option<PositionOffset>)
        ensures
            match reply {
                Some(answer) => {
                    &&& self@.tracks matches Some(tracks)
                    &&& answer.offset == tracks[self@.current_track as int].start_offset
                        + elapsed
                    &&& answer.duration == total_duration(tracks)
                },
                None => self@.tracks is None,
            },
    {
        proof {
            use_type_invariant(self);
        }
        match &self.playing {
            Some(playing) => {
                let tracks = &playing.session.tracks;
                let active = &tracks[playing.current_track];
                let last = &tracks[tracks.len() - 1];
                Some(
                    PositionOffset {
                        offset: active.start_offset as i128 + elapsed as i128,
                        duration: last.start_offset as i128 + last.duration as i128,
                    },
                )
            },
            None => None,
        }
    }
}

} // verus!
