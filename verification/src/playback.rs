//! Playback state and the decisions of the decoder thread.
//!
//! The decoder thread alternates audio I/O (decoding packets, feeding the
//! output device) with decisions on the commands it receives. The decisions
//! live here: each takes the shared state and a command or an I/O outcome,
//! updates the state, and lists the actions (output-device calls, events for
//! the GUI) that the thread is to carry out.
use vstd::prelude::*;
use std::time::Instant;
use crate::clock::{duration_secs, instant_elapsed, instant_now};
use crate::song::{SongInfo, SongView};

verus! {

/// Current playback status.
#[derive(Debug, Clone, Copy, PartialEq, Eq, Structural)]
pub enum PlaybackStatus {
    /// No song loaded, engine is idle.
    Stopped,
    /// A song is actively playing.
    Playing,
    /// Playback is paused at the current position.
    Paused,
    /// The decoder is pre-filling the output buffer before playback starts.
    Buffering,
}

/// The view of an optional song.
pub open spec fn opt_song(o: Option<SongInfo>) -> Option<SongView> {
    match o {
        Some(s) => Some(s@),
        None => None,
    }
}

/// The single source of truth for all playback state.
#[derive(Debug)]
pub struct PlaybackState {
    /// Current playback status.
    pub status: PlaybackStatus,
    /// Info about the song currently loaded (if any).
    pub current_song: Option<SongInfo>,
    /// Current playback position in milliseconds.
    pub position_ms: u64,
    /// Total duration of the current song in milliseconds.
    pub duration_ms: u64,
    /// Master volume in thousandths, `0..=1000`.
    pub volume_permille: u32,
    /// Whether output is muted (volume is remembered but output is silent).
    pub muted: bool,
    /// When the current uninterrupted play segment started.
    pub listen_start: Option<Instant>,
    /// Accumulated seconds of actual playback (pauses excluded).
    pub listened_secs: u32,
}

/// `listened` plus `extra` seconds, saturating at `u32::MAX`.
pub open spec fn add_listen(listened: u32, extra: u32) -> u32 {
    if listened as int + extra as int > u32::MAX {
        u32::MAX
    } else {
        (listened + extra) as u32
    }
}

/// Clamps a volume in thousandths to `0..=1000`.
pub open spec fn clamped_volume(v: int) -> u32 {
    if v < 0 {
        0
    } else if v > 1000 {
        1000
    } else {
        v as u32
    }
}

/// Clamps a volume in thousandths to `0..=1000`.
pub fn clamp_volume(v: i64) -> (r: u32)
    ensures
        r == clamped_volume(v as int),
{
    if v < 0 {
        0
    } else if v > 1000 {
        1000
    } else {
        v as u32
    }
}

impl Default for PlaybackState {
    fn default() -> (r: Self)
        ensures
            r.status == PlaybackStatus::Stopped,
            r.current_song is None,
            r.position_ms == 0,
            r.duration_ms == 0,
            r.volume_permille == 1000,
            !r.muted,
            r.listen_start is None,
            r.listened_secs == 0,
    {
        PlaybackState {
            status: PlaybackStatus::Stopped,
            current_song: None,
            position_ms: 0,
            duration_ms: 0,
            volume_permille: 1000,
            muted: false,
            listen_start: None,
            listened_secs: 0,
        }
    }
}

/// `s` and `t` agree on everything but the listening clock.
pub open spec fn same_but_listening(s: PlaybackState, t: PlaybackState) -> bool {
    &&& t.status == s.status
    &&& opt_song(t.current_song) == opt_song(s.current_song)
    &&& t.position_ms == s.position_ms
    &&& t.duration_ms == s.duration_ms
    &&& t.volume_permille == s.volume_permille
    &&& t.muted == s.muted
}

/// `t` is `s` stopped: no song, position and listening reset, volume and mute
/// kept.
pub open spec fn stopped_from(s: PlaybackState, t: PlaybackState) -> bool {
    &&& t.status == PlaybackStatus::Stopped
    &&& t.current_song is None
    &&& t.position_ms == 0
    &&& t.duration_ms == 0
    &&& t.volume_permille == s.volume_permille
    &&& t.muted == s.muted
    &&& t.listen_start is None
    &&& t.listened_secs == 0
}

/// `t` is `s` with the current segment folded into the listened total:
/// nothing changes when no segment is open; otherwise the segment closes and
/// adds its whole seconds (`extra`).
pub open spec fn accumulated(s: PlaybackState, t: PlaybackState, extra: u32) -> bool {
    &&& same_but_listening(s, t)
    &&& t.listen_start is None
    &&& t.listened_secs == (if s.listen_start is Some { add_listen(s.listened_secs, extra) } else { s.listened_secs })
}

impl PlaybackState {
    /// Seconds heard so far when the open segment (if playing) has lasted
    /// `segment_secs`.
    pub fn listened_after(&self, segment_secs: u64) -> (r: u32)
        ensures
            r == (if self.status == PlaybackStatus::Playing && self.listen_start is Some {
                add_listen(self.listened_secs, segment_secs as u32)
            } else {
                self.listened_secs
            }),
    {
        if self.status == PlaybackStatus::Playing && self.listen_start.is_some() {
            let extra = segment_secs as u32;
            self.listened_secs.saturating_add(extra)
        } else {
            self.listened_secs
        }
    }

    /// Returns the total seconds the user has actually heard of this song:
    /// the accumulated seconds plus, while playing, those of the open segment.
    pub fn elapsed_listen_secs(&self) -> (r: u32)
        ensures
            !(self.status == PlaybackStatus::Playing && self.listen_start is Some) ==> r == self.listened_secs,
            self.status == PlaybackStatus::Playing && self.listen_start is Some ==> exists|e: u32|
                r == #[trigger] add_listen(self.listened_secs, e),
    {
        match &self.listen_start {
            Some(start) => {
                if self.status == PlaybackStatus::Playing {
                    let e = duration_secs(&instant_elapsed(start));
                    let r = self.listened_after(e);
                    assert(r == add_listen(self.listened_secs, e as u32));
                    r
                } else {
                    self.listened_secs
                }
            },
            None => self.listened_secs,
        }
    }

    /// Folds the open listening segment (if any) into `listened_secs` and
    /// closes it.
    pub fn accumulate_listen(&mut self)
        ensures
            exists|e: u32| #[trigger] accumulated(*old(self), *final(self), e),
    {
        let ghost old_self = *self;
        let mut start: Option<Instant> = None;
        std::mem::swap(&mut start, &mut self.listen_start);
        match start {
            Some(st) => {
                let e = duration_secs(&instant_elapsed(&st)) as u32;
                self.listened_secs = self.listened_secs.saturating_add(e);
                assert(accumulated(old_self, *self, e));
            },
            None => {
                assert(accumulated(old_self, *self, 0));
            },
        }
    }

    /// Resets the state to stopped.
    pub fn set_stopped(&mut self)
        ensures
            stopped_from(*old(self), *final(self)),
    {
        self.status = PlaybackStatus::Stopped;
        self.current_song = None;
        self.position_ms = 0;
        self.duration_ms = 0;
        self.listen_start = None;
        self.listened_secs = 0;
    }
}

/// Where the decoder thread is: waiting for a song, playing one, or paused.
#[derive(Debug, Clone, Copy, PartialEq, Eq, Structural)]
pub enum EnginePhase {
    Idle,
    Playing,
    Paused,
}

/// Commands sent from the GUI thread to the decoder thread.
#[derive(Debug)]
pub enum PlaybackCommand {
    /// Load and begin playing a new song immediately.
    Play(SongInfo),
    /// Pause playback at the current position.
    Pause,
    /// Resume playback from the paused position.
    Resume,
    /// Stop playback entirely and reset state.
    Stop,
    /// Seek to a position in milliseconds.
    Seek(u64),
    /// Set the master volume in thousandths.
    SetVolume(u32),
    /// Mute audio output (volume is remembered).
    Mute,
    /// Unmute audio output.
    Unmute,
    /// Hint to the decoder to begin pre-decoding the next song.
    PreloadNext(SongInfo),
}

/// Events sent from the playback engine back to the GUI.
#[derive(Debug)]
pub enum PlaybackEvent {
    /// A new song has started playing.
    Playing(SongInfo),
    /// Playback was paused at `position_ms`.
    Paused { position_ms: u64 },
    /// Playback was resumed.
    Resumed,
    /// Playback was stopped.
    Stopped,
    /// A seek operation completed.
    Seeked { position_ms: u64 },
    /// Periodic position update.
    PositionUpdate { position_ms: u64, listened_secs: u32 },
    /// The current song has finished playing.
    SongEnded { song_id: String, listened_secs: u32, duration_ms: u64 },
    /// The decoder has begun pre-filling the output buffer.
    BufferingStarted,
    /// The buffer is sufficiently filled; playback is starting.
    BufferingComplete,
    /// A non-fatal error occurred during playback.
    Error(String),
    /// Volume was changed (thousandths).
    VolumeChanged(u32),
}

/// What the decoder thread is to do after a decision.
#[derive(Debug)]
pub enum EngineAction {
    /// Open and start playing this song.
    StartSong(SongInfo),
    /// Seek the decoder to this position (milliseconds).
    SeekDecoder(u64),
    /// Discard the decoded audio still waiting in the output buffer.
    FlushOutput,
    /// Set the output device volume (thousandths).
    SetOutputVolume(u32),
    /// Mute or unmute the output device.
    SetOutputMuted(bool),
    /// Record that a preload hint arrived for the song with this title.
    NotePreload(String),
    /// Send this event to the GUI.
    Emit(PlaybackEvent),
}

/// Abstract form of an action, for contracts.
pub enum ActionKind {
    StartSong(SongView),
    SeekDecoder(u64),
    FlushOutput,
    SetOutputVolume(u32),
    SetOutputMuted(bool),
    NotePreload(Seq<char>),
    EmitPaused(u64),
    EmitResumed,
    EmitStopped,
    EmitVolumeChanged(u32),
    EmitSeeked(u64),
    EmitError(Seq<char>),
    EmitOther,
}

/// The abstract form of an action.
pub open spec fn action_kind(a: EngineAction) -> ActionKind {
    match a {
        EngineAction::StartSong(s) => ActionKind::StartSong(s@),
        EngineAction::SeekDecoder(p) => ActionKind::SeekDecoder(p),
        EngineAction::FlushOutput => ActionKind::FlushOutput,
        EngineAction::SetOutputVolume(v) => ActionKind::SetOutputVolume(v),
        EngineAction::SetOutputMuted(m) => ActionKind::SetOutputMuted(m),
        EngineAction::NotePreload(t) => ActionKind::NotePreload(t@),
        EngineAction::Emit(PlaybackEvent::Paused { position_ms }) => ActionKind::EmitPaused(position_ms),
        EngineAction::Emit(PlaybackEvent::Resumed) => ActionKind::EmitResumed,
        EngineAction::Emit(PlaybackEvent::Stopped) => ActionKind::EmitStopped,
        EngineAction::Emit(PlaybackEvent::VolumeChanged(v)) => ActionKind::EmitVolumeChanged(v),
        EngineAction::Emit(PlaybackEvent::Seeked { position_ms }) => ActionKind::EmitSeeked(position_ms),
        EngineAction::Emit(PlaybackEvent::Error(m)) => ActionKind::EmitError(m@),
        EngineAction::Emit(_) => ActionKind::EmitOther,
    }
}

/// The abstract forms of a list of actions.
pub open spec fn action_kinds(s: Seq<EngineAction>) -> Seq<ActionKind> {
    s.map_values(|a: EngineAction| action_kind(a))
}

/// Applies a volume or mute command, which every phase handles alike.
fn apply_output_command(state: &mut PlaybackState, cmd: &PlaybackCommand, actions: &mut Vec<EngineAction>)
    requires
        cmd is SetVolume || cmd is Mute || cmd is Unmute,
    ensures
        final(state).status == old(state).status,
        opt_song(final(state).current_song) == opt_song(old(state).current_song),
        final(state).position_ms == old(state).position_ms,
        final(state).duration_ms == old(state).duration_ms,
        final(state).listen_start == old(state).listen_start,
        final(state).listened_secs == old(state).listened_secs,
        match *cmd {
            PlaybackCommand::SetVolume(v) => {
                &&& final(state).volume_permille == clamped_volume(v as int)
                &&& final(state).muted == old(state).muted
                &&& action_kinds(final(actions)@) == action_kinds(old(actions)@) + seq![
                    ActionKind::SetOutputVolume(clamped_volume(v as int)),
                    ActionKind::EmitVolumeChanged(clamped_volume(v as int)),
                ]
            },
            PlaybackCommand::Mute => {
                &&& final(state).volume_permille == old(state).volume_permille
                &&& final(state).muted
                &&& action_kinds(final(actions)@) == action_kinds(old(actions)@) + seq![ActionKind::SetOutputMuted(true)]
            },
            _ => {
                &&& final(state).volume_permille == old(state).volume_permille
                &&& !final(state).muted
                &&& action_kinds(final(actions)@) == action_kinds(old(actions)@) + seq![ActionKind::SetOutputMuted(false)]
            },
        },
{
    let ghost a0 = actions@;
    match cmd {
        PlaybackCommand::SetVolume(v) => {
            let c = clamp_volume(*v as i64);
            actions.push(EngineAction::SetOutputVolume(c));
            state.volume_permille = c;
            actions.push(EngineAction::Emit(PlaybackEvent::VolumeChanged(c)));
            assert(action_kinds(actions@) =~= action_kinds(a0) + seq![
                ActionKind::SetOutputVolume(c),
                ActionKind::EmitVolumeChanged(c),
            ]);
        },
        PlaybackCommand::Mute => {
            actions.push(EngineAction::SetOutputMuted(true));
            state.muted = true;
            assert(action_kinds(actions@) =~= action_kinds(a0) + seq![ActionKind::SetOutputMuted(true)]);
        },
        _ => {
            actions.push(EngineAction::SetOutputMuted(false));
            state.muted = false;
            assert(action_kinds(actions@) =~= action_kinds(a0) + seq![ActionKind::SetOutputMuted(false)]);
        },
    }
}

/// `t` equals `s` in every field.
pub open spec fn unchanged(s: PlaybackState, t: PlaybackState) -> bool {
    &&& same_but_listening(s, t)
    &&& t.listen_start == s.listen_start
    &&& t.listened_secs == s.listened_secs
}

/// `t` is `s` with its volume or mute flag set as `cmd` asks.
pub open spec fn output_applied(s: PlaybackState, t: PlaybackState, cmd: PlaybackCommand) -> bool {
    &&& t.status == s.status
    &&& opt_song(t.current_song) == opt_song(s.current_song)
    &&& t.position_ms == s.position_ms
    &&& t.duration_ms == s.duration_ms
    &&& t.listen_start == s.listen_start
    &&& t.listened_secs == s.listened_secs
    &&& match cmd {
        PlaybackCommand::SetVolume(v) => t.volume_permille == clamped_volume(v as int) && t.muted == s.muted,
        PlaybackCommand::Mute => t.volume_permille == s.volume_permille && t.muted,
        _ => t.volume_permille == s.volume_permille && !t.muted,
    }
}

/// The actions of a volume or mute command.
pub open spec fn output_actions(cmd: PlaybackCommand) -> Seq<ActionKind> {
    match cmd {
        PlaybackCommand::SetVolume(v) => seq![
            ActionKind::SetOutputVolume(clamped_volume(v as int)),
            ActionKind::EmitVolumeChanged(clamped_volume(v as int)),
        ],
        PlaybackCommand::Mute => seq![ActionKind::SetOutputMuted(true)],
        _ => seq![ActionKind::SetOutputMuted(false)],
    }
}

/// What the decoder thread does with a command in each phase: the phase it
/// moves to, the actions it takes, and how the shared state changes.
pub open spec fn step_post(
    s: PlaybackState,
    t: PlaybackState,
    phase: EnginePhase,
    cmd: PlaybackCommand,
    next: EnginePhase,
    acts: Seq<ActionKind>,
) -> bool {
    match phase {
        EnginePhase::Idle => match cmd {
            PlaybackCommand::Play(song) => unchanged(s, t) && next == EnginePhase::Idle
                && acts == seq![ActionKind::StartSong(song@)],
            PlaybackCommand::Stop => stopped_from(s, t) && next == EnginePhase::Idle
                && acts == seq![ActionKind::EmitStopped],
            PlaybackCommand::PreloadNext(song) => unchanged(s, t) && next == EnginePhase::Idle
                && acts == seq![ActionKind::NotePreload(song.title@)],
            PlaybackCommand::SetVolume(_) | PlaybackCommand::Mute | PlaybackCommand::Unmute =>
                output_applied(s, t, cmd) && next == EnginePhase::Idle && acts == output_actions(cmd),
            _ => unchanged(s, t) && next == EnginePhase::Idle && acts == Seq::<ActionKind>::empty(),
        },
        EnginePhase::Playing => match cmd {
            PlaybackCommand::Pause => {
                &&& exists|e: u32| #[trigger] accumulated(s, t.with_status(s.status), e)
                &&& t.status == PlaybackStatus::Paused
                &&& next == EnginePhase::Paused
                &&& acts == seq![ActionKind::EmitPaused(t.position_ms)]
            },
            PlaybackCommand::Stop => stopped_from(s, t) && next == EnginePhase::Idle
                && acts == seq![ActionKind::EmitStopped],
            PlaybackCommand::Play(song) => stopped_from(s, t) && next == EnginePhase::Idle
                && acts == seq![ActionKind::StartSong(song@)],
            PlaybackCommand::Seek(p) => unchanged(s, t) && next == EnginePhase::Playing
                && acts == seq![ActionKind::SeekDecoder(p)],
            PlaybackCommand::SetVolume(_) | PlaybackCommand::Mute | PlaybackCommand::Unmute =>
                output_applied(s, t, cmd) && next == EnginePhase::Playing && acts == output_actions(cmd),
            PlaybackCommand::PreloadNext(song) => unchanged(s, t) && next == EnginePhase::Playing
                && acts == seq![ActionKind::NotePreload(song.title@)],
            PlaybackCommand::Resume => unchanged(s, t) && next == EnginePhase::Playing
                && acts == Seq::<ActionKind>::empty(),
        },
        EnginePhase::Paused => match cmd {
            PlaybackCommand::Resume => {
                &&& t.status == PlaybackStatus::Playing
                &&& opt_song(t.current_song) == opt_song(s.current_song)
                &&& t.position_ms == s.position_ms
                &&& t.duration_ms == s.duration_ms
                &&& t.volume_permille == s.volume_permille
                &&& t.muted == s.muted
                &&& t.listen_start is Some
                &&& t.listened_secs == s.listened_secs
                &&& next == EnginePhase::Playing
                &&& acts == seq![ActionKind::EmitResumed]
            },
            PlaybackCommand::Stop => stopped_from(s, t) && next == EnginePhase::Idle
                && acts == seq![ActionKind::EmitStopped],
            PlaybackCommand::Play(song) => stopped_from(s, t) && next == EnginePhase::Idle
                && acts == seq![ActionKind::StartSong(song@)],
            PlaybackCommand::SetVolume(_) | PlaybackCommand::Mute | PlaybackCommand::Unmute =>
                output_applied(s, t, cmd) && next == EnginePhase::Paused && acts == output_actions(cmd),
            _ => unchanged(s, t) && next == EnginePhase::Paused && acts == Seq::<ActionKind>::empty(),
        },
    }
}

/// A stop command stops playback from any phase: the engine goes idle, the
/// song is unloaded, and only the volume and mute setting remain.
pub proof fn lemma_stop_from_any_phase(
    s: PlaybackState,
    t: PlaybackState,
    phase: EnginePhase,
    next: EnginePhase,
    acts: Seq<ActionKind>,
)
    requires
        step_post(s, t, phase, PlaybackCommand::Stop, next, acts),
    ensures
        next == EnginePhase::Idle,
        phase != EnginePhase::Idle ==> stopped_from(s, t) && acts == seq![ActionKind::EmitStopped],
        phase == EnginePhase::Idle ==> stopped_from(s, t),
{
}

/// While a song plays, a seek keeps it playing and does exactly one thing:
/// it moves the decoder to the requested position. Nothing else changes
/// until the decoder reports the outcome.
pub proof fn lemma_seek_while_playing(
    s: PlaybackState,
    t: PlaybackState,
    p: u64,
    next: EnginePhase,
    acts: Seq<ActionKind>,
)
    requires
        step_post(s, t, EnginePhase::Playing, PlaybackCommand::Seek(p), next, acts),
    ensures
        next == EnginePhase::Playing,
        acts.len() == 1,
        acts[0] == ActionKind::SeekDecoder(p),
        t.status == s.status,
        t.position_ms == s.position_ms,
        t.volume_permille == s.volume_permille,
        t.muted == s.muted,
        opt_song(t.current_song) == opt_song(s.current_song),
{
}

/// A volume command in any phase leaves the engine's volume between silence
/// and full, as close to the requested one as that range allows, and the
/// same value goes to the output device and to the GUI.
pub proof fn lemma_volume_clamped(
    s: PlaybackState,
    t: PlaybackState,
    phase: EnginePhase,
    v: u32,
    next: EnginePhase,
    acts: Seq<ActionKind>,
)
    requires
        step_post(s, t, phase, PlaybackCommand::SetVolume(v), next, acts),
    ensures
        next == phase,
        t.volume_permille <= 1000,
        t.volume_permille == if v > 1000 { 1000 } else { v },
        t.muted == s.muted,
        acts == seq![ActionKind::SetOutputVolume(t.volume_permille), ActionKind::EmitVolumeChanged(t.volume_permille)],
{
}

/// Muting and then unmuting gives the volume back, unmuted, with the song
/// and position untouched.
pub proof fn lemma_mute_then_unmute(
    s: PlaybackState,
    t: PlaybackState,
    u: PlaybackState,
    phase: EnginePhase,
    n1: EnginePhase,
    n2: EnginePhase,
    a1: Seq<ActionKind>,
    a2: Seq<ActionKind>,
)
    requires
        step_post(s, t, phase, PlaybackCommand::Mute, n1, a1),
        step_post(t, u, n1, PlaybackCommand::Unmute, n2, a2),
    ensures
        n2 == phase,
        u.volume_permille == s.volume_permille,
        !u.muted,
        u.position_ms == s.position_ms,
        opt_song(u.current_song) == opt_song(s.current_song),
{
}

/// Pausing and resuming returns to playing the same song from the same
/// position.
pub proof fn lemma_pause_then_resume(
    s: PlaybackState,
    t: PlaybackState,
    u: PlaybackState,
    n1: EnginePhase,
    n2: EnginePhase,
    a1: Seq<ActionKind>,
    a2: Seq<ActionKind>,
)
    requires
        step_post(s, t, EnginePhase::Playing, PlaybackCommand::Pause, n1, a1),
        step_post(t, u, n1, PlaybackCommand::Resume, n2, a2),
    ensures
        n1 == EnginePhase::Paused,
        n2 == EnginePhase::Playing,
        u.status == PlaybackStatus::Playing,
        opt_song(u.current_song) == opt_song(s.current_song),
        u.position_ms == s.position_ms,
        u.volume_permille == s.volume_permille,
        a1 == seq![ActionKind::EmitPaused(s.position_ms)],
        a2 == seq![ActionKind::EmitResumed],
{
    let e = choose|e: u32| #[trigger] accumulated(s, t.with_status(s.status), e);
    assert(accumulated(s, t.with_status(s.status), e));
}

impl PlaybackState {
    /// This state with another status.
    pub open spec fn with_status(self, status: PlaybackStatus) -> PlaybackState {
        PlaybackState { status, ..self }
    }
}

/// The command the mute toggle sends: unmute when muted, mute otherwise.
pub fn toggle_mute_command(state: &PlaybackState) -> (r: PlaybackCommand)
    ensures
        state.muted ==> r is Unmute,
        !state.muted ==> r is Mute,
{
    if state.muted {
        PlaybackCommand::Unmute
    } else {
        PlaybackCommand::Mute
    }
}

/// Decides what the decoder thread does with `cmd` in `phase`.
pub fn step(state: &mut PlaybackState, phase: EnginePhase, cmd: PlaybackCommand) -> (r: (EnginePhase, Vec<EngineAction>))
    ensures
        step_post(*old(state), *final(state), phase, cmd, r.0, action_kinds(r.1@)),
        phase == EnginePhase::Playing ==> (cmd matches PlaybackCommand::Seek(p) ==> r.0 == EnginePhase::Playing
            && r.1@.len() == 1 && (r.1@[0] matches EngineAction::SeekDecoder(q) && q == p)),
{
    let mut actions: Vec<EngineAction> = Vec::new();
    let ghost s0 = *state;
    match phase {
        EnginePhase::Idle => match cmd {
            PlaybackCommand::Play(song) => {
                actions.push(EngineAction::StartSong(song));
                assert(action_kinds(actions@) =~= seq![ActionKind::StartSong(song@)]);
                (EnginePhase::Idle, actions)
            },
            PlaybackCommand::Stop => {
                state.set_stopped();
                actions.push(EngineAction::Emit(PlaybackEvent::Stopped));
                assert(action_kinds(actions@) =~= seq![ActionKind::EmitStopped]);
                (EnginePhase::Idle, actions)
            },
            PlaybackCommand::PreloadNext(song) => {
                actions.push(EngineAction::NotePreload(song.title));
                assert(action_kinds(actions@) =~= seq![ActionKind::NotePreload(song.title@)]);
                (EnginePhase::Idle, actions)
            },
            PlaybackCommand::SetVolume(_) | PlaybackCommand::Mute | PlaybackCommand::Unmute => {
                apply_output_command(state, &cmd, &mut actions);
                assert(action_kinds(actions@) =~= output_actions(cmd));
                (EnginePhase::Idle, actions)
            },
            _ => {
                assert(action_kinds(actions@) =~= Seq::<ActionKind>::empty());
                (EnginePhase::Idle, actions)
            },
        },
        EnginePhase::Playing => match cmd {
            PlaybackCommand::Pause => {
                state.accumulate_listen();
                state.status = PlaybackStatus::Paused;
                actions.push(EngineAction::Emit(PlaybackEvent::Paused { position_ms: state.position_ms }));
                assert(action_kinds(actions@) =~= seq![ActionKind::EmitPaused(state.position_ms)]);
                (EnginePhase::Paused, actions)
            },
            PlaybackCommand::Stop => {
                state.accumulate_listen();
                state.set_stopped();
                actions.push(EngineAction::Emit(PlaybackEvent::Stopped));
                assert(action_kinds(actions@) =~= seq![ActionKind::EmitStopped]);
                (EnginePhase::Idle, actions)
            },
            PlaybackCommand::Play(song) => {
                state.accumulate_listen();
                state.set_stopped();
                actions.push(EngineAction::StartSong(song));
                assert(action_kinds(actions@) =~= seq![ActionKind::StartSong(song@)]);
                (EnginePhase::Idle, actions)
            },
            PlaybackCommand::Seek(p) => {
                actions.push(EngineAction::SeekDecoder(p));
                assert(action_kinds(actions@) =~= seq![ActionKind::SeekDecoder(p)]);
                (EnginePhase::Playing, actions)
            },
            PlaybackCommand::PreloadNext(song) => {
                actions.push(EngineAction::NotePreload(song.title));
                assert(action_kinds(actions@) =~= seq![ActionKind::NotePreload(song.title@)]);
                (EnginePhase::Playing, actions)
            },
            PlaybackCommand::Resume => {
                assert(action_kinds(actions@) =~= Seq::<ActionKind>::empty());
                (EnginePhase::Playing, actions)
            },
            _ => {
                apply_output_command(state, &cmd, &mut actions);
                assert(action_kinds(actions@) =~= output_actions(cmd));
                (EnginePhase::Playing, actions)
            },
        },
        EnginePhase::Paused => match cmd {
            PlaybackCommand::Resume => {
                state.status = PlaybackStatus::Playing;
                state.listen_start = Some(instant_now());
                actions.push(EngineAction::Emit(PlaybackEvent::Resumed));
                assert(action_kinds(actions@) =~= seq![ActionKind::EmitResumed]);
                (EnginePhase::Playing, actions)
            },
            PlaybackCommand::Stop => {
                state.set_stopped();
                actions.push(EngineAction::Emit(PlaybackEvent::Stopped));
                assert(action_kinds(actions@) =~= seq![ActionKind::EmitStopped]);
                (EnginePhase::Idle, actions)
            },
            PlaybackCommand::Play(song) => {
                state.set_stopped();
                actions.push(EngineAction::StartSong(song));
                assert(action_kinds(actions@) =~= seq![ActionKind::StartSong(song@)]);
                (EnginePhase::Idle, actions)
            },
            PlaybackCommand::SetVolume(_) | PlaybackCommand::Mute | PlaybackCommand::Unmute => {
                apply_output_command(state, &cmd, &mut actions);
                assert(action_kinds(actions@) =~= output_actions(cmd));
                (EnginePhase::Paused, actions)
            },
            _ => {
                assert(action_kinds(actions@) =~= Seq::<ActionKind>::empty());
                (EnginePhase::Paused, actions)
            },
        },
    }
}

/// The song to play: the decoded metadata, with the caller's id (unless it
/// is empty) and the caller's cover art (when it has one).
pub open spec fn merged_song(requested: SongView, decoded: SongView) -> SongView {
    SongView {
        id: if requested.id.len() == 0 { decoded.id } else { requested.id },
        cover_art: if requested.cover_art is Some { requested.cover_art } else { decoded.cover_art },
        ..decoded
    }
}

/// Records that a song was opened: merges the caller's metadata into the
/// decoded one, moves to buffering with the position and listening reset,
/// and announces buffering. Returns the merged song.
pub fn begin_song(state: &mut PlaybackState, requested: SongInfo, decoded: SongInfo) -> (r: (SongInfo, Vec<PlaybackEvent>))
    ensures
        r.0@ == merged_song(requested@, decoded@),
        final(state).status == PlaybackStatus::Buffering,
        opt_song(final(state).current_song) == Some(r.0@),
        final(state).duration_ms == r.0@.duration_ms,
        final(state).position_ms == 0,
        final(state).listened_secs == 0,
        final(state).listen_start is None,
        final(state).volume_permille == old(state).volume_permille,
        final(state).muted == old(state).muted,
        r.1@.len() == 1 && r.1@[0] is BufferingStarted,
{
    let mut song = decoded;
    if !requested.id.as_str().is_empty() {
        song.id = requested.id;
    }
    match requested.cover_art {
        Some(art) => {
            song.cover_art = Some(art);
        },
        None => {},
    }
    proof {
        assert(requested@.id.len() == 0 <==> requested.id@.len() == 0);
    }
    state.status = PlaybackStatus::Buffering;
    state.current_song = Some(song.duplicate());
    state.duration_ms = song.duration_ms;
    state.position_ms = 0;
    state.listened_secs = 0;
    state.listen_start = None;
    let mut events: Vec<PlaybackEvent> = Vec::new();
    events.push(PlaybackEvent::BufferingStarted);
    (song, events)
}

/// Buffering is done: playback starts now, opening a listening segment.
pub fn start_playback(state: &mut PlaybackState, song: &SongInfo) -> (r: Vec<PlaybackEvent>)
    ensures
        final(state).status == PlaybackStatus::Playing,
        final(state).listen_start is Some,
        opt_song(final(state).current_song) == opt_song(old(state).current_song),
        final(state).position_ms == old(state).position_ms,
        final(state).duration_ms == old(state).duration_ms,
        final(state).volume_permille == old(state).volume_permille,
        final(state).muted == old(state).muted,
        final(state).listened_secs == old(state).listened_secs,
        r@.len() == 2,
        r@[0] is BufferingComplete,
        r@[1] matches PlaybackEvent::Playing(s) && s@ == song@,
{
    state.status = PlaybackStatus::Playing;
    state.listen_start = Some(instant_now());
    let mut events: Vec<PlaybackEvent> = Vec::new();
    events.push(PlaybackEvent::BufferingComplete);
    events.push(PlaybackEvent::Playing(song.duplicate()));
    events
}

/// The outcome of a seek: on success the audio decoded before the seek is
/// discarded from the output buffer, the position moves and `Seeked` is
/// announced; on failure the error is announced and nothing else changes.
pub fn seek_done(state: &mut PlaybackState, position_ms: u64, outcome: Result<(), String>) -> (r: Vec<EngineAction>)
    ensures
        outcome is Ok ==> final(state).position_ms == position_ms
            && action_kinds(r@) == seq![ActionKind::FlushOutput, ActionKind::EmitSeeked(position_ms)],
        outcome matches Err(e) ==> final(state).position_ms == old(state).position_ms
            && action_kinds(r@) == seq![ActionKind::EmitError(e@)],
        final(state).status == old(state).status,
        opt_song(final(state).current_song) == opt_song(old(state).current_song),
        final(state).duration_ms == old(state).duration_ms,
        final(state).volume_permille == old(state).volume_permille,
        final(state).muted == old(state).muted,
        final(state).listen_start == old(state).listen_start,
        final(state).listened_secs == old(state).listened_secs,
{
    let mut actions: Vec<EngineAction> = Vec::new();
    match outcome {
        Ok(()) => {
            state.position_ms = position_ms;
            actions.push(EngineAction::FlushOutput);
            actions.push(EngineAction::Emit(PlaybackEvent::Seeked { position_ms }));
            assert(action_kinds(actions@) =~= seq![ActionKind::FlushOutput, ActionKind::EmitSeeked(position_ms)]);
        },
        Err(e) => {
            let ghost ev = e@;
            actions.push(EngineAction::Emit(PlaybackEvent::Error(e)));
            assert(action_kinds(actions@) =~= seq![ActionKind::EmitError(ev)]);
        },
    }
    actions
}

/// Playback position in milliseconds after `frames` decoded frames at
/// `sample_rate` frames per second.
pub fn frames_to_millis(frames: u64, sample_rate: u32) -> (r: u64)
    requires
        sample_rate > 0,
    ensures
        r == (frames as int * 1000 / sample_rate as int) as u64,
{
    (frames as u128 * 1000 / sample_rate as u128) as u64
}

/// Records the position after a decoded packet; when an update is due,
/// returns the `PositionUpdate` event with the seconds heard so far.
pub fn record_position(state: &mut PlaybackState, position_ms: u64, update_due: bool) -> (r: Option<PlaybackEvent>)
    ensures
        final(state).position_ms == position_ms,
        final(state).status == old(state).status,
        opt_song(final(state).current_song) == opt_song(old(state).current_song),
        final(state).duration_ms == old(state).duration_ms,
        final(state).volume_permille == old(state).volume_permille,
        final(state).muted == old(state).muted,
        final(state).listen_start == old(state).listen_start,
        final(state).listened_secs == old(state).listened_secs,
        !update_due ==> r is None,
        update_due ==> (r matches Some(PlaybackEvent::PositionUpdate { position_ms: p, listened_secs: l })
            && p == position_ms && (
                !(old(state).status == PlaybackStatus::Playing && old(state).listen_start is Some)
                    ==> l == old(state).listened_secs)),
{
    state.position_ms = position_ms;
    if update_due {
        let listened = state.elapsed_listen_secs();
        Some(PlaybackEvent::PositionUpdate { position_ms, listened_secs: listened })
    } else {
        None
    }
}

/// The song has been decoded to its end: the open segment is folded in,
/// `SongEnded` reports the song, the seconds heard and the duration, and the
/// state is reset to stopped.
pub fn finish_song(state: &mut PlaybackState) -> (r: PlaybackEvent)
    ensures
        stopped_from(*old(state), *final(state)),
        r matches PlaybackEvent::SongEnded { song_id, listened_secs, duration_ms } && {
            &&& song_id@ == (match old(state).current_song {
                Some(s) => s.id@,
                None => Seq::<char>::empty(),
            })
            &&& duration_ms == old(state).duration_ms
            &&& old(state).listen_start is None ==> listened_secs == old(state).listened_secs
            &&& old(state).listen_start is Some ==> exists|e: u32|
                listened_secs == #[trigger] add_listen(old(state).listened_secs, e)
        },
{
    let ghost s0 = *state;
    state.accumulate_listen();
    let ghost s1 = *state;
    let song_id = match &state.current_song {
        Some(s) => s.id.clone(),
        None => String::new(),
    };
    let listened = state.listened_secs;
    let duration = state.duration_ms;
    proof {
        let e = choose|e: u32| accumulated(s0, s1, e);
        if s0.listen_start is Some {
            assert(listened == add_listen(s0.listened_secs, e));
        }
    }
    state.set_stopped();
    PlaybackEvent::SongEnded { song_id, listened_secs: listened, duration_ms: duration }
}

/// Channel adaptation of interleaved samples: each frame of `from_ch`
/// samples becomes a frame of `to_ch` samples; channels the source lacks
/// repeat its first channel. A partial last frame is dropped.
pub fn adapt_channels<T: Copy>(samples: &[T], from_ch: usize, to_ch: usize) -> (r: Vec<T>)
    requires
        from_ch > 0,
        samples@.len() as int / from_ch as int * to_ch as int <= usize::MAX,
    ensures
        r@.len() == samples@.len() as int / from_ch as int * to_ch as int,
        forall|f: int, c: int| 0 <= f < samples@.len() as int / from_ch as int && 0 <= c < to_ch ==>
            #[trigger] r@[f * to_ch + c] == samples@[f * from_ch + (if c < from_ch { c } else { 0 })],
{
    let frames = samples.len() / from_ch;
    let mut out: Vec<T> = Vec::new();
    let mut f: usize = 0;
    while f < frames
        invariant
            frames == samples@.len() as int / from_ch as int,
            frames * to_ch <= usize::MAX,
            from_ch > 0,
            f <= frames,
            out@.len() == f * to_ch,
            forall|g: int, c: int| 0 <= g < f && 0 <= c < to_ch ==>
                #[trigger] out@[g * to_ch + c] == samples@[g * from_ch + (if c < from_ch { c } else { 0 })],
        decreases frames - f,
    {
        proof {
            let len = samples@.len() as int;
            vstd::arithmetic::div_mod::lemma_fundamental_div_mod(len, from_ch as int);
            vstd::arithmetic::div_mod::lemma_mod_bound(len, from_ch as int);
            vstd::arithmetic::mul::lemma_mul_inequality(f + 1, frames as int, from_ch as int);
            assert(from_ch * (len / from_ch as int) == frames * from_ch) by (nonlinear_arith)
                requires
                    frames == len / from_ch as int,
            ;
            assert((f + 1) * from_ch == f * from_ch + from_ch) by (nonlinear_arith);
            assert(f * from_ch + from_ch <= len);
        }
        assert(samples@.len() == samples.len());
        let base = f * from_ch;
        let mut c: usize = 0;
        let ghost start_len = out@.len();
        while c < to_ch
            invariant
                frames == samples@.len() as int / from_ch as int,
                frames * to_ch <= usize::MAX,
                from_ch > 0,
                f < frames,
                base == f * from_ch,
                base + from_ch <= samples@.len(),
                samples@.len() == samples.len(),
                c <= to_ch,
                start_len == f * to_ch,
                out@.len() == f * to_ch + c,
                forall|g: int, c2: int| 0 <= g < f && 0 <= c2 < to_ch ==>
                    #[trigger] out@[g * to_ch + c2] == samples@[g * from_ch + (if c2 < from_ch { c2 } else { 0 })],
                forall|c2: int| 0 <= c2 < c ==>
                    #[trigger] out@[f * to_ch + c2] == samples@[f * from_ch + (if c2 < from_ch { c2 } else { 0 })],
            decreases to_ch - c,
        {
            assert(f * to_ch + c < frames * to_ch) by (nonlinear_arith)
                requires
                    f < frames,
                    c < to_ch,
            ;
            if c < from_ch {
                out.push(samples[base + c]);
            } else {
                out.push(samples[base]);
            }
            proof {
                assert forall|g: int, c2: int| 0 <= g < f && 0 <= c2 < to_ch implies
                    #[trigger] out@[g * to_ch + c2] == samples@[g * from_ch + (if c2 < from_ch { c2 } else { 0 })] by {
                    assert(g * to_ch + c2 < f * to_ch) by (nonlinear_arith)
                        requires
                            g < f,
                            c2 < to_ch,
                    ;
                }
            }
            c = c + 1;
        }
        assert((f + 1) * to_ch == f * to_ch + to_ch) by (nonlinear_arith);
        proof {
            assert forall|g: int, c2: int| 0 <= g < f + 1 && 0 <= c2 < to_ch implies
                #[trigger] out@[g * to_ch + c2] == samples@[g * from_ch + (if c2 < from_ch { c2 } else { 0 })] by {
                if g == f {
                } else {
                }
            }
        }
        f = f + 1;
    }
    out
}

} // verus!
