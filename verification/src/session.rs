//! The dictation session as a state machine: what each event does to it, and
//! which actions it asks for.
//!
//! This is the mathematical side. `controller` holds the session itself and
//! is proved to take exactly these steps.

use vstd::prelude::*;

use crate::audio;
use crate::audio::Tone;
use crate::config::ConfigView;
use crate::fillers;
use crate::keyboards;
use crate::labels;
use crate::models;
use crate::models::ModelView;
use crate::replacer;
use crate::state::State;
use crate::status;
use crate::status::StatusView;

verus! {

/// A recording may last this long before it is stopped by itself, e.g. after
/// a forgotten "Dictate now".
pub const MAX_RECORDING_MS: u64 = 300_000;

/// An error message is shown this long, in nanoseconds.
pub const ERROR_SHOWN: u128 = 8_000_000_000;

/// The status is refreshed this long after an error, in milliseconds.
pub const ERROR_REFRESH_MS: u64 = 9_000;

/// Nanoseconds in a millisecond.
pub const MS: u128 = 1_000_000;

/// The exit code that asks the supervisor for a fresh engine.
pub const RESTART_CODE: i32 = 75;

/// The bus reply to a restart request may take this long, in milliseconds.
pub const RESTART_DELAY_MS: u64 = 100;

/// A recording in progress. Times are in nanoseconds of a steady clock.
#[derive(Clone, Copy, Debug, PartialEq, Eq, Structural)]
pub struct Recording {
    pub started: u128,
    pub released: Option<u128>,
    pub seq: u64,
    pub from_hotkey: bool,
    pub finishing: bool,
}

/// What the session is waiting for.
#[derive(Clone, Copy, Debug, PartialEq, Eq, Structural)]
pub enum Stage {
    /// Nothing: the next event can come.
    Ready,
    /// The recorder was asked to start.
    Starting { from_hotkey: bool },
    /// The recorder was asked to stop; `held` says how long the key was held,
    /// and `then_start` whether a new recording follows.
    Stopping { seq: u64, held: u128, then_start: Option<bool> },
    /// The configuration was asked for.
    ReadingConfig,
    /// Text is being typed.
    Typing,
}

/// The time of a step: on the steady clock, and as Unix time.
#[derive(Clone, Copy, Debug, PartialEq, Eq, Structural)]
pub struct Clock {
    pub now: u128,
    pub unix: i64,
}

/// What a delayed wake-up is for.
#[derive(Clone, Copy, Debug, PartialEq, Eq, Structural)]
pub enum Wake {
    /// The release tail of a recording is over.
    Finish(u64),
    /// A recording has reached its greatest length.
    MaxLength(u64),
    /// An error message has expired.
    Refresh,
}

impl Wake {
    /// The event that a wake-up comes back as.
    pub open spec fn happening(self) -> Happening {
        match self {
            Wake::Finish(seq) => Happening::FinishRecording(seq),
            Wake::MaxLength(seq) => Happening::MaxLength(seq),
            Wake::Refresh => Happening::Level(0),
        }
    }
}

/// How a text reached the user.
#[derive(Clone, Copy, Debug, PartialEq, Eq, Structural)]
pub enum Delivery {
    Typed,
    Clipboard,
}

/// Everything that can happen.
pub enum Happening {
    HotkeyDown,
    HotkeyUp,
    OtherKey,
    KeyboardsMissing(Seq<char>),
    KeyboardsOk,
    Level(u8),
    Downloading(u64, u64),
    Loading(u64),
    ModelReady(u64),
    ModelFailed(u64, Seq<char>),
    Transcribed(u64, Result<Seq<char>, Seq<char>>),
    FinishRecording(u64),
    MaxLength(u64),
    Toggle,
    SetEnabled(bool),
    ReloadConfig,
    Retry,
    Restart,
}

/// What the world around the session answers.
pub enum Answer {
    Started,
    StartFailed(Seq<char>),
    Stopped(bool),
    Config(ConfigView),
    Typed(Delivery),
    TypeFailed(Seq<char>),
    TypeAborted(Seq<char>),
}

/// What the session asks of the world around it.
pub enum Act {
    StartCapture,
    StopCapture(u128),
    DropCapture,
    Play(Tone),
    Wake(u64, Wake),
    Transcribe(u64, usize),
    Discard(bool),
    LoadModel(ModelView, u64),
    ListenFor(u16),
    ReadConfig,
    Announce(Seq<char>),
    Type(Seq<char>),
    Notify(Seq<char>, Seq<char>),
    Exit(i32, u64),
    Publish,
}

/// The session.
#[verifier::ext_equal]
pub struct Session {
    pub cfg: ConfigView,
    pub rules: Seq<(Seq<char>, Seq<char>)>,
    pub enabled: bool,
    pub model_ready: bool,
    pub model_gen: u64,
    pub model_state: State,
    pub model_detail: Seq<char>,
    pub keyboard_error: Option<Seq<char>>,
    pub recording: Option<Recording>,
    pub next_seq: u64,
    pub pending: usize,
    pub level: u8,
    pub last_error: Option<(Seq<char>, u128)>,
    pub history: Seq<(i64, Seq<char>)>,
    pub published: StatusView,
    pub stage: Stage,
}

/// A tone if sounds are on.
pub open spec fn tone_if(sounds: bool, tone: Tone) -> Seq<Act> {
    if sounds {
        seq![Act::Play(tone)]
    } else {
        seq![]
    }
}

/// Newest first, and no more than are remembered.
pub open spec fn remembered(
    history: Seq<(i64, Seq<char>)>,
    unix: i64,
    text: Seq<char>,
) -> Seq<(i64, Seq<char>)> {
    let all = seq![(unix, text)] + history;
    if all.len() <= status::HISTORY_LEN {
        all
    } else {
        all.take(status::HISTORY_LEN as int)
    }
}

impl Session {
    /// The session ends its step here: the status is published.
    pub open spec fn done(self) -> (Session, Seq<Act>) {
        (self, seq![Act::Publish])
    }

    /// An error is shown, and forgotten again after a while.
    pub open spec fn failed(self, msg: Seq<char>, now: u128) -> (Session, Seq<Act>) {
        (
            Session { last_error: Some((msg, now)), ..self },
            tone_if(self.cfg.sounds, Tone::Error) + seq![Act::Wake(ERROR_REFRESH_MS, Wake::Refresh)],
        )
    }

    /// An error is shown, and that is the end of the step.
    pub open spec fn failed_done(self, msg: Seq<char>, now: u128) -> (Session, Seq<Act>) {
        (self.failed(msg, now).0, self.failed(msg, now).1.push(Act::Publish))
    }

    /// The recorder is asked to start, if the model can take a recording.
    pub open spec fn start_capture(self, from_hotkey: bool, now: u128) -> (Session, Seq<Act>) {
        if !self.model_ready {
            self.failed_done("Speech model is still loading"@, now)
        } else {
            (Session { stage: Stage::Starting { from_hotkey }, ..self }, seq![Act::StartCapture])
        }
    }

    /// The recorder is asked to stop and the recording is given up for
    /// transcription.
    pub open spec fn stop_capture(self, rec: Recording, then_start: Option<bool>, now: u128) -> (
        Session,
        Seq<Act>,
    ) {
        let end = match rec.released {
            Some(t) => t,
            None => now,
        };
        let held = if end >= rec.started {
            (end - rec.started) as u128
        } else {
            0u128
        };
        (
            Session {
                recording: None,
                stage: Stage::Stopping { seq: rec.seq, held, then_start },
                ..self
            },
            seq![Act::StopCapture(rec.started)],
        )
    }

    /// The hotkey is pressed or a dictation asked for.
    pub open spec fn start_recording(self, from_hotkey: bool, now: u128) -> (Session, Seq<Act>) {
        if !self.enabled {
            self.done()
        } else {
            match self.recording {
                Some(rec) => if rec.finishing {
                    self.stop_capture(rec, Some(from_hotkey), now)
                } else {
                    self.done()
                },
                None => self.start_capture(from_hotkey, now),
            }
        }
    }

    /// The recorder runs.
    pub open spec fn capture_started(self, from_hotkey: bool, now: u128) -> (Session, Seq<Act>) {
        let seq = (self.next_seq + 1) as u64;
        (
            Session {
                next_seq: seq,
                level: 0,
                recording: Some(
                    Recording { started: now, released: None, seq, from_hotkey, finishing: false },
                ),
                stage: Stage::Ready,
                ..self
            },
            tone_if(self.cfg.sounds, Tone::Start) + seq![
                Act::Wake(MAX_RECORDING_MS, Wake::MaxLength(seq)),
                Act::Publish,
            ],
        )
    }

    /// The key is let go: the recording goes on for the release tail.
    pub open spec fn release(self, now: u128) -> (Session, Seq<Act>) {
        match self.recording {
            Some(rec) => if rec.finishing {
                self.done()
            } else {
                (
                    Session {
                        recording: Some(
                            Recording { finishing: true, released: Some(now), ..rec },
                        ),
                        ..self
                    },
                    seq![Act::Wake(self.cfg.release_tail_ms, Wake::Finish(rec.seq)), Act::Publish],
                )
            },
            None => self.done(),
        }
    }

    /// The release tail of a recording is over.
    pub open spec fn finish(self, seq: u64, now: u128) -> (Session, Seq<Act>) {
        match self.recording {
            Some(rec) => if rec.seq == seq {
                self.stop_capture(rec, None, now)
            } else {
                self.done()
            },
            None => self.done(),
        }
    }

    /// What is done with a stopped recording: an accidental tap is dropped, a
    /// silent microphone reported, anything else transcribed.
    pub open spec fn stopped(self, seq: u64, held: u128, short: bool, now: u128) -> (
        Session,
        Seq<Act>,
    ) {
        if held < self.cfg.min_hold_ms * MS {
            (self, seq![Act::Discard(false)])
        } else if short {
            let (next, acts) = self.failed(
                "Microphone didn't pick anything up. Check your input device."@,
                now,
            );
            (next, seq![Act::Discard(true)] + acts)
        } else {
            (
                Session { pending: (self.pending + 1) as usize, ..self },
                tone_if(self.cfg.sounds, Tone::Stop) + seq![
                    Act::Transcribe(
                        seq,
                        if self.cfg.sounds {
                            audio::START_BLANK
                        } else {
                            0
                        },
                    ),
                ],
            )
        }
    }

    /// The recorder has stopped.
    pub open spec fn capture_stopped(
        self,
        seq: u64,
        held: u128,
        then_start: Option<bool>,
        short: bool,
        now: u128,
    ) -> (Session, Seq<Act>) {
        let (next, acts) = Session { stage: Stage::Ready, ..self }.stopped(seq, held, short, now);
        match then_start {
            Some(from_hotkey) => {
                let (last, more) = next.start_capture(from_hotkey, now);
                (last, acts + more)
            },
            None => (next, acts.push(Act::Publish)),
        }
    }

    /// The recording, if any, is thrown away.
    pub open spec fn cancel(self) -> (Session, Seq<Act>) {
        if self.recording is Some {
            (
                Session { recording: None, ..self },
                seq![Act::DropCapture] + tone_if(self.cfg.sounds, Tone::Cancel),
            )
        } else {
            (self, seq![])
        }
    }

    /// The transcript as it is typed, without the trailing space.
    pub open spec fn cleaned(self, text: Seq<char>) -> Seq<char> {
        replacer::applied(
            self.rules,
            if self.cfg.remove_fillers {
                fillers::stripped(text)
            } else {
                text
            },
        )
    }

    /// A transcript is remembered, announced and typed, unless nothing is left
    /// of it.
    pub open spec fn deliver(self, text: Seq<char>, clock: Clock) -> (Session, Seq<Act>) {
        let clean = self.cleaned(text);
        if clean.len() == 0 {
            self.done()
        } else {
            (
                Session {
                    history: remembered(self.history, clock.unix, clean),
                    stage: Stage::Typing,
                    ..self
                },
                seq![
                    Act::Announce(clean),
                    Act::Type(
                        if self.cfg.trailing_space {
                            clean.push(' ')
                        } else {
                            clean
                        },
                    ),
                ],
            )
        }
    }

    /// The configured model is loaded anew.
    pub open spec fn load_model(self) -> (Session, Seq<Act>) {
        let generation = (self.model_gen + 1) as u64;
        (
            Session {
                model_ready: false,
                model_gen: generation,
                model_state: State::Loading,
                model_detail: "Loading speech model…"@,
                ..self
            },
            seq![Act::LoadModel(models::model_named(self.cfg.model), generation)],
        )
    }

    /// New settings take effect, with the rules of their replacements.
    pub open spec fn apply_config(
        self,
        cfg: ConfigView,
        rules: Seq<(Seq<char>, Seq<char>)>,
    ) -> (Session, Seq<Act>) {
        let listen = if cfg.hotkey != self.cfg.hotkey {
            seq![Act::ListenFor(keyboards::key_or_default(keyboards::evdev_key_code(cfg.hotkey)))]
        } else {
            seq![]
        };
        let next = Session { cfg, rules, ..self };
        if cfg.model != self.cfg.model {
            (next.load_model().0, listen + next.load_model().1)
        } else {
            (next, listen)
        }
    }

    /// What an event does.
    pub open spec fn handle(self, ev: Happening, clock: Clock) -> (Session, Seq<Act>) {
        match ev {
            Happening::HotkeyDown => self.start_recording(true, clock.now),
            Happening::HotkeyUp => if self.recording matches Some(rec) && rec.from_hotkey {
                self.release(clock.now)
            } else {
                self.done()
            },
            Happening::OtherKey => if self.cfg.cancel_on_other_key && (self.recording matches Some(
                rec,
            ) && rec.from_hotkey && !rec.finishing) {
                (self.cancel().0, self.cancel().1.push(Act::Publish))
            } else {
                self.done()
            },
            Happening::KeyboardsMissing(msg) => Session {
                keyboard_error: Some(msg),
                ..self
            }.done(),
            Happening::KeyboardsOk => Session { keyboard_error: None, ..self }.done(),
            Happening::Level(l) => Session { level: l, ..self }.done(),
            Happening::Downloading(g, percent) => if g != self.model_gen {
                self.done()
            } else {
                Session {
                    model_state: State::Downloading,
                    model_detail: "Downloading speech model… "@ + labels::decimal(percent as nat)
                        + "%"@,
                    ..self
                }.done()
            },
            Happening::Loading(g) => if g != self.model_gen {
                self.done()
            } else {
                Session {
                    model_state: State::Loading,
                    model_detail: "Loading speech model…"@,
                    ..self
                }.done()
            },
            Happening::ModelReady(g) => if g != self.model_gen {
                self.done()
            } else {
                Session { model_ready: true, ..self }.done()
            },
            Happening::ModelFailed(g, err) => if g != self.model_gen {
                self.done()
            } else {
                Session {
                    model_ready: false,
                    model_state: State::Error,
                    model_detail: "Speech model failed: "@ + err,
                    ..self
                }.done()
            },
            Happening::Transcribed(_, result) => {
                let next = Session {
                    pending: if self.pending > 0 {
                        (self.pending - 1) as usize
                    } else {
                        0
                    },
                    ..self
                };
                match result {
                    Ok(text) => next.deliver(text, clock),
                    Err(err) => next.failed_done("Transcription failed: "@ + err, clock.now),
                }
            },
            Happening::FinishRecording(seq) => self.finish(seq, clock.now),
            Happening::MaxLength(seq) => if self.recording matches Some(rec) && rec.seq == seq
                && !rec.finishing {
                self.release(clock.now)
            } else {
                self.done()
            },
            Happening::Toggle => if self.recording is Some {
                self.release(clock.now)
            } else {
                self.start_recording(false, clock.now)
            },
            Happening::SetEnabled(on) => {
                let next = Session { enabled: on, ..self };
                if on {
                    next.done()
                } else {
                    (next.cancel().0, next.cancel().1.push(Act::Publish))
                }
            },
            Happening::ReloadConfig => (
                Session { stage: Stage::ReadingConfig, ..self },
                seq![Act::ReadConfig],
            ),
            Happening::Retry => if !self.model_ready {
                (self.load_model().0, self.load_model().1.push(Act::Publish))
            } else {
                self.done()
            },
            Happening::Restart => (
                self.cancel().0,
                self.cancel().1 + seq![Act::Exit(RESTART_CODE, RESTART_DELAY_MS), Act::Publish],
            ),
        }
    }

    /// Whether an answer is the one that the session waits for.
    pub open spec fn expects(self, answer: Answer) -> bool {
        match answer {
            Answer::Started | Answer::StartFailed(_) => self.stage is Starting,
            Answer::Stopped(_) => self.stage is Stopping,
            Answer::Config(_) => self.stage is ReadingConfig,
            Answer::Typed(_) | Answer::TypeFailed(_) | Answer::TypeAborted(_) => self.stage is Typing,
        }
    }

    /// What an answer does. `rules` are those of new settings.
    pub open spec fn resume(
        self,
        answer: Answer,
        rules: Seq<(Seq<char>, Seq<char>)>,
        clock: Clock,
    ) -> (Session, Seq<Act>) {
        let idle = Session { stage: Stage::Ready, ..self };
        match answer {
            Answer::Started => self.capture_started(self.stage->from_hotkey, clock.now),
            Answer::StartFailed(err) => idle.failed_done(err, clock.now),
            Answer::Stopped(short) => self.capture_stopped(
                self.stage->seq,
                self.stage->held,
                self.stage->then_start,
                short,
                clock.now,
            ),
            Answer::Config(cfg) => (
                idle.apply_config(cfg, rules).0,
                idle.apply_config(cfg, rules).1.push(Act::Publish),
            ),
            Answer::Typed(Delivery::Typed) => idle.done(),
            Answer::Typed(Delivery::Clipboard) => (
                idle,
                seq![
                    Act::Notify(
                        "Copied to clipboard"@,
                        "Murmur couldn't type into this window. Paste with Ctrl+V."@,
                    ),
                    Act::Publish,
                ],
            ),
            Answer::TypeFailed(err) => idle.failed_done("Couldn't type text: "@ + err, clock.now),
            Answer::TypeAborted(err) => idle.failed_done("Typing task failed: "@ + err, clock.now),
        }
    }

    /// What is shown of the session.
    pub open spec fn derive_status(self, now: u128) -> StatusView {
        let key = labels::key_label(self.cfg.hotkey);
        let shown = match self.last_error {
            Some((msg, at)) => if now - at < ERROR_SHOWN {
                Some(msg)
            } else {
                None
            },
            None => None,
        };
        let (state, detail) = if let Some(err) = self.keyboard_error {
            (State::Error, err)
        } else if !self.model_ready {
            (self.model_state, self.model_detail)
        } else if self.recording is Some {
            (State::Recording, "Listening…"@)
        } else if self.pending > 0 {
            (State::Transcribing, "Transcribing…"@)
        } else if !self.enabled {
            (State::Disabled, "Dictation is paused"@)
        } else if let Some(msg) = shown {
            (State::Idle, msg)
        } else {
            (State::Idle, "Hold "@ + key + " to dictate"@)
        };
        StatusView {
            state,
            detail,
            level: if self.recording is Some {
                self.level
            } else {
                0
            },
            enabled: self.enabled,
            model: self.cfg.model,
            hotkey: key,
            history: self.history,
        }
    }

    /// The counters can still count.
    pub open spec fn counts(self) -> bool {
        &&& self.next_seq < u64::MAX
        &&& self.model_gen < u64::MAX
        &&& self.pending < usize::MAX
    }
}

/// The session at the start of the engine, before its model is loaded.
pub open spec fn fresh(cfg: ConfigView, rules: Seq<(Seq<char>, Seq<char>)>) -> Session {
    Session {
        cfg,
        rules,
        enabled: true,
        model_ready: false,
        model_gen: 0,
        model_state: State::Starting,
        model_detail: "Starting…"@,
        keyboard_error: None,
        recording: None,
        next_seq: 0,
        pending: 0,
        level: 0,
        last_error: None,
        history: seq![],
        published: status::blank_status(),
        stage: Stage::Ready,
    }
}

impl Session {
    /// What holds between any two steps.
    pub open spec fn inv(self) -> bool {
        &&& self.recording matches Some(rec) ==> rec.seq <= self.next_seq && (rec.finishing
            <==> rec.released is Some)
        &&& self.history.len() <= status::HISTORY_LEN
        &&& self.model_state is Starting || self.model_state is Downloading || self.model_state
            is Loading || self.model_state is Error
        &&& self.stage is Starting || self.stage is Stopping ==> self.recording is None
        &&& self.stage is Starting ==> self.enabled && self.model_ready
        &&& self.stage matches Stage::Stopping { seq, held, then_start } ==> seq <= self.next_seq
            && (then_start is Some ==> self.enabled)
    }

    /// The last action is the one whose outcome the session waits for, or the
    /// publication that ends the step.
    pub open spec fn waits_for_last(self, acts: Seq<Act>) -> bool {
        &&& acts.len() > 0
        &&& match self.stage {
            Stage::Ready => acts.last() is Publish,
            Stage::Starting { .. } => acts.last() is StartCapture,
            Stage::Stopping { .. } => acts.last() is StopCapture,
            Stage::ReadingConfig => acts.last() is ReadConfig,
            Stage::Typing => acts.last() is Type,
        }
    }
}

/// A session starts out valid.
pub proof fn fresh_session_is_valid(cfg: ConfigView, rules: Seq<(Seq<char>, Seq<char>)>)
    ensures
        fresh(cfg, rules).inv(),
        fresh(cfg, rules).load_model().0.inv(),
{
}

/// An event keeps the session valid, and the session then waits for nothing
/// but the outcome of the last action.
pub proof fn events_keep_the_session_valid(s: Session, ev: Happening, clock: Clock)
    requires
        s.inv(),
        s.stage == Stage::Ready,
        s.counts(),
    ensures
        s.handle(ev, clock).0.inv(),
        s.handle(ev, clock).0.waits_for_last(s.handle(ev, clock).1),
{
    let (next, acts) = s.handle(ev, clock);
    match ev {
        Happening::HotkeyDown | Happening::Toggle => {
        },
        Happening::Transcribed(_, result) => match result {
            Ok(text) => {
            },
            Err(err) => {
            },
        },
        Happening::HotkeyUp
        | Happening::OtherKey
        | Happening::FinishRecording(_)
        | Happening::MaxLength(_) => {
        },
        Happening::SetEnabled(_) | Happening::Retry | Happening::Restart => {
        },
        _ => {
        },
    }
}

/// An answer keeps the session valid, and the session then waits for nothing
/// but the outcome of the last action.
pub proof fn answers_keep_the_session_valid(
    s: Session,
    answer: Answer,
    rules: Seq<(Seq<char>, Seq<char>)>,
    clock: Clock,
)
    requires
        s.inv(),
        s.expects(answer),
        s.counts(),
    ensures
        s.resume(answer, rules, clock).0.inv(),
        s.resume(answer, rules, clock).0.waits_for_last(s.resume(answer, rules, clock).1),
{
}

/// Events of a superseded model load change nothing.
pub proof fn superseded_loads_are_ignored(
    s: Session,
    g: u64,
    percent: u64,
    err: Seq<char>,
    clock: Clock,
)
    requires
        g != s.model_gen,
    ensures
        s.handle(Happening::Downloading(g, percent), clock) == s.done(),
        s.handle(Happening::Loading(g), clock) == s.done(),
        s.handle(Happening::ModelReady(g), clock) == s.done(),
        s.handle(Happening::ModelFailed(g, err), clock) == s.done(),
{
}

/// A new load supersedes all earlier ones.
pub proof fn new_load_supersedes(s: Session, g: u64, clock: Clock)
    requires
        s.counts(),
        g <= s.model_gen,
    ensures
        !s.load_model().0.handle(Happening::ModelReady(g), clock).0.model_ready,
{
}

/// The recorder is only started when dictation is enabled, the model is
/// ready and nothing is being recorded.
pub proof fn capture_starts_only_when_possible(s: Session, ev: Happening, clock: Clock, i: int)
    requires
        s.inv(),
        s.stage == Stage::Ready,
        0 <= i < s.handle(ev, clock).1.len(),
        s.handle(ev, clock).1[i] is StartCapture,
    ensures
        ev is HotkeyDown || ev is Toggle,
        s.enabled,
        s.model_ready,
        s.recording is None,
{
}

/// After a recording was wrapped up, the recorder is only started again when
/// dictation is enabled and the model is ready.
pub proof fn capture_restarts_only_when_possible(
    s: Session,
    answer: Answer,
    rules: Seq<(Seq<char>, Seq<char>)>,
    clock: Clock,
    i: int,
)
    requires
        s.inv(),
        s.expects(answer),
        0 <= i < s.resume(answer, rules, clock).1.len(),
        s.resume(answer, rules, clock).1[i] is StartCapture,
    ensures
        s.stage matches Stage::Stopping { seq, held, then_start } && then_start is Some,
        s.enabled,
        s.model_ready,
        s.recording is None,
{
}

/// A recording never ends without its recorder being stopped.
pub proof fn ended_recordings_stop_the_recorder(s: Session, ev: Happening, clock: Clock)
    requires
        s.inv(),
        s.stage == Stage::Ready,
        s.recording is Some,
        s.handle(ev, clock).0.recording is None,
    ensures
        s.handle(ev, clock).1[0] is DropCapture || s.handle(ev, clock).1[0] == Act::StopCapture(
            s.recording->0.started,
        ),
{
}

/// A recorder that does not start, a silent microphone, a failed
/// transcription and a failed delivery are all reported.
pub proof fn failures_are_reported(
    s: Session,
    err: Seq<char>,
    seq: u64,
    rules: Seq<(Seq<char>, Seq<char>)>,
    clock: Clock,
)
    ensures
        s.stage is Starting ==> s.resume(Answer::StartFailed(err), rules, clock).0.last_error
            == Some((err, clock.now)),
        s.stage is Stopping && s.stage->held >= s.cfg.min_hold_ms * MS ==> s.resume(
            Answer::Stopped(true),
            rules,
            clock,
        ).0.last_error is Some,
        s.stage is Typing ==> s.resume(Answer::TypeFailed(err), rules, clock).0.last_error == Some(
            ("Couldn't type text: "@ + err, clock.now),
        ),
        s.stage is Typing ==> s.resume(Answer::TypeAborted(err), rules, clock).0.last_error
            == Some(("Typing task failed: "@ + err, clock.now)),
        s.handle(Happening::Transcribed(seq, Err(err)), clock).0.last_error == Some(
            ("Transcription failed: "@ + err, clock.now),
        ),
{
}

/// Hold the key, speak, let go: the recorder runs from the press until the
/// release tail is over, and what it took is then transcribed.
pub proof fn dictation_is_transcribed(
    s: Session,
    press: Clock,
    start: Clock,
    release: Clock,
    end: Clock,
    stop: Clock,
)
    requires
        s.stage == Stage::Ready,
        s.counts(),
        s.enabled,
        s.model_ready,
        s.recording is None,
        release.now >= start.now + s.cfg.min_hold_ms * MS,
    ensures
        ({
            let seq = (s.next_seq + 1) as u64;
            let pressed = s.handle(Happening::HotkeyDown, press);
            let started = pressed.0.resume(Answer::Started, s.rules, start);
            let let_go = started.0.handle(Happening::HotkeyUp, release);
            let finished = let_go.0.handle(Wake::Finish(seq).happening(), end);
            let stopped = finished.0.resume(Answer::Stopped(false), s.rules, stop);
            &&& pressed.1 == seq![Act::StartCapture]
            &&& started.0.recording is Some
            &&& let_go.0.recording is Some
            &&& let_go.1[0] == Act::Wake(s.cfg.release_tail_ms, Wake::Finish(seq))
            &&& finished.1 == seq![Act::StopCapture(start.now)]
            &&& stopped.0.stage == Stage::Ready
            &&& stopped.0.recording is None
            &&& stopped.0.pending == s.pending + 1
            &&& stopped.1.contains(
                Act::Transcribe(
                    seq,
                    if s.cfg.sounds {
                        audio::START_BLANK
                    } else {
                        0
                    },
                ),
            )
        }),
{
    let seq = (s.next_seq + 1) as u64;
    let pressed = s.handle(Happening::HotkeyDown, press);
    let started = pressed.0.resume(Answer::Started, s.rules, start);
    let let_go = started.0.handle(Happening::HotkeyUp, release);
    let finished = let_go.0.handle(Wake::Finish(seq).happening(), end);
    let stopped = finished.0.resume(Answer::Stopped(false), s.rules, stop);
    assert(stopped.1[stopped.1.len() - 2] is Transcribe);
}

/// A transcript is typed, announced and remembered as it is after the clean-up.
pub proof fn transcripts_are_typed(s: Session, seq: u64, text: Seq<char>, clock: Clock)
    requires
        s.stage == Stage::Ready,
        s.cleaned(text).len() > 0,
    ensures
        ({
            let (next, acts) = s.handle(Happening::Transcribed(seq, Ok(text)), clock);
            let clean = s.cleaned(text);
            &&& next.history[0] == (clock.unix, clean)
            &&& acts[0] == Act::Announce(clean)
            &&& acts[1] == Act::Type(
                if s.cfg.trailing_space {
                    clean.push(' ')
                } else {
                    clean
                },
            )
        }),
{
}

/// A toggled recording ends at the next toggle.
pub proof fn toggle_ends_a_recording(s: Session, clock: Clock)
    requires
        s.recording matches Some(rec) && !rec.finishing,
    ensures
        ({
            let (next, acts) = s.handle(Happening::Toggle, clock);
            &&& next.recording matches Some(rec) && rec.finishing && rec.released == Some(clock.now)
            &&& acts[0] == Act::Wake(s.cfg.release_tail_ms, Wake::Finish(s.recording->0.seq))
        }),
{
}

/// While dictation is paused no event starts the recorder, and pausing ends a
/// recording.
pub proof fn paused_session_does_not_record(s: Session, ev: Happening, clock: Clock)
    requires
        s.inv(),
        s.stage == Stage::Ready,
        !s.enabled,
    ensures
        !(s.handle(ev, clock).0.stage is Starting),
        s.handle(Happening::SetEnabled(false), clock).0.recording is None,
        !s.handle(Happening::SetEnabled(false), clock).0.enabled,
{
}

/// Another key ends exactly a recording whose hotkey is still held, and only
/// if the user wants that.
pub proof fn other_key_cancels(s: Session, clock: Clock)
    requires
        s.stage == Stage::Ready,
    ensures
        ({
            let held = s.recording matches Some(rec) && rec.from_hotkey && !rec.finishing;
            let next = s.handle(Happening::OtherKey, clock);
            if held && s.cfg.cancel_on_other_key {
                next.0.recording is None && next.1[0] is DropCapture && next.0.pending == s.pending
            } else {
                next == s.done()
            }
        }),
{
}

/// Letting go of the hotkey does not end a recording that it did not start.
pub proof fn hotkey_release_spares_toggled_recordings(s: Session, clock: Clock)
    requires
        s.recording matches Some(rec) && !rec.from_hotkey,
    ensures
        s.handle(Happening::HotkeyUp, clock) == s.done(),
{
}

/// A wake-up for another recording changes nothing.
pub proof fn stale_wake_ups_are_ignored(s: Session, seq: u64, clock: Clock)
    requires
        s.recording matches Some(rec) ==> rec.seq != seq,
    ensures
        s.handle(Wake::Finish(seq).happening(), clock) == s.done(),
        s.handle(Wake::MaxLength(seq).happening(), clock) == s.done(),
{
}

/// A wake-up for the recording under way ends it: at the end of its tail the
/// recorder is stopped, and at its greatest length its tail begins.
pub proof fn wake_ups_end_their_recording(s: Session, clock: Clock)
    requires
        s.recording is Some,
    ensures
        ({
            let rec = s.recording->0;
            &&& s.handle(Wake::Finish(rec.seq).happening(), clock) == s.stop_capture(
                rec,
                None,
                clock.now,
            )
            &&& !rec.finishing ==> s.handle(Wake::MaxLength(rec.seq).happening(), clock)
                == s.release(clock.now)
        }),
{
}

/// The wake-up that follows an error comes when the error is no longer shown.
pub proof fn refresh_clears_the_error(s: Session, msg: Seq<char>, now: u128, clock: Clock)
    requires
        s.keyboard_error is None,
        s.model_ready,
        s.recording is None,
        s.pending == 0,
        s.enabled,
        clock.now >= now + ERROR_REFRESH_MS * MS,
    ensures
        s.failed(msg, now).1.last() == Act::Wake(ERROR_REFRESH_MS, Wake::Refresh),
        s.failed(msg, now).0.handle(Wake::Refresh.happening(), clock).0.derive_status(
            clock.now,
        ).detail == "Hold "@ + labels::key_label(s.cfg.hotkey) + " to dictate"@,
{
}

/// A new recording has a number that no recording had before.
pub proof fn recording_numbers_are_new(s: Session, clock: Clock, rules: Seq<(Seq<char>, Seq<char>)>)
    requires
        s.inv(),
        s.counts(),
        s.stage is Starting,
    ensures
        s.resume(Answer::Started, rules, clock).0.recording matches Some(rec) && rec.seq
            > s.next_seq && rec.seq == s.resume(Answer::Started, rules, clock).0.next_seq,
{
}

/// A press during the release tail wraps up the earlier dictation and then
/// gets a recording of its own.
pub proof fn press_during_tail_starts_anew(s: Session, short: bool, t: Clock, u: Clock)
    requires
        s.stage == Stage::Ready,
        s.enabled,
        s.model_ready,
        s.recording matches Some(rec) && rec.finishing,
    ensures
        ({
            let a = s.handle(Happening::HotkeyDown, t);
            let b = a.0.resume(Answer::Stopped(short), s.rules, u);
            &&& a.1 == seq![Act::StopCapture(s.recording->0.started)]
            &&& b.0.stage == (Stage::Starting { from_hotkey: true })
            &&& b.1.last() is StartCapture
        }),
{
}

/// A press shorter than the limit is never transcribed; a longer one is, once,
/// unless the microphone delivered too little.
pub proof fn short_presses_are_dropped(
    s: Session,
    short: bool,
    rules: Seq<(Seq<char>, Seq<char>)>,
    clock: Clock,
)
    requires
        s.stage is Stopping,
        s.counts(),
    ensures
        ({
            let next = s.resume(Answer::Stopped(short), rules, clock).0;
            if s.stage->held < s.cfg.min_hold_ms * MS || short {
                next.pending == s.pending
            } else {
                next.pending == s.pending + 1
            }
        }),
{
}

/// The samples of a stopped recording are either transcribed or discarded at
/// once, never kept.
pub proof fn samples_are_used_or_discarded(
    s: Session,
    short: bool,
    rules: Seq<(Seq<char>, Seq<char>)>,
    clock: Clock,
)
    requires
        s.stage is Stopping,
    ensures
        ({
            let acts = s.resume(Answer::Stopped(short), rules, clock).1;
            let tap = s.stage->held < s.cfg.min_hold_ms * MS;
            let used = exists|i: int| 0 <= i < acts.len() && (#[trigger] acts[i]) is Transcribe;
            let discarded = exists|i: int| 0 <= i < acts.len() && (#[trigger] acts[i]) is Discard;
            &&& used <==> !tap && !short
            &&& discarded <==> tap || short
            &&& tap || short ==> acts[0] == Act::Discard(!tap)
        }),
{
    let acts = s.resume(Answer::Stopped(short), rules, clock).1;
    let tap = s.stage->held < s.cfg.min_hold_ms * MS;
    if tap || short {
        assert(acts[0] is Discard);
    } else {
        let i: int = if s.cfg.sounds {
            1
        } else {
            0
        };
        assert(acts[i] is Transcribe);
    }
}

/// Each finished transcription leaves the queue, however it ended.
pub proof fn transcriptions_leave_the_queue(
    s: Session,
    seq: u64,
    result: Result<Seq<char>, Seq<char>>,
    clock: Clock,
)
    ensures
        s.pending > 0 ==> s.handle(Happening::Transcribed(seq, result), clock).0.pending
            == s.pending - 1,
        s.pending == 0 ==> s.handle(Happening::Transcribed(seq, result), clock).0.pending == 0,
{
}

/// The newest transcript comes first and the older ones keep their order.
pub proof fn history_is_newest_first(history: Seq<(i64, Seq<char>)>, unix: i64, text: Seq<char>)
    requires
        history.len() <= status::HISTORY_LEN,
    ensures
        remembered(history, unix, text)[0] == (unix, text),
        0 < remembered(history, unix, text).len() <= status::HISTORY_LEN,
        forall|i: int|
            0 < i < remembered(history, unix, text).len() ==> #[trigger] remembered(
                history,
                unix,
                text,
            )[i] == history[i - 1],
{
}

/// A transcript of which nothing is left is neither typed nor remembered.
pub proof fn empty_transcripts_are_not_typed(s: Session, text: Seq<char>, clock: Clock)
    requires
        s.cleaned(text).len() == 0,
    ensures
        s.deliver(text, clock) == s.done(),
{
}

/// An error is shown for its time, unless something more urgent is.
pub proof fn errors_are_shown(s: Session, msg: Seq<char>, now: u128, later: u128)
    requires
        s.keyboard_error is None,
        s.model_ready,
        s.recording is None,
        s.pending == 0,
        s.enabled,
    ensures
        now <= later < now + ERROR_SHOWN ==> s.failed(msg, now).0.derive_status(later).detail
            == msg,
        later >= now + ERROR_SHOWN ==> s.failed(msg, now).0.derive_status(later).detail == "Hold "@
            + labels::key_label(s.cfg.hotkey) + " to dictate"@,
        s.failed(msg, now).0.derive_status(later).state == State::Idle,
{
}

/// A failed model or a missing keyboard is never hidden.
pub proof fn failures_are_never_hidden(s: Session, err: Seq<char>, now: u128, clock: Clock)
    ensures
        s.keyboard_error is Some ==> s.derive_status(now).state == State::Error,
        s.keyboard_error is None ==> s.handle(
            Happening::ModelFailed(s.model_gen, err),
            clock,
        ).0.derive_status(now).state == State::Error,
{
}

/// The level is only shown of a recording.
pub proof fn level_is_only_of_a_recording(s: Session, now: u128)
    requires
        s.inv(),
    ensures
        s.recording is None ==> s.derive_status(now).level == 0,
        s.derive_status(now).state == State::Recording ==> s.recording is Some,
{
}

/// What has been published is up to date until something changes.
pub proof fn published_status_is_up_to_date(s: Session, now: u128)
    ensures
        ({
            let p = Session { published: s.derive_status(now), ..s };
            &&& p.derive_status(now) == p.published
            &&& status::changes(p.published, p.derive_status(now)).len() == 0
        }),
{
}

/// A restart ends the recording and asks for the exit code that makes the
/// supervisor start a fresh engine.
pub proof fn restart_exits(s: Session, clock: Clock)
    ensures
        s.handle(Happening::Restart, clock).0.recording is None,
        s.handle(Happening::Restart, clock).1.contains(Act::Exit(RESTART_CODE, RESTART_DELAY_MS)),
{
    let acts = s.handle(Happening::Restart, clock).1;
    assert(acts[acts.len() - 2] == Act::Exit(RESTART_CODE, RESTART_DELAY_MS));
}

/// A retry only loads the model if it is not ready.
pub proof fn retry_spares_a_ready_model(s: Session, clock: Clock)
    ensures
        s.model_ready ==> s.handle(Happening::Retry, clock) == s.done(),
        !s.model_ready ==> s.handle(Happening::Retry, clock).1[0] is LoadModel,
{
}

/// New settings with the same hotkey and model disturb neither the keyboards
/// nor the model.
pub proof fn unrelated_settings_disturb_nothing(
    s: Session,
    cfg: ConfigView,
    rules: Seq<(Seq<char>, Seq<char>)>,
)
    requires
        cfg.hotkey == s.cfg.hotkey,
        cfg.model == s.cfg.model,
    ensures
        s.apply_config(cfg, rules) == ((Session { cfg, rules, ..s }), Seq::<Act>::empty()),
{
}

} // verus!
