//! The dictation session: events in, actions out.
//!
//! The engine's loop feeds every event to [`Controller::handle`] and performs
//! the actions it returns, in order. An action that has an outcome the session
//! depends on comes last, and its outcome goes to [`Controller::resume`],
//! until [`Controller::is_ready`] says that the next event can come.

use vstd::prelude::*;

use crate::audio::{Tone, START_BLANK};
use crate::config::Config;
use crate::fillers::strip_fillers;
use crate::keyboards::parse_key;
use crate::labels::{hotkey_label, number};
use crate::models::{model_by_id, ModelInfo};
use crate::replacer;
use crate::replacer::Replacer;
use crate::session;
use crate::session::{
    Act, Answer, Clock, Delivery, Happening, Recording, Session, Stage, Wake, ERROR_REFRESH_MS,
    ERROR_SHOWN, MAX_RECORDING_MS, MS, RESTART_CODE, RESTART_DELAY_MS,
};
use crate::state::State;
use crate::status;
use crate::status::{copy_history, Property, Status, HISTORY_LEN};
use crate::text::{concat, same_text};

verus! {

/// Everything that can happen, funnelled into one controller loop.
pub enum Event {
    HotkeyDown,
    HotkeyUp,
    OtherKey,
    KeyboardsMissing(String),
    KeyboardsOk,
    /// Microphone level in hundredths.
    Level(u8),
    // Model events carry the load generation so a slow, superseded load
    // can't mark a newer one ready or failed.
    /// A download has got this far, in percent.
    Downloading(u64, u64),
    Loading(u64),
    ModelReady(u64),
    ModelFailed(u64, String),
    Transcribed { seq: u64, result: Result<String, String> },
    FinishRecording(u64),
    MaxLength(u64),
    // From D-Bus
    Toggle,
    SetEnabled(bool),
    ReloadConfig,
    Retry,
    Restart,
}

/// The plain view of a transcription.
pub open spec fn transcript_view(r: Result<String, String>) -> Result<Seq<char>, Seq<char>> {
    match r {
        Ok(t) => Ok(t@),
        Err(e) => Err(e@),
    }
}

impl View for Event {
    type V = Happening;

    open spec fn view(&self) -> Happening {
        match *self {
            Event::HotkeyDown => Happening::HotkeyDown,
            Event::HotkeyUp => Happening::HotkeyUp,
            Event::OtherKey => Happening::OtherKey,
            Event::KeyboardsMissing(msg) => Happening::KeyboardsMissing(msg@),
            Event::KeyboardsOk => Happening::KeyboardsOk,
            Event::Level(l) => Happening::Level(l),
            Event::Downloading(g, p) => Happening::Downloading(g, p),
            Event::Loading(g) => Happening::Loading(g),
            Event::ModelReady(g) => Happening::ModelReady(g),
            Event::ModelFailed(g, err) => Happening::ModelFailed(g, err@),
            Event::Transcribed { seq, result } => Happening::Transcribed(
                seq,
                transcript_view(result),
            ),
            Event::FinishRecording(seq) => Happening::FinishRecording(seq),
            Event::MaxLength(seq) => Happening::MaxLength(seq),
            Event::Toggle => Happening::Toggle,
            Event::SetEnabled(on) => Happening::SetEnabled(on),
            Event::ReloadConfig => Happening::ReloadConfig,
            Event::Retry => Happening::Retry,
            Event::Restart => Happening::Restart,
        }
    }
}

/// The event that a wake-up comes back as.
pub fn wake_event(wake: Wake) -> (r: Event)
    ensures
        r@ == wake.happening(),
{
    match wake {
        Wake::Finish(seq) => Event::FinishRecording(seq),
        Wake::MaxLength(seq) => Event::MaxLength(seq),
        Wake::Refresh => Event::Level(0),
    }
}

/// The outcome of an action.
pub enum Reply {
    /// The recorder runs.
    Started,
    /// The recorder could not be started.
    StartFailed(String),
    /// The recorder has stopped. `short` says that it delivered less than half
    /// of what the time since its start should have given.
    Stopped { short: bool },
    /// The settings as they are now.
    Config(Config),
    /// The text has reached the user.
    Typed(Delivery),
    /// The text could not be typed.
    TypeFailed(String),
    /// Typing broke off without an answer.
    TypeAborted(String),
}

impl View for Reply {
    type V = Answer;

    open spec fn view(&self) -> Answer {
        match *self {
            Reply::Started => Answer::Started,
            Reply::StartFailed(err) => Answer::StartFailed(err@),
            Reply::Stopped { short } => Answer::Stopped(short),
            Reply::Config(cfg) => Answer::Config(cfg@),
            Reply::Typed(d) => Answer::Typed(d),
            Reply::TypeFailed(err) => Answer::TypeFailed(err@),
            Reply::TypeAborted(err) => Answer::TypeAborted(err@),
        }
    }
}

/// What the session asks for.
pub enum Action {
    /// Start the recorder, and reply whether it runs.
    StartCapture,
    /// Stop the recorder, keep its samples, and reply whether they are short
    /// for a recording that started then.
    StopCapture { started: u128 },
    /// Stop the recorder and forget its samples.
    DropCapture,
    /// Play a tone.
    Play(Tone),
    /// After some milliseconds, send the event that [`wake_event`] gives.
    Wake { after_ms: u64, wake: Wake },
    /// Transcribe the samples kept, with so many of them blanked at the start.
    Transcribe { seq: u64, blank: usize },
    /// Forget the samples kept. `stalled` says that it is because the
    /// microphone delivered too little of them.
    Discard { stalled: bool },
    /// Load a model.
    LoadModel { model: ModelInfo, generation: u64 },
    /// Listen for another key.
    ListenFor(u16),
    /// Read the settings, and reply with them.
    ReadConfig,
    /// Announce a transcript on the bus.
    Announce(String),
    /// Type a text, and reply what came of it.
    Type(String),
    /// Show a desktop notification.
    Notify { summary: &'static str, body: &'static str },
    /// Exit with a code after some milliseconds.
    Exit { code: i32, after_ms: u64 },
    /// Publish the status.
    Publish,
}

impl View for Action {
    type V = Act;

    open spec fn view(&self) -> Act {
        match *self {
            Action::StartCapture => Act::StartCapture,
            Action::StopCapture { started } => Act::StopCapture(started),
            Action::DropCapture => Act::DropCapture,
            Action::Play(tone) => Act::Play(tone),
            Action::Wake { after_ms, wake } => Act::Wake(after_ms, wake),
            Action::Transcribe { seq, blank } => Act::Transcribe(seq, blank),
            Action::Discard { stalled } => Act::Discard(stalled),
            Action::LoadModel { model, generation } => Act::LoadModel(model@, generation),
            Action::ListenFor(code) => Act::ListenFor(code),
            Action::ReadConfig => Act::ReadConfig,
            Action::Announce(text) => Act::Announce(text@),
            Action::Type(text) => Act::Type(text@),
            Action::Notify { summary, body } => Act::Notify(summary@, body@),
            Action::Exit { code, after_ms } => Act::Exit(code, after_ms),
            Action::Publish => Act::Publish,
        }
    }
}

/// The plain views of actions.
pub open spec fn acts(actions: Seq<Action>) -> Seq<Act> {
    actions.map_values(|a: Action| a@)
}

/// The plain view of an optional message.
pub open spec fn opt_text(s: Option<String>) -> Option<Seq<char>> {
    match s {
        Some(t) => Some(t@),
        None => None,
    }
}

/// The plain view of the last error.
pub open spec fn error_view(e: Option<(String, u128)>) -> Option<(Seq<char>, u128)> {
    match e {
        Some((msg, at)) => Some((msg@, at)),
        None => None,
    }
}

/// Appends an action.
fn ask(out: &mut Vec<Action>, action: Action)
    ensures
        acts(final(out)@) == acts(old(out)@).push(action@),
{
    out.push(action);
}

/// The dictation session.
pub struct Controller {
    cfg: Config,
    replacer: Replacer,
    enabled: bool,
    model_ready: bool,
    model_gen: u64,
    model_state: State,
    model_detail: String,
    keyboard_error: Option<String>,
    recording: Option<Recording>,
    next_seq: u64,
    pending: usize,
    level: u8,
    last_error: Option<(String, u128)>,
    history: Vec<(i64, String)>,
    published: Status,
    stage: Stage,
}

impl View for Controller {
    type V = Session;

    closed spec fn view(&self) -> Session {
        Session {
            cfg: self.cfg@,
            rules: self.replacer@,
            enabled: self.enabled,
            model_ready: self.model_ready,
            model_gen: self.model_gen,
            model_state: self.model_state,
            model_detail: self.model_detail@,
            keyboard_error: opt_text(self.keyboard_error),
            recording: self.recording,
            next_seq: self.next_seq,
            pending: self.pending,
            level: self.level,
            last_error: error_view(self.last_error),
            history: status::history_view(self.history@),
            published: self.published@,
            stage: self.stage,
        }
    }
}

impl Controller {
    /// A session that loads its model: the first actions are to load it and to
    /// publish the status.
    pub fn new(cfg: Config) -> (r: (Controller, Vec<Action>))
        ensures
            exists|rules: Seq<(Seq<char>, Seq<char>)>|
                {
                    let start = #[trigger] session::fresh(cfg@, rules);
                    &&& replacer::rules_for(rules, cfg@.replacements)
                    &&& r.0@ == start.load_model().0
                    &&& acts(r.1@) == start.load_model().1.push(Act::Publish)
                },
    {
        let ghost view = cfg@;
        let history: Vec<(i64, String)> = Vec::new();
        let replacer = Replacer::new(&cfg.replacements);
        let ghost rules = replacer@;
        let mut c = Controller {
            cfg,
            replacer,
            enabled: true,
            model_ready: false,
            model_gen: 0,
            model_state: State::Starting,
            model_detail: "Starting…".to_owned(),
            keyboard_error: None,
            recording: None,
            next_seq: 0,
            pending: 0,
            level: 0,
            last_error: None,
            history,
            published: Status::default(),
            stage: Stage::Ready,
        };
        assert(c@ =~= session::fresh(view, rules));
        let mut out: Vec<Action> = Vec::new();
        c.load_model(&mut out);
        ask(&mut out, Action::Publish);
        (c, out)
    }

    /// Whether the next event can come.
    pub fn is_ready(&self) -> (r: bool)
        ensures
            r == (self@.stage == Stage::Ready),
    {
        self.stage == Stage::Ready
    }

    /// Whether no counter is at its end.
    pub fn can_count(&self) -> (r: bool)
        ensures
            r == self@.counts(),
    {
        self.next_seq < u64::MAX && self.model_gen < u64::MAX && self.pending < usize::MAX
    }

    /// Whether a reply is the one that the session waits for.
    pub fn awaits(&self, reply: &Reply) -> (r: bool)
        ensures
            r == self@.expects(reply@),
    {
        match (reply, self.stage) {
            (Reply::Started, Stage::Starting { .. }) => true,
            (Reply::StartFailed(_), Stage::Starting { .. }) => true,
            (Reply::Stopped { .. }, Stage::Stopping { .. }) => true,
            (Reply::Config(_), Stage::ReadingConfig) => true,
            (Reply::Typed(_), Stage::Typing) => true,
            (Reply::TypeFailed(_), Stage::Typing) => true,
            (Reply::TypeAborted(_), Stage::Typing) => true,
            _ => false,
        }
    }

    /// The transcripts that are remembered, newest first.
    pub fn history(&self) -> (r: Vec<(i64, String)>)
        ensures
            status::history_view(r@) == self@.history,
    {
        copy_history(&self.history)
    }

    /// Says what the session shows at a time.
    pub fn derive_status(&self, now: u128) -> (r: Status)
        ensures
            r@ == self@.derive_status(now),
    {
        let key = hotkey_label(self.cfg.hotkey.as_str());
        let (state, detail): (State, String) = if let Some(err) = &self.keyboard_error {
            (State::Error, err.clone())
        } else if !self.model_ready {
            (self.model_state, self.model_detail.clone())
        } else if self.recording.is_some() {
            (State::Recording, "Listening…".to_owned())
        } else if self.pending > 0 {
            (State::Transcribing, "Transcribing…".to_owned())
        } else if !self.enabled {
            (State::Disabled, "Dictation is paused".to_owned())
        } else {
            let hold = concat(concat("Hold ", key.as_str()).as_str(), " to dictate");
            match &self.last_error {
                Some((err, at)) => {
                    if now < *at || now - *at < ERROR_SHOWN {
                        (State::Idle, err.clone())
                    } else {
                        (State::Idle, hold)
                    }
                },
                None => (State::Idle, hold),
            }
        };
        let status = Status {
            state,
            detail,
            level: if self.recording.is_some() {
                self.level
            } else {
                0
            },
            enabled: self.enabled,
            model: self.cfg.model.clone(),
            hotkey: key,
            history: copy_history(&self.history),
        };
        status
    }

    /// Brings the published snapshot up to date. Returns it together with the
    /// properties that changed, or nothing if it was up to date already.
    pub fn publish(&mut self, now: u128) -> (r: Option<(Status, Vec<Property>)>)
        ensures
            final(self)@ == (Session { published: old(self)@.derive_status(now), ..old(self)@ }),
            match r {
                None => old(self)@.derive_status(now) == old(self)@.published,
                Some((status, changed)) => {
                    &&& status@ == old(self)@.derive_status(now)
                    &&& status@ != old(self)@.published
                    &&& changed@ == status::changes(old(self)@.published, status@)
                },
            },
    {
        let next = self.derive_status(now);
        if next.same(&self.published) {
            return None;
        }
        let changed = self.published.changed_in(&next);
        self.published = next.copy();
        Some((next, changed))
    }

    /// Shows an error, and asks for a refresh once it has expired.
    fn fail(&mut self, msg: String, now: u128, out: &mut Vec<Action>)
        ensures
            final(self)@ == old(self)@.failed(msg@, now).0,
            acts(final(out)@) == acts(old(out)@) + old(self)@.failed(msg@, now).1,
    {
        if self.cfg.sounds {
            ask(out, Action::Play(Tone::Error));
        }
        self.last_error = Some((msg, now));
        ask(out, Action::Wake { after_ms: ERROR_REFRESH_MS, wake: Wake::Refresh });
    }

    fn start_capture(&mut self, from_hotkey: bool, now: u128, out: &mut Vec<Action>)
        ensures
            final(self)@ == old(self)@.start_capture(from_hotkey, now).0,
            acts(final(out)@) == acts(old(out)@) + old(self)@.start_capture(from_hotkey, now).1,
    {
        if !self.model_ready {
            self.fail("Speech model is still loading".to_owned(), now, out);
            ask(out, Action::Publish);
        } else {
            self.stage = Stage::Starting { from_hotkey };
            ask(out, Action::StartCapture);
        }
    }

    fn stop_capture(
        &mut self,
        rec: Recording,
        then_start: Option<bool>,
        now: u128,
        out: &mut Vec<Action>,
    )
        ensures
            final(self)@ == old(self)@.stop_capture(rec, then_start, now).0,
            acts(final(out)@) == acts(old(out)@) + old(self)@.stop_capture(rec, then_start, now).1,
    {
        // How long the key was actually held, not counting the release tail.
        let end = match rec.released {
            Some(t) => t,
            None => now,
        };
        let held: u128 = if end >= rec.started {
            end - rec.started
        } else {
            0
        };
        self.recording = None;
        self.stage = Stage::Stopping { seq: rec.seq, held, then_start };
        ask(out, Action::StopCapture { started: rec.started });
    }

    /// Starts a recording, unless one is under way. Pressed again during the
    /// release tail, the previous dictation is wrapped up first, so that this
    /// press gets a recording of its own.
    fn start_recording(&mut self, from_hotkey: bool, now: u128, out: &mut Vec<Action>)
        ensures
            final(self)@ == old(self)@.start_recording(from_hotkey, now).0,
            acts(final(out)@) == acts(old(out)@) + old(self)@.start_recording(from_hotkey, now).1,
    {
        if !self.enabled {
            ask(out, Action::Publish);
            return ;
        }
        match self.recording {
            Some(rec) => {
                if rec.finishing {
                    self.stop_capture(rec, Some(from_hotkey), now, out);
                } else {
                    ask(out, Action::Publish);
                }
            },
            None => {
                self.start_capture(from_hotkey, now, out);
            },
        }
    }

    /// Key released: keep listening a moment so the last word isn't clipped.
    fn release(&mut self, now: u128, out: &mut Vec<Action>)
        ensures
            final(self)@ == old(self)@.release(now).0,
            acts(final(out)@) == acts(old(out)@) + old(self)@.release(now).1,
    {
        match self.recording {
            Some(rec) => {
                if !rec.finishing {
                    self.recording = Some(
                        Recording {
                            started: rec.started,
                            released: Some(now),
                            seq: rec.seq,
                            from_hotkey: rec.from_hotkey,
                            finishing: true,
                        },
                    );
                    ask(
                        out,
                        Action::Wake {
                            after_ms: self.cfg.release_tail_ms,
                            wake: Wake::Finish(rec.seq),
                        },
                    );
                }
                ask(out, Action::Publish);
            },
            None => {
                ask(out, Action::Publish);
            },
        }
    }

    /// Ends a recording, if it is the one under way.
    fn finish(&mut self, seq: u64, now: u128, out: &mut Vec<Action>)
        ensures
            final(self)@ == old(self)@.finish(seq, now).0,
            acts(final(out)@) == acts(old(out)@) + old(self)@.finish(seq, now).1,
    {
        match self.recording {
            Some(rec) => {
                if rec.seq == seq {
                    self.stop_capture(rec, None, now, out);
                } else {
                    ask(out, Action::Publish);
                }
            },
            None => {
                ask(out, Action::Publish);
            },
        }
    }

    /// Decides what becomes of a stopped recording.
    fn stopped(&mut self, seq: u64, held: u128, short: bool, now: u128, out: &mut Vec<Action>)
        requires
            old(self)@.counts(),
        ensures
            final(self)@ == old(self)@.stopped(seq, held, short, now).0,
            acts(final(out)@) == acts(old(out)@) + old(self)@.stopped(seq, held, short, now).1,
    {
        let min_hold: u128 = self.cfg.min_hold_ms as u128 * MS;
        if held < min_hold {
            // accidental tap
            ask(out, Action::Discard { stalled: false });
        } else if short {
            // The microphone stalled: say so instead of transcribing scraps.
            ask(out, Action::Discard { stalled: true });
            self.fail(
                "Microphone didn't pick anything up. Check your input device.".to_owned(),
                now,
                out,
            );
        } else {
            let mut blank: usize = 0;
            if self.cfg.sounds {
                ask(out, Action::Play(Tone::Stop));
                blank = START_BLANK;
            }
            self.pending = self.pending + 1;
            ask(out, Action::Transcribe { seq, blank });
        }
    }

    /// Throws the recording away, if there is one.
    fn cancel(&mut self, out: &mut Vec<Action>)
        ensures
            final(self)@ == old(self)@.cancel().0,
            acts(final(out)@) == acts(old(out)@) + old(self)@.cancel().1,
    {
        if self.recording.is_some() {
            self.recording = None;
            ask(out, Action::DropCapture);
            if self.cfg.sounds {
                ask(out, Action::Play(Tone::Cancel));
            }
        }
    }

    /// Remembers, announces and types a transcript.
    fn deliver(&mut self, text: String, clock: Clock, out: &mut Vec<Action>)
        ensures
            final(self)@ == old(self)@.deliver(text@, clock).0,
            acts(final(out)@) == acts(old(out)@) + old(self)@.deliver(text@, clock).1,
    {
        let spoken = if self.cfg.remove_fillers {
            strip_fillers(text.as_str())
        } else {
            text
        };
        let mut clean = self.replacer.apply(spoken.as_str());
        if clean.as_str().is_empty() {
            ask(out, Action::Publish);
            return ;
        }
        self.history.insert(0, (clock.unix, clean.clone()));
        if self.history.len() > HISTORY_LEN {
            self.history.truncate(HISTORY_LEN);
        }
        ask(out, Action::Announce(clean.clone()));
        if self.cfg.trailing_space {
            clean.push(' ');
        }
        ask(out, Action::Type(clean));
        self.stage = Stage::Typing;
    }

    /// Loads the configured model anew.
    fn load_model(&mut self, out: &mut Vec<Action>)
        requires
            old(self)@.counts(),
        ensures
            final(self)@ == old(self)@.load_model().0,
            acts(final(out)@) == acts(old(out)@) + old(self)@.load_model().1,
    {
        self.model_ready = false;
        self.model_gen = self.model_gen + 1;
        self.model_state = State::Loading;
        self.model_detail = "Loading speech model…".to_owned();
        let model = model_by_id(self.cfg.model.as_str());
        ask(out, Action::LoadModel { model, generation: self.model_gen });
    }

    /// Puts new settings into effect.
    fn apply_config(&mut self, cfg: Config, out: &mut Vec<Action>)
        requires
            old(self)@.counts(),
        ensures
            replacer::rules_for(final(self)@.rules, cfg@.replacements),
            final(self)@ == old(self)@.apply_config(cfg@, final(self)@.rules).0,
            acts(final(out)@) == acts(old(out)@) + old(self)@.apply_config(
                cfg@,
                final(self)@.rules,
            ).1,
    {
        let model_changed = !same_text(cfg.model.as_str(), self.cfg.model.as_str());
        if !same_text(cfg.hotkey.as_str(), self.cfg.hotkey.as_str()) {
            ask(out, Action::ListenFor(parse_key(cfg.hotkey.as_str())));
        }
        self.replacer = Replacer::new(&cfg.replacements);
        self.cfg = cfg;
        if model_changed {
            self.load_model(out);
        }
    }

    /// Takes an event of the hotkey or of a recording's life.
    fn handle_recording(&mut self, ev: Event, clock: Clock, out: &mut Vec<Action>)
        requires
            ev is HotkeyDown || ev is HotkeyUp || ev is OtherKey || ev is FinishRecording
                || ev is MaxLength || ev is Toggle,
            acts(old(out)@) == Seq::<Act>::empty(),
        ensures
            final(self)@ == old(self)@.handle(ev@, clock).0,
            acts(final(out)@) == old(self)@.handle(ev@, clock).1,
    {
        let now = clock.now;
        match ev {
            Event::HotkeyDown => {
                self.start_recording(true, now, out);
            },
            Event::HotkeyUp => {
                let held_here = match self.recording {
                    Some(rec) => rec.from_hotkey,
                    None => false,
                };
                if held_here {
                    self.release(now, out);
                } else {
                    ask(out, Action::Publish);
                }
            },
            Event::OtherKey => {
                match self.recording {
                    Some(rec) => {
                        if self.cfg.cancel_on_other_key && rec.from_hotkey && !rec.finishing {
                            self.cancel(out);
                        }
                    },
                    None => {},
                }
                ask(out, Action::Publish);
            },
            Event::FinishRecording(seq) => {
                self.finish(seq, now, out);
            },
            Event::MaxLength(seq) => {
                let too_long = match self.recording {
                    Some(rec) => rec.seq == seq && !rec.finishing,
                    None => false,
                };
                if too_long {
                    self.release(now, out);
                } else {
                    ask(out, Action::Publish);
                }
            },
            _ => {
                if self.recording.is_some() {
                    self.release(now, out);
                } else {
                    self.start_recording(false, now, out);
                }
            },
        }
    }

    /// Takes an event of a model load. One from a superseded load is ignored.
    fn handle_model(&mut self, ev: Event, clock: Clock)
        requires
            ev is Downloading || ev is Loading || ev is ModelReady || ev is ModelFailed,
        ensures
            final(self)@ == old(self)@.handle(ev@, clock).0,
            old(self)@.handle(ev@, clock).1 == seq![Act::Publish],
    {
        match ev {
            Event::Downloading(g, percent) => {
                if g == self.model_gen {
                    self.model_state = State::Downloading;
                    self.model_detail = concat(
                        concat("Downloading speech model… ", number(percent).as_str()).as_str(),
                        "%",
                    );
                }
            },
            Event::Loading(g) => {
                if g == self.model_gen {
                    self.model_state = State::Loading;
                    self.model_detail = "Loading speech model…".to_owned();
                }
            },
            Event::ModelReady(g) => {
                if g == self.model_gen {
                    self.model_ready = true;
                }
            },
            Event::ModelFailed(g, err) => {
                if g == self.model_gen {
                    self.model_ready = false;
                    self.model_state = State::Error;
                    self.model_detail = concat("Speech model failed: ", err.as_str());
                }
            },
            _ => {},
        }
    }

    /// Takes one event, and returns the actions it calls for.
    pub fn handle(&mut self, ev: Event, clock: Clock) -> (out: Vec<Action>)
        requires
            old(self)@.stage == Stage::Ready,
            old(self)@.counts(),
        ensures
            final(self)@ == old(self)@.handle(ev@, clock).0,
            acts(out@) == old(self)@.handle(ev@, clock).1,
    {
        let mut out: Vec<Action> = Vec::new();
        assert(acts(out@) == Seq::<Act>::empty());
        match ev {
            Event::HotkeyDown | Event::HotkeyUp | Event::OtherKey | Event::FinishRecording(_)
            | Event::MaxLength(_) | Event::Toggle => {
                self.handle_recording(ev, clock, &mut out);
                return out;
            },
            Event::Downloading(_, _) | Event::Loading(_) | Event::ModelReady(_)
            | Event::ModelFailed(_, _) => {
                self.handle_model(ev, clock);
            },
            Event::KeyboardsMissing(msg) => {
                self.keyboard_error = Some(msg);
            },
            Event::KeyboardsOk => {
                self.keyboard_error = None;
            },
            Event::Level(l) => {
                self.level = l;
            },
            Event::Transcribed { seq: _, result } => {
                if self.pending > 0 {
                    self.pending = self.pending - 1;
                }
                match result {
                    Ok(text) => {
                        self.deliver(text, clock, &mut out);
                        return out;
                    },
                    Err(err) => {
                        self.fail(
                            concat("Transcription failed: ", err.as_str()),
                            clock.now,
                            &mut out,
                        );
                    },
                }
            },
            Event::SetEnabled(on) => {
                self.enabled = on;
                if !on {
                    self.cancel(&mut out);
                }
            },
            Event::ReloadConfig => {
                self.stage = Stage::ReadingConfig;
                ask(&mut out, Action::ReadConfig);
                return out;
            },
            Event::Retry => {
                if !self.model_ready {
                    self.load_model(&mut out);
                }
            },
            Event::Restart => {
                self.cancel(&mut out);
                ask(&mut out, Action::Exit { code: RESTART_CODE, after_ms: RESTART_DELAY_MS });
            },
        }
        ask(&mut out, Action::Publish);
        out
    }

    /// Takes the outcome of the last action, and returns the actions that
    /// follow.
    pub fn resume(&mut self, reply: Reply, clock: Clock) -> (out: Vec<Action>)
        requires
            old(self)@.expects(reply@),
            old(self)@.counts(),
        ensures
            reply matches Reply::Config(cfg) ==> replacer::rules_for(
                final(self)@.rules,
                cfg@.replacements,
            ),
            final(self)@ == old(self)@.resume(reply@, final(self)@.rules, clock).0,
            acts(out@) == old(self)@.resume(reply@, final(self)@.rules, clock).1,
    {
        let mut out: Vec<Action> = Vec::new();
        let stage = self.stage;
        self.stage = Stage::Ready;
        match reply {
            Reply::Started => {
                if self.cfg.sounds {
                    ask(&mut out, Action::Play(Tone::Start));
                }
                self.next_seq = self.next_seq + 1;
                self.level = 0;
                let seq: u64 = self.next_seq;
                if let Stage::Starting { from_hotkey } = stage {
                    self.recording = Some(
                        Recording {
                            started: clock.now,
                            released: None,
                            seq,
                            from_hotkey,
                            finishing: false,
                        },
                    );
                }
                ask(
                    &mut out,
                    Action::Wake { after_ms: MAX_RECORDING_MS, wake: Wake::MaxLength(seq) },
                );
            },
            Reply::StartFailed(err) => {
                self.fail(err, clock.now, &mut out);
            },
            Reply::Stopped { short } => {
                if let Stage::Stopping { seq, held, then_start } = stage {
                    self.stopped(seq, held, short, clock.now, &mut out);
                    if let Some(from_hotkey) = then_start {
                        self.start_capture(from_hotkey, clock.now, &mut out);
                        return out;
                    }
                }
            },
            Reply::Config(cfg) => {
                self.apply_config(cfg, &mut out);
            },
            Reply::Typed(Delivery::Typed) => {},
            Reply::Typed(Delivery::Clipboard) => {
                ask(
                    &mut out,
                    Action::Notify {
                        summary: "Copied to clipboard",
                        body: "Murmur couldn't type into this window. Paste with Ctrl+V.",
                    },
                );
            },
            Reply::TypeFailed(err) => {
                self.fail(concat("Couldn't type text: ", err.as_str()), clock.now, &mut out);
            },
            Reply::TypeAborted(err) => {
                self.fail(concat("Typing task failed: ", err.as_str()), clock.now, &mut out);
            },
        }
        ask(&mut out, Action::Publish);
        out
    }
}

} // verus!
