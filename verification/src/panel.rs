//! The panel button and its popup: what the user sees, and what a click does.

use vstd::prelude::*;

use crate::config::Config;
use crate::labels;
use crate::labels::{ago, ellipsize};
use crate::state::State;
use crate::status;
use crate::text::concat;

verus! {

/// Relaunch the engine if it has been missing this long, in nanoseconds.
pub const ENGINE_GRACE: u128 = 4_000_000_000;

/// The engine is not relaunched more often than this, in nanoseconds.
pub const RESPAWN_AFTER: u128 = 10_000_000_000;

/// How many transcripts the popup shows.
pub const HISTORY_SHOWN: usize = 5;

/// How many characters of a transcript the popup shows.
pub const LINE_CHARS: usize = 40;

/// The meter moves this often, in milliseconds.
pub const FRAME_MS: u64 = 33;

/// A missing engine is looked for this often, in milliseconds.
pub const SEARCH_MS: u64 = 1_000;

/// The focus is back in the user's window this long after the popup closed,
/// in milliseconds.
pub const REFOCUS_MS: u64 = 250;

/// News from the engine.
pub enum Update {
    Connected,
    Disconnected,
    State(String),
    Detail(String),
    /// Microphone level in hundredths.
    Level(u8),
    Enabled(bool),
    Model(String),
    Hotkey(String),
    History(Vec<(i64, String)>),
}

/// What can happen to the panel button.
pub enum Message {
    TogglePopup,
    /// A popup is open now.
    PopupOpened(u64),
    PopupClosed(u64),
    Engine(Update),
    Tick,
    SetEnabled(bool),
    SetSounds(bool),
    /// The sounds setting as it is on disk.
    SoundsRead(bool),
    /// The settings were saved.
    Saved,
    DictateNow,
    StartDictation,
    Copy(usize),
    OpenSettings,
    Retry,
}

/// A call of the engine.
#[derive(Clone, Copy, Debug, PartialEq, Eq, Structural)]
pub enum Call {
    ToggleRecording,
    SetEnabled(bool),
    ReloadConfig,
    Retry,
}

/// What the panel button asks for.
#[derive(Clone, Copy, Debug, PartialEq, Eq, Structural)]
pub enum PanelAction {
    /// Call the engine.
    Call(Call),
    /// Start the engine.
    StartEngine,
    /// Read the sounds setting from disk.
    ReadSounds,
    /// Open the popup.
    OpenPopup,
    /// Close a popup.
    ClosePopup(u64),
    /// Save the sounds setting, and say when that is done.
    SaveSounds(bool),
    /// Begin to dictate after so many milliseconds.
    DictateAfter(u64),
    /// Copy a transcript to the clipboard.
    CopyLine(usize),
    /// Open the settings window.
    OpenSettings,
}

/// The panel button, as plain values.
#[verifier::ext_equal]
pub struct PanelView {
    pub popup: Option<u64>,
    pub connected: bool,
    pub disconnected_since: Option<u128>,
    pub last_spawn: Option<u128>,
    pub state: State,
    pub detail: Seq<char>,
    pub level: u8,
    pub enabled: bool,
    pub model: Seq<char>,
    pub hotkey: Seq<char>,
    pub history: Seq<(i64, Seq<char>)>,
    pub sounds: bool,
    pub copied: Option<usize>,
}

/// Closing the popup that is open, if one is.
pub open spec fn close(popup: Option<u64>) -> Seq<PanelAction> {
    match popup {
        Some(id) => seq![PanelAction::ClosePopup(id)],
        None => seq![],
    }
}

impl PanelView {
    /// The panel button before the engine was found.
    pub open spec fn fresh(sounds: bool, now: u128) -> PanelView {
        PanelView {
            popup: None,
            connected: false,
            disconnected_since: Some(now),
            last_spawn: None,
            state: State::Starting,
            detail: "Starting…"@,
            level: 0,
            enabled: true,
            model: seq![],
            hotkey: "Right Alt"@,
            history: seq![],
            sounds,
            copied: None,
        }
    }

    /// What holds between any two steps.
    pub open spec fn inv(self) -> bool {
        &&& self.connected <==> self.disconnected_since is None
        &&& self.copied matches Some(i) ==> i < self.history.len()
    }

    /// A call of the engine, if it is there.
    pub open spec fn call(self, call: Call) -> (PanelView, Seq<PanelAction>) {
        (
            self,
            if self.connected {
                seq![PanelAction::Call(call)]
            } else {
                seq![]
            },
        )
    }

    /// Whether the engine is to be started: it has been missing for a while
    /// and was not started a moment ago.
    pub open spec fn start_is_due(self, now: u128) -> bool {
        &&& self.disconnected_since matches Some(since) && now - since >= ENGINE_GRACE
        &&& self.last_spawn matches Some(at) ==> now - at >= RESPAWN_AFTER
    }

    /// The engine is started if that is due.
    pub open spec fn supervise_engine(self, now: u128) -> (PanelView, Seq<PanelAction>) {
        if self.start_is_due(now) {
            (PanelView { last_spawn: Some(now), ..self }, seq![PanelAction::StartEngine])
        } else {
            (self, seq![])
        }
    }

    /// What news from the engine does.
    pub open spec fn engine(self, update: Update, now: u128) -> (PanelView, Seq<PanelAction>) {
        match update {
            Update::Connected => (
                PanelView { connected: true, disconnected_since: None, ..self },
                seq![],
            ),
            Update::Disconnected => PanelView {
                disconnected_since: if self.connected || self.disconnected_since is None {
                    Some(now)
                } else {
                    self.disconnected_since
                },
                connected: false,
                state: State::Error,
                detail: "Engine not running"@,
                ..self
            }.supervise_engine(now),
            Update::State(s) => {
                let state = State::named(s@);
                (
                    PanelView {
                        state,
                        level: if state == State::Recording {
                            self.level
                        } else {
                            0
                        },
                        ..self
                    },
                    seq![],
                )
            },
            Update::Detail(d) => (PanelView { detail: d@, ..self }, seq![]),
            Update::Level(l) => (PanelView { level: l, ..self }, seq![]),
            Update::Enabled(e) => (PanelView { enabled: e, ..self }, seq![]),
            Update::Model(m) => (PanelView { model: m@, ..self }, seq![]),
            Update::Hotkey(h) => (PanelView { hotkey: h@, ..self }, seq![]),
            Update::History(h) => (
                PanelView { history: status::history_view(h@), copied: None, ..self },
                seq![],
            ),
        }
    }

    /// What a message does.
    pub open spec fn update(self, message: Message, now: u128) -> (PanelView, Seq<PanelAction>) {
        match message {
            Message::TogglePopup => if self.state == State::Recording {
                self.call(Call::ToggleRecording)
            } else if self.popup is Some {
                (PanelView { popup: None, ..self }, close(self.popup))
            } else {
                (
                    PanelView { copied: None, ..self },
                    seq![PanelAction::ReadSounds, PanelAction::OpenPopup],
                )
            },
            Message::PopupOpened(id) => (PanelView { popup: Some(id), ..self }, seq![]),
            Message::PopupClosed(id) => (
                PanelView {
                    popup: if self.popup == Some(id) {
                        None
                    } else {
                        self.popup
                    },
                    ..self
                },
                seq![],
            ),
            Message::Engine(update) => self.engine(update, now),
            Message::Tick => if self.connected {
                (self, seq![])
            } else {
                self.supervise_engine(now)
            },
            Message::SetEnabled(on) => PanelView { enabled: on, ..self }.call(Call::SetEnabled(on)),
            Message::SetSounds(on) => (
                PanelView { sounds: on, ..self },
                seq![PanelAction::SaveSounds(on)],
            ),
            Message::SoundsRead(on) => (PanelView { sounds: on, ..self }, seq![]),
            Message::Saved => self.call(Call::ReloadConfig),
            Message::DictateNow => (
                PanelView { popup: None, ..self },
                close(self.popup).push(PanelAction::DictateAfter(REFOCUS_MS)),
            ),
            Message::StartDictation => self.call(Call::ToggleRecording),
            Message::Copy(i) => if i < self.history.len() {
                (PanelView { copied: Some(i), ..self }, seq![PanelAction::CopyLine(i)])
            } else {
                (self, seq![])
            },
            Message::OpenSettings => (
                PanelView { popup: None, ..self },
                seq![PanelAction::OpenSettings] + close(self.popup),
            ),
            Message::Retry => if self.connected {
                self.call(Call::Retry)
            } else {
                PanelView {
                    last_spawn: None,
                    disconnected_since: Some((now - ENGINE_GRACE) as u128),
                    ..self
                }.supervise_engine(now)
            },
        }
    }

    /// Whether the meter moves.
    pub open spec fn animating(self) -> bool {
        self.connected && (self.state == State::Recording || self.state == State::Transcribing)
    }

    /// How often a tick is wanted, in milliseconds.
    pub open spec fn tick_every(self) -> Option<u64> {
        if self.animating() {
            Some(FRAME_MS)
        } else if !self.connected {
            Some(SEARCH_MS)
        } else {
            None
        }
    }

    /// The icon in the panel.
    pub open spec fn icon(self) -> Icon {
        if !self.connected || self.state == State::Error {
            Icon::MicError
        } else if self.state == State::Disabled {
            Icon::MicOff
        } else {
            Icon::Mic
        }
    }

    /// The colour of the status dot.
    pub open spec fn tint(self) -> Tint {
        match self.state {
            State::Recording => Tint::Destructive,
            State::Error => Tint::Warning,
            State::Idle => if self.connected {
                Tint::Success
            } else {
                Tint::Accent
            },
            _ => Tint::Accent,
        }
    }

    /// The colour of the meter's bars.
    pub open spec fn bar_tint(self) -> Tint {
        if self.state == State::Recording {
            Tint::Destructive
        } else if !self.connected {
            Tint::Neutral
        } else {
            Tint::Accent
        }
    }

    /// How many transcripts are shown.
    pub open spec fn shown(self) -> int {
        if self.history.len() <= HISTORY_SHOWN {
            self.history.len() as int
        } else {
            HISTORY_SHOWN as int
        }
    }

    /// The ages of the transcripts that are shown can be told.
    pub open spec fn ages_fit(self, now: i64) -> bool {
        forall|i: int|
            0 <= i < self.shown() ==> i64::MIN <= now - (#[trigger] self.history[i]).0 <= i64::MAX
    }

    /// A line of the popup.
    pub open spec fn line(self, i: int, now: i64) -> (Seq<char>, Seq<char>, bool) {
        let is_copied = self.copied == Some(i as usize);
        (
            labels::shortened(self.history[i].1, LINE_CHARS as nat),
            if is_copied {
                "Copied"@
            } else {
                labels::ago_label(now - self.history[i].0)
            },
            is_copied,
        )
    }
}

/// The icons of the panel button.
#[derive(Clone, Copy, Debug, PartialEq, Eq, Structural)]
pub enum Icon {
    Mic,
    MicOff,
    MicError,
}

/// The colours of the theme.
#[derive(Clone, Copy, Debug, PartialEq, Eq, Structural)]
pub enum Tint {
    Destructive,
    Warning,
    Success,
    Accent,
    Neutral,
}

/// A transcript in the popup.
pub struct Line {
    /// The beginning of the text.
    pub text: String,
    /// How old it is, or that it was copied.
    pub right: String,
    pub copied: bool,
}

impl View for Line {
    type V = (Seq<char>, Seq<char>, bool);

    open spec fn view(&self) -> (Seq<char>, Seq<char>, bool) {
        (self.text@, self.right@, self.copied)
    }
}

/// The button at the foot of the popup.
pub enum Footer {
    StartEngine,
    TryAgain,
    /// Dictate now, with a hint, and whether it can be pressed.
    Dictate { hint: String, active: bool },
}

/// The settings with the sounds turned on or off.
pub fn with_sounds(cfg: Config, on: bool) -> (r: Config)
    ensures
        r@ == (crate::config::ConfigView { sounds: on, ..cfg@ }),
{
    let mut c = cfg;
    c.sounds = on;
    c
}

/// The panel button.
pub struct Panel {
    popup: Option<u64>,
    connected: bool,
    disconnected_since: Option<u128>,
    last_spawn: Option<u128>,
    state: State,
    detail: String,
    level: u8,
    enabled: bool,
    model: String,
    hotkey: String,
    history: Vec<(i64, String)>,
    sounds: bool,
    copied: Option<usize>,
}

impl View for Panel {
    type V = PanelView;

    closed spec fn view(&self) -> PanelView {
        PanelView {
            popup: self.popup,
            connected: self.connected,
            disconnected_since: self.disconnected_since,
            last_spawn: self.last_spawn,
            state: self.state,
            detail: self.detail@,
            level: self.level,
            enabled: self.enabled,
            model: self.model@,
            hotkey: self.hotkey@,
            history: status::history_view(self.history@),
            sounds: self.sounds,
            copied: self.copied,
        }
    }
}

impl Panel {
    /// The panel button before the engine was found. Times are in nanoseconds
    /// of a steady clock.
    pub fn new(sounds: bool, now: u128) -> (r: Panel)
        ensures
            r@ == PanelView::fresh(sounds, now),
            r@.inv(),
    {
        let r = Panel {
            popup: None,
            connected: false,
            disconnected_since: Some(now),
            last_spawn: None,
            state: State::Starting,
            detail: "Starting…".to_owned(),
            level: 0,
            enabled: true,
            model: String::new(),
            hotkey: "Right Alt".to_owned(),
            history: Vec::new(),
            sounds,
            copied: None,
        };
        r
    }

    fn call(&self, call: Call, out: &mut Vec<PanelAction>)
        ensures
            final(out)@ == old(out)@ + self@.call(call).1,
    {
        if self.connected {
            out.push(PanelAction::Call(call));
        }
    }

    fn close_popup(&mut self, out: &mut Vec<PanelAction>)
        ensures
            final(self)@ == (PanelView { popup: None, ..old(self)@ }),
            final(out)@ == old(out)@ + close(old(self)@.popup),
    {
        if let Some(id) = self.popup {
            out.push(PanelAction::ClosePopup(id));
        }
        self.popup = None;
    }

    /// Start murmurd if nothing owns the bus name. The engine refuses to run
    /// twice, so a spare launch is harmless.
    fn supervise_engine(&mut self, now: u128, out: &mut Vec<PanelAction>)
        ensures
            final(self)@ == old(self)@.supervise_engine(now).0,
            final(out)@ == old(out)@ + old(self)@.supervise_engine(now).1,
    {
        let missing = match self.disconnected_since {
            Some(since) => now >= since && now - since >= ENGINE_GRACE,
            None => false,
        };
        let rested = match self.last_spawn {
            Some(at) => now >= at && now - at >= RESPAWN_AFTER,
            None => true,
        };
        if missing && rested {
            self.last_spawn = Some(now);
            out.push(PanelAction::StartEngine);
        }
    }

    fn engine(&mut self, update: Update, now: u128, out: &mut Vec<PanelAction>)
        ensures
            final(self)@ == old(self)@.engine(update, now).0,
            final(out)@ == old(out)@ + old(self)@.engine(update, now).1,
    {
        match update {
            Update::Connected => {
                self.connected = true;
                self.disconnected_since = None;
            },
            Update::Disconnected => {
                if self.connected || self.disconnected_since.is_none() {
                    self.disconnected_since = Some(now);
                }
                self.connected = false;
                self.state = State::Error;
                self.detail = "Engine not running".to_owned();
                self.supervise_engine(now, out);
            },
            Update::State(s) => {
                self.state = State::parse(s.as_str());
                if self.state != State::Recording {
                    self.level = 0;
                }
            },
            Update::Detail(d) => {
                self.detail = d;
            },
            Update::Level(l) => {
                self.level = l;
            },
            Update::Enabled(e) => {
                self.enabled = e;
            },
            Update::Model(m) => {
                self.model = m;
            },
            Update::Hotkey(h) => {
                self.hotkey = h;
            },
            Update::History(h) => {
                self.history = h;
                self.copied = None;
            },
        }
    }

    /// Takes a message, and says what to do.
    pub fn update(&mut self, message: Message, now: u128) -> (r: Vec<PanelAction>)
        requires
            old(self)@.inv(),
            message is Retry && !old(self)@.connected ==> now >= ENGINE_GRACE,
        ensures
            (final(self)@, r@) == old(self)@.update(message, now),
            final(self)@.inv(),
    {
        let mut out: Vec<PanelAction> = Vec::new();
        match message {
            Message::TogglePopup => {
                // While dictating, a click on the panel stops it.
                if self.state == State::Recording {
                    self.call(Call::ToggleRecording, &mut out);
                } else if self.popup.is_some() {
                    self.close_popup(&mut out);
                } else {
                    self.copied = None;
                    out.push(PanelAction::ReadSounds);
                    out.push(PanelAction::OpenPopup);
                }
            },
            Message::PopupOpened(id) => {
                self.popup = Some(id);
            },
            Message::PopupClosed(id) => {
                if self.popup == Some(id) {
                    self.popup = None;
                }
            },
            Message::Engine(update) => {
                self.engine(update, now, &mut out);
            },
            Message::Tick => {
                if !self.connected {
                    self.supervise_engine(now, &mut out);
                }
            },
            Message::SetEnabled(on) => {
                self.enabled = on;
                self.call(Call::SetEnabled(on), &mut out);
            },
            Message::SetSounds(on) => {
                self.sounds = on;
                out.push(PanelAction::SaveSounds(on));
            },
            Message::SoundsRead(on) => {
                self.sounds = on;
            },
            Message::Saved => {
                self.call(Call::ReloadConfig, &mut out);
            },
            Message::DictateNow => {
                // Close the popup first so the previously focused window gets
                // the text.
                self.close_popup(&mut out);
                out.push(PanelAction::DictateAfter(REFOCUS_MS));
            },
            Message::StartDictation => {
                self.call(Call::ToggleRecording, &mut out);
            },
            Message::Copy(i) => {
                if i < self.history.len() {
                    self.copied = Some(i);
                    out.push(PanelAction::CopyLine(i));
                }
            },
            Message::OpenSettings => {
                out.push(PanelAction::OpenSettings);
                self.close_popup(&mut out);
            },
            Message::Retry => {
                if self.connected {
                    self.call(Call::Retry, &mut out);
                } else {
                    self.last_spawn = None;
                    self.disconnected_since = Some(now - ENGINE_GRACE);
                    self.supervise_engine(now, &mut out);
                }
            },
        }
        out
    }

    /// Whether the meter moves.
    pub fn animating(&self) -> (r: bool)
        ensures
            r == self@.animating(),
    {
        self.connected && (self.state == State::Recording || self.state == State::Transcribing)
    }

    /// How often a tick is wanted, in milliseconds.
    pub fn tick_every(&self) -> (r: Option<u64>)
        ensures
            r == self@.tick_every(),
    {
        if self.animating() {
            Some(FRAME_MS)
        } else if !self.connected {
            Some(SEARCH_MS)
        } else {
            None
        }
    }

    /// The icon in the panel.
    pub fn panel_icon(&self) -> (r: Icon)
        ensures
            r == self@.icon(),
    {
        if !self.connected || self.state == State::Error {
            Icon::MicError
        } else if self.state == State::Disabled {
            Icon::MicOff
        } else {
            Icon::Mic
        }
    }

    /// The colour of the status dot.
    pub fn status_color(&self) -> (r: Tint)
        ensures
            r == self@.tint(),
    {
        match self.state {
            State::Recording => Tint::Destructive,
            State::Error => Tint::Warning,
            State::Idle => if self.connected {
                Tint::Success
            } else {
                Tint::Accent
            },
            _ => Tint::Accent,
        }
    }

    /// The colour of the meter's bars.
    pub fn bar_color(&self) -> (r: Tint)
        ensures
            r == self@.bar_tint(),
    {
        if self.state == State::Recording {
            Tint::Destructive
        } else if !self.connected {
            Tint::Neutral
        } else {
            Tint::Accent
        }
    }

    /// The text over the panel button.
    pub fn tooltip(&self) -> (r: String)
        ensures
            r@ == "Murmur — "@ + self@.detail,
    {
        concat("Murmur — ", self.detail.as_str())
    }

    /// What to do when there is no transcript yet.
    pub fn help(&self) -> (r: String)
        ensures
            r@ == "Hold "@ + self@.hotkey
                + ", speak, and let go. Your words land wherever you're typing."@,
    {
        let start = concat("Hold ", self.hotkey.as_str());
        concat(start.as_str(), ", speak, and let go. Your words land wherever you're typing.")
    }

    /// What a click on a transcript does, where there is one.
    pub fn recent_hint(&self) -> (r: &'static str)
        ensures
            r@ == if self@.history.len() == 0 {
                ""@
            } else {
                "Click to copy"@
            },
    {
        if self.history.len() == 0 {
            ""
        } else {
            "Click to copy"
        }
    }

    /// How many transcripts are shown.
    pub fn shown(&self) -> (r: usize)
        ensures
            r == self@.shown(),
    {
        if self.history.len() <= HISTORY_SHOWN {
            self.history.len()
        } else {
            HISTORY_SHOWN
        }
    }

    /// Whether the ages of the transcripts can be told at a time.
    pub fn can_tell_ages(&self, now: i64) -> (r: bool)
        ensures
            r == self@.ages_fit(now),
    {
        let n = self.shown();
        let mut i: usize = 0;
        while i < n
            invariant
                i <= n == self@.shown(),
                n <= self.history@.len(),
                self@.history == status::history_view(self.history@),
                forall|k: int|
                    0 <= k < i ==> i64::MIN <= now - (#[trigger] self@.history[k]).0 <= i64::MAX,
            decreases n - i,
        {
            let at: i64 = self.history[i].0;
            assert(self@.history[i as int].0 == at);
            if now.checked_sub(at).is_none() {
                return false;
            }
            i = i + 1;
        }
        true
    }

    /// The transcripts in the popup at a time.
    pub fn lines(&self, now: i64) -> (r: Vec<Line>)
        requires
            self@.ages_fit(now),
        ensures
            r@.len() == self@.shown(),
            forall|i: int| 0 <= i < r@.len() ==> (#[trigger] r@[i])@ == self@.line(i, now),
    {
        let n = self.shown();
        let mut out: Vec<Line> = Vec::new();
        let mut i: usize = 0;
        while i < n
            invariant
                i <= n == self@.shown(),
                n <= self.history@.len(),
                self@.ages_fit(now),
                self@.history == status::history_view(self.history@),
                self@.copied == self.copied,
                out@.len() == i,
                forall|k: int| 0 <= k < i ==> (#[trigger] out@[k])@ == self@.line(k, now),
            decreases n - i,
        {
            let is_copied = self.copied == Some(i);
            let at: i64 = self.history[i].0;
            assert(self@.history[i as int] == (at, self.history@[i as int].1@));
            let line = Line {
                text: ellipsize(self.history[i].1.as_str(), LINE_CHARS),
                right: if is_copied {
                    "Copied".to_owned()
                } else {
                    ago(now - at)
                },
                copied: is_copied,
            };
            out.push(line);
            i = i + 1;
        }
        out
    }

    /// The text of a transcript.
    pub fn transcript(&self, i: usize) -> (r: Option<String>)
        ensures
            match r {
                Some(t) => i < self@.history.len() && t@ == self@.history[i as int].1,
                None => i >= self@.history.len(),
            },
    {
        if i < self.history.len() {
            Some(self.history[i].1.clone())
        } else {
            None
        }
    }

    /// The button at the foot of the popup.
    pub fn footer(&self) -> (r: Footer)
        ensures
            !self@.connected ==> r is StartEngine,
            self@.connected && self@.state == State::Error ==> r is TryAgain,
            self@.connected && self@.state != State::Error ==> (r matches Footer::Dictate {
                hint,
                active,
            } && hint@ == "or hold "@ + self@.hotkey && active == (self@.state == State::Idle)),
    {
        if !self.connected {
            Footer::StartEngine
        } else if self.state == State::Error {
            Footer::TryAgain
        } else {
            Footer::Dictate {
                hint: concat("or hold ", self.hotkey.as_str()),
                active: self.state == State::Idle,
            }
        }
    }

    /// What the engine is doing.
    pub fn state(&self) -> (r: State)
        ensures
            r == self@.state,
    {
        self.state
    }

    /// The status line.
    pub fn detail(&self) -> (r: &str)
        ensures
            r@ == self@.detail,
    {
        self.detail.as_str()
    }

    /// Microphone level in hundredths.
    pub fn level(&self) -> (r: u8)
        ensures
            r == self@.level,
    {
        self.level
    }

    /// Whether the engine is there.
    pub fn connected(&self) -> (r: bool)
        ensures
            r == self@.connected,
    {
        self.connected
    }

    /// Whether dictation is enabled.
    pub fn enabled(&self) -> (r: bool)
        ensures
            r == self@.enabled,
    {
        self.enabled
    }

    /// Whether sounds are on.
    pub fn sounds(&self) -> (r: bool)
        ensures
            r == self@.sounds,
    {
        self.sounds
    }

    /// The popup that is open.
    pub fn popup(&self) -> (r: Option<u64>)
        ensures
            r == self@.popup,
    {
        self.popup
    }
}

/// The engine is never called while it is not there.
pub proof fn missing_engine_is_not_called(p: PanelView, message: Message, now: u128, i: int)
    requires
        p.inv(),
        !p.connected,
        0 <= i < p.update(message, now).1.len(),
    ensures
        !(p.update(message, now).1[i] is Call),
{
}

/// An engine that goes away is shown in the panel at once.
pub proof fn missing_engine_is_shown(p: PanelView, now: u128)
    ensures
        ({
            let next = p.update(Message::Engine(Update::Disconnected), now).0;
            &&& next.icon() == Icon::MicError
            &&& next.detail == "Engine not running"@
            &&& next.state == State::Error
            &&& next.tick_every() == Some(SEARCH_MS)
        }),
{
}

/// An engine that stays away is started again, once its grace is over.
pub proof fn missing_engine_is_restarted(p: PanelView, since: u128, now: u128)
    requires
        p.inv(),
        p.disconnected_since == Some(since),
        now >= since + ENGINE_GRACE,
        p.last_spawn matches Some(at) ==> now >= at + RESPAWN_AFTER,
    ensures
        p.update(Message::Tick, now).1 == seq![PanelAction::StartEngine],
        p.update(Message::Engine(Update::Disconnected), now).1 == seq![PanelAction::StartEngine],
{
}

/// By itself the panel never starts the engine twice within the time that it
/// needs to start.
pub proof fn engine_is_not_started_twice(p: PanelView, message: Message, at: u128, now: u128)
    requires
        p.inv(),
        p.last_spawn == Some(at),
        now < at + RESPAWN_AFTER,
        !(message is Retry),
    ensures
        !p.update(message, now).1.contains(PanelAction::StartEngine),
        p.update(message, now).0.last_spawn == Some(at),
{
}

/// The user can always start a missing engine at once.
pub proof fn retry_starts_a_missing_engine(p: PanelView, now: u128)
    requires
        p.inv(),
        !p.connected,
        now >= ENGINE_GRACE,
    ensures
        p.update(Message::Retry, now).1 == seq![PanelAction::StartEngine],
{
}

/// While dictating, a click on the panel stops it and leaves the popup alone.
pub proof fn click_stops_dictation(p: PanelView, now: u128)
    requires
        p.state == State::Recording,
        p.connected,
    ensures
        p.update(Message::TogglePopup, now) == (
            p,
            seq![PanelAction::Call(Call::ToggleRecording)],
        ),
{
}

/// A popup that was opened closes at the next click.
pub proof fn clicks_open_and_close(p: PanelView, id: u64, now: u128)
    requires
        p.state != State::Recording,
        p.popup is None,
    ensures
        ({
            let a = p.update(Message::TogglePopup, now);
            let b = a.0.update(Message::PopupOpened(id), now);
            let c = b.0.update(Message::TogglePopup, now);
            &&& a.1.last() == PanelAction::OpenPopup
            &&& c.1 == seq![PanelAction::ClosePopup(id)]
            &&& c.0.popup is None
        }),
{
}

/// Dictation from the popup begins with the popup closed, so the user's
/// window gets the text.
pub proof fn dictation_closes_the_popup(p: PanelView, now: u128)
    ensures
        ({
            let (next, acts) = p.update(Message::DictateNow, now);
            &&& next.popup is None
            &&& acts.last() == PanelAction::DictateAfter(REFOCUS_MS)
            &&& p.popup matches Some(id) ==> acts[0] == PanelAction::ClosePopup(id)
        }),
{
}

/// New transcripts end the mark of what was copied.
pub proof fn new_history_clears_the_mark(p: PanelView, history: Vec<(i64, String)>, now: u128)
    ensures
        p.update(Message::Engine(Update::History(history)), now).0.copied is None,
{
}

/// A connected and idle panel wants no ticks: no background work while idle.
pub proof fn idle_panel_rests(p: PanelView)
    requires
        p.connected,
        p.state == State::Idle,
    ensures
        p.tick_every() is None,
{
}

} // verus!
