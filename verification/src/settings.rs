//! The settings window: its choices, and what each edit does.

use vstd::prelude::*;

use crate::config;
use crate::config::{Config, ConfigFile, ConfigView};
use crate::labels;
use crate::labels::number;
use crate::models;
use crate::models::models;
use crate::panel::Update;
use crate::replacements;
use crate::replacements::Replacements;
use crate::state::State;
use crate::text;
use crate::text::{concat, same_text, trim_text, CharSet};

verus! {

/// Keys that make sense as push-to-talk: evdev name and label.
pub open spec fn hotkey_choices() -> Seq<(Seq<char>, Seq<char>)> {
    seq![
        ("KEY_RIGHTALT"@, "Right Alt"@),
        ("KEY_RIGHTCTRL"@, "Right Ctrl"@),
        ("KEY_RIGHTSHIFT"@, "Right Shift"@),
        ("KEY_RIGHTMETA"@, "Right Super"@),
        ("KEY_COMPOSE"@, "Menu"@),
        ("KEY_CAPSLOCK"@, "Caps Lock"@),
        ("KEY_SCROLLLOCK"@, "Scroll Lock"@),
        ("KEY_PAUSE"@, "Pause"@),
        ("KEY_INSERT"@, "Insert"@),
        ("KEY_F13"@, "F13"@),
        ("KEY_F14"@, "F14"@),
        ("KEY_F15"@, "F15"@),
        ("KEY_F16"@, "F16"@),
        ("KEY_F17"@, "F17"@),
        ("KEY_F18"@, "F18"@),
        ("KEY_F19"@, "F19"@),
        ("KEY_F20"@, "F20"@),
    ]
}

/// Choices for the release tail, in milliseconds.
pub open spec fn tail_choices() -> Seq<u64> {
    seq![0, 100, 200, 350, 500, 800]
}

/// Choices for the shortest press, in milliseconds.
pub open spec fn hold_choices() -> Seq<u64> {
    seq![100, 250, 400, 600]
}

/// The plain views of pairs of texts.
pub open spec fn choice_views(choices: Seq<(&'static str, &'static str)>) -> Seq<
    (Seq<char>, Seq<char>),
> {
    choices.map_values(|c: (&'static str, &'static str)| (c.0@, c.1@))
}

/// Keys that make sense as push-to-talk: evdev name and label.
pub fn hotkeys() -> (r: Vec<(&'static str, &'static str)>)
    ensures
        choice_views(r@) == hotkey_choices(),
{
    let mut out: Vec<(&'static str, &'static str)> = Vec::new();
    out.push(("KEY_RIGHTALT", "Right Alt"));
    out.push(("KEY_RIGHTCTRL", "Right Ctrl"));
    out.push(("KEY_RIGHTSHIFT", "Right Shift"));
    out.push(("KEY_RIGHTMETA", "Right Super"));
    out.push(("KEY_COMPOSE", "Menu"));
    out.push(("KEY_CAPSLOCK", "Caps Lock"));
    out.push(("KEY_SCROLLLOCK", "Scroll Lock"));
    out.push(("KEY_PAUSE", "Pause"));
    out.push(("KEY_INSERT", "Insert"));
    out.push(("KEY_F13", "F13"));
    out.push(("KEY_F14", "F14"));
    out.push(("KEY_F15", "F15"));
    out.push(("KEY_F16", "F16"));
    out.push(("KEY_F17", "F17"));
    out.push(("KEY_F18", "F18"));
    out.push(("KEY_F19", "F19"));
    out.push(("KEY_F20", "F20"));
    out
}

/// Choices for the release tail, in milliseconds.
pub fn tails() -> (r: Vec<u64>)
    ensures
        r@ == tail_choices(),
{
    let mut out: Vec<u64> = Vec::new();
    out.push(0);
    out.push(100);
    out.push(200);
    out.push(350);
    out.push(500);
    out.push(800);
    out
}

/// Choices for the shortest press, in milliseconds.
pub fn holds() -> (r: Vec<u64>)
    ensures
        r@ == hold_choices(),
{
    let mut out: Vec<u64> = Vec::new();
    out.push(100);
    out.push(250);
    out.push(400);
    out.push(600);
    out
}

/// The label of a time.
pub open spec fn ms_text(ms: u64) -> Seq<char> {
    labels::decimal(ms as nat) + " ms"@
}

/// The label of a release tail.
pub open spec fn tail_text(ms: u64) -> Seq<char> {
    if ms == 0 {
        "Off"@
    } else {
        ms_text(ms)
    }
}

/// The label of a release tail.
pub fn tail_label(ms: u64) -> (r: String)
    ensures
        r@ == tail_text(ms),
{
    if ms == 0 {
        "Off".to_owned()
    } else {
        hold_label(ms)
    }
}

/// The label of a shortest press.
pub fn hold_label(ms: u64) -> (r: String)
    ensures
        r@ == ms_text(ms),
{
    concat(number(ms).as_str(), " ms")
}

/// The place of a time among choices.
pub open spec fn is_place(choices: Seq<u64>, ms: u64, r: Option<usize>) -> bool {
    match r {
        Some(i) => i < choices.len() && choices[i as int] == ms && forall|k: int|
            0 <= k < i ==> #[trigger] choices[k] != ms,
        None => forall|k: int| 0 <= k < choices.len() ==> #[trigger] choices[k] != ms,
    }
}

/// Where a time stands among choices, if it does.
pub fn place_of(choices: &Vec<u64>, ms: u64) -> (r: Option<usize>)
    ensures
        is_place(choices@, ms, r),
{
    let mut i: usize = 0;
    while i < choices.len()
        invariant
            i <= choices@.len(),
            forall|k: int| 0 <= k < i ==> #[trigger] choices@[k] != ms,
        decreases choices@.len() - i,
    {
        if choices[i] == ms {
            return Some(i);
        }
        i = i + 1;
    }
    None
}

/// The rows that count: those with a phrase, without the white space around
/// it.
pub open spec fn tidy_rows(rows: Seq<(Seq<char>, Seq<char>)>) -> Seq<(Seq<char>, Seq<char>)>
    decreases rows.len(),
{
    if rows.len() == 0 {
        seq![]
    } else {
        let front = tidy_rows(rows.drop_last());
        let phrase = text::trim(rows.last().0, CharSet::White);
        if phrase.len() == 0 {
            front
        } else {
            front.push((phrase, rows.last().1))
        }
    }
}

/// Whether entries are what the rows come to: of two rows with one phrase the
/// later counts.
pub open spec fn come_to(
    rows: Seq<(Seq<char>, Seq<char>)>,
    entries: Seq<(Seq<char>, Seq<char>)>,
) -> bool {
    &&& replacements::ascending(entries)
    &&& replacements::entry_map(entries) == replacements::entry_map(tidy_rows(rows))
}

/// What can happen to the settings window.
pub enum Message {
    Engine(Update),
    Hotkey(usize),
    Model(usize),
    Sounds(bool),
    TrailingSpace(bool),
    CancelOnOther(bool),
    RemoveFillers(bool),
    Tail(usize),
    MinHold(usize),
    ReplFrom(usize, String),
    ReplTo(usize, String),
    ReplRemove(usize),
    ReplAdd,
    RestartEngine,
    OpenConfigFile,
}

/// What the settings window asks for.
#[derive(Clone, Copy, Debug, PartialEq, Eq, Structural)]
pub enum SettingsAction {
    /// Nothing.
    Rest,
    /// Read the file again, and write what [`Settings::to_save`] makes of it;
    /// let the engine reload the settings if `reload` says that it is there.
    Save { reload: bool },
    /// Restart the engine.
    RestartEngine,
    /// Open the configuration file.
    OpenConfigFile,
}

/// Which settings were edited and are not saved yet.
#[derive(Clone, Copy, Debug, PartialEq, Eq, Structural)]
pub struct Edits {
    pub hotkey: bool,
    pub model: bool,
    pub sounds: bool,
    pub trailing_space: bool,
    pub cancel_on_other_key: bool,
    pub remove_fillers: bool,
    pub release_tail_ms: bool,
    pub min_hold_ms: bool,
    pub replacements: bool,
}

/// Nothing was edited.
pub open spec fn no_edits() -> Edits {
    Edits {
        hotkey: false,
        model: false,
        sounds: false,
        trailing_space: false,
        cancel_on_other_key: false,
        remove_fillers: false,
        release_tail_ms: false,
        min_hold_ms: false,
        replacements: false,
    }
}

/// One of two values.
pub open spec fn either<T>(first: bool, a: T, b: T) -> T {
    if first {
        a
    } else {
        b
    }
}

/// The settings that were edited here, and all others as they were read.
pub open spec fn merged(edits: Edits, mine: ConfigView, read: ConfigView) -> ConfigView {
    ConfigView {
        hotkey: either(edits.hotkey, mine.hotkey, read.hotkey),
        model: either(edits.model, mine.model, read.model),
        sounds: either(edits.sounds, mine.sounds, read.sounds),
        trailing_space: either(edits.trailing_space, mine.trailing_space, read.trailing_space),
        cancel_on_other_key: either(
            edits.cancel_on_other_key,
            mine.cancel_on_other_key,
            read.cancel_on_other_key,
        ),
        remove_fillers: either(edits.remove_fillers, mine.remove_fillers, read.remove_fillers),
        release_tail_ms: either(edits.release_tail_ms, mine.release_tail_ms, read.release_tail_ms),
        min_hold_ms: either(edits.min_hold_ms, mine.min_hold_ms, read.min_hold_ms),
        replacements: either(edits.replacements, mine.replacements, read.replacements),
    }
}

/// The edits after a message.
pub open spec fn marked(edits: Edits, message: Message) -> Edits {
    match message {
        Message::Hotkey(_) => Edits { hotkey: true, ..edits },
        Message::Model(_) => Edits { model: true, ..edits },
        Message::Sounds(_) => Edits { sounds: true, ..edits },
        Message::TrailingSpace(_) => Edits { trailing_space: true, ..edits },
        Message::CancelOnOther(_) => Edits { cancel_on_other_key: true, ..edits },
        Message::RemoveFillers(_) => Edits { remove_fillers: true, ..edits },
        Message::Tail(_) => Edits { release_tail_ms: true, ..edits },
        Message::MinHold(_) => Edits { min_hold_ms: true, ..edits },
        Message::ReplFrom(_, _) | Message::ReplTo(_, _) | Message::ReplRemove(_) => Edits {
            replacements: true,
            ..edits
        },
        _ => edits,
    }
}

/// The settings window, as plain values.
#[verifier::ext_equal]
pub struct SettingsView {
    pub cfg: ConfigView,
    pub edits: Edits,
    pub rows: Seq<(Seq<char>, Seq<char>)>,
    pub connected: bool,
    pub state: State,
    pub detail: Seq<char>,
}

impl SettingsView {
    /// Whether the choice in a message exists.
    pub open spec fn offers(message: Message) -> bool {
        match message {
            Message::Hotkey(i) => i < hotkey_choices().len(),
            Message::Model(i) => i < models::catalogue().len(),
            Message::Tail(i) => i < tail_choices().len(),
            Message::MinHold(i) => i < hold_choices().len(),
            _ => true,
        }
    }

    /// Whether a message changes the settings, so that they are saved.
    pub open spec fn saves(message: Message) -> bool {
        !(message is Engine || message is ReplAdd || message is RestartEngine || message
            is OpenConfigFile)
    }

    /// What is written to the file, given what was read from it: the edits over
    /// the settings that were read, or nothing where none could be.
    pub open spec fn to_write(self, loaded: Result<ConfigView, Seq<char>>) -> Result<
        ConfigView,
        Seq<char>,
    > {
        match loaded {
            Ok(read) => Ok(merged(self.edits, self.cfg, read)),
            Err(msg) => Err(msg),
        }
    }

    /// The settings are to be saved, with the entries that the rows come to.
    pub open spec fn saving(self, entries: Seq<(Seq<char>, Seq<char>)>) -> (
        SettingsView,
        SettingsAction,
    ) {
        (
            SettingsView { cfg: ConfigView { replacements: entries, ..self.cfg }, ..self },
            SettingsAction::Save { reload: self.connected },
        )
    }

    /// New settings are to be saved.
    pub open spec fn set(self, cfg: ConfigView, entries: Seq<(Seq<char>, Seq<char>)>) -> (
        SettingsView,
        SettingsAction,
    ) {
        SettingsView { cfg, ..self }.saving(entries)
    }

    /// The rows after an edit.
    pub open spec fn edited_rows(self, message: Message) -> Seq<(Seq<char>, Seq<char>)> {
        match message {
            Message::ReplFrom(i, s) => if i < self.rows.len() {
                self.rows.update(i as int, (s@, self.rows[i as int].1))
            } else {
                self.rows
            },
            Message::ReplTo(i, s) => if i < self.rows.len() {
                self.rows.update(i as int, (self.rows[i as int].0, s@))
            } else {
                self.rows
            },
            Message::ReplRemove(i) => if i < self.rows.len() {
                self.rows.remove(i as int)
            } else {
                self.rows
            },
            Message::ReplAdd => self.rows.push((seq![], seq![])),
            _ => self.rows,
        }
    }

    /// What a message does. `entries` are what the rows come to after it.
    pub open spec fn update(self, message: Message, entries: Seq<(Seq<char>, Seq<char>)>) -> (
        SettingsView,
        SettingsAction,
    ) {
        SettingsView { edits: marked(self.edits, message), ..self }.updated(message, entries)
    }

    /// What a message does besides being marked as an edit.
    pub open spec fn updated(self, message: Message, entries: Seq<(Seq<char>, Seq<char>)>) -> (
        SettingsView,
        SettingsAction,
    ) {
        match message {
            Message::Engine(Update::Connected) => (
                SettingsView { connected: true, ..self },
                SettingsAction::Rest,
            ),
            Message::Engine(Update::Disconnected) => (
                SettingsView { connected: false, ..self },
                SettingsAction::Rest,
            ),
            Message::Engine(Update::State(s)) => (
                SettingsView { state: State::named(s@), ..self },
                SettingsAction::Rest,
            ),
            Message::Engine(Update::Detail(d)) => (
                SettingsView { detail: d@, ..self },
                SettingsAction::Rest,
            ),
            Message::Engine(_) => (self, SettingsAction::Rest),
            Message::Hotkey(i) => self.set(
                ConfigView { hotkey: hotkey_choices()[i as int].0, ..self.cfg },
                entries,
            ),
            Message::Model(i) => self.set(
                ConfigView { model: models::catalogue()[i as int].id, ..self.cfg },
                entries,
            ),
            Message::Sounds(v) => self.set(ConfigView { sounds: v, ..self.cfg }, entries),
            Message::TrailingSpace(v) => self.set(
                ConfigView { trailing_space: v, ..self.cfg },
                entries,
            ),
            Message::CancelOnOther(v) => self.set(
                ConfigView { cancel_on_other_key: v, ..self.cfg },
                entries,
            ),
            Message::RemoveFillers(v) => self.set(
                ConfigView { remove_fillers: v, ..self.cfg },
                entries,
            ),
            Message::Tail(i) => self.set(
                ConfigView { release_tail_ms: tail_choices()[i as int], ..self.cfg },
                entries,
            ),
            Message::MinHold(i) => self.set(
                ConfigView { min_hold_ms: hold_choices()[i as int], ..self.cfg },
                entries,
            ),
            Message::ReplFrom(_, _) | Message::ReplTo(_, _) | Message::ReplRemove(_) => SettingsView {
                rows: self.edited_rows(message),
                ..self
            }.saving(entries),
            Message::ReplAdd => (
                SettingsView { rows: self.edited_rows(message), ..self },
                SettingsAction::Rest,
            ),
            Message::RestartEngine => (
                self,
                if self.connected {
                    SettingsAction::RestartEngine
                } else {
                    SettingsAction::Rest
                },
            ),
            Message::OpenConfigFile => (self, SettingsAction::OpenConfigFile),
        }
    }
}

/// The settings window.
pub struct Settings {
    cfg: Config,
    edits: Edits,
    rows: Vec<(String, String)>,
    connected: bool,
    state: State,
    detail: String,
}

impl View for Settings {
    type V = SettingsView;

    closed spec fn view(&self) -> SettingsView {
        SettingsView {
            cfg: self.cfg@,
            edits: self.edits,
            rows: replacements::pair_views(self.rows@),
            connected: self.connected,
            state: self.state,
            detail: self.detail@,
        }
    }
}

/// A row less at the end is a row less that counts, or none.
proof fn lemma_tidy_take(rows: Seq<(Seq<char>, Seq<char>)>, i: int)
    requires
        0 <= i < rows.len(),
    ensures
        ({
            let phrase = text::trim(rows[i].0, CharSet::White);
            tidy_rows(rows.take(i + 1)) == if phrase.len() == 0 {
                tidy_rows(rows.take(i))
            } else {
                tidy_rows(rows.take(i)).push((phrase, rows[i].1))
            }
        }),
{
    assert(rows.take(i + 1).drop_last() =~= rows.take(i));
}

/// One of two values.
fn pick<T: Copy>(first: bool, a: T, b: T) -> (r: T)
    ensures
        r == either(first, a, b),
{
    if first {
        a
    } else {
        b
    }
}

/// One of two texts.
fn pick_text(first: bool, a: &String, b: String) -> (r: String)
    ensures
        r@ == either(first, a@, b@),
{
    if first {
        a.clone()
    } else {
        b
    }
}

/// One of two lists of replacements.
fn pick_replacements(first: bool, a: &Replacements, b: Replacements) -> (r: Replacements)
    ensures
        r.entries() == either(first, a.entries(), b.entries()),
{
    if first {
        a.clone()
    } else {
        b
    }
}

/// The edits after a message.
fn mark(edits: Edits, message: &Message) -> (r: Edits)
    ensures
        r == marked(edits, *message),
{
    match message {
        Message::Hotkey(_) => Edits { hotkey: true, ..edits },
        Message::Model(_) => Edits { model: true, ..edits },
        Message::Sounds(_) => Edits { sounds: true, ..edits },
        Message::TrailingSpace(_) => Edits { trailing_space: true, ..edits },
        Message::CancelOnOther(_) => Edits { cancel_on_other_key: true, ..edits },
        Message::RemoveFillers(_) => Edits { remove_fillers: true, ..edits },
        Message::Tail(_) => Edits { release_tail_ms: true, ..edits },
        Message::MinHold(_) => Edits { min_hold_ms: true, ..edits },
        Message::ReplFrom(_, _) => Edits { replacements: true, ..edits },
        Message::ReplTo(_, _) => Edits { replacements: true, ..edits },
        Message::ReplRemove(_) => Edits { replacements: true, ..edits },
        _ => edits,
    }
}

/// What the rows come to.
fn collect_rows(rows: &Vec<(String, String)>) -> (r: Replacements)
    ensures
        come_to(replacements::pair_views(rows@), r.entries()),
{
    let ghost all = replacements::pair_views(rows@);
    let mut out = Replacements::new();
    let mut i: usize = 0;
    while i < rows.len()
        invariant
            i <= rows@.len(),
            all == replacements::pair_views(rows@),
            out@ == replacements::entry_map(tidy_rows(all.take(i as int))),
        decreases rows@.len() - i,
    {
        let phrase = trim_text(rows[i].0.as_str());
        proof {
            lemma_tidy_take(all, i as int);
        }
        let ghost front = tidy_rows(all.take(i as int));
        if !phrase.as_str().is_empty() {
            proof {
                let more = front.push((phrase@, rows@[i as int].1@));
                assert(more.drop_last() =~= front);
            }
            out.insert(phrase, rows[i].1.clone());
        }
        i = i + 1;
    }
    assert(all.take(i as int) =~= all);
    proof {
        use_type_invariant(&out);
    }
    out
}

impl Settings {
    /// The window on settings.
    pub fn new(cfg: Config) -> (r: Settings)
        ensures
            r@ == (SettingsView {
                cfg: cfg@,
                edits: no_edits(),
                rows: if cfg@.replacements.len() == 0 {
                    seq![(seq![], seq![])]
                } else {
                    cfg@.replacements
                },
                connected: false,
                state: State::Starting,
                detail: seq![],
            }),
    {
        let ghost entries = cfg@.replacements;
        let mut rows: Vec<(String, String)> = Vec::new();
        let mut i: usize = 0;
        let n: usize = cfg.replacements.len();
        while i < n
            invariant
                i <= n == entries.len(),
                entries == cfg.replacements.entries(),
                replacements::pair_views(rows@) == entries.take(i as int),
            decreases n - i,
        {
            let ghost before = replacements::pair_views(rows@);
            let (from, to) = cfg.replacements.entry(i);
            rows.push((from.to_owned(), to.to_owned()));
            assert(replacements::pair_views(rows@) =~= before.push(entries[i as int]));
            i = i + 1;
        }
        if rows.len() == 0 {
            rows.push((String::new(), String::new()));
            assert(replacements::pair_views(rows@) =~= seq![
                (Seq::<char>::empty(), Seq::<char>::empty()),
            ]);
        }
        Settings {
            cfg,
            edits: Settings::unedited(),
            rows,
            connected: false,
            state: State::Starting,
            detail: String::new(),
        }
    }

    fn unedited() -> (r: Edits)
        ensures
            r == no_edits(),
    {
        Edits {
            hotkey: false,
            model: false,
            sounds: false,
            trailing_space: false,
            cancel_on_other_key: false,
            remove_fillers: false,
            release_tail_ms: false,
            min_hold_ms: false,
            replacements: false,
        }
    }

    /// What to write, given the settings as they were just read from the file:
    /// those with the edits made here. Reading first means that two windows
    /// editing different settings don't undo each other; a file that could not
    /// be read is never overwritten.
    pub fn to_save(&self, loaded: Result<Config, String>) -> (r: Result<Config, String>)
        ensures
            config::result_view(r) == self@.to_write(config::result_view(loaded)),
    {
        match loaded {
            Ok(c) => Ok(
                Config {
                    hotkey: pick_text(self.edits.hotkey, &self.cfg.hotkey, c.hotkey),
                    model: pick_text(self.edits.model, &self.cfg.model, c.model),
                    sounds: pick(self.edits.sounds, self.cfg.sounds, c.sounds),
                    trailing_space: pick(
                        self.edits.trailing_space,
                        self.cfg.trailing_space,
                        c.trailing_space,
                    ),
                    cancel_on_other_key: pick(
                        self.edits.cancel_on_other_key,
                        self.cfg.cancel_on_other_key,
                        c.cancel_on_other_key,
                    ),
                    remove_fillers: pick(
                        self.edits.remove_fillers,
                        self.cfg.remove_fillers,
                        c.remove_fillers,
                    ),
                    release_tail_ms: pick(
                        self.edits.release_tail_ms,
                        self.cfg.release_tail_ms,
                        c.release_tail_ms,
                    ),
                    min_hold_ms: pick(
                        self.edits.min_hold_ms,
                        self.cfg.min_hold_ms,
                        c.min_hold_ms,
                    ),
                    replacements: pick_replacements(
                        self.edits.replacements,
                        &self.cfg.replacements,
                        c.replacements,
                    ),
                },
            ),
            Err(msg) => Err(msg),
        }
    }

    /// The edits have been written to the file.
    pub fn saved(&mut self)
        ensures
            final(self)@ == (SettingsView { edits: no_edits(), ..old(self)@ }),
    {
        self.edits = Settings::unedited();
    }

    /// Brings the replacements up to date with the rows.
    fn save(&mut self) -> (r: SettingsAction)
        ensures
            exists|entries: Seq<(Seq<char>, Seq<char>)>|
                {
                    &&& #[trigger] come_to(old(self)@.rows, entries)
                    &&& (final(self)@, r) == old(self)@.saving(entries)
                },
    {
        self.cfg.replacements = collect_rows(&self.rows);
        let ghost entries = self.cfg.replacements.entries();
        assert(come_to(old(self)@.rows, entries));
        SettingsAction::Save { reload: self.connected }
    }

    /// Takes a message, and says what to do.
    pub fn update(&mut self, message: Message) -> (r: SettingsAction)
        requires
            SettingsView::offers(message),
        ensures
            SettingsView::saves(message) ==> exists|entries: Seq<(Seq<char>, Seq<char>)>|
                {
                    &&& #[trigger] come_to(old(self)@.edited_rows(message), entries)
                    &&& (final(self)@, r) == old(self)@.update(message, entries)
                },
            !SettingsView::saves(message) ==> (final(self)@, r) == old(self)@.update(
                message,
                seq![],
            ),
    {
        let ghost before = self@;
        self.edits = mark(self.edits, &message);
        match message {
            Message::Engine(u) => {
                self.engine(u);
                SettingsAction::Rest
            },
            Message::ReplAdd => {
                self.rows.push((String::new(), String::new()));
                SettingsAction::Rest
            },
            Message::RestartEngine => if self.connected {
                SettingsAction::RestartEngine
            } else {
                SettingsAction::Rest
            },
            Message::OpenConfigFile => SettingsAction::OpenConfigFile,
            Message::ReplFrom(_, _) | Message::ReplTo(_, _) | Message::ReplRemove(_) => {
                self.edit_rows(message);
                let r = self.save();
                proof {
                    let entries = self@.cfg.replacements;
                    assert(come_to(before.edited_rows(message), entries));
                    assert(self@ == before.update(message, entries).0);
                }
                r
            },
            _ => {
                self.choose_setting(message);
                let r = self.save();
                proof {
                    let entries = self@.cfg.replacements;
                    assert(come_to(before.edited_rows(message), entries));
                    assert(self@ == before.update(message, entries).0);
                }
                r
            },
        }
    }

    fn engine(&mut self, update: Update)
        ensures
            final(self)@ == old(self)@.updated(Message::Engine(update), seq![]).0,
    {
        match update {
            Update::Connected => {
                self.connected = true;
            },
            Update::Disconnected => {
                self.connected = false;
            },
            Update::State(s) => {
                self.state = State::parse(s.as_str());
            },
            Update::Detail(d) => {
                self.detail = d;
            },
            _ => {},
        }
    }

    fn edit_rows(&mut self, message: Message)
        requires
            message is ReplFrom || message is ReplTo || message is ReplRemove,
        ensures
            final(self)@ == (SettingsView {
                rows: old(self)@.edited_rows(message),
                ..old(self)@
            }),
    {
        match message {
            Message::ReplFrom(i, s) => {
                if i < self.rows.len() {
                    let to = self.rows[i].1.clone();
                    self.rows.set(i, (s, to));
                }
            },
            Message::ReplTo(i, s) => {
                if i < self.rows.len() {
                    let from = self.rows[i].0.clone();
                    self.rows.set(i, (from, s));
                }
            },
            Message::ReplRemove(i) => {
                if i < self.rows.len() {
                    self.rows.remove(i);
                }
            },
            _ => {},
        }
    }

    fn choose_setting(&mut self, message: Message)
        requires
            SettingsView::offers(message),
        ensures
            final(self)@.rows == old(self)@.rows,
            final(self)@.connected == old(self)@.connected,
            final(self)@.state == old(self)@.state,
            final(self)@.detail == old(self)@.detail,
            final(self)@.edits == old(self)@.edits,
            final(self)@.cfg == (match message {
                Message::Hotkey(i) => ConfigView {
                    hotkey: hotkey_choices()[i as int].0,
                    ..old(self)@.cfg
                },
                Message::Model(i) => ConfigView {
                    model: models::catalogue()[i as int].id,
                    ..old(self)@.cfg
                },
                Message::Sounds(v) => ConfigView { sounds: v, ..old(self)@.cfg },
                Message::TrailingSpace(v) => ConfigView { trailing_space: v, ..old(self)@.cfg },
                Message::CancelOnOther(v) => ConfigView {
                    cancel_on_other_key: v,
                    ..old(self)@.cfg
                },
                Message::RemoveFillers(v) => ConfigView { remove_fillers: v, ..old(self)@.cfg },
                Message::Tail(i) => ConfigView {
                    release_tail_ms: tail_choices()[i as int],
                    ..old(self)@.cfg
                },
                Message::MinHold(i) => ConfigView {
                    min_hold_ms: hold_choices()[i as int],
                    ..old(self)@.cfg
                },
                _ => old(self)@.cfg,
            }),
    {
        match message {
            Message::Hotkey(i) => {
                let all = hotkeys();
                self.cfg.hotkey = all[i].0.to_owned();
            },
            Message::Model(i) => {
                let all = models();
                self.cfg.model = all[i].id.to_owned();
            },
            Message::Sounds(v) => {
                self.cfg.sounds = v;
            },
            Message::TrailingSpace(v) => {
                self.cfg.trailing_space = v;
            },
            Message::CancelOnOther(v) => {
                self.cfg.cancel_on_other_key = v;
            },
            Message::RemoveFillers(v) => {
                self.cfg.remove_fillers = v;
            },
            Message::Tail(i) => {
                self.cfg.release_tail_ms = tails()[i];
            },
            Message::MinHold(i) => {
                self.cfg.min_hold_ms = holds()[i];
            },
            _ => {},
        }
    }

    /// The settings.
    pub fn config(&self) -> (r: &Config)
        ensures
            r@ == self@.cfg,
    {
        &self.cfg
    }

    /// How many rows of replacements there are.
    pub fn row_count(&self) -> (r: usize)
        ensures
            r == self@.rows.len(),
    {
        self.rows.len()
    }

    /// A row of the replacements.
    pub fn row(&self, i: usize) -> (r: (&str, &str))
        requires
            i < self@.rows.len(),
        ensures
            (r.0@, r.1@) == self@.rows[i as int],
    {
        (self.rows[i].0.as_str(), self.rows[i].1.as_str())
    }

    /// The place of the hotkey among the choices.
    pub fn hotkey_index(&self) -> (r: Option<usize>)
        ensures
            match r {
                Some(i) => i < hotkey_choices().len() && hotkey_choices()[i as int].0
                    == self@.cfg.hotkey && forall|k: int|
                    0 <= k < i ==> (#[trigger] hotkey_choices()[k]).0 != self@.cfg.hotkey,
                None => forall|k: int|
                    0 <= k < hotkey_choices().len() ==> (#[trigger] hotkey_choices()[k]).0
                        != self@.cfg.hotkey,
            },
    {
        let all = hotkeys();
        let mut i: usize = 0;
        while i < all.len()
            invariant
                i <= all@.len(),
                choice_views(all@) == hotkey_choices(),
                forall|k: int|
                    0 <= k < i ==> (#[trigger] hotkey_choices()[k]).0 != self@.cfg.hotkey,
            decreases all@.len() - i,
        {
            if same_text(all[i].0, self.cfg.hotkey.as_str()) {
                return Some(i);
            }
            i = i + 1;
        }
        None
    }

    /// The place of the model in the catalogue.
    pub fn model_index(&self) -> (r: Option<usize>)
        ensures
            match r {
                Some(i) => i < models::catalogue().len() && models::catalogue()[i as int].id
                    == self@.cfg.model && forall|k: int|
                    0 <= k < i ==> (#[trigger] models::catalogue()[k]).id != self@.cfg.model,
                None => forall|k: int|
                    0 <= k < models::catalogue().len() ==> (#[trigger] models::catalogue()[k]).id
                        != self@.cfg.model,
            },
    {
        let all = models();
        let mut i: usize = 0;
        while i < all.len()
            invariant
                i <= all@.len(),
                models::model_views(all@) == models::catalogue(),
                forall|k: int|
                    0 <= k < i ==> (#[trigger] models::catalogue()[k]).id != self@.cfg.model,
            decreases all@.len() - i,
        {
            if same_text(all[i].id, self.cfg.model.as_str()) {
                return Some(i);
            }
            i = i + 1;
        }
        None
    }

    /// The place of the release tail among the choices.
    pub fn tail_index(&self) -> (r: Option<usize>)
        ensures
            is_place(tail_choices(), self@.cfg.release_tail_ms, r),
    {
        place_of(&tails(), self.cfg.release_tail_ms)
    }

    /// The place of the shortest press among the choices.
    pub fn hold_index(&self) -> (r: Option<usize>)
        ensures
            is_place(hold_choices(), self@.cfg.min_hold_ms, r),
    {
        place_of(&holds(), self.cfg.min_hold_ms)
    }

    /// What the window says of the engine, and whether that is good news.
    pub fn engine_status(&self) -> (r: (String, bool))
        ensures
            !self@.connected ==> r.0@ == "Engine not running"@ && !r.1,
            self@.connected ==> r.0@ == self@.detail && r.1 == (self@.state != State::Error),
    {
        if !self.connected {
            ("Engine not running".to_owned(), false)
        } else {
            (self.detail.clone(), self.state != State::Error)
        }
    }
}

/// What is said of a model: what it is, and how much there is to download if
/// it is not installed.
pub open spec fn description_text(model: models::ModelView, installed: bool) -> Seq<char> {
    if installed {
        model.description
    } else {
        model.description + " Downloads "@ + labels::decimal(
            models::sum_sizes(model.files) / 1_000_000,
        ) + " MB on first use."@
    }
}

/// What the window says of a model.
pub fn model_description(model: &models::ModelInfo, installed: bool) -> (r: String)
    requires
        models::sum_sizes(model@.files) <= u64::MAX,
    ensures
        r@ == description_text(model@, installed),
{
    if installed {
        model.description.to_owned()
    } else {
        let size = number(model.total_bytes() / 1_000_000);
        let a = concat(model.description, " Downloads ");
        let b = concat(a.as_str(), size.as_str());
        concat(b.as_str(), " MB on first use.")
    }
}

/// What the rows come to is determined by them.
pub proof fn rows_come_to_one_thing(
    rows: Seq<(Seq<char>, Seq<char>)>,
    a: Seq<(Seq<char>, Seq<char>)>,
    b: Seq<(Seq<char>, Seq<char>)>,
)
    requires
        come_to(rows, a),
        come_to(rows, b),
    ensures
        a == b,
{
    replacements::entries_are_determined(a, b);
}

/// No phrase that is saved is blank or has white space around it.
pub proof fn saved_phrases_are_tidy(rows: Seq<(Seq<char>, Seq<char>)>, i: int)
    requires
        0 <= i < tidy_rows(rows).len(),
    ensures
        tidy_rows(rows)[i].0.len() > 0,
        exists|k: int|
            0 <= k < rows.len() && tidy_rows(rows)[i].0 == text::trim(
                (#[trigger] rows[k]).0,
                CharSet::White,
            ) && tidy_rows(rows)[i].1 == rows[k].1,
    decreases rows.len(),
{
    let front = rows.drop_last();
    if i < tidy_rows(front).len() {
        saved_phrases_are_tidy(front, i);
    }
}

/// A new row changes nothing that is saved until it has a phrase.
pub proof fn blank_rows_do_not_count(rows: Seq<(Seq<char>, Seq<char>)>, to: Seq<char>)
    ensures
        tidy_rows(rows.push((seq![], to))) == tidy_rows(rows),
{
    let more = rows.push((seq![], to));
    assert(more.drop_last() =~= rows);
    text::lemma_lead_bounds(seq![], CharSet::White);
}

/// A choice that was made is the one that the window shows afterwards.
pub proof fn choices_are_shown(i: usize, place: Option<usize>)
    ensures
        i < tail_choices().len() && is_place(tail_choices(), tail_choices()[i as int], place)
            ==> place == Some(i),
        i < hold_choices().len() && is_place(hold_choices(), hold_choices()[i as int], place)
            ==> place == Some(i),
{
}

/// A message that changes nothing else leaves the settings as they are, and
/// one that does is always saved.
pub proof fn only_edits_are_saved(
    s: SettingsView,
    message: Message,
    entries: Seq<(Seq<char>, Seq<char>)>,
)
    ensures
        s.update(message, entries).1 is Save <==> SettingsView::saves(message),
        !SettingsView::saves(message) ==> s.update(message, entries).0.cfg == s.cfg,
        SettingsView::saves(message) ==> s.update(message, entries).1 == (SettingsAction::Save {
            reload: s.connected,
        }),
{
}

/// No two hotkeys on offer are the same.
pub proof fn hotkey_choices_differ(i: int, j: int)
    requires
        0 <= i < j < hotkey_choices().len(),
    ensures
        hotkey_choices()[i].0 != hotkey_choices()[j].0,
{
    reveal_strlit("KEY_RIGHTALT");
    reveal_strlit("KEY_RIGHTCTRL");
    reveal_strlit("KEY_RIGHTSHIFT");
    reveal_strlit("KEY_RIGHTMETA");
    reveal_strlit("KEY_COMPOSE");
    reveal_strlit("KEY_CAPSLOCK");
    reveal_strlit("KEY_SCROLLLOCK");
    reveal_strlit("KEY_PAUSE");
    reveal_strlit("KEY_INSERT");
    reveal_strlit("KEY_F13");
    reveal_strlit("KEY_F14");
    reveal_strlit("KEY_F15");
    reveal_strlit("KEY_F16");
    reveal_strlit("KEY_F17");
    reveal_strlit("KEY_F18");
    reveal_strlit("KEY_F19");
    reveal_strlit("KEY_F20");
    let (a, b) = (hotkey_choices()[i].0, hotkey_choices()[j].0);
    if a == b {
        assert(a[6] == b[6]);
        if a.len() > 9 {
            assert(a[9] == b[9]);
        }
    }
}

/// A file that is broken or cannot be read is never overwritten, whatever was
/// edited; every other is.
pub proof fn broken_files_are_not_overwritten(s: SettingsView, path: Seq<char>, file: ConfigFile)
    ensures
        s.to_write(config::file_config(path, file)) is Err <==> file is Broken || file
            is Unreadable,
{
}

/// An edit is in what is written, and what was not edited here stays as it was
/// read.
pub proof fn edits_are_written(
    s: SettingsView,
    message: Message,
    entries: Seq<(Seq<char>, Seq<char>)>,
    read: ConfigView,
)
    requires
        s.edits == no_edits(),
        SettingsView::saves(message),
    ensures
        ({
            let next = s.update(message, entries).0;
            let written = merged(next.edits, next.cfg, read);
            match message {
                Message::Hotkey(_) => written == (ConfigView { hotkey: next.cfg.hotkey, ..read }),
                Message::Model(_) => written == (ConfigView { model: next.cfg.model, ..read }),
                Message::Sounds(v) => written == (ConfigView { sounds: v, ..read }),
                Message::TrailingSpace(v) => written == (ConfigView { trailing_space: v, ..read }),
                Message::CancelOnOther(v) => written == (ConfigView {
                    cancel_on_other_key: v,
                    ..read
                }),
                Message::RemoveFillers(v) => written == (ConfigView { remove_fillers: v, ..read }),
                Message::Tail(_) => written == (ConfigView {
                    release_tail_ms: next.cfg.release_tail_ms,
                    ..read
                }),
                Message::MinHold(_) => written == (ConfigView {
                    min_hold_ms: next.cfg.min_hold_ms,
                    ..read
                }),
                _ => written == (ConfigView { replacements: entries, ..read }),
            }
        }),
{
}

/// Two windows that edit different settings do not undo each other: what the
/// first wrote is still there after the second.
pub proof fn windows_do_not_undo_each_other(
    first: Edits,
    a: ConfigView,
    second: Edits,
    b: ConfigView,
    read: ConfigView,
)
    ensures
        ({
            let after_first = merged(first, a, read);
            let after_second = merged(second, b, after_first);
            &&& !second.hotkey ==> after_second.hotkey == after_first.hotkey
            &&& !second.model ==> after_second.model == after_first.model
            &&& !second.sounds ==> after_second.sounds == after_first.sounds
            &&& !second.trailing_space ==> after_second.trailing_space
                == after_first.trailing_space
            &&& !second.cancel_on_other_key ==> after_second.cancel_on_other_key
                == after_first.cancel_on_other_key
            &&& !second.remove_fillers ==> after_second.remove_fillers
                == after_first.remove_fillers
            &&& !second.release_tail_ms ==> after_second.release_tail_ms
                == after_first.release_tail_ms
            &&& !second.min_hold_ms ==> after_second.min_hold_ms == after_first.min_hold_ms
            &&& !second.replacements ==> after_second.replacements == after_first.replacements
        }),
{
}

} // verus!
