//! The user's settings.

use vstd::prelude::*;

use crate::controller;
use crate::models;
use crate::replacements::Replacements;
use crate::text::concat;

verus! {

/// The settings, as plain text and numbers.
pub struct ConfigView {
    pub hotkey: Seq<char>,
    pub model: Seq<char>,
    pub sounds: bool,
    pub trailing_space: bool,
    pub cancel_on_other_key: bool,
    pub remove_fillers: bool,
    pub release_tail_ms: u64,
    pub min_hold_ms: u64,
    pub replacements: Seq<(Seq<char>, Seq<char>)>,
}

/// The user's settings.
#[derive(Debug, PartialEq)]
pub struct Config {
    /// Linux input key name held to dictate, e.g. "KEY_RIGHTALT".
    pub hotkey: String,
    /// Id of a model of the catalogue.
    pub model: String,
    /// Play short start/stop tones.
    pub sounds: bool,
    /// Append a space after each dictation so consecutive ones join up.
    pub trailing_space: bool,
    /// Cancel the recording if another key is pressed while the hotkey is held
    /// (so Right Alt still works as a normal modifier / AltGr).
    pub cancel_on_other_key: bool,
    /// Drop filler sounds like "um" and "mm-hmm".
    pub remove_fillers: bool,
    /// Keep recording this long after the key is released, in milliseconds.
    pub release_tail_ms: u64,
    /// Ignore presses shorter than this, in milliseconds.
    pub min_hold_ms: u64,
    /// Words the model tends to mishear. Matched case-insensitively on word boundaries.
    pub replacements: Replacements,
}

impl View for Config {
    type V = ConfigView;

    open spec fn view(&self) -> ConfigView {
        ConfigView {
            hotkey: self.hotkey@,
            model: self.model@,
            sounds: self.sounds,
            trailing_space: self.trailing_space,
            cancel_on_other_key: self.cancel_on_other_key,
            remove_fillers: self.remove_fillers,
            release_tail_ms: self.release_tail_ms,
            min_hold_ms: self.min_hold_ms,
            replacements: self.replacements.entries(),
        }
    }
}

/// The settings of someone who has set nothing.
pub open spec fn default_config() -> ConfigView {
    ConfigView {
        hotkey: "KEY_RIGHTALT"@,
        model: models::catalogue()[0].id,
        sounds: true,
        trailing_space: true,
        cancel_on_other_key: true,
        remove_fillers: true,
        release_tail_ms: 200,
        min_hold_ms: 250,
        replacements: seq![],
    }
}

impl Default for Config {
    fn default() -> (r: Config)
        ensures
            r@ == default_config(),
    {
        Config {
            hotkey: "KEY_RIGHTALT".to_owned(),
            model: "parakeet-tdt-0.6b-v2".to_owned(),
            sounds: true,
            trailing_space: true,
            cancel_on_other_key: true,
            remove_fillers: true,
            release_tail_ms: 200,
            min_hold_ms: 250,
            replacements: Replacements::new(),
        }
    }
}

impl Clone for Config {
    fn clone(&self) -> (r: Config)
        ensures
            r@ == self@,
    {
        Config {
            hotkey: self.hotkey.clone(),
            model: self.model.clone(),
            sounds: self.sounds,
            trailing_space: self.trailing_space,
            cancel_on_other_key: self.cancel_on_other_key,
            remove_fillers: self.remove_fillers,
            release_tail_ms: self.release_tail_ms,
            min_hold_ms: self.min_hold_ms,
            replacements: self.replacements.clone(),
        }
    }
}

/// The settings that a configuration file mentions.
pub struct ConfigFields {
    pub hotkey: Option<String>,
    pub model: Option<String>,
    pub sounds: Option<bool>,
    pub trailing_space: Option<bool>,
    pub cancel_on_other_key: Option<bool>,
    pub remove_fillers: Option<bool>,
    pub release_tail_ms: Option<u64>,
    pub min_hold_ms: Option<u64>,
    pub replacements: Option<Replacements>,
}

/// A text that may be missing, and what is taken in its place.
pub open spec fn text_or(s: Option<String>, default: Seq<char>) -> Seq<char> {
    match s {
        Some(t) => t@,
        None => default,
    }
}

/// A value that may be missing, and what is taken in its place.
pub open spec fn value_or<T>(v: Option<T>, default: T) -> T {
    match v {
        Some(t) => t,
        None => default,
    }
}

impl ConfigFields {
    /// Every setting is mentioned.
    pub open spec fn complete(&self) -> bool {
        &&& self.hotkey is Some
        &&& self.model is Some
        &&& self.sounds is Some
        &&& self.trailing_space is Some
        &&& self.cancel_on_other_key is Some
        &&& self.remove_fillers is Some
        &&& self.release_tail_ms is Some
        &&& self.min_hold_ms is Some
        &&& self.replacements is Some
    }

    /// The settings, with the default for each that is not mentioned.
    pub open spec fn filled(&self) -> ConfigView {
        let d = default_config();
        ConfigView {
            hotkey: text_or(self.hotkey, d.hotkey),
            model: text_or(self.model, d.model),
            sounds: value_or(self.sounds, d.sounds),
            trailing_space: value_or(self.trailing_space, d.trailing_space),
            cancel_on_other_key: value_or(self.cancel_on_other_key, d.cancel_on_other_key),
            remove_fillers: value_or(self.remove_fillers, d.remove_fillers),
            release_tail_ms: value_or(self.release_tail_ms, d.release_tail_ms),
            min_hold_ms: value_or(self.min_hold_ms, d.min_hold_ms),
            replacements: match self.replacements {
                Some(r) => r.entries(),
                None => d.replacements,
            },
        }
    }
}

/// What came of reading the configuration file.
pub enum ConfigFile {
    /// It could be read and parsed.
    Parsed(ConfigFields),
    /// It could be read, but not parsed; with the parser's message.
    Broken(String),
    /// There is none.
    Missing,
    /// It could not be read; with the system's message.
    Unreadable(String),
}

/// The settings of a configuration file, or what is wrong with it.
pub open spec fn file_config(path: Seq<char>, file: ConfigFile) -> Result<ConfigView, Seq<char>> {
    match file {
        ConfigFile::Parsed(fields) => Ok(fields.filled()),
        ConfigFile::Broken(err) => Err("Invalid "@ + path + ": "@ + err@),
        ConfigFile::Missing => Ok(default_config()),
        ConfigFile::Unreadable(err) => Err("Can't read "@ + path + ": "@ + err@),
    }
}

/// The plain view of a result.
pub open spec fn result_view(r: Result<Config, String>) -> Result<ConfigView, Seq<char>> {
    match r {
        Ok(c) => Ok(c@),
        Err(e) => Err(e@),
    }
}

impl Config {
    /// The settings that a file mentions, with the default for each other.
    pub fn from_fields(fields: ConfigFields) -> (r: Config)
        ensures
            r@ == fields.filled(),
    {
        Config {
            hotkey: match fields.hotkey {
                Some(s) => s,
                None => "KEY_RIGHTALT".to_owned(),
            },
            model: match fields.model {
                Some(s) => s,
                None => "parakeet-tdt-0.6b-v2".to_owned(),
            },
            sounds: match fields.sounds {
                Some(v) => v,
                None => true,
            },
            trailing_space: match fields.trailing_space {
                Some(v) => v,
                None => true,
            },
            cancel_on_other_key: match fields.cancel_on_other_key {
                Some(v) => v,
                None => true,
            },
            remove_fillers: match fields.remove_fillers {
                Some(v) => v,
                None => true,
            },
            release_tail_ms: match fields.release_tail_ms {
                Some(v) => v,
                None => 200,
            },
            min_hold_ms: match fields.min_hold_ms {
                Some(v) => v,
                None => 250,
            },
            replacements: match fields.replacements {
                Some(v) => v,
                None => Replacements::new(),
            },
        }
    }

    /// All settings, as they are written to the file.
    pub fn fields(&self) -> (r: ConfigFields)
        ensures
            r.complete(),
            r.filled() == self@,
    {
        ConfigFields {
            hotkey: Some(self.hotkey.clone()),
            model: Some(self.model.clone()),
            sounds: Some(self.sounds),
            trailing_space: Some(self.trailing_space),
            cancel_on_other_key: Some(self.cancel_on_other_key),
            remove_fillers: Some(self.remove_fillers),
            release_tail_ms: Some(self.release_tail_ms),
            min_hold_ms: Some(self.min_hold_ms),
            replacements: Some(self.replacements.clone()),
        }
    }

    /// The settings; a missing file is the defaults, a broken one is an
    /// error. Editors use this so they never overwrite a file the user is
    /// halfway through fixing by hand.
    pub fn try_load(path: &str, file: ConfigFile) -> (r: Result<Config, String>)
        ensures
            result_view(r) == file_config(path@, file),
    {
        match file {
            ConfigFile::Parsed(fields) => Ok(Config::from_fields(fields)),
            ConfigFile::Broken(err) => {
                let a = concat("Invalid ", path);
                let b = concat(a.as_str(), ": ");
                Err(concat(b.as_str(), err.as_str()))
            },
            ConfigFile::Missing => Ok(Config::default()),
            ConfigFile::Unreadable(err) => {
                let a = concat("Can't read ", path);
                let b = concat(a.as_str(), ": ");
                Err(concat(b.as_str(), err.as_str()))
            },
        }
    }

    /// The settings, falling back to defaults on any problem. Never fails.
    pub fn load(loaded: Result<Config, String>) -> (r: Config)
        ensures
            r@ == (match loaded {
                Ok(c) => c@,
                Err(_) => default_config(),
            }),
    {
        match loaded {
            Ok(c) => c,
            Err(_) => Config::default(),
        }
    }

    /// The settings just read, edited. Re-reading first means two windows
    /// editing different settings don't undo each other; a file that could not
    /// be read is not edited at all.
    pub fn update<F: FnOnce(Config) -> Config>(
        loaded: Result<Config, String>,
        edit: F,
    ) -> (r: Result<Config, String>)
        requires
            loaded matches Ok(c) ==> edit.requires((c,)),
        ensures
            match loaded {
                Ok(c) => r matches Ok(e) && edit.ensures((c,), e),
                Err(msg) => r matches Err(m) && m@ == msg@,
            },
    {
        match loaded {
            Ok(c) => Ok(edit(c)),
            Err(msg) => Err(msg),
        }
    }
}

/// A file that mentions nothing gives the defaults.
pub proof fn empty_file_means_defaults(fields: ConfigFields)
    requires
        fields.hotkey is None,
        fields.model is None,
        fields.sounds is None,
        fields.trailing_space is None,
        fields.cancel_on_other_key is None,
        fields.remove_fillers is None,
        fields.release_tail_ms is None,
        fields.min_hold_ms is None,
        fields.replacements is None,
    ensures
        fields.filled() == default_config(),
{
}

/// Settings that were written are the ones that are read back.
pub proof fn written_settings_are_read_back(path: Seq<char>, cfg: ConfigView, written: ConfigFields)
    requires
        written.complete(),
        written.filled() == cfg,
    ensures
        file_config(path, ConfigFile::Parsed(written)) == Ok::<ConfigView, Seq<char>>(cfg),
{
}

/// Only a file that is broken or cannot be read is refused.
pub proof fn refused_files(path: Seq<char>, file: ConfigFile)
    ensures
        file_config(path, file) is Err <==> file is Broken || file is Unreadable,
{
}

/// What to do next when the settings are written. The new file is written
/// under a name of its own and then renamed, so readers see the old file or
/// the new one, never half of one.
pub enum SaveStep {
    /// Make the directory.
    MakeDir,
    /// Write the temporary file.
    WriteTemp,
    /// Rename it to the configuration file.
    Rename,
    /// Remove it, because renaming failed with this error.
    RemoveTemp(String),
    /// The settings are saved.
    Saved,
    /// Saving failed with this error.
    Failed(String),
}

/// What to do next when the settings are written, as plain values.
pub enum SaveView {
    MakeDir,
    WriteTemp,
    Rename,
    RemoveTemp(Seq<char>),
    Saved,
    Failed(Seq<char>),
}

impl View for SaveStep {
    type V = SaveView;

    open spec fn view(&self) -> SaveView {
        match *self {
            SaveStep::MakeDir => SaveView::MakeDir,
            SaveStep::WriteTemp => SaveView::WriteTemp,
            SaveStep::Rename => SaveView::Rename,
            SaveStep::RemoveTemp(err) => SaveView::RemoveTemp(err@),
            SaveStep::Saved => SaveView::Saved,
            SaveStep::Failed(err) => SaveView::Failed(err@),
        }
    }
}

impl SaveView {
    /// What follows a step that failed with an error, or did not.
    pub open spec fn next(self, failure: Option<Seq<char>>) -> SaveView {
        match (self, failure) {
            (SaveView::MakeDir, None) => SaveView::WriteTemp,
            (SaveView::MakeDir, Some(err)) => SaveView::Failed(err),
            (SaveView::WriteTemp, None) => SaveView::Rename,
            (SaveView::WriteTemp, Some(err)) => SaveView::Failed(err),
            (SaveView::Rename, None) => SaveView::Saved,
            (SaveView::Rename, Some(err)) => SaveView::RemoveTemp(err),
            (SaveView::RemoveTemp(err), _) => SaveView::Failed(err),
            (SaveView::Saved, _) => SaveView::Saved,
            (SaveView::Failed(err), _) => SaveView::Failed(err),
        }
    }
}

impl SaveStep {
    /// What follows a step that failed with an error, or did not.
    pub fn next(self, failure: Option<String>) -> (r: SaveStep)
        ensures
            r@ == self@.next(controller::opt_text(failure)),
    {
        match (self, failure) {
            (SaveStep::MakeDir, None) => SaveStep::WriteTemp,
            (SaveStep::MakeDir, Some(err)) => SaveStep::Failed(err),
            (SaveStep::WriteTemp, None) => SaveStep::Rename,
            (SaveStep::WriteTemp, Some(err)) => SaveStep::Failed(err),
            (SaveStep::Rename, None) => SaveStep::Saved,
            (SaveStep::Rename, Some(err)) => SaveStep::RemoveTemp(err),
            (SaveStep::RemoveTemp(err), _) => SaveStep::Failed(err),
            (SaveStep::Saved, _) => SaveStep::Saved,
            (SaveStep::Failed(err), _) => SaveStep::Failed(err),
        }
    }
}

/// The configuration file and the temporary one on disk.
pub struct Disk {
    pub config: Option<Seq<char>>,
    pub temp: Option<Seq<char>>,
}

impl Disk {
    /// The disk after a step of writing `text`. A write that failed leaves
    /// `scrap`; a rename or a removal that failed leaves everything.
    pub open spec fn after(
        self,
        step: SaveView,
        text: Seq<char>,
        failure: Option<Seq<char>>,
        scrap: Option<Seq<char>>,
    ) -> Disk {
        match step {
            SaveView::WriteTemp => Disk {
                temp: if failure is None {
                    Some(text)
                } else {
                    scrap
                },
                ..self
            },
            SaveView::Rename => if failure is None {
                Disk { config: self.temp, temp: None }
            } else {
                self
            },
            SaveView::RemoveTemp(_) => if failure is None {
                Disk { temp: None, ..self }
            } else {
                self
            },
            _ => self,
        }
    }

    /// The disk and the step after all of `outcomes`, each a failure or none.
    pub open spec fn run(
        self,
        step: SaveView,
        text: Seq<char>,
        outcomes: Seq<Option<Seq<char>>>,
        scrap: Option<Seq<char>>,
    ) -> (Disk, SaveView)
        decreases outcomes.len(),
    {
        if outcomes.len() == 0 {
            (self, step)
        } else {
            let (disk, last) = self.run(step, text, outcomes.drop_last(), scrap);
            (disk.after(last, text, outcomes.last(), scrap), last.next(outcomes.last()))
        }
    }
}

/// However the steps of a save turn out: as long as it is not done the file is
/// what it was, once it is done the file is the new text, and once it failed
/// the file is what it was.
pub proof fn saving_is_all_or_nothing(
    disk: Disk,
    text: Seq<char>,
    outcomes: Seq<Option<Seq<char>>>,
    scrap: Option<Seq<char>>,
)
    ensures
        ({
            let (after, step) = disk.run(SaveView::MakeDir, text, outcomes, scrap);
            &&& step is Saved ==> after.config == Some(text) && after.temp is None
            &&& !(step is Saved) ==> after.config == disk.config
            &&& step is Rename ==> after.temp == Some(text)
        }),
    decreases outcomes.len(),
{
    if outcomes.len() > 0 {
        saving_is_all_or_nothing(disk, text, outcomes.drop_last(), scrap);
    }
}

/// What reading a file gives, if this is in it, for a parser of its text.
pub open spec fn file_read(
    content: Option<Seq<char>>,
    parse: spec_fn(Seq<char>) -> ConfigFile,
) -> ConfigFile {
    match content {
        Some(text) => parse(text),
        None => ConfigFile::Missing,
    }
}

/// What was saved is what is loaded next, and after a save that failed the
/// same is loaded as before it. This is said of any way to write the settings
/// as text that its parser undoes.
pub proof fn saved_settings_are_loaded(
    path: Seq<char>,
    disk: Disk,
    cfg: ConfigView,
    written: ConfigFields,
    text: Seq<char>,
    parse: spec_fn(Seq<char>) -> ConfigFile,
    outcomes: Seq<Option<Seq<char>>>,
    scrap: Option<Seq<char>>,
)
    requires
        written.complete(),
        written.filled() == cfg,
        parse(text) == ConfigFile::Parsed(written),
    ensures
        ({
            let (after, step) = disk.run(SaveView::MakeDir, text, outcomes, scrap);
            let before = file_config(path, file_read(disk.config, parse));
            let loaded = file_config(path, file_read(after.config, parse));
            &&& step is Saved ==> loaded == Ok::<ConfigView, Seq<char>>(cfg)
            &&& !(step is Saved) ==> loaded == before
        }),
{
    saving_is_all_or_nothing(disk, text, outcomes, scrap);
}

/// A save ends, after four steps at most, and it succeeds if no step fails.
pub proof fn saving_ends(
    disk: Disk,
    text: Seq<char>,
    outcomes: Seq<Option<Seq<char>>>,
    scrap: Option<Seq<char>>,
)
    requires
        outcomes.len() == 4,
    ensures
        ({
            let step = disk.run(SaveView::MakeDir, text, outcomes, scrap).1;
            &&& step is Saved || step is Failed
            &&& step is Saved <==> outcomes[0] is None && outcomes[1] is None && outcomes[2] is None
        }),
{
    reveal_with_fuel(Disk::run, 5);
    let a = outcomes.drop_last();
    let b = a.drop_last();
    let c = b.drop_last();
    assert(a.last() == outcomes[2] && b.last() == outcomes[1] && c.last() == outcomes[0]);
}

/// A setting that the file mentions is the one it mentions, whatever else it
/// mentions or does not.
pub proof fn mentioned_settings_count(fields: ConfigFields)
    ensures
        fields.hotkey matches Some(v) ==> fields.filled().hotkey == v@,
        fields.model matches Some(v) ==> fields.filled().model == v@,
        fields.sounds matches Some(v) ==> fields.filled().sounds == v,
        fields.trailing_space matches Some(v) ==> fields.filled().trailing_space == v,
        fields.cancel_on_other_key matches Some(v) ==> fields.filled().cancel_on_other_key == v,
        fields.remove_fillers matches Some(v) ==> fields.filled().remove_fillers == v,
        fields.release_tail_ms matches Some(v) ==> fields.filled().release_tail_ms == v,
        fields.min_hold_ms matches Some(v) ==> fields.filled().min_hold_ms == v,
        fields.replacements matches Some(v) ==> fields.filled().replacements == v.entries(),
{
}

/// A setting that the file does not mention has its default, whatever else it
/// mentions.
pub proof fn other_settings_have_their_defaults(fields: ConfigFields)
    ensures
        fields.hotkey is None ==> fields.filled().hotkey == "KEY_RIGHTALT"@,
        fields.model is None ==> fields.filled().model == "parakeet-tdt-0.6b-v2"@,
        fields.sounds is None ==> fields.filled().sounds,
        fields.trailing_space is None ==> fields.filled().trailing_space,
        fields.cancel_on_other_key is None ==> fields.filled().cancel_on_other_key,
        fields.remove_fillers is None ==> fields.filled().remove_fillers,
        fields.release_tail_ms is None ==> fields.filled().release_tail_ms == 200,
        fields.min_hold_ms is None ==> fields.filled().min_hold_ms == 250,
        fields.replacements is None ==> fields.filled().replacements.len() == 0,
{
}

/// A missing file gives the defaults, and one that is refused is refused with
/// its path and the reason.
pub proof fn refusals_give_their_reason(path: Seq<char>, file: ConfigFile)
    ensures
        file is Missing ==> file_config(path, file) == Ok::<ConfigView, Seq<char>>(
            default_config(),
        ),
        file matches ConfigFile::Parsed(fields) ==> file_config(path, file) == Ok::<
            ConfigView,
            Seq<char>,
        >(fields.filled()),
        file matches ConfigFile::Broken(err) ==> file_config(path, file) == Err::<
            ConfigView,
            Seq<char>,
        >("Invalid "@ + path + ": "@ + err@),
        file matches ConfigFile::Unreadable(err) ==> file_config(path, file) == Err::<
            ConfigView,
            Seq<char>,
        >("Can't read "@ + path + ": "@ + err@),
{
}

/// A save that fails says why: with the error of the first step that failed. A
/// temporary file that could not be renamed is removed, and whether that works
/// does not matter to what is said.
pub proof fn failed_saves_say_why(err: Seq<char>, failure: Option<Seq<char>>)
    ensures
        SaveView::MakeDir.next(Some(err)) == SaveView::Failed(err),
        SaveView::WriteTemp.next(Some(err)) == SaveView::Failed(err),
        SaveView::Rename.next(Some(err)) is RemoveTemp,
        SaveView::Rename.next(Some(err)).next(failure) == SaveView::Failed(err),
        SaveView::Failed(err).next(failure) == SaveView::Failed(err),
        SaveView::Saved.next(failure) == SaveView::Saved,
        SaveView::MakeDir.next(None).next(None).next(None) == SaveView::Saved,
{
}

/// No temporary file is left behind by a rename that failed, if it can be
/// removed.
pub proof fn no_temporary_file_is_left(
    disk: Disk,
    text: Seq<char>,
    err: Seq<char>,
    scrap: Option<Seq<char>>,
)
    ensures
        ({
            let step = SaveView::Rename.next(Some(err));
            let after = disk.after(SaveView::Rename, text, Some(err), scrap).after(
                step,
                text,
                None,
                scrap,
            );
            after.temp is None && after.config == disk.config
        }),
{
}

} // verus!
