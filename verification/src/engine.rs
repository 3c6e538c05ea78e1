//! The speech-to-text engine: gets the model ready, and transcribes one clip
//! at a time, in order.
//!
//! The engine's thread hands each command to an [`Engine`] and performs the
//! work that it returns, in order. Work with an outcome comes last, and its
//! outcome goes to [`Engine::proceed`], until [`Engine::is_idle`] says that
//! the next command can come.

use vstd::prelude::*;

use crate::controller;
use crate::controller::Event;
use crate::models;
use crate::models::ModelInfo;
use crate::session::Happening;
use crate::text;
use crate::text::{concat, trim_text, CharSet};

verus! {

/// What the engine waits for.
#[derive(Clone, Copy, Debug, PartialEq, Eq, Structural)]
pub enum Step {
    /// A command.
    Idle,
    /// The sizes of the model's files.
    Checking { generation: u64 },
    /// The download of the model.
    Downloading { generation: u64 },
    /// The loaded model.
    Loading { generation: u64 },
    /// A transcript.
    Running { seq: u64 },
}

/// What the engine asks for.
pub enum Work {
    /// Forget the model that is loaded.
    Unload,
    /// Look how large each of the model's files is.
    CheckFiles,
    /// Download the model.
    Download,
    /// Load the model from its files.
    LoadModel,
    /// Remove the model's files.
    RemoveFiles,
    /// Let the model transcribe a second of silence, so the first real
    /// dictation is as fast as the rest.
    WarmUp,
    /// Let the model transcribe the clip, with silence appended.
    Run,
    /// Send an event.
    Report(Event),
}

/// What the engine asks for, as plain values.
pub enum Asked {
    Unload,
    CheckFiles,
    Download,
    LoadModel,
    RemoveFiles,
    WarmUp,
    Run,
    Report(Happening),
}

/// The outcome of work.
pub enum Done {
    /// The size of each file on disk, `None` where there is none.
    Sizes(Vec<Option<u64>>),
    /// The download has ended.
    Downloaded(Result<(), String>),
    /// The model is loaded, or could not be.
    Loaded(Result<(), String>),
    /// The model's transcript, or its error.
    Heard(Result<String, String>),
}

/// The outcome of work, as plain values.
pub enum Known {
    Sizes(Seq<Option<u64>>),
    Downloaded(Result<(), Seq<char>>),
    Loaded(Result<(), Seq<char>>),
    Heard(Result<Seq<char>, Seq<char>>),
}

impl View for Work {
    type V = Asked;

    open spec fn view(&self) -> Asked {
        match *self {
            Work::Unload => Asked::Unload,
            Work::CheckFiles => Asked::CheckFiles,
            Work::Download => Asked::Download,
            Work::LoadModel => Asked::LoadModel,
            Work::RemoveFiles => Asked::RemoveFiles,
            Work::WarmUp => Asked::WarmUp,
            Work::Run => Asked::Run,
            Work::Report(ev) => Asked::Report(ev@),
        }
    }
}

/// The plain view of an outcome without a value.
pub open spec fn outcome_view(r: Result<(), String>) -> Result<(), Seq<char>> {
    match r {
        Ok(_) => Ok(()),
        Err(e) => Err(e@),
    }
}

impl View for Done {
    type V = Known;

    open spec fn view(&self) -> Known {
        match *self {
            Done::Sizes(found) => Known::Sizes(found@),
            Done::Downloaded(r) => Known::Downloaded(outcome_view(r)),
            Done::Loaded(r) => Known::Loaded(outcome_view(r)),
            Done::Heard(r) => Known::Heard(controller::transcript_view(r)),
        }
    }
}

/// The plain views of work.
pub open spec fn asked(work: Seq<Work>) -> Seq<Asked> {
    work.map_values(|w: Work| w@)
}

/// The engine, as plain values.
pub struct EngineView {
    /// Whether a model is loaded.
    pub loaded: bool,
    /// The files of the model that was last asked for.
    pub files: Seq<(Seq<char>, u64)>,
    pub step: Step,
}

/// The message about a model that could not be loaded.
pub open spec fn unloadable(err: Seq<char>) -> Seq<char> {
    "Could not load speech model (it will re-download on retry): "@ + err
}

/// The transcript without the white space around it.
pub open spec fn tidied(heard: Result<Seq<char>, Seq<char>>) -> Result<Seq<char>, Seq<char>> {
    match heard {
        Ok(t) => Ok(text::trim(t, CharSet::White)),
        Err(e) => Err(e),
    }
}

impl EngineView {
    /// What holds between any two steps.
    pub open spec fn inv(self) -> bool {
        match self.step {
            Step::Idle => true,
            Step::Running { .. } => self.loaded,
            _ => !self.loaded,
        }
    }

    /// A model is to be loaded.
    pub open spec fn load(self, files: Seq<(Seq<char>, u64)>, generation: u64) -> (
        EngineView,
        Seq<Asked>,
    ) {
        (
            EngineView { loaded: false, files, step: Step::Checking { generation } },
            seq![Asked::Unload, Asked::CheckFiles],
        )
    }

    /// A clip is to be transcribed.
    pub open spec fn transcribe(self, seq: u64) -> (EngineView, Seq<Asked>) {
        if self.loaded {
            (EngineView { step: Step::Running { seq }, ..self }, seq![Asked::Run])
        } else {
            (
                self,
                seq![Asked::Report(Happening::Transcribed(seq, Err("Model not loaded"@)))],
            )
        }
    }

    /// The files are there: the model is loaded from them.
    pub open spec fn load_files(self, generation: u64) -> (EngineView, Seq<Asked>) {
        (
            EngineView { step: Step::Loading { generation }, ..self },
            seq![Asked::Report(Happening::Loading(generation)), Asked::LoadModel],
        )
    }

    /// The model could not be made ready.
    pub open spec fn gave_up(self, generation: u64, err: Seq<char>) -> (EngineView, Seq<Asked>) {
        (
            EngineView { step: Step::Idle, ..self },
            seq![Asked::Report(Happening::ModelFailed(generation, err))],
        )
    }

    /// Whether an outcome is the one that the engine waits for.
    pub open spec fn expects(self, known: Known) -> bool {
        match known {
            Known::Sizes(found) => self.step is Checking && found.len() == self.files.len(),
            Known::Downloaded(_) => self.step is Downloading,
            Known::Loaded(_) => self.step is Loading,
            Known::Heard(_) => self.step is Running,
        }
    }

    /// What an outcome leads to.
    pub open spec fn proceed(self, known: Known) -> (EngineView, Seq<Asked>) {
        match known {
            Known::Sizes(found) => {
                let generation = self.step->Checking_generation;
                if models::all_there(self.files, found) {
                    self.load_files(generation)
                } else {
                    (
                        EngineView { step: Step::Downloading { generation }, ..self },
                        seq![Asked::Download],
                    )
                }
            },
            Known::Downloaded(r) => {
                let generation = self.step->Downloading_generation;
                match r {
                    Ok(_) => self.load_files(generation),
                    Err(err) => self.gave_up(generation, err),
                }
            },
            Known::Loaded(r) => {
                let generation = self.step->Loading_generation;
                match r {
                    Ok(_) => (
                        EngineView { loaded: true, step: Step::Idle, ..self },
                        seq![Asked::WarmUp, Asked::Report(Happening::ModelReady(generation))],
                    ),
                    Err(err) => {
                        let (next, last) = self.gave_up(generation, unloadable(err));
                        (next, seq![Asked::RemoveFiles] + last)
                    },
                }
            },
            Known::Heard(r) => (
                EngineView { step: Step::Idle, ..self },
                seq![Asked::Report(Happening::Transcribed(self.step->seq, tidied(r)))],
            ),
        }
    }
}

/// The engine.
pub struct Engine {
    loaded: bool,
    model: Option<ModelInfo>,
    step: Step,
}

impl View for Engine {
    type V = EngineView;

    closed spec fn view(&self) -> EngineView {
        EngineView {
            loaded: self.loaded,
            files: match self.model {
                Some(m) => m@.files,
                None => seq![],
            },
            step: self.step,
        }
    }
}

impl Engine {
    #[verifier::type_invariant]
    spec fn well_formed(&self) -> bool {
        self.step is Checking ==> self.model is Some
    }

    /// An engine without a model.
    pub fn new() -> (r: Engine)
        ensures
            r@ == (EngineView { loaded: false, files: seq![], step: Step::Idle }),
    {
        Engine { loaded: false, model: None, step: Step::Idle }
    }

    /// Whether the next command can come.
    pub fn is_idle(&self) -> (r: bool)
        ensures
            r == (self@.step == Step::Idle),
    {
        self.step == Step::Idle
    }

    /// Whether an outcome is the one that the engine waits for.
    pub fn awaits(&self, done: &Done) -> (r: bool)
        ensures
            r == self@.expects(done@),
    {
        match done {
            Done::Sizes(found) => match self.step {
                Step::Checking { .. } => {
                    proof {
                        use_type_invariant(self);
                    }
                    match &self.model {
                        Some(m) => found.len() == m.files.len(),
                        None => false,
                    }
                },
                _ => false,
            },
            Done::Downloaded(_) => matches!(self.step, Step::Downloading { .. }),
            Done::Loaded(_) => matches!(self.step, Step::Loading { .. }),
            Done::Heard(_) => matches!(self.step, Step::Running { .. }),
        }
    }

    /// Gets a model ready. The one that is loaded is given up first.
    pub fn load(&mut self, model: ModelInfo, generation: u64) -> (r: Vec<Work>)
        requires
            old(self)@.step == Step::Idle,
        ensures
            (final(self)@, asked(r@)) == old(self)@.load(model@.files, generation),
    {
        self.loaded = false;
        self.model = Some(model);
        self.step = Step::Checking { generation };
        let mut out: Vec<Work> = Vec::new();
        out.push(Work::Unload);
        out.push(Work::CheckFiles);
        out
    }

    /// Transcribes a clip.
    pub fn transcribe(&mut self, seq: u64) -> (r: Vec<Work>)
        requires
            old(self)@.step == Step::Idle,
        ensures
            (final(self)@, asked(r@)) == old(self)@.transcribe(seq),
    {
        let mut out: Vec<Work> = Vec::new();
        if self.loaded {
            self.step = Step::Running { seq };
            out.push(Work::Run);
        } else {
            out.push(
                Work::Report(
                    Event::Transcribed { seq, result: Err("Model not loaded".to_owned()) },
                ),
            );
        }
        out
    }

    fn load_files(&mut self, generation: u64) -> (r: Vec<Work>)
        ensures
            (final(self)@, asked(r@)) == old(self)@.load_files(generation),
    {
        self.step = Step::Loading { generation };
        let mut out: Vec<Work> = Vec::new();
        out.push(Work::Report(Event::Loading(generation)));
        out.push(Work::LoadModel);
        out
    }

    /// Takes the outcome of the last work, and says what to do next.
    pub fn proceed(&mut self, done: Done) -> (r: Vec<Work>)
        requires
            old(self)@.expects(done@),
        ensures
            (final(self)@, asked(r@)) == old(self)@.proceed(done@),
    {
        proof {
            use_type_invariant(&*self);
        }
        let mut out: Vec<Work> = Vec::new();
        match (done, self.step) {
            (Done::Sizes(found), Step::Checking { generation }) => {
                let installed = match &self.model {
                    Some(m) => m.is_installed(&found),
                    None => false,
                };
                if installed {
                    return self.load_files(generation);
                }
                self.step = Step::Downloading { generation };
                out.push(Work::Download);
            },
            (Done::Downloaded(result), Step::Downloading { generation }) => match result {
                Ok(_) => {
                    return self.load_files(generation);
                },
                Err(err) => {
                    self.step = Step::Idle;
                    out.push(Work::Report(Event::ModelFailed(generation, err)));
                },
            },
            (Done::Loaded(result), Step::Loading { generation }) => match result {
                Ok(_) => {
                    self.loaded = true;
                    self.step = Step::Idle;
                    out.push(Work::WarmUp);
                    out.push(Work::Report(Event::ModelReady(generation)));
                },
                Err(err) => {
                    // Right size but unloadable means corrupt: delete it so
                    // Retry downloads a fresh copy instead of failing forever.
                    self.step = Step::Idle;
                    out.push(Work::RemoveFiles);
                    let msg = concat(
                        "Could not load speech model (it will re-download on retry): ",
                        err.as_str(),
                    );
                    out.push(Work::Report(Event::ModelFailed(generation, msg)));
                },
            },
            (Done::Heard(heard), Step::Running { seq }) => {
                self.step = Step::Idle;
                let result: Result<String, String> = match heard {
                    Ok(t) => Ok(trim_text(t.as_str())),
                    Err(e) => Err(e),
                };
                out.push(Work::Report(Event::Transcribed { seq, result }));
            },
            _ => {},
        }
        out
    }
}

/// Whether a wav file can be transcribed with the configured model: only if
/// the model is there. `found` holds the size of each of its files.
pub fn check_installed(model: &ModelInfo, found: &Vec<Option<u64>>) -> (r: Result<(), String>)
    requires
        found@.len() == model@.files.len(),
    ensures
        outcome_view(r) == if models::all_there(model@.files, found@) {
            Ok::<(), Seq<char>>(())
        } else {
            Err(model@.name + " is not downloaded yet; start murmurd first"@)
        },
{
    if model.is_installed(found) {
        Ok(())
    } else {
        Err(concat(model.name, " is not downloaded yet; start murmurd first"))
    }
}

/// How many integer steps make up full scale in a sample with so many bits.
pub fn sample_scale(bits: u16) -> (r: u64)
    requires
        0 < bits <= 64,
    ensures
        r == vstd::arithmetic::power2::pow2((bits - 1) as nat),
{
    let mut scale: u64 = 1;
    let mut i: u16 = 1;
    proof {
        vstd::arithmetic::power2::lemma2_to64();
    }
    while i < bits
        invariant
            1 <= i <= bits <= 64,
            scale == vstd::arithmetic::power2::pow2((i - 1) as nat),
        decreases bits - i,
    {
        proof {
            vstd::arithmetic::power2::lemma2_to64();
            vstd::arithmetic::power2::lemma2_to64_rest();
            vstd::arithmetic::power2::lemma_pow2_unfold(i as nat);
            if i < 63 {
                vstd::arithmetic::power2::lemma_pow2_strictly_increases(i as nat, 63);
            }
        }
        scale = scale * 2;
        i = i + 1;
    }
    scale
}

/// A clip is only given to a model that is loaded; without one it is answered
/// with an error at once.
pub proof fn clips_need_a_model(e: EngineView, seq: u64)
    ensures
        e.transcribe(seq).1[0] is Run <==> e.loaded,
        !e.loaded ==> e.transcribe(seq).1 == seq![
            Asked::Report(Happening::Transcribed(seq, Err("Model not loaded"@))),
        ],
{
}

/// Every command is answered: once the engine is idle again, the last thing
/// that it did was to report, on the very load or clip it was given.
pub proof fn commands_are_answered(e: EngineView, known: Known)
    requires
        e.expects(known),
        e.proceed(known).0.step == Step::Idle,
    ensures
        match e.step {
            Step::Running { seq } => e.proceed(known).1.last() matches Asked::Report(
                Happening::Transcribed(s, _),
            ) && s == seq,
            Step::Checking { .. } => false,
            Step::Downloading { generation } => e.proceed(known).1.last() matches Asked::Report(
                Happening::ModelFailed(g, _),
            ) && g == generation,
            Step::Loading { generation } => e.proceed(known).1.last() == Asked::Report(
                Happening::ModelReady(generation),
            ) || (e.proceed(known).1.last() matches Asked::Report(Happening::ModelFailed(g, _)) && g
                == generation),
            Step::Idle => false,
        },
{
}

/// While a model is being made ready none is loaded, and only a loaded model
/// transcribes.
pub proof fn steps_keep_the_engine_valid(
    e: EngineView,
    files: Seq<(Seq<char>, u64)>,
    number: u64,
    known: Known,
)
    requires
        e.inv(),
    ensures
        e.load(files, number).0.inv(),
        e.step is Idle ==> e.transcribe(number).0.inv(),
        e.expects(known) ==> e.proceed(known).0.inv(),
{
}

/// A model is reported ready exactly when it is loaded, and the files of one
/// that cannot be loaded are removed.
pub proof fn ready_means_loaded(e: EngineView, known: Known)
    requires
        e.inv(),
        e.expects(known),
        e.step is Loading,
    ensures
        e.proceed(known).0.loaded <==> e.proceed(known).1.last() == Asked::Report(
            Happening::ModelReady(e.step->Loading_generation),
        ),
        e.proceed(known).0.loaded <==> known->Loaded_0 is Ok,
        e.proceed(known).1.contains(Asked::RemoveFiles) <==> !e.proceed(known).0.loaded,
{
    let (next, acts) = e.proceed(known);
    if known->Loaded_0 is Err {
        assert(acts[0] is RemoveFiles);
    }
}

/// An installed model is never downloaded, and one that is not is never loaded
/// before it has been downloaded.
pub proof fn only_missing_models_are_downloaded(e: EngineView, found: Seq<Option<u64>>)
    requires
        e.step is Checking,
        found.len() == e.files.len(),
    ensures
        e.proceed(Known::Sizes(found)).1.contains(Asked::Download) <==> !models::all_there(
            e.files,
            found,
        ),
        e.proceed(Known::Sizes(found)).1.contains(Asked::LoadModel) <==> models::all_there(
            e.files,
            found,
        ),
{
    let acts = e.proceed(Known::Sizes(found)).1;
    if models::all_there(e.files, found) {
    } else {
        assert(acts[0] is Download);
    }
}

/// A load gives up the model that is there, and looks for the files of the one
/// that is asked for.
pub proof fn loads_begin_with_the_files(
    e: EngineView,
    files: Seq<(Seq<char>, u64)>,
    generation: u64,
)
    ensures
        ({
            let (next, work) = e.load(files, generation);
            &&& work == seq![Asked::Unload, Asked::CheckFiles]
            &&& !next.loaded
            &&& next.files == files
            &&& next.step == Step::Checking { generation }
        }),
{
}

/// A clip that is given to the model keeps its number until it is answered, and
/// the model stays loaded.
pub proof fn clips_keep_their_number(e: EngineView, seq: u64)
    ensures
        e.loaded ==> e.transcribe(seq).0.step == (Step::Running { seq }),
        e.loaded ==> e.transcribe(seq).1 == seq![Asked::Run],
        !e.loaded ==> e.transcribe(seq).0 == e,
        e.transcribe(seq).0.loaded == e.loaded,
        e.transcribe(seq).0.files == e.files,
{
}

/// What the model heard is reported as it is, without the white space around
/// it, under the clip's own number; so is its error.
pub proof fn what_was_heard_is_reported(e: EngineView, heard: Result<Seq<char>, Seq<char>>)
    requires
        e.step is Running,
    ensures
        ({
            let (next, work) = e.proceed(Known::Heard(heard));
            &&& next.step == Step::Idle
            &&& next.loaded == e.loaded && next.files == e.files
            &&& work.len() == 1
            &&& heard matches Ok(t) ==> work[0] == Asked::Report(
                Happening::Transcribed(e.step->seq, Ok(text::trim(t, CharSet::White))),
            )
            &&& heard matches Err(err) ==> work[0] == Asked::Report(
                Happening::Transcribed(e.step->seq, Err(err)),
            )
        }),
{
}

/// Once the files are there, found or fetched, the model is loaded from them,
/// and that is said first; a download that failed is reported with its reason.
pub proof fn files_that_are_there_are_loaded(e: EngineView, known: Known)
    requires
        e.expects(known),
        e.step is Checking || e.step is Downloading,
    ensures
        ({
            let (next, work) = e.proceed(known);
            let generation = if e.step is Checking {
                e.step->Checking_generation
            } else {
                e.step->Downloading_generation
            };
            let found = known matches Known::Sizes(sizes) && forall|i: int|
                0 <= i < e.files.len() ==> #[trigger] sizes[i] == Some(e.files[i].1);
            let fetched = known matches Known::Downloaded(r) && r is Ok;
            &&& found || fetched ==> work == seq![
                Asked::Report(Happening::Loading(generation)),
                Asked::LoadModel,
            ] && next.step == (Step::Loading { generation })
            &&& known is Sizes && !found ==> work == seq![Asked::Download] && next.step == (
            Step::Downloading { generation })
            &&& (known matches Known::Downloaded(r) && r is Err) ==> work == seq![
                Asked::Report(Happening::ModelFailed(generation, known->Downloaded_0->Err_0)),
            ] && next.step == Step::Idle
            &&& next.files == e.files && next.loaded == e.loaded
        }),
{
}

/// A loaded model is warmed up and then reported ready; the files of one that
/// does not load are removed, and its error is reported.
pub proof fn loaded_models_are_warmed_up(e: EngineView, loaded: Result<(), Seq<char>>)
    requires
        e.step is Loading,
    ensures
        ({
            let (next, work) = e.proceed(Known::Loaded(loaded));
            let generation = e.step->Loading_generation;
            &&& next.step == Step::Idle
            &&& next.files == e.files
            &&& loaded is Ok ==> next.loaded && work == seq![
                Asked::WarmUp,
                Asked::Report(Happening::ModelReady(generation)),
            ]
            &&& loaded matches Err(err) ==> next.loaded == e.loaded && work == seq![
                Asked::RemoveFiles,
                Asked::Report(
                    Happening::ModelFailed(
                        generation,
                        "Could not load speech model (it will re-download on retry): "@ + err,
                    ),
                ),
            ]
        }),
{
}

} // verus!
