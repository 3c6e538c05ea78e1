//! What holds of every dictation session: which event or answer asks for which
//! action, what each of them leaves alone, and what becomes of a dictation.

use vstd::prelude::*;

use crate::audio::Tone;
use crate::config::ConfigView;
use crate::fillers;
use crate::keyboards;
use crate::labels;
use crate::models;
use crate::replacer;
use crate::session::{Act, Answer, Clock, Delivery, Happening, Recording, Session, Stage, Wake, MS};
use crate::state::State;

verus! {

/// In a short sequence an action can be looked for place by place.
proof fn lemma_short(acts: Seq<Act>, a: Act)
    requires
        acts.len() <= 5,
    ensures
        acts.contains(a) <==> ((acts.len() > 0 && acts[0] == a) || (acts.len() > 1 && acts[1] == a)
            || (acts.len() > 2 && acts[2] == a) || (acts.len() > 3 && acts[3] == a) || (acts.len()
            > 4 && acts[4] == a)),
{
}

/// A transcript that is not empty once its fillers are gone, if the user wants
/// that, and every replacement rule has been applied is announced and typed as
/// it then is, with a space behind it if the user wants one. It is the newest
/// of the transcripts that are remembered, and the older ones follow as they
/// were, twenty in all at most. Nothing is done about one that is empty.
pub proof fn transcripts_are_cleaned_and_typed(s: Session, seq: u64, text: Seq<char>, clock: Clock)
    requires
        s.stage == Stage::Ready,
    ensures
        ({
            let (next, acts) = s.handle(Happening::Transcribed(seq, Ok(text)), clock);
            let with = replacer::applied(s.rules, fillers::stripped(text));
            let without = replacer::applied(s.rules, text);
            &&& s.cfg.remove_fillers ==> told(s, next, acts, with, clock)
            &&& !s.cfg.remove_fillers ==> told(s, next, acts, without, clock)
        }),
{
}

/// Whether a session has passed on a text and remembers it, or has nothing to
/// pass on.
pub open spec fn told(
    before: Session,
    after: Session,
    acts: Seq<Act>,
    clean: Seq<char>,
    clock: Clock,
) -> bool {
    if clean.len() == 0 {
        &&& acts == seq![Act::Publish]
        &&& after.history == before.history
        &&& after.stage == Stage::Ready
    } else {
        &&& acts.len() == 2
        &&& acts[0] == Act::Announce(clean)
        &&& before.cfg.trailing_space ==> acts[1] == Act::Type(clean.push(' '))
        &&& !before.cfg.trailing_space ==> acts[1] == Act::Type(clean)
        &&& after.stage == Stage::Typing
        &&& after.history[0] == (clock.unix, clean)
        &&& after.history.len() == if before.history.len() < 20 {
            before.history.len() + 1
        } else {
            20
        }
        &&& forall|i: int|
            0 < i < after.history.len() ==> #[trigger] after.history[i] == before.history[i - 1]
    }
}

/// The recorder is started by a press of the hotkey or by a toggle, exactly if
/// dictation is enabled, the model is ready and nothing is being recorded; who
/// started it is known.
#[verifier::spinoff_prover]
#[verifier::rlimit(40)]
pub proof fn presses_and_toggles_start_the_recorder(s: Session, ev: Happening, clock: Clock)
    requires
        s.stage == Stage::Ready,
    ensures
        ({
            let (next, acts) = s.handle(ev, clock);
            let starts = (ev is HotkeyDown || ev is Toggle) && s.enabled && s.model_ready
                && s.recording is None;
            &&& acts.contains(Act::StartCapture) <==> starts
            &&& next.stage is Starting <==> starts
            &&& starts ==> next.stage->from_hotkey == (ev is HotkeyDown)
        }),
{
    let acts = s.handle(ev, clock).1;
    lemma_short(acts, Act::StartCapture);
}

/// The recorder is stopped, and its recording wrapped up, by the end of its
/// release tail or by a new press during it, and by nothing else. The time
/// that the key was held runs from the start to the release, or until now if
/// there was none, whoever started the recording. Only a new press is followed
/// by a new recording.
#[verifier::spinoff_prover]
#[verifier::rlimit(40)]
pub proof fn recordings_are_wrapped_up(s: Session, ev: Happening, clock: Clock, started: u128)
    requires
        s.stage == Stage::Ready,
    ensures
        ({
            let (next, acts) = s.handle(ev, clock);
            let over = s.recording matches Some(rec) && (ev == Happening::FinishRecording(rec.seq)
                || (ev is HotkeyDown && s.enabled && rec.finishing));
            &&& acts.contains(Act::StopCapture(started)) <==> over && s.recording->0.started
                == started
            &&& next.stage is Stopping <==> over
            &&& over ==> {
                let rec = s.recording->0;
                let end = if rec.released is Some {
                    rec.released->0
                } else {
                    clock.now
                };
                &&& next.recording is None
                &&& next.stage->seq == rec.seq
                &&& end >= rec.started ==> next.stage->held == end - rec.started
                &&& end < rec.started ==> next.stage->held == 0
                &&& next.stage->then_start == if ev is HotkeyDown {
                    Some(true)
                } else {
                    None::<bool>
                }
            }
        }),
{
    let acts = s.handle(ev, clock).1;
    lemma_short(acts, Act::StopCapture(started));
}

/// Letting go of the hotkey that started a recording, a second toggle and its
/// greatest length each begin its release tail, once: it goes on for the time
/// that the user has set, and is known to be let go now. Nothing else begins
/// it.
#[verifier::spinoff_prover]
#[verifier::rlimit(40)]
pub proof fn recordings_are_let_go(s: Session, ev: Happening, clock: Clock, ms: u64, number: u64)
    requires
        s.stage == Stage::Ready,
    ensures
        ({
            let (next, acts) = s.handle(ev, clock);
            let let_go = s.recording matches Some(rec) && !rec.finishing && (ev is Toggle || (ev
                is HotkeyUp && rec.from_hotkey) || ev == Happening::MaxLength(rec.seq));
            &&& acts.contains(Act::Wake(ms, Wake::Finish(number))) <==> let_go && ms
                == s.cfg.release_tail_ms && number == s.recording->0.seq
            &&& let_go ==> next.recording == Some(
                Recording { finishing: true, released: Some(clock.now), ..s.recording->0 },
            )
            &&& next.recording is Some && !let_go ==> next.recording == s.recording
        }),
{
    let acts = s.handle(ev, clock).1;
    lemma_short(acts, Act::Wake(ms, Wake::Finish(number)));
}

/// A recording is thrown away by another key while its hotkey is held, if the
/// user wants that, by pausing and by a restart, and by nothing else.
#[verifier::spinoff_prover]
#[verifier::rlimit(40)]
pub proof fn recordings_are_thrown_away(s: Session, ev: Happening, clock: Clock)
    requires
        s.stage == Stage::Ready,
    ensures
        ({
            let (next, acts) = s.handle(ev, clock);
            let dropped = s.recording matches Some(rec) && ((ev is OtherKey
                && s.cfg.cancel_on_other_key && rec.from_hotkey && !rec.finishing) || ev
                == Happening::SetEnabled(false) || ev is Restart);
            &&& acts.contains(Act::DropCapture) <==> dropped
            &&& dropped ==> next.recording is None && acts[0] is DropCapture
            &&& s.recording is Some && next.recording is None ==> dropped || next.stage is Stopping
            &&& s.recording is None ==> next.recording is None
        }),
{
    let acts = s.handle(ev, clock).1;
    lemma_short(acts, Act::DropCapture);
}

/// An event fails if it asks for a recording that the model cannot take yet, or
/// brings a transcription that failed. Then, and only then, a message is shown
/// from now on, and the status is refreshed nine seconds later.
#[verifier::spinoff_prover]
#[verifier::rlimit(40)]
pub proof fn failed_events_are_shown(s: Session, ev: Happening, clock: Clock, ms: u64)
    requires
        s.stage == Stage::Ready,
    ensures
        ({
            let (next, acts) = s.handle(ev, clock);
            let early = (ev is HotkeyDown || ev is Toggle) && s.enabled && s.recording is None
                && !s.model_ready;
            let misheard = ev matches Happening::Transcribed(_, heard) && heard is Err;
            &&& acts.contains(Act::Wake(ms, Wake::Refresh)) <==> (early || misheard) && ms == 9_000
            &&& early ==> next.last_error == Some(("Speech model is still loading"@, clock.now))
            &&& misheard ==> next.last_error == Some(
                ("Transcription failed: "@ + ev->Transcribed_1->Err_0, clock.now),
            )
            &&& !early && !misheard ==> next.last_error == s.last_error
        }),
{
    let acts = s.handle(ev, clock).1;
    lemma_short(acts, Act::Wake(ms, Wake::Refresh));
}

/// Of an event there is a tone for a recording that is thrown away and for a
/// failure, if sounds are on, and no other.
#[verifier::spinoff_prover]
#[verifier::rlimit(40)]
pub proof fn events_sound(s: Session, ev: Happening, clock: Clock, tone: Tone)
    requires
        s.stage == Stage::Ready,
    ensures
        ({
            let acts = s.handle(ev, clock).1;
            acts.contains(Act::Play(tone)) <==> s.cfg.sounds && ((tone == Tone::Cancel
                && acts.contains(Act::DropCapture)) || (tone == Tone::Error && acts.contains(
                Act::Wake(9_000, Wake::Refresh),
            )))
        }),
{
    let acts = s.handle(ev, clock).1;
    lemma_short(acts, Act::Play(tone));
    lemma_short(acts, Act::DropCapture);
    lemma_short(acts, Act::Wake(9_000, Wake::Refresh));
}

/// Of all events a retry alone loads the model, the one that is set, and only
/// if it is not ready.
#[verifier::spinoff_prover]
#[verifier::rlimit(40)]
pub proof fn retries_load_the_model(
    s: Session,
    ev: Happening,
    clock: Clock,
    model: models::ModelView,
    generation: u64,
)
    requires
        s.stage == Stage::Ready,
    ensures
        s.handle(ev, clock).1.contains(Act::LoadModel(model, generation)) <==> ev is Retry
            && !s.model_ready && model == models::model_named(s.cfg.model) && generation == (
        s.model_gen + 1) as u64,
{
    lemma_short(s.handle(ev, clock).1, Act::LoadModel(model, generation));
}

/// Settings are read when they are announced, and at no other event.
#[verifier::spinoff_prover]
#[verifier::rlimit(40)]
pub proof fn announced_settings_are_read(s: Session, ev: Happening, clock: Clock)
    requires
        s.stage == Stage::Ready,
    ensures
        s.handle(ev, clock).1.contains(Act::ReadConfig) <==> ev is ReloadConfig,
{
    lemma_short(s.handle(ev, clock).1, Act::ReadConfig);
}

/// A restart alone ends the program, a moment later, with the code that the
/// supervisor starts it again for.
#[verifier::spinoff_prover]
#[verifier::rlimit(40)]
pub proof fn only_restarts_end_the_program(
    s: Session,
    ev: Happening,
    clock: Clock,
    code: i32,
    ms: u64,
)
    requires
        s.stage == Stage::Ready,
    ensures
        s.handle(ev, clock).1.contains(Act::Exit(code, ms)) <==> ev is Restart && code == 75 && ms
            == 100,
{
    lemma_short(s.handle(ev, clock).1, Act::Exit(code, ms));
}

/// The status is published at the end of every event whose outcome is settled.
#[verifier::spinoff_prover]
#[verifier::rlimit(40)]
pub proof fn settled_events_are_published(s: Session, ev: Happening, clock: Clock)
    requires
        s.stage == Stage::Ready,
    ensures
        s.handle(ev, clock).1.contains(Act::Publish) <==> s.handle(ev, clock).0.stage is Ready,
{
    lemma_short(s.handle(ev, clock).1, Act::Publish);
}

/// Only a transcript is announced and typed, and no event transcribes,
/// discards, notifies, listens for another key or limits a recording: those
/// follow from answers.
#[verifier::spinoff_prover]
#[verifier::rlimit(40)]
pub proof fn events_do_not_ask_for_more(s: Session, ev: Happening, clock: Clock, i: int)
    requires
        s.stage == Stage::Ready,
        0 <= i < s.handle(ev, clock).1.len(),
    ensures
        ({
            let a = s.handle(ev, clock).1[i];
            &&& a is Announce || a is Type ==> (ev matches Happening::Transcribed(_, heard)
                && heard is Ok)
            &&& !(a is ListenFor || a is Notify || a is Transcribe || a is Discard)
            &&& !(a matches Act::Wake(_, wake) && wake is MaxLength)
        }),
{
    let acts = s.handle(ev, clock).1;
    assert(acts.len() <= 4);
    match ev {
        Happening::HotkeyDown | Happening::Toggle => {
            assert(i <= 2);
        },
        Happening::Transcribed(_, heard) => {
            assert(i <= 2);
        },
        Happening::SetEnabled(_) | Happening::Restart | Happening::OtherKey => {
            assert(i <= 3);
        },
        _ => {
            assert(i <= 1);
        },
    }
}

/// No action is asked for twice, and the status is published last.
#[verifier::spinoff_prover]
#[verifier::rlimit(40)]
pub proof fn events_ask_once(s: Session, ev: Happening, clock: Clock, i: int, j: int)
    requires
        s.stage == Stage::Ready,
        0 <= i < j < s.handle(ev, clock).1.len(),
    ensures
        s.handle(ev, clock).1[i] != s.handle(ev, clock).1[j],
        !(s.handle(ev, clock).1[i] is Publish),
        s.handle(ev, clock).1.len() <= 4,
{
}

/// An event changes what it is about and nothing else.
#[verifier::spinoff_prover]
#[verifier::rlimit(40)]
pub proof fn events_leave_the_rest_alone(s: Session, ev: Happening, clock: Clock)
    requires
        s.stage == Stage::Ready,
    ensures
        ({
            let next = s.handle(ev, clock).0;
            let reloads = ev is Retry && !s.model_ready;
            &&& next.cfg == s.cfg
            &&& next.rules == s.rules
            &&& next.published == s.published
            &&& next.next_seq == s.next_seq
            &&& ev matches Happening::SetEnabled(on) ==> next.enabled == on
            &&& !(ev is SetEnabled) ==> next.enabled == s.enabled
            &&& ev matches Happening::KeyboardsMissing(msg) ==> next.keyboard_error == Some(msg)
            &&& ev is KeyboardsOk ==> next.keyboard_error is None
            &&& !(ev is KeyboardsMissing) && !(ev is KeyboardsOk) ==> next.keyboard_error
                == s.keyboard_error
            &&& ev matches Happening::Level(l) ==> next.level == l
            &&& !(ev is Level) ==> next.level == s.level
            &&& !(ev is Transcribed) ==> next.history == s.history && next.pending == s.pending
            &&& ev is Transcribed ==> next.pending == if s.pending == 0 {
                0
            } else {
                s.pending - 1
            }
            &&& (ev matches Happening::Transcribed(_, heard) && heard is Err) ==> next.history
                == s.history
            &&& next.model_gen == if reloads {
                (s.model_gen + 1) as u64
            } else {
                s.model_gen
            }
            &&& next.stage is ReadingConfig <==> ev is ReloadConfig
        }),
{
}

/// What is known of the model follows the reports of its latest load, and of
/// no other; a retry begins a new one.
#[verifier::spinoff_prover]
#[verifier::rlimit(40)]
pub proof fn model_follows_its_latest_load(s: Session, ev: Happening, clock: Clock)
    requires
        s.stage == Stage::Ready,
    ensures
        ({
            let next = s.handle(ev, clock).0;
            let g = s.model_gen;
            let reloads = ev is Retry && !s.model_ready;
            let fails = ev matches Happening::ModelFailed(n, _) && n == g;
            let fetches = ev matches Happening::Downloading(n, _) && n == g;
            let loads = reloads || ev == Happening::Loading(g);
            &&& ev == Happening::ModelReady(g) ==> next.model_ready
            &&& fails || reloads ==> !next.model_ready
            &&& ev != Happening::ModelReady(g) && !fails && !reloads ==> next.model_ready
                == s.model_ready
            &&& fails ==> next.model_state == State::Error && next.model_detail
                == "Speech model failed: "@ + ev->ModelFailed_1
            &&& fetches ==> next.model_state == State::Downloading && next.model_detail
                == "Downloading speech model… "@ + labels::decimal(ev->Downloading_1 as nat) + "%"@
            &&& loads ==> next.model_state == State::Loading && next.model_detail
                == "Loading speech model…"@
            &&& !fails && !fetches && !loads ==> next.model_state == s.model_state
                && next.model_detail == s.model_detail
        }),
{
}

/// A recorder that runs gives a recording of its own: it starts now, has a new
/// number, is not let go yet, and belongs to whoever asked for it. It is let go
/// by itself after five minutes.
pub proof fn started_recorders_record(
    s: Session,
    rules: Seq<(Seq<char>, Seq<char>)>,
    clock: Clock,
    a: Act,
)
    requires
        s.stage is Starting,
        s.counts(),
    ensures
        ({
            let (next, acts) = s.resume(Answer::Started, rules, clock);
            let number = (s.next_seq + 1) as u64;
            &&& next.recording matches Some(rec) && rec.started == clock.now && rec.released is None
                && rec.seq == number && rec.from_hotkey == s.stage->from_hotkey && !rec.finishing
            &&& next.next_seq == number
            &&& next.level == 0
            &&& next.stage == Stage::Ready
            &&& acts.contains(a) <==> a == Act::Wake(300_000, Wake::MaxLength(number)) || a
                == Act::Publish || (a == Act::Play(Tone::Start) && s.cfg.sounds)
        }),
{
    lemma_short(s.resume(Answer::Started, rules, clock).1, a);
}

/// A stopped recording is transcribed under its own number if the key was held
/// for the shortest time that counts and the recorder delivered; its start is
/// blanked if a tone was played into it. Otherwise its samples are discarded,
/// and only a recorder that did not deliver is an error. If a press is waiting,
/// the recorder starts again where the model can take a recording.
#[verifier::spinoff_prover]
#[verifier::rlimit(40)]
pub proof fn stopped_recordings_are_transcribed_or_not(
    s: Session,
    short: bool,
    rules: Seq<(Seq<char>, Seq<char>)>,
    clock: Clock,
    a: Act,
)
    requires
        s.stage is Stopping,
        s.counts(),
    ensures
        ({
            let (next, acts) = s.resume(Answer::Stopped(short), rules, clock);
            let tap = s.stage->held < s.cfg.min_hold_ms * 1_000_000;
            let heard = !tap && !short;
            let silent = !tap && short;
            let again = s.stage->then_start is Some;
            let early = again && !s.model_ready;
            &&& next.pending == s.pending + if heard {
                1int
            } else {
                0int
            }
            &&& next.stage is Starting <==> again && s.model_ready
            &&& again && s.model_ready ==> next.stage->from_hotkey == s.stage->then_start->0
            &&& !again || early ==> next.stage is Ready
            &&& early ==> next.last_error == Some(("Speech model is still loading"@, clock.now))
            &&& silent && !early ==> next.last_error == Some(
                ("Microphone didn't pick anything up. Check your input device."@, clock.now),
            )
            &&& !silent && !early ==> next.last_error == s.last_error
            &&& match a {
                Act::Transcribe(n, blank) => acts.contains(a) <==> heard && n == s.stage->seq
                    && blank == if s.cfg.sounds {
                    2_800
                } else {
                    0int
                },
                Act::Discard(stalled) => acts.contains(a) <==> !heard && stalled == !tap,
                Act::StartCapture => acts.contains(a) <==> again && s.model_ready,
                Act::Play(tone) => acts.contains(a) <==> s.cfg.sounds && ((tone == Tone::Stop
                    && heard) || (tone == Tone::Error && (silent || early))),
                Act::Wake(ms, wake) => acts.contains(a) <==> ms == 9_000 && wake == Wake::Refresh
                    && (silent || early),
                Act::Publish => acts.contains(a) <==> next.stage is Ready,
                _ => !acts.contains(a),
            }
        }),
{
    let acts = s.resume(Answer::Stopped(short), rules, clock).1;
    lemma_six(acts, a);
}

/// In a sequence of six an action can be looked for place by place.
proof fn lemma_six(acts: Seq<Act>, a: Act)
    requires
        acts.len() <= 6,
    ensures
        acts.contains(a) <==> ((acts.len() > 0 && acts[0] == a) || (acts.len() > 1 && acts[1] == a)
            || (acts.len() > 2 && acts[2] == a) || (acts.len() > 3 && acts[3] == a) || (acts.len()
            > 4 && acts[4] == a) || (acts.len() > 5 && acts[5] == a)),
{
}

/// New settings take effect as they are, with their own rules. The model of the
/// new settings is loaded exactly if it is another one, and the keyboards are
/// told of the new hotkey exactly if it is another one, each whether or not the
/// other changed. A model that is loaded anew is not ready, and supersedes all
/// loads before it.
pub proof fn new_settings_take_effect(
    s: Session,
    cfg: ConfigView,
    rules: Seq<(Seq<char>, Seq<char>)>,
    clock: Clock,
    a: Act,
)
    requires
        s.stage is ReadingConfig,
        s.counts(),
    ensures
        ({
            let (next, acts) = s.resume(Answer::Config(cfg), rules, clock);
            let other_model = cfg.model != s.cfg.model;
            let other_key = cfg.hotkey != s.cfg.hotkey;
            &&& next.cfg == cfg
            &&& next.rules == rules
            &&& next.stage == Stage::Ready
            &&& other_model ==> !next.model_ready && next.model_gen == s.model_gen + 1
                && next.model_state == State::Loading && next.model_detail
                == "Loading speech model…"@
            &&& !other_model ==> next.model_ready == s.model_ready && next.model_gen == s.model_gen
                && next.model_state == s.model_state && next.model_detail == s.model_detail
            &&& next.recording == s.recording
            &&& match a {
                Act::LoadModel(m, g) => acts.contains(a) <==> other_model && m
                    == models::model_named(cfg.model) && g == s.model_gen + 1,
                Act::ListenFor(code) => acts.contains(a) <==> other_key && code
                    == keyboards::key_or_default(keyboards::evdev_key_code(cfg.hotkey)),
                Act::Publish => acts.contains(a),
                _ => !acts.contains(a),
            }
            &&& acts.last() is Publish
        }),
{
    lemma_short(s.resume(Answer::Config(cfg), rules, clock).1, a);
}

/// Text that could not be typed, and a recorder that did not start, are shown
/// as errors; text that reached the clipboard is announced; text that was typed
/// is not.
pub proof fn outcomes_are_told(
    s: Session,
    answer: Answer,
    rules: Seq<(Seq<char>, Seq<char>)>,
    clock: Clock,
    a: Act,
)
    requires
        s.expects(answer),
        answer is StartFailed || answer is Typed || answer is TypeFailed || answer is TypeAborted,
    ensures
        ({
            let (next, acts) = s.resume(answer, rules, clock);
            let failed = !(answer is Typed);
            &&& next.stage == Stage::Ready
            &&& next.recording == s.recording
            &&& answer matches Answer::StartFailed(err) ==> next.last_error == Some(
                (err, clock.now),
            )
            &&& answer matches Answer::TypeFailed(err) ==> next.last_error == Some(
                ("Couldn't type text: "@ + err, clock.now),
            )
            &&& answer matches Answer::TypeAborted(err) ==> next.last_error == Some(
                ("Typing task failed: "@ + err, clock.now),
            )
            &&& !failed ==> next.last_error == s.last_error
            &&& match a {
                Act::Play(tone) => acts.contains(a) <==> failed && s.cfg.sounds && tone
                    == Tone::Error,
                Act::Wake(ms, wake) => acts.contains(a) <==> failed && ms == 9_000 && wake
                    == Wake::Refresh,
                Act::Notify(title, body) => acts.contains(a) <==> answer == Answer::Typed(
                    Delivery::Clipboard,
                ) && title == "Copied to clipboard"@ && body
                    == "Murmur couldn't type into this window. Paste with Ctrl+V."@,
                Act::Publish => acts.contains(a),
                _ => !acts.contains(a),
            }
        }),
{
    lemma_short(s.resume(answer, rules, clock).1, a);
}

/// An answer changes what it is about and nothing else, and the actions that
/// follow are asked for once each, the status last.
#[verifier::spinoff_prover]
#[verifier::rlimit(40)]
pub proof fn answers_leave_the_rest_alone(
    s: Session,
    answer: Answer,
    rules: Seq<(Seq<char>, Seq<char>)>,
    clock: Clock,
)
    requires
        s.expects(answer),
        s.counts(),
    ensures
        ({
            let (next, acts) = s.resume(answer, rules, clock);
            &&& next.enabled == s.enabled
            &&& next.keyboard_error == s.keyboard_error
            &&& next.history == s.history
            &&& next.published == s.published
            &&& !(answer is Config) ==> next.cfg == s.cfg && next.rules == s.rules
                && next.model_ready == s.model_ready && next.model_gen == s.model_gen
                && next.model_state == s.model_state && next.model_detail == s.model_detail
            &&& !(answer is Started) ==> next.next_seq == s.next_seq && next.level == s.level
                && next.recording == s.recording
            &&& !(answer is Stopped) ==> next.pending == s.pending
            &&& answer is Started || answer is Config ==> next.last_error == s.last_error
            &&& forall|i: int|
                0 <= i < acts.len() - 1 ==> !((#[trigger] acts[i]) is Publish || acts[i]
                    is StartCapture)
        }),
{
}

/// Nothing but tones and refreshes is asked for twice after an answer: no
/// recording is transcribed twice, and no model loaded twice.
#[verifier::spinoff_prover]
#[verifier::rlimit(40)]
pub proof fn answers_ask_once(
    s: Session,
    answer: Answer,
    rules: Seq<(Seq<char>, Seq<char>)>,
    clock: Clock,
    i: int,
    j: int,
)
    requires
        s.expects(answer),
        0 <= i < j < s.resume(answer, rules, clock).1.len(),
    ensures
        ({
            let acts = s.resume(answer, rules, clock).1;
            &&& acts[i] == acts[j] ==> acts[i] is Play || acts[i] is Wake
            &&& acts.len() <= 6
            &&& !(acts[i] is Transcribe && acts[j] is Transcribe)
            &&& !(acts[i] is LoadModel && acts[j] is LoadModel)
        }),
{
}

/// The session waits for the outcome of what it asked for: while it starts the
/// recorder, for whether that runs; while it stops it, for what it delivered;
/// while it reads settings, for them; while it types, for what came of it.
/// Otherwise it waits for nothing.
pub proof fn answers_are_awaited(s: Session, answer: Answer)
    ensures
        s.stage is Ready ==> !s.expects(answer),
        s.stage is Starting ==> (s.expects(answer) <==> answer is Started || answer is StartFailed),
        s.stage is Stopping ==> (s.expects(answer) <==> answer is Stopped),
        s.stage is ReadingConfig ==> (s.expects(answer) <==> answer is Config),
        s.stage is Typing ==> (s.expects(answer) <==> answer is Typed || answer is TypeFailed
            || answer is TypeAborted),
{
}

/// Dictation by toggles, from the click that starts it to the one that ends it:
/// what the recorder took in between is transcribed, once, if it lasted for the
/// shortest time that counts.
pub proof fn toggled_dictation_is_transcribed(
    s: Session,
    click: Clock,
    start: Clock,
    second: Clock,
    end: Clock,
    stop: Clock,
)
    requires
        s.stage == Stage::Ready,
        s.counts(),
        s.enabled,
        s.model_ready,
        s.recording is None,
        second.now >= start.now + s.cfg.min_hold_ms * MS,
    ensures
        ({
            let seq = (s.next_seq + 1) as u64;
            let clicked = s.handle(Happening::Toggle, click);
            let started = clicked.0.resume(Answer::Started, s.rules, start);
            let let_go = started.0.handle(Happening::Toggle, second);
            let finished = let_go.0.handle(Happening::FinishRecording(seq), end);
            let stopped = finished.0.resume(Answer::Stopped(false), s.rules, stop);
            &&& clicked.1 == seq![Act::StartCapture]
            &&& let_go.1 == seq![Act::Wake(s.cfg.release_tail_ms, Wake::Finish(seq)), Act::Publish]
            &&& finished.1 == seq![Act::StopCapture(start.now)]
            &&& finished.0.stage->held == second.now - start.now
            &&& stopped.0.pending == s.pending + 1
            &&& stopped.1.contains(
                Act::Transcribe(
                    seq,
                    if s.cfg.sounds {
                        2_800
                    } else {
                        0
                    },
                ),
            )
        }),
{
    let seq = (s.next_seq + 1) as u64;
    let clicked = s.handle(Happening::Toggle, click);
    let started = clicked.0.resume(Answer::Started, s.rules, start);
    let let_go = started.0.handle(Happening::Toggle, second);
    let finished = let_go.0.handle(Happening::FinishRecording(seq), end);
    let stopped = finished.0.resume(Answer::Stopped(false), s.rules, stop);
    assert(stopped.1[stopped.1.len() - 2] is Transcribe);
}

/// What is shown: a missing keyboard before anything else, then a model that is
/// not ready, a recording, a transcription, that dictation is paused, an error
/// of the last eight seconds, and else what to do.
pub proof fn the_most_urgent_is_shown(s: Session, now: u128)
    ensures
        ({
            let shown = s.derive_status(now);
            let keys = s.keyboard_error is None;
            let ready = keys && s.model_ready;
            let quiet = ready && s.recording is None;
            let free = quiet && s.pending == 0;
            let recent = s.last_error matches Some((_, at)) && now < at + 8_000_000_000;
            &&& !keys ==> shown.state == State::Error && shown.detail == s.keyboard_error->0
            &&& keys && !s.model_ready ==> shown.state == s.model_state && shown.detail
                == s.model_detail
            &&& ready && s.recording is Some ==> shown.state == State::Recording && shown.detail
                == "Listening…"@
            &&& quiet && s.pending > 0 ==> shown.state == State::Transcribing && shown.detail
                == "Transcribing…"@
            &&& free && !s.enabled ==> shown.state == State::Disabled && shown.detail
                == "Dictation is paused"@
            &&& free && s.enabled ==> shown.state == State::Idle
            &&& free && s.enabled && recent ==> shown.detail == (s.last_error->0).0
            &&& free && s.enabled && !recent ==> shown.detail == "Hold "@ + labels::key_label(
                s.cfg.hotkey,
            ) + " to dictate"@
        }),
{
}

/// Whatever is shown, the rest of the snapshot is the session's own: whether it
/// is enabled, its model, its hotkey, its transcripts, and the level of a
/// recording.
pub proof fn the_snapshot_is_the_sessions(s: Session, now: u128)
    ensures
        ({
            let shown = s.derive_status(now);
            &&& shown.enabled == s.enabled
            &&& shown.model == s.cfg.model
            &&& shown.hotkey == labels::key_label(s.cfg.hotkey)
            &&& shown.history == s.history
            &&& s.recording is Some ==> shown.level == s.level
            &&& s.recording is None ==> shown.level == 0
        }),
{
}

/// At the start dictation is enabled and nothing is recorded, shown or
/// remembered, and the model of the settings is the first to be loaded.
pub proof fn sessions_start_by_loading_their_model(
    cfg: ConfigView,
    rules: Seq<(Seq<char>, Seq<char>)>,
)
    ensures
        ({
            let (s, acts) = crate::session::fresh(cfg, rules).load_model();
            &&& acts == seq![Act::LoadModel(models::model_named(cfg.model), 1)]
            &&& s.cfg == cfg && s.rules == rules
            &&& s.enabled && !s.model_ready && s.model_gen == 1
            &&& s.model_state == State::Loading && s.model_detail == "Loading speech model…"@
            &&& s.stage == Stage::Ready
            &&& s.recording is None && s.keyboard_error is None && s.last_error is None
            &&& s.next_seq == 0 && s.pending == 0 && s.level == 0 && s.history.len() == 0
        }),
{
}

/// A refresh changes nothing but that no level is shown until the next report
/// of one.
pub proof fn refreshes_change_nothing_else(s: Session, clock: Clock)
    ensures
        s.handle(Wake::Refresh.happening(), clock) == (
            Session { level: 0, ..s },
            seq![Act::Publish],
        ),
{
}

} // verus!
