//! The dictation session from key press to typed text.

use murmur::audio::{Tone, START_BLANK};
use murmur::config::Config;
use murmur::controller::{wake_event, Action, Controller, Event, Reply};
use murmur::replacements::Replacements;
use murmur::session::{Clock, Delivery, Wake, ERROR_SHOWN, MS};
use murmur::state::State;
use murmur::status::{Property, Status, HISTORY_LEN};

fn at(ms: u128) -> Clock {
    Clock { now: 1_000_000_000_000 + ms * MS, unix: 1_700_000_000 }
}

/// A name for each action, with the numbers that matter.
fn names(actions: &[Action]) -> Vec<String> {
    actions
        .iter()
        .map(|a| match a {
            Action::StartCapture => "start".to_string(),
            Action::StopCapture { .. } => "stop".to_string(),
            Action::DropCapture => "drop".to_string(),
            Action::Play(tone) => format!("{tone:?}"),
            Action::Wake { after_ms, wake } => format!("{after_ms} {wake:?}"),
            Action::Transcribe { seq, blank } => format!("transcribe {seq} {blank}"),
            Action::Discard { stalled } => format!("discard {stalled}"),
            Action::LoadModel { model, generation } => format!("load {} {generation}", model.id),
            Action::ListenFor(code) => format!("listen {code}"),
            Action::ReadConfig => "read".to_string(),
            Action::Announce(text) => format!("announce {text}"),
            Action::Type(text) => format!("type {text}"),
            Action::Notify { summary, .. } => format!("notify {summary}"),
            Action::Exit { code, after_ms } => format!("exit {code} {after_ms}"),
            Action::Publish => "publish".to_string(),
        })
        .collect()
}

fn quiet() -> Config {
    let mut c = Config::default();
    c.sounds = false;
    c
}

/// A session whose model is ready.
fn ready(cfg: Config) -> Controller {
    let (mut c, _) = Controller::new(cfg);
    c.handle(Event::ModelReady(1), at(0));
    c
}

fn recording(cfg: Config) -> Controller {
    let mut c = ready(cfg);
    c.handle(Event::HotkeyDown, at(0));
    c.resume(Reply::Started, at(0));
    c
}

fn status(c: &Controller, ms: u128) -> Status {
    c.derive_status(at(ms).now)
}

#[test]
fn a_new_session_loads_its_model() {
    let (c, first) = Controller::new(Config::default());
    assert_eq!(names(&first), vec!["load parakeet-tdt-0.6b-v2 1", "publish"]);
    let s = status(&c, 0);
    assert_eq!(s.state, State::Loading);
    assert_eq!(s.detail, "Loading speech model…");
    assert!(s.enabled);
    assert_eq!((s.model.as_str(), s.hotkey.as_str()), ("parakeet-tdt-0.6b-v2", "Right Alt"));
}

#[test]
fn a_dictation_from_press_to_text() {
    let mut c = ready(Config::default());
    assert_eq!(status(&c, 0).detail, "Hold Right Alt to dictate");
    assert_eq!(names(&c.handle(Event::HotkeyDown, at(0))), vec!["start"]);
    assert!(!c.is_ready());
    let started = c.resume(Reply::Started, at(10));
    assert_eq!(names(&started), vec!["Start", "300000 MaxLength(1)", "publish"]);
    assert_eq!(status(&c, 10).state, State::Recording);
    let up = c.handle(Event::HotkeyUp, at(1010));
    assert_eq!(names(&up), vec!["200 Finish(1)", "publish"]);
    let stop = c.handle(Event::FinishRecording(1), at(1210));
    assert!(matches!(stop[0], Action::StopCapture { started } if started == at(10).now));
    let done = c.resume(Reply::Stopped { short: false }, at(1215));
    assert_eq!(names(&done), vec!["Stop", "transcribe 1 2800", "publish"]);
    assert_eq!(status(&c, 1215).state, State::Transcribing);
    let heard = Event::Transcribed { seq: 1, result: Ok("Um, hello there.".to_string()) };
    assert_eq!(
        names(&c.handle(heard, at(2000))),
        vec!["announce Hello there.", "type Hello there. "]
    );
    assert_eq!(c.history(), vec![(1_700_000_000, "Hello there.".to_string())]);
    assert_eq!(names(&c.resume(Reply::Typed(Delivery::Typed), at(2100))), vec!["publish"]);
    assert_eq!(status(&c, 2100).state, State::Idle);
    assert_eq!(status(&c, 2100).history.len(), 1);
}

#[test]
fn the_blank_covers_the_start_tone() {
    let secs = std::time::Duration::from_millis(125).as_secs_f32();
    assert_eq!(START_BLANK, (secs * 1.4 * 16_000f32) as usize);
}

#[test]
fn taps_are_dropped() {
    let mut c = recording(quiet());
    c.handle(Event::HotkeyUp, at(249));
    c.handle(Event::FinishRecording(1), at(449));
    let done = c.resume(Reply::Stopped { short: false }, at(449));
    assert_eq!(names(&done), vec!["discard false", "publish"]);
    assert_eq!(status(&c, 449).state, State::Idle);
    let mut c = recording(quiet());
    c.handle(Event::HotkeyUp, at(250));
    c.handle(Event::FinishRecording(1), at(450));
    let done = c.resume(Reply::Stopped { short: false }, at(450));
    assert_eq!(names(&done), vec!["transcribe 1 0", "publish"]);
}

#[test]
fn a_silent_microphone_is_reported() {
    let mut c = recording(Config::default());
    c.handle(Event::HotkeyUp, at(1000));
    c.handle(Event::FinishRecording(1), at(1200));
    let done = c.resume(Reply::Stopped { short: true }, at(1200));
    assert_eq!(names(&done), vec!["discard true", "Error", "9000 Refresh", "publish"]);
    let msg = "Microphone didn't pick anything up. Check your input device.";
    assert_eq!(status(&c, 1200).detail, msg);
    assert_eq!(status(&c, 1200 + 7_999).detail, msg);
    assert_eq!(status(&c, 1200 + 8_000).detail, "Hold Right Alt to dictate");
    assert_eq!(ERROR_SHOWN, 8_000 * MS);
}

#[test]
fn failures_are_shown() {
    let mut c = ready(quiet());
    c.handle(Event::HotkeyDown, at(0));
    c.resume(Reply::StartFailed("no recorder".to_string()), at(0));
    assert_eq!(status(&c, 0).detail, "no recorder");
    let failed = Event::Transcribed { seq: 1, result: Err("boom".to_string()) };
    c.handle(failed, at(1));
    assert_eq!(status(&c, 1).detail, "Transcription failed: boom");
    let heard = Event::Transcribed { seq: 1, result: Ok("hi".to_string()) };
    c.handle(heard, at(2));
    c.resume(Reply::TypeFailed("stuck".to_string()), at(2));
    assert_eq!(status(&c, 2).detail, "Couldn't type text: stuck");
    let heard = Event::Transcribed { seq: 1, result: Ok("hi".to_string()) };
    c.handle(heard, at(3));
    c.resume(Reply::TypeAborted("gone".to_string()), at(3));
    assert_eq!(status(&c, 3).detail, "Typing task failed: gone");
}

#[test]
fn the_clipboard_is_announced() {
    let mut c = ready(quiet());
    c.handle(Event::Transcribed { seq: 1, result: Ok("hi".to_string()) }, at(0));
    let out = c.resume(Reply::Typed(Delivery::Clipboard), at(0));
    assert_eq!(names(&out), vec!["notify Copied to clipboard", "publish"]);
    assert!(matches!(&out[0], Action::Notify { body, .. }
        if *body == "Murmur couldn't type into this window. Paste with Ctrl+V."));
}

#[test]
fn no_model_no_recording() {
    let (mut c, _) = Controller::new(Config::default());
    let out = c.handle(Event::HotkeyDown, at(0));
    assert_eq!(names(&out), vec!["Error", "9000 Refresh", "publish"]);
    c.handle(Event::ModelReady(1), at(1));
    assert_eq!(status(&c, 1).detail, "Speech model is still loading");
}

#[test]
fn pausing_ends_a_recording() {
    let mut c = recording(Config::default());
    let off = c.handle(Event::SetEnabled(false), at(100));
    assert_eq!(names(&off), vec!["drop", "Cancel", "publish"]);
    assert_eq!(status(&c, 100).state, State::Disabled);
    assert_eq!(status(&c, 100).detail, "Dictation is paused");
    assert_eq!(names(&c.handle(Event::HotkeyDown, at(200))), vec!["publish"]);
    c.handle(Event::SetEnabled(true), at(300));
    assert_eq!(names(&c.handle(Event::HotkeyDown, at(400))), vec!["start"]);
}

#[test]
fn another_key_cancels() {
    let mut c = recording(quiet());
    assert_eq!(names(&c.handle(Event::OtherKey, at(100))), vec!["drop", "publish"]);
    let mut cfg = quiet();
    cfg.cancel_on_other_key = false;
    let mut c = recording(cfg);
    assert_eq!(names(&c.handle(Event::OtherKey, at(100))), vec!["publish"]);
    // During the release tail it is too late.
    let mut c = recording(quiet());
    c.handle(Event::HotkeyUp, at(1000));
    assert_eq!(names(&c.handle(Event::OtherKey, at(1001))), vec!["publish"]);
}

#[test]
fn a_toggled_recording_outlives_the_hotkey() {
    let mut c = ready(quiet());
    assert_eq!(names(&c.handle(Event::Toggle, at(0))), vec!["start"]);
    c.resume(Reply::Started, at(0));
    assert_eq!(names(&c.handle(Event::HotkeyUp, at(10))), vec!["publish"]);
    assert_eq!(names(&c.handle(Event::OtherKey, at(20))), vec!["publish"]);
    assert_eq!(names(&c.handle(Event::Toggle, at(30))), vec!["200 Finish(1)", "publish"]);
    assert_eq!(names(&c.handle(Event::Toggle, at(40))), vec!["publish"]);
}

#[test]
fn the_longest_recording_stops_by_itself() {
    let mut c = recording(quiet());
    assert_eq!(names(&c.handle(Event::MaxLength(2), at(1))), vec!["publish"]);
    let out = c.handle(Event::MaxLength(1), at(300_000));
    assert_eq!(names(&out), vec!["200 Finish(1)", "publish"]);
    assert_eq!(names(&c.handle(Event::MaxLength(1), at(300_001))), vec!["publish"]);
}

#[test]
fn wake_ups_come_back_as_events() {
    assert!(matches!(wake_event(Wake::Finish(3)), Event::FinishRecording(3)));
    assert!(matches!(wake_event(Wake::MaxLength(4)), Event::MaxLength(4)));
    assert!(matches!(wake_event(Wake::Refresh), Event::Level(0)));

    let mut c = recording(quiet());
    let out = c.handle(wake_event(Wake::MaxLength(1)), at(300_000));
    assert_eq!(names(&out), vec!["200 Finish(1)", "publish"]);
    let out = c.handle(wake_event(Wake::Finish(1)), at(300_200));
    assert_eq!(names(&out), vec!["stop"]);
    c.resume(Reply::Stopped { short: true }, at(300_200));
    c.handle(wake_event(Wake::Refresh), at(309_200));
    assert_eq!(status(&c, 309_200).detail, "Hold Right Alt to dictate");
}

#[test]
fn a_tap_that_delivered_nothing_is_a_tap() {
    let mut c = recording(quiet());
    c.handle(Event::HotkeyUp, at(100));
    c.handle(Event::FinishRecording(1), at(300));
    let done = c.resume(Reply::Stopped { short: true }, at(300));
    assert_eq!(names(&done), vec!["discard false", "publish"]);
    assert_eq!(status(&c, 300).detail, "Hold Right Alt to dictate");
}

#[test]
fn a_press_in_the_tail_gets_its_own_recording() {
    let mut c = recording(quiet());
    c.handle(Event::HotkeyUp, at(1000));
    assert_eq!(names(&c.handle(Event::HotkeyDown, at(1100))), vec!["stop"]);
    let out = c.resume(Reply::Stopped { short: false }, at(1101));
    assert_eq!(names(&out), vec!["transcribe 1 0", "start"]);
    c.resume(Reply::Started, at(1102));
    // The wake-up of the first recording comes too late to matter.
    assert_eq!(names(&c.handle(Event::FinishRecording(1), at(1200))), vec!["publish"]);
    assert_eq!(status(&c, 1200).state, State::Recording);
    let out = c.handle(Event::HotkeyUp, at(1300));
    assert!(matches!(out[0], Action::Wake { wake: Wake::Finish(2), .. }));
}

#[test]
fn superseded_loads_are_ignored() {
    let (mut c, _) = Controller::new(Config::default());
    assert_eq!(
        names(&c.handle(Event::Retry, at(0))),
        vec!["load parakeet-tdt-0.6b-v2 2", "publish"]
    );
    c.handle(Event::ModelFailed(1, "old".to_string()), at(1));
    c.handle(Event::ModelReady(1), at(2));
    assert_eq!(status(&c, 2).state, State::Loading);
    c.handle(Event::Downloading(2, 37), at(3));
    assert_eq!(status(&c, 3).state, State::Downloading);
    assert_eq!(status(&c, 3).detail, "Downloading speech model… 37%");
    c.handle(Event::Loading(2), at(4));
    assert_eq!(status(&c, 4).detail, "Loading speech model…");
    c.handle(Event::ModelFailed(2, "bad".to_string()), at(5));
    assert_eq!(status(&c, 5).state, State::Error);
    assert_eq!(status(&c, 5).detail, "Speech model failed: bad");
    c.handle(Event::ModelReady(2), at(6));
    assert_eq!(status(&c, 6).state, State::Idle);
    assert_eq!(names(&c.handle(Event::Retry, at(7))), vec!["publish"]);
}

#[test]
fn keyboards_come_first() {
    let mut c = recording(Config::default());
    c.handle(Event::KeyboardsMissing("No keyboard found.".to_string()), at(1));
    let s = status(&c, 1);
    assert_eq!((s.state, s.detail.as_str()), (State::Error, "No keyboard found."));
    c.handle(Event::KeyboardsOk, at(2));
    assert_eq!(status(&c, 2).state, State::Recording);
}

#[test]
fn levels_are_of_recordings() {
    let mut c = recording(Config::default());
    c.handle(Event::Level(42), at(1));
    assert_eq!(status(&c, 1).level, 42);
    c.handle(Event::OtherKey, at(2));
    assert_eq!(status(&c, 2).level, 0);
}

#[test]
fn new_settings_take_effect() {
    let mut c = ready(quiet());
    assert_eq!(names(&c.handle(Event::ReloadConfig, at(0))), vec!["read"]);
    assert_eq!(names(&c.resume(Reply::Config(quiet()), at(0))), vec!["publish"]);
    let mut cfg = quiet();
    cfg.hotkey = "KEY_RIGHTCTRL".to_string();
    cfg.model = "parakeet-tdt-0.6b-v3".to_string();
    cfg.remove_fillers = false;
    cfg.trailing_space = false;
    let mut r = Replacements::new();
    r.insert("um".to_string(), "UM".to_string());
    cfg.replacements = r;
    c.handle(Event::ReloadConfig, at(1));
    let out = c.resume(Reply::Config(cfg), at(1));
    assert_eq!(names(&out), vec!["listen 97", "load parakeet-tdt-0.6b-v3 2", "publish"]);
    c.handle(Event::ModelReady(2), at(2));
    let heard = Event::Transcribed { seq: 1, result: Ok("um hi".to_string()) };
    assert_eq!(names(&c.handle(heard, at(3))), vec!["announce UM hi", "type UM hi"]);
}

#[test]
fn nothing_left_nothing_typed() {
    let mut c = ready(quiet());
    let heard = Event::Transcribed { seq: 1, result: Ok("Mm-hmm.".to_string()) };
    assert_eq!(names(&c.handle(heard, at(0))), vec!["publish"]);
    assert!(c.history().is_empty());
}

#[test]
fn history_is_short_and_newest_first() {
    let mut c = ready(quiet());
    for i in 0..25 {
        c.handle(Event::Transcribed { seq: 1, result: Ok(format!("word {i}")) }, at(i));
        c.resume(Reply::Typed(Delivery::Typed), at(i));
    }
    let h = c.history();
    assert_eq!(h.len(), HISTORY_LEN);
    assert_eq!(h[0].1, "word 24");
    assert_eq!(h[19].1, "word 5");
}

#[test]
fn a_restart_exits() {
    let mut c = recording(Config::default());
    let out = c.handle(Event::Restart, at(1));
    assert_eq!(names(&out), vec!["drop", "Cancel", "exit 75 100", "publish"]);
}

#[test]
fn only_changes_are_published() {
    let (mut c, _) = Controller::new(Config::default());
    let (status, changed) = c.publish(at(0).now).unwrap();
    assert_eq!(status.state, State::Loading);
    assert_eq!(
        changed,
        vec![
            Property::State,
            Property::Detail,
            Property::Enabled,
            Property::Model,
            Property::Hotkey
        ]
    );
    assert!(c.publish(at(1).now).is_none());
    c.handle(Event::SetEnabled(false), at(2));
    assert_eq!(c.publish(at(2).now).unwrap().1, vec![Property::Enabled]);
    c.handle(Event::ModelReady(1), at(3));
    assert_eq!(c.publish(at(3).now).unwrap().1, vec![Property::State, Property::Detail]);
    // A transcript changes the snapshot but no property.
    c.handle(Event::Transcribed { seq: 1, result: Ok("hi".to_string()) }, at(4));
    assert!(c.publish(at(4).now).unwrap().1.is_empty());
}

#[test]
fn replies_are_awaited() {
    let mut c = ready(quiet());
    assert!(c.is_ready() && c.can_count());
    assert!(!c.awaits(&Reply::Started));
    c.handle(Event::HotkeyDown, at(0));
    assert!(c.awaits(&Reply::Started));
    assert!(c.awaits(&Reply::StartFailed(String::new())));
    assert!(!c.awaits(&Reply::Stopped { short: false }));
}

#[test]
fn tones_have_names() {
    assert_ne!(Tone::Start, Tone::Stop);
    assert_eq!(format!("{:?}", Tone::Cancel), "Cancel");
}
