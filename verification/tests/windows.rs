//! Typing, the panel button, the settings window and the bus.

use murmur::bus::{startup, Deed, Field, NameReply, Seen, Startup, Watch};
use murmur::config::{Config, ConfigFile};
use murmur::models::models;
use murmur::panel::{
    with_sounds, Call, Footer, Icon, Message, Panel, PanelAction, Tint, Update, ENGINE_GRACE,
};
use murmur::replacements::Replacements;
use murmur::session::Delivery;
use murmur::settings::{
    hold_label, holds, hotkeys, model_description, place_of, tail_label, tails, Message as Edit,
    Settings, SettingsAction,
};
use murmur::state::State;
use murmur::typing::{
    after_copying, after_typing, first_socket, seconds, typing_limit_ms, wait_step,
    wayland_display, Copying, Next, Typing, Wait,
};

const S: u128 = 1_000_000_000;
const T: u128 = 100 * S;

fn strings(list: &[&str]) -> Vec<String> {
    list.iter().map(|s| s.to_string()).collect()
}

#[test]
fn typing_has_a_limit() {
    assert_eq!(typing_limit_ms(""), 10_000);
    assert_eq!(typing_limit_ms("hello"), 10_100);
    assert_eq!(typing_limit_ms("é"), 10_040);
}

#[test]
fn durations_read_like_durations() {
    for ms in (1000..13_000).chain([60_000, 61_234, 999_999_000]) {
        assert_eq!(seconds(ms), format!("{:?}", std::time::Duration::from_millis(ms)));
    }
}

#[test]
fn waiting_ends() {
    assert!(matches!(wait_step(true, 9, 5, 5000), Wait::Over));
    assert!(matches!(wait_step(false, 5, 5, 5000), Wait::Again(20)));
    assert!(matches!(wait_step(false, 6, 5, 10_100), Wait::Stop(msg)
        if msg == "typing took longer than 10.1s and was stopped"));
}

#[test]
fn the_clipboard_is_the_fallback() {
    let ok = after_typing(Typing::Exited { success: true });
    assert!(matches!(ok, Next::Finished(Delivery::Typed)));
    assert!(matches!(after_typing(Typing::Exited { success: false }), Next::Copy));
    assert!(matches!(after_typing(Typing::NotStarted), Next::Copy));
    let broke = after_typing(Typing::Broke("stopped".to_string()));
    assert!(matches!(broke, Next::Fail(e) if e == "stopped"));
}

#[test]
fn copying_succeeds_or_says_why() {
    let ok = Copying::Exited { success: true, how: "0".to_string() };
    assert_eq!(after_copying(ok), Ok(Delivery::Clipboard));
    let bad = Copying::Exited { success: false, how: "exit status: 1".to_string() };
    assert_eq!(after_copying(bad), Err("wl-copy exited with exit status: 1".to_string()));
    let none = Copying::NotStarted("not found".to_string());
    assert_eq!(after_copying(none), Err("wl-copy not available: not found".to_string()));
    assert_eq!(after_copying(Copying::NoInput), Err("no stdin".to_string()));
    assert_eq!(after_copying(Copying::Broke("pipe".to_string())), Err("pipe".to_string()));
}

#[test]
fn the_first_socket_is_found() {
    let names = strings(&["pulse", "wayland-1.lock", "wayland-1", "wayland-0", "wayland-0.lock"]);
    assert_eq!(first_socket(&names), Some("wayland-0".to_string()));
    assert_eq!(first_socket(&strings(&["bus", "wayland"])), None);
    let env = Some("wayland-9".to_string());
    assert_eq!(wayland_display(env, Some(names.clone())), Some("wayland-9".to_string()));
    let blank = Some(String::new());
    assert_eq!(wayland_display(blank, Some(names.clone())), Some("wayland-0".to_string()));
    assert_eq!(wayland_display(None, Some(names)), Some("wayland-0".to_string()));
    assert_eq!(wayland_display(None, None), None);
}

fn news(p: &mut Panel, u: Update, now: u128) -> Vec<PanelAction> {
    p.update(Message::Engine(u), now)
}

fn connected() -> Panel {
    let mut p = Panel::new(true, T);
    news(&mut p, Update::Connected, T);
    news(&mut p, Update::State("idle".to_string()), T);
    p
}

#[test]
fn a_new_panel_waits_for_the_engine() {
    let p = Panel::new(true, T);
    assert_eq!((p.state(), p.detail()), (State::Starting, "Starting…"));
    assert!(p.enabled() && p.sounds() && !p.connected());
    assert_eq!(p.panel_icon(), Icon::MicError);
    assert_eq!(p.tick_every(), Some(1000));
    assert!(matches!(p.footer(), Footer::StartEngine));
    assert_eq!(p.popup(), None);
    assert_eq!(
        p.help(),
        "Hold Right Alt, speak, and let go. Your words land wherever you're typing."
    );
    assert_eq!(p.tooltip(), "Murmur — Starting…");
}

#[test]
fn a_missing_engine_is_started() {
    let mut p = Panel::new(true, T);
    assert!(p.update(Message::Tick, T + 4 * S - 1).is_empty());
    assert_eq!(p.update(Message::Tick, T + 4 * S), vec![PanelAction::StartEngine]);
    assert!(p.update(Message::Tick, T + 14 * S - 1).is_empty());
    assert_eq!(news(&mut p, Update::Disconnected, T + 14 * S), vec![PanelAction::StartEngine]);
    assert_eq!(p.update(Message::Retry, T + 15 * S), vec![PanelAction::StartEngine]);
    assert_eq!(ENGINE_GRACE, 4 * S);
}

#[test]
fn a_lost_engine_is_shown() {
    let mut p = connected();
    assert_eq!(p.panel_icon(), Icon::Mic);
    assert_eq!(p.tick_every(), None);
    assert!(news(&mut p, Update::Disconnected, T + S).is_empty());
    assert_eq!((p.state(), p.detail()), (State::Error, "Engine not running"));
    assert_eq!(p.panel_icon(), Icon::MicError);
    assert_eq!(p.status_color(), Tint::Warning);
    assert_eq!(p.bar_color(), Tint::Neutral);
    assert!(p.update(Message::StartDictation, T + S).is_empty());
    assert!(p.update(Message::SetEnabled(false), T + S).is_empty());
    assert!(!p.enabled());
    // The grace runs from the loss.
    assert!(p.update(Message::Tick, T + 5 * S - 1).is_empty());
    assert_eq!(p.update(Message::Tick, T + 5 * S), vec![PanelAction::StartEngine]);
}

#[test]
fn icons_and_colours() {
    let mut p = connected();
    assert_eq!(p.status_color(), Tint::Success);
    assert_eq!(p.bar_color(), Tint::Accent);
    news(&mut p, Update::State("disabled".to_string()), T);
    assert_eq!((p.panel_icon(), p.status_color()), (Icon::MicOff, Tint::Accent));
    news(&mut p, Update::State("error".to_string()), T);
    assert_eq!((p.panel_icon(), p.status_color()), (Icon::MicError, Tint::Warning));
    assert!(matches!(p.footer(), Footer::TryAgain));
    assert_eq!(p.update(Message::Retry, T), vec![PanelAction::Call(Call::Retry)]);
    news(&mut p, Update::State("recording".to_string()), T);
    assert_eq!((p.status_color(), p.bar_color()), (Tint::Destructive, Tint::Destructive));
    assert!(p.animating());
    assert_eq!(p.tick_every(), Some(33));
    news(&mut p, Update::State("transcribing".to_string()), T);
    assert!(p.animating());
    assert!(matches!(p.footer(), Footer::Dictate { hint, active: false } if hint == "or hold Right Alt"));
}

#[test]
fn levels_end_with_the_recording() {
    let mut p = connected();
    news(&mut p, Update::State("recording".to_string()), T);
    news(&mut p, Update::Level(55), T);
    assert_eq!(p.level(), 55);
    news(&mut p, Update::State("transcribing".to_string()), T);
    assert_eq!(p.level(), 0);
}

#[test]
fn clicks_on_the_panel() {
    let mut p = connected();
    let open = p.update(Message::TogglePopup, T);
    assert_eq!(open, vec![PanelAction::ReadSounds, PanelAction::OpenPopup]);
    p.update(Message::SoundsRead(false), T);
    assert!(!p.sounds());
    p.update(Message::PopupOpened(7), T);
    p.update(Message::PopupClosed(6), T);
    assert_eq!(p.popup(), Some(7));
    assert_eq!(p.update(Message::TogglePopup, T), vec![PanelAction::ClosePopup(7)]);
    assert_eq!(p.popup(), None);
    news(&mut p, Update::State("recording".to_string()), T);
    assert_eq!(
        p.update(Message::TogglePopup, T),
        vec![PanelAction::Call(Call::ToggleRecording)]
    );
}

#[test]
fn the_popup_closes_first() {
    let mut p = connected();
    p.update(Message::PopupOpened(7), T);
    assert_eq!(
        p.update(Message::DictateNow, T),
        vec![PanelAction::ClosePopup(7), PanelAction::DictateAfter(250)]
    );
    assert_eq!(
        p.update(Message::StartDictation, T),
        vec![PanelAction::Call(Call::ToggleRecording)]
    );
    p.update(Message::PopupOpened(8), T);
    assert_eq!(
        p.update(Message::OpenSettings, T),
        vec![PanelAction::OpenSettings, PanelAction::ClosePopup(8)]
    );
    p.update(Message::PopupOpened(9), T);
    p.update(Message::PopupClosed(9), T);
    assert_eq!(p.update(Message::DictateNow, T), vec![PanelAction::DictateAfter(250)]);
}

#[test]
fn switches_reach_the_engine() {
    let mut p = connected();
    assert_eq!(
        p.update(Message::SetEnabled(false), T),
        vec![PanelAction::Call(Call::SetEnabled(false))]
    );
    assert_eq!(p.update(Message::SetSounds(false), T), vec![PanelAction::SaveSounds(false)]);
    assert!(!p.sounds());
    assert_eq!(p.update(Message::Saved, T), vec![PanelAction::Call(Call::ReloadConfig)]);
    let c = with_sounds(Config::default(), false);
    assert!(!c.sounds && c.trailing_space);
}

#[test]
fn transcripts_in_the_popup() {
    let mut p = connected();
    assert_eq!(p.recent_hint(), "");
    let history: Vec<(i64, String)> = (0..7).map(|i| (1000 - i * 60, format!("line {i}"))).collect();
    news(&mut p, Update::History(history), T);
    assert_eq!(p.recent_hint(), "Click to copy");
    assert_eq!(p.shown(), 5);
    assert!(p.can_tell_ages(1000));
    let lines = p.lines(1000);
    assert_eq!(lines.len(), 5);
    assert_eq!((lines[1].text.as_str(), lines[1].right.as_str()), ("line 1", "1m"));
    assert_eq!(p.update(Message::Copy(1), T), vec![PanelAction::CopyLine(1)]);
    let lines = p.lines(1000);
    assert_eq!((lines[1].right.as_str(), lines[1].copied), ("Copied", true));
    assert_eq!((lines[0].right.as_str(), lines[0].copied), ("now", false));
    assert_eq!(p.transcript(1), Some("line 1".to_string()));
    assert_eq!(p.transcript(7), None);
    assert!(p.update(Message::Copy(7), T).is_empty());
    news(&mut p, Update::History(vec![(i64::MIN, "x".repeat(50))]), T);
    assert!(!p.can_tell_ages(1));
    assert!(p.can_tell_ages(-1));
    let lines = p.lines(-1);
    assert_eq!(lines[0].text, format!("{}…", "x".repeat(39)));
    assert!(!lines[0].copied);
    p.update(Message::TogglePopup, T);
    news(&mut p, Update::Model("m".to_string()), T);
    news(&mut p, Update::Hotkey("F13".to_string()), T);
    news(&mut p, Update::Detail("Ready".to_string()), T);
    news(&mut p, Update::Enabled(false), T);
    assert_eq!((p.detail(), p.enabled()), ("Ready", false));
    assert!(matches!(p.footer(), Footer::Dictate { hint, active: true } if hint == "or hold F13"));
}

#[test]
fn choices_in_the_settings() {
    assert_eq!(hotkeys().len(), 17);
    assert_eq!(hotkeys()[4], ("KEY_COMPOSE", "Menu"));
    assert_eq!(tails(), vec![0, 100, 200, 350, 500, 800]);
    assert_eq!(holds(), vec![100, 250, 400, 600]);
    assert_eq!((tail_label(0), tail_label(350)), ("Off".to_string(), "350 ms".to_string()));
    assert_eq!(hold_label(100), "100 ms");
    assert_eq!(place_of(&vec![5, 6, 6], 6), Some(1));
    let s = Settings::new(Config::default());
    assert_eq!(s.hotkey_index(), Some(0));
    assert_eq!(s.model_index(), Some(0));
    assert_eq!(s.tail_index(), Some(2));
    assert_eq!(s.hold_index(), Some(1));
    let mut c = Config::default();
    c.hotkey = "KEY_Q".to_string();
    c.model = "?".to_string();
    c.release_tail_ms = 1;
    c.min_hold_ms = 1;
    let s = Settings::new(c);
    assert_eq!((s.hotkey_index(), s.model_index()), (None, None));
    assert_eq!((s.tail_index(), s.hold_index()), (None, None));
}

#[test]
fn edits_are_saved() {
    let mut s = Settings::new(Config::default());
    let save = SettingsAction::Save { reload: false };
    assert_eq!(s.update(Edit::Hotkey(9)), save);
    assert_eq!(s.config().hotkey, "KEY_F13");
    assert_eq!(s.hotkey_index(), Some(9));
    assert_eq!(s.update(Edit::Model(1)), save);
    assert_eq!(s.config().model, "parakeet-tdt-0.6b-v3");
    s.update(Edit::Tail(5));
    s.update(Edit::MinHold(3));
    assert_eq!((s.config().release_tail_ms, s.config().min_hold_ms), (800, 600));
    s.update(Edit::Sounds(false));
    s.update(Edit::TrailingSpace(false));
    s.update(Edit::CancelOnOther(false));
    s.update(Edit::RemoveFillers(false));
    let c = s.config();
    assert!(!c.sounds && !c.trailing_space && !c.cancel_on_other_key && !c.remove_fillers);
    s.update(Edit::Engine(Update::Connected));
    assert_eq!(s.update(Edit::Sounds(true)), SettingsAction::Save { reload: true });
    assert_eq!(s.update(Edit::OpenConfigFile), SettingsAction::OpenConfigFile);
}

#[test]
fn replacements_are_edited_in_rows() {
    let mut s = Settings::new(Config::default());
    assert_eq!(s.row_count(), 1);
    assert_eq!(s.row(0), ("", ""));
    s.update(Edit::ReplFrom(0, " java script ".to_string()));
    s.update(Edit::ReplTo(0, "JavaScript".to_string()));
    assert_eq!(s.config().replacements.entry(0), ("java script", "JavaScript"));
    assert_eq!(s.row(0).0, " java script ");
    assert_eq!(s.update(Edit::ReplAdd), SettingsAction::Rest);
    assert_eq!(s.row_count(), 2);
    s.update(Edit::ReplFrom(1, "java script".to_string()));
    s.update(Edit::ReplTo(1, "JS".to_string()));
    assert_eq!(s.config().replacements.len(), 1);
    assert_eq!(s.config().replacements.entry(0), ("java script", "JS"));
    s.update(Edit::ReplFrom(1, "  ".to_string()));
    assert_eq!(s.config().replacements.entry(0), ("java script", "JavaScript"));
    s.update(Edit::ReplRemove(0));
    assert_eq!((s.row_count(), s.config().replacements.len()), (1, 0));
    let save = SettingsAction::Save { reload: false };
    assert_eq!(s.update(Edit::ReplRemove(5)), save);
    assert_eq!(s.update(Edit::ReplFrom(5, "x".to_string())), save);
    assert_eq!(s.row_count(), 1);
    let mut c = Config::default();
    let mut r = Replacements::new();
    r.insert("b".to_string(), "2".to_string());
    r.insert("a".to_string(), "1".to_string());
    c.replacements = r;
    let s = Settings::new(c);
    assert_eq!((s.row(0), s.row(1)), (("a", "1"), ("b", "2")));
}

#[test]
fn edits_are_saved_over_a_fresh_read() {
    let mut s = Settings::new(Config::default());
    s.update(Edit::Sounds(false));
    s.update(Edit::ReplFrom(0, "a".to_string()));
    s.update(Edit::ReplTo(0, "b".to_string()));
    // Another window has changed something else meanwhile.
    let mut read = Config::default();
    read.trailing_space = false;
    read.hotkey = "KEY_F14".to_string();
    let written = s.to_save(Ok(read.clone())).unwrap();
    assert!(!written.sounds && !written.trailing_space);
    assert_eq!(written.hotkey, "KEY_F14");
    assert_eq!(written.replacements.entry(0), ("a", "b"));
    // Once saved, an edit is not written a second time.
    s.saved();
    assert_eq!(s.to_save(Ok(read.clone())), Ok(read.clone()));
    s.update(Edit::Hotkey(0));
    s.update(Edit::Model(1));
    s.update(Edit::TrailingSpace(true));
    s.update(Edit::CancelOnOther(false));
    s.update(Edit::RemoveFillers(false));
    s.update(Edit::Tail(0));
    s.update(Edit::MinHold(0));
    let written = s.to_save(Ok(read)).unwrap();
    assert_eq!(written.hotkey, "KEY_RIGHTALT");
    assert_eq!(written.model, "parakeet-tdt-0.6b-v3");
    assert!(written.trailing_space && written.sounds);
    assert!(!written.cancel_on_other_key && !written.remove_fillers);
    assert_eq!((written.release_tail_ms, written.min_hold_ms), (0, 100));
}

#[test]
fn a_broken_file_is_not_overwritten() {
    let mut s = Settings::new(Config::default());
    s.update(Edit::Sounds(false));
    let broken = Config::try_load("c", ConfigFile::Broken("line 3".to_string()));
    assert_eq!(s.to_save(broken), Err("Invalid c: line 3".to_string()));
    let missing = Config::try_load("c", ConfigFile::Missing);
    assert!(!s.to_save(missing).unwrap().sounds);
}

#[test]
fn the_settings_show_the_engine() {
    let mut s = Settings::new(Config::default());
    assert_eq!(s.engine_status(), ("Engine not running".to_string(), false));
    assert_eq!(s.update(Edit::RestartEngine), SettingsAction::Rest);
    s.update(Edit::Engine(Update::Connected));
    s.update(Edit::Engine(Update::Detail("Hold Right Alt to dictate".to_string())));
    s.update(Edit::Engine(Update::State("idle".to_string())));
    assert_eq!(s.engine_status(), ("Hold Right Alt to dictate".to_string(), true));
    s.update(Edit::Engine(Update::State("error".to_string())));
    assert!(!s.engine_status().1);
    assert_eq!(s.update(Edit::RestartEngine), SettingsAction::RestartEngine);
    assert_eq!(s.update(Edit::Engine(Update::Level(3))), SettingsAction::Rest);
    s.update(Edit::Engine(Update::Disconnected));
    assert_eq!(s.engine_status().0, "Engine not running");
}

#[test]
fn models_are_described() {
    let all = models();
    assert_eq!(
        model_description(&all[0], true),
        "Most accurate for English. Punctuation and capitals included."
    );
    assert_eq!(
        model_description(&all[1], false),
        "Multilingual with automatic language detection. Downloads 670 MB on first use."
    );
}

#[test]
fn one_engine_at_a_time() {
    assert_eq!(startup(NameReply::PrimaryOwner), Startup::Run);
    assert_eq!(startup(NameReply::AlreadyOwner), Startup::Run);
    assert_eq!(startup(NameReply::Exists), Startup::Leave);
    assert_eq!(startup(NameReply::InQueue), Startup::Leave);
    assert_eq!(startup(NameReply::Taken), Startup::Leave);
    assert_eq!(startup(NameReply::Failed), Startup::Fail);
}

#[test]
fn the_engine_is_followed() {
    let (mut w, first) = Watch::new();
    assert_eq!(first, vec![Deed::Connect, Deed::AskOwner]);
    assert!(w.awaits(Seen::Owner(true)) && !w.awaits(Seen::Value));
    assert_eq!(
        w.step(Seen::Owner(false)),
        vec![Deed::TellDisconnected, Deed::Rest(700), Deed::AskOwner]
    );
    assert_eq!(
        w.step(Seen::Owner(true)),
        vec![Deed::TellConnected, Deed::Read(Field::State)]
    );
    for f in [Field::Detail, Field::Enabled, Field::Model, Field::Hotkey, Field::History] {
        assert_eq!(w.step(Seen::Value), vec![Deed::Forward { must_reach: false }, Deed::Read(f)]);
    }
    assert_eq!(w.step(Seen::Value), vec![Deed::Forward { must_reach: false }, Deed::Follow]);
    assert_eq!(w.step(Seen::News), vec![Deed::Forward { must_reach: true }]);
    assert!(w.step(Seen::OwnerChange { engine: true, vacant: false }).is_empty());
    assert!(w.step(Seen::OwnerChange { engine: false, vacant: true }).is_empty());
    let again = vec![
        Deed::TellDisconnected,
        Deed::Rest(1000),
        Deed::Connect,
        Deed::AskOwner,
    ];
    assert_eq!(w.step(Seen::OwnerChange { engine: true, vacant: true }), again);
    assert_eq!(w.step(Seen::Broken), again);
    w.step(Seen::Owner(true));
    for _ in 0..6 {
        w.step(Seen::Value);
    }
    assert_eq!(w.step(Seen::Unheard), again);
}
