//! Names, models, paths and the configuration.

use murmur::bus::{APP_ID, DBUS_IFACE, DBUS_NAME, DBUS_PATH};
use murmur::config::{Config, ConfigFields, ConfigFile, SaveStep};
use murmur::labels::{ago, ellipsize, hotkey_label, number};
use murmur::models::{model_by_id, models};
use murmur::paths::{
    config_dir, config_dir_below, config_path, config_temp_name, data_dir, data_dir_below,
    join_path, log_dir, log_path, part_name, sibling_exe,
};
use murmur::replacements::Replacements;
use murmur::state::State;
use std::path::{Path, PathBuf};

fn text(bytes: Vec<u8>) -> String {
    String::from_utf8(bytes).unwrap()
}

fn bytes(s: &str) -> Vec<u8> {
    s.as_bytes().to_vec()
}

fn empty_fields() -> ConfigFields {
    ConfigFields {
        hotkey: None,
        model: None,
        sounds: None,
        trailing_space: None,
        cancel_on_other_key: None,
        remove_fillers: None,
        release_tail_ms: None,
        min_hold_ms: None,
        replacements: None,
    }
}

fn fields_of(file: &str) -> Result<ConfigFields, String> {
    let table: toml::Table = toml::from_str(file).map_err(|e| e.to_string())?;
    let mut f = empty_fields();
    f.sounds = table.get("sounds").and_then(|v| v.as_bool());
    f.hotkey = table.get("hotkey").and_then(|v| v.as_str()).map(str::to_string);
    Ok(f)
}

#[test]
fn hotkey_labels() {
    assert_eq!(hotkey_label("KEY_RIGHTALT"), "Right Alt");
    assert_eq!(hotkey_label("KEY_LEFTCTRL"), "Left Ctrl");
    assert_eq!(hotkey_label("KEY_F13"), "F13");
}

#[test]
fn state_round_trip() {
    for s in [
        State::Starting,
        State::Downloading,
        State::Loading,
        State::Idle,
        State::Recording,
        State::Transcribing,
        State::Disabled,
        State::Error,
    ] {
        assert_eq!(State::parse(s.as_str()), s);
    }
}

#[test]
fn partial_config_uses_defaults() {
    let cfg = Config::from_fields(fields_of("sounds = false").unwrap());
    assert!(!cfg.sounds);
    assert_eq!(cfg.hotkey, "KEY_RIGHTALT");
}

#[test]
fn unknown_states_are_starting() {
    assert_eq!(State::parse("starting"), State::Starting);
    assert_eq!(State::parse("Idle"), State::Starting);
    assert_eq!(State::parse(""), State::Starting);
    assert_eq!(State::default(), State::Starting);
    assert_eq!(State::Transcribing.as_str(), "transcribing");
}

#[test]
fn other_hotkey_labels() {
    assert_eq!(hotkey_label("KEY_RIGHTSHIFT"), "Right Shift");
    assert_eq!(hotkey_label("KEY_RIGHTMETA"), "Right Super");
    assert_eq!(hotkey_label("KEY_RIGHTBRACE"), "Right BRACE");
    assert_eq!(hotkey_label("KEY_RIGHT"), "Right ");
    assert_eq!(hotkey_label("KEY_KEY_LEFTALT"), "Left Alt");
    assert_eq!(hotkey_label("LEFTALT"), "Left Alt");
    assert_eq!(hotkey_label(""), "");
}

#[test]
fn defaults() {
    let cfg = Config::default();
    assert_eq!(cfg.hotkey, "KEY_RIGHTALT");
    assert_eq!(cfg.model, "parakeet-tdt-0.6b-v2");
    assert!(cfg.sounds && cfg.trailing_space && cfg.cancel_on_other_key && cfg.remove_fillers);
    assert_eq!((cfg.release_tail_ms, cfg.min_hold_ms), (200, 250));
    assert_eq!(cfg.replacements.len(), 0);
}

#[test]
fn files_are_read_or_refused() {
    let path = "/home/me/.config/murmur/config.toml";
    assert_eq!(Config::try_load(path, ConfigFile::Missing).unwrap().min_hold_ms, 250);
    let mut f = empty_fields();
    f.min_hold_ms = Some(7);
    assert_eq!(Config::try_load(path, ConfigFile::Parsed(f)).unwrap().min_hold_ms, 7);
    assert_eq!(
        Config::try_load(path, ConfigFile::Broken("line 1".to_string())).unwrap_err(),
        "Invalid /home/me/.config/murmur/config.toml: line 1"
    );
    assert_eq!(
        Config::try_load(path, ConfigFile::Unreadable("denied".to_string())).unwrap_err(),
        "Can't read /home/me/.config/murmur/config.toml: denied"
    );
    assert!(fields_of("sounds = ").is_err());
}

#[test]
fn loading_never_fails_but_editing_can() {
    assert_eq!(Config::load(Err("broken".to_string())).hotkey, "KEY_RIGHTALT");
    let mut c = Config::default();
    c.hotkey = "KEY_F13".to_string();
    assert_eq!(Config::load(Ok(c.clone())).hotkey, "KEY_F13");
    let edited = Config::update(Ok(c), |mut c: Config| {
        c.sounds = false;
        c
    })
    .unwrap();
    assert_eq!((edited.hotkey.as_str(), edited.sounds), ("KEY_F13", false));
    let refused = Config::update(Err("broken".to_string()), |c: Config| c);
    assert_eq!(refused.unwrap_err(), "broken");
}

#[test]
fn written_fields_are_read_back() {
    let mut c = Config::default();
    c.model = "x".to_string();
    c.release_tail_ms = 3;
    c.trailing_space = false;
    let mut r = Replacements::new();
    r.insert("a".to_string(), "b".to_string());
    c.replacements = r;
    let d = Config::from_fields(c.fields());
    assert_eq!((d.model.as_str(), d.release_tail_ms, d.trailing_space), ("x", 3, false));
    assert_eq!(d.replacements.entry(0), ("a", "b"));
    assert_eq!((d.hotkey, d.min_hold_ms), (c.hotkey, c.min_hold_ms));
}

#[test]
fn settings_compare_by_value() {
    let mut a = Config::default();
    assert_eq!(a, Config::default());
    assert_eq!(a, a.clone());
    a.min_hold_ms = 1;
    assert_ne!(a, Config::default());
    let mut r = Replacements::new();
    assert_eq!(r, Replacements::new());
    r.insert("a".to_string(), "b".to_string());
    assert_ne!(r, Replacements::new());
}

#[test]
fn saving_goes_through_a_temporary_file() {
    let step = SaveStep::MakeDir.next(None);
    assert!(matches!(step, SaveStep::WriteTemp));
    let step = step.next(None);
    assert!(matches!(step, SaveStep::Rename));
    assert!(matches!(step.next(None), SaveStep::Saved));
    assert!(matches!(SaveStep::Saved.next(Some("late".to_string())), SaveStep::Saved));
}

#[test]
fn failed_saves_say_why() {
    let failed = SaveStep::MakeDir.next(Some("read-only".to_string()));
    assert!(matches!(failed, SaveStep::Failed(e) if e == "read-only"));
    let failed = SaveStep::WriteTemp.next(Some("full".to_string()));
    assert!(matches!(failed, SaveStep::Failed(e) if e == "full"));
    let step = SaveStep::Rename.next(Some("busy".to_string()));
    assert!(matches!(&step, SaveStep::RemoveTemp(e) if e == "busy"));
    assert!(matches!(step.next(None), SaveStep::Failed(e) if e == "busy"));
    let step = SaveStep::RemoveTemp("busy".to_string()).next(Some("gone".to_string()));
    assert!(matches!(step.next(None), SaveStep::Failed(e) if e == "busy"));
}

#[test]
fn models_by_id() {
    assert_eq!(model_by_id("parakeet-tdt-0.6b-v3").name, "Parakeet v3 (25 languages)");
    assert_eq!(model_by_id("nonsense").id, "parakeet-tdt-0.6b-v2");
    assert_eq!(models().len(), 2);
    assert_eq!(model_by_id("parakeet-tdt-0.6b-v2").total_bytes(), 661_191_781);
    assert_eq!(model_by_id("parakeet-tdt-0.6b-v3").total_bytes(), 670_480_039);
}

#[test]
fn a_model_is_installed_when_all_sizes_match() {
    let m = model_by_id("parakeet-tdt-0.6b-v2");
    let mut found: Vec<Option<u64>> = m.files.iter().map(|f| Some(f.1)).collect();
    assert!(m.is_installed(&found));
    found[2] = Some(1);
    assert!(!m.is_installed(&found));
    found[2] = None;
    assert!(!m.is_installed(&found));
}

#[test]
fn directories_are_below_the_users() {
    assert_eq!(text(config_dir_below(Some(bytes("/home/me/.config")))), "/home/me/.config/murmur");
    assert_eq!(text(config_dir_below(None)), "~/.config/murmur");
    assert_eq!(text(data_dir_below(None)), "~/.local/share/murmur");
    assert_eq!(text(data_dir_below(Some(bytes("/d/")))), "/d/murmur");
    let m = model_by_id("");
    assert_eq!(text(m.dir_below(&bytes("/d"))), "/d/models/parakeet-tdt-0.6b-v2");
}

#[test]
fn directories_are_those_of_the_system() {
    let config = dirs::config_dir().unwrap_or_else(|| PathBuf::from("~/.config"));
    assert_eq!(text(config_dir()), config.join("murmur").to_str().unwrap());
    assert_eq!(text(config_path()), config.join("murmur/config.toml").to_str().unwrap());
    let data = dirs::data_dir().unwrap_or_else(|| PathBuf::from("~/.local/share"));
    assert_eq!(text(data_dir()), data.join("murmur").to_str().unwrap());
    let dir = model_by_id("parakeet-tdt-0.6b-v3").dir();
    assert_eq!(text(dir), data.join("murmur/models/parakeet-tdt-0.6b-v3").to_str().unwrap());
}

#[test]
fn paths_join_like_paths() {
    for base in ["", "/", "a", "/a/b", "/a/"] {
        for name in ["x", "x/y", "/x"] {
            let joined = text(join_path(&bytes(base), name));
            assert_eq!(joined, Path::new(base).join(name).to_str().unwrap());
        }
    }
}

#[test]
fn log_files() {
    assert_eq!(text(log_dir(Some(bytes("/c")), Some(bytes("/h")))), "/c/murmur");
    assert_eq!(text(log_dir(None, Some(bytes("/h")))), "/h/.cache/murmur");
    assert_eq!(text(log_dir(None, None)), ".cache/murmur");
    assert_eq!(text(log_path(None, Some(bytes("/h")), "applet")), "/h/.cache/murmur/applet.log");
}

#[test]
fn sibling_programs() {
    assert_eq!(text(sibling_exe(Some(bytes("/usr/bin")), true, "murmurd")), "/usr/bin/murmurd");
    assert_eq!(text(sibling_exe(Some(bytes("/usr/bin")), false, "murmurd")), "murmurd");
    assert_eq!(text(sibling_exe(None, true, "murmurd")), "murmurd");
}

#[test]
fn temporary_and_unfinished_names() {
    assert_eq!(config_temp_name(12, 345), "config.toml.12.345.tmp");
    assert_ne!(config_temp_name(1, 23), config_temp_name(12, 3));
    let path = Path::new("config.toml").with_extension(format!("toml.{}.{}.tmp", 12, 345));
    assert_eq!(config_temp_name(12, 345), path.to_str().unwrap());
    for name in ["encoder-model.int8.onnx", "vocab.txt", "config.json", "none", ".hidden"] {
        let expected = Path::new(name).with_extension("part");
        assert_eq!(part_name(name), expected.to_str().unwrap());
    }
}

#[test]
fn bus_names() {
    assert_eq!(APP_ID, "io.github.markmiddo.Murmur");
    assert_eq!(DBUS_NAME, "io.github.markmiddo.Murmur");
    assert_eq!(DBUS_PATH, "/io/github/markmiddo/Murmur");
    assert_eq!(DBUS_IFACE, "io.github.markmiddo.Murmur1");
}

#[test]
fn numbers_and_ages() {
    for n in [0u64, 7, 10, 42, 999, 1_000_000, u64::MAX] {
        assert_eq!(number(n), n.to_string());
    }
    let ages = [(-5, "now"), (44, "now"), (45, "1m"), (89, "1m"), (90, "2m"), (3599, "60m"),
        (3600, "1h"), (86_399, "23h"), (86_400, "1d"), (864_000, "10d")];
    for (secs, label) in ages {
        assert_eq!(ago(secs), label);
    }
}

#[test]
fn long_lines_are_shortened() {
    assert_eq!(ellipsize("short", 5), "short");
    assert_eq!(ellipsize("longer", 5), "long…");
    assert_eq!(ellipsize("ab  cd", 4), "ab…");
    assert_eq!(ellipsize("ééééé", 3), "éé…");
    assert_eq!(ellipsize("x", 1), "x");
    assert_eq!(ellipsize("", 0), "");
}
