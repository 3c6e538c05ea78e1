//! Audio framing, the engine and the download of a model.

use murmur::audio::{
    blank_start, padded, Framer, MeterWindow, METER_WINDOW, TAIL_PADDING, TARGET_RATE,
};
use murmur::controller::Event;
use murmur::download::{file_url, range_header, Download, Order, Outcome, CHUNK};
use murmur::engine::{check_installed, sample_scale, Done, Engine, Work};
use murmur::models::{model_by_id, ModelInfo};

fn work(list: Vec<Work>) -> Vec<String> {
    list.into_iter()
        .map(|w| match w {
            Work::Unload => "unload".to_string(),
            Work::CheckFiles => "check".to_string(),
            Work::Download => "download".to_string(),
            Work::LoadModel => "load".to_string(),
            Work::RemoveFiles => "remove".to_string(),
            Work::WarmUp => "warm".to_string(),
            Work::Run => "run".to_string(),
            Work::Report(Event::Loading(g)) => format!("loading {g}"),
            Work::Report(Event::ModelReady(g)) => format!("ready {g}"),
            Work::Report(Event::ModelFailed(g, e)) => format!("failed {g} {e}"),
            Work::Report(Event::Transcribed { seq, result }) => format!("{seq} {result:?}"),
            Work::Report(_) => "?".to_string(),
        })
        .collect()
}

fn order(o: &Order) -> String {
    match o {
        Order::CheckFile(n) => format!("file {n}"),
        Order::CheckPart(n) => format!("part {n}"),
        Order::OpenPart { name, have } => format!("open {name} {have}"),
        Order::Fetch { from, to } => format!("fetch {from}-{to}"),
        Order::Rest(secs) => format!("rest {secs}"),
        Order::Install(n) => format!("install {n}"),
        Order::Complete => "complete".to_string(),
        Order::GiveUp(why) => format!("give up: {why}"),
    }
}

fn sizes(m: &ModelInfo) -> Vec<Option<u64>> {
    m.files.iter().map(|f| Some(f.1)).collect()
}

fn small(files: Vec<(&'static str, u64)>) -> ModelInfo {
    ModelInfo { id: "i", name: "N", description: "D", repo: "r/r", revision: "v", files }
}

#[test]
fn samples_are_little_endian() {
    let values = [0.5f32, -1.25, 3.0e-8, f32::MAX];
    let bytes: Vec<u8> = values.iter().flat_map(|v| v.to_le_bytes()).collect();
    let words = Framer::new().feed(&bytes);
    let back: Vec<f32> = words.into_iter().map(f32::from_bits).collect();
    assert_eq!(back, values.to_vec());
}

#[test]
fn samples_do_not_depend_on_the_pieces() {
    let bytes: Vec<u8> = (0..103u8).map(|i| i.wrapping_mul(37)).collect();
    let whole = Framer::new().feed(&bytes);
    assert_eq!(whole.len(), 25);
    for step in 1..9 {
        let mut f = Framer::new();
        let mut out = Vec::new();
        for piece in bytes.chunks(step) {
            out.extend(f.feed(piece));
        }
        assert_eq!(out, whole);
    }
}

#[test]
fn the_meter_reports_twenty_times_a_second() {
    let mut m = MeterWindow::new();
    let reports: usize = (0..TARGET_RATE).filter(|_| m.advance()).count();
    assert_eq!(reports, 20);
    assert_eq!(METER_WINDOW * 20, TARGET_RATE as usize);
    assert_eq!(TAIL_PADDING * 4, TARGET_RATE as usize);
}

#[test]
fn reports_do_not_depend_on_the_cuts() {
    for step in [1usize, 7, 799, 800, 801, 2000] {
        let mut m = MeterWindow::new();
        let mut reports = 0;
        let mut left = 10_000usize;
        while left > 0 {
            let n = step.min(left);
            reports += (0..n).filter(|_| m.advance()).count();
            left -= n;
        }
        assert_eq!(reports, 10_000 / METER_WINDOW);
    }
}

#[test]
fn clips_are_blanked_and_padded() {
    let mut clip = vec![5, 6, 7];
    blank_start(&mut clip, 2);
    assert_eq!(clip, vec![0, 0, 7]);
    blank_start(&mut clip, 9);
    assert_eq!(clip, vec![0, 0, 0]);
    let long = padded(vec![1, 2]);
    assert_eq!(long.len(), 2 + TAIL_PADDING);
    assert_eq!(long[..3], [1, 2, 0]);
    assert!(long[2..].iter().all(|&bits| f32::from_bits(bits) == 0.0));
}

#[test]
fn an_installed_model_is_loaded() {
    let mut e = Engine::new();
    assert!(e.is_idle());
    let m = model_by_id("");
    let found = sizes(&m);
    assert_eq!(work(e.load(m, 3)), vec!["unload", "check"]);
    assert!(!e.is_idle());
    assert!(!e.awaits(&Done::Sizes(vec![None])));
    assert_eq!(work(e.proceed(Done::Sizes(found))), vec!["loading 3", "load"]);
    assert_eq!(work(e.proceed(Done::Loaded(Ok(())))), vec!["warm", "ready 3"]);
    assert_eq!(work(e.transcribe(7)), vec!["run"]);
    let heard = Done::Heard(Ok("  Hello. \n".to_string()));
    assert_eq!(work(e.proceed(heard)), vec!["7 Ok(\"Hello.\")"]);
    assert_eq!(work(e.transcribe(8)), vec!["run"]);
    let failed = Done::Heard(Err("bad".to_string()));
    assert_eq!(work(e.proceed(failed)), vec!["8 Err(\"bad\")"]);
}

#[test]
fn a_missing_model_is_downloaded_first() {
    let mut e = Engine::new();
    e.load(model_by_id(""), 1);
    assert_eq!(work(e.proceed(Done::Sizes(vec![None; 4]))), vec!["download"]);
    assert_eq!(work(e.proceed(Done::Downloaded(Ok(())))), vec!["loading 1", "load"]);
    let mut e = Engine::new();
    e.load(model_by_id(""), 1);
    e.proceed(Done::Sizes(vec![None; 4]));
    let failed = Done::Downloaded(Err("offline".to_string()));
    assert_eq!(work(e.proceed(failed)), vec!["failed 1 offline"]);
    assert!(e.is_idle());
}

#[test]
fn an_unloadable_model_is_removed() {
    let mut e = Engine::new();
    let m = model_by_id("");
    let found = sizes(&m);
    e.load(m, 2);
    e.proceed(Done::Sizes(found));
    assert_eq!(
        work(e.proceed(Done::Loaded(Err("corrupt".to_string())))),
        vec![
            "remove",
            "failed 2 Could not load speech model (it will re-download on retry): corrupt"
        ]
    );
    assert_eq!(work(e.transcribe(1)), vec!["1 Err(\"Model not loaded\")"]);
}

#[test]
fn a_new_load_gives_up_the_old_model() {
    let mut e = Engine::new();
    let m = model_by_id("");
    let found = sizes(&m);
    e.load(m, 1);
    e.proceed(Done::Sizes(found));
    e.proceed(Done::Loaded(Ok(())));
    e.load(model_by_id("parakeet-tdt-0.6b-v3"), 2);
    e.proceed(Done::Sizes(vec![None; 4]));
    e.proceed(Done::Downloaded(Err("offline".to_string())));
    assert_eq!(work(e.transcribe(1)), vec!["1 Err(\"Model not loaded\")"]);
}

#[test]
fn files_need_an_installed_model() {
    let m = model_by_id("");
    assert!(check_installed(&m, &sizes(&m)).is_ok());
    assert_eq!(
        check_installed(&m, &vec![None; 4]).unwrap_err(),
        "Parakeet v2 (English) is not downloaded yet; start murmurd first"
    );
}

#[test]
fn integer_samples_have_a_scale() {
    assert_eq!(sample_scale(1), 1);
    assert_eq!(sample_scale(8), 128);
    assert_eq!(sample_scale(16), 32_768);
    assert_eq!(sample_scale(24), 1 << 23);
    assert_eq!(sample_scale(32), 1 << 31);
    assert_eq!(sample_scale(64), 1 << 63);
}

#[test]
fn a_download_from_nothing() {
    let m = small(vec![("a.bin", CHUNK + 10), ("b.txt", 5)]);
    let (mut d, first) = Download::new(&m);
    assert_eq!(order(&first), "file a.bin");
    assert_eq!(order(&d.step(Outcome::Size(None))), "part a.bin");
    assert_eq!(order(&d.step(Outcome::Size(None))), "open a.bin 0");
    assert_eq!(order(&d.step(Outcome::Opened)), "fetch 0-33554431");
    assert_eq!(d.bytes_so_far(7), 7);
    assert_eq!(order(&d.step(Outcome::Got(CHUNK))), "fetch 33554432-33554441");
    assert_eq!(d.bytes_so_far(2), CHUNK + 2);
    assert_eq!(order(&d.step(Outcome::Got(10))), "install a.bin");
    assert_eq!(order(&d.step(Outcome::Installed)), "file b.txt");
    assert_eq!(order(&d.step(Outcome::Size(Some(5)))), "complete");
}

#[test]
fn progress_ends_with_the_whole_model() {
    let m = small(vec![("a.bin", 100), ("b.txt", 5)]);
    let (mut d, _) = Download::new(&m);
    d.step(Outcome::Size(Some(100)));
    d.step(Outcome::Size(None));
    d.step(Outcome::Size(Some(2)));
    assert_eq!(order(&d.step(Outcome::Opened)), "fetch 2-4");
    assert_eq!(d.bytes_so_far(0), 102);
    assert_eq!(d.bytes_so_far(3), 105);
    assert_eq!(d.bytes_so_far(3), m.total_bytes());
}

#[test]
fn a_download_resumes() {
    let m = small(vec![("a.bin", 100)]);
    let (mut d, _) = Download::new(&m);
    d.step(Outcome::Size(Some(99)));
    assert_eq!(order(&d.step(Outcome::Size(Some(40)))), "open a.bin 40");
    assert_eq!(order(&d.step(Outcome::Opened)), "fetch 40-99");
    let (mut d, _) = Download::new(&m);
    d.step(Outcome::Size(None));
    assert_eq!(order(&d.step(Outcome::Size(Some(101)))), "open a.bin 0");
    let (mut d, _) = Download::new(&m);
    d.step(Outcome::Size(None));
    assert_eq!(order(&d.step(Outcome::Size(Some(100)))), "open a.bin 100");
    assert_eq!(order(&d.step(Outcome::Opened)), "install a.bin");
}

#[test]
fn broken_ranges_are_tried_again() {
    let m = small(vec![("a.bin", 100)]);
    let (mut d, _) = Download::new(&m);
    d.step(Outcome::Size(None));
    d.step(Outcome::Size(None));
    assert!(d.awaits(&Outcome::Opened));
    d.step(Outcome::Opened);
    assert_eq!(d.why(), "");
    assert_eq!(order(&d.step(Outcome::Got(30))), "part a.bin");
    assert_eq!(d.why(), "short read (30 bytes)");
    assert!(!d.awaits(&Outcome::Size(None)));
    assert_eq!(order(&d.step(Outcome::Size(Some(30)))), "rest 2");
    assert_eq!(order(&d.step(Outcome::Rested)), "fetch 30-99");
    for (i, secs) in [4, 8, 16, 32].iter().enumerate() {
        d.step(Outcome::Broke(format!("lost {i}")));
        assert_eq!(d.why(), format!("lost {i}"));
        assert_eq!(order(&d.step(Outcome::Size(Some(30)))), format!("rest {secs}"));
        d.step(Outcome::Rested);
    }
    d.step(Outcome::Got(1));
    assert_eq!(
        order(&d.step(Outcome::Size(Some(31)))),
        "give up: Download failed: short read (1 bytes)"
    );
}

#[test]
fn a_full_range_clears_the_failures() {
    let m = small(vec![("a.bin", CHUNK * 2)]);
    let (mut d, _) = Download::new(&m);
    d.step(Outcome::Size(None));
    d.step(Outcome::Size(None));
    d.step(Outcome::Opened);
    for _ in 0..5 {
        d.step(Outcome::Broke("x".to_string()));
        d.step(Outcome::Size(Some(0)));
        d.step(Outcome::Rested);
    }
    d.step(Outcome::Got(CHUNK));
    d.step(Outcome::Broke("x".to_string()));
    assert_eq!(order(&d.step(Outcome::Size(Some(CHUNK)))), "rest 2");
}

#[test]
fn an_empty_model_is_complete() {
    let (_, first) = Download::new(&small(vec![]));
    assert_eq!(order(&first), "complete");
}

#[test]
fn addresses_and_ranges() {
    let m = model_by_id("");
    assert_eq!(
        file_url(&m, "vocab.txt"),
        "https://huggingface.co/istupakov/parakeet-tdt-0.6b-v2-onnx/resolve/0bbb45a3365852604aef28b538a8f066f4ccaa85/vocab.txt"
    );
    assert_eq!(range_header(0, 33_554_431), "bytes=0-33554431");
}
