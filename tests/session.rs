use hotreload::apply::{Apply, ApplyResult};
use hotreload::error::Error;
use hotreload::event::{EventKind, WatchEvent};
use hotreload::loader::{load, FileFailure, OpenFailure};
use hotreload::session::{Phase, Reaction, ReloadSession};
use std::cell::Cell;
use std::sync::atomic::{AtomicBool, AtomicUsize, Ordering};
use std::sync::Mutex;

const FILE: &str = "conf/app.toml";

#[derive(Default)]
struct Settings {
    value: Mutex<i64>,
    applies: AtomicUsize,
    busy: AtomicBool,
    overlaps: AtomicUsize,
}

impl Settings {
    fn value(&self) -> i64 {
        *self.value.lock().unwrap()
    }
}

impl Apply<toml::Table> for Settings {
    fn apply(&self, data: toml::Table) -> ApplyResult {
        if self.busy.swap(true, Ordering::SeqCst) {
            self.overlaps.fetch_add(1, Ordering::SeqCst);
        }
        self.applies.fetch_add(1, Ordering::SeqCst);
        let r = match data.get("value").and_then(|v| v.as_integer()) {
            Some(v) if v >= 0 => {
                *self.value.lock().unwrap() = v;
                Ok(())
            }
            Some(_) => Err("value must not be negative".to_string()),
            None => Err("value is missing".to_string()),
        };
        self.busy.store(false, Ordering::SeqCst);
        r
    }
}

fn text(s: &str) -> Result<String, FileFailure> {
    Ok(s.to_string())
}

fn event(kind: EventKind, path: &str) -> WatchEvent {
    WatchEvent { kind, paths: vec![path.to_string()] }
}

fn watching(initial: &str) -> (ReloadSession<toml::Table>, Settings) {
    let mut s = ReloadSession::new(FILE).unwrap();
    let c = Settings::default();
    s.initial_load(&c, load(text(initial))).unwrap();
    s.start_watching(Ok(())).unwrap();
    assert_eq!(s.phase(), Phase::Watching);
    (s, c)
}

#[test]
fn new_without_directory_fails_with_no_parent() {
    let r = ReloadSession::<toml::Table>::new("app.toml");
    assert!(matches!(r, Err(Error::NoParent)));
}

#[test]
fn new_starts_uninitialized() {
    let s = ReloadSession::<toml::Table>::new(FILE).unwrap();
    assert_eq!(s.phase(), Phase::Uninitialized);
    assert_eq!(s.target().dir(), "conf");
    assert_eq!(s.target().file(), FILE);
}

#[test]
fn missing_file_fails_initial_load_every_time() {
    for _ in 0..2 {
        let mut s = ReloadSession::<toml::Table>::new("missing/nowhere.toml").unwrap();
        let c = Settings::default();
        let loaded = load(Err(FileFailure::Open(OpenFailure::NotFound, "no such file".to_string())));
        let r = s.initial_load(&c, loaded);
        assert_eq!(r, Err(Error::NotFound("no such file".to_string())));
        assert_eq!(s.phase(), Phase::Uninitialized);
        assert_eq!(c.applies.load(Ordering::SeqCst), 0);
    }
}

#[test]
fn initial_load_applies_file_contents() {
    let mut s = ReloadSession::new(FILE).unwrap();
    let c = Settings::default();
    assert_eq!(c.value(), 0);
    assert_eq!(s.initial_load(&c, load(text("value = 7"))), Ok(()));
    assert_eq!(c.value(), 7);
    assert_eq!(s.phase(), Phase::Loaded);
}

#[test]
fn initial_load_parse_failure_is_returned() {
    let mut s = ReloadSession::new(FILE).unwrap();
    let c = Settings::default();
    let r = s.initial_load(&c, load(text("value = ")));
    assert!(matches!(r, Err(Error::Deserialize(_))));
    assert_eq!(s.phase(), Phase::Uninitialized);
    assert_eq!(c.applies.load(Ordering::SeqCst), 0);
}

#[test]
fn initial_load_apply_failure_is_returned() {
    let mut s = ReloadSession::new(FILE).unwrap();
    let c = Settings::default();
    let r = s.initial_load(&c, load(text("other = 1")));
    assert_eq!(r, Err(Error::Apply("value is missing".to_string())));
    assert_eq!(s.phase(), Phase::Uninitialized);
}

#[test]
fn watch_registration_failure_is_notify() {
    let mut s = ReloadSession::new(FILE).unwrap();
    let c = Settings::default();
    s.initial_load(&c, load(text("value = 1"))).unwrap();
    assert_eq!(s.start_watching(Err("no dir".to_string())), Err(Error::Notify("no dir".to_string())));
    assert_eq!(s.phase(), Phase::Loaded);
}

#[test]
fn bad_reload_keeps_previous_value() {
    let (mut s, c) = watching("value = 3");
    let r = s.on_event(&c, &event(EventKind::Modify, FILE), || load(text("value = [")));
    assert!(matches!(r, Reaction::Failed(Error::Deserialize(_))));
    assert_eq!(c.value(), 3);
    let r = s.on_event(&c, &event(EventKind::Modify, FILE), || load(text("value = -1")));
    assert_eq!(r, Reaction::Failed(Error::Apply("value must not be negative".to_string())));
    assert_eq!(c.value(), 3);
    assert_eq!(s.phase(), Phase::Watching);
}

#[test]
fn vanished_file_reload_keeps_previous_value() {
    let (mut s, c) = watching("value = 3");
    let r = s.on_event(&c, &event(EventKind::Create, FILE), || {
        load(Err(FileFailure::Open(OpenFailure::NotFound, "gone".to_string())))
    });
    assert_eq!(r, Reaction::Failed(Error::NotFound("gone".to_string())));
    assert_eq!(c.value(), 3);
}

#[test]
fn good_reload_takes_effect() {
    let (mut s, c) = watching("value = 3");
    let r = s.on_event(&c, &event(EventKind::Create, FILE), || load(text("value = 9")));
    assert_eq!(r, Reaction::Reloaded);
    assert_eq!(c.value(), 9);
}

#[test]
fn irrelevant_events_call_nothing() {
    let (mut s, c) = watching("value = 3");
    let loads = Cell::new(0usize);
    let before = c.applies.load(Ordering::SeqCst);
    let cases = vec![
        event(EventKind::Modify, "conf/other.toml"),
        event(EventKind::Remove, FILE),
        event(EventKind::Access, FILE),
        WatchEvent { kind: EventKind::Modify, paths: vec![FILE.to_string(), FILE.to_string()] },
    ];
    for e in &cases {
        let r = s.on_event(&c, e, || {
            loads.set(loads.get() + 1);
            load(text("value = 5"))
        });
        assert_eq!(r, Reaction::Ignored);
    }
    assert_eq!(loads.get(), 0);
    assert_eq!(c.applies.load(Ordering::SeqCst), before);
    assert_eq!(c.value(), 3);
}

#[test]
fn events_before_watching_are_ignored() {
    let mut s = ReloadSession::new(FILE).unwrap();
    let c = Settings::default();
    s.initial_load(&c, load(text("value = 1"))).unwrap();
    assert!(!s.wants_reload(&event(EventKind::Modify, FILE)));
    let r = s.on_event(&c, &event(EventKind::Modify, FILE), || load(text("value = 2")));
    assert_eq!(r, Reaction::Ignored);
    assert_eq!(c.value(), 1);
}

#[test]
fn back_to_back_events_apply_one_at_a_time() {
    let (mut s, c) = watching("value = 1");
    let before = c.applies.load(Ordering::SeqCst);
    let e = event(EventKind::Modify, FILE);
    assert_eq!(s.on_event(&c, &e, || load(text("value = 2"))), Reaction::Reloaded);
    assert_eq!(s.on_event(&c, &e, || load(text("value = 3"))), Reaction::Reloaded);
    assert_eq!(c.applies.load(Ordering::SeqCst), before + 2);
    assert_eq!(c.overlaps.load(Ordering::SeqCst), 0);
    assert_eq!(c.value(), 3);
}

#[test]
fn value_follows_file_through_edits() {
    let mut s = ReloadSession::new(FILE).unwrap();
    let c = Settings::default();
    s.initial_load(&c, load(text("value = 1"))).unwrap();
    s.start_watching(Ok(())).unwrap();
    assert_eq!(c.value(), 1);
    let e = event(EventKind::Modify, FILE);
    s.on_event(&c, &e, || load(text("value = 2")));
    assert_eq!(c.value(), 2);
    let r = s.on_event(&c, &e, || load(text("value = ")));
    assert!(matches!(r, Reaction::Failed(Error::Deserialize(_))));
    assert_eq!(c.value(), 2);
}

#[test]
fn reload_directly_while_watching() {
    let (mut s, c) = watching("value = 1");
    assert_eq!(s.reload(&c, load(text("value = 4"))), Ok(()));
    assert_eq!(c.value(), 4);
    assert!(matches!(s.reload(&c, load(text("="))), Err(Error::Deserialize(_))));
    assert_eq!(c.value(), 4);
}
