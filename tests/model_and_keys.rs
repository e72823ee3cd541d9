use criner::dump::{into_actors_by_id, ActorRow};
use criner::keyed::Keyed;
use criner::model::{ChangeKind, Context, Crate, CrateVersion, Task, TaskResult, TaskState, TarHeader};
use criner::time::{day_of, Elapsed, Timestamp};

fn ts(secs: u64) -> Timestamp {
    Timestamp { since_epoch: Elapsed { secs, nanos: 0 } }
}

fn task(process: &str, version: &str, state: TaskState) -> Task {
    Task { stored_at: ts(10), process: process.to_string(), version: version.to_string(), state }
}

fn errs(v: &[&str]) -> Vec<String> {
    v.iter().map(|s| s.to_string()).collect()
}

fn failures(s: &TaskState) -> Option<Vec<String>> {
    match s {
        TaskState::AttemptsWithFailure(e) => Some(e.clone()),
        _ => None,
    }
}

fn version(name: &str, v: &str) -> CrateVersion {
    CrateVersion {
        name: name.to_string(),
        kind: ChangeKind::Added,
        version: v.to_string(),
        checksum: "abc".to_string(),
        features: std::collections::HashMap::new(),
        dependencies: vec![],
    }
}

#[test]
fn merge_failures_accumulate() {
    let mut s = TaskState::AttemptsWithFailure(errs(&["a"]));
    s.merge_with(&TaskState::AttemptsWithFailure(errs(&["b", "c"])));
    assert_eq!(failures(&s), Some(errs(&["a", "b", "c"])));
}

#[test]
fn merge_retry_carries_failures() {
    let mut s = TaskState::AttemptsWithFailure(errs(&["a"]));
    s.merge_with(&TaskState::InProgress(None));
    match s {
        TaskState::InProgress(Some(e)) => assert_eq!(e, errs(&["a"])),
        other => panic!("unexpected {:?}", other),
    }
}

#[test]
fn merge_running_with_failures_then_failure() {
    let mut s = TaskState::InProgress(Some(errs(&["a"])));
    s.merge_with(&TaskState::AttemptsWithFailure(errs(&["b"])));
    assert_eq!(failures(&s), Some(errs(&["a", "b"])));
}

#[test]
fn merge_otherwise_replaces() {
    let mut s = TaskState::NotStarted;
    s.merge_with(&TaskState::AttemptsWithFailure(errs(&["x"])));
    assert_eq!(failures(&s), Some(errs(&["x"])));
    let mut s = TaskState::InProgress(None);
    s.merge_with(&TaskState::AttemptsWithFailure(errs(&["y"])));
    assert_eq!(failures(&s), Some(errs(&["y"])));
    let mut s = TaskState::AttemptsWithFailure(errs(&["a"]));
    s.merge_with(&TaskState::Complete);
    assert!(s.is_complete());
}

#[test]
fn merge_is_associative_on_failures() {
    let (a, b, c) = (errs(&["a"]), errs(&["b"]), errs(&["c", "d"]));
    let mut left = TaskState::AttemptsWithFailure(a.clone());
    left.merge_with(&TaskState::AttemptsWithFailure(b.clone()));
    left.merge_with(&TaskState::AttemptsWithFailure(c.clone()));
    let mut bc = TaskState::AttemptsWithFailure(b);
    bc.merge_with(&TaskState::AttemptsWithFailure(c));
    let mut right = TaskState::AttemptsWithFailure(a);
    right.merge_with(&bc);
    assert_eq!(failures(&left), failures(&right));
    assert_eq!(failures(&left), Some(errs(&["a", "b", "c", "d"])));
}

#[test]
fn merge_complete_is_idempotent() {
    let mut s = TaskState::InProgress(Some(errs(&["e"])));
    s.merge_with(&TaskState::Complete);
    s.merge_with(&TaskState::Complete);
    assert!(s.is_complete());
}

#[test]
fn defaults() {
    assert!(matches!(TaskState::default(), TaskState::NotStarted));
    assert!(matches!(TaskResult::default(), TaskResult::Empty));
    let t = Task::default();
    assert!(t.process.is_empty() && t.version.is_empty());
    assert!(matches!(t.state, TaskState::NotStarted));
}

#[test]
fn crate_from_version_holds_it_alone() {
    let c = Crate::from_version(&version("a", "0.1.0"));
    assert_eq!(c.versions, vec!["0.1.0".to_string()]);
}

#[test]
fn context_add_is_componentwise() {
    let mut a = Context::empty();
    a.counts.crates = 2;
    a.counts.crate_versions = 3;
    a.durations.fetch_crate_versions = Elapsed { secs: 1, nanos: 600_000_000 };
    let mut b = Context::empty();
    b.counts.crates = 1;
    b.counts.crate_versions = 4;
    b.durations.fetch_crate_versions = Elapsed { secs: 2, nanos: 500_000_000 };
    let c = a.add(&b);
    assert_eq!(c.counts.crates, 3);
    assert_eq!(c.counts.crate_versions, 7);
    assert_eq!(c.durations.fetch_crate_versions, Elapsed { secs: 4, nanos: 100_000_000 });
}

#[test]
fn task_keys() {
    let t = task("download", "1.0.0", TaskState::NotStarted);
    assert_eq!(t.key(), "download:1.0.0");
    let mut buf = String::new();
    t.fq_key("a", "0.1.0", &mut buf);
    assert_eq!(buf, "a:0.1.0:download:1.0.0");
}

#[test]
fn download_result_key_appends_kind() {
    let t = task("download", "1.0.0", TaskState::Complete);
    let r = TaskResult::Download {
        kind: "crate".to_string(),
        url: "https://example.com/a".to_string(),
        content_length: 12,
        content_type: None,
    };
    let mut buf = String::new();
    r.fq_key("a", "0.1.0", &t, &mut buf);
    assert_eq!(buf, "a:0.1.0:download:1.0.0:crate");
    let mut owner = String::new();
    t.fq_key("a", "0.1.0", &mut owner);
    assert_eq!(buf, format!("{}:crate", owner));
}

#[test]
fn other_results_share_the_task_key() {
    let t = task("extract", "1", TaskState::Complete);
    let r = TaskResult::ExplodedCrate {
        entries_meta_data: vec![TarHeader { path: b"a/Cargo.toml".to_vec(), size: 3, entry_type: 48 }],
        selected_entries: vec![],
    };
    let mut buf = String::new();
    r.fq_key("a", "0.1.0", &t, &mut buf);
    assert_eq!(buf, "a:0.1.0:extract:1");
    assert_eq!(TaskResult::Empty.key(), "");
}

#[test]
fn crate_and_version_keys() {
    let v = version("serde", "1.0.0");
    assert_eq!(v.key(), "serde:1.0.0");
    let mut buf = String::from("x");
    Crate::key_from_version_buf(&v, &mut buf);
    assert_eq!(buf, "xserde");
    let mut buf = String::new();
    CrateVersion::key_from("a", "b", &mut buf);
    assert_eq!(buf, "a:b");
}

#[test]
fn context_keys() {
    let mut buf = String::new();
    Context::key_for_day("2020-03-04", &mut buf);
    assert_eq!(buf, "context/2020-03-04");
    let mut today = String::new();
    assert!(Context::empty().key_buf(&mut today));
    assert!(today.starts_with("context/20"));
    assert_eq!(today.len(), "context/YYYY-MM-DD".len());
}

#[test]
fn day_of_formats_utc_dates() {
    assert_eq!(day_of(ts(0)), Some("1970-01-01".to_string()));
    assert_eq!(day_of(ts(1_583_366_400 + 3600)), Some("2020-03-05".to_string()));
    assert_eq!(day_of(ts(253_402_300_800)), None);
}

#[test]
fn context_key_for_an_instant() {
    let mut buf = String::from("x");
    assert!(Context::empty().key_buf_at(ts(86_400 * 365), &mut buf));
    assert_eq!(buf, "xcontext/1971-01-01");
    assert!(!Context::empty().key_buf_at(ts(253_402_300_800), &mut buf));
    assert_eq!(buf, "xcontext/1971-01-01");
}

#[test]
fn actor_keys_are_unique() {
    let row = |id: u32| ActorRow { id, github_avatar_url: String::new(), github_id: 1, github_login: "l".into(), name: Some("n".into()) };
    let actors = into_actors_by_id(&vec![row(1), row(2)], &vec![row(1), row(2)]);
    let mut keys: Vec<(u32, bool)> = actors.iter().map(|a| (a.crates_io_id, a.kind == criner::dump::ActorKind::User)).collect();
    keys.sort();
    keys.dedup();
    assert_eq!(keys.len(), 4);
    assert_eq!(actors[2].name.as_deref(), Some("n"));
}
