use criner::version::{identifier_compare, pre_release, text_compare, version_precedence, version_precedes_or_ties, Precedence};
use criner::report::{after_send, copy_request};
use criner::changes::{tally_changes, upsert_crate, ChangeTally};
use criner::dump::{
    check_actor_tables, dump_file_name, dump_should_run, dump_task_key, into_actors_by_id,
    whitelisted_table, ActorKind, ActorRow, DownloadRequest, DumpTable, TableLayout, DB_DUMP_URL,
};
use criner::error::Error;
use criner::export::split_key;
use criner::ledger::{claim, complete, fail, retry_after_failure, ClaimOutcome};
use criner::model::{ChangeKind, Context, Crate, CrateVersion, Task, TaskState};
use criner::report::{
    chunk_size, not_available, plan_chunks, repo_bare, repo_with_working_dir, ChunkCursor,
    WriteInstruction, WritePolicy, WriteRequest,
};
use criner::time::{check, Elapsed, Timestamp};

fn ts(secs: u64) -> Timestamp {
    Timestamp { since_epoch: Elapsed { secs, nanos: 0 } }
}

fn version(name: &str, v: &str) -> CrateVersion {
    CrateVersion {
        name: name.to_string(),
        kind: ChangeKind::Added,
        version: v.to_string(),
        checksum: String::new(),
        features: [("default".to_string(), vec!["std".to_string()])].into_iter().collect(),
        dependencies: vec![],
    }
}

fn task_in(state: TaskState, stored: u64) -> Task {
    Task { stored_at: ts(stored), process: "download".into(), version: "1".into(), state }
}

#[test]
fn versions_sorted_by_precedence() {
    let mut c = Crate::from_version(&version("a", "0.2.0"));
    for v in ["0.10.0", "0.1.0", "1.0.0", "1.0.0-alpha", "0.2.0", "0.9.1+build"] {
        c.merge_version(v);
    }
    assert_eq!(c.versions, vec!["0.1.0", "0.2.0", "0.9.1+build", "0.10.0", "1.0.0-alpha", "1.0.0"]);
}

#[test]
fn precedence_reads_numbers() {
    assert_eq!(
        version_precedence("1.22.333-rc.1"),
        Precedence { major: 1, minor: 22, patch: 333, release: false }
    );
    assert_eq!(version_precedence("4.5.6+7"), Precedence { major: 4, minor: 5, patch: 6, release: true });
}

// A first run, an incremental run, and a re-run of the same changes.
#[test]
fn index_runs_update_crates_and_context() {
    let mut day = Context::empty();
    let a = upsert_crate(None, &version("a", "0.1.0"));
    let b = upsert_crate(None, &version("b", "0.1.0"));
    let first = tally_changes(&vec![a.versions.len(), b.versions.len()]);
    day.record_fetch(first, Elapsed { secs: 1, nanos: 0 });
    assert_eq!((day.counts.crates, day.counts.crate_versions), (2, 2));

    let a2 = upsert_crate(Some(a.clone()), &version("a", "0.2.0"));
    assert_eq!(a2.versions, vec!["0.1.0", "0.2.0"]);
    let second = tally_changes(&vec![a2.versions.len()]);
    day.record_fetch(second, Elapsed { secs: 0, nanos: 5 });
    assert_eq!((day.counts.crates, day.counts.crate_versions), (2, 3));

    let again = upsert_crate(Some(a2.clone()), &version("a", "0.2.0"));
    assert_eq!(again.versions, a2.versions);

    let before = day;
    day.record_fetch(tally_changes(&vec![]), Elapsed { secs: 0, nanos: 0 });
    assert_eq!(day.counts, before.counts);
}

#[test]
fn tally_counts_first_seen_crates() {
    let mut t = ChangeTally::new();
    t.record(1);
    t.record(3);
    assert_eq!(t, ChangeTally { new_crate_versions: 2, new_crates: 1 });
    assert_eq!(tally_changes(&vec![1, 2, 1, 1]), ChangeTally { new_crate_versions: 4, new_crates: 3 });
}

// Two timeouts, then success.
#[test]
fn transient_failures_then_complete() {
    let startup = ts(100);
    let (o, row) = claim(None, "download", "1", ts(101), startup, 5);
    assert_eq!(o, ClaimOutcome::Proceed);
    let mut t = row.unwrap();
    assert!(matches!(t.state, TaskState::InProgress(None)));
    fail(&mut t, "timeout".into(), ts(102));
    assert!(matches!(&t.state, TaskState::AttemptsWithFailure(e) if e.len() == 1));
    assert!(retry_after_failure(0, 5, true));
    let (o, row) = claim(Some(&t), "download", "1", ts(103), startup, 5);
    assert_eq!(o, ClaimOutcome::Proceed);
    let mut t = row.unwrap();
    assert!(matches!(&t.state, TaskState::InProgress(Some(e)) if e.len() == 1));
    fail(&mut t, "timeout".into(), ts(104));
    assert!(matches!(&t.state, TaskState::AttemptsWithFailure(e) if e.len() == 2));
    let (_, row) = claim(Some(&t), "download", "1", ts(105), startup, 5);
    let mut t = row.unwrap();
    complete(&mut t, ts(106));
    assert!(t.state.is_complete());
    assert_eq!(t.stored_at, ts(106));
    let (o, row) = claim(Some(&t), "download", "1", ts(107), startup, 5);
    assert_eq!(o, ClaimOutcome::Skip);
    assert!(row.is_none());
}

// A run left behind by an earlier process is taken over, a live one is not.
#[test]
fn in_progress_across_restart() {
    let startup = ts(100);
    let dead = task_in(TaskState::InProgress(None), 50);
    let (o, row) = claim(Some(&dead), "download", "1", ts(120), startup, 5);
    assert_eq!(o, ClaimOutcome::Proceed);
    assert_eq!(row.unwrap().stored_at, ts(120));
    let live = task_in(TaskState::InProgress(None), 150);
    assert_eq!(claim(Some(&live), "download", "1", ts(160), startup, 5).0, ClaimOutcome::Skip);
}

#[test]
fn retries_are_bounded() {
    let t = task_in(TaskState::AttemptsWithFailure(vec!["a".into(), "b".into()]), 1);
    assert_eq!(claim(Some(&t), "p", "1", ts(2), ts(0), 2).0, ClaimOutcome::Skip);
    assert_eq!(claim(Some(&t), "p", "1", ts(2), ts(0), 3).0, ClaimOutcome::Proceed);
    assert!(!retry_after_failure(5, 5, true));
    assert!(!retry_after_failure(0, 5, false));
}

#[test]
fn can_be_started_rules() {
    let startup = ts(100);
    assert!(task_in(TaskState::NotStarted, 200).can_be_started(startup));
    assert!(task_in(TaskState::AttemptsWithFailure(vec![]), 200).can_be_started(startup));
    assert!(!task_in(TaskState::Complete, 1).can_be_started(startup));
    assert!(task_in(TaskState::InProgress(None), 99).can_be_started(startup));
    assert!(!task_in(TaskState::InProgress(None), 100).can_be_started(startup));
}

#[test]
fn deadline_check() {
    assert_eq!(check(None, ts(5)), Ok(()));
    assert_eq!(check(Some(ts(6)), ts(5)), Ok(()));
    assert_eq!(check(Some(ts(5)), ts(5)), Err(Error::DeadlineExceeded));
}

fn req() -> WriteRequest {
    WriteRequest { path: "a/b.html".into(), content: b"hi".to_vec() }
}

#[test]
fn write_policies() {
    assert_eq!(WritePolicy::select(None), WritePolicy::NotAvailable);
    assert_eq!(WritePolicy::select(Some(true)), WritePolicy::RepoBare);
    assert_eq!(WritePolicy::select(Some(false)), WritePolicy::RepoWithWorkingDir);
    assert_eq!(not_available(req(), &None), Ok(WriteInstruction::DoWrite(req())));

    let (tx, rx) = flume::bounded(4);
    let state = Some(tx);
    assert_eq!(repo_with_working_dir(req(), &state), Ok(WriteInstruction::DoWrite(req())));
    assert_eq!(repo_bare(req(), &state), Ok(WriteInstruction::Skip));
    assert_eq!(WritePolicy::RepoBare.dispatch(req(), &state), Ok(WriteInstruction::Skip));
    assert_eq!(rx.try_iter().count(), 3);
    drop(rx);
    assert_eq!(repo_bare(req(), &state), Err(Error::GitChannelClosed));
    assert_eq!(repo_with_working_dir(req(), &state), Err(Error::GitChannelClosed));
}

// 1237 crates in chunks of 500.
#[test]
fn report_pagination() {
    assert_eq!(chunk_size(1237), 500);
    assert_eq!(chunk_size(12), 12);
    let plan = plan_chunks(1237);
    assert_eq!(plan, vec![500, 500, 237]);
    assert_eq!(plan.iter().sum::<u32>(), 1237);
    assert_eq!(plan_chunks(1000), vec![500, 500, 0]);
    assert_eq!(plan_chunks(0), vec![0]);
    assert_eq!(plan_chunks(7), vec![7, 0]);
    let mut c = ChunkCursor::new(500);
    assert!(!c.after_chunk(500));
    assert!(c.after_chunk(237));
    assert_eq!(c.fetched, 737);
}

#[test]
fn dump_entries() {
    assert_eq!(whitelisted_table("2020-01-01-020002/data/users.csv"), Some(DumpTable::Users));
    assert_eq!(whitelisted_table("teams.csv"), Some(DumpTable::Teams));
    assert_eq!(whitelisted_table("d/data/crates_keywords.csv"), Some(DumpTable::CratesKeywords));
    assert_eq!(whitelisted_table("d/data/badges.csv"), None);
    assert_eq!(whitelisted_table("d/data/myusers.csv"), None);
    assert_eq!(whitelisted_table("d/users.csv/"), None);
    assert_eq!(whitelisted_table("d/users.json"), None);
    assert_eq!(DumpTable::CrateOwners.name(), "crate_owners");
    assert_eq!(DumpTable::CrateOwners.layout(), TableLayout::Sequence);
    assert_eq!(DumpTable::Users.layout(), TableLayout::Mapping);
}

#[test]
fn actor_tables_required() {
    assert_eq!(check_actor_tables(true, true), Ok(()));
    assert_eq!(check_actor_tables(false, true), Err(Error::MissingDumpTable(DumpTable::Users)));
    assert_eq!(check_actor_tables(true, false), Err(Error::MissingDumpTable(DumpTable::Teams)));
}

fn row(id: u32, login: &str) -> ActorRow {
    ActorRow { id, github_avatar_url: "u".into(), github_id: 7, github_login: login.into(), name: None }
}

#[test]
fn actors_from_users_and_teams() {
    let actors = into_actors_by_id(&vec![row(1, "alice"), row(2, "bob")], &vec![row(1, "team")]);
    assert_eq!(actors.len(), 3);
    assert_eq!((actors[0].crates_io_id, actors[0].kind), (1, ActorKind::User));
    assert_eq!(actors[1].github_login, "bob");
    assert_eq!((actors[2].crates_io_id, actors[2].kind), (1, ActorKind::Team));
}

#[test]
fn dump_task_and_file() {
    assert_eq!(dump_task_key("2020-01-02"), "crates-io-db-dump:2020-01-02");
    assert_eq!(dump_file_name("2020-01-02"), "2020-01-02-crates-io-db-dump.tar.gz");
    let r = DownloadRequest::for_db_dump("x/y.tar.gz".into(), "2020-01-02");
    assert_eq!(r.url, DB_DUMP_URL);
    assert_eq!(r.kind, "tar.gz");
    assert_eq!(r.task_key, "crates-io-db-dump:2020-01-02");
    let startup = ts(100);
    assert!(dump_should_run(None, startup));
    assert!(dump_should_run(Some(&task_in(TaskState::Complete, 5)), startup));
    assert!(!dump_should_run(Some(&task_in(TaskState::InProgress(None), 150)), startup));
}

#[test]
fn task_export_rows() {
    let t = Task {
        stored_at: ts(4_294_967_296 + 9),
        process: "download".into(),
        version: "1".into(),
        state: TaskState::AttemptsWithFailure(vec!["e1".into(), "e2".into()]),
    };
    let (row, errors) = t.sql_rows("a:0.1.0:download:1", 3, true).unwrap();
    assert_eq!((row.id, row.crate_name.as_str(), row.crate_version.as_str()), (3, "a", "0.1.0"));
    assert_eq!(row.stored_at, 9);
    assert_eq!(row.state, "AttemptsWithFailure");
    assert_eq!(errors, vec!["e1".to_string(), "e2".to_string()]);
    assert_eq!(t.sql_rows("a:0.1.0:download:1", 3, false), Err(Error::MissingSecondaryStatement));
    assert_eq!(t.sql_rows("a:0.1.0:download", 3, true), Err(Error::MalformedTaskKey));
    let done = task_in(TaskState::Complete, 1);
    let (row, errors) = done.sql_rows("b:2:x:y", 4, false).unwrap();
    assert_eq!(row.state, "Complete");
    assert!(errors.is_empty());
    assert_eq!(split_key("a::b"), vec!["a".to_string(), String::new(), "b".to_string()]);
}

#[test]
fn merged_crate_keeps_stored_versions() {
    let mut c = Crate::from_version(&version("a", "0.1.0"));
    c.merge_version("0.3.0");
    let merged = upsert_crate(Some(c), &version("a", "0.2.0"));
    assert_eq!(merged.versions, vec!["0.1.0", "0.2.0", "0.3.0"]);
    assert!(merged.is_ordered());
    let unordered = Crate { versions: vec!["0.2.0".into(), "0.1.0".into()] };
    assert!(!unordered.is_ordered());
    let duplicated = Crate { versions: vec!["0.1.0".into(), "0.1.0".into()] };
    assert!(!duplicated.is_ordered());
}

#[test]
fn send_result_decides_instruction() {
    assert_eq!(after_send(true, WriteInstruction::Skip), Ok(WriteInstruction::Skip));
    assert_eq!(after_send(false, WriteInstruction::DoWrite(req())), Err(Error::GitChannelClosed));
    assert_eq!(copy_request(&req()), req());
    let (tx, rx) = flume::bounded(1);
    assert_eq!(repo_with_working_dir(req(), &Some(tx)), Ok(WriteInstruction::DoWrite(req())));
    assert_eq!(rx.recv().unwrap(), req());
}

#[test]
fn durations_add_up_to_the_last_second() {
    let a = Elapsed { secs: u64::MAX - 1, nanos: 400_000_000 };
    let b = Elapsed { secs: 1, nanos: 500_000_000 };
    assert_eq!(a.add(b), Elapsed { secs: u64::MAX, nanos: 900_000_000 });
    let mut day = Context::empty();
    day.durations.fetch_crate_versions = a;
    day.record_fetch(ChangeTally::new(), b);
    assert_eq!(day.durations.fetch_crate_versions.secs, u64::MAX);
}

#[test]
fn pre_releases_in_semver_order() {
    let mut c = Crate::from_version(&version("a", "1.0.0"));
    for v in [
        "1.0.0-rc.1",
        "1.0.0-beta.11",
        "1.0.0-alpha.beta",
        "1.0.0-beta",
        "1.0.0-alpha",
        "1.0.0-beta.2",
        "1.0.0-alpha.1",
        "0.9.0",
    ] {
        c.merge_version(v);
    }
    assert_eq!(
        c.versions,
        vec![
            "0.9.0",
            "1.0.0-alpha",
            "1.0.0-alpha.1",
            "1.0.0-alpha.beta",
            "1.0.0-beta",
            "1.0.0-beta.2",
            "1.0.0-beta.11",
            "1.0.0-rc.1",
            "1.0.0",
        ]
    );
    assert!(c.is_ordered());
}

#[test]
fn numeric_pre_release_identifiers_compare_by_value() {
    let stored = upsert_crate(None, &version("z", "0.0.0-10"));
    let merged = upsert_crate(Some(stored), &version("z", "0.0.0-2"));
    assert_eq!(merged.versions, vec!["0.0.0-2", "0.0.0-10"]);
    assert!(version_precedes_or_ties("0.0.0-2", "0.0.0-10"));
    assert!(!version_precedes_or_ties("0.0.0-10", "0.0.0-2"));
    assert!(version_precedes_or_ties("1.0.0-1", "1.0.0-a"));
    assert!(version_precedes_or_ties("1.0.0+a", "1.0.0+b") && version_precedes_or_ties("1.0.0+b", "1.0.0+a"));
    assert_eq!(identifier_compare("10", "9"), 1);
    assert_eq!(identifier_compare("9", "alpha"), -1);
    assert_eq!(text_compare("alpha", "alpha"), 0);
    assert_eq!(text_compare("alpha", "beta"), -1);
    assert_eq!(text_compare("alpha.1", "alpha"), 1);
    assert_eq!(pre_release("1.2.3-rc.1+build.5"), "rc.1");
    assert_eq!(pre_release("1.2.3+build-5"), "");
    assert_eq!(pre_release("1.2.3"), "");
}
