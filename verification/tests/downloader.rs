use tarball_fetcher::dispatch::{eligible_records, first_failure, summarize_batch};
use tarball_fetcher::fetch::FetchError;
use tarball_fetcher::records::{Engines, Package, PackageLock};
use tarball_fetcher::task::{
    conclude_fetch, conclude_write, decide_fetch_need, plan_target, resolve_create_outcome,
    run_task_decisions, CreateDirOutcome, FetchNeed, TaskEnv, TaskError, TaskOutcome,
};

fn record(version: &str, resolved: Option<&str>) -> Package {
    Package {
        name: None,
        version: String::from(version),
        license: None,
        dependencies: None,
        dev_dependencies: None,
        resolved: resolved.map(String::from),
        integrity: None,
        dev: None,
        peer_dependencies: None,
        optional_dependencies: None,
        peer: None,
    }
}

#[test]
fn plan_builds_target_from_record() {
    let rec = record("2.1.0", Some("https://registry.example/simple-2.1.0.tgz"));
    let target = plan_target("node_modules/simple", &rec).unwrap_or_else(|_| {
        panic!("a record with a marker and a resolved URL must yield a target")
    });
    assert_eq!(target.file_name, String::from("simple-2.1.0.tgz"));
    assert_eq!(target.url, String::from("https://registry.example/simple-2.1.0.tgz"));
}

#[test]
fn plan_rejects_missing_url() {
    let rec = record("1.0.0", None);
    let result = plan_target("node_modules/simple", &rec);
    assert!(matches!(result, Err(TaskError::MissingUrl)));
}

#[test]
fn plan_rejects_malformed_path_key() {
    let rec = record("1.0.0", Some("https://registry.example/a.tgz"));
    let result = plan_target("not/an/install/path", &rec);
    assert!(matches!(result, Err(TaskError::MalformedPathKey)));
}

#[test]
fn task_rerun_fetches_exactly_once() {
    let mut fetches: u32 = 0;
    let mut file_exists = false;

    for _run in 0..2 {
        match decide_fetch_need(file_exists) {
            FetchNeed::FetchRequired => {
                fetches += 1;
                let fetched: Result<Vec<u8>, FetchError> = Ok(vec![0u8, 1, 2]);
                let body = conclude_fetch(fetched).unwrap_or_else(|_| {
                    panic!("a successful fetch must hand the body on")
                });
                assert_eq!(body, vec![0u8, 1, 2]);
                file_exists = true;
                let outcome = conclude_write(Ok(()));
                assert!(matches!(outcome, TaskOutcome::Completed));
            }
            FetchNeed::SkipCompleted => {}
        }
    }
    assert_eq!(fetches, 1);
}

fn env(dir_exists: bool, file_exists: bool) -> TaskEnv {
    TaskEnv {
        dir_exists,
        create_outcome: CreateDirOutcome::AlreadyExists,
        file_exists,
        fetch_result: Ok(vec![5u8, 6, 7]),
        write_result: Ok(()),
    }
}

#[test]
fn whole_task_fetches_once_then_skips() {
    let rec = record("1.0.0", Some("https://registry.example/simple-1.0.0.tgz"));

    let (first, first_fetches) = run_task_decisions("node_modules/simple", &rec, env(false, false));
    assert!(matches!(first, TaskOutcome::Completed));
    assert_eq!(first_fetches, 1);

    let (second, second_fetches) = run_task_decisions("node_modules/simple", &rec, env(true, true));
    assert!(matches!(second, TaskOutcome::Completed));
    assert_eq!(second_fetches, 0);
}

#[test]
fn whole_task_without_url_fails_and_never_fetches() {
    let rec = record("1.0.0", None);
    let (outcome, fetches) = run_task_decisions("node_modules/simple", &rec, env(true, false));
    assert!(matches!(outcome, TaskOutcome::Failed(TaskError::MissingUrl)));
    assert_eq!(fetches, 0);
}

#[test]
fn whole_task_with_exhausted_fetch_fails() {
    let rec = record("1.0.0", Some("https://registry.example/simple-1.0.0.tgz"));
    let observed = TaskEnv {
        dir_exists: true,
        create_outcome: CreateDirOutcome::AlreadyExists,
        file_exists: false,
        fetch_result: Err(FetchError::FetchExhausted(String::from("every attempt failed"))),
        write_result: Ok(()),
    };
    let (outcome, fetches) = run_task_decisions("node_modules/simple", &rec, observed);
    assert!(matches!(outcome, TaskOutcome::Failed(TaskError::FetchFailed(_))));
    assert_eq!(fetches, 1);
}

#[test]
fn fetch_failure_is_fatal_to_the_task() {
    let failed: Result<Vec<u8>, FetchError> =
        Err(FetchError::FetchExhausted(String::from("every attempt failed")));
    let result = conclude_fetch(failed);
    assert!(matches!(result, Err(TaskError::FetchFailed(_))));
}

#[test]
fn write_failure_is_fatal_to_the_task() {
    let outcome = conclude_write(Err(String::from("disk full")));
    assert!(matches!(outcome, TaskOutcome::Failed(TaskError::WriteFailed(_))));
}

#[test]
fn concurrent_directory_creation_is_benign() {
    let winner = resolve_create_outcome(CreateDirOutcome::Created);
    assert!(winner.is_ok());
    for _task in 0..8 {
        let loser = resolve_create_outcome(CreateDirOutcome::AlreadyExists);
        assert!(loser.is_ok());
    }
}

#[test]
fn genuine_directory_failure_is_fatal() {
    let result = resolve_create_outcome(CreateDirOutcome::Failed(String::from("permission denied")));
    assert!(matches!(result, Err(TaskError::DirCreateFailed(_))));
}

#[test]
fn root_only_collection_spawns_nothing() {
    let entries = vec![(String::new(), record("1.0.0", None))];
    let eligible = eligible_records(entries);
    assert_eq!(eligible.len(), 0);
}

#[test]
fn root_record_is_skipped_and_others_kept_in_order() {
    let entries = vec![
        (String::from("node_modules/a"), record("1.0.0", Some("https://registry.example/a.tgz"))),
        (String::new(), record("0.0.1", None)),
        (String::from("node_modules/b"), record("2.0.0", Some("https://registry.example/b.tgz"))),
    ];
    let eligible = eligible_records(entries);
    assert_eq!(eligible.len(), 2);
    assert_eq!(eligible[0].0, String::from("node_modules/a"));
    assert_eq!(eligible[1].0, String::from("node_modules/b"));
}

#[test]
fn one_missing_url_fails_the_batch() {
    let keys = ["node_modules/a", "node_modules/b", "node_modules/c"];
    let mut outcomes = Vec::new();
    for key in keys {
        let rec = if key == "node_modules/b" {
            record("1.0.0", None)
        } else {
            record("1.0.0", Some("https://registry.example/pkg.tgz"))
        };
        match plan_target(key, &rec) {
            Ok(_) => outcomes.push(TaskOutcome::Completed),
            Err(e) => outcomes.push(TaskOutcome::Failed(e)),
        }
    }
    let outcome = summarize_batch(&outcomes, 42);
    match outcome {
        Err(i) => assert_eq!(i, 1),
        Ok(_) => panic!("a batch with a fatally failed task must not succeed"),
    }
}

#[test]
fn all_completed_batch_reports_run_result() {
    let outcomes = vec![TaskOutcome::Completed, TaskOutcome::Completed];
    let outcome = summarize_batch(&outcomes, 1_000_000);
    match outcome {
        Ok(res) => {
            assert_eq!(res.tasks_spawned, 2);
            assert_eq!(res.elapsed_nanos, 1_000_000);
        }
        Err(_) => panic!("a batch of completed tasks must succeed"),
    }
}

#[test]
fn empty_batch_succeeds_with_zero_tasks() {
    let outcomes: Vec<TaskOutcome> = Vec::new();
    assert_eq!(first_failure(&outcomes), None);
    match summarize_batch(&outcomes, 7) {
        Ok(res) => assert_eq!(res.tasks_spawned, 0),
        Err(_) => panic!("an empty batch must succeed"),
    }
}

#[test]
fn lockfile_records_hold_their_fields() {
    let lock = PackageLock {
        name: String::from("demo"),
        version: String::from("1.0.0"),
        lockfile_version: 3,
        requires_flag: true,
        packages: vec![
            (String::new(), record("1.0.0", None)),
            (
                String::from("node_modules/simple"),
                record("1.0.0", Some("https://registry.example/simple-1.0.0.tgz")),
            ),
        ],
    };
    assert_eq!(lock.lockfile_version, 3);
    assert!(lock.requires_flag);
    assert_eq!(lock.packages.len(), 2);
    assert_eq!(lock.packages[1].1.version, String::from("1.0.0"));

    let engines = Engines { node: String::from(">=14"), npm: None, iojs: None };
    assert_eq!(engines.node, String::from(">=14"));
    assert_eq!(engines.npm, None);
}
