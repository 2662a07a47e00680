//! The download task's decision logic: one run per non-root package
//! record. The task readies the output directory, derives the target
//! file name, resolves the download URL, short-circuits when the
//! target already exists, and otherwise has the fetcher's body
//! persisted. Every filesystem and network observation arrives from
//! outside; the functions here decide what each observation means.

use crate::fetch::FetchError;
use crate::naming::derive_package_name;
use crate::naming::spec_derived_name;
use crate::naming::spec_tarball_file_name;
use crate::naming::tarball_file_name;
use crate::records::Package;
use vstd::prelude::*;

verus! {

/// Why one download task failed. Every variant is fatal to its task
/// alone; none is retried beyond what the fetcher already does.
pub enum TaskError {
    /// The record's path key holds no installation-root marker.
    MalformedPathKey,
    /// The record carries no resolved download location.
    MissingUrl,
    /// Creating the output directory failed, and not because it
    /// already existed.
    DirCreateFailed(String),
    /// Every fetch attempt for the record's URL failed.
    FetchFailed(FetchError),
    /// Writing the fetched bytes to the target path failed.
    WriteFailed(String),
}

/// Terminal state of one download task.
pub enum TaskOutcome {
    Completed,
    Failed(TaskError),
}

/// What a directory-creation call observed.
pub enum CreateDirOutcome {
    /// The directory was created.
    Created,
    /// It already existed when creation was attempted.
    AlreadyExists,
    /// Creation failed for another reason, described in words.
    Failed(String),
}

/// What a task downloads and where it puts it: derived from the
/// record, never stored.
pub struct DownloadTarget {
    /// The archive file name under the output directory.
    pub file_name: String,
    /// The record's resolved download location.
    pub url: String,
}

/// The directory-readiness step: an existing directory is success,
/// whether it existed beforehand or appeared while the task ran; only
/// a genuine creation failure is fatal.
pub open spec fn spec_dir_step(dir_exists: bool, create_outcome: CreateDirOutcome) -> Result<
    (),
    TaskError,
> {
    if dir_exists {
        Ok(())
    } else {
        match create_outcome {
            CreateDirOutcome::Created => Ok(()),
            CreateDirOutcome::AlreadyExists => Ok(()),
            CreateDirOutcome::Failed(msg) => Err(TaskError::DirCreateFailed(msg)),
        }
    }
}

/// Resolves what a directory-creation call observed.
pub fn resolve_create_outcome(outcome: CreateDirOutcome) -> (r: Result<(), TaskError>)
    ensures
        r == spec_dir_step(false, outcome),
{
    match outcome {
        CreateDirOutcome::Created => Ok(()),
        CreateDirOutcome::AlreadyExists => Ok(()),
        CreateDirOutcome::Failed(msg) => Err(TaskError::DirCreateFailed(msg)),
    }
}

/// The target file name a record yields, or why it yields none: a key
/// without the marker is malformed, and a record without a resolved
/// location cannot be downloaded.
pub open spec fn spec_plan_result(
    key: Seq<char>,
    resolved: Option<String>,
    version: Seq<char>,
) -> Result<Seq<char>, TaskError> {
    match spec_derived_name(key) {
        None => Err(TaskError::MalformedPathKey),
        Some(name) => match resolved {
            None => Err(TaskError::MissingUrl),
            Some(_) => Ok(spec_tarball_file_name(name, version)),
        },
    }
}

/// Derives the download target for one record: the display name from
/// the path key, then the archive file name, then the resolved URL.
pub fn plan_target(path_key: &str, record: &Package) -> (r: Result<DownloadTarget, TaskError>)
    ensures
        match r {
            Ok(target) => {
                &&& spec_plan_result(path_key@, record.resolved, record.version@) == Ok::<
                    Seq<char>,
                    TaskError,
                >(target.file_name@)
                &&& record.resolved is Some
                &&& target.url@ == record.resolved->0@
            },
            Err(e) => spec_plan_result(path_key@, record.resolved, record.version@) == Err::<
                Seq<char>,
                TaskError,
            >(e),
        },
{
    match derive_package_name(path_key) {
        None => Err(TaskError::MalformedPathKey),
        Some(name) => match &record.resolved {
            None => Err(TaskError::MissingUrl),
            Some(url) => Ok(
                DownloadTarget {
                    file_name: tarball_file_name(name.as_str(), record.version.as_str()),
                    url: url.clone(),
                },
            ),
        },
    }
}

/// Whether the task must fetch, or is already complete.
pub enum FetchNeed {
    /// The target file exists: the idempotency short-circuit.
    SkipCompleted,
    /// The target file is absent: fetch and persist it.
    FetchRequired,
}

/// The idempotency decision over the target file's existence.
pub open spec fn spec_fetch_need(file_exists: bool) -> FetchNeed {
    if file_exists {
        FetchNeed::SkipCompleted
    } else {
        FetchNeed::FetchRequired
    }
}

/// How many network fetches a run with this need performs.
pub open spec fn spec_fetch_count(need: FetchNeed) -> int {
    match need {
        FetchNeed::SkipCompleted => 0,
        FetchNeed::FetchRequired => 1,
    }
}

/// Decides whether to fetch: a present target file completes the task
/// with no network call and no rewrite; an absent one requires the
/// fetch.
pub fn decide_fetch_need(file_exists: bool) -> (need: FetchNeed)
    ensures
        need == spec_fetch_need(file_exists),
{
    if file_exists {
        FetchNeed::SkipCompleted
    } else {
        FetchNeed::FetchRequired
    }
}

/// Concludes the fetch-and-persist step: a fetcher failure or a write
/// failure is fatal; a persisted body completes the task.
pub open spec fn spec_conclude(
    fetch_result: Result<Vec<u8>, FetchError>,
    write_result: Result<(), String>,
) -> TaskOutcome {
    match fetch_result {
        Err(e) => TaskOutcome::Failed(TaskError::FetchFailed(e)),
        Ok(_) => match write_result {
            Ok(_) => TaskOutcome::Completed,
            Err(msg) => TaskOutcome::Failed(TaskError::WriteFailed(msg)),
        },
    }
}

/// Turns the whole fetch's result into the bytes to persist, or into
/// the task's fatal error.
pub fn conclude_fetch(fetch_result: Result<Vec<u8>, FetchError>) -> (r: Result<Vec<u8>, TaskError>)
    ensures
        match fetch_result {
            Ok(body) => r == Ok::<Vec<u8>, TaskError>(body),
            Err(e) => r == Err::<Vec<u8>, TaskError>(TaskError::FetchFailed(e)),
        },
{
    match fetch_result {
        Ok(body) => Ok(body),
        Err(e) => Err(TaskError::FetchFailed(e)),
    }
}

/// Turns the persist step's result into the task's terminal state.
pub fn conclude_write(write_result: Result<(), String>) -> (outcome: TaskOutcome)
    ensures
        forall|body: Vec<u8>|
            outcome == spec_conclude(Ok::<Vec<u8>, FetchError>(body), write_result),
{
    match write_result {
        Ok(_) => TaskOutcome::Completed,
        Err(msg) => TaskOutcome::Failed(TaskError::WriteFailed(msg)),
    }
}

/// Everything outside the task's control that one run observes.
pub struct TaskEnv {
    /// The output directory existed before the task readied it.
    pub dir_exists: bool,
    /// What creating the directory observed; looked at only when it
    /// did not exist beforehand.
    pub create_outcome: CreateDirOutcome,
    /// The target file already existed.
    pub file_exists: bool,
    /// What the whole bounded-retry fetch returned; looked at only
    /// when a fetch was needed.
    pub fetch_result: Result<Vec<u8>, FetchError>,
    /// Whether persisting the body succeeded; an error is described in
    /// words.
    pub write_result: Result<(), String>,
}

/// One whole task run over a record and an environment: the steps'
/// decisions composed in order.
pub open spec fn spec_task_outcome(
    key: Seq<char>,
    resolved: Option<String>,
    version: Seq<char>,
    env: TaskEnv,
) -> TaskOutcome {
    match spec_dir_step(env.dir_exists, env.create_outcome) {
        Err(e) => TaskOutcome::Failed(e),
        Ok(_) => match spec_plan_result(key, resolved, version) {
            Err(e) => TaskOutcome::Failed(e),
            Ok(_) => match spec_fetch_need(env.file_exists) {
                FetchNeed::SkipCompleted => TaskOutcome::Completed,
                FetchNeed::FetchRequired => spec_conclude(env.fetch_result, env.write_result),
            },
        },
    }
}

/// How many network fetches that whole task run performs.
pub open spec fn spec_task_fetches(
    key: Seq<char>,
    resolved: Option<String>,
    version: Seq<char>,
    env: TaskEnv,
) -> int {
    if spec_dir_step(env.dir_exists, env.create_outcome) is Err {
        0
    } else if spec_plan_result(key, resolved, version) is Err {
        0
    } else {
        spec_fetch_count(spec_fetch_need(env.file_exists))
    }
}

/// One whole task run, decided over a record and everything its
/// environment observed: the terminal state, and how many network
/// fetches the run performed.
pub fn run_task_decisions(path_key: &str, record: &Package, env: TaskEnv) -> (r: (
    TaskOutcome,
    usize,
))
    ensures
        r.0 == spec_task_outcome(path_key@, record.resolved, record.version@, env),
        r.1 as int == spec_task_fetches(path_key@, record.resolved, record.version@, env),
{
    let TaskEnv { dir_exists, create_outcome, file_exists, fetch_result, write_result } = env;
    if !dir_exists {
        if let Err(e) = resolve_create_outcome(create_outcome) {
            return (TaskOutcome::Failed(e), 0);
        }
    }
    match plan_target(path_key, record) {
        Err(e) => (TaskOutcome::Failed(e), 0),
        Ok(_) => match decide_fetch_need(file_exists) {
            FetchNeed::SkipCompleted => (TaskOutcome::Completed, 0),
            FetchNeed::FetchRequired => match conclude_fetch(fetch_result) {
                Err(e) => (TaskOutcome::Failed(e), 1),
                Ok(_) => (conclude_write(write_result), 1),
            },
        },
    }
}

/// Idempotency: a fresh first run that completed fetched exactly once,
/// and a second run over the same record that observes the directory
/// and the file it left behind fetches nothing and completes again.
pub proof fn lemma_rerun_is_noop(
    key: Seq<char>,
    resolved: Option<String>,
    version: Seq<char>,
    env1: TaskEnv,
    env2: TaskEnv,
)
    requires
        spec_task_outcome(key, resolved, version, env1) is Completed,
        !env1.file_exists,
        env2.dir_exists,
        env2.file_exists,
    ensures
        spec_task_fetches(key, resolved, version, env1) == 1,
        spec_task_outcome(key, resolved, version, env2) is Completed,
        spec_task_fetches(key, resolved, version, env2) == 0,
{
}

/// A record without a resolved download location fails in every
/// environment: nothing the filesystem or the network observes can
/// complete its task, and no fetch is ever made for it.
pub proof fn lemma_missing_url_is_fatal(key: Seq<char>, version: Seq<char>, env: TaskEnv)
    ensures
        spec_task_outcome(key, None, version, env) is Failed,
        spec_task_fetches(key, None, version, env) == 0,
{
}

/// Concurrent directory creation is benign: a task whose creation
/// attempt finds the directory already made by a racing task succeeds
/// like the task that made it.
pub proof fn lemma_dir_race_benign(outcome: CreateDirOutcome)
    requires
        !(outcome is Failed),
    ensures
        spec_dir_step(false, outcome) is Ok,
{
}

} // verus!
