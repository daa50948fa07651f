//! The decisions of the job coordinator: what to start, with which arguments
//! and in which order, what to do once the worker has exited, and how long to
//! wait for the watcher before terminating it.
use vstd::prelude::*;
use vstd::string::*;
use crate::registry::{JobRegistry, RunJobStatus, recorded, status_of};
use crate::signal::{
    WorkerExit, StopSignal, is_blank, blank, payload_of, phase_text, phase_of, message_of,
    recorded_code_of, recorded_exit_code, FALLBACK_EXIT_CODE, stop_signal_for, push_digits, nat_digits,
};
use crate::text::{trim_of, trimmed, same_text};
use crate::paths::Platform;

verus! {

/// How many times the coordinator looks at the watcher, after the first look,
/// before it terminates it.
pub const GRACE_POLLS: u32 = 20;

/// The pause between two looks at the watcher, in milliseconds.
pub const GRACE_POLL_INTERVAL_MS: u64 = 100;

/// How far up from the working directory the repository root is looked for.
pub const REPO_ROOT_MAX_LEVELS: usize = 6;

/// The interpreter to run: the one given when it is not blank, else `python`.
pub open spec fn interpreter_of(python_path: Option<String>) -> Seq<char> {
    match python_path {
        Some(p) => if is_blank(p@) {
            "python"@
        } else {
            p@
        },
        None => "python"@,
    }
}

/// What separates the entries of a list of paths: `;` on Windows, `:`
/// elsewhere.
pub open spec fn path_list_separator(platform: Platform) -> Seq<char> {
    match platform {
        Platform::Windows => ";"@,
        _ => ":"@,
    }
}

/// The module search path handed to the worker: the repository root, before
/// what was set already when that is not blank, joined by the platform's
/// separator.
pub open spec fn search_path_of(
    platform: Platform,
    repo_root: Seq<char>,
    existing: Option<Seq<char>>,
) -> Seq<char> {
    match existing {
        Some(e) => if is_blank(e) {
            repo_root
        } else {
            repo_root + path_list_separator(platform) + e
        },
        None => repo_root,
    }
}

/// A command that starts the pipeline proper: its first argument is `run`.
pub open spec fn is_run_args(args: Seq<String>) -> bool {
    args.len() >= 1 && args[0]@ == "run"@
}

/// The project named by the second argument of a `run` command, when it
/// names one: not blank once trimmed, and no option.
pub open spec fn named_project(args: Seq<String>) -> Option<Seq<char>> {
    if args.len() >= 2 && args[0]@ == "run"@ && trim_of(args[1]@).len() > 0 && trim_of(
        args[1]@,
    )[0] != '-' {
        Some(trim_of(args[1]@))
    } else {
        None
    }
}

/// The project directory of a job: the one its `run` command names, else the
/// working directory it was given.
pub open spec fn project_dir_of(args: Seq<String>, cwd: Option<Seq<char>>) -> Option<Seq<char>> {
    match named_project(args) {
        Some(p) => Some(p),
        None => cwd,
    }
}

/// The arguments of the worker: the pipeline's command-line module, then the
/// caller's arguments.
pub open spec fn worker_args_of(args: Seq<String>) -> Seq<Seq<char>> {
    seq!["-m"@, "moldockpipe.cli"@] + args.map_values(|a: String| a@)
}

/// The arguments of the watcher of the project at `project_dir`, reporting
/// under the run name `watch_<n>`.
pub open spec fn watcher_args_of(project_dir: Seq<char>, n: u64) -> Seq<Seq<char>> {
    seq![
        "-m"@,
        "moldockpipe.progress_watcher"@,
        "--project"@,
        project_dir,
        "--run-id"@,
        "watch_"@ + nat_digits(n as nat),
        "--interval-ms"@,
        "700"@,
    ]
}

/// The texts of a list of strings.
pub open spec fn views_of(v: Seq<String>) -> Seq<Seq<char>> {
    v.map_values(|a: String| a@)
}

/// Which of the two programs could not be started.
#[derive(Clone, Copy, Debug, PartialEq, Eq, Structural)]
pub enum LaunchTarget {
    Worker,
    Watcher,
}

/// Why a job was not launched.
pub enum LaunchError {
    /// A `run` command that names no project, given no working directory.
    ProjectUnresolved,
    /// The program could not be started; `detail` is what the system said.
    LaunchFailure { target: LaunchTarget, detail: String },
    /// Every job identifier has been issued.
    IdsExhausted,
}

/// The watcher half of a paired job.
pub struct WatcherPlan {
    /// The project whose stop signal and progress the watcher follows; it is
    /// also the watcher's working directory.
    pub project_dir: String,
    pub args: Vec<String>,
}

/// All that is needed to start a job.
pub struct LaunchPlan {
    pub interpreter: String,
    pub worker_args: Vec<String>,
    /// The worker's working directory, where one was given.
    pub worker_dir: Option<String>,
    /// Present for a paired job alone.
    pub watcher: Option<WatcherPlan>,
}

/// One step of starting a job, in the order in which they are taken.
#[derive(Clone, Copy, Debug, PartialEq, Eq, Structural)]
pub enum LaunchStep {
    /// Delete a stop signal left behind by an earlier job.
    ClearStopSignal,
    StartWatcher,
    StartWorker,
}

/// The steps that start a job, paired or not.
pub open spec fn steps_of(paired: bool) -> Seq<LaunchStep> {
    if paired {
        seq![LaunchStep::ClearStopSignal, LaunchStep::StartWatcher, LaunchStep::StartWorker]
    } else {
        seq![LaunchStep::StartWorker]
    }
}

/// What the coordinator learnt from one look at the watcher.
#[derive(Clone, Copy, Debug, PartialEq, Eq, Structural)]
pub enum WatcherPoll {
    Exited,
    Running,
    /// The system could not tell.
    Unknown,
}

/// What the coordinator does next with the watcher.
#[derive(Clone, Copy, Debug, PartialEq, Eq, Structural)]
pub enum GraceAction {
    /// The watcher is gone: let go of it.
    Release,
    /// Pause, then look again.
    Wait,
    /// Terminate the watcher and reap it.
    Terminate,
}

/// The decision after a look at the watcher, when `polls_done` looks came
/// before it: wait while it runs and the window lasts, terminate it once the
/// window is over or its state cannot be told.
pub open spec fn grace_step(polls_done: int, poll: WatcherPoll) -> GraceAction {
    match poll {
        WatcherPoll::Exited => GraceAction::Release,
        WatcherPoll::Running => if polls_done < GRACE_POLLS {
            GraceAction::Wait
        } else {
            GraceAction::Terminate
        },
        WatcherPoll::Unknown => GraceAction::Terminate,
    }
}

/// The interpreter that runs the worker and the watcher.
pub fn choose_interpreter(python_path: Option<String>) -> (r: String)
    ensures
        r@ == interpreter_of(python_path),
{
    match python_path {
        Some(p) => {
            if blank(p.as_str()) {
                String::from_str("python")
            } else {
                p
            }
        },
        None => String::from_str("python"),
    }
}

/// The module search path for the worker on `platform`, given the
/// repository root and the value already set, if any.
pub fn merge_search_path(platform: Platform, repo_root: &str, existing: Option<&str>) -> (r: String)
    ensures
        r@ == search_path_of(
            platform,
            repo_root@,
            match existing {
                Some(e) => Some(e@),
                None => None,
            },
        ),
{
    let mut out = String::from_str(repo_root);
    match existing {
        Some(e) => {
            if !blank(e) {
                match platform {
                    Platform::Windows => out.append(";"),
                    _ => out.append(":"),
                }
                out.append(e);
            }
        },
        None => {},
    }
    out
}

/// Whether `args` is a `run` command, which starts a paired job.
pub fn is_run_command(args: &Vec<String>) -> (r: bool)
    ensures
        r == is_run_args(args@),
{
    if args.len() == 0 {
        return false;
    }
    same_text(args[0].as_str(), "run")
}

/// The project directory of a job: the project that a `run` command names,
/// trimmed, else the working directory.
pub fn resolve_project_dir_from_args(args: &Vec<String>, cwd: Option<&String>) -> (r: Option<
    String,
>)
    ensures
        match r {
            Some(d) => project_dir_of(
                args@,
                match cwd {
                    Some(c) => Some(c@),
                    None => None,
                },
            ) == Some(d@),
            None => project_dir_of(
                args@,
                match cwd {
                    Some(c) => Some(c@),
                    None => None,
                },
            ) is None,
        },
{
    if args.len() >= 2 && same_text(args[0].as_str(), "run") {
        let candidate = trimmed(args[1].as_str());
        if candidate.unicode_len() > 0 && candidate.get_char(0) != '-' {
            return Some(candidate);
        }
    }
    match cwd {
        Some(c) => Some(c.clone()),
        None => None,
    }
}

/// The arguments that start the worker.
pub fn worker_args(args: &Vec<String>) -> (r: Vec<String>)
    ensures
        views_of(r@) == worker_args_of(args@),
{
    let mut out: Vec<String> = Vec::new();
    out.push(String::from_str("-m"));
    out.push(String::from_str("moldockpipe.cli"));
    let mut i: usize = 0;
    while i < args.len()
        invariant
            views_of(out@) == worker_args_of(args@.subrange(0, i as int)),
            i <= args@.len(),
        decreases args@.len() - i,
    {
        let ghost before = out@;
        out.push(args[i].clone());
        assert(args@.subrange(0, i + 1) =~= args@.subrange(0, i as int).push(args@[i as int]));
        assert(views_of(out@) =~= views_of(before).push(args@[i as int]@));
        assert(views_of(out@) =~= worker_args_of(args@.subrange(0, i + 1)));
        i = i + 1;
    }
    assert(args@.subrange(0, args@.len() as int) =~= args@);
    out
}

/// The arguments that start the watcher of the project at `project_dir`,
/// reporting under the run name `watch_<run_number>`.
pub fn watcher_args(project_dir: &str, run_number: u64) -> (r: Vec<String>)
    ensures
        views_of(r@) == watcher_args_of(project_dir@, run_number),
{
    let mut run_id = String::from_str("watch_");
    push_digits(run_number, &mut run_id);
    let r = vec![
        String::from_str("-m"),
        String::from_str("moldockpipe.progress_watcher"),
        String::from_str("--project"),
        String::from_str(project_dir),
        String::from_str("--run-id"),
        run_id,
        String::from_str("--interval-ms"),
        String::from_str("700"),
    ];
    assert(views_of(r@) =~= watcher_args_of(project_dir@, run_number));
    r
}

/// Plans a job: a `run` command is paired with a watcher of its project,
/// which reports under a run name made of `run_number`; any other command
/// starts the worker alone. Fails where a `run` command has no project
/// directory.
pub fn plan_launch(
    args: &Vec<String>,
    cwd: Option<String>,
    python_path: Option<String>,
    run_number: u64,
) -> (r: Result<LaunchPlan, LaunchError>)
    ensures
        is_run_args(args@) && project_dir_of(
            args@,
            match cwd {
                Some(c) => Some(c@),
                None => None,
            },
        ) is None <==> r matches Err(LaunchError::ProjectUnresolved),
        r is Err ==> r matches Err(LaunchError::ProjectUnresolved),
        r matches Ok(plan) ==> {
            &&& plan.interpreter@ == interpreter_of(python_path)
            &&& views_of(plan.worker_args@) == worker_args_of(args@)
            &&& match cwd {
                Some(c) => plan.worker_dir matches Some(d) && d@ == c@,
                None => plan.worker_dir is None,
            }
            &&& (plan.watcher is Some <==> is_run_args(args@))
            &&& plan.watcher matches Some(w) ==> {
                &&& Some(w.project_dir@) == project_dir_of(
                    args@,
                    match cwd {
                        Some(c) => Some(c@),
                        None => None,
                    },
                )
                &&& views_of(w.args@) == watcher_args_of(w.project_dir@, run_number)
            }
        },
{
    let interpreter = choose_interpreter(python_path);
    let worker = worker_args(args);
    if !is_run_command(args) {
        return Ok(LaunchPlan { interpreter, worker_args: worker, worker_dir: cwd, watcher: None });
    }
    let project_dir = match resolve_project_dir_from_args(args, cwd.as_ref()) {
        Some(d) => d,
        None => {
            return Err(LaunchError::ProjectUnresolved);
        },
    };
    let wargs = watcher_args(project_dir.as_str(), run_number);
    Ok(
        LaunchPlan {
            interpreter,
            worker_args: worker,
            worker_dir: cwd,
            watcher: Some(WatcherPlan { project_dir, args: wargs }),
        },
    )
}

impl LaunchPlan {
    /// Whether the job starts a watcher beside its worker.
    pub fn is_paired(&self) -> (r: bool)
        ensures
            r == self.watcher is Some,
    {
        self.watcher.is_some()
    }

    /// The steps that start this job: for a paired job, the stale stop signal
    /// is cleared, then the watcher started, then the worker.
    pub fn launch_steps(&self) -> (r: Vec<LaunchStep>)
        ensures
            r@ == steps_of(self.watcher is Some),
    {
        if self.is_paired() {
            let r = vec![LaunchStep::ClearStopSignal, LaunchStep::StartWatcher, LaunchStep::StartWorker];
            assert(r@ =~= steps_of(true));
            r
        } else {
            let r = vec![LaunchStep::StartWorker];
            assert(r@ =~= steps_of(false));
            r
        }
    }
}

/// What a blocking run of the worker produced.
pub struct RunResult {
    pub ok: bool,
    pub stdout: String,
    pub stderr: String,
    pub code: i32,
}

/// What a launched job hands back to its caller.
pub struct RunJob {
    pub job_id: u64,
    pub pid: Option<u32>,
    pub watcher_pid: Option<u32>,
}

/// The result of a blocking run: it succeeded when the worker exited with
/// code 0; its exit code is the fallback where the worker gave none.
pub fn run_result(code: Option<i32>, stdout: String, stderr: String) -> (r: RunResult)
    ensures
        r.ok == (code == Some(0i32)),
        r.code == match code {
            Some(c) => c,
            None => FALLBACK_EXIT_CODE,
        },
        r.stdout@ == stdout@,
        r.stderr@ == stderr@,
{
    let (ok, code) = match code {
        Some(c) => (c == 0, c),
        None => (false, FALLBACK_EXIT_CODE),
    };
    RunResult { ok, stdout, stderr, code }
}

/// The system's message for a program that could not be started.
pub fn launch_failure_message(target: LaunchTarget, detail: &str) -> (r: String)
    ensures
        r@ == launch_failure_message_spec(target, detail@),
{
    let mut out = match target {
        LaunchTarget::Worker => String::from_str(
            "Could not launch Python CLI. Verify Python path and module availability (moldockpipe.cli). Details: ",
        ),
        LaunchTarget::Watcher => String::from_str(
            "Could not launch Python progress watcher. Verify Python path and module availability (moldockpipe.progress_watcher). Details: ",
        ),
    };
    out.append(detail);
    out
}

impl LaunchError {
    /// The text shown to the user.
    pub fn message(&self) -> (r: String)
        ensures
            match self {
                LaunchError::ProjectUnresolved => r@
                    == "Unable to resolve project directory for run command."@,
                LaunchError::LaunchFailure { target, detail } => r@ == launch_failure_message_spec(
                    *target,
                    detail@,
                ),
                LaunchError::IdsExhausted => r@ == "No job identifier is left to issue."@,
            },
    {
        match self {
            LaunchError::ProjectUnresolved => String::from_str(
                "Unable to resolve project directory for run command.",
            ),
            LaunchError::LaunchFailure { target, detail } => launch_failure_message(
                *target,
                detail.as_str(),
            ),
            LaunchError::IdsExhausted => String::from_str("No job identifier is left to issue."),
        }
    }
}

/// The message for a program that could not be started, ending in what the
/// system said.
pub open spec fn launch_failure_message_spec(target: LaunchTarget, detail: Seq<char>) -> Seq<char> {
    (match target {
        LaunchTarget::Worker => "Could not launch Python CLI. Verify Python path and module availability (moldockpipe.cli). Details: "@,
        LaunchTarget::Watcher => "Could not launch Python progress watcher. Verify Python path and module availability (moldockpipe.progress_watcher). Details: "@,
    }) + detail
}

/// What the coordinator does after a step of starting a job.
#[derive(Clone, Copy, Debug, PartialEq, Eq, Structural)]
pub enum StartDecision {
    /// Take the next step.
    Continue,
    /// Both programs run: register the job.
    Register,
    /// Give up with a launch failure, terminating the watcher first where it
    /// was started.
    Fail { terminate_watcher: bool },
}

/// The decision after `step`, which `succeeded` or not, when the watcher is
/// running (`watcher_started`). Clearing the stop signal is best effort and
/// never stops a launch; a watcher that fails to start ends it; a worker that
/// fails to start ends it and takes a started watcher down with it.
pub open spec fn start_decision_of(step: LaunchStep, succeeded: bool, watcher_started: bool) -> StartDecision {
    match step {
        LaunchStep::ClearStopSignal => StartDecision::Continue,
        LaunchStep::StartWatcher => if succeeded {
            StartDecision::Continue
        } else {
            StartDecision::Fail { terminate_watcher: false }
        },
        LaunchStep::StartWorker => if succeeded {
            StartDecision::Register
        } else {
            StartDecision::Fail { terminate_watcher: watcher_started }
        },
    }
}

/// The coordinator's decision after a step of starting a job.
pub fn after_start_step(step: LaunchStep, succeeded: bool, watcher_started: bool) -> (r:
    StartDecision)
    ensures
        r == start_decision_of(step, succeeded, watcher_started),
{
    match step {
        LaunchStep::ClearStopSignal => StartDecision::Continue,
        LaunchStep::StartWatcher => {
            if succeeded {
                StartDecision::Continue
            } else {
                StartDecision::Fail { terminate_watcher: false }
            }
        },
        LaunchStep::StartWorker => {
            if succeeded {
                StartDecision::Register
            } else {
                StartDecision::Fail { terminate_watcher: watcher_started }
            }
        },
    }
}

/// Ends the start of a job. Where the worker could not be started, the
/// launch fails with that failure and no identifier is issued. Where it was,
/// the job is registered as running and its identifier handed back with the
/// process identifiers, unless the identifiers are used up.
pub fn conclude_launch(
    registry: &mut JobRegistry,
    worker: Result<u32, String>,
    watcher_pid: Option<u32>,
) -> (r: Result<RunJob, LaunchError>)
    requires
        old(registry).wf(),
    ensures
        final(registry).wf(),
        match worker {
            Err(detail) => {
                &&& *final(registry) == *old(registry)
                &&& r matches Err(LaunchError::LaunchFailure { target, detail: d }) && target
                    == LaunchTarget::Worker && d@ == detail@
            },
            Ok(pid) => if old(registry).next() == u64::MAX {
                &&& *final(registry) == *old(registry)
                &&& r matches Err(LaunchError::IdsExhausted)
            } else {
                &&& r matches Ok(job) && job.job_id == old(registry).next() && job.pid == Some(pid)
                    && job.watcher_pid == watcher_pid
                &&& !old(registry).table().contains_key(old(registry).next())
                &&& final(registry).table() == old(registry).table().insert(
                    old(registry).next(),
                    None,
                )
                &&& status_of(final(registry).table(), old(registry).next()) == (RunJobStatus {
                    found: true,
                    running: true,
                    exit_code: None,
                })
                &&& final(registry).next() == old(registry).next() + 1
            },
        },
{
    match worker {
        Err(detail) => Err(LaunchError::LaunchFailure { target: LaunchTarget::Worker, detail }),
        Ok(pid) => match registry.register() {
            Some(job_id) => Ok(RunJob { job_id, pid: Some(pid), watcher_pid }),
            None => Err(LaunchError::IdsExhausted),
        },
    }
}

/// The coordinator's decision after a look at the watcher.
pub fn after_watcher_poll(polls_done: u32, poll: WatcherPoll) -> (r: GraceAction)
    ensures
        r == grace_step(polls_done as int, poll),
{
    match poll {
        WatcherPoll::Exited => GraceAction::Release,
        WatcherPoll::Running => {
            if polls_done < GRACE_POLLS {
                GraceAction::Wait
            } else {
                GraceAction::Terminate
            }
        },
        WatcherPoll::Unknown => GraceAction::Terminate,
    }
}

/// Handles the exit of job `id`'s worker: records the exit code, and for a
/// paired job returns the content of the stop signal to write.
pub fn worker_finished(registry: &mut JobRegistry, id: u64, exit: WorkerExit, paired: bool) -> (r:
    Option<String>)
    requires
        old(registry).wf(),
    ensures
        final(registry).wf(),
        final(registry).next() == old(registry).next(),
        final(registry).table() == recorded(old(registry).table(), id, recorded_code_of(exit)),
        paired <==> r is Some,
        r matches Some(p) ==> p@ == payload_of(phase_text(phase_of(exit)), message_of(exit)),
{
    registry.record_exit(id, recorded_exit_code(exit));
    if paired {
        let signal: StopSignal = stop_signal_for(exit);
        Some(signal.encode())
    } else {
        None
    }
}

/// Where the repository root lies: the first of the working directory and
/// its parents, nearest first, that holds the project marker, within
/// `REPO_ROOT_MAX_LEVELS` levels. `has_marker[i]` tells whether the `i`-th
/// of them holds it.
pub fn repo_root_level(has_marker: &Vec<bool>) -> (r: Option<usize>)
    ensures
        match r {
            Some(i) => i < has_marker@.len() && i < REPO_ROOT_MAX_LEVELS && has_marker@[i as int]
                && forall|j: int| 0 <= j < i ==> !#[trigger] has_marker@[j],
            None => forall|j: int|
                0 <= j < has_marker@.len() && j < REPO_ROOT_MAX_LEVELS ==> !#[trigger] has_marker@[j],
        },
{
    let mut i: usize = 0;
    while i < has_marker.len() && i < REPO_ROOT_MAX_LEVELS
        invariant
            i <= has_marker@.len(),
            i <= REPO_ROOT_MAX_LEVELS,
            forall|j: int| 0 <= j < i ==> !#[trigger] has_marker@[j],
        decreases has_marker@.len() - i,
    {
        if has_marker[i] {
            return Some(i);
        }
        i = i + 1;
    }
    None
}

} // verus!
