//! Properties that hold across calls of the library, proved from the
//! contracts of its functions.
use vstd::prelude::*;
use crate::registry::{RunJobStatus, status_of, recorded};
use crate::signal::{
    WorkerExit, StopPhase, phase_of, message_of, payload_of, phase_text, exit_code_prefix,
    decimal_of, is_blank,
};
use crate::launch::{GRACE_POLLS, WatcherPoll, GraceAction, LaunchStep, grace_step, steps_of};

verus! {

/// A job that has just been registered reads as found and running, with no
/// exit code.
pub proof fn registered_job_is_running(jobs: Map<u64, Option<i32>>, id: u64)
    requires
        !jobs.contains_key(id),
    ensures
        status_of(jobs.insert(id, None), id) == (RunJobStatus {
            found: true,
            running: true,
            exit_code: None,
        }),
{
}

/// A worker that exits with 0 or 2 leaves the stop signal `completed` with no
/// message; any other code leaves `failed` with the message
/// `runner_exit_code=<code>`.
pub proof fn stop_signal_follows_exit_code(code: i32)
    ensures
        (code == 0 || code == 2) ==> {
            &&& phase_of(WorkerExit::Exited(Some(code))) == StopPhase::Completed
            &&& payload_of(
                phase_text(phase_of(WorkerExit::Exited(Some(code)))),
                message_of(WorkerExit::Exited(Some(code))),
            ) == phase_text(StopPhase::Completed)
        },
        !(code == 0 || code == 2) ==> {
            &&& phase_of(WorkerExit::Exited(Some(code))) == StopPhase::Failed
            &&& message_of(WorkerExit::Exited(Some(code))) == exit_code_prefix() + decimal_of(
                code as int,
            )
        },
{
    let m = message_of(WorkerExit::Exited(Some(code)));
    if code == 0 || code == 2 {
        assert(is_blank(m));
    }
}

/// Once the exit of a running job is recorded, the job reads as exited with
/// that code, and neither a later exit record (of any job) nor the
/// registration of a fresh job changes what it reads.
pub proof fn exit_status_is_final(
    jobs: Map<u64, Option<i32>>,
    id: u64,
    code: i32,
    later_id: u64,
    later_code: i32,
    fresh_id: u64,
)
    requires
        jobs.contains_key(id),
        jobs[id] is None,
    ensures
        status_of(recorded(jobs, id, code), id) == (RunJobStatus {
            found: true,
            running: false,
            exit_code: Some(code),
        }),
        status_of(recorded(recorded(jobs, id, code), later_id, later_code), id) == status_of(
            recorded(jobs, id, code),
            id,
        ),
        !recorded(jobs, id, code).contains_key(fresh_id) ==> status_of(
            recorded(jobs, id, code).insert(fresh_id, None),
            id,
        ) == status_of(recorded(jobs, id, code), id),
{
}

/// A paired job clears a stop signal left by an earlier job before its
/// watcher starts, so the watcher cannot see that old signal; a job without a
/// watcher touches no stop signal.
pub proof fn stale_signal_cleared_before_watcher(paired: bool)
    ensures
        paired ==> {
            &&& steps_of(paired).len() == 3
            &&& steps_of(paired)[0] == LaunchStep::ClearStopSignal
            &&& steps_of(paired)[1] == LaunchStep::StartWatcher
            &&& forall|i: int|
                0 <= i < steps_of(paired).len() && steps_of(paired)[i] == LaunchStep::StartWatcher
                    ==> i == 1
        },
        !paired ==> forall|i: int|
            0 <= i < steps_of(paired).len() ==> steps_of(paired)[i] == LaunchStep::StartWorker,
{
}

/// The coordinator waits on the watcher through `k` looks of `polls`.
pub open spec fn waits_through(polls: Seq<WatcherPoll>, k: int) -> bool {
    forall|j: int| 0 <= j < k ==> grace_step(j, #[trigger] polls[j]) == GraceAction::Wait
}

proof fn first_stop_from(polls: Seq<WatcherPoll>, i: int) -> (n: int)
    requires
        polls.len() > GRACE_POLLS,
        0 <= i <= GRACE_POLLS,
        waits_through(polls, i),
    ensures
        i <= n <= GRACE_POLLS,
        waits_through(polls, n),
        grace_step(n, polls[n]) != GraceAction::Wait,
    decreases GRACE_POLLS - i,
{
    if grace_step(i, polls[i]) != GraceAction::Wait {
        i
    } else {
        assert(i < GRACE_POLLS);
        first_stop_from(polls, i + 1)
    }
}

/// Whatever the watcher does, the coordinator stops waiting on it within
/// `GRACE_POLLS + 1` looks; and a watcher that is still running at every one
/// of them is terminated at the last.
pub proof fn grace_window_is_bounded(polls: Seq<WatcherPoll>)
    requires
        polls.len() > GRACE_POLLS,
    ensures
        exists|n: int|
            0 <= n <= GRACE_POLLS && waits_through(polls, n) && grace_step(n, #[trigger] polls[n])
                != GraceAction::Wait,
        (forall|j: int| 0 <= j <= GRACE_POLLS ==> #[trigger] polls[j] == WatcherPoll::Running)
            ==> waits_through(polls, GRACE_POLLS as int) && grace_step(
            GRACE_POLLS as int,
            polls[GRACE_POLLS as int],
        ) == GraceAction::Terminate,
{
    let n = first_stop_from(polls, 0);
    assert(grace_step(n, polls[n]) != GraceAction::Wait);
}

} // verus!
