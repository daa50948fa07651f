//! The job registry: a table from job identifier to completion state, and the
//! counter that issues identifiers.
use vstd::prelude::*;
use std::collections::HashMap;

verus! {

broadcast use vstd::std_specs::hash::group_hash_axioms;

/// What a status query reports about one job identifier.
#[derive(Clone, Copy, Debug, PartialEq, Eq, Structural)]
pub struct RunJobStatus {
    pub found: bool,
    pub running: bool,
    pub exit_code: Option<i32>,
}

/// The status that the table `jobs` gives for `id`: not found when absent,
/// running while no exit code is set, exited once one is.
pub open spec fn status_of(jobs: Map<u64, Option<i32>>, id: u64) -> RunJobStatus {
    if !jobs.contains_key(id) {
        RunJobStatus { found: false, running: false, exit_code: None }
    } else {
        match jobs[id] {
            None => RunJobStatus { found: true, running: true, exit_code: None },
            Some(code) => RunJobStatus { found: true, running: false, exit_code: Some(code) },
        }
    }
}

/// The table after the exit of job `id` with `code` is recorded: a running
/// job becomes exited; any other entry, and an unknown identifier, stay.
pub open spec fn recorded(jobs: Map<u64, Option<i32>>, id: u64, code: i32) -> Map<u64, Option<i32>> {
    if jobs.contains_key(id) && jobs[id] is None {
        jobs.insert(id, Some(code))
    } else {
        jobs
    }
}

/// Issues job identifiers and records, for each issued one, whether its worker
/// is still running or with which code it exited.
pub struct JobRegistry {
    next_id: u64,
    jobs: HashMap<u64, Option<i32>>,
}

impl JobRegistry {
    /// The table of issued identifiers and their completion states.
    pub closed spec fn table(&self) -> Map<u64, Option<i32>> {
        self.jobs@
    }

    /// The identifier that the next registration issues.
    pub closed spec fn next(&self) -> u64 {
        self.next_id
    }

    /// Every registered identifier lies below the next one to be issued, and
    /// identifiers start at 1.
    pub closed spec fn wf(&self) -> bool {
        &&& self.next_id >= 1
        &&& forall|id: u64| #[trigger] self.jobs@.contains_key(id) ==> 1 <= id < self.next_id
    }

    /// An empty registry whose first identifier is 1.
    pub fn new() -> (r: JobRegistry)
        ensures
            r.wf(),
            r.table() == Map::<u64, Option<i32>>::empty(),
            r.next() == 1,
    {
        JobRegistry { next_id: 1, jobs: HashMap::new() }
    }

    /// The identifier that the next registration issues.
    pub fn next_job_id(&self) -> (r: u64)
        ensures
            r == self.next(),
    {
        self.next_id
    }

    /// The table itself, for a caller that reads it whole.
    pub fn job_status_map(&self) -> (r: &HashMap<u64, Option<i32>>)
        ensures
            r@ == self.table(),
    {
        &self.jobs
    }

    /// Issues a fresh identifier and records its job as running. Returns
    /// `None`, and changes nothing, once the identifiers are used up.
    pub fn register(&mut self) -> (r: Option<u64>)
        requires
            old(self).wf(),
        ensures
            final(self).wf(),
            old(self).next() == u64::MAX <==> r is None,
            r is None ==> *final(self) == *old(self),
            r matches Some(id) ==> {
                &&& id == old(self).next()
                &&& !old(self).table().contains_key(id)
                &&& final(self).table() == old(self).table().insert(id, None)
                &&& final(self).next() == id + 1
            },
    {
        if self.next_id == u64::MAX {
            return None;
        }
        let id = self.next_id;
        self.jobs.insert(id, None);
        self.next_id = id + 1;
        Some(id)
    }

    /// Records that the worker of job `id` exited with `code`. The state of a
    /// job moves from running to exited once: an unknown identifier, or one
    /// whose exit is already recorded, is left as it is.
    pub fn record_exit(&mut self, id: u64, code: i32)
        requires
            old(self).wf(),
        ensures
            final(self).wf(),
            final(self).next() == old(self).next(),
            final(self).table() == recorded(old(self).table(), id, code),
    {
        let pending = match self.jobs.get(&id) {
            Some(state) => state.is_none(),
            None => false,
        };
        if pending {
            self.jobs.insert(id, Some(code));
        }
    }

    /// An identifier that the registry never issued, 0 or any at or above the
    /// next one, reads as not found.
    pub proof fn unissued_id_is_not_found(&self, id: u64)
        requires
            self.wf(),
            id == 0 || id >= self.next(),
        ensures
            status_of(self.table(), id) == (RunJobStatus {
                found: false,
                running: false,
                exit_code: None,
            }),
    {
    }

    /// Reports the state of job `id`; no side effects.
    pub fn get_run_job_status(&self, id: u64) -> (r: RunJobStatus)
        ensures
            r == status_of(self.table(), id),
    {
        match self.jobs.get(&id) {
            None => RunJobStatus { found: false, running: false, exit_code: None },
            Some(state) => match state {
                None => RunJobStatus { found: true, running: true, exit_code: None },
                Some(code) => RunJobStatus { found: true, running: false, exit_code: Some(*code) },
            },
        }
    }
}

} // verus!
