//! Jobs at the queued backend and the states they pass through.

use crate::text::same_text;
use vstd::prelude::*;

verus! {

/// State of one job at the queued backend.
#[derive(Debug, Clone, Copy, PartialEq, Eq, Structural)]
pub enum JobStatus {
    Pending,
    Running,
    Done,
    Failed,
    Interrupted,
}

impl JobStatus {
    /// A terminal status is one from which no further transition occurs.
    pub open spec fn terminal(self) -> bool {
        self is Done || self is Failed || self is Interrupted
    }

    /// The name of each status on the wire.
    pub open spec fn wire_name(self) -> Seq<char> {
        match self {
            JobStatus::Pending => "pending"@,
            JobStatus::Running => "running"@,
            JobStatus::Done => "done"@,
            JobStatus::Failed => "failed"@,
            JobStatus::Interrupted => "interrupted"@,
        }
    }

    /// The status that a wire name stands for, if it stands for one.
    pub open spec fn named(name: Seq<char>) -> Option<JobStatus> {
        if name == "pending"@ {
            Some(JobStatus::Pending)
        } else if name == "running"@ {
            Some(JobStatus::Running)
        } else if name == "done"@ {
            Some(JobStatus::Done)
        } else if name == "failed"@ {
            Some(JobStatus::Failed)
        } else if name == "interrupted"@ {
            Some(JobStatus::Interrupted)
        } else {
            None
        }
    }

    /// Whether this status is terminal.
    pub fn is_terminal(&self) -> (r: bool)
        ensures
            r == self.terminal(),
    {
        match self {
            JobStatus::Pending | JobStatus::Running => false,
            _ => true,
        }
    }

    /// The lowercase name under which the backend reports this status.
    pub fn as_wire(&self) -> (r: &'static str)
        ensures
            r@ == self.wire_name(),
    {
        match self {
            JobStatus::Pending => "pending",
            JobStatus::Running => "running",
            JobStatus::Done => "done",
            JobStatus::Failed => "failed",
            JobStatus::Interrupted => "interrupted",
        }
    }

    /// Reads a status as the backend reports it. Names are lowercase; any other text is no
    /// status.
    pub fn from_wire(name: &str) -> (r: Option<JobStatus>)
        ensures
            r == JobStatus::named(name@),
    {
        if same_text(name, "pending") {
            Some(JobStatus::Pending)
        } else if same_text(name, "running") {
            Some(JobStatus::Running)
        } else if same_text(name, "done") {
            Some(JobStatus::Done)
        } else if same_text(name, "failed") {
            Some(JobStatus::Failed)
        } else if same_text(name, "interrupted") {
            Some(JobStatus::Interrupted)
        } else {
            None
        }
    }
}

/// Every status is read back from its own wire name.
pub proof fn lemma_wire_name_round_trip(status: JobStatus)
    ensures
        JobStatus::named(status.wire_name()) == Some(status),
{
    reveal_strlit("pending");
    reveal_strlit("running");
    reveal_strlit("done");
    reveal_strlit("failed");
    reveal_strlit("interrupted");
    assert("running"@[0] != "pending"@[0]);
    assert("failed"@.len() == 6);
    assert("interrupted"@.len() == 11);
}

/// One unit of generation work in flight at the queued backend.
///
/// The id is the one that the backend assigned on submission and never changes. The status
/// moves among the transient ones until it reaches a terminal one, and stays there.
#[derive(Debug, PartialEq)]
pub struct Job {
    id: String,
    status: JobStatus,
    created_at: u64,
}

/// What a [`Job`] holds.
pub struct JobView {
    pub id: Seq<char>,
    pub status: JobStatus,
    pub created_at: u64,
}

impl View for Job {
    type V = JobView;

    closed spec fn view(&self) -> JobView {
        JobView { id: self.id@, status: self.status, created_at: self.created_at }
    }
}

impl DeepView for Job {
    type V = JobView;

    open spec fn deep_view(&self) -> JobView {
        self@
    }
}

impl JobView {
    /// The job after the backend has reported `reported` for it: a job in a terminal status
    /// keeps it.
    pub open spec fn observed(self, reported: JobStatus) -> JobView {
        if self.status.terminal() {
            self
        } else {
            JobView { status: reported, ..self }
        }
    }

    /// The job after a run of reports, the earliest first.
    pub open spec fn observed_all(self, reports: Seq<JobStatus>) -> JobView
        decreases reports.len(),
    {
        if reports.len() == 0 {
            self
        } else {
            self.observed_all(reports.drop_last()).observed(reports.last())
        }
    }
}

impl Job {
    /// The job that a successful submission creates: pending, under the id that the backend
    /// assigned.
    pub fn new(id: String, created_at: u64) -> (job: Job)
        ensures
            job@ == (JobView { id: id@, status: JobStatus::Pending, created_at }),
    {
        Job { id, status: JobStatus::Pending, created_at }
    }

    /// The id that the backend assigned.
    pub fn id(&self) -> (r: &str)
        ensures
            r@ == self@.id,
    {
        self.id.as_str()
    }

    /// The status last taken over from the backend.
    pub fn status(&self) -> (r: JobStatus)
        ensures
            r == self@.status,
    {
        self.status
    }

    /// When the job was created, in the caller's time units.
    pub fn created_at(&self) -> (r: u64)
        ensures
            r == self@.created_at,
    {
        self.created_at
    }

    /// Takes over a status that the backend reported for this job. Once the job is in a
    /// terminal status it stays as it is, whatever is reported later.
    pub fn observe(&mut self, reported: JobStatus)
        ensures
            final(self)@ == old(self)@.observed(reported),
    {
        if !self.status.is_terminal() {
            self.status = reported;
        }
    }
}

impl Clone for Job {
    fn clone(&self) -> (r: Self)
        ensures
            r@ == self@,
    {
        Job { id: self.id.clone(), status: self.status, created_at: self.created_at }
    }
}

/// A run of reports changes neither the id of a job nor the time of its creation.
pub proof fn lemma_identity_is_kept(job: JobView, reports: Seq<JobStatus>)
    ensures
        job.observed_all(reports).id == job.id,
        job.observed_all(reports).created_at == job.created_at,
    decreases reports.len(),
{
    if reports.len() > 0 {
        lemma_identity_is_kept(job, reports.drop_last());
    }
}

/// Status transitions are monotonic: once a job has reached a terminal status, no later
/// report changes the status that is observed for it.
pub proof fn lemma_terminal_status_is_final(job: JobView, reports: Seq<JobStatus>, i: int, j: int)
    requires
        0 <= i <= j <= reports.len(),
        job.observed_all(reports.take(i)).status.terminal(),
    ensures
        job.observed_all(reports.take(j)) == job.observed_all(reports.take(i)),
    decreases j - i,
{
    if i < j {
        lemma_terminal_status_is_final(job, reports, i, j - 1);
        assert(reports.take(j).drop_last() =~= reports.take(j - 1));
    }
}

} // verus!
