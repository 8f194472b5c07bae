//! Polling of one job: a state machine from events to actions.
//!
//! The caller owns the clock and the connection. It hands every tick of the polling
//! interval, the expiry of the deadline and the answer to every call to [`Poller::step`],
//! and performs the action that comes back.

use crate::errors::{
    answer_view, answers_view, DecodeCause, DecodeCauseView, Fault, FaultView, LvmError,
    LvmErrorView, Stage,
};
use crate::images::{
    decode_images, image_payloads, payloads_view, LvmImage, LvmImageMetadata,
    LvmImageMetadataView, LvmImageView,
};
use crate::providers::automatic1111::api::job::{Job, JobStatus, JobView};
use crate::text::copy_optional_text;
use vstd::prelude::*;

verus! {

/// Time units between two polls of a job's status.
pub const POLL_INTERVAL: u64 = 1;

/// Time units after which a job that has reached no terminal status is given up.
pub const POLL_TIMEOUT: u64 = 300;

/// Where the polling of a job stands.
#[derive(Debug, Clone, Copy, PartialEq, Eq, Structural)]
pub enum PollPhase {
    /// Between two polls, waiting for the next tick.
    Waiting,
    /// A status query is under way.
    Querying,
    /// The job is done and its results are being fetched.
    Fetching,
    /// Polling is over.
    Finished,
}

/// What one job contributes to the result of a request.
#[derive(Debug, PartialEq)]
pub enum JobOutcome {
    /// The job reached `Done` and these are its images, of which there is at least one.
    Succeeded { images: Vec<LvmImage> },
    /// The job yields no image, for this reason.
    Failed { error: LvmError },
}

/// What a [`JobOutcome`] holds.
pub enum JobOutcomeView {
    Succeeded { images: Seq<LvmImageView> },
    Failed { error: LvmErrorView },
}

impl View for JobOutcome {
    type V = JobOutcomeView;

    open spec fn view(&self) -> JobOutcomeView {
        match self {
            JobOutcome::Succeeded { images } => JobOutcomeView::Succeeded {
                images: images.deep_view(),
            },
            JobOutcome::Failed { error } => JobOutcomeView::Failed { error: error@ },
        }
    }
}

impl DeepView for JobOutcome {
    type V = JobOutcomeView;

    open spec fn deep_view(&self) -> JobOutcomeView {
        self@
    }
}

/// What happened since the last step.
#[derive(Debug, PartialEq)]
pub enum PollEvent {
    /// The polling interval has passed.
    Tick,
    /// The deadline for the whole polling has passed.
    Deadline,
    /// The backend reported this status.
    Status { reported: JobStatus },
    /// The status query gave nothing usable.
    StatusFailed { fault: Fault },
    /// The backend sent these payloads, already decoded, as the job's results.
    Results { payloads: Vec<Vec<u8>> },
    /// The fetch of the results gave nothing usable.
    ResultsFailed { fault: Fault },
}

/// What a [`PollEvent`] holds.
pub enum PollEventView {
    Tick,
    Deadline,
    Status { reported: JobStatus },
    StatusFailed { fault: FaultView },
    Results { payloads: Seq<Seq<u8>> },
    ResultsFailed { fault: FaultView },
}

impl View for PollEvent {
    type V = PollEventView;

    open spec fn view(&self) -> PollEventView {
        match self {
            PollEvent::Tick => PollEventView::Tick,
            PollEvent::Deadline => PollEventView::Deadline,
            PollEvent::Status { reported } => PollEventView::Status { reported: *reported },
            PollEvent::StatusFailed { fault } => PollEventView::StatusFailed { fault: fault@ },
            PollEvent::Results { payloads } => PollEventView::Results {
                payloads: payloads_view(payloads@),
            },
            PollEvent::ResultsFailed { fault } => PollEventView::ResultsFailed { fault: fault@ },
        }
    }
}

impl PollEventView {
    /// The event that the answer to a status query makes: the status that the answer
    /// names, or a failure where the call failed or the name is none of the protocol.
    pub open spec fn of_status_answer(answer: Result<Seq<char>, FaultView>) -> PollEventView {
        match answer {
            Ok(name) => match JobStatus::named(name) {
                Some(reported) => PollEventView::Status { reported },
                None => PollEventView::StatusFailed {
                    fault: FaultView::Decode { cause: DecodeCauseView::UnknownStatus { name } },
                },
            },
            Err(fault) => PollEventView::StatusFailed { fault },
        }
    }

    /// The event that the results of a job make once they are decoded: the payloads, or
    /// the failure to get them.
    pub open spec fn of_results(decoded: Result<Seq<Seq<u8>>, FaultView>) -> PollEventView {
        match decoded {
            Ok(payloads) => PollEventView::Results { payloads },
            Err(fault) => PollEventView::ResultsFailed { fault },
        }
    }

    /// The event that the answer to a fetch of the results makes: the payloads of the
    /// images that were sent, or a failure where the call failed or a text is no image.
    pub open spec fn of_results_answer(answer: Result<Seq<Seq<char>>, FaultView>) -> PollEventView {
        match answer {
            Ok(images) => PollEventView::of_results(image_payloads(images)),
            Err(fault) => PollEventView::ResultsFailed { fault },
        }
    }
}

impl PollEvent {
    /// Makes an event of the answer to a status query. `answer` is the name of the status
    /// as the backend sent it, or the failure of the call.
    pub fn status_answer(answer: Result<String, Fault>) -> (event: PollEvent)
        ensures
            event@ == PollEventView::of_status_answer(answer_view(answer)),
    {
        match answer {
            Ok(name) => match JobStatus::from_wire(name.as_str()) {
                Some(reported) => PollEvent::Status { reported },
                None => PollEvent::StatusFailed {
                    fault: Fault::Decode { cause: DecodeCause::UnknownStatus { name } },
                },
            },
            Err(fault) => PollEvent::StatusFailed { fault },
        }
    }

    /// Makes an event of the results of a job once they are decoded.
    pub fn results(decoded: Result<Vec<Vec<u8>>, Fault>) -> (event: PollEvent)
        ensures
            event@ == PollEventView::of_results(
                match decoded {
                    Ok(payloads) => Ok(payloads_view(payloads@)),
                    Err(fault) => Err(fault@),
                },
            ),
    {
        match decoded {
            Ok(payloads) => PollEvent::Results { payloads },
            Err(fault) => PollEvent::ResultsFailed { fault },
        }
    }

    /// Makes an event of the answer to a fetch of the results. `answer` holds the images
    /// as the backend sent them, or the failure of the call.
    pub fn results_answer(answer: Result<Vec<String>, Fault>) -> (event: PollEvent)
        ensures
            event@ == PollEventView::of_results_answer(answers_view(answer)),
    {
        match answer {
            Ok(images) => PollEvent::results(decode_images(&images)),
            Err(fault) => PollEvent::ResultsFailed { fault },
        }
    }
}

/// What the caller is to do next.
#[derive(Debug, PartialEq)]
pub enum PollAction {
    /// Nothing, until the next event.
    Wait,
    /// Ask the backend for the job's status.
    QueryStatus,
    /// Fetch the job's results.
    FetchResults,
    /// Stop polling: this is what the job contributes.
    Complete { outcome: JobOutcome },
}

/// What a [`PollAction`] holds.
pub enum PollActionView {
    Wait,
    QueryStatus,
    FetchResults,
    Complete { outcome: JobOutcomeView },
}

impl View for PollAction {
    type V = PollActionView;

    open spec fn view(&self) -> PollActionView {
        match self {
            PollAction::Wait => PollActionView::Wait,
            PollAction::QueryStatus => PollActionView::QueryStatus,
            PollAction::FetchResults => PollActionView::FetchResults,
            PollAction::Complete { outcome } => PollActionView::Complete { outcome: outcome@ },
        }
    }
}

/// The images that a job's payloads become: each carries the generation parameters that
/// the request was sent with.
pub open spec fn images_of(payloads: Seq<Seq<u8>>, generation_params: Option<Seq<char>>) -> Seq<
    LvmImageView,
> {
    Seq::new(
        payloads.len(),
        |i: int|
            LvmImageView {
                data: payloads[i],
                metadata: Some(LvmImageMetadataView { generation_params }),
            },
    )
}

/// The polling of one job.
#[derive(Debug, PartialEq)]
pub struct Poller {
    job: Job,
    phase: PollPhase,
    elapsed: u64,
    generation_params: Option<String>,
}

/// What a [`Poller`] holds.
pub struct PollerView {
    pub job: JobView,
    pub phase: PollPhase,
    /// Time units that have passed on the poller's own count of ticks.
    pub elapsed: nat,
    pub generation_params: Option<Seq<char>>,
}

impl View for Poller {
    type V = PollerView;

    closed spec fn view(&self) -> PollerView {
        PollerView {
            job: self.job@,
            phase: self.phase,
            elapsed: self.elapsed as nat,
            generation_params: self.generation_params.deep_view(),
        }
    }
}

impl PollerView {
    /// The poller of a job that was just submitted.
    pub open spec fn started(job: JobView, generation_params: Option<Seq<char>>) -> PollerView {
        PollerView { job, phase: PollPhase::Waiting, elapsed: 0, generation_params }
    }

    /// What holds of every poller that [`Poller::new`] made and [`Poller::step`] moved.
    pub open spec fn wf(self) -> bool {
        &&& self.elapsed <= POLL_TIMEOUT
        &&& self.phase is Waiting || self.phase is Querying ==> !self.job.status.terminal()
        &&& self.phase is Fetching ==> self.job.status is Done
    }

    /// Polling ends with this outcome.
    pub open spec fn finished(self, outcome: JobOutcomeView) -> (PollerView, PollActionView) {
        (PollerView { phase: PollPhase::Finished, ..self }, PollActionView::Complete { outcome })
    }

    /// Polling ends because the deadline has passed.
    pub open spec fn timed_out(self) -> (PollerView, PollActionView) {
        self.finished(
            JobOutcomeView::Failed { error: LvmErrorView::Timeout { job_id: self.job.id } },
        )
    }

    /// What a reported status leads to.
    pub open spec fn reported(self, status: JobStatus) -> (PollerView, PollActionView) {
        let job = self.job.observed(status);
        match status {
            JobStatus::Done => (
                PollerView { job, phase: PollPhase::Fetching, ..self },
                PollActionView::FetchResults,
            ),
            JobStatus::Failed | JobStatus::Interrupted => (PollerView { job, ..self }).finished(
                JobOutcomeView::Failed {
                    error: LvmErrorView::JobFailure { job_id: self.job.id, status },
                },
            ),
            JobStatus::Pending | JobStatus::Running => (
                PollerView { job, phase: PollPhase::Waiting, ..self },
                PollActionView::Wait,
            ),
        }
    }

    /// What the results of a finished job lead to: at least one image, or a failure.
    pub open spec fn fetched(self, payloads: Seq<Seq<u8>>) -> (PollerView, PollActionView) {
        if payloads.len() == 0 {
            self.finished(
                JobOutcomeView::Failed {
                    error: LvmErrorView::Decode {
                        stage: Stage::Fetch,
                        job: Some(self.job.id),
                        cause: DecodeCauseView::NoImages,
                    },
                },
            )
        } else {
            self.finished(
                JobOutcomeView::Succeeded { images: images_of(payloads, self.generation_params) },
            )
        }
    }

    /// The transition function: the state after `event` and the action that it calls for.
    pub open spec fn step(self, event: PollEventView) -> (PollerView, PollActionView) {
        match self.phase {
            PollPhase::Waiting => match event {
                PollEventView::Tick => if self.elapsed >= POLL_TIMEOUT {
                    self.timed_out()
                } else {
                    (
                        PollerView {
                            phase: PollPhase::Querying,
                            elapsed: self.elapsed + POLL_INTERVAL as nat,
                            ..self
                        },
                        PollActionView::QueryStatus,
                    )
                },
                PollEventView::Deadline => self.timed_out(),
                _ => (self, PollActionView::Wait),
            },
            PollPhase::Querying => match event {
                PollEventView::Status { reported } => self.reported(reported),
                PollEventView::StatusFailed { fault } => self.finished(
                    JobOutcomeView::Failed {
                        error: LvmErrorView::tagged(fault, Stage::Poll, Some(self.job.id)),
                    },
                ),
                PollEventView::Deadline => self.timed_out(),
                _ => (self, PollActionView::Wait),
            },
            PollPhase::Fetching => match event {
                PollEventView::Results { payloads } => self.fetched(payloads),
                PollEventView::ResultsFailed { fault } => self.finished(
                    JobOutcomeView::Failed {
                        error: LvmErrorView::tagged(fault, Stage::Fetch, Some(self.job.id)),
                    },
                ),
                _ => (self, PollActionView::Wait),
            },
            PollPhase::Finished => (self, PollActionView::Wait),
        }
    }
}

impl PollerView {
    /// The state after a run of events, the earliest first.
    pub open spec fn run(self, events: Seq<PollEventView>) -> PollerView
        decreases events.len(),
    {
        if events.len() == 0 {
            self
        } else {
            self.run(events.drop_last()).step(events.last()).0
        }
    }

    /// The outcome that a run of events has ended the polling with, if it has ended it.
    pub open spec fn completion(self, events: Seq<PollEventView>) -> Option<JobOutcomeView>
        decreases events.len(),
    {
        if events.len() == 0 {
            None
        } else {
            match self.completion(events.drop_last()) {
                Some(outcome) => Some(outcome),
                None => match self.run(events.drop_last()).step(events.last()).1 {
                    PollActionView::Complete { outcome } => Some(outcome),
                    _ => None,
                },
            }
        }
    }

    /// Whether the polling is still under way.
    pub open spec fn polling(self) -> bool {
        self.phase is Waiting || self.phase is Querying
    }
}

/// Whether an event leaves a job that is being polled without a terminal status and
/// without a failed call: a tick, the deadline, or a report of a transient status.
pub open spec fn uneventful(event: PollEventView) -> bool {
    match event {
        PollEventView::Tick => true,
        PollEventView::Deadline => true,
        PollEventView::Status { reported } => !reported.terminal(),
        _ => false,
    }
}

/// No step breaks what holds of every poller.
pub proof fn lemma_step_keeps_wf(poller: PollerView, event: PollEventView)
    requires
        poller.wf(),
    ensures
        poller.step(event).0.wf(),
{
}

/// A job only ever succeeds with at least one image.
pub proof fn lemma_success_holds_an_image(poller: PollerView, event: PollEventView)
    ensures
        poller.step(event).1 matches PollActionView::Complete {
            outcome: JobOutcomeView::Succeeded { images },
        } ==> images.len() >= 1,
{
}

/// No step changes the id of the job, nor the status of a job that is in a terminal one.
pub proof fn lemma_step_keeps_job(poller: PollerView, event: PollEventView)
    ensures
        poller.step(event).0.job.id == poller.job.id,
        poller.job.status.terminal() ==> poller.step(event).0.job == poller.job,
{
}

/// Once a job has reached a terminal status, whatever is reported for it later is never
/// observed: the job stays as it is through every further run of events.
pub proof fn lemma_terminal_status_is_kept(poller: PollerView, events: Seq<PollEventView>)
    requires
        poller.job.status.terminal(),
    ensures
        poller.run(events).job == poller.job,
    decreases events.len(),
{
    if events.len() > 0 {
        lemma_terminal_status_is_kept(poller, events.drop_last());
        lemma_step_keeps_job(poller.run(events.drop_last()), events.last());
    }
}

/// A finished poller stays finished: no further event changes it or ends it again.
pub proof fn lemma_finished_is_final(poller: PollerView, events: Seq<PollEventView>)
    requires
        poller.phase is Finished,
    ensures
        poller.run(events) == poller,
        poller.completion(events) is None,
    decreases events.len(),
{
    if events.len() > 0 {
        lemma_finished_is_final(poller, events.drop_last());
    }
}

/// Polling ends exactly once: a run from a poller that is not finished has an outcome if
/// and only if it leaves the poller finished.
pub proof fn lemma_completes_when_finished(poller: PollerView, events: Seq<PollEventView>)
    requires
        !(poller.phase is Finished),
    ensures
        poller.completion(events) is Some <==> poller.run(events).phase is Finished,
    decreases events.len(),
{
    if events.len() > 0 {
        lemma_completes_when_finished(poller, events.drop_last());
    }
}

/// An outcome, once reached, is the outcome of every longer run.
pub proof fn lemma_outcome_is_kept(poller: PollerView, events: Seq<PollEventView>, i: int)
    requires
        0 <= i <= events.len(),
        poller.completion(events.take(i)) is Some,
    ensures
        poller.completion(events) == poller.completion(events.take(i)),
    decreases events.len() - i,
{
    if i < events.len() {
        assert(events.take(events.len() - 1).take(i) =~= events.take(i));
        lemma_outcome_is_kept(poller, events.drop_last(), i);
    } else {
        assert(events.take(i) =~= events);
    }
}

/// A job that reaches no terminal status contributes no image: as long as every event is a
/// tick, the deadline or a report of a transient status, the polling is either still under
/// way or has ended with a timeout for this job.
pub proof fn lemma_only_a_timeout_ends_an_unfinished_job(
    poller: PollerView,
    events: Seq<PollEventView>,
)
    requires
        poller.wf(),
        poller.polling(),
        forall|i: int| 0 <= i < events.len() ==> uneventful(#[trigger] events[i]),
    ensures
        poller.run(events).wf(),
        poller.run(events).job.id == poller.job.id,
        poller.run(events).polling() && poller.completion(events) is None || poller.run(
            events,
        ).phase is Finished && poller.completion(events) == Some(
            JobOutcomeView::Failed { error: LvmErrorView::Timeout { job_id: poller.job.id } },
        ),
    decreases events.len(),
{
    if events.len() > 0 {
        let earlier = events.drop_last();
        lemma_only_a_timeout_ends_an_unfinished_job(poller, earlier);
    }
}

/// The deadline ends the polling of a job that has reached no terminal status: it is given
/// up as timed out.
pub proof fn lemma_deadline_times_out(poller: PollerView, events: Seq<PollEventView>, i: int)
    requires
        poller.wf(),
        poller.polling(),
        forall|j: int| 0 <= j < events.len() ==> uneventful(#[trigger] events[j]),
        0 <= i < events.len(),
        events[i] is Deadline,
    ensures
        poller.completion(events) == Some(
            JobOutcomeView::Failed { error: LvmErrorView::Timeout { job_id: poller.job.id } },
        ),
{
    let before = events.take(i);
    let through = events.take(i + 1);
    lemma_only_a_timeout_ends_an_unfinished_job(poller, before);
    lemma_only_a_timeout_ends_an_unfinished_job(poller, through);
    lemma_outcome_is_kept(poller, events, i + 1);
}

/// One round of polling: a tick, then the report of a status.
pub open spec fn rounds(reports: Seq<JobStatus>) -> Seq<PollEventView>
    decreases reports.len(),
{
    if reports.len() == 0 {
        Seq::empty()
    } else {
        rounds(reports.drop_last()).push(PollEventView::Tick).push(
            PollEventView::Status { reported: reports.last() },
        )
    }
}

/// Each round of polling that sees a transient status uses up one interval of the timeout.
pub proof fn lemma_rounds_use_up_the_timeout(poller: PollerView, reports: Seq<JobStatus>)
    requires
        poller.wf(),
        poller.phase is Waiting,
        poller.elapsed + reports.len() * POLL_INTERVAL <= POLL_TIMEOUT,
        forall|i: int| 0 <= i < reports.len() ==> !(#[trigger] reports[i]).terminal(),
    ensures
        poller.run(rounds(reports)).phase is Waiting,
        poller.run(rounds(reports)).elapsed == poller.elapsed + reports.len() * POLL_INTERVAL,
        poller.run(rounds(reports)).job.id == poller.job.id,
        poller.completion(rounds(reports)) is None,
    decreases reports.len(),
{
    if reports.len() > 0 {
        let earlier = reports.drop_last();
        lemma_rounds_use_up_the_timeout(poller, earlier);
        let ticked = rounds(earlier).push(PollEventView::Tick);
        assert(ticked.drop_last() =~= rounds(earlier));
        assert(poller.completion(ticked) is None);
        assert(rounds(reports).drop_last() =~= ticked);
    }
}

/// A job that is still in a transient status when the timeout is used up is given up at
/// the next tick: after as many rounds of polling as the timeout holds intervals, none of
/// which saw a terminal status, the tick that follows ends the polling with a timeout.
pub proof fn lemma_gives_up_after_the_timeout(
    job: JobView,
    params: Option<Seq<char>>,
    reports: Seq<JobStatus>,
)
    requires
        !job.status.terminal(),
        reports.len() * POLL_INTERVAL == POLL_TIMEOUT,
        forall|i: int| 0 <= i < reports.len() ==> !(#[trigger] reports[i]).terminal(),
    ensures
        PollerView::started(job, params).completion(rounds(reports).push(PollEventView::Tick))
            == Some(JobOutcomeView::Failed { error: LvmErrorView::Timeout { job_id: job.id } }),
{
    let poller = PollerView::started(job, params);
    lemma_rounds_use_up_the_timeout(poller, reports);
    let events = rounds(reports).push(PollEventView::Tick);
    assert(events.drop_last() =~= rounds(reports));
}

/// Wraps each payload into an image that carries the generation parameters.
pub fn wrap_payloads(payloads: Vec<Vec<u8>>, generation_params: &Option<String>) -> (images: Vec<
    LvmImage,
>)
    ensures
        images.deep_view() == images_of(payloads_view(payloads@), generation_params.deep_view()),
{
    let ghost all = payloads@;
    let mut images: Vec<LvmImage> = Vec::new();
    for data in it: payloads
        invariant
            it.seq() == all,
            images@.len() == it.index(),
            forall|j: int|
                0 <= j < images@.len() ==> (#[trigger] images@[j])@ == images_of(
                    payloads_view(all),
                    generation_params.deep_view(),
                )[j],
    {
        let metadata = Some(
            LvmImageMetadata { generation_params: copy_optional_text(generation_params) },
        );
        images.push(LvmImage { data, metadata });
    }
    images
}

impl Poller {
    /// Starts the polling of a job that was just submitted. `generation_params` is the
    /// serialized form of the parameters that the request was sent with; every image of the
    /// job will carry it.
    pub fn new(job: Job, generation_params: Option<String>) -> (poller: Poller)
        ensures
            poller@ == PollerView::started(job@, generation_params.deep_view()),
            !job@.status.terminal() ==> poller@.wf(),
    {
        Poller { job, phase: PollPhase::Waiting, elapsed: 0, generation_params }
    }

    /// The job that is polled.
    pub fn job(&self) -> (r: &Job)
        ensures
            r@ == self@.job,
    {
        &self.job
    }

    /// Where the polling stands.
    pub fn phase(&self) -> (r: PollPhase)
        ensures
            r == self@.phase,
    {
        self.phase
    }

    /// Time units that have passed on the poller's own count of ticks.
    pub fn elapsed(&self) -> (r: u64)
        ensures
            r == self@.elapsed,
    {
        self.elapsed
    }

    /// Takes one event and says what to do next.
    ///
    /// A tick while waiting starts a status query, unless the ticks seen so far already
    /// cover the timeout: then the job is given up as timed out, as it is when the deadline
    /// passes before a terminal status was seen. A reported `Done` calls for the results; a
    /// reported `Failed` or `Interrupted` ends the polling with a job failure; any other
    /// status leads back to waiting. A call that gave nothing usable ends the polling with
    /// that failure, tagged with the stage and the job. An event that the current phase
    /// does not expect changes nothing, and a finished poller stays finished.
    pub fn step(&mut self, event: PollEvent) -> (action: PollAction)
        ensures
            (final(self)@, action@) == old(self)@.step(event@),
            old(self)@.wf() ==> final(self)@.wf(),
    {
        match self.phase {
            PollPhase::Waiting => match event {
                PollEvent::Tick => {
                    if self.elapsed >= POLL_TIMEOUT {
                        self.time_out()
                    } else {
                        self.phase = PollPhase::Querying;
                        self.elapsed = self.elapsed + POLL_INTERVAL;
                        PollAction::QueryStatus
                    }
                },
                PollEvent::Deadline => self.time_out(),
                _ => PollAction::Wait,
            },
            PollPhase::Querying => match event {
                PollEvent::Status { reported } => {
                    self.job.observe(reported);
                    match reported {
                        JobStatus::Done => {
                            self.phase = PollPhase::Fetching;
                            PollAction::FetchResults
                        },
                        JobStatus::Failed | JobStatus::Interrupted => {
                            let error = LvmError::JobFailure {
                                job_id: self.job.id().to_owned(),
                                status: reported,
                            };
                            self.finish(JobOutcome::Failed { error })
                        },
                        JobStatus::Pending | JobStatus::Running => {
                            self.phase = PollPhase::Waiting;
                            PollAction::Wait
                        },
                    }
                },
                PollEvent::StatusFailed { fault } => {
                    let error = LvmError::tagged(
                        fault,
                        Stage::Poll,
                        Some(self.job.id().to_owned()),
                    );
                    self.finish(JobOutcome::Failed { error })
                },
                PollEvent::Deadline => self.time_out(),
                _ => PollAction::Wait,
            },
            PollPhase::Fetching => match event {
                PollEvent::Results { payloads } => {
                    if payloads.len() == 0 {
                        let error = LvmError::Decode {
                            stage: Stage::Fetch,
                            job: Some(self.job.id().to_owned()),
                            cause: DecodeCause::NoImages,
                        };
                        self.finish(JobOutcome::Failed { error })
                    } else {
                        let images = wrap_payloads(payloads, &self.generation_params);
                        self.finish(JobOutcome::Succeeded { images })
                    }
                },
                PollEvent::ResultsFailed { fault } => {
                    let error = LvmError::tagged(
                        fault,
                        Stage::Fetch,
                        Some(self.job.id().to_owned()),
                    );
                    self.finish(JobOutcome::Failed { error })
                },
                _ => PollAction::Wait,
            },
            PollPhase::Finished => PollAction::Wait,
        }
    }

    fn finish(&mut self, outcome: JobOutcome) -> (action: PollAction)
        ensures
            (final(self)@, action@) == old(self)@.finished(outcome@),
    {
        self.phase = PollPhase::Finished;
        PollAction::Complete { outcome }
    }

    fn time_out(&mut self) -> (action: PollAction)
        ensures
            (final(self)@, action@) == old(self)@.timed_out(),
    {
        let error = LvmError::Timeout { job_id: self.job.id().to_owned() };
        self.finish(JobOutcome::Failed { error })
    }
}

} // verus!
