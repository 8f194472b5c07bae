//! One job per batch: what is submitted, which jobs come of it, and what their outcomes
//! add up to.

use crate::errors::{
    answer_view, DecodeCause, DecodeCauseView, Fault, FaultView, LvmError, LvmErrorView, Stage,
    ValidationIssue,
};
use crate::images::{LvmImage, LvmImageView};
use crate::parameters::text_to_image::{TextToImageRequest, TextToImageRequestView};
use crate::providers::automatic1111::api::job::{Job, JobStatus, JobView};
use crate::providers::automatic1111::api::poll::{JobOutcome, JobOutcomeView};
use crate::providers::automatic1111::api::queue::{QueueRequestBody, QueueRequestBodyView};
use vstd::prelude::*;

verus! {

/// What is to be submitted for a request.
#[derive(Debug, PartialEq)]
pub struct SubmissionPlan {
    /// The body of every submission.
    pub payload: QueueRequestBody,
    /// How many submissions to make.
    pub count: u32,
    /// What the normalization of the request had to drop.
    pub warning: Option<ValidationIssue>,
}

/// What a [`SubmissionPlan`] holds.
pub struct SubmissionPlanView {
    pub payload: QueueRequestBodyView,
    pub count: u32,
    pub warning: Option<ValidationIssue>,
}

impl View for SubmissionPlan {
    type V = SubmissionPlanView;

    open spec fn view(&self) -> SubmissionPlanView {
        SubmissionPlanView { payload: self.payload@, count: self.count, warning: self.warning }
    }
}

impl SubmissionPlanView {
    /// The submissions that a request calls for: as many as it asks batches for, one where
    /// it names no number, each with the request's normalized body for a single batch.
    pub open spec fn of(request: TextToImageRequestView) -> SubmissionPlanView {
        SubmissionPlanView {
            payload: QueueRequestBodyView::of(request).single_batch(),
            count: match request.num_batches {
                Some(n) => n,
                None => 1,
            },
            warning: QueueRequestBodyView::warning_of(request),
        }
    }
}

/// Plans the submissions for a request: as many as the request asks batches for, one where
/// it names no number, each with the request's normalized body for a single batch.
pub fn plan_submissions(request: TextToImageRequest) -> (plan: SubmissionPlan)
    ensures
        plan@ == SubmissionPlanView::of(request@),
        plan.count == request@.batches(),
{
    let count = match request.num_batches {
        Some(n) => n,
        None => 1,
    };
    let (body, warning) = QueueRequestBody::normalize(request);
    SubmissionPlan { payload: body.single_batch(), count, warning }
}

/// The answers to all submissions, in the order of the batches.
pub open spec fn submissions_view(answers: Seq<Result<String, Fault>>) -> Seq<
    Result<Seq<char>, FaultView>,
> {
    Seq::new(answers.len(), |i: int| answer_view(answers[i]))
}

/// The jobs that come of the answers: one for each id, pending, in the order of the
/// batches.
pub open spec fn accepted(answers: Seq<Result<Seq<char>, FaultView>>, now: u64) -> Seq<JobView>
    decreases answers.len(),
{
    if answers.len() == 0 {
        Seq::empty()
    } else {
        let earlier = accepted(answers.drop_last(), now);
        match answers.last() {
            Ok(id) => earlier.push(JobView { id, status: JobStatus::Pending, created_at: now }),
            Err(_) => earlier,
        }
    }
}

/// The failures among the answers, each tagged as one of submission, in the order of the
/// batches.
pub open spec fn rejected(answers: Seq<Result<Seq<char>, FaultView>>) -> Seq<LvmErrorView>
    decreases answers.len(),
{
    if answers.len() == 0 {
        Seq::empty()
    } else {
        let earlier = rejected(answers.drop_last());
        match answers.last() {
            Ok(_) => earlier,
            Err(fault) => earlier.push(LvmErrorView::tagged(fault, Stage::Submission, None)),
        }
    }
}

/// Sorts the answers to the submissions of one request, once all of them are in: every id
/// becomes a pending job to poll, every failure a diagnostic. A failed submission takes
/// nothing from the others.
pub fn collect_submissions(answers: Vec<Result<String, Fault>>, now: u64) -> (r: (
    Vec<Job>,
    Vec<LvmError>,
))
    ensures
        r.0.deep_view() == accepted(submissions_view(answers@), now),
        r.1.deep_view() == rejected(submissions_view(answers@)),
{
    let ghost all = submissions_view(answers@);
    let ghost given = answers@;
    let mut jobs: Vec<Job> = Vec::new();
    let mut failures: Vec<LvmError> = Vec::new();
    for answer in it: answers
        invariant
            it.seq() == given,
            all == submissions_view(given),
            jobs.deep_view() == accepted(all.take(it.index() as int), now),
            failures.deep_view() == rejected(all.take(it.index() as int)),
    {
        let ghost k = it.index() as int;
        assert(all.take(k + 1).drop_last() =~= all.take(k));
        match answer {
            Ok(id) => {
                let job = Job::new(id, now);
                jobs.push(job);
            },
            Err(fault) => {
                let error = LvmError::tagged(fault, Stage::Submission, None);
                failures.push(error);
            },
        }
    }
    assert(all.take(given.len() as int) =~= all);
    (jobs, failures)
}

/// What a request comes to: the images of the jobs that succeeded, and one diagnostic for
/// each batch that yielded none.
#[derive(Debug, PartialEq)]
pub struct GenerationReport {
    pub images: Vec<LvmImage>,
    pub diagnostics: Vec<LvmError>,
}

/// What a [`GenerationReport`] holds.
pub struct GenerationReportView {
    pub images: Seq<LvmImageView>,
    pub diagnostics: Seq<LvmErrorView>,
}

impl View for GenerationReport {
    type V = GenerationReportView;

    open spec fn view(&self) -> GenerationReportView {
        GenerationReportView {
            images: self.images.deep_view(),
            diagnostics: self.diagnostics.deep_view(),
        }
    }
}

/// The images of the jobs that succeeded, job after job in the order of the outcomes.
pub open spec fn gathered_images(outcomes: Seq<JobOutcomeView>) -> Seq<LvmImageView>
    decreases outcomes.len(),
{
    if outcomes.len() == 0 {
        Seq::empty()
    } else {
        let earlier = gathered_images(outcomes.drop_last());
        match outcomes.last() {
            JobOutcomeView::Succeeded { images } => earlier + images,
            JobOutcomeView::Failed { .. } => earlier,
        }
    }
}

/// The errors of the jobs that failed, in the order of the outcomes.
pub open spec fn gathered_failures(outcomes: Seq<JobOutcomeView>) -> Seq<LvmErrorView>
    decreases outcomes.len(),
{
    if outcomes.len() == 0 {
        Seq::empty()
    } else {
        let earlier = gathered_failures(outcomes.drop_last());
        match outcomes.last() {
            JobOutcomeView::Succeeded { .. } => earlier,
            JobOutcomeView::Failed { error } => earlier.push(error),
        }
    }
}

/// The result of a request whose submissions failed with `rejected` and whose jobs ended
/// with `outcomes`, in the order in which they ended.
///
/// With at least one image the request succeeds with all images, and with the failed
/// submissions and the failed jobs as diagnostics. A request for no batch at all succeeds
/// with nothing. Otherwise the request as a whole fails, with the first diagnostic as its
/// error.
pub open spec fn aggregated(rejected: Seq<LvmErrorView>, outcomes: Seq<JobOutcomeView>) -> Result<
    GenerationReportView,
    LvmErrorView,
> {
    let images = gathered_images(outcomes);
    let diagnostics = rejected + gathered_failures(outcomes);
    if images.len() > 0 || rejected.len() + outcomes.len() == 0 {
        Ok(GenerationReportView { images, diagnostics })
    } else if diagnostics.len() > 0 {
        Err(diagnostics[0])
    } else {
        Err(
            LvmErrorView::Decode {
                stage: Stage::Fetch,
                job: None,
                cause: DecodeCauseView::NoImages,
            },
        )
    }
}

/// Puts the result of a request together from the failures of its submissions and the
/// outcomes of its jobs, taken in the order in which the jobs ended. A job that failed
/// costs the request only its own images.
pub fn aggregate(rejected: Vec<LvmError>, outcomes: Vec<JobOutcome>) -> (r: Result<
    GenerationReport,
    LvmError,
>)
    ensures
        match r {
            Ok(report) => aggregated(rejected.deep_view(), outcomes.deep_view()) == Ok::<
                GenerationReportView,
                LvmErrorView,
            >(report@),
            Err(error) => aggregated(rejected.deep_view(), outcomes.deep_view()) == Err::<
                GenerationReportView,
                LvmErrorView,
            >(error@),
        },
{
    let ghost all = outcomes.deep_view();
    let ghost given = outcomes@;
    let ghost early = rejected.deep_view();
    let batches = rejected.len();
    let jobs = outcomes.len();
    let mut images: Vec<LvmImage> = Vec::new();
    let mut diagnostics = rejected;
    for outcome in it: outcomes
        invariant
            it.seq() == given,
            all.len() == given.len(),
            forall|j: int| 0 <= j < given.len() ==> all[j] == (#[trigger] given[j])@,
            images.deep_view() == gathered_images(all.take(it.index() as int)),
            diagnostics.deep_view() == early + gathered_failures(all.take(it.index() as int)),
    {
        let ghost k = it.index() as int;
        let ghost before_diagnostics = diagnostics.deep_view();
        assert(all.take(k + 1).drop_last() =~= all.take(k));
        match outcome {
            JobOutcome::Succeeded { images: mut job_images } => {
                images.append(&mut job_images);
            },
            JobOutcome::Failed { error } => {
                diagnostics.push(error);
                assert(before_diagnostics.push(error@) =~= early + gathered_failures(
                    all.take(k),
                ).push(error@));
            },
        }
    }
    assert(all.take(given.len() as int) =~= all);
    if images.len() > 0 || (batches == 0 && jobs == 0) {
        Ok(GenerationReport { images, diagnostics })
    } else if diagnostics.len() > 0 {
        Err(diagnostics.remove(0))
    } else {
        Err(LvmError::Decode { stage: Stage::Fetch, job: None, cause: DecodeCause::NoImages })
    }
}

/// How many of the jobs succeeded.
pub open spec fn succeeded_jobs(outcomes: Seq<JobOutcomeView>) -> nat
    decreases outcomes.len(),
{
    if outcomes.len() == 0 {
        0
    } else {
        let earlier = succeeded_jobs(outcomes.drop_last());
        match outcomes.last() {
            JobOutcomeView::Succeeded { .. } => earlier + 1,
            JobOutcomeView::Failed { .. } => earlier,
        }
    }
}

/// Whether every job that succeeded yielded exactly one image, as a job for a single
/// batch does.
pub open spec fn one_image_each(outcomes: Seq<JobOutcomeView>) -> bool {
    forall|i: int|
        0 <= i < outcomes.len() ==> (#[trigger] outcomes[i] matches JobOutcomeView::Succeeded {
            images,
        } ==> images.len() == 1)
}

/// Every job either succeeded or left one failure behind.
pub proof fn lemma_every_job_is_counted(outcomes: Seq<JobOutcomeView>)
    ensures
        succeeded_jobs(outcomes) + gathered_failures(outcomes).len() == outcomes.len(),
    decreases outcomes.len(),
{
    if outcomes.len() > 0 {
        lemma_every_job_is_counted(outcomes.drop_last());
    }
}

/// Where every successful job yielded one image, there are as many images as successful
/// jobs.
pub proof fn lemma_one_image_per_success(outcomes: Seq<JobOutcomeView>)
    requires
        one_image_each(outcomes),
    ensures
        gathered_images(outcomes).len() == succeeded_jobs(outcomes),
    decreases outcomes.len(),
{
    if outcomes.len() > 0 {
        let earlier = outcomes.drop_last();
        lemma_one_image_per_success(earlier);
    }
}

/// A request fails as a whole only where no batch yielded an image: with `n` batches of
/// which `k` failed and the others yielded one image each, and with at least one that did
/// not fail, the result holds `n - k` images and `k` diagnostics. A request for no batch
/// holds neither.
pub proof fn lemma_partial_failure_is_tolerated(
    rejected: Seq<LvmErrorView>,
    outcomes: Seq<JobOutcomeView>,
    n: nat,
    k: nat,
)
    requires
        n == rejected.len() + outcomes.len(),
        k == rejected.len() + gathered_failures(outcomes).len(),
        one_image_each(outcomes),
        k < n || n == 0,
    ensures
        aggregated(rejected, outcomes) matches Ok(report) && report.images.len() == n - k
            && report.diagnostics.len() == k,
{
    lemma_every_job_is_counted(outcomes);
    lemma_one_image_per_success(outcomes);
}

/// Where every one of `n >= 1` batches is submitted and every job succeeds with its one
/// image, the result holds exactly `n` images and no diagnostic.
pub proof fn lemma_all_jobs_succeed(outcomes: Seq<JobOutcomeView>)
    requires
        outcomes.len() >= 1,
        forall|i: int| 0 <= i < outcomes.len() ==> #[trigger] outcomes[i] is Succeeded,
        one_image_each(outcomes),
    ensures
        aggregated(Seq::empty(), outcomes) matches Ok(report) && report.images.len()
            == outcomes.len() && report.diagnostics.len() == 0,
{
    lemma_no_failure_without_failed_job(outcomes);
    lemma_partial_failure_is_tolerated(Seq::empty(), outcomes, outcomes.len(), 0);
}

/// Jobs that all succeeded leave no failure behind.
proof fn lemma_no_failure_without_failed_job(outcomes: Seq<JobOutcomeView>)
    requires
        forall|i: int| 0 <= i < outcomes.len() ==> #[trigger] outcomes[i] is Succeeded,
    ensures
        gathered_failures(outcomes).len() == 0,
    decreases outcomes.len(),
{
    if outcomes.len() > 0 {
        let earlier = outcomes.drop_last();
        lemma_no_failure_without_failed_job(earlier);
    }
}

/// A request that succeeds holds at least one image, unless it asked for no batch at all.
pub proof fn lemma_success_is_never_empty(
    rejected: Seq<LvmErrorView>,
    outcomes: Seq<JobOutcomeView>,
)
    requires
        rejected.len() + outcomes.len() >= 1,
    ensures
        aggregated(rejected, outcomes) matches Ok(report) ==> report.images.len() >= 1,
{
}

/// Where every batch failed, and there was at least one, the request fails as a whole.
pub proof fn lemma_total_failure_is_an_error(
    rejected: Seq<LvmErrorView>,
    outcomes: Seq<JobOutcomeView>,
)
    requires
        rejected.len() + outcomes.len() >= 1,
        forall|i: int| 0 <= i < outcomes.len() ==> #[trigger] outcomes[i] is Failed,
    ensures
        aggregated(rejected, outcomes) is Err,
{
    lemma_no_image_without_success(outcomes);
}

/// Jobs that all failed yield no image.
proof fn lemma_no_image_without_success(outcomes: Seq<JobOutcomeView>)
    requires
        forall|i: int| 0 <= i < outcomes.len() ==> #[trigger] outcomes[i] is Failed,
    ensures
        gathered_images(outcomes).len() == 0,
    decreases outcomes.len(),
{
    if outcomes.len() > 0 {
        let earlier = outcomes.drop_last();
        lemma_no_image_without_success(earlier);
    }
}

/// Every submission ends up as a job or as a diagnostic, never as both.
pub proof fn lemma_every_submission_is_kept(answers: Seq<Result<Seq<char>, FaultView>>, now: u64)
    ensures
        accepted(answers, now).len() + rejected(answers).len() == answers.len(),
    decreases answers.len(),
{
    if answers.len() > 0 {
        lemma_every_submission_is_kept(answers.drop_last(), now);
    }
}

} // verus!
