//! What can go wrong, and how each failure is told to the caller.

use crate::images::Base64Fault;
use crate::parameters::provider::{ProviderConfiguration, ProviderConfigurationView};
use crate::providers::automatic1111::api::job::JobStatus;
use crate::text::{copy_optional_text, debug_optional_text, render_optional_text};
use vstd::prelude::*;
use vstd::string::*;

verus! {

/// The step of a generation at which something failed.
#[derive(Debug, Clone, Copy, PartialEq, Eq, Structural)]
pub enum Stage {
    Submission,
    Poll,
    Fetch,
}

/// A request value outside the domain that a backend accepts. It is corrected where it is
/// found and only ever reported as a warning.
#[derive(Debug, Clone, Copy, PartialEq, Eq, Structural)]
pub enum ValidationIssue {
    /// The number of batches is not one that a synchronous provider takes.
    BatchCount { requested: u32 },
    /// The CFG scale, given by its bit pattern, is not a finite number.
    CfgScale { bits: u64 },
}

impl ValidationIssue {
    /// The text of the warning for each issue.
    pub open spec fn warning(self) -> Seq<char> {
        match self {
            ValidationIssue::BatchCount {
                ..
            } => "Invalid number of batches. Using default value of 1."@,
            ValidationIssue::CfgScale { .. } => "Warning: Could not convert cfg_scale to Number."@,
        }
    }

    /// The warning to show for this issue.
    pub fn describe(&self) -> (r: &'static str)
        ensures
            r@ == self.warning(),
    {
        match self {
            ValidationIssue::BatchCount {
                ..
            } => "Invalid number of batches. Using default value of 1.",
            ValidationIssue::CfgScale { .. } => "Warning: Could not convert cfg_scale to Number.",
        }
    }
}

/// Why a response could not be used.
#[derive(Debug, PartialEq)]
pub enum DecodeCause {
    /// The body is not the JSON that the endpoint is known to send.
    Malformed { detail: String },
    /// The status is none of the names of the protocol.
    UnknownStatus { name: String },
    /// The image at this place in the results is not base64.
    Image { index: usize, fault: Base64Fault },
    /// The results of a finished job hold no image.
    NoImages,
}

/// What a [`DecodeCause`] holds.
pub enum DecodeCauseView {
    Malformed { detail: Seq<char> },
    UnknownStatus { name: Seq<char> },
    Image { index: usize, fault: Base64Fault },
    NoImages,
}

impl View for DecodeCause {
    type V = DecodeCauseView;

    open spec fn view(&self) -> DecodeCauseView {
        match self {
            DecodeCause::Malformed { detail } => DecodeCauseView::Malformed { detail: detail@ },
            DecodeCause::UnknownStatus { name } => DecodeCauseView::UnknownStatus { name: name@ },
            DecodeCause::Image { index, fault } => DecodeCauseView::Image {
                index: *index,
                fault: *fault,
            },
            DecodeCause::NoImages => DecodeCauseView::NoImages,
        }
    }
}

impl Clone for DecodeCause {
    fn clone(&self) -> (r: Self)
        ensures
            r@ == self@,
    {
        match self {
            DecodeCause::Malformed { detail } => DecodeCause::Malformed { detail: detail.clone() },
            DecodeCause::UnknownStatus { name } => DecodeCause::UnknownStatus {
                name: name.clone(),
            },
            DecodeCause::Image { index, fault } => DecodeCause::Image {
                index: *index,
                fault: *fault,
            },
            DecodeCause::NoImages => DecodeCause::NoImages,
        }
    }
}

impl DecodeCauseView {
    /// The text that tells of this cause.
    pub open spec fn description(self) -> Seq<char> {
        match self {
            DecodeCauseView::Malformed { detail } => detail,
            DecodeCauseView::UnknownStatus { name } => "Unknown task status: "@ + name,
            DecodeCauseView::Image { .. } => "Image is not valid base64."@,
            DecodeCauseView::NoImages => "Task returned no images."@,
        }
    }
}

impl DecodeCause {
    /// The text that tells of this cause.
    pub fn describe(&self) -> (r: String)
        ensures
            r@ == self@.description(),
    {
        match self {
            DecodeCause::Malformed { detail } => detail.clone(),
            DecodeCause::UnknownStatus { name } => {
                let mut text = String::from_str("Unknown task status: ");
                text.append(name.as_str());
                text
            },
            DecodeCause::Image { .. } => String::from_str("Image is not valid base64."),
            DecodeCause::NoImages => String::from_str("Task returned no images."),
        }
    }
}

/// How many characters of a response are shown with a failure to read it.
pub const EXCERPT_LENGTH: usize = 200;

/// The beginning of a response that is shown with a failure to read it.
pub open spec fn excerpt(body: Seq<char>) -> Seq<char> {
    if body.len() <= EXCERPT_LENGTH {
        body
    } else {
        body.take(EXCERPT_LENGTH as int)
    }
}

/// The text that tells of a response that could not be read: why not, from which endpoint
/// it came, and how it begins.
pub open spec fn malformed_text(endpoint: Seq<char>, reason: Seq<char>, body: Seq<char>) -> Seq<
    char,
> {
    reason + " Endpoint: "@ + endpoint + ". Response: "@ + excerpt(body)
}

/// What the caller of an endpoint reports when the call gave nothing usable.
#[derive(Debug, PartialEq)]
pub enum Fault {
    /// The endpoint could not be reached, or the connection broke.
    Transport { detail: String },
    /// The endpoint answered, and the answer could not be used.
    Decode { cause: DecodeCause },
}

/// What a [`Fault`] holds.
pub enum FaultView {
    Transport { detail: Seq<char> },
    Decode { cause: DecodeCauseView },
}

impl View for Fault {
    type V = FaultView;

    open spec fn view(&self) -> FaultView {
        match self {
            Fault::Transport { detail } => FaultView::Transport { detail: detail@ },
            Fault::Decode { cause } => FaultView::Decode { cause: cause@ },
        }
    }
}

impl Clone for Fault {
    fn clone(&self) -> (r: Self)
        ensures
            r@ == self@,
    {
        match self {
            Fault::Transport { detail } => Fault::Transport { detail: detail.clone() },
            Fault::Decode { cause } => Fault::Decode { cause: cause.clone() },
        }
    }
}

impl Fault {
    /// The failure to read the response of an endpoint. `reason` says why the body is not
    /// what the endpoint is known to send; the failure shows it with the endpoint and the
    /// beginning of the body.
    pub fn malformed(endpoint: &str, reason: &str, body: &str) -> (fault: Fault)
        ensures
            fault@ == (FaultView::Decode {
                cause: DecodeCauseView::Malformed {
                    detail: malformed_text(endpoint@, reason@, body@),
                },
            }),
    {
        let length = body.unicode_len();
        let shown = if length <= EXCERPT_LENGTH {
            body
        } else {
            body.substring_char(0, EXCERPT_LENGTH)
        };
        let mut detail = String::from_str(reason);
        detail.append(" Endpoint: ");
        detail.append(endpoint);
        detail.append(". Response: ");
        detail.append(shown);
        Fault::Decode { cause: DecodeCause::Malformed { detail } }
    }
}

/// What came of a call that answers with a text: the text, or nothing usable.
pub open spec fn answer_view(answer: Result<String, Fault>) -> Result<Seq<char>, FaultView> {
    match answer {
        Ok(text) => Ok(text@),
        Err(fault) => Err(fault@),
    }
}

/// What came of a call that answers with a list of texts: the texts, or nothing usable.
pub open spec fn answers_view(answer: Result<Vec<String>, Fault>) -> Result<
    Seq<Seq<char>>,
    FaultView,
> {
    match answer {
        Ok(texts) => Ok(texts.deep_view()),
        Err(fault) => Err(fault@),
    }
}

/// Something went wrong while trying to configure a provider.
#[derive(Debug, PartialEq)]
pub struct ProviderConfigurationError {
    pub message: String,
    pub configuration: ProviderConfiguration,
}

/// What a [`ProviderConfigurationError`] holds.
pub struct ProviderConfigurationErrorView {
    pub message: Seq<char>,
    pub configuration: ProviderConfigurationView,
}

impl View for ProviderConfigurationError {
    type V = ProviderConfigurationErrorView;

    open spec fn view(&self) -> ProviderConfigurationErrorView {
        ProviderConfigurationErrorView {
            message: self.message@,
            configuration: self.configuration@,
        }
    }
}

impl Clone for ProviderConfigurationError {
    fn clone(&self) -> (r: Self)
        ensures
            r@ == self@,
    {
        ProviderConfigurationError {
            message: self.message.clone(),
            configuration: self.configuration.clone(),
        }
    }
}

/// The text that tells of a configuration error, given the rendering of each field of the
/// configuration.
pub open spec fn configuration_error_text(
    message: Seq<char>,
    base_url: Seq<char>,
    api_key_env_var: Seq<char>,
) -> Seq<char> {
    "Provider configuration error: "@ + message
        + ". Configuration: ProviderConfiguration { base_url: "@ + base_url
        + ", api_key_env_var: "@ + api_key_env_var + " }"@
}

/// Puts the text of a configuration error together from its message and the rendering of
/// each field of the configuration.
pub fn compose_configuration_error(message: &str, base_url: &str, api_key_env_var: &str) -> (r:
    String)
    ensures
        r@ == configuration_error_text(message@, base_url@, api_key_env_var@),
{
    let mut text = String::from_str("Provider configuration error: ");
    text.append(message);
    text.append(". Configuration: ProviderConfiguration { base_url: ");
    text.append(base_url);
    text.append(", api_key_env_var: ");
    text.append(api_key_env_var);
    text.append(" }");
    text
}

impl ProviderConfigurationErrorView {
    /// The text that tells of this error.
    pub open spec fn description(self) -> Seq<char> {
        configuration_error_text(
            self.message,
            debug_optional_text(self.configuration.base_url),
            debug_optional_text(self.configuration.api_key_env_var),
        )
    }
}

impl ProviderConfigurationError {
    /// The text that tells of this error: the message, then the configuration as `{:?}`
    /// shows it.
    pub fn describe(&self) -> (r: String)
        ensures
            r@ == self@.description(),
    {
        let base_url = render_optional_text(&self.configuration.base_url);
        let api_key_env_var = render_optional_text(&self.configuration.api_key_env_var);
        compose_configuration_error(
            self.message.as_str(),
            base_url.as_str(),
            api_key_env_var.as_str(),
        )
    }
}

/// A failure of a generation, tagged with the stage and the job that it belongs to.
#[derive(Debug, PartialEq)]
pub enum LvmError {
    /// A network failure on the way to an endpoint.
    Transport { stage: Stage, job: Option<String>, detail: String },
    /// A response that could not be used.
    Decode { stage: Stage, job: Option<String>, cause: DecodeCause },
    /// The backend reports the job as failed or interrupted.
    JobFailure { job_id: String, status: JobStatus },
    /// The polling deadline passed before the job reached a terminal status.
    Timeout { job_id: String },
    /// A credential is missing or the provider cannot be used as configured.
    Configuration { error: ProviderConfigurationError },
}

/// What an [`LvmError`] holds.
pub enum LvmErrorView {
    Transport { stage: Stage, job: Option<Seq<char>>, detail: Seq<char> },
    Decode { stage: Stage, job: Option<Seq<char>>, cause: DecodeCauseView },
    JobFailure { job_id: Seq<char>, status: JobStatus },
    Timeout { job_id: Seq<char> },
    Configuration { error: ProviderConfigurationErrorView },
}

impl View for LvmError {
    type V = LvmErrorView;

    open spec fn view(&self) -> LvmErrorView {
        match self {
            LvmError::Transport { stage, job, detail } => LvmErrorView::Transport {
                stage: *stage,
                job: job.deep_view(),
                detail: detail@,
            },
            LvmError::Decode { stage, job, cause } => LvmErrorView::Decode {
                stage: *stage,
                job: job.deep_view(),
                cause: cause@,
            },
            LvmError::JobFailure { job_id, status } => LvmErrorView::JobFailure {
                job_id: job_id@,
                status: *status,
            },
            LvmError::Timeout { job_id } => LvmErrorView::Timeout { job_id: job_id@ },
            LvmError::Configuration { error } => LvmErrorView::Configuration { error: error@ },
        }
    }
}

impl DeepView for LvmError {
    type V = LvmErrorView;

    open spec fn deep_view(&self) -> LvmErrorView {
        self@
    }
}

impl LvmErrorView {
    /// The failure of a call at `stage` for `job`, tagged with both.
    pub open spec fn tagged(
        fault: FaultView,
        stage: Stage,
        job: Option<Seq<char>>,
    ) -> LvmErrorView {
        match fault {
            FaultView::Transport { detail } => LvmErrorView::Transport { stage, job, detail },
            FaultView::Decode { cause } => LvmErrorView::Decode { stage, job, cause },
        }
    }

    /// The text that tells of this error.
    pub open spec fn description(self) -> Seq<char> {
        match self {
            LvmErrorView::Transport { detail, .. } => detail,
            LvmErrorView::Decode { cause, .. } => cause.description(),
            LvmErrorView::JobFailure { status, .. } => if status is Interrupted {
                "Task interrupted."@
            } else {
                "Task failed."@
            },
            LvmErrorView::Timeout { .. } => "Task timed out."@,
            LvmErrorView::Configuration { error } => error.description(),
        }
    }
}

impl Clone for LvmError {
    fn clone(&self) -> (r: Self)
        ensures
            r@ == self@,
    {
        match self {
            LvmError::Transport { stage, job, detail } => LvmError::Transport {
                stage: *stage,
                job: copy_optional_text(job),
                detail: detail.clone(),
            },
            LvmError::Decode { stage, job, cause } => LvmError::Decode {
                stage: *stage,
                job: copy_optional_text(job),
                cause: cause.clone(),
            },
            LvmError::JobFailure { job_id, status } => LvmError::JobFailure {
                job_id: job_id.clone(),
                status: *status,
            },
            LvmError::Timeout { job_id } => LvmError::Timeout { job_id: job_id.clone() },
            LvmError::Configuration { error } => LvmError::Configuration { error: error.clone() },
        }
    }
}

impl LvmError {
    /// Tags the failure of a call with the stage at which it was made and the job that it
    /// was made for.
    pub fn tagged(fault: Fault, stage: Stage, job: Option<String>) -> (r: LvmError)
        ensures
            r@ == LvmErrorView::tagged(fault@, stage, job.deep_view()),
    {
        match fault {
            Fault::Transport { detail } => LvmError::Transport { stage, job, detail },
            Fault::Decode { cause } => LvmError::Decode { stage, job, cause },
        }
    }

    /// The text that tells of this error.
    pub fn describe(&self) -> (r: String)
        ensures
            r@ == self@.description(),
    {
        match self {
            LvmError::Transport { detail, .. } => detail.clone(),
            LvmError::Decode { cause, .. } => cause.describe(),
            LvmError::JobFailure { status, .. } => match status {
                JobStatus::Interrupted => String::from_str("Task interrupted."),
                _ => String::from_str("Task failed."),
            },
            LvmError::Timeout { .. } => String::from_str("Task timed out."),
            LvmError::Configuration { error } => error.describe(),
        }
    }
}

} // verus!
