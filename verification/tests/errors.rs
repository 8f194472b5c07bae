use lvm_multi_api::errors::{
    compose_configuration_error, DecodeCause, Fault, LvmError, ProviderConfigurationError, Stage,
    ValidationIssue, EXCERPT_LENGTH,
};
use lvm_multi_api::images::Base64Fault;
use lvm_multi_api::parameters::provider::ProviderConfiguration;
use lvm_multi_api::providers::automatic1111::api::job::JobStatus;
use lvm_multi_api::providers::index::require_credential;
use lvm_multi_api::text::{compose_optional_text, render_optional_text};

fn configuration() -> ProviderConfiguration {
    ProviderConfiguration {
        base_url: Some("http://localhost:7860".to_string()),
        api_key_env_var: None,
    }
}

#[test]
fn configuration_error_text() {
    let error = ProviderConfigurationError {
        message: "no key".to_string(),
        configuration: configuration(),
    };
    assert_eq!(
        error.describe(),
        "Provider configuration error: no key. Configuration: ProviderConfiguration { base_url: Some(\"http://localhost:7860\"), api_key_env_var: None }"
    );
}

#[test]
fn configuration_error_text_shows_the_configuration_as_debug_does() {
    let configuration = ProviderConfiguration {
        base_url: Some("a \"quoted\"\\path\n".to_string()),
        api_key_env_var: Some("KEY".to_string()),
    };
    let error = ProviderConfigurationError {
        message: "m".to_string(),
        configuration: configuration.clone(),
    };
    assert_eq!(
        error.describe(),
        format!("Provider configuration error: {}. Configuration: {:?}", "m", configuration)
    );
}

#[test]
fn optional_text_is_rendered_as_debug_does() {
    for text in [None, Some(String::new()), Some("x".to_string()), Some("\"\t\u{e4}\u{0}".to_string())] {
        assert_eq!(render_optional_text(&text), format!("{:?}", text));
    }
}

#[test]
fn configuration_error_is_put_together_from_its_parts() {
    assert_eq!(
        compose_configuration_error("M", "B", "K"),
        "Provider configuration error: M. Configuration: ProviderConfiguration { base_url: B, api_key_env_var: K }"
    );
}

#[test]
fn error_texts() {
    let job = Some("t".to_string());
    assert_eq!(
        LvmError::Transport { stage: Stage::Poll, job: job.clone(), detail: "reset".to_string() }
            .describe(),
        "reset"
    );
    assert_eq!(
        LvmError::JobFailure { job_id: "t".to_string(), status: JobStatus::Failed }.describe(),
        "Task failed."
    );
    assert_eq!(
        LvmError::JobFailure { job_id: "t".to_string(), status: JobStatus::Interrupted }
            .describe(),
        "Task interrupted."
    );
    assert_eq!(LvmError::Timeout { job_id: "t".to_string() }.describe(), "Task timed out.");
    assert_eq!(
        ValidationIssue::BatchCount { requested: 0 }.describe(),
        "Invalid number of batches. Using default value of 1."
    );
    assert_eq!(
        ValidationIssue::CfgScale { bits: u64::MAX }.describe(),
        "Warning: Could not convert cfg_scale to Number."
    );
    assert_eq!(
        LvmError::Configuration {
            error: ProviderConfigurationError {
                message: "m".to_string(),
                configuration: ProviderConfiguration::default(),
            }
        }
        .describe(),
        "Provider configuration error: m. Configuration: ProviderConfiguration { base_url: None, api_key_env_var: None }"
    );
}

#[test]
fn decode_error_texts() {
    let decode = |cause: DecodeCause| {
        LvmError::Decode { stage: Stage::Fetch, job: None, cause }.describe()
    };
    assert_eq!(decode(DecodeCause::Malformed { detail: "bad json".to_string() }), "bad json");
    assert_eq!(
        decode(DecodeCause::UnknownStatus { name: "paused".to_string() }),
        "Unknown task status: paused"
    );
    assert_eq!(
        decode(DecodeCause::Image { index: 2, fault: Base64Fault::InvalidPadding }),
        "Image is not valid base64."
    );
    assert_eq!(decode(DecodeCause::NoImages), "Task returned no images.");
}

#[test]
fn faults_are_tagged_with_stage_and_job() {
    assert_eq!(
        LvmError::tagged(
            Fault::Transport { detail: "reset".to_string() },
            Stage::Submission,
            None
        ),
        LvmError::Transport { stage: Stage::Submission, job: None, detail: "reset".to_string() }
    );
    assert_eq!(
        LvmError::tagged(
            Fault::Decode { cause: DecodeCause::NoImages },
            Stage::Fetch,
            Some("t".to_string())
        ),
        LvmError::Decode {
            stage: Stage::Fetch,
            job: Some("t".to_string()),
            cause: DecodeCause::NoImages
        }
    );
}

#[test]
fn clones_are_equal() {
    let errors = vec![
        LvmError::Transport { stage: Stage::Poll, job: None, detail: "d".to_string() },
        LvmError::Decode {
            stage: Stage::Fetch,
            job: Some("j".to_string()),
            cause: DecodeCause::Image {
                index: 1,
                fault: Base64Fault::InvalidByte { offset: 3, byte: 42 },
            },
        },
        LvmError::JobFailure { job_id: "j".to_string(), status: JobStatus::Interrupted },
        LvmError::Timeout { job_id: "j".to_string() },
        LvmError::Configuration {
            error: ProviderConfigurationError {
                message: "m".to_string(),
                configuration: configuration(),
            },
        },
    ];
    for error in errors {
        assert_eq!(error.clone(), error);
    }
}

#[test]
fn a_credential_that_is_found_is_handed_on() {
    assert_eq!(
        require_credential("OPENAI_API_KEY", Some("secret".to_string()), &configuration()),
        Ok("secret".to_string())
    );
}

#[test]
fn a_missing_credential_is_a_configuration_error() {
    let error = require_credential("XAI_API_KEY", None, &configuration()).unwrap_err();
    assert_eq!(
        error,
        LvmError::Configuration {
            error: ProviderConfigurationError {
                message: "XAI_API_KEY environment variable not set.".to_string(),
                configuration: configuration(),
            }
        }
    );
    assert_eq!(
        error.describe(),
        "Provider configuration error: XAI_API_KEY environment variable not set.. Configuration: ProviderConfiguration { base_url: Some(\"http://localhost:7860\"), api_key_env_var: None }"
    );
}

#[test]
fn a_response_that_cannot_be_read_is_shown_with_its_endpoint() {
    assert_eq!(
        Fault::malformed("http://gpu/task/1", "expected value at line 1 column 1", "<html>"),
        Fault::Decode {
            cause: DecodeCause::Malformed {
                detail: "expected value at line 1 column 1 Endpoint: http://gpu/task/1. Response: <html>"
                    .to_string()
            }
        }
    );
}

#[test]
fn only_the_beginning_of_a_long_response_is_shown() {
    assert_eq!(EXCERPT_LENGTH, 200);
    let long: String = "\u{e4}b".repeat(150);
    let shown: String = long.chars().take(200).collect();
    assert_eq!(
        Fault::malformed("E", "R", &long),
        Fault::Decode {
            cause: DecodeCause::Malformed { detail: format!("R Endpoint: E. Response: {}", shown) }
        }
    );
    let exact: String = "x".repeat(200);
    assert_eq!(
        Fault::malformed("E", "R", &exact),
        Fault::Decode {
            cause: DecodeCause::Malformed { detail: format!("R Endpoint: E. Response: {}", exact) }
        }
    );
}

#[test]
fn an_optional_value_is_shown_around_its_value() {
    assert_eq!(compose_optional_text(None), "None");
    assert_eq!(compose_optional_text(Some("\"x\"")), "Some(\"x\")");
    assert_eq!(compose_optional_text(Some("")), "Some()");
}
