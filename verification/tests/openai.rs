use lvm_multi_api::errors::ValidationIssue;
use lvm_multi_api::parameters::prompt::ImagePrompt;
use lvm_multi_api::parameters::provider::ProviderConfiguration;
use lvm_multi_api::parameters::text_to_image::TextToImageRequest;
use lvm_multi_api::providers::openai::{
    clamp_batch_size, prompt_or_default, to_openai_batch_size, to_openai_model, to_openai_size,
    ImageModel, ImageResponseFormat, ImageSize, OpenAiProvider, OPENAI_API_KEY_VARIABLE,
};

#[test]
fn test_to_openai_size() {
    assert_eq!(
        to_openai_size(Some(1024), Some(1024)),
        ImageSize::S1024x1024
    );
    assert_eq!(
        to_openai_size(Some(1024), Some(1792)),
        ImageSize::S1024x1792
    );
    assert_eq!(
        to_openai_size(Some(1792), Some(1024)),
        ImageSize::S1792x1024
    );
    assert_eq!(to_openai_size(Some(256), Some(256)), ImageSize::S256x256);
    assert_eq!(to_openai_size(Some(512), Some(512)), ImageSize::S512x512);
}

#[test]
fn unsupported_size_falls_back_to_1024() {
    assert_eq!(to_openai_size(Some(999), Some(999)), ImageSize::S1024x1024);
    assert_eq!(to_openai_size(Some(1792), Some(1792)), ImageSize::S1024x1024);
    assert_eq!(to_openai_size(Some(256), Some(512)), ImageSize::S1024x1024);
    assert_eq!(to_openai_size(Some(0), Some(0)), ImageSize::S1024x1024);
}

#[test]
fn missing_dimension_falls_back_to_1024() {
    assert_eq!(to_openai_size(None, None), ImageSize::S1024x1024);
    assert_eq!(to_openai_size(Some(256), None), ImageSize::S1024x1024);
    assert_eq!(to_openai_size(None, Some(512)), ImageSize::S1024x1024);
}

#[test]
fn batch_count_zero_is_clamped_with_a_warning() {
    assert_eq!(
        to_openai_batch_size(Some(0)),
        (1, Some(ValidationIssue::BatchCount { requested: 0 }))
    );
}

#[test]
fn batch_count_300_is_clamped_with_a_warning() {
    assert_eq!(
        to_openai_batch_size(Some(300)),
        (1, Some(ValidationIssue::BatchCount { requested: 300 }))
    );
}

#[test]
fn batch_count_boundaries() {
    assert_eq!(clamp_batch_size(Some(1)), (1, None));
    assert_eq!(clamp_batch_size(Some(255)), (255, None));
    assert_eq!(
        clamp_batch_size(Some(256)),
        (1, Some(ValidationIssue::BatchCount { requested: 256 }))
    );
    assert_eq!(
        clamp_batch_size(Some(u32::MAX)),
        (1, Some(ValidationIssue::BatchCount { requested: u32::MAX }))
    );
    assert_eq!(clamp_batch_size(Some(7)), (7, None));
}

#[test]
fn missing_batch_count_is_one_without_warning() {
    assert_eq!(to_openai_batch_size(None), (1, None));
}

#[test]
fn batch_count_warning_text() {
    assert_eq!(
        ValidationIssue::BatchCount { requested: 0 }.describe(),
        "Invalid number of batches. Using default value of 1."
    );
}

#[test]
fn model_names_ignore_ascii_case() {
    assert_eq!(to_openai_model(Some("dall-e-3".to_string())), ImageModel::DallE3);
    assert_eq!(to_openai_model(Some("DALL-E-3".to_string())), ImageModel::DallE3);
    assert_eq!(to_openai_model(Some("Dall-E-3".to_string())), ImageModel::DallE3);
    assert_eq!(to_openai_model(Some("dall-e-2".to_string())), ImageModel::DallE2);
    assert_eq!(to_openai_model(Some("DALL-E-2".to_string())), ImageModel::DallE2);
}

#[test]
fn unknown_or_missing_model_is_dall_e_2() {
    assert_eq!(to_openai_model(None), ImageModel::DallE2);
    assert_eq!(to_openai_model(Some("sd_xl_base_1.0".to_string())), ImageModel::DallE2);
    assert_eq!(to_openai_model(Some("dall-e-33".to_string())), ImageModel::DallE2);
    assert_eq!(to_openai_model(Some("dall-e-".to_string())), ImageModel::DallE2);
    assert_eq!(to_openai_model(Some(String::new())), ImageModel::DallE2);
    // Only ASCII letters are folded.
    assert_eq!(to_openai_model(Some("d\u{e4}ll-e-3".to_string())), ImageModel::DallE2);
}

#[test]
fn prompt_defaults_to_empty() {
    assert_eq!(prompt_or_default(None), "");
    assert_eq!(prompt_or_default(Some("a cat".to_string())), "a cat");
}

#[test]
fn prepare_normalizes_the_request() {
    let request = TextToImageRequest {
        prompt: ImagePrompt {
            positive_prompt: Some("A painting of a cat".to_string()),
            negative_prompt: None,
        },
        model: Some("dall-e-3".to_string()),
        width: Some(1792),
        height: Some(1024),
        num_batches: Some(2),
        ..Default::default()
    };
    let provider = OpenAiProvider::from(&ProviderConfiguration::default());
    let (image_request, warning) = provider.prepare(request);
    assert_eq!(image_request.model, ImageModel::DallE3);
    assert_eq!(image_request.prompt, "A painting of a cat");
    assert_eq!(image_request.n, 2);
    assert_eq!(image_request.response_format, ImageResponseFormat::B64Json);
    assert_eq!(image_request.size, Some(ImageSize::S1792x1024));
    assert_eq!(warning, None);
}

#[test]
fn prepare_warns_of_a_clamped_batch_count() {
    let request = TextToImageRequest {
        num_batches: Some(300),
        ..Default::default()
    };
    let (image_request, warning) = OpenAiProvider {}.prepare(request);
    assert_eq!(image_request.n, 1);
    assert_eq!(image_request.model, ImageModel::DallE2);
    assert_eq!(image_request.prompt, "");
    assert_eq!(image_request.size, Some(ImageSize::S1024x1024));
    assert_eq!(warning, Some(ValidationIssue::BatchCount { requested: 300 }));
}

#[test]
fn api_key_variable_name() {
    assert_eq!(OPENAI_API_KEY_VARIABLE, "OPENAI_API_KEY");
}
