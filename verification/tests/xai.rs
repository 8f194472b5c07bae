use lvm_multi_api::errors::ValidationIssue;
use lvm_multi_api::images::decode_image;
use lvm_multi_api::parameters::prompt::ImagePrompt;
use lvm_multi_api::parameters::provider::ProviderConfiguration;
use lvm_multi_api::parameters::text_to_image::TextToImageRequest;
use lvm_multi_api::providers::index::{GenerationPlan, LvmProviders};
use lvm_multi_api::providers::openai::{ImageModel, ImageResponseFormat};
use lvm_multi_api::providers::xai::{
    to_xai_batch_size, to_xai_model, XAiProvider, XAI_API_KEY_VARIABLE, XAI_BASE_URL,
    XAI_DEFAULT_MODEL,
};

/// A one-pixel PNG in base64, standing in for what the backend returns as `b64_json`.
const PIXEL: &str = "iVBORw0KGgoAAAANSUhEUgAAAAEAAAABCAYAAAAfFcSJAAAADUlEQVR42mNk+M9QDwADhgGAWjR9awAAAABJRU5ErkJggg==";

/// Generate an image given a text input using XAI
#[test]
fn mod_test_t2i_xai() {
    let prompt: ImagePrompt = ImagePrompt {
        positive_prompt: Some("A painting of a cat".to_string()),
        negative_prompt: Some("dog".to_string()),
    };
    let request = TextToImageRequest {
        model: Some("grok-2-image".to_string()),
        prompt,
        num_batches: Some(1),
        ..Default::default()
    };
    let provider = LvmProviders::XAi(ProviderConfiguration::default());
    let plan = provider.text_to_image(request);
    let image_request = match plan {
        GenerationPlan::XAi { request, warning, .. } => {
            assert_eq!(warning, None);
            request
        }
        other => panic!("not a plan for this provider: {:?}", other),
    };
    assert_eq!(image_request.model, ImageModel::Other("grok-2-image".to_string()));
    assert_eq!(image_request.prompt, "A painting of a cat");
    assert_eq!(image_request.n, 1);
    assert_eq!(image_request.response_format, ImageResponseFormat::B64Json);
    assert_eq!(image_request.size, None);
    let images: Vec<Vec<u8>> = (0..image_request.n)
        .map(|_| decode_image(PIXEL).unwrap())
        .collect();
    assert!(!images.first().unwrap().is_empty());
}

#[test]
fn xai_model_defaults_to_grok() {
    assert_eq!(to_xai_model(None), ImageModel::Other("grok-2-image".to_string()));
    assert_eq!(XAI_DEFAULT_MODEL, "grok-2-image");
}

#[test]
fn xai_model_is_taken_as_named() {
    assert_eq!(
        to_xai_model(Some("dall-e-3".to_string())),
        ImageModel::Other("dall-e-3".to_string())
    );
    assert_eq!(to_xai_model(Some(String::new())), ImageModel::Other(String::new()));
}

#[test]
fn xai_batch_size_clamps() {
    assert_eq!(to_xai_batch_size(None), (1, None));
    assert_eq!(to_xai_batch_size(Some(4)), (4, None));
    assert_eq!(
        to_xai_batch_size(Some(0)),
        (1, Some(ValidationIssue::BatchCount { requested: 0 }))
    );
    assert_eq!(
        to_xai_batch_size(Some(300)),
        (1, Some(ValidationIssue::BatchCount { requested: 300 }))
    );
    assert_eq!(to_xai_batch_size(Some(255)), (255, None));
    assert_eq!(
        to_xai_batch_size(Some(256)),
        (1, Some(ValidationIssue::BatchCount { requested: 256 }))
    );
}

#[test]
fn xai_prepare_takes_no_size() {
    let request = TextToImageRequest {
        width: Some(512),
        height: Some(512),
        num_batches: Some(0),
        ..Default::default()
    };
    let provider = XAiProvider::from(&ProviderConfiguration::default());
    let (image_request, warning) = provider.prepare(request);
    assert_eq!(image_request.size, None);
    assert_eq!(image_request.n, 1);
    assert_eq!(image_request.prompt, "");
    assert_eq!(image_request.model, ImageModel::Other("grok-2-image".to_string()));
    assert_eq!(warning, Some(ValidationIssue::BatchCount { requested: 0 }));
}

#[test]
fn xai_constants() {
    assert_eq!(XAI_BASE_URL, "https://api.x.ai/v1");
    assert_eq!(XAI_API_KEY_VARIABLE, "XAI_API_KEY");
}
