use async_openai::types::ImageSize as OpenAiImageSize;
use async_openai::types::{Image, ImageModel, ImageResponseFormat, ImagesResponse};
use generative::imagegen::{
    build_request, default_model, parse_response, supports_response_format,
};
use generative::{
    GeneratedImage, GenerativeError, ImageData, ImageGenerationRequest, ImageGenerationResult,
    ImageOutputFormat, ImageSize,
};
use std::sync::Arc;

#[test]
fn new_request_has_defaults() {
    let request = ImageGenerationRequest::new("a misty pine forest".to_string());
    assert_eq!(request.prompt, "a misty pine forest");
    assert_eq!(request.size, ImageSize::Square1024);
    assert_eq!(request.output_format, ImageOutputFormat::Base64Json);
    assert_eq!(request.image_count, 1);
}

#[test]
fn builders_change_one_field() {
    let request = ImageGenerationRequest::new("p".to_string())
        .with_size(ImageSize::Landscape1792x1024)
        .with_output_format(ImageOutputFormat::Url)
        .with_image_count(3);
    assert_eq!(request.prompt, "p");
    assert_eq!(request.size, ImageSize::Landscape1792x1024);
    assert_eq!(request.output_format, ImageOutputFormat::Url);
    assert_eq!(request.image_count, 3);
}

#[test]
fn image_count_is_clamped() {
    let zero = ImageGenerationRequest::new("p".to_string()).with_image_count(0);
    assert_eq!(zero.image_count, 1);
    let many = ImageGenerationRequest::new("p".to_string()).with_image_count(200);
    assert_eq!(many.image_count, 10);
    let ten = ImageGenerationRequest::new("p".to_string()).with_image_count(10);
    assert_eq!(ten.image_count, 10);
}

#[test]
fn plan_names_count_only_for_several_images() {
    let model = default_model();
    assert_eq!(model, ImageModel::Other("dall-e-2".to_string()));
    let one = build_request(&ImageGenerationRequest::new("p".to_string()), &model);
    assert_eq!(one.count, None);
    assert_eq!(one.response_format, Some(ImageResponseFormat::B64Json));
    assert_eq!(one.prompt, "p");
    assert_eq!(one.model, model);
    assert_eq!(one.size, OpenAiImageSize::S1024x1024);
    let four = build_request(
        &ImageGenerationRequest::new("p".to_string()).with_image_count(4),
        &model,
    );
    assert_eq!(four.count, Some(4));
}

#[test]
fn plan_omits_format_for_gpt_image() {
    let model = ImageModel::Other("gpt-image-1".to_string());
    assert!(!supports_response_format(&model));
    let plan = build_request(
        &ImageGenerationRequest::new("p".to_string()).with_output_format(ImageOutputFormat::Url),
        &model,
    );
    assert_eq!(plan.response_format, None);
    assert!(supports_response_format(&ImageModel::DallE2));
    assert!(supports_response_format(&ImageModel::DallE3));
    assert!(supports_response_format(&ImageModel::Other("gpt-image-2".to_string())));
    let by_url = build_request(
        &ImageGenerationRequest::new("p".to_string()).with_output_format(ImageOutputFormat::Url),
        &ImageModel::DallE3,
    );
    assert_eq!(by_url.response_format, Some(ImageResponseFormat::Url));
}

#[test]
fn first_url_is_found() {
    let result = ImageGenerationResult {
        images: vec![GeneratedImage {
            data: ImageData::Url("https://example.com/sky.png".to_string()),
            revised_prompt: None,
        }],
        created_at: Some(7),
    };
    assert_eq!(result.first_image_url().unwrap(), "https://example.com/sky.png");
}

#[test]
fn missing_url_is_missing_image_data() {
    let empty = ImageGenerationResult { images: vec![], created_at: None };
    assert!(matches!(empty.first_image_url(), Err(GenerativeError::MissingImageData)));
    let inline = ImageGenerationResult {
        images: vec![GeneratedImage {
            data: ImageData::Base64("AAAA".to_string()),
            revised_prompt: Some("r".to_string()),
        }],
        created_at: None,
    };
    let error = inline.first_image_url().unwrap_err();
    assert_eq!(error.message(), "Image response did not include expected data");
    assert_eq!(
        GenerativeError::OpenAi("rate limited".to_string()).message(),
        "OpenAI request failed: rate limited"
    );
}

#[test]
fn output_formats_map_to_the_service() {
    assert_eq!(ImageOutputFormat::Url.as_openai_format(), ImageResponseFormat::Url);
    assert_eq!(ImageOutputFormat::Base64Json.as_openai_format(), ImageResponseFormat::B64Json);
    assert_eq!(ImageOutputFormat::default(), ImageOutputFormat::Base64Json);
    assert_eq!(ImageSize::default(), ImageSize::Square1024);
}

#[test]
fn response_is_read_image_by_image() {
    let response = ImagesResponse {
        created: 1_700_000_000,
        data: vec![
            Arc::new(Image::Url {
                url: "https://example.com/a.png".to_string(),
                revised_prompt: Some("a calmer sky".to_string()),
            }),
            Arc::new(Image::B64Json {
                b64_json: Arc::new("aGVsbG8=".to_string()),
                revised_prompt: None,
            }),
        ],
    };
    let result = parse_response(response).unwrap();
    assert_eq!(result.created_at, Some(1_700_000_000));
    assert_eq!(result.images.len(), 2);
    assert!(matches!(&result.images[0].data, ImageData::Url(url) if url == "https://example.com/a.png"));
    assert_eq!(result.images[0].revised_prompt, Some("a calmer sky".to_string()));
    assert!(matches!(&result.images[1].data, ImageData::Base64(data) if data == "aGVsbG8="));
    assert_eq!(result.images[1].revised_prompt, None);
}

#[test]
fn response_without_images_is_missing_image_data() {
    let empty = parse_response(ImagesResponse { created: 1_700_000_000, data: vec![] });
    match empty {
        Err(error) => {
            assert!(matches!(error, GenerativeError::MissingImageData));
            assert_eq!(error.message(), "Image response did not include expected data");
        }
        Ok(result) => panic!("an empty response was read as {:?}", result),
    }
}

#[test]
fn sizes_map_to_the_service() {
    assert_eq!(ImageSize::Square256.as_openai_size(), OpenAiImageSize::S256x256);
    assert_eq!(ImageSize::Square512.as_openai_size(), OpenAiImageSize::S512x512);
    assert_eq!(ImageSize::Square1024.as_openai_size(), OpenAiImageSize::S1024x1024);
    assert_eq!(ImageSize::Landscape1792x1024.as_openai_size(), OpenAiImageSize::S1792x1024);
    assert_eq!(ImageSize::Portrait1024x1792.as_openai_size(), OpenAiImageSize::S1024x1792);
    let wide = build_request(
        &ImageGenerationRequest::new("p".to_string()).with_size(ImageSize::Landscape1792x1024),
        &ImageModel::DallE3,
    );
    assert_eq!(wide.size, OpenAiImageSize::S1792x1024);
}
