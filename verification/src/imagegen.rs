//! Image generation requests and results, and what is sent to and read from the
//! image service for them.

use crate::error::GenerativeError;
use crate::text::same_text;
use async_openai::types::ImageSize as OpenAiImageSize;
use async_openai::types::{Image, ImageModel, ImageResponseFormat, ImagesResponse};
use vstd::prelude::*;
use vstd::string::StringExecFns;

verus! {

/// The pixel dimensions an image can be asked for.
#[derive(Debug, Clone, Copy, PartialEq, Eq, Structural)]
pub enum ImageSize {
    Square256,
    Square512,
    Square1024,
    Landscape1792x1024,
    Portrait1024x1792,
}

impl ImageSize {
    /// The image service's name for this size.
    pub open spec fn openai_size(self) -> OpenAiImageSize {
        match self {
            ImageSize::Square256 => OpenAiImageSize::S256x256,
            ImageSize::Square512 => OpenAiImageSize::S512x512,
            ImageSize::Square1024 => OpenAiImageSize::S1024x1024,
            ImageSize::Landscape1792x1024 => OpenAiImageSize::S1792x1024,
            ImageSize::Portrait1024x1792 => OpenAiImageSize::S1024x1792,
        }
    }

    /// The image service's name for this size.
    pub fn as_openai_size(&self) -> (r: OpenAiImageSize)
        ensures
            r == self.openai_size(),
    {
        match self {
            ImageSize::Square256 => OpenAiImageSize::S256x256,
            ImageSize::Square512 => OpenAiImageSize::S512x512,
            ImageSize::Square1024 => OpenAiImageSize::S1024x1024,
            ImageSize::Landscape1792x1024 => OpenAiImageSize::S1792x1024,
            ImageSize::Portrait1024x1792 => OpenAiImageSize::S1024x1792,
        }
    }
}

impl Default for ImageSize {
    fn default() -> (r: Self)
        ensures
            r == ImageSize::Square1024,
    {
        ImageSize::Square1024
    }
}

/// How the service should hand the image back.
#[derive(Debug, Clone, Copy, PartialEq, Eq, Structural)]
pub enum ImageOutputFormat {
    /// A URL from which the image can be downloaded.
    Url,
    /// The image inline, base64 encoded.
    Base64Json,
}

impl ImageOutputFormat {
    /// The image service's name for this format.
    pub open spec fn openai_format(self) -> ImageResponseFormat {
        match self {
            ImageOutputFormat::Url => ImageResponseFormat::Url,
            ImageOutputFormat::Base64Json => ImageResponseFormat::B64Json,
        }
    }

    /// The image service's name for this format.
    pub fn as_openai_format(&self) -> (r: ImageResponseFormat)
        ensures
            r == self.openai_format(),
    {
        match self {
            ImageOutputFormat::Url => ImageResponseFormat::Url,
            ImageOutputFormat::Base64Json => ImageResponseFormat::B64Json,
        }
    }
}

impl Default for ImageOutputFormat {
    fn default() -> (r: Self)
        ensures
            r == ImageOutputFormat::Base64Json,
    {
        ImageOutputFormat::Base64Json
    }
}

/// The smallest number of images a request may ask for.
pub const MIN_IMAGE_COUNT: u8 = 1;

/// The largest number of images a request may ask for.
pub const MAX_IMAGE_COUNT: u8 = 10;

/// The image count nearest to `count` within the accepted range.
pub open spec fn clamped_image_count(count: u8) -> u8 {
    if count < MIN_IMAGE_COUNT {
        MIN_IMAGE_COUNT
    } else if count > MAX_IMAGE_COUNT {
        MAX_IMAGE_COUNT
    } else {
        count
    }
}

/// One request for generated images.
#[derive(Debug, Clone)]
pub struct ImageGenerationRequest {
    pub prompt: String,
    pub size: ImageSize,
    pub output_format: ImageOutputFormat,
    pub image_count: u8,
}

impl ImageGenerationRequest {
    /// A request for one image of the default size and format.
    pub fn new(prompt: String) -> (r: Self)
        ensures
            r.prompt == prompt,
            r.size == ImageSize::Square1024,
            r.output_format == ImageOutputFormat::Base64Json,
            r.image_count == 1,
    {
        Self {
            prompt,
            size: ImageSize::default(),
            output_format: ImageOutputFormat::default(),
            image_count: 1,
        }
    }

    /// The same request with another size.
    pub fn with_size(self, size: ImageSize) -> (r: Self)
        ensures
            r == (Self { size, ..self }),
    {
        let mut request = self;
        request.size = size;
        request
    }

    /// The same request with another output format.
    pub fn with_output_format(self, format: ImageOutputFormat) -> (r: Self)
        ensures
            r == (Self { output_format: format, ..self }),
    {
        let mut request = self;
        request.output_format = format;
        request
    }

    /// The same request with another image count, brought into the accepted range.
    pub fn with_image_count(self, count: u8) -> (r: Self)
        ensures
            r == (Self { image_count: clamped_image_count(count), ..self }),
            MIN_IMAGE_COUNT <= r.image_count <= MAX_IMAGE_COUNT,
    {
        let mut request = self;
        request.image_count = if count < MIN_IMAGE_COUNT {
            MIN_IMAGE_COUNT
        } else if count > MAX_IMAGE_COUNT {
            MAX_IMAGE_COUNT
        } else {
            count
        };
        request
    }
}

/// The payload of one generated image.
#[derive(Debug, Clone)]
pub enum ImageData {
    Url(String),
    Base64(String),
}

/// One generated image, with the prompt as the service rewrote it, if it did.
#[derive(Debug, Clone)]
pub struct GeneratedImage {
    pub data: ImageData,
    pub revised_prompt: Option<String>,
}

/// What an image generation call returned.
#[derive(Debug, Clone)]
pub struct ImageGenerationResult {
    pub images: Vec<GeneratedImage>,
    pub created_at: Option<u64>,
}

impl ImageGenerationResult {
    /// The URL of the first image, where the first image is given by URL.
    pub open spec fn first_url_spec(self) -> Option<String> {
        if self.images@.len() > 0 {
            match self.images@[0].data {
                ImageData::Url(url) => Some(url),
                ImageData::Base64(_) => None,
            }
        } else {
            None
        }
    }

    /// The URL of the first image. A result without images, or whose first image is
    /// inline data, is a response without the expected data.
    pub fn first_image_url(&self) -> (r: Result<String, GenerativeError>)
        ensures
            match r {
                Ok(url) => self.first_url_spec() == Some(url),
                Err(e) => self.first_url_spec() is None && e is MissingImageData,
            },
    {
        if self.images.len() > 0 {
            match &self.images[0].data {
                ImageData::Url(url) => Ok(url.clone()),
                ImageData::Base64(_) => Err(GenerativeError::MissingImageData),
            }
        } else {
            Err(GenerativeError::MissingImageData)
        }
    }
}

/// The model that serves a request when none is chosen.
pub fn default_model() -> (r: ImageModel)
    ensures
        r matches ImageModel::Other(name) && name@ == "dall-e-2"@,
{
    ImageModel::Other(String::from_str("dall-e-2"))
}

/// Whether requests to `model` may name a response format.
pub open spec fn supports_response_format_spec(model: ImageModel) -> bool {
    match model {
        ImageModel::DallE2 | ImageModel::DallE3 => true,
        ImageModel::Other(name) => name@ != "gpt-image-1"@,
    }
}

/// Whether requests to `model` may name a response format: every model but the
/// one named `gpt-image-1`.
pub fn supports_response_format(model: &ImageModel) -> (r: bool)
    ensures
        r == supports_response_format_spec(*model),
{
    match model {
        ImageModel::DallE2 | ImageModel::DallE3 => true,
        ImageModel::Other(name) => !same_text(name.as_str(), "gpt-image-1"),
    }
}

fn copy_model(model: &ImageModel) -> (r: ImageModel)
    ensures
        r == *model,
{
    match model {
        ImageModel::DallE2 => ImageModel::DallE2,
        ImageModel::DallE3 => ImageModel::DallE3,
        ImageModel::Other(name) => ImageModel::Other(name.clone()),
    }
}

/// What is sent to the service for one request: the fields that are set, and
/// `None` for those left to the service's defaults.
#[derive(Debug)]
pub struct ImageRequestPlan {
    pub prompt: String,
    pub model: ImageModel,
    pub count: Option<u8>,
    pub size: OpenAiImageSize,
    pub response_format: Option<ImageResponseFormat>,
}

/// The count a request sends: none for a single image.
pub open spec fn planned_count(image_count: u8) -> Option<u8> {
    if image_count > 1 {
        Some(image_count)
    } else {
        None
    }
}

/// The response format a request sends: none where the model takes none.
pub open spec fn planned_format(model: ImageModel, format: ImageOutputFormat) -> Option<
    ImageResponseFormat,
> {
    if supports_response_format_spec(model) {
        Some(format.openai_format())
    } else {
        None
    }
}

/// Decides what to send for `request` to `model`. The count is named only when
/// more than one image is wanted, the response format only where the model
/// accepts one.
pub fn build_request(request: &ImageGenerationRequest, model: &ImageModel) -> (r: ImageRequestPlan)
    ensures
        r.prompt == request.prompt,
        r.model == *model,
        r.count == planned_count(request.image_count),
        r.size == request.size.openai_size(),
        r.response_format == planned_format(*model, request.output_format),
{
    let count = if request.image_count > 1 {
        Some(request.image_count)
    } else {
        None
    };
    let response_format = if supports_response_format(model) {
        Some(request.output_format.as_openai_format())
    } else {
        None
    };
    ImageRequestPlan {
        prompt: request.prompt.clone(),
        model: copy_model(model),
        count,
        size: request.size.as_openai_size(),
        response_format,
    }
}

/// What one image of the service's response is in the library's terms.
pub open spec fn image_of(image: Image) -> GeneratedImage {
    match image {
        Image::Url { url, revised_prompt } => GeneratedImage {
            data: ImageData::Url(url),
            revised_prompt,
        },
        Image::B64Json { b64_json, revised_prompt } => GeneratedImage {
            data: ImageData::Base64(*b64_json),
            revised_prompt,
        },
    }
}

fn copy_text(text: &Option<String>) -> (r: Option<String>)
    ensures
        r == *text,
{
    match text {
        Some(t) => Some(t.clone()),
        None => None,
    }
}

/// Reads the service's response: every image in its place, by URL or inline as
/// the service gave it, and the time of creation. A response that carries no
/// image is a failure of its own kind, apart from any failure of the service.
pub fn parse_response(response: ImagesResponse) -> (r: Result<
    ImageGenerationResult,
    GenerativeError,
>)
    ensures
        match r {
            Ok(result) => {
                &&& response.data@.len() > 0
                &&& result.created_at == Some(response.created as u64)
                &&& result.images@.len() == response.data@.len()
                &&& forall|i: int|
                    0 <= i < response.data@.len() ==> result.images@[i] == image_of(
                        *#[trigger] response.data@[i],
                    )
            },
            Err(e) => e is MissingImageData && response.data@.len() == 0,
        },
{
    if response.data.len() == 0 {
        return Err(GenerativeError::MissingImageData);
    }
    let mut images: Vec<GeneratedImage> = Vec::new();
    let mut i: usize = 0;
    while i < response.data.len()
        invariant
            i <= response.data@.len(),
            images@.len() == i,
            forall|j: int| 0 <= j < i ==> images@[j] == image_of(*#[trigger] response.data@[j]),
        decreases response.data@.len() - i,
    {
        let image: &Image = &response.data[i];
        let converted = match image {
            Image::Url { url, revised_prompt } => GeneratedImage {
                data: ImageData::Url(url.clone()),
                revised_prompt: copy_text(revised_prompt),
            },
            Image::B64Json { b64_json, revised_prompt } => {
                let text: &String = &b64_json;
                GeneratedImage {
                    data: ImageData::Base64(text.clone()),
                    revised_prompt: copy_text(revised_prompt),
                }
            },
        };
        images.push(converted);
        i += 1;
    }
    Ok(ImageGenerationResult { images, created_at: Some(response.created as u64) })
}

} // verus!
