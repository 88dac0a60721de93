//! The image service's own types, as far as requests and responses pass through
//! the library.

use async_openai::types::ImageSize as OpenAiImageSize;
use vstd::prelude::*;

verus! {

/// `async_openai::types::ImageSize`.
#[verifier::external_type_specification]
pub struct ExOpenAiImageSize(OpenAiImageSize);

/// `async_openai::types::ImageResponseFormat`.
#[verifier::external_type_specification]
pub struct ExImageResponseFormat(async_openai::types::ImageResponseFormat);

/// `async_openai::types::ImageModel`.
#[verifier::external_type_specification]
pub struct ExImageModel(async_openai::types::ImageModel);

/// `async_openai::types::Image`.
#[verifier::external_type_specification]
pub struct ExImage(async_openai::types::Image);

/// `async_openai::types::ImagesResponse`.
#[verifier::external_type_specification]
pub struct ExImagesResponse(async_openai::types::ImagesResponse);

} // verus!
