//! Orchestration of generated worlds: image and mesh generation requests,
//! panorama transcoding, terrain topology, and the supervision of the
//! background jobs that produce them.

pub mod cubemap;
pub mod error;
pub mod hierarchy;
pub mod imagegen;
pub mod json;
pub mod mesh;
pub mod openai;
pub mod panorama;
pub mod pipeline;
pub mod prompt;
pub mod prop;
pub mod raster;
pub mod storage;
pub mod supervisor;
pub mod terrain;
pub mod text;

pub use error::GenerativeError;
pub use imagegen::{
    GeneratedImage, ImageData, ImageGenerationRequest, ImageGenerationResult, ImageOutputFormat,
    ImageSize,
};
pub use prompt::GenerationPrompt;
pub use storage::GeneratedModelPaths;
