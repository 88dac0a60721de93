//! Failures of the image generation adapter.

use crate::text::join2;
use vstd::prelude::*;
use vstd::string::StringExecFns;

verus! {

/// Why an image generation call produced no usable result.
#[derive(Debug)]
pub enum GenerativeError {
    /// The upstream service refused or failed the request; carries its message.
    OpenAi(String),
    /// The call succeeded but the response held no image data of the wanted form.
    MissingImageData,
}

impl GenerativeError {
    /// The text shown for this error.
    pub open spec fn message_spec(self) -> Seq<char> {
        match self {
            GenerativeError::OpenAi(upstream) => "OpenAI request failed: "@ + upstream@,
            GenerativeError::MissingImageData => "Image response did not include expected data"@,
        }
    }

    /// Renders the error as text; an upstream failure keeps the upstream message verbatim.
    pub fn message(&self) -> (r: String)
        ensures
            r@ == self.message_spec(),
    {
        match self {
            GenerativeError::OpenAi(upstream) => join2("OpenAI request failed: ", upstream.as_str()),
            GenerativeError::MissingImageData => String::from_str(
                "Image response did not include expected data",
            ),
        }
    }
}

} // verus!
