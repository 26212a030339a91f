use vstd::prelude::*;

verus! {

/// Texts to embed with a model. The vectors that come back hold floating-point
/// numbers and are handled by the caller.
#[derive(Debug)]
pub struct EmbeddingRequest {
    pub model: String,
    pub input: Vec<String>,
    pub encoding_format: Option<String>,
    pub dimensions: Option<u32>,
}

} // verus!
