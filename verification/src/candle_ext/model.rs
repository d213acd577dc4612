//! The sentence-embedding model as this library sees it.
//!
//! The model, its answers and its errors belong to `glowrs` and
//! `candle_core`. Of the calls into them nothing is proved: each item states
//! what the library relies on.

use candle_core::Tensor;
use glowrs::{PoolingStrategy, SentenceTransformer};
use vstd::prelude::*;

verus! {

/// A loaded model of `glowrs`. The library hands it on and never looks inside.
#[verifier::external_type_specification]
#[verifier::external_body]
pub struct ExSentenceTransformer(glowrs::SentenceTransformer);

/// A tensor of `candle_core`: the model's answer.
#[verifier::external_type_specification]
#[verifier::external_body]
pub struct ExTensor(candle_core::Tensor);

/// The error type of `glowrs`.
#[verifier::external_type_specification]
#[verifier::external_body]
pub struct ExModelError(glowrs::Error);

/// The error type of `candle_core`.
#[verifier::external_type_specification]
#[verifier::external_body]
pub struct ExTensorError(candle_core::Error);

/// How the vectors of a text's tokens are folded into one vector: the
/// pooling strategies of `glowrs`.
#[derive(Debug, Clone, Copy, PartialEq, Eq, Structural)]
pub enum Pooling {
    Mean,
    Max,
    Sum,
}

/// The two dimensions of a tensor of rank two, as `Tensor::dims2` of
/// `candle_core` reads them from its shape; `None` for any other rank.
pub uninterp spec fn answer_dims(tensor: Tensor) -> Option<(usize, usize)>;

/// Calls `SentenceTransformer::encode_batch` of `glowrs`, which tokenizes the
/// texts, runs the model on them and pools the result. `pooling` is handed on
/// as the strategy of the same name.
///
/// Nothing is claimed of what comes back.
///
/// The first `requires` is the library's own rule, not a need of `glowrs`:
/// the model is never asked about an empty batch, and the verifier holds
/// every caller to that. The second is a need of `glowrs` 0.4.1: its mean
/// pooling adds up the token counts of the batch in a `u8`, and built with
/// overflow checks it panics on a batch of more than 255 tokens. How many
/// tokens a text has is known to the tokenizer alone, so mean pooling is left
/// out altogether. Maximum and sum pooling do not count tokens.
#[verifier::external_body]
pub(crate) fn encode_batch(
    model: &SentenceTransformer,
    batch: Vec<&str>,
    normalize: bool,
    pooling: Pooling,
) -> (answer: Result<Tensor, glowrs::Error>)
    requires
        batch@.len() > 0,
        pooling != Pooling::Mean,
{
    let strategy = match pooling {
        Pooling::Mean => PoolingStrategy::Mean,
        Pooling::Max => PoolingStrategy::Max,
        Pooling::Sum => PoolingStrategy::Sum,
    };
    model.encode_batch(batch, normalize, strategy)
}

/// `Tensor::dims2` of `candle_core`: the two dimensions of a tensor of rank
/// two, an error for any other rank. What it reads depends on the tensor
/// alone and goes by the name `answer_dims`.
pub assume_specification[ candle_core::Tensor::dims2 ](tensor: &Tensor) -> (dims: Result<
    (usize, usize),
    candle_core::Error,
>)
    ensures
        match dims {
            Ok(d) => answer_dims(*tensor) == Some(d),
            Err(_) => answer_dims(*tensor) is None,
        },
;

/// The message of a `glowrs` error, as its `Display` impl writes it.
#[verifier::external_body]
pub(crate) fn failure_text(error: &glowrs::Error) -> (text: String) {
    error.to_string()
}

} // verus!
