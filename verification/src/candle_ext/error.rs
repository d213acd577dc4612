//! Failures of the encoding pipeline.

use vstd::prelude::*;

verus! {

/// Why a column could not be embedded.
///
/// `ModelFailure` is handed on from the model. The other two say that the
/// model answered with something it may not answer with; no input column
/// can cause them.
#[derive(Debug, PartialEq, Eq)]
pub enum EncodeError {
    /// The model refused the batch; the text is the model's own message.
    ModelFailure(String),
    /// The model's answer is not a matrix: it is not two-dimensional, or its
    /// rows differ in width.
    ShapeError,
    /// The model's answer has another number of rows than texts were sent.
    AlignmentMismatch,
}

impl EncodeError {
    /// Whether the error reports a broken promise of the model rather than a
    /// failure that the model itself reported.
    pub open spec fn is_contract_violation(self) -> bool {
        self is ShapeError || self is AlignmentMismatch
    }

    /// The text of `message`.
    pub open spec fn message_text(self) -> Seq<char> {
        match self {
            EncodeError::ModelFailure(cause) => "Encoding failed with error:\n"@ + cause@,
            EncodeError::ShapeError => "Getting embeddings dimensions failed: the model's answer is not a matrix"@,
            EncodeError::AlignmentMismatch => "Aligning embeddings failed: the model's answer has another number of rows than texts were sent"@,
        }
    }

    /// A message for the user. The two internal errors name the step that
    /// found them; a model failure carries the model's own words.
    pub fn message(&self) -> (text: String)
        ensures
            text@ == self.message_text(),
    {
        match self {
            EncodeError::ModelFailure(cause) => {
                let mut text = String::from_str("Encoding failed with error:\n");
                text.append(cause.as_str());
                text
            },
            EncodeError::ShapeError => String::from_str(
                "Getting embeddings dimensions failed: the model's answer is not a matrix",
            ),
            EncodeError::AlignmentMismatch => String::from_str(
                "Aligning embeddings failed: the model's answer has another number of rows than texts were sent",
            ),
        }
    }

    /// Tells the two families of errors apart.
    pub fn is_internal(&self) -> (r: bool)
        ensures
            r == self.is_contract_violation(),
    {
        match self {
            EncodeError::ModelFailure(_) => false,
            EncodeError::ShapeError => true,
            EncodeError::AlignmentMismatch => true,
        }
    }
}

} // verus!
