//! The embedding operator: from a column of optional texts to the model's
//! answer and the index that says where its rows belong.

use crate::candle_ext::align::{
    aligned, is_rectangular, matrix_width, partition, present_positions, realign, OutputColumn,
    PresenceIndex,
};
use crate::candle_ext::error::EncodeError;
use crate::candle_ext::model::{answer_dims, encode_batch, failure_text, Pooling};
use candle_core::Tensor;
use glowrs::SentenceTransformer;
use vstd::prelude::*;

verus! {

/// Where the model is to run.
#[derive(Debug, Clone, Copy, PartialEq, Eq, Structural)]
pub enum DeviceArg {
    Cpu,
    Gpu,
}

impl DeviceArg {
    /// Whether the CPU was asked for.
    pub fn is_cpu(&self) -> (cpu: bool)
        ensures
            cpu == (*self == DeviceArg::Cpu),
    {
        match self {
            DeviceArg::Cpu => true,
            DeviceArg::Gpu => false,
        }
    }
}

/// The options of the embedding operator.
pub struct EmbeddingKwargs {
    /// Huggingface model repository name
    pub model_repo: String,
    /// Pooling strategy
    pub pooling: Pooling,
    /// Normalize embeddings
    pub normalize: bool,
    /// Device (CPU, GPU)
    pub device: DeviceArg,
}

/// What the dimension check makes of the model's answer, given the shape of
/// the answer (`None` where it is not two-dimensional) and the number of
/// texts that were sent.
pub open spec fn checked_width(dims: Option<(usize, usize)>, sent: usize) -> Result<
    usize,
    EncodeError,
> {
    match dims {
        None => Err(EncodeError::ShapeError),
        Some((rows, width)) => if rows == sent {
            Ok(width)
        } else {
            Err(EncodeError::AlignmentMismatch)
        },
    }
}

/// Checks the shape of the model's answer against the batch that was sent
/// and reads the embedding width from it.
pub fn check_dimensions(dims: Option<(usize, usize)>, sent: usize) -> (r: Result<
    usize,
    EncodeError,
>)
    ensures
        r == checked_width(dims, sent),
{
    match dims {
        None => Err(EncodeError::ShapeError),
        Some((rows, width)) => {
            if rows == sent {
                Ok(width)
            } else {
                Err(EncodeError::AlignmentMismatch)
            }
        },
    }
}

/// A column after encoding: the model's answer, not yet read, and the index
/// that says where each of its rows belongs.
pub struct Encoded<S> {
    /// The present entries of the column and their positions.
    pub index: PresenceIndex<S>,
    /// The model's answer: one row for each present entry. `None` where the
    /// column had no present entry: the model was not asked then.
    pub matrix: Option<Tensor>,
    /// The width of the answer's rows; `None` where there is no answer.
    pub width: Option<usize>,
}

impl<S> Encoded<S> {
    /// Puts the rows that were read from the answer in place: each at the
    /// position its text came from, every other slot absent.
    ///
    /// The rows must all have one width, else the result is a `ShapeError`.
    /// They must be as many as there are present entries, else it is an
    /// `AlignmentMismatch`. Their width must be the one that the model
    /// reported, else it is a `ShapeError` again. The output column has that
    /// width.
    pub fn into_column<T>(self, rows: Vec<Vec<T>>) -> (r: Result<OutputColumn<T>, EncodeError>)
        ensures
            match r {
                Ok(out) => {
                    &&& rows@.len() == self.index@.positions.len()
                    &&& is_rectangular(rows@)
                    &&& matrix_width(rows@) == self.width
                    &&& out.values@ == aligned(self.index@.column_len, self.index@.positions, rows@)
                    &&& out.width == self.width
                    &&& out.is_fixed_width()
                },
                Err(EncodeError::ShapeError) => !is_rectangular(rows@) || (rows@.len()
                    == self.index@.positions.len() && matrix_width(rows@) != self.width),
                Err(EncodeError::AlignmentMismatch) => is_rectangular(rows@) && rows@.len()
                    != self.index@.positions.len(),
                Err(EncodeError::ModelFailure(_)) => false,
            },
    {
        let out = match realign(&self.index, rows) {
            Ok(out) => out,
            Err(e) => {
                return Err(e);
            },
        };
        let same = match (out.width, self.width) {
            (None, None) => true,
            (Some(found), Some(reported)) => found == reported,
            _ => false,
        };
        if same {
            Ok(out)
        } else {
            Err(EncodeError::ShapeError)
        }
    }
}

/// What becomes of a column once the model has answered and the shape of the
/// answer has been read: the dimension check decides.
///
/// `dims` is the shape of `answer`, `None` where it is not two-dimensional.
/// Where the check passes, the answer is kept beside the index, with the
/// width that was read. Where it fails, its error is the result.
pub fn conclude<S>(index: PresenceIndex<S>, answer: Tensor, dims: Option<(usize, usize)>) -> (r:
    Result<Encoded<S>, EncodeError>)
    ensures
        match checked_width(dims, index@.positions.len() as usize) {
            Ok(width) => r matches Ok(encoded) && encoded.index == index && encoded.matrix == Some(
                answer,
            ) && encoded.width == Some(width),
            Err(e) => r == Err::<Encoded<S>, EncodeError>(e),
        },
{
    match check_dimensions(dims, index.len()) {
        Ok(width) => Ok(Encoded { index, matrix: Some(answer), width: Some(width) }),
        Err(e) => Err(e),
    }
}

/// Encodes the present entries of `sentences` in one batch.
///
/// Absent entries are never sent to the model, and a column without a present
/// entry is not sent at all: it succeeds with no answer. Otherwise the result
/// is the model's to decide. Its failure is handed on as `ModelFailure`. An
/// answer is held to the dimension check (see `conclude`): it is kept where
/// it has one row for each present entry, it is a `ShapeError` where it is no
/// matrix, and an `AlignmentMismatch` where its number of rows is another.
/// `normalize` and `pooling` go to the model as they are.
///
/// Where the model has to be asked, mean pooling is not offered, because
/// `glowrs` can panic in it. A column without a present entry is taken with
/// any pooling.
pub fn embed_text<'a>(
    sentences: &Vec<Option<&'a str>>,
    model: &SentenceTransformer,
    kwargs: &EmbeddingKwargs,
) -> (r: Result<Encoded<&'a str>, EncodeError>)
    requires
        present_positions(sentences@).len() > 0 ==> kwargs.pooling != Pooling::Mean,
    ensures
        present_positions(sentences@).len() == 0 ==> r is Ok,
        match r {
            Ok(encoded) => {
                &&& encoded.index@.indexes(sentences@)
                &&& match encoded.matrix {
                    Some(answer) => {
                        &&& present_positions(sentences@).len() > 0
                        &&& checked_width(
                            answer_dims(answer),
                            present_positions(sentences@).len() as usize,
                        ) matches Ok(width)
                        &&& encoded.width == Some(width)
                    },
                    None => {
                        &&& present_positions(sentences@).len() == 0
                        &&& encoded.width is None
                    },
                }
            },
            Err(e) => {
                &&& present_positions(sentences@).len() > 0
                &&& e is ModelFailure || exists|answer: Tensor|
                    #![trigger answer_dims(answer)]
                    checked_width(
                        answer_dims(answer),
                        present_positions(sentences@).len() as usize,
                    ) == Err::<usize, EncodeError>(e)
            },
        },
{
    let index = partition(sentences);
    if index.is_empty() {
        return Ok(Encoded { index, matrix: None, width: None });
    }
    let answer = match encode_batch(model, index.batch(), kwargs.normalize, kwargs.pooling) {
        Ok(answer) => answer,
        Err(failure) => {
            return Err(EncodeError::ModelFailure(failure_text(&failure)));
        },
    };
    let dims = match answer.dims2() {
        Ok(dims) => Some(dims),
        Err(_) => None,
    };
    assert(dims == answer_dims(answer));
    conclude(index, answer, dims)
}

} // verus!
