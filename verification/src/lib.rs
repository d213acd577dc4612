//! Null-aware batch embedding of text columns.
//!
//! A column of optional texts is split into its present entries, the present
//! texts are encoded in one batch by a sentence-embedding model, and the rows
//! that come back are put at the positions their texts came from.

pub mod candle_ext;
