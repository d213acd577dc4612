//! The embedding operator and what it is built from.

pub mod align;
pub mod embed;
pub mod error;
pub mod model;
pub mod utils;
