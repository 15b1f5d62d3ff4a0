//! Pooled memory for decoded pictures.

pub mod channel;
pub mod sync;
