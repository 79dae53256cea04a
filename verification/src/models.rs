//! The records that normalization produces.

pub mod message;
