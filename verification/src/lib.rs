//! Normalizes raw e-mail payloads into storage- and display-ready records.

pub mod clock;
pub mod error;
pub mod laws;
pub mod mime;
pub mod models;
pub mod normalizer;
pub mod parsed;
pub mod token;
