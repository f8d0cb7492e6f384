//! Storage of secret-bearing text in local files.

pub mod armor;
pub mod envelope;
pub mod error;
pub mod launch;
pub mod laws;
pub mod platform;
pub mod software;
pub mod text;
