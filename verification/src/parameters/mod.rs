//! The provider-agnostic schema of a generation request.

pub mod common;
pub mod prompt;
pub mod provider;
pub mod text_to_image;
