//! Infers record type definitions from a JSON document and renders them as
//! source text for Go, Scala, Java or Rust.

pub mod constants;
pub mod document;
pub mod formatting;
pub mod inference;
pub mod json;
pub mod language;
pub mod model;
pub mod text;
