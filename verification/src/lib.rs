//! Codec for the CaveFile XML dialect used by cave-survey tools.
//!
//! The library decodes a CaveFile byte stream into an in-memory document
//! model, encodes a document model back into the exact byte shape the
//! consuming tools expect, and offers small helpers around the model.
pub mod names;
pub mod decode;
pub mod encode;
pub mod laws;
pub mod model;
pub mod text;
pub mod utils;
