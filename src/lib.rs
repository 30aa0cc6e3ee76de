//! Structured proofreading: the request that asks a language model for
//! corrections, and the checks that turn its answer into trusted values.
//!
//! Spans are counted in characters (Unicode code points) of the original
//! input, both ends inclusive.
pub mod json;
pub mod model;
pub mod decode;
pub mod laws;
pub mod schema;
pub mod prompt;
pub mod dispatch;

pub use json::JsonValue;
pub use model::{Correction, CorrectionType, Proofreading, ProofreadError, ProofreadParams};
pub use decode::{decode, decode_correction, find_outside, interpret_output};
pub use schema::response_schema;
pub use prompt::{compose_request, GenerationRequest, MODEL, RESPONSE_MIME_TYPE, SYSTEM_PROMPT};
pub use dispatch::candidate_text;
