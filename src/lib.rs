//! Turns Reddit discussions into structured product ideas: URL validation,
//! response decoding, prompt building, model fallback and run orchestration.
pub mod errors;
pub mod text;
pub mod validation;
pub mod models;
pub mod json;
pub mod reddit;
pub mod gemini;
pub mod run;
pub mod config;
pub mod cli;
pub mod sheets;
pub mod output;
