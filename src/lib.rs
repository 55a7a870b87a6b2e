//! Requirement-to-specification pipeline around a language-model service.
//!
//! The library holds every decision of the pipeline, each with a contract:
//! rendering prompts ([`prompts`]), choosing a provider and shaping its
//! request and answer ([`gateway`]), extracting the formal artifact from an
//! answer ([`parser`]), reading reviews ([`review`]), and the bounded
//! repair loop ([`repair`]). Sending requests, reading files and talking to
//! the terminal are left to the caller.

pub mod text;
pub mod models;
pub mod errors;
pub mod choices;
pub mod parser;
pub mod prompts;
pub mod gateway;
pub mod review;
pub mod repair;
pub mod generation;
pub mod system;
