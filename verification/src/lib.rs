//! Renders a text template against a JSON data context.
//!
//! The library decides where the template and the data come from, merges the
//! process environment into the data under a reserved key, and prepares what
//! the template engine is given. Reading, writing and the calls of the engine
//! are left to the caller.

pub mod cli;
pub mod data;
pub mod engine;
pub mod error;
pub mod json;
pub mod template;
