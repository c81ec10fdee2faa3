//! Completion pipeline: strict prompt formatting, layered generation
//! parameters and the stage ordering of a completion call.

pub mod api;
pub mod chain;
pub mod model;
pub mod options;
pub mod prompts;
pub mod tracking;
