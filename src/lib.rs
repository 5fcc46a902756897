//! Structured output for hardware diagnostics: a run, its steps and their
//! measurements become one ordered stream of sequence-numbered artifacts.
pub mod ids;
pub mod json;
pub mod objects;
pub mod run;
pub mod series;
pub mod spec;
pub mod state;
pub mod step;
