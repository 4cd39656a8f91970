//! Task execution core: status lifecycle model, durable-record store model,
//! completion evaluator, and the bounded continuation engine that drives a
//! task through model rounds until it is complete, stalled, or exhausted.

pub mod completion;
pub mod engine;
pub mod host;
pub mod jsontext;
pub mod phrases;
pub mod scan;
pub mod store;
pub mod text;
pub mod types;
