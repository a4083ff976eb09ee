//! Orchestration core of a legal-brief analysis service: the shared schema,
//! upload intake, backend response mapping, response assembly and the
//! per-request pipeline state machine.

pub mod models;
pub mod text;
pub mod errors;
pub mod intake;
pub mod adapters;
pub mod assembler;
pub mod orchestrator;
