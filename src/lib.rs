//! Differential checking of machine-translated programs: output normalisation
//! and comparison, fixture preparation, outcome classification, archive keys,
//! translation-service response reading, and the per-task pipeline as a
//! state machine driven by an outside runner.

pub mod text;
pub mod decimal;
pub mod archive;
pub mod classify;
pub mod translation;
pub mod pipeline;
