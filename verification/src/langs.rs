//! The per-language grammar adapters of the merge engine.

pub mod rust;
