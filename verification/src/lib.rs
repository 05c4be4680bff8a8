//! Verified core of a zero-knowledge proving pipeline for virtual-machine
//! execution traces: witness handling, circuit construction, parameter
//! sizing, key setup, public-instance extraction, proof production and
//! verification, and artifact persistence planning.

pub mod circuit;
pub mod commands;
pub mod engine;
pub mod error;
pub mod hexenc;
pub mod instances;
pub mod keys;
pub mod module_id;
pub mod params;
pub mod persist;
pub mod pipeline;
pub mod witness;
