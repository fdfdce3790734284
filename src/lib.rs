//! Adapter between the A5 grid engine's unsigned cell identifiers and a host
//! that stores identifiers as signed 64-bit integers: overflow-checked
//! identifier conversion, boundary options and the flat boundary transfer,
//! and the hierarchy and compaction operations over host identifiers.
pub mod adapter;
pub mod boundary;
pub mod engine;
pub mod error;
pub mod hierarchy;
pub mod version;
