//! Maintains named configuration profiles, each a directory under a config
//! root, and decides which profile becomes active.
//!
//! Everything here is pure decision logic over plain values: resolving the
//! config root from environment values, turning a directory listing into
//! profiles, looking profiles up by name or path, and resolving an
//! interactive selection. Reading the environment, the filesystem and the
//! terminal is left to the surrounding binary, which hands plain values in
//! and carries the decisions out.

pub mod config;
pub mod profile;
pub mod select;
pub mod store;
