//! A metadata-driven configuration layer for a procedural noise engine.
//!
//! The library discovers the engine's node types from enumerated metadata,
//! normalizes human-supplied names into stable lookup keys, validates
//! string-keyed configuration calls against the discovered member
//! descriptors, and derives evaluation buffer geometry. The engine itself
//! (the numeric noise kernels and the native node objects) is an external
//! collaborator: callers perform the engine calls that the planned
//! operations describe.

pub mod eval;
pub mod metadata;
pub mod node;
pub mod name_format;
