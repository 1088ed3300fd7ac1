//! A node path held by an engine runtime, and the host-side wrapper around it.
//!
//! A node path is a value that an engine owns: the host holds nothing but a few bytes
//! that name it, and one counted reference. This crate states what the engine has to
//! promise for that to work, and proves what the wrapper then guarantees.
//!
//! - [`opaque`]: the bytes that name a value.
//! - [`heap`]: the engine's side as a model, a map from bytes to text and owners.
//! - [`runtime`]: the entry points of an engine, with their contracts over that model.
//! - [`node_path`]: the wrapper, written against those contracts.
//! - [`string`]: the string types that text passes through on its way in and out.
//! - [`serialize`]: the written form of a path, and what is read back as one.
//! - [`table`]: a runtime in the host's own memory, which meets the contracts.
//! - [`laws`]: what holds of every path, whatever runtime keeps it.

pub mod heap;
pub mod laws;
pub mod node_path;
pub mod opaque;
pub mod runtime;
pub mod serialize;
pub mod string;
pub mod table;
