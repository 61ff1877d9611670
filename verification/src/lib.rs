//! A safety layer over a C-ABI numerical-inference library.
//!
//! The foreign library communicates success or failure through a nullable
//! status pointer and hands out its resources (environments, sessions,
//! allocators, memory-info descriptors, tensors) as raw handles that must be
//! released explicitly, in a specific order, through a table of function
//! pointers. This crate verifies the two protocols that make such an API safe
//! to use: the translation of the status convention into structured errors,
//! and the wrapper pattern that owns each handle, validates its construction
//! and releases it exactly once.
//!
//! The foreign side is represented by a value-level model ([`api::OrtApi`]):
//! a dispatch table records which entry points the loaded library provides
//! and the status each constructor returns, and the library's bookkeeping
//! mints a fresh, non-null handle for every successful construction and
//! counts the release calls it receives. Everything the crate proves holds
//! for every such table.

pub mod api;
pub mod environment;
pub mod error;
pub mod lifecycle;
pub mod memory;
pub mod render;
pub mod session;
pub mod tensor;
