//! Core of a bytecode-to-native JIT: the backend type model, the record
//! layouts shared with the host runtime, the runtime argument type with its
//! structural validator, and the per-function runtime field extractor.
pub mod builder;
pub mod ir;
pub mod jit_context;
pub mod layout;
pub mod providers;
pub mod rt_type;
