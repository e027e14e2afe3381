//! Reading and renaming the optional name of a compiled module that may be
//! shared by several handles.
//!
//! A name only changes through a handle that is the sole owner of its module,
//! so no other holder ever sees the name of a shared module change.

mod byte_vector;
pub mod laws;
mod module;

pub use byte_vector::{text_of, ByteVector};
pub use module::{
    name_bytes, set_name_outcome, wasm_module_name, wasm_module_set_name, Module, ModuleHandle,
};
