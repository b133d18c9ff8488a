//! GPU machine-code generation: machine IR, register allocation, targets
//! and the compiler pipeline after instruction selection.
pub mod compile;
pub mod instruction_selection;
pub mod machine;
pub mod register_allocation;
pub mod targets;

pub use compile::{compile_selected, CompiledShader, Error};
