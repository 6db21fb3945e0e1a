//! Call-frame and calling-convention core of a register-based bytecode
//! virtual machine for a dynamic scripting language.
//!
//! The library models how a single function activation is laid out on the
//! shared execution stack (`this`, function reference, arguments, registers),
//! how suspended generator/async activations are resumed, and how an async
//! function's promise capability is threaded through reserved registers.

pub mod call_frame;
pub mod code_block;
pub mod context;
pub mod iter_list;
pub mod registers;
pub mod resume;
pub mod value;
pub mod vm;
