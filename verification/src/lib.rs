//! A minimal stack-based bytecode virtual machine.
//!
//! Programs are linear sequences of instructions executed against an operand
//! stack and a name-indexed global store.  The whole observable behaviour of
//! the machine — dispatch, arithmetic and coercion, the global table, the
//! instruction pointer and the output sink — is stated as a deterministic
//! small-step specification and proved of the executable engine.

pub mod error;
pub mod value;
pub mod vm;
