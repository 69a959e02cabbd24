//! The fatal error conditions of a run.  All four abort the current run
//! immediately; there is no instruction-level recovery.

use vstd::prelude::*;

verus! {

/// A fatal error condition, surfaced to the embedding caller.
#[derive(Debug)]
pub enum VmError {
    /// A pop was attempted on an empty operand stack.
    StackUnderflow,
    /// A jump's computed pointer is not representable.
    InvalidJumpTarget,
    /// A global was read under a name with no current binding.
    UnboundGlobal,
    /// Arithmetic was applied to a variant combination with no defined rule;
    /// carries the two offending type tags for diagnostics.
    TypeMismatch { lhs: String, rhs: String },
}

/// The mathematical model of a [`VmError`].
pub enum ErrorModel {
    StackUnderflow,
    InvalidJumpTarget,
    UnboundGlobal,
    TypeMismatch { lhs: Seq<char>, rhs: Seq<char> },
}

impl View for VmError {
    type V = ErrorModel;

    open spec fn view(&self) -> ErrorModel {
        match self {
            VmError::StackUnderflow => ErrorModel::StackUnderflow,
            VmError::InvalidJumpTarget => ErrorModel::InvalidJumpTarget,
            VmError::UnboundGlobal => ErrorModel::UnboundGlobal,
            VmError::TypeMismatch { lhs, rhs } => ErrorModel::TypeMismatch {
                lhs: lhs@,
                rhs: rhs@,
            },
        }
    }
}

} // verus!
