use vstd::prelude::*;

verus! {

/// The ordering operator that a failed comparison was attempted with.
#[derive(Debug, Clone, Copy, PartialEq, Eq, Structural)]
pub enum CompareOp {
    Lt,
    Le,
    Gt,
    Ge,
}

/// Recoverable failure conditions surfaced to the interpreter.
#[derive(Debug, Clone, Copy, PartialEq, Eq, Structural)]
pub enum PyError {
    /// The element at `index` of a construction argument is not a byte value.
    Construction { index: usize },
    /// A typed reference was requested for a payload of another type.
    TypeMismatch,
    /// An ordering operator was applied to operands of differing types.
    ComparisonType { op: CompareOp },
    /// The class has no operation bound to the requested name.
    NoAttribute,
    /// The argument list does not fit the operation.
    ArgumentMismatch,
    /// The bytes of a buffer are not valid UTF-8 text.
    InvalidText,
}

} // verus!
