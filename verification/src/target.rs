//! Which types the attribute `stack_trace_debug` can be put on.
//!
//! The attribute gives an error type its virtual stack and a debug text that
//! shows it. It is meant for error enums, one variant for each way to fail,
//! and is refused on anything else.

use vstd::prelude::*;

verus! {

/// The kinds of type that an attribute can stand on.
#[derive(Clone, Copy, Debug, PartialEq, Eq)]
pub enum ItemKind {
    Struct,
    Enum,
    Union,
}

/// Why the attribute was refused.
#[derive(Clone, Copy, Debug, PartialEq, Eq)]
pub enum TargetError {
    /// The attribute stands on a type that is not an enum.
    NotAnEnum,
}

/// What the user is told when the attribute is refused.
pub open spec fn refusal_text(error: TargetError) -> Seq<char> {
    match error {
        TargetError::NotAnEnum => "stack_trace_debug can only be applied to enums"@,
    }
}

impl TargetError {
    /// What the user is told about this error.
    pub fn message(&self) -> (text: &'static str)
        ensures
            text@ == refusal_text(*self),
    {
        match self {
            TargetError::NotAnEnum => "stack_trace_debug can only be applied to enums",
        }
    }
}

/// Accepts the attribute on an enum and refuses it on a struct or a union.
pub fn check_target(kind: ItemKind) -> (checked: Result<(), TargetError>)
    ensures
        checked is Ok <==> kind is Enum,
        checked is Err ==> checked == Err::<(), TargetError>(TargetError::NotAnEnum),
{
    match kind {
        ItemKind::Enum => Ok(()),
        ItemKind::Struct => Err(TargetError::NotAnEnum),
        ItemKind::Union => Err(TargetError::NotAnEnum),
    }
}

} // verus!
