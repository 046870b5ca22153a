//! Why a module could not be lowered.

use vstd::prelude::*;

verus! {

/// A failure of the lowering. Every failure is final: nothing is retried,
/// and a module is either lowered whole or not at all.
#[derive(Clone, Copy, Debug, PartialEq, Eq, Structural)]
pub enum TransformError {
    /// The configuration is malformed: the path table names a source
    /// module twice.
    Configuration,
    /// The module declaration at `item` of the module body has a shape
    /// that the collector does not lower.
    UnsupportedSyntax { item: usize },
    /// Something that the lowering relies on does not hold.
    InternalInvariantViolation,
}

impl TransformError {
    /// A sentence that names the failure.
    pub fn message(&self) -> (r: String)
        ensures
            r@ == match *self {
                TransformError::Configuration => "the import path table names a source module twice"@,
                TransformError::UnsupportedSyntax { .. } => "unsupported import or export specifier"@,
                TransformError::InternalInvariantViolation => "internal invariant violated"@,
            },
    {
        match self {
            TransformError::Configuration => String::from_str("the import path table names a source module twice"),
            TransformError::UnsupportedSyntax { .. } => String::from_str("unsupported import or export specifier"),
            TransformError::InternalInvariantViolation => String::from_str("internal invariant violated"),
        }
    }
}

} // verus!
