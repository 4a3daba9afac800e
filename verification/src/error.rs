use vstd::prelude::*;

verus! {

/// The kinds of failure that code generation can report.  Every kind is fatal
/// to the generation call that raised it; none is retried internally.
#[derive(Debug, Clone, Copy, PartialEq, Eq, Structural)]
pub enum CodegenErrorKind {
    /// No syntax tree was available when one was required.
    MissingAst,
    /// The tree has no macro named as the deployment entry point.
    MissingConstructor,
    /// A constant reference could not be resolved against the tree.
    MissingConstantDefinition,
    /// An invocation referenced a macro absent from the tree.
    MissingMacroDefinition,
    /// Expansion of an invoked macro failed.
    FailedMacroRecursion,
    /// The IR held a statement kind that is not valid at this stage.
    InvalidMacroStatement,
    /// A macro invoked a macro that is already being expanded.
    CircularMacroInvocation,
}

/// An error surfaced during code generation.
#[derive(Debug, Clone, Copy, PartialEq, Eq, Structural)]
pub struct CodegenError {
    /// Which failure occurred.
    pub kind: CodegenErrorKind,
}

} // verus!
