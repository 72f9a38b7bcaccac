use vstd::prelude::*;

verus! {

/// Outcome of an operation that fails on a caller's input or on a limit of a
/// fixed-size buffer, as opposed to a judgement on a certificate.
#[derive(Clone, Copy, Debug, PartialEq, Eq, Structural)]
pub enum ResultCode {
    /// The engine failed in a way that its documented size contracts rule out.
    FatalErrorInternal,
    /// A parameter was malformed or did not meet the operation's precondition.
    ErrorBadParameter,
    /// The operation failed, for instance because its output did not fit.
    ErrorInternalNonFatal,
}

} // verus!
