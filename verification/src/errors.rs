use vstd::prelude::*;
use vstd::string::StringExecFns;

verus! {

/// Everything that can go wrong in one wrapper invocation. Every variant is
/// fatal to the invocation and maps to a failure exit code.
#[derive(Debug)]
pub enum WrapperError {
    /// Invoked without a delegate compiler path after the program's own
    /// name.
    InsufficientArguments,
    /// The flag string must be interpreted as text and is not valid text.
    /// Raised only by the text-mode splitting operation, for a platform
    /// without byte-level argument access; the byte-level one cannot fail.
    InvalidFlagEncoding,
    /// The operating system could not start the delegate compiler.
    DelegateSpawnError { delegate: String, detail: String },
    /// The delegate compiler ran and exited with a non-success status.
    DelegateFailed { status: String },
}

/// The diagnostic text of each error, without the tool tag.
pub open spec fn spec_message(e: WrapperError) -> Seq<char> {
    match e {
        WrapperError::InsufficientArguments => "rustc wrapper called without rustc path"@,
        WrapperError::InvalidFlagEncoding => "CARGO_LLVM_COV_FLAGS contains invalid UTF-8"@,
        WrapperError::DelegateSpawnError { delegate, detail } => "failed to execute rustc: "@
            + delegate@ + ": "@ + detail@,
        WrapperError::DelegateFailed { status } => "rustc exited with status: "@ + status@,
    }
}

impl WrapperError {
    /// The diagnostic text of this error.
    pub fn message(&self) -> (r: String)
        ensures
            r@ == spec_message(*self),
    {
        match self {
            WrapperError::InsufficientArguments => {
                String::from_str("rustc wrapper called without rustc path")
            },
            WrapperError::InvalidFlagEncoding => {
                String::from_str("CARGO_LLVM_COV_FLAGS contains invalid UTF-8")
            },
            WrapperError::DelegateSpawnError { delegate, detail } => {
                let mut s = String::from_str("failed to execute rustc: ");
                s.append(delegate.as_str());
                s.append(": ");
                s.append(detail.as_str());
                s
            },
            WrapperError::DelegateFailed { status } => {
                let mut s = String::from_str("rustc exited with status: ");
                s.append(status.as_str());
                s
            },
        }
    }

    /// Whether this error gets the tagged diagnostic line on the error
    /// stream. Internal failures do. A delegate that ran and failed does
    /// not: that is no internal error, the delegate already reported its
    /// own errors on its own streams, and the wrapper merely propagates
    /// the failure.
    pub fn wants_diagnostic(&self) -> (r: bool)
        ensures
            r == !(*self is DelegateFailed),
    {
        match self {
            WrapperError::DelegateFailed { .. } => false,
            _ => true,
        }
    }

    /// The one line the shell prints on the error stream for an internal
    /// failure: the fixed tool-identifying tag, then the diagnostic text.
    pub fn diagnostic_line(&self) -> (r: String)
        ensures
            r@ == "cargo-llvm-cov wrapper error: "@ + spec_message(*self),
    {
        let mut s = String::from_str("cargo-llvm-cov wrapper error: ");
        let m = self.message();
        s.append(m.as_str());
        s
    }
}

} // verus!
