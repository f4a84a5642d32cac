use vstd::prelude::*;

verus! {

/// A snapshot of the environment variables the wrapper consults, taken once
/// at process start by the unverified shell and passed down explicitly.
///
/// Variables whose mere presence matters are booleans; variables whose value
/// matters carry the value as raw bytes, so that nothing is lost on
/// platforms whose environment admits non-UTF-8 data.
pub struct WrapperEnv {
    /// `CARGO_LLVM_COV` is present: a coverage session is active.
    pub session_active: bool,
    /// Value of `CARGO_CRATE_NAME`, when present.
    pub crate_name: Option<Vec<u8>>,
    /// Value of `CARGO_PKG_NAME`, when present.
    pub pkg_name: Option<Vec<u8>>,
    /// `CARGO_PRIMARY_PACKAGE` is present. Reported in the debug line only;
    /// the instrumentation decision does not read it.
    pub primary_package: bool,
    /// Value of `CARGO_LLVM_COV_TARGET_ONLY`, when present: instrument only
    /// compilations for this target triple.
    pub target_only: Option<Vec<u8>>,
    /// Value of `TARGET`, when present: the target triple of the current
    /// compilation.
    pub target: Option<Vec<u8>>,
    /// `CARGO_LLVM_COV_DEP_COVERAGE` is present: the orchestrator installed
    /// the wrapper for every dependency (`RUSTC_WRAPPER`) rather than for
    /// workspace members only (`RUSTC_WORKSPACE_WRAPPER`). A configuration
    /// marker carried for the orchestrator; the instrumentation decision
    /// treats both modes alike, because in either mode the caller has
    /// already chosen which invocations reach the wrapper.
    pub dep_coverage: bool,
    /// Value of `CARGO_LLVM_COV_FLAGS`, when present: the space-delimited
    /// flags to inject.
    pub flags: Option<Vec<u8>>,
    /// `CARGO_LLVM_COV_WRAPPER_DEBUG` is present: emit one diagnostic line
    /// per invocation.
    pub debug: bool,
}

} // verus!
