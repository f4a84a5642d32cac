use vstd::prelude::*;

use crate::errors::WrapperError;

verus! {

/// What became of the attempt to run the delegate compiler, as observed by
/// the unverified shell: either the spawn itself failed, or the delegate
/// ran to completion with some exit status.
pub enum SpawnOutcome {
    /// The operating system refused to start the delegate; `detail` is the
    /// OS error's text.
    SpawnFailed { detail: String },
    /// The delegate ran; `success` is whether its exit status was success,
    /// and `status` is that status's display text.
    Exited { success: bool, status: String },
}

/// Map the delegate's fate onto the wrapper's own result. A spawn failure
/// is reported with the delegate path and the underlying OS error; a
/// non-success exit propagates as plain failure (the delegate already
/// reported its own errors on its own streams); a success exit is the
/// wrapper's success.
pub fn delegate_outcome(delegate: String, outcome: SpawnOutcome) -> (r: Result<(), WrapperError>)
    ensures
        (outcome matches SpawnOutcome::SpawnFailed { detail } ==> r
            == Result::<(), WrapperError>::Err(
            (WrapperError::DelegateSpawnError { delegate, detail }),
        )),
        (outcome matches SpawnOutcome::Exited { success, status } ==> r == (if success {
            Result::<(), WrapperError>::Ok(())
        } else {
            Result::<(), WrapperError>::Err((WrapperError::DelegateFailed { status }))
        })),
{
    match outcome {
        SpawnOutcome::SpawnFailed { detail } => Err(
            WrapperError::DelegateSpawnError { delegate, detail },
        ),
        SpawnOutcome::Exited { success, status } => {
            if success {
                Ok(())
            } else {
                Err(WrapperError::DelegateFailed { status })
            }
        },
    }
}

/// The wrapper's exit code: zero for success, one for any failure, the
/// delegate's own non-success included. Exact numeric delegate exit codes
/// are not preserved, only the success/failure distinction.
pub fn exit_code(r: &Result<(), WrapperError>) -> (c: u8)
    ensures
        c == (if *r is Ok {
            0u8
        } else {
            1u8
        }),
{
    match r {
        Result::Ok(_) => 0,
        Result::Err(_) => 1,
    }
}

} // verus!
