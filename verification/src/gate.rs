use vstd::prelude::*;

use crate::bytes::bytes_eq;
use crate::context::WrapperEnv;

verus! {

/// The instrumentation gate: whether an invocation described by `e` should
/// receive instrumentation flags. The first matching rule decides:
///
/// 1. no active coverage session - no;
/// 2. neither a crate name nor a package name, so this is not a package
///    compilation (a version probe, a feature probe) - no;
/// 3. a target restriction is in force and the current target differs - no;
/// 4. otherwise - yes.
pub open spec fn gate_allows(e: WrapperEnv) -> bool {
    &&& e.session_active
    &&& (e.crate_name is Some || e.pkg_name is Some)
    &&& ((e.target_only is Some && e.target is Some) ==> e.target_only->0@ == e.target->0@)
}

/// Decide whether this compiler invocation gets instrumentation flags.
pub fn should_instrument(env: &WrapperEnv) -> (r: bool)
    ensures
        r == gate_allows(*env),
{
    if !env.session_active {
        return false;
    }
    if env.crate_name.is_none() && env.pkg_name.is_none() {
        return false;
    }
    match (&env.target_only, &env.target) {
        (Option::Some(restrict), Option::Some(target)) => bytes_eq(target, restrict),
        _ => true,
    }
}

/// Whether the shell emits the per-invocation debug line: exactly when the
/// debug marker is set. The line is owed for every invocation, the ones
/// without a crate or package name included - tracing why a probe was not
/// instrumented is what the marker is for; an absent name is printed
/// empty.
pub fn wants_debug_log(env: &WrapperEnv) -> (r: bool)
    ensures
        r == env.debug,
{
    env.debug
}

/// An invocation that carries neither a crate name nor a package name is
/// declined, whatever else the environment holds: such an invocation
/// is not a package compilation, and instrumenting it must be a no-op.
pub proof fn lemma_gate_needs_crate_context(e: WrapperEnv)
    requires
        e.crate_name is None,
        e.pkg_name is None,
    ensures
        !gate_allows(e),
{
}

/// With a target restriction in force, every invocation whose current
/// target differs from the restriction is declined, even in an active
/// session with a crate name present.
pub proof fn lemma_gate_needs_target_match(e: WrapperEnv)
    requires
        e.target_only is Some,
        e.target is Some,
        e.target_only->0@ != e.target->0@,
    ensures
        !gate_allows(e),
{
}

} // verus!
