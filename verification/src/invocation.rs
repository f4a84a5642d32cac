use vstd::prelude::*;

use crate::bytes::copy_bytes;
use crate::bytes::views_of;
use crate::context::WrapperEnv;
use crate::errors::WrapperError;
use crate::flags::add_coverage_flags;
use crate::flags::split_tokens;
use crate::flags::with_flags_injected;
use crate::gate::gate_allows;
use crate::gate::should_instrument;

verus! {

/// A decoded invocation: the delegate compiler's path and the arguments to
/// hand it, every token kept byte for byte.
pub struct Invocation {
    /// The path of the real compiler, taken verbatim from the command line.
    pub delegate: Vec<u8>,
    /// The arguments for the delegate, in order.
    pub args: Vec<Vec<u8>>,
}

/// Split the wrapper's own command line `[self, delegate, args..]` into the
/// delegate path and the delegate's arguments, preserving the exact byte
/// sequence of every token. Fails when no delegate path was supplied after
/// the program's own name.
pub fn decode_invocation(argv: &Vec<Vec<u8>>) -> (r: Result<Invocation, WrapperError>)
    ensures
        argv@.len() >= 2 ==> (r matches Ok(inv) && inv.delegate@ == argv@[1]@ && views_of(
            inv.args@,
        ) == views_of(argv@.skip(2))),
        argv@.len() < 2 ==> r == Result::<Invocation, WrapperError>::Err(
            WrapperError::InsufficientArguments,
        ),
{
    if argv.len() < 2 {
        return Err(WrapperError::InsufficientArguments);
    }
    let delegate = copy_bytes(&argv[1]);
    let mut args: Vec<Vec<u8>> = Vec::new();
    let mut k: usize = 2;
    while k < argv.len()
        invariant
            2 <= k <= argv@.len(),
            args@.len() == k - 2,
            forall|idx: int| 0 <= idx < k - 2 ==> args@[idx]@ == argv@[idx + 2]@,
        decreases argv@.len() - k,
    {
        args.push(copy_bytes(&argv[k]));
        k = k + 1;
    }
    proof {
        assert forall|idx: int| 0 <= idx < args@.len() implies views_of(args@)[idx] == views_of(
            argv@.skip(2),
        )[idx] by {
            assert(argv@.skip(2)[idx] == argv@[idx + 2]);
        }
        assert(views_of(args@) =~= views_of(argv@.skip(2)));
    }
    Ok(Invocation { delegate, args })
}

/// The argument vector the delegate will see: when instrumentation is
/// allowed, the flag tokens followed by the original arguments;
/// otherwise exactly the original arguments.
pub open spec fn planned_args(e: WrapperEnv, orig: Seq<Seq<u8>>) -> Seq<Seq<u8>> {
    if gate_allows(e) {
        with_flags_injected(e.flags, orig)
    } else {
        orig
    }
}

/// Build the delegate's argument vector from the original arguments:
/// decide whether to instrument, and inject the flag tokens in front
/// when the decision allows it.
pub fn plan_args(env: &WrapperEnv, args: Vec<Vec<u8>>) -> (r: Vec<Vec<u8>>)
    ensures
        views_of(r@) == planned_args(*env, views_of(args@)),
{
    let mut args = args;
    if should_instrument(env) {
        add_coverage_flags(env, &mut args);
    }
    args
}

/// Decode the wrapper's command line and plan the delegate invocation:
/// everything the wrapper decides before the delegate is spawned. With
/// fewer than two command-line tokens there is no delegate path and the
/// invocation fails at once; otherwise the delegate is the second token
/// and its arguments are the remaining tokens, with the flag tokens in
/// front exactly when instrumentation is allowed.
pub fn plan_invocation(env: &WrapperEnv, argv: &Vec<Vec<u8>>) -> (r: Result<
    Invocation,
    WrapperError,
>)
    ensures
        argv@.len() >= 2 ==> (r matches Ok(inv) && inv.delegate@ == argv@[1]@ && views_of(
            inv.args@,
        ) == planned_args(*env, views_of(argv@.skip(2)))),
        argv@.len() < 2 ==> r == Result::<Invocation, WrapperError>::Err(
            WrapperError::InsufficientArguments,
        ),
{
    match decode_invocation(argv) {
        Err(e) => Err(e),
        Ok(inv) => {
            let new_args = plan_args(env, inv.args);
            Ok(Invocation { delegate: inv.delegate, args: new_args })
        },
    }
}

/// Identity when inert: for every argument vector and every environment
/// without an active coverage session, the planned arguments are exactly
/// the original arguments - same length, same order, same bytes.
pub proof fn lemma_inert_identity(e: WrapperEnv, orig: Seq<Seq<u8>>)
    requires
        !e.session_active,
    ensures
        planned_args(e, orig) == orig,
{
}

/// Flag precedence: whenever instrumentation is allowed and a flag
/// string is present, its tokens stand in front of the original arguments,
/// whatever those are.
pub proof fn lemma_flag_precedence(e: WrapperEnv, orig: Seq<Seq<u8>>)
    requires
        gate_allows(e),
        e.flags is Some,
    ensures
        planned_args(e, orig) == split_tokens(e.flags->0@) + orig,
{
}

} // verus!
