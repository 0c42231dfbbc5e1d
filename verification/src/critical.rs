//! Work that interrupts must not cut into.

use vstd::prelude::*;

verus! {

/// Runs `step` on `state` and `argument` inside `critical_section::with`,
/// which masks interrupts, calls its closure once, restores them and hands
/// the closure's result on. So whatever `step` promises holds of the call.
#[verifier::external_body]
pub(crate) fn masked<S, A, R, F: FnOnce(&mut S, A) -> R>(step: F, state: &mut S, argument: A) -> (result:
    R)
    requires
        call_requires(step, (old(state), argument)),
    ensures
        call_ensures(step, (old(state), argument), result),
{
    critical_section::with(|_| step(state, argument))
}

} // verus!
