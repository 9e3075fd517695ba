//! The handler of a request to create a tree: validate, assemble the call,
//! have it made once, and hand on how it ended.

use vstd::prelude::*;
use crate::account::Context;
use crate::error::{CreateTreeError, ValidationError};
use crate::instruction::{assemble, spec_invocation, Invocation};
use crate::validation::{spec_validate, validate};

verus! {

/// How a request ends, given how the call to the tree-logic program ended:
/// in success if the call succeeded, else in the call's own failure.
pub open spec fn spec_conclude<E>(outcome: Result<(), E>) -> Result<(), CreateTreeError<E>> {
    match outcome {
        Ok(()) => Ok(()),
        Err(failure) => Err(CreateTreeError::ExternalInvocation(failure)),
    }
}

/// The first step of a request. A request that fails validation ends here
/// with its error, and there is no call to make; for a valid request the
/// result is the one call that has to be made.
pub fn prepare(ctx: &Context, max_depth: u32, max_buffer_size: u32) -> (step: Result<
    Invocation,
    ValidationError,
>)
    ensures
        match spec_validate(*ctx) {
            Err(e) => step == Err::<Invocation, ValidationError>(e),
            Ok(()) => step is Ok && step->Ok_0@ == spec_invocation(
                *ctx,
                max_depth,
                max_buffer_size,
            ),
        },
{
    match validate(ctx) {
        Err(e) => Err(e),
        Ok(()) => Ok(assemble(ctx, max_depth, max_buffer_size)),
    }
}

/// The last step of a request: turns the outcome of the call into the
/// outcome of the request, leaving a failure as it came.
pub fn conclude<E>(outcome: Result<(), E>) -> (result: Result<(), CreateTreeError<E>>)
    ensures
        result == spec_conclude(outcome),
{
    match outcome {
        Ok(()) => Ok(()),
        Err(failure) => Err(CreateTreeError::ExternalInvocation(failure)),
    }
}

/// Handles a request to create a tree. `collaborator` makes the call to the
/// tree-logic program and says how it ended.
///
/// A request that fails validation is refused with its validation error;
/// the collaborator need not accept any call then, and none is made. A valid
/// request ends as the call ends that is assembled from it: in success if
/// the call succeeds, else in the call's own failure.
pub fn create_tree<E, F: FnOnce(Invocation) -> Result<(), E>>(
    ctx: &Context,
    max_depth: u32,
    max_buffer_size: u32,
    collaborator: F,
) -> (result: Result<(), CreateTreeError<E>>)
    requires
        spec_validate(*ctx) is Ok ==> forall|invocation: Invocation|
            invocation@ == spec_invocation(*ctx, max_depth, max_buffer_size)
                ==> collaborator.requires((invocation,)),
    ensures
        match spec_validate(*ctx) {
            Err(e) => result == Err::<(), CreateTreeError<E>>(CreateTreeError::Validation(e)),
            Ok(()) => exists|invocation: Invocation, outcome: Result<(), E>|
                {
                    &&& invocation@ == spec_invocation(*ctx, max_depth, max_buffer_size)
                    &&& collaborator.ensures((invocation,), outcome)
                    &&& result == spec_conclude(outcome)
                },
        },
{
    match prepare(ctx, max_depth, max_buffer_size) {
        Err(e) => Err(CreateTreeError::Validation(e)),
        Ok(invocation) => {
            let ghost called = invocation;
            let outcome = collaborator(invocation);
            assert(collaborator.ensures((called,), outcome));
            conclude(outcome)
        },
    }
}

} // verus!
