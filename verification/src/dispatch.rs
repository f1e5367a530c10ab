//! From the outcome of a call to the typed reply of its command.
//!
//! A command declares the shape of its reply. The outcome that the registry
//! hands over is untyped, and whoever knows the shape decodes it. This
//! module joins the two and settles which error a caller sees.
use vstd::prelude::*;

use crate::wire::CallError;
use crate::wire::Outcome;
use crate::wire::Payload;

verus! {

/// Reads the reply of a command from the outcome of its call.
///
/// A failed call keeps its error and `decode` is not called. The result of a
/// successful call is given to `decode` once: where it returns `Ok(reply)`
/// the reply is returned, and where it returns an error, whichever, the
/// result did not have the shape declared and the error is
/// [`CallError::DecodeError`].
pub fn read_reply<T, E, F: FnOnce(Payload) -> Result<T, E>>(outcome: Outcome, decode: F) -> (r:
    Result<T, CallError>)
    requires
        outcome matches Ok(result) ==> call_requires(decode, (result,)),
    ensures
        outcome matches Err(error) ==> r == Err::<T, CallError>(error),
        outcome matches Ok(result) ==> match r {
            Ok(reply) => call_ensures(decode, (result,), Ok::<T, E>(reply)),
            Err(CallError::DecodeError) => exists|error: E|
                call_ensures(decode, (result,), Err::<T, E>(error)),
            Err(_) => false,
        },
{
    match outcome {
        Ok(result) => match decode(result) {
            Ok(reply) => Ok(reply),
            Err(_) => Err(CallError::DecodeError),
        },
        Err(error) => Err(error),
    }
}

} // verus!
