//! One-shot completion: the producer half held by the session until the
//! router answers, and the consumer half handed to the caller.

use eventual::{Complete, Future};
use vstd::prelude::*;

verus! {

/// `eventual::Complete`, the producer half.
#[verifier::external_type_specification]
#[verifier::external_body]
#[verifier::reject_recursive_types(T)]
#[verifier::reject_recursive_types(E)]
pub struct ExComplete<T: Send + 'static, E: Send + 'static>(Complete<T, E>);

/// `eventual::Future`, the consumer half.
#[verifier::external_type_specification]
#[verifier::external_body]
#[verifier::reject_recursive_types(T)]
#[verifier::reject_recursive_types(E)]
pub struct ExFuture<T: Send + 'static, E: Send + 'static>(Future<T, E>);

/// Calls `eventual::Future::pair`, which allocates a shared cell and hands
/// back its two ends. Nothing is claimed of either end.
#[verifier::external_body]
pub(crate) fn pair<T: Send + 'static, E: Send + 'static>() -> (ends: (Complete<T, E>, Future<T, E>)) {
    Future::pair()
}

/// Calls `eventual::Complete::complete`, which stores the value for the
/// consumer and wakes it. The producer end is used up; there is no result to
/// state. A producer end that came from `pair` and was only moved since is
/// in a state the call accepts.
#[verifier::external_body]
pub(crate) fn fulfil<T: Send + 'static, E: Send + 'static>(promise: Complete<T, E>, value: T) {
    promise.complete(value)
}

/// Calls `eventual::Complete::fail`, which stores the error for the consumer
/// and wakes it. The producer end is used up; there is no result to state.
#[verifier::external_body]
pub(crate) fn reject<T: Send + 'static, E: Send + 'static>(promise: Complete<T, E>, error: E) {
    promise.fail(error)
}

} // verus!
