use vstd::prelude::*;
use vstd::std_specs::convert::FromSpecImpl;

use std::future::Future;

use futures::future::LocalFutureObj;

use crate::component::Component;
use crate::lifecycle::Outcome;

verus! {

/// futures' `LocalFutureObj`, held opaque: the boxed job of a deferred action.
#[verifier::external_type_specification]
#[verifier::external_body]
#[verifier::reject_recursive_types(T)]
pub struct ExLocalFutureObj<'a, T>(LocalFutureObj<'a, T>);

/// A boxed asynchronous job that yields one message of a component.
pub type Job<M> = LocalFutureObj<'static, M>;

/// What a transition asks of the task that owns the component.
pub enum UpdateAction<C: Component> {
    /// Nothing to do.
    Nothing,
    /// Re-derive the view and patch the rendered objects.
    Render,
    /// Run the job and feed its message back to `update`.
    Defer(Job<C::Message>),
}

/// Relies on futures' `LocalFutureObj::new`: boxes the job as a local
/// future object.
#[verifier::external_body]
fn box_job<M, F: Future<Output = M> + 'static>(job: F) -> (r: Job<M>) {
    LocalFutureObj::new(Box::new(job))
}

/// The kind of an action, as the task's control state sees it.
pub open spec fn outcome_of<C: Component>(a: UpdateAction<C>) -> Outcome {
    match a {
        UpdateAction::Nothing => Outcome::Nothing,
        UpdateAction::Render => Outcome::Render,
        UpdateAction::Defer(_) => Outcome::Defer,
    }
}

impl<C: Component> UpdateAction<C> {
    /// Builds a deferred action from a job.
    pub fn defer<F: Future<Output = C::Message> + 'static>(job: F) -> (r: Self)
        ensures
            r is Defer,
    {
        UpdateAction::Defer(box_job(job))
    }
}

impl<C: Component, F: Future<Output = C::Message> + 'static> From<F> for UpdateAction<C> {
    fn from(job: F) -> (r: Self)
        ensures
            r is Defer,
    {
        Self::defer(job)
    }
}

impl<C: Component, F: Future<Output = C::Message> + 'static> FromSpecImpl<F> for UpdateAction<C> {
    open spec fn obeys_from_spec() -> bool {
        false
    }

    open spec fn from_spec(job: F) -> Self {
        UpdateAction::Defer(arbitrary())
    }
}

} // verus!
