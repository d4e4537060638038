//! The task and waker types of the two interfaces, as the verified code sees them.
use vstd::prelude::*;

verus! {

#[verifier::external_type_specification]
#[verifier::external_body]
pub struct ExWaker(std::task::Waker);

#[verifier::external_type_specification]
#[verifier::external_body]
pub struct ExContext<'a>(std::task::Context<'a>);

#[verifier::external_type_specification]
#[verifier::external_body]
pub struct ExTask(futures::task::Task);

#[verifier::external_type_specification]
#[verifier::external_body]
#[verifier::reject_recursive_types(T)]
pub struct ExSpawn<T: ?Sized>(futures::executor::Spawn<T>);

/// Relies on `std::task::Context::waker`: borrows the context's waker.
pub assume_specification<'a>[ std::task::Context::<'a>::waker ](cx: &std::task::Context<'a>) -> &'a std::task::Waker;

} // verus!

verus! {

/// Relies on `std::task::Context::from_waker`: a context that hands out `waker`.
pub assume_specification<'a>[ std::task::Context::<'a>::from_waker ](waker: &'a std::task::Waker) -> std::task::Context<'a>;

} // verus!
