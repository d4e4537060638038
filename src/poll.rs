//! Conversions between the two poll-result encodings.
use std::task::Poll as Poll03;
use futures::Async;
use vstd::prelude::*;

verus! {

#[verifier::external_type_specification]
#[verifier::reject_recursive_types(T)]
pub struct ExPoll<T>(std::task::Poll<T>);

#[verifier::external_type_specification]
#[verifier::reject_recursive_types(T)]
pub struct ExAsync<T>(futures::Async<T>);

/// The futures 0.1 poll result: `Ok(Ready(v))`, `Ok(NotReady)` or `Err(e)`.
pub type Poll01<T, E> = Result<Async<T>, E>;

/// The futures 0.1 reading of a `std::task::Poll` of a `Result`.
pub open spec fn spec_poll_03_to_01<T, E>(x: Poll03<Result<T, E>>) -> Poll01<T, E> {
    match x {
        Poll03::Ready(Ok(v)) => Ok(Async::Ready(v)),
        Poll03::Ready(Err(e)) => Err(e),
        Poll03::Pending => Ok(Async::NotReady),
    }
}

/// The `std::task::Poll` reading of a futures 0.1 poll result.
pub open spec fn spec_poll_01_to_03<T, E>(x: Poll01<T, E>) -> Poll03<Result<T, E>> {
    match x {
        Ok(Async::Ready(v)) => Poll03::Ready(Ok(v)),
        Ok(Async::NotReady) => Poll03::Pending,
        Err(e) => Poll03::Ready(Err(e)),
    }
}

/// Map `std::task::Poll` to a futures 0.1 poll.
pub fn poll_03_to_01<T, E>(x: Poll03<Result<T, E>>) -> (r: Poll01<T, E>)
    ensures
        r == spec_poll_03_to_01(x),
{
    match x {
        Poll03::Ready(Ok(v)) => Ok(Async::Ready(v)),
        Poll03::Ready(Err(e)) => Err(e),
        Poll03::Pending => Ok(Async::NotReady),
    }
}

/// Map a futures 0.1 poll to `std::task::Poll`.
pub fn poll_01_to_03<T, E>(x: Poll01<T, E>) -> (r: Poll03<Result<T, E>>)
    ensures
        r == spec_poll_01_to_03(x),
{
    match x {
        Ok(Async::Ready(v)) => Poll03::Ready(Ok(v)),
        Ok(Async::NotReady) => Poll03::Pending,
        Err(e) => Poll03::Ready(Err(e)),
    }
}

/// Going from futures 0.1 to `std::task` and back gives the same poll result.
pub proof fn lemma_round_trip_01<T, E>(p: Poll01<T, E>)
    ensures
        spec_poll_03_to_01(spec_poll_01_to_03(p)) == p,
{
}

/// Going from `std::task` to futures 0.1 and back gives the same poll result.
pub proof fn lemma_round_trip_03<T, E>(q: Poll03<Result<T, E>>)
    ensures
        spec_poll_01_to_03(spec_poll_03_to_01(q)) == q,
{
}

} // verus!
