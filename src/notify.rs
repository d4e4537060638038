//! Driving a futures 0.1 poll from inside a `std::task` poll.
use std::sync::Arc;
use std::task::{Context, Waker};
use futures::executor::{Notify, Spawn};
use vstd::prelude::*;

verus! {

/// A futures 0.1 notification target that wakes a `std::task` waker.
struct NotifyWaker(Waker);

/// Relies on `std::task::Waker::wake_by_ref`: wakes the waker's task without
/// consuming the waker.
pub assume_specification[ std::task::Waker::wake_by_ref ](w: &Waker);

/// Relies on `Clone` for `std::task::Waker`: a waker of the same task.
pub assume_specification[ <std::task::Waker as Clone>::clone ](w: &Waker) -> Waker;

impl Notify for NotifyWaker {
    fn notify(&self, _id: usize) {
        self.0.wake_by_ref();
    }
}

/// Relies on `futures::executor::spawn`: a futures 0.1 task around `obj`.
pub assume_specification<T>[ futures::executor::spawn::<T> ](obj: T) -> Spawn<T>;

/// Relies on `futures::executor::Spawn::poll_fn_notify`: runs `f` once, with
/// `notify` as the current task's notification target, and returns its result.
#[verifier::external_body]
fn poll_fn_notify<F, R>(spawn: &mut Spawn<()>, notify: &Arc<NotifyWaker>, f: F) -> (r: R)
    where
        F: FnOnce() -> R,
    requires
        f.requires(()),
    ensures
        f.ensures((), r),
{
    spawn.poll_fn_notify(notify, 0, |_| f())
}

/// Runs `f` as a futures 0.1 task whose notifications wake the waker of `cx`,
/// and returns what `f` returns.
pub fn with_notify<F, R>(cx: &mut Context<'_>, f: F) -> (r: R)
    where
        F: FnOnce() -> R,
    requires
        f.requires(()),
    ensures
        f.ensures((), r),
        *final(cx) == *old(cx),
{
    let mut spawn = futures::executor::spawn(());
    let notify = Arc::new(NotifyWaker(cx.waker().clone()));
    poll_fn_notify(&mut spawn, &notify, f)
}

} // verus!
