//! Driving a `std::task` poll from inside a futures 0.1 task.
use std::sync::Arc;
use std::task::{Context, Waker};
use futures::task::Task;
use futures_task::ArcWake;
use vstd::prelude::*;

verus! {

/// The futures 0.1 task that was current when the value was made.
struct Current(Task);

/// Relies on `futures::task::Task::notify`: asks the task's executor to poll it again.
pub assume_specification[ futures::task::Task::notify ](t: &Task);

impl ArcWake for Current {
    fn wake_by_ref(arc_self: &Arc<Self>) {
        arc_self.0.notify();
    }
}

/// Relies on `futures::task::is_in_task` and `futures::task::current`: a handle
/// to the futures 0.1 task being polled on this thread, or `None` when no task
/// is being polled there (where `current` would panic).
#[verifier::external_body]
fn current_task() -> Option<Task> {
    if futures::task::is_in_task() {
        Some(futures::task::current())
    } else {
        None
    }
}

/// Relies on `futures_task::waker`: a waker whose wakes call `ArcWake::wake_by_ref`
/// on the shared `Current`.
#[verifier::external_body]
fn waker_of(current: Arc<Current>) -> Waker {
    futures_task::waker(current)
}

impl Current {
    /// Wraps the task captured at the boundary.
    fn new(task: Task) -> (r: Current)
        ensures
            r.0 == task,
    {
        Current(task)
    }

    fn into_waker(self) -> Waker {
        waker_of(Arc::new(self))
    }

    /// Calls `f` on a context whose waker notifies the captured task.
    fn poll_with<F, R>(self, f: F) -> (r: R)
        where
            F: FnOnce(&mut Context<'_>) -> R,
        requires
            forall|cx: &mut Context<'_>| f.requires((cx,)),
        ensures
            exists|cx: &mut Context<'_>| f.ensures((cx,), r),
    {
        let waker = self.into_waker();
        let mut cx = Context::from_waker(&waker);
        f(&mut cx)
    }
}

/// Runs `f` with a `std::task::Context` whose waker notifies the current
/// futures 0.1 task, and returns what `f` returns.
///
/// The task is captured once, before `f` runs, so the waker (and its clones)
/// stays usable after this call returns. Outside a futures 0.1 poll there is
/// no task to notify: then `f` is not run and the result is `None`, where
/// futures 0.1 itself would abort the caller.
pub fn with_context<F, R>(f: F) -> (r: Option<R>)
    where
        F: FnOnce(&mut Context<'_>) -> R,
    requires
        forall|cx: &mut Context<'_>| f.requires((cx,)),
    ensures
        r is Some ==> exists|cx: &mut Context<'_>| f.ensures((cx,), r->0),
{
    match current_task() {
        Some(task) => {
            let current = Current::new(task);
            let v = current.poll_with(f);
            let r = Some(v);
            assert(r->0 == v);
            assert(exists|cx: &mut Context<'_>| f.ensures((cx,), r->0));
            r
        },
        None => None,
    }
}

} // verus!
