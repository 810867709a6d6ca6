use vstd::prelude::*;

verus! {

/// The deferred cleanup action bound to a task handle.  It is owned
/// exclusively by the handle and consumed the first time the handle is
/// canceled, so it can run at most once.
#[derive(Clone, Debug, PartialEq, Eq)]
pub enum FinalizerAction {
    /// Withdraw the server-side subscription for this room id.
    Unsubscribe { room_id: String },
}

/// A handle to one unit of concurrent work, with idempotent cancellation
/// and at most one deferred finalizer.
///
/// Cancellation returns the finalizer action, if one was still pending, for
/// the driver of the underlying work to perform; a failure while performing
/// it is contained there and never aborts cancellation itself.  The driver
/// reports completion of the work through `note_finished`, and teardown of
/// the handle's owner is expected to cancel it, so the work is never
/// silently leaked.
pub struct TaskHandle {
    pub canceled: bool,
    pub finished: bool,
    pub finalizer: Option<FinalizerAction>,
}

/// What one cancellation does: the handle afterwards, and the finalizer
/// action (if any) that this cancellation is to run.
pub open spec fn spec_cancel(t: TaskHandle) -> (TaskHandle, Option<FinalizerAction>) {
    (
        TaskHandle { canceled: true, finished: t.finished, finalizer: None },
        t.finalizer,
    )
}

impl TaskHandle {
    /// A handle for freshly started work: not canceled, not finished, and
    /// with no finalizer yet.
    pub fn new() -> (r: TaskHandle)
        ensures
            !r.canceled,
            !r.finished,
            r.finalizer is None,
    {
        TaskHandle { canceled: false, finished: false, finalizer: None }
    }

    /// Bind the action that must run once the handle is canceled.
    pub fn set_finalizer(&mut self, finalizer: FinalizerAction)
        ensures
            *final(self) == (TaskHandle { finalizer: Some(finalizer), ..*old(self) }),
    {
        self.finalizer = Some(finalizer);
    }

    /// Cancel the work.  Idempotent: the pending finalizer action is
    /// returned the first time and consumed, so later cancellations find
    /// none.
    pub fn cancel(&mut self) -> (r: Option<FinalizerAction>)
        ensures
            (*final(self), r) == spec_cancel(*old(self)),
    {
        self.canceled = true;
        self.finalizer.take()
    }

    /// Whether the underlying work has completed; never blocks.
    pub fn is_finished(&self) -> (r: bool)
        ensures
            r == self.finished,
    {
        self.finished
    }

    /// Recorded by the driver of the underlying work when it completes.
    pub fn note_finished(&mut self)
        ensures
            *final(self) == (TaskHandle { finished: true, ..*old(self) }),
    {
        self.finished = true;
    }
}

/// Law: canceling a task twice runs its finalizer exactly once.  The first
/// cancellation yields the pending action; the second finds the slot empty
/// and yields nothing.
pub proof fn lemma_cancel_twice_runs_finalizer_once(t: TaskHandle)
    ensures
        ({
            let (t1, a1) = spec_cancel(t);
            let (t2, a2) = spec_cancel(t1);
            a1 == t.finalizer && a2 is None
        }),
{
}

} // verus!
