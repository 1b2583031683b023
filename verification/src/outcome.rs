//! The result type of a poll-style sink operation, and the re-invocation handle
//! that a `Pending` operation uses to ask for another call.

use vstd::prelude::*;

verus! {

/// Outcome of one poll-style operation on a mock sink.
///
/// The same type also serves as the element of a flush-outcome script: `Ready`
/// stands for a successful drain event, `Failed` for a scripted failure, and
/// `Pending` for "not yet".
#[derive(Clone, Copy, Debug, PartialEq, Eq)]
pub enum SinkPoll<E> {
    /// The operation completed successfully.
    Ready,
    /// The operation cannot complete yet; the caller was asked to re-invoke it.
    Pending,
    /// The operation failed with a scripted error value.
    Failed(E),
}

/// A re-invocation handle: the one capability a pending operation needs from its
/// caller is "run me again later". The handle only counts how often that was
/// requested, which is exactly what a test wants to observe.
pub struct WakeHandle {
    /// How many times a re-invocation has been requested so far.
    pub wakes: usize,
}

impl WakeHandle {
    /// A fresh handle with no re-invocation requests recorded.
    pub fn new() -> (r: Self)
        ensures
            r.wakes == 0,
    {
        WakeHandle { wakes: 0 }
    }

    /// Record one request to re-invoke the current operation later.
    pub fn request_wake(&mut self)
        requires
            old(self).wakes < usize::MAX,
        ensures
            final(self).wakes == old(self).wakes + 1,
    {
        self.wakes = self.wakes + 1;
    }
}

/// Flip a poll outcome: `Pending` becomes `Ready`, any completed outcome becomes
/// `Pending`. Feeding the previous answer through `reverse` yields a script that
/// alternates between ready and not-ready.
pub fn reverse<E>(poll: &SinkPoll<E>) -> (r: Option<SinkPoll<E>>)
    ensures
        r == (match poll {
            SinkPoll::Pending => Some(SinkPoll::<E>::Ready),
            _ => Some(SinkPoll::<E>::Pending),
        }),
{
    match poll {
        SinkPoll::Pending => Some(SinkPoll::Ready),
        _ => Some(SinkPoll::Pending),
    }
}

} // verus!
