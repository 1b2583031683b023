//! The discard-and-score mock: a degenerate sink with no buffer that discards
//! every submitted item and answers every operation straight from its scripts.

use vstd::pervasive::unreached;
use vstd::prelude::*;

use core::marker::PhantomData;

use crate::outcome::SinkPoll;
use crate::outcome::WakeHandle;
use crate::script::repeat_one;
use crate::script::CycleScript;
use crate::script::Script;

verus! {

/// A mock sink that discards every item sent to it and returns scripted
/// feedback.
///
/// The readiness, flush and close operations all read the same outcome script;
/// submit reads an independent error-injection script. The sink protocol is
/// enforced all the same: a submit needs the authorization of a readiness check
/// that answered `Ready`, and a close that answers `Ready` is terminal. Misuse —
/// an unauthorized submit, any operation on a closed sink, or reading a script
/// past its end — is a contract violation and is ruled out by the operations'
/// preconditions.
pub struct SinkFeedback<FI, SSI, Item> {
    /// Scripted outcome of each readiness, flush or close call.
    pub poll_fallback: FI,
    /// Scripted result of each submit call.
    pub start_send_fallback: SSI,
    /// Whether a close has succeeded; terminal once true.
    pub is_closed: bool,
    /// Whether the last readiness check authorized exactly one submit.
    pub can_start_send: bool,
    /// Marks the item type the sink accepts.
    pub item_type: PhantomData<Item>,
}

/// A script whose every read yields `Ok` and leaves the script unchanged, so
/// that any number of submits is answered `Ok`.
pub open spec fn always_ok<SSI, E>(s: SSI) -> bool where SSI: Script<Elem = Result<(), E>> {
    &&& s.spec_next() == Some(Ok::<(), E>(()))
    &&& s.spec_rest() == s
}

/// Any run of `n` reads from the script yields `Ok` every time.
pub open spec fn sends_all_ok<SSI, E>(s: SSI, n: nat) -> bool where
    SSI: Script<Elem = Result<(), E>>,

    decreases n,
{
    n == 0 || {
        &&& s.spec_next() == Some(Ok::<(), E>(()))
        &&& sends_all_ok(s.spec_rest(), (n - 1) as nat)
    }
}

/// Law: under an always-`Ok` error-injection script, every one of any number of
/// submits returns `Ok` — whatever the submitted items are, since the result of
/// a submit is drawn from the script alone.
pub proof fn lemma_discard_always_ok<SSI, E>(s: SSI, n: nat) where
    SSI: Script<Elem = Result<(), E>>,

    requires
        always_ok(s),
    ensures
        sends_all_ok(s, n),
    decreases n,
{
    if n > 0 {
        lemma_discard_always_ok::<SSI, E>(s.spec_rest(), (n - 1) as nat);
    }
}

impl<FI, SSI, Item, E> SinkFeedback<FI, SSI, Item> where
    FI: Script<Elem = SinkPoll<E>>,
    SSI: Script<Elem = Result<(), E>>,
 {
    /// State change and answer of one read of the outcome script: the script
    /// advances, the submit authorization is cleared, and the scripted value is
    /// the answer.
    pub open spec fn spec_step(m: Self) -> (Self, SinkPoll<E>) {
        let m1 = SinkFeedback {
            poll_fallback: m.poll_fallback.spec_rest(),
            start_send_fallback: m.start_send_fallback,
            is_closed: m.is_closed,
            can_start_send: false,
            item_type: m.item_type,
        };
        match m.poll_fallback.spec_next() {
            None => (m1, SinkPoll::Pending),
            Some(v) => (m1, v),
        }
    }

    /// State change and result of one readiness check: the scripted outcome,
    /// which authorizes one submit exactly when it is `Ready`.
    pub open spec fn spec_ready(m: Self) -> (Self, SinkPoll<E>) {
        let (m1, r) = Self::spec_step(m);
        if r is Ready {
            (SinkFeedback { can_start_send: true, ..m1 }, r)
        } else {
            (m1, r)
        }
    }

    /// State change and result of one submit: the item is dropped and the
    /// scripted result is the answer. Either way the authorization from the
    /// last readiness check is spent.
    pub open spec fn spec_send(m: Self) -> (Self, Result<(), E>) {
        let m1 = SinkFeedback {
            start_send_fallback: m.start_send_fallback.spec_rest(),
            can_start_send: false,
            ..m
        };
        match m.start_send_fallback.spec_next() {
            None => (m1, Ok(())),
            Some(v) => (m1, v),
        }
    }

    /// State change and result of one flush: the scripted outcome; it never
    /// authorizes a submit.
    pub open spec fn spec_flush(m: Self) -> (Self, SinkPoll<E>) {
        Self::spec_step(m)
    }

    /// State change and result of one close: the scripted outcome; only a
    /// `Ready` answer marks the sink closed, any other outcome leaves close
    /// retriable.
    pub open spec fn spec_close(m: Self) -> (Self, SinkPoll<E>) {
        let (m1, r) = Self::spec_step(m);
        if r is Ready {
            (SinkFeedback { is_closed: true, ..m1 }, r)
        } else {
            (m1, r)
        }
    }

    /// Law: a submit is authorized only by a readiness check — `start_send`'s
    /// precondition demands `can_start_send`, and no operation grants it except
    /// a readiness check that answers `Ready`: a submit spends it, and a flush
    /// or close clears it. A second submit without an intervening successful
    /// readiness check therefore violates the precondition and is a caller
    /// contract violation.
    pub proof fn lemma_submit_needs_fresh_authorization(m: Self)
        ensures
            !Self::spec_send(m).0.can_start_send,
            Self::spec_ready(m).0.can_start_send == (Self::spec_ready(m).1 is Ready),
            !Self::spec_flush(m).0.can_start_send,
            !Self::spec_close(m).0.can_start_send,
    {
    }

    /// Law: the closed state is terminal and is entered exactly by a close that
    /// answers `Ready`; no other operation changes it. Every operation's
    /// precondition excludes a closed sink, so any operation invoked after a
    /// successful close is a caller contract violation.
    pub proof fn lemma_close_is_terminal(m: Self)
        ensures
            Self::spec_close(m).1 is Ready ==> Self::spec_close(m).0.is_closed,
            !(Self::spec_close(m).1 is Ready) ==> Self::spec_close(m).0.is_closed == m.is_closed,
            Self::spec_ready(m).0.is_closed == m.is_closed,
            Self::spec_send(m).0.is_closed == m.is_closed,
            Self::spec_flush(m).0.is_closed == m.is_closed,
    {
    }

    /// Read one outcome from the script: clear the submit authorization, and on
    /// a scripted "not yet" request a re-invocation.
    fn step(&mut self, cx: &mut WakeHandle) -> (r: SinkPoll<E>)
        requires
            old(self).poll_fallback.spec_next() is Some,
            old(cx).wakes < usize::MAX,
        ensures
            (*final(self), r) == Self::spec_step(*old(self)),
            final(cx).wakes == old(cx).wakes + (if r is Pending {
                1int
            } else {
                0int
            }),
    {
        self.can_start_send = false;
        let step = self.poll_fallback.next();
        match step {
            Some(SinkPoll::Ready) => SinkPoll::Ready,
            Some(SinkPoll::Pending) => {
                cx.request_wake();
                SinkPoll::Pending
            },
            Some(SinkPoll::Failed(e)) => SinkPoll::Failed(e),
            None => unreached(),
        }
    }

    /// Ask whether the sink accepts one item: the answer is the next value of
    /// the outcome script, and authorizes one submit exactly when it is
    /// `Ready`; a scripted "not yet" requests a re-invocation first.
    pub fn poll_ready(&mut self, cx: &mut WakeHandle) -> (r: SinkPoll<E>)
        requires
            !old(self).is_closed,
            old(self).poll_fallback.spec_next() is Some,
            old(cx).wakes < usize::MAX,
        ensures
            (*final(self), r) == Self::spec_ready(*old(self)),
            final(cx).wakes == old(cx).wakes + (if r is Pending {
                1int
            } else {
                0int
            }),
    {
        let r = self.step(cx);
        match r {
            SinkPoll::Ready => {
                self.can_start_send = true;
                SinkPoll::Ready
            },
            SinkPoll::Pending => SinkPoll::Pending,
            SinkPoll::Failed(e) => SinkPoll::Failed(e),
        }
    }

    /// Submit one item: it is discarded, and the result is the next value of
    /// the error-injection script — the item's value plays no part. Requires
    /// the authorization of a readiness check that answered `Ready`, and spends
    /// it.
    pub fn start_send(&mut self, _item: Item) -> (r: Result<(), E>)
        requires
            !old(self).is_closed,
            old(self).can_start_send,
            old(self).start_send_fallback.spec_next() is Some,
        ensures
            (*final(self), r) == Self::spec_send(*old(self)),
    {
        self.can_start_send = false;
        let step = self.start_send_fallback.next();
        match step {
            Some(v) => v,
            None => unreached(),
        }
    }

    /// Flush: the answer is the next value of the outcome script; a scripted
    /// "not yet" requests a re-invocation first.
    pub fn poll_flush(&mut self, cx: &mut WakeHandle) -> (r: SinkPoll<E>)
        requires
            !old(self).is_closed,
            old(self).poll_fallback.spec_next() is Some,
            old(cx).wakes < usize::MAX,
        ensures
            (*final(self), r) == Self::spec_flush(*old(self)),
            final(cx).wakes == old(cx).wakes + (if r is Pending {
                1int
            } else {
                0int
            }),
    {
        self.step(cx)
    }

    /// Close: the answer is the next value of the outcome script; only a
    /// `Ready` answer marks the sink closed, any other outcome leaves close
    /// retriable. A scripted "not yet" requests a re-invocation first.
    pub fn poll_close(&mut self, cx: &mut WakeHandle) -> (r: SinkPoll<E>)
        requires
            !old(self).is_closed,
            old(self).poll_fallback.spec_next() is Some,
            old(cx).wakes < usize::MAX,
        ensures
            (*final(self), r) == Self::spec_close(*old(self)),
            final(cx).wakes == old(cx).wakes + (if r is Pending {
                1int
            } else {
                0int
            }),
    {
        let r = self.step(cx);
        match r {
            SinkPoll::Ready => {
                self.is_closed = true;
                SinkPoll::Ready
            },
            SinkPoll::Pending => SinkPoll::Pending,
            SinkPoll::Failed(e) => SinkPoll::Failed(e),
        }
    }
}

/// Build a discard-and-score sink from two scripts: one for the outcome of each
/// readiness, flush or close call, one for the result of each submit. The sink
/// starts open, with no submit authorized yet.
pub fn from_iter<Item, FI, SSI, E>(poll_fallback: FI, start_send_fallback: SSI) -> (r: SinkFeedback<
    FI,
    SSI,
    Item,
>) where FI: Script<Elem = SinkPoll<E>>, SSI: Script<Elem = Result<(), E>>
    ensures
        r.poll_fallback == poll_fallback,
        r.start_send_fallback == start_send_fallback,
        !r.is_closed,
        !r.can_start_send,
{
    SinkFeedback {
        poll_fallback,
        start_send_fallback,
        is_closed: false,
        can_start_send: false,
        item_type: PhantomData,
    }
}

/// A sink that always answers ready and accepts every item.
pub fn ok<Item, E: Copy>() -> (r: SinkFeedback<
    CycleScript<SinkPoll<E>>,
    CycleScript<Result<(), E>>,
    Item,
>)
    ensures
        r.poll_fallback.spec_next() == Some(SinkPoll::<E>::Ready),
        r.poll_fallback.spec_rest() == r.poll_fallback,
        always_ok(r.start_send_fallback),
        !r.is_closed,
        !r.can_start_send,
{
    from_iter(repeat_one(SinkPoll::Ready), repeat_one(Ok(())))
}

/// A sink that alternates between ready and not-ready on every poll-style call,
/// starting with ready, and accepts every item.
pub fn interleave_pending<Item, E: Copy>() -> (r: SinkFeedback<
    CycleScript<SinkPoll<E>>,
    CycleScript<Result<(), E>>,
    Item,
>)
    ensures
        r.poll_fallback.items@ =~= seq![SinkPoll::<E>::Ready, SinkPoll::<E>::Pending],
        r.poll_fallback.pos == 0,
        always_ok(r.start_send_fallback),
        !r.is_closed,
        !r.can_start_send,
{
    let mut outcomes: Vec<SinkPoll<E>> = Vec::new();
    outcomes.push(SinkPoll::Ready);
    outcomes.push(SinkPoll::Pending);
    from_iter(CycleScript::new(outcomes), repeat_one(Ok(())))
}

} // verus!
