//! The bounded-buffer mock sink: a correct sink implementation whose outward
//! behaviour is driven by scripted sequences.
//!
//! The mock buffers submitted items up to a capacity, drains them in batches
//! when its flush-outcome script says so, and independently scripts error
//! injection for the readiness and submit steps. Misuse of the protocol —
//! submitting without a prior successful readiness check, using the sink after a
//! successful close, or reading a script past its end — is a contract violation
//! and is ruled out by the operations' preconditions.

use vstd::pervasive::unreached;
use vstd::prelude::*;

use core::marker::PhantomData;

use crate::outcome::SinkPoll;
use crate::outcome::WakeHandle;
use crate::script::inert;
use crate::script::EmptyScript;
use crate::script::Script;

verus! {

/// Capacity used by [`SinkMock::with_flush_feedback`].
pub const DEFAULT_MAX_ITEM: usize = 3;

/// Drain batch size used by [`SinkMock::with_flush_feedback`].
pub const DEFAULT_FLUSH_AT_ONCE: usize = 2;

/// A mock sink with an internal bounded buffer.
///
/// Items accepted by [`SinkMock::start_send`] are counted, never stored: the
/// mock only cares how many are buffered. [`SinkMock::poll_flush`] consumes the
/// flush-outcome script until the buffer is drained or the script reports a
/// failure or "not yet". The two fallback scripts inject scripted errors into
/// the readiness and submit steps.
pub struct SinkMock<FlushI, ReadyI, SendI, Item> {
    /// Scripted outcome of each drain attempt: `Ready` is a successful drain
    /// event, `Failed` a drain failure, `Pending` means "not yet".
    pub flush_feedback: FlushI,
    /// Scripted errors for the readiness step; exhausted means "no override".
    pub ready_fallback: ReadyI,
    /// Scripted errors for the submit step; exhausted means "no override".
    pub send_fallback: SendI,
    /// How many items the sink buffers before a flush is forced.
    pub max_item: usize,
    /// How many items are currently buffered.
    pub item_cnt: usize,
    /// How many buffered items one successful drain event removes.
    pub flush_at_once: usize,
    /// Whether a close has succeeded; terminal once true.
    pub is_closed: bool,
    /// Whether the last readiness check authorized exactly one submit.
    pub can_start_send: bool,
    /// Marks the item type the sink accepts.
    pub item_type: PhantomData<Item>,
}

impl<FlushI, ReadyI, SendI, Item> SinkMock<FlushI, ReadyI, SendI, Item> {
    /// Sizing parameters are validated positive: a drain event removes at least
    /// one item and at least one item can be buffered.
    pub open spec fn wf(&self) -> bool {
        self.flush_at_once >= 1 && self.max_item >= 1
    }

    /// Change how many buffered items one successful drain event removes.
    pub fn set_flush_at_once(&mut self, flush_at_once: usize) -> (r: &mut Self)
        requires
            flush_at_once >= 1,
        ensures
            *r == (SinkMock { flush_at_once, ..*old(self) }),
            *final(self) == *final(r),
    {
        self.flush_at_once = flush_at_once;
        self
    }

    /// Change how many items the sink buffers before a flush is forced.
    pub fn set_max_item(&mut self, max_item: usize) -> (r: &mut Self)
        requires
            max_item >= 1,
        ensures
            *r == (SinkMock { max_item, ..*old(self) }),
            *final(self) == *final(r),
    {
        self.max_item = max_item;
        self
    }
}

impl<FlushI, E, ReadyI, SendI, Item> SinkMock<FlushI, ReadyI, SendI, Item> where
    FlushI: Script<Elem = SinkPoll<E>>,
    ReadyI: Script<Elem = E>,
    SendI: Script<Elem = E>,
 {
    /// The given state with the consumable parts replaced; capacity, batch size
    /// and item type are kept.
    pub open spec fn updated(
        m: Self,
        flush_feedback: FlushI,
        ready_fallback: ReadyI,
        send_fallback: SendI,
        item_cnt: nat,
        is_closed: bool,
        can_start_send: bool,
    ) -> Self {
        SinkMock {
            flush_feedback,
            ready_fallback,
            send_fallback,
            max_item: m.max_item,
            item_cnt: item_cnt as usize,
            flush_at_once: m.flush_at_once,
            is_closed,
            can_start_send,
            item_type: m.item_type,
        }
    }

    /// How a flush run transforms the flush script and the buffered count, and
    /// what it returns: drain events remove `batch` items each (saturating at
    /// zero) until the buffer is empty; a scripted failure or "not yet" stops
    /// the run at once. Reading an exhausted script is a contract violation and
    /// left unspecified here; [`SinkMock::flush_enough`] rules it out.
    pub open spec fn flush_from(script: FlushI, cnt: nat, batch: nat) -> (FlushI, nat, SinkPoll<
        E,
    >)
        decreases cnt,
        when batch >= 1
    {
        match script.spec_next() {
            None => (script, cnt, SinkPoll::Pending),
            Some(step) => match step {
                SinkPoll::Ready => {
                    let left = if cnt >= batch {
                        (cnt - batch) as nat
                    } else {
                        0
                    };
                    if left == 0 {
                        (script.spec_rest(), 0, SinkPoll::Ready)
                    } else {
                        Self::flush_from(script.spec_rest(), left, batch)
                    }
                },
                SinkPoll::Pending => (script.spec_rest(), cnt, SinkPoll::Pending),
                SinkPoll::Failed(e) => (script.spec_rest(), cnt, SinkPoll::Failed(e)),
            },
        }
    }

    /// The flush script holds enough values to drive a flush run to an answer:
    /// it is never read past its end.
    pub open spec fn flush_enough(script: FlushI, cnt: nat, batch: nat) -> bool
        decreases cnt,
        when batch >= 1
    {
        match script.spec_next() {
            None => false,
            Some(step) => match step {
                SinkPoll::Ready => {
                    let left = if cnt >= batch {
                        (cnt - batch) as nat
                    } else {
                        0
                    };
                    left == 0 || Self::flush_enough(script.spec_rest(), left, batch)
                },
                _ => true,
            },
        }
    }

    /// Precondition of a flush: the flush script is not read past its end.
    pub open spec fn flush_ok(m: Self) -> bool {
        Self::flush_enough(m.flush_feedback, m.item_cnt as nat, m.flush_at_once as nat)
    }

    /// Precondition of a readiness check: where the check falls through to a
    /// flush — no scripted readiness error, buffer full — the flush script is
    /// not read past its end.
    pub open spec fn ready_ok(m: Self) -> bool {
        m.ready_fallback.spec_next() is None && m.item_cnt >= m.max_item ==> Self::flush_ok(m)
    }

    /// State change and result of one flush call.
    pub open spec fn spec_flush(m: Self) -> (Self, SinkPoll<E>) {
        let (script, cnt, res) = Self::flush_from(
            m.flush_feedback,
            m.item_cnt as nat,
            m.flush_at_once as nat,
        );
        (
            Self::updated(m, script, m.ready_fallback, m.send_fallback, cnt, m.is_closed, false),
            res,
        )
    }

    /// State change and result of one readiness check: a scripted error wins;
    /// else free buffer space authorizes a submit; else a flush is attempted and
    /// only its success authorizes a submit.
    pub open spec fn spec_ready(m: Self) -> (Self, SinkPoll<E>) {
        match m.ready_fallback.spec_next() {
            Some(e) => (
                Self::updated(
                    m,
                    m.flush_feedback,
                    m.ready_fallback.spec_rest(),
                    m.send_fallback,
                    m.item_cnt as nat,
                    m.is_closed,
                    false,
                ),
                SinkPoll::Failed(e),
            ),
            None => {
                let m1 = Self::updated(
                    m,
                    m.flush_feedback,
                    m.ready_fallback.spec_rest(),
                    m.send_fallback,
                    m.item_cnt as nat,
                    m.is_closed,
                    false,
                );
                if m.item_cnt < m.max_item {
                    (
                        Self::updated(
                            m1,
                            m1.flush_feedback,
                            m1.ready_fallback,
                            m1.send_fallback,
                            m1.item_cnt as nat,
                            m1.is_closed,
                            true,
                        ),
                        SinkPoll::Ready,
                    )
                } else {
                    let (m2, res) = Self::spec_flush(m1);
                    if res is Ready {
                        (
                            Self::updated(
                                m2,
                                m2.flush_feedback,
                                m2.ready_fallback,
                                m2.send_fallback,
                                m2.item_cnt as nat,
                                m2.is_closed,
                                true,
                            ),
                            SinkPoll::Ready,
                        )
                    } else {
                        (m2, res)
                    }
                }
            },
        }
    }

    /// State change and result of one submit: a scripted error drops the item
    /// and reports it; otherwise the item is counted. Either way the
    /// authorization from the last readiness check is spent.
    pub open spec fn spec_send(m: Self) -> (Self, Result<(), E>) {
        match m.send_fallback.spec_next() {
            Some(e) => (
                Self::updated(
                    m,
                    m.flush_feedback,
                    m.ready_fallback,
                    m.send_fallback.spec_rest(),
                    m.item_cnt as nat,
                    m.is_closed,
                    false,
                ),
                Err(e),
            ),
            None => (
                Self::updated(
                    m,
                    m.flush_feedback,
                    m.ready_fallback,
                    m.send_fallback.spec_rest(),
                    (m.item_cnt + 1) as nat,
                    m.is_closed,
                    false,
                ),
                Ok(()),
            ),
        }
    }

    /// State change and result of one close call: a flush to completion; only
    /// its success makes the sink closed, any other outcome leaves close
    /// retriable.
    pub open spec fn spec_close(m: Self) -> (Self, SinkPoll<E>) {
        let (m2, res) = Self::spec_flush(m);
        if res is Ready {
            (
                Self::updated(
                    m2,
                    m2.flush_feedback,
                    m2.ready_fallback,
                    m2.send_fallback,
                    m2.item_cnt as nat,
                    true,
                    false,
                ),
                SinkPoll::Ready,
            )
        } else {
            (m2, res)
        }
    }

    /// Create a new mock sink.
    ///
    /// All counters start at zero, the sink is open, and no submit is
    /// authorized yet. Both sizing parameters are validated positive.
    pub fn new(
        flush_feedback: FlushI,
        ready_fallback: ReadyI,
        send_fallback: SendI,
        max_item: usize,
        flush_at_once: usize,
    ) -> (r: Self)
        requires
            max_item >= 1,
            flush_at_once >= 1,
        ensures
            r == (SinkMock {
                flush_feedback,
                ready_fallback,
                send_fallback,
                max_item,
                item_cnt: 0usize,
                flush_at_once,
                is_closed: false,
                can_start_send: false,
                item_type: PhantomData::<Item>,
            }),
            r.wf(),
    {
        SinkMock {
            flush_feedback,
            ready_fallback,
            send_fallback,
            max_item,
            item_cnt: 0,
            flush_at_once,
            is_closed: false,
            can_start_send: false,
            item_type: PhantomData,
        }
    }

    /// Ask whether the sink accepts one item.
    ///
    /// A scripted readiness error is reported first and consumes nothing else.
    /// Otherwise free buffer space authorizes one submit; a full buffer
    /// delegates to the flush logic, and only a completed flush authorizes the
    /// submit — any other flush outcome is passed through unchanged.
    pub fn poll_ready(&mut self, cx: &mut WakeHandle) -> (r: SinkPoll<E>)
        requires
            old(self).wf(),
            !old(self).is_closed,
            Self::ready_ok(*old(self)),
            old(cx).wakes < usize::MAX,
        ensures
            (*final(self), r) == Self::spec_ready(*old(self)),
            final(cx).wakes == old(cx).wakes + (if r is Pending {
                1int
            } else {
                0int
            }),
    {
        self.can_start_send = false;
        let injected = self.ready_fallback.next();
        match injected {
            Some(e) => SinkPoll::Failed(e),
            None => {
                if self.max_item > self.item_cnt {
                    self.can_start_send = true;
                    SinkPoll::Ready
                } else {
                    let r = self.poll_flush(cx);
                    match r {
                        SinkPoll::Ready => {
                            self.can_start_send = true;
                            SinkPoll::Ready
                        },
                        SinkPoll::Pending => SinkPoll::Pending,
                        SinkPoll::Failed(e) => SinkPoll::Failed(e),
                    }
                }
            },
        }
    }

    /// Submit one item. The item's value is never inspected or stored: the mock
    /// only counts it. Requires the authorization of a readiness check that
    /// answered `Ready`, and spends it.
    pub fn start_send(&mut self, _item: Item) -> (r: Result<(), E>)
        requires
            !old(self).is_closed,
            old(self).can_start_send,
            old(self).item_cnt < usize::MAX,
        ensures
            (*final(self), r) == Self::spec_send(*old(self)),
    {
        self.can_start_send = false;
        let injected = self.send_fallback.next();
        match injected {
            Some(e) => Err(e),
            None => {
                self.item_cnt = self.item_cnt + 1;
                Ok(())
            },
        }
    }

    /// Drain buffered items as the flush-outcome script directs.
    ///
    /// Drain events remove `flush_at_once` items each (saturating at zero)
    /// until the buffer is empty; a scripted failure is reported at once; a
    /// scripted "not yet" requests a re-invocation and reports `Pending`.
    #[verifier::loop_isolation(false)]
    pub fn poll_flush(&mut self, cx: &mut WakeHandle) -> (r: SinkPoll<E>)
        requires
            old(self).wf(),
            !old(self).is_closed,
            Self::flush_ok(*old(self)),
            old(cx).wakes < usize::MAX,
        ensures
            (*final(self), r) == Self::spec_flush(*old(self)),
            final(cx).wakes == old(cx).wakes + (if r is Pending {
                1int
            } else {
                0int
            }),
    {
        self.can_start_send = false;
        loop
            invariant
                self.ready_fallback == old(self).ready_fallback,
                self.send_fallback == old(self).send_fallback,
                self.max_item == old(self).max_item,
                self.flush_at_once == old(self).flush_at_once,
                self.is_closed == old(self).is_closed,
                !self.can_start_send,
                self.item_type == old(self).item_type,
                cx.wakes == old(cx).wakes,
                Self::flush_enough(
                    self.flush_feedback,
                    self.item_cnt as nat,
                    self.flush_at_once as nat,
                ),
                Self::flush_from(
                    self.flush_feedback,
                    self.item_cnt as nat,
                    self.flush_at_once as nat,
                ) == Self::flush_from(
                    old(self).flush_feedback,
                    old(self).item_cnt as nat,
                    old(self).flush_at_once as nat,
                ),
            decreases self.item_cnt,
        {
            let ghost pre = *self;
            let step = self.flush_feedback.next();
            match step {
                Some(SinkPoll::Ready) => {
                    if self.item_cnt >= self.flush_at_once {
                        self.item_cnt = self.item_cnt - self.flush_at_once;
                    } else {
                        self.item_cnt = 0;
                    }
                    if self.item_cnt == 0 {
                        return SinkPoll::Ready;
                    }
                },
                Some(SinkPoll::Pending) => {
                    cx.request_wake();
                    return SinkPoll::Pending;
                },
                Some(SinkPoll::Failed(e)) => {
                    return SinkPoll::Failed(e);
                },
                None => {
                    return unreached();
                },
            }
        }
    }

    /// Law: a submit is authorized only by a readiness check — `start_send`'s
    /// precondition demands `can_start_send`, and no operation grants it except
    /// a readiness check that answers `Ready`: a submit spends it, and a flush
    /// or close clears it. A second submit without an intervening successful
    /// readiness check therefore violates the precondition and is a caller
    /// contract violation.
    pub proof fn lemma_submit_needs_fresh_authorization(m: Self)
        ensures
            !Self::spec_send(m).0.can_start_send,
            Self::spec_ready(m).0.can_start_send == (Self::spec_ready(m).1 is Ready),
            !Self::spec_flush(m).0.can_start_send,
            !Self::spec_close(m).0.can_start_send,
    {
    }

    /// Law: the closed state is terminal and is entered exactly by a close that
    /// answers `Ready`; no other operation changes it. Every operation's
    /// precondition excludes a closed sink, so any operation invoked after a
    /// successful close is a caller contract violation.
    pub proof fn lemma_close_is_terminal(m: Self)
        ensures
            Self::spec_close(m).1 is Ready ==> Self::spec_close(m).0.is_closed,
            !(Self::spec_close(m).1 is Ready) ==> Self::spec_close(m).0.is_closed == m.is_closed,
            Self::spec_ready(m).0.is_closed == m.is_closed,
            Self::spec_send(m).0.is_closed == m.is_closed,
            Self::spec_flush(m).0.is_closed == m.is_closed,
    {
    }

    /// The state after one readiness check followed by one submit.
    pub open spec fn submit_round(m: Self) -> Self {
        Self::spec_send(Self::spec_ready(m).0).0
    }

    /// The state after `n` rounds of one readiness check followed by one
    /// submit.
    pub open spec fn submit_rounds(m: Self, n: nat) -> Self
        decreases n,
    {
        if n == 0 {
            m
        } else {
            Self::submit_rounds(Self::submit_round(m), (n - 1) as nat)
        }
    }

    /// In each of `n` rounds of one readiness check followed by one submit, the
    /// readiness check answers `Ready` — never `Pending`, never an error — and
    /// the submit is accepted.
    pub open spec fn submits_all_accepted(m: Self, n: nat) -> bool
        decreases n,
    {
        n == 0 || {
            let m1 = Self::spec_ready(m).0;
            &&& Self::spec_ready(m).1 == SinkPoll::<E>::Ready
            &&& Self::spec_send(m1).1 == Ok::<(), E>(())
            &&& Self::submits_all_accepted(Self::spec_send(m1).0, (n - 1) as nat)
        }
    }

    /// Law: on an open sink whose readiness and submit error scripts are
    /// exhausted, any `n` submits that stay below capacity are all accepted:
    /// every readiness check answers `Ready` (so nothing is `Pending` and the
    /// flush script is never touched) and the buffered count grows by exactly
    /// one per submit, ending at `n` above where it started.
    pub proof fn lemma_fill_below_capacity(m: Self, n: nat)
        requires
            !m.is_closed,
            inert(m.ready_fallback),
            inert(m.send_fallback),
            m.item_cnt + n <= m.max_item,
        ensures
            Self::submits_all_accepted(m, n),
            Self::submit_rounds(m, n).item_cnt == m.item_cnt + n,
            Self::submit_rounds(m, n).flush_feedback == m.flush_feedback,
            Self::submit_rounds(m, n).max_item == m.max_item,
            Self::submit_rounds(m, n).flush_at_once == m.flush_at_once,
            !Self::submit_rounds(m, n).is_closed,
            inert(Self::submit_rounds(m, n).ready_fallback),
            inert(Self::submit_rounds(m, n).send_fallback),
        decreases n,
    {
        if n > 0 {
            let m1 = Self::spec_ready(m).0;
            let m2 = Self::spec_send(m1).0;
            assert(m.item_cnt < m.max_item);
            assert(m2.item_cnt == m.item_cnt + 1);
            Self::lemma_fill_below_capacity(m2, (n - 1) as nat);
        }
    }

    /// Close the sink: flush to completion; only a completed flush marks the
    /// sink closed and answers `Ready`. Any other flush outcome is passed
    /// through, the sink stays open, and close may be retried.
    pub fn poll_close(&mut self, cx: &mut WakeHandle) -> (r: SinkPoll<E>)
        requires
            old(self).wf(),
            !old(self).is_closed,
            Self::flush_ok(*old(self)),
            old(cx).wakes < usize::MAX,
        ensures
            (*final(self), r) == Self::spec_close(*old(self)),
            final(cx).wakes == old(cx).wakes + (if r is Pending {
                1int
            } else {
                0int
            }),
    {
        let r = self.poll_flush(cx);
        match r {
            SinkPoll::Ready => {
                self.is_closed = true;
                SinkPoll::Ready
            },
            SinkPoll::Pending => SinkPoll::Pending,
            SinkPoll::Failed(e) => SinkPoll::Failed(e),
        }
    }
}

impl<FlushI, E, Item> SinkMock<FlushI, EmptyScript<E>, EmptyScript<E>, Item> where
    FlushI: Script<Elem = SinkPoll<E>>,
 {
    /// A mock sink that never injects an error on the readiness or submit
    /// steps, with default sizing.
    pub fn with_flush_feedback(flush_feedback: FlushI) -> (r: Self)
        ensures
            r == (SinkMock {
                flush_feedback,
                ready_fallback: EmptyScript::<E> { marker: PhantomData },
                send_fallback: EmptyScript::<E> { marker: PhantomData },
                max_item: DEFAULT_MAX_ITEM,
                item_cnt: 0usize,
                flush_at_once: DEFAULT_FLUSH_AT_ONCE,
                is_closed: false,
                can_start_send: false,
                item_type: PhantomData::<Item>,
            }),
            r.wf(),
            inert(r.ready_fallback),
            inert(r.send_fallback),
    {
        SinkMock::new(
            flush_feedback,
            EmptyScript::new(),
            EmptyScript::new(),
            DEFAULT_MAX_ITEM,
            DEFAULT_FLUSH_AT_ONCE,
        )
    }
}

} // verus!
