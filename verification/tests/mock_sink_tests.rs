use futures_test_sink::reverse;
use futures_test_sink::script::CycleScript;
use futures_test_sink::script::EmptyScript;
use futures_test_sink::script::Script;
use futures_test_sink::script::VecScript;
use futures_test_sink::fuse_last::IteratorExt;
use futures_test_sink::SinkMock;
use futures_test_sink::SinkPoll;
use futures_test_sink::WakeHandle;

/// Push every item through the sink the way a stream forwarder would: repeat a
/// readiness check until it answers, submit, and finally close, re-invoking on
/// every `Pending` as the wake request asks.
fn drive<F>(sink: &mut SinkMock<F, EmptyScript<()>, EmptyScript<()>, u8>, items: Vec<u8>) -> Result<(), ()>
where
    F: Script<Elem = SinkPoll<()>>,
{
    let mut cx = WakeHandle::new();
    for item in items {
        loop {
            match sink.poll_ready(&mut cx) {
                SinkPoll::Ready => break,
                SinkPoll::Pending => continue,
                SinkPoll::Failed(e) => return Err(e),
            }
        }
        sink.start_send(item)?;
    }
    loop {
        match sink.poll_close(&mut cx) {
            SinkPoll::Ready => return Ok(()),
            SinkPoll::Pending => continue,
            SinkPoll::Failed(e) => return Err(e),
        }
    }
}

#[test]
fn drain_test() {
    let e = CycleScript::new(vec![SinkPoll::<()>::Ready]);
    let mut sink = SinkMock::with_flush_feedback(e);
    assert_eq!(Ok(()), drive(&mut sink, vec![5u8, 7, 9, 77, 79]));
}

#[test]
fn interleave_pending() {
    let e = CycleScript::new(vec![SinkPoll::<()>::Ready, SinkPoll::Pending]);
    let mut sink = SinkMock::with_flush_feedback(e);
    assert_eq!(Ok(()), drive(&mut sink, vec![5u8, 7, 9, 77, 79]));
}

#[test]
fn error() {
    let e = CycleScript::new(vec![SinkPoll::Ready, SinkPoll::Pending, SinkPoll::Failed(())]);
    let mut sink = SinkMock::with_flush_feedback(e);
    assert_eq!(Err(()), drive(&mut sink, vec![5u8, 7, 9, 77, 79]));
}

#[test]
fn fill_below_capacity_counts_each_submit() {
    let mut cx = WakeHandle::new();
    let mut sink: SinkMock<VecScript<SinkPoll<u32>>, _, _, u64> = SinkMock::new(
        VecScript::empty(),
        EmptyScript::new(),
        EmptyScript::new(),
        10,
        1,
    );
    for n in 0..5u64 {
        assert_eq!(SinkPoll::Ready, sink.poll_ready(&mut cx));
        assert_eq!(Ok(()), sink.start_send(n * n));
        assert_eq!((n + 1) as usize, sink.item_cnt);
    }
    assert_eq!(0, cx.wakes);
}

#[test]
fn full_buffer_flushes_not_yet_then_drains() {
    let mut cx = WakeHandle::new();
    let script = VecScript::new(vec![SinkPoll::<u32>::Pending, SinkPoll::Ready]);
    let mut sink: SinkMock<_, _, _, u8> = SinkMock::with_flush_feedback(script);
    sink.set_max_item(1).set_flush_at_once(1);

    assert_eq!(SinkPoll::Ready, sink.poll_ready(&mut cx));
    assert_eq!(Ok(()), sink.start_send(42));
    assert_eq!(1, sink.item_cnt);

    // buffer full: the readiness check flushes, sees "not yet", requests a
    // re-invocation and reports Pending
    assert_eq!(SinkPoll::Pending, sink.poll_ready(&mut cx));
    assert_eq!(1, cx.wakes);

    // the re-invoked check sees the drain succeed and the buffer reach zero
    assert_eq!(SinkPoll::Ready, sink.poll_ready(&mut cx));
    assert_eq!(0, sink.item_cnt);
    assert_eq!(1, cx.wakes);
}

#[test]
fn flush_script_latches_after_last_outcome() {
    let mut cx = WakeHandle::new();
    let script =
        VecScript::new(vec![SinkPoll::Ready, SinkPoll::Failed(7u32), SinkPoll::Ready]).fuse_last();
    let mut sink: SinkMock<_, _, _, u8> = SinkMock::with_flush_feedback(script);

    assert_eq!(SinkPoll::Ready, sink.poll_flush(&mut cx));
    assert_eq!(SinkPoll::Failed(7), sink.poll_flush(&mut cx));
    assert_eq!(SinkPoll::Ready, sink.poll_flush(&mut cx));
    // past the scripted values: the latch repeats the last outcome instead of
    // exhausting the script
    assert_eq!(SinkPoll::Ready, sink.poll_flush(&mut cx));
    assert_eq!(0, cx.wakes);
}

#[test]
fn ready_error_injection() {
    let mut cx = WakeHandle::new();
    let mut sink: SinkMock<VecScript<SinkPoll<u32>>, _, _, u8> = SinkMock::new(
        VecScript::empty(),
        VecScript::new(vec![3u32]),
        EmptyScript::new(),
        3,
        2,
    );
    assert_eq!(SinkPoll::Failed(3), sink.poll_ready(&mut cx));
    assert_eq!(0, sink.item_cnt);
    // the override is consumed: the next check succeeds
    assert_eq!(SinkPoll::Ready, sink.poll_ready(&mut cx));
    assert_eq!(0, cx.wakes);
}

#[test]
fn send_error_injection_drops_item() {
    let mut cx = WakeHandle::new();
    let mut sink: SinkMock<VecScript<SinkPoll<u32>>, _, _, u8> = SinkMock::new(
        VecScript::empty(),
        EmptyScript::new(),
        VecScript::new(vec![4u32]),
        3,
        2,
    );
    assert_eq!(SinkPoll::Ready, sink.poll_ready(&mut cx));
    assert_eq!(Err(4), sink.start_send(1));
    assert_eq!(0, sink.item_cnt);
    // the override is consumed: the next submit is buffered
    assert_eq!(SinkPoll::Ready, sink.poll_ready(&mut cx));
    assert_eq!(Ok(()), sink.start_send(2));
    assert_eq!(1, sink.item_cnt);
}

#[test]
fn close_failure_leaves_sink_open_for_retry() {
    let mut cx = WakeHandle::new();
    let script = VecScript::new(vec![SinkPoll::Failed(5u32), SinkPoll::Ready]);
    let mut sink: SinkMock<_, _, _, u8> = SinkMock::with_flush_feedback(script);
    assert_eq!(SinkPoll::Failed(5), sink.poll_close(&mut cx));
    assert!(!sink.is_closed);
    assert_eq!(SinkPoll::Ready, sink.poll_close(&mut cx));
    assert!(sink.is_closed);
}

#[test]
fn drain_saturates_at_zero() {
    let mut cx = WakeHandle::new();
    let script = CycleScript::new(vec![SinkPoll::<u32>::Ready]);
    let mut sink: SinkMock<_, _, _, u8> = SinkMock::with_flush_feedback(script);
    // buffer one item, then drain in batches of two: the count saturates at
    // zero rather than going negative
    assert_eq!(SinkPoll::Ready, sink.poll_ready(&mut cx));
    assert_eq!(Ok(()), sink.start_send(1));
    assert_eq!(1, sink.item_cnt);
    assert_eq!(SinkPoll::Ready, sink.poll_flush(&mut cx));
    assert_eq!(0, sink.item_cnt);
}

#[test]
fn reverse_alternates_outcomes() {
    assert_eq!(Some(SinkPoll::Ready), reverse(&SinkPoll::<u32>::Pending));
    assert_eq!(Some(SinkPoll::Pending), reverse(&SinkPoll::<u32>::Ready));
    assert_eq!(Some(SinkPoll::Pending), reverse(&SinkPoll::Failed(3u32)));
}

#[test]
fn wake_handle_counts_requests() {
    let mut cx = WakeHandle::new();
    assert_eq!(0, cx.wakes);
    cx.request_wake();
    assert_eq!(1, cx.wakes);
    cx.request_wake();
    assert_eq!(2, cx.wakes);
}
