use futures_test_sink::from_iter;
use futures_test_sink::interleave_pending;
use futures_test_sink::ok;
use futures_test_sink::script::CycleScript;
use futures_test_sink::script::VecScript;
use futures_test_sink::SinkPoll;
use futures_test_sink::WakeHandle;

#[test]
fn test_ok() {
    let mut cx = WakeHandle::new();
    let mut d = ok::<i32, u32>();
    let r1 = d.poll_ready(&mut cx);
    let s1 = d.start_send(1);
    assert_eq!(r1, SinkPoll::Ready);
    assert_eq!(s1, Ok(()));
    assert_eq!(0, cx.wakes);
}

#[test]
fn test_interleave_pending() {
    let mut cx = WakeHandle::new();
    let mut s = interleave_pending::<i32, u32>();
    let r1 = s.poll_ready(&mut cx);
    assert_eq!(r1, SinkPoll::Ready);
    let r_s = s.start_send(5);
    assert_eq!(r_s, Ok(()));
    for v in 6..140 {
        // each submit needs a fresh successful readiness check; the outcome
        // script alternates, so every other check reports Pending first and
        // requests one re-invocation
        loop {
            match s.poll_ready(&mut cx) {
                SinkPoll::Ready => break,
                SinkPoll::Pending => continue,
                SinkPoll::Failed(_) => unreachable!(),
            }
        }
        let r_s = s.start_send(v);
        assert_eq!(r_s, Ok(()));
    }
    assert_eq!(134, cx.wakes);

    let r2 = s.poll_ready(&mut cx);
    assert_eq!(r2, SinkPoll::Pending);
    assert_eq!(135, cx.wakes);

    let r3 = s.poll_ready(&mut cx);
    assert_eq!(r3, SinkPoll::Ready);
    assert_eq!(135, cx.wakes);
}

#[test]
fn test_from_iter() {
    let mut cx = WakeHandle::new();
    let poll_fallback = VecScript::new(vec![
        SinkPoll::Ready,
        SinkPoll::Ready,
        SinkPoll::Pending,
        SinkPoll::Failed(12),
    ]);
    let start_send_fallback = CycleScript::new(vec![Ok::<_, u32>(())]);
    let mut s = from_iter::<i32, _, _, _>(poll_fallback, start_send_fallback);

    let r1 = s.poll_ready(&mut cx);
    assert_eq!(r1, SinkPoll::Ready);
    let s1 = s.start_send(1);
    assert_eq!(s1, Ok(()));

    let r2 = s.poll_ready(&mut cx);
    assert_eq!(r2, SinkPoll::Ready);
    // start_send keeps answering because start_send_fallback cycles
    let s2 = s.start_send(2);
    assert_eq!(s2, Ok(()));

    // no re-invocation was requested yet
    assert_eq!(0, cx.wakes);

    let r3 = s.poll_ready(&mut cx);
    assert_eq!(r3, SinkPoll::Pending);
    assert_eq!(1, cx.wakes);

    let r4 = s.poll_ready(&mut cx);
    assert_eq!(r4, SinkPoll::Failed(12));
    assert_eq!(1, cx.wakes);
}

#[test]
fn discard_accepts_any_items() {
    let mut cx = WakeHandle::new();
    let mut s = ok::<u64, u32>();
    for v in 0..40u64 {
        let r = s.poll_ready(&mut cx);
        assert_eq!(r, SinkPoll::Ready);
        let sent = s.start_send(v.wrapping_mul(0x9e3779b9));
        assert_eq!(sent, Ok(()));
    }
    assert_eq!(0, cx.wakes);
}

#[test]
fn discard_flush_and_close_follow_script() {
    let mut cx = WakeHandle::new();
    let poll_fallback =
        VecScript::new(vec![SinkPoll::Pending, SinkPoll::Failed(9), SinkPoll::Ready]);
    let start_send_fallback = CycleScript::new(vec![Ok::<_, u32>(())]);
    let mut s = from_iter::<i32, _, _, _>(poll_fallback, start_send_fallback);
    assert_eq!(SinkPoll::Pending, s.poll_flush(&mut cx));
    assert_eq!(1, cx.wakes);
    assert_eq!(SinkPoll::Failed(9), s.poll_flush(&mut cx));
    assert_eq!(1, cx.wakes);
    assert_eq!(SinkPoll::Ready, s.poll_close(&mut cx));
    assert_eq!(1, cx.wakes);
    assert!(s.is_closed);
}

#[test]
fn discard_close_success_is_terminal() {
    let mut cx = WakeHandle::new();
    let poll_fallback = VecScript::new(vec![SinkPoll::Failed(2u32), SinkPoll::Ready]);
    let start_send_fallback = CycleScript::new(vec![Ok::<_, u32>(())]);
    let mut s = from_iter::<i32, _, _, _>(poll_fallback, start_send_fallback);
    // a close that fails leaves the sink open for retry
    assert_eq!(SinkPoll::Failed(2), s.poll_close(&mut cx));
    assert!(!s.is_closed);
    // a close that succeeds is terminal
    assert_eq!(SinkPoll::Ready, s.poll_close(&mut cx));
    assert!(s.is_closed);
}

#[test]
fn discard_submit_authorization_is_spent() {
    let mut cx = WakeHandle::new();
    let mut s = ok::<i32, u32>();
    assert!(!s.can_start_send);
    assert_eq!(SinkPoll::Ready, s.poll_ready(&mut cx));
    assert!(s.can_start_send);
    assert_eq!(Ok(()), s.start_send(1));
    assert!(!s.can_start_send);
    // a flush never authorizes a submit
    assert_eq!(SinkPoll::Ready, s.poll_flush(&mut cx));
    assert!(!s.can_start_send);
}
