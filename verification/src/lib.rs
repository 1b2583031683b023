//! Mock sinks for exercising code that writes to a push-based, backpressure-aware
//! endpoint under a ready/submit/flush/close protocol.
//!
//! The mocks are driven by scripted sequences of outcomes: the test author decides
//! ahead of time which answer (accept, reject with an error, not yet ready) the
//! endpoint produces at each step. Every operation either completes at once or
//! reports `Pending` after requesting its own re-invocation through a
//! caller-supplied [`WakeHandle`].

pub mod fuse_last;
pub mod script;

mod feedback;
mod mock_sink;
mod outcome;

pub use feedback::from_iter;
pub use feedback::interleave_pending;
pub use feedback::ok;
pub use feedback::SinkFeedback;
pub use mock_sink::SinkMock;
pub use outcome::reverse;
pub use outcome::SinkPoll;
pub use outcome::WakeHandle;
