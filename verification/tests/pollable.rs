use sb_harness::pollable::{Pollable, PollableResult};
use std::future::Future;
use std::pin::Pin;
use std::task::{Context, Poll};

/// Completes with `value` on the poll after `pending` pending ones, and counts its polls.
struct Countdown {
    pending: u32,
    value: u32,
    polls: std::rc::Rc<std::cell::Cell<u32>>,
}

impl Future for Countdown {
    type Output = u32;

    fn poll(mut self: Pin<&mut Self>, _cx: &mut Context<'_>) -> Poll<u32> {
        self.polls.set(self.polls.get() + 1);
        if self.pending == 0 {
            Poll::Ready(self.value)
        } else {
            self.pending -= 1;
            Poll::Pending
        }
    }
}

#[test]
fn ready_future_completes_on_first_poll() {
    let mut pollable = Pollable::new(std::future::ready(7u32));
    assert!(matches!(pollable.poll(), PollableResult::Ready(7)));
    assert!(matches!(pollable.poll(), PollableResult::Stale));
    assert!(matches!(pollable.poll(), PollableResult::Stale));
}

#[test]
fn nothing_runs_before_the_first_poll() {
    let polls = std::rc::Rc::new(std::cell::Cell::new(0));
    let pollable = Pollable::new(Countdown { pending: 0, value: 1, polls: polls.clone() });
    assert_eq!(polls.get(), 0);
    drop(pollable);
    assert_eq!(polls.get(), 0);
}

#[test]
fn pending_until_the_computation_completes() {
    let polls = std::rc::Rc::new(std::cell::Cell::new(0));
    let mut pollable = Pollable::new(Countdown { pending: 3, value: 42, polls: polls.clone() });
    assert!(matches!(pollable.poll(), PollableResult::Pending));
    assert!(matches!(pollable.poll(), PollableResult::Pending));
    assert!(matches!(pollable.poll(), PollableResult::Pending));
    assert_eq!(polls.get(), 3);
    assert!(matches!(pollable.poll(), PollableResult::Ready(42)));
    assert_eq!(polls.get(), 4);
}

#[test]
fn stale_poll_never_touches_the_computation_again() {
    let polls = std::rc::Rc::new(std::cell::Cell::new(0));
    let mut pollable = Pollable::new(Countdown { pending: 1, value: 9, polls: polls.clone() });
    assert!(matches!(pollable.poll(), PollableResult::Pending));
    assert!(matches!(pollable.poll(), PollableResult::Ready(9)));
    assert_eq!(polls.get(), 2);
    for _ in 0..5 {
        assert!(matches!(pollable.poll(), PollableResult::Stale));
    }
    assert_eq!(polls.get(), 2);
}

#[test]
fn async_block_with_a_suspension_point() {
    let mut pollable = Pollable::new(async {
        let polls = std::rc::Rc::new(std::cell::Cell::new(0));
        let first = Countdown { pending: 2, value: 10, polls: polls.clone() }.await;
        first + polls.get()
    });
    assert!(matches!(pollable.poll(), PollableResult::Pending));
    assert!(matches!(pollable.poll(), PollableResult::Pending));
    assert!(matches!(pollable.poll(), PollableResult::Ready(13)));
    assert!(matches!(pollable.poll(), PollableResult::Stale));
}

#[test]
fn a_boxed_computation_is_pinned_and_polled() {
    let boxed: Box<dyn Future<Output = u32>> = Box::new(async { 3 });
    let mut pollable = Pollable::new(Box::into_pin(boxed));
    assert!(matches!(pollable.poll(), PollableResult::Ready(3)));
    assert!(matches!(pollable.poll(), PollableResult::Stale));
}
