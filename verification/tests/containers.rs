use pollcore::Context;
use pollcore::Future;
use pollcore::FutureObj;
use pollcore::LocalFutureObj;
use pollcore::LocalWaker;
use pollcore::Poll;
use pollcore::Relocatable;
use pollcore::UnsafeFutureObj;
use std::cell::Cell;
use std::rc::Rc;

/// A relocatable future whose state is a plain counter: each poll increments
/// it, and it completes with the final count once the target is reached.
struct Counter {
    count: u64,
    target: u64,
}

impl Relocatable for Counter {}

impl<S> Future<S> for Counter {
    type Output = u64;

    fn poll(&mut self, _cx: &mut Context<'_, S>) -> Poll<u64> {
        self.count += 1;
        if self.count >= self.target {
            Poll::Ready(self.count)
        } else {
            Poll::Pending
        }
    }
}

/// A future that asserts it is never polled again after completing.
struct SingleCompletion {
    remaining: u64,
    done: bool,
}

impl Relocatable for SingleCompletion {}

impl<S> Future<S> for SingleCompletion {
    type Output = u64;

    fn poll(&mut self, _cx: &mut Context<'_, S>) -> Poll<u64> {
        if self.done {
            panic!("polled after Ready");
        }
        if self.remaining == 0 {
            self.done = true;
            Poll::Ready(7)
        } else {
            self.remaining -= 1;
            Poll::Pending
        }
    }
}

/// A dispatch-table instance that counts how often its release operation runs.
struct CountingTable {
    releases: Rc<Cell<u32>>,
    steps: u32,
}

impl<S> UnsafeFutureObj<u64, S> for CountingTable {
    type Raw = (Rc<Cell<u32>>, u32);

    fn into_raw(self) -> (Rc<Cell<u32>>, u32) {
        (self.releases, self.steps)
    }

    fn poll(raw: &mut (Rc<Cell<u32>>, u32), _cx: &mut Context<'_, S>) -> Poll<u64> {
        if raw.1 == 0 {
            Poll::Ready(11)
        } else {
            raw.1 -= 1;
            Poll::Pending
        }
    }

    fn release(raw: &mut (Rc<Cell<u32>>, u32)) {
        raw.0.set(raw.0.get() + 1);
    }
}

#[test]
fn driver_stops_at_ready_and_never_polls_again() {
    let lw = LocalWaker::new(1);
    let mut cx = Context::new(&lw, ());
    let mut obj = LocalFutureObj::<u64, (), SingleCompletion>::new(SingleCompletion {
        remaining: 4,
        done: false,
    });
    let mut polls: u32 = 0;
    let value = loop {
        polls += 1;
        match obj.poll(&mut cx) {
            Poll::Ready(v) => break v,
            Poll::Pending => {}
        }
    };
    assert_eq!(value, 7);
    assert_eq!(polls, 5);
}

#[test]
fn release_runs_once_when_dropped_without_polling() {
    let releases = Rc::new(Cell::new(0));
    let obj = LocalFutureObj::<u64, (), CountingTable>::new(CountingTable {
        releases: releases.clone(),
        steps: 3,
    });
    assert_eq!(releases.get(), 0);
    drop(obj);
    assert_eq!(releases.get(), 1);
}

#[test]
fn release_runs_once_when_polled_to_ready_then_dropped() {
    let releases = Rc::new(Cell::new(0));
    let mut obj = LocalFutureObj::<u64, (), CountingTable>::new(CountingTable {
        releases: releases.clone(),
        steps: 2,
    });
    let lw = LocalWaker::new(2);
    let mut cx = Context::new(&lw, ());
    assert!(matches!(obj.poll(&mut cx), Poll::Pending));
    assert!(matches!(obj.poll(&mut cx), Poll::Pending));
    assert!(matches!(obj.poll(&mut cx), Poll::Ready(11)));
    assert_eq!(releases.get(), 0);
    drop(obj);
    assert_eq!(releases.get(), 1);
}

#[test]
fn release_runs_once_when_cancelled_mid_way() {
    let releases = Rc::new(Cell::new(0));
    let mut obj = LocalFutureObj::<u64, (), CountingTable>::new(CountingTable {
        releases: releases.clone(),
        steps: 5,
    });
    let lw = LocalWaker::new(3);
    let mut cx = Context::new(&lw, ());
    assert!(matches!(obj.poll(&mut cx), Poll::Pending));
    drop(obj);
    assert_eq!(releases.get(), 1);
}

#[test]
fn conversion_yields_identical_poll_results() {
    let lw = LocalWaker::new(4);
    let mut cx = Context::new(&lw, ());

    let mut direct = FutureObj::<u64, (), Counter>::new(Counter { count: 0, target: 3 });
    let mut direct_results: Vec<Poll<u64>> = Vec::new();
    for _ in 0..3 {
        direct_results.push(direct.poll(&mut cx));
    }

    let transferable = FutureObj::<u64, (), Counter>::new(Counter { count: 0, target: 3 });
    let mut confined = LocalFutureObj::from(transferable);
    let mut confined_results: Vec<Poll<u64>> = Vec::new();
    for _ in 0..3 {
        confined_results.push(confined.poll(&mut cx));
    }

    assert_eq!(direct_results, confined_results);
}

#[test]
fn into_future_obj_round_trips() {
    let lw = LocalWaker::new(5);
    let mut cx = Context::new(&lw, ());
    let confined = LocalFutureObj::<u64, (), Counter>::new(Counter { count: 0, target: 2 });
    let transferable = confined.into_future_obj();
    let mut back = LocalFutureObj::from(transferable);
    assert!(matches!(back.poll(&mut cx), Poll::Pending));
    assert!(matches!(back.poll(&mut cx), Poll::Ready(2)));
}

#[test]
fn confined_container_moves_between_polls() {
    let lw = LocalWaker::new(6);
    let mut cx = Context::new(&lw, ());
    let mut obj = LocalFutureObj::<u64, (), Counter>::new(Counter { count: 0, target: 3 });
    assert!(matches!(obj.poll(&mut cx), Poll::Pending));
    // Relocate the container: the counter continues rather than resetting.
    let mut moved = obj;
    assert!(matches!(moved.poll(&mut cx), Poll::Pending));
    let mut boxed = Box::new(moved);
    assert!(matches!(boxed.poll(&mut cx), Poll::Ready(3)));
}

#[test]
fn spurious_wakes_keep_returning_pending() {
    let lw = LocalWaker::new(8);
    let mut cx = Context::new(&lw, ());
    let mut obj = LocalFutureObj::<u64, (), Counter>::new(Counter { count: 0, target: 4 });
    // Woken and polled while still not ready: Pending again, every time.
    assert!(matches!(obj.poll(&mut cx), Poll::Pending));
    assert!(matches!(obj.poll(&mut cx), Poll::Pending));
    assert!(matches!(obj.poll(&mut cx), Poll::Pending));
    assert!(matches!(obj.poll(&mut cx), Poll::Ready(4)));
}

fn requires_send<T: Send>(value: T) -> T {
    value
}

#[test]
fn transferable_container_is_transferable() {
    let obj = FutureObj::<u64, (), Counter>::new(Counter { count: 0, target: 2 });
    // The transferable variant may be handed across execution contexts.
    let mut obj = requires_send(obj);
    let lw = LocalWaker::new(9);
    let mut cx = Context::new(&lw, ());
    assert!(matches!(obj.poll(&mut cx), Poll::Pending));
    assert!(matches!(obj.poll(&mut cx), Poll::Ready(2)));
}
