use std::mem::ManuallyDrop;
use std::sync::atomic::{AtomicUsize, Ordering};
use std::task::Waker;

use lib::task::{ThinItemWake, WakerRef};
use lib::thin_arc_list::{ThinArcItem, ThinArcList};

struct Counter {
    by_ref: AtomicUsize,
}

impl ThinItemWake<&'static str> for Counter {
    fn wake_by_ref(this: &ThinArcItem<&'static str, Self>) {
        this.by_ref.fetch_add(1, Ordering::SeqCst);
    }
}

#[test]
fn default_wake_wakes_by_ref() {
    let list = ThinArcList::from_header_and_iter(
        "tasks",
        vec![Counter { by_ref: AtomicUsize::new(0) }, Counter { by_ref: AtomicUsize::new(0) }],
    );
    let item = list.with_item(1, |it| it.clone());
    Counter::wake(item.clone());
    Counter::wake_by_ref(&item);
    assert_eq!(item.by_ref.load(Ordering::SeqCst), 2);
    assert_eq!(list.with_item(0, |it| it.by_ref.load(Ordering::SeqCst)), 0);
}

#[test]
fn waker_ref_new_gives_the_waker() {
    let waker: &Waker = Waker::noop();
    let r = WakerRef::new(waker);
    assert!(r.will_wake(waker));
}

#[test]
fn waker_ref_new_unowned_gives_the_waker() {
    let waker = Waker::noop().clone();
    let r = WakerRef::new_unowned(ManuallyDrop::new(waker.clone()));
    assert!(r.will_wake(&waker));
    let w: &Waker = &r;
    assert!(w.will_wake(Waker::noop()));
}
