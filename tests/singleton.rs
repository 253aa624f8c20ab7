use std::cell::Cell;
use sundae::singleton::Singleton;

#[test]
fn initializer_not_run_by_new() {
    let runs = Cell::new(0u32);
    let _s = Singleton::new(|| {
        runs.set(runs.get() + 1);
        7u64
    });
    assert_eq!(runs.get(), 0);
}

#[test]
fn initializer_runs_once() {
    let runs = Cell::new(0u32);
    let mut s = Singleton::new(|| {
        runs.set(runs.get() + 1);
        7u64
    });
    assert_eq!(*s.get(), 7);
    assert_eq!(*s.get(), 7);
    s.mutate(|v| v + 1);
    assert_eq!(*s.get(), 8);
    assert_eq!(runs.get(), 1);
}

#[test]
fn mutate_first_initialises() {
    let runs = Cell::new(0u32);
    let mut s = Singleton::new(|| {
        runs.set(runs.get() + 1);
        vec![1u8]
    });
    s.mutate(|mut v| {
        v.push(2);
        v
    });
    assert_eq!(*s.get(), vec![1u8, 2]);
    assert_eq!(runs.get(), 1);
}
