use raspi_os::counter::{Counter, CounterThreadArguments};
use raspi_os::semaphore::{SemMutex, Semaphore};
use raspi_os::sync::SpinMutex;
use std::sync::Arc;

#[test]
fn test_spin_mutex() {
    let mut state = SpinMutex::new(0);

    assert_eq!(*state.lock().data, 0);

    *state.lock().data = 9;

    assert_eq!(*state.lock().data, 9);
}

#[test]
fn spin_mutex_execute_sees_value() {
    let state = SpinMutex::new(41u64);
    state.execute(|v: &u64| {
        assert_eq!(*v, 41);
    });
    assert_eq!(state.data, 41);
}

#[test]
fn spin_mutex_execute_mut_keeps_result() {
    let mut state = SpinMutex::new(5u64);
    state.execute_mut(|v: u64| v * 3);
    assert_eq!(state.data, 15);
    assert!(!state.lock);
}

#[test]
fn semaphore_wait_takes_a_unit() {
    let mut s = Semaphore::new(2);
    assert!(s.wait());
    assert_eq!(s.value, 1);
    assert!(s.wait());
    assert_eq!(s.value, 0);
    assert!(!s.wait());
    assert_eq!(s.value, 0);
}

#[test]
fn semaphore_wait_then_signal_restores_count() {
    let mut s = Semaphore::new(3);
    assert!(s.wait());
    s.signal();
    assert_eq!(s.value, 3);
}

#[test]
fn sem_mutex_lock_is_exclusive() {
    let mut m = SemMutex::new(7u32);
    {
        let guard = m.lock().expect("free mutex locks");
        assert_eq!(*guard.data, 7);
        *guard.data = 8;
        assert_eq!(guard.semaphore.value, 0);
    }
    assert_eq!(m.data, 8);
    assert_eq!(m.semaphore.value, 0);
    assert!(m.lock().is_none());
}

#[test]
fn sem_mutex_unlock_frees_the_lock() {
    let mut m = SemMutex::new(1u32);
    let guard = m.lock().expect("free mutex locks");
    guard.unlock();
    assert_eq!(m.semaphore.value, 1);
    assert!(m.lock().is_some());
}

#[test]
fn sem_mutex_execute_runs_when_free() {
    let mut m = SemMutex::new(Counter::new());
    assert!(m.execute_mut(|mut c: Counter| {
        c.increment();
        c
    }));
    assert_eq!(m.data.count(), 1);
    assert_eq!(m.semaphore.value, 1);
    assert!(m.execute(|c: &Counter| assert_eq!(c.count(), 1)));
}

#[test]
fn sem_mutex_execute_refused_when_held() {
    let mut m = SemMutex::new(Counter::new());
    m.semaphore.value = 0;
    assert!(!m.execute_mut(|mut c: Counter| {
        c.increment();
        c
    }));
    assert_eq!(m.data.count(), 0);
    assert!(!m.execute(|_c: &Counter| {}));
}

#[test]
fn counter_counts() {
    let mut c = Counter::new();
    assert_eq!(c.count(), 0);
    c.increment();
    c.increment();
    assert_eq!(c.count(), 2);
}

#[test]
fn counter_thread_arguments_keep_fields() {
    let shared = Arc::new(SemMutex::new(Counter::new()));
    let args = CounterThreadArguments::new(shared.clone(), 200_000, 3);
    assert_eq!(args.iterations, 200_000);
    assert_eq!(args.thread_number, 3);
    assert_eq!(args.counter.data.count(), 0);
}
