use std::collections::HashMap;
use std::sync::atomic::AtomicUsize;
use std::sync::atomic::Ordering::SeqCst;

use sync_lazy::Lazy;

/// Runs `f` on another thread and waits for it to finish.
fn go<F: FnOnce() + Send>(f: F) {
    crossbeam_utils::thread::scope(|s| {
        s.spawn(|_| f());
    })
    .unwrap();
}

static DROP_CNT: AtomicUsize = AtomicUsize::new(0);

struct Dropper;

impl Drop for Dropper {
    fn drop(&mut self) {
        DROP_CNT.fetch_add(1, SeqCst);
    }
}

static EMPTY_DROP_CNT: AtomicUsize = AtomicUsize::new(0);

struct EmptyDropper;

impl Drop for EmptyDropper {
    fn drop(&mut self) {
        EMPTY_DROP_CNT.fetch_add(1, SeqCst);
    }
}

#[test]
fn test_drop() {
    let x = Lazy::new(|| Dropper);
    go(|| {
        Lazy::force(&x);
        assert_eq!(DROP_CNT.load(SeqCst), 0);
    });
    drop(x);
    assert_eq!(DROP_CNT.load(SeqCst), 1);
}

#[test]
fn test_drop_empty() {
    let x = Lazy::new(|| EmptyDropper);
    assert_eq!(EMPTY_DROP_CNT.load(SeqCst), 0);
    drop(x);
    assert_eq!(EMPTY_DROP_CNT.load(SeqCst), 0);
}

#[test]
fn sync_lazy_macro() {
    let called = AtomicUsize::new(0);
    let x = Lazy::new(|| {
        called.fetch_add(1, SeqCst);
        92
    });

    assert_eq!(called.load(SeqCst), 0);

    go(|| {
        let y = *x - 30;
        assert_eq!(y, 62);
        assert_eq!(called.load(SeqCst), 1);
    });

    let y = *x - 30;
    assert_eq!(y, 62);
    assert_eq!(called.load(SeqCst), 1);
}

#[test]
fn static_lazy() {
    let xs_cell: Lazy<Vec<i32>> = Lazy::new(|| {
        let mut xs = Vec::new();
        xs.push(1);
        xs.push(2);
        xs.push(3);
        xs
    });
    go(|| {
        assert_eq!(&*xs_cell, &vec![1, 2, 3]);
    });
    assert_eq!(&*xs_cell, &vec![1, 2, 3]);
}

fn assert_traits<T: Send + Sync>() {}

#[test]
fn lazy_is_sync_send() {
    assert_traits::<Lazy<String>>();
}

#[test]
fn new_is_const_fn() {
    let xs_cell: Lazy<Vec<i32>> = Lazy::new(|| {
        let mut xs = Vec::new();
        xs.push(1);
        xs.push(2);
        xs.push(3);
        xs
    });
    go(|| {
        assert_eq!(&*xs_cell, &vec![1, 2, 3]);
    });
    assert_eq!(&*xs_cell, &vec![1, 2, 3]);
}

#[test]
fn racing_forces_share_one_run() {
    let called = AtomicUsize::new(0);
    let called_ref = &called;
    let xs = vec![1, 2, 3];
    let cell = Lazy::new(move || {
        called_ref.fetch_add(1, SeqCst);
        xs.iter().sum::<i32>()
    });
    crossbeam_utils::thread::scope(|s| {
        s.spawn(|_| assert_eq!(*Lazy::force(&cell), 6));
        s.spawn(|_| assert_eq!(*Lazy::force(&cell), 6));
    })
    .unwrap();
    assert_eq!(*Lazy::force(&cell), 6);
    assert_eq!(called.load(SeqCst), 1);
}

#[test]
fn repeated_force_is_idempotent() {
    let called = AtomicUsize::new(0);
    let cell = Lazy::new(|| {
        called.fetch_add(1, SeqCst);
        92
    });
    let a = Lazy::force(&cell);
    let b = Lazy::force(&cell);
    assert!(std::ptr::eq(a, b));
    assert_eq!(*a, 92);
    assert_eq!(*b, 92);
    assert_eq!(called.load(SeqCst), 1);
}

#[test]
fn cross_thread_first_force() {
    let cell = Lazy::new(|| 7_u64 * 6);
    go(|| {
        assert_eq!(*Lazy::force(&cell), 42);
    });
    assert_eq!(*Lazy::force(&cell), 42);
}

#[test]
fn mapping_built_once_across_threads() {
    let side_effects = AtomicUsize::new(0);
    let global = Lazy::new(|| {
        side_effects.fetch_add(1, SeqCst);
        let mut m = HashMap::new();
        m.insert(13, "Spica".to_string());
        m.insert(74, "Hoyten".to_string());
        m
    });
    go(|| {
        assert_eq!(Lazy::force(&global).get(&13).map(|s| s.as_str()), Some("Spica"));
        assert_eq!(side_effects.load(SeqCst), 1);
    });
    assert_eq!(Lazy::force(&global).get(&74).map(|s| s.as_str()), Some("Hoyten"));
    assert_eq!(side_effects.load(SeqCst), 1);
}

#[test]
fn force_runs_no_side_effect_before_first_access() {
    let called = AtomicUsize::new(0);
    let cell = Lazy::new(|| {
        called.fetch_add(1, SeqCst);
        30
    });
    assert_eq!(called.load(SeqCst), 0);
    assert_eq!(*Lazy::force(&cell), 30);
    assert_eq!(called.load(SeqCst), 1);
}
