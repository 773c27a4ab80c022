use std::cell::Cell;

use state::tls::{LocalInitCell, LocalValue};

#[test]
fn main_simple_put_get() {
    let mut cell: LocalInitCell<u32, fn() -> u32> = LocalInitCell::new();

    assert!(cell.set(|| 10));
    assert_eq!(*cell.get(0), 10);
}

#[test]
fn main_no_double_put() {
    let mut cell: LocalInitCell<u32, fn() -> u32> = LocalInitCell::new();

    assert!(cell.set(|| 1));
    assert!(!cell.set(|| 5));
    assert_eq!(*cell.get(0), 1);
}

#[test]
fn try_get_before_set() {
    let mut cell: LocalInitCell<&'static str, fn() -> &'static str> = LocalInitCell::new();
    assert_eq!(cell.try_get(0), None);

    cell.set(|| "Hello, world!");
    assert_eq!(cell.try_get(0), Some(&"Hello, world!"));
}

// Each thread key stands for one thread; the values of distinct keys are
// distinct, as thread-local values of distinct threads are.
#[test]
fn cell_tls_really_is_tls() {
    let mut cell: LocalInitCell<Cell<u8>, fn() -> Cell<u8>> = LocalInitCell::new();
    assert!(cell.set(|| Cell::new(0)));

    let mut vals = vec![];
    for thread in 1..50u64 {
        cell.get(thread).set(thread as u8);
        vals.push(cell.get(thread).get());
    }
    cell.get(0).set(0);

    for (i, val) in vals.into_iter().enumerate() {
        assert_eq!((i + 1) as u8, val);
    }
    for thread in 1..50u64 {
        assert_eq!(cell.get(thread).get(), thread as u8);
    }
    assert_eq!(cell.get(0).get(), 0);
    assert_eq!(cell.get(50).get(), 0);
}

#[test]
fn cell_tls_really_is_tls_take_2() {
    let mut cell: LocalInitCell<Cell<u8>, fn() -> Cell<u8>> = LocalInitCell::new();
    let (outer, inner) = (1, 2);
    assert!(cell.set(|| Cell::new(1)));
    cell.get(outer).set(2);
    assert_eq!(cell.get(inner).get(), 1);
    assert_eq!(cell.get(outer).get(), 2);
}

#[test]
fn local_value_made_once_per_thread() {
    let mut local: LocalValue<Cell<u8>, fn() -> Cell<u8>> = LocalValue::new(|| Cell::new(1));
    local.get(7).set(2);
    assert_eq!(local.get(7).get(), 2);
    assert_eq!(local.try_get(8).map(|c| c.get()), Some(1));
    assert_eq!(local.get(7).get(), 2);
}
