use std::sync::{Arc, RwLock};

use state::cell::InitCell;
use state::init::Init;

struct DroppingStruct(Arc<RwLock<bool>>);

impl Drop for DroppingStruct {
    fn drop(&mut self) {
        *self.0.write().unwrap() = true;
    }
}

#[test]
fn simple_put_get() {
    let mut cell: InitCell<u32> = InitCell::new();

    assert!(cell.set(10));
    assert_eq!(*cell.get(), 10);
}

#[test]
fn no_double_put() {
    let mut cell: InitCell<u32> = InitCell::new();

    assert!(cell.set(1));
    assert!(!cell.set(5));
    assert_eq!(*cell.get(), 1);
}

#[test]
fn main_dst_set_get() {
    let mut cell: InitCell<[u32; 4]> = InitCell::new();

    assert!(cell.set([1, 2, 3, 4]));
    assert_eq!(*cell.get(), [1, 2, 3, 4]);
}

// Ensure dropping a `InitCell<T>` drops `T`.
#[test]
fn main_drop_inners_on_drop() {
    let drop_flag = Arc::new(RwLock::new(false));
    let dropping_struct = DroppingStruct(drop_flag.clone());

    {
        let mut cell = InitCell::new();
        assert!(cell.set(dropping_struct));
        assert_eq!(*drop_flag.read().unwrap(), false);
    }

    assert_eq!(*drop_flag.read().unwrap(), true);
}

#[test]
fn clone() {
    let mut cell: InitCell<u32> = InitCell::new();
    assert!(cell.try_get().is_none());

    let cell_clone = cell.clone();
    assert!(cell_clone.try_get().is_none());

    assert!(cell.set(10));
    let cell_clone = cell.clone();
    assert_eq!(*cell_clone.get(), 10);
}

#[test]
fn main_many_puts_only_one_succeeds() {
    let mut cell: InitCell<u32> = InitCell::new();
    let results: Vec<bool> = (0..1000)
        .map(|_| {
            let was_set = cell.set(10);
            assert_eq!(*cell.get(), 10);
            was_set
        })
        .collect();
    assert_eq!(results.into_iter().filter(|&b| b).count(), 1);
    assert_eq!(*cell.get(), 10);

    let mut local: state::LocalInitCell<u32, fn() -> u32> = state::LocalInitCell::new();
    let results: Vec<bool> = (0..1000u64)
        .map(|thread| {
            let was_set = local.set(|| 10);
            assert_eq!(*local.get(thread), 10);
            was_set
        })
        .collect();
    assert_eq!(results.into_iter().filter(|&b| b).count(), 1);
    assert_eq!(*local.get(0), 10);
}

#[test]
fn set_once_then_refused() {
    let mut cell: InitCell<&'static str> = InitCell::new();
    assert_eq!(cell.set("Hello, world!"), true);
    assert_eq!(cell.set("Goodbye, world!"), false);
    assert_eq!(cell.try_get(), Some(&"Hello, world!"));
}

#[test]
fn reset_uninitializes() {
    let mut cell = InitCell::from(5);
    assert_eq!(cell.get(), &5);

    cell.reset();
    assert!(cell.try_get().is_none());
    assert!(cell.set(6));
    assert_eq!(cell.get(), &6);
}

#[test]
fn get_or_init_sets_once() {
    let mut cell: InitCell<&'static str> = InitCell::new();
    assert_eq!(*cell.get_or_init(|| "Hello, world!"), "Hello, world!");
    assert_eq!(*cell.get_or_init(|| "Goodbye, world!"), "Hello, world!");
}

#[test]
fn wait_returns_value() {
    let mut cell: InitCell<&'static str> = InitCell::new();
    cell.set("Hello, world!");
    assert_eq!(*cell.wait(), "Hello, world!");
}

#[test]
fn try_get_mut_modifies() {
    let mut cell = InitCell::from(5);
    *cell.try_get_mut().unwrap() += 1;
    assert_eq!(cell.get(), &6);

    let mut cell: InitCell<usize> = InitCell::new();
    assert!(cell.try_get_mut().is_none());
}

#[test]
fn take_empties() {
    let mut cell = InitCell::from(5);
    assert_eq!(cell.get(), &5);
    assert_eq!(cell.get(), &5);

    assert_eq!(cell.take(), Some(5));
    assert_eq!(cell.take(), None);
    assert!(cell.set(7));
}

#[test]
fn into_inner_gives_value() {
    let cell = InitCell::from(5);
    assert_eq!(cell.into_inner().unwrap(), 5);

    let cell: InitCell<usize> = InitCell::new();
    assert!(cell.into_inner().is_none());
}

#[test]
fn update_applies() {
    let mut cell = InitCell::from(5);
    cell.update(|v| v + 10);
    assert_eq!(cell.wait(), &15);

    let mut cell = InitCell::new();
    cell.update(|v: u8| v + 10);
    assert!(cell.try_get().is_none());
}

#[test]
fn map_applies() {
    let cell = InitCell::from(5);
    assert_eq!(cell.get(), &5);

    let cell = cell.map(|v| v + 10);
    assert_eq!(cell.get(), &15);

    let cell: InitCell<u8> = InitCell::new();
    let cell = cell.map(|v| v as u32 + 1);
    assert!(cell.try_get().is_none());
}

#[test]
fn default_is_empty() {
    let cell: InitCell<u8> = InitCell::default();
    assert!(cell.try_get().is_none());
}

#[test]
fn init_claims_once() {
    let mut init = Init::new();
    assert!(!init.has_completed());
    assert!(init.needed());
    init.mark_complete();
    assert!(init.has_completed());
    init.wait_until_complete();
    assert!(!init.needed());
    assert!(!init.needed());
}

#[test]
fn init_marked_before_needed() {
    let mut init = Init::new();
    init.mark_complete();
    assert!(!init.needed());
}
