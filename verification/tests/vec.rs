use core::sync::atomic::{self, AtomicUsize};

use fika::object_pool::{ObjectPool, Unmanaged};
use fika::vec::{capacity_for, Vec};

#[test]
fn capacity_works() {
    // a four-byte window at a four-aligned address
    assert_eq!(4, capacity_for(4, 4, 1, 1));
    assert_eq!(2, capacity_for(4, 4, 2, 2));
    assert_eq!(1, capacity_for(4, 4, 4, 4));
    assert_eq!(0, capacity_for(4, 4, 8, 8));

    // the same window shifted one byte off alignment
    assert_eq!(4, capacity_for(5, 4, 1, 1));
    assert_eq!(1, capacity_for(5, 4, 2, 2));
    assert_eq!(0, capacity_for(5, 4, 4, 4));
    assert_eq!(0, capacity_for(5, 4, 8, 8));
}

#[test]
fn push_pop_works() {
    let storage = vec![0; 4];
    let mut vec = Vec::new(storage);

    assert!(vec.push(1u8).is_ok());
    assert!(vec.push(2).is_ok());

    assert_eq!([1, 2], *vec.as_slice());

    assert_eq!(Some(2), vec.pop());
    assert_eq!(Some(1), vec.pop());
    assert_eq!(None, vec.pop());
}

static DESTROYED: AtomicUsize = AtomicUsize::new(0);

struct Evil(u8);

impl Drop for Evil {
    fn drop(&mut self) {
        DESTROYED.fetch_add(1, atomic::Ordering::Relaxed);
    }
}

#[test]
fn contents_are_destroyed() {
    let storage = vec![0; 4];
    let mut vec = Vec::new(storage);
    assert!(vec.push(Evil(0)).is_ok());
    assert!(vec.push(Evil(1)).is_ok());

    // not yet
    assert_eq!(0, DESTROYED.load(atomic::Ordering::Relaxed));

    drop(vec);
    assert_eq!(2, DESTROYED.load(atomic::Ordering::Relaxed));
}

#[test]
fn backed_by_pool() {
    const ALLOC_SIZE: usize = 128;

    let mut pool: ObjectPool<std::vec::Vec<u8>> = ObjectPool::new();

    pool.manage(Unmanaged::new(vec![0; ALLOC_SIZE]));

    let storage = pool.request().expect("OOM");
    let words = Vec::<u32>::new(storage.get().clone());
    assert_eq!(ALLOC_SIZE / core::mem::size_of::<u32>(), words.capacity());

    assert!(pool.request().is_none(), "expected pool to be exhausted");

    // returns storage to the pool
    pool.recycle(storage);

    assert!(pool.request().is_some(), "expected pool to have an object");
}
