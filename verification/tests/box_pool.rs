use core::sync::atomic::{self, AtomicBool};

use fika::box_pool::{Box, BoxPool, Slot};

#[test]
fn request_from_empty_pool() {
    let mut pool: BoxPool<i32> = BoxPool::new();

    let value = 42;
    assert_eq!(Err(value), pool.request(value));
}

#[test]
fn it_works() {
    let mut pool: BoxPool<i32> = BoxPool::new();

    let value = 42;
    pool.manage(Slot::new());

    let maybe_box = pool.request(value);
    assert!(maybe_box.is_ok());

    let boxed = maybe_box.unwrap();
    assert_eq!(value, *boxed.get());

    let exhausted = pool.request(value);
    assert_eq!(Err(value), exhausted);

    // returns the object to the pool
    pool.recycle(boxed);

    let maybe_object = pool.request(value);
    assert!(maybe_object.is_ok());
    assert_eq!(value, *maybe_object.unwrap().get());
}

static DESTROYED: AtomicBool = AtomicBool::new(false);

struct Evil;

impl Drop for Evil {
    fn drop(&mut self) {
        DESTROYED.store(true, atomic::Ordering::Relaxed);
    }
}

#[test]
fn destructor_runs() {
    let mut pool: BoxPool<Evil> = BoxPool::new();

    pool.manage(Slot::new());

    let boxed = pool.request(Evil).ok().unwrap();

    // still live
    assert!(!DESTROYED.load(atomic::Ordering::Relaxed));

    pool.recycle(boxed);

    assert!(DESTROYED.load(atomic::Ordering::Relaxed));
}

#[test]
fn check_box_is_send() {
    is_send::<Box<i32>>();
}

#[test]
fn check_box_is_sync() {
    is_sync::<Box<i32>>();
}

fn is_send<T>()
where
    T: Send,
{
}

fn is_sync<T>()
where
    T: Sync,
{
}
