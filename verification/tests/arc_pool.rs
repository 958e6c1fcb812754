use core::sync::atomic::{self, AtomicBool};

use fika::arc_pool::{ArcPool, Slot};

#[test]
fn mod_request_from_empty_pool() {
    let mut pool: ArcPool<i32> = ArcPool::new();

    let value = 42;
    assert_eq!(Err(value), pool.request(value));
}

#[test]
fn mod_it_works() {
    let mut pool: ArcPool<i32> = ArcPool::new();

    let value = 42;
    pool.manage(Slot::new());

    let maybe_arc = pool.request(value);
    assert!(maybe_arc.is_ok());

    let arc = maybe_arc.unwrap();
    assert_eq!(value, *pool.get(&arc));

    let exhausted = pool.request(value);
    assert_eq!(Err(value), exhausted);

    // returns the object to the pool
    pool.drop_arc(arc);

    let maybe_arc = pool.request(value);
    assert!(maybe_arc.is_ok());
    assert_eq!(value, *pool.get(&maybe_arc.unwrap()));
}

static DESTROYED: AtomicBool = AtomicBool::new(false);

struct Evil;

impl Drop for Evil {
    fn drop(&mut self) {
        DESTROYED.store(true, atomic::Ordering::Relaxed);
    }
}

#[test]
fn mod_destructor_runs() {
    let mut pool: ArcPool<Evil> = ArcPool::new();

    pool.manage(Slot::new());

    let arc = pool.request(Evil).ok().unwrap();
    let arc2 = pool.clone_arc(&arc);

    // still live
    assert!(!DESTROYED.load(atomic::Ordering::Relaxed));

    pool.drop_arc(arc2);

    // still live
    assert!(!DESTROYED.load(atomic::Ordering::Relaxed));

    pool.drop_arc(arc);

    assert!(DESTROYED.load(atomic::Ordering::Relaxed));
}

#[test]
fn three_handles_three_drops() {
    // three live handles of one slot: only the third drop frees the slot
    let mut pool: ArcPool<u32> = ArcPool::new();
    pool.manage(Slot::new());

    let first = pool.request(7).ok().unwrap();
    let second = pool.clone_arc(&first);
    let third = pool.clone_arc(&second);

    pool.drop_arc(second);
    assert_eq!(7, *pool.get(&first));
    assert_eq!(Err(8), pool.request(8));

    pool.drop_arc(third);
    assert_eq!(7, *pool.get(&first));
    assert_eq!(Err(8), pool.request(8));

    pool.drop_arc(first);
    assert!(pool.request(8).is_ok());
}

#[test]
fn check_arc_is_send() {
    is_send::<Box<i32>>();
}

#[test]
fn check_arc_is_sync() {
    is_sync::<Box<i32>>();
}

fn is_send<T>()
where
    T: Send,
{
}

fn is_sync<T>()
where
    T: Sync,
{
}
