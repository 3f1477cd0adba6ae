use pstr::pool::Intern;
use pstr::pool::Pool;
use std::sync::Arc;

#[test]
fn pool_test_basic() {
    let mut pool = Pool::<str>::new();
    let h = pool.intern("asd", Arc::from);
    assert_eq!(h.get(), "asd");
}

#[test]
fn test_same() {
    let mut pool = Pool::<str>::new();
    let h1 = pool.intern("asd", Arc::from);
    let h2 = pool.intern("asd", Arc::from);
    assert!(h1 == h2);
    assert!(h1.ptr_eq(&h2));
    assert_eq!(h1.get(), "asd");
    assert_eq!(h2.get(), "asd");
}

#[test]
fn test_not_same() {
    let mut pool = Pool::<str>::new();
    let h1 = pool.intern("asd", Arc::from);
    let h2 = pool.intern("123", Arc::from);
    assert!(h1 != h2);
    assert!(!h1.ptr_eq(&h2));
    assert_eq!(h1.get(), "asd");
    assert_eq!(h2.get(), "123");
}

#[test]
fn test_pool_gc() {
    let mut pool = Pool::<str>::new();
    assert_eq!(pool.len(), 0);
    pool.intern("asd", Arc::from);
    assert_eq!(pool.len(), 1);
    let h = pool.intern("123", Arc::from);
    assert_eq!(pool.len(), 2);
    pool.collect_garbage();
    assert_eq!(pool.len(), 1);
    drop(h);
    assert_eq!(pool.len(), 1);
    pool.collect_garbage();
    assert_eq!(pool.len(), 0);
}

#[test]
fn intern_owned_string_adopts_stored_cell() {
    let mut pool = Pool::<str>::new();
    let first: Intern<str> = pool.intern("hello", Arc::from);
    let second = pool.intern(String::from("hello"), Arc::from);
    assert!(first.ptr_eq(&second));
    assert_eq!(pool.len(), 1);
}

#[test]
fn handles_from_two_pools_are_not_equal() {
    let mut a = Pool::<str>::new();
    let mut b = Pool::<str>::new();
    let ha = a.intern("asd", Arc::from);
    let hb = b.intern("asd", Arc::from);
    assert!(!ha.ptr_eq(&hb));
    assert!(ha != hb);
    assert!(ha.content_eq(&hb));
    assert_eq!(ha.get(), hb.get());
    assert!(ha == ha.clone());
}

#[test]
fn content_eq_compares_content() {
    let mut pool = Pool::<str>::new();
    let a = pool.intern("asd", Arc::from);
    let b = pool.intern("asd", Arc::from);
    let c = pool.intern("123", Arc::from);
    assert!(a.content_eq(&b));
    assert!(!a.content_eq(&c));
    assert!(a == b);
    assert!(a != c);
}

#[test]
fn sweep_rule_on_counts() {
    assert!(!pstr::pool::keeps(0));
    assert!(!pstr::pool::keeps(1));
    assert!(pstr::pool::keeps(2));
    assert!(pstr::pool::keeps(usize::MAX));
}
