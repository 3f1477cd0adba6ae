use pstr::pool::Pool;
use pstr::IStr;
use pstr::MowStr;
use std::collections::hash_map::DefaultHasher;
use std::hash::Hash;
use std::hash::Hasher;
use std::rc::Rc;
use std::sync::Arc;

fn hash_of<T: Hash>(value: &T) -> u64 {
    let mut hasher = DefaultHasher::new();
    value.hash(&mut hasher);
    hasher.finish()
}

#[test]
fn istr_test_1() {
    let mut pool = Pool::<str>::new();
    let s = IStr::new(&mut pool, "asd");
    assert_eq!(s, "asd");
}

#[test]
fn istr_test_2() {
    let mut pool = Pool::<str>::new();
    let a = IStr::new(&mut pool, "asd");
    let b = IStr::new(&mut pool, "asd");
    assert_eq!(a, b);
    assert!(a.ptr_eq(&b));
}

#[test]
fn istr_test_3() {
    let mut pool = Pool::<str>::new();
    let a = IStr::new(&mut pool, "asd");
    let b = IStr::new(&mut pool, "123");
    assert_ne!(a, b);
    assert!(!a.ptr_eq(&b));
}

#[test]
fn istr_every_constructor_reaches_one_cell() {
    let mut pool = Pool::<str>::new();
    let a = IStr::new(&mut pool, "héllo");
    let b = IStr::from_string(&mut pool, String::from("héllo"));
    let c = IStr::from_boxed(&mut pool, Box::from("héllo"));
    let d = IStr::from_arc(&mut pool, Arc::from("héllo"));
    let e = IStr::from_rc(&mut pool, Rc::from("héllo"));
    let f = IStr::from_to_arc(&mut pool, "héllo", Arc::from);
    let g = IStr::from_mow(&mut pool, MowStr::new_mut("héllo"));
    for other in [&b, &c, &d, &e, &f, &g] {
        assert!(a.ptr_eq(other));
        assert_eq!(&a, other);
        assert_eq!(other.as_str(), "héllo");
    }
    assert_eq!(pool.len(), 1);
}

#[test]
fn istr_from_arc_keeps_the_given_cell_when_new() {
    let mut pool = Pool::<str>::new();
    let given: Arc<str> = Arc::from("fresh");
    let s = IStr::from_arc(&mut pool, given.clone());
    assert!(Arc::ptr_eq(&given, &s.as_intern().clone().into_arc()));
}

#[test]
fn istr_views_and_copies() {
    let mut pool = Pool::<str>::new();
    let s = IStr::new(&mut pool, "asd");
    assert_eq!(s.as_str(), "asd");
    assert_eq!(&*s.into_boxed_str(), "asd");
    assert_eq!(s.to_string(), String::from("asd"));
    assert_eq!(s, *"asd");
    assert_eq!(s, String::from("asd"));
    let t = s.clone();
    assert!(s.ptr_eq(&t));
    let m = s.into_mut();
    assert!(m.is_interned());
    assert_eq!(m.as_str(), "asd");
    assert!(m.try_istr().unwrap().ptr_eq(&s));
}

#[test]
fn istr_of_two_pools_are_not_equal() {
    let mut one = Pool::<str>::new();
    let mut two = Pool::<str>::new();
    let a = IStr::new(&mut one, "asd");
    let b = IStr::new(&mut two, "asd");
    assert_ne!(a, b);
    assert!(a.content_eq(&b));
    assert!(!a.content_eq(&IStr::new(&mut two, "123")));
    assert_eq!(a, a.clone());
    assert_eq!(a.as_str(), b.as_str());
}

#[test]
fn istr_empty_text() {
    let mut pool = Pool::<str>::new();
    let a = IStr::new(&mut pool, "");
    let b = IStr::from_string(&mut pool, String::new());
    assert!(a.ptr_eq(&b));
    assert_eq!(a.as_str(), "");
}

#[test]
fn istr_hash_is_the_hash_of_the_text() {
    let mut pool = Pool::<str>::new();
    let a = IStr::new(&mut pool, "asd");
    assert_eq!(hash_of(&a), hash_of(&"asd"));
}
