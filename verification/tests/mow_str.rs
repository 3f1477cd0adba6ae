use pstr::pool::Pool;
use pstr::IStr;
use pstr::MowStr;
use std::collections::hash_map::DefaultHasher;
use std::hash::Hash;
use std::hash::Hasher;
use std::rc::Rc;
use std::sync::Arc;

fn hash_of<T: Hash>(value: &T) -> u64 {
    let mut hasher = DefaultHasher::new();
    value.hash(&mut hasher);
    hasher.finish()
}

#[test]
fn mow_str_test_1() {
    let mut pool = Pool::<str>::new();
    let s = MowStr::new(&mut pool, "asd");
    assert_eq!(s, "asd");
}

#[test]
fn mow_str_test_2() {
    let mut pool = Pool::<str>::new();
    let a = MowStr::new(&mut pool, "asd");
    let b = MowStr::new(&mut pool, "asd");
    assert_eq!(a, b);
    assert!(a.try_istr().unwrap().ptr_eq(b.try_istr().unwrap()));
}

#[test]
fn mow_str_test_3() {
    let mut pool = Pool::<str>::new();
    let a = MowStr::new(&mut pool, "asd");
    let b = MowStr::new(&mut pool, "123");
    assert_ne!(a, b);
}

#[test]
fn test_mut() {
    let mut pool = Pool::<str>::new();
    let mut a = MowStr::new(&mut pool, "asd");
    assert!(a.is_interned());
    a.mutdown();
    assert!(a.is_mutable());
}

#[test]
fn test_mut_2() {
    let mut pool = Pool::<str>::new();
    let mut a = MowStr::new(&mut pool, "asd");
    assert!(a.is_interned());
    assert_eq!(a, "asd");
    a.push_str("123");
    assert!(a.is_mutable());
    assert_eq!(a, "asd123");
}

#[test]
fn mutation_promotes_and_intern_returns() {
    let mut pool = Pool::<str>::new();
    let mut s = MowStr::new(&mut pool, "hello");
    assert!(s.is_interned());
    s.push_str(" world");
    assert!(s.is_mutable());
    assert_eq!(s.as_str(), "hello world");
    s.intern(&mut pool);
    assert!(s.is_interned());
    assert_eq!(s.as_str(), "hello world");
    let direct = IStr::new(&mut pool, "hello world");
    assert!(s.try_istr().unwrap().ptr_eq(&direct));
}

#[test]
fn mutdown_lends_the_buffer() {
    let mut pool = Pool::<str>::new();
    let mut s = MowStr::new(&mut pool, "hello");
    s.push_str(" ");
    s.mutdown().push_str("world");
    assert_eq!(s, "hello world");
    s.intern(&mut pool);
    assert!(s.is_interned());
}

#[test]
fn shared_and_exclusive_of_one_text_are_equal() {
    let mut pool = Pool::<str>::new();
    for text in ["", "ab", "héllo wörld", "日本語"] {
        let shared = MowStr::new(&mut pool, text);
        let exclusive = MowStr::new_mut(text);
        assert!(shared.is_interned());
        assert!(exclusive.is_mutable());
        assert_eq!(shared, exclusive);
        assert_eq!(exclusive, shared);
        assert_eq!(hash_of(&shared), hash_of(&exclusive));
        assert_eq!(hash_of(&shared), hash_of(&text));
    }
    let a = MowStr::new(&mut pool, "ab");
    let b = MowStr::new_mut("ac");
    assert_ne!(a, b);
    assert_ne!(b, a);
    assert_ne!(MowStr::new_mut("ab"), MowStr::new_mut("ac"));
    assert_eq!(MowStr::new_mut("ab"), MowStr::new_mut("ab"));
}

#[test]
fn shared_strings_of_two_pools_are_equal_by_text() {
    let mut one = Pool::<str>::new();
    let mut two = Pool::<str>::new();
    let a = MowStr::new(&mut one, "asd");
    let b = MowStr::new(&mut two, "asd");
    assert!(!a.try_istr().unwrap().ptr_eq(b.try_istr().unwrap()));
    assert!(a.try_istr().unwrap() != b.try_istr().unwrap());
    assert!(a.try_istr().unwrap().content_eq(b.try_istr().unwrap()));
    assert_eq!(a, b);
    assert_eq!(hash_of(&a), hash_of(&b));
    assert_ne!(a, MowStr::new(&mut two, "asx"));
}

#[test]
fn exclusive_round_trip() {
    for text in ["", "plain", "héllo", "日本語", "a\u{10348}b"] {
        let s = MowStr::from_string_mut(String::from(text));
        assert!(s.is_mutable());
        assert_eq!(s.as_str(), text);
        assert_eq!(s.ref_str(), text);
        assert_eq!(s.try_string().unwrap().as_str(), text);
        assert_eq!(s.to_string(), text);
        assert_eq!(s.into_string(), text);
    }
}

#[test]
fn constructors_and_their_states() {
    let mut pool = Pool::<str>::new();
    assert!(MowStr::new(&mut pool, "a").is_interned());
    assert!(MowStr::from_string(&mut pool, String::from("a")).is_interned());
    assert!(MowStr::from_boxed(&mut pool, Box::from("a")).is_interned());
    assert!(MowStr::from_arc(&mut pool, Arc::from("a")).is_interned());
    assert!(MowStr::from_rc(&mut pool, Rc::from("a")).is_interned());
    assert!(MowStr::from_to_arc(&mut pool, "a", Arc::from).is_interned());
    assert!(MowStr::from_istr(IStr::new(&mut pool, "a")).is_interned());
    assert_eq!(pool.len(), 1);
    assert!(MowStr::new_mut("a").is_mutable());
    assert!(MowStr::from_string_mut(String::from("a")).is_mutable());
    let e = MowStr::mut_empty();
    assert!(e.is_mutable());
    assert_eq!(e.as_str(), "");
    let c = MowStr::mut_with_capacity(16);
    assert!(c.is_mutable());
    assert_eq!(c.as_str(), "");
    assert_eq!(pool.len(), 1);
}

#[test]
fn intern_and_to_mut_are_idle_in_their_own_state() {
    let mut pool = Pool::<str>::new();
    let mut s = MowStr::new(&mut pool, "asd");
    let before = s.try_istr().unwrap().clone();
    s.intern(&mut pool);
    assert!(s.try_istr().unwrap().ptr_eq(&before));
    assert_eq!(pool.len(), 1);
    let mut m = MowStr::new_mut("xyz");
    m.to_mut();
    assert!(m.is_mutable());
    assert_eq!(m.as_str(), "xyz");
    assert_eq!(pool.len(), 1);
    m.intern(&mut pool);
    assert!(m.is_interned());
    assert_eq!(pool.len(), 2);
}

#[test]
fn to_mut_by_uses_the_given_copy() {
    let mut pool = Pool::<str>::new();
    let mut s = MowStr::new(&mut pool, "asd");
    s.to_mut_by(|cell| format!("<{}>", cell.as_str()));
    assert!(s.is_mutable());
    assert_eq!(s.as_str(), "<asd>");
    s.to_mut_by(|_| String::from("unused"));
    assert_eq!(s.as_str(), "<asd>");
}

#[test]
fn swap_mut_and_try_swap_mut() {
    let mut pool = Pool::<str>::new();
    let mut shared = MowStr::new(&mut pool, "asd");
    assert_eq!(shared.try_swap_mut(String::from("new")), None);
    assert!(shared.is_interned());
    assert_eq!(shared.as_str(), "asd");
    assert_eq!(shared.swap_mut(String::from("new")), None);
    assert!(shared.is_mutable());
    assert_eq!(shared.as_str(), "new");
    assert_eq!(shared.swap_mut(String::from("newer")), Some(String::from("new")));
    assert_eq!(shared.as_str(), "newer");
    assert_eq!(shared.try_swap_mut(String::from("newest")), Some(String::from("newer")));
    assert!(shared.is_mutable());
    assert_eq!(shared.as_str(), "newest");
}

#[test]
fn accessors_by_state() {
    let mut pool = Pool::<str>::new();
    let shared = MowStr::new(&mut pool, "asd");
    assert!(shared.try_istr().is_some());
    assert!(shared.try_string().is_none());
    let exclusive = MowStr::new_mut("asd");
    assert!(exclusive.try_istr().is_none());
    assert_eq!(exclusive.try_string().unwrap(), "asd");
    assert_eq!(&*shared.into_boxed_str(), "asd");
    assert_eq!(&*exclusive.into_boxed_str(), "asd");
}

#[test]
fn clone_interned_and_into_istr() {
    let mut pool = Pool::<str>::new();
    let shared = MowStr::new(&mut pool, "asd");
    let dup = shared.clone_interned(&mut pool);
    assert!(dup.is_interned());
    assert!(dup.try_istr().unwrap().ptr_eq(shared.try_istr().unwrap()));
    let exclusive = MowStr::new_mut("asd");
    let dup = exclusive.clone_interned(&mut pool);
    assert!(dup.is_interned());
    assert!(dup.try_istr().unwrap().ptr_eq(shared.try_istr().unwrap()));
    assert!(exclusive.is_mutable());
    let cell = exclusive.into_istr(&mut pool);
    assert!(cell.ptr_eq(shared.try_istr().unwrap()));
    assert_eq!(pool.len(), 1);
}

#[test]
fn buffer_operations_on_plain_text() {
    let mut pool = Pool::<str>::new();
    let mut s = MowStr::new(&mut pool, "hello");
    s.push('!');
    assert!(s.is_mutable());
    assert_eq!(s, "hello!");
    assert_eq!(s.pop(), Some('!'));
    assert_eq!(s, "hello");
    s.insert(0, '>');
    assert_eq!(s, ">hello");
    s.insert_str(1, "> ");
    assert_eq!(s, ">> hello");
    assert_eq!(s.remove(0), '>');
    assert_eq!(s, "> hello");
    s.truncate(3);
    assert_eq!(s, "> h");
    s.truncate(100);
    assert_eq!(s, "> h");
    s.push_str("ello world");
    let tail = s.split_off(7);
    assert_eq!(s, "> hello");
    assert!(tail.is_mutable());
    assert_eq!(tail, " world");
    s.replace_range(0, 2, "");
    assert_eq!(s, "hello");
    assert_eq!(s.drain(1, 3), "el");
    assert_eq!(s, "hlo");
    s.retain(|c| c != 'l');
    assert_eq!(s, "ho");
    s.reserve(10);
    s.reserve_exact(10);
    s.shrink_to_fit();
    assert_eq!(s, "ho");
    s.clear();
    assert_eq!(s, "");
    assert_eq!(s.pop(), None);
    assert!(s.is_mutable());
}

#[test]
fn buffer_operations_on_wide_characters() {
    let mut s = MowStr::new_mut("héllo");
    assert_eq!(s.remove(1), 'é');
    assert_eq!(s, "hllo");
    s.insert(1, 'é');
    assert_eq!(s, "héllo");
    s.truncate(3);
    assert_eq!(s, "hé");
    s.insert_str(3, "日本");
    assert_eq!(s, "hé日本");
    let tail = s.split_off(6);
    assert_eq!(s, "hé日");
    assert_eq!(tail, "本");
    assert_eq!(s.drain(1, 3), "é");
    assert_eq!(s, "h日");
    s.replace_range(1, 4, "i");
    assert_eq!(s, "hi");
    assert_eq!(s.pop(), Some('i'));
}

#[test]
fn each_mutation_makes_a_shared_string_exclusive() {
    let mut pool = Pool::<str>::new();
    let mut a = MowStr::new(&mut pool, "asd");
    a.clear();
    assert!(a.is_mutable());
    let mut b = MowStr::new(&mut pool, "asd");
    b.shrink_to_fit();
    assert!(b.is_mutable());
    assert_eq!(b, "asd");
    let mut c = MowStr::new(&mut pool, "asd");
    c.mut_str().make_ascii_uppercase();
    assert!(c.is_mutable());
    assert_eq!(c, "ASD");
    let mut d = MowStr::new(&mut pool, "asd");
    d.as_mut_string().push('!');
    assert_eq!(d, "asd!");
    let mut e = MowStr::new(&mut pool, "asd");
    e.mut_string().push('?');
    e.as_mut_str().make_ascii_uppercase();
    assert_eq!(e, "ASD?");
    let kept = IStr::new(&mut pool, "asd");
    assert_eq!(kept.as_str(), "asd");
}

#[test]
fn compares_with_plain_strings() {
    let s = MowStr::new_mut("asd");
    assert_eq!(s, *"asd");
    assert_eq!(s, "asd");
    assert_eq!(s, String::from("asd"));
    assert_ne!(s, "as");
}
