use pstr::ffi::IOsStr;
use pstr::ffi::MowOsStr;
use pstr::pool::Pool;
use std::collections::hash_map::DefaultHasher;
use std::hash::Hash;
use std::hash::Hasher;
use std::rc::Rc;
use std::sync::Arc;

fn hash_of<T: Hash>(value: &T) -> u64 {
    let mut hasher = DefaultHasher::new();
    value.hash(&mut hasher);
    hasher.finish()
}

#[test]
fn test() {
    let mut pool = Pool::<[u8]>::new();
    let mut s = MowOsStr::new(&mut pool, "hello");
    assert!(s.is_interned());

    s.push(" ");
    assert!(s.is_mutable());

    s.mutdown().extend_from_slice(b"world");
    assert_eq!(s, "hello world");
}

#[test]
fn os_pool_basics() {
    let mut pool = Pool::<[u8]>::new();
    assert_eq!(pool.len(), 0);
    let h1 = pool.intern(&b"asd"[..], Arc::from);
    let h2 = pool.intern(b"asd".to_vec(), Arc::from);
    let h3 = pool.intern(&b"123"[..], Arc::from);
    assert!(h1.ptr_eq(&h2));
    assert!(h1 == h2);
    assert!(!h1.ptr_eq(&h3));
    assert!(h1 != h3);
    assert_eq!(h1.get(), b"asd");
    assert_eq!(h3.get(), b"123");
    assert_eq!(pool.len(), 2);
    drop(h3);
    pool.collect_garbage();
    assert_eq!(pool.len(), 1);
    drop(h1);
    pool.collect_garbage();
    assert_eq!(pool.len(), 1);
    drop(h2);
    pool.collect_garbage();
    assert_eq!(pool.len(), 0);
}

#[test]
fn i_os_str_every_constructor_reaches_one_cell() {
    let mut pool = Pool::<[u8]>::new();
    let raw: &[u8] = &[0x66, 0x6f, 0x80, 0xff];
    let a = IOsStr::new(&mut pool, raw);
    let b = IOsStr::from_os_string(&mut pool, raw.to_vec());
    let c = IOsStr::from_boxed(&mut pool, Box::from(raw));
    let d = IOsStr::from_arc(&mut pool, Arc::from(raw));
    let e = IOsStr::from_rc(&mut pool, Rc::from(raw));
    let f = IOsStr::from_to_arc(&mut pool, raw, Arc::from);
    let g = IOsStr::from_mow(&mut pool, MowOsStr::new_mut(raw));
    for other in [&b, &c, &d, &e, &f, &g] {
        assert!(a.ptr_eq(other));
        assert_eq!(&a, other);
        assert_eq!(other.as_os_str(), raw);
    }
    assert_eq!(pool.len(), 1);
    assert_eq!(&*a.into_boxed_os_str(), raw);
    assert_eq!(a.to_os_string(), raw.to_vec());
    assert_eq!(a, *raw);
    assert_eq!(a, raw);
    assert_eq!(a, raw.to_vec());
    let m = a.into_mut();
    assert!(m.is_interned());
    assert!(m.try_istr().unwrap().ptr_eq(&a));
    assert_eq!(hash_of(&a), hash_of(&raw));
}

#[test]
fn i_os_str_of_two_pools_are_not_equal() {
    let mut one = Pool::<[u8]>::new();
    let mut two = Pool::<[u8]>::new();
    let a = IOsStr::new(&mut one, &b"a\xff"[..]);
    let b = IOsStr::new(&mut two, &b"a\xff"[..]);
    assert_ne!(a, b);
    assert!(a.content_eq(&b));
    assert!(a.as_intern() != b.as_intern());
    assert!(a.as_intern().content_eq(b.as_intern()));
    assert_eq!(MowOsStr::from_i_os_str(a), MowOsStr::from_i_os_str(b));
}

#[test]
fn i_os_str_from_text() {
    let mut pool = Pool::<[u8]>::new();
    let a = IOsStr::new(&mut pool, "héllo");
    let b = IOsStr::new(&mut pool, String::from("héllo"));
    assert!(a.ptr_eq(&b));
    assert_eq!(a.as_os_str(), "héllo".as_bytes());
    assert_eq!(a, "héllo");
    assert_eq!(a, *"héllo");
    assert_eq!(a, String::from("héllo"));
    assert_ne!(a, "hello");
}

#[test]
fn mow_os_str_states() {
    let mut pool = Pool::<[u8]>::new();
    assert!(MowOsStr::new(&mut pool, "a").is_interned());
    assert!(MowOsStr::from_os_string(&mut pool, b"a".to_vec()).is_interned());
    assert!(MowOsStr::from_boxed(&mut pool, Box::from(&b"a"[..])).is_interned());
    assert!(MowOsStr::from_arc(&mut pool, Arc::from(&b"a"[..])).is_interned());
    assert!(MowOsStr::from_rc(&mut pool, Rc::from(&b"a"[..])).is_interned());
    assert!(MowOsStr::from_to_arc(&mut pool, &b"a"[..], Arc::from).is_interned());
    assert!(MowOsStr::from_i_os_str(IOsStr::new(&mut pool, "a")).is_interned());
    assert_eq!(pool.len(), 1);
    assert!(MowOsStr::new_mut("a").is_mutable());
    assert!(MowOsStr::from_os_string_mut(b"a".to_vec()).is_mutable());
    assert!(MowOsStr::mut_empty().is_mutable());
    assert_eq!(MowOsStr::mut_empty().as_os_str(), b"");
    assert!(MowOsStr::mut_with_capacity(8).is_mutable());
    assert_eq!(MowOsStr::mut_with_capacity(8).as_os_str(), b"");
    assert_eq!(pool.len(), 1);
}

#[test]
fn mow_os_str_state_machine() {
    let mut pool = Pool::<[u8]>::new();
    let mut s = MowOsStr::new(&mut pool, "hello");
    let cell = s.try_istr().unwrap().clone();
    s.intern(&mut pool);
    assert!(s.try_istr().unwrap().ptr_eq(&cell));
    s.to_mut();
    assert!(s.is_mutable());
    assert_eq!(s.as_os_str(), b"hello");
    s.to_mut();
    assert!(s.is_mutable());
    s.push(&b" world"[..]);
    assert_eq!(s.as_os_str(), b"hello world");
    s.intern(&mut pool);
    assert!(s.is_interned());
    assert_eq!(s.ref_os_str(), b"hello world");
    let direct = IOsStr::new(&mut pool, "hello world");
    assert!(s.try_istr().unwrap().ptr_eq(&direct));
    assert_eq!(pool.len(), 2);
}

#[test]
fn mow_os_str_swaps() {
    let mut pool = Pool::<[u8]>::new();
    let mut s = MowOsStr::new(&mut pool, "asd");
    assert_eq!(s.try_swap_mut(b"new".to_vec()), None);
    assert!(s.is_interned());
    assert_eq!(s.as_os_str(), b"asd");
    assert_eq!(s.swap_mut(b"new".to_vec()), None);
    assert!(s.is_mutable());
    assert_eq!(s.swap_mut(b"newer".to_vec()), Some(b"new".to_vec()));
    assert_eq!(s.try_swap_mut(b"newest".to_vec()), Some(b"newer".to_vec()));
    assert_eq!(s.as_os_str(), b"newest");
    assert_eq!(s.try_string().unwrap(), &b"newest".to_vec());
    assert!(s.try_istr().is_none());
}

#[test]
fn mow_os_str_to_mut_by() {
    let mut pool = Pool::<[u8]>::new();
    let mut s = MowOsStr::new(&mut pool, "asd");
    s.to_mut_by(|cell| {
        let mut copy = cell.to_os_string();
        copy.push(b'!');
        copy
    });
    assert!(s.is_mutable());
    assert_eq!(s.as_os_str(), b"asd!");
    s.to_mut_by(|_| Vec::new());
    assert_eq!(s.as_os_str(), b"asd!");
}

#[test]
fn mow_os_str_equality_ignores_state() {
    let mut pool = Pool::<[u8]>::new();
    let buffers: [&[u8]; 3] = [b"", b"ab", &[0xff, 0x00, 0x80]];
    for raw in buffers {
        let shared = MowOsStr::new(&mut pool, raw);
        let exclusive = MowOsStr::new_mut(raw);
        assert_eq!(shared, exclusive);
        assert_eq!(exclusive, shared);
        assert_eq!(hash_of(&shared), hash_of(&exclusive));
        assert_eq!(exclusive.as_os_str(), raw);
        assert_eq!(exclusive.to_os_string(), raw.to_vec());
        assert_eq!(exclusive.into_os_string(), raw.to_vec());
        assert_eq!(&*shared.into_boxed_os_str(), raw);
    }
    assert_ne!(MowOsStr::new(&mut pool, "ab"), MowOsStr::new_mut("ac"));
    assert_ne!(MowOsStr::new_mut("ab"), MowOsStr::new_mut("ac"));
    assert_eq!(MowOsStr::new_mut("ab"), MowOsStr::new_mut("ab"));
    assert_eq!(&*MowOsStr::new_mut("ab").into_boxed_os_str(), b"ab");
}

#[test]
fn mow_os_str_buffer_operations() {
    let mut pool = Pool::<[u8]>::new();
    let mut s = MowOsStr::new(&mut pool, "asd");
    s.reserve(10);
    assert!(s.is_mutable());
    s.reserve_exact(10);
    s.shrink_to_fit();
    assert_eq!(s, "asd");
    s.mut_os_str()[0] = b'A';
    s.as_mut_os_str()[1] = b'S';
    s.mut_os_string().push(b'!');
    s.as_mut_os_string().push(b'?');
    assert_eq!(s, "ASd!?");
    s.clear();
    assert_eq!(s.as_os_str(), b"");
    let mut t = MowOsStr::new(&mut pool, "asd");
    t.clear();
    assert!(t.is_mutable());
    let kept = IOsStr::new(&mut pool, "asd");
    assert_eq!(kept.as_os_str(), b"asd");
    let dup = t.clone_interned(&mut pool);
    assert!(dup.is_interned());
    assert_eq!(dup.as_os_str(), b"");
    let cell = MowOsStr::new_mut("asd").into_i_os_str(&mut pool);
    assert!(cell.ptr_eq(&kept));
}
