use pstr::ffi::IOsStr;
use pstr::ffi::MowOsStr;
use pstr::pool::Pool;
use pstr::text::bytes_eq;
use pstr::text::str_eq;
use pstr::text::AsOsStr;
use pstr::text::AsStr;
use pstr::IStr;
use pstr::MowStr;
use std::rc::Rc;
use std::sync::Arc;

#[test]
fn text_into_owned_forms() {
    let mut pool = Pool::<str>::new();
    let s = IStr::new(&mut pool, "héllo");
    let cell = s.clone().into_arc();
    assert_eq!(&*cell, "héllo");
    assert!(!Arc::ptr_eq(&cell, &s.as_intern().clone().into_arc()));
    assert_eq!(s.clone().into_bytes(), "héllo".as_bytes().to_vec());
    let shared = MowStr::new(&mut pool, "héllo");
    assert_eq!(&*shared.into_arc(), "héllo");
    assert_eq!(&*MowStr::new_mut("héllo").into_arc(), "héllo");
    assert_eq!(MowStr::new(&mut pool, "héllo").into_bytes(), "héllo".as_bytes().to_vec());
    assert_eq!(MowStr::new_mut("").into_bytes(), Vec::<u8>::new());
}

#[test]
fn os_strings_into_shared_cells() {
    let mut pool = Pool::<[u8]>::new();
    let s = IOsStr::new(&mut pool, &b"a\xff"[..]);
    let cell = s.clone().into_arc();
    assert!(Arc::ptr_eq(&cell, &s.as_intern().clone().into_arc()));
    let shared = MowOsStr::new(&mut pool, &b"a\xff"[..]);
    assert!(Arc::ptr_eq(&shared.into_arc(), &cell));
    let exclusive = MowOsStr::new_mut(&b"a\xff"[..]);
    let own = exclusive.into_arc();
    assert_eq!(&*own, b"a\xff");
    assert!(!Arc::ptr_eq(&own, &cell));
}

#[test]
fn equality_of_plain_strings() {
    assert!(str_eq("", ""));
    assert!(str_eq("héllo", "héllo"));
    assert!(!str_eq("héllo", "hello"));
    assert!(!str_eq("a", "ab"));
    assert!(bytes_eq(b"", b""));
    assert!(bytes_eq(b"a\xff", b"a\xff"));
    assert!(!bytes_eq(b"a\xff", b"a\xfe"));
    assert!(!bytes_eq(b"a", b""));
}

#[test]
fn every_holder_lends_its_content() {
    let mut pool = Pool::<str>::new();
    let mut os_pool = Pool::<[u8]>::new();
    assert_eq!("a".as_str_ref(), "a");
    assert_eq!(String::from("a").as_str_ref(), "a");
    assert_eq!(Box::<str>::from("a").as_str_ref(), "a");
    assert_eq!(Arc::<str>::from("a").as_str_ref(), "a");
    assert_eq!(Rc::<str>::from("a").as_str_ref(), "a");
    assert_eq!(IStr::new(&mut pool, "a").as_str_ref(), "a");
    assert_eq!(MowStr::new_mut("a").as_str_ref(), "a");
    let raw: &[u8] = b"a\xff";
    assert_eq!(raw.as_os_str_ref(), raw);
    assert_eq!(raw.to_vec().as_os_str_ref(), raw);
    assert_eq!(Box::<[u8]>::from(raw).as_os_str_ref(), raw);
    assert_eq!(Arc::<[u8]>::from(raw).as_os_str_ref(), raw);
    assert_eq!(Rc::<[u8]>::from(raw).as_os_str_ref(), raw);
    assert_eq!("é".as_os_str_ref(), "é".as_bytes());
    assert_eq!(String::from("é").as_os_str_ref(), "é".as_bytes());
    assert_eq!(IOsStr::new(&mut os_pool, raw).as_os_str_ref(), raw);
    assert_eq!(MowOsStr::new_mut(raw).as_os_str_ref(), raw);
}
