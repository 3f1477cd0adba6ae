use pstr::ffi::IOsStr;
use pstr::ffi::MowOsStr;
use pstr::pool::Pool;
use pstr::IStr;
use pstr::Interning;
use pstr::MowStr;
use pstr::Muterning;
use std::rc::Rc;
use std::sync::Arc;

#[test]
fn interned_reaches_one_cell_from_every_type() {
    let mut pool = Pool::<str>::new();
    let a: IStr = "a".interned(&mut pool);
    let b: IStr = 'a'.interned(&mut pool);
    let c: IStr = String::from("a").interned(&mut pool);
    let d: IStr = Box::<str>::from("a").interned(&mut pool);
    let e: IStr = Arc::<str>::from("a").interned(&mut pool);
    let f: IStr = Rc::<str>::from("a").interned(&mut pool);
    let g: IStr = a.clone().interned(&mut pool);
    for other in [&b, &c, &d, &e, &f, &g] {
        assert!(a.ptr_eq(other));
    }
    let m: MowStr = MowStr::new_mut("a").interned(&mut pool);
    assert!(m.is_interned());
    assert!(m.try_istr().unwrap().ptr_eq(&a));
    assert_eq!(pool.len(), 1);
}

#[test]
fn interned_wide_character() {
    let mut pool = Pool::<str>::new();
    let a: IStr = '日'.interned(&mut pool);
    assert_eq!(a, "日");
    let m: MowStr = '日'.muterned();
    assert!(m.is_mutable());
    assert_eq!(m, "日");
}

#[test]
fn muterned_makes_private_buffers() {
    let mut pool = Pool::<str>::new();
    let made: [MowStr; 7] = [
        "a".muterned(),
        'a'.muterned(),
        String::from("a").muterned(),
        Box::<str>::from("a").muterned(),
        Arc::<str>::from("a").muterned(),
        Rc::<str>::from("a").muterned(),
        IStr::new(&mut pool, "a").muterned(),
    ];
    for m in &made {
        assert!(m.is_mutable());
        assert_eq!(m.as_str(), "a");
    }
    let shared = MowStr::new(&mut pool, "a").muterned();
    assert!(shared.is_mutable());
    assert_eq!(shared, "a");
}

#[test]
fn os_strings_interned_and_muterned() {
    let mut pool = Pool::<[u8]>::new();
    let raw: &[u8] = b"a\xff";
    let a: IOsStr = raw.interned(&mut pool);
    let b: IOsStr = raw.to_vec().interned(&mut pool);
    let c: IOsStr = Box::<[u8]>::from(raw).interned(&mut pool);
    let d: IOsStr = Arc::<[u8]>::from(raw).interned(&mut pool);
    let e: IOsStr = Rc::<[u8]>::from(raw).interned(&mut pool);
    let f: IOsStr = a.clone().interned(&mut pool);
    for other in [&b, &c, &d, &e, &f] {
        assert!(a.ptr_eq(other));
    }
    let m: MowOsStr = MowOsStr::new_mut(raw).interned(&mut pool);
    assert!(m.is_interned());
    assert_eq!(pool.len(), 1);
    let made: [MowOsStr; 5] = [
        raw.muterned(),
        raw.to_vec().muterned(),
        Box::<[u8]>::from(raw).muterned(),
        Arc::<[u8]>::from(raw).muterned(),
        Rc::<[u8]>::from(raw).muterned(),
    ];
    for m in &made {
        assert!(m.is_mutable());
        assert_eq!(m.as_os_str(), raw);
    }
    let from_cell: MowOsStr = a.clone().muterned();
    assert!(from_cell.is_interned());
    assert_eq!(from_cell.as_os_str(), raw);
    let same: MowOsStr = MowOsStr::new(&mut pool, raw).muterned();
    assert!(same.is_interned());
}
