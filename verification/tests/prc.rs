use pstr::prc::Prc;

#[test]
fn prc_test_basic() {
    let prc = Prc::from_box(Box::new(1));
    assert_eq!(*prc, 1)
}

struct Foo(pub usize);

impl Drop for Foo {
    fn drop(&mut self) {
        println!("drop foo");
    }
}

#[test]
fn test_drop() {
    let prc = Prc::from_box(Box::new(Foo(123)));
    drop(prc);
}

#[test]
fn test_clone() {
    let prc = Prc::from_box(Box::new(Foo(123)));
    let prc2 = prc.clone();
    assert_eq!(Prc::<Foo>::strong_count(&prc2), 2);
    drop(prc);
    assert_eq!(Prc::<Foo>::strong_count(&prc2), 1);
    drop(prc2);
}

#[test]
fn prc_of_unsized_value() {
    let boxed: Box<str> = Box::from("asd");
    let prc: Prc<str> = Prc::from_box(boxed);
    assert_eq!(prc.get(), "asd");
    assert_eq!(&*prc, "asd");
    assert_eq!(Prc::strong_count(&prc), 1);
}

#[test]
fn prc_handles_on_one_cell_share_an_address() {
    let a = Prc::from_box(Box::new(7u64));
    let b = a.clone();
    let c = Prc::from_box(Box::new(7u64));
    assert_eq!(a.inner_ptr_usize(), b.inner_ptr_usize());
    assert_ne!(a.inner_ptr_usize(), c.inner_ptr_usize());
    assert!(a.ptr_eq(&b));
    assert!(!a.ptr_eq(&c));
    assert_eq!(*a.get(), 7);
    assert_eq!(*c.get(), 7);
}
