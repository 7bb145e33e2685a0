use borrow_or_share::Bos;
use std::borrow::Cow;
use std::rc::Rc;
use std::sync::Arc;

// Owning implementers: the reference obtained through the accessor is the
// one obtained by borrowing the target view directly from the value, by
// address and by content.

#[test]
fn owning_string_matches_direct_borrow() {
    let b = String::from("hello");
    let r: &str = Bos::borrow_or_share(&b);
    assert_eq!(r, b.as_str());
    assert!(std::ptr::eq(r, b.as_str()));
}

#[test]
fn owning_vec_matches_direct_borrow() {
    let b = vec![1u32, 2, 3];
    let r: &[u32] = Bos::borrow_or_share(&b);
    assert_eq!(r, b.as_slice());
    assert!(std::ptr::eq(r, b.as_slice()));
}

#[test]
fn owning_array_matches_direct_borrow() {
    let b = [9u8, 8];
    let r: &[u8] = Bos::borrow_or_share(&b);
    assert_eq!(r, b.as_slice());
    assert!(std::ptr::eq(r, b.as_slice()));
}

#[test]
fn owning_box_matches_direct_borrow() {
    let b = Box::new(41u64);
    let r: &u64 = Bos::borrow_or_share(&b);
    assert_eq!(*r, 41);
    assert!(std::ptr::eq(r, &*b));
}

#[test]
fn owning_boxed_text_matches_direct_borrow() {
    let b: Box<str> = String::from("boxed").into_boxed_str();
    let r: &str = Bos::borrow_or_share(&b);
    assert_eq!(r, &*b);
    assert!(std::ptr::eq(r, &*b));
}

#[test]
fn owning_shared_slice_matches_direct_borrow() {
    let b: Rc<[u8]> = Rc::from(vec![1u8, 2, 3]);
    let r: &[u8] = Bos::borrow_or_share(&b);
    assert_eq!(r, &[1, 2, 3]);
    assert!(std::ptr::eq(r, &*b));
}

#[test]
fn owning_rc_matches_direct_borrow() {
    let b = Rc::new(5i16);
    let r: &i16 = Bos::borrow_or_share(&b);
    assert_eq!(*r, 5);
    assert!(std::ptr::eq(r, &*b));
}

#[test]
fn owning_arc_matches_direct_borrow() {
    let b = Arc::new(6i64);
    let r: &i64 = Bos::borrow_or_share(&b);
    assert_eq!(*r, 6);
    assert!(std::ptr::eq(r, &*b));
}

#[test]
fn owning_mut_reference_matches_reborrow() {
    let mut x: u32 = 12;
    let held = &mut x;
    let r: &u32 = Bos::borrow_or_share(&held);
    assert_eq!(*r, 12);
    assert!(std::ptr::eq(r, &*held));
}

#[test]
fn owning_cow_owned_value_matches_direct_borrow() {
    let b: Cow<'_, u32> = Cow::Owned(3);
    let r: &u32 = Bos::borrow_or_share(&b);
    assert_eq!(*r, 3);
    assert!(std::ptr::eq(r, &*b));
}

#[test]
fn owning_cow_slice_matches_direct_borrow() {
    let b: Cow<'_, [u8]> = Cow::Owned(vec![1, 2]);
    let r: &[u8] = Bos::borrow_or_share(&b);
    assert_eq!(r, &[1, 2]);
    assert!(std::ptr::eq(r, &*b));
}

// The reference-holding implementer: the reference obtained is the stored
// reference itself, unchanged.

#[test]
fn reference_holding_returns_stored_reference() {
    let x: u64 = 17;
    let held: &u64 = &x;
    let r: &u64 = Bos::borrow_or_share(&held);
    assert_eq!(*r, 17);
    assert!(std::ptr::eq(r, held));
}

// Idempotence: two invocations on the same unmodified value yield equal
// references.

#[test]
fn accessor_idempotent_on_owning_value() {
    let b = String::from("twice");
    let r1: &str = Bos::borrow_or_share(&b);
    let r2: &str = Bos::borrow_or_share(&b);
    assert_eq!(r1, r2);
    assert!(std::ptr::eq(r1, r2));
}

#[test]
fn accessor_idempotent_on_reference_holding_value() {
    let x: i8 = -1;
    let held: &i8 = &x;
    let r1: &i8 = Bos::borrow_or_share(&held);
    let r2: &i8 = Bos::borrow_or_share(&held);
    assert_eq!(*r1, *r2);
    assert!(std::ptr::eq(r1, r2));
}
