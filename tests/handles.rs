use malloc_core::res_man::{TrBoxed, TrShared, TrUnique};
use malloc_core::std_global::StdGlobalAlloc;
use std::rc::Rc;
use std::sync::Arc;

fn counts<H: TrShared>(h: &H) -> (usize, usize) {
    (h.strong_count(), h.weak_count())
}

fn overwrite<H: TrUnique<Target = u32>>(h: &mut H, v: u32) {
    **h = v;
}

#[test]
fn rc_clone_twice_counts_three() {
    let a = Rc::new(5u32);
    assert_eq!(counts(&a), (1, 0));
    let b = a.clone();
    let c = b.clone();
    assert_eq!(TrShared::strong_count(&a), 3);
    assert_eq!(TrShared::weak_count(&a), 0);
    assert_eq!(counts(&c), (3, 0));
    drop(b);
    assert_eq!(counts(&a), (2, 0));
}

#[test]
fn arc_clone_twice_counts_three() {
    let a = Arc::new(String::from("x"));
    let b = a.clone();
    let c = a.clone();
    assert_eq!(TrShared::strong_count(&a), 3);
    assert_eq!(TrShared::weak_count(&a), 0);
    assert_eq!(counts(&b), (3, 0));
    drop(c);
    assert_eq!(counts(&a), (2, 0));
}

#[test]
fn weak_references_are_counted_apart() {
    let a = Rc::new(1u8);
    let w = Rc::downgrade(&a);
    let b = a.clone();
    assert_eq!(counts(&a), (2, 1));
    drop(w);
    assert_eq!(counts(&b), (2, 0));
    let x = Arc::new(1u8);
    let _w1 = Arc::downgrade(&x);
    let _w2 = Arc::downgrade(&x);
    assert_eq!(counts(&x), (1, 2));
}

#[test]
fn box_grants_mutable_access() {
    let mut b = Box::new(3u32);
    overwrite(&mut b, 11);
    assert_eq!(*b, 11);
}

#[test]
fn handles_report_the_global_allocator() {
    let g = StdGlobalAlloc::shared();
    let r = Rc::new(0i32);
    let a = Arc::new(0i32);
    let b = Box::new(0i32);
    assert!(std::ptr::eq(r.malloc(), g));
    assert!(std::ptr::eq(TrBoxed::malloc(&a), g));
    assert!(std::ptr::eq(TrBoxed::malloc(&b), g));
}
