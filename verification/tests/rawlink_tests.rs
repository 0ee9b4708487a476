//! Tests of the nullable-link utility's `Option`-esque interface.

use idt_core::rawlink::RawLink;

#[test]
fn none_is_none() {
    let link: RawLink<u32> = RawLink::none();
    assert!(link.is_none());
    assert!(!link.is_some());
}

#[test]
fn some_is_some() {
    let mut value: u32 = 7;
    let link = RawLink::some(&mut value);
    assert!(link.is_some());
    assert!(!link.is_none());
    assert_eq!(value, 7);
}

#[test]
fn take_leaves_none() {
    let mut value: u32 = 7;
    let mut link = RawLink::some(&mut value);
    let taken = link.take();
    assert!(taken.is_some());
    assert!(link.is_none());
}

#[test]
fn take_of_none_stays_none() {
    let mut link: RawLink<u32> = RawLink::none();
    let taken = link.take();
    assert!(taken.is_none());
    assert!(link.is_none());
}

#[test]
fn default_is_none() {
    let link: RawLink<u32> = Default::default();
    assert!(link.is_none());
}
