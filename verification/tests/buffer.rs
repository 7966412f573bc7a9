use gssctx::{Buf, BufRef};

#[test]
fn empty_buffer_is_null() {
    let b = Buf::empty();
    assert!(b.is_null());
    assert_eq!(b.len(), 0);
    assert_eq!(b, Buf { value: 0, length: 0 });
}

#[test]
fn releasing_an_empty_buffer_is_a_no_op() {
    let mut b = Buf::empty();
    assert_eq!(b.release(), None);
    assert_eq!(b, Buf::empty());
}

#[test]
fn a_filled_buffer_is_released_once() {
    let mut b = Buf { value: 0x7f00_1000, length: 12 };
    assert!(!b.is_null());
    assert_eq!(b.release(), Some(Buf { value: 0x7f00_1000, length: 12 }));
    assert_eq!(b, Buf::empty());
    assert_eq!(b.release(), None);
    assert_eq!(b.release(), None);
}

#[test]
fn a_filled_buffer_of_length_zero_is_still_released() {
    let mut b = Buf { value: 0x10, length: 0 };
    assert_eq!(b.release(), Some(Buf { value: 0x10, length: 0 }));
    assert!(b.is_null());
}

#[test]
fn a_borrowed_view_shows_the_callers_bytes() {
    let bytes = [1u8, 2, 3];
    let view = BufRef::new(&bytes);
    assert_eq!(view.len(), 3);
    assert_eq!(view.borrow(), &[1u8, 2, 3][..]);
    let none: [u8; 0] = [];
    assert_eq!(BufRef::new(&none).len(), 0);
}
