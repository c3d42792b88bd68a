use wasmvm::memory::{Buffer, ByteSliceView};

#[test]
fn view_of_nothing_is_missing() {
    let view = ByteSliceView::new(None);
    assert!(view.read().is_none());
}

#[test]
fn view_of_zero_bytes_is_present() {
    let empty: &[u8] = &[];
    let view = ByteSliceView::new(Some(empty));
    assert_eq!(view.read(), Some(empty));
}

#[test]
fn view_shows_the_bytes_it_was_made_of() {
    let bytes: &[u8] = b"staking";
    let view = ByteSliceView::new(Some(bytes));
    assert_eq!(view.read(), Some(bytes));
    // a view is a copyable borrow: reading twice gives the same bytes
    let again = view;
    assert_eq!(again.read(), Some(bytes));
    assert_eq!(view.read(), Some(bytes));
}

#[test]
fn default_buffer_holds_nothing() {
    let buffer = Buffer::default();
    assert_eq!(buffer.len(), 0);
    assert!(buffer.is_empty());
    assert!(buffer.read().is_none());
    assert_eq!(buffer.consume(), Vec::<u8>::new());
}

#[test]
fn buffer_from_empty_vec_is_the_no_data_value() {
    let buffer = Buffer::from_vec(Vec::new());
    assert_eq!(buffer.len(), 0);
    assert!(buffer.is_empty());
    assert!(buffer.read().is_none());
}

#[test]
fn buffer_keeps_its_bytes() {
    let buffer = Buffer::from_vec(vec![0xF0, 0x0B, 0xAA]);
    assert_eq!(buffer.len(), 3);
    assert!(!buffer.is_empty());
    let expected: &[u8] = &[0xF0, 0x0B, 0xAA];
    assert_eq!(buffer.read(), Some(expected));
    assert_eq!(buffer.consume(), vec![0xF0, 0x0B, 0xAA]);
}

#[test]
fn buffer_of_one_zero_byte_is_not_empty() {
    let buffer = Buffer::from_vec(vec![0]);
    assert_eq!(buffer.len(), 1);
    assert!(!buffer.is_empty());
    assert_eq!(buffer.consume(), vec![0]);
}
