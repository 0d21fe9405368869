use unisock::message::copy_message;

#[test]
fn short_message_leaves_the_rest_of_the_buffer() {
    let mut buf = [9u8; 8];
    let n = copy_message(&mut buf, b"hello");
    assert_eq!(n, 5);
    assert_eq!(buf, [b'h', b'e', b'l', b'l', b'o', 9, 9, 9]);
}

#[test]
fn long_message_is_cut_to_the_buffer() {
    let mut buf = [0u8; 3];
    let n = copy_message(&mut buf, b"world");
    assert_eq!(n, 3);
    assert_eq!(&buf, b"wor");
}

#[test]
fn message_that_fits_exactly() {
    let mut buf = [0u8; 5];
    let n = copy_message(&mut buf, b"hello");
    assert_eq!(n, 5);
    assert_eq!(&buf, b"hello");
}

#[test]
fn empty_message_changes_nothing() {
    let mut buf = [1u8, 2, 3];
    let n = copy_message(&mut buf, &[]);
    assert_eq!(n, 0);
    assert_eq!(buf, [1, 2, 3]);
}

#[test]
fn empty_buffer_takes_nothing() {
    let mut buf: [u8; 0] = [];
    let n = copy_message(&mut buf, b"hello");
    assert_eq!(n, 0);
}
