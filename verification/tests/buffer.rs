use consolet::Buffer;

#[test]
fn owned() {
    let mut buffer = Buffer::default();
    assert!(buffer.is_owned());
    assert!(!buffer.tty());

    buffer.write("test".as_bytes()).unwrap();
    assert_eq!("test".as_bytes(), buffer.as_slice());
}

#[test]
fn borrowed() {
    let bytes: Vec<u8> = Vec::new();
    let mut buffer = Buffer::from(Some(bytes), true);
    assert!(!buffer.is_owned());
    assert!(buffer.tty());

    buffer.write("test".as_bytes()).unwrap();
    let bytes = buffer.into_vec();
    assert_eq!("test".as_bytes(), bytes.as_slice());
}

#[test]
fn from_none_starts_empty_and_not_tty() {
    let buffer = Buffer::from(None, false);
    assert!(buffer.is_empty());
    assert_eq!(buffer.len(), 0);
    assert!(!buffer.tty());
    assert!(buffer.is_owned());
}

#[test]
fn supplied_storage_keeps_contents_and_reflects_writes() {
    let bytes: Vec<u8> = vec![1, 2, 3];
    let mut buffer = Buffer::from(Some(bytes), true);
    assert!(buffer.tty());
    buffer.write(&[4, 5]).unwrap();
    let bytes = buffer.into_vec();
    assert_eq!(bytes, vec![1, 2, 3, 4, 5]);
}

#[test]
fn default_equals_from_none_false() {
    let a = Buffer::default();
    let b = Buffer::from(None, false);
    assert_eq!(a.is_owned(), b.is_owned());
    assert_eq!(a.tty(), b.tty());
    assert_eq!(a.as_slice(), b.as_slice());
    assert_eq!(a.len(), b.len());
}

#[test]
fn write_returns_full_length() {
    let mut buffer = Buffer::default();
    let n = buffer.write(&[9, 8, 7]).unwrap();
    assert_eq!(n, 3);
}

#[test]
fn write_vectored_concatenates_in_order() {
    let mut buffer = Buffer::default();
    let parts: Vec<Vec<u8>> = vec![vec![1, 2], vec![], vec![3]];
    let n = buffer.write_vectored(&parts).unwrap();
    assert_eq!(n, 3);
    assert_eq!(buffer.as_slice(), &[1, 2, 3]);
}

#[test]
fn read_consumes_from_front_once() {
    let mut buffer = Buffer::from(Some(vec![10, 20, 30]), false);
    let first = buffer.read(2).unwrap();
    assert_eq!(first, vec![10, 20]);
    let second = buffer.read(2).unwrap();
    assert_eq!(second, vec![30]);
    let third = buffer.read(2).unwrap();
    assert!(third.is_empty());
    // Reading does not erase the logical contents.
    assert_eq!(buffer.as_slice(), &[10, 20, 30]);
}

#[test]
fn flush_changes_nothing() {
    let mut buffer = Buffer::default();
    buffer.write(&[1]).unwrap();
    buffer.flush().unwrap();
    assert_eq!(buffer.as_slice(), &[1]);
}
