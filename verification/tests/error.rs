use consolet::Error;
use consolet::ErrorKind;

#[test]
fn io_failure_converts_to_io_kind() {
    let io = std::io::Error::new(std::io::ErrorKind::Other, "boom");
    let e = Error::from_io(io);
    assert_eq!(*e.kind(), ErrorKind::Io);
    assert_eq!(e.message(), None);
    assert_eq!(e.cause(), Some("boom"));
}

#[test]
fn utf8_failure_converts_to_invalid_data_kind() {
    let bad = String::from_utf8(vec![0xff, 0xfe]).unwrap_err();
    let e = Error::from_utf8(bad);
    assert_eq!(*e.kind(), ErrorKind::InvalidData);
    assert_eq!(e.message(), None);
}

#[test]
fn os_code_converts_to_os_kind() {
    let e = Error::from_os_code(3);
    assert_eq!(*e.kind(), ErrorKind::Os(3));
    assert_eq!(e.message(), None);
    let e = Error::from_os_code(0);
    assert_eq!(*e.kind(), ErrorKind::Os(0));
}

#[test]
fn with_message_keeps_kind_and_message() {
    let e = Error::with_message(ErrorKind::Other, String::from("x"));
    assert_eq!(*e.kind(), ErrorKind::Other);
    assert_eq!(e.message(), Some("x"));
    assert_eq!(e.cause(), None);
    assert_eq!(e.display_string(), "x");
}

#[test]
fn with_message_fn_defers_message_construction() {
    let e = Error::with_message_fn(ErrorKind::InvalidData, || String::from("deferred"));
    assert_eq!(*e.kind(), ErrorKind::InvalidData);
    assert_eq!(e.message(), Some("deferred"));
    assert_eq!(e.display_string(), "deferred");
}

#[test]
fn new_keeps_kind_and_displays_the_cause() {
    let e = Error::new(ErrorKind::Io, String::from("underlying cause"));
    assert_eq!(*e.kind(), ErrorKind::Io);
    assert_eq!(e.message(), None);
    assert_eq!(e.cause(), Some("underlying cause"));
    assert_eq!(e.display_string(), "underlying cause");
}

#[test]
fn bare_kind_displays_its_symbolic_name() {
    assert_eq!(Error::from_kind(ErrorKind::InvalidData).display_string(), "InvalidData");
    assert_eq!(Error::from_kind(ErrorKind::Io).display_string(), "Io");
    assert_eq!(Error::from_kind(ErrorKind::Other).display_string(), "Other");
    assert_eq!(Error::from_kind(ErrorKind::Os(231)).display_string(), "Os(231)");
}

#[test]
fn os_code_display_handles_signs_and_extremes() {
    assert_eq!(Error::from_kind(ErrorKind::Os(0)).display_string(), "Os(0)");
    assert_eq!(Error::from_kind(ErrorKind::Os(-12)).display_string(), "Os(-12)");
    assert_eq!(Error::from_kind(ErrorKind::Os(i32::MAX)).display_string(), "Os(2147483647)");
    assert_eq!(Error::from_kind(ErrorKind::Os(i32::MIN)).display_string(), "Os(-2147483648)");
}

#[test]
fn negative_os_code_round_trips_through_u32() {
    // A raw status code handed over as u32 keeps its bit pattern.
    let e = Error::from_os_code(u32::MAX);
    assert_eq!(*e.kind(), ErrorKind::Os(-1));
}
