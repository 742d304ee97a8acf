use consolet::BOOL;
use consolet::ENABLE_VIRTUAL_TERMINAL_PROCESSING;
use consolet::ErrorKind;
use consolet::Negotiation;
use consolet::enable_ansi_escape_sequences;
use consolet::negotiate_mode_queried;
use consolet::negotiate_mode_set;
use consolet::negotiate_start;

#[test]
fn can_enable_ansi_escape_sequences() {
    // This is unlikely to fail but here to test the definition across platforms.
    enable_ansi_escape_sequences().unwrap();
}

#[test]
fn bool_compatible() {
    let b = BOOL(0);
    assert_eq!(false, b.into());

    let b = BOOL(1);
    assert_eq!(true, b.into());
}

#[test]
fn non_terminal_succeeds_without_any_call() {
    match negotiate_start(false) {
        Negotiation::Complete(r) => assert!(r.is_ok()),
        _ => panic!("a non-terminal handle must complete at once"),
    }
}

#[test]
fn terminal_queries_the_mode_first() {
    match negotiate_start(true) {
        Negotiation::QueryMode => {}
        _ => panic!("a terminal handle must have its mode queried"),
    }
}

#[test]
fn failed_query_reports_last_error_and_sets_nothing() {
    match negotiate_mode_queried(Err(6)) {
        Negotiation::Complete(r) => {
            let e = r.unwrap_err();
            assert_eq!(*e.kind(), ErrorKind::Os(6));
        }
        _ => panic!("a failed query must end the negotiation"),
    }
}

#[test]
fn queried_mode_is_set_back_with_the_escape_bit() {
    match negotiate_mode_queried(Ok(1)) {
        Negotiation::SetMode(mode) => {
            assert_eq!(mode, 1 | ENABLE_VIRTUAL_TERMINAL_PROCESSING);
            assert_eq!(mode, 5);
        }
        _ => panic!("a queried mode must be written back"),
    }
}

#[test]
fn mode_set_outcome_completes_the_negotiation() {
    match negotiate_mode_set(Ok(())) {
        Negotiation::Complete(r) => assert!(r.is_ok()),
        _ => panic!("a successful set must complete the negotiation"),
    }
    match negotiate_mode_set(Err(87)) {
        Negotiation::Complete(r) => {
            let e = r.unwrap_err();
            assert_eq!(*e.kind(), ErrorKind::Os(87));
        }
        _ => panic!("a failed set must complete the negotiation"),
    }
}
