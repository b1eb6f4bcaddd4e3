use srt::error::Error;

#[test]
fn would_block_codes() {
    for code in [6000, 6001, 6002] {
        let e = Error::from_code(code);
        assert_eq!(e, Error::WouldBlock { code });
        assert!(e.is_would_block());
    }
}

#[test]
fn other_codes_are_transport_errors() {
    for code in [-1, 0, 1001, 1002, 5013, 5999, 6003, 6004, 7000] {
        let e = Error::from_code(code);
        assert_eq!(e, Error::Transport { code });
        assert!(!e.is_would_block());
    }
}

#[test]
fn registration_errors_are_not_would_block() {
    assert!(!Error::AlreadyRegistered { sock: 3 }.is_would_block());
    assert!(!Error::NotRegistered { sock: 3 }.is_would_block());
}
