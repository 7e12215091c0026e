use tkey_luks::enroll::{
    check_new_passphrase, current_passphrase, enrollment_signature_status, expect_status,
    parse_enroll_mode, parse_u8, plain_passphrase_frame, plain_signature_status, proxy_decision,
    proxy_payload, EnrollError, EnrollMode, PassphraseCheck, PlainPassphrase, ProxyDecision,
};
use tkey_luks::messages::{ClientError, ClientMessage, HostErr, HostMessage};

#[test]
fn slot_numbers_parse_like_str_parse() {
    for s in ["0", "7", "+7", "007", "255", "256", "-1", "", "+", "-", " 1", "1 ", "a", "12x", "٣", "99999999999"] {
        assert_eq!(parse_u8(s), s.parse::<u8>().ok(), "input {s:?}");
    }
}

#[test]
fn command_line_modes() {
    let args = |v: &[&str]| v.iter().map(|s| s.to_string()).collect::<Vec<String>>();
    assert_eq!(parse_enroll_mode(&args(&["enroll"])), EnrollMode { kill_slot: false, slot: None });
    assert_eq!(
        parse_enroll_mode(&args(&["enroll", "--kill-slot", "2"])),
        EnrollMode { kill_slot: true, slot: Some(2) }
    );
    assert_eq!(
        parse_enroll_mode(&args(&["enroll", "--kill-slot", "x"])),
        EnrollMode { kill_slot: true, slot: None }
    );
    assert_eq!(
        parse_enroll_mode(&args(&["enroll", "--other", "4"])),
        EnrollMode { kill_slot: false, slot: Some(4) }
    );
    assert_eq!(
        parse_enroll_mode(&args(&["enroll", "--kill-slot"])),
        EnrollMode { kill_slot: false, slot: None }
    );
}

#[test]
fn new_passphrase_checks() {
    assert_eq!(check_new_passphrase(b"abcdefgh", b"abcdefgi"), PassphraseCheck::Mismatch);
    assert_eq!(check_new_passphrase(b"abcdefg", b"abcdefg"), PassphraseCheck::BadLength);
    assert_eq!(check_new_passphrase(&[b'a'; 256], &[b'a'; 256]), PassphraseCheck::BadLength);
    assert_eq!(check_new_passphrase(b"abcdefgh", b"abcdefgh"), PassphraseCheck::Accepted);
    assert_eq!(check_new_passphrase(&[b'a'; 255], &[b'a'; 255]), PassphraseCheck::Accepted);
}

#[test]
fn plain_passphrase_frames() {
    assert!(matches!(plain_passphrase_frame(b"a", b"b"), PlainPassphrase::Mismatch));
    assert!(matches!(plain_passphrase_frame(&[1u8; 256], &[1u8; 256]), PlainPassphrase::TooLong));
    match plain_passphrase_frame(b"pass", b"pass") {
        PlainPassphrase::Frame(f) => assert_eq!(f, vec![4, b'p', b'a', b's', b's']),
        other => panic!("{:?}", other),
    }
}

#[test]
fn current_passphrase_must_be_utf8() {
    assert_eq!(current_passphrase("pässword".as_bytes().to_vec()).unwrap(), "pässword");
    assert_eq!(current_passphrase(vec![0xff, 0xfe]), Err(HostErr::StringParseError));
}

#[test]
fn proxy_decisions() {
    assert!(matches!(proxy_decision(Ok(HostMessage::TpmSigned), false), Ok(ProxyDecision::ForwardSignature)));
    assert!(matches!(proxy_decision(Ok(HostMessage::TpmSigned), true), Ok(ProxyDecision::ForwardSignature)));
    assert!(matches!(proxy_decision(Err(HostErr::TpmRefusedToSign), false), Ok(ProxyDecision::ForwardRefusal)));
    assert!(matches!(proxy_decision(Err(HostErr::TpmRefusedToSign), true), Err(EnrollError::RefusedUnenrolled)));
    assert!(matches!(
        proxy_decision(Ok(HostMessage::DecryptionSuccess), false),
        Err(EnrollError::Client(ClientError::OutOfsync))
    ));
    assert!(matches!(
        proxy_decision(Err(HostErr::UnknownError), false),
        Err(EnrollError::Client(ClientError::OutOfsync))
    ));
}

#[test]
fn signature_statuses_during_enrollment() {
    assert!(matches!(enrollment_signature_status(Ok(ClientMessage::GoodSig)), Ok(true)));
    assert!(matches!(enrollment_signature_status(Err(ClientError::InvalidSig)), Ok(false)));
    assert!(matches!(enrollment_signature_status(Ok(ClientMessage::Ready4pass)), Err(EnrollError::SignatureOutOfSync)));
    assert!(matches!(
        enrollment_signature_status(Err(ClientError::BadPubkey)),
        Err(EnrollError::Client(ClientError::BadPubkey))
    ));
    assert!(matches!(plain_signature_status(Ok(ClientMessage::GoodSig)), Ok(true)));
    assert!(matches!(plain_signature_status(Err(ClientError::InvalidSig)), Ok(false)));
    assert!(matches!(plain_signature_status(Err(ClientError::BadPubkey)), Err(ClientError::OutOfsync)));
}

#[test]
fn expected_statuses() {
    assert!(expect_status(Ok(ClientMessage::Ready4pass), ClientMessage::Ready4pass).is_ok());
    assert!(matches!(expect_status(Ok(ClientMessage::GoodSig), ClientMessage::Ready4pass), Err(ClientError::OutOfsync)));
    assert!(matches!(expect_status(Err(ClientError::PassLen), ClientMessage::GoodPass), Err(ClientError::PassLen)));
}

#[test]
fn proxy_payloads() {
    let keyfile = [9u8; 32];
    let p = proxy_payload(EnrollMode { kill_slot: false, slot: None }, b"oldpass", &keyfile).unwrap();
    assert_eq!(p[0], 7);
    assert_eq!(&p[1..8], b"oldpass");
    assert_eq!(&p[8..], &keyfile);
    let p = proxy_payload(EnrollMode { kill_slot: true, slot: Some(3) }, b"ignored", &keyfile).unwrap();
    assert_eq!(p[0], 3);
    assert_eq!(&p[1..], &keyfile);
    assert_eq!(proxy_payload(EnrollMode { kill_slot: true, slot: None }, b"", &keyfile), None);
    let long = vec![b'p'; 300];
    let p = proxy_payload(EnrollMode { kill_slot: false, slot: None }, &long, &keyfile).unwrap();
    assert_eq!(p[0], 44);
    assert_eq!(p.len(), 1 + 300 + 32);
}

#[test]
fn enroll_error_texts() {
    assert_eq!(
        EnrollError::SignatureOutOfSync.message(),
        "tkey and host are out of sync (but sig is fine?) restart app."
    );
    assert_eq!(
        EnrollError::RefusedUnenrolled.message(),
        "refusing to continue, current binary isn't enrolled with TPM"
    );
    assert_eq!(EnrollError::Client(ClientError::OutOfsync).message(), "host and tkey are out of sync, restart app.");
}
