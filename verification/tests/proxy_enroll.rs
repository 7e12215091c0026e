use chacha20::cipher::{KeyIvInit, StreamCipher};
use tkey_luks::enroll::{EnrollError, EnrollMode};
use tkey_luks::messages::{ClientError, ClientMessage};
use tkey_luks::proxy_enroll::{EnrollOutcome, EnrollStep, ProxyEnrollment};
use tkey_luks::session::SessionCipher;

const SALT: &[u8] = b"0123456789abcdef";
const KEY: [u8; 32] = [2u8; 32];
const NONCE: [u8; 12] = [4u8; 12];

fn keystream_xor(data: &[u8]) -> Vec<u8> {
    let mut c = chacha20::ChaCha20::new(&KEY.into(), &NONCE.into());
    let mut out = data.to_vec();
    c.apply_keystream(&mut out);
    out
}

/// Runs an enrollment up to the keyfile; returns it, the channel and the
/// keyfile the TKey would have sent (sealed) and meant (plain).
fn up_to_keyfile(mode: EnrollMode) -> (ProxyEnrollment, SessionCipher) {
    let mut e = ProxyEnrollment::new(mode);
    assert!(matches!(e.start().as_slice(), [EnrollStep::ReadStatus]));
    let s = e.on_status(Ok(ClientMessage::Ready4pass));
    assert!(matches!(s.as_slice(), [EnrollStep::AskNewPassphrase { after_mismatch: false }]));
    let mut cipher = SessionCipher::new(KEY, NONCE);
    let s = e.on_passphrases(b"new passphrase", b"new passphrasf", SALT, &mut cipher);
    assert!(matches!(s.as_slice(), [EnrollStep::AskNewPassphrase { after_mismatch: true }]));
    let s = e.on_passphrases(b"short", b"short", SALT, &mut cipher);
    assert!(matches!(s.as_slice(), [EnrollStep::AskNewPassphrase { after_mismatch: false }]));
    assert_eq!(cipher.keystream_used(), 0);
    let s = e.on_passphrases(b"new passphrase", b"new passphrase", SALT, &mut cipher);
    assert!(matches!(s.as_slice(), [EnrollStep::Write(b), EnrollStep::ReadStatus] if b.len() == 32));
    assert!(matches!(e.on_status(Ok(ClientMessage::GoodPass)).as_slice(), [EnrollStep::ReadKeyfile]));
    (e, cipher)
}

#[test]
fn adding_a_slot_sends_passphrase_and_keyfile() {
    let (mut e, mut cipher) = up_to_keyfile(EnrollMode { kill_slot: false, slot: None });
    let sealed = [0x5eu8; 32];
    let keyfile = keystream_xor(&[[0u8; 32], sealed].concat())[32..].to_vec();
    let s = e.on_keyfile(&sealed, &mut cipher);
    assert!(matches!(s.as_slice(), [EnrollStep::AskCurrentPassphrase]));
    let s = e.on_current_passphrase(b"old pass");
    match s.as_slice() {
        [EnrollStep::SendToProxy(p), EnrollStep::AwaitProxy] => {
            let mut expected = vec![8u8];
            expected.extend_from_slice(b"old pass");
            expected.extend_from_slice(&keyfile);
            assert_eq!(p, &expected);
        }
        other => panic!("unexpected {:?}", other),
    }
    let s = e.on_proxy(true);
    assert!(matches!(s.as_slice(), [EnrollStep::Write(b), EnrollStep::Finish(EnrollOutcome::Enrolled)] if b.as_slice() == [0x99u8]));
}

#[test]
fn removing_a_slot_sends_slot_and_keyfile() {
    let (mut e, mut cipher) = up_to_keyfile(EnrollMode { kill_slot: true, slot: Some(3) });
    let sealed = [0x11u8; 32];
    let keyfile = keystream_xor(&[[0u8; 32], sealed].concat())[32..].to_vec();
    let s = e.on_keyfile(&sealed, &mut cipher);
    match s.as_slice() {
        [EnrollStep::SendToProxy(p), EnrollStep::AwaitProxy] => {
            let mut expected = vec![3u8];
            expected.extend_from_slice(&keyfile);
            assert_eq!(p, &expected);
        }
        other => panic!("unexpected {:?}", other),
    }
    assert!(matches!(e.on_proxy(false).as_slice(), [EnrollStep::Finish(EnrollOutcome::ProxyFailed)]));
}

#[test]
fn not_ready_stops_enrollment() {
    let mut e = ProxyEnrollment::new(EnrollMode { kill_slot: false, slot: None });
    e.start();
    let s = e.on_status(Ok(ClientMessage::GoodSig));
    assert!(matches!(
        s.as_slice(),
        [EnrollStep::Finish(EnrollOutcome::Failed(EnrollError::Client(ClientError::OutOfsync)))]
    ));
}

#[test]
fn error_after_passphrase_stops_enrollment() {
    let mut e = ProxyEnrollment::new(EnrollMode { kill_slot: false, slot: None });
    e.start();
    e.on_status(Ok(ClientMessage::Ready4pass));
    let mut cipher = SessionCipher::new(KEY, NONCE);
    e.on_passphrases(b"new passphrase", b"new passphrase", SALT, &mut cipher);
    let s = e.on_status(Err(ClientError::Blake2));
    assert!(matches!(
        s.as_slice(),
        [EnrollStep::Finish(EnrollOutcome::Failed(EnrollError::Client(ClientError::Blake2)))]
    ));
}

#[test]
fn refused_salt_stops_enrollment() {
    let mut e = ProxyEnrollment::new(EnrollMode { kill_slot: false, slot: None });
    e.start();
    e.on_status(Ok(ClientMessage::Ready4pass));
    let mut cipher = SessionCipher::new(KEY, NONCE);
    let s = e.on_passphrases(b"new passphrase", b"new passphrase", b"salt", &mut cipher);
    assert!(matches!(
        s.as_slice(),
        [EnrollStep::Finish(EnrollOutcome::Failed(EnrollError::Client(ClientError::UnknownError)))]
    ));
}
