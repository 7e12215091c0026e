use blake2::digest::Mac;
use p256::ecdsa::signature::Signer;
use p256::pkcs8::EncodePublicKey;
use tkey_luks::firmware::{Command, Event, Led, TkeyApp};
use tkey_luks::session::{get_argon2, submit_passphrase, HostKeyShare, SessionCipher};

const SALT: &[u8] = b"0123456789abcdef";

fn signing_key() -> p256::ecdsa::SigningKey {
    p256::ecdsa::SigningKey::from_slice(&[0x11u8; 32]).unwrap()
}

fn der() -> Vec<u8> {
    signing_key().verifying_key().to_public_key_der().unwrap().as_bytes().to_vec()
}

fn sign(msg: &[u8]) -> Vec<u8> {
    let sig: p256::ecdsa::Signature = signing_key().sign(msg);
    sig.to_bytes().to_vec()
}

fn sends(c: &Command, bytes: &[u8]) -> bool {
    matches!(c, Command::Send(b) if b.as_slice() == bytes)
}

fn sent(c: &Command) -> Vec<u8> {
    match c {
        Command::Send(b) => b.clone(),
        other => panic!("expected a send, got {:?}", other),
    }
}

fn keyed_blake2s(key: &[u8], data: &[u8]) -> Vec<u8> {
    let mut m = <blake2::Blake2sMac256 as Mac>::new_from_slice(key).unwrap();
    m.update(data);
    m.finalize().into_bytes().to_vec()
}

fn reference_hash(pass: &[u8]) -> [u8; 32] {
    let params = argon2::Params::new(13107, 1, 4, None).unwrap();
    let a = argon2::Argon2::new(argon2::Algorithm::Argon2id, argon2::Version::V0x13, params);
    let mut out = [0u8; 32];
    a.hash_password_into(pass, SALT, &mut out).unwrap();
    out
}

const NONCE: [u8; 32] = [0x42; 32];

/// Runs the nonce and key exchange; returns the app waiting for the host's
/// status and the host's end of the channel.
fn exchanged(der: Vec<u8>, cdi: [u8; 32]) -> (TkeyApp, SessionCipher) {
    let mut app = TkeyApp::new(der, cdi);
    let c = app.start();
    assert!(matches!(c.as_slice(), [Command::Random(32)]));
    let c = app.on_event(Event::Received(NONCE.to_vec()));
    assert_eq!(c.len(), 2);
    assert!(sends(&c[0], &NONCE));
    assert!(matches!(c[1], Command::Random(44)));
    let material: Vec<u8> = (0..44u8).map(|i| i.wrapping_mul(7).wrapping_add(3)).collect();
    let c = app.on_event(Event::Received(material.clone()));
    assert_eq!(c.len(), 2);
    assert!(sends(&c[0], &material[..12]));
    assert!(matches!(c[1], Command::Receive(32)));
    let host = HostKeyShare::from_seed([5u8; 32]);
    let c = app.on_event(Event::Received(host.public_key().to_vec()));
    assert_eq!(c.len(), 2);
    let tkey_public: [u8; 32] = sent(&c[0]).try_into().unwrap();
    let mut secret = [0u8; 32];
    secret.copy_from_slice(&material[12..]);
    assert_eq!(tkey_public, x25519_dalek::x25519(secret, x25519_dalek::X25519_BASEPOINT_BYTES));
    assert!(matches!(c[1], Command::Receive(1)));
    let mut channel_nonce = [0u8; 12];
    channel_nonce.copy_from_slice(&material[..12]);
    (app, host.into_cipher(tkey_public, channel_nonce))
}

/// Runs the signature step with a good signature; returns the app waiting
/// for the first passphrase and the host's end of the channel.
fn verified_app(cdi: [u8; 32]) -> (TkeyApp, SessionCipher) {
    let (mut app, cipher) = exchanged(der(), cdi);
    let c = app.on_event(Event::Received(vec![0x97]));
    assert!(matches!(c.as_slice(), [Command::Receive(64)]));
    let c = app.on_event(Event::Received(sign(&NONCE)));
    assert_eq!(c.len(), 4);
    assert!(sends(&c[0], &[0x20]));
    assert!(matches!(c[1], Command::SetLed(Led::Green)));
    assert!(sends(&c[2], &[0x22]));
    assert!(matches!(c[3], Command::Receive(1)));
    (app, cipher)
}

/// Sends an encrypted hash in the two reads the app asks for and returns
/// the sealed keyfile.
fn send_hash(app: &mut TkeyApp, enc: &[u8]) -> Vec<u8> {
    assert_eq!(enc.len(), 32);
    assert_ne!(enc[0], 0);
    let c = app.on_event(Event::Received(vec![enc[0]]));
    assert!(matches!(c.as_slice(), [Command::Receive(31)]));
    let c = app.on_event(Event::Received(enc[1..].to_vec()));
    assert_eq!(c.len(), 3);
    assert!(sends(&c[0], &[0x21]));
    assert!(matches!(c[2], Command::Receive(1)));
    sent(&c[1])
}

#[test]
fn good_signature_then_keyfile_then_success() {
    let cdi = [0x33u8; 32];
    let (mut app, mut host) = verified_app(cdi);
    let pass = b"hunter2hunter2";
    let enc = submit_passphrase(&get_argon2(), SALT, pass, &mut host).unwrap();
    let hash = reference_hash(pass);
    assert_ne!(enc, hash.to_vec());
    let sealed = send_hash(&mut app, &enc);
    let keyfile = keyed_blake2s(&cdi, &hash);
    assert_ne!(sealed, keyfile);
    assert_eq!(host.apply_keystream(&sealed), keyfile);
    assert_eq!(host.keystream_used(), 64);
    let c = app.on_event(Event::Received(vec![0x99]));
    assert!(matches!(
        c.as_slice(),
        [Command::SetLed(Led::Green), Command::Sleep(6), Command::SetLed(Led::Off), Command::Done]
    ));
}

#[test]
fn second_attempt_uses_the_next_keystream() {
    let cdi = [0x44u8; 32];
    let (mut app, mut host) = verified_app(cdi);
    for pass in [b"first passphrase".as_slice(), b"second passphrase".as_slice()] {
        let enc = submit_passphrase(&get_argon2(), SALT, pass, &mut host).unwrap();
        let sealed = send_hash(&mut app, &enc);
        assert_eq!(host.apply_keystream(&sealed), keyed_blake2s(&cdi, &reference_hash(pass)));
        let c = app.on_event(Event::Received(vec![0x98]));
        assert_eq!(c.len(), 3);
        assert!(matches!(c[0], Command::Sleep(3)));
        assert!(sends(&c[1], &[0x22]));
    }
    assert_eq!(host.keystream_used(), 128);
}

#[test]
fn short_passphrase_is_refused() {
    let (mut app, _) = verified_app([1u8; 32]);
    let c = app.on_event(Event::Received(vec![0]));
    assert_eq!(c.len(), 4);
    assert!(sends(&c[0], &[0x11]));
    assert!(matches!(c[1], Command::Sleep(3)));
    assert!(sends(&c[2], &[0x22]));
    assert!(matches!(c[3], Command::Receive(1)));
}

#[test]
fn three_attempts_then_abort() {
    let (mut app, _) = verified_app([1u8; 32]);
    for _ in 0..2 {
        let c = app.on_event(Event::Received(vec![0]));
        assert!(sends(&c[2], &[0x22]));
    }
    let c = app.on_event(Event::Received(vec![0]));
    assert_eq!(c.len(), 3);
    assert!(sends(&c[0], &[0x11]));
    assert!(matches!(c[1], Command::Sleep(3)));
    assert!(matches!(c[2], Command::Abort));
}

#[test]
fn bad_public_key_is_reported_before_the_nonce() {
    let mut app = TkeyApp::new(vec![1, 2, 3], [0u8; 32]);
    let c = app.start();
    assert_eq!(c.len(), 2);
    assert!(sends(&c[0], &[0x14]));
    assert!(matches!(c[1], Command::RequestTouch { seconds: 30, led: Led::Yellow }));
    let c = app.on_event(Event::Touched(false));
    assert!(matches!(c.as_slice(), [Command::Abort]));
}

#[test]
fn bad_public_key_then_touch_asks_for_a_passphrase() {
    let mut app = TkeyApp::new(vec![1, 2, 3], [0u8; 32]);
    app.start();
    let c = app.on_event(Event::Touched(true));
    assert_eq!(c.len(), 2);
    assert!(sends(&c[0], &[0x22]));
    assert!(matches!(c[1], Command::Receive(1)));
}

#[test]
fn refused_tpm_asks_for_touch_in_purple() {
    let (mut app, _) = exchanged(der(), [0u8; 32]);
    let c = app.on_event(Event::Received(vec![0x90]));
    assert!(sends(&c[0], &[0x13]));
    assert!(matches!(c[1], Command::RequestTouch { seconds: 30, led: Led::Purple }));
    let c = app.on_event(Event::Touched(true));
    assert!(sends(&c[0], &[0x22]));
    assert!(matches!(c[1], Command::Receive(1)));
}

#[test]
fn signature_over_another_nonce_is_invalid() {
    let (mut app, _) = exchanged(der(), [0u8; 32]);
    app.on_event(Event::Received(vec![0x97]));
    let c = app.on_event(Event::Received(sign(&[8u8; 32])));
    assert!(sends(&c[0], &[0x13]));
    assert!(matches!(c[1], Command::RequestTouch { led: Led::Purple, .. }));
}

#[test]
fn malformed_signature_is_reported() {
    let (mut app, _) = exchanged(der(), [0u8; 32]);
    app.on_event(Event::Received(vec![0x97]));
    let c = app.on_event(Event::Received(vec![0u8; 64]));
    assert!(sends(&c[0], &[0x12]));
    assert!(matches!(c[1], Command::RequestTouch { led: Led::Yellow, .. }));
}

#[test]
fn unexpected_event_aborts() {
    let mut app = TkeyApp::new(der(), [0u8; 32]);
    app.start();
    let c = app.on_event(Event::Touched(true));
    assert!(matches!(c.as_slice(), [Command::Abort]));
}

#[test]
fn wrong_length_of_host_key_aborts() {
    let mut app = TkeyApp::new(der(), [0u8; 32]);
    app.start();
    app.on_event(Event::Received(NONCE.to_vec()));
    app.on_event(Event::Received(vec![1u8; 44]));
    let c = app.on_event(Event::Received(vec![1u8; 31]));
    assert!(matches!(c.as_slice(), [Command::Abort]));
}
