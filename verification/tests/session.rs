use chacha20::cipher::{KeyIvInit, StreamCipher};
use chacha20::rand_core::SeedableRng;
use tkey_luks::messages::{ClientError, ClientMessage, HostErr};
use tkey_luks::session::{
    get_argon2, password_prompt, password_status, ready_for_passphrase, settle_trust,
    submit_passphrase, Argon2Config, AttemptResult, HostKeyShare, SessionCipher, UnlockLoop,
    UnlockVerdict,
};

const SALT: &[u8] = b"0123456789abcdef";

fn reference_hash(pass: &[u8], salt: &[u8]) -> [u8; 32] {
    let params = argon2::Params::new(13107, 1, 4, None).unwrap();
    let a = argon2::Argon2::new(argon2::Algorithm::Argon2id, argon2::Version::V0x13, params);
    let mut out = [0u8; 32];
    a.hash_password_into(pass, salt, &mut out).unwrap();
    out
}

fn reference_keystream(key: &[u8; 32], nonce: &[u8; 12], data: &[u8]) -> Vec<u8> {
    let mut c = chacha20::ChaCha20::new(key.into(), nonce.into());
    let mut out = data.to_vec();
    c.apply_keystream(&mut out);
    out
}

#[test]
fn argon2_settings() {
    assert_eq!(get_argon2(), Argon2Config { m_cost: 13107, t_cost: 1, p_cost: 4 });
}

#[test]
fn passphrase_hash_matches_argon2id() {
    let h = get_argon2().hash_password(b"correct horse", SALT).unwrap();
    assert_eq!(h, reference_hash(b"correct horse", SALT));
}

#[test]
fn short_salt_is_refused() {
    assert_eq!(get_argon2().hash_password(b"correct horse", b"short"), None);
}

#[test]
fn keystream_matches_chacha20_and_continues() {
    let key = [4u8; 32];
    let nonce = [9u8; 12];
    let data: Vec<u8> = (0..100u8).collect();
    let mut c = SessionCipher::new(key, nonce);
    let first = c.apply_keystream(&data[..40]);
    let second = c.apply_keystream(&data[40..]);
    let mut joined = first.clone();
    joined.extend_from_slice(&second);
    assert_eq!(joined, reference_keystream(&key, &nonce, &data));
    assert_ne!(first, data[..40].to_vec());
}

#[test]
fn keystream_roundtrip() {
    let key = [1u8; 32];
    let nonce = [2u8; 12];
    let msg = b"a secret of thirty-two bytes....".to_vec();
    let enc = SessionCipher::new(key, nonce).apply_keystream(&msg);
    let dec = SessionCipher::new(key, nonce).apply_keystream(&enc);
    assert_eq!(dec, msg);
}

#[test]
fn key_share_matches_x25519_dalek() {
    let seed = [42u8; 32];
    let share = HostKeyShare::from_seed(seed);
    let mut rng = chacha20::ChaCha20Rng::from_seed(seed);
    let secret = x25519_dalek::EphemeralSecret::random_from_rng(&mut rng);
    let expected_public = x25519_dalek::PublicKey::from(&secret);
    assert_eq!(share.public_key(), expected_public.to_bytes());
    assert_ne!(share.public_key(), seed);

    let peer_secret = x25519_dalek::EphemeralSecret::random_from_rng(&mut chacha20::ChaCha20Rng::from_seed([7u8; 32]));
    let peer_public = x25519_dalek::PublicKey::from(&peer_secret);
    let shared = secret.diffie_hellman(&peer_public);
    let nonce = [3u8; 12];
    let mut cipher = share.into_cipher(peer_public.to_bytes(), nonce);
    let data = [0u8; 32];
    assert_eq!(cipher.apply_keystream(&data), reference_keystream(shared.as_bytes(), &nonce, &data));
}

#[test]
fn both_sides_share_the_channel() {
    let host = HostKeyShare::from_seed([1u8; 32]);
    let tkey = HostKeyShare::from_seed([2u8; 32]);
    let host_pub = host.public_key();
    let tkey_pub = tkey.public_key();
    let nonce = [5u8; 12];
    let mut a = host.into_cipher(tkey_pub, nonce);
    let mut b = tkey.into_cipher(host_pub, nonce);
    let msg = [0x5au8; 32];
    let enc = a.apply_keystream(&msg);
    assert_eq!(b.apply_keystream(&enc), msg.to_vec());
}

#[test]
fn key_share_from_os_randomness() {
    assert!(HostKeyShare::generate().is_some());
}

#[test]
fn prompts() {
    assert_eq!(password_prompt(true), "input passphrase ALWAYS be sure tkey led is green before doing so.");
    assert_eq!(
        password_prompt(false),
        "tpm REFUSED to unseal, system might be tampered with. Input password at your own risk."
    );
}

#[test]
fn submitting_passphrases() {
    let cfg = get_argon2();
    let key = [8u8; 32];
    let nonce = [6u8; 12];
    let mut cipher = SessionCipher::new(key, nonce);
    assert!(matches!(submit_passphrase(&cfg, SALT, b"short", &mut cipher), Err(ClientError::PassLen)));
    assert!(matches!(submit_passphrase(&cfg, b"salt", b"long enough", &mut cipher), Err(ClientError::UnknownError)));
    let enc = submit_passphrase(&cfg, SALT, b"long enough", &mut cipher).unwrap();
    let hash = reference_hash(b"long enough", SALT);
    assert_eq!(enc, reference_keystream(&key, &nonce, &hash));
}

#[test]
fn statuses_after_passphrase() {
    assert!(password_status(Ok(ClientMessage::GoodPass)).is_ok());
    assert!(matches!(password_status(Ok(ClientMessage::GoodSig)), Err(ClientError::OutOfsync)));
    assert!(matches!(password_status(Err(ClientError::Blake2)), Err(ClientError::Blake2)));
    assert!(ready_for_passphrase(Ok(ClientMessage::Ready4pass)).is_ok());
    assert!(matches!(ready_for_passphrase(Ok(ClientMessage::GoodPass)), Err(ClientError::OutOfsync)));
    assert!(matches!(ready_for_passphrase(Err(ClientError::PassLen)), Err(ClientError::OutOfsync)));
}

#[test]
fn trust_decisions() {
    assert!(matches!(settle_trust(true, Ok(ClientMessage::GoodSig)), Ok(true)));
    assert!(matches!(settle_trust(false, Ok(ClientMessage::GoodSig)), Ok(false)));
    assert!(matches!(settle_trust(true, Err(ClientError::InvalidSig)), Ok(false)));
    assert!(matches!(settle_trust(true, Err(ClientError::MalformedSig)), Ok(false)));
    assert!(matches!(settle_trust(true, Err(ClientError::BadPubkey)), Ok(false)));
    assert!(matches!(settle_trust(true, Err(ClientError::PassLen)), Err(ClientError::OutOfsync)));
    assert!(matches!(settle_trust(true, Ok(ClientMessage::Ready4pass)), Err(ClientError::OutOfsync)));
}

#[test]
fn at_most_three_tries() {
    let mut l = UnlockLoop::new();
    assert_eq!(l.next_try(), Some(1));
    assert_eq!(l.next_try(), Some(2));
    assert_eq!(l.next_try(), Some(3));
    assert_eq!(l.next_try(), None);
    assert_eq!(l.next_try(), None);
}

#[test]
fn verdicts() {
    let l = UnlockLoop::new();
    assert!(matches!(l.verdict(AttemptResult::Unlocked), UnlockVerdict::Success));
    match l.verdict(AttemptResult::PasswordFailed(ClientError::PassLen)) {
        UnlockVerdict::Retry(s) => assert_eq!(s, "password length error"),
        other => panic!("{:?}", other),
    }
    match l.verdict(AttemptResult::PasswordFailed(ClientError::Blake2)) {
        UnlockVerdict::Retry(s) => assert_eq!(s, "blake2 error"),
        other => panic!("{:?}", other),
    }
    match l.verdict(AttemptResult::UnlockFailed(HostErr::CryptsetupErr)) {
        UnlockVerdict::Retry(s) => assert_eq!(s, "wrong password"),
        other => panic!("{:?}", other),
    }
    match l.verdict(AttemptResult::UnlockFailed(HostErr::CryptsetupKilled)) {
        UnlockVerdict::Retry(s) => assert_eq!(s, "cryptsetup killed"),
        other => panic!("{:?}", other),
    }
    assert!(matches!(
        l.verdict(AttemptResult::UnlockFailed(HostErr::PipeError)),
        UnlockVerdict::Fail(AttemptResult::UnlockFailed(HostErr::PipeError))
    ));
    assert!(matches!(
        l.verdict(AttemptResult::PasswordFailed(ClientError::InvalidSig)),
        UnlockVerdict::Fail(AttemptResult::PasswordFailed(ClientError::InvalidSig))
    ));
    assert!(matches!(
        l.verdict(AttemptResult::NotReady(ClientError::OutOfsync)),
        UnlockVerdict::Fail(AttemptResult::NotReady(ClientError::OutOfsync))
    ));
}

#[test]
fn keystream_counters() {
    let mut c = SessionCipher::new([3u8; 32], [1u8; 12]);
    assert_eq!(c.keystream_used(), 0);
    c.apply_keystream(&[0u8; 20]);
    assert_eq!(c.keystream_used(), 20);
    assert_eq!(SessionCipher::keystream_len(), (1u64 << 38) - 64);
}

#[test]
fn short_passphrase_leaves_the_channel() {
    let mut c = SessionCipher::new([3u8; 32], [1u8; 12]);
    assert!(matches!(submit_passphrase(&get_argon2(), SALT, b"1234567", &mut c), Err(ClientError::PassLen)));
    assert_eq!(c.keystream_used(), 0);
}
