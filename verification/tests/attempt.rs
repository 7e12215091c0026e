use chacha20::cipher::{KeyIvInit, StreamCipher};
use tkey_luks::attempt::{AttemptStep, CryptsetupOutcome, UnlockAttempt};
use tkey_luks::cryptsetup::luks_open_args;
use tkey_luks::messages::{ClientError, ClientMessage, HostErr};
use tkey_luks::session::{AttemptResult, SessionCipher};

const SALT: &[u8] = b"0123456789abcdef";
const KEY: [u8; 32] = [8u8; 32];
const NONCE: [u8; 12] = [6u8; 12];

fn reference_hash(pass: &[u8]) -> [u8; 32] {
    let params = argon2::Params::new(13107, 1, 4, None).unwrap();
    let a = argon2::Argon2::new(argon2::Algorithm::Argon2id, argon2::Version::V0x13, params);
    let mut out = [0u8; 32];
    a.hash_password_into(pass, SALT, &mut out).unwrap();
    out
}

fn keystream_xor(data: &[u8]) -> Vec<u8> {
    let mut c = chacha20::ChaCha20::new(&KEY.into(), &NONCE.into());
    let mut out = data.to_vec();
    c.apply_keystream(&mut out);
    out
}

fn ready_attempt(trustworthy: bool) -> UnlockAttempt {
    let mut a = UnlockAttempt::new(trustworthy);
    assert!(matches!(a.start().as_slice(), [AttemptStep::ReadStatus]));
    let s = a.on_status(Ok(ClientMessage::Ready4pass));
    match s.as_slice() {
        [AttemptStep::AskPassphrase(p)] => {
            assert_eq!(p.starts_with("tpm REFUSED"), !trustworthy);
        }
        other => panic!("unexpected {:?}", other),
    }
    a
}

/// Runs an attempt up to `cryptsetup`; returns the attempt and what it
/// hands to `cryptsetup`.
fn up_to_cryptsetup() -> (UnlockAttempt, Vec<String>, Vec<u8>) {
    let mut a = ready_attempt(true);
    let mut cipher = SessionCipher::new(KEY, NONCE);
    let s = a.on_passphrase(b"long enough", SALT, &mut cipher);
    assert_eq!(s.len(), 2);
    match &s[0] {
        AttemptStep::Write(b) => assert_eq!(b, &keystream_xor(&reference_hash(b"long enough"))),
        other => panic!("unexpected {:?}", other),
    }
    assert!(matches!(s[1], AttemptStep::ReadStatus));
    assert!(matches!(a.on_status(Ok(ClientMessage::GoodPass)).as_slice(), [AttemptStep::ReadKeyfile]));
    let sealed = [0x3cu8; 32];
    let mut s = a.on_keyfile(&sealed, &mut cipher, "/dev/sda2", "root");
    assert_eq!(cipher.keystream_used(), 64);
    match s.pop() {
        Some(AttemptStep::RunCryptsetup { args, input }) => {
            let full = keystream_xor(&[[0u8; 32], sealed].concat());
            assert_eq!(input, full[32..].to_vec());
            (a, args, input)
        }
        other => panic!("unexpected {:?}", other),
    }
}

#[test]
fn not_ready_ends_the_attempt() {
    let mut a = UnlockAttempt::new(true);
    a.start();
    let s = a.on_status(Ok(ClientMessage::GoodSig));
    assert!(matches!(s.as_slice(), [AttemptStep::Finish(AttemptResult::NotReady(ClientError::OutOfsync))]));
}

#[test]
fn untrusted_prompt_warns() {
    ready_attempt(false);
}

#[test]
fn short_passphrase_sends_the_marker() {
    let mut a = ready_attempt(true);
    let mut cipher = SessionCipher::new(KEY, NONCE);
    let s = a.on_passphrase(b"short", SALT, &mut cipher);
    assert!(matches!(s.as_slice(), [AttemptStep::Write(b), AttemptStep::ReadStatus] if b.as_slice() == [0u8]));
    assert_eq!(cipher.keystream_used(), 0);
    let s = a.on_status(Err(ClientError::PassLen));
    assert!(matches!(s.as_slice(), [AttemptStep::Finish(AttemptResult::PasswordFailed(ClientError::PassLen))]));
}

#[test]
fn refused_salt_is_unknown_error() {
    let mut a = ready_attempt(true);
    let mut cipher = SessionCipher::new(KEY, NONCE);
    let s = a.on_passphrase(b"long enough", b"salt", &mut cipher);
    assert!(matches!(s.as_slice(), [AttemptStep::Finish(AttemptResult::PasswordFailed(ClientError::UnknownError))]));
}

#[test]
fn error_after_passphrase_is_passed_on() {
    let mut a = ready_attempt(true);
    let mut cipher = SessionCipher::new(KEY, NONCE);
    a.on_passphrase(b"long enough", SALT, &mut cipher);
    let s = a.on_status(Err(ClientError::Blake2));
    assert!(matches!(s.as_slice(), [AttemptStep::Finish(AttemptResult::PasswordFailed(ClientError::Blake2))]));
}

#[test]
fn unexpected_message_after_passphrase_is_out_of_sync() {
    let mut a = ready_attempt(true);
    let mut cipher = SessionCipher::new(KEY, NONCE);
    a.on_passphrase(b"long enough", SALT, &mut cipher);
    let s = a.on_status(Ok(ClientMessage::Ready4pass));
    assert!(matches!(s.as_slice(), [AttemptStep::Finish(AttemptResult::PasswordFailed(ClientError::OutOfsync))]));
}

#[test]
fn cryptsetup_gets_the_open_arguments() {
    let (_, args, _) = up_to_cryptsetup();
    assert_eq!(args, luks_open_args("/dev/sda2", "root"));
}

#[test]
fn successful_cryptsetup_unlocks() {
    let (mut a, _, _) = up_to_cryptsetup();
    let s = a.on_cryptsetup(CryptsetupOutcome::Exited(Some(0)));
    assert!(matches!(s.as_slice(), [AttemptStep::Notify(b), AttemptStep::Finish(AttemptResult::Unlocked)] if b.as_slice() == [0x99u8]));
}

#[test]
fn failed_cryptsetup_is_reported() {
    let (mut a, _, _) = up_to_cryptsetup();
    let s = a.on_cryptsetup(CryptsetupOutcome::Exited(Some(2)));
    assert!(matches!(s.as_slice(), [AttemptStep::Write(b), AttemptStep::Finish(AttemptResult::UnlockFailed(HostErr::CryptsetupErr))] if b.as_slice() == [0x98u8]));
    let (mut a, _, _) = up_to_cryptsetup();
    let s = a.on_cryptsetup(CryptsetupOutcome::Exited(None));
    assert!(matches!(s.as_slice(), [AttemptStep::Write(_), AttemptStep::Finish(AttemptResult::UnlockFailed(HostErr::CryptsetupKilled))]));
    let (mut a, _, _) = up_to_cryptsetup();
    let s = a.on_cryptsetup(CryptsetupOutcome::InputFailed(HostErr::IOError));
    assert!(matches!(s.as_slice(), [AttemptStep::Write(b), AttemptStep::Finish(AttemptResult::UnlockFailed(HostErr::IOError))] if b.as_slice() == [0x98u8]));
    let (mut a, _, _) = up_to_cryptsetup();
    let s = a.on_cryptsetup(CryptsetupOutcome::NotStarted(HostErr::PipeError));
    assert!(matches!(s.as_slice(), [AttemptStep::Finish(AttemptResult::UnlockFailed(HostErr::PipeError))]));
}
