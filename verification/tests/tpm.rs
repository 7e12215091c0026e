use tkey_luks::messages::HostErr;
use tkey_luks::tpm::{nonce_reply, pad_signature, refusal_reply, signed_reply};

#[test]
fn full_length_parts_are_concatenated() {
    let r: Vec<u8> = (1..=32).collect();
    let s: Vec<u8> = (33..=64).collect();
    let sig = pad_signature(&r, &s).unwrap();
    let expected: Vec<u8> = (1..=64).collect();
    assert_eq!(sig.to_vec(), expected);
}

#[test]
fn short_parts_are_left_padded() {
    let sig = pad_signature(&[0xaa, 0xbb], &[0xcc]).unwrap();
    let mut expected = [0u8; 64];
    expected[30] = 0xaa;
    expected[31] = 0xbb;
    expected[63] = 0xcc;
    assert_eq!(sig, expected);
    assert_eq!(pad_signature(&[], &[]).unwrap(), [0u8; 64]);
}

#[test]
fn long_parts_are_a_tpm_error() {
    assert_eq!(pad_signature(&[1u8; 33], &[1u8; 32]), Err(HostErr::TpmError));
    assert_eq!(pad_signature(&[1u8; 32], &[1u8; 40]), Err(HostErr::TpmError));
}

#[test]
fn replies_to_the_nonce() {
    let sig = [7u8; 64];
    let bytes = signed_reply(&sig);
    assert_eq!(bytes.len(), 65);
    assert_eq!(bytes[0], 0x97);
    assert!(bytes[1..].iter().all(|b| *b == 7));
    assert_eq!(refusal_reply(HostErr::TpmRefusedToSign), vec![0x90]);
    assert_eq!(refusal_reply(HostErr::TpmError), vec![4]);
    let (b, trusted) = nonce_reply(Some(sig));
    assert!(trusted);
    assert_eq!(b, bytes);
    let (b, trusted) = nonce_reply(None);
    assert!(!trusted);
    assert_eq!(b, vec![0x90]);
}
