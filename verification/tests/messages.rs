use tkey_luks::messages::{ClientError, ClientMessage, HostErr, HostMessage};

#[test]
fn client_message_codes_decode_to_themselves() {
    for m in [ClientMessage::GoodSig, ClientMessage::GoodPass, ClientMessage::Ready4pass] {
        assert_eq!(ClientMessage::try_from(m.code()).unwrap(), m);
    }
    assert_eq!(ClientMessage::GoodSig.code(), 0x20);
    assert_eq!(ClientMessage::GoodPass.code(), 0x21);
    assert_eq!(ClientMessage::Ready4pass.code(), 0x22);
}

#[test]
fn client_error_bytes_decode_to_errors() {
    assert!(matches!(ClientMessage::try_from(0x10), Err(ClientError::Blake2)));
    assert!(matches!(ClientMessage::try_from(0x11), Err(ClientError::PassLen)));
    assert!(matches!(ClientMessage::try_from(0x12), Err(ClientError::MalformedSig)));
    assert!(matches!(ClientMessage::try_from(0x13), Err(ClientError::InvalidSig)));
    assert!(matches!(ClientMessage::try_from(0x14), Err(ClientError::BadPubkey)));
    match ClientMessage::try_from(0x15) {
        Err(ClientError::IOError(e)) => {
            assert_eq!(e.kind(), std::io::ErrorKind::Interrupted);
            assert_eq!(e.to_string(), "tkey couldn't communicate");
        }
        other => panic!("unexpected {:?}", other),
    }
}

#[test]
fn unknown_client_bytes_are_unknown_errors() {
    for b in [0x00u8, 0x0f, 0x16, 0x17, 0x1f, 0x23, 0x90, 0x99, 0xff] {
        assert!(matches!(ClientMessage::try_from(b), Err(ClientError::UnknownError)), "byte {b:#x}");
    }
}

#[test]
fn client_error_codes() {
    assert_eq!(ClientError::Blake2.code(), Some(0x10));
    assert_eq!(ClientError::BadPubkey.code(), Some(0x14));
    assert_eq!(ClientError::IOError(std::io::Error::other("x")).code(), Some(0x15));
    assert_eq!(ClientError::OutOfsync.code(), None);
    assert_eq!(ClientError::UnknownError.code(), None);
}

#[test]
fn host_message_decoding() {
    assert_eq!(HostMessage::try_from(0x99), Ok(HostMessage::DecryptionSuccess));
    assert_eq!(HostMessage::try_from(0x97), Ok(HostMessage::TpmSigned));
    assert_eq!(HostMessage::try_from(0x98), Err(HostErr::DecryptionError));
    assert_eq!(HostMessage::try_from(0x90), Err(HostErr::TpmRefusedToSign));
    assert_eq!(HostMessage::try_from(0x00), Err(HostErr::UnknownError));
    assert_eq!(HostMessage::try_from(0x20), Err(HostErr::UnknownError));
}

#[test]
fn host_codes() {
    assert_eq!(HostMessage::DecryptionSuccess.code(), 0x99);
    assert_eq!(HostMessage::TpmSigned.code(), 0x97);
    assert_eq!(HostErr::CryptsetupErr.code(), 0);
    assert_eq!(HostErr::CryptsetupKilled.code(), 1);
    assert_eq!(HostErr::PipeError.code(), 2);
    assert_eq!(HostErr::IOError.code(), 3);
    assert_eq!(HostErr::TpmError.code(), 4);
    assert_eq!(HostErr::UnknownError.code(), 5);
    assert_eq!(HostErr::TpmRefusedToSign.code(), 0x90);
    assert_eq!(HostErr::DecryptionError.code(), 0x98);
    assert_eq!(HostErr::StringParseError.code(), 0x99);
}

#[test]
fn host_error_texts() {
    assert_eq!(HostErr::CryptsetupErr.message(), "cryptsetup sent an error");
    assert_eq!(HostErr::CryptsetupKilled.message(), "cryptsetup was killed..");
    assert_eq!(HostErr::DecryptionError.message(), "couldn't decrypt passphrase is wrong.");
    assert_eq!(
        HostErr::TpmRefusedToSign.message(),
        "tpm REFUSED to sign this system is unsuccessful_auth"
    );
}

#[test]
fn client_error_texts() {
    assert_eq!(ClientError::PassLen.message(), "your password is too short try again..");
    assert_eq!(ClientError::OutOfsync.message(), "host and tkey are out of sync, restart app.");
    assert_eq!(ClientError::UnknownError.message(), "tkey sent invalid error message.");
    let e = ClientError::IOError(std::io::Error::other("gone"));
    assert_eq!(e.message(), "IO error: gone");
}

#[test]
fn io_errors_convert() {
    let c: ClientError = std::io::Error::other("x").into();
    assert!(matches!(c, ClientError::IOError(_)));
    let h: HostErr = std::io::Error::other("x").into();
    assert_eq!(h, HostErr::IOError);
}

#[test]
fn signature_failures() {
    assert!(ClientError::InvalidSig.is_signature_failure());
    assert!(ClientError::MalformedSig.is_signature_failure());
    assert!(ClientError::BadPubkey.is_signature_failure());
    assert!(!ClientError::PassLen.is_signature_failure());
    assert!(!ClientError::OutOfsync.is_signature_failure());
}
