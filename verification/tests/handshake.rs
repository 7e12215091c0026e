use p256::ecdsa::signature::Signer;
use p256::pkcs8::EncodePublicKey;
use tkey_luks::firmware::{Command, Event, Led, TkeyApp};
use tkey_luks::handshake::{HandshakeStep, HostHandshake};
use tkey_luks::messages::{ClientError, ClientMessage};
use tkey_luks::session::HostKeyShare;

fn signing_key() -> p256::ecdsa::SigningKey {
    p256::ecdsa::SigningKey::from_slice(&[0x11u8; 32]).unwrap()
}

fn der() -> Vec<u8> {
    signing_key().verifying_key().to_public_key_der().unwrap().as_bytes().to_vec()
}

fn sent(c: &Command) -> Vec<u8> {
    match c {
        Command::Send(b) => b.clone(),
        other => panic!("expected a send, got {:?}", other),
    }
}

fn written(s: &HandshakeStep) -> Vec<u8> {
    match s {
        HandshakeStep::Write(b) => b.clone(),
        other => panic!("expected a write, got {:?}", other),
    }
}

/// Runs both sides up to the host's status read; returns them and whether
/// the host asked the TPM to sign the TKey's nonce.
fn run(tpm_signs: bool) -> (TkeyApp, HostHandshake, Vec<Command>) {
    let mut app = TkeyApp::new(der(), [7u8; 32]);
    let mut host = HostHandshake::new(HostKeyShare::from_seed([9u8; 32]));
    assert!(matches!(app.start().as_slice(), [Command::Random(32)]));
    assert!(matches!(host.start().as_slice(), [HandshakeStep::Read(32)]));
    let nonce = vec![0x5au8; 32];
    let c = app.on_event(Event::Received(nonce.clone()));
    let to_host = sent(&c[0]);
    assert_eq!(to_host.len(), 32);
    let h = host.on_bytes(&to_host);
    let signed_nonce = match &h[0] {
        HandshakeStep::SignNonce(n) => *n,
        other => panic!("expected a signing request, got {:?}", other),
    };
    assert_eq!(signed_nonce.to_vec(), nonce);
    assert!(matches!(h[1], HandshakeStep::Read(12)));
    let c = app.on_event(Event::Received(vec![0x21u8; 44]));
    let channel_nonce = sent(&c[0]);
    assert_eq!(channel_nonce.len(), 12);
    assert!(matches!(c[1], Command::Receive(32)));
    let h = host.on_bytes(&channel_nonce);
    let host_public = written(&h[0]);
    assert!(matches!(h[1], HandshakeStep::Read(32)));
    let c = app.on_event(Event::Received(host_public));
    let tkey_public = sent(&c[0]);
    assert!(matches!(c[1], Command::Receive(1)));
    let h = host.on_bytes(&tkey_public);
    assert!(matches!(h.as_slice(), [HandshakeStep::AwaitTpm]));
    let sig = if tpm_signs {
        let s: p256::ecdsa::Signature = signing_key().sign(&signed_nonce);
        let mut b = [0u8; 64];
        b.copy_from_slice(&s.to_bytes());
        Some(b)
    } else {
        None
    };
    let h = host.on_signature(sig);
    let reply = written(&h[0]);
    assert!(matches!(h[1], HandshakeStep::Read(1)));
    assert!(host.awaits_status());
    let c = app.on_event(Event::Received(reply[..1].to_vec()));
    let c = if tpm_signs {
        assert!(matches!(c.as_slice(), [Command::Receive(64)]));
        app.on_event(Event::Received(reply[1..].to_vec()))
    } else {
        assert_eq!(reply, vec![0x90]);
        c
    };
    (app, host, c)
}

#[test]
fn handshake_with_a_signature_is_trusted_and_shares_the_channel() {
    let (mut app, mut host, c) = run(true);
    assert_eq!(sent(&c[0]), vec![0x20]);
    assert!(matches!(c[1], Command::SetLed(Led::Green)));
    let status = ClientMessage::try_from(sent(&c[0])[0]);
    assert_eq!(host.on_status(status).unwrap(), true);
    let mut channel = host.into_channel();
    let enc = channel.apply_keystream(&[0x77u8; 32]);
    assert_ne!(enc[0], 0);
    app.on_event(Event::Received(vec![enc[0]]));
    let c = app.on_event(Event::Received(enc[1..].to_vec()));
    assert_eq!(sent(&c[0]), vec![0x21]);
    assert_eq!(sent(&c[1]).len(), 32);
}

#[test]
fn handshake_after_refusal_is_not_trusted() {
    let (_, mut host, c) = run(false);
    assert_eq!(sent(&c[0]), vec![0x13]);
    assert!(matches!(c[1], Command::RequestTouch { led: Led::Purple, .. }));
    let status = ClientMessage::try_from(sent(&c[0])[0]);
    assert_eq!(host.on_status(status).unwrap(), false);
}

#[test]
fn handshake_status_out_of_step() {
    let (_, mut host, _) = run(true);
    assert!(matches!(host.on_status(Ok(ClientMessage::Ready4pass)), Err(ClientError::OutOfsync)));
}
