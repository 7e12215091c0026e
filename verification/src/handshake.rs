//! The host's half of the opening of a session with the TKey application,
//! once the application is loaded: it reads the TKey's nonce and has the
//! TPM sign it, agrees on the ChaCha20 channel (reads the TKey's channel
//! nonce, sends the public key of its X25519 share, reads the TKey's), sends
//! the TPM's answer, and settles from the TKey's status whether the boot
//! chain is trusted.
//!
//! [`HostHandshake`] takes the decisions in that order; the caller moves the
//! bytes and runs the TPM.
use vstd::prelude::*;
use crate::crypto::{x25519_basepoint_bytes, x25519_mul};
use crate::messages::{host_err_code, host_message_code, signature_failure, ClientError, ClientMessage, HostErr, HostMessage};
use crate::session::{settle_trust, HostKeyShare, SessionCipher};
use crate::tpm::nonce_reply;
use crate::enroll::{enrollment_signature_status, EnrollError};

verus! {

/// One thing for the caller to do.
#[derive(Debug)]
pub enum HandshakeStep {
    /// Read exactly this many bytes from the TKey and hand them to
    /// [`HostHandshake::on_bytes`].
    Read(usize),
    /// Have the TPM sign this nonce; its answer is handed to
    /// [`HostHandshake::on_signature`] when the machine asks for it.
    SignNonce([u8; 32]),
    /// Write these bytes to the TKey.
    Write(Vec<u8>),
    /// Hand the TPM's answer to [`HostHandshake::on_signature`].
    AwaitTpm,
}

/// The mathematical form of a [`HandshakeStep`].
pub enum HandshakeAction {
    Read(nat),
    SignNonce(Seq<u8>),
    Write(Seq<u8>),
    AwaitTpm,
}

impl View for HandshakeStep {
    type V = HandshakeAction;

    open spec fn view(&self) -> HandshakeAction {
        match self {
            HandshakeStep::Read(n) => HandshakeAction::Read(*n as nat),
            HandshakeStep::SignNonce(n) => HandshakeAction::SignNonce(n@),
            HandshakeStep::Write(b) => HandshakeAction::Write(b@),
            HandshakeStep::AwaitTpm => HandshakeAction::AwaitTpm,
        }
    }
}

/// The actions of a list of steps.
pub open spec fn handshake_actions(steps: Seq<HandshakeStep>) -> Seq<HandshakeAction> {
    steps.map_values(|s: HandshakeStep| s@)
}

/// Where the handshake stands.
#[derive(Debug, Clone, Copy, PartialEq, Eq, Structural)]
pub enum HandshakePhase {
    /// Nothing has happened yet.
    Start,
    /// The TKey's 32-byte nonce is awaited.
    AwaitNonce,
    /// The TKey's 12-byte channel nonce is awaited.
    AwaitChannelNonce,
    /// The host's public key is out; the TKey's is awaited.
    AwaitTkeyKey,
    /// The channel stands; the TPM's answer is awaited.
    AwaitTpm,
    /// The TPM's answer is out; the TKey's status byte is awaited.
    AwaitStatus,
    /// Trust is settled.
    Finished,
}

/// How many bytes the handshake reads in `phase`.
pub open spec fn read_len(phase: HandshakePhase) -> nat {
    match phase {
        HandshakePhase::AwaitNonce => 32,
        HandshakePhase::AwaitChannelNonce => 12,
        HandshakePhase::AwaitTkeyKey => 32,
        _ => 0,
    }
}

/// The handshake's reaction to the bytes `bytes` read in state `h`: the
/// next state `t` and the actions `a`.  After the nonce, the TPM is to sign
/// it while the TKey's channel nonce is read; after the channel nonce, the
/// host's public key goes out and the TKey's is read; after that, the
/// channel is keyed by the shared secret and the TPM's answer is awaited.
pub open spec fn host_reads(h: HostHandshake, bytes: Seq<u8>, t: HostHandshake, a: Seq<HandshakeAction>) -> bool {
    &&& t.wf()
    &&& t.secret() == h.secret()
    &&& match h.phase() {
        HandshakePhase::AwaitNonce => {
            &&& a == seq![HandshakeAction::SignNonce(bytes), HandshakeAction::Read(12)]
            &&& t.phase() is AwaitChannelNonce
            &&& t.nonce() == bytes
        },
        HandshakePhase::AwaitChannelNonce => {
            &&& a == seq![
                HandshakeAction::Write(x25519_mul(h.secret(), x25519_basepoint_bytes())),
                HandshakeAction::Read(32),
            ]
            &&& t.phase() is AwaitTkeyKey
            &&& t.nonce() == h.nonce()
            &&& t.channel_nonce() == bytes
        },
        _ => {
            &&& a == seq![HandshakeAction::AwaitTpm]
            &&& t.phase() is AwaitTpm
            &&& t.nonce() == h.nonce()
            &&& t.channel().key() == x25519_mul(h.secret(), bytes)
            &&& t.channel().nonce() == h.channel_nonce()
            &&& t.channel().position() == 0
        },
    }
}

/// The state of the host's handshake.
pub struct HostHandshake {
    share: Option<HostKeyShare>,
    secret: Ghost<Seq<u8>>,
    nonce: [u8; 32],
    channel_nonce: [u8; 12],
    cipher: SessionCipher,
    signed: bool,
    phase: HandshakePhase,
}

impl HostHandshake {
    /// Where the handshake stands.
    pub closed spec fn phase(&self) -> HandshakePhase {
        self.phase
    }

    /// The secret of the host's X25519 share.
    pub closed spec fn secret(&self) -> Seq<u8> {
        self.secret@
    }

    /// The TKey's nonce.
    pub closed spec fn nonce(&self) -> Seq<u8> {
        self.nonce@
    }

    /// The channel nonce the TKey chose.
    pub closed spec fn channel_nonce(&self) -> Seq<u8> {
        self.channel_nonce@
    }

    /// The channel to the TKey.
    pub closed spec fn channel(&self) -> SessionCipher {
        self.cipher
    }

    /// Whether the TPM signed the nonce.
    pub closed spec fn signed(&self) -> bool {
        self.signed
    }

    /// The state is consistent: the share is kept until the channel is
    /// built from it.
    pub closed spec fn wf(&self) -> bool {
        (self.phase is Start || self.phase is AwaitNonce || self.phase is AwaitChannelNonce
            || self.phase is AwaitTkeyKey) ==> (self.share matches Some(s) && s.secret() == self.secret@)
    }

    /// Whether the TKey's status byte is awaited, to be decoded and handed
    /// to [`HostHandshake::on_status`].
    pub fn awaits_status(&self) -> (b: bool)
        ensures
            b == (self.phase() is AwaitStatus),
    {
        match self.phase {
            HandshakePhase::AwaitStatus => true,
            _ => false,
        }
    }

    /// A handshake with the host's X25519 share.
    pub fn new(share: HostKeyShare) -> (h: HostHandshake)
        ensures
            h.wf(),
            h.phase() == HandshakePhase::Start,
            h.secret() == share.secret(),
    {
        let ghost secret = share.secret();
        HostHandshake {
            share: Some(share),
            secret: Ghost(secret),
            nonce: [0u8; 32],
            channel_nonce: [0u8; 12],
            cipher: SessionCipher::new([0u8; 32], [0u8; 12]),
            signed: false,
            phase: HandshakePhase::Start,
        }
    }

    /// The first step: read the TKey's nonce.
    pub fn start(&mut self) -> (steps: Vec<HandshakeStep>)
        requires
            old(self).wf(),
            old(self).phase() == HandshakePhase::Start,
        ensures
            final(self).wf(),
            final(self).secret() == old(self).secret(),
            final(self).phase() == HandshakePhase::AwaitNonce,
            handshake_actions(steps@) == seq![HandshakeAction::Read(32)],
    {
        let mut steps: Vec<HandshakeStep> = Vec::new();
        steps.push(HandshakeStep::Read(32));
        self.phase = HandshakePhase::AwaitNonce;
        proof {
            assert(handshake_actions(steps@) =~= seq![HandshakeAction::Read(32)]);
        }
        steps
    }

    /// Takes the bytes read in a reading phase (see [`host_reads`]).
    pub fn on_bytes(&mut self, bytes: &[u8]) -> (steps: Vec<HandshakeStep>)
        requires
            old(self).wf(),
            old(self).phase() is AwaitNonce || old(self).phase() is AwaitChannelNonce
                || old(self).phase() is AwaitTkeyKey,
            bytes@.len() == read_len(old(self).phase()),
        ensures
            host_reads(*old(self), bytes@, *final(self), handshake_actions(steps@)),
    {
        let mut steps: Vec<HandshakeStep> = Vec::new();
        match self.phase {
            HandshakePhase::AwaitNonce => {
                let mut nonce = [0u8; 32];
                let mut i: usize = 0;
                while i < 32
                    invariant
                        0 <= i <= 32,
                        bytes@.len() == 32,
                        forall|j: int| 0 <= j < i ==> nonce@[j] == bytes@[j],
                    decreases 32 - i,
                {
                    nonce[i] = bytes[i];
                    i = i + 1;
                }
                proof {
                    assert(nonce@ =~= bytes@);
                }
                self.nonce = nonce;
                steps.push(HandshakeStep::SignNonce(nonce));
                steps.push(HandshakeStep::Read(12));
                self.phase = HandshakePhase::AwaitChannelNonce;
                proof {
                    assert(handshake_actions(steps@) =~= seq![HandshakeAction::SignNonce(bytes@), HandshakeAction::Read(12)]);
                }
            },
            HandshakePhase::AwaitChannelNonce => {
                let mut channel_nonce = [0u8; 12];
                let mut i: usize = 0;
                while i < 12
                    invariant
                        0 <= i <= 12,
                        bytes@.len() == 12,
                        forall|j: int| 0 <= j < i ==> channel_nonce@[j] == bytes@[j],
                    decreases 12 - i,
                {
                    channel_nonce[i] = bytes[i];
                    i = i + 1;
                }
                proof {
                    assert(channel_nonce@ =~= bytes@);
                }
                self.channel_nonce = channel_nonce;
                let public = match &self.share {
                    Some(share) => share.public_key(),
                    None => [0u8; 32],
                };
                steps.push(HandshakeStep::Write(vstd::slice::slice_to_vec(public.as_slice())));
                steps.push(HandshakeStep::Read(32));
                self.phase = HandshakePhase::AwaitTkeyKey;
                proof {
                    assert(handshake_actions(steps@) =~= seq![
                        HandshakeAction::Write(x25519_mul(old(self).secret(), x25519_basepoint_bytes())),
                        HandshakeAction::Read(32),
                    ]);
                }
            },
            _ => {
                let mut tkey_public = [0u8; 32];
                let mut i: usize = 0;
                while i < 32
                    invariant
                        0 <= i <= 32,
                        bytes@.len() == 32,
                        forall|j: int| 0 <= j < i ==> tkey_public@[j] == bytes@[j],
                    decreases 32 - i,
                {
                    tkey_public[i] = bytes[i];
                    i = i + 1;
                }
                proof {
                    assert(tkey_public@ =~= bytes@);
                }
                match self.share.take() {
                    Some(share) => {
                        self.cipher = share.into_cipher(tkey_public, self.channel_nonce);
                    },
                    None => {},
                }
                steps.push(HandshakeStep::AwaitTpm);
                self.phase = HandshakePhase::AwaitTpm;
                proof {
                    assert(handshake_actions(steps@) =~= seq![HandshakeAction::AwaitTpm]);
                }
            },
        }
        steps
    }

    /// Takes the TPM's answer: its signature over the nonce goes out after
    /// `TpmSigned`, a refusal as `TpmRefusedToSign`; then the TKey's status
    /// is read.
    pub fn on_signature(&mut self, sig: Option<[u8; 64]>) -> (steps: Vec<HandshakeStep>)
        requires
            old(self).wf(),
            old(self).phase() is AwaitTpm,
        ensures
            final(self).wf(),
            final(self).phase() is AwaitStatus,
            final(self).nonce() == old(self).nonce(),
            final(self).channel() == old(self).channel(),
            final(self).signed() == sig is Some,
            sig matches Some(s) ==> handshake_actions(steps@) == seq![
                HandshakeAction::Write(seq![host_message_code(HostMessage::TpmSigned)] + s@),
                HandshakeAction::Read(1),
            ],
            sig is None ==> handshake_actions(steps@) == seq![
                HandshakeAction::Write(seq![host_err_code(HostErr::TpmRefusedToSign)]),
                HandshakeAction::Read(1),
            ],
    {
        let (reply, signed) = nonce_reply(sig);
        let ghost r = reply@;
        let mut steps: Vec<HandshakeStep> = Vec::new();
        steps.push(HandshakeStep::Write(reply));
        steps.push(HandshakeStep::Read(1));
        self.signed = signed;
        self.phase = HandshakePhase::AwaitStatus;
        proof {
            assert(handshake_actions(steps@) =~= seq![HandshakeAction::Write(r), HandshakeAction::Read(1)]);
        }
        steps
    }

    /// Takes the TKey's status and settles trust: `GoodSig` keeps what the
    /// TPM's answer gave, a signature failure reported by the TKey withdraws
    /// it, and anything else means the two sides are out of step.
    pub fn on_status(&mut self, status: Result<ClientMessage, ClientError>) -> (r: Result<bool, ClientError>)
        requires
            old(self).wf(),
            old(self).phase() is AwaitStatus,
        ensures
            final(self).wf(),
            final(self).phase() is Finished,
            final(self).channel() == old(self).channel(),
            status matches Ok(ClientMessage::GoodSig) ==> r == Ok::<bool, ClientError>(old(self).signed()),
            status matches Err(e) && signature_failure(&e) ==> r == Ok::<bool, ClientError>(false),
            !(status matches Ok(ClientMessage::GoodSig)) && !(status matches Err(e) && signature_failure(&e))
                ==> r matches Err(ClientError::OutOfsync),
    {
        self.phase = HandshakePhase::Finished;
        settle_trust(self.signed, status)
    }

    /// Takes the TKey's status during an enrollment, where a signature that
    /// does not check out is expected after an update: `GoodSig` means a
    /// valid signature and `InvalidSig` an invalid one, another message
    /// means the sides are out of step, and another error stops the
    /// enrollment.
    pub fn on_enrollment_status(&mut self, status: Result<ClientMessage, ClientError>) -> (r: Result<bool, EnrollError>)
        requires
            old(self).wf(),
            old(self).phase() is AwaitStatus,
        ensures
            final(self).wf(),
            final(self).phase() is Finished,
            final(self).channel() == old(self).channel(),
            status matches Ok(ClientMessage::GoodSig) ==> r == Ok::<bool, EnrollError>(true),
            status matches Ok(m) && m != ClientMessage::GoodSig ==> r matches Err(EnrollError::SignatureOutOfSync),
            status matches Err(ClientError::InvalidSig) ==> r == Ok::<bool, EnrollError>(false),
            status matches Err(e) ==> (!(e is InvalidSig) ==> r == Err::<bool, EnrollError>(EnrollError::Client(e))),
    {
        self.phase = HandshakePhase::Finished;
        enrollment_signature_status(status)
    }

    /// The channel, once trust is settled.
    pub fn into_channel(self) -> (c: SessionCipher)
        ensures
            c == self.channel(),
    {
        self.cipher
    }
}

} // verus!
