//! The TKey application's side of the protocol.
//!
//! The application first checks that the TPM's public key decodes; if it
//! does not, it reports `BadPubkey` before anything else goes out.  It then
//! sends a fresh nonce for the TPM to sign, and agrees
//! with the host on a ChaCha20 channel: it sends a 12-byte channel nonce,
//! reads the host's X25519 public key and sends its own.  The host must then
//! answer with the TPM's signature over the nonce, which the application
//! checks against the TPM's public key.  On failure it asks the user to
//! confirm by touch (purple light for a bad signature, yellow for other
//! failures).  It then asks up to three times for the passphrase: the host
//! sends the 32-byte Argon2id hash of it, encrypted on the channel, or the
//! single byte 0 when the passphrase was too short.  The application
//! decrypts the hash and answers with the keyfile `BLAKE2s(key = CDI, hash)`,
//! encrypted on the channel, until the host reports that the disk was
//! unlocked.
//!
//! [`TkeyApp`] takes every decision; the caller performs the [`Command`]s it
//! returns and hands back what they produced as an [`Event`].
use vstd::prelude::*;
use crate::crypto::{
    blake2s_keyed, blake2s_keyed_mac, chacha20_apply, p256_ecdsa_verifies, p256_public_key_decodes,
    p256_signature_decodes, p256_signature_well_formed, p256_spki_valid, p256_verify, x25519,
    x25519_basepoint, x25519_basepoint_bytes, x25519_mul,
};
use crate::session::SessionCipher;

verus! {

/// Statuses that the host sends to the TKey application.
#[derive(Debug, Clone, Copy, PartialEq, Eq, Structural)]
pub enum HostMessage {
    DecryptionSuccess,
    DecryptionError,
    TpmSigned,
    TpmRefusedToSign,
}

/// Successful statuses that the application reports.
#[derive(Debug, Clone, Copy, PartialEq, Eq, Structural)]
pub enum ClientMessage {
    GoodSig,
    GoodPass,
    Ready4pass,
}

/// Failures that the application reports.
#[derive(Debug, Clone, Copy, PartialEq, Eq, Structural)]
pub enum ClientError {
    Blake2,
    PassLen,
    MalformedSig,
    InvalidSig,
    BadPubkey,
    IOError,
    UnknownError,
}

/// Wire byte of each host message.
pub open spec fn host_message_code(m: HostMessage) -> u8 {
    match m {
        HostMessage::DecryptionSuccess => 0x99,
        HostMessage::DecryptionError => 0x98,
        HostMessage::TpmSigned => 0x97,
        HostMessage::TpmRefusedToSign => 0x90,
    }
}

/// Wire byte of each client message.
pub open spec fn client_message_code(m: ClientMessage) -> u8 {
    match m {
        ClientMessage::GoodSig => 0x20,
        ClientMessage::GoodPass => 0x21,
        ClientMessage::Ready4pass => 0x22,
    }
}

/// Wire byte of each client error.
pub open spec fn client_error_code(e: ClientError) -> u8 {
    match e {
        ClientError::Blake2 => 0x10,
        ClientError::PassLen => 0x11,
        ClientError::MalformedSig => 0x12,
        ClientError::InvalidSig => 0x13,
        ClientError::BadPubkey => 0x14,
        ClientError::IOError => 0x15,
        ClientError::UnknownError => 0x16,
    }
}

impl HostMessage {
    /// The byte that stands for this message on the wire.
    pub fn code(&self) -> (c: u8)
        ensures
            c == host_message_code(*self),
    {
        match self {
            HostMessage::DecryptionSuccess => 0x99,
            HostMessage::DecryptionError => 0x98,
            HostMessage::TpmSigned => 0x97,
            HostMessage::TpmRefusedToSign => 0x90,
        }
    }
}

impl ClientMessage {
    /// The byte that stands for this message on the wire.
    pub fn code(&self) -> (c: u8)
        ensures
            c == client_message_code(*self),
    {
        match self {
            ClientMessage::GoodSig => 0x20,
            ClientMessage::GoodPass => 0x21,
            ClientMessage::Ready4pass => 0x22,
        }
    }
}

impl ClientError {
    /// The byte that stands for this error on the wire.
    pub fn code(&self) -> (c: u8)
        ensures
            c == client_error_code(*self),
    {
        match self {
            ClientError::Blake2 => 0x10,
            ClientError::PassLen => 0x11,
            ClientError::MalformedSig => 0x12,
            ClientError::InvalidSig => 0x13,
            ClientError::BadPubkey => 0x14,
            ClientError::IOError => 0x15,
            ClientError::UnknownError => 0x16,
        }
    }
}

/// The colours the application shows.
#[derive(Debug, Clone, Copy, PartialEq, Eq, Structural)]
pub enum Led {
    Off,
    Green,
    Yellow,
    Purple,
}

/// One thing for the caller to do on the TKey.
#[derive(Debug)]
pub enum Command {
    /// Write these bytes to the host.
    Send(Vec<u8>),
    /// Read exactly this many bytes from the host and report them with
    /// [`Event::Received`].
    Receive(usize),
    /// Draw this many random bytes and report them with [`Event::Received`].
    Random(usize),
    /// Wait up to `seconds` for the user to touch the TKey while showing
    /// `led`, and report with [`Event::Touched`] whether it happened.
    RequestTouch { seconds: u16, led: Led },
    /// Show a colour.
    SetLed(Led),
    /// Busy-wait for this many cycles.
    Sleep(usize),
    /// Halt normally.
    Done,
    /// Halt with the error indication.
    Abort,
}

/// The mathematical form of a [`Command`].
pub enum Action {
    Send(Seq<u8>),
    Receive(nat),
    Random(nat),
    RequestTouch(u16, Led),
    SetLed(Led),
    Sleep(nat),
    Done,
    Abort,
}

impl View for Command {
    type V = Action;

    open spec fn view(&self) -> Action {
        match self {
            Command::Send(b) => Action::Send(b@),
            Command::Receive(n) => Action::Receive(*n as nat),
            Command::Random(n) => Action::Random(*n as nat),
            Command::RequestTouch { seconds, led } => Action::RequestTouch(*seconds, *led),
            Command::SetLed(l) => Action::SetLed(*l),
            Command::Sleep(n) => Action::Sleep(*n as nat),
            Command::Done => Action::Done,
            Command::Abort => Action::Abort,
        }
    }
}

/// The actions of a list of commands.
pub open spec fn actions(cmds: Seq<Command>) -> Seq<Action> {
    cmds.map_values(|c: Command| c@)
}

/// What the caller reports back.
#[derive(Debug)]
pub enum Event {
    /// The bytes that a [`Command::Receive`] or [`Command::Random`] produced.
    Received(Vec<u8>),
    /// Whether the user touched the TKey during a [`Command::RequestTouch`].
    Touched(bool),
}

/// Where the application stands.
#[derive(Debug, Clone, Copy, PartialEq, Eq, Structural)]
pub enum AppPhase {
    /// Nothing has happened yet.
    Start,
    /// A nonce for the TPM was asked for.
    AwaitNonce,
    /// The nonce is out; 44 random bytes (channel nonce and X25519 secret)
    /// were asked for.
    AwaitKeyMaterial,
    /// The channel nonce is out; the host's X25519 public key is awaited.
    AwaitHostKey,
    /// The channel stands; the host's status byte is awaited.
    AwaitStatus,
    /// The host announced a signature; its 64 bytes are awaited.
    AwaitSignature,
    /// The signature check failed; the user's touch is awaited.
    AwaitTouch,
    /// A passphrase was asked for; the first byte of the host's answer is
    /// awaited.
    AwaitMarker,
    /// The encrypted hash began with this byte; its other 31 bytes are
    /// awaited.
    AwaitHash(u8),
    /// The keyfile is out; the host's verdict is awaited.
    AwaitVerdict,
    /// The application has halted.
    Halted,
}

/// How many cycles the application pauses after a failed attempt.
pub const RETRY_PAUSE: usize = 3;

/// How many cycles the success light stays on.
pub const SUCCESS_PAUSE: usize = 6;

/// How long the user has to confirm by touch, in seconds.
pub const TOUCH_SECONDS: u16 = 30;

/// How many passphrases the application accepts at most.
pub const MAX_ATTEMPTS: u8 = 3;

/// The byte by which the host says that the passphrase was too short.
pub const REFUSED_PASSPHRASE: u8 = 0;

/// Length of the encrypted passphrase hash.
pub const HASH_LEN: usize = 32;

/// Keystream bytes that one passphrase exchange uses: the hash coming in and
/// the keyfile going out.
pub open spec fn exchange_keystream() -> nat {
    64
}

/// The state of the TKey application.
pub struct TkeyApp {
    pubkey_der: Vec<u8>,
    cdi: [u8; 32],
    nonce: Vec<u8>,
    channel_nonce: [u8; 12],
    secret: [u8; 32],
    cipher: SessionCipher,
    attempts: u8,
    phase: AppPhase,
}

/// The colour shown while asking for a touch after `e`.
pub open spec fn touch_led(e: ClientError) -> Led {
    if e is InvalidSig {
        Led::Purple
    } else {
        Led::Yellow
    }
}

/// The actions that report `e` and ask the user to confirm by touch.
pub open spec fn failure_actions(e: ClientError) -> Seq<Action> {
    seq![
        Action::Send(seq![client_error_code(e)]),
        Action::RequestTouch(TOUCH_SECONDS, touch_led(e)),
    ]
}

/// The actions at the head of a new attempt, after `attempts` attempts: a
/// request for a passphrase, or the halt after the third.
pub open spec fn attempt_actions(attempts: u8) -> Seq<Action> {
    if attempts >= MAX_ATTEMPTS {
        seq![Action::Abort]
    } else {
        seq![Action::Send(seq![client_message_code(ClientMessage::Ready4pass)]), Action::Receive(1)]
    }
}

/// The phase after the head of a new attempt.
pub open spec fn attempt_phase(attempts: u8) -> AppPhase {
    if attempts >= MAX_ATTEMPTS {
        AppPhase::Halted
    } else {
        AppPhase::AwaitMarker
    }
}

/// The attempt count after the head of a new attempt.
pub open spec fn attempt_count(attempts: u8) -> u8 {
    if attempts >= MAX_ATTEMPTS {
        attempts
    } else {
        (attempts + 1) as u8
    }
}

/// The actions that finish after the host reported success.
pub open spec fn success_actions() -> Seq<Action> {
    seq![
        Action::SetLed(Led::Green),
        Action::Sleep(SUCCESS_PAUSE as nat),
        Action::SetLed(Led::Off),
        Action::Done,
    ]
}

/// Whether `e` is a single byte.
pub open spec fn one_byte(e: Event) -> bool {
    e matches Event::Received(b) && b@.len() == 1
}

/// The single byte of `e`.
pub open spec fn byte_of(e: Event) -> u8 {
    match e {
        Event::Received(b) => b@[0],
        _ => 0,
    }
}

/// The bytes of `e`.
pub open spec fn bytes_of(e: Event) -> Seq<u8> {
    match e {
        Event::Received(b) => b@,
        _ => Seq::empty(),
    }
}

/// Whether `e` holds exactly `n` bytes.
pub open spec fn received(e: Event, n: nat) -> bool {
    e is Received && bytes_of(e).len() == n
}

/// The error the application reports for the host's answer to its nonce: a
/// missing or malformed signature, then one that does not verify.  (A TPM
/// key that does not decode is reported before the nonce goes out.)
pub open spec fn signature_error(der: Seq<u8>, nonce: Seq<u8>, signed: bool, sig: Seq<u8>) -> Option<ClientError> {
    if !signed {
        Some(ClientError::InvalidSig)
    } else if !p256_signature_well_formed(sig) {
        Some(ClientError::MalformedSig)
    } else if !p256_ecdsa_verifies(der, nonce, sig) {
        Some(ClientError::InvalidSig)
    } else {
        None
    }
}

fn send_byte(b: u8) -> (c: Command)
    ensures
        c@ == Action::Send(seq![b]),
{
    let mut v: Vec<u8> = Vec::new();
    v.push(b);
    proof {
        assert(v@ =~= seq![b]);
    }
    Command::Send(v)
}

/// Copies bytes `from .. from + 32` of `v`.
fn take32(v: &Vec<u8>, from: usize) -> (a: [u8; 32])
    requires
        from + 32 <= v@.len(),
    ensures
        a@ == v@.subrange(from as int, from + 32),
{
    let mut a = [0u8; 32];
    let mut i: usize = 0;
    while i < 32
        invariant
            0 <= i <= 32,
            from + 32 <= v.len(),
            forall|j: int| 0 <= j < i ==> a@[j] == v@[from + j],
        decreases 32 - i,
    {
        a[i] = v[from + i];
        i = i + 1;
    }
    proof {
        assert(a@ =~= v@.subrange(from as int, from + 32));
    }
    a
}

/// Copies the first 12 bytes of `v`.
fn take12(v: &Vec<u8>) -> (a: [u8; 12])
    requires
        12 <= v@.len(),
    ensures
        a@ == v@.subrange(0, 12),
{
    let mut a = [0u8; 12];
    let mut i: usize = 0;
    while i < 12
        invariant
            0 <= i <= 12,
            12 <= v@.len(),
            forall|j: int| 0 <= j < i ==> a@[j] == v@[j],
        decreases 12 - i,
    {
        a[i] = v[i];
        i = i + 1;
    }
    proof {
        assert(a@ =~= v@.subrange(0, 12));
    }
    a
}

impl TkeyApp {
    /// Where the application stands.
    pub closed spec fn phase(&self) -> AppPhase {
        self.phase
    }

    /// How many passphrases the application has asked for.
    pub closed spec fn attempts(&self) -> u8 {
        self.attempts
    }

    /// The TPM's public key (DER).
    pub closed spec fn pubkey(&self) -> Seq<u8> {
        self.pubkey_der@
    }

    /// The application's compound device identifier.
    pub closed spec fn cdi(&self) -> Seq<u8> {
        self.cdi@
    }

    /// The nonce sent to the host for the TPM to sign.
    pub closed spec fn nonce(&self) -> Seq<u8> {
        self.nonce@
    }

    /// The nonce of the channel.
    pub closed spec fn channel_nonce(&self) -> Seq<u8> {
        self.channel_nonce@
    }

    /// The application's X25519 secret.
    pub closed spec fn secret(&self) -> Seq<u8> {
        self.secret@
    }

    /// The channel to the host.
    pub closed spec fn channel(&self) -> SessionCipher {
        self.cipher
    }

    /// The state is consistent: at most three attempts, none before the
    /// signature step is over and at least one after, and the channel has
    /// used at most 64 bytes of keystream per attempt.
    pub closed spec fn wf(&self) -> bool {
        &&& self.attempts <= MAX_ATTEMPTS
        &&& (self.phase is AwaitMarker || self.phase is AwaitHash || self.phase is AwaitVerdict)
            ==> self.attempts >= 1
        &&& (self.phase is Start || self.phase is AwaitNonce || self.phase is AwaitKeyMaterial
            || self.phase is AwaitHostKey || self.phase is AwaitStatus || self.phase is AwaitSignature
            || self.phase is AwaitTouch) ==> self.attempts == 0
        &&& self.cipher.position() <= 64 * self.attempts
        &&& (self.phase is AwaitMarker || self.phase is AwaitHash)
            ==> self.cipher.position() + 64 <= 64 * self.attempts
        &&& (self.phase is AwaitNonce || self.phase is AwaitKeyMaterial || self.phase is AwaitHostKey
            || self.phase is AwaitStatus || self.phase is AwaitSignature) ==> p256_spki_valid(self.pubkey_der@)
    }

    /// What consistency guarantees.
    pub proof fn lemma_wf(&self)
        requires
            self.wf(),
        ensures
            self.attempts() <= MAX_ATTEMPTS,
            (self.phase() is AwaitMarker || self.phase() is AwaitHash || self.phase() is AwaitVerdict)
                ==> self.attempts() >= 1,
            (self.phase() is Start || self.phase() is AwaitNonce || self.phase() is AwaitKeyMaterial
                || self.phase() is AwaitHostKey || self.phase() is AwaitStatus
                || self.phase() is AwaitSignature || self.phase() is AwaitTouch) ==> self.attempts() == 0,
            self.channel().position() <= 64 * self.attempts(),
            (self.phase() is AwaitMarker || self.phase() is AwaitHash)
                ==> self.channel().position() + 64 <= 64 * self.attempts(),
            (self.phase() is AwaitNonce || self.phase() is AwaitKeyMaterial || self.phase() is AwaitHostKey
                || self.phase() is AwaitStatus || self.phase() is AwaitSignature) ==> p256_spki_valid(self.pubkey()),
    {
    }

    /// A fresh application with the TPM's public key (DER) and the CDI.
    pub fn new(pubkey_der: Vec<u8>, cdi: [u8; 32]) -> (app: TkeyApp)
        ensures
            app.wf(),
            app.phase() == AppPhase::Start,
            app.attempts() == 0,
            app.pubkey() == pubkey_der@,
            app.cdi() == cdi@,
            app.channel().position() == 0,
    {
        TkeyApp {
            pubkey_der,
            cdi,
            nonce: Vec::new(),
            channel_nonce: [0u8; 12],
            secret: [0u8; 32],
            cipher: SessionCipher::new([0u8; 32], [0u8; 12]),
            attempts: 0,
            phase: AppPhase::Start,
        }
    }

    /// The report of `e` and the request for a touch.
    fn fail(&mut self, e: ClientError) -> (cmds: Vec<Command>)
        requires
            old(self).attempts == 0,
            old(self).cipher.position() == 0,
        ensures
            actions(cmds@) == failure_actions(e),
            final(self).phase == AppPhase::AwaitTouch,
            final(self).attempts == 0,
            final(self).pubkey_der == old(self).pubkey_der,
            final(self).cdi == old(self).cdi,
            final(self).nonce == old(self).nonce,
            final(self).cipher == old(self).cipher,
    {
        let led = match e {
            ClientError::InvalidSig => Led::Purple,
            _ => Led::Yellow,
        };
        let mut cmds: Vec<Command> = Vec::new();
        cmds.push(send_byte(e.code()));
        cmds.push(Command::RequestTouch { seconds: TOUCH_SECONDS, led });
        self.phase = AppPhase::AwaitTouch;
        proof {
            assert(actions(cmds@) =~= failure_actions(e));
        }
        cmds
    }

    /// Appends the head of a new attempt to `cmds`.
    fn next_attempt(&mut self, cmds: &mut Vec<Command>)
        requires
            old(self).attempts <= MAX_ATTEMPTS,
            old(self).cipher.position() <= 64 * old(self).attempts,
        ensures
            actions(final(cmds)@) == actions(old(cmds)@) + attempt_actions(old(self).attempts),
            final(self).phase == attempt_phase(old(self).attempts),
            final(self).attempts == attempt_count(old(self).attempts),
            final(self).pubkey_der == old(self).pubkey_der,
            final(self).cdi == old(self).cdi,
            final(self).nonce == old(self).nonce,
            final(self).cipher == old(self).cipher,
            final(self).wf(),
    {
        let ghost before = cmds@;
        if self.attempts >= MAX_ATTEMPTS {
            cmds.push(Command::Abort);
            self.phase = AppPhase::Halted;
        } else {
            self.attempts = self.attempts + 1;
            cmds.push(send_byte(ClientMessage::Ready4pass.code()));
            cmds.push(Command::Receive(1));
            self.phase = AppPhase::AwaitMarker;
        }
        proof {
            assert(actions(cmds@) =~= actions(before) + attempt_actions(old(self).attempts));
        }
    }

    /// What the application does first: with a TPM key that decodes, it
    /// asks for a 32-byte nonce; otherwise it reports `BadPubkey` before
    /// anything else goes out and asks the user to confirm by touch.
    pub fn start(&mut self) -> (cmds: Vec<Command>)
        requires
            old(self).wf(),
            old(self).phase() == AppPhase::Start,
        ensures
            final(self).wf(),
            final(self).pubkey() == old(self).pubkey(),
            final(self).cdi() == old(self).cdi(),
            final(self).attempts() == 0,
            final(self).channel() == old(self).channel(),
            p256_spki_valid(old(self).pubkey()) ==> actions(cmds@) == seq![Action::Random(32)]
                && final(self).phase() == AppPhase::AwaitNonce,
            !p256_spki_valid(old(self).pubkey()) ==> actions(cmds@) == failure_actions(ClientError::BadPubkey)
                && final(self).phase() == AppPhase::AwaitTouch,
    {
        if !p256_public_key_decodes(self.pubkey_der.as_slice()) {
            return self.fail(ClientError::BadPubkey);
        }
        let mut cmds: Vec<Command> = Vec::new();
        cmds.push(Command::Random(32));
        self.phase = AppPhase::AwaitNonce;
        proof {
            assert(actions(cmds@) =~= seq![Action::Random(32)]);
        }
        cmds
    }

    /// The outcome of the signature step.
    fn settle_signature(&mut self, signed: bool, sig: &[u8; 64]) -> (cmds: Vec<Command>)
        requires
            old(self).wf(),
            old(self).phase is AwaitStatus || old(self).phase is AwaitSignature,
        ensures
            final(self).wf(),
            final(self).pubkey_der == old(self).pubkey_der,
            final(self).cdi == old(self).cdi,
            final(self).nonce == old(self).nonce,
            final(self).cipher == old(self).cipher,
            signature_outcome(*old(self), signature_error(old(self).pubkey(), old(self).nonce(), signed, sig@),
                *final(self), actions(cmds@)),
    {
        if !signed {
            return self.fail(ClientError::InvalidSig);
        }
        if !p256_signature_decodes(sig) {
            return self.fail(ClientError::MalformedSig);
        }
        if !p256_verify(self.pubkey_der.as_slice(), self.nonce.as_slice(), sig) {
            return self.fail(ClientError::InvalidSig);
        }
        let mut cmds: Vec<Command> = Vec::new();
        cmds.push(send_byte(ClientMessage::GoodSig.code()));
        cmds.push(Command::SetLed(Led::Green));
        self.next_attempt(&mut cmds);
        proof {
            assert(actions(cmds@) =~= seq![
                Action::Send(seq![client_message_code(ClientMessage::GoodSig)]),
                Action::SetLed(Led::Green),
            ] + attempt_actions(0));
        }
        cmds
    }

    /// Takes what the last commands produced and returns what to do next.
    /// An event that the phase does not expect halts with the error
    /// indication.
    pub fn on_event(&mut self, ev: Event) -> (cmds: Vec<Command>)
        requires
            old(self).wf(),
        ensures
            final(self).wf(),
            reacts(*old(self), ev, *final(self), actions(cmds@)),
    {
        let ghost ev0 = ev;
        match self.phase {
            AppPhase::AwaitNonce => {
                if let Event::Received(nonce) = ev {
                    if nonce.len() == 32 {
                        let mut cmds: Vec<Command> = Vec::new();
                        cmds.push(Command::Send(nonce.clone()));
                        cmds.push(Command::Random(44));
                        self.nonce = nonce;
                        self.phase = AppPhase::AwaitKeyMaterial;
                        proof {
                            assert(actions(cmds@) =~= seq![Action::Send(bytes_of(ev0)), Action::Random(44)]);
                        }
                        return cmds;
                    }
                }
                self.halt()
            },
            AppPhase::AwaitKeyMaterial => {
                if let Event::Received(r) = ev {
                    if r.len() == 44 {
                        let channel_nonce = take12(&r);
                        let secret = take32(&r, 12);
                        let mut cmds: Vec<Command> = Vec::new();
                        cmds.push(Command::Send(vstd::slice::slice_to_vec(channel_nonce.as_slice())));
                        cmds.push(Command::Receive(32));
                        self.channel_nonce = channel_nonce;
                        self.secret = secret;
                        self.phase = AppPhase::AwaitHostKey;
                        proof {
                            assert(actions(cmds@) =~= seq![
                                Action::Send(bytes_of(ev0).subrange(0, 12)),
                                Action::Receive(32),
                            ]);
                        }
                        return cmds;
                    }
                }
                self.halt()
            },
            AppPhase::AwaitHostKey => {
                if let Event::Received(host_key) = ev {
                    if host_key.len() == 32 {
                        let host_public = take32(&host_key, 0);
                        proof {
                            assert(host_key@.subrange(0, 32) =~= host_key@);
                        }
                        let own_public = x25519(self.secret, x25519_basepoint());
                        let shared = x25519(self.secret, host_public);
                        let mut cmds: Vec<Command> = Vec::new();
                        cmds.push(Command::Send(vstd::slice::slice_to_vec(own_public.as_slice())));
                        cmds.push(Command::Receive(1));
                        self.cipher = SessionCipher::new(shared, self.channel_nonce);
                        self.phase = AppPhase::AwaitStatus;
                        proof {
                            assert(actions(cmds@) =~= seq![
                                Action::Send(x25519_mul(self.secret@, x25519_basepoint_bytes())),
                                Action::Receive(1),
                            ]);
                        }
                        return cmds;
                    }
                }
                self.halt()
            },
            AppPhase::AwaitStatus => {
                if let Event::Received(b) = ev {
                    if b.len() == 1 {
                        if b[0] == HostMessage::TpmSigned.code() {
                            let mut cmds: Vec<Command> = Vec::new();
                            cmds.push(Command::Receive(64));
                            self.phase = AppPhase::AwaitSignature;
                            proof {
                                assert(actions(cmds@) =~= seq![Action::Receive(64)]);
                            }
                            return cmds;
                        } else {
                            return self.settle_signature(false, &[0u8; 64]);
                        }
                    }
                }
                self.halt()
            },
            AppPhase::AwaitSignature => {
                if let Event::Received(sig) = ev {
                    if sig.len() == 64 {
                        let mut s = [0u8; 64];
                        let mut i: usize = 0;
                        while i < 64
                            invariant
                                0 <= i <= 64,
                                sig@.len() == 64,
                                forall|j: int| 0 <= j < i ==> s@[j] == sig@[j],
                            decreases 64 - i,
                        {
                            s[i] = sig[i];
                            i = i + 1;
                        }
                        proof {
                            assert(s@ =~= sig@);
                        }
                        return self.settle_signature(true, &s);
                    }
                }
                self.halt()
            },
            AppPhase::AwaitTouch => {
                if let Event::Touched(touched) = ev {
                    if touched {
                        let mut cmds: Vec<Command> = Vec::new();
                        self.next_attempt(&mut cmds);
                        proof {
                            assert(actions(cmds@) =~= attempt_actions(0));
                        }
                        return cmds;
                    }
                }
                self.halt()
            },
            AppPhase::AwaitMarker => {
                if let Event::Received(b) = ev {
                    if b.len() == 1 {
                        let first = b[0];
                        if first == REFUSED_PASSPHRASE {
                            let mut cmds: Vec<Command> = Vec::new();
                            cmds.push(send_byte(ClientError::PassLen.code()));
                            cmds.push(Command::Sleep(RETRY_PAUSE));
                            let ghost a0 = self.attempts;
                            self.next_attempt(&mut cmds);
                            proof {
                                assert(actions(cmds@) =~= seq![
                                    Action::Send(seq![client_error_code(ClientError::PassLen)]),
                                    Action::Sleep(RETRY_PAUSE as nat),
                                ] + attempt_actions(a0));
                            }
                            return cmds;
                        } else {
                            let mut cmds: Vec<Command> = Vec::new();
                            cmds.push(Command::Receive(HASH_LEN - 1));
                            self.phase = AppPhase::AwaitHash(first);
                            proof {
                                assert(actions(cmds@) =~= seq![Action::Receive(31)]);
                            }
                            return cmds;
                        }
                    }
                }
                self.halt()
            },
            AppPhase::AwaitHash(first) => {
                if let Event::Received(rest) = ev {
                    if rest.len() == HASH_LEN - 1 {
                        let ghost a0 = self.attempts;
                        let ghost c0 = self.cipher;
                        let mut encrypted: Vec<u8> = Vec::new();
                        encrypted.push(first);
                        let mut i: usize = 0;
                        while i < rest.len()
                            invariant
                                0 <= i <= rest@.len(),
                                encrypted@ == seq![first] + rest@.subrange(0, i as int),
                            decreases rest@.len() - i,
                        {
                            encrypted.push(rest[i]);
                            proof {
                                assert(rest@.subrange(0, i + 1) =~= rest@.subrange(0, i as int).push(rest@[i as int]));
                            }
                            i = i + 1;
                        }
                        proof {
                            assert(rest@.subrange(0, rest@.len() as int) =~= rest@);
                        }
                        let hash = self.cipher.apply_keystream(encrypted.as_slice());
                        match blake2s_keyed(&self.cdi, hash.as_slice()) {
                            Some(keyfile) => {
                                let sealed = self.cipher.apply_keystream(keyfile.as_slice());
                                let mut cmds: Vec<Command> = Vec::new();
                                cmds.push(send_byte(ClientMessage::GoodPass.code()));
                                cmds.push(Command::Send(sealed));
                                cmds.push(Command::Receive(1));
                                self.phase = AppPhase::AwaitVerdict;
                                proof {
                                    assert(actions(cmds@) =~= seq![
                                        Action::Send(seq![client_message_code(ClientMessage::GoodPass)]),
                                        Action::Send(chacha20_apply(c0.key(), c0.nonce(), c0.position() + 32,
                                            blake2s_keyed_mac(self.cdi@, chacha20_apply(c0.key(), c0.nonce(),
                                            c0.position(), seq![first] + rest@)))),
                                        Action::Receive(1),
                                    ]);
                                }
                                return cmds;
                            },
                            None => {
                                let mut cmds: Vec<Command> = Vec::new();
                                cmds.push(send_byte(ClientError::Blake2.code()));
                                cmds.push(Command::Sleep(RETRY_PAUSE));
                                self.next_attempt(&mut cmds);
                                return cmds;
                            },
                        }
                    }
                }
                self.halt()
            },
            AppPhase::AwaitVerdict => {
                if let Event::Received(b) = ev {
                    if b.len() == 1 {
                        let mut cmds: Vec<Command> = Vec::new();
                        if b[0] == HostMessage::DecryptionSuccess.code() {
                            cmds.push(Command::SetLed(Led::Green));
                            cmds.push(Command::Sleep(SUCCESS_PAUSE));
                            cmds.push(Command::SetLed(Led::Off));
                            cmds.push(Command::Done);
                            self.phase = AppPhase::Halted;
                            proof {
                                assert(actions(cmds@) =~= success_actions());
                            }
                        } else {
                            cmds.push(Command::Sleep(RETRY_PAUSE));
                            let ghost a0 = self.attempts;
                            self.next_attempt(&mut cmds);
                            proof {
                                assert(actions(cmds@) =~= seq![Action::Sleep(RETRY_PAUSE as nat)]
                                    + attempt_actions(a0));
                            }
                        }
                        return cmds;
                    }
                }
                self.halt()
            },
            _ => self.halt(),
        }
    }

    /// Halts with the error indication.
    fn halt(&mut self) -> (cmds: Vec<Command>)
        requires
            old(self).wf(),
        ensures
            actions(cmds@) == seq![Action::Abort],
            final(self).phase == AppPhase::Halted,
            final(self).attempts == old(self).attempts,
            final(self).pubkey_der == old(self).pubkey_der,
            final(self).cdi == old(self).cdi,
            final(self).nonce == old(self).nonce,
            final(self).cipher == old(self).cipher,
            final(self).wf(),
    {
        let mut cmds: Vec<Command> = Vec::new();
        cmds.push(Command::Abort);
        self.phase = AppPhase::Halted;
        proof {
            assert(actions(cmds@) =~= seq![Action::Abort]);
        }
        cmds
    }
}

/// The end of the signature step: with error `e`, its report and the request
/// for a touch; without, `GoodSig`, the green light and the first request
/// for a passphrase.
pub open spec fn signature_outcome(s: TkeyApp, e: Option<ClientError>, t: TkeyApp, a: Seq<Action>) -> bool {
    &&& t.attempts() == (if e is Some { 0u8 } else { 1u8 })
    &&& t.channel() == s.channel()
    &&& match e {
        Some(err) => a == failure_actions(err) && t.phase() is AwaitTouch,
        None => {
            &&& a == seq![
                Action::Send(seq![client_message_code(ClientMessage::GoodSig)]),
                Action::SetLed(Led::Green),
            ] + attempt_actions(0)
            &&& t.phase() is AwaitMarker
        },
    }
}

/// The application's reaction to `ev` in state `s`: the next state `t` and
/// the actions `a`.  Unexpected events halt with the error indication.  The
/// channel changes only when it is set up and when a passphrase exchange
/// uses it.
pub open spec fn reacts(s: TkeyApp, ev: Event, t: TkeyApp, a: Seq<Action>) -> bool {
    let halted = a == seq![Action::Abort] && t.phase() is Halted && t.attempts() == s.attempts();
    &&& t.pubkey() == s.pubkey()
    &&& t.cdi() == s.cdi()
    &&& (!(s.phase() is AwaitHostKey || s.phase() is AwaitHash) ==> t.channel() == s.channel())
    &&& match s.phase() {
        AppPhase::AwaitNonce => if received(ev, 32) {
            &&& a == seq![Action::Send(bytes_of(ev)), Action::Random(44)]
            &&& t.phase() is AwaitKeyMaterial && t.nonce() == bytes_of(ev) && t.attempts() == s.attempts()
        } else {
            halted
        },
        AppPhase::AwaitKeyMaterial => if received(ev, 44) {
            &&& a == seq![Action::Send(bytes_of(ev).subrange(0, 12)), Action::Receive(32)]
            &&& t.phase() is AwaitHostKey && t.nonce() == s.nonce() && t.attempts() == s.attempts()
            &&& t.channel_nonce() == bytes_of(ev).subrange(0, 12)
            &&& t.secret() == bytes_of(ev).subrange(12, 44)
        } else {
            halted
        },
        AppPhase::AwaitHostKey => if received(ev, 32) {
            &&& a == seq![Action::Send(x25519_mul(s.secret(), x25519_basepoint_bytes())), Action::Receive(1)]
            &&& x25519_mul(s.secret(), x25519_basepoint_bytes()).len() == 32
            &&& t.phase() is AwaitStatus && t.nonce() == s.nonce() && t.attempts() == s.attempts()
            &&& t.channel().key() == x25519_mul(s.secret(), bytes_of(ev))
            &&& t.channel().nonce() == s.channel_nonce()
            &&& t.channel().position() == 0
        } else {
            halted && t.channel() == s.channel()
        },
        AppPhase::AwaitStatus => if one_byte(ev) {
            if byte_of(ev) == host_message_code(HostMessage::TpmSigned) {
                a == seq![Action::Receive(64)] && t.phase() is AwaitSignature
                    && t.nonce() == s.nonce() && t.attempts() == s.attempts()
            } else {
                signature_outcome(s, signature_error(s.pubkey(), s.nonce(), false, Seq::empty()), t, a)
            }
        } else {
            halted
        },
        AppPhase::AwaitSignature => if received(ev, 64) {
            signature_outcome(s, signature_error(s.pubkey(), s.nonce(), true, bytes_of(ev)), t, a)
        } else {
            halted
        },
        AppPhase::AwaitTouch => if ev == Event::Touched(true) {
            &&& a == attempt_actions(s.attempts())
            &&& t.phase() == attempt_phase(s.attempts())
            &&& t.attempts() == attempt_count(s.attempts())
        } else {
            halted
        },
        AppPhase::AwaitMarker => if one_byte(ev) {
            if byte_of(ev) == REFUSED_PASSPHRASE {
                &&& a == seq![
                    Action::Send(seq![client_error_code(ClientError::PassLen)]),
                    Action::Sleep(RETRY_PAUSE as nat),
                ] + attempt_actions(s.attempts())
                &&& t.phase() == attempt_phase(s.attempts())
                &&& t.attempts() == attempt_count(s.attempts())
            } else {
                a == seq![Action::Receive(31)] && t.phase() == AppPhase::AwaitHash(byte_of(ev))
                    && t.attempts() == s.attempts()
            }
        } else {
            halted
        },
        AppPhase::AwaitHash(first) => if received(ev, 31) {
            let c = s.channel();
            let hash = chacha20_apply(c.key(), c.nonce(), c.position(), seq![first] + bytes_of(ev));
            let keyfile = blake2s_keyed_mac(s.cdi(), hash);
            let sealed = chacha20_apply(c.key(), c.nonce(), c.position() + 32, keyfile);
            &&& a == seq![
                Action::Send(seq![client_message_code(ClientMessage::GoodPass)]),
                Action::Send(sealed),
                Action::Receive(1),
            ]
            &&& hash.len() == 32
            &&& keyfile.len() == 32
            &&& sealed.len() == 32
            &&& chacha20_apply(c.key(), c.nonce(), c.position() + 32, sealed) == keyfile
            &&& t.phase() is AwaitVerdict
            &&& t.attempts() == s.attempts()
            &&& t.channel().key() == c.key()
            &&& t.channel().nonce() == c.nonce()
            &&& t.channel().position() == c.position() + exchange_keystream()
        } else {
            halted && t.channel() == s.channel()
        },
        AppPhase::AwaitVerdict => if one_byte(ev) {
            if byte_of(ev) == host_message_code(HostMessage::DecryptionSuccess) {
                a == success_actions() && t.phase() is Halted && t.attempts() == s.attempts()
            } else {
                &&& a == seq![Action::Sleep(RETRY_PAUSE as nat)] + attempt_actions(s.attempts())
                &&& t.phase() == attempt_phase(s.attempts())
                &&& t.attempts() == attempt_count(s.attempts())
            }
        } else {
            halted
        },
        _ => halted,
    }
}

} // verus!
