//! The host's half of an unlocking session: the encrypted channel to the
//! TKey, the passphrase hashing, the trust decision taken from the TPM and
//! the TKey, and the loop of at most three unlocking attempts.
use vstd::prelude::*;
use crate::crypto::{
    argon2_accepts, argon2id_hash, argon2id_output, chacha20_apply, chacha20_keystream_len, chacha20_rng_bytes,
    chacha20_rng_output, chacha20_xor, random_seed, x25519, x25519_basepoint,
    x25519_basepoint_bytes, x25519_mul,
};
use crate::messages::{signature_failure, ClientError, ClientMessage, HostErr};

verus! {

/// Argon2id (version 0x13) settings with which passphrases are hashed.
#[derive(Debug, Clone, Copy, PartialEq, Eq, Structural)]
pub struct Argon2Config {
    /// Memory cost in KiB.
    pub m_cost: u32,
    /// Number of passes.
    pub t_cost: u32,
    /// Degree of parallelism.
    pub p_cost: u32,
}

/// The settings every program of the project hashes passphrases with:
/// 13107 KiB, one pass, four lanes.  They only slow down guessing for an
/// attacker who already holds the TKey's secret, so they favour speed.
pub fn get_argon2() -> (a: Argon2Config)
    ensures
        a == (Argon2Config { m_cost: 13107, t_cost: 1, p_cost: 4 }),
{
    Argon2Config { m_cost: 13107, t_cost: 1, p_cost: 4 }
}

impl Argon2Config {
    /// The 32-byte Argon2id hash of `pwd` with `salt`, or `None` where the
    /// `argon2` crate refuses the settings or the input lengths.
    pub fn hash_password(&self, pwd: &[u8], salt: &[u8]) -> (r: Option<[u8; 32]>)
        requires
            self.p_cost <= 0xFFFFFF,
        ensures
            r is Some <==> argon2_accepts(self.m_cost, self.t_cost, self.p_cost, pwd@.len(), salt@.len()),
            r matches Some(h) ==> h@ == argon2id_output(self.m_cost, self.t_cost, self.p_cost, pwd@, salt@),
    {
        argon2id_hash(self.m_cost, self.t_cost, self.p_cost, pwd, salt)
    }
}

/// How many keystream bytes the session cipher has in all.
pub open spec fn keystream_limit() -> nat {
    chacha20_keystream_len()
}

/// The ChaCha20 channel to the TKey: a key, a nonce, and how many bytes of
/// keystream have been used.
pub struct SessionCipher {
    key: [u8; 32],
    nonce: [u8; 12],
    pos: u64,
}

impl SessionCipher {
    /// The key.
    pub closed spec fn key(&self) -> Seq<u8> {
        self.key@
    }

    /// The nonce.
    pub closed spec fn nonce(&self) -> Seq<u8> {
        self.nonce@
    }

    /// How many keystream bytes have been used.
    pub closed spec fn position(&self) -> nat {
        self.pos as nat
    }

    /// How many keystream bytes have been used, for callers that test the
    /// room left before [`SessionCipher::apply_keystream`].
    pub fn keystream_used(&self) -> (n: u64)
        ensures
            n == self.position(),
    {
        self.pos
    }

    /// How many keystream bytes the channel has in all: 2^38 - 64.
    pub fn keystream_len() -> (n: u64)
        ensures
            n == keystream_limit(),
    {
        0x3F_FFFF_FFC0
    }

    /// A fresh channel with this key and nonce.
    pub fn new(key: [u8; 32], nonce: [u8; 12]) -> (c: SessionCipher)
        ensures
            c.key() == key@,
            c.nonce() == nonce@,
            c.position() == 0,
    {
        SessionCipher { key, nonce, pos: 0 }
    }

    /// Encrypts or decrypts `data` with the next bytes of the keystream.
    pub fn apply_keystream(&mut self, data: &[u8]) -> (out: Vec<u8>)
        requires
            old(self).position() + data@.len() <= keystream_limit(),
        ensures
            out@ == chacha20_apply(old(self).key(), old(self).nonce(), old(self).position(), data@),
            out@.len() == data@.len(),
            chacha20_apply(old(self).key(), old(self).nonce(), old(self).position(), out@) == data@,
            final(self).key() == old(self).key(),
            final(self).nonce() == old(self).nonce(),
            final(self).position() == old(self).position() + data@.len(),
    {
        let r = chacha20_xor(&self.key, &self.nonce, self.pos, data);
        match r {
            Some(out) => {
                self.pos = self.pos + data.len() as u64;
                out
            },
            None => {
                Vec::new()
            },
        }
    }
}

/// The host's ephemeral X25519 secret for one session.
pub struct HostKeyShare {
    secret: [u8; 32],
}

impl HostKeyShare {
    /// The secret scalar.
    pub closed spec fn secret(&self) -> Seq<u8> {
        self.secret@
    }

    /// The secret drawn by `ChaCha20Rng` from `seed`, as
    /// `EphemeralSecret::random_from_rng` draws it.
    pub fn from_seed(seed: [u8; 32]) -> (k: HostKeyShare)
        ensures
            k.secret() == chacha20_rng_output(seed@),
    {
        HostKeyShare { secret: chacha20_rng_bytes(seed) }
    }

    /// A secret from a seed drawn from the operating system; `None` if the
    /// operating system cannot supply randomness.
    pub fn generate() -> (k: Option<HostKeyShare>)
        ensures
            k matches Some(share) ==> exists|seed: Seq<u8>|
                seed.len() == 32 && share.secret() == #[trigger] chacha20_rng_output(seed),
    {
        match random_seed() {
            Some(seed) => Some(HostKeyShare::from_seed(seed)),
            None => None,
        }
    }

    /// The public key to send to the TKey.
    pub fn public_key(&self) -> (p: [u8; 32])
        ensures
            p@ == x25519_mul(self.secret(), x25519_basepoint_bytes()),
    {
        x25519(self.secret, x25519_basepoint())
    }

    /// The channel keyed by the shared secret with the TKey's public key,
    /// with the TKey's nonce.
    pub fn into_cipher(self, tkey_public: [u8; 32], nonce: [u8; 12]) -> (c: SessionCipher)
        ensures
            c.key() == x25519_mul(self.secret(), tkey_public@),
            c.nonce() == nonce@,
            c.position() == 0,
    {
        let shared = x25519(self.secret, tkey_public);
        SessionCipher::new(shared, nonce)
    }
}

/// The prompt shown before the passphrase is typed, which warns when the
/// TPM did not vouch for the boot chain.
pub fn password_prompt(trustworthy: bool) -> (s: String)
    ensures
        s@ == prompt_text(trustworthy),
{
    if trustworthy {
        String::from_str("input passphrase ALWAYS be sure tkey led is green before doing so.")
    } else {
        String::from_str(
            "tpm REFUSED to unseal, system might be tampered with. Input password at your own risk.",
        )
    }
}

/// The text of the passphrase prompt.
pub open spec fn prompt_text(trustworthy: bool) -> Seq<char> {
    if trustworthy {
        "input passphrase ALWAYS be sure tkey led is green before doing so."@
    } else {
        "tpm REFUSED to unseal, system might be tampered with. Input password at your own risk."@
    }
}

/// The shortest passphrase the host passes on.
pub const MIN_PASSPHRASE_LEN: usize = 8;

/// The byte the host sends in place of a passphrase that is too short.
pub const TOO_SHORT_MARKER: u8 = 0;

/// What the host sends the TKey for a typed passphrase: the Argon2id hash
/// of it, encrypted on the channel.  A passphrase shorter than 8 bytes is
/// `PassLen` (the caller then sends [`TOO_SHORT_MARKER`]), and one that the
/// hash refuses is `UnknownError`.
pub fn submit_passphrase(
    config: &Argon2Config,
    salt: &[u8],
    pass: &[u8],
    cipher: &mut SessionCipher,
) -> (r: Result<Vec<u8>, ClientError>)
    requires
        config.p_cost <= 0xFFFFFF,
        pass@.len() >= 8 && argon2_accepts(config.m_cost, config.t_cost, config.p_cost, pass@.len(), salt@.len())
            ==> old(cipher).position() + 32 <= keystream_limit(),
    ensures
        pass@.len() < 8 ==> (r matches Err(ClientError::PassLen) && *final(cipher) == *old(cipher)),
        pass@.len() >= 8 && !argon2_accepts(config.m_cost, config.t_cost, config.p_cost, pass@.len(), salt@.len())
            ==> (r matches Err(ClientError::UnknownError) && *final(cipher) == *old(cipher)),
        pass@.len() >= 8 && argon2_accepts(config.m_cost, config.t_cost, config.p_cost, pass@.len(), salt@.len())
            ==> (r matches Ok(enc) && {
            &&& enc@.len() == 32
            &&& enc@ == chacha20_apply(
                old(cipher).key(),
                old(cipher).nonce(),
                old(cipher).position(),
                argon2id_output(config.m_cost, config.t_cost, config.p_cost, pass@, salt@),
            )
            &&& final(cipher).key() == old(cipher).key()
            &&& final(cipher).nonce() == old(cipher).nonce()
            &&& chacha20_apply(old(cipher).key(), old(cipher).nonce(), old(cipher).position(), enc@)
                == argon2id_output(config.m_cost, config.t_cost, config.p_cost, pass@, salt@)
            &&& final(cipher).position() == old(cipher).position() + 32
        }),
{
    if pass.len() < MIN_PASSPHRASE_LEN {
        return Err(ClientError::PassLen);
    }
    match config.hash_password(pass, salt) {
        Some(hashed) => Ok(cipher.apply_keystream(hashed.as_slice())),
        None => Err(ClientError::UnknownError),
    }
}

/// The TKey's answer to a submitted passphrase: `GoodPass` is success,
/// an error is passed on, and any other message means the two sides are
/// out of step.
pub fn password_status(status: Result<ClientMessage, ClientError>) -> (r: Result<(), ClientError>)
    ensures
        status matches Ok(ClientMessage::GoodPass) ==> r is Ok,
        status matches Ok(m) && m != ClientMessage::GoodPass ==> r matches Err(ClientError::OutOfsync),
        status is Err ==> r == Err::<(), ClientError>(status->Err_0),
{
    match status {
        Ok(ClientMessage::GoodPass) => Ok(()),
        Ok(_) => Err(ClientError::OutOfsync),
        Err(e) => Err(e),
    }
}

/// The TKey must open each attempt with `Ready4pass`; anything else means
/// the two sides are out of step.
pub fn ready_for_passphrase(status: Result<ClientMessage, ClientError>) -> (r: Result<(), ClientError>)
    ensures
        r is Ok <==> status == Ok::<ClientMessage, ClientError>(ClientMessage::Ready4pass),
        r is Err ==> r matches Err(ClientError::OutOfsync),
{
    match status {
        Ok(ClientMessage::Ready4pass) => Ok(()),
        _ => Err(ClientError::OutOfsync),
    }
}

/// The trust in the boot chain after the TKey checked the TPM's signature:
/// `GoodSig` keeps what the TPM's answer gave, a failed check by the TKey
/// (bad, malformed signature or bad key) withdraws it, and anything else
/// means the two sides are out of step.
pub fn settle_trust(tpm_signed: bool, status: Result<ClientMessage, ClientError>) -> (r: Result<bool, ClientError>)
    ensures
        status matches Ok(ClientMessage::GoodSig) ==> r == Ok::<bool, ClientError>(tpm_signed),
        status matches Err(e) && signature_failure(&e) ==> r == Ok::<bool, ClientError>(false),
        !(status matches Ok(ClientMessage::GoodSig)) && !(status matches Err(e)
            && signature_failure(&e)) ==> r matches Err(ClientError::OutOfsync),
{
    match status {
        Ok(ClientMessage::GoodSig) => Ok(tpm_signed),
        Err(e) => {
            if e.is_signature_failure() {
                Ok(false)
            } else {
                Err(ClientError::OutOfsync)
            }
        },
        _ => Err(ClientError::OutOfsync),
    }
}

/// What one unlocking attempt came to.
#[derive(Debug)]
pub enum AttemptResult {
    /// The TKey did not open the attempt with `Ready4pass`.
    NotReady(ClientError),
    /// Submitting the passphrase failed.
    PasswordFailed(ClientError),
    /// Unlocking the disk failed.
    UnlockFailed(HostErr),
    /// The disk is unlocked.
    Unlocked,
}

/// What the host does after an attempt.
#[derive(Debug)]
pub enum UnlockVerdict {
    /// Tell the user why and try again.
    Retry(String),
    /// The disk is unlocked: exit with success.
    Success,
    /// Stop with this attempt's error.
    Fail(AttemptResult),
}

/// The three attempts of an unlocking run.
pub struct UnlockLoop {
    tries: u8,
}

/// The most attempts of one run.
pub const MAX_TRIES: u8 = 3;

/// Whether the attempt may be retried: a passphrase that was too short or
/// could not be hashed by the TKey, a wrong passphrase, or a killed
/// `cryptsetup`.
pub open spec fn retryable(r: AttemptResult) -> bool {
    ||| r matches AttemptResult::PasswordFailed(ClientError::PassLen)
    ||| r matches AttemptResult::PasswordFailed(ClientError::Blake2)
    ||| r matches AttemptResult::UnlockFailed(HostErr::CryptsetupErr)
    ||| r matches AttemptResult::UnlockFailed(HostErr::CryptsetupKilled)
}

/// Why an attempt is retried, as told to the user.
pub open spec fn retry_reason(r: AttemptResult) -> Seq<char> {
    match r {
        AttemptResult::PasswordFailed(ClientError::PassLen) => "password length error"@,
        AttemptResult::PasswordFailed(_) => "blake2 error"@,
        AttemptResult::UnlockFailed(HostErr::CryptsetupErr) => "wrong password"@,
        _ => "cryptsetup killed"@,
    }
}

impl UnlockLoop {
    /// How many attempts have begun.
    pub closed spec fn tries(&self) -> u8 {
        self.tries
    }

    /// A run with no attempt yet.
    pub fn new() -> (l: UnlockLoop)
        ensures
            l.tries() == 0,
    {
        UnlockLoop { tries: 0 }
    }

    /// Begins the next attempt and returns its number (1 to 3), or `None`
    /// once three attempts have been made.
    pub fn next_try(&mut self) -> (n: Option<u8>)
        requires
            old(self).tries() <= MAX_TRIES,
        ensures
            old(self).tries() < MAX_TRIES ==> n == Some((old(self).tries() + 1) as u8)
                && final(self).tries() == old(self).tries() + 1,
            old(self).tries() >= MAX_TRIES ==> n is None && final(self).tries() == old(self).tries(),
            final(self).tries() <= MAX_TRIES,
    {
        if self.tries >= MAX_TRIES {
            None
        } else {
            self.tries = self.tries + 1;
            Some(self.tries)
        }
    }

    /// What follows an attempt: success ends the run, the retryable
    /// failures lead to the next attempt, every other failure ends the run
    /// with that failure.
    pub fn verdict(&self, r: AttemptResult) -> (v: UnlockVerdict)
        ensures
            r is Unlocked ==> v is Success,
            retryable(r) ==> (v matches UnlockVerdict::Retry(s) && s@ == retry_reason(r)),
            !(r is Unlocked) && !retryable(r) ==> v == UnlockVerdict::Fail(r),
    {
        match r {
            AttemptResult::Unlocked => UnlockVerdict::Success,
            AttemptResult::PasswordFailed(ClientError::PassLen) => UnlockVerdict::Retry(
                String::from_str("password length error"),
            ),
            AttemptResult::PasswordFailed(ClientError::Blake2) => UnlockVerdict::Retry(
                String::from_str("blake2 error"),
            ),
            AttemptResult::UnlockFailed(HostErr::CryptsetupErr) => UnlockVerdict::Retry(
                String::from_str("wrong password"),
            ),
            AttemptResult::UnlockFailed(HostErr::CryptsetupKilled) => UnlockVerdict::Retry(
                String::from_str("cryptsetup killed"),
            ),
            other => UnlockVerdict::Fail(other),
        }
    }
}

} // verus!
