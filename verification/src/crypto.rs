//! The cryptographic primitives that the protocol uses, each taken from its
//! crate behind a small trusted wrapper.  Results that take pages to state
//! are given a name; what the crates document in a few lines is stated.
use vstd::prelude::*;
use vstd::utf8::*;
use chacha20::cipher::{KeyIvInit, StreamCipher, StreamCipherSeek};
use chacha20::rand_core::{Rng, SeedableRng};
use p256::ecdsa::signature::Verifier;
use p256::pkcs8::DecodePublicKey;
use blake2::Digest;

verus! {

/// BLAKE2s-256 digest of a message (the `blake2` crate's `Blake2s256`).
pub uninterp spec fn blake2s256_digest(data: Seq<u8>) -> Seq<u8>;

/// Keyed BLAKE2s with a 32-byte output, as `rustkey::blake2s` computes it.
pub uninterp spec fn blake2s_keyed_mac(key: Seq<u8>, data: Seq<u8>) -> Seq<u8>;

/// Argon2id (version 0x13) output of 32 bytes for the given memory cost,
/// time cost and parallelism, password and salt.
pub uninterp spec fn argon2id_output(
    m_cost: u32,
    t_cost: u32,
    p_cost: u32,
    pwd: Seq<u8>,
    salt: Seq<u8>,
) -> Seq<u8>;

/// The first 32 bytes that `chacha20::ChaCha20Rng` produces from a seed.
pub uninterp spec fn chacha20_rng_output(seed: Seq<u8>) -> Seq<u8>;

/// X25519 scalar multiplication of the point `u` by the clamped scalar `k`.
pub uninterp spec fn x25519_mul(k: Seq<u8>, u: Seq<u8>) -> Seq<u8>;

/// `data` XORed with the IETF ChaCha20 keystream of `key` and `nonce`,
/// starting at byte `pos` of the keystream.
pub uninterp spec fn chacha20_apply(key: Seq<u8>, nonce: Seq<u8>, pos: nat, data: Seq<u8>) -> Seq<u8>;

/// Whether `der` holds a P-256 public key in DER SubjectPublicKeyInfo form.
pub uninterp spec fn p256_spki_valid(der: Seq<u8>) -> bool;

/// Whether the P-256 ECDSA signature `sig` (r || s) over `msg` checks out
/// under the public key encoded in `der`.
pub uninterp spec fn p256_ecdsa_verifies(der: Seq<u8>, msg: Seq<u8>, sig: Seq<u8>) -> bool;

/// The order of the P-256 group.
pub open spec fn p256_order() -> nat {
    0xffffffff00000000ffffffffffffffffbce6faada7179e84f3b9cac2fc632551nat
}

/// A byte string read as a big-endian number.
pub open spec fn be_value(s: Seq<u8>) -> nat
    decreases s.len(),
{
    if s.len() == 0 {
        0
    } else {
        be_value(s.drop_last()) * 256 + s.last() as nat
    }
}

/// Whether `r || s` is a well-formed P-256 signature: both halves read as
/// big-endian numbers lie in `1 .. n`.
pub open spec fn p256_signature_well_formed(sig: Seq<u8>) -> bool {
    &&& sig.len() == 64
    &&& 1 <= be_value(sig.subrange(0, 32)) < p256_order()
    &&& 1 <= be_value(sig.subrange(32, 64)) < p256_order()
}

/// `Blake2s256::digest` of the `blake2` crate.  The digest is named.
#[verifier::external_body]
pub(crate) fn blake2s256(data: &[u8]) -> (d: [u8; 32])
    ensures
        d@ == blake2s256_digest(data@),
{
    blake2::Blake2s256::digest(data).into()
}

/// `rustkey::blake2s` with a 32-byte output buffer: keyed BLAKE2s.  The
/// crate refuses keys longer than 32 bytes and otherwise succeeds; the
/// output is named.
#[verifier::external_body]
pub(crate) fn blake2s_keyed(key: &[u8], data: &[u8]) -> (r: Option<[u8; 32]>)
    ensures
        r is Some <==> key@.len() <= 32,
        r matches Some(out) ==> out@ == blake2s_keyed_mac(key@, data@),
{
    let mut out = [0u8; 32];
    match rustkey::blake2s(&mut out, key, data) {
        Ok(()) => Some(out),
        Err(_) => None,
    }
}

/// Argon2id v0x13 from the `argon2` crate: `Params::new(m, t, p, None)`,
/// `Argon2::new` and `hash_password_into` with a 32-byte output.  By the
/// crate's source this succeeds exactly when the parameters are accepted
/// (m >= 8, t >= 1, 1 <= p <= 0xFFFFFF, m >= 8 p), the salt has 8 to
/// 0xFFFFFFFF bytes and the password at most 0xFFFFFFFF bytes.  The output
/// is named.
#[verifier::external_body]
pub(crate) fn argon2id_hash(m_cost: u32, t_cost: u32, p_cost: u32, pwd: &[u8], salt: &[u8]) -> (r: Option<[u8; 32]>)
    requires
        p_cost <= 0xFFFFFF,
    ensures
        r is Some <==> argon2_accepts(m_cost, t_cost, p_cost, pwd@.len(), salt@.len()),
        r matches Some(h) ==> h@ == argon2id_output(m_cost, t_cost, p_cost, pwd@, salt@),
{
    let params = argon2::Params::new(m_cost, t_cost, p_cost, None).ok()?;
    let hasher = argon2::Argon2::new(argon2::Algorithm::Argon2id, argon2::Version::V0x13, params);
    let mut out = [0u8; 32];
    hasher.hash_password_into(pwd, salt, &mut out).ok()?;
    Some(out)
}

/// When the `argon2` crate accepts parameters and inputs.
pub open spec fn argon2_accepts(m_cost: u32, t_cost: u32, p_cost: u32, pwd_len: nat, salt_len: nat) -> bool {
    &&& m_cost >= 8
    &&& m_cost >= 8 * p_cost
    &&& t_cost >= 1
    &&& 1 <= p_cost <= 0xFFFFFF
    &&& 8 <= salt_len <= 0xFFFF_FFFF
    &&& pwd_len <= 0xFFFF_FFFF
}

/// `ChaCha20Rng::from_seed` followed by `fill_bytes` of 32 bytes; this is
/// how `x25519_dalek::EphemeralSecret::random_from_rng` draws its secret.
/// The output is named.
#[verifier::external_body]
pub(crate) fn chacha20_rng_bytes(seed: [u8; 32]) -> (out: [u8; 32])
    ensures
        out@ == chacha20_rng_output(seed@),
{
    let mut rng = chacha20::ChaCha20Rng::from_seed(seed);
    let mut out = [0u8; 32];
    rng.fill_bytes(&mut out);
    out
}

/// `x25519_dalek::x25519`: the scalar `k` (clamped) times the point `u`.
/// The result is named.
#[verifier::external_body]
pub(crate) fn x25519(k: [u8; 32], u: [u8; 32]) -> (r: [u8; 32])
    ensures
        r@ == x25519_mul(k@, u@),
{
    x25519_dalek::x25519(k, u)
}

/// The X25519 base point (`x25519_dalek::X25519_BASEPOINT_BYTES`): 9
/// followed by 31 zero bytes.
pub(crate) fn x25519_basepoint() -> (b: [u8; 32])
    ensures
        b@ == x25519_basepoint_bytes(),
{
    let mut b = [0u8; 32];
    b[0] = 9;
    proof {
        assert(b@ =~= x25519_basepoint_bytes());
    }
    b
}

/// The bytes of the X25519 base point.
pub open spec fn x25519_basepoint_bytes() -> Seq<u8> {
    Seq::new(32, |i: int| if i == 0 { 9u8 } else { 0u8 })
}

/// How many bytes of keystream IETF ChaCha20 gives in `chacha20` 0.10:
/// its 32-bit block counter leaves `u32::MAX` blocks of 64 bytes
/// (`Ietf::remaining_blocks`), that is 2^38 - 64 bytes.
pub open spec fn chacha20_keystream_len() -> nat {
    0x3F_FFFF_FFC0
}

/// IETF ChaCha20 (`chacha20::ChaCha20`, `KeyIvInit::new`, `try_seek`,
/// `try_apply_keystream`): XORs `data` with the keystream from byte `pos`
/// on.  By the source of `cipher` 0.5 (`try_seek`, `check_remaining`) and
/// `chacha20` 0.10 (`remaining_blocks`), the call is served exactly when
/// the data ends within the keystream's 2^38 - 64 bytes.  The result is
/// named; as XOR with the same keystream, applying it again gives `data`
/// back, and it keeps the length.
#[verifier::external_body]
pub(crate) fn chacha20_xor(key: &[u8; 32], nonce: &[u8; 12], pos: u64, data: &[u8]) -> (r: Option<Vec<u8>>)
    ensures
        r is Some <==> pos + data@.len() <= chacha20_keystream_len(),
        r matches Some(out) ==> {
            &&& out@ == chacha20_apply(key@, nonce@, pos as nat, data@)
            &&& out@.len() == data@.len()
            &&& chacha20_apply(key@, nonce@, pos as nat, out@) == data@
        },
{
    let mut cipher = chacha20::ChaCha20::new(key.into(), nonce.into());
    cipher.try_seek(pos).ok()?;
    let mut out = data.to_vec();
    cipher.try_apply_keystream(&mut out).ok()?;
    Some(out)
}

/// Fills 32 bytes from the operating system's random source
/// (`getrandom::fill`).  The bytes are random: nothing is said of them, and
/// the call may fail.
#[verifier::external_body]
pub(crate) fn random_seed() -> (r: Option<[u8; 32]>) {
    let mut seed = [0u8; 32];
    match getrandom::fill(&mut seed) {
        Ok(()) => Some(seed),
        Err(_) => None,
    }
}

/// `p256::ecdsa::VerifyingKey::from_public_key_der` succeeds; whether it
/// does is named.
#[verifier::external_body]
pub(crate) fn p256_public_key_decodes(der: &[u8]) -> (b: bool)
    ensures
        b == p256_spki_valid(der@),
{
    p256::ecdsa::VerifyingKey::from_public_key_der(der).is_ok()
}

/// `p256::ecdsa::Signature::try_from` on 64 bytes: by the crate's source it
/// succeeds exactly when `r` and `s` both lie in `1 .. n`.
#[verifier::external_body]
pub(crate) fn p256_signature_decodes(sig: &[u8; 64]) -> (b: bool)
    ensures
        b == p256_signature_well_formed(sig@),
{
    p256::ecdsa::Signature::try_from(&sig[..]).is_ok()
}

/// `VerifyingKey::verify` of ECDSA P-256 over `msg`, with the key decoded
/// from `der` and the signature from `sig`; a key or signature that does
/// not decode does not verify.  The outcome is named.
#[verifier::external_body]
pub(crate) fn p256_verify(der: &[u8], msg: &[u8], sig: &[u8; 64]) -> (b: bool)
    ensures
        b == p256_ecdsa_verifies(der@, msg@, sig@),
        b ==> p256_spki_valid(der@) && p256_signature_well_formed(sig@),
{
    match (p256::ecdsa::VerifyingKey::from_public_key_der(der), p256::ecdsa::Signature::try_from(&sig[..])) {
        (Ok(key), Ok(signature)) => key.verify(msg, &signature).is_ok(),
        _ => false,
    }
}

/// `String::from_utf8` of std, as its documentation gives it: the bytes
/// become a string exactly when they are valid UTF-8.
#[verifier::external_body]
pub(crate) fn utf8_string(bytes: Vec<u8>) -> (r: Option<String>)
    ensures
        r is Some <==> valid_utf8(bytes@),
        r matches Some(s) ==> s@ == decode_utf8(bytes@),
{
    String::from_utf8(bytes).ok()
}

} // verus!
