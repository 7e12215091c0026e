//! What the host does with the TPM's answer to the TKey's nonce.
//!
//! The TPM signs the nonce with ECDSA P-256 only while the measured boot
//! chain matches its policy.  Its signature comes as two big-endian numbers
//! `r` and `s` from which leading zero bytes may be stripped; the TKey
//! expects them as 32 bytes each.
use vstd::prelude::*;
use crate::messages::{host_err_code, host_message_code, HostErr, HostMessage};
use crate::loader::zeros;

verus! {

/// `x` left-padded with zero bytes to 32 bytes.
pub open spec fn left_pad32(x: Seq<u8>) -> Seq<u8>
    recommends
        x.len() <= 32,
{
    zeros((32 - x.len()) as nat) + x
}

/// Writes `x` left-padded to 32 bytes into `out` at `offset`.
fn put_padded(out: &mut [u8; 64], offset: usize, x: &[u8])
    requires
        offset == 0 || offset == 32,
        x@.len() <= 32,
        forall|i: int| offset <= i < offset + 32 ==> old(out)@[i] == 0,
    ensures
        final(out)@.subrange(offset as int, offset + 32) == left_pad32(x@),
        forall|i: int| 0 <= i < 64 && !(offset <= i < offset + 32) ==> final(out)@[i] == old(out)@[i],
{
    let start = offset + 32 - x.len();
    let mut i: usize = 0;
    while i < x.len()
        invariant
            offset == 0 || offset == 32,
            x@.len() <= 32,
            out@.len() == 64,
            start == offset + 32 - x@.len(),
            0 <= i <= x@.len(),
            forall|j: int| offset <= j < start ==> out@[j] == 0,
            forall|j: int| start <= j < start + i ==> out@[j] == x@[j - start],
            forall|j: int| 0 <= j < 64 && !(offset <= j < offset + 32) ==> out@[j] == old(out)@[j],
            forall|j: int| start + i <= j < offset + 32 ==> out@[j] == old(out)@[j],
            forall|j: int| offset <= j < offset + 32 ==> old(out)@[j] == 0,
        decreases x@.len() - i,
    {
        out[start + i] = x[i];
        i = i + 1;
    }
    proof {
        assert(out@.subrange(offset as int, offset + 32) =~= left_pad32(x@));
    }
}

/// The 64-byte `r || s` form of a TPM signature: each part left-padded to
/// 32 bytes.  A part longer than 32 bytes is a malformed answer from the
/// TPM (`TpmError`).
pub fn pad_signature(r: &[u8], s: &[u8]) -> (sig: Result<[u8; 64], HostErr>)
    ensures
        (r@.len() > 32 || s@.len() > 32) <==> sig is Err,
        sig is Err ==> sig == Err::<[u8; 64], HostErr>(HostErr::TpmError),
        sig matches Ok(b) ==> b@ == left_pad32(r@) + left_pad32(s@),
        sig matches Ok(b) ==> {
            &&& b@.subrange(32 - r@.len(), 32) == r@
            &&& b@.subrange(64 - s@.len(), 64) == s@
            &&& forall|k: int| 0 <= k < 32 - r@.len() ==> b@[k] == 0
            &&& forall|k: int| 32 <= k < 64 - s@.len() ==> b@[k] == 0
        },
{
    if r.len() > 32 || s.len() > 32 {
        return Err(HostErr::TpmError);
    }
    let mut out = [0u8; 64];
    put_padded(&mut out, 0, r);
    put_padded(&mut out, 32, s);
    proof {
        assert(out@ =~= out@.subrange(0, 32) + out@.subrange(32, 64));
        crate::laws::law_left_pad_keeps_part(r@);
        crate::laws::law_left_pad_keeps_part(s@);
        assert(out@.subrange(32 - r@.len(), 32) =~= left_pad32(r@).subrange(32 - r@.len(), 32));
        assert(out@.subrange(64 - s@.len(), 64) =~= left_pad32(s@).subrange(32 - s@.len(), 32));
        assert forall|k: int| 0 <= k < 32 - r@.len() implies out@[k] == 0 by {
            assert(out@[k] == left_pad32(r@)[k]);
        }
        assert forall|k: int| 32 <= k < 64 - s@.len() implies out@[k] == 0 by {
            assert(out@[k] == left_pad32(s@)[k - 32]);
        }
    }
    Ok(out)
}

/// What the host tells the TKey when the TPM signed: `TpmSigned`, then the
/// signature.
pub fn signed_reply(sig: &[u8; 64]) -> (bytes: Vec<u8>)
    ensures
        bytes@ == seq![host_message_code(HostMessage::TpmSigned)] + sig@,
{
    let mut bytes: Vec<u8> = Vec::new();
    bytes.push(HostMessage::TpmSigned.code());
    let mut i: usize = 0;
    while i < 64
        invariant
            0 <= i <= 64,
            bytes@ == seq![host_message_code(HostMessage::TpmSigned)] + sig@.subrange(0, i as int),
        decreases 64 - i,
    {
        bytes.push(sig[i]);
        proof {
            assert(sig@.subrange(0, i + 1) =~= sig@.subrange(0, i as int).push(sig@[i as int]));
        }
        i = i + 1;
    }
    proof {
        assert(sig@.subrange(0, 64) =~= sig@);
    }
    bytes
}

/// What the host tells the TKey when the TPM did not sign: the one byte of
/// `e` (`TpmRefusedToSign` when unlocking, `TpmError` when removing a key
/// slot).
pub fn refusal_reply(e: HostErr) -> (bytes: Vec<u8>)
    ensures
        bytes@ == seq![host_err_code(e)],
{
    let mut bytes: Vec<u8> = Vec::new();
    bytes.push(e.code());
    proof {
        assert(bytes@ =~= seq![host_err_code(e)]);
    }
    bytes
}

/// The host's reply to the TKey's nonce and whether the TPM vouched for the
/// boot chain: the signature if the TPM gave one, `TpmRefusedToSign`
/// otherwise.
pub fn nonce_reply(sig: Option<[u8; 64]>) -> (r: (Vec<u8>, bool))
    ensures
        sig matches Some(s) ==> r.0@ == seq![host_message_code(HostMessage::TpmSigned)] + s@ && r.1,
        sig is None ==> r.0@ == seq![host_err_code(HostErr::TpmRefusedToSign)] && !r.1,
{
    match sig {
        Some(s) => (signed_reply(&s), true),
        None => (refusal_reply(HostErr::TpmRefusedToSign), false),
    }
}

} // verus!
