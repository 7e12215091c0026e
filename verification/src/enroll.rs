//! Decisions of the enrollment programs, which add (or remove) the LUKS key
//! slot that the TKey's keyfile opens.
//!
//! On a plain system the enrolling program talks to the TPM itself; on
//! QubesOS it runs in a disposable VM and reaches the TPM, and
//! `cryptsetup`, in dom0 through a qrexec proxy, which receives the length
//! of the current passphrase, the passphrase and the keyfile (or, when a
//! slot is removed, the slot number and the keyfile).
use vstd::prelude::*;
use vstd::utf8::*;
use crate::crypto::utf8_string;
use crate::messages::{client_error_text, ClientError, ClientMessage, HostErr, HostMessage};

verus! {

/// Whether `c` is an ASCII decimal digit.
pub open spec fn is_digit(c: char) -> bool {
    '0' <= c && c <= '9'
}

/// The value of a string of decimal digits.
pub open spec fn digits_value(ds: Seq<char>) -> nat
    decreases ds.len(),
{
    if ds.len() == 0 {
        0
    } else {
        digits_value(ds.drop_last()) * 10 + (ds.last() as nat - 48) as nat
    }
}

/// The digits of `s` after an optional leading `+`.
pub open spec fn unsigned_digits(s: Seq<char>) -> Seq<char> {
    if s.len() > 0 && s[0] == '+' {
        s.drop_first()
    } else {
        s
    }
}

/// What `str::parse::<u8>` gives: an optional `+`, then at least one
/// decimal digit and nothing else, with a value of at most 255.
pub open spec fn parsed_u8(s: Seq<char>) -> Option<u8> {
    let ds = unsigned_digits(s);
    if ds.len() > 0 && (forall|i: int| 0 <= i < ds.len() ==> is_digit(#[trigger] ds[i]))
        && digits_value(ds) <= 255 {
        Some(digits_value(ds) as u8)
    } else {
        None
    }
}

proof fn lemma_digits_value_monotone(ds: Seq<char>, k: int)
    requires
        0 <= k <= ds.len(),
        forall|i: int| 0 <= i < ds.len() ==> is_digit(#[trigger] ds[i]),
    ensures
        digits_value(ds.subrange(0, k)) <= digits_value(ds),
    decreases ds.len() - k,
{
    if k < ds.len() {
        lemma_digits_value_monotone(ds, k + 1);
        let sub = ds.subrange(0, k + 1);
        assert(sub.drop_last() =~= ds.subrange(0, k));
        assert(sub.last() == ds[k]);
        assert(is_digit(ds[k]));
        assert(digits_value(sub) == digits_value(ds.subrange(0, k)) * 10 + (ds[k] as nat - 48) as nat);
    } else {
        assert(ds.subrange(0, k) =~= ds);
    }
}

/// Reads a slot number as `str::parse::<u8>` does.
pub fn parse_u8(s: &str) -> (r: Option<u8>)
    ensures
        r == parsed_u8(s@),
{
    let n = s.unicode_len();
    let mut start: usize = 0;
    if n > 0 && s.get_char(0) == '+' {
        start = 1;
    }
    let ghost ds = unsigned_digits(s@);
    proof {
        assert(ds =~= s@.subrange(start as int, n as int));
    }
    if start >= n {
        return None;
    }
    let mut value: u32 = 0;
    let mut i: usize = start;
    while i < n
        invariant
            start <= i <= n,
            n == s@.len(),
            ds =~= s@.subrange(start as int, n as int),
            ds == unsigned_digits(s@),
            forall|j: int| 0 <= j < i - start ==> is_digit(#[trigger] ds[j]),
            value as nat == digits_value(ds.subrange(0, i - start)),
            value <= 255,
        decreases n - i,
    {
        let c = s.get_char(i);
        proof {
            assert(ds[i - start] == c);
        }
        if !('0' <= c && c <= '9') {
            proof {
                assert(!is_digit(ds[i - start]));
                assert(!(forall|j: int| 0 <= j < ds.len() ==> is_digit(#[trigger] ds[j])));
                assert(parsed_u8(s@) is None);
            }
            return None;
        }
        let d = (c as u32) - 48;
        proof {
            let sub = ds.subrange(0, i + 1 - start);
            assert(sub.drop_last() =~= ds.subrange(0, i - start));
            assert(sub.last() == c);
            assert(digits_value(sub) == digits_value(ds.subrange(0, i - start)) * 10 + (c as nat - 48) as nat);
            assert(digits_value(sub) == value * 10 + d);
        }
        let next = value * 10 + d;
        if next > 255 {
            proof {
                assert forall|j: int| 0 <= j < i + 1 - start implies is_digit(#[trigger] ds[j]) by {}
                if forall|j: int| 0 <= j < ds.len() ==> is_digit(#[trigger] ds[j]) {
                    lemma_digits_value_monotone(ds, i + 1 - start);
                    assert(digits_value(ds) > 255);
                }
                assert(parsed_u8(s@) is None);
            }
            return None;
        }
        value = next;
        i = i + 1;
    }
    proof {
        assert(ds.subrange(0, n - start) =~= ds);
    }
    Some(value as u8)
}

/// How the QubesOS enrollment program was started.
#[derive(Debug, Clone, Copy, PartialEq, Eq, Structural)]
pub struct EnrollMode {
    /// Remove a key slot instead of adding one.
    pub kill_slot: bool,
    /// The slot to remove, where the third argument names one.
    pub slot: Option<u8>,
}

/// Reads the command line `program --kill-slot SLOT`: with three words the
/// third is read as the slot number, and the second must be `--kill-slot`
/// for the removal mode.
pub fn parse_enroll_mode(args: &Vec<String>) -> (m: EnrollMode)
    ensures
        m.kill_slot == (args@.len() == 3 && args@[1]@ == "--kill-slot"@),
        m.slot == (if args@.len() == 3 { parsed_u8(args@[2]@) } else { None }),
{
    if args.len() == 3 {
        let flag = String::from_str("--kill-slot");
        let kill_slot = args[1] == flag;
        EnrollMode { kill_slot, slot: parse_u8(args[2].as_str()) }
    } else {
        EnrollMode { kill_slot: false, slot: None }
    }
}

/// Whether two byte strings are equal.
fn same_bytes(a: &[u8], b: &[u8]) -> (r: bool)
    ensures
        r == (a@ == b@),
{
    if a.len() != b.len() {
        return false;
    }
    let mut i: usize = 0;
    while i < a.len()
        invariant
            a@.len() == b@.len(),
            0 <= i <= a@.len(),
            forall|j: int| 0 <= j < i ==> a@[j] == b@[j],
        decreases a@.len() - i,
    {
        if a[i] != b[i] {
            return false;
        }
        i = i + 1;
    }
    proof {
        assert(a@ =~= b@);
    }
    true
}

/// The verdict on a new passphrase typed twice.
#[derive(Debug, Clone, Copy, PartialEq, Eq, Structural)]
pub enum PassphraseCheck {
    /// The two entries differ.
    Mismatch,
    /// The passphrase is shorter than 8 or longer than 255 bytes.
    BadLength,
    /// The passphrase can be enrolled.
    Accepted,
}

/// The QubesOS enrollment's check of a new passphrase: both entries must
/// agree, and the passphrase must have 8 to 255 bytes; on any other
/// outcome the user is asked again.
pub fn check_new_passphrase(first: &[u8], second: &[u8]) -> (c: PassphraseCheck)
    ensures
        first@ != second@ ==> c == PassphraseCheck::Mismatch,
        first@ == second@ && !(8 <= first@.len() <= 255) ==> c == PassphraseCheck::BadLength,
        first@ == second@ && 8 <= first@.len() <= 255 ==> c == PassphraseCheck::Accepted,
{
    if !same_bytes(first, second) {
        PassphraseCheck::Mismatch
    } else if first.len() > 255 || first.len() < 8 {
        PassphraseCheck::BadLength
    } else {
        PassphraseCheck::Accepted
    }
}

/// What the plain enrollment program sends for a new passphrase typed
/// twice.
#[derive(Debug)]
pub enum PlainPassphrase {
    /// The entries differ: send [`crate::session::TOO_SHORT_MARKER`], read
    /// the TKey's status, and ask again.
    Mismatch,
    /// The passphrase is longer than 255 bytes: send the marker, read the
    /// TKey's status, and fail with `PassLen`.
    TooLong,
    /// Send these bytes: the length, then the passphrase.
    Frame(Vec<u8>),
}

/// The plain enrollment sends the passphrase itself, prefixed by its
/// length in one byte.
pub fn plain_passphrase_frame(first: &[u8], second: &[u8]) -> (r: PlainPassphrase)
    ensures
        first@ != second@ ==> r is Mismatch,
        first@ == second@ && first@.len() > 255 ==> r is TooLong,
        first@ == second@ && first@.len() <= 255 ==> (r matches PlainPassphrase::Frame(f)
            && f@ == seq![first@.len() as u8] + first@),
{
    if !same_bytes(first, second) {
        return PlainPassphrase::Mismatch;
    }
    if first.len() > 255 {
        return PlainPassphrase::TooLong;
    }
    let mut f: Vec<u8> = Vec::new();
    f.push(first.len() as u8);
    let mut i: usize = 0;
    while i < first.len()
        invariant
            first@.len() <= 255,
            0 <= i <= first@.len(),
            f@ == seq![first@.len() as u8] + first@.subrange(0, i as int),
        decreases first@.len() - i,
    {
        f.push(first[i]);
        proof {
            assert(first@.subrange(0, i + 1) =~= first@.subrange(0, i as int).push(first@[i as int]));
        }
        i = i + 1;
    }
    proof {
        assert(first@.subrange(0, first@.len() as int) =~= first@);
    }
    PlainPassphrase::Frame(f)
}

/// The current LUKS passphrase as the dom0 proxy receives it: it must be
/// UTF-8, else the stream is taken to be corrupted (`StringParseError`).
pub fn current_passphrase(bytes: Vec<u8>) -> (r: Result<String, HostErr>)
    ensures
        r is Ok <==> valid_utf8(bytes@),
        r matches Ok(s) ==> s@ == decode_utf8(bytes@),
        r is Err ==> r == Err::<String, HostErr>(HostErr::StringParseError),
{
    match utf8_string(bytes) {
        Some(s) => Ok(s),
        None => Err(HostErr::StringParseError),
    }
}

/// Why enrollment stops.
#[derive(Debug)]
pub enum EnrollError {
    /// The TKey reported this error, or the two sides are out of step.
    Client(ClientError),
    /// The TKey accepted the signature but then sent an unexpected message.
    SignatureOutOfSync,
    /// Removing a slot needs a binary that the TPM vouches for, and the TPM
    /// refused to sign.
    RefusedUnenrolled,
}

impl EnrollError {
    /// The text shown to the user; a client error is shown by its own text.
    pub fn message(&self) -> (s: String)
        ensures
            self is SignatureOutOfSync ==> s@ == "tkey and host are out of sync (but sig is fine?) restart app."@,
            self is RefusedUnenrolled ==> s@ == "refusing to continue, current binary isn't enrolled with TPM"@,
            self matches EnrollError::Client(e) ==> (!(e is IOError) ==> s@ == client_error_text(&e)),
    {
        match self {
            EnrollError::Client(e) => e.message(),
            EnrollError::SignatureOutOfSync => String::from_str(
                "tkey and host are out of sync (but sig is fine?) restart app.",
            ),
            EnrollError::RefusedUnenrolled => String::from_str(
                "refusing to continue, current binary isn't enrolled with TPM",
            ),
        }
    }
}

/// What the QubesOS enrollment does with the dom0 proxy's status byte.
#[derive(Debug, Clone, Copy, PartialEq, Eq, Structural)]
pub enum ProxyDecision {
    /// Read the 64-byte signature and pass `TpmSigned` and it on.
    ForwardSignature,
    /// Tell the TKey that the TPM refused to sign, and go on.
    ForwardRefusal,
}

/// The proxy reports `TpmSigned` or `TpmRefusedToSign`; a refusal stops
/// the removal of a slot, and anything else means the two sides are out
/// of step.
pub fn proxy_decision(reply: Result<HostMessage, HostErr>, kill_slot: bool) -> (r: Result<ProxyDecision, EnrollError>)
    ensures
        reply == Ok::<HostMessage, HostErr>(HostMessage::TpmSigned) ==> r == Ok::<ProxyDecision, EnrollError>(ProxyDecision::ForwardSignature),
        reply == Err::<HostMessage, HostErr>(HostErr::TpmRefusedToSign) && !kill_slot ==> r == Ok::<ProxyDecision, EnrollError>(ProxyDecision::ForwardRefusal),
        reply == Err::<HostMessage, HostErr>(HostErr::TpmRefusedToSign) && kill_slot ==> r matches Err(EnrollError::RefusedUnenrolled),
        reply != Ok::<HostMessage, HostErr>(HostMessage::TpmSigned) && reply != Err::<HostMessage, HostErr>(HostErr::TpmRefusedToSign)
            ==> r matches Err(EnrollError::Client(ClientError::OutOfsync)),
{
    match reply {
        Ok(HostMessage::TpmSigned) => Ok(ProxyDecision::ForwardSignature),
        Err(HostErr::TpmRefusedToSign) => {
            if kill_slot {
                Err(EnrollError::RefusedUnenrolled)
            } else {
                Ok(ProxyDecision::ForwardRefusal)
            }
        },
        _ => Err(EnrollError::Client(ClientError::OutOfsync)),
    }
}

/// The QubesOS enrollment's reading of the TKey's verdict on the signature:
/// `GoodSig` is a valid signature, `InvalidSig` is an invalid one (expected
/// after an update), another message means the sides are out of step, and
/// any other error stops enrollment.
pub fn enrollment_signature_status(status: Result<ClientMessage, ClientError>) -> (r: Result<bool, EnrollError>)
    ensures
        status matches Ok(ClientMessage::GoodSig) ==> r == Ok::<bool, EnrollError>(true),
        status matches Ok(m) && m != ClientMessage::GoodSig ==> r matches Err(EnrollError::SignatureOutOfSync),
        status matches Err(ClientError::InvalidSig) ==> r == Ok::<bool, EnrollError>(false),
        status matches Err(e) ==> (!(e is InvalidSig) ==> r == Err::<bool, EnrollError>(EnrollError::Client(e))),
{
    match status {
        Ok(ClientMessage::GoodSig) => Ok(true),
        Ok(_) => Err(EnrollError::SignatureOutOfSync),
        Err(ClientError::InvalidSig) => Ok(false),
        Err(e) => Err(EnrollError::Client(e)),
    }
}

/// The plain enrollment's reading of the TKey's verdict on the signature:
/// `GoodSig` and `InvalidSig` let it go on; anything else means the sides
/// are out of step.
pub fn plain_signature_status(status: Result<ClientMessage, ClientError>) -> (r: Result<bool, ClientError>)
    ensures
        status matches Ok(ClientMessage::GoodSig) ==> r == Ok::<bool, ClientError>(true),
        status matches Err(ClientError::InvalidSig) ==> r == Ok::<bool, ClientError>(false),
        !(status matches Ok(ClientMessage::GoodSig)) && !(status matches Err(ClientError::InvalidSig))
            ==> r matches Err(ClientError::OutOfsync),
{
    match status {
        Ok(ClientMessage::GoodSig) => Ok(true),
        Err(ClientError::InvalidSig) => Ok(false),
        _ => Err(ClientError::OutOfsync),
    }
}

/// The enrollment programs' reading of the TKey's status before and after
/// a passphrase: the expected message goes on, an error is passed on, and
/// another message means the sides are out of step.
pub fn expect_status(status: Result<ClientMessage, ClientError>, expected: ClientMessage) -> (r: Result<(), ClientError>)
    ensures
        status == Ok::<ClientMessage, ClientError>(expected) ==> r is Ok,
        status matches Ok(m) && m != expected ==> r matches Err(ClientError::OutOfsync),
        status is Err ==> r == Err::<(), ClientError>(status->Err_0),
{
    match status {
        Ok(m) => {
            if m == expected {
                Ok(())
            } else {
                Err(ClientError::OutOfsync)
            }
        },
        Err(e) => Err(e),
    }
}

/// What the QubesOS enrollment sends the dom0 proxy after the keyfile came
/// back: to add a slot, the current passphrase's length in one byte (taken
/// modulo 256), the passphrase and the keyfile; to remove one, the slot
/// number and the keyfile.  Removing without a slot number gives `None`.
pub fn proxy_payload(mode: EnrollMode, current_pass: &[u8], keyfile: &[u8; 32]) -> (r: Option<Vec<u8>>)
    ensures
        !mode.kill_slot ==> (r matches Some(p) && p@ == seq![(current_pass@.len() % 256) as u8]
            + current_pass@ + keyfile@),
        mode.kill_slot && mode.slot is None ==> r is None,
        mode.kill_slot ==> (mode.slot matches Some(s) ==> (r matches Some(p) && p@ == seq![s] + keyfile@)),
{
    let mut p: Vec<u8> = Vec::new();
    if mode.kill_slot {
        match mode.slot {
            Some(s) => p.push(s),
            None => return None,
        }
    } else {
        p.push((current_pass.len() % 256) as u8);
        let ghost head = p@;
        let mut i: usize = 0;
        while i < current_pass.len()
            invariant
                0 <= i <= current_pass@.len(),
                p@ == head + current_pass@.subrange(0, i as int),
            decreases current_pass@.len() - i,
        {
            p.push(current_pass[i]);
            proof {
                assert(current_pass@.subrange(0, i + 1) =~= current_pass@.subrange(0, i as int).push(current_pass@[i as int]));
            }
            i = i + 1;
        }
        proof {
            assert(current_pass@.subrange(0, current_pass@.len() as int) =~= current_pass@);
        }
    }
    let ghost before = p@;
    let mut i: usize = 0;
    while i < 32
        invariant
            0 <= i <= 32,
            p@ == before + keyfile@.subrange(0, i as int),
        decreases 32 - i,
    {
        p.push(keyfile[i]);
        proof {
            assert(keyfile@.subrange(0, i + 1) =~= keyfile@.subrange(0, i as int).push(keyfile@[i as int]));
        }
        i = i + 1;
    }
    proof {
        assert(keyfile@.subrange(0, 32) =~= keyfile@);
        if !mode.kill_slot {
            assert(p@ =~= seq![(current_pass@.len() % 256) as u8] + current_pass@ + keyfile@);
        }
    }
    Some(p)
}

} // verus!
