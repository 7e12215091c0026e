//! Properties of the protocol as a whole: what one side sends, the other
//! reads as meant; the loader carries the whole binary in order; the TPM
//! signs the TKey's own nonce and both sides end the key exchange with the
//! same channel; the TKey asks for at most three passphrases, reads the
//! encrypted hash that the host sends and answers with the keyfile that the
//! host decrypts; the slot number written for `cryptsetup` reads back as
//! itself.
use vstd::prelude::*;
use crate::messages::{
    client_error_code, client_message_code, decodes_client_status, host_err_code,
    host_message_code, spec_decode_host_status, ClientError, ClientMessage, HostErr, HostMessage,
};
use crate::firmware;
use crate::firmware::{Action, AppPhase, TkeyApp, bytes_of, reacts, received, signature_error};
use crate::session::{SessionCipher, TOO_SHORT_MARKER};
use crate::handshake::{host_reads, HandshakeAction, HostHandshake};
use crate::loader::{
    load_command, CMD_LOAD_APP, CMD_LOAD_APP_DATA, FRAME_HEADER, answers, chunk, chunk_count, chunk_frame, chunks_prefix, exchanges, frame_bytes, reply_bytes, AppLoader,
    LoaderStep, ACK_LEN, FRAME_LEN,
};
use crate::cryptsetup::{add_key_args, decimal, digit_char, kill_slot_args};
use crate::tpm::left_pad32;
use crate::enroll::{digits_value, is_digit, parsed_u8, unsigned_digits};
use crate::crypto::{
    blake2s256_digest, blake2s_keyed_mac, chacha20_apply, p256_ecdsa_verifies, p256_signature_well_formed,
    p256_spki_valid, x25519_basepoint_bytes, x25519_mul,
};

verus! {

/// The host's message that carries the same meaning as a message of the
/// TKey application.
pub open spec fn host_view_of_message(m: firmware::ClientMessage) -> ClientMessage {
    match m {
        firmware::ClientMessage::GoodSig => ClientMessage::GoodSig,
        firmware::ClientMessage::GoodPass => ClientMessage::GoodPass,
        firmware::ClientMessage::Ready4pass => ClientMessage::Ready4pass,
    }
}

/// Whether the host's error `d` carries the same meaning as the TKey
/// application's error `e`.
pub open spec fn same_error(e: firmware::ClientError, d: ClientError) -> bool {
    match e {
        firmware::ClientError::Blake2 => d is Blake2,
        firmware::ClientError::PassLen => d is PassLen,
        firmware::ClientError::MalformedSig => d is MalformedSig,
        firmware::ClientError::InvalidSig => d is InvalidSig,
        firmware::ClientError::BadPubkey => d is BadPubkey,
        firmware::ClientError::IOError => d is IOError,
        firmware::ClientError::UnknownError => d is UnknownError,
    }
}

/// The host reads each of its own messages back from its byte.
pub proof fn law_host_message_roundtrip(m: HostMessage)
    ensures
        spec_decode_host_status(host_message_code(m)) == Ok::<HostMessage, HostErr>(m),
{
}

/// The host errors that it sends to the TKey (`TpmRefusedToSign`,
/// `DecryptionError`) read back as themselves.
pub proof fn law_host_error_roundtrip(e: HostErr)
    requires
        e is TpmRefusedToSign || e is DecryptionError,
    ensures
        spec_decode_host_status(host_err_code(e)) == Err::<HostMessage, HostErr>(e),
{
}

/// The host reads each client message back from its byte, and nothing
/// else.
pub proof fn law_client_message_roundtrip(m: ClientMessage, r: Result<ClientMessage, ClientError>)
    requires
        decodes_client_status(client_message_code(m), r),
    ensures
        r == Ok::<ClientMessage, ClientError>(m),
{
}

/// Each client error that travels on the wire reads back as the same error.
pub proof fn law_client_error_roundtrip(e: ClientError, r: Result<ClientMessage, ClientError>)
    requires
        client_error_code(&e) is Some,
        decodes_client_status(client_error_code(&e)->0, r),
    ensures
        r is Err,
        client_error_code(&r->Err_0) == client_error_code(&e),
{
}

/// The host reads every message of the TKey application as the message
/// with the same name.
pub proof fn law_host_reads_tkey_messages(m: firmware::ClientMessage, r: Result<ClientMessage, ClientError>)
    requires
        decodes_client_status(firmware::client_message_code(m), r),
    ensures
        r == Ok::<ClientMessage, ClientError>(host_view_of_message(m)),
{
}

/// The host reads every error of the TKey application as the error with
/// the same name.
pub proof fn law_host_reads_tkey_errors(e: firmware::ClientError, r: Result<ClientMessage, ClientError>)
    requires
        decodes_client_status(firmware::client_error_code(e), r),
    ensures
        r is Err,
        same_error(e, r->Err_0),
{
}

/// The TKey application reads the host's `TpmSigned` and
/// `DecryptionSuccess` as meant.
pub proof fn law_tkey_reads_host_messages(m: HostMessage)
    ensures
        m is TpmSigned ==> host_message_code(m) == firmware::host_message_code(firmware::HostMessage::TpmSigned),
        m is DecryptionSuccess ==> host_message_code(m) == firmware::host_message_code(
            firmware::HostMessage::DecryptionSuccess,
        ),
{
}

/// No host error but `StringParseError` (which is never sent to the TKey)
/// shares its byte with a message that the TKey application takes as good
/// news, so a refusal is never read as a signature, and a failure never as
/// success.
pub proof fn law_tkey_never_reads_failure_as_success(e: HostErr)
    requires
        !(e is StringParseError),
    ensures
        host_err_code(e) != firmware::host_message_code(firmware::HostMessage::TpmSigned),
        host_err_code(e) != firmware::host_message_code(firmware::HostMessage::DecryptionSuccess),
{
}

proof fn lemma_chunks_prefix(bin: Seq<u8>, k: nat)
    requires
        k <= chunk_count(bin.len()),
    ensures
        chunks_prefix(bin, k) == bin.subrange(0, if 127 * k <= bin.len() { (127 * k) as int } else { bin.len() as int }),
    decreases k,
{
    if k > 0 {
        lemma_chunks_prefix(bin, (k - 1) as nat);
        let len = bin.len();
        assert(127 * (k - 1) < len) by (nonlinear_arith)
            requires
                k <= (len + 126) / 127,
                k > 0,
        {
        }
        let prev = bin.subrange(0, (127 * (k - 1)) as int);
        assert(chunks_prefix(bin, (k - 1) as nat) == prev);
        let c = chunk(bin, (k - 1) as nat);
        let end: int = if 127 * k <= len { (127 * k) as int } else { len as int };
        assert(c == bin.subrange((127 * (k - 1)) as int, end));
        assert(prev + c =~= bin.subrange(0, end));
    }
}

/// The chunks that the loader sends, in order, are the whole binary.
pub proof fn law_chunks_cover_binary(bin: Seq<u8>)
    ensures
        chunks_prefix(bin, chunk_count(bin.len())) == bin,
{
    let len = bin.len();
    let n = chunk_count(len);
    lemma_chunks_prefix(bin, n);
    assert(127 * n >= len) by (nonlinear_arith)
        requires
            n == (len + 126) / 127,
    {
    }
    assert(bin.subrange(0, len as int) =~= bin);
}

proof fn lemma_chunk_frame_len(bin: Seq<u8>, i: nat)
    requires
        i < chunk_count(bin.len()),
    ensures
        chunk(bin, i).len() <= 127,
        chunk_frame(bin, i).len() == FRAME_LEN,
{
    let len = bin.len();
    assert(127 * i < len) by (nonlinear_arith)
        requires
            i < (len + 126) / 127,
    {
    }
    assert(127 * (i + 1) == 127 * i + 127);
}

/// Whether the states, replies and steps are a run of the loader on `bin`
/// in which the TKey acknowledged the command and every chunk but the last
/// with status 0, up to the reply to the last chunk.
pub open spec fn acknowledged_run(
    bin: Seq<u8>,
    states: Seq<AppLoader>,
    replies: Seq<Seq<u8>>,
    steps: Seq<LoaderStep>,
) -> bool {
    let c = chunk_count(bin.len());
    &&& states.len() == c + 2
    &&& replies.len() == c + 1
    &&& steps.len() == c + 1
    &&& states[0].wf()
    &&& states[0].binary() == bin
    &&& states[0].sent() == 0
    &&& states[0].phase() is AwaitCommandAck
    &&& forall|j: int| 0 <= j < c ==> (#[trigger] replies[j]).len() == ACK_LEN && replies[j][2] == 0
    &&& replies[c as int].len() == FRAME_LEN
    &&& forall|j: int| 0 <= j <= c ==> #[trigger] answers(states[j], replies[j], states[j + 1], steps[j])
}

proof fn lemma_run_prefix(
    bin: Seq<u8>,
    states: Seq<AppLoader>,
    replies: Seq<Seq<u8>>,
    steps: Seq<LoaderStep>,
    k: nat,
)
    requires
        0 < bin.len(),
        acknowledged_run(bin, states, replies, steps),
        k <= chunk_count(bin.len()),
    ensures
        states[k as int].wf(),
        states[k as int].binary() == bin,
        states[k as int].sent() == k,
        k == 0 ==> states[k as int].phase() is AwaitCommandAck,
        0 < k < chunk_count(bin.len()) ==> states[k as int].phase() is AwaitChunkAck,
        k == chunk_count(bin.len()) ==> states[k as int].phase() is AwaitDigest,
        frame_bytes(steps.take(k as int)) == FRAME_LEN * k,
        k < chunk_count(bin.len()) ==> reply_bytes(steps.take(k as int)) == ACK_LEN * k,
        k == chunk_count(bin.len()) ==> reply_bytes(steps.take(k as int)) == ACK_LEN * (k - 1) + FRAME_LEN,
        forall|i: int| 0 <= i < k ==> exchanges(#[trigger] steps[i], chunk_frame(bin, i as nat),
            if i + 1 == chunk_count(bin.len()) { FRAME_LEN } else { ACK_LEN }),
    decreases k,
{
    let c = chunk_count(bin.len());
    assert(c > 0) by (nonlinear_arith)
        requires
            c == (bin.len() + 126) / 127,
            bin.len() > 0,
    {
    }
    if k == 0 {
        assert(steps.take(0) =~= Seq::<LoaderStep>::empty());
    } else {
        let j = (k - 1) as nat;
        lemma_run_prefix(bin, states, replies, steps, j);
        assert(answers(states[j as int], replies[j as int], states[j as int + 1], steps[j as int]));
        assert(j as int + 1 == k as int);
        lemma_chunk_frame_len(bin, j);
        assert(steps.take(k as int).drop_last() =~= steps.take(j as int));
        assert(steps.take(k as int).last() == steps[j as int]);
    }
}

/// One whole load of a non-empty binary that the TKey acknowledges: after
/// the load-app command (of 129 bytes, whose acknowledgement starts the run)
/// the chunk frames go out in order, each of 129 bytes, and their payloads
/// make up the binary; the loader asks for a
/// 5-byte reply to the command and to every chunk but the last, and for a
/// 129-byte reply to the last, so `(1 + c) * 129` bytes are written and
/// `5 c + 129` read for `c` chunks; the load succeeds exactly when that
/// last reply carries the binary's digest.
pub proof fn law_loader_exchange(
    bin: Seq<u8>,
    states: Seq<AppLoader>,
    replies: Seq<Seq<u8>>,
    steps: Seq<LoaderStep>,
)
    requires
        0 < bin.len(),
        acknowledged_run(bin, states, replies, steps),
    ensures
        forall|i: int| 0 <= i < chunk_count(bin.len()) ==> exchanges(#[trigger] steps[i], chunk_frame(bin, i as nat),
            if i + 1 == chunk_count(bin.len()) { FRAME_LEN } else { ACK_LEN }),
        forall|i: int| 0 <= i < chunk_count(bin.len()) ==> (#[trigger] chunk_frame(bin, i as nat)).len() == FRAME_LEN,
        chunks_prefix(bin, chunk_count(bin.len())) == bin,
        FRAME_LEN + frame_bytes(steps.take(chunk_count(bin.len()) as int)) == FRAME_LEN * (1
            + chunk_count(bin.len())),
        ACK_LEN + reply_bytes(steps.take(chunk_count(bin.len()) as int)) == ACK_LEN * chunk_count(bin.len())
            + FRAME_LEN,
        steps[chunk_count(bin.len()) as int] == LoaderStep::Done(Ok(())) <==> replies[chunk_count(
            bin.len(),
        ) as int].subrange(3, 35) == blake2s256_digest(bin),
{
    let c = chunk_count(bin.len());
    lemma_run_prefix(bin, states, replies, steps, c);
    law_chunks_cover_binary(bin);
    assert forall|i: int| 0 <= i < c implies (#[trigger] chunk_frame(bin, i as nat)).len() == FRAME_LEN by {
        lemma_chunk_frame_len(bin, i as nat);
    }
    assert(answers(states[c as int], replies[c as int], states[c + 1 as int], steps[c as int]));
}

/// Whether the actions ask for a passphrase.
pub open spec fn asks_passphrase(a: Seq<Action>) -> bool {
    a.contains(Action::Send(seq![firmware::client_message_code(firmware::ClientMessage::Ready4pass)]))
}

/// Two one-byte sequences are equal only when their bytes are.
proof fn lemma_single_bytes()
    ensures
        forall|a: u8, b: u8|
            #![trigger Seq::<u8>::empty().push(a), Seq::<u8>::empty().push(b)]
            Seq::<u8>::empty().push(a) == Seq::<u8>::empty().push(b) ==> a == b,
{
    assert forall|a: u8, b: u8| Seq::<u8>::empty().push(a) == Seq::<u8>::empty().push(b) implies a == b by {
        assert(Seq::<u8>::empty().push(a)[0] == Seq::<u8>::empty().push(b)[0]);
    }
}

proof fn lemma_lacks(p: Seq<Action>, x: Action)
    requires
        forall|i: int| 0 <= i < p.len() ==> #[trigger] p[i] != x,
    ensures
        !p.contains(x),
{
}

proof fn lemma_lacks_concat(p: Seq<Action>, q: Seq<Action>, x: Action)
    requires
        !p.contains(x),
        !q.contains(x),
    ensures
        !(p + q).contains(x),
{
    if (p + q).contains(x) {
        let i = choose|i: int| 0 <= i < (p + q).len() && (p + q)[i] == x;
        if i < p.len() {
            assert(p[i] == x);
        } else {
            assert(q[i - p.len()] == x);
        }
    }
}

proof fn lemma_attempt_actions(n: u8)
    ensures
        asks_passphrase(firmware::attempt_actions(n)) <==> n < 3,
{
    let a = firmware::attempt_actions(n);
    let x = Action::Send(seq![0x22u8]);
    if n < 3 {
        assert(a[0] == x);
    } else {
        lemma_lacks(a, x);
    }
}

proof fn lemma_prefix_asks(p: Seq<Action>, n: u8)
    requires
        !p.contains(Action::Send(seq![0x22u8])),
    ensures
        asks_passphrase(p + firmware::attempt_actions(n)) <==> n < 3,
{
    let x = Action::Send(seq![0x22u8]);
    let a = firmware::attempt_actions(n);
    lemma_attempt_actions(n);
    if a.contains(x) {
        let j = choose|j: int| 0 <= j < a.len() && a[j] == x;
        assert((p + a)[p.len() + j] == x);
    } else {
        lemma_lacks_concat(p, a, x);
    }
}

/// The TKey application counts the passphrases it asks for: a reaction
/// that asks for one raises the count by one, any other leaves it, and the
/// count never passes three, so no run asks more than three times.
pub proof fn law_at_most_three_passphrases(s: TkeyApp, ev: firmware::Event, t: TkeyApp, a: Seq<Action>)
    requires
        s.wf(),
        t.wf(),
        reacts(s, ev, t, a),
    ensures
        asks_passphrase(a) ==> t.attempts() == s.attempts() + 1,
        !asks_passphrase(a) ==> t.attempts() == s.attempts(),
        t.attempts() <= 3,
{
    s.lemma_wf();
    t.lemma_wf();
    lemma_single_bytes();
    let x = Action::Send(seq![0x22u8]);
    lemma_lacks(seq![Action::Abort], x);
    lemma_lacks(firmware::failure_actions(firmware::ClientError::InvalidSig), x);
    lemma_lacks(firmware::failure_actions(firmware::ClientError::MalformedSig), x);
    let n = s.attempts();
    match s.phase() {
        AppPhase::AwaitNonce | AppPhase::AwaitHostKey | AppPhase::AwaitHash(_) => {
            if a != seq![Action::Abort] {
                lemma_lacks(a, x);
            }
        },
        AppPhase::AwaitKeyMaterial => {
            if a != seq![Action::Abort] {
                assert(bytes_of(ev).subrange(0, 12).len() == 12);
                lemma_lacks(a, x);
            }
        },
        AppPhase::AwaitStatus => {
            lemma_lacks(seq![Action::Receive(64)], x);
        },
        AppPhase::AwaitSignature => {
            let p = seq![Action::Send(seq![0x20u8]), Action::SetLed(firmware::Led::Green)];
            lemma_lacks(p, x);
            lemma_prefix_asks(p, n);
        },
        AppPhase::AwaitTouch => {
            lemma_attempt_actions(n);
        },
        AppPhase::AwaitMarker => {
            let p = seq![Action::Send(seq![0x11u8]), Action::Sleep(firmware::RETRY_PAUSE as nat)];
            lemma_lacks(p, x);
            lemma_prefix_asks(p, n);
            lemma_lacks(seq![Action::Receive(31)], x);
        },
        AppPhase::AwaitVerdict => {
            lemma_lacks(firmware::success_actions(), x);
            let p = seq![Action::Sleep(firmware::RETRY_PAUSE as nat)];
            lemma_lacks(p, x);
            lemma_prefix_asks(p, n);
        },
        _ => {},
    }
}

/// A keyfile leaves the TKey only right after `GoodPass`, in its answer to
/// the last 31 bytes of an encrypted hash: the keyed BLAKE2s of the CDI and
/// the hash decrypted on the channel, itself encrypted with the keystream
/// that follows the hash's.
pub proof fn law_keyfile_only_from_decrypted_hash(
    s: TkeyApp,
    ev: firmware::Event,
    t: TkeyApp,
    a: Seq<Action>,
)
    requires
        s.wf(),
        reacts(s, ev, t, a),
        a.contains(Action::Send(seq![firmware::client_message_code(firmware::ClientMessage::GoodPass)])),
    ensures
        s.phase() is AwaitHash,
        received(ev, 31),
        a == seq![
            Action::Send(seq![0x21u8]),
            Action::Send(chacha20_apply(s.channel().key(), s.channel().nonce(), s.channel().position() + 32,
                blake2s_keyed_mac(s.cdi(), chacha20_apply(s.channel().key(), s.channel().nonce(),
                s.channel().position(), seq![s.phase()->0] + bytes_of(ev))))),
            Action::Receive(1),
        ],
{
    s.lemma_wf();
    lemma_single_bytes();
    let x = Action::Send(seq![0x21u8]);
    let n = s.attempts();
    lemma_lacks(seq![Action::Abort], x);
    lemma_lacks(firmware::attempt_actions(n), x);
    lemma_lacks(firmware::failure_actions(firmware::ClientError::InvalidSig), x);
    lemma_lacks(firmware::failure_actions(firmware::ClientError::MalformedSig), x);
    match s.phase() {
        AppPhase::AwaitNonce | AppPhase::AwaitHostKey => {
            if a != seq![Action::Abort] {
                lemma_lacks(a, x);
            }
        },
        AppPhase::AwaitKeyMaterial => {
            if a != seq![Action::Abort] {
                assert(bytes_of(ev).subrange(0, 12).len() == 12);
                lemma_lacks(a, x);
            }
        },
        AppPhase::AwaitStatus => {
            lemma_lacks(seq![Action::Receive(64)], x);
        },
        AppPhase::AwaitSignature => {
            let p = seq![Action::Send(seq![0x20u8]), Action::SetLed(firmware::Led::Green)];
            lemma_lacks(p, x);
            lemma_lacks_concat(p, firmware::attempt_actions(0), x);
        },
        AppPhase::AwaitMarker => {
            let p = seq![Action::Send(seq![0x11u8]), Action::Sleep(firmware::RETRY_PAUSE as nat)];
            lemma_lacks(p, x);
            lemma_lacks_concat(p, firmware::attempt_actions(n), x);
            lemma_lacks(seq![Action::Receive(31)], x);
        },
        AppPhase::AwaitVerdict => {
            lemma_lacks(firmware::success_actions(), x);
            let p = seq![Action::Sleep(firmware::RETRY_PAUSE as nat)];
            lemma_lacks(p, x);
            lemma_lacks_concat(p, firmware::attempt_actions(n), x);
        },
        _ => {},
    }
}

/// The TKey asks for its first passphrase only once the TPM's signature
/// over its nonce checked out under a valid TPM key, or the user confirmed
/// by touch.
pub proof fn law_first_passphrase_needs_signature_or_touch(
    s: TkeyApp,
    ev: firmware::Event,
    t: TkeyApp,
    a: Seq<Action>,
)
    requires
        s.wf(),
        t.wf(),
        reacts(s, ev, t, a),
        s.attempts() == 0,
        asks_passphrase(a),
    ensures
        (s.phase() is AwaitSignature && p256_spki_valid(s.pubkey()) && p256_signature_well_formed(bytes_of(ev))
            && p256_ecdsa_verifies(s.pubkey(), s.nonce(), bytes_of(ev)))
            || (s.phase() is AwaitTouch && ev == firmware::Event::Touched(true)),
{
    s.lemma_wf();
    law_at_most_three_passphrases(s, ev, t, a);
}

/// The TKey shows green only after the TPM's signature over its nonce
/// checked out under a valid TPM key, or once the host reported that the
/// disk was unlocked.
pub proof fn law_green_means_verified_or_unlocked(
    s: TkeyApp,
    ev: firmware::Event,
    t: TkeyApp,
    a: Seq<Action>,
)
    requires
        s.wf(),
        reacts(s, ev, t, a),
        a.contains(Action::SetLed(firmware::Led::Green)),
    ensures
        (s.phase() is AwaitSignature && signature_error(s.pubkey(), s.nonce(), true, bytes_of(ev)) is None)
            || (s.phase() is AwaitVerdict && firmware::byte_of(ev)
            == firmware::host_message_code(firmware::HostMessage::DecryptionSuccess)),
{
    let g = Action::SetLed(firmware::Led::Green);
    let n = s.attempts();
    lemma_lacks(firmware::attempt_actions(n), g);
    lemma_lacks(seq![Action::Abort], g);
    lemma_lacks(firmware::failure_actions(firmware::ClientError::InvalidSig), g);
    lemma_lacks(firmware::failure_actions(firmware::ClientError::MalformedSig), g);
    match s.phase() {
        AppPhase::AwaitNonce | AppPhase::AwaitKeyMaterial | AppPhase::AwaitHostKey | AppPhase::AwaitHash(_) => {
            if a != seq![Action::Abort] {
                lemma_lacks(a, g);
            }
        },
        AppPhase::AwaitStatus => {
            lemma_lacks(seq![Action::Receive(64)], g);
        },
        AppPhase::AwaitMarker => {
            let p = seq![Action::Send(seq![0x11u8]), Action::Sleep(firmware::RETRY_PAUSE as nat)];
            lemma_lacks(p, g);
            lemma_lacks_concat(p, firmware::attempt_actions(n), g);
            lemma_lacks(seq![Action::Receive(31)], g);
        },
        AppPhase::AwaitVerdict => {
            let p = seq![Action::Sleep(firmware::RETRY_PAUSE as nat)];
            lemma_lacks(p, g);
            lemma_lacks_concat(p, firmware::attempt_actions(n), g);
        },
        _ => {},
    }
}

/// The Diffie-Hellman property of X25519 for the secrets `a` and `b`: each
/// side's secret times the other's public key gives the same point.
pub open spec fn x25519_agree(a: Seq<u8>, b: Seq<u8>) -> bool {
    x25519_mul(a, x25519_mul(b, x25519_basepoint_bytes())) == x25519_mul(b, x25519_mul(a, x25519_basepoint_bytes()))
}

/// The TPM signs the very nonce that the TKey later checks its signature
/// against: the host's handshake, reading the 32 bytes that the TKey sends,
/// asks the TPM to sign them and keeps them as the nonce.
pub proof fn law_tpm_signs_the_tkey_nonce(
    s: TkeyApp,
    ev: firmware::Event,
    t: TkeyApp,
    a: Seq<Action>,
    sent: Seq<u8>,
    h: HostHandshake,
    h1: HostHandshake,
    ha: Seq<HandshakeAction>,
)
    requires
        s.wf(),
        s.phase() is AwaitNonce,
        received(ev, 32),
        reacts(s, ev, t, a),
        a[0] == Action::Send(sent),
        h.phase() is AwaitNonce,
        host_reads(h, sent, h1, ha),
    ensures
        ha[0] == HandshakeAction::SignNonce(t.nonce()),
        h1.nonce() == t.nonce(),
        t.phase() is AwaitKeyMaterial,
{
}

/// The key exchange gives both sides the same channel.  The TKey, given its
/// 44 random bytes, sends a channel nonce, which the host's handshake reads;
/// the host writes the public key of its share, which the TKey reads; the
/// TKey sends its own public key, which the host reads.  Both channels then
/// have that nonce and position 0, and the same key wherever X25519 agrees
/// on the two secrets, which is its Diffie-Hellman property.
pub proof fn law_key_exchange(
    s: TkeyApp,
    ev1: firmware::Event,
    t1: TkeyApp,
    a1: Seq<Action>,
    channel_nonce: Seq<u8>,
    h0: HostHandshake,
    h1: HostHandshake,
    ha1: Seq<HandshakeAction>,
    ev2: firmware::Event,
    t2: TkeyApp,
    a2: Seq<Action>,
    tkey_public: Seq<u8>,
    h2: HostHandshake,
    ha2: Seq<HandshakeAction>,
)
    requires
        s.wf(),
        s.phase() is AwaitKeyMaterial,
        received(ev1, 44),
        reacts(s, ev1, t1, a1),
        a1[0] == Action::Send(channel_nonce),
        h0.phase() is AwaitChannelNonce,
        host_reads(h0, channel_nonce, h1, ha1),
        ev2 is Received,
        ha1[0] == HandshakeAction::Write(bytes_of(ev2)),
        reacts(t1, ev2, t2, a2),
        a2[0] == Action::Send(tkey_public),
        host_reads(h1, tkey_public, h2, ha2),
    ensures
        a1 == seq![Action::Send(channel_nonce), Action::Receive(32)],
        ha1[1] == HandshakeAction::Read(32),
        a2 == seq![Action::Send(tkey_public), Action::Receive(1)],
        ha2 == seq![HandshakeAction::AwaitTpm],
        t2.phase() is AwaitStatus,
        h2.phase() is AwaitTpm,
        t2.channel().nonce() == h2.channel().nonce(),
        t2.channel().position() == 0,
        h2.channel().position() == 0,
        x25519_agree(t1.secret(), h0.secret()) ==> t2.channel().key() == h2.channel().key(),
{
    assert(bytes_of(ev2).len() == 32);
}

/// The TKey reads the host's reply to its nonce as meant.  A signed reply
/// (`TpmSigned` and the 64 signature bytes) is read as a status byte and
/// then the signature, which the TKey checks; a refusal is a single byte
/// that the TKey reads as an unsigned nonce and reports as `InvalidSig`,
/// which the host takes as a signature failure.
pub proof fn law_tkey_reads_nonce_reply(
    s: TkeyApp,
    sig: Option<Seq<u8>>,
    reply: Seq<u8>,
    ev1: firmware::Event,
    t1: TkeyApp,
    a1: Seq<Action>,
    ev2: firmware::Event,
    t2: TkeyApp,
    a2: Seq<Action>,
)
    requires
        s.wf(),
        s.phase() is AwaitStatus,
        sig matches Some(g) ==> g.len() == 64 && reply == seq![host_message_code(HostMessage::TpmSigned)] + g,
        sig is None ==> reply == seq![host_err_code(HostErr::TpmRefusedToSign)],
        ev1 is Received,
        bytes_of(ev1) == reply.subrange(0, 1),
        reacts(s, ev1, t1, a1),
        sig is Some ==> ev2 is Received && bytes_of(ev2) == reply.subrange(1, 65) && reacts(t1, ev2, t2, a2),
    ensures
        sig matches Some(g) ==> {
            &&& a1 == seq![Action::Receive(64)]
            &&& firmware::signature_outcome(t1, signature_error(s.pubkey(), s.nonce(), true, g), t2, a2)
        },
        sig is None ==> {
            let e = signature_error(s.pubkey(), s.nonce(), false, Seq::empty());
            &&& e == Some(firmware::ClientError::InvalidSig)
            &&& firmware::signature_outcome(s, e, t1, a1)
            &&& forall|r: Result<ClientMessage, ClientError>| #[trigger] decodes_client_status(
                firmware::client_error_code(e->0),
                r,
            ) ==> (r matches Err(d) && crate::messages::signature_failure(&d))
        },
{
    if sig is Some {
        assert(reply.subrange(1, 65) =~= sig->0);
    } else {
        let e = signature_error(s.pubkey(), s.nonce(), false, Seq::empty());
        assert forall|r: Result<ClientMessage, ClientError>| #[trigger] decodes_client_status(
            firmware::client_error_code(e->0),
            r,
        ) implies (r matches Err(d) && crate::messages::signature_failure(&d)) by {
            law_host_reads_tkey_errors(e->0, r);
        }
    }
}

/// The byte that the host sends for a passphrase that is too short is the
/// one by which the TKey knows a refused passphrase: the TKey answers
/// `PassLen`, which the host reads as `PassLen`, and moves on to the next
/// attempt without touching the channel.
pub proof fn law_short_passphrase_is_refused(s: TkeyApp, ev: firmware::Event, t: TkeyApp, a: Seq<Action>)
    requires
        s.wf(),
        s.phase() is AwaitMarker,
        ev is Received,
        bytes_of(ev) == seq![TOO_SHORT_MARKER],
        reacts(s, ev, t, a),
    ensures
        a == seq![
            Action::Send(seq![firmware::client_error_code(firmware::ClientError::PassLen)]),
            Action::Sleep(firmware::RETRY_PAUSE as nat),
        ] + firmware::attempt_actions(s.attempts()),
        crate::messages::client_error_code(&ClientError::PassLen) == Some(
            firmware::client_error_code(firmware::ClientError::PassLen),
        ),
        t.channel() == s.channel(),
{
}

/// What the host sends for a passphrase is what the TKey reads, and the
/// TKey's answer is what the host expects.  The host sends the 32 bytes
/// `enc` that [`crate::session::submit_passphrase`] produced: the hash
/// encrypted at its channel's position.  When both channels have the same
/// key, nonce and position, the TKey reads the first byte and then the other
/// 31, decrypts the hash, sends `GoodPass` and a sealed keyfile that the
/// host's channel, 32 bytes further on, decrypts to the keyed BLAKE2s of
/// the CDI and the hash; both channels then stand 64 bytes further on.  An
/// encrypted hash whose first byte is the short-passphrase marker is read
/// as a refusal, so it is left out.
pub proof fn law_passphrase_exchange(
    host: SessionCipher,
    hash: Seq<u8>,
    enc: Seq<u8>,
    s: TkeyApp,
    ev1: firmware::Event,
    t1: TkeyApp,
    a1: Seq<Action>,
    ev2: firmware::Event,
    t2: TkeyApp,
    a2: Seq<Action>,
)
    requires
        enc.len() == 32,
        enc == chacha20_apply(host.key(), host.nonce(), host.position(), hash),
        chacha20_apply(host.key(), host.nonce(), host.position(), enc) == hash,
        enc[0] != TOO_SHORT_MARKER,
        s.wf(),
        s.phase() is AwaitMarker,
        s.channel().key() == host.key(),
        s.channel().nonce() == host.nonce(),
        s.channel().position() == host.position(),
        ev1 is Received,
        bytes_of(ev1) == enc.subrange(0, 1),
        reacts(s, ev1, t1, a1),
        ev2 is Received,
        bytes_of(ev2) == enc.subrange(1, 32),
        reacts(t1, ev2, t2, a2),
    ensures
        a1 == seq![Action::Receive(31)],
        t1.phase() is AwaitHash,
        a2.len() == 3,
        a2[0] == Action::Send(seq![firmware::client_message_code(firmware::ClientMessage::GoodPass)]),
        a2[1] matches Action::Send(sealed) && chacha20_apply(host.key(), host.nonce(), host.position() + 32, sealed)
            == blake2s_keyed_mac(s.cdi(), hash),
        a2[2] == Action::Receive(1),
        t2.phase() is AwaitVerdict,
        t2.channel().key() == host.key(),
        t2.channel().nonce() == host.nonce(),
        t2.channel().position() == host.position() + 64,
{
    assert(firmware::one_byte(ev1));
    assert(seq![enc[0]] + enc.subrange(1, 32) =~= enc);
}

/// Only the bytes of the host's messages decode as messages: a byte that
/// decodes to `Ok(m)` is `m`'s own byte, and the byte of every host error
/// that the host sends (all but `StringParseError`, which shares its byte
/// with `DecryptionSuccess`) decodes as an error.
pub proof fn law_host_status_only_messages_decode(b: u8, e: HostErr)
    ensures
        spec_decode_host_status(b) matches Ok(m) ==> b == host_message_code(m),
        !(e is StringParseError) ==> spec_decode_host_status(host_err_code(e)) is Err,
{
}

/// The load-app command carries the binary's length: its bytes 2 to 5,
/// read little-endian, give back the length, for every length that fits in
/// 32 bits; it is a frame of 129 bytes that opens with the header and the
/// load-app command byte.
pub proof fn law_load_command_carries_length(len: u32)
    ensures
        load_command(len).len() == FRAME_LEN,
        load_command(len)[0] == FRAME_HEADER,
        load_command(len)[1] == CMD_LOAD_APP,
        load_command(len)[2] + 256 * load_command(len)[3] + 65536 * load_command(len)[4] + 16777216
            * load_command(len)[5] == len,
{
    let c = load_command(len);
    assert(c[2] == (len % 256) as u8);
    assert(c[3] == ((len / 256) % 256) as u8);
    assert(c[4] == ((len / 65536) % 256) as u8);
    assert(c[5] == (len / 16777216) as u8);
    assert((len % 256) as u8 + 256 * ((len / 256) % 256) as u8 + 65536 * ((len / 65536) % 256) as u8
        + 16777216 * (len / 16777216) as u8 == len) by (bit_vector);
}

/// Chunk frame `i` carries bytes `127 i` to `127 i + 126` of the binary in
/// order after its two header bytes, and zeros past the binary's end: so
/// the frames, one after the other, carry the whole binary exactly once.
pub proof fn law_chunk_frame_carries_bytes(bin: Seq<u8>, i: nat, j: int)
    requires
        i < chunk_count(bin.len()),
        0 <= j < 127,
    ensures
        chunk_frame(bin, i).len() == FRAME_LEN,
        chunk_frame(bin, i)[0] == FRAME_HEADER,
        chunk_frame(bin, i)[1] == CMD_LOAD_APP_DATA,
        127 * i + j < bin.len() ==> chunk_frame(bin, i)[2 + j] == bin[127 * i + j],
        127 * i + j >= bin.len() ==> chunk_frame(bin, i)[2 + j] == 0,
{
    lemma_chunk_frame_len(bin, i);
    let c = chunk(bin, i);
    let f = chunk_frame(bin, i);
    assert(127 * (i + 1) == 127 * i + 127);
    if j < c.len() {
        assert(f[2 + j] == c[j]);
    } else {
        assert(f[2 + j] == crate::loader::zeros((127 - c.len()) as nat)[j - c.len()]);
    }
}

/// The size that `luksAddKey` reads of the current passphrase, written in
/// decimal, reads back as the passphrase's length for every length; the
/// slot that `luksKillSlot` removes reads back as itself.
pub proof fn law_cryptsetup_numbers_read_back(disk: Seq<char>, n: nat)
    ensures
        add_key_args(disk, n).len() == 8,
        add_key_args(disk, n)[4] == "--keyfile-size"@,
        forall|k: int| 0 <= k < add_key_args(disk, n)[5].len() ==> is_digit(#[trigger] add_key_args(disk, n)[5][k]),
        digits_value(add_key_args(disk, n)[5]) == n,
        kill_slot_args(disk, n).len() == 5,
        forall|k: int| 0 <= k < kill_slot_args(disk, n)[4].len() ==> is_digit(#[trigger] kill_slot_args(disk, n)[4][k]),
        digits_value(kill_slot_args(disk, n)[4]) == n,
{
    lemma_decimal_digits(n);
}

/// Padding keeps a signature part unchanged: a part of at most 32 bytes
/// becomes 32 bytes that end with exactly its bytes, after zeros.
pub proof fn law_left_pad_keeps_part(x: Seq<u8>)
    requires
        x.len() <= 32,
    ensures
        left_pad32(x).len() == 32,
        left_pad32(x).subrange(32 - x.len(), 32) == x,
        forall|k: int| 0 <= k < 32 - x.len() ==> #[trigger] left_pad32(x)[k] == 0,
{
    assert(left_pad32(x).subrange(32 - x.len(), 32) =~= x);
}

proof fn lemma_decimal_digits(n: nat)
    ensures
        decimal(n).len() > 0,
        forall|i: int| 0 <= i < decimal(n).len() ==> is_digit(#[trigger] decimal(n)[i]),
        digits_value(decimal(n)) == n,
    decreases n,
{
    let d = digit_char(n % 10);
    assert((48 + n % 10) as char as nat == 48 + n % 10);
    if n < 10 {
        let s = decimal(n);
        assert(s =~= seq![digit_char(n)]);
        assert(s.drop_last() =~= Seq::<char>::empty());
        assert(s.last() == d);
        assert(digits_value(s) == digits_value(s.drop_last()) * 10 + (s.last() as nat - 48) as nat);
    } else {
        lemma_decimal_digits(n / 10);
        let s = decimal(n);
        assert(s == decimal(n / 10) + seq![d]);
        assert(s.drop_last() =~= decimal(n / 10));
        assert(s.last() == d);
        assert(digits_value(s) == digits_value(s.drop_last()) * 10 + (s.last() as nat - 48) as nat);
        assert((n / 10) * 10 + n % 10 == n) by (nonlinear_arith);
        assert forall|i: int| 0 <= i < s.len() implies is_digit(#[trigger] s[i]) by {
            if i < s.len() - 1 {
                assert(s[i] == decimal(n / 10)[i]);
            }
        }
    }
}

/// The slot number written in decimal for `cryptsetup` reads back, as
/// `str::parse::<u8>` reads it, as the same number.
pub proof fn law_slot_number_roundtrip(n: u8)
    ensures
        parsed_u8(decimal(n as nat)) == Some(n),
{
    lemma_decimal_digits(n as nat);
    let s = decimal(n as nat);
    assert(is_digit(s[0]));
    assert(unsigned_digits(s) == s);
}

} // verus!
