//! Loading an application binary into a TKey that is in firmware mode.
//!
//! The host first sends a load-app command that carries the binary's length,
//! then the binary in chunks of 127 bytes, each in a frame of 129 bytes.  The
//! TKey acknowledges the command and every chunk but the last with a 5-byte
//! reply whose third byte is 0 on success; after the last chunk it answers
//! with a 129-byte reply that holds, at bytes 3 to 34, the BLAKE2s-256 digest
//! of what it received.  The digest must equal that of the binary.
//!
//! [`AppLoader`] holds the decisions of that exchange; the caller moves the
//! bytes.
use vstd::prelude::*;
use crate::crypto::{blake2s256, blake2s256_digest};

verus! {

/// Size of every frame sent to the TKey, and of the final reply.
pub const FRAME_LEN: usize = 129;

/// Payload bytes per chunk frame.
pub const CHUNK_LEN: usize = 127;

/// Size of an acknowledgement reply.
pub const ACK_LEN: usize = 5;

/// Header byte of every frame: id 0, endpoint 2 (firmware), length code 3
/// (128 bytes of data): `(0 << 5) | (2 << 3) | 3`.
pub const FRAME_HEADER: u8 = 0x13;

/// Command byte of the load-app command.
pub const CMD_LOAD_APP: u8 = 0x03;

/// Command byte of a chunk of the application binary.
pub const CMD_LOAD_APP_DATA: u8 = 0x05;

/// Why loading the application failed.
#[derive(Debug, Clone, Copy, PartialEq, Eq, Structural)]
pub enum LoadAppError {
    /// The TKey refused the load-app command (it is most likely already
    /// running an application).
    Rejected,
    /// The TKey refused a chunk of the binary.
    ChunkRejected,
    /// The digest that the TKey computed differs from the binary's.
    DigestMismatch,
}

impl LoadAppError {
    /// The text shown to the user for this error.
    pub fn message(&self) -> (s: String)
        ensures
            s@ == load_app_error_text(*self),
    {
        match self {
            LoadAppError::Rejected => String::from_str("tkey rejected load_app request.."),
            LoadAppError::ChunkRejected => String::from_str("TKey rejected a chunk (STATUS_BAD)"),
            LoadAppError::DigestMismatch => String::from_str(
                "binary digests do not match, must restart app",
            ),
        }
    }
}

/// The text of each loading error.
pub open spec fn load_app_error_text(e: LoadAppError) -> Seq<char> {
    match e {
        LoadAppError::Rejected => "tkey rejected load_app request.."@,
        LoadAppError::ChunkRejected => "TKey rejected a chunk (STATUS_BAD)"@,
        LoadAppError::DigestMismatch => "binary digests do not match, must restart app"@,
    }
}

/// `n` zero bytes.
pub open spec fn zeros(n: nat) -> Seq<u8> {
    Seq::new(n, |i: int| 0u8)
}

/// The four little-endian bytes of `v`.
pub open spec fn le_u32(v: u32) -> Seq<u8> {
    seq![
        (v % 256) as u8,
        ((v / 256) % 256) as u8,
        ((v / 65536) % 256) as u8,
        (v / 16777216) as u8,
    ]
}

/// The load-app command for a binary of `len` bytes: header, command,
/// length, a zero flag for "no user supplied secret", then 32 zero bytes of
/// that absent secret and 90 bytes of padding.
pub open spec fn load_command(len: u32) -> Seq<u8> {
    seq![FRAME_HEADER, CMD_LOAD_APP] + le_u32(len) + seq![0u8] + zeros(32) + zeros(90)
}

/// The number of chunks of a binary of `len` bytes.
pub open spec fn chunk_count(len: nat) -> nat {
    (len + 126) / 127
}

/// The payload of chunk `i`: bytes `127 i` up to `127 (i + 1)` or the end.
pub open spec fn chunk(bin: Seq<u8>, i: nat) -> Seq<u8> {
    let start = 127 * i;
    let end: int = if 127 * (i + 1) <= bin.len() { (127 * (i + 1)) as int } else { bin.len() as int };
    bin.subrange(start as int, end)
}

/// The frame that carries chunk `i`: header, command, payload, and zero
/// padding up to 129 bytes.
pub open spec fn chunk_frame(bin: Seq<u8>, i: nat) -> Seq<u8> {
    seq![FRAME_HEADER, CMD_LOAD_APP_DATA] + chunk(bin, i) + zeros((127 - chunk(bin, i).len()) as nat)
}

/// The payloads of the first `k` chunks, one after the other.
pub open spec fn chunks_prefix(bin: Seq<u8>, k: nat) -> Seq<u8>
    decreases k,
{
    if k == 0 {
        Seq::empty()
    } else {
        chunks_prefix(bin, (k - 1) as nat) + chunk(bin, (k - 1) as nat)
    }
}

/// Where the exchange stands.
#[derive(Debug, Clone, Copy, PartialEq, Eq, Structural)]
pub enum LoaderPhase {
    /// The load-app command is out; its acknowledgement is awaited.
    AwaitCommandAck,
    /// A chunk that is not the last one is out; its acknowledgement is
    /// awaited.
    AwaitChunkAck,
    /// The last chunk is out; the reply with the digest is awaited.
    AwaitDigest,
    /// The exchange is over.
    Finished,
}

/// What the caller does next.
#[derive(Debug)]
pub enum LoaderStep {
    /// Send `frame` to the TKey, read exactly `reply_len` bytes back and hand
    /// them to [`AppLoader::on_reply`].
    Exchange { frame: Vec<u8>, reply_len: usize },
    /// The exchange is over, with this outcome.
    Done(Result<(), LoadAppError>),
}

/// The state of one load-app exchange.
pub struct AppLoader {
    binary: Vec<u8>,
    sent: usize,
    phase: LoaderPhase,
}

impl AppLoader {
    /// The binary being loaded.
    pub closed spec fn binary(&self) -> Seq<u8> {
        self.binary@
    }

    /// How many chunks have been sent.
    pub closed spec fn sent(&self) -> nat {
        self.sent as nat
    }

    /// Where the exchange stands.
    pub closed spec fn phase(&self) -> LoaderPhase {
        self.phase
    }

    /// The state is consistent: the length fits the command's 32-bit field,
    /// no more chunks were sent than there are, and the phase matches the
    /// number of chunks sent.
    pub closed spec fn wf(&self) -> bool {
        &&& self.binary@.len() <= u32::MAX
        &&& self.sent <= chunk_count(self.binary@.len())
        &&& (self.phase is AwaitCommandAck ==> self.sent == 0)
        &&& (self.phase is AwaitChunkAck ==> 0 < self.sent < chunk_count(self.binary@.len()))
        &&& (self.phase is AwaitDigest ==> self.sent == chunk_count(self.binary@.len())
            && self.sent > 0)
    }

    /// Starts an exchange for `binary`; the first frame to send is
    /// [`AppLoader::command_frame`], answered by a 5-byte acknowledgement.
    pub fn new(binary: Vec<u8>) -> (l: AppLoader)
        requires
            binary@.len() <= u32::MAX,
        ensures
            l.wf(),
            l.binary() == binary@,
            l.sent() == 0,
            l.phase() == LoaderPhase::AwaitCommandAck,
    {
        AppLoader { binary, sent: 0, phase: LoaderPhase::AwaitCommandAck }
    }

    /// The load-app command for this binary.
    pub fn command_frame(&self) -> (f: Vec<u8>)
        requires
            self.wf(),
        ensures
            f@ == load_command(self.binary().len() as u32),
            f@.len() == FRAME_LEN,
            f@[2] + 256 * f@[3] + 65536 * f@[4] + 16777216 * f@[5] == self.binary().len(),
    {
        let len = self.binary.len() as u32;
        let mut f: Vec<u8> = Vec::new();
        f.push(FRAME_HEADER);
        f.push(CMD_LOAD_APP);
        f.push((len % 256) as u8);
        f.push(((len / 256) % 256) as u8);
        f.push(((len / 65536) % 256) as u8);
        f.push((len / 16777216) as u8);
        f.push(0u8);
        let mut i: usize = 0;
        while i < 122
            invariant
                0 <= i <= 122,
                f@ == seq![FRAME_HEADER, CMD_LOAD_APP] + le_u32(len) + seq![0u8] + zeros(i as nat),
            decreases 122 - i,
        {
            f.push(0u8);
            i = i + 1;
            proof {
                assert(zeros(i as nat) =~= zeros((i - 1) as nat).push(0u8));
            }
        }
        proof {
            assert(zeros(122) =~= zeros(32) + zeros(90));
            assert(f@ =~= load_command(len));
            crate::laws::law_load_command_carries_length(len);
        }
        f
    }

    /// The frame that carries chunk `i` of the binary.
    pub fn data_frame(&self, i: usize) -> (f: Vec<u8>)
        requires
            self.wf(),
            i < chunk_count(self.binary().len()),
        ensures
            f@ == chunk_frame(self.binary(), i as nat),
            f@.len() == FRAME_LEN,
            forall|j: int| 0 <= j < 127 && 127 * i + j < self.binary().len() ==> #[trigger] f@[2 + j]
                == self.binary()[127 * i + j],
            forall|j: int| 0 <= j < 127 && 127 * i + j >= self.binary().len() ==> #[trigger] f@[2 + j] == 0,
    {
        let len = self.binary.len();
        let start = 127 * i;
        let end = if i < len / 127 { 127 * (i + 1) } else { len };
        proof {
            assert(start <= len);
            if i < len / 127 {
                assert(127 * (i + 1) <= len);
            } else {
                assert(!(127 * (i + 1) <= len));
            }
            assert(end - start <= 127);
        }
        let mut f: Vec<u8> = Vec::new();
        f.push(FRAME_HEADER);
        f.push(CMD_LOAD_APP_DATA);
        let mut j: usize = start;
        while j < end
            invariant
                start <= j <= end <= len,
                len == self.binary@.len(),
                f@ == seq![FRAME_HEADER, CMD_LOAD_APP_DATA] + self.binary@.subrange(start as int, j as int),
            decreases end - j,
        {
            f.push(self.binary[j]);
            proof {
                assert(self.binary@.subrange(start as int, (j + 1) as int)
                    =~= self.binary@.subrange(start as int, j as int).push(self.binary@[j as int]));
            }
            j = j + 1;
        }
        let pad = 127 - (end - start);
        let ghost body = f@;
        let mut k: usize = 0;
        while k < pad
            invariant
                0 <= k <= pad,
                f@ == body + zeros(k as nat),
            decreases pad - k,
        {
            f.push(0u8);
            k = k + 1;
            proof {
                assert(zeros(k as nat) =~= zeros((k - 1) as nat).push(0u8));
            }
        }
        proof {
            assert(chunk(self.binary@, i as nat) =~= self.binary@.subrange(start as int, end as int));
            assert(f@ =~= chunk_frame(self.binary@, i as nat));
            assert forall|j: int| 0 <= j < 127 implies (127 * i + j < self.binary@.len() ==> #[trigger] f@[2 + j]
                == self.binary@[127 * i + j]) && (127 * i + j >= self.binary@.len() ==> f@[2 + j] == 0) by {
                crate::laws::law_chunk_frame_carries_bytes(self.binary@, i as nat, j);
            }
        }
        f
    }

    /// Whether chunk `i` is the last one.
    fn is_last(&self, i: usize) -> (b: bool)
        requires
            self.wf(),
            i < chunk_count(self.binary().len()),
        ensures
            b == (i + 1 == chunk_count(self.binary().len())),
    {
        let len = self.binary.len();
        i == (len - 1) / 127
    }

    /// Sends chunk `self.sent` and moves on.
    fn send_next(&mut self) -> (step: LoaderStep)
        requires
            old(self).wf(),
            old(self).sent() < chunk_count(old(self).binary().len()),
        ensures
            final(self).wf(),
            final(self).binary() == old(self).binary(),
            final(self).sent() == old(self).sent() + 1,
            step matches LoaderStep::Exchange { frame, reply_len } && {
                &&& frame@ == chunk_frame(old(self).binary(), old(self).sent())
                &&& if final(self).sent() == chunk_count(old(self).binary().len()) {
                    reply_len == FRAME_LEN && final(self).phase() == LoaderPhase::AwaitDigest
                } else {
                    reply_len == ACK_LEN && final(self).phase() == LoaderPhase::AwaitChunkAck
                }
            },
    {
        let i = self.sent;
        let frame = self.data_frame(i);
        let last = self.is_last(i);
        self.sent = i + 1;
        if last {
            self.phase = LoaderPhase::AwaitDigest;
            LoaderStep::Exchange { frame, reply_len: FRAME_LEN }
        } else {
            self.phase = LoaderPhase::AwaitChunkAck;
            LoaderStep::Exchange { frame, reply_len: ACK_LEN }
        }
    }

    /// Takes the TKey's reply to the last frame sent and says what comes
    /// next: a 5-byte acknowledgement whose third byte is not 0 ends the
    /// exchange with an error; after the command's acknowledgement the
    /// chunks go out in order; the last reply must carry the binary's digest
    /// at bytes 3 to 34.  An empty binary is done once the command is
    /// acknowledged.
    pub fn on_reply(&mut self, reply: &[u8]) -> (step: LoaderStep)
        requires
            old(self).wf(),
            !(old(self).phase() is Finished),
            old(self).phase() is AwaitDigest ==> reply@.len() == FRAME_LEN,
            !(old(self).phase() is AwaitDigest) ==> reply@.len() == ACK_LEN,
        ensures
            answers(*old(self), reply@, *final(self), step),
    {
        match self.phase {
            LoaderPhase::AwaitCommandAck => {
                if reply[2] != 0 {
                    self.phase = LoaderPhase::Finished;
                    LoaderStep::Done(Err(LoadAppError::Rejected))
                } else if self.binary.len() == 0 {
                    self.phase = LoaderPhase::Finished;
                    LoaderStep::Done(Ok(()))
                } else {
                    self.send_next()
                }
            },
            LoaderPhase::AwaitChunkAck => {
                if reply[2] != 0 {
                    self.phase = LoaderPhase::Finished;
                    LoaderStep::Done(Err(LoadAppError::ChunkRejected))
                } else {
                    self.send_next()
                }
            },
            LoaderPhase::AwaitDigest => {
                let digest = blake2s256(self.binary.as_slice());
                let mut same = true;
                let mut i: usize = 0;
                proof {
                    assert(reply@.subrange(3, 3) =~= digest@.subrange(0, 0));
                }
                while i < 32
                    invariant
                        0 <= i <= 32,
                        reply@.len() == FRAME_LEN,
                        digest@.len() == 32,
                        same <==> (reply@.subrange(3, 3 + i as int) == digest@.subrange(0, i as int)),
                    decreases 32 - i,
                {
                    let ghost a0 = reply@.subrange(3, 3 + i as int);
                    let ghost b0 = digest@.subrange(0, i as int);
                    let ghost a1 = reply@.subrange(3, 3 + i + 1);
                    let ghost b1 = digest@.subrange(0, i + 1);
                    if reply[3 + i] != digest[i] {
                        same = false;
                    }
                    proof {
                        assert(a1 =~= a0.push(reply@[3 + i]));
                        assert(b1 =~= b0.push(digest@[i as int]));
                        if a1 == b1 {
                            assert(a1.drop_last() =~= a0);
                            assert(b1.drop_last() =~= b0);
                            assert(a1[i as int] == b1[i as int]);
                        }
                        if a0 == b0 && reply@[3 + i] == digest@[i as int] {
                            assert(a1 =~= b1);
                        }
                    }
                    i = i + 1;
                }
                proof {
                    assert(digest@.subrange(0, 32) =~= digest@);
                }
                self.phase = LoaderPhase::Finished;
                if same {
                    LoaderStep::Done(Ok(()))
                } else {
                    LoaderStep::Done(Err(LoadAppError::DigestMismatch))
                }
            },
            LoaderPhase::Finished => {
                LoaderStep::Done(Ok(()))
            },
        }
    }
}

/// The loader's answer to `reply` in state `s`: the next state `t` and the
/// step `step`.  A 5-byte acknowledgement whose third byte is not 0 ends the
/// exchange with an error; after the command's acknowledgement the chunks
/// go out in order; the last reply must carry the binary's digest at bytes
/// 3 to 34.  An empty binary is done once the command is acknowledged.
pub open spec fn answers(s: AppLoader, reply: Seq<u8>, t: AppLoader, step: LoaderStep) -> bool {
    &&& t.wf()
    &&& t.binary() == s.binary()
    &&& match s.phase() {
        LoaderPhase::AwaitCommandAck => if reply[2] != 0 {
            step == LoaderStep::Done(Err(LoadAppError::Rejected)) && t.phase() is Finished
        } else if s.binary().len() == 0 {
            step == LoaderStep::Done(Ok(())) && t.phase() is Finished
        } else {
            sends_chunk(step, s.binary(), 0, t)
        },
        LoaderPhase::AwaitChunkAck => if reply[2] != 0 {
            step == LoaderStep::Done(Err(LoadAppError::ChunkRejected)) && t.phase() is Finished
        } else {
            sends_chunk(step, s.binary(), s.sent(), t)
        },
        LoaderPhase::AwaitDigest => t.phase() is Finished && if reply.subrange(3, 35) == blake2s256_digest(
            s.binary(),
        ) {
            step == LoaderStep::Done(Ok(()))
        } else {
            step == LoaderStep::Done(Err(LoadAppError::DigestMismatch))
        },
        LoaderPhase::Finished => false,
    }
}

/// `step` sends chunk `i` of `bin`, and `after` is the state that awaits its
/// reply: the digest after the last chunk, an acknowledgement otherwise.
pub open spec fn sends_chunk(step: LoaderStep, bin: Seq<u8>, i: nat, after: AppLoader) -> bool {
    &&& after.sent() == i + 1
    &&& step matches LoaderStep::Exchange { frame, reply_len } && {
        &&& frame@ == chunk_frame(bin, i)
        &&& if i + 1 == chunk_count(bin.len()) {
            reply_len == FRAME_LEN && after.phase() is AwaitDigest
        } else {
            reply_len == ACK_LEN && after.phase() is AwaitChunkAck
        }
    }
}

/// How many bytes the steps send to the TKey, all together.
pub open spec fn frame_bytes(steps: Seq<LoaderStep>) -> nat
    decreases steps.len(),
{
    if steps.len() == 0 {
        0
    } else {
        frame_bytes(steps.drop_last()) + match steps.last() {
            LoaderStep::Exchange { frame, .. } => frame@.len(),
            LoaderStep::Done(_) => 0,
        }
    }
}

/// How many bytes the steps ask to read back, all together.
pub open spec fn reply_bytes(steps: Seq<LoaderStep>) -> nat
    decreases steps.len(),
{
    if steps.len() == 0 {
        0
    } else {
        reply_bytes(steps.drop_last()) + match steps.last() {
            LoaderStep::Exchange { reply_len, .. } => reply_len as nat,
            LoaderStep::Done(_) => 0,
        }
    }
}

/// Whether `step` sends `frame` and asks for `reply_len` bytes back.
pub open spec fn exchanges(step: LoaderStep, frame: Seq<u8>, reply_len: usize) -> bool {
    step matches LoaderStep::Exchange { frame: f, reply_len: r } && f@ == frame && r == reply_len
}

} // verus!
