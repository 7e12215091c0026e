//! The QubesOS enrollment after the handshake: the TKey announces that it is
//! ready, the new passphrase is typed twice until both entries agree and it
//! has 8 to 255 bytes, its encrypted Argon2id hash goes out, the encrypted
//! keyfile comes back and is decrypted, and the dom0 proxy receives what it
//! needs to add a key slot (the current passphrase and the keyfile) or to
//! remove one (the slot number and the keyfile).  When the proxy succeeds,
//! the TKey is told so.
//!
//! [`ProxyEnrollment`] takes the decisions in that order; the caller reads
//! and writes the TKey and the proxy and asks the user.
use vstd::prelude::*;
use crate::crypto::{argon2_accepts, argon2id_output, chacha20_apply};
use crate::enroll::{check_new_passphrase, expect_status, proxy_payload, EnrollError, EnrollMode, PassphraseCheck};
use crate::messages::{host_message_code, ClientError, ClientMessage, HostMessage};
use crate::session::{get_argon2, keystream_limit, submit_passphrase, SessionCipher};

verus! {

/// How the enrollment ended.
#[derive(Debug)]
pub enum EnrollOutcome {
    /// The proxy changed the key slots.
    Enrolled,
    /// The proxy reported a failure.
    ProxyFailed,
    /// The exchange with the TKey failed.
    Failed(EnrollError),
}

/// One thing for the caller to do.
#[derive(Debug)]
pub enum EnrollStep {
    /// Read one status byte from the TKey, decode it, and hand it to
    /// [`ProxyEnrollment::on_status`].
    ReadStatus,
    /// Ask the user for the new passphrase twice and hand both entries to
    /// [`ProxyEnrollment::on_passphrases`]; `after_mismatch` says that the
    /// last two entries differed.
    AskNewPassphrase { after_mismatch: bool },
    /// Write these bytes to the TKey.
    Write(Vec<u8>),
    /// Read the 32-byte encrypted keyfile and hand it to
    /// [`ProxyEnrollment::on_keyfile`].
    ReadKeyfile,
    /// Ask the user for the current LUKS passphrase and hand it to
    /// [`ProxyEnrollment::on_current_passphrase`].
    AskCurrentPassphrase,
    /// Write these bytes to the proxy.
    SendToProxy(Vec<u8>),
    /// Wait for the proxy to finish and hand whether it succeeded to
    /// [`ProxyEnrollment::on_proxy`].
    AwaitProxy,
    /// The enrollment is over.
    Finish(EnrollOutcome),
}

/// The mathematical form of an [`EnrollStep`].
pub enum EnrollAction {
    ReadStatus,
    AskNewPassphrase(bool),
    Write(Seq<u8>),
    ReadKeyfile,
    AskCurrentPassphrase,
    SendToProxy(Seq<u8>),
    AwaitProxy,
    Finish(EnrollOutcome),
}

impl View for EnrollStep {
    type V = EnrollAction;

    open spec fn view(&self) -> EnrollAction {
        match self {
            EnrollStep::ReadStatus => EnrollAction::ReadStatus,
            EnrollStep::AskNewPassphrase { after_mismatch } => EnrollAction::AskNewPassphrase(*after_mismatch),
            EnrollStep::Write(b) => EnrollAction::Write(b@),
            EnrollStep::ReadKeyfile => EnrollAction::ReadKeyfile,
            EnrollStep::AskCurrentPassphrase => EnrollAction::AskCurrentPassphrase,
            EnrollStep::SendToProxy(b) => EnrollAction::SendToProxy(b@),
            EnrollStep::AwaitProxy => EnrollAction::AwaitProxy,
            EnrollStep::Finish(o) => EnrollAction::Finish(*o),
        }
    }
}

/// The actions of a list of steps.
pub open spec fn enroll_actions(steps: Seq<EnrollStep>) -> Seq<EnrollAction> {
    steps.map_values(|s: EnrollStep| s@)
}

/// Where the enrollment stands.
#[derive(Debug, Clone, Copy, PartialEq, Eq, Structural)]
pub enum EnrollPhase {
    /// Nothing has happened yet.
    Start,
    /// The TKey's `Ready4pass` is awaited.
    AwaitReady,
    /// The new passphrase is awaited.
    AwaitPassphrases,
    /// The encrypted hash is out; the TKey's status is awaited.
    AwaitPassStatus,
    /// The encrypted keyfile is awaited.
    AwaitKeyfile,
    /// The current LUKS passphrase is awaited.
    AwaitCurrentPassphrase,
    /// The proxy has what it needs; its result is awaited.
    AwaitProxy,
    /// The enrollment is over.
    Finished,
}

/// The state of a QubesOS enrollment after the handshake.
pub struct ProxyEnrollment {
    mode: EnrollMode,
    keyfile: [u8; 32],
    phase: EnrollPhase,
}

/// The one-byte step that reports `e` as the end of the enrollment.
pub open spec fn failed(e: ClientError) -> Seq<EnrollAction> {
    seq![EnrollAction::Finish(EnrollOutcome::Failed(EnrollError::Client(e)))]
}

impl ProxyEnrollment {
    /// Where the enrollment stands.
    pub closed spec fn phase(&self) -> EnrollPhase {
        self.phase
    }

    /// How the program was started.
    pub closed spec fn mode(&self) -> EnrollMode {
        self.mode
    }

    /// The decrypted keyfile, once it came back.
    pub closed spec fn keyfile(&self) -> Seq<u8> {
        self.keyfile@
    }

    /// An enrollment in `mode`.
    pub fn new(mode: EnrollMode) -> (e: ProxyEnrollment)
        ensures
            e.phase() == EnrollPhase::Start,
            e.mode() == mode,
    {
        ProxyEnrollment { mode, keyfile: [0u8; 32], phase: EnrollPhase::Start }
    }

    /// The first step: read the TKey's status, which must be `Ready4pass`.
    pub fn start(&mut self) -> (steps: Vec<EnrollStep>)
        requires
            old(self).phase() == EnrollPhase::Start,
        ensures
            final(self).phase() == EnrollPhase::AwaitReady,
            final(self).mode() == old(self).mode(),
            enroll_actions(steps@) == seq![EnrollAction::ReadStatus],
    {
        let mut steps: Vec<EnrollStep> = Vec::new();
        steps.push(EnrollStep::ReadStatus);
        self.phase = EnrollPhase::AwaitReady;
        proof {
            assert(enroll_actions(steps@) =~= seq![EnrollAction::ReadStatus]);
        }
        steps
    }

    /// Takes a status of the TKey: `Ready4pass` leads to the new
    /// passphrase, and after the encrypted hash `GoodPass` leads to the
    /// keyfile.  An error ends the enrollment with that error, and another
    /// message with `OutOfsync`.
    pub fn on_status(&mut self, status: Result<ClientMessage, ClientError>) -> (steps: Vec<EnrollStep>)
        requires
            old(self).phase() is AwaitReady || old(self).phase() is AwaitPassStatus,
        ensures
            final(self).mode() == old(self).mode(),
            ({
                let expected = if old(self).phase() is AwaitReady {
                    ClientMessage::Ready4pass
                } else {
                    ClientMessage::GoodPass
                };
                if status == Ok::<ClientMessage, ClientError>(expected) {
                    &&& old(self).phase() is AwaitReady ==> enroll_actions(steps@) == seq![
                        EnrollAction::AskNewPassphrase(false),
                    ] && final(self).phase() is AwaitPassphrases
                    &&& old(self).phase() is AwaitPassStatus ==> enroll_actions(steps@) == seq![
                        EnrollAction::ReadKeyfile,
                    ] && final(self).phase() is AwaitKeyfile
                } else {
                    &&& final(self).phase() is Finished
                    &&& status matches Ok(_) ==> enroll_actions(steps@) == failed(ClientError::OutOfsync)
                    &&& status matches Err(e) ==> enroll_actions(steps@) == failed(e)
                }
            }),
    {
        let expected = match self.phase {
            EnrollPhase::AwaitReady => ClientMessage::Ready4pass,
            _ => ClientMessage::GoodPass,
        };
        let ghost s0 = status;
        let mut steps: Vec<EnrollStep> = Vec::new();
        match expect_status(status, expected) {
            Ok(()) => {
                match self.phase {
                    EnrollPhase::AwaitReady => {
                        steps.push(EnrollStep::AskNewPassphrase { after_mismatch: false });
                        self.phase = EnrollPhase::AwaitPassphrases;
                    },
                    _ => {
                        steps.push(EnrollStep::ReadKeyfile);
                        self.phase = EnrollPhase::AwaitKeyfile;
                    },
                }
            },
            Err(e) => {
                proof {
                    if s0 is Ok {
                        assert(s0 != Ok::<ClientMessage, ClientError>(expected));
                    }
                }
                steps.push(EnrollStep::Finish(EnrollOutcome::Failed(EnrollError::Client(e))));
                self.phase = EnrollPhase::Finished;
            },
        }
        proof {
            assert(enroll_actions(steps@) =~= seq![steps@[0]@]);
        }
        steps
    }

    /// Takes the new passphrase typed twice.  Entries that differ, or a
    /// passphrase outside 8 to 255 bytes, lead to asking again; an accepted
    /// one goes out as its Argon2id hash with `salt`, encrypted on the
    /// channel, and the TKey's status is read (where the Argon2id settings
    /// refuse it, the enrollment ends with `UnknownError`).
    pub fn on_passphrases(&mut self, first: &[u8], second: &[u8], salt: &[u8], cipher: &mut SessionCipher) -> (steps: Vec<EnrollStep>)
        requires
            old(self).phase() is AwaitPassphrases,
            argon2_accepts(13107, 1, 4, first@.len(), salt@.len()) ==> old(cipher).position() + 32 <= keystream_limit(),
        ensures
            final(self).mode() == old(self).mode(),
            first@ != second@ ==> {
                &&& enroll_actions(steps@) == seq![EnrollAction::AskNewPassphrase(true)]
                &&& final(self).phase() is AwaitPassphrases
                &&& *final(cipher) == *old(cipher)
            },
            first@ == second@ && !(8 <= first@.len() <= 255) ==> {
                &&& enroll_actions(steps@) == seq![EnrollAction::AskNewPassphrase(false)]
                &&& final(self).phase() is AwaitPassphrases
                &&& *final(cipher) == *old(cipher)
            },
            first@ == second@ && 8 <= first@.len() <= 255 && !argon2_accepts(13107, 1, 4, first@.len(), salt@.len())
                ==> {
                &&& enroll_actions(steps@) == failed(ClientError::UnknownError)
                &&& final(self).phase() is Finished
                &&& *final(cipher) == *old(cipher)
            },
            first@ == second@ && 8 <= first@.len() <= 255 && argon2_accepts(13107, 1, 4, first@.len(), salt@.len())
                ==> {
                &&& enroll_actions(steps@) == seq![
                    EnrollAction::Write(chacha20_apply(old(cipher).key(), old(cipher).nonce(), old(cipher).position(),
                        argon2id_output(13107, 1, 4, first@, salt@))),
                    EnrollAction::ReadStatus,
                ]
                &&& final(self).phase() is AwaitPassStatus
                &&& final(cipher).key() == old(cipher).key()
                &&& final(cipher).nonce() == old(cipher).nonce()
                &&& final(cipher).position() == old(cipher).position() + 32
            },
    {
        let mut steps: Vec<EnrollStep> = Vec::new();
        match check_new_passphrase(first, second) {
            PassphraseCheck::Mismatch => {
                steps.push(EnrollStep::AskNewPassphrase { after_mismatch: true });
            },
            PassphraseCheck::BadLength => {
                steps.push(EnrollStep::AskNewPassphrase { after_mismatch: false });
            },
            PassphraseCheck::Accepted => {
                let config = get_argon2();
                match submit_passphrase(&config, salt, first, cipher) {
                    Ok(encrypted) => {
                        steps.push(EnrollStep::Write(encrypted));
                        steps.push(EnrollStep::ReadStatus);
                        self.phase = EnrollPhase::AwaitPassStatus;
                        proof {
                            assert(enroll_actions(steps@) =~= seq![steps@[0]@, EnrollAction::ReadStatus]);
                        }
                        return steps;
                    },
                    Err(e) => {
                        steps.push(EnrollStep::Finish(EnrollOutcome::Failed(EnrollError::Client(e))));
                        self.phase = EnrollPhase::Finished;
                    },
                }
            },
        }
        proof {
            assert(enroll_actions(steps@) =~= seq![steps@[0]@]);
        }
        steps
    }

    /// Takes the encrypted keyfile and decrypts it on the channel.  To
    /// remove a slot, the proxy then receives the slot number and the
    /// keyfile; to add one, the current passphrase is asked for first.
    pub fn on_keyfile(&mut self, encrypted: &[u8; 32], cipher: &mut SessionCipher) -> (steps: Vec<EnrollStep>)
        requires
            old(self).phase() is AwaitKeyfile,
            old(cipher).position() + 32 <= keystream_limit(),
            old(self).mode().kill_slot ==> old(self).mode().slot is Some,
        ensures
            final(self).mode() == old(self).mode(),
            final(self).keyfile() == chacha20_apply(old(cipher).key(), old(cipher).nonce(), old(cipher).position(),
                encrypted@),
            final(cipher).key() == old(cipher).key(),
            final(cipher).nonce() == old(cipher).nonce(),
            final(cipher).position() == old(cipher).position() + 32,
            old(self).mode().kill_slot ==> {
                &&& enroll_actions(steps@) == seq![
                    EnrollAction::SendToProxy(seq![old(self).mode().slot->0] + final(self).keyfile()),
                    EnrollAction::AwaitProxy,
                ]
                &&& final(self).phase() is AwaitProxy
            },
            !old(self).mode().kill_slot ==> {
                &&& enroll_actions(steps@) == seq![EnrollAction::AskCurrentPassphrase]
                &&& final(self).phase() is AwaitCurrentPassphrase
            },
    {
        let plain = cipher.apply_keystream(encrypted.as_slice());
        let mut keyfile = [0u8; 32];
        let mut i: usize = 0;
        while i < 32
            invariant
                0 <= i <= 32,
                plain@.len() == 32,
                forall|j: int| 0 <= j < i ==> keyfile@[j] == plain@[j],
            decreases 32 - i,
        {
            keyfile[i] = plain[i];
            i = i + 1;
        }
        proof {
            assert(keyfile@ =~= plain@);
        }
        self.keyfile = keyfile;
        let mut steps: Vec<EnrollStep> = Vec::new();
        if self.mode.kill_slot {
            let empty: Vec<u8> = Vec::new();
            match proxy_payload(self.mode, empty.as_slice(), &self.keyfile) {
                Some(payload) => {
                    steps.push(EnrollStep::SendToProxy(payload));
                    steps.push(EnrollStep::AwaitProxy);
                    self.phase = EnrollPhase::AwaitProxy;
                    proof {
                        assert(enroll_actions(steps@) =~= seq![steps@[0]@, EnrollAction::AwaitProxy]);
                    }
                },
                None => {
                    self.phase = EnrollPhase::Finished;
                },
            }
        } else {
            steps.push(EnrollStep::AskCurrentPassphrase);
            self.phase = EnrollPhase::AwaitCurrentPassphrase;
            proof {
                assert(enroll_actions(steps@) =~= seq![EnrollAction::AskCurrentPassphrase]);
            }
        }
        steps
    }

    /// Takes the current LUKS passphrase: the proxy receives its length in
    /// one byte (modulo 256), the passphrase and the keyfile.
    pub fn on_current_passphrase(&mut self, current: &[u8]) -> (steps: Vec<EnrollStep>)
        requires
            old(self).phase() is AwaitCurrentPassphrase,
            !old(self).mode().kill_slot,
        ensures
            final(self).mode() == old(self).mode(),
            final(self).phase() is AwaitProxy,
            enroll_actions(steps@) == seq![
                EnrollAction::SendToProxy(seq![(current@.len() % 256) as u8] + current@ + old(self).keyfile()),
                EnrollAction::AwaitProxy,
            ],
    {
        let mut steps: Vec<EnrollStep> = Vec::new();
        match proxy_payload(self.mode, current, &self.keyfile) {
            Some(payload) => {
                steps.push(EnrollStep::SendToProxy(payload));
            },
            None => {},
        }
        steps.push(EnrollStep::AwaitProxy);
        self.phase = EnrollPhase::AwaitProxy;
        proof {
            assert(enroll_actions(steps@) =~= seq![steps@[0]@, EnrollAction::AwaitProxy]);
        }
        steps
    }

    /// Takes whether the proxy succeeded: the TKey is then told
    /// `DecryptionSuccess` and the enrollment is done; otherwise it ends as
    /// a proxy failure.  The keyfile is wiped either way.
    pub fn on_proxy(&mut self, success: bool) -> (steps: Vec<EnrollStep>)
        requires
            old(self).phase() is AwaitProxy,
        ensures
            final(self).phase() is Finished,
            final(self).keyfile() == Seq::new(32, |i: int| 0u8),
            success ==> enroll_actions(steps@) == seq![
                EnrollAction::Write(seq![host_message_code(HostMessage::DecryptionSuccess)]),
                EnrollAction::Finish(EnrollOutcome::Enrolled),
            ],
            !success ==> enroll_actions(steps@) == seq![EnrollAction::Finish(EnrollOutcome::ProxyFailed)],
    {
        self.keyfile = [0u8; 32];
        self.phase = EnrollPhase::Finished;
        let mut steps: Vec<EnrollStep> = Vec::new();
        if success {
            let mut b: Vec<u8> = Vec::new();
            b.push(HostMessage::DecryptionSuccess.code());
            steps.push(EnrollStep::Write(b));
            steps.push(EnrollStep::Finish(EnrollOutcome::Enrolled));
            proof {
                assert(steps@[0]@ == EnrollAction::Write(seq![host_message_code(HostMessage::DecryptionSuccess)]));
                assert(enroll_actions(steps@) =~= seq![steps@[0]@, steps@[1]@]);
            }
        } else {
            steps.push(EnrollStep::Finish(EnrollOutcome::ProxyFailed));
            proof {
                assert(enroll_actions(steps@) =~= seq![steps@[0]@]);
            }
        }
        proof {
            assert(self.keyfile@ =~= Seq::new(32, |i: int| 0u8));
        }
        steps
    }
}

} // verus!
