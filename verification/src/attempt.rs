//! One attempt of the initramfs unlocker: the TKey announces that it is
//! ready, the passphrase is typed and goes out as its encrypted Argon2id
//! hash (or the short-passphrase marker), the TKey's status is read, the
//! encrypted keyfile comes back and is decrypted for `cryptsetup`, and the
//! TKey learns how unlocking went.
//!
//! [`UnlockAttempt`] takes the decisions in that order; the caller reads and
//! writes the TKey, asks the user, and runs `cryptsetup`.
use vstd::prelude::*;
use crate::crypto::{argon2_accepts, argon2id_output, chacha20_apply};
use crate::cryptsetup::{cryptsetup_result, luks_open_args, open_args, texts, verdict_byte};
use crate::messages::{host_err_code, host_message_code, ClientError, ClientMessage, HostErr, HostMessage};
use crate::session::{
    get_argon2, keystream_limit, password_prompt, password_status, prompt_text, ready_for_passphrase,
    submit_passphrase, AttemptResult, SessionCipher, TOO_SHORT_MARKER,
};

verus! {

/// One thing for the caller to do.
#[derive(Debug)]
pub enum AttemptStep {
    /// Read one status byte from the TKey, decode it, and hand it to
    /// [`UnlockAttempt::on_status`].
    ReadStatus,
    /// Ask the user for the passphrase with this prompt and hand it to
    /// [`UnlockAttempt::on_passphrase`].
    AskPassphrase(String),
    /// Write these bytes to the TKey.
    Write(Vec<u8>),
    /// Write these bytes to the TKey; a failure to write is of no
    /// consequence.
    Notify(Vec<u8>),
    /// Read the 32-byte encrypted keyfile from the TKey and hand it to
    /// [`UnlockAttempt::on_keyfile`].
    ReadKeyfile,
    /// Run `cryptsetup` with these arguments, write `input` to its standard
    /// input, and hand how it went to [`UnlockAttempt::on_cryptsetup`].
    RunCryptsetup { args: Vec<String>, input: Vec<u8> },
    /// The attempt is over with this result.
    Finish(AttemptResult),
}

/// The mathematical form of an [`AttemptStep`].
pub enum AttemptAction {
    ReadStatus,
    AskPassphrase(Seq<char>),
    Write(Seq<u8>),
    Notify(Seq<u8>),
    ReadKeyfile,
    RunCryptsetup(Seq<Seq<char>>, Seq<u8>),
    Finish(AttemptResult),
}

impl View for AttemptStep {
    type V = AttemptAction;

    open spec fn view(&self) -> AttemptAction {
        match self {
            AttemptStep::ReadStatus => AttemptAction::ReadStatus,
            AttemptStep::AskPassphrase(p) => AttemptAction::AskPassphrase(p@),
            AttemptStep::Write(b) => AttemptAction::Write(b@),
            AttemptStep::Notify(b) => AttemptAction::Notify(b@),
            AttemptStep::ReadKeyfile => AttemptAction::ReadKeyfile,
            AttemptStep::RunCryptsetup { args, input } => AttemptAction::RunCryptsetup(texts(args@), input@),
            AttemptStep::Finish(r) => AttemptAction::Finish(*r),
        }
    }
}

/// The actions of a list of steps.
pub open spec fn attempt_actions(steps: Seq<AttemptStep>) -> Seq<AttemptAction> {
    steps.map_values(|s: AttemptStep| s@)
}

/// How running `cryptsetup` went.
#[derive(Debug, Clone, Copy, PartialEq, Eq, Structural)]
pub enum CryptsetupOutcome {
    /// It could not be started, or its input could not be reached.
    NotStarted(HostErr),
    /// Writing the keyfile to it failed.
    InputFailed(HostErr),
    /// It ran to its end, with this exit code (none if it was killed).
    Exited(Option<i32>),
}

/// Where the attempt stands.
#[derive(Debug, Clone, Copy, PartialEq, Eq, Structural)]
pub enum AttemptPhase {
    /// Nothing has happened yet.
    Start,
    /// The TKey's `Ready4pass` is awaited.
    AwaitReady,
    /// The user's passphrase is awaited.
    AwaitPassphrase,
    /// The short-passphrase marker is out; the TKey's status is awaited and
    /// then set aside.
    AwaitRefusalStatus,
    /// The encrypted hash is out; the TKey's status is awaited.
    AwaitPassStatus,
    /// The encrypted keyfile is awaited.
    AwaitKeyfile,
    /// `cryptsetup` runs.
    AwaitCryptsetup,
    /// The attempt is over.
    Finished,
}

/// The state of one unlocking attempt.
pub struct UnlockAttempt {
    trustworthy: bool,
    phase: AttemptPhase,
}

impl UnlockAttempt {
    /// Where the attempt stands.
    pub closed spec fn phase(&self) -> AttemptPhase {
        self.phase
    }

    /// Whether the TPM vouched for the boot chain.
    pub closed spec fn trustworthy(&self) -> bool {
        self.trustworthy
    }

    /// An attempt; `trustworthy` chooses the passphrase prompt.
    pub fn new(trustworthy: bool) -> (a: UnlockAttempt)
        ensures
            a.phase() == AttemptPhase::Start,
            a.trustworthy() == trustworthy,
    {
        UnlockAttempt { trustworthy, phase: AttemptPhase::Start }
    }

    /// The first step: read the TKey's status, which must be `Ready4pass`.
    pub fn start(&mut self) -> (steps: Vec<AttemptStep>)
        requires
            old(self).phase() == AttemptPhase::Start,
        ensures
            final(self).phase() == AttemptPhase::AwaitReady,
            final(self).trustworthy() == old(self).trustworthy(),
            attempt_actions(steps@) == seq![AttemptAction::ReadStatus],
    {
        let mut steps: Vec<AttemptStep> = Vec::new();
        steps.push(AttemptStep::ReadStatus);
        self.phase = AttemptPhase::AwaitReady;
        proof {
            assert(attempt_actions(steps@) =~= seq![AttemptAction::ReadStatus]);
        }
        steps
    }

    /// Takes a status of the TKey.  `Ready4pass` leads to the passphrase
    /// prompt (which warns when the TPM did not vouch for the boot chain),
    /// anything else ends the attempt as `NotReady(OutOfsync)`.  After the
    /// short-passphrase marker the status is set aside and the attempt ends
    /// as `PasswordFailed(PassLen)`.  After the encrypted hash, `GoodPass`
    /// leads to the keyfile; an error ends the attempt with that error, any
    /// other message with `OutOfsync`.
    pub fn on_status(&mut self, status: Result<ClientMessage, ClientError>) -> (steps: Vec<AttemptStep>)
        requires
            old(self).phase() is AwaitReady || old(self).phase() is AwaitRefusalStatus
                || old(self).phase() is AwaitPassStatus,
        ensures
            final(self).trustworthy() == old(self).trustworthy(),
            match old(self).phase() {
                AttemptPhase::AwaitReady => if status == Ok::<ClientMessage, ClientError>(ClientMessage::Ready4pass) {
                    &&& attempt_actions(steps@) == seq![AttemptAction::AskPassphrase(prompt_text(old(self).trustworthy()))]
                    &&& final(self).phase() is AwaitPassphrase
                } else {
                    &&& attempt_actions(steps@) == seq![
                        AttemptAction::Finish(AttemptResult::NotReady(ClientError::OutOfsync)),
                    ]
                    &&& final(self).phase() is Finished
                },
                AttemptPhase::AwaitRefusalStatus => {
                    &&& attempt_actions(steps@) == seq![
                        AttemptAction::Finish(AttemptResult::PasswordFailed(ClientError::PassLen)),
                    ]
                    &&& final(self).phase() is Finished
                },
                _ => if status == Ok::<ClientMessage, ClientError>(ClientMessage::GoodPass) {
                    &&& attempt_actions(steps@) == seq![AttemptAction::ReadKeyfile]
                    &&& final(self).phase() is AwaitKeyfile
                } else {
                    &&& final(self).phase() is Finished
                    &&& status matches Ok(_) ==> attempt_actions(steps@) == seq![
                        AttemptAction::Finish(AttemptResult::PasswordFailed(ClientError::OutOfsync)),
                    ]
                    &&& status matches Err(e) ==> attempt_actions(steps@) == seq![
                        AttemptAction::Finish(AttemptResult::PasswordFailed(e)),
                    ]
                },
            },
    {
        let mut steps: Vec<AttemptStep> = Vec::new();
        match self.phase {
            AttemptPhase::AwaitReady => {
                match ready_for_passphrase(status) {
                    Ok(()) => {
                        steps.push(AttemptStep::AskPassphrase(password_prompt(self.trustworthy)));
                        self.phase = AttemptPhase::AwaitPassphrase;
                    },
                    Err(e) => {
                        steps.push(AttemptStep::Finish(AttemptResult::NotReady(e)));
                        self.phase = AttemptPhase::Finished;
                    },
                }
            },
            AttemptPhase::AwaitRefusalStatus => {
                steps.push(AttemptStep::Finish(AttemptResult::PasswordFailed(ClientError::PassLen)));
                self.phase = AttemptPhase::Finished;
            },
            _ => {
                let ghost s0 = status;
                match password_status(status) {
                    Ok(()) => {
                        steps.push(AttemptStep::ReadKeyfile);
                        self.phase = AttemptPhase::AwaitKeyfile;
                    },
                    Err(e) => {
                        proof {
                            if s0 is Ok {
                                assert(s0 != Ok::<ClientMessage, ClientError>(ClientMessage::GoodPass));
                            }
                        }
                        steps.push(AttemptStep::Finish(AttemptResult::PasswordFailed(e)));
                        self.phase = AttemptPhase::Finished;
                    },
                }
            },
        }
        proof {
            assert(attempt_actions(steps@) =~= seq![steps@[0]@]);
        }
        steps
    }

    /// Takes the typed passphrase.  One shorter than 8 bytes is answered by
    /// the short-passphrase marker and the TKey's status; one that the
    /// Argon2id settings refuse ends the attempt as
    /// `PasswordFailed(UnknownError)`; any other goes out as its Argon2id
    /// hash with `salt`, encrypted on the channel, and the TKey's status is
    /// read.
    pub fn on_passphrase(&mut self, pass: &[u8], salt: &[u8], cipher: &mut SessionCipher) -> (steps: Vec<AttemptStep>)
        requires
            old(self).phase() is AwaitPassphrase,
            pass@.len() >= 8 && argon2_accepts(13107, 1, 4, pass@.len(), salt@.len())
                ==> old(cipher).position() + 32 <= keystream_limit(),
        ensures
            final(self).trustworthy() == old(self).trustworthy(),
            pass@.len() < 8 ==> {
                &&& attempt_actions(steps@) == seq![AttemptAction::Write(seq![TOO_SHORT_MARKER]), AttemptAction::ReadStatus]
                &&& final(self).phase() is AwaitRefusalStatus
                &&& *final(cipher) == *old(cipher)
            },
            pass@.len() >= 8 && !argon2_accepts(13107, 1, 4, pass@.len(), salt@.len()) ==> {
                &&& attempt_actions(steps@) == seq![
                    AttemptAction::Finish(AttemptResult::PasswordFailed(ClientError::UnknownError)),
                ]
                &&& final(self).phase() is Finished
                &&& *final(cipher) == *old(cipher)
            },
            pass@.len() >= 8 && argon2_accepts(13107, 1, 4, pass@.len(), salt@.len()) ==> {
                &&& attempt_actions(steps@) == seq![
                    AttemptAction::Write(chacha20_apply(old(cipher).key(), old(cipher).nonce(), old(cipher).position(),
                        argon2id_output(13107, 1, 4, pass@, salt@))),
                    AttemptAction::ReadStatus,
                ]
                &&& final(self).phase() is AwaitPassStatus
                &&& final(cipher).key() == old(cipher).key()
                &&& final(cipher).nonce() == old(cipher).nonce()
                &&& final(cipher).position() == old(cipher).position() + 32
            },
    {
        let config = get_argon2();
        let mut steps: Vec<AttemptStep> = Vec::new();
        match submit_passphrase(&config, salt, pass, cipher) {
            Ok(encrypted) => {
                steps.push(AttemptStep::Write(encrypted));
                steps.push(AttemptStep::ReadStatus);
                self.phase = AttemptPhase::AwaitPassStatus;
                proof {
                    assert(attempt_actions(steps@) =~= seq![steps@[0]@, AttemptAction::ReadStatus]);
                }
            },
            Err(ClientError::PassLen) => {
                let mut marker: Vec<u8> = Vec::new();
                marker.push(TOO_SHORT_MARKER);
                proof {
                    assert(marker@ =~= seq![TOO_SHORT_MARKER]);
                }
                steps.push(AttemptStep::Write(marker));
                steps.push(AttemptStep::ReadStatus);
                self.phase = AttemptPhase::AwaitRefusalStatus;
                proof {
                    assert(attempt_actions(steps@) =~= seq![
                        AttemptAction::Write(seq![TOO_SHORT_MARKER]),
                        AttemptAction::ReadStatus,
                    ]);
                }
            },
            Err(e) => {
                steps.push(AttemptStep::Finish(AttemptResult::PasswordFailed(e)));
                self.phase = AttemptPhase::Finished;
                proof {
                    assert(attempt_actions(steps@) =~= seq![steps@[0]@]);
                }
            },
        }
        steps
    }

    /// Takes the encrypted keyfile: it is decrypted on the channel and
    /// handed to `cryptsetup`, which opens `disk` under `name`.
    pub fn on_keyfile(&mut self, encrypted: &[u8; 32], cipher: &mut SessionCipher, disk: &str, name: &str) -> (steps: Vec<AttemptStep>)
        requires
            old(self).phase() is AwaitKeyfile,
            old(cipher).position() + 32 <= keystream_limit(),
        ensures
            final(self).trustworthy() == old(self).trustworthy(),
            final(self).phase() is AwaitCryptsetup,
            attempt_actions(steps@) == seq![
                AttemptAction::RunCryptsetup(open_args(disk@, name@),
                    chacha20_apply(old(cipher).key(), old(cipher).nonce(), old(cipher).position(), encrypted@)),
            ],
            final(cipher).key() == old(cipher).key(),
            final(cipher).nonce() == old(cipher).nonce(),
            final(cipher).position() == old(cipher).position() + 32,
    {
        let args = luks_open_args(disk, name);
        let input = cipher.apply_keystream(encrypted.as_slice());
        let mut steps: Vec<AttemptStep> = Vec::new();
        steps.push(AttemptStep::RunCryptsetup { args, input });
        self.phase = AttemptPhase::AwaitCryptsetup;
        proof {
            assert(attempt_actions(steps@) =~= seq![steps@[0]@]);
        }
        steps
    }

    /// Takes how `cryptsetup` went.  If it could not start, the attempt
    /// ends with that error.  If the keyfile could not be written to it,
    /// the TKey is told `DecryptionError` and the attempt ends with that
    /// error.  Otherwise its exit code decides: the TKey is told
    /// `DecryptionSuccess` (whether that write succeeds does not matter) and
    /// the disk is unlocked, or it is told `DecryptionError` and the attempt
    /// ends with `CryptsetupErr` (or `CryptsetupKilled` without an exit
    /// code).
    pub fn on_cryptsetup(&mut self, outcome: CryptsetupOutcome) -> (steps: Vec<AttemptStep>)
        requires
            old(self).phase() is AwaitCryptsetup,
        ensures
            final(self).phase() is Finished,
            final(self).trustworthy() == old(self).trustworthy(),
            outcome matches CryptsetupOutcome::NotStarted(e) ==> attempt_actions(steps@) == seq![
                AttemptAction::Finish(AttemptResult::UnlockFailed(e)),
            ],
            outcome matches CryptsetupOutcome::InputFailed(e) ==> attempt_actions(steps@) == seq![
                AttemptAction::Write(seq![host_err_code(HostErr::DecryptionError)]),
                AttemptAction::Finish(AttemptResult::UnlockFailed(e)),
            ],
            outcome == CryptsetupOutcome::Exited(Some(0i32)) ==> attempt_actions(steps@) == seq![
                AttemptAction::Notify(seq![host_message_code(HostMessage::DecryptionSuccess)]),
                AttemptAction::Finish(AttemptResult::Unlocked),
            ],
            outcome == CryptsetupOutcome::Exited(None) ==> attempt_actions(steps@) == seq![
                AttemptAction::Write(seq![host_err_code(HostErr::DecryptionError)]),
                AttemptAction::Finish(AttemptResult::UnlockFailed(HostErr::CryptsetupKilled)),
            ],
            outcome matches CryptsetupOutcome::Exited(Some(c)) && c != 0 ==> attempt_actions(steps@) == seq![
                AttemptAction::Write(seq![host_err_code(HostErr::DecryptionError)]),
                AttemptAction::Finish(AttemptResult::UnlockFailed(HostErr::CryptsetupErr)),
            ],
    {
        let mut steps: Vec<AttemptStep> = Vec::new();
        self.phase = AttemptPhase::Finished;
        match outcome {
            CryptsetupOutcome::NotStarted(e) => {
                steps.push(AttemptStep::Finish(AttemptResult::UnlockFailed(e)));
                proof {
                    assert(attempt_actions(steps@) =~= seq![steps@[0]@]);
                }
            },
            CryptsetupOutcome::InputFailed(e) => {
                steps.push(AttemptStep::Write(byte_vec(verdict_byte(&Err(HostErr::IOError)))));
                steps.push(AttemptStep::Finish(AttemptResult::UnlockFailed(e)));
                proof {
                    assert(attempt_actions(steps@) =~= seq![steps@[0]@, steps@[1]@]);
                }
            },
            CryptsetupOutcome::Exited(code) => {
                let result = cryptsetup_result(code);
                let verdict = byte_vec(verdict_byte(&result));
                match result {
                    Ok(()) => {
                        steps.push(AttemptStep::Notify(verdict));
                        steps.push(AttemptStep::Finish(AttemptResult::Unlocked));
                    },
                    Err(e) => {
                        steps.push(AttemptStep::Write(verdict));
                        steps.push(AttemptStep::Finish(AttemptResult::UnlockFailed(e)));
                    },
                }
                proof {
                    assert(attempt_actions(steps@) =~= seq![steps@[0]@, steps@[1]@]);
                }
            },
        }
        steps
    }
}

/// A single byte as a vector.
fn byte_vec(b: u8) -> (v: Vec<u8>)
    ensures
        v@ == seq![b],
{
    let mut v: Vec<u8> = Vec::new();
    v.push(b);
    proof {
        assert(v@ =~= seq![b]);
    }
    v
}

} // verus!
