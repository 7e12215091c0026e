//! The host side of the one-byte status protocol spoken between the host
//! program and the TKey application.
//!
//! Every status travels as a single byte.  The TKey answers with a
//! [`ClientMessage`] or a [`ClientError`]; the host answers with a
//! [`HostMessage`] or a [`HostErr`].
use vstd::prelude::*;
use vstd::string::*;

verus! {

/// `std::io::Error` travels inside [`ClientError::IOError`]; it is carried
/// through unchanged and never inspected.
#[verifier::external_type_specification]
#[verifier::external_body]
pub struct ExIoError(std::io::Error);

/// Builds the error that stands for a TKey that reported it could not
/// communicate: `std::io::Error::new(ErrorKind::Interrupted, msg)`.
/// Nothing is promised of the value, which is only carried along.
#[verifier::external_body]
fn interrupted_error(msg: &str) -> std::io::Error {
    std::io::Error::new(std::io::ErrorKind::Interrupted, msg)
}

/// Renders an I/O error with its `Display` impl.  What the text says
/// depends on the error and, for operating-system errors, on the machine,
/// so nothing is promised of it.
#[verifier::external_body]
fn io_error_text(e: &std::io::Error) -> String {
    format!("{}", e)
}

/// Successful statuses that the TKey application reports.
#[derive(Debug, Clone, Copy, PartialEq, Eq, Structural)]
pub enum ClientMessage {
    GoodSig,
    GoodPass,
    Ready4pass,
}

/// Failures on the host side.  Some of them are also sent to the TKey.
#[derive(Debug, Clone, Copy, PartialEq, Eq, Structural)]
pub enum HostErr {
    CryptsetupErr,
    CryptsetupKilled,
    PipeError,
    IOError,
    TpmError,
    UnknownError,
    TpmRefusedToSign,
    DecryptionError,
    StringParseError,
}

/// Successful statuses that the host sends to the TKey.
#[derive(Debug, Clone, Copy, PartialEq, Eq, Structural)]
pub enum HostMessage {
    DecryptionSuccess,
    TpmSigned,
}

/// Failures that the TKey application reports, plus two that only the host
/// raises (`OutOfsync`, `UnknownError`).
#[derive(Debug)]
pub enum ClientError {
    Blake2,
    PassLen,
    MalformedSig,
    InvalidSig,
    BadPubkey,
    IOError(std::io::Error),
    OutOfsync,
    UnknownError,
}

/// Whether `e` is one of the errors by which the TKey says that it could
/// not check the TPM's signature.
pub open spec fn signature_failure(e: &ClientError) -> bool {
    e is InvalidSig || e is MalformedSig || e is BadPubkey
}

/// Wire byte of each client message.
pub open spec fn client_message_code(m: ClientMessage) -> u8 {
    match m {
        ClientMessage::GoodSig => 0x20,
        ClientMessage::GoodPass => 0x21,
        ClientMessage::Ready4pass => 0x22,
    }
}

/// Wire byte of each host message.
pub open spec fn host_message_code(m: HostMessage) -> u8 {
    match m {
        HostMessage::DecryptionSuccess => 0x99,
        HostMessage::TpmSigned => 0x97,
    }
}

/// Byte value of each host error.  The first six count up from zero; the
/// last three count up from 0x90 and 0x98.
pub open spec fn host_err_code(e: HostErr) -> u8 {
    match e {
        HostErr::CryptsetupErr => 0,
        HostErr::CryptsetupKilled => 1,
        HostErr::PipeError => 2,
        HostErr::IOError => 3,
        HostErr::TpmError => 4,
        HostErr::UnknownError => 5,
        HostErr::TpmRefusedToSign => 0x90,
        HostErr::DecryptionError => 0x98,
        HostErr::StringParseError => 0x99,
    }
}

/// Wire byte of each client error that the TKey can send; `None` for the
/// two errors that only the host raises.
pub open spec fn client_error_code(e: &ClientError) -> Option<u8> {
    match e {
        ClientError::Blake2 => Some(0x10u8),
        ClientError::PassLen => Some(0x11u8),
        ClientError::MalformedSig => Some(0x12u8),
        ClientError::InvalidSig => Some(0x13u8),
        ClientError::BadPubkey => Some(0x14u8),
        ClientError::IOError(_) => Some(0x15u8),
        ClientError::OutOfsync => None,
        ClientError::UnknownError => None,
    }
}

/// What a status byte from the TKey means: the message, or the error with
/// that byte; the error `IOError` stands for byte 0x15, and every byte that
/// is no code decodes to `UnknownError`.
pub open spec fn decodes_client_status(b: u8, r: Result<ClientMessage, ClientError>) -> bool {
    match r {
        Ok(m) => client_message_code(m) == b,
        Err(e) => match client_error_code(&e) {
            Some(c) => c == b,
            None => e is UnknownError && !is_client_status_code(b),
        },
    }
}

/// The bytes that the TKey application uses for a status.
pub open spec fn is_client_status_code(b: u8) -> bool {
    (0x10 <= b && b <= 0x15) || (0x20 <= b && b <= 0x22)
}

/// What a status byte from the host means.
pub open spec fn spec_decode_host_status(b: u8) -> Result<HostMessage, HostErr> {
    if b == 0x99 {
        Ok(HostMessage::DecryptionSuccess)
    } else if b == 0x97 {
        Ok(HostMessage::TpmSigned)
    } else if b == 0x98 {
        Err(HostErr::DecryptionError)
    } else if b == 0x90 {
        Err(HostErr::TpmRefusedToSign)
    } else {
        Err(HostErr::UnknownError)
    }
}

impl ClientMessage {
    /// The byte that stands for this message on the wire.
    pub fn code(&self) -> (c: u8)
        ensures
            c == client_message_code(*self),
    {
        match self {
            ClientMessage::GoodSig => 0x20,
            ClientMessage::GoodPass => 0x21,
            ClientMessage::Ready4pass => 0x22,
        }
    }

    /// Decodes a status byte received from the TKey.
    pub fn try_from(value: u8) -> (r: Result<ClientMessage, ClientError>)
        ensures
            decodes_client_status(value, r),
    {
        match value {
            0x20 => Ok(ClientMessage::GoodSig),
            0x21 => Ok(ClientMessage::GoodPass),
            0x22 => Ok(ClientMessage::Ready4pass),
            0x10 => Err(ClientError::Blake2),
            0x11 => Err(ClientError::PassLen),
            0x12 => Err(ClientError::MalformedSig),
            0x13 => Err(ClientError::InvalidSig),
            0x14 => Err(ClientError::BadPubkey),
            0x15 => Err(ClientError::IOError(interrupted_error("tkey couldn't communicate"))),
            _ => Err(ClientError::UnknownError),
        }
    }
}

impl HostMessage {
    /// The byte that stands for this message on the wire.
    pub fn code(&self) -> (c: u8)
        ensures
            c == host_message_code(*self),
    {
        match self {
            HostMessage::DecryptionSuccess => 0x99,
            HostMessage::TpmSigned => 0x97,
        }
    }

    /// Decodes a status byte received from the host.
    pub fn try_from(value: u8) -> (r: Result<HostMessage, HostErr>)
        ensures
            r == spec_decode_host_status(value),
            r matches Ok(m) ==> value == host_message_code(m),
    {
        match value {
            0x99 => Ok(HostMessage::DecryptionSuccess),
            0x97 => Ok(HostMessage::TpmSigned),
            0x98 => Err(HostErr::DecryptionError),
            0x90 => Err(HostErr::TpmRefusedToSign),
            _ => Err(HostErr::UnknownError),
        }
    }
}

impl HostErr {
    /// The byte value of this error.
    pub fn code(&self) -> (c: u8)
        ensures
            c == host_err_code(*self),
    {
        match self {
            HostErr::CryptsetupErr => 0,
            HostErr::CryptsetupKilled => 1,
            HostErr::PipeError => 2,
            HostErr::IOError => 3,
            HostErr::TpmError => 4,
            HostErr::UnknownError => 5,
            HostErr::TpmRefusedToSign => 0x90,
            HostErr::DecryptionError => 0x98,
            HostErr::StringParseError => 0x99,
        }
    }

    /// The text shown to the user for this error.
    pub fn message(&self) -> (s: String)
        ensures
            s@ == host_err_text(*self),
    {
        match self {
            HostErr::CryptsetupErr => String::from_str("cryptsetup sent an error"),
            HostErr::PipeError => String::from_str("failed to write or create pipe"),
            HostErr::IOError => String::from_str("failed to fetch keyfile from tkey"),
            HostErr::CryptsetupKilled => String::from_str("cryptsetup was killed.."),
            HostErr::TpmError => String::from_str("tpm sent malformed sig"),
            HostErr::TpmRefusedToSign => String::from_str(
                "tpm REFUSED to sign this system is unsuccessful_auth",
            ),
            HostErr::UnknownError => String::from_str(
                "unknown error found this is a bug please open a github issue to report it.",
            ),
            HostErr::DecryptionError => String::from_str("couldn't decrypt passphrase is wrong."),
            HostErr::StringParseError => String::from_str(
                "couldn't parse string correctly, qrexec stream was corrupted?",
            ),
        }
    }
}

/// The text of each host error.
pub open spec fn host_err_text(e: HostErr) -> Seq<char> {
    match e {
        HostErr::CryptsetupErr => "cryptsetup sent an error"@,
        HostErr::PipeError => "failed to write or create pipe"@,
        HostErr::IOError => "failed to fetch keyfile from tkey"@,
        HostErr::CryptsetupKilled => "cryptsetup was killed.."@,
        HostErr::TpmError => "tpm sent malformed sig"@,
        HostErr::TpmRefusedToSign => "tpm REFUSED to sign this system is unsuccessful_auth"@,
        HostErr::UnknownError =>
            "unknown error found this is a bug please open a github issue to report it."@,
        HostErr::DecryptionError => "couldn't decrypt passphrase is wrong."@,
        HostErr::StringParseError =>
            "couldn't parse string correctly, qrexec stream was corrupted?"@,
    }
}

/// The text of each client error but `IOError`, whose text starts with
/// `"IO error: "` and goes on with the I/O error's own text.
pub open spec fn client_error_text(e: &ClientError) -> Seq<char> {
    match e {
        ClientError::Blake2 => "blake2 hashing error.."@,
        ClientError::PassLen => "your password is too short try again.."@,
        ClientError::MalformedSig => "signature couldn't be imported"@,
        ClientError::InvalidSig => "signature is invalid."@,
        ClientError::BadPubkey =>
            "public key couldnt be imported something must've went wrong on the build process."@,
        ClientError::IOError(_) => "IO error: "@,
        ClientError::UnknownError => "tkey sent invalid error message."@,
        ClientError::OutOfsync => "host and tkey are out of sync, restart app."@,
    }
}

impl ClientError {
    /// The wire byte of this error, where the TKey can send it.
    pub fn code(&self) -> (c: Option<u8>)
        ensures
            c == client_error_code(self),
    {
        match self {
            ClientError::Blake2 => Some(0x10),
            ClientError::PassLen => Some(0x11),
            ClientError::MalformedSig => Some(0x12),
            ClientError::InvalidSig => Some(0x13),
            ClientError::BadPubkey => Some(0x14),
            ClientError::IOError(_) => Some(0x15),
            ClientError::OutOfsync => None,
            ClientError::UnknownError => None,
        }
    }

    /// The text shown to the user for this error.
    pub fn message(&self) -> (s: String)
        ensures
            self is IOError ==> s@.len() >= 10 && s@.subrange(0, 10) == client_error_text(self),
            !(self is IOError) ==> s@ == client_error_text(self),
    {
        match self {
            ClientError::Blake2 => String::from_str("blake2 hashing error.."),
            ClientError::PassLen => String::from_str("your password is too short try again.."),
            ClientError::MalformedSig => String::from_str("signature couldn't be imported"),
            ClientError::InvalidSig => String::from_str("signature is invalid."),
            ClientError::BadPubkey => String::from_str(
                "public key couldnt be imported something must've went wrong on the build process.",
            ),
            ClientError::IOError(e) => {
                let detail = io_error_text(e);
                let s = String::from_str("IO error: ").concat(detail.as_str());
                proof {
                    reveal_strlit("IO error: ");
                    assert(s@.subrange(0, 10) =~= "IO error: "@);
                }
                s
            },
            ClientError::UnknownError => String::from_str("tkey sent invalid error message."),
            ClientError::OutOfsync => String::from_str(
                "host and tkey are out of sync, restart app.",
            ),
        }
    }

    /// Whether this is one of the three errors by which the TKey says that
    /// it could not check the TPM's signature.
    pub fn is_signature_failure(&self) -> (b: bool)
        ensures
            b == signature_failure(self),
    {
        match self {
            ClientError::InvalidSig | ClientError::MalformedSig | ClientError::BadPubkey => true,
            _ => false,
        }
    }
}

impl From<std::io::Error> for ClientError {
    fn from(value: std::io::Error) -> (r: Self) {
        ClientError::IOError(value)
    }
}

impl vstd::std_specs::convert::FromSpecImpl<std::io::Error> for ClientError {
    open spec fn obeys_from_spec() -> bool {
        true
    }

    open spec fn from_spec(v: std::io::Error) -> Self {
        ClientError::IOError(v)
    }
}

impl From<std::io::Error> for HostErr {
    fn from(_value: std::io::Error) -> (r: Self) {
        HostErr::IOError
    }
}

impl vstd::std_specs::convert::FromSpecImpl<std::io::Error> for HostErr {
    open spec fn obeys_from_spec() -> bool {
        true
    }

    open spec fn from_spec(v: std::io::Error) -> Self {
        HostErr::IOError
    }
}

} // verus!
