//! Verified core of a TKey + TPM backed LUKS2 unlocking scheme: the status
//! protocol between host and TKey, the TKey app loading protocol, and the
//! decisions that the host program and the TKey application take.
pub mod attempt;
pub mod crypto;
pub mod cryptsetup;
pub mod enroll;
pub mod firmware;
pub mod handshake;
pub mod laws;
pub mod loader;
pub mod messages;
pub mod proxy_enroll;
pub mod session;
pub mod tpm;
