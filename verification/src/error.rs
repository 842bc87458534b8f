//! What can go wrong.

use vstd::prelude::*;
use crate::text::join;

verus! {

/// Why a change or a check was refused.
pub enum ConfigError {
    /// Another check turned the input down, for this reason.
    Rejected(String),
    /// A device fingerprint is not 64 hexadecimal digits.
    InvalidFingerprint,
    /// There is no LAN identity with this id.
    UnknownIdentity,
    /// A hashed permanent password is stored without its salt.
    HashWithoutSalt,
    /// The stored permanent password cannot be read.
    InvalidStorage,
    /// A permanent password came without its salt.
    StorageWithoutSalt,
    /// A permanent password came in a form that is not the current one.
    InvalidSyncPayload,
    /// An access password could not be hashed, for this reason.
    HashFailed(String),
    /// The stored hash of the access password cannot be read, for this reason.
    InvalidStoredHash(String),
}

impl ConfigError {
    /// The text of the error.
    pub open spec fn text(self) -> Seq<char> {
        match self {
            ConfigError::Rejected(reason) => reason@,
            ConfigError::InvalidFingerprint => "Invalid device fingerprint"@,
            ConfigError::UnknownIdentity => "LAN identity does not exist"@,
            ConfigError::HashWithoutSalt =>
                "Permanent password hash storage requires a non-empty salt"@,
            ConfigError::InvalidStorage => "Invalid permanent password encrypted hash storage"@,
            ConfigError::StorageWithoutSalt =>
                "Refusing to persist permanent password storage without salt"@,
            ConfigError::InvalidSyncPayload => "Invalid permanent password storage sync payload"@,
            ConfigError::HashFailed(reason) => "Failed to hash access password: "@ + reason@,
            ConfigError::InvalidStoredHash(reason) => "Invalid stored access password hash: "@
                + reason@,
        }
    }

    /// The text of the error.
    pub fn message(&self) -> (r: String)
        ensures
            r@ == self.text(),
    {
        match self {
            ConfigError::Rejected(reason) => reason.clone(),
            ConfigError::InvalidFingerprint => "Invalid device fingerprint".to_owned(),
            ConfigError::UnknownIdentity => "LAN identity does not exist".to_owned(),
            ConfigError::HashWithoutSalt =>
                "Permanent password hash storage requires a non-empty salt".to_owned(),
            ConfigError::InvalidStorage =>
                "Invalid permanent password encrypted hash storage".to_owned(),
            ConfigError::StorageWithoutSalt =>
                "Refusing to persist permanent password storage without salt".to_owned(),
            ConfigError::InvalidSyncPayload =>
                "Invalid permanent password storage sync payload".to_owned(),
            ConfigError::HashFailed(reason) => join(
                "Failed to hash access password: ",
                reason.as_str(),
            ),
            ConfigError::InvalidStoredHash(reason) => join(
                "Invalid stored access password hash: ",
                reason.as_str(),
            ),
        }
    }
}

/// What is said of an error: the reason that another check gave as it is, the reasons of the
/// hashing behind what was tried, and a fixed text for each of the others.
pub proof fn law_what_errors_say(e: ConfigError, reason: String)
    ensures
        ConfigError::Rejected(reason).text() == reason@,
        ConfigError::HashFailed(reason).text() == "Failed to hash access password: "@ + reason@,
        ConfigError::InvalidStoredHash(reason).text() == "Invalid stored access password hash: "@
            + reason@,
        e is InvalidFingerprint ==> e.text() == "Invalid device fingerprint"@,
        e is UnknownIdentity ==> e.text() == "LAN identity does not exist"@,
        e is HashWithoutSalt ==> e.text()
            == "Permanent password hash storage requires a non-empty salt"@,
        e is InvalidStorage ==> e.text() == "Invalid permanent password encrypted hash storage"@,
        e is StorageWithoutSalt ==> e.text()
            == "Refusing to persist permanent password storage without salt"@,
        e is InvalidSyncPayload ==> e.text()
            == "Invalid permanent password storage sync payload"@,
{
}

} // verus!
