use vstd::prelude::*;

verus! {

/// The closed set of failure kinds of the key-management core.
#[derive(Debug, Clone, Copy, PartialEq, Eq, Structural)]
pub enum KeyError {
    /// A required secret or connection setting is missing.
    ConfigurationError,
    /// Key material of the wrong length, or an empty secret.
    InvalidKeyMaterial,
    /// A nonce of the wrong length.
    InvalidNonce,
    /// The system's entropy source could not be read.
    RandomnessUnavailable,
    /// Decryption found a tampered ciphertext or a wrong key.
    AuthenticationFailure,
    /// A stored or transported envelope is malformed.
    FormatError,
    /// The record store could not carry out the operation.
    PersistenceError,
    /// No record has the requested id.
    NotFound,
}

impl KeyError {
    /// A fixed, non-sensitive message for the error kind.
    pub fn message(&self) -> (r: &'static str)
        ensures
            r@ == match self {
                KeyError::ConfigurationError => "configuration error"@,
                KeyError::InvalidKeyMaterial => "invalid key material"@,
                KeyError::InvalidNonce => "invalid nonce"@,
                KeyError::RandomnessUnavailable => "randomness unavailable"@,
                KeyError::AuthenticationFailure => "authentication failure"@,
                KeyError::FormatError => "format error"@,
                KeyError::PersistenceError => "persistence error"@,
                KeyError::NotFound => "not found"@,
            },
    {
        match self {
            KeyError::ConfigurationError => "configuration error",
            KeyError::InvalidKeyMaterial => "invalid key material",
            KeyError::InvalidNonce => "invalid nonce",
            KeyError::RandomnessUnavailable => "randomness unavailable",
            KeyError::AuthenticationFailure => "authentication failure",
            KeyError::FormatError => "format error",
            KeyError::PersistenceError => "persistence error",
            KeyError::NotFound => "not found",
        }
    }
}

} // verus!
