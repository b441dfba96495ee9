use vstd::prelude::*;

verus! {

/// Error type for the cryptographic operations of the library.
#[derive(Debug, Clone, Copy, PartialEq, Eq, Structural)]
pub enum CryptoError {
    HkdfExpand,
    InvalidState,
    NoChainKey,
    AuthenticationFailed,
    InvalidPublicKey,
}

/// The human-readable message of each error.
pub open spec fn error_message(e: CryptoError) -> Seq<char> {
    match e {
        CryptoError::HkdfExpand => "HKDF expand failed"@,
        CryptoError::InvalidState => "Invalid ratchet state"@,
        CryptoError::NoChainKey => "No chain key available"@,
        CryptoError::AuthenticationFailed => "Handshake confirmation failed"@,
        CryptoError::InvalidPublicKey => "Invalid ML-KEM encapsulation key"@,
    }
}

impl CryptoError {
    /// The message that describes this error (what `Display` prints).
    pub fn message(&self) -> (s: &'static str)
        ensures
            s@ == error_message(*self),
    {
        match self {
            CryptoError::HkdfExpand => "HKDF expand failed",
            CryptoError::InvalidState => "Invalid ratchet state",
            CryptoError::NoChainKey => "No chain key available",
            CryptoError::AuthenticationFailed => "Handshake confirmation failed",
            CryptoError::InvalidPublicKey => "Invalid ML-KEM encapsulation key",
        }
    }
}

} // verus!
