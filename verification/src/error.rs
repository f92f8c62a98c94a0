//! Error types of the library and the text that each error is shown as.
use vstd::prelude::*;

verus! {

/// Failures of configuration, certificates, key retrieval and the network.
#[derive(Debug, PartialEq, Eq)]
pub enum QkdError {
    ConfigError(String),
    CertificateError(String),
    KeyRetrievalError(String),
    NetworkError(String),
}

/// The text an error is shown as: a fixed heading for its kind, then its detail.
pub open spec fn qkd_error_text(e: QkdError) -> Seq<char> {
    match e {
        QkdError::ConfigError(m) => "Configuration error: "@ + m@,
        QkdError::CertificateError(m) => "Certificate error: "@ + m@,
        QkdError::KeyRetrievalError(m) => "Key retrieval error: "@ + m@,
        QkdError::NetworkError(m) => "Network error: "@ + m@,
    }
}

impl QkdError {
    /// The human-readable text of this error.
    pub fn message(&self) -> (r: String)
        ensures
            r@ == qkd_error_text(*self),
    {
        let (mut heading, detail) = match self {
            QkdError::ConfigError(m) => (String::from_str("Configuration error: "), m),
            QkdError::CertificateError(m) => (String::from_str("Certificate error: "), m),
            QkdError::KeyRetrievalError(m) => (String::from_str("Key retrieval error: "), m),
            QkdError::NetworkError(m) => (String::from_str("Network error: "), m),
        };
        heading.append(detail.as_str());
        heading
    }
}

/// Failures of the Noise protocol layer.
#[derive(Debug, PartialEq, Eq)]
pub enum NoiseError {
    HandshakeError(String),
    EncryptionError(String),
    DecryptionError(String),
}

/// The text a Noise error is shown as.
pub open spec fn noise_error_text(e: NoiseError) -> Seq<char> {
    match e {
        NoiseError::HandshakeError(m) => "Handshake error: "@ + m@,
        NoiseError::EncryptionError(m) => "Encryption error: "@ + m@,
        NoiseError::DecryptionError(m) => "Decryption error: "@ + m@,
    }
}

impl NoiseError {
    /// The human-readable text of this error.
    pub fn message(&self) -> (r: String)
        ensures
            r@ == noise_error_text(*self),
    {
        let (mut heading, detail) = match self {
            NoiseError::HandshakeError(m) => (String::from_str("Handshake error: "), m),
            NoiseError::EncryptionError(m) => (String::from_str("Encryption error: "), m),
            NoiseError::DecryptionError(m) => (String::from_str("Decryption error: "), m),
        };
        heading.append(detail.as_str());
        heading
    }
}

} // verus!
