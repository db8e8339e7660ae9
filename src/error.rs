//! Error kinds of the library: lookup failures, cache failures, and their union.

use vstd::prelude::*;

verus! {

/// Why a single lookup with one provider failed.
#[derive(Debug, Clone, PartialEq, Eq)]
pub enum LookupError {
    /// The request could not be sent or no reply was received (connection, DNS, TLS, timeout).
    ReqwestError(String),
    /// The provider answered with status 429.
    TooManyRequests(String),
    /// The provider answered with a status other than 200 and 429.
    RequestStatus(String),
    /// The reply body could not be decoded.
    SerdeError(String),
    /// A configuration problem: unknown provider, empty provider list.
    GenericError(String),
    /// A target address was asked of a provider that only reports the caller's own address.
    TargetNotSupported,
}

impl LookupError {
    /// A copy of this error.
    pub fn duplicate(&self) -> (r: LookupError)
        ensures
            r == *self,
    {
        match self {
            LookupError::ReqwestError(m) => LookupError::ReqwestError(m.clone()),
            LookupError::TooManyRequests(m) => LookupError::TooManyRequests(m.clone()),
            LookupError::RequestStatus(m) => LookupError::RequestStatus(m.clone()),
            LookupError::SerdeError(m) => LookupError::SerdeError(m.clone()),
            LookupError::GenericError(m) => LookupError::GenericError(m.clone()),
            LookupError::TargetNotSupported => LookupError::TargetNotSupported,
        }
    }
}

/// Why reading, writing, sealing or opening the cache file failed.
#[derive(Debug, Clone, PartialEq, Eq)]
pub enum CacheError {
    /// The cache document could not be encoded or decoded.
    SerdeError(String),
    /// The cache file could not be read, written or removed.
    IOError(String),
    /// The cache file's bytes are not valid UTF-8.
    Utf8Error(String),
    /// Sealing or opening the encrypted envelope failed.
    EncryptionError(String),
}

/// Any error of the library.
#[derive(Debug, Clone, PartialEq, Eq)]
pub enum Error {
    /// Reading or writing the cache failed.
    CacheError(CacheError),
    /// A lookup could not be made (including configuration errors).
    LookupError(LookupError),
    /// Every provider of a fallback list failed; one error per provider, in list order.
    ProvidersFailed(Vec<LookupError>),
}

} // verus!
