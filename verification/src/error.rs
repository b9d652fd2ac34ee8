//! Error type shared by the library.

use vstd::prelude::*;

verus! {

/// Errors reported by client operations.
#[derive(Debug, Clone)]
pub enum Error {
    /// Generic API failure with a message.
    ApiError(String),
    /// A configuration value was rejected.
    ConfigurationError(String),
    /// An argument supplied by the caller was rejected.
    InvalidArgument(String),
    /// Network connectivity failure.
    NetworkError(String),
    /// Authentication failure.
    AuthenticationError(String),
    /// Server-side failure.
    ServerError(String),
    /// A response could not be decoded.
    DeserializationError(String),
    /// A request or message could not be encoded.
    SerializationError(String),
    /// The API refused a request for exceeding its rate limits.
    RateLimitError(String),
    /// The operation is not implemented.
    NotImplemented(String),
    /// The input of an operation was rejected.
    ValidationError {
        /// What was wrong.
        message: String,
    },
    /// A batch operation failed part way.
    BatchProcessingError {
        /// Items processed before the failure.
        successful: usize,
        /// Items not processed: the failing one and those after it.
        failed: usize,
        /// What failed.
        message: String,
    },
}

/// The message carried by any error variant.
pub open spec fn error_message(e: Error) -> Seq<char> {
    match e {
        Error::ApiError(m) => m@,
        Error::ConfigurationError(m) => m@,
        Error::InvalidArgument(m) => m@,
        Error::NetworkError(m) => m@,
        Error::AuthenticationError(m) => m@,
        Error::ServerError(m) => m@,
        Error::DeserializationError(m) => m@,
        Error::SerializationError(m) => m@,
        Error::RateLimitError(m) => m@,
        Error::NotImplemented(m) => m@,
        Error::ValidationError { message } => message@,
        Error::BatchProcessingError { message, .. } => message@,
    }
}

/// Whether `r` is a configuration error carrying exactly `msg`.
pub open spec fn is_config_error<T>(r: Result<T, Error>, msg: Seq<char>) -> bool {
    r matches Err(Error::ConfigurationError(m)) && m@ == msg
}

} // verus!
