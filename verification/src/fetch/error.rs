//! Errors of fetch operations.

use vstd::prelude::*;
use crate::text::{owned, push_str};

verus! {

/// Errors that can occur during fetch operations.
#[derive(Debug, Clone)]
pub enum FetchError {
    /// I/O error occurred.
    Io(String),
    /// Network-related error.
    Network(String),
    /// Request timeout.
    Timeout(String),
    /// Rate limit exceeded (HTTP 429).
    TooManyRequests(String),
    /// S3 resource not found (HTTP 404).
    S3NotFound(String),
    /// Cache I/O error.
    CacheIo(String),
    /// HTTP error (non-2xx status code).
    Http(String),
    /// Internal error (bugs, unexpected states).
    Internal(String),
    /// Generic cache error.
    CacheError(String),
    /// S3-related error.
    S3Error(String),
    /// Resource not found.
    NotFound(String),
}

/// The message an error carries.
pub open spec fn fetch_error_detail(e: FetchError) -> Seq<char> {
    match e {
        FetchError::Io(s) => s@,
        FetchError::Network(s) => s@,
        FetchError::Timeout(s) => s@,
        FetchError::TooManyRequests(s) => s@,
        FetchError::S3NotFound(s) => s@,
        FetchError::CacheIo(s) => s@,
        FetchError::Http(s) => s@,
        FetchError::Internal(s) => s@,
        FetchError::CacheError(s) => s@,
        FetchError::S3Error(s) => s@,
        FetchError::NotFound(s) => s@,
    }
}

/// The prefix `Display` puts before an error's message.
pub open spec fn fetch_error_prefix(e: FetchError) -> Seq<char> {
    match e {
        FetchError::Io(_) => "I/O error: "@,
        FetchError::Network(_) => "Network error: "@,
        FetchError::Timeout(_) => "Timeout: "@,
        FetchError::TooManyRequests(_) => "Too many requests: "@,
        FetchError::S3NotFound(_) => "S3 not found: "@,
        FetchError::CacheIo(_) => "Cache I/O error: "@,
        FetchError::Http(_) => "HTTP error: "@,
        FetchError::Internal(_) => "Internal error: "@,
        FetchError::CacheError(_) => "Cache error: "@,
        FetchError::S3Error(_) => "S3 error: "@,
        FetchError::NotFound(_) => "Not found: "@,
    }
}

/// Errors worth retrying: network trouble, timeouts, rate limiting and
/// other HTTP failures (likely server errors).
pub open spec fn fetch_error_retryable(e: FetchError) -> bool {
    match e {
        FetchError::Network(_) => true,
        FetchError::Timeout(_) => true,
        FetchError::TooManyRequests(_) => true,
        FetchError::Http(_) => true,
        _ => false,
    }
}

/// Tells whether an error is transient and the operation should be retried.
pub trait RetryableError {
    /// Returns true if the error is transient and should be retried.
    fn is_retryable(&self) -> bool;
}

impl RetryableError for FetchError {
    fn is_retryable(&self) -> (b: bool)
        ensures
            b == fetch_error_retryable(*self),
    {
        match self {
            FetchError::Network(_) => true,
            FetchError::Timeout(_) => true,
            FetchError::TooManyRequests(_) => true,
            FetchError::Http(_) => true,
            FetchError::S3NotFound(_) => false,
            FetchError::CacheIo(_) => false,
            FetchError::CacheError(_) => false,
            FetchError::Io(_) => false,
            FetchError::S3Error(_) => false,
            FetchError::NotFound(_) => false,
            FetchError::Internal(_) => false,
        }
    }
}

impl FetchError {
    /// An I/O error with message `msg`.
    pub fn io(msg: &str) -> (e: Self)
        ensures
            e is Io && fetch_error_detail(e) == msg@,
    {
        FetchError::Io(owned(msg))
    }

    /// A cache error with message `msg`.
    pub fn cache(msg: &str) -> (e: Self)
        ensures
            e is CacheError && fetch_error_detail(e) == msg@,
    {
        FetchError::CacheError(owned(msg))
    }

    /// A cache I/O error with message `msg`.
    pub fn cache_io(msg: &str) -> (e: Self)
        ensures
            e is CacheIo && fetch_error_detail(e) == msg@,
    {
        FetchError::CacheIo(owned(msg))
    }

    /// A not-found error with message `msg`.
    pub fn not_found(msg: &str) -> (e: Self)
        ensures
            e is NotFound && fetch_error_detail(e) == msg@,
    {
        FetchError::NotFound(owned(msg))
    }

    /// An S3 error with message `msg`.
    pub fn s3(msg: &str) -> (e: Self)
        ensures
            e is S3Error && fetch_error_detail(e) == msg@,
    {
        FetchError::S3Error(owned(msg))
    }

    /// A network error with message `msg`.
    pub fn network(msg: &str) -> (e: Self)
        ensures
            e is Network && fetch_error_detail(e) == msg@,
    {
        FetchError::Network(owned(msg))
    }

    /// A timeout error with message `msg`.
    pub fn timeout(msg: &str) -> (e: Self)
        ensures
            e is Timeout && fetch_error_detail(e) == msg@,
    {
        FetchError::Timeout(owned(msg))
    }

    /// A rate-limit error with message `msg`.
    pub fn too_many_requests(msg: &str) -> (e: Self)
        ensures
            e is TooManyRequests && fetch_error_detail(e) == msg@,
    {
        FetchError::TooManyRequests(owned(msg))
    }

    /// An S3 not-found error with message `msg`.
    pub fn s3_not_found(msg: &str) -> (e: Self)
        ensures
            e is S3NotFound && fetch_error_detail(e) == msg@,
    {
        FetchError::S3NotFound(owned(msg))
    }

    /// An HTTP error with message `msg`.
    pub fn http(msg: &str) -> (e: Self)
        ensures
            e is Http && fetch_error_detail(e) == msg@,
    {
        FetchError::Http(owned(msg))
    }

    /// An internal error with message `msg`.
    pub fn internal(msg: &str) -> (e: Self)
        ensures
            e is Internal && fetch_error_detail(e) == msg@,
    {
        FetchError::Internal(owned(msg))
    }

    /// What `Display` shows: a prefix naming the kind, then the message.
    pub fn message(&self) -> (s: String)
        ensures
            s@ == fetch_error_prefix(*self) + fetch_error_detail(*self),
    {
        let mut s = String::new();
        let (prefix, detail) = match self {
            FetchError::Io(d) => ("I/O error: ", d),
            FetchError::Network(d) => ("Network error: ", d),
            FetchError::Timeout(d) => ("Timeout: ", d),
            FetchError::TooManyRequests(d) => ("Too many requests: ", d),
            FetchError::S3NotFound(d) => ("S3 not found: ", d),
            FetchError::CacheIo(d) => ("Cache I/O error: ", d),
            FetchError::Http(d) => ("HTTP error: ", d),
            FetchError::Internal(d) => ("Internal error: ", d),
            FetchError::CacheError(d) => ("Cache error: ", d),
            FetchError::S3Error(d) => ("S3 error: ", d),
            FetchError::NotFound(d) => ("Not found: ", d),
        };
        push_str(&mut s, prefix);
        push_str(&mut s, detail.as_str());
        proof {
            let e: Seq<char> = Seq::empty();
            assert(e + fetch_error_prefix(*self) + fetch_error_detail(*self) == fetch_error_prefix(*self) + fetch_error_detail(*self));
        }
        s
    }
}

/// Transient failures are retried and lasting ones are not: every network,
/// timeout, rate-limit (429) and other HTTP error (such as a 503 from S3) is
/// retryable, whatever its message; a missing object (404), cache, I/O, S3,
/// not-found and internal errors are not.
pub proof fn lemma_transient_errors_are_retryable(m: String)
    ensures
        fetch_error_retryable(FetchError::Network(m)),
        fetch_error_retryable(FetchError::Timeout(m)),
        fetch_error_retryable(FetchError::TooManyRequests(m)),
        fetch_error_retryable(FetchError::Http(m)),
        !fetch_error_retryable(FetchError::S3NotFound(m)),
        !fetch_error_retryable(FetchError::CacheIo(m)),
        !fetch_error_retryable(FetchError::CacheError(m)),
        !fetch_error_retryable(FetchError::Io(m)),
        !fetch_error_retryable(FetchError::S3Error(m)),
        !fetch_error_retryable(FetchError::NotFound(m)),
        !fetch_error_retryable(FetchError::Internal(m)),
{
}

} // verus!
