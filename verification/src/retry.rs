//! Retry decisions of content generation: which errors are worth another
//! attempt, and when the attempts are used up.
//!
//! The waiting between attempts (exponential backoff) happens outside the
//! library; these functions decide for each failed attempt.

use vstd::prelude::*;
use crate::error::Error;
use crate::text::{has_substring, contains_substring, concat3, u64_to_decimal, decimal};

verus! {

/// Whether an API error message names a condition worth retrying: rate
/// limiting (`429`, `Rate limit`), a gateway or timeout status (`502`,
/// `503`, `504`, `408`) or a timeout (`timeout`, `Timeout`).
pub open spec fn retryable_api_message(m: Seq<char>) -> bool {
    ||| has_substring(m, "429"@)
    ||| has_substring(m, "Rate limit"@)
    ||| has_substring(m, "502"@)
    ||| has_substring(m, "503"@)
    ||| has_substring(m, "504"@)
    ||| has_substring(m, "408"@)
    ||| has_substring(m, "timeout"@)
    ||| has_substring(m, "Timeout"@)
}

/// Whether an error is transient, so that the attempt is retried: API errors
/// with a retryable message, and every server and network error. Every other
/// error is permanent.
pub open spec fn is_transient(e: Error) -> bool {
    match e {
        Error::ApiError(m) => retryable_api_message(m@),
        Error::ServerError(_) => true,
        Error::NetworkError(_) => true,
        _ => false,
    }
}

/// Whether `error` is transient: see [`is_transient`].
pub fn is_transient_error(error: &Error) -> (r: bool)
    ensures
        r == is_transient(*error),
{
    proof {
        reveal_strlit("429");
        reveal_strlit("Rate limit");
        reveal_strlit("502");
        reveal_strlit("503");
        reveal_strlit("504");
        reveal_strlit("408");
        reveal_strlit("timeout");
        reveal_strlit("Timeout");
    }
    match error {
        Error::ApiError(msg) => {
            let m = msg.as_str();
            contains_substring(m, "429") || contains_substring(m, "Rate limit") || contains_substring(m, "502")
                || contains_substring(m, "503") || contains_substring(m, "504") || contains_substring(m, "408")
                || contains_substring(m, "timeout") || contains_substring(m, "Timeout")
        },
        Error::ServerError(_) => true,
        Error::NetworkError(_) => true,
        _ => false,
    }
}

/// Which errors are retried: an API error exactly when its message
/// mentions rate limiting (`429` or `Rate limit`), a bad gateway (`502`),
/// an unavailable service (`503`), a gateway timeout (`504`), a request
/// timeout (`408`) or a timeout (`timeout` or `Timeout`); every server and
/// network error; and no error of any other kind.
pub proof fn law_transient_errors(e: Error)
    ensures
        e matches Error::ApiError(m) ==> (is_transient(e) <==> (
            has_substring(m@, "429"@) || has_substring(m@, "Rate limit"@) || has_substring(m@, "502"@)
                || has_substring(m@, "503"@) || has_substring(m@, "504"@) || has_substring(m@, "408"@)
                || has_substring(m@, "timeout"@) || has_substring(m@, "Timeout"@))),
        (e is ServerError || e is NetworkError) ==> is_transient(e),
        !(e is ApiError || e is ServerError || e is NetworkError) ==> !is_transient(e),
{
}

/// The message of the error that ends retrying after `max_retries` attempts.
pub open spec fn attempts_exceeded_message(max_retries: u32) -> Seq<char> {
    "Maximum retry attempts ("@ + decimal(max_retries as nat) + ") exceeded"@
}

/// Before attempt number `current_attempt` (counted from 0): the error that
/// stops retrying once `max_retries` attempts were made, or none.
pub fn attempt_limit_error(current_attempt: u32, max_retries: u32) -> (r: Option<Error>)
    ensures
        current_attempt >= max_retries <==> r is Some,
        r matches Some(e) ==> (e matches Error::ApiError(m) && m@ == attempts_exceeded_message(max_retries)),
{
    if current_attempt >= max_retries {
        proof { reveal_strlit("Maximum retry attempts ("); reveal_strlit(") exceeded"); }
        let n = u64_to_decimal(max_retries as u64);
        Some(Error::ApiError(concat3("Maximum retry attempts (", n.as_str(), ") exceeded")))
    } else {
        None
    }
}

} // verus!
