use vstd::prelude::*;
use vstd::string::StringExecFns;

verus! {

/// The error shape handed back to the caller of a lookup, carrying a short
/// error kind and a human-readable message.
#[derive(Debug, Clone)]
pub struct ApiError {
    pub error: String,
    pub message: String,
}

impl ApiError {
    pub fn new(error: &str, message: &str) -> (r: ApiError)
        ensures
            r.error@ == error@,
            r.message@ == message@,
    {
        ApiError { error: String::from_str(error), message: String::from_str(message) }
    }

    /// The terminal "no results" outcome: zero extractable keys or zero
    /// successfully normalized records.
    pub fn not_found(query: &str) -> (r: ApiError)
        ensures
            r.error@ == "No results found"@,
            r.message@ == "No search results for the given query: "@ + query@,
    {
        let mut message = String::from_str("No search results for the given query: ");
        message.append(query);
        ApiError { error: String::from_str("No results found"), message }
    }

    /// A single-record lookup whose key matched nothing usable.
    pub fn invalid_seokey(seokey: &str) -> (r: ApiError)
        ensures
            r.error@ == "Invalid seokey"@,
            r.message@ == "The provided seokey is invalid or not found: "@ + seokey@,
    {
        let mut message = String::from_str("The provided seokey is invalid or not found: ");
        message.append(seokey);
        ApiError { error: String::from_str("Invalid seokey"), message }
    }

    /// A failure of the upstream call or of response parsing, surfaced as-is.
    pub fn internal_error(message: &str) -> (r: ApiError)
        ensures
            r.error@ == "Internal server error"@,
            r.message@ == message@,
    {
        ApiError { error: String::from_str("Internal server error"), message: String::from_str(message) }
    }

    pub fn invalid_parameter(param: &str, message: &str) -> (r: ApiError)
        ensures
            r.error@ == "Invalid parameter: "@ + param@,
            r.message@ == message@,
    {
        let mut error = String::from_str("Invalid parameter: ");
        error.append(param);
        ApiError { error, message: String::from_str(message) }
    }
}

} // verus!
