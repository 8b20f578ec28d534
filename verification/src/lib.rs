use vstd::prelude::*;

pub mod config;
pub mod gemini;
pub mod http;
pub mod json;
pub mod r2;
pub mod retry;
pub mod run;
pub mod scrape;
pub mod slack;
pub mod text;

verus! {

/// Whether an HTTP status from the model gateway is worth retrying:
/// rate limiting (429) or any server error (5xx).
pub fn is_transient(status: u16) -> (res: bool)
    ensures
        res == (status == 429 || (500 <= status < 600)),
{
    status == 429 || (500 <= status && status < 600)
}

} // verus!
