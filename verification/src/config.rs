//! The worker's settings.

use vstd::prelude::*;
use vstd::string::*;

use crate::text::{chars_of, string_from_chars};

verus! {

broadcast use vstd::string::group_string_axioms;

/// The secrets and variables the worker runs with.
pub struct Config {
    pub gemini_api_key: String,
    pub cf_account_id: String,
    pub cf_ai_gateway_token: String,
    pub slack_bot_token: String,
    pub slack_channel_id: String,
    pub r2_public_url_base: String,
}

/// `s` without the slashes it ends with.
pub open spec fn without_trailing_slashes(s: Seq<char>) -> Seq<char>
    decreases s.len(),
{
    if s.len() > 0 && s.last() == '/' {
        without_trailing_slashes(s.drop_last())
    } else {
        s
    }
}

/// `str::trim_end_matches('/')`.
pub fn trim_trailing_slashes(s: &str) -> (res: String)
    ensures
        res@ == without_trailing_slashes(s@),
{
    let v = chars_of(s);
    let mut j: usize = v.len();
    assert(s@.subrange(0, j as int) =~= s@);
    while j > 0 && v[j - 1] == '/'
        invariant
            v@ == s@,
            j <= v.len(),
            without_trailing_slashes(s@) == without_trailing_slashes(s@.subrange(0, j as int)),
        decreases j,
    {
        assert(s@.subrange(0, j as int).drop_last() =~= s@.subrange(0, (j - 1) as int));
        j = j - 1;
    }
    let mut out: Vec<char> = Vec::new();
    let mut k: usize = 0;
    while k < j
        invariant
            v@ == s@,
            k <= j <= v.len(),
            out@ == s@.subrange(0, k as int),
        decreases j - k,
    {
        out.push(v[k]);
        assert(out@ =~= s@.subrange(0, (k + 1) as int));
        k = k + 1;
    }
    string_from_chars(out.as_slice())
}

impl Config {
    /// The settings from the values read from the environment; the public
    /// URL base loses any trailing slashes, so that keys can be appended
    /// after one slash.
    pub fn from_values(
        gemini_api_key: String,
        cf_account_id: String,
        cf_ai_gateway_token: String,
        slack_bot_token: String,
        slack_channel_id: String,
        r2_public_url_base: &str,
    ) -> (res: Config)
        ensures
            res.gemini_api_key == gemini_api_key,
            res.cf_account_id == cf_account_id,
            res.cf_ai_gateway_token == cf_ai_gateway_token,
            res.slack_bot_token == slack_bot_token,
            res.slack_channel_id == slack_channel_id,
            res.r2_public_url_base@ == without_trailing_slashes(r2_public_url_base@),
    {
        Config {
            gemini_api_key,
            cf_account_id,
            cf_ai_gateway_token,
            slack_bot_token,
            slack_channel_id,
            r2_public_url_base: trim_trailing_slashes(r2_public_url_base),
        }
    }
}

/// The URL base never ends with a slash.
pub proof fn trimmed_base_has_no_trailing_slash(s: Seq<char>)
    ensures
        without_trailing_slashes(s).len() == 0 || without_trailing_slashes(s).last() != '/',
        without_trailing_slashes(without_trailing_slashes(s)) == without_trailing_slashes(s),
    decreases s.len(),
{
    if s.len() > 0 && s.last() == '/' {
        trimmed_base_has_no_trailing_slash(s.drop_last());
    }
}

} // verus!
