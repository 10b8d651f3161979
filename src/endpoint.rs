//! Per-signal collector URLs derived from the base endpoint.
use vstd::prelude::*;
use vstd::string::*;
use crate::config::TelemetryConfig;

verus! {

/// Path appended to the base endpoint for span export.
pub const TRACES_PATH: &'static str = "/v1/traces";

/// Path appended to the base endpoint for log export.
pub const LOGS_PATH: &'static str = "/v1/logs";

pub open spec fn traces_path() -> Seq<char> {
    "/v1/traces"@
}

pub open spec fn logs_path() -> Seq<char> {
    "/v1/logs"@
}

/// `s` without any of its trailing slashes.
pub open spec fn trim_trailing_slashes(s: Seq<char>) -> Seq<char>
    decreases s.len(),
{
    if s.len() > 0 && s.last() == '/' {
        trim_trailing_slashes(s.drop_last())
    } else {
        s
    }
}

/// The URL of a signal: the base without trailing slashes, then the signal's path.
pub open spec fn signal_url(base: Seq<char>, path: Seq<char>) -> Seq<char> {
    trim_trailing_slashes(base) + path
}

/// What trimming leaves is a prefix of its input and ends in no slash.
pub proof fn lemma_trim_trailing_slashes(s: Seq<char>)
    ensures
        trim_trailing_slashes(s).len() <= s.len(),
        trim_trailing_slashes(s) =~= s.subrange(0, trim_trailing_slashes(s).len() as int),
        trim_trailing_slashes(s).len() == 0 || trim_trailing_slashes(s).last() != '/',
    decreases s.len(),
{
    if s.len() > 0 && s.last() == '/' {
        lemma_trim_trailing_slashes(s.drop_last());
    }
}

/// The base endpoint without its trailing slashes.
pub fn trim_trailing_slashes_of(s: &str) -> (r: &str)
    ensures
        r@ == trim_trailing_slashes(s@),
{
    let n = s.unicode_len();
    let mut end: usize = n;
    assert(s@.subrange(0, n as int) =~= s@);
    while end > 0 && s.get_char(end - 1) == '/'
        invariant
            n == s@.len(),
            end <= n,
            trim_trailing_slashes(s@) == trim_trailing_slashes(s@.subrange(0, end as int)),
        decreases end,
    {
        assert(s@.subrange(0, end as int).drop_last() =~= s@.subrange(0, end - 1));
        end = end - 1;
    }
    assert(s@.subrange(0, n as int) =~= s@);
    s.substring_char(0, end)
}

/// The URL for `path` under the base endpoint `base`; a trailing slash of the
/// base never doubles the separator.
pub fn signal_endpoint(base: &str, path: &str) -> (r: String)
    ensures
        r@ == signal_url(base@, path@),
{
    let trimmed = trim_trailing_slashes_of(base);
    String::from_str(trimmed).concat(path)
}

impl TelemetryConfig {
    /// URL to which spans are exported.
    pub fn traces_endpoint(&self) -> (r: String)
        ensures
            r@ == signal_url(self.endpoint@, traces_path()),
    {
        proof { reveal_strlit("/v1/traces"); }
        signal_endpoint(self.endpoint.as_str(), TRACES_PATH)
    }

    /// URL to which log records are exported.
    pub fn logs_endpoint(&self) -> (r: String)
        ensures
            r@ == signal_url(self.endpoint@, logs_path()),
    {
        proof { reveal_strlit("/v1/logs"); }
        signal_endpoint(self.endpoint.as_str(), LOGS_PATH)
    }
}

/// A signal URL is the trimmed base followed by the signal path, and the base
/// part ends in no slash, so base and path meet with exactly the path's own
/// separator.
pub proof fn signal_url_has_single_separator(base: Seq<char>, path: Seq<char>)
    ensures
        signal_url(base, path).subrange(0, trim_trailing_slashes(base).len() as int)
            =~= trim_trailing_slashes(base),
        signal_url(base, path).subrange(
            trim_trailing_slashes(base).len() as int,
            signal_url(base, path).len() as int,
        ) =~= path,
        trim_trailing_slashes(base).len() == 0 || trim_trailing_slashes(base).last() != '/',
        trim_trailing_slashes(base) =~= base.subrange(0, trim_trailing_slashes(base).len() as int),
{
    lemma_trim_trailing_slashes(base);
}

} // verus!
