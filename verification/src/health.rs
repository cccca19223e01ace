//! Connectivity verification: deriving the health-check URL from a
//! `host:port`-style instance URL and a separate HTTP port, and classifying
//! the outcome of the single GET request.
//!
//! The host is the part of the instance URL before its first `:` (the whole
//! string when it has none); the HTTP port is configured independently,
//! since the instance URL's own port may belong to a different protocol.

use vstd::prelude::*;
use crate::text::decimal;
use crate::text::u16_decimal;

verus! {

/// Length of the host prefix: the number of characters before the first
/// `:`, or the whole length when there is none.
pub open spec fn host_len(s: Seq<char>) -> nat
    decreases s.len(),
{
    if s.len() == 0 {
        0
    } else if s[0] == ':' {
        0
    } else {
        (1 + host_len(s.drop_first())) as nat
    }
}

/// The host part of a `host:port`-style URL: everything before the first
/// `:`, or the whole string when it contains none.
pub open spec fn host_of(s: Seq<char>) -> Seq<char> {
    s.take(host_len(s) as int)
}

/// `host_len` is the index of the first `:`, or the length when there is
/// none: everything before it differs from `:`, and the character at it
/// (when within bounds) is `:`.
pub proof fn lemma_host_len(s: Seq<char>)
    ensures
        host_len(s) <= s.len(),
        forall|i: int| 0 <= i < host_len(s) ==> s[i] != ':',
        host_len(s) < s.len() ==> s[host_len(s) as int] == ':',
    decreases s.len(),
{
    if s.len() == 0 {
    } else if s[0] == ':' {
    } else {
        lemma_host_len(s.drop_first());
        assert forall|i: int| 0 <= i < host_len(s) implies s[i] != ':' by {
            if i > 0 {
                assert(s.drop_first()[i - 1] == s[i]);
            }
        }
        if host_len(s) < s.len() {
            assert(s.drop_first()[host_len(s) as int - 1] == s[host_len(s) as int]);
        }
    }
}

/// Extracts the host part of the URL: the prefix before the first `:`, or
/// the whole string when it has no `:`.
pub fn host_part(url: &str) -> (r: &str)
    ensures
        r@ == host_of(url@),
{
    let n = url.unicode_len();
    let mut i: usize = 0;
    loop
        invariant
            i <= n,
            n == url@.len(),
            forall|j: int| 0 <= j < i ==> url@[j] != ':',
        ensures
            i <= n,
            n == url@.len(),
            forall|j: int| 0 <= j < i ==> url@[j] != ':',
            i == n || url@[i as int] == ':',
        decreases n - i,
    {
        if i == n {
            break ;
        }
        if url.get_char(i) == ':' {
            break ;
        }
        i = i + 1;
    }
    proof {
        lemma_host_len(url@);
        if i < host_len(url@) {
            assert(url@[i as int] != ':');
        }
        if i > host_len(url@) {
            assert(url@[host_len(url@) as int] != ':');
        }
        assert(i == host_len(url@));
    }
    let r = url.substring_char(0, i);
    proof {
        assert(r@ =~= host_of(url@));
    }
    r
}

/// The derived health-check URL: `http://{host}:{http_port}/health`, with
/// the host taken from the instance URL.
pub open spec fn health_url_of(url: Seq<char>, http_port: Seq<char>) -> Seq<char> {
    "http://"@ + host_of(url) + ":"@ + http_port + "/health"@
}

/// Composes the health-check URL for an instance URL and an HTTP port.
pub fn health_url(url: &str, http_port: &str) -> (r: String)
    ensures
        r@ == health_url_of(url@, http_port@),
{
    let mut r = String::from_str("http://");
    r.append(host_part(url));
    r.append(":");
    r.append(http_port);
    r.append("/health");
    r
}

/// Outcome of the health probe: reachable and 2xx, reachable with another
/// status, or not reachable at all (with the transport error's text).
#[derive(Debug, PartialEq)]
pub enum HealthCheckResult {
    Healthy(u16),
    Unhealthy(u16),
    Unreachable(String),
}

/// Whether a status code counts as success: the 2xx family.
pub open spec fn is_success_status(code: u16) -> bool {
    200 <= code < 300
}

/// Classifies the probe outcome: a 2xx status is healthy, any other status
/// unhealthy, and a transport-level failure unreachable, carrying the
/// error's text.
pub fn classify_health(outcome: Result<u16, String>) -> (r: HealthCheckResult)
    ensures
        (match outcome {
            Ok(code) => r == (if is_success_status(code) {
                HealthCheckResult::Healthy(code)
            } else {
                HealthCheckResult::Unhealthy(code)
            }),
            Err(e) => r == HealthCheckResult::Unreachable(e),
        }),
{
    match outcome {
        Ok(code) => {
            if 200 <= code && code < 300 {
                HealthCheckResult::Healthy(code)
            } else {
                HealthCheckResult::Unhealthy(code)
            }
        },
        Err(e) => HealthCheckResult::Unreachable(e),
    }
}

/// The line the setup wizard reports for the probe outcome, at the derived
/// URL.
pub open spec fn setup_outcome_line(r: HealthCheckResult, url: Seq<char>) -> Seq<char> {
    match r {
        HealthCheckResult::Healthy(_) => "Successfully connected to Rice Storage at "@ + url,
        HealthCheckResult::Unhealthy(code) => "Connection failed: Status "@ + decimal(code as nat),
        HealthCheckResult::Unreachable(e) => "Connection failed: "@ + e@,
    }
}

/// Renders the setup wizard's report line for a probe outcome.
pub fn render_setup_outcome(r: &HealthCheckResult, url: &str) -> (line: String)
    ensures
        line@ == setup_outcome_line(*r, url@),
{
    match r {
        HealthCheckResult::Healthy(_) => {
            let mut line = String::from_str("Successfully connected to Rice Storage at ");
            line.append(url);
            line
        },
        HealthCheckResult::Unhealthy(code) => {
            let mut line = String::from_str("Connection failed: Status ");
            line.append(u16_decimal(*code).as_str());
            line
        },
        HealthCheckResult::Unreachable(e) => {
            let mut line = String::from_str("Connection failed: ");
            line.append(e.as_str());
            line
        },
    }
}

/// The line the standalone check reports for the probe outcome.
pub open spec fn check_outcome_line(r: HealthCheckResult) -> Seq<char> {
    match r {
        HealthCheckResult::Healthy(code) => "Storage is healthy (Status: "@ + decimal(code as nat)
            + ")"@,
        HealthCheckResult::Unhealthy(code) => "Storage is unhealthy (Status: "@ + decimal(
            code as nat,
        ) + ")"@,
        HealthCheckResult::Unreachable(e) => "Failed to connect to Storage: "@ + e@,
    }
}

/// Renders the standalone check's report line for a probe outcome.
pub fn render_check_outcome(r: &HealthCheckResult) -> (line: String)
    ensures
        line@ == check_outcome_line(*r),
{
    match r {
        HealthCheckResult::Healthy(code) => {
            let mut line = String::from_str("Storage is healthy (Status: ");
            line.append(u16_decimal(*code).as_str());
            line.append(")");
            line
        },
        HealthCheckResult::Unhealthy(code) => {
            let mut line = String::from_str("Storage is unhealthy (Status: ");
            line.append(u16_decimal(*code).as_str());
            line.append(")");
            line
        },
        HealthCheckResult::Unreachable(e) => {
            let mut line = String::from_str("Failed to connect to Storage: ");
            line.append(e.as_str());
            line
        },
    }
}

/// The value a stored setting takes: the persisted text when present, the
/// fallback when absent.  An empty persisted value is used as it stands.
pub open spec fn stored_or(v: Option<Seq<char>>, fallback: Seq<char>) -> Seq<char> {
    match v {
        Some(s) => s,
        None => fallback,
    }
}

/// The URL the standalone check probes: derived from the persisted instance
/// URL and HTTP port, each falling back to the setup default when absent.
pub fn check_url(stored_url: Option<&String>, stored_port: Option<&String>) -> (r: String)
    ensures
        r@ == health_url_of(
            stored_or(
                (match stored_url {
                    Some(u) => Some(u@),
                    None => None,
                }),
                "localhost:50051"@,
            ),
            stored_or(
                (match stored_port {
                    Some(p) => Some(p@),
                    None => None,
                }),
                "3000"@,
            ),
        ),
{
    let url: &str = match stored_url {
        Some(u) => u.as_str(),
        None => "localhost:50051",
    };
    let port: &str = match stored_port {
        Some(p) => p.as_str(),
        None => "3000",
    };
    health_url(url, port)
}

} // verus!
