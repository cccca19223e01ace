//! The read-only configuration report: the seven fixed keys, secret
//! masking, and the rendered `key: value` lines.
//!
//! A key whose name contains the substring `TOKEN` holds a secret; its
//! stored value is never shown, only a fixed placeholder.  An absent value
//! is reported with an explicit marker.

use vstd::prelude::*;

verus! {

/// Whether a key name contains the substring `TOKEN` — the mark of a
/// secret value.
pub open spec fn has_token_marker(s: Seq<char>) -> bool {
    exists|i: int| 0 <= i && i + 5 <= s.len() && #[trigger] s.subrange(i, i + 5) == "TOKEN"@
}

/// Tests whether the key name contains the substring `TOKEN`.
pub fn contains_token_marker(key: &str) -> (b: bool)
    ensures
        b == has_token_marker(key@),
{
    proof {
        reveal_strlit("TOKEN");
    }
    let n = key.unicode_len();
    if n < 5 {
        return false;
    }
    let mut i: usize = 0;
    while i <= n - 5
        invariant
            n == key@.len(),
            5 <= n,
            i <= n,
            forall|k: int| 0 <= k < i ==> #[trigger] key@.subrange(k, k + 5) != "TOKEN"@,
        decreases n - i,
    {
        let c0 = key.get_char(i);
        let c1 = key.get_char(i + 1);
        let c2 = key.get_char(i + 2);
        let c3 = key.get_char(i + 3);
        let c4 = key.get_char(i + 4);
        proof {
            reveal_strlit("TOKEN");
            let sub = key@.subrange(i as int, i as int + 5);
            assert(sub.len() == 5);
            assert(sub[0] == c0 && sub[1] == c1 && sub[2] == c2 && sub[3] == c3 && sub[4] == c4);
            assert("TOKEN"@.len() == 5);
            assert("TOKEN"@[0] == 'T' && "TOKEN"@[1] == 'O' && "TOKEN"@[2] == 'K' && "TOKEN"@[3]
                == 'E' && "TOKEN"@[4] == 'N');
        }
        if c0 == 'T' && c1 == 'O' && c2 == 'K' && c3 == 'E' && c4 == 'N' {
            proof {
                assert(key@.subrange(i as int, i as int + 5) =~= "TOKEN"@);
            }
            return true;
        }
        proof {
            let sub = key@.subrange(i as int, i as int + 5);
            assert(sub != "TOKEN"@) by {
                if sub == "TOKEN"@ {
                    assert(sub[0] == 'T' && sub[1] == 'O' && sub[2] == 'K' && sub[3] == 'E'
                        && sub[4] == 'N');
                }
            }
        }
        i = i + 1;
    }
    proof {
        assert forall|k: int| 0 <= k && k + 5 <= key@.len() implies #[trigger] key@.subrange(
            k,
            k + 5,
        ) != "TOKEN"@ by {
            assert(0 <= k < i);
        }
    }
    false
}

/// The text shown for one stored value: the explicit absent marker, the
/// masking placeholder for a secret key, or the value itself.
pub open spec fn shown_value(key: Seq<char>, value: Option<Seq<char>>) -> Seq<char> {
    match value {
        None => "Not set"@,
        Some(v) => if has_token_marker(key) {
            "********"@
        } else {
            v
        },
    }
}

/// One line of the configuration report: the key, a separator, and the
/// shown value.
pub open spec fn report_line(key: Seq<char>, value: Option<Seq<char>>) -> Seq<char> {
    key + ": "@ + shown_value(key, value)
}

/// Renders one report line, masking the value of a secret key.
pub fn render_report_line(key: &str, value: Option<&String>) -> (r: String)
    ensures
        r@ == report_line(
            key@,
            (match value {
                Some(v) => Some(v@),
                None => None,
            }),
        ),
{
    let mut r = String::from_str(key);
    r.append(": ");
    match value {
        None => r.append("Not set"),
        Some(v) => {
            if contains_token_marker(key) {
                r.append("********");
            } else {
                r.append(v.as_str());
            }
        },
    }
    r
}

/// A secret key's report line does not depend on the stored value: whatever
/// the value — the empty string included — the same masked line comes out,
/// so the value is never shown in cleartext.
pub proof fn lemma_secret_value_never_shown(key: Seq<char>, v1: Seq<char>, v2: Seq<char>)
    requires
        has_token_marker(key),
    ensures
        report_line(key, Some(v1)) == report_line(key, Some(v2)),
        shown_value(key, Some(v1)) == "********"@,
{
}

/// The seven keys of the environment file, in their fixed order.
pub fn env_keys() -> (r: Vec<&'static str>)
    ensures
        r@.len() == 7,
        r@[0]@ == "STORAGE_INSTANCE_URL"@,
        r@[1]@ == "STORAGE_USER"@,
        r@[2]@ == "STORAGE_AUTH_TOKEN"@,
        r@[3]@ == "STORAGE_HTTP_PORT"@,
        r@[4]@ == "STATE_INSTANCE_URL"@,
        r@[5]@ == "STATE_AUTH_TOKEN"@,
        r@[6]@ == "STATE_RUN_ID"@,
{
    let mut r: Vec<&'static str> = Vec::new();
    r.push("STORAGE_INSTANCE_URL");
    r.push("STORAGE_USER");
    r.push("STORAGE_AUTH_TOKEN");
    r.push("STORAGE_HTTP_PORT");
    r.push("STATE_INSTANCE_URL");
    r.push("STATE_AUTH_TOKEN");
    r.push("STATE_RUN_ID");
    r
}

/// The line reporting whether the settings file is present.
pub open spec fn presence_line(file_exists: bool) -> Seq<char> {
    if file_exists {
        "rice.config.js found."@
    } else {
        "rice.config.js not found."@
    }
}

/// Renders the settings-file presence line.
pub fn render_presence_line(file_exists: bool) -> (r: String)
    ensures
        r@ == presence_line(file_exists),
{
    if file_exists {
        String::from_str("rice.config.js found.")
    } else {
        String::from_str("rice.config.js not found.")
    }
}

} // verus!
