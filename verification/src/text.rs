//! Whitespace trimming for the IP-echo response body.
//!
//! The current public address arrives as the entire body of a plain-text
//! HTTP response, usually with a trailing newline. The address is compared
//! and stored with that surrounding whitespace removed, and nothing else is
//! normalized: two addresses are equal exactly when their trimmed strings
//! are equal.

use vstd::prelude::*;

verus! {

/// The whitespace characters stripped from around an echo response body.
pub open spec fn is_space(c: char) -> bool {
    c == ' ' || c == '\t' || c == '\n' || c == '\r'
}

/// `s` without its leading whitespace.
pub open spec fn trim_start_spec(s: Seq<char>) -> Seq<char>
    decreases s.len(),
{
    if s.len() > 0 && is_space(s[0]) {
        trim_start_spec(s.drop_first())
    } else {
        s
    }
}

/// `s` without its trailing whitespace.
pub open spec fn trim_end_spec(s: Seq<char>) -> Seq<char>
    decreases s.len(),
{
    if s.len() > 0 && is_space(s[s.len() - 1]) {
        trim_end_spec(s.drop_last())
    } else {
        s
    }
}

/// `s` without its surrounding whitespace.
pub open spec fn trimmed(s: Seq<char>) -> Seq<char> {
    trim_end_spec(trim_start_spec(s))
}

fn is_space_char(c: char) -> (r: bool)
    ensures
        r == is_space(c),
{
    c == ' ' || c == '\t' || c == '\n' || c == '\r'
}

/// Removes surrounding whitespace from `s`.
pub fn trim(s: &str) -> (r: String)
    ensures
        r@ == trimmed(s@),
{
    let len: usize = s.unicode_len();
    proof {
        assert(s@.subrange(0, len as int) =~= s@);
    }
    let mut i: usize = 0;
    while i < len
        invariant
            i <= len,
            len == s@.len(),
            trim_start_spec(s@) == trim_start_spec(s@.subrange(i as int, len as int)),
        ensures
            i <= len,
            len == s@.len(),
            trim_start_spec(s@) == s@.subrange(i as int, len as int),
        decreases len - i,
    {
        let c = s.get_char(i);
        if is_space_char(c) {
            proof {
                assert(s@.subrange(i as int, len as int).drop_first() =~= s@.subrange(
                    i as int + 1,
                    len as int,
                ));
            }
            i = i + 1;
        } else {
            proof {
                assert(s@.subrange(i as int, len as int)[0] == c);
            }
            break;
        }
    }
    let mut j: usize = len;
    while j > i
        invariant
            i <= j <= len,
            len == s@.len(),
            trim_start_spec(s@) == s@.subrange(i as int, len as int),
            trim_end_spec(s@.subrange(i as int, len as int)) == trim_end_spec(
                s@.subrange(i as int, j as int),
            ),
        ensures
            i <= j <= len,
            len == s@.len(),
            trim_end_spec(s@.subrange(i as int, len as int)) == s@.subrange(i as int, j as int),
        decreases j,
    {
        let c = s.get_char(j - 1);
        if is_space_char(c) {
            proof {
                assert(s@.subrange(i as int, j as int).drop_last() =~= s@.subrange(
                    i as int,
                    j as int - 1,
                ));
                assert(s@.subrange(i as int, j as int)[j - i - 1] == c);
            }
            j = j - 1;
        } else {
            proof {
                assert(s@.subrange(i as int, j as int)[j - i - 1] == c);
            }
            break;
        }
    }
    let r = s.substring_char(i, j);
    r.to_owned()
}

/// The current public address resolved from the echo service's answer:
/// the whole response body with surrounding whitespace removed. A non-2xx
/// status and an empty (all-whitespace) body are network failures, like a
/// failed connection; nothing else is validated — a malformed address
/// simply fails to match any cached value and is rejected by the
/// provider's update call downstream.
pub fn get_current_ip(status: u16, body: &str) -> (r: Result<String, String>)
    ensures
        200 <= status < 300 && trimmed(body@).len() > 0 ==> (r matches Ok(ip) && ip@ == trimmed(
            body@,
        )),
        !(200 <= status < 300) ==> (r matches Err(m) && m@ == "HTTP "@ + crate::api::decimal(
            status as nat,
        )),
        200 <= status < 300 && trimmed(body@).len() == 0 ==> (r matches Err(m) && m@
            == "Empty response from the IP echo service"@),
{
    if status < 200 || status >= 300 {
        let mut m = String::from_str("HTTP ");
        let d = crate::api::u16_decimal(status);
        m.append(d.as_str());
        return Err(m);
    }
    let ip = trim(body);
    if ip.as_str().is_empty() {
        return Err(String::from_str("Empty response from the IP echo service"));
    }
    Ok(ip)
}

} // verus!
