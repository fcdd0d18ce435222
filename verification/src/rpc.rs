//! Validation of the RPC endpoint handed in on the command line: the
//! endpoint must be an HTTP or HTTPS URL.

use vstd::prelude::*;

verus! {

/// `s` begins with `prefix`.
pub open spec fn spec_starts_with(s: Seq<char>, prefix: Seq<char>) -> bool {
    prefix.len() <= s.len() && s.subrange(0, prefix.len() as int) == prefix
}

/// Character-by-character prefix test.
fn str_has_prefix(s: &str, prefix: &str) -> (r: bool)
    ensures
        r == spec_starts_with(s@, prefix@),
{
    let sn = s.unicode_len();
    let pn = prefix.unicode_len();
    if pn > sn {
        return false;
    }
    let mut i: usize = 0;
    while i < pn
        invariant
            i <= pn,
            pn <= sn,
            pn == prefix@.len(),
            sn == s@.len(),
            forall|j: int| 0 <= j < i ==> s@[j] == prefix@[j],
        decreases pn - i,
    {
        if s.get_char(i) != prefix.get_char(i) {
            proof {
                assert(s@.subrange(0, pn as int)[i as int] == s@[i as int]);
            }
            return false;
        }
        i = i + 1;
    }
    proof {
        assert(s@.subrange(0, pn as int) =~= prefix@);
    }
    true
}

/// Accepts the RPC endpoint exactly when it starts with `http://` or
/// `https://`; anything else is rejected with a message naming the offending
/// value. The accepted endpoint is returned unchanged.
pub fn http_provider(s: &str) -> (r: Result<String, String>)
    ensures
        r is Ok <==> (spec_starts_with(s@, "http://"@) || spec_starts_with(s@, "https://"@)),
        r matches Ok(url) ==> url@ == s@,
        r matches Err(m) ==> m@ == "URL does not start with http(s): "@ + s@,
{
    if str_has_prefix(s, "http://") || str_has_prefix(s, "https://") {
        Ok(String::from_str(s))
    } else {
        let mut message = String::from_str("URL does not start with http(s): ");
        message.append(s);
        Err(message)
    }
}

} // verus!
