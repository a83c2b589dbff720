//! Classification of the daemon's response: decode the bytes as UTF-8 text,
//! then apply the decision rule — a response that contains `"OK"` and does
//! not contain `"FOUND"` is clean, anything else is an infection verdict
//! carrying the whole response text.

use crate::error::Error;
use vstd::prelude::*;
use vstd::string::StrSliceExecFns;
use vstd::utf8::{decode_utf8, valid_utf8};

verus! {

/// True when `needle` occurs in `text` starting at position `i`.
pub open spec fn contains_at(text: Seq<char>, needle: Seq<char>, i: int) -> bool {
    &&& 0 <= i
    &&& i + needle.len() <= text.len()
    &&& text.subrange(i, i + needle.len()) == needle
}

/// True when `needle` occurs somewhere in `text`.
pub open spec fn text_contains(text: Seq<char>, needle: Seq<char>) -> bool {
    exists|i: int| contains_at(text, needle, i)
}

/// The decision rule on the decoded response text.
pub open spec fn is_clean(text: Seq<char>) -> bool {
    text_contains(text, "OK"@) && !text_contains(text, "FOUND"@)
}

/// What a response classifies as: clean, undecodable, or infected with the
/// decoded response text as the diagnostic.
pub enum Verdict {
    Clean,
    Undecodable,
    Infected(Seq<char>),
}

/// The classification of raw response bytes.
pub open spec fn classification(response: Seq<u8>) -> Verdict {
    if !valid_utf8(response) {
        Verdict::Undecodable
    } else if is_clean(decode_utf8(response)) {
        Verdict::Clean
    } else {
        Verdict::Infected(decode_utf8(response))
    }
}

/// Relies on `std::str::from_utf8`: it succeeds exactly on valid UTF-8 input
/// and returns the text those bytes encode; on failure the error describes
/// the offending byte position.
#[verifier::external_body]
fn decode_response(bytes: &Vec<u8>) -> (r: Result<String, String>)
    ensures
        r is Ok <==> valid_utf8(bytes@),
        r matches Ok(s) ==> s@ == decode_utf8(bytes@),
{
    match std::str::from_utf8(bytes.as_slice()) {
        Ok(text) => Ok(text.to_owned()),
        Err(err) => Err(err.to_string()),
    }
}

/// The characters of `s`, in order.
fn chars_of(s: &str) -> (v: Vec<char>)
    ensures
        v@ == s@,
{
    let n = s.unicode_len();
    let mut v: Vec<char> = Vec::new();
    let mut i: usize = 0;
    while i < n
        invariant
            n == s@.len(),
            i <= n,
            v@ == s@.subrange(0, i as int),
        decreases n - i,
    {
        let c = s.get_char(i);
        v.push(c);
        proof {
            assert(v@ =~= s@.subrange(0, i as int + 1));
        }
        i += 1;
    }
    proof {
        assert(v@ =~= s@);
    }
    v
}

/// True when `needle` occurs in `text` starting at position `i`.
fn match_at(text: &Vec<char>, needle: &Vec<char>, i: usize) -> (r: bool)
    requires
        i + needle@.len() <= text@.len(),
    ensures
        r == contains_at(text@, needle@, i as int),
{
    let m = needle.len();
    let n = text.len();
    let mut j: usize = 0;
    while j < m
        invariant
            j <= m,
            m == needle@.len(),
            n == text@.len(),
            i + m <= n,
            forall|k: int| 0 <= k < j ==> text@[i + k] == needle@[k],
        decreases m - j,
    {
        if text[i + j] != needle[j] {
            proof {
                let sub = text@.subrange(i as int, i + needle@.len());
                assert(sub[j as int] == text@[i + j]);
                assert(sub != needle@);
            }
            return false;
        }
        j += 1;
    }
    proof {
        assert(text@.subrange(i as int, i + needle@.len()) =~= needle@);
    }
    true
}

/// True when `needle` occurs somewhere in `text`.
fn contains_text(text: &Vec<char>, needle: &Vec<char>) -> (r: bool)
    ensures
        r == text_contains(text@, needle@),
{
    if needle.len() > text.len() {
        proof {
            assert(forall|i: int| !contains_at(text@, needle@, i));
        }
        return false;
    }
    if needle.len() == 0 {
        proof {
            assert(text@.subrange(0, 0) =~= needle@);
            assert(contains_at(text@, needle@, 0));
        }
        return true;
    }
    let last = text.len() - needle.len();
    let mut i: usize = 0;
    while i <= last
        invariant
            1 <= needle@.len() <= text@.len(),
            last == text@.len() - needle@.len(),
            last < usize::MAX,
            i <= last + 1,
            forall|k: int| 0 <= k < i ==> !contains_at(text@, needle@, k),
        decreases last + 1 - i,
    {
        if match_at(text, needle, i) {
            proof {
                assert(contains_at(text@, needle@, i as int));
            }
            return true;
        }
        i += 1;
    }
    proof {
        assert(forall|k: int| contains_at(text@, needle@, k) ==> 0 <= k < i);
        assert(!text_contains(text@, needle@));
    }
    false
}

/// Decodes and classifies the daemon's whole response.  Returns `Ok` exactly
/// when the response is valid UTF-8 text that contains `"OK"` and does not
/// contain `"FOUND"`; an undecodable response is a UTF-8 error, any other
/// response is a scan verdict carrying the response text verbatim.
pub fn classify_response(response: &Vec<u8>) -> (r: Result<(), Error>)
    ensures
        r is Ok <==> classification(response@) is Clean,
        classification(response@) is Undecodable ==> (r matches Err(e) && e matches Error::Utf8(
            _,
        )),
        classification(response@) matches Verdict::Infected(m) ==> (r matches Err(e) && (
        e matches Error::Scan(msg) && msg@ == m)),
{
    match decode_response(response) {
        Err(desc) => Err(Error::Utf8(desc)),
        Ok(text) => {
            let chars = chars_of(text.as_str());
            let ok_needle = chars_of("OK");
            let found_needle = chars_of("FOUND");
            let has_ok = contains_text(&chars, &ok_needle);
            let has_found = contains_text(&chars, &found_needle);
            if has_ok && !has_found {
                Ok(())
            } else {
                Err(Error::Scan(text))
            }
        },
    }
}

} // verus!
