//! Cookies, and what the session cookie carries.

use vstd::prelude::*;
use crate::text::{
    chars_of, find_char, index_of, str_eq, string_of_range, trimmed, trimmed_string,
};
use crate::utils::{b64_decode, base64_url_decoded};

verus! {

/// What one part of a `Cookie` header gives for `name`: the part is cut at
/// its first `=`, and where what stands before it is `name`, white space
/// aside, what stands behind it is the value, white space aside.
pub open spec fn cookie_of_part(part: Seq<char>, name: Seq<char>) -> Option<Seq<char>> {
    let eq = index_of(part, '=');
    if 0 <= eq < part.len() && trimmed(part.take(eq)) == name {
        Some(trimmed(part.skip(eq + 1)))
    } else {
        None
    }
}

/// The value of the cookie `name` in the value of a `Cookie` header: that
/// of the first of its parts, which `;` separates, that gives one.
pub open spec fn cookie_value(header: Seq<char>, name: Seq<char>) -> Option<Seq<char>>
    decreases header.len(),
{
    let end = index_of(header, ';');
    if 0 <= end < header.len() {
        match cookie_of_part(header.take(end), name) {
            Some(value) => Some(value),
            None => cookie_value(header.skip(end + 1), name),
        }
    } else {
        cookie_of_part(header, name)
    }
}

fn part_cookie(chars: &Vec<char>, from: usize, to: usize, name: &str) -> (out: Option<String>)
    requires
        from <= to <= chars.len(),
    ensures
        match out {
            Some(value) => cookie_of_part(chars@.subrange(from as int, to as int), name@) == Some(
                value@,
            ),
            None => cookie_of_part(chars@.subrange(from as int, to as int), name@) is None,
        },
{
    let ghost part = chars@.subrange(from as int, to as int);
    let eq = find_char(chars, from, to, '=');
    if eq >= to {
        return None;
    }
    assert(part.take(eq - from) == chars@.subrange(from as int, eq as int));
    assert(part.skip(eq - from + 1) == chars@.subrange(eq as int + 1, to as int));
    let key = trimmed_string(chars, from, eq);
    if !str_eq(key.as_str(), name) {
        return None;
    }
    Some(trimmed_string(chars, eq + 1, to))
}

/// The value of the cookie `name` in the value of a `Cookie` header.
pub fn cookie(header: &str, name: &str) -> (out: Option<String>)
    ensures
        match out {
            Some(value) => cookie_value(header@, name@) == Some(value@),
            None => cookie_value(header@, name@) is None,
        },
{
    let chars = chars_of(header);
    let len = chars.len();
    let mut start: usize = 0;
    assert(header@.skip(0) == header@);
    loop
        invariant
            start <= len == chars.len(),
            chars@ == header@,
            cookie_value(header@, name@) == cookie_value(header@.skip(start as int), name@),
        decreases len - start,
    {
        let ghost rest = header@.skip(start as int);
        assert(rest == chars@.subrange(start as int, len as int));
        let end = find_char(&chars, start, len, ';');
        assert(rest.take(end - start) == chars@.subrange(start as int, end as int));
        let found = part_cookie(&chars, start, end, name);
        if end >= len {
            assert(rest.take(rest.len() as int) == rest);
            return found;
        }
        match found {
            Some(value) => {
                return Some(value);
            },
            None => {},
        }
        assert(rest.skip(end - start + 1) == header@.skip(end + 1));
        start = end + 1;
    }
}

/// Why a session cookie gives no payload.
#[derive(Debug, Clone, Copy, PartialEq, Eq, Structural)]
pub enum InvalidSession {
    /// No dot, and so no signature behind one.
    MissingSignature,
    /// What stands before the dot is no base64.
    InvalidPayload,
}

/// The bytes that a session cookie carries: what stands before its first
/// dot, decoded from URL-safe base64. The signature behind the dot is not
/// looked at here.
pub fn session_payload(session: &str) -> (out: Result<Vec<u8>, InvalidSession>)
    ensures
        match out {
            Ok(bytes) => {
                &&& index_of(session@, '.') < session@.len()
                &&& base64_url_decoded(
                    vstd::utf8::encode_utf8(session@.take(index_of(session@, '.'))),
                ) == Some(bytes@)
            },
            Err(InvalidSession::MissingSignature) => index_of(session@, '.') >= session@.len(),
            Err(InvalidSession::InvalidPayload) => {
                &&& index_of(session@, '.') < session@.len()
                &&& base64_url_decoded(
                    vstd::utf8::encode_utf8(session@.take(index_of(session@, '.'))),
                ) is None
            },
        },
{
    let chars = chars_of(session);
    let dot = find_char(&chars, 0, chars.len(), '.');
    assert(session@.subrange(0, chars.len() as int) == session@);
    if dot >= chars.len() {
        return Err(InvalidSession::MissingSignature);
    }
    let payload = string_of_range(&chars, 0, dot);
    match b64_decode(payload.as_str().as_bytes()) {
        Ok(bytes) => Ok(bytes),
        Err(_) => Err(InvalidSession::InvalidPayload),
    }
}

} // verus!
