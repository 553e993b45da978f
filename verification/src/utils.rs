//! Encodings, object paths and the values of caching headers.

use std::time::Duration;
use vstd::prelude::*;
use vstd::slice::slice_subrange;
use crate::id::{id_error, is_id_char, lemma_id_accepted, valid_id, Id, InvalidId};
use crate::meta::Prefetch;
use crate::text::{chars_of, decimal, join, join_strings, push_decimal, views};

verus! {

/// What the functions of this module refuse.
#[derive(Debug, Clone, Copy, PartialEq, Eq, Structural)]
pub enum Error {
    /// The text is no id.
    InvalidId(InvalidId),
    /// The digest has fewer bytes than the id is to be made of.
    HashTooSmall,
    /// The text is no URL-safe base64 without padding.
    InvalidBase64,
}

/// The URL-safe base64 text, without padding, of a sequence of bytes.
pub uninterp spec fn base64_url(data: Seq<u8>) -> Seq<char>;

/// The bytes that a URL-safe base64 text without padding stands for, if it
/// stands for any.
pub uninterp spec fn base64_url_decoded(input: Seq<u8>) -> Option<Seq<u8>>;

/// `base64::DecodeError`: why a text did not decode. It is carried through
/// unread.
#[verifier::external_type_specification]
#[verifier::external_body]
pub struct ExDecodeError(base64::DecodeError);

/// How many characters the URL-safe base64 of `n` bytes has, without
/// padding: four for every three bytes, and two or three for the one or two
/// bytes that are left.
pub open spec fn base64_len(n: nat) -> nat {
    n / 3 * 4 + if n % 3 == 1 {
        2nat
    } else if n % 3 == 2 {
        3nat
    } else {
        0nat
    }
}

/// `base64::encode_config` with `URL_SAFE_NO_PAD`: the encoding is a
/// function of the bytes alone; it has the length that `encoded_size`
/// gives, and each of its characters is one of the URL-safe table, which
/// holds the letters, the digits, `-` and `_`. It stops only where the
/// length of the text does not fit a `usize`, which no slice in memory
/// reaches.
#[verifier::external_body]
pub fn b64_encode(input: &[u8]) -> (out: String)
    ensures
        out@ == base64_url(input@),
        out@.len() == base64_len(input@.len()),
        forall|i: int| 0 <= i < out@.len() ==> is_id_char(#[trigger] out@[i]),
{
    base64::encode_config(input, base64::URL_SAFE_NO_PAD)
}

/// `base64::decode_config` with `URL_SAFE_NO_PAD`: whether a text decodes,
/// and to which bytes, is a function of the text alone. It stops only where
/// the length of the text plus three does not fit a `usize`, which no slice
/// in memory reaches.
#[verifier::external_body]
fn decode_url_safe(input: &[u8]) -> (out: Result<Vec<u8>, base64::DecodeError>)
    ensures
        match out {
            Ok(bytes) => base64_url_decoded(input@) == Some(bytes@),
            Err(_) => base64_url_decoded(input@) is None,
        },
{
    base64::decode_config(input, base64::URL_SAFE_NO_PAD)
}

/// Decodes URL-safe base64 without padding.
pub fn b64_decode(input: &[u8]) -> (out: Result<Vec<u8>, Error>)
    ensures
        match out {
            Ok(bytes) => base64_url_decoded(input@) == Some(bytes@),
            Err(e) => base64_url_decoded(input@) is None && e == Error::InvalidBase64,
        },
{
    match decode_url_safe(input) {
        Ok(bytes) => Ok(bytes),
        Err(_) => Err(Error::InvalidBase64),
    }
}

/// The character of a hexadecimal digit, in lowercase.
pub open spec fn hex_digit(d: nat) -> char
    recommends
        d < 16,
{
    if d < 10 {
        ((48 + d) as u8) as char
    } else {
        ((87 + d) as u8) as char
    }
}

/// Two lowercase hexadecimal digits for each byte, the high one first.
pub open spec fn hex_lower_text(data: Seq<u8>) -> Seq<char>
    decreases data.len(),
{
    if data.len() == 0 {
        Seq::empty()
    } else {
        hex_lower_text(data.drop_last()).push(hex_digit(data.last() as nat / 16)).push(
            hex_digit(data.last() as nat % 16),
        )
    }
}

fn hex_digit_exec(d: u8) -> (out: char)
    requires
        d < 16,
    ensures
        out == hex_digit(d as nat),
{
    if d < 10 {
        (48u8 + d) as char
    } else {
        (87u8 + d) as char
    }
}

pub fn hex_lower(data: &[u8]) -> (out: String)
    ensures
        out@ == hex_lower_text(data@),
        out@.len() == 2 * data@.len(),
{
    let mut out = String::new();
    let mut i: usize = 0;
    while i < data.len()
        invariant
            i <= data.len(),
            out@ == hex_lower_text(data@.take(i as int)),
            out@.len() == 2 * i,
        decreases data.len() - i,
    {
        let b = data[i];
        out.push(hex_digit_exec(b / 16));
        out.push(hex_digit_exec(b % 16));
        proof {
            let now = data@.take(i as int + 1);
            assert(now.drop_last() == data@.take(i as int));
            assert(now.last() == b);
        }
        i += 1;
    }
    assert(data@.take(data@.len() as int) == data@);
    out
}

/// The text that stands for random bytes: their URL-safe base64.
pub fn random_string<const N: usize>(random: [u8; N]) -> (out: String)
    ensures
        out@ == base64_url(random@),
        out@.len() == base64_len(N as nat),
        forall|i: int| 0 <= i < out@.len() ==> is_id_char(#[trigger] out@[i]),
{
    b64_encode(random.as_slice())
}

/// A short id made of the first `bytes` bytes of a digest. What is made of
/// 4 to 67 bytes is a valid id; what is made of fewer or more is too short
/// or too long for one.
pub fn hash_to_short_id(hash: &[u8], bytes: usize) -> (out: Result<String, Error>)
    ensures
        match out {
            Ok(id) => {
                &&& bytes <= hash@.len()
                &&& id@ == base64_url(hash@.take(bytes as int))
                &&& id@.len() == base64_len(bytes as nat)
                &&& (valid_id(id@) <==> 4 <= bytes <= 67)
            },
            Err(e) => bytes > hash@.len() && e == Error::HashTooSmall,
        },
{
    if bytes <= hash.len() {
        let head = slice_subrange(hash, 0, bytes);
        Ok(b64_encode(head))
    } else {
        Err(Error::HashTooSmall)
    }
}

/// The path of an id in the object store: its first two characters are
/// directories of their own.
pub open spec fn sharded_path(id: Seq<char>) -> Seq<char>
    recommends
        id.len() >= 2,
{
    id.take(1) + seq!['/'] + id.subrange(1, 2) + seq!['/'] + id.skip(2)
}

/// The object path of `id`, if `id` is a valid id.
pub fn to_path(id: &str) -> (out: Result<String, Error>)
    ensures
        match out {
            Ok(path) => id_error(id@) is None && path@ == sharded_path(id@),
            Err(e) => id_error(id@) is Some && e == Error::InvalidId(id_error(id@)->0),
        },
{
    match Id::from_str(id) {
        Err(e) => Err(Error::InvalidId(e)),
        Ok(_) => {
            proof {
                lemma_id_accepted(id@);
            }
            let chars = chars_of(id);
            let mut out = String::new();
            out.push(chars[0]);
            out.push('/');
            out.push(chars[1]);
            out.push('/');
            let mut i: usize = 2;
            while i < chars.len()
                invariant
                    2 <= i <= chars.len(),
                    chars@ == id@,
                    out@ == id@.take(1) + seq!['/'] + id@.subrange(1, 2) + seq!['/'] + id@.subrange(
                        2,
                        i as int,
                    ),
                decreases chars.len() - i,
            {
                out.push(chars[i]);
                i += 1;
            }
            assert(id@.subrange(2, chars.len() as int) == id@.skip(2));
            Ok(out)
        },
    }
}

/// One entry of a `Link` header: `<url>;rel=<rel>;as=<typ>`.
pub open spec fn link_entry(url: Seq<char>, rel: Seq<char>, typ: Seq<char>) -> Seq<char> {
    "<"@ + url + ">;rel="@ + rel + ";as="@ + typ
}

/// The value of a `Link` header: one entry for each resource, separated by
/// a comma and a space.
pub open spec fn link_text(p: Seq<Prefetch>, rel: Seq<char>) -> Seq<char> {
    join(link_entries(p, rel), ", "@)
}

/// The entries of a `Link` header, one for each resource.
pub open spec fn link_entries(p: Seq<Prefetch>, rel: Seq<char>) -> Seq<Seq<char>> {
    Seq::new(p.len(), |i: int| link_entry(p[i].url_text(), rel, p[i].typ_text()))
}

pub fn to_link(p: &[Prefetch], rel: &str) -> (out: String)
    ensures
        out@ == link_text(p@, rel@),
{
    let mut parts: Vec<String> = Vec::new();
    let mut i: usize = 0;
    while i < p.len()
        invariant
            i <= p.len(),
            parts@.len() == i,
            views(parts@) == link_entries(p@.take(i as int), rel@),
        decreases p.len() - i,
    {
        let mut entry = "<".to_owned();
        entry.append(p[i].url());
        entry.append(">;rel=");
        entry.append(rel);
        entry.append(";as=");
        entry.append(p[i].typ());
        let ghost before = parts@;
        parts.push(entry);
        proof {
            let now = link_entries(p@.take(i as int + 1), rel@);
            assert forall|j: int| 0 <= j <= i implies views(parts@)[j] == now[j] by {
                if j < i {
                    assert(views(before)[j] == link_entries(p@.take(i as int), rel@)[j]);
                }
            }
            assert(views(parts@) =~= now);
        }
        i += 1;
    }
    assert(p@.take(p@.len() as int) == p@);
    join_strings(&parts, ", ")
}

/// Who may keep a copy of a response.
#[derive(Copy, Clone, Debug, PartialEq, Eq, Structural)]
pub enum Cachability {
    Public,
    Private,
    NoCache,
}

impl Cachability {
    /// The word of the `Cache-Control` header.
    pub open spec fn text(self) -> Seq<char> {
        match self {
            Cachability::Public => "public"@,
            Cachability::Private => "private"@,
            Cachability::NoCache => "no-cache"@,
        }
    }

    pub fn to_str(&self) -> (out: &'static str)
        ensures
            out@ == self.text(),
    {
        match self {
            Cachability::Public => "public",
            Cachability::Private => "private",
            Cachability::NoCache => "no-cache",
        }
    }

    pub fn to_string(&self) -> (out: String)
        ensures
            out@ == self.text(),
    {
        self.to_str().to_owned()
    }
}

/// The whole seconds of a span of time.
pub uninterp spec fn duration_secs(d: Duration) -> u64;

/// `Duration::as_secs` returns the number of whole seconds that the span
/// holds.
pub assume_specification[ Duration::as_secs ](d: &Duration) -> (secs: u64)
    ensures
        secs == duration_secs(*d),
;

/// The directives of a `Cache-Control` header.
#[derive(Copy, Clone)]
pub struct CacheControl {
    pub cachability: Option<Cachability>,
    pub max_age: Option<Duration>,
    pub s_max_age: Option<Duration>,
}

impl Default for CacheControl {
    fn default() -> (out: Self)
        ensures
            out.cachability is None,
            out.max_age is None,
            out.s_max_age is None,
    {
        CacheControl { cachability: None, max_age: None, s_max_age: None }
    }
}

impl CacheControl {
    pub fn cachability(self, cachability: Cachability) -> (out: Self)
        ensures
            out == (CacheControl { cachability: Some(cachability), ..self }),
    {
        let mut out = self;
        out.cachability = Some(cachability);
        out
    }

    pub fn max_age(self, duration: Duration) -> (out: Self)
        ensures
            out == (CacheControl { max_age: Some(duration), ..self }),
    {
        let mut out = self;
        out.max_age = Some(duration);
        out
    }

    pub fn s_max_age(self, duration: Duration) -> (out: Self)
        ensures
            out == (CacheControl { s_max_age: Some(duration), ..self }),
    {
        let mut out = self;
        out.s_max_age = Some(duration);
        out
    }

    pub fn public(self) -> (out: Self)
        ensures
            out == (CacheControl { cachability: Some(Cachability::Public), ..self }),
    {
        self.cachability(Cachability::Public)
    }

    /// The directives that are set, in the order in which they are written.
    pub open spec fn directives(self) -> Seq<Seq<char>> {
        (match self.cachability {
            Some(c) => seq![c.text()],
            None => seq![],
        }) + (match self.max_age {
            Some(d) => seq!["max-age="@ + decimal(duration_secs(d) as nat)],
            None => seq![],
        }) + (match self.s_max_age {
            Some(d) => seq!["s-max-age="@ + decimal(duration_secs(d) as nat)],
            None => seq![],
        })
    }

    /// The value of the header: the directives, separated by a comma and a
    /// space.
    pub open spec fn text(self) -> Seq<char> {
        join(self.directives(), ", "@)
    }

    pub fn to_string(&self) -> (out: String)
        ensures
            out@ == self.text(),
    {
        let mut parts: Vec<String> = Vec::new();
        if let Some(c) = self.cachability {
            parts.push(c.to_string());
        }
        if let Some(d) = self.max_age {
            let mut part = "max-age=".to_owned();
            push_decimal(&mut part, d.as_secs());
            parts.push(part);
        }
        if let Some(d) = self.s_max_age {
            let mut part = "s-max-age=".to_owned();
            push_decimal(&mut part, d.as_secs());
            parts.push(part);
        }
        assert(views(parts@) =~= self.directives());
        join_strings(&parts, ", ")
    }
}

/// An entity tag: strong or weak, and with or without the mark of a build.
#[derive(Copy, Clone)]
pub struct Etag<'a> {
    value: &'a str,
    weak: bool,
    build: Option<&'a str>,
}

impl<'a> Etag<'a> {
    pub closed spec fn value(self) -> Seq<char> {
        self.value@
    }

    pub closed spec fn is_weak(self) -> bool {
        self.weak
    }

    pub closed spec fn build(self) -> Option<Seq<char>> {
        match self.build {
            Some(b) => Some(b@),
            None => None,
        }
    }

    /// The value of the header: `"<value>"`, after `W/` for a weak tag, and
    /// with a dot and the build's mark behind the value where one is set.
    pub open spec fn text(self) -> Seq<char> {
        (if self.is_weak() {
            "W/"@
        } else {
            Seq::empty()
        }) + "\""@ + self.value() + (match self.build() {
            Some(b) => "."@ + b,
            None => Seq::empty(),
        }) + "\""@
    }

    pub fn strong(value: &'a str) -> (out: Self)
        ensures
            out.value() == value@,
            !out.is_weak(),
            out.build() is None,
    {
        Etag { value, weak: false, build: None }
    }

    pub fn weak(value: &'a str) -> (out: Self)
        ensures
            out.value() == value@,
            out.is_weak(),
            out.build() is None,
    {
        Etag { value, weak: true, build: None }
    }

    /// Ties the tag to a build of the program.
    pub fn git(self, version: &'a str) -> (out: Self)
        ensures
            out.value() == self.value(),
            out.is_weak() == self.is_weak(),
            out.build() == Some(version@),
    {
        Etag { value: self.value, weak: self.weak, build: Some(version) }
    }

    pub fn to_string(&self) -> (out: String)
        ensures
            out@ == self.text(),
    {
        let mut out = String::new();
        if self.weak {
            out.append("W/");
        }
        out.append("\"");
        out.append(self.value);
        if let Some(b) = self.build {
            out.append(".");
            out.append(b);
        }
        out.append("\"");
        assert(out@ =~= self.text());
        out
    }
}

} // verus!
