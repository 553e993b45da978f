//! The headers of a response: a list of names and values in which a name
//! is found whatever the case of its letters.

use vstd::prelude::*;
use crate::text::{ascii_lower, join, join_strings, str_eq, to_ascii_lower, views};

verus! {

/// Headers as a list of pairs of a name, in lowercase, and a value.
pub type HeaderList = Seq<(Seq<char>, Seq<char>)>;

/// A character of which header names are made.
pub open spec fn is_token_char(c: char) -> bool {
    ||| '0' <= c <= '9'
    ||| 'a' <= c <= 'z'
    ||| 'A' <= c <= 'Z'
    ||| c == '!' || c == '#' || c == '$' || c == '%' || c == '&' || c == '\''
    ||| c == '*' || c == '+' || c == '-' || c == '.' || c == '^' || c == '_'
    ||| c == '`' || c == '|' || c == '~'
}

/// A header name is a token that is not empty.
pub open spec fn valid_header_name(s: Seq<char>) -> bool {
    &&& s.len() > 0
    &&& forall|i: int| 0 <= i < s.len() ==> is_token_char(#[trigger] s[i])
}

/// A header value holds no NUL, carriage return or line feed.
pub open spec fn valid_header_value(s: Seq<char>) -> bool {
    forall|i: int| 0 <= i < s.len() ==> {
        let c = #[trigger] s[i];
        c != '\0' && c != '\r' && c != '\n'
    }
}

/// The values listed under `name`, in the order of the list.
pub open spec fn header_values(h: HeaderList, name: Seq<char>) -> Seq<Seq<char>>
    decreases h.len(),
{
    if h.len() == 0 {
        Seq::empty()
    } else if h.last().0 == name {
        header_values(h.drop_last(), name).push(h.last().1)
    } else {
        header_values(h.drop_last(), name)
    }
}

/// Whether anything is listed under `name`.
pub open spec fn header_has(h: HeaderList, name: Seq<char>) -> bool {
    header_values(h, name).len() > 0
}

/// What a reader gets for `name`: its values, separated by a comma and a
/// space.
pub open spec fn header_get(h: HeaderList, name: Seq<char>) -> Option<Seq<char>> {
    if header_has(h, name) {
        Some(join(header_values(h, name), ", "@))
    } else {
        None
    }
}

/// The list without what it holds under `name`.
pub open spec fn header_without(h: HeaderList, name: Seq<char>) -> HeaderList
    decreases h.len(),
{
    if h.len() == 0 {
        Seq::empty()
    } else if h.last().0 == name {
        header_without(h.drop_last(), name)
    } else {
        header_without(h.drop_last(), name).push(h.last())
    }
}

/// The list with `value` as the one value of `name`.
pub open spec fn header_set(h: HeaderList, name: Seq<char>, value: Seq<char>) -> HeaderList {
    header_without(h, name).push((name, value))
}

/// The list with one more value under `name`.
pub open spec fn header_append(h: HeaderList, name: Seq<char>, value: Seq<char>) -> HeaderList {
    h.push((name, value))
}

/// The pairs of a list of headers as texts.
pub open spec fn entries_view(v: Seq<(String, String)>) -> HeaderList {
    Seq::new(v.len(), |i: int| (v[i].0@, v[i].1@))
}

/// What one more pair at the end does to the values under a name.
pub proof fn lemma_values_push(h: HeaderList, e: (Seq<char>, Seq<char>), name: Seq<char>)
    ensures
        header_values(h.push(e), name) == if e.0 == name {
            header_values(h, name).push(e.1)
        } else {
            header_values(h, name)
        },
        header_without(h.push(e), name) == if e.0 == name {
            header_without(h, name)
        } else {
            header_without(h, name).push(e)
        },
{
    assert(h.push(e).drop_last() == h);
}

/// Removing a name leaves nothing under it, and leaves every other name its
/// values.
pub proof fn lemma_values_without(h: HeaderList, removed: Seq<char>, name: Seq<char>)
    ensures
        header_values(header_without(h, removed), name) == if name == removed {
            Seq::<Seq<char>>::empty()
        } else {
            header_values(h, name)
        },
    decreases h.len(),
{
    if h.len() > 0 {
        lemma_values_without(h.drop_last(), removed, name);
        if h.last().0 != removed {
            lemma_values_push(header_without(h.drop_last(), removed), h.last(), name);
        }
    }
}

/// After a name is set, a reader gets the new value for it, and for every
/// other name what it got before.
pub proof fn lemma_get_after_set(
    h: HeaderList,
    name: Seq<char>,
    value: Seq<char>,
    other: Seq<char>,
)
    ensures
        header_get(header_set(h, name, value), name) == Some(value),
        other != name ==> header_values(header_set(h, name, value), other) == header_values(
            h,
            other,
        ),
        other != name ==> header_get(header_set(h, name, value), other) == header_get(h, other),
        other != name ==> header_has(header_set(h, name, value), other) == header_has(h, other),
        header_has(header_set(h, name, value), name),
{
    lemma_values_without(h, name, name);
    lemma_values_without(h, name, other);
    lemma_values_push(header_without(h, name), (name, value), name);
    lemma_values_push(header_without(h, name), (name, value), other);
    let now = header_values(header_set(h, name, value), name);
    assert(now =~= seq![value]);
    assert(join(now, ", "@) == value);
}

/// After one more value is listed under a name, the name is there, and
/// every other name is as before.
pub proof fn lemma_get_after_append(
    h: HeaderList,
    name: Seq<char>,
    value: Seq<char>,
    other: Seq<char>,
)
    ensures
        header_has(header_append(h, name, value), name),
        header_values(header_append(h, name, value), name) == header_values(h, name).push(value),
        other != name ==> header_get(header_append(h, name, value), other) == header_get(h, other),
        other != name ==> header_has(header_append(h, name, value), other) == header_has(h, other),
{
    lemma_values_push(h, (name, value), name);
    lemma_values_push(h, (name, value), other);
}

/// After a name is removed nothing is listed under it, and every other name
/// is as before.
pub proof fn lemma_get_after_delete(h: HeaderList, name: Seq<char>, other: Seq<char>)
    ensures
        !header_has(header_without(h, name), name),
        header_get(header_without(h, name), name) is None,
        other != name ==> header_get(header_without(h, name), other) == header_get(h, other),
        other != name ==> header_has(header_without(h, name), other) == header_has(h, other),
{
    lemma_values_without(h, name, name);
    lemma_values_without(h, name, other);
}

fn is_token_char_exec(c: char) -> (out: bool)
    ensures
        out == is_token_char(c),
{
    ('0' <= c && c <= '9') || ('a' <= c && c <= 'z') || ('A' <= c && c <= 'Z') || c == '!' || c
        == '#' || c == '$' || c == '%' || c == '&' || c == '\'' || c == '*' || c == '+' || c == '-'
        || c == '.' || c == '^' || c == '_' || c == '`' || c == '|' || c == '~'
}

/// Whether `name` can be the name of a header.
pub fn is_valid_header_name(name: &str) -> (out: bool)
    ensures
        out == valid_header_name(name@),
{
    if name.is_empty() {
        return false;
    }
    for c in it: name.chars()
        invariant
            it.seq() == name@,
            name@.len() > 0,
            forall|i: int| 0 <= i < it.index() ==> is_token_char(#[trigger] name@[i]),
    {
        if !is_token_char_exec(c) {
            assert(!is_token_char(name@[it.index() as int]));
            return false;
        }
    }
    true
}

/// Whether `value` can be the value of a header.
pub fn is_valid_header_value(value: &str) -> (out: bool)
    ensures
        out == valid_header_value(value@),
{
    for c in it: value.chars()
        invariant
            it.seq() == value@,
            forall|i: int|
                0 <= i < it.index() ==> {
                    let c = #[trigger] value@[i];
                    c != '\0' && c != '\r' && c != '\n'
                },
    {
        if c == '\0' || c == '\r' || c == '\n' {
            assert(value@[it.index() as int] == c);
            return false;
        }
    }
    true
}

/// The headers of a response.
#[derive(Debug)]
pub struct Headers {
    entries: Vec<(String, String)>,
}

impl View for Headers {
    type V = HeaderList;

    closed spec fn view(&self) -> HeaderList {
        entries_view(self.entries@)
    }
}

impl Headers {
    /// No headers.
    pub fn new() -> (out: Self)
        ensures
            out@ == HeaderList::empty(),
    {
        let out = Headers { entries: Vec::new() };
        assert(out@ =~= HeaderList::empty());
        out
    }

    /// What a reader gets for `name`, whatever the case of its letters.
    pub open spec fn get_spec(&self, name: Seq<char>) -> Option<Seq<char>> {
        header_get(self@, ascii_lower(name))
    }

    /// Whether `name` is there, whatever the case of its letters.
    pub open spec fn has_spec(&self, name: Seq<char>) -> bool {
        header_has(self@, ascii_lower(name))
    }

    fn values(&self, key: &str) -> (out: Vec<String>)
        ensures
            views(out@) == header_values(self@, key@),
    {
        let mut out: Vec<String> = Vec::new();
        let mut i: usize = 0;
        while i < self.entries.len()
            invariant
                i <= self.entries.len(),
                views(out@) == header_values(self@.take(i as int), key@),
            decreases self.entries.len() - i,
        {
            let ghost before = self@.take(i as int);
            let ghost now = self@.take(i as int + 1);
            assert(now.drop_last() == before);
            assert(now.last() == self@[i as int]);
            let entry = &self.entries[i];
            if str_eq(entry.0.as_str(), key) {
                let ghost held = out@;
                out.push(entry.1.clone());
                assert(views(out@) =~= views(held).push(entry.1@));
            }
            i += 1;
        }
        assert(self@.take(self.entries.len() as int) == self@);
        out
    }

    pub fn get(&self, name: &str) -> (out: Option<String>)
        ensures
            match out {
                Some(value) => self.get_spec(name@) == Some(value@),
                None => self.get_spec(name@) is None,
            },
    {
        let key = to_ascii_lower(name);
        let found = self.values(key.as_str());
        if found.len() == 0 {
            None
        } else {
            Some(join_strings(&found, ", "))
        }
    }

    pub fn has(&self, name: &str) -> (out: bool)
        ensures
            out == self.has_spec(name@),
    {
        let key = to_ascii_lower(name);
        let found = self.values(key.as_str());
        found.len() > 0
    }

    fn remove_key(&mut self, key: &str)
        ensures
            final(self)@ == header_without(old(self)@, key@),
    {
        let mut kept: Vec<(String, String)> = Vec::new();
        let mut i: usize = 0;
        while i < self.entries.len()
            invariant
                i <= self.entries.len(),
                entries_view(kept@) == header_without(self@.take(i as int), key@),
            decreases self.entries.len() - i,
        {
            let ghost before = self@.take(i as int);
            let ghost now = self@.take(i as int + 1);
            assert(now.drop_last() == before);
            assert(now.last() == self@[i as int]);
            let entry = &self.entries[i];
            if !str_eq(entry.0.as_str(), key) {
                let ghost held = kept@;
                kept.push((entry.0.clone(), entry.1.clone()));
                assert(entries_view(kept@) =~= entries_view(held).push(self@[i as int]));
            }
            i += 1;
        }
        assert(self@.take(self.entries.len() as int) == self@);
        self.entries = kept;
    }

    /// Makes `value` the one value of `name`. A name or a value that no
    /// header can have changes nothing and gives `false`.
    pub fn set(&mut self, name: &str, value: &str) -> (ok: bool)
        ensures
            ok == (valid_header_name(name@) && valid_header_value(value@)),
            final(self)@ == if ok {
                header_set(old(self)@, ascii_lower(name@), value@)
            } else {
                old(self)@
            },
    {
        if !is_valid_header_name(name) || !is_valid_header_value(value) {
            return false;
        }
        let key = to_ascii_lower(name);
        self.remove_key(key.as_str());
        let ghost held = self.entries@;
        self.entries.push((key, value.to_owned()));
        assert(entries_view(self.entries@) =~= entries_view(held).push(
            (ascii_lower(name@), value@),
        ));
        true
    }

    /// Lists one more value under `name`. A name or a value that no header
    /// can have changes nothing and gives `false`.
    pub fn append(&mut self, name: &str, value: &str) -> (ok: bool)
        ensures
            ok == (valid_header_name(name@) && valid_header_value(value@)),
            final(self)@ == if ok {
                header_append(old(self)@, ascii_lower(name@), value@)
            } else {
                old(self)@
            },
    {
        if !is_valid_header_name(name) || !is_valid_header_value(value) {
            return false;
        }
        let key = to_ascii_lower(name);
        let ghost held = self.entries@;
        self.entries.push((key, value.to_owned()));
        assert(entries_view(self.entries@) =~= entries_view(held).push(
            (ascii_lower(name@), value@),
        ));
        true
    }

    /// Removes what is listed under `name`.
    pub fn delete(&mut self, name: &str)
        ensures
            final(self)@ == header_without(old(self)@, ascii_lower(name@)),
    {
        let key = to_ascii_lower(name);
        self.remove_key(key.as_str());
    }

    /// The pairs of names, in lowercase, and values, in the order of the
    /// list.
    pub fn entries(&self) -> (out: Vec<(String, String)>)
        ensures
            entries_view(out@) == self@,
    {
        let mut out: Vec<(String, String)> = Vec::new();
        let mut i: usize = 0;
        while i < self.entries.len()
            invariant
                i <= self.entries.len(),
                entries_view(out@) == self@.take(i as int),
            decreases self.entries.len() - i,
        {
            let entry = &self.entries[i];
            let ghost held = out@;
            out.push((entry.0.clone(), entry.1.clone()));
            assert(entries_view(out@) =~= entries_view(held).push(self@[i as int]));
            assert(self@.take(i as int + 1) =~= self@.take(i as int).push(self@[i as int]));
            i += 1;
        }
        assert(self@.take(self.entries.len() as int) == self@);
        out
    }
}

impl Clone for Headers {
    fn clone(&self) -> (out: Self)
        ensures
            out@ == self@,
    {
        Headers { entries: self.entries() }
    }
}

} // verus!
