//! Tables of pairs as a build writes them: `{k,v},{k,v}`.

use vstd::prelude::*;
use crate::text::{chars_of, index_of, lemma_index_of, string_of_range};

verus! {

/// `s` without the run of `c` that it ends with.
pub open spec fn trim_end(s: Seq<char>, c: char) -> Seq<char>
    decreases s.len(),
{
    if s.len() > 0 && s.last() == c {
        trim_end(s.drop_last(), c)
    } else {
        s
    }
}

/// Whether a `},` starts at the place `k` of `s`.
pub open spec fn separator_at(s: Seq<char>, k: int) -> bool {
    0 <= k && k + 1 < s.len() && s[k] == '}' && s[k + 1] == ','
}

/// The place of the first `},` in `s`; the length of `s` where it holds
/// none.
pub open spec fn separator_index(s: Seq<char>) -> int
    decreases s.len(),
{
    if s.len() == 0 {
        0
    } else if separator_at(s, 0) {
        0
    } else {
        1 + separator_index(s.drop_first())
    }
}

/// `separator_index` is the one place before which no `},` starts and at
/// which one does, or the text ends.
pub proof fn lemma_separator_index(s: Seq<char>, i: int)
    requires
        0 <= i <= s.len(),
        forall|k: int| 0 <= k < i ==> !#[trigger] separator_at(s, k),
        i < s.len() ==> separator_at(s, i),
    ensures
        separator_index(s) == i,
    decreases s.len(),
{
    if s.len() == 0 {
    } else if i == 0 {
    } else {
        let rest = s.drop_first();
        assert(!separator_at(s, 0));
        assert forall|k: int| 0 <= k < i - 1 implies !#[trigger] separator_at(rest, k) by {
            assert(!separator_at(s, k + 1));
            if k + 1 < rest.len() {
                assert(rest[k] == s[k + 1]);
                assert(rest[k + 1] == s[k + 2]);
            }
        }
        if i < s.len() {
            assert(separator_at(s, i));
            assert(rest[i - 1] == s[i]);
            assert(rest[i] == s[i + 1]);
            assert(separator_at(rest, i - 1));
        }
        lemma_separator_index(rest, i - 1);
    }
}

/// The pair that one part of a table holds: the part starts with `{`, and
/// the first `,` behind that parts the key from the value.
pub open spec fn pair_of(part: Seq<char>) -> Option<(Seq<char>, Seq<char>)> {
    if part.len() > 0 && part[0] == '{' {
        let inner = part.skip(1);
        let comma = index_of(inner, ',');
        if 0 <= comma < inner.len() {
            Some((inner.take(comma), inner.skip(comma + 1)))
        } else {
            None
        }
    } else {
        None
    }
}

/// The pairs of the parts of `s`, which `},` separates, if every part
/// holds a pair.
pub open spec fn pairs_of(s: Seq<char>) -> Option<Seq<(Seq<char>, Seq<char>)>>
    decreases s.len(),
{
    let end = separator_index(s);
    if 0 <= end && end + 2 <= s.len() {
        match (pair_of(s.take(end)), pairs_of(s.skip(end + 2))) {
            (Some(pair), Some(rest)) => Some(seq![pair] + rest),
            _ => None,
        }
    } else {
        match pair_of(s) {
            Some(pair) => Some(seq![pair]),
            None => None,
        }
    }
}

/// The pairs of a table: none for an empty text; else those of the text
/// without the braces that it ends with.
pub open spec fn table_pairs(s: Seq<char>) -> Option<Seq<(Seq<char>, Seq<char>)>> {
    if s.len() == 0 {
        Some(Seq::empty())
    } else {
        pairs_of(trim_end(s, '}'))
    }
}

/// The pairs with what went before them.
pub open spec fn after(
    done: Seq<(Seq<char>, Seq<char>)>,
    rest: Option<Seq<(Seq<char>, Seq<char>)>>,
) -> Option<Seq<(Seq<char>, Seq<char>)>> {
    match rest {
        Some(pairs) => Some(done + pairs),
        None => None,
    }
}

/// A list of pairs of strings as texts.
pub open spec fn pairs_view(v: Seq<(String, String)>) -> Seq<(Seq<char>, Seq<char>)> {
    Seq::new(v.len(), |i: int| (v[i].0@, v[i].1@))
}

/// The text is no table of pairs.
#[derive(Debug, Clone, Copy, PartialEq, Eq, Structural)]
pub struct InvalidTable;

/// Reads a table of pairs. Keys and values come out as they are written.
pub fn lua_table(v: &str) -> (out: Result<Vec<(String, String)>, InvalidTable>)
    ensures
        match out {
            Ok(pairs) => table_pairs(v@) == Some(pairs_view(pairs@)),
            Err(_) => table_pairs(v@) is None,
        },
{
    let chars = chars_of(v);
    let mut result: Vec<(String, String)> = Vec::new();
    if chars.len() == 0 {
        assert(pairs_view(result@) =~= Seq::empty());
        return Ok(result);
    }
    let mut len: usize = chars.len();
    assert(v@.take(len as int) == v@);
    while len > 0 && chars[len - 1] == '}'
        invariant
            len <= chars.len(),
            chars@ == v@,
            trim_end(v@, '}') == trim_end(v@.take(len as int), '}'),
        decreases len,
    {
        assert(v@.take(len as int).drop_last() == v@.take(len as int - 1));
        len -= 1;
    }
    let ghost body = v@.take(len as int);
    assert(trim_end(body, '}') == body);
    assert(body.skip(0) == body);
    assert(pairs_view(result@) =~= Seq::empty());
    assert(after(pairs_view(result@), pairs_of(body)) == pairs_of(body)) by {
        match pairs_of(body) {
            Some(pairs) => {
                assert(pairs_view(result@) + pairs =~= pairs);
            },
            None => {},
        }
    }
    let mut start: usize = 0;
    loop
        invariant
            start <= len <= chars.len(),
            chars@ == v@,
            body == v@.take(len as int),
            table_pairs(v@) == pairs_of(body),
            pairs_of(body) == after(pairs_view(result@), pairs_of(body.skip(start as int))),
        decreases len - start,
    {
        let ghost rest = body.skip(start as int);
        let mut end: usize = start;
        while end < len && !(end + 1 < len && chars[end] == '}' && chars[end + 1] == ',')
            invariant
                start <= end <= len <= chars.len(),
                chars@ == v@,
                body == v@.take(len as int),
                forall|k: int| start <= k < end ==> !#[trigger] separator_at(body, k),
            decreases len - end,
        {
            end += 1;
        }
        proof {
            assert forall|k: int| 0 <= k < end - start implies !#[trigger] separator_at(
                rest,
                k,
            ) by {
                assert(!separator_at(body, start + k));
                if k + 1 < rest.len() {
                    assert(rest[k] == body[start + k]);
                    assert(rest[k + 1] == body[start + k + 1]);
                }
            }
            if end < len {
                assert(rest[end - start] == body[end as int]);
                assert(rest[end - start + 1] == body[end + 1]);
                assert(separator_at(rest, end - start));
            }
            lemma_separator_index(rest, end - start);
        }
        let ghost part = rest.take(end - start);
        assert(part == v@.subrange(start as int, end as int));
        if !(start < end && chars[start] == '{') {
            assert(pair_of(part) is None);
            assert(end >= len ==> rest.take(rest.len() as int) == rest);
            return Err(InvalidTable);
        }
        let mut comma: usize = start + 1;
        while comma < end && chars[comma] != ','
            invariant
                start + 1 <= comma <= end <= len <= chars.len(),
                chars@ == v@,
                forall|k: int| start + 1 <= k < comma ==> chars@[k] != ',',
            decreases end - comma,
        {
            comma += 1;
        }
        proof {
            let inner = part.skip(1);
            assert(inner == v@.subrange(start + 1, end as int));
            lemma_index_of(inner, ',', comma - start - 1);
        }
        if comma >= end {
            assert(pair_of(part) is None);
            assert(end >= len ==> rest.take(rest.len() as int) == rest);
            return Err(InvalidTable);
        }
        let key = string_of_range(&chars, start + 1, comma);
        let value = string_of_range(&chars, comma + 1, end);
        proof {
            let inner = part.skip(1);
            assert(inner.take(comma - start - 1) == key@);
            assert(inner.skip(comma - start) == value@);
            assert(pair_of(part) == Some((key@, value@)));
        }
        let ghost held = result@;
        result.push((key, value));
        assert(pairs_view(result@) =~= pairs_view(held) + seq![(key@, value@)]);
        if end >= len {
            assert(rest.take(rest.len() as int) == rest);
            return Ok(result);
        }
        proof {
            assert(rest.skip(end - start + 2) == body.skip(end + 2));
            match pairs_of(body.skip(end + 2)) {
                Some(more) => {
                    assert(pairs_view(held) + (seq![(key@, value@)] + more) =~= pairs_view(
                        result@,
                    ) + more);
                },
                None => {},
            }
        }
        start = end + 2;
    }
}

} // verus!
