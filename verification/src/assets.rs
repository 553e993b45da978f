//! Which paths name static files, and of what type they are.

use vstd::prelude::*;
use crate::text::{chars_of, str_eq, string_of_range};

verus! {

/// `i` is the place of the last `c` in `s`.
pub open spec fn is_last(s: Seq<char>, c: char, i: int) -> bool {
    &&& 0 <= i < s.len()
    &&& s[i] == c
    &&& forall|j: int| i < j < s.len() ==> s[j] != c
}

/// What follows the last `c` in `s`; all of `s` where it holds no `c`.
pub open spec fn after_last(s: Seq<char>, c: char) -> Seq<char> {
    if s.contains(c) {
        s.skip((choose|i: int| is_last(s, c, i)) + 1)
    } else {
        s
    }
}

/// A text has at most one last `c`.
pub proof fn lemma_last(s: Seq<char>, c: char, i: int)
    requires
        is_last(s, c, i),
    ensures
        s.contains(c),
        after_last(s, c) == s.skip(i + 1),
{
    let k = choose|k: int| is_last(s, c, k);
    assert(is_last(s, c, k));
    if k < i {
        assert(s[i] != c);
    }
    if i < k {
        assert(s[k] != c);
    }
}

/// The place of the last `c` in `chars`, if there is one.
fn last_index(chars: &Vec<char>, c: char) -> (out: Option<usize>)
    ensures
        match out {
            Some(i) => is_last(chars@, c, i as int),
            None => !chars@.contains(c),
        },
{
    let mut i: usize = chars.len();
    while i > 0
        invariant
            i <= chars.len(),
            forall|j: int| i <= j < chars.len() ==> chars@[j] != c,
        decreases i,
    {
        i -= 1;
        if chars[i] == c {
            return Some(i);
        }
    }
    None
}

/// A path names a static file when its last segment holds a dot.
pub open spec fn asset_path(path: Seq<char>) -> bool {
    after_last(path, '/').contains('.')
}

pub fn is_asset_path(path: &str) -> (out: bool)
    ensures
        out == asset_path(path@),
{
    let chars = chars_of(path);
    let n = chars.len();
    let start: usize = match last_index(&chars, '/') {
        Some(i) => {
            assert(i < n);
            proof {
                lemma_last(chars@, '/', i as int);
            }
            i + 1
        },
        None => 0,
    };
    assert(after_last(path@, '/') == path@.skip(start as int));
    let mut i: usize = start;
    while i < chars.len()
        invariant
            start <= i <= chars.len(),
            chars@ == path@,
            after_last(path@, '/') == path@.skip(start as int),
            forall|j: int| start <= j < i ==> chars@[j] != '.',
        decreases chars.len() - i,
    {
        if chars[i] == '.' {
            assert(path@.skip(start as int)[i - start] == '.');
            return true;
        }
        i += 1;
    }
    assert(!path@.skip(start as int).contains('.'));
    false
}

/// The media type that goes with a file extension.
pub open spec fn mime_of_extension(ext: Seq<char>) -> Option<Seq<char>> {
    if ext == "html"@ {
        Some("text/html"@)
    } else if ext == "css"@ {
        Some("text/css"@)
    } else if ext == "js"@ {
        Some("text/javascript"@)
    } else if ext == "json"@ {
        Some("application/json"@)
    } else if ext == "png"@ {
        Some("image/png"@)
    } else if ext == "jpg"@ || ext == "jpeg"@ {
        Some("image/jpeg"@)
    } else if ext == "ico"@ {
        Some("image/x-icon"@)
    } else if ext == "wasm"@ {
        Some("application/wasm"@)
    } else {
        None
    }
}

/// The media type of a path: that of what follows its last dot. A path
/// without a dot has none.
pub open spec fn mime_of(path: Seq<char>) -> Option<Seq<char>> {
    if path.contains('.') {
        mime_of_extension(after_last(path, '.'))
    } else {
        None
    }
}

pub fn get_mime(path: &str) -> (out: Option<&'static str>)
    ensures
        match out {
            Some(mime) => mime_of(path@) == Some(mime@),
            None => mime_of(path@) is None,
        },
{
    let chars = chars_of(path);
    let dot = match last_index(&chars, '.') {
        Some(i) => i,
        None => {
            return None;
        },
    };
    let n = chars.len();
    assert(dot < n);
    proof {
        lemma_last(chars@, '.', dot as int);
    }
    let ext_text = string_of_range(&chars, dot + 1, chars.len());
    let ext = ext_text.as_str();
    assert(ext@ == after_last(path@, '.'));
    if str_eq(ext, "html") {
        Some("text/html")
    } else if str_eq(ext, "css") {
        Some("text/css")
    } else if str_eq(ext, "js") {
        Some("text/javascript")
    } else if str_eq(ext, "json") {
        Some("application/json")
    } else if str_eq(ext, "png") {
        Some("image/png")
    } else if str_eq(ext, "jpg") || str_eq(ext, "jpeg") {
        Some("image/jpeg")
    } else if str_eq(ext, "ico") {
        Some("image/x-icon")
    } else if str_eq(ext, "wasm") {
        Some("application/wasm")
    } else {
        None
    }
}

} // verus!
