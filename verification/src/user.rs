//! User names.

use vstd::prelude::*;

verus! {

/// Why a text is not accepted as a user name.
#[derive(Debug, Clone, Copy, PartialEq, Eq, Structural)]
pub enum InvalidUser {
    TooLong,
    Invalid,
}

impl InvalidUser {
    /// The message shown for this error.
    pub open spec fn message_text(self) -> Seq<char> {
        match self {
            InvalidUser::TooLong => "Username too long"@,
            InvalidUser::Invalid => "Invalid Username"@,
        }
    }

    pub fn message(&self) -> (out: &'static str)
        ensures
            out@ == self.message_text(),
    {
        match self {
            InvalidUser::TooLong => "Username too long",
            InvalidUser::Invalid => "Invalid Username",
        }
    }
}

/// The longest user name, counted in characters.
pub const MAX_USER_LEN: usize = 30;

/// The two characters that never occur in a user name.
pub open spec fn is_user_separator(c: char) -> bool {
    c == '/' || c == ':'
}

/// The verdict on a candidate user name: a separator among the first 31
/// characters makes it invalid; failing that, more than 30 characters make
/// it too long.
pub open spec fn user_name_error(s: Seq<char>) -> Option<InvalidUser> {
    if exists|i: int| 0 <= i < s.len() && i <= MAX_USER_LEN && is_user_separator(#[trigger] s[i]) {
        Some(InvalidUser::Invalid)
    } else if s.len() > MAX_USER_LEN {
        Some(InvalidUser::TooLong)
    } else {
        None
    }
}

/// A text that is accepted as a user name.
pub open spec fn valid_user_name(s: Seq<char>) -> bool {
    &&& s.len() <= MAX_USER_LEN
    &&& forall|i: int| 0 <= i < s.len() ==> !is_user_separator(#[trigger] s[i])
}

/// The Unicode lowercase form of a text, as `str::to_lowercase` computes it.
pub uninterp spec fn lowercase(s: Seq<char>) -> Seq<char>;

/// `str::to_lowercase` returns the lowercase equivalent of the string; the
/// result depends on the characters of the input alone.
pub assume_specification[ str::to_lowercase ](s: &str) -> (out: String)
    ensures
        out@ == lowercase(s@),
;

/// The name of an account. Two names are the name of one user when their
/// normalized forms are equal, which `same_as` tells; `==` tells whether
/// two names are spelled alike.
#[derive(Debug)]
pub struct User(String);

impl View for User {
    type V = Seq<char>;

    closed spec fn view(&self) -> Seq<char> {
        self.0@
    }
}

impl User {
    /// Wraps a name without looking at it.
    pub fn new_unchecked(user: String) -> (out: Self)
        ensures
            out@ == user@,
    {
        User(user)
    }

    pub fn as_str(&self) -> (out: &str)
        ensures
            out@ == self@,
    {
        self.0.as_str()
    }

    /// The name in lowercase: user names are case insensitive.
    pub fn normalized(&self) -> (out: Self)
        ensures
            out@ == lowercase(self@),
    {
        User(self.0.as_str().to_lowercase())
    }

    /// Whether two names are the name of one user: user names are case
    /// insensitive.
    pub open spec fn same_user(a: Seq<char>, b: Seq<char>) -> bool {
        lowercase(a) == lowercase(b)
    }

    pub fn same_as(&self, other: &User) -> (out: bool)
        ensures
            out == User::same_user(self@, other@),
    {
        self.normalized() == other.normalized()
    }

    /// The name as an owned string.
    pub fn into_string(self) -> (out: String)
        ensures
            out@ == self@,
    {
        self.0
    }

    /// Accepts `username` exactly when `user_name_error` finds no fault.
    pub fn from_str(username: &str) -> (out: Result<Self, InvalidUser>)
        ensures
            match out {
                Ok(user) => user_name_error(username@) is None && user@ == username@,
                Err(e) => user_name_error(username@) == Some(e),
            },
    {
        let mut count: usize = 0;
        for c in it: username.chars()
            invariant
                it.seq() == username@,
                count == it.index(),
                count <= MAX_USER_LEN,
                forall|i: int| 0 <= i < count ==> !is_user_separator(#[trigger] username@[i]),
        {
            if c == '/' || c == ':' {
                return Err(InvalidUser::Invalid);
            }
            count += 1;
            if count > MAX_USER_LEN {
                return Err(InvalidUser::TooLong);
            }
        }
        Ok(User(username.to_owned()))
    }

    /// As `from_str`, for an owned string.
    pub fn try_from(value: String) -> (out: Result<Self, InvalidUser>)
        ensures
            match out {
                Ok(user) => user_name_error(value@) is None && user@ == value@,
                Err(e) => user_name_error(value@) == Some(e),
            },
    {
        Self::from_str(value.as_str())
    }
}

impl Clone for User {
    fn clone(&self) -> (out: Self)
        ensures
            out@ == self@,
    {
        User(self.0.clone())
    }
}

impl PartialEq for User {
    fn eq(&self, other: &Self) -> (out: bool) {
        self.0 == other.0
    }
}

impl Eq for User {}

impl vstd::std_specs::cmp::PartialEqSpecImpl for User {
    open spec fn obeys_eq_spec() -> bool {
        true
    }

    open spec fn eq_spec(&self, other: &Self) -> bool {
        self@ == other@
    }
}

/// A name is accepted exactly when it is short enough and free of
/// separators.
pub proof fn lemma_user_name_accepted(s: Seq<char>)
    ensures
        user_name_error(s) is None <==> valid_user_name(s),
{
}

} // verus!
