//! Paste identifiers, their textual form and the URLs a paste is served
//! under.

use vstd::prelude::*;
use vstd::utf8::*;
use crate::text::{
    chars_of, find_char, index_of, lemma_index_of, lemma_index_of_is_first, string_of_range, views,
};
use crate::user::{user_name_error, valid_user_name, InvalidUser, User};

verus! {

/// Why a text is not accepted as an id.
#[derive(Debug, Clone, Copy, PartialEq, Eq, Structural)]
pub enum InvalidId {
    TooShort,
    TooLong,
    Invalid,
}

impl InvalidId {
    /// The message shown for this error.
    pub open spec fn message_text(self) -> Seq<char> {
        match self {
            InvalidId::TooShort => "Id too short"@,
            InvalidId::TooLong => "Id too long"@,
            InvalidId::Invalid => "Invalid Id, allowed characters: [0-9a-zA-Z_-]"@,
        }
    }

    pub fn message(&self) -> (out: &'static str)
        ensures
            out@ == self.message_text(),
    {
        match self {
            InvalidId::TooShort => "Id too short",
            InvalidId::TooLong => "Id too long",
            InvalidId::Invalid => "Invalid Id, allowed characters: [0-9a-zA-Z_-]",
        }
    }
}

pub const MIN_ID_LEN: usize = 5;

pub const MAX_ID_LEN: usize = 90;

/// The alphabet of ids: `[0-9a-zA-Z_-]`.
pub open spec fn is_id_char(c: char) -> bool {
    ||| '0' <= c <= '9'
    ||| 'a' <= c <= 'z'
    ||| 'A' <= c <= 'Z'
    ||| c == '_'
    ||| c == '-'
}

/// A text that is accepted as an id: 5 to 90 characters, all of the
/// alphabet.
pub open spec fn valid_id(s: Seq<char>) -> bool {
    &&& MIN_ID_LEN <= s.len() <= MAX_ID_LEN
    &&& forall|i: int| 0 <= i < s.len() ==> is_id_char(#[trigger] s[i])
}

/// The verdict on a candidate id. The length is that of the UTF-8 encoding
/// and is judged first; the alphabet is judged only for a text of
/// acceptable length.
pub open spec fn id_error(s: Seq<char>) -> Option<InvalidId> {
    let n = encode_utf8(s).len();
    if n < MIN_ID_LEN {
        Some(InvalidId::TooShort)
    } else if n > MAX_ID_LEN {
        Some(InvalidId::TooLong)
    } else if !(forall|i: int| 0 <= i < s.len() ==> is_id_char(#[trigger] s[i])) {
        Some(InvalidId::Invalid)
    } else {
        None
    }
}

/// A text is accepted by `id_error` exactly when it is a valid id.
pub proof fn lemma_id_accepted(s: Seq<char>)
    ensures
        id_error(s) is None <==> valid_id(s),
{
    if forall|i: int| 0 <= i < s.len() ==> is_id_char(#[trigger] s[i]) {
        assert(is_ascii_chars(s));
        is_ascii_chars_encode_utf8(s);
    }
}

fn is_id_char_exec(c: char) -> (out: bool)
    ensures
        out == is_id_char(c),
{
    ('0' <= c && c <= '9') || ('a' <= c && c <= 'z') || ('A' <= c && c <= 'Z') || c == '_' || c
        == '-'
}

/// The id of a paste: a short token over `[0-9a-zA-Z_-]`. Every value of
/// this type holds a valid id.
#[derive(Debug, PartialOrd, Ord)]
pub struct Id(String);

impl View for Id {
    type V = Seq<char>;

    closed spec fn view(&self) -> Seq<char> {
        self.0@
    }
}

impl Id {
    /// What holds of every id: its text is a valid id.
    #[verifier::type_invariant]
    pub open spec fn wf(&self) -> bool {
        valid_id(self@)
    }

    pub fn as_str(&self) -> (out: &str)
        ensures
            out@ == self@,
            valid_id(self@),
            self.wf(),
    {
        proof {
            use_type_invariant(self);
        }
        self.0.as_str()
    }

    /// The id as an owned string.
    pub fn into_string(self) -> (out: String)
        ensures
            out@ == self@,
            valid_id(self@),
    {
        proof {
            use_type_invariant(&self);
        }
        self.0
    }

    /// Accepts `id` exactly when `id_error` finds no fault, and names the
    /// fault otherwise.
    pub fn try_from(id: String) -> (out: Result<Self, InvalidId>)
        ensures
            match out {
                Ok(v) => id_error(id@) is None && v@ == id@ && v.wf(),
                Err(e) => id_error(id@) == Some(e),
            },
    {
        let n = id.as_str().as_bytes().len();
        if n < MIN_ID_LEN {
            return Err(InvalidId::TooShort);
        }
        if n > MAX_ID_LEN {
            return Err(InvalidId::TooLong);
        }
        for c in it: id.as_str().chars()
            invariant
                it.seq() == id@,
                MIN_ID_LEN <= encode_utf8(id@).len() <= MAX_ID_LEN,
                forall|i: int| 0 <= i < it.index() ==> is_id_char(#[trigger] id@[i]),
        {
            if !is_id_char_exec(c) {
                assert(!is_id_char(id@[it.index() as int]));
                return Err(InvalidId::Invalid);
            }
        }
        proof {
            lemma_id_accepted(id@);
        }
        Ok(Id(id))
    }

    /// As `try_from`, for a borrowed text.
    pub fn from_str(id: &str) -> (out: Result<Self, InvalidId>)
        ensures
            match out {
                Ok(v) => id_error(id@) is None && v@ == id@ && v.wf(),
                Err(e) => id_error(id@) == Some(e),
            },
    {
        Self::try_from(id.to_owned())
    }
}

impl Clone for Id {
    fn clone(&self) -> (out: Self)
        ensures
            out@ == self@,
            out.wf(),
    {
        proof {
            use_type_invariant(self);
        }
        Id(self.0.clone())
    }
}

impl PartialEq for Id {
    fn eq(&self, other: &Self) -> (out: bool) {
        self.0 == other.0
    }
}

impl Eq for Id {}

impl vstd::std_specs::cmp::PartialEqSpecImpl for Id {
    open spec fn obeys_eq_spec() -> bool {
        true
    }

    open spec fn eq_spec(&self, other: &Self) -> bool {
        self@ == other@
    }
}

/// The listing page of a user: `/u/<user>`.
pub open spec fn user_url(user: Seq<char>) -> Seq<char> {
    "/u/"@ + user
}

/// The listing of a user's pastes as data: `/api/internal/user/<user>`.
pub open spec fn user_api_url(user: Seq<char>) -> Seq<char> {
    "/api/internal/user/"@ + user
}

/// The page of a user's paste: `/u/<user>/<id>`.
pub open spec fn user_paste_url(user: Seq<char>, id: Seq<char>) -> Seq<char> {
    "/u/"@ + user + "/"@ + id
}

/// `/u/<user>/<id>/edit`.
pub open spec fn user_paste_edit_url(user: Seq<char>, id: Seq<char>) -> Seq<char> {
    "/u/"@ + user + "/"@ + id + "/edit"@
}

/// `/u/<user>/<id>/raw`.
pub open spec fn user_raw_url(user: Seq<char>, id: Seq<char>) -> Seq<char> {
    "/u/"@ + user + "/"@ + id + "/raw"@
}

/// `/u/<user>/<id>/json`.
pub open spec fn user_json_url(user: Seq<char>, id: Seq<char>) -> Seq<char> {
    "/u/"@ + user + "/"@ + id + "/json"@
}

/// The short load form: `/pob/<user>:<id>`.
pub open spec fn user_pob_load_url(user: Seq<char>, id: Seq<char>) -> Seq<char> {
    "/pob/"@ + user + ":"@ + id
}

/// The long load form: `/pob/u/<user>/<id>`.
pub open spec fn user_pob_long_load_url(user: Seq<char>, id: Seq<char>) -> Seq<char> {
    "/pob/u/"@ + user + "/"@ + id
}

/// `pob://pobbin/<user>:<id>`.
pub open spec fn user_pob_open_url(user: Seq<char>, id: Seq<char>) -> Seq<char> {
    "pob://pobbin/"@ + user + ":"@ + id
}

/// The page of an unscoped paste: `/<id>`.
pub open spec fn paste_url(id: Seq<char>) -> Seq<char> {
    "/"@ + id
}

/// `/<id>/raw`.
pub open spec fn paste_raw_url(id: Seq<char>) -> Seq<char> {
    "/"@ + id + "/raw"@
}

/// `/<id>/json`.
pub open spec fn paste_json_url(id: Seq<char>) -> Seq<char> {
    "/"@ + id + "/json"@
}

/// `/pob/<id>`.
pub open spec fn paste_pob_load_url(id: Seq<char>) -> Seq<char> {
    "/pob/"@ + id
}

/// `pob://pobbin/<id>`.
pub open spec fn paste_pob_open_url(id: Seq<char>) -> Seq<char> {
    "pob://pobbin/"@ + id
}

/// The id of a paste that belongs to a user.
#[derive(Debug)]
pub struct UserPasteId {
    pub user: User,
    pub id: Id,
}

impl UserPasteId {
    pub fn to_user_url(&self) -> (out: String)
        ensures
            out@ == user_url(self.user@),
    {
        let mut out = "/u/".to_owned();
        out.append(self.user.as_str());
        out
    }

    pub fn to_user_api_url(&self) -> (out: String)
        ensures
            out@ == user_api_url(self.user@),
    {
        let mut out = "/api/internal/user/".to_owned();
        out.append(self.user.as_str());
        out
    }

    pub fn to_paste_url(&self) -> (out: String)
        ensures
            out@ == user_paste_url(self.user@, self.id@),
    {
        let mut out = "/u/".to_owned();
        out.append(self.user.as_str());
        out.append("/");
        out.append(self.id.as_str());
        out
    }

    pub fn to_paste_edit_url(&self) -> (out: String)
        ensures
            out@ == user_paste_edit_url(self.user@, self.id@),
    {
        let mut out = self.to_paste_url();
        out.append("/edit");
        out
    }

    pub fn to_raw_url(&self) -> (out: String)
        ensures
            out@ == user_raw_url(self.user@, self.id@),
    {
        let mut out = self.to_paste_url();
        out.append("/raw");
        out
    }

    pub fn to_json_url(&self) -> (out: String)
        ensures
            out@ == user_json_url(self.user@, self.id@),
    {
        let mut out = self.to_paste_url();
        out.append("/json");
        out
    }

    pub fn to_pob_load_url(&self) -> (out: String)
        ensures
            out@ == user_pob_load_url(self.user@, self.id@),
    {
        let mut out = "/pob/".to_owned();
        out.append(self.user.as_str());
        out.append(":");
        out.append(self.id.as_str());
        out
    }

    pub fn to_pob_long_load_url(&self) -> (out: String)
        ensures
            out@ == user_pob_long_load_url(self.user@, self.id@),
    {
        let mut out = "/pob/u/".to_owned();
        out.append(self.user.as_str());
        out.append("/");
        out.append(self.id.as_str());
        out
    }

    pub fn to_pob_open_url(&self) -> (out: String)
        ensures
            out@ == user_pob_open_url(self.user@, self.id@),
    {
        let mut out = "pob://pobbin/".to_owned();
        out.append(self.user.as_str());
        out.append(":");
        out.append(self.id.as_str());
        out
    }

    /// The textual form, `<user>:<id>`.
    pub fn to_string(&self) -> (out: String)
        ensures
            out@ == self.user@ + ":"@ + self.id@,
    {
        let mut out = self.user.as_str().to_owned();
        out.append(":");
        out.append(self.id.as_str());
        out
    }
}

impl Clone for UserPasteId {
    fn clone(&self) -> (out: Self)
        ensures
            out.user@ == self.user@,
            out.id@ == self.id@,
    {
        UserPasteId { user: self.user.clone(), id: self.id.clone() }
    }
}

impl PartialEq for UserPasteId {
    fn eq(&self, other: &Self) -> (out: bool) {
        self.user == other.user && self.id == other.id
    }
}

impl Eq for UserPasteId {}

impl vstd::std_specs::cmp::PartialEqSpecImpl for UserPasteId {
    open spec fn obeys_eq_spec() -> bool {
        true
    }

    open spec fn eq_spec(&self, other: &Self) -> bool {
        self.user@ == other.user@ && self.id@ == other.id@
    }
}

/// What a paste id holds: the owning user's name, if it has one, and the id.
pub struct PasteIdView {
    pub user: Option<Seq<char>>,
    pub id: Seq<char>,
}

impl PasteIdView {
    /// Both parts are valid.
    pub open spec fn wf(self) -> bool {
        &&& valid_id(self.id)
        &&& self.user is Some ==> valid_user_name(self.user->0)
    }

    /// The textual form: `<id>`, or `<user>:<id>`.
    pub open spec fn text(self) -> Seq<char> {
        match self.user {
            None => self.id,
            Some(user) => user + ":"@ + self.id,
        }
    }

    pub open spec fn url(self) -> Seq<char> {
        match self.user {
            None => paste_url(self.id),
            Some(user) => user_paste_url(user, self.id),
        }
    }

    pub open spec fn raw_url(self) -> Seq<char> {
        match self.user {
            None => paste_raw_url(self.id),
            Some(user) => user_raw_url(user, self.id),
        }
    }

    pub open spec fn json_url(self) -> Seq<char> {
        match self.user {
            None => paste_json_url(self.id),
            Some(user) => user_json_url(user, self.id),
        }
    }

    pub open spec fn pob_load_url(self) -> Seq<char> {
        match self.user {
            None => paste_pob_load_url(self.id),
            Some(user) => user_pob_load_url(user, self.id),
        }
    }

    pub open spec fn pob_open_url(self) -> Seq<char> {
        match self.user {
            None => paste_pob_open_url(self.id),
            Some(user) => user_pob_open_url(user, self.id),
        }
    }

    /// Every URL the paste is reachable under. Five forms exist for every
    /// paste; a user's paste has four more.
    pub open spec fn url_variants(self) -> Seq<Seq<char>> {
        let shared = seq![
            self.url(),
            self.raw_url(),
            self.json_url(),
            self.pob_load_url(),
            self.pob_open_url(),
        ];
        match self.user {
            None => shared,
            Some(user) => shared + seq![
                user_pob_long_load_url(user, self.id),
                user_paste_edit_url(user, self.id),
                user_url(user),
                user_api_url(user),
            ],
        }
    }
}

/// The id of a paste: unscoped, or scoped to a user.
#[derive(Debug)]
pub enum PasteId {
    Paste(Id),
    UserPaste(UserPasteId),
}

impl View for PasteId {
    type V = PasteIdView;

    open spec fn view(&self) -> PasteIdView {
        match self {
            PasteId::Paste(id) => PasteIdView { user: None, id: id@ },
            PasteId::UserPaste(up) => PasteIdView { user: Some(up.user@), id: up.id@ },
        }
    }
}

impl PasteId {
    pub fn id(&self) -> (out: &str)
        ensures
            out@ == self@.id,
            valid_id(out@),
    {
        match self {
            PasteId::Paste(id) => id.as_str(),
            PasteId::UserPaste(up) => up.id.as_str(),
        }
    }

    pub fn user(&self) -> (out: Option<&User>)
        ensures
            match out {
                Some(user) => self@.user == Some(user@),
                None => self@.user is None,
            },
    {
        match self {
            PasteId::Paste(_) => None,
            PasteId::UserPaste(up) => Some(&up.user),
        }
    }

    pub fn to_url(&self) -> (out: String)
        ensures
            out@ == self@.url(),
    {
        match self {
            PasteId::Paste(id) => {
                let mut out = "/".to_owned();
                out.append(id.as_str());
                out
            },
            PasteId::UserPaste(up) => up.to_paste_url(),
        }
    }

    pub fn to_raw_url(&self) -> (out: String)
        ensures
            out@ == self@.raw_url(),
    {
        match self {
            PasteId::Paste(id) => {
                let mut out = "/".to_owned();
                out.append(id.as_str());
                out.append("/raw");
                out
            },
            PasteId::UserPaste(up) => up.to_raw_url(),
        }
    }

    pub fn to_json_url(&self) -> (out: String)
        ensures
            out@ == self@.json_url(),
    {
        match self {
            PasteId::Paste(id) => {
                let mut out = "/".to_owned();
                out.append(id.as_str());
                out.append("/json");
                out
            },
            PasteId::UserPaste(up) => up.to_json_url(),
        }
    }

    pub fn to_pob_load_url(&self) -> (out: String)
        ensures
            out@ == self@.pob_load_url(),
    {
        match self {
            PasteId::Paste(id) => {
                let mut out = "/pob/".to_owned();
                out.append(id.as_str());
                out
            },
            PasteId::UserPaste(up) => up.to_pob_load_url(),
        }
    }

    pub fn to_pob_open_url(&self) -> (out: String)
        ensures
            out@ == self@.pob_open_url(),
    {
        match self {
            PasteId::Paste(id) => {
                let mut out = "pob://pobbin/".to_owned();
                out.append(id.as_str());
                out
            },
            PasteId::UserPaste(up) => up.to_pob_open_url(),
        }
    }

    /// Every URL under which the paste is served, in the order of
    /// `PasteIdView::url_variants`. Whoever purges cached responses of a
    /// paste goes by this list.
    pub fn url_variants(&self) -> (out: Vec<String>)
        ensures
            views(out@) == self@.url_variants(),
    {
        let mut out: Vec<String> = Vec::new();
        out.push(self.to_url());
        out.push(self.to_raw_url());
        out.push(self.to_json_url());
        out.push(self.to_pob_load_url());
        out.push(self.to_pob_open_url());
        if let PasteId::UserPaste(up) = self {
            out.push(up.to_pob_long_load_url());
            out.push(up.to_paste_edit_url());
            out.push(up.to_user_url());
            out.push(up.to_user_api_url());
        }
        assert(views(out@) =~= self@.url_variants());
        out
    }

    /// The id of an unscoped paste.
    pub fn unwrap_paste(self) -> (out: Id)
        requires
            self is Paste,
        ensures
            out@ == self@.id,
            PasteId::Paste(out) == self,
    {
        match self {
            PasteId::Paste(id) => id,
            PasteId::UserPaste(_) => vstd::pervasive::unreached(),
        }
    }

    /// The id of a user's paste.
    pub fn unwrap_user(self) -> (out: UserPasteId)
        requires
            self is UserPaste,
        ensures
            PasteId::UserPaste(out) == self,
    {
        match self {
            PasteId::UserPaste(up) => up,
            PasteId::Paste(_) => vstd::pervasive::unreached(),
        }
    }

    /// The textual form: `<id>`, or `<user>:<id>`.
    pub fn to_string(&self) -> (out: String)
        ensures
            out@ == self@.text(),
    {
        match self {
            PasteId::Paste(id) => id.as_str().to_owned(),
            PasteId::UserPaste(up) => up.to_string(),
        }
    }

    /// As `to_string`, giving the id up.
    pub fn into_string(self) -> (out: String)
        ensures
            out@ == self@.text(),
    {
        self.to_string()
    }

    /// Reads the textual form back: see `parse_result`. What is read is
    /// well formed, and its textual form is `s` again.
    pub fn from_str(s: &str) -> (out: Result<Self, InvalidPasteId>)
        ensures
            match out {
                Ok(p) => {
                    &&& parse_result(s@) == Ok::<PasteIdView, InvalidPasteId>(p@)
                    &&& p@.wf()
                    &&& p@.text() == s@
                },
                Err(e) => parse_result(s@) == Err::<PasteIdView, InvalidPasteId>(e),
            },
    {
        proof {
            if parse_result(s@) is Ok {
                lemma_parse_round_trip(s@);
            }
        }
        let chars = chars_of(s);
        let i = find_char(&chars, 0, chars.len(), ':');
        assert(s@.subrange(0, chars.len() as int) == s@);
        if i < chars.len() {
            let user_text = string_of_range(&chars, 0, i);
            let id_text = string_of_range(&chars, i + 1, chars.len());
            let user = match User::from_str(user_text.as_str()) {
                Ok(user) => user,
                Err(e) => {
                    return Err(InvalidPasteId::InvalidUser(e));
                },
            };
            let id = match Id::try_from(id_text) {
                Ok(id) => id,
                Err(e) => {
                    return Err(InvalidPasteId::InvalidId(e));
                },
            };
            proof {
                lemma_id_accepted(id@);
            }
            Ok(PasteId::UserPaste(UserPasteId { user, id }))
        } else {
            match Id::from_str(s) {
                Ok(id) => {
                    proof {
                        lemma_id_accepted(id@);
                    }
                    Ok(PasteId::Paste(id))
                },
                Err(e) => Err(InvalidPasteId::InvalidId(e)),
            }
        }
    }
}

impl From<Id> for PasteId {
    fn from(id: Id) -> (out: Self) {
        PasteId::Paste(id)
    }
}

impl vstd::std_specs::convert::FromSpecImpl<Id> for PasteId {
    open spec fn obeys_from_spec() -> bool {
        true
    }

    open spec fn from_spec(id: Id) -> Self {
        PasteId::Paste(id)
    }
}

impl From<UserPasteId> for PasteId {
    fn from(id: UserPasteId) -> (out: Self) {
        PasteId::UserPaste(id)
    }
}

impl vstd::std_specs::convert::FromSpecImpl<UserPasteId> for PasteId {
    open spec fn obeys_from_spec() -> bool {
        true
    }

    open spec fn from_spec(id: UserPasteId) -> Self {
        PasteId::UserPaste(id)
    }
}

impl Clone for PasteId {
    fn clone(&self) -> (out: Self)
        ensures
            out@ == self@,
    {
        match self {
            PasteId::Paste(id) => PasteId::Paste(id.clone()),
            PasteId::UserPaste(up) => PasteId::UserPaste(up.clone()),
        }
    }
}

impl PartialEq for PasteId {
    fn eq(&self, other: &Self) -> (out: bool) {
        match (self, other) {
            (PasteId::Paste(a), PasteId::Paste(b)) => a == b,
            (PasteId::UserPaste(a), PasteId::UserPaste(b)) => a == b,
            _ => false,
        }
    }
}

impl Eq for PasteId {}

impl vstd::std_specs::cmp::PartialEqSpecImpl for PasteId {
    open spec fn obeys_eq_spec() -> bool {
        true
    }

    open spec fn eq_spec(&self, other: &Self) -> bool {
        self@ == other@
    }
}

/// Why a text is not accepted as a paste id.
#[derive(Debug, Clone, Copy, PartialEq, Eq, Structural)]
pub enum InvalidPasteId {
    InvalidId(InvalidId),
    InvalidUser(InvalidUser),
}

impl InvalidPasteId {
    /// The message of the error inside.
    pub fn message(&self) -> (out: &'static str)
        ensures
            out@ == match *self {
                InvalidPasteId::InvalidId(e) => e.message_text(),
                InvalidPasteId::InvalidUser(e) => e.message_text(),
            },
    {
        match self {
            InvalidPasteId::InvalidId(e) => e.message(),
            InvalidPasteId::InvalidUser(e) => e.message(),
        }
    }
}

/// What reading a text as a paste id gives. A text with a `:` is split at
/// the first one into a user name and an id, and the user name is judged
/// first; a text without is an id.
pub open spec fn parse_result(s: Seq<char>) -> Result<PasteIdView, InvalidPasteId> {
    let colon = index_of(s, ':');
    if 0 <= colon < s.len() {
        let user = s.take(colon);
        let id = s.skip(colon + 1);
        match user_name_error(user) {
            Some(e) => Err(InvalidPasteId::InvalidUser(e)),
            None => match id_error(id) {
                Some(e) => Err(InvalidPasteId::InvalidId(e)),
                None => Ok(PasteIdView { user: Some(user), id }),
            },
        }
    } else {
        match id_error(s) {
            Some(e) => Err(InvalidPasteId::InvalidId(e)),
            None => Ok(PasteIdView { user: None, id: s }),
        }
    }
}

/// A text of 5 to 90 characters of the id alphabet reads as the unscoped
/// paste id that holds it.
pub proof fn lemma_parse_accepts_valid_id(s: Seq<char>)
    requires
        valid_id(s),
    ensures
        parse_result(s) == Ok::<PasteIdView, InvalidPasteId>(PasteIdView { user: None, id: s }),
{
    assert forall|k: int| 0 <= k < s.len() implies s[k] != ':' by {
        assert(is_id_char(s[k]));
    }
    lemma_index_of(s, ':', s.len() as int);
    lemma_id_accepted(s);
}

/// A text without `:` that is not a valid id, by its length or by one of
/// its characters, is refused as an invalid id.
pub proof fn lemma_parse_rejects_invalid_id(s: Seq<char>)
    requires
        !valid_id(s),
        !s.contains(':'),
    ensures
        parse_result(s) is Err,
        parse_result(s)->Err_0 is InvalidId,
{
    lemma_index_of_is_first(s, ':');
    lemma_id_accepted(s);
}

/// Whatever text reads as a paste id is the textual form of that id, and
/// the id is well formed.
pub proof fn lemma_parse_round_trip(s: Seq<char>)
    requires
        parse_result(s) is Ok,
    ensures
        parse_result(s)->Ok_0.text() == s,
        parse_result(s)->Ok_0.wf(),
{
    reveal_strlit(":");
    let v = parse_result(s)->Ok_0;
    lemma_id_accepted(v.id);
    lemma_index_of_is_first(s, ':');
    let colon = index_of(s, ':');
    if colon < s.len() {
        assert(s.take(colon) + ":"@ + s.skip(colon + 1) =~= s);
    }
}

/// The textual form of a well-formed paste id reads back as that id.
pub proof fn lemma_text_round_trip(v: PasteIdView)
    requires
        v.wf(),
    ensures
        parse_result(v.text()) == Ok::<PasteIdView, InvalidPasteId>(v),
{
    reveal_strlit(":");
    lemma_id_accepted(v.id);
    match v.user {
        None => {
            lemma_parse_accepts_valid_id(v.id);
        },
        Some(user) => {
            let s = v.text();
            let i = user.len() as int;
            assert(s[i] == ':');
            assert forall|j: int| 0 <= j < i implies s[j] != ':' by {
                assert(s[j] == user[j]);
                assert(!crate::user::is_user_separator(user[j]));
            }
            lemma_index_of(s, ':', i);
            assert(s.take(i) =~= user);
            assert(s.skip(i + 1) =~= v.id);
        },
    }
}

/// The URL set of a paste is never empty and holds each of its five
/// general forms; that of a user's paste also holds the long load form,
/// the edit page and the two listings of the user.
pub proof fn lemma_url_variants_complete(v: PasteIdView)
    ensures
        v.url_variants().len() >= 5,
        v.url_variants().contains(v.url()),
        v.url_variants().contains(v.raw_url()),
        v.url_variants().contains(v.json_url()),
        v.url_variants().contains(v.pob_load_url()),
        v.url_variants().contains(v.pob_open_url()),
        v.user is Some ==> {
            &&& v.url_variants().len() == 9
            &&& v.url_variants().contains(user_pob_long_load_url(v.user->0, v.id))
            &&& v.url_variants().contains(user_paste_edit_url(v.user->0, v.id))
            &&& v.url_variants().contains(user_url(v.user->0))
            &&& v.url_variants().contains(user_api_url(v.user->0))
        },
{
    let all = v.url_variants();
    assert(all[0] == v.url());
    assert(all[1] == v.raw_url());
    assert(all[2] == v.json_url());
    assert(all[3] == v.pob_load_url());
    assert(all[4] == v.pob_open_url());
    if v.user is Some {
        let user = v.user->0;
        assert(all[5] == user_pob_long_load_url(user, v.id));
        assert(all[6] == user_paste_edit_url(user, v.id));
        assert(all[7] == user_url(user));
        assert(all[8] == user_api_url(user));
    }
}

/// An unscoped paste id and a user's paste id are never the same id.
pub proof fn lemma_variants_disjoint(a: PasteId, b: PasteId)
    requires
        a is Paste,
        b is UserPaste,
    ensures
        a@ != b@,
{
}

} // verus!
