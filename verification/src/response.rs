//! A response in the making: status, headers, body and what is known about
//! the paste it shows.

use std::time::Duration;
use vstd::prelude::*;
use crate::headers::{
    header_append, header_get, header_has, header_set, header_without, lemma_get_after_set,
    valid_header_name, valid_header_value, HeaderList, Headers,
};
use crate::id::{PasteId, PasteIdView};
use crate::model::{Paste, PasteMetadata};
use crate::storage::StoredPaste;
use crate::text::{ascii_lower, str_eq};
use crate::user::User;
use crate::utils::{CacheControl, Cachability, Error, Etag};

verus! {

/// An error on the way to a response, by the part of the service it came
/// from.
#[derive(Debug)]
pub enum ResponseError {
    ApiError(Error),
    AppError(Error),
}

impl ResponseError {
    pub fn inner(&self) -> (out: &Error)
        ensures
            *out == match *self {
                ResponseError::ApiError(e) => e,
                ResponseError::AppError(e) => e,
            },
    {
        match self {
            ResponseError::ApiError(err) => err,
            ResponseError::AppError(err) => err,
        }
    }
}

/// The text of a string that may be absent.
pub open spec fn opt_text(o: Option<String>) -> Option<Seq<char>> {
    match o {
        Some(s) => Some(s@),
        None => None,
    }
}

fn clone_opt(o: &Option<String>) -> (out: Option<String>)
    ensures
        opt_text(out) == opt_text(*o),
{
    match o {
        Some(s) => Some(s.clone()),
        None => None,
    }
}

/// What is known about the resource of a response, kept beside it so that a
/// listing needs not read the body.
#[derive(Debug)]
pub struct Meta {
    /// The user the resource is scoped to.
    pub user_id: Option<User>,
    /// The textual form of the paste's id, such as `abc` or `user:abc`.
    pub paste_id: Option<String>,
    pub ascendancy_or_class: Option<String>,
    pub main_skill_name: Option<String>,
    pub version: Option<String>,
    pub last_modified: Option<u64>,
}

/// The fields of a `Meta` as texts.
pub struct MetaView {
    pub user_id: Option<Seq<char>>,
    pub paste_id: Option<Seq<char>>,
    pub ascendancy_or_class: Option<Seq<char>>,
    pub main_skill_name: Option<Seq<char>>,
    pub version: Option<Seq<char>>,
    pub last_modified: Option<u64>,
}

impl MetaView {
    /// Nothing known.
    pub open spec fn empty() -> MetaView {
        MetaView {
            user_id: None,
            paste_id: None,
            ascendancy_or_class: None,
            main_skill_name: None,
            version: None,
            last_modified: None,
        }
    }

    /// What a paste's metadata, written at `last_modified`, adds.
    pub open spec fn with_metadata(self, metadata: PasteMetadata, last_modified: u64) -> MetaView {
        MetaView {
            ascendancy_or_class: Some(metadata.ascendancy_or_class@),
            main_skill_name: opt_text(metadata.main_skill_name),
            version: opt_text(metadata.version),
            last_modified: Some(last_modified),
            ..self
        }
    }

    /// What a record adds: nothing where it has no metadata.
    pub open spec fn with_record(
        self,
        metadata: Option<PasteMetadata>,
        last_modified: u64,
    ) -> MetaView {
        match metadata {
            Some(m) => self.with_metadata(m, last_modified),
            None => self,
        }
    }

    /// What is known of a paste by its id alone.
    pub open spec fn of_paste(id: PasteIdView) -> MetaView {
        MetaView { user_id: id.user, paste_id: Some(id.text()), ..MetaView::empty() }
    }
}

impl View for Meta {
    type V = MetaView;

    open spec fn view(&self) -> MetaView {
        MetaView {
            user_id: match self.user_id {
                Some(u) => Some(u@),
                None => None,
            },
            paste_id: opt_text(self.paste_id),
            ascendancy_or_class: opt_text(self.ascendancy_or_class),
            main_skill_name: opt_text(self.main_skill_name),
            version: opt_text(self.version),
            last_modified: self.last_modified,
        }
    }
}

impl Default for Meta {
    fn default() -> (out: Self)
        ensures
            out@ == MetaView::empty(),
    {
        Meta {
            user_id: None,
            paste_id: None,
            ascendancy_or_class: None,
            main_skill_name: None,
            version: None,
            last_modified: None,
        }
    }
}

impl Clone for Meta {
    fn clone(&self) -> (out: Self)
        ensures
            out@ == self@,
    {
        Meta {
            user_id: match &self.user_id {
                Some(u) => Some(u.clone()),
                None => None,
            },
            paste_id: clone_opt(&self.paste_id),
            ascendancy_or_class: clone_opt(&self.ascendancy_or_class),
            main_skill_name: clone_opt(&self.main_skill_name),
            version: clone_opt(&self.version),
            last_modified: self.last_modified,
        }
    }
}

/// A source of what is known about a paste.
pub trait PartialMeta {
    /// What `meta` becomes once this source is merged into it.
    spec fn merged(&self, meta: MetaView) -> MetaView;

    fn merge_with(&self, meta: &mut Meta)
        ensures
            final(meta)@ == self.merged(old(meta)@),
    ;
}

fn merge_metadata(meta: &mut Meta, metadata: &PasteMetadata, last_modified: u64)
    ensures
        final(meta)@ == old(meta)@.with_metadata(*metadata, last_modified),
{
    meta.ascendancy_or_class = Some(metadata.ascendancy_or_class.clone());
    meta.main_skill_name = clone_opt(&metadata.main_skill_name);
    meta.version = clone_opt(&metadata.version);
    meta.last_modified = Some(last_modified);
}

impl PartialMeta for StoredPaste {
    open spec fn merged(&self, meta: MetaView) -> MetaView {
        meta.with_record(self.metadata, self.last_modified)
    }

    fn merge_with(&self, meta: &mut Meta) {
        match &self.metadata {
            Some(this) => merge_metadata(meta, this, self.last_modified),
            None => {},
        }
    }
}

impl PartialMeta for Paste {
    open spec fn merged(&self, meta: MetaView) -> MetaView {
        meta.with_record(self.metadata, self.last_modified)
    }

    fn merge_with(&self, meta: &mut Meta) {
        match &self.metadata {
            Some(this) => merge_metadata(meta, this, self.last_modified),
            None => {},
        }
    }
}

/// The metadata of a paste that is being written at the time `now`.
pub struct FreshMetadata {
    pub metadata: PasteMetadata,
    pub now: u64,
}

impl PartialMeta for FreshMetadata {
    open spec fn merged(&self, meta: MetaView) -> MetaView {
        meta.with_metadata(self.metadata, self.now)
    }

    fn merge_with(&self, meta: &mut Meta) {
        merge_metadata(meta, &self.metadata, self.now)
    }
}

impl Meta {
    /// What is known of the paste `id`, with what `pmeta` adds.
    pub fn paste<P: PartialMeta>(id: PasteId, pmeta: &P) -> (out: Self)
        ensures
            out@ == pmeta.merged(MetaView::of_paste(id@)),
    {
        let paste_id = id.to_string();
        let user_id = match id {
            PasteId::Paste(_) => None,
            PasteId::UserPaste(up) => Some(up.user),
        };
        let mut meta = Meta {
            user_id,
            paste_id: Some(paste_id),
            ascendancy_or_class: None,
            main_skill_name: None,
            version: None,
            last_modified: None,
        };
        pmeta.merge_with(&mut meta);
        meta
    }

    /// What is known of the listing of a user's pastes.
    pub fn list(id: User) -> (out: Self)
        ensures
            out@ == (MetaView { user_id: Some(id@), ..MetaView::empty() }),
    {
        Meta {
            user_id: Some(id),
            paste_id: None,
            ascendancy_or_class: None,
            main_skill_name: None,
            version: None,
            last_modified: None,
        }
    }
}

/// The body of a response. A stream is the body of a response that came out
/// of a cache; it can be read once.
#[derive(Debug)]
pub enum ResponseBody {
    Empty,
    Body(Vec<u8>),
    Stream { used: bool },
}

/// A body with its bytes as a sequence.
pub enum BodyView {
    Empty,
    Body(Seq<u8>),
    Stream { used: bool },
}

impl View for ResponseBody {
    type V = BodyView;

    open spec fn view(&self) -> BodyView {
        match self {
            ResponseBody::Empty => BodyView::Empty,
            ResponseBody::Body(v) => BodyView::Body(v@),
            ResponseBody::Stream { used } => BodyView::Stream { used: *used },
        }
    }
}

/// A copy of a body. A stream that was read cannot be copied.
pub fn clone_body(rb: &ResponseBody) -> (out: ResponseBody)
    requires
        rb@ != (BodyView::Stream { used: true }),
    ensures
        out@ == rb@,
{
    match rb {
        ResponseBody::Empty => ResponseBody::Empty,
        ResponseBody::Body(v) => {
            let mut copy: Vec<u8> = Vec::new();
            let mut i: usize = 0;
            while i < v.len()
                invariant
                    i <= v.len(),
                    copy@ == v@.take(i as int),
                decreases v.len() - i,
            {
                copy.push(v[i]);
                assert(copy@ =~= v@.take(i as int + 1));
                i += 1;
            }
            assert(v@.take(v.len() as int) == v@);
            ResponseBody::Body(copy)
        },
        ResponseBody::Stream { used } => ResponseBody::Stream { used: *used },
    }
}

/// The headers once `name` is given the value `value`: an empty value, and
/// a name or value that no header can have, leave them as they are.
pub open spec fn with_header(h: HeaderList, name: Seq<char>, value: Seq<char>) -> HeaderList {
    if value.len() > 0 && valid_header_name(name) && valid_header_value(value) {
        header_set(h, ascii_lower(name), value)
    } else {
        h
    }
}

/// The headers once `name` has one more value, under the same conditions.
pub open spec fn with_appended_header(
    h: HeaderList,
    name: Seq<char>,
    value: Seq<char>,
) -> HeaderList {
    if value.len() > 0 && valid_header_name(name) && valid_header_value(value) {
        header_append(h, ascii_lower(name), value)
    } else {
        h
    }
}

/// The cookie that carries the state of a login under way.
pub open spec fn state_cookie_text(state: Seq<char>) -> Seq<char> {
    "state="@ + state + "; Max-Age=600; Secure; Same-Site=Lax; Path=/"@
}

/// The cookie that carries a session.
pub open spec fn session_cookie_text(session: Seq<char>) -> Seq<char> {
    "session="@ + session + "; Max-Age=1209600; Secure; SameSite=Lax; Path=/"@
}

/// A response as values.
pub struct ResponseView {
    pub status_code: u16,
    pub headers: HeaderList,
    pub body: BodyView,
    pub meta: Option<MetaView>,
}

impl ResponseView {
    /// What a reader gets for the header `name`.
    pub open spec fn header(self, name: Seq<char>) -> Option<Seq<char>> {
        header_get(self.headers, ascii_lower(name))
    }

    /// Whether the header `name` is there.
    pub open spec fn has_header(self, name: Seq<char>) -> bool {
        header_has(self.headers, ascii_lower(name))
    }

    /// Whether a cache may keep the response: never with status 206 or with
    /// `Vary: *`, and otherwise exactly when one of the four headers that
    /// bound its life is there.
    pub open spec fn cacheable(self) -> bool {
        &&& self.status_code != 206
        &&& self.header("Vary"@) != Some("*"@)
        &&& (self.has_header("Cache-Control"@) || self.has_header("ETag"@) || self.has_header(
            "Expires"@,
        ) || self.has_header("Last-Modified"@))
    }

    /// Whether the response is marked as one that a cache answered.
    pub open spec fn served_from_cache(self) -> bool {
        self.header("Cf-Cache-Status"@) == Some("HIT"@)
    }

    /// The response with one header set.
    pub open spec fn set_header(self, name: Seq<char>, value: Seq<char>) -> ResponseView {
        ResponseView { headers: with_header(self.headers, name, value), ..self }
    }

    /// The response with one header value added.
    pub open spec fn add_header(self, name: Seq<char>, value: Seq<char>) -> ResponseView {
        ResponseView { headers: with_appended_header(self.headers, name, value), ..self }
    }

    /// A response as it comes out of a cache: without the header that
    /// carried what is known of it, marked as answered by the cache, and
    /// with the stream as its body.
    pub open spec fn loaded(status_code: u16, headers: HeaderList, body_used: bool) -> ResponseView {
        ResponseView {
            status_code,
            headers: with_header(
                header_without(headers, ascii_lower("X-Response-Meta"@)),
                "Cf-Cache-Status"@,
                "HIT"@,
            ),
            body: BodyView::Stream { used: body_used },
            meta: None,
        }
    }

    /// A response as it goes into a cache: with what is known of it, as
    /// text, in a header of its own.
    pub open spec fn stored(self, meta_text: Option<Seq<char>>) -> ResponseView {
        match meta_text {
            Some(text) => ResponseView {
                headers: with_header(self.headers, "X-Response-Meta"@, text),
                meta: None,
                ..self
            },
            None => ResponseView { meta: None, ..self },
        }
    }
}

/// A response in the making.
#[derive(Debug)]
pub struct Response {
    status_code: u16,
    headers: Headers,
    body: ResponseBody,
    meta: Option<Meta>,
}

impl View for Response {
    type V = ResponseView;

    closed spec fn view(&self) -> ResponseView {
        ResponseView {
            status_code: self.status_code,
            headers: self.headers@,
            body: self.body@,
            meta: match self.meta {
                Some(m) => Some(m@),
                None => None,
            },
        }
    }
}

impl Response {
    pub fn ok() -> (out: Self)
        ensures
            out@ == (ResponseView {
                status_code: 200,
                headers: HeaderList::empty(),
                body: BodyView::Empty,
                meta: None,
            }),
    {
        Self::status(200)
    }

    pub fn not_found() -> (out: Self)
        ensures
            out@ == (ResponseView {
                status_code: 404,
                headers: HeaderList::empty(),
                body: BodyView::Empty,
                meta: None,
            }),
    {
        Self::status(404)
    }

    /// An empty response with this status.
    pub fn status(status_code: u16) -> (out: Self)
        ensures
            out@ == (ResponseView {
                status_code,
                headers: HeaderList::empty(),
                body: BodyView::Empty,
                meta: None,
            }),
    {
        Response { status_code, headers: Headers::new(), body: ResponseBody::Empty, meta: None }
    }

    pub fn redirect_temp(location: &str) -> (out: Self)
        ensures
            out@ == (ResponseView {
                status_code: 307,
                headers: with_header(HeaderList::empty(), "Location"@, location@),
                body: BodyView::Empty,
                meta: None,
            }),
    {
        Self::status(307).header("Location", location)
    }

    pub fn redirect_perm(location: &str) -> (out: Self)
        ensures
            out@ == (ResponseView {
                status_code: 301,
                headers: with_header(HeaderList::empty(), "Location"@, location@),
                body: BodyView::Empty,
                meta: None,
            }),
    {
        Self::status(301).header("Location", location)
    }

    pub fn body(self, body: Vec<u8>) -> (out: Self)
        ensures
            out@ == (ResponseView { body: BodyView::Body(body@), ..self@ }),
    {
        let mut out = self;
        out.body = ResponseBody::Body(body);
        out
    }

    /// The response with `body`, which is JSON already, as its body.
    pub fn json(self, body: Vec<u8>) -> (out: Self)
        ensures
            out@ == (ResponseView {
                body: BodyView::Body(body@),
                ..self@.set_header("Content-Type"@, "application/json"@)
            }),
    {
        self.content_type("application/json").body(body)
    }

    pub fn html(self, body: String) -> (out: Self)
        ensures
            out@ == (ResponseView {
                body: BodyView::Body(vstd::utf8::encode_utf8(body@)),
                ..self@.set_header("Content-Type"@, "text/html"@)
            }),
    {
        let bytes = body.as_str().as_bytes_vec();
        self.content_type("text/html").body(bytes)
    }

    /// Sets a header. An empty value, and a name or value that no header
    /// can have, are dropped.
    pub fn header(self, name: &str, value: &str) -> (out: Self)
        ensures
            out@ == self@.set_header(name@, value@),
    {
        let mut out = self;
        if !value.is_empty() {
            let _ = out.headers.set(name, value);
        }
        out
    }

    /// Adds a value to a header, under the conditions of `header`.
    pub fn append_header(self, name: &str, value: &str) -> (out: Self)
        ensures
            out@ == self@.add_header(name@, value@),
    {
        let mut out = self;
        if !value.is_empty() {
            let _ = out.headers.append(name, value);
        }
        out
    }

    pub fn content_type(self, content_type: &str) -> (out: Self)
        ensures
            out@ == self@.set_header("Content-Type"@, content_type@),
    {
        self.header("Content-Type", content_type)
    }

    pub fn etag(self, etag: Option<Etag<'_>>) -> (out: Self)
        ensures
            out@ == match etag {
                Some(tag) => self@.set_header("Etag"@, tag.text()),
                None => self@,
            },
    {
        match etag {
            Some(tag) => {
                let value = tag.to_string();
                self.header("Etag", value.as_str())
            },
            None => self,
        }
    }

    pub fn state_cookie(self, state: &str) -> (out: Self)
        ensures
            out@ == self@.add_header("Set-Cookie"@, state_cookie_text(state@)),
    {
        let mut cookie = "state=".to_owned();
        cookie.append(state);
        cookie.append("; Max-Age=600; Secure; Same-Site=Lax; Path=/");
        self.append_header("Set-Cookie", cookie.as_str())
    }

    pub fn delete_state_cookie(self) -> (out: Self)
        ensures
            out@ == self@.add_header(
                "Set-Cookie"@,
                "state=none; Max-Age=0; Secure; Same-Site=Lax; Path=/"@,
            ),
    {
        self.append_header("Set-Cookie", "state=none; Max-Age=0; Secure; Same-Site=Lax; Path=/")
    }

    pub fn new_session(self, session: &str) -> (out: Self)
        ensures
            out@ == self@.add_header("Set-Cookie"@, session_cookie_text(session@)),
    {
        let mut cookie = "session=".to_owned();
        cookie.append(session);
        cookie.append("; Max-Age=1209600; Secure; SameSite=Lax; Path=/");
        self.append_header("Set-Cookie", cookie.as_str())
    }

    pub fn cache(self, cache_control: CacheControl) -> (out: Self)
        ensures
            out@ == self@.set_header("Cache-Control"@, cache_control.text()),
    {
        let value = cache_control.to_string();
        self.header("Cache-Control", value.as_str())
    }

    /// Lets every cache keep the response for `ttl`.
    pub fn cache_for(self, ttl: Duration) -> (out: Self)
        ensures
            out@ == self@.set_header(
                "Cache-Control"@,
                (CacheControl {
                    cachability: Some(Cachability::Public),
                    max_age: Some(ttl),
                    s_max_age: None,
                }).text(),
            ),
    {
        self.cache(CacheControl::default().public().max_age(ttl))
    }

    pub fn result<T>(self) -> (out: Result<Self, T>)
        ensures
            out == Ok::<Self, T>(self),
    {
        Ok(self)
    }

    pub fn meta(self, meta: Option<Meta>) -> (out: Self)
        ensures
            out@ == (ResponseView {
                meta: match meta {
                    Some(m) => Some(m@),
                    None => None,
                },
                ..self@
            }),
    {
        let mut out = self;
        out.meta = meta;
        out
    }

    pub fn meta_paste<P: PartialMeta>(self, id: PasteId, pmeta: &P) -> (out: Self)
        ensures
            out@ == (ResponseView {
                meta: Some(pmeta.merged(MetaView::of_paste(id@))),
                ..self@
            }),
    {
        let mut out = self;
        out.meta = Some(Meta::paste(id, pmeta));
        out
    }

    pub fn meta_list(self, id: User) -> (out: Self)
        ensures
            out@ == (ResponseView {
                meta: Some(MetaView { user_id: Some(id@), ..MetaView::empty() }),
                ..self@
            }),
    {
        let mut out = self;
        out.meta = Some(Meta::list(id));
        out
    }

    pub fn status_code(&self) -> (out: u16)
        ensures
            out == self@.status_code,
    {
        self.status_code
    }

    pub fn get_meta(&self) -> (out: Option<&Meta>)
        ensures
            match out {
                Some(m) => self@.meta == Some(m@),
                None => self@.meta is None,
            },
    {
        self.meta.as_ref()
    }

    pub fn get_header(&self, name: &str) -> (out: Option<String>)
        ensures
            match out {
                Some(value) => self@.header(name@) == Some(value@),
                None => self@.header(name@) is None,
            },
    {
        self.headers.get(name)
    }

    /// The headers of the response.
    pub fn headers(&self) -> (out: &Headers)
        ensures
            out@ == self@.headers,
    {
        &self.headers
    }

    /// The body of the response.
    pub fn get_body(&self) -> (out: &ResponseBody)
        ensures
            out@ == self@.body,
    {
        &self.body
    }

    /// Whether the status is one of success, 200 to 299.
    pub fn is_2xx(&self) -> (out: bool)
        ensures
            out == (200 <= self@.status_code < 300),
    {
        self.status_code >= 200 && self.status_code < 300
    }

    /// Whether a cache may keep the response as it is now.
    pub fn is_cacheable(&self) -> (out: bool)
        ensures
            out == self@.cacheable(),
    {
        if self.status_code == 206 {
            return false;
        }
        match self.headers.get("Vary") {
            Some(vary) => {
                if str_eq(vary.as_str(), "*") {
                    return false;
                }
            },
            None => {},
        }
        self.headers.has("Cache-Control") || self.headers.has("ETag") || self.headers.has(
            "Expires",
        ) || self.headers.has("Last-Modified")
    }

    /// Whether the response came out of a cache.
    pub fn was_cached(&self) -> (out: bool)
        ensures
            out == self@.served_from_cache(),
    {
        match self.headers.get("Cf-Cache-Status") {
            Some(status) => str_eq(status.as_str(), "HIT"),
            None => false,
        }
    }

    /// The response that a cache gave back, and beside it the text that
    /// the header `X-Response-Meta` carried. The header is taken off and the
    /// response is marked as answered by the cache. Reading the text is the
    /// caller's part, who hands what it holds to `meta`.
    pub fn from_cache(status_code: u16, headers: Headers, body_used: bool) -> (out: (
        Self,
        Option<String>,
    ))
        ensures
            out.0@ == ResponseView::loaded(status_code, headers@, body_used),
            opt_text(out.1) == headers.get_spec("X-Response-Meta"@),
    {
        let meta = headers.get("X-Response-Meta");
        let mut headers = headers;
        headers.delete("X-Response-Meta");
        let _ = headers.set("Cf-Cache-Status", "HIT");
        proof {
            reveal_strlit("HIT");
        }
        (Response { status_code, headers, body: ResponseBody::Stream { used: body_used }, meta: None }, meta)
    }

    /// The response as a cache is to keep it. `meta_text` is what is known
    /// of the response, as text; it travels in the header `X-Response-Meta`.
    pub fn for_cache(&self, meta_text: Option<&str>) -> (out: Self)
        requires
            self@.body != (BodyView::Stream { used: true }),
        ensures
            out@ == self@.stored(
                match meta_text {
                    Some(t) => Some(t@),
                    None => None,
                },
            ),
    {
        let mut headers = self.headers.clone();
        match meta_text {
            Some(text) => {
                if !text.is_empty() {
                    let _ = headers.set("X-Response-Meta", text);
                }
            },
            None => {},
        }
        Response {
            status_code: self.status_code,
            headers,
            body: clone_body(&self.body),
            meta: None,
        }
    }

    /// A copy of the response. A response whose stream was read cannot be
    /// copied.
    pub fn clone(&self) -> (out: Self)
        requires
            self@.body != (BodyView::Stream { used: true }),
        ensures
            out@ == self@,
    {
        Response {
            status_code: self.status_code,
            headers: self.headers.clone(),
            body: clone_body(&self.body),
            meta: match &self.meta {
                Some(m) => Some(m.clone()),
                None => None,
            },
        }
    }
}

/// A response that has none of the four headers that bound its life is not
/// cacheable.
pub proof fn lemma_not_cacheable_without_caching_headers(r: ResponseView)
    requires
        !r.has_header("Cache-Control"@),
        !r.has_header("ETag"@),
        !r.has_header("Expires"@),
        !r.has_header("Last-Modified"@),
    ensures
        !r.cacheable(),
{
}

/// Status 206 and `Vary: *` each make a response not cacheable, whatever
/// else it holds.
pub proof fn lemma_never_cacheable(r: ResponseView)
    requires
        r.status_code == 206 || r.header("Vary"@) == Some("*"@),
    ensures
        !r.cacheable(),
{
}

/// The names of the headers that bound the life of a response are names
/// that a header can have, none of them is `Vary`, and `Etag` is `ETag`.
pub proof fn lemma_caching_header_names()
    ensures
        valid_header_name("Cache-Control"@),
        valid_header_name("ETag"@),
        valid_header_name("Etag"@),
        valid_header_name("Expires"@),
        valid_header_name("Last-Modified"@),
        ascii_lower("Etag"@) == ascii_lower("ETag"@),
        ascii_lower("Cache-Control"@) != ascii_lower("Vary"@),
        ascii_lower("ETag"@) != ascii_lower("Vary"@),
        ascii_lower("Expires"@) != ascii_lower("Vary"@),
        ascii_lower("Last-Modified"@) != ascii_lower("Vary"@),
{
    reveal_strlit("Cache-Control");
    reveal_strlit("ETag");
    reveal_strlit("Etag");
    reveal_strlit("Expires");
    reveal_strlit("Last-Modified");
    reveal_strlit("Vary");
    assert(ascii_lower("Etag"@) =~= ascii_lower("ETag"@));
    assert(ascii_lower("Cache-Control"@).len() != ascii_lower("Vary"@).len());
    assert(ascii_lower("ETag"@)[0] != ascii_lower("Vary"@)[0]);
    assert(ascii_lower("Expires"@).len() != ascii_lower("Vary"@).len());
    assert(ascii_lower("Last-Modified"@).len() != ascii_lower("Vary"@).len());
}

/// Setting any one of the four headers that bound the life of a response,
/// to a value that is kept, makes the response cacheable, unless its status
/// is 206 or it has `Vary: *`.
pub proof fn lemma_cacheable_with_caching_header(
    r: ResponseView,
    name: Seq<char>,
    value: Seq<char>,
)
    requires
        r.status_code != 206,
        r.header("Vary"@) != Some("*"@),
        name == "Cache-Control"@ || name == "ETag"@ || name == "Etag"@ || name == "Expires"@
            || name == "Last-Modified"@,
        value.len() > 0,
        valid_header_value(value),
    ensures
        r.set_header(name, value).cacheable(),
{
    lemma_caching_header_names();
    lemma_get_after_set(r.headers, ascii_lower(name), value, ascii_lower("Vary"@));
}

/// A response that comes out of a cache is marked as such, and no longer
/// carries the header `X-Response-Meta`.
pub proof fn lemma_loaded_is_marked(status_code: u16, headers: HeaderList, body_used: bool)
    ensures
        ResponseView::loaded(status_code, headers, body_used).served_from_cache(),
        !ResponseView::loaded(status_code, headers, body_used).has_header("X-Response-Meta"@),
{
    reveal_strlit("Cf-Cache-Status");
    reveal_strlit("X-Response-Meta");
    reveal_strlit("HIT");
    let name = ascii_lower("Cf-Cache-Status"@);
    let meta = ascii_lower("X-Response-Meta"@);
    assert(name[0] != meta[0]);
    let stripped = header_without(headers, meta);
    crate::headers::lemma_get_after_delete(headers, meta, name);
    lemma_get_after_set(stripped, name, "HIT"@, meta);
}

/// What is known of a response travels with it into the cache: the text
/// that is handed to the cache with the response is the text that the
/// header `X-Response-Meta` gives back, and the response loaded from those
/// headers no longer shows it.
pub proof fn lemma_meta_text_round_trip(r: ResponseView, text: Seq<char>, body_used: bool)
    requires
        text.len() > 0,
        valid_header_value(text),
    ensures
        r.stored(Some(text)).header("X-Response-Meta"@) == Some(text),
        !ResponseView::loaded(
            r.status_code,
            r.stored(Some(text)).headers,
            body_used,
        ).has_header("X-Response-Meta"@),
{
    reveal_strlit("X-Response-Meta");
    let name = ascii_lower("X-Response-Meta"@);
    lemma_get_after_set(r.headers, name, text, name);
    lemma_loaded_is_marked(r.status_code, r.stored(Some(text)).headers, body_used);
}

} // verus!
