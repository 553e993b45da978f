//! The edge cache: which tier a request uses, what is looked up and stored
//! for it, and what a change to a paste purges.

use vstd::prelude::*;
use crate::id::{PasteId, PasteIdView};
use crate::response::{BodyView, Response, ResponseView};
use crate::text::{append_trimmed_start, trim_start};
use crate::user::User;

verus! {

/// The method of a request, as far as caching tells methods apart.
#[derive(Copy, Clone, Debug, PartialEq, Eq, Structural)]
pub enum Method {
    Get,
    Head,
    Post,
    Put,
    Delete,
    Other,
}

/// What caching reads of a request.
#[derive(Debug)]
pub struct RequestContext {
    pub method: Method,
    /// The URL of the request in its normalized form: the key under which
    /// a response to it is kept.
    pub url: String,
    /// The user of the session, where the request carries one.
    pub session: Option<User>,
    /// The user that the resource of the route belongs to, where it belongs
    /// to one.
    pub owner: Option<User>,
}

/// The name of a user that may be absent.
pub open spec fn opt_name(o: Option<User>) -> Option<Seq<char>> {
    match o {
        Some(u) => Some(u@),
        None => None,
    }
}

/// A tier of the edge cache.
#[derive(Copy, Clone, Debug, PartialEq, Eq, Hash, Structural)]
pub enum Cache {
    /// Used when no other tier is selected.
    Default,
    /// Used for what is served to the owner of a resource.
    Owned,
}

impl Cache {
    /// The tier of a request: `Owned` exactly when the resource belongs to
    /// a user and the session is that user's.
    pub open spec fn selected(session: Option<Seq<char>>, owner: Option<Seq<char>>) -> Cache {
        if owner is Some && session is Some && User::same_user(session->0, owner->0) {
            Cache::Owned
        } else {
            Cache::Default
        }
    }

    pub fn select(rctx: &RequestContext) -> (out: Self)
        ensures
            out == Cache::selected(opt_name(rctx.session), opt_name(rctx.owner)),
    {
        match (&rctx.owner, &rctx.session) {
            (Some(owner), Some(session)) => {
                if session.same_as(owner) {
                    Cache::Owned
                } else {
                    Cache::Default
                }
            },
            _ => Cache::Default,
        }
    }

    /// The tier as the header `X-Pobbin-Cache` shows it.
    pub open spec fn text(self) -> Seq<char> {
        match self {
            Cache::Default => "Default"@,
            Cache::Owned => "Owned"@,
        }
    }

    pub fn to_str(&self) -> (out: &'static str)
        ensures
            out@ == self.text(),
    {
        match self {
            Cache::Default => "Default",
            Cache::Owned => "Owned",
        }
    }

    /// The named cache that holds the tier; the default tier is the cache
    /// without a name.
    pub fn namespace(&self) -> (out: Option<&'static str>)
        ensures
            match *self {
                Cache::Default => out is None,
                Cache::Owned => out is Some && out->0@ == "owned"@,
            },
    {
        match self {
            Cache::Default => None,
            Cache::Owned => Some("owned"),
        }
    }
}

/// The session's user on that user's own resource gets the owned tier.
pub proof fn lemma_owner_selects_owned(user: Seq<char>)
    ensures
        Cache::selected(Some(user), Some(user)) == Cache::Owned,
{
}

/// Another user's session, no session, and a resource that belongs to no
/// one all get the default tier.
pub proof fn lemma_others_select_default(session: Option<Seq<char>>, owner: Option<Seq<char>>)
    requires
        owner is None || session is None || !User::same_user(session->0, owner->0),
    ensures
        Cache::selected(session, owner) == Cache::Default,
{
}

/// Where a response is to be looked up, or kept.
#[derive(Debug)]
pub struct CacheSlot {
    pub cache: Cache,
    pub key: String,
}

/// A response to be put into a cache.
#[derive(Debug)]
pub struct CacheWrite {
    pub cache: Cache,
    pub key: String,
    pub response: Response,
}

/// The place of one request in the cache. It is made when the request comes
/// in, and the tier it names never changes after that.
#[derive(Debug)]
pub struct CacheEntry {
    inner: Option<CacheSlot>,
}

impl CacheEntry {
    /// The tier and the key of the request, where it is cached at all.
    pub closed spec fn slot(&self) -> Option<(Cache, Seq<char>)> {
        match self.inner {
            Some(slot) => Some((slot.cache, slot.key@)),
            None => None,
        }
    }

    /// Only a `GET` has a place in the cache: in the tier selected for the
    /// request, under the request's URL.
    pub fn from(value: &RequestContext) -> (out: Self)
        ensures
            out.slot() == if value.method == Method::Get {
                Some(
                    (
                        Cache::selected(opt_name(value.session), opt_name(value.owner)),
                        value.url@,
                    ),
                )
            } else {
                None
            },
    {
        match value.method {
            Method::Get => {
                let cache = Cache::select(value);
                CacheEntry { inner: Some(CacheSlot { cache, key: value.url.clone() }) }
            },
            _ => CacheEntry { inner: None },
        }
    }

    /// What to look up before the handler runs: nothing for a request
    /// that is not cached.
    pub fn load(&self) -> (out: Option<CacheSlot>)
        ensures
            match out {
                Some(slot) => self.slot() == Some((slot.cache, slot.key@)),
                None => self.slot() is None,
            },
    {
        match &self.inner {
            Some(slot) => Some(CacheSlot { cache: slot.cache, key: slot.key.clone() }),
            None => None,
        }
    }

    /// What the handler's response looks like once the tier that takes it
    /// is written on it.
    pub open spec fn marked(response: ResponseView, cache: Cache) -> ResponseView {
        response.set_header("X-Pobbin-Cache"@, cache.text()).set_header(
            "Cf-Cache-Status"@,
            "MISS"@,
        )
    }

    /// Decides what becomes of the handler's response. A request without a
    /// place in the cache, and a response that is not cacheable, pass
    /// unchanged and nothing is written. Otherwise the response goes out
    /// marked as a miss of its tier, and a copy is to be written to that
    /// tier under the request's key. `meta_text` is what is known of the
    /// response, as text.
    pub fn store(self, response: Response, meta_text: Option<&str>) -> (out: (
        Response,
        Option<CacheWrite>,
    ))
        requires
            self.slot() is Some && response@.cacheable() ==> response@.body != (BodyView::Stream {
                used: true,
            }),
        ensures
            match out.1 {
                None => {
                    &&& self.slot() is None || !response@.cacheable()
                    &&& out.0@ == response@
                },
                Some(write) => {
                    &&& response@.cacheable()
                    &&& self.slot() == Some((write.cache, write.key@))
                    &&& write.response@ == response@.stored(
                        match meta_text {
                            Some(t) => Some(t@),
                            None => None,
                        },
                    )
                    &&& out.0@ == CacheEntry::marked(response@, write.cache)
                },
            },
    {
        match self.inner {
            None => (response, None),
            Some(slot) => {
                if !response.is_cacheable() {
                    return (response, None);
                }
                let for_cache = response.for_cache(meta_text);
                let cache = slot.cache;
                let marked = response.header("X-Pobbin-Cache", cache.to_str()).header(
                    "Cf-Cache-Status",
                    "MISS",
                );
                (marked, Some(CacheWrite { cache, key: slot.key, response: for_cache }))
            },
        }
    }
}

/// The key of a URL in the cache: the origin of the request, then the URL
/// without the slashes that it starts with.
pub open spec fn cache_key(prefix: Seq<char>, url: Seq<char>) -> Seq<char> {
    prefix + trim_start(url, '/')
}

/// What a change to a paste purges: every URL of the paste, first from the
/// default tier and then from the owned tier.
pub open spec fn purge_plan(prefix: Seq<char>, id: PasteIdView) -> Seq<(Cache, Seq<char>)> {
    Seq::new(
        2 * id.url_variants().len(),
        |i: int|
            (
                if i % 2 == 0 {
                    Cache::Default
                } else {
                    Cache::Owned
                },
                cache_key(prefix, id.url_variants()[i / 2]),
            ),
    )
}

/// A list of slots as values.
pub open spec fn slots_view(v: Seq<CacheSlot>) -> Seq<(Cache, Seq<char>)> {
    Seq::new(v.len(), |i: int| (v[i].cache, v[i].key@))
}

/// The entries to delete when the paste `id` was created, changed or
/// deleted, for a service at the origin `prefix`. A delete of what is not
/// there does nothing.
pub fn purges_for(prefix: &str, id: &PasteId) -> (out: Vec<CacheSlot>)
    ensures
        slots_view(out@) == purge_plan(prefix@, id@),
{
    let urls = id.url_variants();
    let ghost variants = id@.url_variants();
    assert(urls@.len() == variants.len()) by {
        assert(crate::text::views(urls@).len() == urls@.len());
    }
    let mut out: Vec<CacheSlot> = Vec::new();
    let mut i: usize = 0;
    while i < urls.len()
        invariant
            i <= urls.len(),
            urls@.len() == variants.len(),
            variants.len() <= 9,
            crate::text::views(urls@) == variants,
            variants == id@.url_variants(),
            out@.len() == 2 * i,
            forall|j: int|
                0 <= j < 2 * i ==> #[trigger] slots_view(out@)[j] == purge_plan(prefix@, id@)[j],
        decreases urls.len() - i,
    {
        assert(crate::text::views(urls@)[i as int] == urls@[i as int]@);
        let mut first = prefix.to_owned();
        append_trimmed_start(&mut first, urls[i].as_str(), '/');
        let second = first.clone();
        let ghost held = out@;
        out.push(CacheSlot { cache: Cache::Default, key: first });
        out.push(CacheSlot { cache: Cache::Owned, key: second });
        proof {
            assert forall|j: int| 0 <= j < 2 * (i + 1) implies #[trigger] slots_view(out@)[j]
                == purge_plan(prefix@, id@)[j] by {
                if j < 2 * i {
                    assert(slots_view(held)[j] == purge_plan(prefix@, id@)[j]);
                    assert(out@[j] == held[j]);
                }
            }
        }
        i += 1;
    }
    assert(slots_view(out@) =~= purge_plan(prefix@, id@));
    out
}

/// The origin of a URL, as the `url` crate writes it: the URL with an empty
/// path and without query and fragment. A text that is no URL has none.
pub uninterp spec fn origin_of(url: Seq<char>) -> Option<Seq<char>>;

/// `Url::parse`, then `set_path("")`, `set_query(None)` and
/// `set_fragment(None)`, then the URL as a string: what comes out depends
/// on the text alone, and a text that does not parse gives `None`.
#[verifier::external_body]
fn url_origin(url: &str) -> (out: Option<String>)
    ensures
        crate::response::opt_text(out) == origin_of(url@),
{
    let mut parsed = url::Url::parse(url).ok()?;
    parsed.set_path("");
    parsed.set_query(None);
    parsed.set_fragment(None);
    Some(parsed.to_string())
}

/// What to purge when the paste `id` changed through a request to `url`:
/// the purges for the origin of that URL. A request URL that is no URL
/// purges nothing.
pub fn on_paste_change(url: &str, id: &PasteId) -> (out: Option<Vec<CacheSlot>>)
    ensures
        match out {
            Some(purges) => origin_of(url@) is Some && slots_view(purges@) == purge_plan(
                origin_of(url@)->0,
                id@,
            ),
            None => origin_of(url@) is None,
        },
{
    match url_origin(url) {
        Some(prefix) => Some(purges_for(prefix.as_str(), id)),
        None => None,
    }
}

/// Every URL of a paste is purged from both tiers.
pub proof fn lemma_purge_covers_every_variant(prefix: Seq<char>, id: PasteIdView, i: int)
    requires
        0 <= i < id.url_variants().len(),
    ensures
        purge_plan(prefix, id).contains((Cache::Default, cache_key(prefix, id.url_variants()[i]))),
        purge_plan(prefix, id).contains((Cache::Owned, cache_key(prefix, id.url_variants()[i]))),
{
    let plan = purge_plan(prefix, id);
    assert(plan[2 * i] == (Cache::Default, cache_key(prefix, id.url_variants()[i])));
    assert(plan[2 * i + 1] == (Cache::Owned, cache_key(prefix, id.url_variants()[i])));
}

/// Whatever tier a request for a URL of a paste was answered from, and
/// so cached in, a change to the paste purges what was kept for it: the
/// place of a `GET` of that URL is among the purges.
pub proof fn lemma_purge_reaches_every_slot(
    prefix: Seq<char>,
    id: PasteIdView,
    i: int,
    session: Option<Seq<char>>,
    owner: Option<Seq<char>>,
)
    requires
        0 <= i < id.url_variants().len(),
    ensures
        purge_plan(prefix, id).contains(
            (Cache::selected(session, owner), cache_key(prefix, id.url_variants()[i])),
        ),
{
    lemma_purge_covers_every_variant(prefix, id, i);
}

/// The page of a paste is among what a change to it purges, in both tiers.
pub proof fn lemma_purge_covers_page(prefix: Seq<char>, id: PasteIdView)
    ensures
        purge_plan(prefix, id).contains((Cache::Default, cache_key(prefix, id.url()))),
        purge_plan(prefix, id).contains((Cache::Owned, cache_key(prefix, id.url()))),
{
    assert(id.url_variants()[0] == id.url());
    lemma_purge_covers_every_variant(prefix, id, 0);
}

/// What the handler gave goes out marked as a miss, never as a hit, and
/// shows the tier that takes it.
pub proof fn lemma_marked_is_a_miss(response: ResponseView, cache: Cache)
    ensures
        !CacheEntry::marked(response, cache).served_from_cache(),
        CacheEntry::marked(response, cache).header("Cf-Cache-Status"@) == Some("MISS"@),
        CacheEntry::marked(response, cache).header("X-Pobbin-Cache"@) == Some(cache.text()),
{
    reveal_strlit("Cf-Cache-Status");
    reveal_strlit("X-Pobbin-Cache");
    reveal_strlit("MISS");
    reveal_strlit("HIT");
    reveal_strlit("Default");
    reveal_strlit("Owned");
    let status = crate::text::ascii_lower("Cf-Cache-Status"@);
    let tier = crate::text::ascii_lower("X-Pobbin-Cache"@);
    assert(status[0] != tier[0]);
    assert("MISS"@[0] != "HIT"@[0]);
    let first = response.set_header("X-Pobbin-Cache"@, cache.text());
    crate::headers::lemma_get_after_set(response.headers, tier, cache.text(), status);
    crate::headers::lemma_get_after_set(first.headers, status, "MISS"@, tier);
}

} // verus!
