use std::time::Duration;

use pobbin::headers::{is_valid_header_name, is_valid_header_value, Headers};
use pobbin::id::PasteId;
use pobbin::model::{Paste, PasteMetadata, PasteSummary};
use pobbin::response::{
    clone_body, FreshMetadata, Meta, PartialMeta, Response, ResponseBody, ResponseError,
};
use pobbin::storage::{Sha1, StoredPaste};
use pobbin::user::User;
use pobbin::utils::{Cachability, CacheControl, Error, Etag};

fn metadata() -> PasteMetadata {
    PasteMetadata {
        title: "My build".to_string(),
        ascendancy_or_class: "Slayer".to_string(),
        version: Some("3.21".to_string()),
        main_skill_name: None,
    }
}

#[test]
fn headers_ignore_the_case_of_names() {
    let mut h = Headers::new();
    assert!(!h.has("ETag"));
    assert_eq!(h.get("ETag"), None);
    assert!(h.set("Etag", "\"a\""));
    assert!(h.has("ETag"));
    assert!(h.has("etag"));
    assert_eq!(h.get("ETAG"), Some("\"a\"".to_string()));
    assert!(h.set("ETAG", "\"b\""));
    assert_eq!(h.get("etag"), Some("\"b\"".to_string()));
    assert_eq!(h.entries(), vec![("etag".to_string(), "\"b\"".to_string())]);
    h.delete("eTaG");
    assert!(!h.has("Etag"));
    assert!(h.entries().is_empty());
}

#[test]
fn headers_append_lists_values() {
    let mut h = Headers::new();
    assert!(h.append("Set-Cookie", "a=1"));
    assert!(h.append("X-Other", "x"));
    assert!(h.append("set-cookie", "b=2"));
    assert_eq!(h.get("Set-Cookie"), Some("a=1, b=2".to_string()));
    assert_eq!(h.get("x-other"), Some("x".to_string()));
    assert!(h.set("Set-Cookie", "c=3"));
    assert_eq!(h.get("Set-Cookie"), Some("c=3".to_string()));
    assert_eq!(
        h.entries(),
        vec![
            ("x-other".to_string(), "x".to_string()),
            ("set-cookie".to_string(), "c=3".to_string())
        ]
    );
    assert_eq!(h.clone().entries(), h.entries());
}

#[test]
fn headers_drop_what_no_header_can_have() {
    let mut h = Headers::new();
    assert!(!h.set("", "x"));
    assert!(!h.set("bad name", "x"));
    assert!(!h.set("Bad:Name", "x"));
    assert!(!h.set("X-Ok", "line\nbreak"));
    assert!(!h.append("X-Ok", "carriage\rreturn"));
    assert!(!h.append("X-Ok", "nul\0"));
    assert!(h.entries().is_empty());
    assert!(is_valid_header_name("X-Response-Meta"));
    assert!(!is_valid_header_name("caf\u{e9}"));
    assert!(is_valid_header_value(""));
    assert!(is_valid_header_value("caf\u{e9} ok"));
}

#[test]
fn response_builders() {
    let r = Response::ok();
    assert_eq!(r.status_code(), 200);
    assert!(r.is_2xx());
    assert!(r.headers().entries().is_empty());
    assert!(matches!(r.get_body(), ResponseBody::Empty));
    assert!(r.get_meta().is_none());
    assert_eq!(Response::not_found().status_code(), 404);
    assert!(!Response::not_found().is_2xx());
    assert!(Response::status(299).is_2xx());
    assert!(!Response::status(300).is_2xx());
    assert!(!Response::status(199).is_2xx());

    let r = Response::redirect_temp("/abcde");
    assert_eq!(r.status_code(), 307);
    assert_eq!(r.get_header("location"), Some("/abcde".to_string()));
    let r = Response::redirect_perm("/abcde");
    assert_eq!(r.status_code(), 301);
    assert_eq!(r.get_header("Location"), Some("/abcde".to_string()));

    let r = Response::ok().html("<p>h\u{e9}</p>".to_string());
    assert_eq!(r.get_header("Content-Type"), Some("text/html".to_string()));
    assert!(matches!(r.get_body(), ResponseBody::Body(b) if b == "<p>h\u{e9}</p>".as_bytes()));
    let r = Response::ok().json(b"{}".to_vec());
    assert_eq!(
        r.get_header("Content-Type"),
        Some("application/json".to_string())
    );
    assert!(matches!(r.get_body(), ResponseBody::Body(b) if b == b"{}"));
    let r: Result<Response, ()> = Response::ok().body(vec![1, 2]).result();
    assert!(matches!(r.unwrap().get_body(), ResponseBody::Body(b) if b == &[1, 2]));
}

#[test]
fn response_mutators_drop_empty_and_malformed_values() {
    let r = Response::ok()
        .header("X-A", "")
        .header("X B", "v")
        .header("X-C", "a\nb")
        .append_header("X-D", "")
        .content_type("");
    assert!(r.headers().entries().is_empty());
    let r = r.header("X-A", "1").header("x-a", "2").append_header("X-A", "3");
    assert_eq!(r.get_header("X-A"), Some("2, 3".to_string()));
}

#[test]
fn response_cookies() {
    let r = Response::ok().state_cookie("xyz");
    assert_eq!(
        r.get_header("Set-Cookie"),
        Some("state=xyz; Max-Age=600; Secure; Same-Site=Lax; Path=/".to_string())
    );
    let r = r.delete_state_cookie();
    assert_eq!(
        r.get_header("Set-Cookie"),
        Some(
            "state=xyz; Max-Age=600; Secure; Same-Site=Lax; Path=/, \
             state=none; Max-Age=0; Secure; Same-Site=Lax; Path=/"
                .to_string()
        )
    );
    let r = Response::ok().new_session("tok");
    assert_eq!(
        r.get_header("Set-Cookie"),
        Some("session=tok; Max-Age=1209600; Secure; SameSite=Lax; Path=/".to_string())
    );
}

#[test]
fn not_cacheable_without_caching_headers() {
    assert!(!Response::ok().is_cacheable());
    assert!(!Response::ok()
        .content_type("text/plain")
        .body(b"X".to_vec())
        .is_cacheable());
}

#[test]
fn any_caching_header_makes_cacheable() {
    assert!(Response::ok().header("ETag", "\"a\"").is_cacheable());
    assert!(Response::ok().etag(Some(Etag::strong("a"))).is_cacheable());
    assert!(!Response::ok().etag(None).is_cacheable());
    assert!(Response::ok()
        .header("Cache-Control", "max-age=1")
        .is_cacheable());
    assert!(Response::ok()
        .cache(CacheControl::default().cachability(Cachability::Private))
        .is_cacheable());
    assert!(Response::ok()
        .cache_for(Duration::from_secs(60))
        .is_cacheable());
    assert!(Response::ok()
        .header("Expires", "Thu, 01 Jan 2026 00:00:00 GMT")
        .is_cacheable());
    assert!(Response::ok()
        .header("last-modified", "Thu, 01 Jan 2026 00:00:00 GMT")
        .is_cacheable());
    assert_eq!(
        Response::ok()
            .cache_for(Duration::from_secs(60))
            .get_header("Cache-Control"),
        Some("public, max-age=60".to_string())
    );
    // an empty directive list is an empty value, which is dropped
    assert!(!Response::ok().cache(CacheControl::default()).is_cacheable());
}

#[test]
fn partial_content_and_vary_star_are_never_cacheable() {
    assert!(!Response::status(206).header("ETag", "\"a\"").is_cacheable());
    assert!(!Response::ok()
        .header("ETag", "\"a\"")
        .header("Vary", "*")
        .is_cacheable());
    assert!(!Response::ok()
        .header("vary", "*")
        .cache_for(Duration::from_secs(60))
        .header("Expires", "0")
        .header("Last-Modified", "0")
        .is_cacheable());
    assert!(Response::ok()
        .header("ETag", "\"a\"")
        .header("Vary", "Accept")
        .is_cacheable());
    assert!(Response::ok()
        .header("ETag", "\"a\"")
        .append_header("Vary", "*")
        .append_header("Vary", "*")
        .is_cacheable());
}

#[test]
fn cache_round_trip_of_a_response() {
    let r = Response::ok()
        .body(b"X".to_vec())
        .etag(Some(Etag::strong("abc")))
        .meta(Some(Meta::list(User::from_str("alice").unwrap())));
    assert!(!r.was_cached());
    let stored = r.for_cache(Some("{\"user_id\":\"alice\"}"));
    assert_eq!(stored.status_code(), 200);
    assert!(stored.get_meta().is_none());
    assert_eq!(
        stored.get_header("X-Response-Meta"),
        Some("{\"user_id\":\"alice\"}".to_string())
    );
    assert_eq!(stored.get_header("Etag"), Some("\"abc\"".to_string()));
    assert!(matches!(stored.get_body(), ResponseBody::Body(b) if b == b"X"));
    // the response itself is as it was
    assert_eq!(r.get_header("X-Response-Meta"), None);
    assert_eq!(r.get_meta().unwrap().user_id.as_ref().unwrap().as_str(), "alice");

    let (loaded, meta_text) = Response::from_cache(200, stored.headers().clone(), false);
    assert_eq!(meta_text, Some("{\"user_id\":\"alice\"}".to_string()));
    assert!(loaded.was_cached());
    assert_eq!(loaded.get_header("Cf-Cache-Status"), Some("HIT".to_string()));
    assert_eq!(loaded.get_header("X-Response-Meta"), None);
    assert_eq!(loaded.get_header("ETag"), Some("\"abc\"".to_string()));
    assert!(loaded.get_meta().is_none());
    assert!(matches!(
        loaded.get_body(),
        ResponseBody::Stream { used: false }
    ));

    let plain = Response::ok().for_cache(None);
    assert_eq!(plain.get_header("X-Response-Meta"), None);
    let (loaded, meta_text) = Response::from_cache(404, plain.headers().clone(), true);
    assert_eq!(meta_text, None);
    assert_eq!(loaded.status_code(), 404);
    assert!(matches!(loaded.get_body(), ResponseBody::Stream { used: true }));
}

#[test]
fn was_cached_reads_the_marker() {
    assert!(Response::ok().header("Cf-Cache-Status", "HIT").was_cached());
    assert!(!Response::ok().header("Cf-Cache-Status", "MISS").was_cached());
    assert!(!Response::ok().header("Cf-Cache-Status", "hit").was_cached());
    assert!(!Response::ok().was_cached());
}

#[test]
fn clone_copies_a_materialized_body() {
    let r = Response::status(201)
        .body(vec![1, 2, 3])
        .header("X-A", "1")
        .meta(Some(Meta::default()));
    let c = r.clone();
    assert_eq!(c.status_code(), 201);
    assert_eq!(c.headers().entries(), r.headers().entries());
    assert!(matches!(c.get_body(), ResponseBody::Body(b) if b == &[1, 2, 3]));
    assert!(c.get_meta().is_some());
    assert!(matches!(clone_body(&ResponseBody::Empty), ResponseBody::Empty));
    assert!(matches!(
        clone_body(&ResponseBody::Stream { used: false }),
        ResponseBody::Stream { used: false }
    ));
    assert!(matches!(
        clone_body(&ResponseBody::Body(vec![9])),
        ResponseBody::Body(b) if b == [9]
    ));
}

#[test]
fn meta_of_a_paste() {
    let stored = StoredPaste {
        metadata: Some(metadata()),
        last_modified: 42,
        entity_id: "e".to_string(),
        content: "X".to_string(),
    };
    let m = Meta::paste(PasteId::from_str("alice:abcde").unwrap(), &stored);
    assert_eq!(m.user_id.as_ref().unwrap().as_str(), "alice");
    assert_eq!(m.paste_id.as_deref(), Some("alice:abcde"));
    assert_eq!(m.ascendancy_or_class.as_deref(), Some("Slayer"));
    assert_eq!(m.main_skill_name, None);
    assert_eq!(m.version.as_deref(), Some("3.21"));
    assert_eq!(m.last_modified, Some(42));

    let bare = Paste {
        metadata: None,
        last_modified: 7,
        entity_id: "e".to_string(),
        content: "X".to_string(),
    };
    let m = Meta::paste(PasteId::from_str("abcde").unwrap(), &bare);
    assert!(m.user_id.is_none());
    assert_eq!(m.paste_id.as_deref(), Some("abcde"));
    assert_eq!(m.ascendancy_or_class, None);
    assert_eq!(m.last_modified, None);

    let fresh = FreshMetadata {
        metadata: metadata(),
        now: 1000,
    };
    let r = Response::ok().meta_paste(PasteId::from_str("abcde").unwrap(), &fresh);
    let m = r.get_meta().unwrap();
    assert_eq!(m.last_modified, Some(1000));
    assert_eq!(m.ascendancy_or_class.as_deref(), Some("Slayer"));

    let mut into = Meta::list(User::from_str("bob").unwrap());
    fresh.merge_with(&mut into);
    assert_eq!(into.user_id.as_ref().unwrap().as_str(), "bob");
    assert_eq!(into.paste_id, None);
    assert_eq!(into.version.as_deref(), Some("3.21"));
    let copy = into.clone();
    assert_eq!(copy.version.as_deref(), Some("3.21"));
    assert_eq!(copy.last_modified, Some(1000));

    let r = Response::ok().meta_list(User::from_str("bob").unwrap());
    assert_eq!(r.get_meta().unwrap().user_id.as_ref().unwrap().as_str(), "bob");
    assert!(r.meta(None).get_meta().is_none());
}

#[test]
fn summary_url() {
    let mut s = PasteSummary {
        id: "abcde".to_string(),
        user: None,
        title: String::new(),
        ascendancy_or_class: String::new(),
        version: String::new(),
        main_skill_name: String::new(),
        last_modified: 0,
    };
    assert_eq!(s.to_url(), "/abcde");
    s.user = Some(User::from_str("alice").unwrap());
    assert_eq!(s.to_url(), "/u/alice/abcde");
    let d = PasteMetadata::default();
    assert_eq!(d.title, "");
    assert_eq!(d.version, None);
}

#[test]
fn response_error_inner() {
    assert_eq!(
        *ResponseError::ApiError(Error::HashTooSmall).inner(),
        Error::HashTooSmall
    );
    assert_eq!(
        *ResponseError::AppError(Error::InvalidBase64).inner(),
        Error::InvalidBase64
    );
    assert_eq!(Sha1([7; 20]).as_bytes(), &[7; 20]);
}
