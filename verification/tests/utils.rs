use std::time::Duration;

use pobbin::id::{Id, InvalidId};
use pobbin::meta::Prefetch;
use pobbin::utils::{
    b64_decode, b64_encode, hash_to_short_id, hex_lower, random_string, to_link, to_path,
    Cachability, CacheControl, Error, Etag,
};

#[test]
fn test_to_path() {
    assert!(to_path("").is_err());
    assert!(to_path("a").is_err());
    assert!(to_path("aa").is_err());
    assert!(to_path("aaa").is_err());
    assert_eq!(to_path("aaaaa").unwrap(), "a/a/aaa");
}

#[test]
fn test_cache_control() {
    assert_eq!(
        "public",
        CacheControl::default()
            .cachability(Cachability::Public)
            .to_string()
    );
    assert_eq!(
        "private",
        CacheControl::default()
            .cachability(Cachability::Private)
            .to_string()
    );
    assert_eq!(
        "no-cache",
        CacheControl::default()
            .cachability(Cachability::NoCache)
            .to_string()
    );
    assert_eq!(
        "s-max-age=123",
        CacheControl::default()
            .s_max_age(Duration::from_secs(123))
            .to_string()
    );
    assert_eq!(
        "max-age=121, s-max-age=123",
        CacheControl::default()
            .max_age(Duration::from_secs(121))
            .s_max_age(Duration::from_secs(123))
            .to_string()
    );
    assert_eq!(
        "public, max-age=121, s-max-age=123",
        CacheControl::default()
            .cachability(Cachability::Public)
            .max_age(Duration::from_secs(121))
            .s_max_age(Duration::from_secs(123))
            .to_string()
    );
}

#[test]
fn cache_control_without_directives_is_empty() {
    assert_eq!("", CacheControl::default().to_string());
    assert_eq!("public", CacheControl::default().public().to_string());
    assert_eq!(
        "max-age=0",
        CacheControl::default()
            .max_age(Duration::from_millis(999))
            .to_string()
    );
    assert_eq!(
        "max-age=18446744073709551615",
        CacheControl::default()
            .max_age(Duration::from_secs(u64::MAX))
            .to_string()
    );
}

#[test]
fn to_path_names_the_fault() {
    assert_eq!(to_path("aaaa"), Err(Error::InvalidId(InvalidId::TooShort)));
    assert_eq!(
        to_path(&"a".repeat(91)),
        Err(Error::InvalidId(InvalidId::TooLong))
    );
    assert_eq!(to_path("aa/aa"), Err(Error::InvalidId(InvalidId::Invalid)));
    assert_eq!(to_path("abcdefgh").unwrap(), "a/b/cdefgh");
    assert_eq!(to_path(&"b".repeat(90)).unwrap().len(), 92);
}

#[test]
fn hex_lower_writes_two_digits_for_each_byte() {
    assert_eq!(hex_lower(&[]), "");
    assert_eq!(hex_lower(&[0]), "00");
    assert_eq!(hex_lower(&[0x0f, 0xa0, 0xff, 0x09, 0x1b]), "0fa0ff091b");
}

#[test]
fn base64_is_url_safe_without_padding() {
    assert_eq!(b64_encode(b""), "");
    assert_eq!(b64_encode(b"a"), "YQ");
    assert_eq!(b64_encode(&[0xfb, 0xff]), "-_8");
    assert_eq!(b64_decode(b"YQ"), Ok(b"a".to_vec()));
    assert_eq!(b64_decode(b"-_8"), Ok(vec![0xfb, 0xff]));
    assert_eq!(b64_decode(b"Y"), Err(Error::InvalidBase64));
    assert_eq!(b64_decode(b"Y Q"), Err(Error::InvalidBase64));
    assert_eq!(b64_decode(b"+/8"), Err(Error::InvalidBase64));
}

#[test]
fn random_string_encodes_its_bytes() {
    assert_eq!(random_string([1u8, 2, 3]), "AQID");
    assert_eq!(random_string::<0>([]), "");
}

#[test]
fn short_id_takes_the_head_of_the_hash() {
    let hash = [1u8, 2, 3, 4, 5, 6];
    assert_eq!(hash_to_short_id(&hash, 3), Ok("AQID".to_string()));
    assert_eq!(hash_to_short_id(&hash, 0), Ok(String::new()));
    assert_eq!(hash_to_short_id(&hash, 6), Ok("AQIDBAUG".to_string()));
    assert_eq!(hash_to_short_id(&hash, 7), Err(Error::HashTooSmall));
}

#[test]
fn link_header_lists_each_resource() {
    assert_eq!(to_link(&[], "preload"), "");
    let one = [Prefetch::Image("/a.png".to_string())];
    assert_eq!(to_link(&one, "preload"), "</a.png>;rel=preload;as=image");
    let two = [
        Prefetch::Image("/a.png".to_string()),
        Prefetch::Image("/b.png".to_string()),
    ];
    assert_eq!(
        to_link(&two, "prefetch"),
        "</a.png>;rel=prefetch;as=image, </b.png>;rel=prefetch;as=image"
    );
    assert_eq!(two[0].url(), "/a.png");
    assert_eq!(two[0].typ(), "image");
    assert_eq!(Prefetch::Image("x".to_string()).into_url(), "x");
}

#[test]
fn etag_forms() {
    assert_eq!(Etag::strong("abc").to_string(), "\"abc\"");
    assert_eq!(Etag::weak("abc").to_string(), "W/\"abc\"");
    assert_eq!(Etag::strong("abc").git("1f2e").to_string(), "\"abc.1f2e\"");
    assert_eq!(Etag::weak("").git("v1").to_string(), "W/\".v1\"");
}

#[test]
fn short_ids_of_4_to_67_bytes_are_ids() {
    let hash = [0xabu8; 80];
    for bytes in 0..=80usize {
        let id = hash_to_short_id(&hash, bytes).unwrap();
        assert_eq!(id.len(), bytes / 3 * 4 + [0, 2, 3][bytes % 3]);
        assert_eq!(Id::from_str(&id).is_ok(), (4..=67).contains(&bytes), "{bytes}");
    }
    assert_eq!(
        Id::from_str(&hash_to_short_id(&hash, 3).unwrap()).unwrap_err(),
        InvalidId::TooShort
    );
    assert_eq!(
        Id::from_str(&hash_to_short_id(&hash, 68).unwrap()).unwrap_err(),
        InvalidId::TooLong
    );
    let all: Vec<u8> = (0..=255).collect();
    assert!(b64_encode(&all)
        .chars()
        .all(|c| c.is_ascii_alphanumeric() || c == '-' || c == '_'));
    assert_eq!(random_string([0u8; 16]).len(), 22);
}
