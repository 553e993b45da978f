use pobbin::id::{Id, InvalidId, InvalidPasteId, PasteId, UserPasteId};
use pobbin::user::{InvalidUser, User};

fn user_paste(user: &str, id: &str) -> UserPasteId {
    UserPasteId {
        user: User::from_str(user).unwrap(),
        id: Id::from_str(id).unwrap(),
    }
}

#[test]
fn id_length_bounds() {
    assert_eq!(Id::from_str("").unwrap_err(), InvalidId::TooShort);
    assert_eq!(Id::from_str("abcd").unwrap_err(), InvalidId::TooShort);
    assert_eq!(Id::from_str("abcde").unwrap().as_str(), "abcde");
    assert_eq!(Id::from_str(&"a".repeat(90)).unwrap().as_str().len(), 90);
    assert_eq!(Id::from_str(&"a".repeat(91)).unwrap_err(), InvalidId::TooLong);
    assert_eq!(Id::try_from("abcde".to_string()).unwrap().into_string(), "abcde");
}

#[test]
fn ids_are_ordered_as_their_texts() {
    let a = Id::from_str("aaaaa").unwrap();
    let b = Id::from_str("aaaab").unwrap();
    let c = Id::from_str("aaaaaa").unwrap();
    assert!(a < b);
    assert!(a < c);
    assert!(c < b);
    assert_eq!(a.clone().max(b.clone()), b);
}

#[test]
fn id_alphabet() {
    assert!(Id::from_str("azAZ09_-").is_ok());
    assert_eq!(Id::from_str("abc de").unwrap_err(), InvalidId::Invalid);
    assert_eq!(Id::from_str("abc/de").unwrap_err(), InvalidId::Invalid);
    assert_eq!(Id::from_str("abc:de").unwrap_err(), InvalidId::Invalid);
    assert_eq!(Id::from_str("abcd\u{e9}").unwrap_err(), InvalidId::Invalid);
    // the length is that of the encoding, and is judged first
    assert_eq!(Id::from_str("\u{e9}\u{e9}").unwrap_err(), InvalidId::TooShort);
    assert_eq!(Id::from_str(&"\u{e9}".repeat(46)).unwrap_err(), InvalidId::TooLong);
}

#[test]
fn id_messages() {
    assert_eq!(InvalidId::TooShort.message(), "Id too short");
    assert_eq!(InvalidId::TooLong.message(), "Id too long");
    assert_eq!(
        InvalidId::Invalid.message(),
        "Invalid Id, allowed characters: [0-9a-zA-Z_-]"
    );
    assert_eq!(InvalidUser::TooLong.message(), "Username too long");
    assert_eq!(InvalidUser::Invalid.message(), "Invalid Username");
    assert_eq!(
        InvalidPasteId::InvalidUser(InvalidUser::Invalid).message(),
        "Invalid Username"
    );
    assert_eq!(
        InvalidPasteId::InvalidId(InvalidId::TooShort).message(),
        "Id too short"
    );
}

#[test]
fn user_names() {
    assert_eq!(User::from_str("alice").unwrap().as_str(), "alice");
    assert_eq!(User::from_str("").unwrap().as_str(), "");
    assert!(User::from_str(&"a".repeat(30)).is_ok());
    assert_eq!(User::from_str(&"a".repeat(31)).unwrap_err(), InvalidUser::TooLong);
    // counted in characters, not bytes
    assert!(User::from_str(&"\u{e9}".repeat(30)).is_ok());
    assert_eq!(User::from_str("a/b").unwrap_err(), InvalidUser::Invalid);
    assert_eq!(User::from_str("a:b").unwrap_err(), InvalidUser::Invalid);
    // a separator as the 31st character is found before the length is
    let mut late = "a".repeat(30);
    late.push(':');
    assert_eq!(User::from_str(&late).unwrap_err(), InvalidUser::Invalid);
    let mut later = "a".repeat(31);
    later.push(':');
    assert_eq!(User::from_str(&later).unwrap_err(), InvalidUser::TooLong);
    assert_eq!(User::try_from("bob".to_string()).unwrap().into_string(), "bob");
}

#[test]
fn user_normalized_is_lowercase() {
    let user = User::new_unchecked("AlIcE".to_string());
    assert_eq!(user.normalized().as_str(), "alice");
    assert_ne!(user, user.normalized());
    assert_eq!(user.normalized(), User::from_str("alice").unwrap());
    assert_eq!(user.clone(), user);
    assert!(user.same_as(&User::from_str("alice").unwrap()));
    assert!(user.same_as(&User::from_str("ALICE").unwrap()));
    assert!(!user.same_as(&User::from_str("alice2").unwrap()));
}

#[test]
fn paste_id_from_its_parts() {
    let id = Id::from_str("abcde").unwrap();
    assert_eq!(PasteId::from(id.clone()), PasteId::Paste(id));
    let up = user_paste("alice", "abcde");
    assert_eq!(PasteId::from(up.clone()), PasteId::UserPaste(up));
}

#[test]
fn parse_unscoped_round_trips() {
    for text in ["abcde", "A-b_C-0123456789", &"z".repeat(90)] {
        let id = PasteId::from_str(text).unwrap();
        assert_eq!(id, PasteId::Paste(Id::from_str(text).unwrap()));
        assert_eq!(id.to_string(), text);
        assert_eq!(id.id(), text);
        assert_eq!(id.user(), None);
        assert_eq!(PasteId::from_str(&id.to_string()).unwrap(), id);
    }
}

#[test]
fn parse_scoped_round_trips() {
    let id = PasteId::from_str("alice:abcde").unwrap();
    assert_eq!(id, PasteId::UserPaste(user_paste("alice", "abcde")));
    assert_eq!(id.to_string(), "alice:abcde");
    assert_eq!(id.clone().into_string(), "alice:abcde");
    assert_eq!(id.id(), "abcde");
    assert_eq!(id.user().unwrap().as_str(), "alice");
    assert_eq!(user_paste("alice", "abcde").to_string(), "alice:abcde");
    assert_eq!(id.clone().unwrap_user(), user_paste("alice", "abcde"));
    let plain = PasteId::from_str("abcde").unwrap();
    assert_eq!(plain.clone().unwrap_paste(), Id::from_str("abcde").unwrap());
    assert_ne!(plain, id);
}

#[test]
fn parse_rejects() {
    assert_eq!(
        PasteId::from_str("abcd").unwrap_err(),
        InvalidPasteId::InvalidId(InvalidId::TooShort)
    );
    assert_eq!(
        PasteId::from_str(&"a".repeat(91)).unwrap_err(),
        InvalidPasteId::InvalidId(InvalidId::TooLong)
    );
    assert_eq!(
        PasteId::from_str("abc.de").unwrap_err(),
        InvalidPasteId::InvalidId(InvalidId::Invalid)
    );
    assert_eq!(
        PasteId::from_str("a/b:abcde").unwrap_err(),
        InvalidPasteId::InvalidUser(InvalidUser::Invalid)
    );
    assert_eq!(
        PasteId::from_str(&format!("{}:abcde", "u".repeat(31))).unwrap_err(),
        InvalidPasteId::InvalidUser(InvalidUser::TooLong)
    );
    // the user is judged before the id
    assert_eq!(
        PasteId::from_str(&format!("{}:a", "u".repeat(31))).unwrap_err(),
        InvalidPasteId::InvalidUser(InvalidUser::TooLong)
    );
    // split at the first colon: the rest is no id
    assert_eq!(
        PasteId::from_str("alice:ab:cde").unwrap_err(),
        InvalidPasteId::InvalidId(InvalidId::Invalid)
    );
    assert_eq!(
        PasteId::from_str("alice:").unwrap_err(),
        InvalidPasteId::InvalidId(InvalidId::TooShort)
    );
    // an empty user name is a user name
    assert!(PasteId::from_str(":abcde").is_ok());
}

#[test]
fn urls_of_an_unscoped_paste() {
    let id = PasteId::from_str("abcde").unwrap();
    assert_eq!(id.to_url(), "/abcde");
    assert_eq!(id.to_raw_url(), "/abcde/raw");
    assert_eq!(id.to_json_url(), "/abcde/json");
    assert_eq!(id.to_pob_load_url(), "/pob/abcde");
    assert_eq!(id.to_pob_open_url(), "pob://pobbin/abcde");
    assert_eq!(
        id.url_variants(),
        vec![
            "/abcde",
            "/abcde/raw",
            "/abcde/json",
            "/pob/abcde",
            "pob://pobbin/abcde"
        ]
    );
}

#[test]
fn urls_of_a_user_paste() {
    let up = user_paste("alice", "abcde");
    assert_eq!(up.to_user_url(), "/u/alice");
    assert_eq!(up.to_user_api_url(), "/api/internal/user/alice");
    assert_eq!(up.to_paste_url(), "/u/alice/abcde");
    assert_eq!(up.to_paste_edit_url(), "/u/alice/abcde/edit");
    assert_eq!(up.to_raw_url(), "/u/alice/abcde/raw");
    assert_eq!(up.to_json_url(), "/u/alice/abcde/json");
    assert_eq!(up.to_pob_load_url(), "/pob/alice:abcde");
    assert_eq!(up.to_pob_long_load_url(), "/pob/u/alice/abcde");
    assert_eq!(up.to_pob_open_url(), "pob://pobbin/alice:abcde");
    let id = PasteId::UserPaste(up);
    assert_eq!(id.to_url(), "/u/alice/abcde");
    assert_eq!(id.to_raw_url(), "/u/alice/abcde/raw");
    assert_eq!(id.to_json_url(), "/u/alice/abcde/json");
    assert_eq!(id.to_pob_load_url(), "/pob/alice:abcde");
    assert_eq!(id.to_pob_open_url(), "pob://pobbin/alice:abcde");
    let variants = id.url_variants();
    assert_eq!(variants.len(), 9);
    assert!(variants.contains(&id.to_url()));
    assert!(variants.contains(&"/u/alice/abcde/edit".to_string()));
    assert!(variants.contains(&"/u/alice".to_string()));
    assert!(variants.contains(&"/api/internal/user/alice".to_string()));
    assert!(variants.contains(&"/pob/u/alice/abcde".to_string()));
}
