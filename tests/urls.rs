use profile_peek::error::LookupError;
use profile_peek::profile_url::{
    canonical_key, segment_following,
    get_steam_id_from_non_vanity_url, get_username_from_vanity_url, is_vanity_url, normalize_url,
};

#[test]
fn normalize_strips_query_and_fragment() {
    assert_eq!(
        normalize_url("https://steamcommunity.com/profiles/76561198000000000?x=1").unwrap(),
        "https://steamcommunity.com/profiles/76561198000000000"
    );
    assert_eq!(
        normalize_url("https://steamcommunity.com/id/someplayer/#top").unwrap(),
        "https://steamcommunity.com/id/someplayer"
    );
}

#[test]
fn normalize_keeps_only_two_segments() {
    assert_eq!(
        normalize_url("https://steamcommunity.com/id/someplayer/games/?tab=all").unwrap(),
        "https://steamcommunity.com/id/someplayer"
    );
}

#[test]
fn normalize_is_idempotent() {
    let inputs = [
        "https://steamcommunity.com/id/someplayer",
        "https://steamcommunity.com/profiles/76561198000000000",
        "https://STEAMCOMMUNITY.com:443/id/Some%20Player?x=1#y",
        "https://steamcommunity.com/id/someplayer/extra",
    ];
    for u in inputs {
        let once = normalize_url(u).unwrap();
        let twice = normalize_url(&once).unwrap();
        assert_eq!(once, twice);
    }
}

#[test]
fn normalize_rejects_unrecognised_shapes() {
    for u in [
        "https://steamcommunity.com/id",
        "https://steamcommunity.com/profiles",
        "https://steamcommunity.com/user/someplayer",
        "https://steamcommunity.com/",
        "not a url",
        "",
        "mailto:someone@example.com",
    ] {
        assert_eq!(normalize_url(u), Err(LookupError::InvalidUrl), "{}", u);
    }
}

#[test]
fn classify_vanity_and_direct() {
    assert!(is_vanity_url("https://steamcommunity.com/id/someplayer"));
    assert!(!is_vanity_url("https://steamcommunity.com/profiles/123"));
    assert!(!is_vanity_url("https://steamcommunity.com/id"));
    assert!(!is_vanity_url("not a url"));
}

#[test]
fn direct_identifier_is_taken_verbatim() {
    assert_eq!(
        get_steam_id_from_non_vanity_url("https://steamcommunity.com/profiles/76561198000000000"),
        Some("76561198000000000".to_string())
    );
    assert_eq!(get_steam_id_from_non_vanity_url("https://steamcommunity.com/id/x"), None);
    assert_eq!(get_steam_id_from_non_vanity_url("https://steamcommunity.com/profiles"), None);
}

#[test]
fn vanity_name_is_second_segment() {
    assert_eq!(
        get_username_from_vanity_url("https://steamcommunity.com/id/someplayer"),
        Some("someplayer".to_string())
    );
    assert_eq!(get_username_from_vanity_url("https://steamcommunity.com/profiles/1"), None);
}

fn parts(base: &str, segments: &[&str]) -> profile_peek::profile_url::UrlParts {
    profile_peek::profile_url::UrlParts {
        base: base.to_string(),
        segments: segments.iter().map(|s| s.to_string()).collect(),
    }
}

#[test]
fn canonical_key_from_parts() {
    assert_eq!(
        canonical_key(&parts("https://h", &["id", "x", "y"])).as_deref(),
        Some("https://h/id/x")
    );
    assert_eq!(
        canonical_key(&parts("http://u:p@h:8080", &["profiles", ""])).as_deref(),
        Some("http://u:p@h:8080/profiles/")
    );
    assert_eq!(canonical_key(&parts("https://h", &["id"])), None);
    assert_eq!(canonical_key(&parts("https://h", &["ID", "x"])), None);
    assert_eq!(canonical_key(&parts("https://h", &["user", "x"])), None);
}

#[test]
fn segment_following_from_parts() {
    assert_eq!(segment_following(&parts("https://h", &["id", "x"]), "id").as_deref(), Some("x"));
    assert_eq!(segment_following(&parts("https://h", &["id", "x"]), "profiles"), None);
    assert_eq!(segment_following(&parts("https://h", &["profiles"]), "profiles"), None);
}
