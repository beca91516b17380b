use profile_peek::cache;
use profile_peek::cache::decimal_bytes;
use profile_peek::error::LookupError;
use profile_peek::headers::CacheFairing;
use profile_peek::player::create_player;
use profile_peek::steam::{cs2_hours_from, vac_ban_info_from, OwnedGame, VacBanInfo};
use profile_peek::text::{eq_text, replace_text, starts_with_text};

#[test]
fn set_command_packs_key_and_value() {
    assert_eq!(
        cache::set("k", "value").get_packed_command(),
        b"*3\r\n$3\r\nSET\r\n$1\r\nk\r\n$5\r\nvalue\r\n".to_vec()
    );
}

#[test]
fn get_command_packs_key() {
    assert_eq!(
        cache::get("https://h/id/x").get_packed_command(),
        b"*2\r\n$3\r\nGET\r\n$14\r\nhttps://h/id/x\r\n".to_vec()
    );
}

#[test]
fn expire_command_packs_seconds_in_decimal() {
    assert_eq!(
        cache::expire("k", 86400).get_packed_command(),
        b"*3\r\n$6\r\nEXPIRE\r\n$1\r\nk\r\n$5\r\n86400\r\n".to_vec()
    );
}

#[test]
fn decimal_digits() {
    assert_eq!(decimal_bytes(0), b"0".to_vec());
    assert_eq!(decimal_bytes(7), b"7".to_vec());
    assert_eq!(decimal_bytes(1050), b"1050".to_vec());
    assert_eq!(decimal_bytes(u64::MAX), b"18446744073709551615".to_vec());
}

#[test]
fn vac_ban_fields() {
    assert_eq!(
        vac_ban_info_from(Some(true), Some(2), Some(30)),
        VacBanInfo { is_banned: true, ban_count: 2, days_since_last_ban: Some(30) }
    );
    assert_eq!(
        vac_ban_info_from(None, None, Some(-1)),
        VacBanInfo { is_banned: false, ban_count: 0, days_since_last_ban: None }
    );
    assert_eq!(
        vac_ban_info_from(Some(false), Some((1u64 << 32) + 5), None),
        VacBanInfo { is_banned: false, ban_count: 5, days_since_last_ban: None }
    );
}

#[test]
fn cs2_hours_from_library() {
    let g = |app: Option<u64>, minutes: Option<u64>| OwnedGame { app_id: app, playtime_forever: minutes };
    assert_eq!(cs2_hours_from(&vec![]), None);
    assert_eq!(cs2_hours_from(&vec![g(Some(440), Some(600)), g(Some(730), Some(125))]), Some(2));
    assert_eq!(cs2_hours_from(&vec![g(Some(730), None), g(Some(730), Some(60))]), Some(1));
    assert_eq!(cs2_hours_from(&vec![g(None, Some(6000)), g(Some(570), Some(60))]), None);
}

#[test]
fn cache_header_skips_player_routes() {
    let f = CacheFairing;
    assert_eq!(f.cache_control("/player/abc"), None);
    assert_eq!(f.cache_control("/player"), None);
    assert_eq!(f.cache_control("/assets/app.js").as_deref(), Some("public, max-age=31536000"));
    assert_eq!(f.cache_control("/api/v1/player/x").as_deref(), Some("public, max-age=31536000"));
}

#[test]
fn error_messages() {
    assert_eq!(LookupError::InvalidUrl.message(), "Invalid URL format");
    assert_eq!(
        LookupError::MalformedDirectUrl { url: "u".to_string() }.message(),
        "Could not resolve steam id from profile url: u"
    );
    assert_eq!(
        LookupError::VanityResolutionFailed { url: "v".to_string() }.message(),
        "Could not resolve steam id from vanity URL: v"
    );
    assert_eq!(LookupError::SerializationFailed.message(), "Error serializing player");
    assert_eq!(LookupError::CacheUnavailable.message(), "Cache unavailable");
}

#[test]
fn text_replacement() {
    assert_eq!(replace_text("https://f.com/{lang}/p/{lang}", "{lang}", "en"), "https://f.com/en/p/en");
    assert_eq!(replace_text("no marker", "{lang}", "en"), "no marker");
    assert_eq!(replace_text("aaa", "aa", "b"), "ba");
    assert_eq!(replace_text("", "x", "y"), "");
    assert_eq!(replace_text("ünï{lang}", "{lang}", "de"), "ünïde");
}

#[test]
fn text_comparisons() {
    assert!(eq_text("id", "id"));
    assert!(!eq_text("id", "ids"));
    assert!(!eq_text("id", "iD"));
    assert!(starts_with_text("/player/x", "/player"));
    assert!(!starts_with_text("/play", "/player"));
    assert!(starts_with_text("abc", ""));
}

#[test]
fn player_links_without_enrichment() {
    let p = create_player("765", None, None);
    assert_eq!(p.steam_id, "765");
    assert!(p.faceit_data.is_none());
    let urls: Vec<&str> = p.sites.iter().map(|s| s.url.as_str()).collect();
    assert_eq!(
        urls,
        vec![
            "https://steamcommunity.com/profiles/765",
            "https://leetify.com/app/profile/765",
            "https://csstats.gg/player/765",
        ]
    );
}
