use profile_peek::faceit::{
    aggregate, build_profile_data, from_api, AggregatedStats, FaceitPlayerDetailsAPIResponse,
    GameDetails, Games, MatchItem, MatchStats, Platforms, PlayerLastMatchesResponse, Ratio,
    Settings,
};
use profile_peek::numbers::{parse_count, parse_decimal};

fn record(result: &str, kills: &str, deaths: &str, headshots: &str, adr: &str, kr: &str) -> MatchItem {
    let s = |v: &str| v.to_string();
    MatchItem {
        stats: MatchStats {
            adr: s(adr),
            assists: s("3"),
            best_of: s("1"),
            competition_id: s("c"),
            created_at: s("2024-01-01"),
            deaths: s(deaths),
            double_kills: s("2"),
            final_score: s("13"),
            first_half_score: s("7"),
            game: s("cs2"),
            game_mode: s("5v5"),
            headshots: s(headshots),
            headshot_percentage: s("50"),
            kd_ratio: s("1.0"),
            kr_ratio: s(kr),
            kills: s(kills),
            mvps: s("1"),
            map: s("de_dust2"),
            match_finished_at: 1700000000,
            match_id: s("m"),
            match_round: s("1"),
            nickname: s("nick"),
            overtime_score: s("0"),
            penta_kills: s("0"),
            player_id: s("p"),
            quadro_kills: s("0"),
            region: s("EU"),
            result: s(result),
            rounds: s("24"),
            score: s("13 / 11"),
            second_half_score: s("6"),
            team: s("team_a"),
            triple_kills: s("1"),
            updated_at: s("2024-01-01"),
            winner: s("team_a"),
        },
    }
}

fn window(items: Vec<MatchItem>) -> Option<PlayerLastMatchesResponse> {
    Some(PlayerLastMatchesResponse { start: 0, end: items.len() as u64, items })
}

fn zero() -> Ratio {
    Ratio { num: 0, den: 1 }
}

pub fn profile(activated_at: &str, cs2: Option<(u8, u16)>) -> FaceitPlayerDetailsAPIResponse {
    let game = |(level, elo): (u8, u16)| GameDetails {
        region: "EU".to_string(),
        game_player_id: "765".to_string(),
        skill_level: level,
        faceit_elo: elo,
        game_player_name: "nick".to_string(),
        skill_level_label: None,
        regions: None,
        game_profile_id: None,
    };
    FaceitPlayerDetailsAPIResponse {
        player_id: "faceit-1".to_string(),
        nickname: "nick".to_string(),
        avatar: Some("avatar.png".to_string()),
        country: "de".to_string(),
        cover_image: None,
        platforms: Platforms { steam: "765".to_string() },
        games: Games { cs2: cs2.map(game), csgo: None },
        settings: Settings { language: "en".to_string() },
        friends_ids: vec![],
        new_steam_id: None,
        steam_id_64: "765".to_string(),
        steam_nickname: "nick".to_string(),
        memberships: vec!["free".to_string()],
        faceit_url: "https://www.faceit.com/{lang}/players/nick".to_string(),
        membership_type: None,
        cover_featured_image: None,
        infractions: None,
        verified: true,
        activated_at: activated_at.to_string(),
    }
}

fn all_zero() -> AggregatedStats {
    AggregatedStats {
        matches: 0,
        adr: zero(),
        wins: 0,
        losses: 0,
        win_rate: 0,
        kills: 0,
        deaths: 0,
        kd_ratio: zero(),
        kr_ratio: zero(),
        headshots: 0,
        headshot_percentage: zero(),
        double_kills: 0,
        triple_kills: 0,
        quadro_kills: 0,
        penta_kills: 0,
    }
}

#[test]
fn aggregate_of_nothing_is_zero() {
    assert_eq!(aggregate(&None), all_zero());
    assert_eq!(aggregate(&window(vec![])), all_zero());
}

#[test]
fn all_wins_give_full_win_rate() {
    let items = (0..7).map(|_| record("1", "10", "5", "5", "80", "0.7")).collect();
    let s = aggregate(&window(items));
    assert_eq!(s.win_rate, 100);
    assert_eq!((s.wins, s.losses), (7, 0));
}

#[test]
fn all_losses_give_zero_win_rate() {
    let items = vec![record("0", "1", "1", "0", "1", "1"), record("", "1", "1", "0", "1", "1")];
    let s = aggregate(&window(items));
    assert_eq!(s.win_rate, 0);
    assert_eq!((s.wins, s.losses), (0, 2));
}

#[test]
fn three_wins_one_loss_is_seventy_five() {
    let items = vec![
        record("1", "1", "1", "0", "1", "1"),
        record("1", "1", "1", "0", "1", "1"),
        record("0", "1", "1", "0", "1", "1"),
        record("1", "1", "1", "0", "1", "1"),
    ];
    assert_eq!(aggregate(&window(items)).win_rate, 75);
}

#[test]
fn win_rate_rounds_halves_up() {
    // 1 of 8 is 12.5 percent
    let mut items = vec![record("1", "0", "0", "0", "0", "0")];
    items.extend((0..7).map(|_| record("0", "0", "0", "0", "0", "0")));
    assert_eq!(aggregate(&window(items)).win_rate, 13);
    // 1 of 3 is 33.3 percent, 2 of 3 is 66.7 percent
    let one = vec![record("1", "0", "0", "0", "0", "0"), record("0", "0", "0", "0", "0", "0"), record("0", "0", "0", "0", "0", "0")];
    assert_eq!(aggregate(&window(one)).win_rate, 33);
    let two = vec![record("1", "0", "0", "0", "0", "0"), record("1", "0", "0", "0", "0", "0"), record("0", "0", "0", "0", "0", "0")];
    assert_eq!(aggregate(&window(two)).win_rate, 67);
}

#[test]
fn no_deaths_gives_zero_kd_and_no_kills_zero_headshots() {
    let s = aggregate(&window(vec![record("1", "12", "0", "4", "90", "0.8")]));
    assert_eq!(s.kd_ratio, zero());
    assert_eq!(s.headshot_percentage, Ratio { num: 400, den: 12 });
    let s = aggregate(&window(vec![record("1", "0", "3", "0", "10", "0.1")]));
    assert_eq!(s.headshot_percentage, zero());
    assert_eq!(s.kd_ratio, Ratio { num: 0, den: 3 });
}

#[test]
fn totals_and_averages() {
    let items = vec![
        record("1", "20", "10", "8", "85.5", "0.75"),
        record("0", "10", "15", "2", "64.25", "0.5"),
    ];
    let s = aggregate(&window(items));
    assert_eq!(s.matches, 2);
    assert_eq!((s.kills, s.deaths, s.headshots), (30, 25, 10));
    assert_eq!((s.double_kills, s.triple_kills, s.quadro_kills, s.penta_kills), (4, 2, 0, 0));
    assert_eq!(s.kd_ratio, Ratio { num: 30, den: 25 });
    assert_eq!(s.headshot_percentage, Ratio { num: 1000, den: 30 });
    // (85.5 + 64.25) / 2, in millionths over two matches
    assert_eq!(s.adr, Ratio { num: 149_750_000, den: 2_000_000 });
    assert_eq!(s.kr_ratio, Ratio { num: 1_250_000, den: 2_000_000 });
}

#[test]
fn unreadable_fields_are_skipped() {
    let items = vec![
        record("1", "abc", "-1", "", "n/a", "1e3"),
        record("0", "70000", "4", "2", "50", "0.5"),
    ];
    let s = aggregate(&window(items));
    assert_eq!(s.matches, 2);
    assert_eq!(s.kills, 0);
    assert_eq!(s.deaths, 4);
    assert_eq!(s.headshots, 2);
    assert_eq!(s.adr, Ratio { num: 50_000_000, den: 2_000_000 });
    assert_eq!(s.kr_ratio, Ratio { num: 500_000, den: 2_000_000 });
    assert_eq!(s.win_rate, 50);
}

#[test]
fn count_fields() {
    assert_eq!(parse_count("0"), Some(0));
    assert_eq!(parse_count("+17"), Some(17));
    assert_eq!(parse_count("007"), Some(7));
    assert_eq!(parse_count("65535"), Some(65535));
    assert_eq!(parse_count("65536"), None);
    assert_eq!(parse_count("99999999999999999999"), None);
    assert_eq!(parse_count(""), None);
    assert_eq!(parse_count("+"), None);
    assert_eq!(parse_count("-1"), None);
    assert_eq!(parse_count("1.5"), None);
    assert_eq!(parse_count(" 1"), None);
}

#[test]
fn decimal_fields() {
    assert_eq!(parse_decimal("85.3"), Some(85_300_000));
    assert_eq!(parse_decimal("0.75"), Some(750_000));
    assert_eq!(parse_decimal("12"), Some(12_000_000));
    assert_eq!(parse_decimal("+.5"), Some(500_000));
    assert_eq!(parse_decimal("3."), Some(3_000_000));
    assert_eq!(parse_decimal("1.23456789"), Some(1_234_567));
    assert_eq!(parse_decimal("18446744073709.551615"), Some(u64::MAX));
    assert_eq!(parse_decimal("18446744073709.551616"), None);
    assert_eq!(parse_decimal("."), None);
    assert_eq!(parse_decimal(""), None);
    assert_eq!(parse_decimal("1.2.3"), None);
    assert_eq!(parse_decimal("1e3"), None);
    assert_eq!(parse_decimal("-2"), None);
}

#[test]
fn from_api_without_profile_is_none() {
    assert!(from_api(None, window(vec![record("1", "1", "1", "1", "1", "1")])).is_none());
}

#[test]
fn from_api_reads_activation_time_and_skill() {
    let d = from_api(Some(profile("2020-01-01T00:00:00Z", Some((10, 2100)))), None).unwrap();
    assert_eq!(d.account_created, 1577836800);
    assert_eq!((d.level, d.elo), (10, 2100));
    assert_eq!(d.nickname, "nick");
    assert_eq!(d.country, "de");
    assert_eq!(d.avatar.as_deref(), Some("avatar.png"));
    assert_eq!(d.stats, all_zero());
    let d = from_api(Some(profile("2021-03-04T05:06:07+02:00", None)), None).unwrap();
    assert_eq!(d.account_created, 1614827167);
    assert_eq!((d.level, d.elo), (0, 0));
}

#[test]
fn from_api_unreadable_activation_time_is_zero() {
    let d = from_api(Some(profile("yesterday", Some((3, 900)))), None).unwrap();
    assert_eq!(d.account_created, 0);
    assert_eq!((d.level, d.elo), (3, 900));
}

#[test]
fn build_profile_data_merges() {
    let stats = aggregate(&window(vec![record("1", "2", "1", "1", "50", "0.5")]));
    let d = build_profile_data(profile("x", None), Some(42), stats);
    assert_eq!(d.account_created, 42);
    assert_eq!(d.stats, stats);
    let d = build_profile_data(profile("x", Some((5, 1200))), None, stats);
    assert_eq!(d.account_created, 0);
    assert_eq!((d.level, d.elo), (5, 1200));
}
