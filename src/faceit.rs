use vstd::prelude::*;

use crate::numbers::{count_field, decimal_field, parse_count, parse_decimal, MAX_COUNT, MICROS};
use crate::text::eq_text;

verus! {

/// Provider data whose shape is not relied on; it is carried, never read.
#[verifier::external_type_specification]
#[verifier::external_body]
pub struct ExJsonValue(serde_json::Value);

pub struct Platforms {
    pub steam: String,
}

pub struct GameDetails {
    pub region: String,
    pub game_player_id: String,
    pub skill_level: u8,
    pub faceit_elo: u16,
    pub game_player_name: String,
    pub skill_level_label: Option<String>,
    pub regions: Option<serde_json::Value>,
    pub game_profile_id: Option<String>,
}

pub struct Games {
    pub cs2: Option<GameDetails>,
    pub csgo: Option<GameDetails>,
}

pub struct Settings {
    pub language: String,
}

/// A player's profile as the statistics provider reports it.
pub struct FaceitPlayerDetailsAPIResponse {
    pub player_id: String,
    pub nickname: String,
    pub avatar: Option<String>,
    pub country: String,
    pub cover_image: Option<String>,
    pub platforms: Platforms,
    pub games: Games,
    pub settings: Settings,
    pub friends_ids: Vec<String>,
    pub new_steam_id: Option<String>,
    pub steam_id_64: String,
    pub steam_nickname: String,
    pub memberships: Vec<String>,
    pub faceit_url: String,
    pub membership_type: Option<String>,
    pub cover_featured_image: Option<String>,
    pub infractions: Option<serde_json::Value>,
    pub verified: bool,
    pub activated_at: String,
}

/// One match's raw statistics, every number still as the provider wrote it.
pub struct MatchStats {
    pub adr: String,
    pub assists: String,
    pub best_of: String,
    pub competition_id: String,
    pub created_at: String,
    pub deaths: String,
    pub double_kills: String,
    pub final_score: String,
    pub first_half_score: String,
    pub game: String,
    pub game_mode: String,
    pub headshots: String,
    pub headshot_percentage: String,
    pub kd_ratio: String,
    pub kr_ratio: String,
    pub kills: String,
    pub mvps: String,
    pub map: String,
    pub match_finished_at: u64,
    pub match_id: String,
    pub match_round: String,
    pub nickname: String,
    pub overtime_score: String,
    pub penta_kills: String,
    pub player_id: String,
    pub quadro_kills: String,
    pub region: String,
    pub result: String,
    pub rounds: String,
    pub score: String,
    pub second_half_score: String,
    pub team: String,
    pub triple_kills: String,
    pub updated_at: String,
    pub winner: String,
}

pub struct MatchItem {
    pub stats: MatchStats,
}

/// A window of a player's most recent matches.
pub struct PlayerLastMatchesResponse {
    pub start: u64,
    pub end: u64,
    pub items: Vec<MatchItem>,
}

/// A non-negative fraction `num / den`, with `den > 0`.
#[derive(Clone, Copy, Debug, PartialEq, Eq, Structural)]
pub struct Ratio {
    pub num: u128,
    pub den: u128,
}

/// `num / den`, or zero when `den` is zero.
pub open spec fn share(num: nat, den: nat) -> (nat, nat) {
    if den == 0 {
        (0, 1)
    } else {
        (num, den)
    }
}

impl Ratio {
    pub open spec fn view(self) -> (nat, nat) {
        (self.num as nat, self.den as nat)
    }

    /// `num / den`, or zero when `den` is zero.
    pub fn share(num: u128, den: u128) -> (r: Ratio)
        ensures
            r.view() == share(num as nat, den as nat),
            r.den > 0,
    {
        if den == 0 {
            Ratio { num: 0, den: 1 }
        } else {
            Ratio { num, den }
        }
    }
}

/// Summary statistics over a window of matches.
#[derive(Clone, Copy, Debug, PartialEq, Eq, Structural)]
pub struct AggregatedStats {
    pub matches: u64,
    /// average damage per round
    pub adr: Ratio,
    pub wins: u64,
    pub losses: u64,
    /// wins as a percentage of all matches, rounded to the nearest integer
    pub win_rate: u8,
    pub kills: u128,
    pub deaths: u128,
    pub kd_ratio: Ratio,
    /// average kills per round
    pub kr_ratio: Ratio,
    pub headshots: u128,
    pub headshot_percentage: Ratio,
    pub double_kills: u128,
    pub triple_kills: u128,
    pub quadro_kills: u128,
    pub penta_kills: u128,
}

/// The per-match quantities that a window adds up.
pub enum Tally {
    Adr,
    Wins,
    Kills,
    Deaths,
    KrRatio,
    Headshots,
    DoubleKills,
    TripleKills,
    QuadroKills,
    PentaKills,
}

/// A count field, or nothing when it does not read as one.
pub open spec fn count_or_zero(s: Seq<char>) -> nat {
    match count_field(s) {
        Some(v) => v,
        None => 0,
    }
}

/// A decimal field in millionths, or nothing when it does not read as one.
pub open spec fn decimal_or_zero(s: Seq<char>) -> nat {
    match decimal_field(s) {
        Some(v) => v,
        None => 0,
    }
}

/// A match counts as won exactly when its result flag is `1`.
pub open spec fn is_win(st: MatchStats) -> bool {
    st.result@ == "1"@
}

pub open spec fn tally_value(t: Tally, st: MatchStats) -> nat {
    match t {
        Tally::Adr => decimal_or_zero(st.adr@),
        Tally::Wins => if is_win(st) {
            1
        } else {
            0
        },
        Tally::Kills => count_or_zero(st.kills@),
        Tally::Deaths => count_or_zero(st.deaths@),
        Tally::KrRatio => decimal_or_zero(st.kr_ratio@),
        Tally::Headshots => count_or_zero(st.headshots@),
        Tally::DoubleKills => count_or_zero(st.double_kills@),
        Tally::TripleKills => count_or_zero(st.triple_kills@),
        Tally::QuadroKills => count_or_zero(st.quadro_kills@),
        Tally::PentaKills => count_or_zero(st.penta_kills@),
    }
}

/// The sum of one quantity over a window.
pub open spec fn total(items: Seq<MatchItem>, t: Tally) -> nat
    decreases items.len(),
{
    if items.len() == 0 {
        0
    } else {
        total(items.drop_last(), t) + tally_value(t, items.last().stats)
    }
}

/// `part / whole` as a percentage rounded to the nearest integer, halves
/// upwards; zero when `whole` is zero.
pub open spec fn rounded_percent(part: nat, whole: nat) -> nat {
    if whole == 0 {
        0
    } else {
        (200 * part + whole) / (2 * whole)
    }
}

/// `s` is the summary of the window `items`.
pub open spec fn summarizes(s: AggregatedStats, items: Seq<MatchItem>) -> bool {
    let n = items.len();
    let wins = total(items, Tally::Wins);
    &&& s.matches == n
    &&& s.adr.view() == share(total(items, Tally::Adr), (n * MICROS) as nat)
    &&& s.wins == wins
    &&& s.losses == n - wins
    &&& s.win_rate == rounded_percent(wins, n)
    &&& s.kills == total(items, Tally::Kills)
    &&& s.deaths == total(items, Tally::Deaths)
    &&& s.kd_ratio.view() == share(total(items, Tally::Kills), total(items, Tally::Deaths))
    &&& s.kr_ratio.view() == share(total(items, Tally::KrRatio), (n * MICROS) as nat)
    &&& s.headshots == total(items, Tally::Headshots)
    &&& s.headshot_percentage.view() == share(
        (100 * total(items, Tally::Headshots)) as nat,
        total(items, Tally::Kills),
    )
    &&& s.double_kills == total(items, Tally::DoubleKills)
    &&& s.triple_kills == total(items, Tally::TripleKills)
    &&& s.quadro_kills == total(items, Tally::QuadroKills)
    &&& s.penta_kills == total(items, Tally::PentaKills)
}

/// The window that an optional match history stands for: none is empty.
pub open spec fn window(matches: Option<PlayerLastMatchesResponse>) -> Seq<MatchItem> {
    match matches {
        Some(m) => m.items@,
        None => Seq::empty(),
    }
}

pub open spec fn tally_bound(t: Tally) -> nat {
    match t {
        Tally::Adr | Tally::KrRatio => u64::MAX as nat,
        Tally::Wins => 1,
        _ => MAX_COUNT as nat,
    }
}

proof fn lemma_tally_bound(t: Tally, st: MatchStats)
    ensures
        tally_value(t, st) <= tally_bound(t),
{
}

proof fn lemma_total_push(items: Seq<MatchItem>, i: int)
    requires
        0 <= i < items.len(),
    ensures
        forall|t: Tally| #[trigger]
            total(items.take(i + 1), t) == total(items.take(i), t) + tally_value(
                t,
                items[i].stats,
            ),
{
    assert(items.take(i + 1).drop_last() == items.take(i));
}

proof fn lemma_total_bounded(items: Seq<MatchItem>, t: Tally)
    ensures
        total(items, t) <= tally_bound(t) * items.len(),
    decreases items.len(),
{
    if items.len() > 0 {
        lemma_total_bounded(items.drop_last(), t);
        lemma_tally_bound(t, items.last().stats);
        assert(tally_bound(t) * (items.len() - 1) + tally_bound(t) == tally_bound(t)
            * items.len()) by (nonlinear_arith);
    }
}

proof fn lemma_rounded_percent_at_most_100(part: nat, whole: nat)
    requires
        part <= whole,
    ensures
        rounded_percent(part, whole) <= 100,
{
    if whole > 0 {
        assert((200 * part + whole) / (2 * whole) <= 100) by (nonlinear_arith)
            requires
                part <= whole,
                whole > 0,
        ;
    }
}

proof fn lemma_wins_at_most_matches(items: Seq<MatchItem>)
    ensures
        total(items, Tally::Wins) <= items.len(),
{
    lemma_total_bounded(items, Tally::Wins);
}

/// Folds a window of matches into summary statistics. A missing window is
/// an empty one; a field that does not read as a number adds nothing.
pub fn aggregate(matches: &Option<PlayerLastMatchesResponse>) -> (r: AggregatedStats)
    ensures
        summarizes(r, window(*matches)),
{
    let empty: Vec<MatchItem> = Vec::new();
    let items: &Vec<MatchItem> = match matches {
        Some(m) => &m.items,
        None => &empty,
    };
    assert(items@ == window(*matches));
    let n = items.len();
    let mut adr: u128 = 0;
    let mut wins: u64 = 0;
    let mut kills: u128 = 0;
    let mut deaths: u128 = 0;
    let mut kr: u128 = 0;
    let mut headshots: u128 = 0;
    let mut double_kills: u128 = 0;
    let mut triple_kills: u128 = 0;
    let mut quadro_kills: u128 = 0;
    let mut penta_kills: u128 = 0;
    let mut i: usize = 0;
    while i < n
        invariant
            n == items@.len(),
            i <= n,
            adr == total(items@.take(i as int), Tally::Adr),
            wins == total(items@.take(i as int), Tally::Wins),
            kills == total(items@.take(i as int), Tally::Kills),
            deaths == total(items@.take(i as int), Tally::Deaths),
            kr == total(items@.take(i as int), Tally::KrRatio),
            headshots == total(items@.take(i as int), Tally::Headshots),
            double_kills == total(items@.take(i as int), Tally::DoubleKills),
            triple_kills == total(items@.take(i as int), Tally::TripleKills),
            quadro_kills == total(items@.take(i as int), Tally::QuadroKills),
            penta_kills == total(items@.take(i as int), Tally::PentaKills),
        decreases n - i,
    {
        let st = &items[i].stats;
        proof {
            lemma_total_push(items@, i as int);
            let next = items@.take(i + 1);
            lemma_total_bounded(next, Tally::Adr);
            lemma_total_bounded(next, Tally::Wins);
            lemma_total_bounded(next, Tally::Kills);
            lemma_total_bounded(next, Tally::Deaths);
            lemma_total_bounded(next, Tally::KrRatio);
            lemma_total_bounded(next, Tally::Headshots);
            lemma_total_bounded(next, Tally::DoubleKills);
            lemma_total_bounded(next, Tally::TripleKills);
            lemma_total_bounded(next, Tally::QuadroKills);
            lemma_total_bounded(next, Tally::PentaKills);
            assert(u64::MAX * (i + 1) <= u64::MAX * u64::MAX) by (nonlinear_arith)
                requires
                    i + 1 <= u64::MAX,
            ;
            assert(MAX_COUNT * (i + 1) <= MAX_COUNT * u64::MAX) by (nonlinear_arith)
                requires
                    i + 1 <= u64::MAX,
            ;
        }
        if let Some(v) = parse_decimal(st.adr.as_str()) {
            adr = adr + v as u128;
        }
        if eq_text(st.result.as_str(), "1") {
            wins = wins + 1;
        }
        if let Some(v) = parse_count(st.kills.as_str()) {
            kills = kills + v as u128;
        }
        if let Some(v) = parse_count(st.deaths.as_str()) {
            deaths = deaths + v as u128;
        }
        if let Some(v) = parse_decimal(st.kr_ratio.as_str()) {
            kr = kr + v as u128;
        }
        if let Some(v) = parse_count(st.headshots.as_str()) {
            headshots = headshots + v as u128;
        }
        if let Some(v) = parse_count(st.double_kills.as_str()) {
            double_kills = double_kills + v as u128;
        }
        if let Some(v) = parse_count(st.triple_kills.as_str()) {
            triple_kills = triple_kills + v as u128;
        }
        if let Some(v) = parse_count(st.quadro_kills.as_str()) {
            quadro_kills = quadro_kills + v as u128;
        }
        if let Some(v) = parse_count(st.penta_kills.as_str()) {
            penta_kills = penta_kills + v as u128;
        }
        i = i + 1;
    }
    assert(items@.take(n as int) == items@);
    proof {
        lemma_wins_at_most_matches(items@);
        lemma_rounded_percent_at_most_100(wins as nat, n as nat);
        lemma_total_bounded(items@, Tally::Headshots);
        assert(MAX_COUNT * n <= MAX_COUNT * u64::MAX) by (nonlinear_arith)
            requires
                n <= u64::MAX,
        ;
    }
    let matches = n as u64;
    let win_rate: u8 = if n == 0 {
        0
    } else {
        ((200 * (wins as u128) + n as u128) / (2 * n as u128)) as u8
    };
    let micros = (n as u128) * 1_000_000;
    AggregatedStats {
        matches,
        adr: Ratio::share(adr, micros),
        wins,
        losses: matches - wins,
        win_rate,
        kills,
        deaths,
        kd_ratio: Ratio::share(kills, deaths),
        kr_ratio: Ratio::share(kr, micros),
        headshots,
        headshot_percentage: Ratio::share(100 * headshots, kills),
        double_kills,
        triple_kills,
        quadro_kills,
        penta_kills,
    }
}

/// An empty window sums to zero everywhere: counts, totals, rates and ratios.
pub proof fn lemma_empty_window_is_zero(s: AggregatedStats)
    requires
        summarizes(s, Seq::empty()),
    ensures
        s.matches == 0 && s.wins == 0 && s.losses == 0 && s.win_rate == 0,
        s.kills == 0 && s.deaths == 0 && s.headshots == 0,
        s.double_kills == 0 && s.triple_kills == 0 && s.quadro_kills == 0 && s.penta_kills == 0,
        s.adr.num == 0 && s.kd_ratio.num == 0 && s.kr_ratio.num == 0,
        s.headshot_percentage.num == 0,
{
}

proof fn lemma_wins_all(items: Seq<MatchItem>, won: bool)
    requires
        forall|i: int| 0 <= i < items.len() ==> #[trigger] is_win(items[i].stats) == won,
    ensures
        total(items, Tally::Wins) == if won {
            items.len()
        } else {
            0
        },
    decreases items.len(),
{
    if items.len() > 0 {
        let rest = items.drop_last();
        assert forall|i: int| 0 <= i < rest.len() implies #[trigger] is_win(rest[i].stats) == won by {
            assert(is_win(items[i].stats) == won);
        }
        lemma_wins_all(rest, won);
        assert(is_win(items[items.len() - 1].stats) == won);
    }
}

/// A non-empty window of won matches has a win rate of 100; one of lost
/// matches has a win rate of 0.
pub proof fn lemma_uniform_results_win_rate(s: AggregatedStats, items: Seq<MatchItem>, won: bool)
    requires
        summarizes(s, items),
        items.len() > 0,
        forall|i: int| 0 <= i < items.len() ==> #[trigger] is_win(items[i].stats) == won,
    ensures
        s.win_rate == if won {
            100u8
        } else {
            0u8
        },
{
    lemma_wins_all(items, won);
    let n = items.len();
    if won {
        assert((200 * n + n) / (2 * n) == 100) by (nonlinear_arith)
            requires
                n > 0,
        ;
    } else {
        assert((200 * 0 + n) / (2 * n) == 0) by (nonlinear_arith)
            requires
                n > 0,
        ;
    }
}

/// Three wins and one loss give a win rate of 75.
pub proof fn lemma_three_wins_one_loss(s: AggregatedStats, items: Seq<MatchItem>)
    requires
        summarizes(s, items),
        items.len() == 4,
        total(items, Tally::Wins) == 3,
    ensures
        s.win_rate == 75,
        s.wins == 3 && s.losses == 1,
{
    assert((200 * 3 + 4) / (2 * 4) == 75nat) by (nonlinear_arith);
}

/// No ratio divides by zero: without deaths the kill/death ratio is zero,
/// and without kills the headshot percentage is zero.
pub proof fn lemma_ratios_without_divisor(s: AggregatedStats, items: Seq<MatchItem>)
    requires
        summarizes(s, items),
    ensures
        s.deaths == 0 ==> s.kd_ratio.num == 0 && s.kd_ratio.den > 0,
        s.kills == 0 ==> s.headshot_percentage.num == 0 && s.headshot_percentage.den > 0,
        s.matches == 0 ==> s.adr.num == 0 && s.kr_ratio.num == 0,
{
}

/// Profile data with its statistics.
pub struct FaceitData {
    /// seconds since the Unix epoch; 0 when the activation date does not read
    pub account_created: i64,
    pub avatar: Option<String>,
    pub country: String,
    pub nickname: String,
    /// skill level in the current game; 0 when the provider reports none
    pub level: u8,
    /// rating in the current game; 0 when the provider reports none
    pub elo: u16,
    pub stats: AggregatedStats,
}

/// What `DateTime::parse_from_rfc3339` makes of a text, as seconds since
/// the Unix epoch; none when it is not an RFC 3339 date and time.
pub uninterp spec fn rfc3339_timestamp(s: Seq<char>) -> Option<i64>;

/// Relies on chrono's `DateTime::parse_from_rfc3339`, read as seconds since
/// the Unix epoch through `DateTime::timestamp`.
#[verifier::external_body]
fn parse_timestamp(s: &str) -> (r: Option<i64>)
    ensures
        r == rfc3339_timestamp(s@),
{
    match chrono::DateTime::parse_from_rfc3339(s) {
        Ok(t) => Some(t.timestamp()),
        Err(_) => None,
    }
}

/// The skill level and rating that a profile reports for the current game.
pub open spec fn skill_of(games: Games) -> (u8, u16) {
    match games.cs2 {
        Some(g) => (g.skill_level, g.faceit_elo),
        None => (0, 0),
    }
}

/// `data` is the provider profile `d`, activated at `created`, with `stats`.
pub open spec fn merges(
    data: FaceitData,
    d: FaceitPlayerDetailsAPIResponse,
    created: Option<i64>,
    stats: AggregatedStats,
) -> bool {
    &&& data.account_created == match created {
        Some(t) => t,
        None => 0,
    }
    &&& data.avatar == d.avatar
    &&& data.country == d.country
    &&& data.nickname == d.nickname
    &&& (data.level, data.elo) == skill_of(d.games)
    &&& data.stats == stats
}

/// Merges a provider profile, its activation time as read, and the
/// statistics of its match window.
pub fn build_profile_data(
    d: FaceitPlayerDetailsAPIResponse,
    created: Option<i64>,
    stats: AggregatedStats,
) -> (r: FaceitData)
    ensures
        merges(r, d, created, stats),
{
    let (level, elo) = match &d.games.cs2 {
        Some(game) => (game.skill_level, game.faceit_elo),
        None => (0, 0),
    };
    let account_created = match created {
        Some(t) => t,
        None => 0,
    };
    FaceitData {
        account_created,
        avatar: d.avatar,
        country: d.country,
        nickname: d.nickname,
        level,
        elo,
        stats,
    }
}

/// Enriches a provider profile with the statistics of its match window;
/// none without a profile.
pub fn from_api(
    data: Option<FaceitPlayerDetailsAPIResponse>,
    last_matches: Option<PlayerLastMatchesResponse>,
) -> (r: Option<FaceitData>)
    ensures
        data is None ==> r is None,
        data matches Some(d) ==> r matches Some(p) && exists|s: AggregatedStats|
            summarizes(s, window(last_matches)) && #[trigger] merges(
                p,
                d,
                rfc3339_timestamp(d.activated_at@),
                s,
            ),
{
    match data {
        None => None,
        Some(d) => {
            let created = parse_timestamp(d.activated_at.as_str());
            let stats = aggregate(&last_matches);
            Some(build_profile_data(d, created, stats))
        },
    }
}

} // verus!
