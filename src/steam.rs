use vstd::prelude::*;

verus! {

/// The application number of Counter-Strike 2 in the platform's catalogue.
pub const CS2_APP_ID: u64 = 730;

/// A player's anti-cheat ban record.
#[derive(Debug, PartialEq, Eq, Structural)]
pub struct VacBanInfo {
    pub is_banned: bool,
    pub ban_count: u32,
    pub days_since_last_ban: Option<u32>,
}

/// The ban record from the platform's fields, any of which may be missing:
/// a missing flag or count reads as no ban, a negative day count as no ban
/// date. Counts are kept modulo 2^32.
pub fn vac_ban_info_from(
    vac_banned: Option<bool>,
    number_of_vac_bans: Option<u64>,
    days_since_last_ban: Option<i64>,
) -> (r: VacBanInfo)
    ensures
        r.is_banned == (vac_banned == Some(true)),
        r.ban_count as nat == match number_of_vac_bans {
            Some(n) => n as nat % 0x1_0000_0000,
            None => 0,
        },
        r.days_since_last_ban == match days_since_last_ban {
            Some(d) => if d >= 0 {
                Some((d as nat % 0x1_0000_0000) as u32)
            } else {
                None
            },
            None => None,
        },
{
    let is_banned = match vac_banned {
        Some(b) => b,
        None => false,
    };
    let ban_count: u32 = match number_of_vac_bans {
        Some(n) => (n % 0x1_0000_0000) as u32,
        None => 0,
    };
    let days: Option<u32> = match days_since_last_ban {
        Some(d) => if d >= 0 {
            Some(((d as u64) % 0x1_0000_0000) as u32)
        } else {
            None
        },
        None => None,
    };
    VacBanInfo { is_banned, ban_count, days_since_last_ban: days }
}

/// One entry of a player's game library.
pub struct OwnedGame {
    pub app_id: Option<u64>,
    /// minutes played in all
    pub playtime_forever: Option<u64>,
}

/// The entry counts: it is Counter-Strike 2 with a known play time.
pub open spec fn counts_as_cs2(g: OwnedGame) -> bool {
    g.app_id == Some(CS2_APP_ID) && g.playtime_forever is Some
}

/// Whole hours of the first entry that counts, modulo 2^32; none when no
/// entry counts.
pub open spec fn cs2_hours_spec(games: Seq<OwnedGame>) -> Option<u32>
    decreases games.len(),
{
    if games.len() == 0 {
        None
    } else if counts_as_cs2(games[0]) {
        Some(((games[0].playtime_forever.unwrap() / 60) % 0x1_0000_0000) as u32)
    } else {
        cs2_hours_spec(games.skip(1))
    }
}

/// Hours played in Counter-Strike 2, from a player's game library.
pub fn cs2_hours_from(games: &Vec<OwnedGame>) -> (r: Option<u32>)
    ensures
        r == cs2_hours_spec(games@),
{
    let n = games.len();
    let mut i: usize = 0;
    assert(games@.skip(0) == games@);
    while i < n
        invariant
            n == games@.len(),
            i <= n,
            cs2_hours_spec(games@.skip(i as int)) == cs2_hours_spec(games@),
        decreases n - i,
    {
        let g = &games[i];
        assert(games@.skip(i as int)[0] == games@[i as int]);
        assert(games@.skip(i as int).skip(1) == games@.skip(i + 1));
        if let Some(app_id) = g.app_id {
            if app_id == CS2_APP_ID {
                if let Some(minutes) = g.playtime_forever {
                    return Some(((minutes / 60) % 0x1_0000_0000) as u32);
                }
            }
        }
        i = i + 1;
    }
    assert(games@.skip(n as int).len() == 0);
    None
}

} // verus!
