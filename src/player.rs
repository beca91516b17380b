use vstd::prelude::*;

use crate::faceit::{
    from_api, merges, rfc3339_timestamp, summarizes, window, AggregatedStats, FaceitData,
    FaceitPlayerDetailsAPIResponse, PlayerLastMatchesResponse,
};
use crate::text::{replace_text, replaced};

verus! {

/// A link to a related site.
pub struct Site {
    pub url: String,
    pub title: String,
}

impl Site {
    pub open spec fn view(self) -> (Seq<char>, Seq<char>) {
        (self.url@, self.title@)
    }
}

/// The externally visible player: identifier, enrichment, related links.
pub struct Player {
    pub steam_id: String,
    pub faceit_data: Option<FaceitData>,
    pub sites: Vec<Site>,
}

/// The related links of a player, in their fixed order; the statistics
/// provider's own link stands second, and only when it knows the player.
pub open spec fn site_links(steam_id: Seq<char>, faceit_url: Option<Seq<char>>) -> Seq<
    (Seq<char>, Seq<char>),
> {
    let steam = ("https://steamcommunity.com/profiles/"@ + steam_id, "Steam"@);
    let leetify = ("https://leetify.com/app/profile/"@ + steam_id, "Leetify"@);
    let csstats = ("https://csstats.gg/player/"@ + steam_id, "CsStats"@);
    match faceit_url {
        Some(u) => seq![steam, (replaced(u, "{lang}"@, "en"@), "Faceit"@), leetify, csstats],
        None => seq![steam, leetify, csstats],
    }
}

pub open spec fn faceit_url_of(data: Option<FaceitPlayerDetailsAPIResponse>) -> Option<Seq<char>> {
    match data {
        Some(d) => Some(d.faceit_url@),
        None => None,
    }
}

/// `p` is the enrichment of the provider profile `data` with `last_matches`.
pub open spec fn enriches(
    p: Option<FaceitData>,
    data: Option<FaceitPlayerDetailsAPIResponse>,
    last_matches: Option<PlayerLastMatchesResponse>,
) -> bool {
    match data {
        None => p is None,
        Some(d) => p matches Some(f) && exists|s: AggregatedStats|
            summarizes(s, window(last_matches)) && #[trigger] merges(
                f,
                d,
                rfc3339_timestamp(d.activated_at@),
                s,
            ),
    }
}

fn link(prefix: &str, steam_id: &str, title: &str) -> (r: Site)
    ensures
        r.view() == (prefix@ + steam_id@, title@),
{
    Site { url: String::from_str(prefix).concat(steam_id), title: String::from_str(title) }
}

/// Assembles the player: the identifier verbatim, the enrichment (none
/// without a provider profile), and the related links.
pub fn create_player(
    steam_id: &str,
    faceit_data: Option<FaceitPlayerDetailsAPIResponse>,
    last_matches: Option<PlayerLastMatchesResponse>,
) -> (r: Player)
    ensures
        r.steam_id@ == steam_id@,
        r.sites@.map_values(|s: Site| s.view()) == site_links(
            steam_id@,
            faceit_url_of(faceit_data),
        ),
        enriches(r.faceit_data, faceit_data, last_matches),
{
    let mut sites: Vec<Site> = Vec::new();
    sites.push(link("https://steamcommunity.com/profiles/", steam_id, "Steam"));
    if let Some(data) = &faceit_data {
        sites.push(
            Site {
                url: replace_text(data.faceit_url.as_str(), "{lang}", "en"),
                title: String::from_str("Faceit"),
            },
        );
    }
    sites.push(link("https://leetify.com/app/profile/", steam_id, "Leetify"));
    sites.push(link("https://csstats.gg/player/", steam_id, "CsStats"));
    assert(sites@.map_values(|s: Site| s.view()) == site_links(
        steam_id@,
        faceit_url_of(faceit_data),
    ));
    Player {
        steam_id: String::from_str(steam_id),
        faceit_data: from_api(faceit_data, last_matches),
        sites,
    }
}

} // verus!
