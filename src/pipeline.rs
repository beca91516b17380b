use vstd::prelude::*;

use crate::error::LookupError;
use crate::faceit::{FaceitPlayerDetailsAPIResponse, PlayerLastMatchesResponse};
use crate::player::{create_player, enriches, faceit_url_of, site_links, Player, Site};
use crate::profile_url::{
    get_steam_id_from_non_vanity_url, get_username_from_vanity_url, normalize_url, normalized,
    second_segment_after,
};

verus! {

/// How long a stored profile stays fresh: one day.
pub const CACHE_TTL_SECONDS: usize = 86400;

/// A best-effort report to the analytics sink; it never affects the result.
#[derive(Debug, PartialEq, Eq)]
pub enum Notice {
    SearchRequest { url: String },
    CacheHit { key: String },
    Error { message: String },
}

/// What the caller is asked to do next.
pub enum Action {
    /// Read the cache entry under `key`.
    LookUp { key: String },
    /// Ask the name service for the identifier behind a chosen name.
    ResolveVanity { name: String },
    /// Fetch the statistics provider's profile of a player.
    FetchProfile { steam_id: String },
    /// Fetch the provider's recent matches of one of its players.
    FetchMatches { player_id: String },
    /// Serialise the assembled player.
    Serialize { player: Player },
    /// Store `value` in the cache under `key`.
    Store { key: String, value: String },
    /// Let the cache entry under `key` expire after `seconds`.
    Expire { key: String, seconds: usize },
    /// The lookup is over.
    Finish { outcome: Result<String, LookupError> },
}

/// What the caller reports back after doing what it was asked.
pub enum Event {
    /// The cache entry, if there is one.
    CacheReply(Option<String>),
    /// The cache store could not be reached.
    CacheDown,
    /// The identifier from the name service; none on any failure.
    VanityResolved(Option<String>),
    /// The provider's profile; none on any failure.
    ProfileFetched(Option<FaceitPlayerDetailsAPIResponse>),
    /// The provider's match window; none on any failure.
    MatchesFetched(Option<PlayerLastMatchesResponse>),
    /// The serialised player; none when it could not be serialised.
    Serialized(Option<String>),
    /// The cache write was attempted.
    CacheWritten,
}

/// One step of a lookup: an optional report, and the next request.
pub struct Step {
    pub notice: Option<Notice>,
    pub action: Action,
}

/// A lookup in progress: cache first, then resolution and enrichment, then
/// cache population.
pub enum Lookup {
    AwaitingCache { key: String },
    AwaitingVanity { key: String },
    AwaitingProfile { key: String, steam_id: String },
    AwaitingMatches { key: String, steam_id: String, profile: FaceitPlayerDetailsAPIResponse },
    AwaitingSerialization { key: String },
    Storing { key: String, payload: String },
    Expiring { key: String, payload: String },
    Done,
}

/// `p` is the player assembled from an identifier and its enrichment.
pub open spec fn assembles(
    p: Player,
    steam_id: Seq<char>,
    data: Option<FaceitPlayerDetailsAPIResponse>,
    last_matches: Option<PlayerLastMatchesResponse>,
) -> bool {
    &&& p.steam_id@ == steam_id
    &&& p.sites@.map_values(|s: Site| s.view()) == site_links(steam_id, faceit_url_of(data))
    &&& enriches(p.faceit_data, data, last_matches)
}

/// The step that ends a lookup with `err`, reporting it first.
pub open spec fn fails_with(step: Step, err: LookupError) -> bool {
    &&& step.notice matches Some(Notice::Error { message }) && message@ == err.message_spec()
    &&& step.action == Action::Finish { outcome: Err(err) }
}

/// The step that asks for the assembled player to be serialised.
pub open spec fn serializes(
    step: Step,
    steam_id: Seq<char>,
    data: Option<FaceitPlayerDetailsAPIResponse>,
    last_matches: Option<PlayerLastMatchesResponse>,
) -> bool {
    &&& step.notice is None
    &&& step.action matches Action::Serialize { player } && assembles(
        player,
        steam_id,
        data,
        last_matches,
    )
}

impl Lookup {
    /// Whether the lookup is waiting for this kind of event.
    pub open spec fn awaits(self, event: Event) -> bool {
        match self {
            Lookup::AwaitingCache { .. } => event is CacheReply || event is CacheDown,
            Lookup::AwaitingVanity { .. } => event is VanityResolved,
            Lookup::AwaitingProfile { .. } => event is ProfileFetched,
            Lookup::AwaitingMatches { .. } => event is MatchesFetched,
            Lookup::AwaitingSerialization { .. } => event is Serialized,
            Lookup::Storing { .. } | Lookup::Expiring { .. } => event is CacheWritten
                || event is CacheDown,
            Lookup::Done => false,
        }
    }

    /// The first step for a raw input: a malformed URL ends the lookup at
    /// once, with no request at all; otherwise the cache is asked first.
    pub open spec fn started(url: Seq<char>, new: Lookup, step: Step) -> bool {
        match normalized(url) {
            None => new is Done && step.notice is None && step.action == Action::Finish {
                outcome: Err(LookupError::InvalidUrl),
            },
            Some(k) => {
                &&& new matches Lookup::AwaitingCache { key } && key@ == k && step.action
                    == Action::LookUp { key }
                &&& step.notice matches Some(Notice::SearchRequest { url: u }) && u@ == url
            },
        }
    }

    /// How each awaited event moves a lookup on.
    pub open spec fn transition(self, event: Event, new: Lookup, step: Step) -> bool {
        match self {
            Lookup::AwaitingCache { key } => match event {
                Event::CacheReply(Some(payload)) => new is Done && step == Step {
                    notice: Some(Notice::CacheHit { key }),
                    action: Action::Finish { outcome: Ok(payload) },
                },
                Event::CacheReply(None) => match second_segment_after(key@, "id"@) {
                    Some(name) => {
                        &&& new == Lookup::AwaitingVanity { key }
                        &&& step.notice is None
                        &&& step.action matches Action::ResolveVanity { name: n } && n@ == name
                    },
                    None => match second_segment_after(key@, "profiles"@) {
                        Some(id) => new matches Lookup::AwaitingProfile { key: k, steam_id }
                            && k == key && steam_id@ == id && step == Step {
                            notice: None,
                            action: Action::FetchProfile { steam_id },
                        },
                        None => new is Done && fails_with(
                            step,
                            LookupError::MalformedDirectUrl { url: key },
                        ),
                    },
                },
                _ => new is Done && fails_with(step, LookupError::CacheUnavailable),
            },
            Lookup::AwaitingVanity { key } => match event {
                Event::VanityResolved(Some(id)) if id@.len() > 0 => new
                    == Lookup::AwaitingProfile { key, steam_id: id } && step == Step {
                    notice: None,
                    action: Action::FetchProfile { steam_id: id },
                },
                _ => new is Done && fails_with(step, LookupError::VanityResolutionFailed { url: key }),
            },
            Lookup::AwaitingProfile { key, steam_id } => match event {
                Event::ProfileFetched(Some(profile)) => new == Lookup::AwaitingMatches {
                    key,
                    steam_id,
                    profile,
                } && step == Step {
                    notice: None,
                    action: Action::FetchMatches { player_id: profile.player_id },
                },
                _ => new == Lookup::AwaitingSerialization { key } && serializes(
                    step,
                    steam_id@,
                    None,
                    None,
                ),
            },
            Lookup::AwaitingMatches { key, steam_id, profile } => match event {
                Event::MatchesFetched(matches) => new == Lookup::AwaitingSerialization { key }
                    && serializes(step, steam_id@, Some(profile), matches),
                _ => false,
            },
            Lookup::AwaitingSerialization { key } => match event {
                Event::Serialized(Some(payload)) => new == Lookup::Storing { key, payload }
                    && step == Step {
                    notice: None,
                    action: Action::Store { key, value: payload },
                },
                _ => new is Done && fails_with(step, LookupError::SerializationFailed),
            },
            Lookup::Storing { key, payload } => match event {
                Event::CacheWritten => new == Lookup::Expiring { key, payload } && step == Step {
                    notice: None,
                    action: Action::Expire { key, seconds: CACHE_TTL_SECONDS },
                },
                _ => new is Done && step == Step {
                    notice: None,
                    action: Action::Finish { outcome: Ok(payload) },
                },
            },
            Lookup::Expiring { payload, .. } => new is Done && step == Step {
                notice: None,
                action: Action::Finish { outcome: Ok(payload) },
            },
            Lookup::Done => false,
        }
    }

    /// Whether the lookup is waiting for this kind of event.
    pub fn accepts(&self, event: &Event) -> (r: bool)
        ensures
            r == self.awaits(*event),
    {
        match self {
            Lookup::AwaitingCache { .. } => match event {
                Event::CacheReply(_) | Event::CacheDown => true,
                _ => false,
            },
            Lookup::AwaitingVanity { .. } => match event {
                Event::VanityResolved(_) => true,
                _ => false,
            },
            Lookup::AwaitingProfile { .. } => match event {
                Event::ProfileFetched(_) => true,
                _ => false,
            },
            Lookup::AwaitingMatches { .. } => match event {
                Event::MatchesFetched(_) => true,
                _ => false,
            },
            Lookup::AwaitingSerialization { .. } => match event {
                Event::Serialized(_) => true,
                _ => false,
            },
            Lookup::Storing { .. } | Lookup::Expiring { .. } => match event {
                Event::CacheWritten | Event::CacheDown => true,
                _ => false,
            },
            Lookup::Done => false,
        }
    }

    /// Whether the lookup is over.
    pub fn is_done(&self) -> (r: bool)
        ensures
            r == (*self is Done),
    {
        match self {
            Lookup::Done => true,
            _ => false,
        }
    }

    /// Begins a lookup of a raw profile URL.
    pub fn start(url: &str) -> (r: (Lookup, Step))
        ensures
            Lookup::started(url@, r.0, r.1),
    {
        match normalize_url(url) {
            Err(e) => (
                Lookup::Done,
                Step { notice: None, action: Action::Finish { outcome: Err(e) } },
            ),
            Ok(key) => {
                let notice = Notice::SearchRequest { url: String::from_str(url) };
                let pending = key.clone();
                (Lookup::AwaitingCache { key }, Step {
                    notice: Some(notice),
                    action: Action::LookUp { key: pending },
                })
            },
        }
    }

    /// Moves the lookup on with the event that answers its last request.
    pub fn advance(self, event: Event) -> (r: (Lookup, Step))
        requires
            self.awaits(event),
        ensures
            self.transition(event, r.0, r.1),
    {
        match self {
            Lookup::AwaitingCache { key } => match event {
                Event::CacheReply(Some(payload)) => (
                    Lookup::Done,
                    Step {
                        notice: Some(Notice::CacheHit { key }),
                        action: Action::Finish { outcome: Ok(payload) },
                    },
                ),
                Event::CacheReply(None) => match get_username_from_vanity_url(key.as_str()) {
                    Some(name) => (
                        Lookup::AwaitingVanity { key },
                        Step { notice: None, action: Action::ResolveVanity { name } },
                    ),
                    None => match get_steam_id_from_non_vanity_url(key.as_str()) {
                        Some(steam_id) => {
                            let pending = steam_id.clone();
                            (
                                Lookup::AwaitingProfile { key, steam_id },
                                Step {
                                    notice: None,
                                    action: Action::FetchProfile { steam_id: pending },
                                },
                            )
                        },
                        None => (Lookup::Done, failure(LookupError::MalformedDirectUrl { url: key })),
                    },
                },
                _ => (Lookup::Done, failure(LookupError::CacheUnavailable)),
            },
            Lookup::AwaitingVanity { key } => match event {
                Event::VanityResolved(Some(id)) => {
                    if id.as_str().is_empty() {
                        (Lookup::Done, failure(LookupError::VanityResolutionFailed { url: key }))
                    } else {
                        let pending = id.clone();
                        (
                            Lookup::AwaitingProfile { key, steam_id: id },
                            Step {
                                notice: None,
                                action: Action::FetchProfile { steam_id: pending },
                            },
                        )
                    }
                },
                _ => (Lookup::Done, failure(LookupError::VanityResolutionFailed { url: key })),
            },
            Lookup::AwaitingProfile { key, steam_id } => match event {
                Event::ProfileFetched(Some(profile)) => {
                    let player_id = profile.player_id.clone();
                    (
                        Lookup::AwaitingMatches { key, steam_id, profile },
                        Step { notice: None, action: Action::FetchMatches { player_id } },
                    )
                },
                _ => {
                    let player = create_player(steam_id.as_str(), None, None);
                    (
                        Lookup::AwaitingSerialization { key },
                        Step { notice: None, action: Action::Serialize { player } },
                    )
                },
            },
            Lookup::AwaitingMatches { key, steam_id, profile } => match event {
                Event::MatchesFetched(matches) => {
                    let player = create_player(steam_id.as_str(), Some(profile), matches);
                    (
                        Lookup::AwaitingSerialization { key },
                        Step { notice: None, action: Action::Serialize { player } },
                    )
                },
                // not reached: `awaits` admits no other event here
                _ => (Lookup::Done, failure(LookupError::SerializationFailed)),
            },
            Lookup::AwaitingSerialization { key } => match event {
                Event::Serialized(Some(payload)) => {
                    let value = payload.clone();
                    let pending = key.clone();
                    (
                        Lookup::Storing { key, payload },
                        Step { notice: None, action: Action::Store { key: pending, value } },
                    )
                },
                _ => (Lookup::Done, failure(LookupError::SerializationFailed)),
            },
            Lookup::Storing { key, payload } => match event {
                Event::CacheWritten => {
                    let pending = key.clone();
                    (
                        Lookup::Expiring { key, payload },
                        Step {
                            notice: None,
                            action: Action::Expire { key: pending, seconds: CACHE_TTL_SECONDS },
                        },
                    )
                },
                _ => (Lookup::Done, Step { notice: None, action: Action::Finish { outcome: Ok(payload) } }),
            },
            Lookup::Expiring { payload, .. } => (
                Lookup::Done,
                Step { notice: None, action: Action::Finish { outcome: Ok(payload) } },
            ),
            // not reached: a finished lookup awaits nothing
            Lookup::Done => (Lookup::Done, failure(LookupError::SerializationFailed)),
        }
    }
}

/// A cache hit ends the lookup with the stored payload, verbatim: nothing is
/// resolved, fetched or stored after it, and no further event is awaited.
pub proof fn lemma_cache_hit_returns_stored(key: String, payload: String, new: Lookup, step: Step)
    requires
        (Lookup::AwaitingCache { key }).transition(Event::CacheReply(Some(payload)), new, step),
    ensures
        step.action == (Action::Finish { outcome: Ok(payload) }),
        new is Done,
        forall|e: Event| !new.awaits(e),
{
}

/// A malformed input ends the lookup at once with `InvalidUrl`, before any
/// request or report.
pub proof fn lemma_malformed_input_makes_no_request(url: Seq<char>, new: Lookup, step: Step)
    requires
        Lookup::started(url, new, step),
        normalized(url) is None,
    ensures
        step.notice is None,
        step.action == (Action::Finish { outcome: Err(LookupError::InvalidUrl) }),
        forall|e: Event| !new.awaits(e),
{
}

/// Ends a lookup with `err`, reporting it first.
fn failure(err: LookupError) -> (r: Step)
    ensures
        fails_with(r, err),
{
    let message = err.message();
    Step { notice: Some(Notice::Error { message }), action: Action::Finish { outcome: Err(err) } }
}

} // verus!
