use vstd::prelude::*;

use crate::text::starts_with_text;

verus! {

/// Response caching for the static site: everything but the player
/// endpoints may be cached for a year.
pub struct CacheFairing;

impl CacheFairing {
    /// The `Cache-Control` value for a response to `path`; none for the
    /// player endpoints, whose answers come from the lookup cache.
    pub fn cache_control(&self, path: &str) -> (r: Option<String>)
        ensures
            r is None <==> ("/player"@.len() <= path@.len() && path@.subrange(0, "/player"@.len() as int)
                == "/player"@),
            r matches Some(v) ==> v@ == "public, max-age=31536000"@,
    {
        if starts_with_text(path, "/player") {
            None
        } else {
            Some(String::from_str("public, max-age=31536000"))
        }
    }
}

} // verus!
