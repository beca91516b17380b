use vstd::prelude::*;

verus! {

/// Why a lookup failed.
#[derive(Debug, PartialEq, Eq)]
pub enum LookupError {
    /// The input is not a recognised profile URL.
    InvalidUrl,
    /// The name service gave no identifier for the vanity URL.
    VanityResolutionFailed { url: String },
    /// A direct profile URL without an identifier.
    MalformedDirectUrl { url: String },
    /// The assembled profile could not be serialised.
    SerializationFailed,
    /// The cache store could not be reached.
    CacheUnavailable,
}

impl LookupError {
    pub open spec fn message_spec(&self) -> Seq<char> {
        match self {
            LookupError::InvalidUrl => "Invalid URL format"@,
            LookupError::VanityResolutionFailed { url } => "Could not resolve steam id from vanity URL: "@
                + url@,
            LookupError::MalformedDirectUrl { url } => "Could not resolve steam id from profile url: "@
                + url@,
            LookupError::SerializationFailed => "Error serializing player"@,
            LookupError::CacheUnavailable => "Cache unavailable"@,
        }
    }

    /// A description for the caller and for the notification sink.
    pub fn message(&self) -> (r: String)
        ensures
            r@ == self.message_spec(),
    {
        match self {
            LookupError::InvalidUrl => String::from_str("Invalid URL format"),
            LookupError::VanityResolutionFailed { url } => String::from_str(
                "Could not resolve steam id from vanity URL: ",
            ).concat(url.as_str()),
            LookupError::MalformedDirectUrl { url } => String::from_str(
                "Could not resolve steam id from profile url: ",
            ).concat(url.as_str()),
            LookupError::SerializationFailed => String::from_str("Error serializing player"),
            LookupError::CacheUnavailable => String::from_str("Cache unavailable"),
        }
    }
}

} // verus!
