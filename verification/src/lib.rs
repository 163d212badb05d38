//! A typed client library for the Modrinth REST API.
//!
//! The verified core covers identifier validation, endpoint URL
//! construction (path joining and query encoding), facet encoding for
//! search, and classification of HTTP response statuses into the error
//! taxonomy.  Network transport and JSON body decoding live outside the
//! library, which only ever works on plain values.

use vstd::prelude::*;

pub mod encode;
pub mod projects;
pub mod search;
pub mod utils;
pub mod versions;

verus! {

/// The closed set of failure kinds surfaced by the library.
#[derive(Debug, Clone)]
pub enum Error {
    /// An identifier failed validation; it was never embedded in a URL.
    InvalidIDorSlug,
    /// Reserved for hash-based lookups.
    InvalidSHA1,
    /// The server asked the caller to back off for the given number of
    /// seconds before retrying.
    RateLimitExceeded(usize),
    /// The targeted API version is retired.
    ApiDeprecated,
    /// The rate-limit response carried a missing or unparsable reset header.
    MalformedRateLimitHeader,
    /// Any other 4xx/5xx status, carrying the status code.
    HttpStatus(u16),
    /// A network-level failure, described by the transport.
    Transport(String),
    /// Encoding a structured query value or decoding a response body failed.
    Serialization(String),
}

/// The description of a failure.
pub open spec fn message_text(e: &Error) -> Seq<char> {
    match e {
        Error::InvalidIDorSlug => "Invalid Modrinth ID or slug"@,
        Error::InvalidSHA1 => "Invalid SHA1 hash"@,
        Error::RateLimitExceeded(seconds) => "You have been rate limited, please wait for "@
            + encode::dec_str(*seconds as nat) + " seconds"@,
        Error::ApiDeprecated => "The API at https://api.modrinth.com/v2/ is deprecated"@,
        Error::MalformedRateLimitHeader => "Corrupted ratelimit header"@,
        Error::HttpStatus(status) => "HTTP status error "@ + encode::dec_str(*status as nat),
        Error::Transport(detail) => "Transport error: "@ + detail@,
        Error::Serialization(detail) => "Serialization error: "@ + detail@,
    }
}

impl Error {
    /// Describes this failure.
    pub fn message(&self) -> (r: String)
        ensures
            r@ == message_text(self),
    {
        match self {
            Error::InvalidIDorSlug => String::from_str("Invalid Modrinth ID or slug"),
            Error::InvalidSHA1 => String::from_str("Invalid SHA1 hash"),
            Error::RateLimitExceeded(seconds) => {
                let mut s = String::from_str("You have been rate limited, please wait for ");
                let n = encode::u64_to_string(*seconds as u64);
                s.append(n.as_str());
                s.append(" seconds");
                s
            },
            Error::ApiDeprecated => String::from_str(
                "The API at https://api.modrinth.com/v2/ is deprecated",
            ),
            Error::MalformedRateLimitHeader => String::from_str("Corrupted ratelimit header"),
            Error::HttpStatus(status) => {
                let mut s = String::from_str("HTTP status error ");
                let n = encode::u64_to_string(*status as u64);
                s.append(n.as_str());
                s
            },
            Error::Transport(detail) => {
                let mut s = String::from_str("Transport error: ");
                s.append(detail.as_str());
                s
            },
            Error::Serialization(detail) => {
                let mut s = String::from_str("Serialization error: ");
                s.append(detail.as_str());
                s
            },
        }
    }
}

/// The user agent attached to every outbound request: the client name,
/// optionally `/version`, optionally ` (contact)`.
pub open spec fn user_agent_text(
    name: Seq<char>,
    version: Option<Seq<char>>,
    contact: Option<Seq<char>>,
) -> Seq<char> {
    name + (match version {
        Some(v) => "/"@ + v,
        None => Seq::empty(),
    }) + (match contact {
        Some(c) => " ("@ + c + ")"@,
        None => Seq::empty(),
    })
}

/// Composes the user agent string for a client.
pub fn user_agent(name: &str, version: Option<&str>, contact: Option<&str>) -> (r: String)
    ensures
        r@ == user_agent_text(name@, utils::opt_view(version), utils::opt_view(contact)),
{
    let mut s = String::from_str(name);
    match version {
        Some(v) => {
            s.append("/");
            s.append(v);
        },
        None => {},
    }
    match contact {
        Some(c) => {
            s.append(" (");
            s.append(c);
            s.append(")");
        },
        None => {},
    }
    proof {
        assert(s@ =~= user_agent_text(name@, utils::opt_view(version), utils::opt_view(contact)));
    }
    s
}

} // verus!
