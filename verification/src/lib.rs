//! Classification and resolution of shortened URLs.
//!
//! The library decides whether a URL belongs to a known link-shortener
//! service and, when it does, drives the resolution of the link to its
//! final destination.  Network transport is the caller's business: the
//! resolution engine is a state machine that says which request to issue
//! next and folds the responses it is handed into a final outcome.

use vstd::prelude::*;
use vstd::string::StringExecFns;

pub mod engine;
pub mod error;
pub mod parse;
pub mod resolvers;
pub mod services;
pub mod text;

pub use engine::which_service;
pub use engine::Event;
pub use engine::Progress;
pub use engine::Resolution;
pub use engine::REDIRECT_LIMIT;
pub use error::Error;
pub use parse::Parse;
pub use resolvers::extract_interstitial;
pub use resolvers::extract_refresh;
pub use services::domain_is_shortened;
pub use services::domain_matches_service;
pub use services::Provider;
pub use services::Strategy;

use parse::parse_lenient;
use parse::parse_url;
use parse::scheme_defaulted;
use parse::url_domain;
use parse::url_parse_kind;
use parse::url_serialization;
use services::service_index;

verus! {

/// A string that parsed carries a shortened link when its host is a
/// domain and that domain is registered.
pub open spec fn shortened_parsed(t: Seq<char>) -> bool {
    url_domain(t) matches Some(d) && service_index(d) is Some
}

/// What `is_shortened` decides: parse strictly, on any failure retry with
/// an assumed `https` scheme, and ask whether the domain of whichever
/// attempt succeeded is a registered shortener.
pub open spec fn is_shortened_spec(s: Seq<char>) -> bool {
    if url_parse_kind(s) == 0 {
        shortened_parsed(s)
    } else {
        url_parse_kind(scheme_defaulted(s)) == 0 && shortened_parsed(scheme_defaulted(s))
    }
}

/// Check to see if a given url is a shortened url.
///
/// Pure classification: the result is a function of the input string
/// alone, and no request is made.
pub fn is_shortened(url: &str) -> (r: bool)
    ensures
        r == is_shortened_spec(url@),
{
    match parse_lenient(url) {
        Some((_serialization, domain)) => match domain {
            Some(d) => domain_is_shortened(d.as_str()),
            None => false,
        },
        None => false,
    }
}

/// What validation hands on when the string `t` was the one that parsed:
/// the normalized serialization, kept only when the domain is a
/// registered shortener.
pub open spec fn validated(t: Seq<char>) -> Option<Seq<char>> {
    match url_domain(t) {
        Some(d) => if service_index(d) is Some {
            Some(url_serialization(t))
        } else {
            None
        },
        None => None,
    }
}

/// What `validate` returns: the strict parse when there is one, the
/// scheme-defaulted parse when only the scheme was missing, and nothing
/// otherwise.
pub open spec fn validate_spec(s: Seq<char>) -> Option<Seq<char>> {
    if url_parse_kind(s) == 0 {
        validated(s)
    } else if url_parse_kind(s) == 1 && url_parse_kind(scheme_defaulted(s)) == 0 {
        validated(scheme_defaulted(s))
    } else {
        None
    }
}

/// Validate a candidate URL and return its clean, normalized form, or
/// nothing when it does not parse or is no shortened link.
pub fn validate(u: &str) -> (r: Option<String>)
    ensures
        r matches Some(v) ==> validate_spec(u@) == Some(v@),
        r is None ==> validate_spec(u@) is None,
{
    match parse_url(u) {
        Parse::Parsed { serialization, domain } => match domain {
            Some(d) => if domain_is_shortened(d.as_str()) {
                Some(serialization)
            } else {
                None
            },
            None => None,
        },
        Parse::NoScheme => {
            let prefixed = String::from_str("https://").concat(u);
            match parse_url(prefixed.as_str()) {
                Parse::Parsed { serialization, domain } => match domain {
                    Some(d) => if domain_is_shortened(d.as_str()) {
                        Some(serialization)
                    } else {
                        None
                    },
                    None => None,
                },
                _ => None,
            }
        },
        Parse::Invalid => None,
    }
}

} // verus!
