//! The bridge to the `url` crate: parsing a candidate URL and reading
//! the serialization and the domain of what came back.

use vstd::prelude::*;
use vstd::string::StringExecFns;

use crate::text::view_opt;

verus! {

/// What parsing a candidate string gives back.
pub enum Parse {
    /// The string parsed; its normalized serialization, and its domain
    /// when the host is a domain name rather than an IP address.
    Parsed { serialization: String, domain: Option<String> },
    /// The string is a relative URL: it lacks a scheme.
    NoScheme,
    /// The string cannot be a URL at all.
    Invalid,
}

/// How `url::Url::parse` classifies a string: 0 when it parses, 1 when it
/// fails for want of a scheme, 2 when it fails for any other reason.
pub uninterp spec fn url_parse_kind(s: Seq<char>) -> int;

/// The serialization `url::Url::as_str` gives for a string that parses.
pub uninterp spec fn url_serialization(s: Seq<char>) -> Seq<char>;

/// The domain `url::Url::domain` gives for a string that parses.
pub uninterp spec fn url_domain(s: Seq<char>) -> Option<Seq<char>>;

/// Relies on `url::Url::parse` to parse an absolute URL — deterministic
/// in its input, with `ParseError::RelativeUrlWithoutBase` as the one
/// failure a missing scheme gives — and on `url::Url::as_str` and
/// `url::Url::domain` to read the serialization and the domain of the
/// parsed value.
#[verifier::external_body]
pub(crate) fn parse_url(s: &str) -> (r: Parse)
    ensures
        (r is Parsed) == (url_parse_kind(s@) == 0),
        (r is NoScheme) == (url_parse_kind(s@) == 1),
        (r is Invalid) == (url_parse_kind(s@) == 2),
        r matches Parse::Parsed { serialization, domain } ==> serialization@
            == url_serialization(s@) && view_opt(domain) == url_domain(s@),
{
    match url::Url::parse(s) {
        Ok(u) => {
            let domain = u.domain().map(|d| d.to_string());
            Parse::Parsed { serialization: u.as_str().to_string(), domain }
        },
        Err(url::ParseError::RelativeUrlWithoutBase) => Parse::NoScheme,
        Err(_) => Parse::Invalid,
    }
}

/// The string retried with an assumed `https` scheme in front.
pub open spec fn scheme_defaulted(s: Seq<char>) -> Seq<char> {
    "https://"@ + s
}

/// Parse a candidate URL as the classifier does: strictly first, and on
/// any failure once more with an assumed `https` scheme. Hands back the
/// serialization and the domain of whichever attempt succeeded.
pub fn parse_lenient(s: &str) -> (r: Option<(String, Option<String>)>)
    ensures
        url_parse_kind(s@) == 0 ==> (r matches Some(p) && parse_agrees(p, s@)),
        url_parse_kind(s@) != 0 && url_parse_kind(scheme_defaulted(s@)) == 0 ==> (r matches Some(p)
            && parse_agrees(p, scheme_defaulted(s@))),
        url_parse_kind(s@) != 0 && url_parse_kind(scheme_defaulted(s@)) != 0 ==> r is None,
{
    match parse_url(s) {
        Parse::Parsed { serialization, domain } => Some((serialization, domain)),
        _ => {
            let prefixed = String::from_str("https://").concat(s);
            match parse_url(prefixed.as_str()) {
                Parse::Parsed { serialization, domain } => Some((serialization, domain)),
                _ => None,
            }
        },
    }
}

/// A successful lenient parse carries the serialization and domain of
/// the string `t` that parsed.
pub open spec fn parse_agrees(p: (String, Option<String>), t: Seq<char>) -> bool {
    p.0@ == url_serialization(t) && view_opt(p.1) == url_domain(t)
}

} // verus!
