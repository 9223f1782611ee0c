//! The registry of known shortener services: which hostnames are
//! shorteners, and which resolution strategy each one needs.

use vstd::prelude::*;
use vstd::string::StrSliceExecFns;

use crate::text::{eq_ci, eq_ci_at, eq_at, lower_cp};

verus! {

/// The three interstitial providers with a page-specific extraction rule.
#[derive(Clone, Copy, Debug, PartialEq, Eq, Structural)]
pub enum Provider {
    AdFly,
    AdFocus,
    LinkedIn,
}

/// How a shortened link on a registered service is resolved.
#[derive(Clone, Copy, Debug, PartialEq, Eq, Structural)]
pub enum Strategy {
    /// Walk the chain of HTTP redirects and keep the last URL.
    Redirect,
    /// Read the page body and take the target of its refresh directive.
    MetaRefresh,
    /// Read the page body with the provider's own extraction rule.
    Interstitial(Provider),
    /// Walk redirects; the default for services with no special mechanism.
    Generic,
}

/// The service table: every known shortener domain, with its strategy.
/// Order matters only in that a lookup takes the first matching entry.
pub open spec fn registry() -> Seq<(Seq<char>, Strategy)> {
    seq![
        ("adf.ly"@, Strategy::Interstitial(Provider::AdFly)),
        ("atominik.com"@, Strategy::Interstitial(Provider::AdFly)),
        ("fumacrom.com"@, Strategy::Interstitial(Provider::AdFly)),
        ("intamema.com"@, Strategy::Interstitial(Provider::AdFly)),
        ("j.gs"@, Strategy::Interstitial(Provider::AdFly)),
        ("q.gs"@, Strategy::Interstitial(Provider::AdFly)),
        ("adfoc.us"@, Strategy::Interstitial(Provider::AdFocus)),
        ("lnkd.in"@, Strategy::Interstitial(Provider::LinkedIn)),
        ("cutt.us"@, Strategy::MetaRefresh),
        ("soo.gd"@, Strategy::MetaRefresh),
        ("shorturl.at"@, Strategy::MetaRefresh),
        ("surl.li"@, Strategy::MetaRefresh),
        ("gns.io"@, Strategy::Redirect),
        ("ity.im"@, Strategy::Redirect),
        ("ldn.im"@, Strategy::Redirect),
        ("nowlinks.net"@, Strategy::Redirect),
        ("rlu.ru"@, Strategy::Redirect),
        ("tinyurl.com"@, Strategy::Redirect),
        ("tr.im"@, Strategy::Redirect),
        ("u.to"@, Strategy::Redirect),
        ("vzturl.com"@, Strategy::Redirect),
        ("bit.ly"@, Strategy::Generic),
        ("is.gd"@, Strategy::Generic),
        ("goo.gl"@, Strategy::Generic),
        ("ow.ly"@, Strategy::Generic),
        ("t.co"@, Strategy::Generic),
        ("tiny.cc"@, Strategy::Generic),
    ]
}

/// A host matches a service name exactly, case-sensitively, or sits
/// strictly below it on a label boundary: `x.bit.ly` matches `bit.ly`,
/// `notbit.ly` does not.
pub open spec fn domain_matches(host: Seq<char>, service: Seq<char>) -> bool {
    host == service || (host.len() > service.len() && host.skip(
        host.len() - service.len(),
    ) == service && host[host.len() - service.len() - 1] == '.')
}

/// The same boundary rule, with the comparison taken up to ASCII case.
pub open spec fn domain_matches_ci(host: Seq<char>, service: Seq<char>) -> bool {
    eq_ci(host, service) || (host.len() > service.len() && eq_ci(
        host.skip(host.len() - service.len()),
        service,
    ) && host[host.len() - service.len() - 1] == '.')
}

/// A hostname with a single trailing dot taken off.
pub open spec fn stripped(host: Seq<char>) -> Seq<char> {
    if host.len() > 0 && host[host.len() - 1] == '.' {
        host.take(host.len() - 1)
    } else {
        host
    }
}

/// The first registry entry, from `i` on, that the host matches.
pub open spec fn match_from(host: Seq<char>, i: int) -> Option<int>
    decreases registry().len() - i,
{
    if i < 0 || i >= registry().len() {
        None
    } else if domain_matches_ci(host, registry()[i].0) {
        Some(i)
    } else {
        match_from(host, i + 1)
    }
}

/// The registry entry a raw hostname falls under, after normalization
/// (case folding and stripping one trailing dot), if any.
pub open spec fn service_index(host: Seq<char>) -> Option<int> {
    match_from(stripped(host), 0)
}

/// How many services are registered.
pub fn service_count() -> (n: usize)
    ensures
        n == registry().len(),
{
    27
}

/// The service table, entry by entry.
pub fn service_entry(i: usize) -> (r: (&'static str, Strategy))
    requires
        i < registry().len(),
    ensures
        r.0@ == registry()[i as int].0,
        r.1 == registry()[i as int].1,
{
    match i {
        0 => ("adf.ly", Strategy::Interstitial(Provider::AdFly)),
        1 => ("atominik.com", Strategy::Interstitial(Provider::AdFly)),
        2 => ("fumacrom.com", Strategy::Interstitial(Provider::AdFly)),
        3 => ("intamema.com", Strategy::Interstitial(Provider::AdFly)),
        4 => ("j.gs", Strategy::Interstitial(Provider::AdFly)),
        5 => ("q.gs", Strategy::Interstitial(Provider::AdFly)),
        6 => ("adfoc.us", Strategy::Interstitial(Provider::AdFocus)),
        7 => ("lnkd.in", Strategy::Interstitial(Provider::LinkedIn)),
        8 => ("cutt.us", Strategy::MetaRefresh),
        9 => ("soo.gd", Strategy::MetaRefresh),
        10 => ("shorturl.at", Strategy::MetaRefresh),
        11 => ("surl.li", Strategy::MetaRefresh),
        12 => ("gns.io", Strategy::Redirect),
        13 => ("ity.im", Strategy::Redirect),
        14 => ("ldn.im", Strategy::Redirect),
        15 => ("nowlinks.net", Strategy::Redirect),
        16 => ("rlu.ru", Strategy::Redirect),
        17 => ("tinyurl.com", Strategy::Redirect),
        18 => ("tr.im", Strategy::Redirect),
        19 => ("u.to", Strategy::Redirect),
        20 => ("vzturl.com", Strategy::Redirect),
        21 => ("bit.ly", Strategy::Generic),
        22 => ("is.gd", Strategy::Generic),
        23 => ("goo.gl", Strategy::Generic),
        24 => ("ow.ly", Strategy::Generic),
        25 => ("t.co", Strategy::Generic),
        _ => ("tiny.cc", Strategy::Generic),
    }
}

/// Check if a domain matches a shortener service, exactly or as one of
/// its subdomains, on a label boundary.
pub fn domain_matches_service(domain: &str, service: &str) -> (r: bool)
    ensures
        r == domain_matches(domain@, service@),
{
    let n = domain.unicode_len();
    let m = service.unicode_len();
    if n == m {
        let r = eq_at(domain, 0, service);
        proof {
            assert(domain@.skip(0) =~= domain@);
        }
        r
    } else if n > m {
        if !eq_at(domain, n - m, service) {
            false
        } else {
            domain.get_char(n - m - 1) == '.'
        }
    } else {
        false
    }
}

/// The case-insensitive twin of `domain_matches_service`.
fn domain_matches_service_ci(domain: &str, service: &str) -> (r: bool)
    ensures
        r == domain_matches_ci(domain@, service@),
{
    let n = domain.unicode_len();
    let m = service.unicode_len();
    if n == m {
        let r = eq_ci_at(domain, 0, service);
        proof {
            assert(domain@.skip(0) =~= domain@);
        }
        r
    } else if n > m {
        if !eq_ci_at(domain, n - m, service) {
            false
        } else {
            domain.get_char(n - m - 1) == '.'
        }
    } else {
        false
    }
}

/// The registry entry a raw hostname falls under, if any.
pub fn find_service(domain: &str) -> (r: Option<usize>)
    ensures
        r matches Some(i) ==> i < registry().len() && service_index(domain@) == Some(i as int),
        r is None ==> service_index(domain@) is None,
{
    let n = domain.unicode_len();
    let host: &str = if n > 0 && domain.get_char(n - 1) == '.' {
        domain.substring_char(0, n - 1)
    } else {
        domain
    };
    proof {
        assert(host@ =~= stripped(domain@));
    }
    let count = service_count();
    let mut i: usize = 0;
    while i < count
        invariant
            count == registry().len(),
            0 <= i <= count,
            host@ == stripped(domain@),
            match_from(host@, 0) == match_from(host@, i as int),
        decreases count - i,
    {
        let (svc, _strategy) = service_entry(i);
        if domain_matches_service_ci(host, svc) {
            return Some(i);
        }
        i += 1;
    }
    None
}

/// Check if a hostname, taken case-insensitively and with a trailing dot
/// ignored, is one of the registered shortener services or a subdomain of
/// one.
pub fn domain_is_shortened(domain: &str) -> (r: bool)
    ensures
        r == (service_index(domain@) is Some),
{
    find_service(domain).is_some()
}

} // verus!
