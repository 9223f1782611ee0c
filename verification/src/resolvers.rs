//! The page-reading resolution strategies: where a service answers with
//! a page instead of a redirect, these pull the true destination out of
//! the fetched markup.

use vstd::prelude::*;
use vstd::string::StrSliceExecFns;

use crate::services::Provider;
use crate::text::{find_from, find_spec, view_opt};

verus! {

/// The piece of `body` that stands between the first occurrence of
/// `open_pat` at or after `from` and the next occurrence of `close`.
pub open spec fn between(
    body: Seq<char>,
    from: int,
    open_pat: Seq<char>,
    close: Seq<char>,
) -> Option<Seq<char>> {
    match find_spec(body, open_pat, from) {
        Some(i) => {
            let start = i + open_pat.len();
            match find_spec(body, close, start) {
                Some(k) => Some(body.subrange(start, k)),
                None => None,
            }
        },
        None => None,
    }
}

/// The target of the page's refresh directive: the quoted argument that
/// follows `url=` inside the first `http-equiv="refresh"` tag.
pub open spec fn refresh_target(body: Seq<char>) -> Option<Seq<char>> {
    match find_spec(body, "http-equiv=\"refresh\""@, 0) {
        Some(i) => between(body, i + "http-equiv=\"refresh\""@.len(), "url="@, "\""@),
        None => None,
    }
}

/// The destination an interstitial page of the given provider carries.
///
/// Each provider has its own page rule: on an AdFly-branded page the
/// destination stands as the `dest` query parameter of the quoted skip
/// link; an AdFocus page assigns it to `click_url`; a LinkedIn
/// interstitial quotes it as the `href` of the external-link anchor.
pub open spec fn interstitial_target(p: Provider, body: Seq<char>) -> Option<Seq<char>> {
    match p {
        Provider::AdFly => between(body, 0, "?dest="@, "\""@),
        Provider::AdFocus => between(body, 0, "click_url = \""@, "\""@),
        Provider::LinkedIn => between(
            body,
            0,
            "data-tracking-control-name=\"external_url_click\" href=\""@,
            "\""@,
        ),
    }
}

/// Cut out of `body` whatever stands between `open_pat` and the `close`
/// that follows it.
fn extract_between(body: &str, from: usize, open_pat: &str, close: &str) -> (r: Option<String>)
    ensures
        view_opt(r) == between(body@, from as int, open_pat@, close@),
{
    match find_from(body, from, open_pat) {
        Some(i) => {
            let start = i + open_pat.unicode_len();
            match find_from(body, start, close) {
                Some(k) => Some(body.substring_char(start, k).to_owned()),
                None => None,
            }
        },
        None => None,
    }
}

/// Read the refresh directive's target out of a fetched page body.
pub fn extract_refresh(body: &str) -> (r: Option<String>)
    ensures
        view_opt(r) == refresh_target(body@),
{
    match find_from(body, 0, "http-equiv=\"refresh\"") {
        Some(i) => {
            let start = i + "http-equiv=\"refresh\"".unicode_len();
            extract_between(body, start, "url=", "\"")
        },
        None => None,
    }
}

/// Read the destination out of an interstitial page of the given
/// provider.
pub fn extract_interstitial(p: Provider, body: &str) -> (r: Option<String>)
    ensures
        view_opt(r) == interstitial_target(p, body@),
{
    match p {
        Provider::AdFly => extract_between(body, 0, "?dest=", "\""),
        Provider::AdFocus => extract_between(body, 0, "click_url = \"", "\""),
        Provider::LinkedIn => extract_between(
            body,
            0,
            "data-tracking-control-name=\"external_url_click\" href=\"",
            "\"",
        ),
    }
}

} // verus!
