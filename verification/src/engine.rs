//! The resolution engine: a state machine that validates a candidate
//! URL, selects the strategy its service is registered under, and folds
//! transport responses into a final outcome.
//!
//! The engine never touches the network itself. It says which URL to
//! fetch next; the caller performs the request — with the transport and
//! the deadline of its choosing — and hands the outcome back as an
//! [`Event`].

use vstd::prelude::*;

use crate::error::Error;
use crate::parse::{parse_url, url_domain, url_parse_kind, Parse};
use crate::resolvers::{
    extract_interstitial, extract_refresh, interstitial_target, refresh_target,
};
use crate::services::{find_service, registry, service_entry, service_index, Strategy};
use crate::{validate, validate_spec};

verus! {

/// How many redirect hops the engine follows before it gives up.
pub const REDIRECT_LIMIT: u32 = 10;

/// What one fetch of the pending URL came to.
pub enum Event {
    /// The response was a redirect to this (already absolute) URL.
    Redirected(String),
    /// The response was terminal; this is its body.
    Completed(String),
    /// The transport failed before any response arrived.
    Failed,
    /// The caller's deadline passed with no response.
    TimedOut,
}

/// The view of an [`Event`].
pub enum EventV {
    Redirected(Seq<char>),
    Completed(Seq<char>),
    Failed,
    TimedOut,
}

impl View for Event {
    type V = EventV;

    open spec fn view(&self) -> EventV {
        match self {
            Event::Redirected(loc) => EventV::Redirected(loc@),
            Event::Completed(body) => EventV::Completed(body@),
            Event::Failed => EventV::Failed,
            Event::TimedOut => EventV::TimedOut,
        }
    }
}

/// A resolution in flight: the strategy its service is registered under,
/// the URL to fetch next, and how many redirects were already followed.
pub struct Resolution {
    /// The strategy selected for the matched service.
    pub strategy: Strategy,
    /// The URL the next request goes to.
    pub url: String,
    /// How many redirect hops were followed so far.
    pub hops: u32,
}

/// The view of a [`Resolution`].
pub struct ResolutionV {
    pub strategy: Strategy,
    pub url: Seq<char>,
    pub hops: nat,
}

impl View for Resolution {
    type V = ResolutionV;

    open spec fn view(&self) -> ResolutionV {
        ResolutionV { strategy: self.strategy, url: self.url@, hops: self.hops as nat }
    }
}

impl Resolution {
    /// The hop counter never passes the limit.
    pub open spec fn wf(&self) -> bool {
        self.hops <= REDIRECT_LIMIT
    }
}

/// What an event turned the resolution into: either a next request to
/// issue, or the final outcome.
pub enum Progress {
    Next(Resolution),
    Done(Result<String, Error>),
}

/// The view of a [`Progress`].
pub enum ProgressV {
    Next(ResolutionV),
    Done(Result<Seq<char>, Error>),
}

impl View for Progress {
    type V = ProgressV;

    open spec fn view(&self) -> ProgressV {
        match self {
            Progress::Next(r) => ProgressV::Next(r@),
            Progress::Done(Ok(s)) => ProgressV::Done(Ok(s@)),
            Progress::Done(Err(e)) => ProgressV::Done(Err(*e)),
        }
    }
}

/// The strategy registered for the service of an already validated URL,
/// found by parsing it afresh: nothing if it no longer parses to a
/// registered domain.
pub open spec fn classify_spec(t: Seq<char>) -> Option<Strategy> {
    if url_parse_kind(t) == 0 {
        match url_domain(t) {
            Some(d) => match service_index(d) {
                Some(i) => Some(registry()[i].1),
                None => None,
            },
            None => None,
        }
    } else {
        None
    }
}

/// The service name a URL's domain is registered under, if any.
pub open spec fn which_service_spec(t: Seq<char>) -> Option<Seq<char>> {
    if url_parse_kind(t) == 0 {
        match url_domain(t) {
            Some(d) => match service_index(d) {
                Some(i) => Some(registry()[i].0),
                None => None,
            },
            None => None,
        }
    } else {
        None
    }
}

/// Look up which registered shortener service a URL belongs to.
pub fn which_service(url: &str) -> (r: Option<&'static str>)
    ensures
        r matches Some(s) ==> which_service_spec(url@) == Some(s@),
        r is None ==> which_service_spec(url@) is None,
{
    match parse_url(url) {
        Parse::Parsed { serialization: _, domain } => match domain {
            Some(d) => match find_service(d.as_str()) {
                Some(i) => {
                    let (name, _strategy) = service_entry(i);
                    Some(name)
                },
                None => None,
            },
            None => None,
        },
        _ => None,
    }
}

/// The strategy a URL's service is registered under, if any.
fn classify(url: &str) -> (r: Option<Strategy>)
    ensures
        r == classify_spec(url@),
{
    match parse_url(url) {
        Parse::Parsed { serialization: _, domain } => match domain {
            Some(d) => match find_service(d.as_str()) {
                Some(i) => {
                    let (_name, strategy) = service_entry(i);
                    Some(strategy)
                },
                None => None,
            },
            None => None,
        },
        _ => None,
    }
}

/// What starting a resolution yields: a classified failure, or the
/// initial state, poised to fetch the validated URL under the strategy
/// of the matched service.
pub open spec fn start_spec(s: Seq<char>) -> Result<ResolutionV, Error> {
    match validate_spec(s) {
        None => Err(Error::InvalidInput),
        Some(clean) => match classify_spec(clean) {
            None => Err(Error::UnmappedService),
            Some(strategy) => Ok(ResolutionV { strategy, url: clean, hops: 0 }),
        },
    }
}

/// What one event does to a resolution state.
pub open spec fn step_spec(st: ResolutionV, ev: EventV) -> ProgressV {
    match ev {
        EventV::TimedOut => ProgressV::Done(Err(Error::Timeout)),
        EventV::Failed => ProgressV::Done(Err(Error::NetworkFailure)),
        EventV::Redirected(loc) => if st.hops >= REDIRECT_LIMIT {
            ProgressV::Done(Err(Error::RedirectLimitExceeded))
        } else {
            ProgressV::Next(ResolutionV { strategy: st.strategy, url: loc, hops: st.hops + 1 })
        },
        EventV::Completed(body) => match st.strategy {
            Strategy::Redirect | Strategy::Generic => ProgressV::Done(Ok(st.url)),
            Strategy::MetaRefresh => match refresh_target(body) {
                Some(t) => ProgressV::Done(Ok(t)),
                None => ProgressV::Done(Err(Error::ExtractionFailure)),
            },
            Strategy::Interstitial(p) => match interstitial_target(p, body) {
                Some(t) => ProgressV::Done(Ok(t)),
                None => ProgressV::Done(Err(Error::ExtractionFailure)),
            },
        },
    }
}

/// Run a resolution state through a row of redirect answers, one
/// `Redirected` event per location.
pub open spec fn run_redirects(st: ResolutionV, locs: Seq<Seq<char>>) -> ProgressV
    decreases locs.len(),
{
    if locs.len() == 0 {
        ProgressV::Next(st)
    } else {
        match step_spec(st, EventV::Redirected(locs[0])) {
            ProgressV::Next(n) => run_redirects(n, locs.drop_first()),
            ProgressV::Done(r) => ProgressV::Done(r),
        }
    }
}

/// The hop bound. A chain of redirects is followed exactly while the hop
/// budget lasts: within the budget the engine comes out ready to fetch
/// the last location handed to it, and fed more redirects than the
/// budget allows it answers `RedirectLimitExceeded`.
pub proof fn lemma_redirect_chain(st: ResolutionV, locs: Seq<Seq<char>>)
    requires
        st.hops <= REDIRECT_LIMIT,
    ensures
        st.hops + locs.len() <= REDIRECT_LIMIT ==> run_redirects(st, locs) == ProgressV::Next(
            ResolutionV {
                strategy: st.strategy,
                url: if locs.len() == 0 {
                    st.url
                } else {
                    locs.last()
                },
                hops: (st.hops + locs.len()) as nat,
            },
        ),
        st.hops + locs.len() > REDIRECT_LIMIT ==> run_redirects(st, locs) == ProgressV::Done(
            Err::<Seq<char>, Error>(Error::RedirectLimitExceeded),
        ),
    decreases locs.len(),
{
    if locs.len() == 0 {
    } else if st.hops < REDIRECT_LIMIT {
        let n = ResolutionV { strategy: st.strategy, url: locs[0], hops: st.hops + 1 };
        lemma_redirect_chain(n, locs.drop_first());
        if locs.len() > 1 {
            assert(locs.drop_first().last() == locs.last());
        }
    }
}

/// Strategy dispatch is domain-driven, not response-driven: whatever a
/// fetch answers, a resolution that goes on goes on under the strategy
/// its service was registered with. A meta-refresh service keeps its
/// meta-refresh strategy even when the transport answers with redirects.
pub proof fn lemma_strategy_is_stable(st: ResolutionV, ev: EventV)
    ensures
        step_spec(st, ev) matches ProgressV::Next(n) ==> n.strategy == st.strategy,
{
}

/// Validation stands on classification: a string that `is_shortened`
/// rejects can never start a resolution — it fails with `InvalidInput`,
/// and no request is issued.
pub proof fn lemma_non_shortener_rejected(s: Seq<char>)
    ensures
        !crate::is_shortened_spec(s) ==> start_spec(s) == Err::<ResolutionV, Error>(
            Error::InvalidInput,
        ),
{
}

impl Resolution {
    /// Begin resolving a candidate URL: validate it, classify its domain
    /// and select the strategy. Fails with `InvalidInput` exactly when
    /// validation rejects the string, and with `UnmappedService` exactly
    /// when the validated URL no longer classifies — the defensive arm
    /// for a registry out of step with the classifier.
    pub fn start(url: &str) -> (r: Result<Resolution, Error>)
        ensures
            r matches Ok(res) ==> start_spec(url@) == Ok::<ResolutionV, Error>(res@) && res.wf(),
            r matches Err(e) ==> start_spec(url@) == Err::<ResolutionV, Error>(e),
    {
        match validate(url) {
            None => Err(Error::InvalidInput),
            Some(clean) => match classify(clean.as_str()) {
                None => Err(Error::UnmappedService),
                Some(strategy) => Ok(Resolution { strategy, url: clean, hops: 0 }),
            },
        }
    }

    /// Fold the outcome of fetching the pending URL into the resolution.
    pub fn on_event(self, ev: Event) -> (r: Progress)
        requires
            self.wf(),
        ensures
            r@ == step_spec(self@, ev@),
            r matches Progress::Next(n) ==> n.wf(),
    {
        match ev {
            Event::TimedOut => Progress::Done(Err(Error::Timeout)),
            Event::Failed => Progress::Done(Err(Error::NetworkFailure)),
            Event::Redirected(loc) => if self.hops >= REDIRECT_LIMIT {
                Progress::Done(Err(Error::RedirectLimitExceeded))
            } else {
                Progress::Next(
                    Resolution { strategy: self.strategy, url: loc, hops: self.hops + 1 },
                )
            },
            Event::Completed(body) => match self.strategy {
                Strategy::Redirect | Strategy::Generic => Progress::Done(Ok(self.url)),
                Strategy::MetaRefresh => match extract_refresh(body.as_str()) {
                    Some(t) => Progress::Done(Ok(t)),
                    None => Progress::Done(Err(Error::ExtractionFailure)),
                },
                Strategy::Interstitial(p) => match extract_interstitial(p, body.as_str()) {
                    Some(t) => Progress::Done(Ok(t)),
                    None => Progress::Done(Err(Error::ExtractionFailure)),
                },
            },
        }
    }
}

} // verus!

