//! The classified failures a resolution can end in.

use vstd::prelude::*;

verus! {

/// Everything that can go wrong while classifying or resolving a URL.
#[derive(Clone, Copy, Debug, PartialEq, Eq, Structural)]
pub enum Error {
    /// The input could not be parsed as a URL, even after assuming an
    /// `https` scheme, or it parsed but its domain is no known shortener.
    InvalidInput,
    /// The domain was classified as shortened but no strategy could be
    /// selected for it: the registry and the classifier fell out of step.
    UnmappedService,
    /// The transport reported a failure (connection, DNS, TLS).
    NetworkFailure,
    /// The caller-supplied deadline passed before the resolution finished.
    Timeout,
    /// A page-reading strategy could not find the expected redirect target
    /// in the fetched content.
    ExtractionFailure,
    /// More redirect hops were required than the engine allows.
    RedirectLimitExceeded,
}

impl Error {
    /// A short, stable description of the failure.
    pub fn describe(&self) -> (r: &'static str)
        ensures
            r@ == self.describe_spec(),
    {
        match self {
            Error::InvalidInput => "not a valid shortened url",
            Error::UnmappedService => "no strategy registered for service",
            Error::NetworkFailure => "network failure",
            Error::Timeout => "timed out",
            Error::ExtractionFailure => "could not extract destination from page",
            Error::RedirectLimitExceeded => "too many redirects",
        }
    }

    /// What `describe` returns for each variant.
    pub open spec fn describe_spec(&self) -> Seq<char> {
        match self {
            Error::InvalidInput => "not a valid shortened url"@,
            Error::UnmappedService => "no strategy registered for service"@,
            Error::NetworkFailure => "network failure"@,
            Error::Timeout => "timed out"@,
            Error::ExtractionFailure => "could not extract destination from page"@,
            Error::RedirectLimitExceeded => "too many redirects"@,
        }
    }
}

} // verus!
