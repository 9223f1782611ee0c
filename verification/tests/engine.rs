//! The resolution engine, driven with synthetic transport events.

use urlexpand::{Error, Event, Progress, Provider, Resolution, Strategy};

fn started(url: &str) -> Resolution {
    match Resolution::start(url) {
        Ok(res) => res,
        Err(e) => panic!("start failed: {:?}", e),
    }
}

#[test]
fn non_shortener_fails_with_invalid_input() {
    match Resolution::start("https://example.com") {
        Err(e) => assert_eq!(e, Error::InvalidInput),
        Ok(_) => panic!("expected InvalidInput, got a started resolution"),
    }
}

#[test]
fn unparsable_input_fails_with_invalid_input() {
    match Resolution::start("%% not a url %%") {
        Err(e) => assert_eq!(e, Error::InvalidInput),
        Ok(_) => panic!("expected InvalidInput, got a started resolution"),
    }
}

#[test]
fn mock_redirect_resolves_to_destination() {
    let res = started("https://bit.ly/3alqLKi");
    assert_eq!(res.url, "https://bit.ly/3alqLKi");
    let res = match res.on_event(Event::Redirected("https://rust-lang.org/".to_string())) {
        Progress::Next(next) => next,
        Progress::Done(r) => panic!("finished early: {:?}", r),
    };
    assert_eq!(res.url, "https://rust-lang.org/");
    match res.on_event(Event::Completed(String::new())) {
        Progress::Done(Ok(destination)) => assert_eq!(destination, "https://rust-lang.org/"),
        other => panic!("expected the final URL, got {:?}", outcome_name(&other)),
    }
}

#[test]
fn ten_hops_succeed() {
    let mut res = started("https://tinyurl.com/abc");
    for hop in 0..10 {
        let location = format!("https://hop{}.example.org/", hop);
        res = match res.on_event(Event::Redirected(location.clone())) {
            Progress::Next(next) => next,
            Progress::Done(r) => panic!("failed at hop {}: {:?}", hop, r),
        };
        assert_eq!(res.url, location);
    }
    match res.on_event(Event::Completed(String::new())) {
        Progress::Done(Ok(destination)) => assert_eq!(destination, "https://hop9.example.org/"),
        other => panic!("expected success, got {:?}", outcome_name(&other)),
    }
}

#[test]
fn eleven_hops_exceed_the_redirect_limit() {
    let mut res = started("https://tinyurl.com/abc");
    for hop in 0..10 {
        let location = format!("https://hop{}.example.org/", hop);
        res = match res.on_event(Event::Redirected(location)) {
            Progress::Next(next) => next,
            Progress::Done(r) => panic!("failed at hop {}: {:?}", hop, r),
        };
    }
    match res.on_event(Event::Redirected("https://hop10.example.org/".to_string())) {
        Progress::Done(Err(Error::RedirectLimitExceeded)) => {}
        other => panic!("expected RedirectLimitExceeded, got {:?}", outcome_name(&other)),
    }
}

#[test]
fn timeout_event_surfaces_as_timeout() {
    let res = started("https://bit.ly/x");
    match res.on_event(Event::TimedOut) {
        Progress::Done(Err(Error::Timeout)) => {}
        other => panic!("expected Timeout, got {:?}", outcome_name(&other)),
    }
}

#[test]
fn transport_failure_surfaces_as_network_failure() {
    let res = started("https://bit.ly/x");
    match res.on_event(Event::Failed) {
        Progress::Done(Err(Error::NetworkFailure)) => {}
        other => panic!("expected NetworkFailure, got {:?}", outcome_name(&other)),
    }
}

#[test]
fn meta_refresh_domain_gets_the_meta_refresh_strategy() {
    let res = started("https://cutt.us/xyz");
    assert_eq!(res.strategy, Strategy::MetaRefresh);
}

#[test]
fn meta_refresh_strategy_reads_the_page_not_the_redirect() {
    // Dispatch is domain-driven: even after a redirect response, a
    // meta-refresh service keeps extracting from the page body instead of
    // stopping at the redirect target like the generic follower would.
    let res = started("https://cutt.us/xyz");
    let res = match res.on_event(Event::Redirected("https://cutt.us/interstitial".to_string())) {
        Progress::Next(next) => next,
        Progress::Done(r) => panic!("finished early: {:?}", r),
    };
    let body = "<meta http-equiv=\"refresh\" content=\"0; url=https://example.org/real\">";
    match res.on_event(Event::Completed(body.to_string())) {
        Progress::Done(Ok(destination)) => assert_eq!(destination, "https://example.org/real"),
        other => panic!("expected the refresh target, got {:?}", outcome_name(&other)),
    }
}

#[test]
fn meta_refresh_page_without_directive_is_an_extraction_failure() {
    let res = started("https://soo.gd/abc");
    match res.on_event(Event::Completed("<html><body>ads</body></html>".to_string())) {
        Progress::Done(Err(Error::ExtractionFailure)) => {}
        other => panic!("expected ExtractionFailure, got {:?}", outcome_name(&other)),
    }
}

#[test]
fn interstitial_domain_gets_its_provider_strategy() {
    assert_eq!(
        started("https://adf.ly/abc").strategy,
        Strategy::Interstitial(Provider::AdFly)
    );
    assert_eq!(
        started("https://adfoc.us/abc").strategy,
        Strategy::Interstitial(Provider::AdFocus)
    );
    assert_eq!(
        started("https://lnkd.in/abc").strategy,
        Strategy::Interstitial(Provider::LinkedIn)
    );
}

#[test]
fn interstitial_page_yields_its_embedded_destination() {
    let res = started("https://adfoc.us/abc");
    let body = "<script>var click_url = \"https://example.net/dest\";</script>";
    match res.on_event(Event::Completed(body.to_string())) {
        Progress::Done(Ok(destination)) => assert_eq!(destination, "https://example.net/dest"),
        other => panic!("expected the embedded destination, got {:?}", outcome_name(&other)),
    }
}

fn outcome_name(p: &Progress) -> String {
    match p {
        Progress::Next(res) => format!("Next({})", res.url),
        Progress::Done(Ok(s)) => format!("Done(Ok({}))", s),
        Progress::Done(Err(e)) => format!("Done(Err({:?}))", e),
    }
}
