//! The page readers: refresh directives and provider page rules.

use urlexpand::{extract_interstitial, extract_refresh, Error, Provider};

#[test]
fn refresh_directive_target_is_extracted() {
    let body = "<meta http-equiv=\"refresh\" content=\"5; url=https://example.org/target\">";
    assert_eq!(
        extract_refresh(body).as_deref(),
        Some("https://example.org/target")
    );
}

#[test]
fn first_refresh_directive_wins() {
    let body = "<meta http-equiv=\"refresh\" content=\"0; url=https://first.example/\"><meta http-equiv=\"refresh\" content=\"0; url=https://second.example/\">";
    assert_eq!(extract_refresh(body).as_deref(), Some("https://first.example/"));
}

#[test]
fn page_without_refresh_directive_yields_nothing() {
    assert_eq!(extract_refresh("<html><body>plain page</body></html>"), None);
    assert_eq!(extract_refresh(""), None);
}

#[test]
fn refresh_directive_without_closing_quote_yields_nothing() {
    let body = "<meta http-equiv=\"refresh\" content=\"0; url=https://example.org/target";
    assert_eq!(extract_refresh(body), None);
}

#[test]
fn adfly_skip_link_dest_parameter_is_extracted() {
    let body = "<a class=\"skip\" href=\"https://adf.ly/skip?dest=https://example.com/page\">skip</a>";
    assert_eq!(
        extract_interstitial(Provider::AdFly, body).as_deref(),
        Some("https://example.com/page")
    );
}

#[test]
fn adfocus_click_url_assignment_is_extracted() {
    let body = "<script>var click_url = \"https://example.net/dest\";</script>";
    assert_eq!(
        extract_interstitial(Provider::AdFocus, body).as_deref(),
        Some("https://example.net/dest")
    );
}

#[test]
fn linkedin_external_link_anchor_is_extracted() {
    let body = "<a data-tracking-control-name=\"external_url_click\" href=\"https://rust-lang.org/\">go</a>";
    assert_eq!(
        extract_interstitial(Provider::LinkedIn, body).as_deref(),
        Some("https://rust-lang.org/")
    );
}

#[test]
fn mismatched_provider_page_yields_nothing() {
    let adfocus_page = "<script>var click_url = \"https://example.net/dest\";</script>";
    assert_eq!(extract_interstitial(Provider::AdFly, adfocus_page), None);
    assert_eq!(extract_interstitial(Provider::LinkedIn, adfocus_page), None);
}

#[test]
fn errors_describe_themselves() {
    assert_eq!(Error::Timeout.describe(), "timed out");
    assert_eq!(Error::InvalidInput.describe(), "not a valid shortened url");
    assert_eq!(
        Error::ExtractionFailure.describe(),
        "could not extract destination from page"
    );
}
