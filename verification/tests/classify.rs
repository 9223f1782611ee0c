//! Classification: which strings count as shortened URLs.

use urlexpand::{domain_is_shortened, domain_matches_service, is_shortened, validate, which_service};

#[test]
fn subdomain_of_service_is_shortened() {
    assert!(is_shortened("https://sub.bit.ly/x"));
}

#[test]
fn lookalike_domain_is_not_shortened() {
    assert!(!is_shortened("https://evilbit.ly/x"));
}

#[test]
fn exact_service_is_shortened() {
    assert!(is_shortened("https://bit.ly/x"));
}

#[test]
fn classification_is_case_insensitive() {
    assert!(is_shortened("https://BIT.LY/x"));
}

#[test]
fn scheme_less_input_is_shortened() {
    assert!(is_shortened("bit.ly/x"));
}

#[test]
fn non_shortener_domain_is_not_shortened() {
    assert!(!is_shortened("https://example.com"));
}

#[test]
fn garbage_is_not_shortened() {
    assert!(!is_shortened("%% not a url %%"));
}

#[test]
fn classification_is_deterministic() {
    let inputs = [
        "https://bit.ly/x",
        "bit.ly/x",
        "https://example.com",
        "%% not a url %%",
        "https://sub.tinyurl.com/abc",
    ];
    for input in inputs {
        let first = is_shortened(input);
        for _ in 0..3 {
            assert_eq!(is_shortened(input), first);
        }
    }
}

#[test]
fn domain_match_requires_label_boundary() {
    assert!(domain_matches_service("bit.ly", "bit.ly"));
    assert!(domain_matches_service("x.bit.ly", "bit.ly"));
    assert!(!domain_matches_service("notbit.ly", "bit.ly"));
    assert!(!domain_matches_service("bit.ly", "x.bit.ly"));
}

#[test]
fn domain_normalization_folds_case_and_trailing_dot() {
    assert!(domain_is_shortened("BIT.LY"));
    assert!(domain_is_shortened("bit.ly."));
    assert!(domain_is_shortened("tinyurl.com"));
    assert!(!domain_is_shortened("example.com"));
}

#[test]
fn validate_returns_normalized_url() {
    assert_eq!(validate("bit.ly/x").as_deref(), Some("https://bit.ly/x"));
    assert_eq!(
        validate("https://bit.ly/3alqLKi").as_deref(),
        Some("https://bit.ly/3alqLKi")
    );
    assert_eq!(validate("https://example.com"), None);
    assert_eq!(validate("%% not a url %%"), None);
}

#[test]
fn which_service_names_the_matched_entry() {
    assert_eq!(which_service("https://sub.bit.ly/abc"), Some("bit.ly"));
    assert_eq!(which_service("https://adf.ly/abc"), Some("adf.ly"));
    assert_eq!(which_service("https://example.com"), None);
}
