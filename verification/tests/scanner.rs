use rs_cookie_scanner::cookie_info::CookieCategory;
use rs_cookie_scanner::scanner::{
    classify_cookie, is_cookie_third_party, parse_set_cookie_headers,
};

#[test]
fn test_classify_analytics_cookies() {
    assert_eq!(classify_cookie("_ga"), CookieCategory::Analytics);
    assert_eq!(classify_cookie("_gid"), CookieCategory::Analytics);
    assert_eq!(classify_cookie("_gat_gtag"), CookieCategory::Analytics);
    assert_eq!(classify_cookie("__utma"), CookieCategory::Analytics);
    assert_eq!(classify_cookie("_hjid"), CookieCategory::Analytics);
    assert_eq!(classify_cookie("my_analytics_id"), CookieCategory::Analytics);
}

#[test]
fn test_classify_marketing_cookies() {
    assert_eq!(classify_cookie("_fbp"), CookieCategory::Marketing);
    assert_eq!(classify_cookie("_fbc"), CookieCategory::Marketing);
    assert_eq!(classify_cookie("_gcl_au"), CookieCategory::Marketing);
    assert_eq!(classify_cookie("fr"), CookieCategory::Marketing);
    assert_eq!(classify_cookie("ide"), CookieCategory::Marketing);
}

#[test]
fn test_classify_functional_cookies() {
    assert_eq!(classify_cookie("lang"), CookieCategory::Functional);
    assert_eq!(classify_cookie("locale"), CookieCategory::Functional);
    assert_eq!(classify_cookie("user_pref"), CookieCategory::Functional);
    assert_eq!(classify_cookie("theme"), CookieCategory::Functional);
}

#[test]
fn test_classify_necessary_cookies() {
    assert_eq!(classify_cookie("session_id"), CookieCategory::Necessary);
    assert_eq!(classify_cookie("csrf_token"), CookieCategory::Necessary);
    assert_eq!(classify_cookie("XSRF-TOKEN"), CookieCategory::Necessary);
    assert_eq!(classify_cookie("auth_key"), CookieCategory::Necessary);
}

#[test]
fn test_classify_unknown_cookies() {
    assert_eq!(classify_cookie("random_cookie"), CookieCategory::Unknown);
    assert_eq!(classify_cookie("xyz"), CookieCategory::Unknown);
}

#[test]
fn test_is_cookie_third_party() {
    // Same domain
    assert!(!is_cookie_third_party("example.com", "example.com"));

    // Subdomain of page domain
    assert!(!is_cookie_third_party(".example.com", "www.example.com"));

    // Cookie domain is parent of page domain
    assert!(!is_cookie_third_party("example.com", "sub.example.com"));

    // Different domain = third party
    assert!(is_cookie_third_party("tracker.com", "example.com"));
    assert!(is_cookie_third_party("ads.other.com", "example.com"));
}

#[test]
fn test_parse_set_cookie_headers() {
    let headers = vec![
        "_ga=GA1.2.123; Domain=.example.com; Path=/; Secure".to_string(),
        "session_id=abc123; Path=/; HttpOnly".to_string(),
    ];

    let cookies = parse_set_cookie_headers(&headers, "example.com");
    assert_eq!(cookies.len(), 2);

    assert_eq!(cookies[0].name, "_ga");
    assert!(cookies[0].secure);
    assert_eq!(cookies[0].category, CookieCategory::Analytics);

    assert_eq!(cookies[1].name, "session_id");
    assert!(cookies[1].http_only);
    assert_eq!(cookies[1].category, CookieCategory::Necessary);
}
