use rs_cookie_scanner::cookie_info::{
    CookieCategory, CookieInfo, SameSitePolicy, ScanResult,
};

fn cookie(
    name: &str,
    value: &str,
    domain: &str,
    is_third_party: bool,
    category: CookieCategory,
    secure: bool,
    http_only: bool,
    same_site: SameSitePolicy,
) -> CookieInfo {
    CookieInfo {
        name: name.to_string(),
        value: value.to_string(),
        domain: domain.to_string(),
        path: "/".to_string(),
        secure,
        http_only,
        same_site,
        is_third_party,
        category,
    }
}

#[test]
fn test_scan_result_summary() {
    let cookies = vec![
        cookie(
            "_ga",
            "GA1.2.123",
            ".example.com",
            false,
            CookieCategory::Analytics,
            true,
            false,
            SameSitePolicy::Lax,
        ),
        cookie(
            "session_id",
            "abc123",
            "example.com",
            false,
            CookieCategory::Necessary,
            true,
            true,
            SameSitePolicy::Strict,
        ),
    ];

    let result = ScanResult::new("https://example.com".to_string(), cookies);

    assert_eq!(result.total_cookies, 2);
    assert_eq!(result.third_party_count, 0);
    assert_eq!(result.category_summary.analytics, 1);
    assert_eq!(result.category_summary.necessary, 1);
    assert_eq!(result.category_summary.functional, 0);
    assert_eq!(result.category_summary.marketing, 0);
    assert_eq!(result.category_summary.unknown, 0);
}

#[test]
fn test_same_site_display() {
    assert_eq!(SameSitePolicy::Strict.label(), "Strict");
    assert_eq!(SameSitePolicy::Lax.label(), "Lax");
    assert_eq!(SameSitePolicy::ExplicitNone.label(), "None");
    assert_eq!(SameSitePolicy::Unset.label(), "Unset");
}

#[test]
fn test_category_display() {
    assert_eq!(CookieCategory::Necessary.label(), "Necessary");
    assert_eq!(CookieCategory::Functional.label(), "Functional");
    assert_eq!(CookieCategory::Analytics.label(), "Analytics");
    assert_eq!(CookieCategory::Marketing.label(), "Marketing");
    assert_eq!(CookieCategory::Unknown.label(), "Unknown");
}

#[test]
fn test_empty_scan_result() {
    let result = ScanResult::new("https://example.com".to_string(), Vec::new());
    assert_eq!(result.total_cookies, 0);
    assert_eq!(result.third_party_count, 0);
    assert_eq!(result.category_summary.necessary, 0);
    assert_eq!(result.category_summary.functional, 0);
    assert_eq!(result.category_summary.analytics, 0);
    assert_eq!(result.category_summary.marketing, 0);
    assert_eq!(result.category_summary.unknown, 0);
    assert!(result.cookies.is_empty());
}

#[test]
fn test_summary_counts_third_party_and_sum() {
    let cookies = vec![
        cookie(
            "tracker",
            "xyz",
            "ads.tracker.com",
            true,
            CookieCategory::Unknown,
            false,
            false,
            SameSitePolicy::Unset,
        ),
        cookie(
            "_fbp",
            "fb.1",
            "other.com",
            true,
            CookieCategory::Marketing,
            false,
            false,
            SameSitePolicy::Unset,
        ),
        cookie(
            "lang",
            "en",
            "example.com",
            false,
            CookieCategory::Functional,
            false,
            false,
            SameSitePolicy::Lax,
        ),
    ];

    let result = ScanResult::new("https://example.com".to_string(), cookies);

    assert_eq!(result.total_cookies, 3);
    assert_eq!(result.third_party_count, 2);
    let s = &result.category_summary;
    assert_eq!(
        s.necessary + s.functional + s.analytics + s.marketing + s.unknown,
        result.total_cookies
    );
    assert_eq!(s.unknown, 1);
    assert_eq!(s.marketing, 1);
    assert_eq!(s.functional, 1);
}
