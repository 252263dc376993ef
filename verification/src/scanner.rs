//! The scan pipeline: decoding `Set-Cookie` header values into cookie
//! records, third-party determination, and purpose classification.

use vstd::prelude::*;
use vstd::string::StrSliceExecFns;
use vstd::utf8::is_ascii_chars;

use crate::cookie_info::{CookieCategory, CookieInfo, CookieInfoV, SameSitePolicy};
use crate::strutil::{
    ascii_lower, ascii_upper, chars_match_at, lemma_lower_of_upper, matches_at, spec_contains,
    spec_starts_with, spec_strip_dot, str_contains, str_eq, str_starts_with, strip_leading_dot,
};

verus! {

// ---------------------------------------------------------------------------
// Purpose classification
// ---------------------------------------------------------------------------
/// What `str::to_lowercase` returns: the Unicode lower-casing of a string,
/// a function of its characters alone.
pub uninterp spec fn lower_of(s: Seq<char>) -> Seq<char>;

/// Relies on `str::to_lowercase`: the result depends on the characters of
/// `s` alone, and on an ASCII string it lower-cases character by character.
#[verifier::external_body]
fn to_lowercase_str(s: &str) -> (r: String)
    ensures
        r@ == lower_of(s@),
        is_ascii_chars(s@) ==> r@ == ascii_lower(s@),
{
    s.to_lowercase()
}

/// The lower-cased name marks an analytics cookie.
pub open spec fn is_analytics_name(n: Seq<char>) -> bool {
    ||| spec_starts_with(n, "_ga"@)
    ||| spec_starts_with(n, "_gid"@)
    ||| spec_starts_with(n, "_gat"@)
    ||| spec_contains(n, "analytics"@)
    ||| spec_contains(n, "_utm"@)
    ||| spec_starts_with(n, "__utm"@)
    ||| n == "_hjid"@
    ||| spec_starts_with(n, "_hj"@)
}

/// The lower-cased name marks a marketing or advertising cookie.
pub open spec fn is_marketing_name(n: Seq<char>) -> bool {
    ||| spec_starts_with(n, "_fbp"@)
    ||| spec_starts_with(n, "_fbc"@)
    ||| spec_contains(n, "ads"@)
    ||| spec_contains(n, "advert"@)
    ||| spec_contains(n, "doubleclick"@)
    ||| spec_starts_with(n, "_gcl"@)
    ||| n == "fr"@
    ||| n == "ide"@
    ||| spec_contains(n, "marketing"@)
}

/// The lower-cased name marks a functional cookie.
pub open spec fn is_functional_name(n: Seq<char>) -> bool {
    ||| spec_contains(n, "lang"@)
    ||| spec_contains(n, "locale"@)
    ||| spec_contains(n, "pref"@)
    ||| spec_contains(n, "theme"@)
    ||| spec_contains(n, "timezone"@)
    ||| spec_contains(n, "currency"@)
}

/// The lower-cased name marks a strictly necessary cookie.
pub open spec fn is_necessary_name(n: Seq<char>) -> bool {
    ||| spec_contains(n, "session"@)
    ||| spec_contains(n, "csrf"@)
    ||| spec_contains(n, "xsrf"@)
    ||| spec_contains(n, "token"@)
    ||| spec_contains(n, "auth"@)
    ||| spec_contains(n, "consent"@)
    ||| spec_contains(n, "cookie_policy"@)
    ||| n == "__cfduid"@
    ||| spec_starts_with(n, "__cf"@)
}

/// The category of a lower-cased cookie name: the rule groups are tried
/// in a fixed order and the first match wins.
pub open spec fn category_of_lowered(n: Seq<char>) -> CookieCategory {
    if is_analytics_name(n) {
        CookieCategory::Analytics
    } else if is_marketing_name(n) {
        CookieCategory::Marketing
    } else if is_functional_name(n) {
        CookieCategory::Functional
    } else if is_necessary_name(n) {
        CookieCategory::Necessary
    } else {
        CookieCategory::Unknown
    }
}

/// The category of a cookie name as given: the name is lower-cased first.
pub open spec fn spec_classify(name: Seq<char>) -> CookieCategory {
    category_of_lowered(lower_of(name))
}

/// Classification reads only the case-folded name: two names with the
/// same lower-cased form are classified alike.
pub proof fn lemma_classify_depends_on_folded(a: Seq<char>, b: Seq<char>)
    requires
        lower_of(a) == lower_of(b),
    ensures
        spec_classify(a) == spec_classify(b),
{
}

/// An ASCII name and its upper-cased form are classified alike.
pub proof fn lemma_classify_case_insensitive(name: Seq<char>)
    ensures
        category_of_lowered(ascii_lower(ascii_upper(name))) == category_of_lowered(
            ascii_lower(name),
        ),
{
    lemma_lower_of_upper(name);
}

/// Classify an already lower-cased cookie name.
pub fn classify_lowered(lower: &str) -> (c: CookieCategory)
    ensures
        c == category_of_lowered(lower@),
{
    if str_starts_with(lower, "_ga") || str_starts_with(lower, "_gid") || str_starts_with(
        lower,
        "_gat",
    ) || str_contains(lower, "analytics") || str_contains(lower, "_utm") || str_starts_with(
        lower,
        "__utm",
    ) || str_eq(lower, "_hjid") || str_starts_with(lower, "_hj") {
        return CookieCategory::Analytics;
    }
    if str_starts_with(lower, "_fbp") || str_starts_with(lower, "_fbc") || str_contains(
        lower,
        "ads",
    ) || str_contains(lower, "advert") || str_contains(lower, "doubleclick") || str_starts_with(
        lower,
        "_gcl",
    ) || str_eq(lower, "fr") || str_eq(lower, "ide") || str_contains(lower, "marketing") {
        return CookieCategory::Marketing;
    }
    if str_contains(lower, "lang") || str_contains(lower, "locale") || str_contains(lower, "pref")
        || str_contains(lower, "theme") || str_contains(lower, "timezone") || str_contains(
        lower,
        "currency",
    ) {
        return CookieCategory::Functional;
    }
    if str_contains(lower, "session") || str_contains(lower, "csrf") || str_contains(lower, "xsrf")
        || str_contains(lower, "token") || str_contains(lower, "auth") || str_contains(
        lower,
        "consent",
    ) || str_contains(lower, "cookie_policy") || str_eq(lower, "__cfduid") || str_starts_with(
        lower,
        "__cf",
    ) {
        return CookieCategory::Necessary;
    }
    CookieCategory::Unknown
}

/// Classify a cookie by its name, case-insensitively, using common naming
/// patterns.
pub fn classify_cookie(name: &str) -> (c: CookieCategory)
    ensures
        c == spec_classify(name@),
        is_ascii_chars(name@) ==> c == category_of_lowered(ascii_lower(name@)),
{
    let lower = to_lowercase_str(name);
    classify_lowered(lower.as_str())
}

// ---------------------------------------------------------------------------
// Third-party determination
// ---------------------------------------------------------------------------
/// `child` is a strict subdomain of `parent`: it ends with `.` followed
/// by `parent`.
pub open spec fn domain_is_suffix(child: Seq<char>, parent: Seq<char>) -> bool {
    &&& child.len() > parent.len()
    &&& child[child.len() - parent.len() - 1] == '.'
    &&& matches_at(child, parent, child.len() - parent.len())
}

/// A cookie is third-party when, after stripping at most one leading dot
/// from each side, the domains are unequal and neither is a strict
/// subdomain of the other.
pub open spec fn spec_is_third_party(cookie_domain: Seq<char>, page_domain: Seq<char>) -> bool {
    let c = spec_strip_dot(cookie_domain);
    let p = spec_strip_dot(page_domain);
    !(c == p || domain_is_suffix(p, c) || domain_is_suffix(c, p))
}

/// A domain is never third-party to itself.
pub proof fn lemma_third_party_irreflexive(d: Seq<char>)
    ensures
        !spec_is_third_party(d, d),
{
}

/// Third-party status does not depend on which side is the cookie's
/// domain and which the page's.
pub proof fn lemma_third_party_symmetric(a: Seq<char>, b: Seq<char>)
    ensures
        spec_is_third_party(a, b) == spec_is_third_party(b, a),
{
}

/// A page on a strict subdomain of the cookie's domain, or the other way
/// round, is first-party.
pub proof fn lemma_parent_child_first_party(child: Seq<char>, parent: Seq<char>)
    requires
        domain_is_suffix(spec_strip_dot(child), spec_strip_dot(parent)),
    ensures
        !spec_is_third_party(child, parent),
        !spec_is_third_party(parent, child),
{
}

/// Does `child` end with `.` followed by `parent`?
fn ends_with_dot_domain(child: &str, parent: &str) -> (r: bool)
    ensures
        r == domain_is_suffix(child@, parent@),
{
    let cl = child.unicode_len();
    let pl = parent.unicode_len();
    if cl <= pl {
        return false;
    }
    if child.get_char(cl - pl - 1) != '.' {
        return false;
    }
    chars_match_at(child, parent, cl - pl)
}

/// Determines whether a cookie is third-party: its domain and the page's
/// domain are compared after stripping at most one leading dot, and a
/// strict-subdomain relation in either direction counts as first-party.
pub fn is_cookie_third_party(cookie_domain: &str, page_domain: &str) -> (r: bool)
    ensures
        r == spec_is_third_party(cookie_domain@, page_domain@),
{
    let c = strip_leading_dot(cookie_domain);
    let p = strip_leading_dot(page_domain);
    if str_eq(c, p) {
        return false;
    }
    if ends_with_dot_domain(p, c) {
        return false;
    }
    if ends_with_dot_domain(c, p) {
        return false;
    }
    true
}

// ---------------------------------------------------------------------------
// Header decoding
// ---------------------------------------------------------------------------
/// The attributes of one syntactically valid `Set-Cookie` header value,
/// exactly as the cookie-syntax parser hands them over: absent attributes
/// are still absent, no default has been applied yet.
pub struct RawCookie {
    pub name: String,
    pub value: String,
    pub domain: Option<String>,
    pub path: Option<String>,
    pub secure: Option<bool>,
    pub http_only: Option<bool>,
    pub same_site: Option<SameSitePolicy>,
}

/// The mathematical model of a [`RawCookie`].
pub struct RawCookieV {
    pub name: Seq<char>,
    pub value: Seq<char>,
    pub domain: Option<Seq<char>>,
    pub path: Option<Seq<char>>,
    pub secure: Option<bool>,
    pub http_only: Option<bool>,
    pub same_site: Option<SameSitePolicy>,
}

impl View for RawCookie {
    type V = RawCookieV;

    open spec fn view(&self) -> RawCookieV {
        RawCookieV {
            name: self.name@,
            value: self.value@,
            domain: match self.domain {
                Option::Some(d) => Option::Some(d@),
                Option::None => Option::None,
            },
            path: match self.path {
                Option::Some(p) => Option::Some(p@),
                Option::None => Option::None,
            },
            secure: self.secure,
            http_only: self.http_only,
            same_site: self.same_site,
        }
    }
}

/// What the cookie-syntax parser makes of one header value: `None` for a
/// malformed value, otherwise the decoded attributes. The result is a
/// function of the header string alone.
pub uninterp spec fn spec_parse_cookie(s: Seq<char>) -> Option<RawCookieV>;

/// Relies on `cookie::Cookie::parse` and its accessors: parsing is a
/// function of the header string alone, a parsed cookie's name is never
/// empty, and an absent attribute is reported as absent.
#[verifier::external_body]
fn parse_cookie_str(s: &str) -> (r: Option<RawCookie>)
    ensures
        r is Some <==> spec_parse_cookie(s@) is Some,
        r matches Some(rc) ==> spec_parse_cookie(s@) matches Some(m) && rc@ == m && m.name.len()
            > 0,
{
    let c = match cookie::Cookie::parse(s) { Ok(c) => c, Err(_) => return None };
    let same_site = c.same_site().map(|v| match v {
        cookie::SameSite::Strict => SameSitePolicy::Strict,
        cookie::SameSite::Lax => SameSitePolicy::Lax,
        cookie::SameSite::None => SameSitePolicy::ExplicitNone,
    });
    Some(RawCookie {
        name: c.name().to_string(), value: c.value().to_string(),
        domain: c.domain().map(|d| d.to_string()), path: c.path().map(|p| p.to_string()),
        secure: c.secure(), http_only: c.http_only(), same_site,
    })
}

/// The cookie record that raw attributes and a page domain determine:
/// absent attributes get their defaults (the page's host for the domain,
/// the empty path, `false` for the flags, `Unset` for `SameSite`), the
/// third-party flag comes from the domain comparison, and the category
/// from the name.
pub open spec fn spec_cookie_info(rc: RawCookieV, page: Seq<char>) -> CookieInfoV {
    let domain = match rc.domain {
        Option::Some(d) => d,
        Option::None => page,
    };
    CookieInfoV {
        name: rc.name,
        value: rc.value,
        domain: domain,
        path: match rc.path {
            Option::Some(p) => p,
            Option::None => Seq::empty(),
        },
        secure: match rc.secure {
            Option::Some(b) => b,
            Option::None => false,
        },
        http_only: match rc.http_only {
            Option::Some(b) => b,
            Option::None => false,
        },
        same_site: match rc.same_site {
            Option::Some(ss) => ss,
            Option::None => SameSitePolicy::Unset,
        },
        is_third_party: spec_is_third_party(domain, page),
        category: spec_classify(rc.name),
    }
}

/// A header with no `Domain`, `Path` or `SameSite` attribute yields a
/// record with the page's host as domain, the empty path, and `Unset`.
pub proof fn lemma_absent_attribute_defaults(rc: RawCookieV, page: Seq<char>)
    requires
        rc.domain is None,
        rc.path is None,
        rc.same_site is None,
    ensures
        spec_cookie_info(rc, page).domain == page,
        spec_cookie_info(rc, page).path == Seq::<char>::empty(),
        spec_cookie_info(rc, page).same_site == SameSitePolicy::Unset,
{
}

/// Assemble the cookie record from raw attributes and the page's domain.
pub fn cookie_info_from_parts(raw: RawCookie, page_domain: &str) -> (c: CookieInfo)
    ensures
        c@ == spec_cookie_info(raw@, page_domain@),
{
    let category = classify_cookie(raw.name.as_str());
    let domain = match raw.domain {
        Option::Some(d) => d,
        Option::None => page_domain.to_owned(),
    };
    let path = match raw.path {
        Option::Some(p) => p,
        Option::None => String::new(),
    };
    let secure = match raw.secure {
        Option::Some(b) => b,
        Option::None => false,
    };
    let http_only = match raw.http_only {
        Option::Some(b) => b,
        Option::None => false,
    };
    let same_site = match raw.same_site {
        Option::Some(ss) => ss,
        Option::None => SameSitePolicy::Unset,
    };
    let is_third_party = is_cookie_third_party(domain.as_str(), page_domain);
    CookieInfo {
        name: raw.name,
        value: raw.value,
        domain,
        path,
        secure,
        http_only,
        same_site,
        is_third_party,
        category,
    }
}

/// Decode one `Set-Cookie` header value, or report that it is malformed.
pub fn parse_single_cookie(header_value: &str, domain: &str) -> (r: Option<CookieInfo>)
    ensures
        match spec_parse_cookie(header_value@) {
            Option::Some(rc) => r matches Some(c) && c@ == spec_cookie_info(rc, domain@),
            Option::None => r is None,
        },
        r matches Some(c) ==> c@.name.len() > 0,
{
    match parse_cookie_str(header_value) {
        Option::Some(raw) => Option::Some(cookie_info_from_parts(raw, domain)),
        Option::None => Option::None,
    }
}

/// The views of a cookie sequence.
pub open spec fn views_of(s: Seq<CookieInfo>) -> Seq<CookieInfoV> {
    s.map_values(|c: CookieInfo| c@)
}

/// The records that a sequence of header values determines, in header
/// order: each value that parses contributes one record, each malformed
/// value is dropped.
pub open spec fn spec_scan(vals: Seq<String>, page: Seq<char>) -> Seq<CookieInfoV>
    decreases vals.len(),
{
    if vals.len() == 0 {
        Seq::empty()
    } else {
        spec_scan(vals.drop_last(), page) + match spec_parse_cookie(vals.last()@) {
            Option::Some(rc) => seq![spec_cookie_info(rc, page)],
            Option::None => Seq::<CookieInfoV>::empty(),
        }
    }
}

/// Decode every `Set-Cookie` header value of a response, in appearance
/// order, dropping the malformed ones.
pub fn parse_set_cookie_headers(header_values: &Vec<String>, domain: &str) -> (r: Vec<CookieInfo>)
    ensures
        views_of(r@) == spec_scan(header_values@, domain@),
        forall|j: int| 0 <= j < r@.len() ==> #[trigger] r@[j]@.name.len() > 0,
{
    let mut out: Vec<CookieInfo> = Vec::new();
    let mut i: usize = 0;
    while i < header_values.len()
        invariant
            i <= header_values@.len(),
            views_of(out@) == spec_scan(header_values@.subrange(0, i as int), domain@),
            forall|j: int| 0 <= j < out@.len() ==> #[trigger] out@[j]@.name.len() > 0,
        decreases header_values@.len() - i,
    {
        proof {
            assert(header_values@.subrange(0, i + 1).drop_last() =~= header_values@.subrange(
                0,
                i as int,
            ));
            assert(header_values@.subrange(0, i + 1).last() == header_values@[i as int]);
        }
        match parse_single_cookie(header_values[i].as_str(), domain) {
            Option::Some(c) => {
                proof {
                    assert(views_of(out@.push(c)) =~= views_of(out@) + seq![c@]);
                }
                out.push(c);
            },
            Option::None => {
                proof {
                    assert(views_of(out@) + Seq::<CookieInfoV>::empty() =~= views_of(out@));
                }
            },
        }
        i += 1;
    }
    proof {
        assert(header_values@.subrange(0, header_values@.len() as int) =~= header_values@);
    }
    out
}

} // verus!
