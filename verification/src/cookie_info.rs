//! Cookie records and the per-URL aggregate: the data model, the counting
//! specifications, and the verified summary constructor.

use vstd::prelude::*;

verus! {

/// The `SameSite` policy of a cookie. `Unset` records that the attribute
/// was absent from the header, which is distinct from an explicit `None`.
#[derive(Clone, Copy, Debug, PartialEq, Eq, Structural)]
pub enum SameSitePolicy {
    Strict,
    Lax,
    ExplicitNone,
    Unset,
}

impl SameSitePolicy {
    /// The display text of the policy.
    pub open spec fn spec_label(self) -> Seq<char> {
        match self {
            SameSitePolicy::Strict => "Strict"@,
            SameSitePolicy::Lax => "Lax"@,
            SameSitePolicy::ExplicitNone => "None"@,
            SameSitePolicy::Unset => "Unset"@,
        }
    }

    /// The display text of the policy.
    pub fn label(self) -> (s: String)
        ensures
            s@ == self.spec_label(),
    {
        match self {
            SameSitePolicy::Strict => "Strict".to_owned(),
            SameSitePolicy::Lax => "Lax".to_owned(),
            SameSitePolicy::ExplicitNone => "None".to_owned(),
            SameSitePolicy::Unset => "Unset".to_owned(),
        }
    }
}

/// The purpose of a cookie, judged from its name. `Unknown` is the
/// default when no naming rule applies.
#[derive(Clone, Copy, Debug, PartialEq, Eq, Structural)]
pub enum CookieCategory {
    Necessary,
    Functional,
    Analytics,
    Marketing,
    Unknown,
}

impl CookieCategory {
    /// The display text of the category.
    pub open spec fn spec_label(self) -> Seq<char> {
        match self {
            CookieCategory::Necessary => "Necessary"@,
            CookieCategory::Functional => "Functional"@,
            CookieCategory::Analytics => "Analytics"@,
            CookieCategory::Marketing => "Marketing"@,
            CookieCategory::Unknown => "Unknown"@,
        }
    }

    /// The display text of the category.
    pub fn label(self) -> (s: String)
        ensures
            s@ == self.spec_label(),
    {
        match self {
            CookieCategory::Necessary => "Necessary".to_owned(),
            CookieCategory::Functional => "Functional".to_owned(),
            CookieCategory::Analytics => "Analytics".to_owned(),
            CookieCategory::Marketing => "Marketing".to_owned(),
            CookieCategory::Unknown => "Unknown".to_owned(),
        }
    }
}

/// One parsed cookie.
#[derive(Clone, Debug)]
pub struct CookieInfo {
    pub name: String,
    pub value: String,
    pub domain: String,
    pub path: String,
    pub secure: bool,
    pub http_only: bool,
    pub same_site: SameSitePolicy,
    pub is_third_party: bool,
    pub category: CookieCategory,
}

/// The mathematical model of a [`CookieInfo`]: the same fields with
/// strings read as character sequences.
pub struct CookieInfoV {
    pub name: Seq<char>,
    pub value: Seq<char>,
    pub domain: Seq<char>,
    pub path: Seq<char>,
    pub secure: bool,
    pub http_only: bool,
    pub same_site: SameSitePolicy,
    pub is_third_party: bool,
    pub category: CookieCategory,
}

impl View for CookieInfo {
    type V = CookieInfoV;

    open spec fn view(&self) -> CookieInfoV {
        CookieInfoV {
            name: self.name@,
            value: self.value@,
            domain: self.domain@,
            path: self.path@,
            secure: self.secure,
            http_only: self.http_only,
            same_site: self.same_site,
            is_third_party: self.is_third_party,
            category: self.category,
        }
    }
}

/// How many cookies of the sequence are third-party.
pub open spec fn count_third_party(s: Seq<CookieInfo>) -> nat
    decreases s.len(),
{
    if s.len() == 0 {
        0
    } else {
        count_third_party(s.drop_last()) + if s.last().is_third_party {
            1nat
        } else {
            0nat
        }
    }
}

/// How many cookies of the sequence carry the given category.
pub open spec fn count_category(s: Seq<CookieInfo>, cat: CookieCategory) -> nat
    decreases s.len(),
{
    if s.len() == 0 {
        0
    } else {
        count_category(s.drop_last(), cat) + if s.last().category == cat {
            1nat
        } else {
            0nat
        }
    }
}

/// Each cookie carries exactly one category, so the five per-category
/// counts of any cookie sequence sum to its length.
pub proof fn lemma_category_counts_sum(s: Seq<CookieInfo>)
    ensures
        count_category(s, CookieCategory::Necessary) + count_category(s, CookieCategory::Functional)
            + count_category(s, CookieCategory::Analytics) + count_category(
            s,
            CookieCategory::Marketing,
        ) + count_category(s, CookieCategory::Unknown) == s.len(),
    decreases s.len(),
{
    if s.len() > 0 {
        lemma_category_counts_sum(s.drop_last());
    }
}

/// Count of cookies per category.
#[derive(Clone, Debug)]
pub struct CategorySummary {
    pub necessary: usize,
    pub functional: usize,
    pub analytics: usize,
    pub marketing: usize,
    pub unknown: usize,
}

/// The outcome of scanning one URL.
#[derive(Clone, Debug)]
pub struct ScanResult {
    pub url: String,
    pub cookies: Vec<CookieInfo>,
    pub total_cookies: usize,
    pub third_party_count: usize,
    pub category_summary: CategorySummary,
}

impl ScanResult {
    /// The derived fields agree with the cookie sequence they were
    /// computed from.
    pub open spec fn wf(self) -> bool {
        &&& self.total_cookies == self.cookies@.len()
        &&& self.third_party_count == count_third_party(self.cookies@)
        &&& self.category_summary.necessary == count_category(
            self.cookies@,
            CookieCategory::Necessary,
        )
        &&& self.category_summary.functional == count_category(
            self.cookies@,
            CookieCategory::Functional,
        )
        &&& self.category_summary.analytics == count_category(
            self.cookies@,
            CookieCategory::Analytics,
        )
        &&& self.category_summary.marketing == count_category(
            self.cookies@,
            CookieCategory::Marketing,
        )
        &&& self.category_summary.unknown == count_category(self.cookies@, CookieCategory::Unknown)
    }

    /// Build the aggregate for one URL: total count, third-party count and
    /// per-category counts, all computed once from the cookie sequence.
    pub fn new(url: String, cookies: Vec<CookieInfo>) -> (r: ScanResult)
        ensures
            r.url == url,
            r.cookies == cookies,
            r.wf(),
            r.category_summary.necessary + r.category_summary.functional
                + r.category_summary.analytics + r.category_summary.marketing
                + r.category_summary.unknown == cookies@.len(),
    {
        let total_cookies = cookies.len();
        let mut third_party: usize = 0;
        let mut necessary: usize = 0;
        let mut functional: usize = 0;
        let mut analytics: usize = 0;
        let mut marketing: usize = 0;
        let mut unknown: usize = 0;
        let mut i: usize = 0;
        while i < cookies.len()
            invariant
                i <= cookies@.len(),
                third_party <= i,
                necessary + functional + analytics + marketing + unknown == i,
                third_party == count_third_party(cookies@.subrange(0, i as int)),
                necessary == count_category(cookies@.subrange(0, i as int), CookieCategory::Necessary),
                functional == count_category(
                    cookies@.subrange(0, i as int),
                    CookieCategory::Functional,
                ),
                analytics == count_category(cookies@.subrange(0, i as int), CookieCategory::Analytics),
                marketing == count_category(cookies@.subrange(0, i as int), CookieCategory::Marketing),
                unknown == count_category(cookies@.subrange(0, i as int), CookieCategory::Unknown),
            decreases cookies@.len() - i,
        {
            proof {
                assert(cookies@.subrange(0, i + 1).drop_last() =~= cookies@.subrange(0, i as int));
                assert(cookies@.subrange(0, i + 1).last() == cookies@[i as int]);
            }
            let c = &cookies[i];
            if c.is_third_party {
                third_party += 1;
            }
            match c.category {
                CookieCategory::Necessary => necessary += 1,
                CookieCategory::Functional => functional += 1,
                CookieCategory::Analytics => analytics += 1,
                CookieCategory::Marketing => marketing += 1,
                CookieCategory::Unknown => unknown += 1,
            }
            i += 1;
        }
        proof {
            assert(cookies@.subrange(0, cookies@.len() as int) =~= cookies@);
        }
        ScanResult {
            url,
            cookies,
            total_cookies,
            third_party_count: third_party,
            category_summary: CategorySummary { necessary, functional, analytics, marketing, unknown },
        }
    }
}

} // verus!
