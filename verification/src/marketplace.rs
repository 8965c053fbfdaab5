//! The agent marketplace: publishing, discovery, installation and rating of
//! agent templates.
//!
//! A listing gathers every published version of one template name; versions
//! are only ever appended, and the latest becomes the default. Ratings are
//! kept per user; a listing's average is the mean of its users' ratings, kept
//! as an exact sum and count.
use vstd::prelude::*;
use crate::httputil::{chrono_now_secs, find_from, lemma_find_from, find_pattern, occurs_at};
use crate::strmap::StrMap;
use crate::text::{key_lt, chars_of, clone_opt_string, clone_strings, decimal, decimal_string, list_contains, lowercase, owned, str_eq, to_lowercase, views};

verus! {

/// A reusable agent definition.
#[derive(Debug, Clone)]
pub struct AgentTemplate {
    pub name: String,
    pub description: String,
    pub system_prompt: String,
    pub allowed_tools: Vec<String>,
    pub model: String,
    pub max_iterations: usize,
    pub requires_approval: bool,
    pub use_planning: bool,
}

pub struct AgentTemplateView {
    pub name: Seq<char>,
    pub description: Seq<char>,
    pub system_prompt: Seq<char>,
    pub allowed_tools: Seq<Seq<char>>,
    pub model: Seq<char>,
    pub max_iterations: usize,
    pub requires_approval: bool,
    pub use_planning: bool,
}

impl View for AgentTemplate {
    type V = AgentTemplateView;

    open spec fn view(&self) -> AgentTemplateView {
        AgentTemplateView {
            name: self.name@,
            description: self.description@,
            system_prompt: self.system_prompt@,
            allowed_tools: views(self.allowed_tools@),
            model: self.model@,
            max_iterations: self.max_iterations,
            requires_approval: self.requires_approval,
            use_planning: self.use_planning,
        }
    }
}

impl AgentTemplate {
    /// A field-by-field copy.
    pub fn duplicate(&self) -> (r: AgentTemplate)
        ensures
            r@ == self@,
    {
        AgentTemplate {
            name: self.name.clone(),
            description: self.description.clone(),
            system_prompt: self.system_prompt.clone(),
            allowed_tools: clone_strings(&self.allowed_tools),
            model: self.model.clone(),
            max_iterations: self.max_iterations,
            requires_approval: self.requires_approval,
            use_planning: self.use_planning,
        }
    }
}

/// Who can see a listing.
#[derive(Debug, Clone, Copy, PartialEq, Eq, Structural)]
pub enum ListingVisibility {
    Public,
    Team,
}

impl Default for ListingVisibility {
    fn default() -> (v: Self)
        ensures
            v == ListingVisibility::Public,
    {
        ListingVisibility::Public
    }
}

/// One published version of a template.
#[derive(Debug, Clone)]
pub struct MarketplaceVersion {
    /// `MAJOR.MINOR.PATCH`.
    pub version: String,
    pub template: AgentTemplate,
    pub published_at: u64,
}

pub struct VersionView {
    pub version: Seq<char>,
    pub template: AgentTemplateView,
    pub published_at: u64,
}

impl View for MarketplaceVersion {
    type V = VersionView;

    open spec fn view(&self) -> VersionView {
        VersionView {
            version: self.version@,
            template: self.template@,
            published_at: self.published_at,
        }
    }
}

/// A listing: every version published under one template name.
///
/// The average rating is `rating_total / rating_count` (0 with no ratings).
#[derive(Debug)]
pub struct MarketplaceListing {
    pub id: String,
    pub name: String,
    pub description: String,
    pub author_id: String,
    pub versions: Vec<MarketplaceVersion>,
    pub default_version: String,
    /// The sum of the users' ratings.
    pub rating_total: u64,
    pub rating_count: u32,
    /// Each user's rating, by user id.
    pub ratings: StrMap<u8>,
    pub created_at: u64,
    pub updated_at: u64,
    pub visibility: ListingVisibility,
    pub team_id: Option<String>,
}

pub struct ListingView {
    pub id: Seq<char>,
    pub name: Seq<char>,
    pub description: Seq<char>,
    pub author_id: Seq<char>,
    pub versions: Seq<VersionView>,
    pub default_version: Seq<char>,
    pub rating_total: u64,
    pub rating_count: u32,
    /// The users who rated, in key order, and their ratings in that order.
    pub raters: Seq<Seq<char>>,
    pub rating_values: Seq<u8>,
    pub created_at: u64,
    pub updated_at: u64,
    pub visibility: ListingVisibility,
    pub team_id: Option<Seq<char>>,
}

pub open spec fn opt_view(o: Option<String>) -> Option<Seq<char>> {
    match o {
        Some(s) => Some(s@),
        None => None,
    }
}

impl View for MarketplaceListing {
    type V = ListingView;

    open spec fn view(&self) -> ListingView {
        ListingView {
            id: self.id@,
            name: self.name@,
            description: self.description@,
            author_id: self.author_id@,
            versions: version_views(self.versions@),
            default_version: self.default_version@,
            rating_total: self.rating_total,
            rating_count: self.rating_count,
            raters: self.ratings.key_seq(),
            rating_values: self.ratings.val_seq(),
            created_at: self.created_at,
            updated_at: self.updated_at,
            visibility: self.visibility,
            team_id: opt_view(self.team_id),
        }
    }
}

/// Why a marketplace operation was refused.
#[derive(Debug, Clone, Copy, PartialEq, Eq, Structural)]
pub enum MarketplaceError {
    InvalidSemver,
    ConflictVersion,
    ListingNotFound,
    VersionNotFound,
    InvalidRating,
}

pub open spec fn marketplace_error_text(e: MarketplaceError) -> Seq<char> {
    match e {
        MarketplaceError::InvalidSemver => "invalid version format"@,
        MarketplaceError::ConflictVersion => "version already exists"@,
        MarketplaceError::ListingNotFound => "listing not found"@,
        MarketplaceError::VersionNotFound => "version not found"@,
        MarketplaceError::InvalidRating => "rating must be 1-5"@,
    }
}

impl MarketplaceError {
    /// The error's message.
    pub fn message(&self) -> (s: String)
        ensures
            s@ == marketplace_error_text(*self),
    {
        match self {
            MarketplaceError::InvalidSemver => owned("invalid version format"),
            MarketplaceError::ConflictVersion => owned("version already exists"),
            MarketplaceError::ListingNotFound => owned("listing not found"),
            MarketplaceError::VersionNotFound => owned("version not found"),
            MarketplaceError::InvalidRating => owned("rating must be 1-5"),
        }
    }
}

/// An installed template and the warnings about it.
#[derive(Debug, Clone)]
pub struct InstallResult {
    pub template: AgentTemplate,
    pub warnings: Vec<String>,
}

pub open spec fn is_ascii_digit(c: char) -> bool {
    '0' <= c && c <= '9'
}

/// `MAJOR.MINOR.PATCH`: three non-empty runs of ASCII digits joined by dots.
pub open spec fn semver(s: Seq<char>) -> bool {
    exists|i: int, j: int|
        0 < i && i + 1 < j && j + 1 < s.len() && s[i] == '.' && s[j] == '.' && forall|k: int|
            0 <= k < s.len() && k != i && k != j ==> is_ascii_digit(#[trigger] s[k])
}

/// True when `version` reads `MAJOR.MINOR.PATCH`, each part non-empty and
/// made of ASCII digits.
pub fn is_valid_semver(version: &str) -> (b: bool)
    ensures
        b == semver(version@),
{
    let cs = chars_of(version);
    let n = cs.len();
    // positions of the first two dots, and how many dots were seen
    let mut first: usize = 0;
    let mut second: usize = 0;
    let mut dots: usize = 0;
    let mut k: usize = 0;
    while k < n
        invariant
            n == cs@.len(),
            cs@ == version@,
            k <= n,
            dots <= 2,
            dots >= 1 ==> first < k && cs@[first as int] == '.',
            dots >= 2 ==> first < second && second < k && cs@[second as int] == '.',
            forall|q: int|
                0 <= q < k && !(dots >= 1 && q == first) && !(dots >= 2 && q == second)
                    ==> is_ascii_digit(#[trigger] cs@[q]),
        decreases n - k,
    {
        let c = cs[k];
        if c == '.' {
            if dots == 2 {
                proof {
                    if semver(version@) {
                        let (i, j) = choose|i: int, j: int|
                            0 < i && i + 1 < j && j + 1 < cs@.len() && cs@[i] == '.' && cs@[j]
                                == '.' && forall|q: int|
                                0 <= q < cs@.len() && q != i && q != j ==> is_ascii_digit(
                                    #[trigger] cs@[q],
                                );
                        // three dots cannot all be one of i and j
                        if first as int != i && first as int != j {
                            assert(is_ascii_digit(cs@[first as int]));
                        } else if second as int != i && second as int != j {
                            assert(is_ascii_digit(cs@[second as int]));
                        } else {
                            assert(is_ascii_digit(cs@[k as int]));
                        }
                    }
                }
                return false;
            }
            if dots == 0 {
                first = k;
            } else {
                second = k;
            }
            dots = dots + 1;
        } else if !('0' <= c && c <= '9') {
            proof {
                if semver(version@) {
                    let (i, j) = choose|i: int, j: int|
                        0 < i && i + 1 < j && j + 1 < cs@.len() && cs@[i] == '.' && cs@[j] == '.'
                            && forall|q: int|
                            0 <= q < cs@.len() && q != i && q != j ==> is_ascii_digit(
                                #[trigger] cs@[q],
                            );
                    assert(is_ascii_digit(cs@[k as int]));
                }
            }
            return false;
        }
        k = k + 1;
    }
    let ok = dots == 2 && 0 < first && first + 1 < second && second + 1 < n;
    proof {
        if ok {
            assert(semver(version@)) by {
                assert(forall|q: int|
                    0 <= q < cs@.len() && q != first && q != second ==> is_ascii_digit(
                        #[trigger] cs@[q],
                    ));
            }
        } else if semver(version@) {
            let (i, j) = choose|i: int, j: int|
                0 < i && i + 1 < j && j + 1 < cs@.len() && cs@[i] == '.' && cs@[j] == '.'
                    && forall|q: int|
                    0 <= q < cs@.len() && q != i && q != j ==> is_ascii_digit(#[trigger] cs@[q]);
            // every dot is at i or j, and both i and j are dots
            if dots < 2 {
                if dots == 0 {
                    assert(is_ascii_digit(cs@[i]));
                } else if first as int == i {
                    assert(is_ascii_digit(cs@[j]));
                } else {
                    assert(is_ascii_digit(cs@[i]));
                }
            } else {
                if first as int != i {
                    if first as int == j {
                        assert(is_ascii_digit(cs@[i]) || i == second);
                    } else {
                        assert(is_ascii_digit(cs@[first as int]));
                    }
                }
                if second as int != j {
                    if second as int == i {
                    } else {
                        assert(is_ascii_digit(cs@[second as int]));
                    }
                }
            }
        }
    }
    ok
}

/// `a`'s average rating is above `b`'s, averages taken as exact quotients of
/// total by count, and 0 for a listing without ratings.
pub open spec fn avg_gt(ta: u64, ca: u32, tb: u64, cb: u32) -> bool {
    if ca == 0 {
        false
    } else if cb == 0 {
        ta > 0
    } else {
        ta * cb > tb * ca
    }
}

pub open spec fn rated_above(a: ListingView, b: ListingView) -> bool {
    avg_gt(a.rating_total, a.rating_count, b.rating_total, b.rating_count)
}

pub proof fn lemma_avg_gt_asymmetric(ta: u64, ca: u32, tb: u64, cb: u32)
    ensures
        avg_gt(ta, ca, tb, cb) ==> !avg_gt(tb, cb, ta, ca),
{
}

/// If `n` is above `a` and `b` is not above `a`, then `n` is above `b`.
pub proof fn lemma_avg_gt_chain(tn: u64, cn: u32, ta: u64, ca: u32, tb: u64, cb: u32)
    requires
        avg_gt(tn, cn, ta, ca),
        !avg_gt(tb, cb, ta, ca),
    ensures
        avg_gt(tn, cn, tb, cb),
{
    if ca == 0 {
        if cb > 0 {
            assert(tb == 0);
            assert(tn * cb > tb * cn) by (nonlinear_arith)
                requires
                    tn > 0,
                    cb > 0,
                    tb == 0,
            ;
        }
    } else {
        assert(tn * ca > ta * cn);
        assert(tn > 0) by (nonlinear_arith)
            requires
                tn * ca > ta * cn,
                ta >= 0,
                cn >= 0,
        ;
        if cb > 0 {
            assert(tn * cb > tb * cn) by (nonlinear_arith)
                requires
                    tn * ca > ta * cn,
                    tb * ca <= ta * cb,
                    ca > 0,
                    cb > 0,
                    cn > 0,
            {
                assert(tn * ca * cb > ta * cn * cb);
                assert(tb * ca * cn <= ta * cb * cn);
                assert(tn * cb * ca > tb * cn * ca);
            }
        }
    }
}

/// `order` lists positions of `ls` best rated first, ties in position order.
pub open spec fn ranked(ls: Seq<ListingView>, order: Seq<int>) -> bool {
    forall|i: int, j: int|
        0 <= i < j < order.len() ==> !rated_above(ls[#[trigger] order[j]], ls[#[trigger] order[i]])
            && (!rated_above(ls[order[i]], ls[order[j]]) ==> order[i] < order[j])
}

/// A listing is found by a query when its lowercased name contains the
/// lowercased query; every listing is found without a query.
pub open spec fn search_matches(l: ListingView, q: Option<Seq<char>>) -> bool {
    match q {
        None => true,
        Some(text) => exists|k: int| #[trigger] occurs_at(lowercase(l.name), lowercase(text), k),
    }
}

proof fn lemma_search_matches(l: ListingView, q: Seq<char>)
    ensures
        search_matches(l, Some(q)) == exists|k: int| occurs_at(lowercase(l.name), lowercase(q), k),
{
    let o: Option<Seq<char>> = Some(q);
    assert(o matches Some(text) && text == q);
}

/// `order` holds exactly the positions of the listings a search finds, best
/// rated first.
pub open spec fn search_order(ls: Seq<ListingView>, q: Option<Seq<char>>, order: Seq<int>) -> bool {
    &&& forall|k: int|
        0 <= k < order.len() ==> 0 <= #[trigger] order[k] < ls.len() && search_matches(
            ls[order[k]],
            q,
        )
    &&& forall|i: int| 0 <= i < ls.len() && search_matches(ls[i], q) ==> order.contains(i)
    &&& ranked(ls, order)
}

/// The first position of the page, and one past its last.
pub open spec fn page_bounds(n: int, page: int, page_size: int) -> (int, int) {
    let start = page * page_size;
    if start >= n {
        (n, n)
    } else if start + page_size <= n {
        (start, start + page_size)
    } else {
        (start, n)
    }
}

pub open spec fn has_version(vs: Seq<VersionView>, v: Seq<char>) -> bool {
    exists|i: int| 0 <= i < vs.len() && vs[i].version == v
}

/// `p` is the first position of a version named `v`.
pub open spec fn first_version(vs: Seq<VersionView>, v: Seq<char>, p: int) -> bool {
    0 <= p < vs.len() && vs[p].version == v && forall|q: int| 0 <= q < p ==> vs[q].version != v
}

pub open spec fn named(ls: Seq<ListingView>, name: Seq<char>) -> bool {
    exists|q: int| 0 <= q < ls.len() && ls[q].name == name
}

/// `p` is the first listing, in id order, with this name.
pub open spec fn first_named(ls: Seq<ListingView>, name: Seq<char>, p: int) -> bool {
    0 <= p < ls.len() && ls[p].name == name && forall|q: int| 0 <= q < p ==> ls[q].name != name
}

pub open spec fn listing_id_text(n: nat) -> Seq<char> {
    "listing-"@ + decimal(n)
}

/// The listing that a first publication creates.
pub open spec fn fresh_listing(
    id: Seq<char>,
    t: AgentTemplateView,
    description: Seq<char>,
    version: Seq<char>,
    author_id: Seq<char>,
    now: u64,
) -> ListingView {
    ListingView {
        id,
        name: t.name,
        description,
        author_id,
        versions: seq![VersionView { version, template: t, published_at: now }],
        default_version: version,
        rating_total: 0,
        rating_count: 0,
        raters: Seq::empty(),
        rating_values: Seq::empty(),
        created_at: now,
        updated_at: now,
        visibility: ListingVisibility::Public,
        team_id: None,
    }
}

/// A listing with one more version, which becomes the default.
pub open spec fn with_version(l: ListingView, t: AgentTemplateView, version: Seq<char>, now: u64) -> ListingView {
    ListingView {
        versions: l.versions.push(VersionView { version, template: t, published_at: now }),
        default_version: version,
        updated_at: now,
        ..l
    }
}

/// The sum of a sequence of ratings.
pub open spec fn rating_sum(s: Seq<u8>) -> nat
    decreases s.len(),
{
    if s.len() == 0 {
        0
    } else {
        rating_sum(s.drop_last()) + s.last() as nat
    }
}

proof fn lemma_rating_sum_bound(s: Seq<u8>)
    ensures
        rating_sum(s) <= 255 * s.len(),
    decreases s.len(),
{
    if s.len() > 0 {
        lemma_rating_sum_bound(s.drop_last());
    }
}

/// The rating a user gave, looked up as `StrMap` looks keys up.
pub open spec fn rating_of(l: ListingView, user: Seq<char>) -> Option<u8> {
    if exists|i: int| 0 <= i < l.raters.len() && l.raters[i] == user {
        Some(
            l.rating_values[choose|i: int| 0 <= i < l.raters.len() && l.raters[i] == user],
        )
    } else {
        None
    }
}

/// The warnings for the template's tools that the workspace lacks, in the
/// template's order.
pub open spec fn missing_tool_warnings(tools: Seq<Seq<char>>, available: Seq<Seq<char>>) -> Seq<
    Seq<char>,
>
    decreases tools.len(),
{
    if tools.len() == 0 {
        Seq::empty()
    } else {
        let rest = missing_tool_warnings(tools.drop_last(), available);
        if available.contains(tools.last()) {
            rest
        } else {
            rest.push("missing tool: "@ + tools.last())
        }
    }
}

pub open spec fn version_views(vs: Seq<MarketplaceVersion>) -> Seq<VersionView> {
    vs.map_values(|v: MarketplaceVersion| v@)
}

/// Where the first version named `v` stands, if any.
fn find_version(vs: &Vec<MarketplaceVersion>, v: &str) -> (r: Option<usize>)
    ensures
        r matches Some(p) ==> first_version(version_views(vs@), v@, p as int),
        r is None ==> !has_version(version_views(vs@), v@),
{
    let n = vs.len();
    let mut j: usize = 0;
    while j < n
        invariant
            n == vs@.len(),
            j <= n,
            forall|q: int| 0 <= q < j ==> vs@[q].version@ != v@,
        decreases n - j,
    {
        if str_eq(vs[j].version.as_str(), v) {
            return Some(j);
        }
        j = j + 1;
    }
    None
}

pub open spec fn opt_str_view(o: Option<&str>) -> Option<Seq<char>> {
    match o {
        Some(s) => Some(s@),
        None => None,
    }
}

/// The raters are in strictly increasing key order, one rating each.
pub open spec fn raters_sorted(l: ListingView) -> bool {
    &&& l.raters.len() == l.rating_values.len()
    &&& forall|i: int, j: int|
        0 <= i < j < l.raters.len() ==> key_lt(#[trigger] l.raters[i], #[trigger] l.raters[j])
}

/// `nl` is `l` after `user` rated it `rating`: that user's rating replaced
/// or added, every other user's kept, and the count and total recomputed.
pub open spec fn rated(l: ListingView, nl: ListingView, user: Seq<char>, rating: u8) -> bool {
    &&& nl == ListingView {
        raters: nl.raters,
        rating_values: nl.rating_values,
        rating_count: nl.rating_values.len() as u32,
        rating_total: rating_sum(nl.rating_values) as u64,
        ..l
    }
    &&& raters_sorted(nl)
    &&& forall|q: Seq<char>| #[trigger]
        rating_of(nl, q) == if q == user {
            Some(rating)
        } else {
            rating_of(l, q)
        }
}

/// The listing made visible to one team only.
pub open spec fn for_team(l: ListingView, team_id: Seq<char>) -> ListingView {
    ListingView { visibility: ListingVisibility::Team, team_id: Some(team_id), ..l }
}

/// The version an install asks for: the one named, else the default.
pub open spec fn install_target(l: ListingView, version: Option<Seq<char>>) -> Seq<char> {
    match version {
        Some(v) => v,
        None => l.default_version,
    }
}

proof fn lemma_first_named_exists(ls: Seq<ListingView>, name: Seq<char>, p: int)
    requires
        0 <= p < ls.len(),
        ls[p].name == name,
    ensures
        exists|q: int| first_named(ls, name, q),
    decreases p,
{
    if forall|q: int| 0 <= q < p ==> ls[q].name != name {
        assert(first_named(ls, name, p));
    } else {
        let q = choose|q: int| 0 <= q < p && ls[q].name == name;
        lemma_first_named_exists(ls, name, q);
    }
}

/// True when `a`'s average rating is above `b`'s.
fn above(a: &MarketplaceListing, b: &MarketplaceListing) -> (r: bool)
    ensures
        r == rated_above(a@, b@),
{
    if a.rating_count == 0 {
        false
    } else if b.rating_count == 0 {
        a.rating_total > 0
    } else {
        proof {
            assert(a.rating_total * b.rating_count <= 0xffff_ffff_ffff_ffffu64 * 0xffff_ffffu32)
                by (nonlinear_arith)
                requires
                    a.rating_total <= 0xffff_ffff_ffff_ffffu64,
                    b.rating_count <= 0xffff_ffffu32,
            ;
            assert(b.rating_total * a.rating_count <= 0xffff_ffff_ffff_ffffu64 * 0xffff_ffffu32)
                by (nonlinear_arith)
                requires
                    b.rating_total <= 0xffff_ffff_ffff_ffffu64,
                    a.rating_count <= 0xffff_ffffu32,
            ;
        }
        let x: u128 = (a.rating_total as u128) * (b.rating_count as u128);
        let y: u128 = (b.rating_total as u128) * (a.rating_count as u128);
        x > y
    }
}

pub open spec fn positions(v: Seq<usize>) -> Seq<int> {
    v.map_values(|x: usize| x as int)
}

/// The marketplace: listings by id, and the counter that names new ones.
#[derive(Debug)]
pub struct Marketplace {
    listings: StrMap<MarketplaceListing>,
    listing_counter: u64,
}

impl Default for Marketplace {
    fn default() -> (m: Self)
        ensures
            m.wf(),
            m.ids().len() == 0,
            m.counter() == 0,
    {
        Marketplace { listings: StrMap::new(), listing_counter: 0 }
    }
}

impl Marketplace {
    /// The listing ids, in increasing order.
    pub closed spec fn ids(&self) -> Seq<Seq<char>> {
        self.listings.key_seq()
    }

    /// The listings, in id order.
    pub closed spec fn entries(&self) -> Seq<ListingView> {
        self.listings.val_seq().map_values(|l: MarketplaceListing| l@)
    }

    /// The listing with this id.
    pub closed spec fn listing(&self, id: Seq<char>) -> Option<ListingView> {
        match self.listings.lookup(id) {
            Some(l) => Some(l@),
            None => None,
        }
    }

    pub closed spec fn counter(&self) -> u64 {
        self.listing_counter
    }

    /// Each listing is stored under its own id, and its ratings are a
    /// well-formed map.
    pub closed spec fn wf(&self) -> bool {
        &&& self.listings.wf()
        &&& forall|i: int|
            0 <= i < self.listings.key_seq().len() ==> (#[trigger] self.listings.val_seq()[i]).id@
                == self.listings.key_seq()[i] && self.listings.val_seq()[i].ratings.wf()
    }

    pub proof fn lemma_entries(&self, i: int)
        requires
            self.wf(),
            0 <= i < self.ids().len(),
        ensures
            self.entries().len() == self.ids().len(),
            self.listing(self.ids()[i]) == Some(self.entries()[i]),
            self.entries()[i].id == self.ids()[i],
    {
        self.listings.lemma_pos(i);
    }

    pub fn new() -> (m: Self)
        ensures
            m.wf(),
            m.ids().len() == 0,
            m.counter() == 0,
    {
        Marketplace::default()
    }

    /// What a publication at time `now` does: refuses a malformed version;
    /// under a name already listed, refuses a version already published and
    /// otherwise appends it and makes it the default; under a new name,
    /// creates listing `listing-N` for the next `N`.
    pub open spec fn published(
        pre: Marketplace,
        post: Marketplace,
        t: AgentTemplateView,
        description: Seq<char>,
        version: Seq<char>,
        author_id: Seq<char>,
        now: u64,
        r: Result<String, MarketplaceError>,
    ) -> bool {
        if !semver(version) {
            r == Err::<String, MarketplaceError>(MarketplaceError::InvalidSemver) && post == pre
        } else if named(pre.entries(), t.name) {
            forall|p: int|
                first_named(pre.entries(), t.name, p) ==> if has_version(
                    pre.entries()[p].versions,
                    version,
                ) {
                    r == Err::<String, MarketplaceError>(MarketplaceError::ConflictVersion) && post
                        == pre
                } else {
                    &&& r matches Ok(id) && id@ == pre.ids()[p]
                    &&& post.counter() == pre.counter()
                    &&& forall|k: Seq<char>| #[trigger]
                        post.listing(k) == if k == pre.ids()[p] {
                            Some(with_version(pre.entries()[p], t, version, now))
                        } else {
                            pre.listing(k)
                        }
                }
        } else {
            &&& r matches Ok(id) && id@ == listing_id_text((pre.counter() + 1) as nat)
            &&& post.counter() == pre.counter() + 1
            &&& forall|k: Seq<char>| #[trigger]
                post.listing(k) == if k == listing_id_text((pre.counter() + 1) as nat) {
                    Some(fresh_listing(k, t, description, version, author_id, now))
                } else {
                    pre.listing(k)
                }
        }
    }

    /// Where the first listing named `name` stands, if any.
    fn find_named(&self, name: &str) -> (r: Option<usize>)
        requires
            self.wf(),
        ensures
            r matches Some(p) ==> first_named(self.entries(), name@, p as int),
            r is None ==> !named(self.entries(), name@),
    {
        let n = self.listings.len();
        let mut i: usize = 0;
        while i < n
            invariant
                self.wf(),
                n == self.ids().len(),
                self.entries().len() == n,
                i <= n,
                forall|q: int| 0 <= q < i ==> self.entries()[q].name != name@,
            decreases n - i,
        {
            if str_eq(self.listings.value_at(i).name.as_str(), name) {
                return Some(i);
            }
            i = i + 1;
        }
        None
    }

    /// Publishes a template at time `now`; see `published`.
    pub fn publish_at(
        &mut self,
        template: AgentTemplate,
        description: &str,
        version: &str,
        author_id: &str,
        now: u64,
    ) -> (r: Result<String, MarketplaceError>)
        requires
            old(self).wf(),
            old(self).counter() < u64::MAX,
        ensures
            final(self).wf(),
            Marketplace::published(
                *old(self),
                *final(self),
                template@,
                description@,
                version@,
                author_id@,
                now,
                r,
            ),
    {
        if !is_valid_semver(version) {
            return Err(MarketplaceError::InvalidSemver);
        }
        match self.find_named(template.name.as_str()) {
            Some(p) => {
                proof {
                    self.lemma_entries(p as int);
                }
                let listing = self.listings.value_at(p);
                if find_version(&listing.versions, version).is_some() {
                    return Err(MarketplaceError::ConflictVersion);
                }
                let id = listing.id.clone();
                let ghost pre = self.listings;
                let l = self.listings.value_mut_at(p);
                l.versions.push(MarketplaceVersion { version: owned(version), template, published_at: now });
                l.default_version = owned(version);
                l.updated_at = now;
                proof {
                    let post = self.listings;
                    pre.lemma_pos(p as int);
                    post.lemma_lookup_after_set(pre, p as int, post.val_seq()[p as int]);
                    assert(post.val_seq()[p as int]@.versions =~= pre.val_seq()[p as int]@.versions.push(
                        VersionView { version: version@, template: template@, published_at: now },
                    ));
                    assert(post.val_seq()[p as int]@ == with_version(pre.val_seq()[p as int]@, template@, version@, now));
                    assert forall|i: int| 0 <= i < post.key_seq().len() implies (#[trigger] post.val_seq()[i]).id@
                        == post.key_seq()[i] && post.val_seq()[i].ratings.wf() by {
                        if i != p as int {
                            assert(post.val_seq()[i] == pre.val_seq()[i]);
                        }
                    }
                    assert forall|q: int| first_named(old(self).entries(), template@.name, q) implies q == p as int by {
                        if q < p as int {
                        } else if q > p as int {
                            assert(old(self).entries()[p as int].name == template@.name);
                        }
                    }
                }
                Ok(id)
            },
            None => {
                self.listing_counter = self.listing_counter + 1;
                let mut id = owned("listing-");
                let digits = decimal_string(self.listing_counter);
                id.append(digits.as_str());
                proof {
                    reveal_strlit("listing-");
                }
                let listing = MarketplaceListing {
                    id: id.clone(),
                    name: template.name.clone(),
                    description: owned(description),
                    author_id: owned(author_id),
                    versions: vec![MarketplaceVersion { version: owned(version), template, published_at: now }],
                    default_version: owned(version),
                    rating_total: 0,
                    rating_count: 0,
                    ratings: StrMap::new(),
                    created_at: now,
                    updated_at: now,
                    visibility: ListingVisibility::Public,
                    team_id: None,
                };
                let ghost pre = self.listings;
                let ghost lv = listing@;
                proof {
                    assert(lv.raters =~= Seq::<Seq<char>>::empty());
                    assert(lv.rating_values =~= Seq::<u8>::empty());
                    assert(lv.versions =~= seq![VersionView { version: version@, template: template@, published_at: now }]);
                    assert(lv == fresh_listing(id@, template@, description@, version@, author_id@, now));
                }
                self.listings.insert(id.clone(), listing);
                proof {
                    let post = self.listings;
                    assert forall|i: int| 0 <= i < post.key_seq().len() implies (#[trigger] post.val_seq()[i]).id@
                        == post.key_seq()[i] && post.val_seq()[i].ratings.wf() by {
                        if pre.has(id@) {
                            let pp = pre.pos(id@);
                            pre.lemma_pos(pp);
                            if i != pp {
                                assert(post.val_seq()[i] == pre.val_seq()[i]);
                            }
                        } else {
                            let pp = choose|pp: int|
                                0 <= pp <= pre.key_seq().len() && post.key_seq() == pre.key_seq().insert(pp, id@)
                                    && post.val_seq() == pre.val_seq().insert(pp, listing);
                            if i < pp {
                                assert(post.val_seq()[i] == pre.val_seq()[i]);
                            } else if i > pp {
                                assert(post.val_seq()[i] == pre.val_seq()[i - 1]);
                            }
                        }
                    }
                }
                Ok(id)
            },
        }
    }

    /// Publishes a template now; see `published`.
    pub fn publish(
        &mut self,
        template: AgentTemplate,
        description: &str,
        version: &str,
        author_id: &str,
    ) -> (r: Result<String, MarketplaceError>)
        requires
            old(self).wf(),
            old(self).counter() < u64::MAX,
        ensures
            final(self).wf(),
            exists|now: u64|
                Marketplace::published(
                    *old(self),
                    *final(self),
                    template@,
                    description@,
                    version@,
                    author_id@,
                    now,
                    r,
                ),
    {
        let now = chrono_now_secs();
        self.publish_at(template, description, version, author_id, now)
    }

    /// Publishes a template for one team: as `publish`, then the listing is
    /// made visible to that team only.
    pub fn publish_to_team(
        &mut self,
        template: AgentTemplate,
        description: &str,
        version: &str,
        author_id: &str,
        team_id: &str,
    ) -> (r: Result<String, MarketplaceError>)
        requires
            old(self).wf(),
            old(self).counter() < u64::MAX,
        ensures
            final(self).wf(),
            exists|now: u64, mid: Marketplace|
                {
                    &&& Marketplace::published(
                        *old(self),
                        mid,
                        template@,
                        description@,
                        version@,
                        author_id@,
                        now,
                        r,
                    )
                    &&& r is Err ==> *final(self) == mid
                    &&& r matches Ok(id) ==> final(self).counter() == mid.counter()
                        && mid.listing(id@) is Some && forall|k: Seq<char>| #[trigger]
                        final(self).listing(k) == if k == id@ {
                            Some(for_team(mid.listing(id@)->0, team_id@))
                        } else {
                            mid.listing(k)
                        }
                },
    {
        let now = chrono_now_secs();
        let r = self.publish_at(template, description, version, author_id, now);
        let ghost mid = *self;
        match r {
            Err(e) => Err(e),
            Ok(id) => {
                proof {
                    if named(old(self).entries(), template@.name) {
                        let p = choose|p: int|
                            0 <= p < old(self).entries().len() && old(self).entries()[p].name
                                == template@.name;
                        lemma_first_named_exists(old(self).entries(), template@.name, p);
                    }
                }
                let pos = self.listings.find(id.as_str());
                proof {
                    assert(mid.listings.has(id@)) by {
                        assert(mid.listing(id@) is Some);
                    }
                }
                let p = pos.unwrap();
                proof {
                    mid.listings.lemma_pos(p as int);
                }
                let l = self.listings.value_mut_at(p);
                l.visibility = ListingVisibility::Team;
                l.team_id = Some(owned(team_id));
                proof {
                    let post = self.listings;
                    let pre = mid.listings;
                    post.lemma_lookup_after_set(pre, p as int, post.val_seq()[p as int]);
                    assert(post.val_seq()[p as int]@ == for_team(pre.val_seq()[p as int]@, team_id@));
                    assert forall|i: int| 0 <= i < post.key_seq().len() implies (#[trigger] post.val_seq()[i]).id@
                        == post.key_seq()[i] && post.val_seq()[i].ratings.wf() by {
                        if i != p as int {
                            assert(post.val_seq()[i] == pre.val_seq()[i]);
                        }
                    }
                }
                Ok(id)
            },
        }
    }

    /// Rates a listing for one user, replacing that user's earlier rating,
    /// and recomputes the listing's count and total. Ratings run from 1 to 5.
    pub fn rate(&mut self, listing_id: &str, user_id: &str, rating: u8) -> (r: Result<(), MarketplaceError>)
        requires
            old(self).wf(),
            old(self).listing(listing_id@) matches Some(l) ==> l.raters.len() < u32::MAX,
        ensures
            final(self).wf(),
            final(self).counter() == old(self).counter(),
            !(1 <= rating <= 5) ==> r == Err::<(), MarketplaceError>(MarketplaceError::InvalidRating)
                && *final(self) == *old(self),
            1 <= rating <= 5 && old(self).listing(listing_id@) is None ==> r == Err::<
                (),
                MarketplaceError,
            >(MarketplaceError::ListingNotFound) && *final(self) == *old(self),
            1 <= rating <= 5 && old(self).listing(listing_id@) is Some ==> {
                &&& r is Ok
                &&& final(self).listing(listing_id@) matches Some(nl) && rated(
                    old(self).listing(listing_id@)->0,
                    nl,
                    user_id@,
                    rating,
                )
                &&& forall|k: Seq<char>|
                    k != listing_id@ ==> #[trigger] final(self).listing(k) == old(self).listing(k)
            },
    {
        if rating < 1 || rating > 5 {
            return Err(MarketplaceError::InvalidRating);
        }
        let p = match self.listings.find(listing_id) {
            None => {
                return Err(MarketplaceError::ListingNotFound);
            },
            Some(p) => p,
        };
        proof {
            self.listings.lemma_pos(p as int);
        }
        let ghost pre = self.listings;
        let l = self.listings.value_mut_at(p);
        let ghost before = l.ratings;
        l.ratings.insert(owned(user_id), rating);
        let n = l.ratings.len();
        proof {
            if before.has(user_id@) {
            } else {
            }
        }
        let mut total: u64 = 0;
        let mut i: usize = 0;
        while i < n
            invariant
                l.ratings.wf(),
                n == l.ratings.key_seq().len(),
                i <= n,
                n <= before.key_seq().len() + 1,
                before.key_seq().len() < u32::MAX,
                total == rating_sum(l.ratings.val_seq().take(i as int)),
                total <= 255 * i,
            decreases n - i,
        {
            let v = *l.ratings.value_at(i);
            proof {
                assert(l.ratings.val_seq().take(i + 1).drop_last() =~= l.ratings.val_seq().take(i as int));
            }
            total = total + v as u64;
            i = i + 1;
        }
        proof {
            assert(l.ratings.val_seq().take(n as int) =~= l.ratings.val_seq());
        }
        l.rating_count = n as u32;
        l.rating_total = total;
        proof {
            let post = self.listings;
            post.lemma_lookup_after_set(pre, p as int, post.val_seq()[p as int]);
            let nl = post.val_seq()[p as int]@;
            assert forall|q: Seq<char>| #[trigger]
                rating_of(nl, q) == if q == user_id@ {
                    Some(rating)
                } else {
                    rating_of(pre.val_seq()[p as int]@, q)
                } by {
                assert(rating_of(nl, q) == post.val_seq()[p as int].ratings.lookup(q));
                assert(rating_of(pre.val_seq()[p as int]@, q) == before.lookup(q));
            }
            assert forall|a: int| 0 <= a < post.key_seq().len() implies (#[trigger] post.val_seq()[a]).id@
                == post.key_seq()[a] && post.val_seq()[a].ratings.wf() by {
                if a != p as int {
                    assert(post.val_seq()[a] == pre.val_seq()[a]);
                }
            }
        }
        Ok(())
    }

    /// Installs a listing's template: the version named, or the default.
    pub fn install(&self, listing_id: &str, version: Option<&str>) -> (r: Result<
        InstallResult,
        MarketplaceError,
    >)
        requires
            self.wf(),
        ensures
            self.listing(listing_id@) is None ==> r == Err::<InstallResult, MarketplaceError>(
                MarketplaceError::ListingNotFound,
            ),
            self.listing(listing_id@) matches Some(l) ==> {
                let target = install_target(l, opt_str_view(version));
                &&& !has_version(l.versions, target) ==> r == Err::<InstallResult, MarketplaceError>(
                    MarketplaceError::VersionNotFound,
                )
                &&& forall|p: int|
                    first_version(l.versions, target, p) ==> (r matches Ok(res)
                        && res.template@ == l.versions[p].template && res.warnings@.len() == 0)
            },
    {
        let p = match self.listings.find(listing_id) {
            None => {
                return Err(MarketplaceError::ListingNotFound);
            },
            Some(p) => p,
        };
        proof {
            self.listings.lemma_pos(p as int);
        }
        let l = self.listings.value_at(p);
        let target: &str = match version {
            Some(v) => v,
            None => l.default_version.as_str(),
        };
        match find_version(&l.versions, target) {
            None => Err(MarketplaceError::VersionNotFound),
            Some(j) => {
                proof {
                    assert forall|q: int| first_version(l@.versions, target@, q) implies q == j as int by {
                        if q < j as int {
                        } else if q > j as int {
                            assert(l@.versions[j as int].version == target@);
                        }
                    }
                }
                Ok(InstallResult { template: l.versions[j].template.duplicate(), warnings: Vec::new() })
            },
        }
    }

    /// Installs a listing's template and warns, in the template's order,
    /// about each of its tools missing from `available_tools`.
    pub fn install_with_tools_check(
        &self,
        listing_id: &str,
        version: Option<&str>,
        available_tools: &[String],
    ) -> (r: Result<InstallResult, MarketplaceError>)
        requires
            self.wf(),
        ensures
            self.listing(listing_id@) is None ==> r == Err::<InstallResult, MarketplaceError>(
                MarketplaceError::ListingNotFound,
            ),
            self.listing(listing_id@) matches Some(l) ==> {
                let target = install_target(l, opt_str_view(version));
                &&& !has_version(l.versions, target) ==> r == Err::<InstallResult, MarketplaceError>(
                    MarketplaceError::VersionNotFound,
                )
                &&& forall|p: int|
                    first_version(l.versions, target, p) ==> (r matches Ok(res)
                        && res.template@ == l.versions[p].template && views(res.warnings@)
                        == missing_tool_warnings(
                        l.versions[p].template.allowed_tools,
                        views(available_tools@),
                    ))
            },
    {
        let mut result = match self.install(listing_id, version) {
            Ok(res) => res,
            Err(e) => {
                return Err(e);
            },
        };
        let tools = &result.template.allowed_tools;
        let mut warnings: Vec<String> = Vec::new();
        let mut i: usize = 0;
        while i < tools.len()
            invariant
                i <= tools@.len(),
                views(warnings@) == missing_tool_warnings(
                    views(tools@).take(i as int),
                    views(available_tools@),
                ),
            decreases tools@.len() - i,
        {
            proof {
                assert(views(tools@).take(i + 1).drop_last() =~= views(tools@).take(i as int));
            }
            if !list_contains(available_tools, &tools[i]) {
                let mut w = owned("missing tool: ");
                w.append(tools[i].as_str());
                proof {
                    reveal_strlit("missing tool: ");
                    assert(views(warnings@.push(w)) =~= views(warnings@).push(w@));
                }
                warnings.push(w);
            }
            i = i + 1;
        }
        proof {
            assert(views(tools@).take(tools@.len() as int) =~= views(tools@));
        }
        result.warnings = warnings;
        Ok(result)
    }

    /// Whether the listing at `i` is found by the query.
    fn found_by(&self, i: usize, query: Option<&str>) -> (b: bool)
        requires
            self.wf(),
            i < self.ids().len(),
        ensures
            b == search_matches(self.entries()[i as int], opt_str_view(query)),
    {
        proof {
            self.lemma_entries(i as int);
        }
        match query {
            None => true,
            Some(q) => {
                let qc = chars_of(to_lowercase(q).as_str());
                let name = to_lowercase(self.listings.value_at(i).name.as_str());
                let nc = chars_of(name.as_str());
                let found = find_pattern(&nc, &qc, 0);
                proof {
                    lemma_find_from(nc@, qc@, 0);
                    assert(self.entries()[i as int].name == self.listings.val_seq()[i as int].name@);
                    let e = self.entries()[i as int];
                    lemma_search_matches(e, q@);
                    if let Some(p) = found {
                        assert(occurs_at(lowercase(e.name), lowercase(q@), p as int));
                    }
                }
                found.is_some()
            },
        }
    }

    /// Searches the listings: those whose lowercased name contains the
    /// lowercased query (all of them without one), best average rating
    /// first and, among equal averages, in id order; then the page `page`
    /// of `page_size` results.
    pub fn search(&self, query: Option<&str>, page: usize, page_size: usize) -> (r: Vec<
        &MarketplaceListing,
    >)
        requires
            self.wf(),
            page * page_size <= usize::MAX,
        ensures
            exists|order: Seq<int>|
                {
                    &&& search_order(self.entries(), opt_str_view(query), order)
                    &&& r@.len() == page_bounds(order.len() as int, page as int, page_size as int).1
                        - page_bounds(order.len() as int, page as int, page_size as int).0
                    &&& forall|k: int|
                        0 <= k < r@.len() ==> (#[trigger] r@[k])@ == self.entries()[order[page_bounds(
                            order.len() as int,
                            page as int,
                            page_size as int,
                        ).0 + k]]
                },
    {
        let n = self.listings.len();
        proof {
            if n > 0 {
                self.lemma_entries(0);
            }
        }
        let ghost ls = self.entries();
        let ghost qv = opt_str_view(query);
        let mut out: Vec<usize> = Vec::new();
        let mut i: usize = 0;
        while i < n
            invariant
                self.wf(),
                n == self.ids().len(),
                ls == self.entries(),
                ls.len() == n,
                qv == opt_str_view(query),
                i <= n,
                forall|k: int|
                    0 <= k < out@.len() ==> #[trigger] out@[k] < i && search_matches(ls[out@[k] as int], qv),
                forall|m: int| 0 <= m < i && search_matches(ls[m], qv) ==> positions(out@).contains(m),
                ranked(ls, positions(out@)),
            decreases n - i,
        {
            if self.found_by(i, query) {
                let li = self.listings.value_at(i);
                let mut k: usize = 0;
                while k < out.len() && !above(li, self.listings.value_at(out[k]))
                    invariant
                        self.wf(),
                        n == self.ids().len(),
                        ls == self.entries(),
                        ls.len() == n,
                        i < n,
                        li@ == ls[i as int],
                        k <= out@.len(),
                        forall|j: int| 0 <= j < out@.len() ==> #[trigger] out@[j] < i,
                        forall|j: int| 0 <= j < k ==> !rated_above(ls[i as int], ls[#[trigger] out@[j] as int]),
                    decreases out@.len() - k,
                {
                    proof {
                        self.lemma_entries(out@[k as int] as int);
                    }
                    k = k + 1;
                }
                proof {
                    self.lemma_entries(i as int);
                    if k < out@.len() {
                        self.lemma_entries(out@[k as int] as int);
                    }
                }
                let ghost o = positions(out@);
                out.insert(k, i);
                proof {
                    let o2 = positions(out@);
                    assert(o2 =~= o.insert(k as int, i as int));
                    assert forall|a: int, b: int| 0 <= a < b < o2.len() implies
                        !rated_above(ls[#[trigger] o2[b]], ls[#[trigger] o2[a]])
                            && (!rated_above(ls[o2[a]], ls[o2[b]]) ==> o2[a] < o2[b]) by {
                        if b < k {
                            assert(o2[a] == o[a] && o2[b] == o[b]);
                        } else if b == k {
                            assert(o2[a] == o[a]);
                            assert(out@[a] == o[a]);
                            lemma_avg_gt_asymmetric(ls[i as int].rating_total, ls[i as int].rating_count,
                                ls[o[a]].rating_total, ls[o[a]].rating_count);
                        } else if a > k {
                            assert(o2[a] == o[a - 1] && o2[b] == o[b - 1]);
                        } else {
                            // the new entry against one placed after it
                            assert(o2[b] == o[b - 1]);
                            let x = ls[i as int];
                            let y = ls[o[k as int]];
                            let z = ls[o[b - 1]];
                            if b - 1 > k {
                                assert(!rated_above(z, y));
                                lemma_avg_gt_chain(x.rating_total, x.rating_count, y.rating_total, y.rating_count,
                                    z.rating_total, z.rating_count);
                            }
                            lemma_avg_gt_asymmetric(x.rating_total, x.rating_count, z.rating_total, z.rating_count);
                            if a < k {
                                assert(o2[a] == o[a]);
                            }
                        }
                    }
                    assert forall|m: int| 0 <= m < i + 1 && search_matches(ls[m], qv) implies o2.contains(m) by {
                        if m == i {
                            assert(o2[k as int] == m);
                        } else {
                            assert(o.contains(m));
                            let j = choose|j: int| 0 <= j < o.len() && o[j] == m;
                            if j < k {
                                assert(o2[j] == m);
                            } else {
                                assert(o2[j + 1] == m);
                            }
                        }
                    }
                    assert forall|j: int| 0 <= j < out@.len() implies #[trigger] out@[j] < i + 1
                        && search_matches(ls[out@[j] as int], qv) by {
                        if j < k {
                            assert(out@[j] == o[j]);
                        } else if j > k {
                            assert(out@[j] == o[j - 1]);
                        }
                    }
                }
            }
            i = i + 1;
        }
        let len = out.len();
        let start = page * page_size;
        let mut r: Vec<&MarketplaceListing> = Vec::new();
        if start >= len {
            proof {
                assert(search_order(ls, qv, positions(out@)));
            }
            return r;
        }
        let end = if page_size <= len - start {
            start + page_size
        } else {
            len
        };
        let mut k: usize = start;
        while k < end
            invariant
                self.wf(),
                ls == self.entries(),
                len == out@.len(),
                start <= k <= end <= len,
                forall|j: int| 0 <= j < len ==> #[trigger] out@[j] < ls.len(),
                r@.len() == k - start,
                forall|j: int| 0 <= j < r@.len() ==> (#[trigger] r@[j])@ == ls[out@[start + j] as int],
            decreases end - k,
        {
            proof {
                self.lemma_entries(out@[k as int] as int);
            }
            r.push(self.listings.value_at(out[k]));
            k = k + 1;
        }
        proof {
            let o = positions(out@);
            assert(search_order(ls, qv, o));
            assert(page_bounds(o.len() as int, page as int, page_size as int) == (start as int, end as int));
            assert forall|j: int| 0 <= j < r@.len() implies (#[trigger] r@[j])@ == ls[o[page_bounds(
                o.len() as int,
                page as int,
                page_size as int,
            ).0 + j]] by {
                assert(o[start + j] == out@[start + j] as int);
            }
        }
        r
    }

    /// Publishing then installing: after a publication succeeds, the
    /// listing's default version is the one just published, it is the first
    /// (and only) version of that name, and it holds the template published.
    pub proof fn law_publish_then_install_default(
        pre: Marketplace,
        post: Marketplace,
        t: AgentTemplateView,
        description: Seq<char>,
        version: Seq<char>,
        author_id: Seq<char>,
        now: u64,
        id: String,
    )
        requires
            pre.wf(),
            Marketplace::published(pre, post, t, description, version, author_id, now, Ok(id)),
        ensures
            post.listing(id@) matches Some(l) && {
                &&& install_target(l, None) == version
                &&& first_version(l.versions, version, l.versions.len() - 1)
                &&& l.versions.last().template == t
            },
    {
        if named(pre.entries(), t.name) {
            let p = choose|p: int| 0 <= p < pre.entries().len() && pre.entries()[p].name == t.name;
            lemma_first_named_exists(pre.entries(), t.name, p);
            let q = choose|q: int| first_named(pre.entries(), t.name, q);
            let l = pre.entries()[q];
            assert(!has_version(l.versions, version));
            let nl = with_version(l, t, version, now);
            assert(post.listing(id@) == Some(nl));
            assert forall|j: int| 0 <= j < nl.versions.len() - 1 implies nl.versions[j].version != version by {
                assert(nl.versions[j] == l.versions[j]);
            }
        } else {
            assert(post.listing(id@) == Some(fresh_listing(id@, t, description, version, author_id, now)));
        }
    }

    /// The listings, by id.
    pub fn listings(&self) -> (l: &StrMap<MarketplaceListing>)
        ensures
            l.key_seq() == self.ids(),
            l.val_seq().map_values(|x: MarketplaceListing| x@) == self.entries(),
    {
        &self.listings
    }
}

} // verus!
