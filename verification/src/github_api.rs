//! Decision logic of a minimal client for a remote source-hosting API:
//! endpoint construction, response classification, pagination, branch/tag
//! ref resolution and the longest-tag heuristic. The transport itself is a
//! caller's concern: callers perform the requests these functions describe
//! and feed the outcomes back in.

use vstd::prelude::*;

use crate::state::Caches;
use crate::strutil::byte_len;
use crate::strutil::push_str;
use crate::strutil::str_byte_len;
use crate::strutil::str_eq;

verus! {

/// The fixed base of the remote API.
pub const API_BASE: &'static str = "https://api.github.com";

/// The client-identification header value sent with every request.
pub const USER_AGENT_VALUE: &'static str = "audit_core";

/// The pinned API version header value sent with every request.
pub const API_VERSION_VALUE: &'static str = "2022-11-28";

/// The accept header value sent with every request.
pub const ACCEPT_VALUE: &'static str = "application/vnd.github+json";

/// The fixed page size of paginated listing requests.
pub const PER_PAGE: u64 = 100;

/// The path of the advisories endpoint, relative to the API base.
pub const ADVISORIES_PATH: &'static str = "advisories";

/// A single branch of a listing response. Intentionally incomplete: only
/// what this core consumes is modeled.
#[derive(Clone)]
pub struct Branch {
    pub name: String,
}

/// The commit a tag points at.
#[derive(Clone)]
pub struct TagCommit {
    pub sha: String,
}

/// A single tag of a listing response. Intentionally incomplete.
#[derive(Clone)]
pub struct Tag {
    pub name: String,
    pub commit: TagCommit,
}

/// A security advisory affecting a package at some version.
#[derive(Clone)]
pub struct Advisory {
    pub ghsa_id: String,
    pub severity: String,
}

/// The relative position of two commits in history.
#[derive(Clone, Copy, PartialEq, Eq, Debug, Structural)]
pub enum ComparisonStatus {
    Ahead,
    Behind,
    Diverged,
    Identical,
}

/// A failed remote interaction. A defined "not found" outcome is never an
/// error: it is represented by the `Option` results of the callers.
#[derive(Clone, Copy, PartialEq, Eq, Debug, Structural)]
pub enum ApiError {
    /// The transport failed before any response arrived.
    Transport,
    /// A response arrived with a status no caller accepts.
    HttpStatus(u16),
    /// A response body did not match the expected shape.
    Decode,
}

#[verifier::ext_equal]
pub struct TagView {
    pub name: Seq<char>,
    pub sha: Seq<char>,
}

impl View for Branch {
    type V = Seq<char>;

    open spec fn view(&self) -> Seq<char> {
        self.name@
    }
}

impl View for Tag {
    type V = TagView;

    open spec fn view(&self) -> TagView {
        TagView { name: self.name@, sha: self.commit.sha@ }
    }
}

impl Tag {
    /// A copy with the same name and commit.
    pub fn duplicate(&self) -> (r: Tag)
        ensures
            r@ == self@,
    {
        Tag { name: self.name.clone(), commit: TagCommit { sha: self.commit.sha.clone() } }
    }
}

pub open spec fn tags_view(s: Seq<Tag>) -> Seq<TagView> {
    s.map_values(|t: Tag| t@)
}

/// Accumulates consecutive pages of a listing endpoint, starting at page 0,
/// and is done as soon as a page comes back empty. The caller requests the
/// page `next_request` names and feeds the result to `feed_page`.
pub struct Paginator<T> {
    pub items: Vec<T>,
    pub next_page: u64,
    pub done: bool,
}

impl<T> Paginator<T> {
    pub fn new() -> (p: Paginator<T>)
        ensures
            p.items@ =~= Seq::<T>::empty(),
            p.next_page == 0,
            !p.done,
    {
        Paginator { items: Vec::new(), next_page: 0, done: false }
    }

    /// The page to request next, or `None` once an empty page was seen.
    pub fn next_request(&self) -> (r: Option<u64>)
        ensures
            r == (if self.done {
                Option::<u64>::None
            } else {
                Some(self.next_page)
            }),
    {
        if self.done {
            None
        } else {
            Some(self.next_page)
        }
    }

    /// Accumulates one fetched page. An empty page ends the pagination; a
    /// non-empty one advances to the next page number.
    pub fn feed_page(&mut self, page: Vec<T>)
        requires
            !old(self).done,
            old(self).next_page < u64::MAX,
        ensures
            final(self).items@ == old(self).items@ + page@,
            final(self).done == (page@.len() == 0),
            final(self).next_page == if page@.len() == 0 {
                old(self).next_page as int
            } else {
                old(self).next_page + 1
            },
    {
        if page.len() == 0 {
            self.done = true;
            assert(self.items@ =~= self.items@ + page@);
        } else {
            let mut page = page;
            self.items.append(&mut page);
            self.next_page = self.next_page + 1;
        }
    }

    /// The accumulated items.
    pub fn into_items(self) -> (r: Vec<T>)
        ensures
            r@ == self.items@,
    {
        self.items
    }
}

/// Classifies one page response of a listing endpoint, mirroring a transport
/// that rejects client and server error statuses and then decodes the body:
/// an error status aborts the whole fetch, an undecodable body too.
pub fn classify_listing_response<T>(status: u16, body: Option<Vec<T>>) -> (r: Result<
    Vec<T>,
    ApiError,
>)
    ensures
        400 <= status <= 599 ==> r == Result::<Vec<T>, ApiError>::Err(ApiError::HttpStatus(status)),
        !(400 <= status <= 599) ==> match body {
            Some(v) => r matches Ok(rv) && rv == v,
            None => r == Result::<Vec<T>, ApiError>::Err(ApiError::Decode),
        },
{
    if 400 <= status && status <= 599 {
        Err(ApiError::HttpStatus(status))
    } else {
        match body {
            Some(v) => Ok(v),
            None => Err(ApiError::Decode),
        }
    }
}

/// Which kind of ref a single lookup asks about.
#[derive(Clone, Copy, PartialEq, Eq, Debug, Structural)]
pub enum RefLookupKind {
    Branch,
    Tag,
}

/// The outcome of one ref lookup, as classified from the response.
#[derive(Clone, PartialEq, Eq, Debug)]
pub enum LookupOutcome {
    /// The ref exists and points at this commit SHA.
    Found(String),
    /// The defined "not found" response: no such ref of this kind.
    Missing,
    /// Any other failure.
    Failed(ApiError),
}

/// What ref resolution does after one lookup: ask the next lookup, finish
/// with the resolved SHA (or the defined "no such ref"), or abort.
#[derive(Clone, PartialEq, Eq, Debug)]
pub enum RefResolution {
    Query(RefLookupKind),
    Resolved(Option<String>),
    Abort(ApiError),
}

/// Classifies a single ref-lookup response: 200 with a decoded SHA is a hit,
/// 404 is the defined "not found", anything else fails hard.
pub fn classify_ref_lookup(status: u16, sha: Option<String>) -> (r: LookupOutcome)
    ensures
        r == (if status == 200 {
            match sha {
                Some(s) => LookupOutcome::Found(s),
                None => LookupOutcome::Failed(ApiError::Decode),
            }
        } else if status == 404 {
            LookupOutcome::Missing
        } else {
            LookupOutcome::Failed(ApiError::HttpStatus(status))
        }),
{
    if status == 200 {
        match sha {
            Some(s) => LookupOutcome::Found(s),
            None => LookupOutcome::Failed(ApiError::Decode),
        }
    } else if status == 404 {
        LookupOutcome::Missing
    } else {
        LookupOutcome::Failed(ApiError::HttpStatus(status))
    }
}

/// The full transition table of ref resolution: branches are tried before
/// tags; a hit resolves at once, only the defined "not found" falls through
/// from the branch lookup to the tag lookup, a tag lookup that also comes
/// back "not found" resolves to "no such ref" (not an error), and any other
/// failure aborts.
pub open spec fn spec_resolve_step(phase: RefLookupKind, outcome: LookupOutcome) -> RefResolution {
    match (phase, outcome) {
        (_, LookupOutcome::Found(sha)) => RefResolution::Resolved(Some(sha)),
        (RefLookupKind::Branch, LookupOutcome::Missing) => RefResolution::Query(RefLookupKind::Tag),
        (RefLookupKind::Tag, LookupOutcome::Missing) => RefResolution::Resolved(
            Option::<String>::None,
        ),
        (_, LookupOutcome::Failed(e)) => RefResolution::Abort(e),
    }
}

/// A successful branch lookup resolves immediately to its SHA: no tag
/// lookup ever follows it.
pub proof fn lemma_branch_hit_asks_nothing_further(sha: String)
    ensures
        spec_resolve_step(RefLookupKind::Branch, LookupOutcome::Found(sha))
            == RefResolution::Resolved(Some(sha)),
{
}

/// A branch lookup that fails with anything but the defined "not found"
/// aborts the whole resolution: it never falls through to a tag lookup.
pub proof fn lemma_branch_failure_asks_nothing_further(e: ApiError)
    ensures
        spec_resolve_step(RefLookupKind::Branch, LookupOutcome::Failed(e)) == RefResolution::Abort(
            e,
        ),
{
}

/// One step of ref resolution, as `spec_resolve_step` dictates.
pub fn resolve_ref_step(phase: RefLookupKind, outcome: LookupOutcome) -> (r: RefResolution)
    ensures
        r == spec_resolve_step(phase, outcome),
{
    match outcome {
        LookupOutcome::Found(sha) => RefResolution::Resolved(Some(sha)),
        LookupOutcome::Missing => match phase {
            RefLookupKind::Branch => RefResolution::Query(RefLookupKind::Tag),
            RefLookupKind::Tag => RefResolution::Resolved(None),
        },
        LookupOutcome::Failed(e) => RefResolution::Abort(e),
    }
}

/// The comparison status a response body's token names, if any.
pub open spec fn spec_status_token(s: Seq<char>) -> Option<ComparisonStatus> {
    if s == "ahead"@ {
        Some(ComparisonStatus::Ahead)
    } else if s == "behind"@ {
        Some(ComparisonStatus::Behind)
    } else if s == "diverged"@ {
        Some(ComparisonStatus::Diverged)
    } else if s == "identical"@ {
        Some(ComparisonStatus::Identical)
    } else {
        None
    }
}

/// Parses the comparison-status token of a compare response body.
pub fn comparison_status_from_token(s: &str) -> (r: Option<ComparisonStatus>)
    ensures
        r == spec_status_token(s@),
{
    if str_eq(s, "ahead") {
        Some(ComparisonStatus::Ahead)
    } else if str_eq(s, "behind") {
        Some(ComparisonStatus::Behind)
    } else if str_eq(s, "diverged") {
        Some(ComparisonStatus::Diverged)
    } else if str_eq(s, "identical") {
        Some(ComparisonStatus::Identical)
    } else {
        None
    }
}

/// Classifies a compare-commits response: 200 with a decoded status
/// succeeds, 404 is the defined "not found" (`None`), anything else fails.
pub fn classify_compare_response(status: u16, body_status: Option<ComparisonStatus>) -> (r: Result<
    Option<ComparisonStatus>,
    ApiError,
>)
    ensures
        r == (if status == 200 {
            match body_status {
                Some(st) => Result::<Option<ComparisonStatus>, ApiError>::Ok(Some(st)),
                None => Result::<Option<ComparisonStatus>, ApiError>::Err(ApiError::Decode),
            }
        } else if status == 404 {
            Result::<Option<ComparisonStatus>, ApiError>::Ok(None)
        } else {
            Result::<Option<ComparisonStatus>, ApiError>::Err(ApiError::HttpStatus(status))
        }),
{
    if status == 200 {
        match body_status {
            Some(st) => Ok(Some(st)),
            None => Err(ApiError::Decode),
        }
    } else if status == 404 {
        Ok(None)
    } else {
        Err(ApiError::HttpStatus(status))
    }
}

/// The tag pointing at `commit` whose name's UTF-8 encoding is longest,
/// later listing entries winning ties. An explicitly unsound heuristic: it
/// prefers a fuller version string over a shorter alias of the same commit,
/// nothing more.
pub open spec fn spec_longest_tag(tags: Seq<TagView>, commit: Seq<char>) -> Option<TagView>
    decreases tags.len(),
{
    if tags.len() == 0 {
        None
    } else {
        let prev = spec_longest_tag(tags.drop_last(), commit);
        let t = tags.last();
        if t.sha == commit {
            match prev {
                None => Some(t),
                Some(b) => if byte_len(t.name) >= byte_len(b.name) {
                    Some(t)
                } else {
                    Some(b)
                },
            }
        } else {
            prev
        }
    }
}

/// What the longest-tag heuristic guarantees: a result points at the target
/// commit, is one of the listed tags, and no listed tag pointing at the
/// target has a longer name; and there is no result exactly when no listed
/// tag points at the target.
pub proof fn lemma_longest_tag_sound(tags: Seq<TagView>, commit: Seq<char>)
    ensures
        spec_longest_tag(tags, commit) matches Some(t) ==> {
            &&& t.sha == commit
            &&& exists|i: int| 0 <= i < tags.len() && tags[i] == t
            &&& forall|i: int|
                0 <= i < tags.len() && tags[i].sha == commit ==> byte_len(tags[i].name) <= byte_len(
                    t.name,
                )
        },
        spec_longest_tag(tags, commit) is None ==> forall|i: int|
            0 <= i < tags.len() ==> tags[i].sha != commit,
    decreases tags.len(),
{
    if tags.len() > 0 {
        lemma_longest_tag_sound(tags.drop_last(), commit);
        assert(forall|i: int| 0 <= i < tags.len() - 1 ==> tags[i] == tags.drop_last()[i]);
        let r = spec_longest_tag(tags, commit);
        if r is Some {
            let t = r->0;
            if tags.last().sha == commit && (spec_longest_tag(tags.drop_last(), commit) is None
                || byte_len(tags.last().name) >= byte_len(
                spec_longest_tag(tags.drop_last(), commit)->0.name,
            )) {
                assert(tags[tags.len() - 1] == t);
            } else {
                let j: int = choose|i: int|
                    0 <= i < tags.drop_last().len() && tags.drop_last()[i] == t;
                assert(tags[j] == t);
            }
        }
    }
}

/// Selects the longest tag for `commit` out of a full tag listing.
pub fn longest_tag_in(tags: &Vec<Tag>, commit: &str) -> (r: Option<Tag>)
    ensures
        match r {
            Some(t) => spec_longest_tag(tags_view(tags@), commit@) == Some(t@),
            None => spec_longest_tag(tags_view(tags@), commit@) is None,
        },
{
    let ghost tv = tags_view(tags@);
    let mut best: Option<usize> = None;
    let mut i: usize = 0;
    while i < tags.len()
        invariant
            i <= tags@.len(),
            tv == tags_view(tags@),
            tv.len() == tags@.len(),
            match best {
                Some(b) => b < i && spec_longest_tag(tv.take(i as int), commit@) == Some(
                    tv[b as int],
                ),
                None => spec_longest_tag(tv.take(i as int), commit@) is None,
            },
        decreases tags@.len() - i,
    {
        assert(tv[i as int] == tags@[i as int]@);
        proof {
            assert(tv.take(i + 1).drop_last() =~= tv.take(i as int));
            assert(tv.take(i + 1).last() == tv[i as int]);
        }
        if str_eq(tags[i].commit.sha.as_str(), commit) {
            match best {
                None => {
                    best = Some(i);
                },
                Some(b) => {
                    if str_byte_len(tags[i].name.as_str()) >= str_byte_len(tags[b].name.as_str()) {
                        best = Some(i);
                    }
                },
            }
        }
        i += 1;
    }
    proof {
        assert(tv.take(tags@.len() as int) =~= tv);
    }
    match best {
        Some(b) => Some(tags[b].duplicate()),
        None => None,
    }
}

/// The listing endpoint of a repository's branches, relative to the API
/// base.
pub fn branches_endpoint(owner: &str, repo: &str) -> (r: String)
    ensures
        r@ == "repos/"@ + owner@ + "/"@ + repo@ + "/branches"@,
{
    let mut s = "repos/".to_owned();
    push_str(&mut s, owner);
    push_str(&mut s, "/");
    push_str(&mut s, repo);
    push_str(&mut s, "/branches");
    s
}

/// The listing endpoint of a repository's tags, relative to the API base.
pub fn tags_endpoint(owner: &str, repo: &str) -> (r: String)
    ensures
        r@ == "repos/"@ + owner@ + "/"@ + repo@ + "/tags"@,
{
    let mut s = "repos/".to_owned();
    push_str(&mut s, owner);
    push_str(&mut s, "/");
    push_str(&mut s, repo);
    push_str(&mut s, "/tags");
    s
}

/// The single-ref lookup endpoint for a branch or tag name, relative to the
/// API base.
pub fn ref_lookup_endpoint(owner: &str, repo: &str, git_ref: &str, kind: RefLookupKind) -> (r:
    String)
    ensures
        r@ == "repos/"@ + owner@ + "/"@ + repo@ + (if kind == RefLookupKind::Branch {
            "/git/ref/heads/"@
        } else {
            "/git/ref/tags/"@
        }) + git_ref@,
{
    let mut s = "repos/".to_owned();
    push_str(&mut s, owner);
    push_str(&mut s, "/");
    push_str(&mut s, repo);
    match kind {
        RefLookupKind::Branch => push_str(&mut s, "/git/ref/heads/"),
        RefLookupKind::Tag => push_str(&mut s, "/git/ref/tags/"),
    }
    push_str(&mut s, git_ref);
    s
}

/// The compare endpoint for two commits, relative to the API base.
pub fn compare_endpoint(owner: &str, repo: &str, base: &str, head: &str) -> (r: String)
    ensures
        r@ == "repos/"@ + owner@ + "/"@ + repo@ + "/compare/"@ + base@ + "..."@ + head@,
{
    let mut s = "repos/".to_owned();
    push_str(&mut s, owner);
    push_str(&mut s, "/");
    push_str(&mut s, repo);
    push_str(&mut s, "/compare/");
    push_str(&mut s, base);
    push_str(&mut s, "...");
    push_str(&mut s, head);
    s
}

/// The `affects` filter expression of an advisories request:
/// `owner/repo@version`.
pub fn affects_expression(owner: &str, repo: &str, version: &str) -> (r: String)
    ensures
        r@ == owner@ + "/"@ + repo@ + "@"@ + version@,
{
    let mut s = owner.to_owned();
    push_str(&mut s, "/");
    push_str(&mut s, repo);
    push_str(&mut s, "@");
    push_str(&mut s, version);
    s
}

/// A client of the remote API: the token every request authorizes with and
/// a handle to the shared caches. The transport lives with the caller, which
/// passes each actual fetch in as a closure.
pub struct Client {
    pub api_base: &'static str,
    pub token: String,
    pub caches: Caches,
}

impl Client {
    pub fn new(token: &str, caches: Caches) -> (c: Client)
        ensures
            c.api_base@ == API_BASE@,
            c.token@ == token@,
            c.caches == caches,
    {
        Client { api_base: API_BASE, token: token.to_owned(), caches }
    }

    /// The bearer-token authorization header value of every request.
    pub fn auth_header_value(&self) -> (r: String)
        ensures
            r@ == "Bearer "@ + self.token@,
    {
        let mut s = "Bearer ".to_owned();
        push_str(&mut s, self.token.as_str());
        s
    }

    /// The full branch listing of `(owner, repo)`, cache-wrapped by that
    /// key: on a miss, `fetch` runs once even under concurrent callers, and
    /// only its successful result is cached. What the listing holds is the
    /// remote's to answer; nothing more is promised of it here.
    pub fn list_branches<F: FnOnce() -> Result<Vec<Branch>, ApiError>>(
        &self,
        owner: &str,
        repo: &str,
        fetch: F,
    ) -> Result<Vec<Branch>, ApiError> {
        self.caches.branches_or_fetch(owner, repo, fetch)
    }

    /// The full tag listing of `(owner, repo)`, cache-wrapped like
    /// `list_branches`.
    pub fn list_tags<F: FnOnce() -> Result<Vec<Tag>, ApiError>>(
        &self,
        owner: &str,
        repo: &str,
        fetch: F,
    ) -> Result<Vec<Tag>, ApiError> {
        self.caches.tags_or_fetch(owner, repo, fetch)
    }

    /// Fetches the full (cached) tag listing and applies the longest-tag
    /// heuristic to it: a returned tag always points at `commit`.
    pub fn longest_tag_for_commit<F: FnOnce() -> Result<Vec<Tag>, ApiError>>(
        &self,
        owner: &str,
        repo: &str,
        commit: &str,
        fetch: F,
    ) -> (r: Result<Option<Tag>, ApiError>)
        ensures
            r matches Ok(Some(t)) ==> t@.sha == commit@,
    {
        match self.list_tags(owner, repo, fetch) {
            Ok(tags) => {
                let best = longest_tag_in(&tags, commit);
                proof {
                    lemma_longest_tag_sound(tags_view(tags@), commit@);
                }
                Ok(best)
            },
            Err(e) => Err(e),
        }
    }

    /// The comparison of two commits, cache-wrapped by `(base, head)` alone.
    /// Deliberately not disambiguated by repository: head refs are taken to
    /// be content-addressed SHAs, unique enough across the platform. Two
    /// calls that differ only in repository share one cache entry.
    pub fn compare_commits<F: FnOnce() -> Result<Option<ComparisonStatus>, ApiError>>(
        &self,
        base: &str,
        head: &str,
        fetch: F,
    ) -> Result<Option<ComparisonStatus>, ApiError> {
        self.caches.comparison_or_fetch(base, head, fetch)
    }
}

} // verus!
