use std::cell::Cell;
use std::rc::Rc;

use audit_core::github_api::{
    affects_expression, branches_endpoint, classify_compare_response, classify_listing_response,
    classify_ref_lookup, compare_endpoint, comparison_status_from_token, longest_tag_in,
    ref_lookup_endpoint, resolve_ref_step, tags_endpoint, ApiError, Branch, Client,
    ComparisonStatus, LookupOutcome, Paginator, RefLookupKind, RefResolution, Tag, TagCommit,
    API_BASE, PER_PAGE,
};
use audit_core::state::{AuditConfig, AuditState, Caches};

fn tag(name: &str, sha: &str) -> Tag {
    Tag { name: name.to_string(), commit: TagCommit { sha: sha.to_string() } }
}

fn page_of(n: usize) -> Vec<u64> {
    let mut v = Vec::new();
    for i in 0..n {
        v.push(i as u64);
    }
    v
}

#[test]
fn pagination_accumulates_until_an_empty_page() {
    let mut p: Paginator<u64> = Paginator::new();
    let mut requests: u64 = 0;
    for size in [100, 100, 40, 0] {
        let page = p.next_request().expect("pagination must still be running");
        assert_eq!(page, requests);
        requests += 1;
        p.feed_page(page_of(size));
    }
    assert_eq!(requests, 4);
    assert!(p.next_request().is_none());
    assert_eq!(p.into_items().len(), 240);
}

#[test]
fn pagination_stops_on_an_immediately_empty_listing() {
    let mut p: Paginator<u64> = Paginator::new();
    assert_eq!(p.next_request(), Some(0));
    p.feed_page(Vec::new());
    assert!(p.next_request().is_none());
    assert!(p.into_items().is_empty());
}

#[test]
fn listing_response_classification() {
    assert!(matches!(classify_listing_response(200, Some(page_of(3))), Ok(v) if v.len() == 3));
    assert!(matches!(
        classify_listing_response::<u64>(200, None),
        Err(ApiError::Decode)
    ));
    assert!(matches!(
        classify_listing_response::<u64>(404, Some(Vec::new())),
        Err(ApiError::HttpStatus(404))
    ));
    assert!(matches!(
        classify_listing_response::<u64>(500, None),
        Err(ApiError::HttpStatus(500))
    ));
}

#[test]
fn ref_lookup_classification() {
    assert_eq!(
        classify_ref_lookup(200, Some("abc".to_string())),
        LookupOutcome::Found("abc".to_string())
    );
    assert_eq!(classify_ref_lookup(200, None), LookupOutcome::Failed(ApiError::Decode));
    assert_eq!(classify_ref_lookup(404, None), LookupOutcome::Missing);
    assert_eq!(
        classify_ref_lookup(403, Some("abc".to_string())),
        LookupOutcome::Failed(ApiError::HttpStatus(403))
    );
}

#[test]
fn branch_hit_resolves_without_a_tag_lookup() {
    let r = resolve_ref_step(RefLookupKind::Branch, LookupOutcome::Found("sha1".to_string()));
    assert_eq!(r, RefResolution::Resolved(Some("sha1".to_string())));
}

#[test]
fn branch_miss_falls_through_to_the_tag_lookup() {
    let r = resolve_ref_step(RefLookupKind::Branch, LookupOutcome::Missing);
    assert_eq!(r, RefResolution::Query(RefLookupKind::Tag));
    let r = resolve_ref_step(RefLookupKind::Tag, LookupOutcome::Found("sha2".to_string()));
    assert_eq!(r, RefResolution::Resolved(Some("sha2".to_string())));
}

#[test]
fn both_misses_resolve_to_no_such_ref() {
    assert_eq!(resolve_ref_step(RefLookupKind::Branch, LookupOutcome::Missing), RefResolution::Query(RefLookupKind::Tag));
    assert_eq!(resolve_ref_step(RefLookupKind::Tag, LookupOutcome::Missing), RefResolution::Resolved(None));
}

#[test]
fn branch_failure_aborts_without_a_tag_lookup() {
    let r = resolve_ref_step(
        RefLookupKind::Branch,
        LookupOutcome::Failed(ApiError::HttpStatus(500)),
    );
    assert_eq!(r, RefResolution::Abort(ApiError::HttpStatus(500)));
}

#[test]
fn comparison_tokens_parse() {
    assert_eq!(comparison_status_from_token("ahead"), Some(ComparisonStatus::Ahead));
    assert_eq!(comparison_status_from_token("behind"), Some(ComparisonStatus::Behind));
    assert_eq!(comparison_status_from_token("diverged"), Some(ComparisonStatus::Diverged));
    assert_eq!(comparison_status_from_token("identical"), Some(ComparisonStatus::Identical));
    assert_eq!(comparison_status_from_token("sideways"), None);
}

#[test]
fn compare_response_classification() {
    assert_eq!(
        classify_compare_response(200, Some(ComparisonStatus::Ahead)),
        Ok(Some(ComparisonStatus::Ahead))
    );
    assert_eq!(classify_compare_response(200, None), Err(ApiError::Decode));
    assert_eq!(classify_compare_response(404, None), Ok(None));
    assert_eq!(classify_compare_response(502, None), Err(ApiError::HttpStatus(502)));
}

#[test]
fn longest_tag_prefers_the_fuller_name() {
    let tags = vec![tag("v1", "sha1"), tag("v1.0.0", "sha1"), tag("v2", "sha2")];
    let best = longest_tag_in(&tags, "sha1").expect("a tag points at sha1");
    assert_eq!(best.name, "v1.0.0");
    assert_eq!(best.commit.sha, "sha1");
}

#[test]
fn longest_tag_is_none_when_nothing_points_at_the_commit() {
    let tags = vec![tag("v1", "sha1")];
    assert!(longest_tag_in(&tags, "sha9").is_none());
}

#[test]
fn endpoints_and_headers() {
    assert_eq!(API_BASE, "https://api.github.com");
    assert_eq!(PER_PAGE, 100);
    assert_eq!(branches_endpoint("octo", "repo"), "repos/octo/repo/branches");
    assert_eq!(tags_endpoint("octo", "repo"), "repos/octo/repo/tags");
    assert_eq!(
        ref_lookup_endpoint("octo", "repo", "main", RefLookupKind::Branch),
        "repos/octo/repo/git/ref/heads/main"
    );
    assert_eq!(
        ref_lookup_endpoint("octo", "repo", "v1", RefLookupKind::Tag),
        "repos/octo/repo/git/ref/tags/v1"
    );
    assert_eq!(compare_endpoint("octo", "repo", "aaa", "bbb"), "repos/octo/repo/compare/aaa...bbb");
    assert_eq!(affects_expression("octo", "repo", "1.2.3"), "octo/repo@1.2.3");
    let client = Client::new("t0ken", Caches::new());
    assert_eq!(client.auth_header_value(), "Bearer t0ken");
}

#[test]
fn client_is_available_exactly_with_a_token() {
    let without = AuditState::new(AuditConfig { pedantic: false, offline: false, gh_token: None });
    assert!(without.github_client().is_none());
    let with = AuditState::new(AuditConfig {
        pedantic: true,
        offline: false,
        gh_token: Some("abc".to_string()),
    });
    let client = with.github_client().expect("token configured");
    assert_eq!(client.token, "abc");
}

fn counting_branch_fetch(
    calls: &Rc<Cell<u32>>,
    names: &[&str],
) -> impl FnOnce() -> Result<Vec<Branch>, ApiError> {
    let calls = calls.clone();
    let names: Vec<String> = names.iter().map(|n| n.to_string()).collect();
    move || {
        calls.set(calls.get() + 1);
        Ok(names.into_iter().map(|name| Branch { name }).collect())
    }
}

#[test]
fn repeated_listing_lookups_fetch_once() {
    let state = AuditState::new(AuditConfig {
        pedantic: false,
        offline: false,
        gh_token: Some("abc".to_string()),
    });
    let client = state.github_client().expect("token configured");
    let calls = Rc::new(Cell::new(0));

    let first = client
        .list_branches("octo", "repo", counting_branch_fetch(&calls, &["main", "dev"]))
        .expect("fetch succeeds");
    assert_eq!(calls.get(), 1);

    let second = client
        .list_branches("octo", "repo", counting_branch_fetch(&calls, &["other"]))
        .expect("cached");
    assert_eq!(calls.get(), 1, "the second lookup must be served from the cache");
    assert_eq!(first.len(), 2);
    assert_eq!(second.len(), 2, "every caller sees the one cached listing");
    assert_eq!(second[0].name, "main");

    let elsewhere = client
        .list_branches("octo", "elsewhere", counting_branch_fetch(&calls, &["trunk"]))
        .expect("fetch succeeds");
    assert_eq!(calls.get(), 2, "a different key fetches on its own");
    assert_eq!(elsewhere[0].name, "trunk");
}

#[test]
fn failed_fetches_are_not_memoized() {
    let caches = Caches::new();
    let calls = Rc::new(Cell::new(0));

    let calls1 = calls.clone();
    let r = caches.branches_or_fetch("octo", "repo", move || {
        calls1.set(calls1.get() + 1);
        Err(ApiError::Transport)
    });
    assert!(matches!(r, Err(ApiError::Transport)));
    assert_eq!(calls.get(), 1);

    let r = caches
        .branches_or_fetch("octo", "repo", counting_branch_fetch(&calls, &["main"]))
        .expect("a later attempt runs afresh");
    assert_eq!(calls.get(), 2, "the failure must not have been cached");
    assert_eq!(r[0].name, "main");
}

#[test]
fn comparison_cache_ignores_the_repository() {
    let state = AuditState::new(AuditConfig {
        pedantic: false,
        offline: false,
        gh_token: Some("abc".to_string()),
    });
    let client = state.github_client().expect("token configured");
    let calls = Rc::new(Cell::new(0));

    let calls1 = calls.clone();
    let first = client
        .compare_commits("aaa", "bbb", move || {
            calls1.set(calls1.get() + 1);
            Ok(Some(ComparisonStatus::Behind))
        })
        .expect("fetch succeeds");
    assert_eq!(first, Some(ComparisonStatus::Behind));
    assert_eq!(calls.get(), 1);

    // The same (base, head) pair asked for on behalf of another repository:
    // the fetch (which would hit that other repository's endpoint) must not
    // run at all.
    let calls2 = calls.clone();
    let second = client
        .compare_commits("aaa", "bbb", move || {
            calls2.set(calls2.get() + 1);
            Ok(Some(ComparisonStatus::Diverged))
        })
        .expect("cached");
    assert_eq!(calls.get(), 1, "no second network call for the same (base, head)");
    assert_eq!(second, Some(ComparisonStatus::Behind));
}

#[test]
fn caches_are_shared_across_clones() {
    let state = AuditState::new(AuditConfig {
        pedantic: false,
        offline: false,
        gh_token: Some("abc".to_string()),
    });
    let other = state.clone();
    let calls = Rc::new(Cell::new(0));

    state
        .github_client()
        .expect("token configured")
        .list_branches("octo", "repo", counting_branch_fetch(&calls, &["main"]))
        .expect("fetch succeeds");
    let again = other
        .github_client()
        .expect("token configured")
        .list_branches("octo", "repo", counting_branch_fetch(&calls, &["other"]))
        .expect("cached");
    assert_eq!(calls.get(), 1, "clones share one backing store");
    assert_eq!(again[0].name, "main");
}
