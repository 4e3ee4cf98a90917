//! Per-run shared state: resolved configuration and the process-scoped,
//! thread-safe caches every client handle shares. The caches collapse
//! concurrent misses for one key into a single computation, never memoize a
//! failure, and may evict entries transparently once over capacity.

use vstd::prelude::*;

use std::hash::Hash;

use crate::github_api::{ApiError, Branch, Client, ComparisonStatus, Tag};

verus! {

/// How many `(owner, repo)` branch listings are kept at most.
pub const BRANCH_CACHE_CAPACITY: u64 = 1000;

/// How many `(owner, repo)` tag listings are kept at most.
pub const TAG_CACHE_CAPACITY: u64 = 1000;

/// How many `(base, head)` comparisons are kept at most.
pub const COMPARISON_CACHE_CAPACITY: u64 = 10000;

#[verifier::external_type_specification]
#[verifier::external_body]
#[verifier::reject_recursive_types(K)]
#[verifier::reject_recursive_types(V)]
#[verifier::reject_recursive_types(S)]
pub struct ExCache<K, V, S>(moka::sync::Cache<K, V, S>);

/// Relies on moka's Clone for Cache: a clone is a cheap handle onto the
/// same shared backing store, not a copy of the entries.
pub assume_specification<K, V, S>[ <moka::sync::Cache<K, V, S> as Clone>::clone ](
    cache: &moka::sync::Cache<K, V, S>,
) -> moka::sync::Cache<K, V, S>;

/// Relies on moka's Cache::new: an empty cache that stores up to
/// `max_capacity` entries and evicts transparently beyond that.
#[verifier::external_body]
fn new_cache<K, V>(max_capacity: u64) -> moka::sync::Cache<K, V> where
    K: Hash + Eq + Send + Sync + 'static,
    V: Clone + Send + Sync + 'static,
 {
    moka::sync::Cache::new(max_capacity)
}

/// Relies on moka's Cache::try_get_with: returns the value cached under
/// `key` or, on a miss, runs `init` and returns its result, caching it only
/// on success. Concurrent calls for one absent key run `init` exactly once
/// and all receive that one outcome; a failure is handed to every waiting
/// caller (unwrapped here from moka's `Arc`) and is never cached.
#[verifier::external_body]
fn cache_try_get_with<K, V, F>(cache: &moka::sync::Cache<K, V>, key: K, init: F) -> Result<
    V,
    ApiError,
> where
    K: Hash + Eq + Send + Sync + 'static,
    V: Clone + Send + Sync + 'static,
    F: FnOnce() -> Result<V, ApiError>,
 {
    cache.try_get_with(key, init).map_err(|e| *e)
}

/// The three keyed stores of a run. Clones share the backing stores; entries
/// live for the run, immutable once inserted, up to transparent eviction.
#[derive(Clone)]
pub struct Caches {
    /// `(owner, repo)` to the repository's full branch listing.
    pub branch_cache: moka::sync::Cache<(String, String), Vec<Branch>>,
    /// `(owner, repo)` to the repository's full tag listing.
    pub tag_cache: moka::sync::Cache<(String, String), Vec<Tag>>,
    /// `(base, head)` to the comparison outcome, `None` for the defined
    /// "not found". Deliberately not keyed by repository: head refs are
    /// taken to be content-addressed SHAs, unique enough across the
    /// platform.
    pub ref_comparison_cache: moka::sync::Cache<(String, String), Option<ComparisonStatus>>,
}

impl Caches {
    /// Fresh, empty caches at their fixed capacities.
    pub fn new() -> Caches {
        Caches {
            branch_cache: new_cache(BRANCH_CACHE_CAPACITY),
            tag_cache: new_cache(TAG_CACHE_CAPACITY),
            ref_comparison_cache: new_cache(COMPARISON_CACHE_CAPACITY),
        }
    }

    /// The branch listing cached under `(owner, repo)`, or the outcome of
    /// one shared run of `fetch`.
    pub fn branches_or_fetch<F: FnOnce() -> Result<Vec<Branch>, ApiError>>(
        &self,
        owner: &str,
        repo: &str,
        fetch: F,
    ) -> Result<Vec<Branch>, ApiError> {
        cache_try_get_with(&self.branch_cache, (owner.to_owned(), repo.to_owned()), fetch)
    }

    /// The tag listing cached under `(owner, repo)`, or the outcome of one
    /// shared run of `fetch`.
    pub fn tags_or_fetch<F: FnOnce() -> Result<Vec<Tag>, ApiError>>(
        &self,
        owner: &str,
        repo: &str,
        fetch: F,
    ) -> Result<Vec<Tag>, ApiError> {
        cache_try_get_with(&self.tag_cache, (owner.to_owned(), repo.to_owned()), fetch)
    }

    /// The comparison cached under `(base, head)` — the repository is no
    /// part of the key — or the outcome of one shared run of `fetch`.
    pub fn comparison_or_fetch<F: FnOnce() -> Result<Option<ComparisonStatus>, ApiError>>(
        &self,
        base: &str,
        head: &str,
        fetch: F,
    ) -> Result<Option<ComparisonStatus>, ApiError> {
        cache_try_get_with(&self.ref_comparison_cache, (base.to_owned(), head.to_owned()), fetch)
    }
}

/// Configuration resolved once per run, immutable for its duration.
#[derive(Clone)]
pub struct AuditConfig {
    pub pedantic: bool,
    pub offline: bool,
    pub gh_token: Option<String>,
}

/// The per-run bundle every rule is constructed with: the resolved
/// configuration and a handle to the shared caches. Clones share the same
/// backing stores.
#[derive(Clone)]
pub struct AuditState {
    pub config: AuditConfig,
    pub caches: Caches,
}

impl AuditState {
    pub fn new(config: AuditConfig) -> (r: AuditState)
        ensures
            r.config == config,
    {
        AuditState { config, caches: Caches::new() }
    }

    /// A cache-sharing client of the remote API, available exactly when an
    /// access token is configured. Construction performs no request.
    pub fn github_client(&self) -> (r: Option<Client>)
        ensures
            r is Some <==> self.config.gh_token is Some,
            r matches Some(c) ==> self.config.gh_token matches Some(t) && c.token@ == t@,
    {
        match &self.config.gh_token {
            Some(token) => Some(Client::new(token.as_str(), self.caches.clone())),
            None => None,
        }
    }
}

} // verus!
