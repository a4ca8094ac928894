use gh_auth_proxy::cache::ValidationCache;
use gh_auth_proxy::credentials::Credential;
use gh_auth_proxy::decision::{decide_finish, decide_local, DecideStep, Decision};
use gh_auth_proxy::github_api::Error;
use gh_auth_proxy::membership::MembershipStore;

fn cred(username: &str, secret: &str) -> Credential {
    Credential { username: username.to_string(), secret: secret.to_string() }
}

fn members(logins: &[&str]) -> MembershipStore {
    let mut store = MembershipStore::new();
    for login in logins {
        store.insert(login.to_string());
    }
    store
}

#[test]
fn non_member_is_denied_without_identity_lookup() {
    let store = members(&["alice", "bob"]);
    let cache = ValidationCache::new();
    let mut lookups = 0;
    let step = decide_local(&store, &cache, &cred("mallory", "tok"));
    if let DecideStep::NeedIdentity = step {
        lookups += 1;
    }
    assert_eq!(step, DecideStep::Settled(Decision::Deny));
    assert_eq!(lookups, 0);
}

#[test]
fn member_with_matching_resolved_login_is_allowed() {
    let store = members(&["alice"]);
    let mut cache = ValidationCache::new();
    let step = decide_local(&store, &cache, &cred("alice", "tok1"));
    assert_eq!(step, DecideStep::NeedIdentity);
    let decision = decide_finish(&mut cache, &cred("alice", "tok1"), Ok("alice".to_string()));
    assert_eq!(decision, Decision::Allow);
}

#[test]
fn mismatched_resolved_login_is_denied() {
    let store = members(&["alice", "bob"]);
    let mut cache = ValidationCache::new();
    let step = decide_local(&store, &cache, &cred("alice", "bobs-token"));
    assert_eq!(step, DecideStep::NeedIdentity);
    // The token is a valid one, but it belongs to bob.
    let decision = decide_finish(&mut cache, &cred("alice", "bobs-token"), Ok("bob".to_string()));
    assert_eq!(decision, Decision::Deny);
    // Nothing was recorded for alice.
    let step = decide_local(&store, &cache, &cred("alice", "bobs-token"));
    assert_eq!(step, DecideStep::NeedIdentity);
}

#[test]
fn cached_pair_is_allowed_with_zero_lookups() {
    let store = members(&["alice"]);
    let mut cache = ValidationCache::new();
    let mut lookups = 0;

    // First request verifies against the provider and fills the cache.
    let first = decide_local(&store, &cache, &cred("alice", "tok1"));
    if first == DecideStep::NeedIdentity {
        lookups += 1;
        let decision = decide_finish(&mut cache, &cred("alice", "tok1"), Ok("alice".to_string()));
        assert_eq!(decision, Decision::Allow);
    }
    assert_eq!(lookups, 1);

    // The identical repeated request settles from the cache alone.
    let second = decide_local(&store, &cache, &cred("alice", "tok1"));
    if second == DecideStep::NeedIdentity {
        lookups += 1;
    }
    assert_eq!(second, DecideStep::Settled(Decision::Allow));
    assert_eq!(lookups, 1);
}

#[test]
fn stale_cached_secret_falls_through_to_reverification() {
    let store = members(&["alice"]);
    let mut cache = ValidationCache::new();
    let _ = decide_finish(&mut cache, &cred("alice", "tok1"), Ok("alice".to_string()));

    // A different presented secret is not a verified deny: it re-verifies.
    let step = decide_local(&store, &cache, &cred("alice", "tok2"));
    assert_eq!(step, DecideStep::NeedIdentity);
    let decision = decide_finish(&mut cache, &cred("alice", "tok2"), Ok("alice".to_string()));
    assert_eq!(decision, Decision::Allow);

    // The rotated token replaced the old entry.
    let step = decide_local(&store, &cache, &cred("alice", "tok2"));
    assert_eq!(step, DecideStep::Settled(Decision::Allow));
    let step = decide_local(&store, &cache, &cred("alice", "tok1"));
    assert_eq!(step, DecideStep::NeedIdentity);
}

#[test]
fn provider_failures_are_denied() {
    let store = members(&["alice"]);
    let mut cache = ValidationCache::new();
    let step = decide_local(&store, &cache, &cred("alice", "tok1"));
    assert_eq!(step, DecideStep::NeedIdentity);

    let auth_failed = decide_finish(&mut cache, &cred("alice", "tok1"), Err(Error::GhAuthFailed));
    assert_eq!(auth_failed, Decision::Deny);

    let api_error = decide_finish(
        &mut cache,
        &cred("alice", "tok1"),
        Err(Error::GhApiError("GH status code: 500".to_string())),
    );
    assert_eq!(api_error, Decision::Deny);

    // A failed lookup records nothing.
    let step = decide_local(&store, &cache, &cred("alice", "tok1"));
    assert_eq!(step, DecideStep::NeedIdentity);
}
