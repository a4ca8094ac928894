use gh_auth_proxy::cache::ValidationCache;
use gh_auth_proxy::gateway::{bad_gateway_plan, gateway_finish, gateway_step, GatewayStep};
use gh_auth_proxy::github_api::{classify_identity_response, Error};
use gh_auth_proxy::membership::MembershipStore;

fn members(logins: &[&str]) -> MembershipStore {
    let mut store = MembershipStore::new();
    for login in logins {
        store.insert(login.to_string());
    }
    store
}

fn assert_challenge(step: &GatewayStep) {
    match step {
        GatewayStep::Respond(plan) => {
            assert_eq!(plan.status, 401);
            assert!(plan.www_authenticate_basic);
            assert_eq!(plan.body, "Authentication required");
        },
        _ => panic!("expected a challenge response"),
    }
}

#[test]
fn missing_authorization_header_is_challenged() {
    let store = members(&["alice"]);
    let cache = ValidationCache::new();
    let step = gateway_step(&store, &cache, None);
    assert_challenge(&step);
}

#[test]
fn malformed_authorization_header_is_challenged() {
    let store = members(&["alice"]);
    let cache = ValidationCache::new();
    let step = gateway_step(&store, &cache, Some(b"Basic not-base64!"));
    assert_challenge(&step);
}

#[test]
fn member_with_verified_token_is_forwarded() {
    let store = members(&["alice"]);
    let mut cache = ValidationCache::new();
    // Basic credentials alice:tok1.
    let step = gateway_step(&store, &cache, Some(b"Basic YWxpY2U6dG9rMQ=="));
    let cred = match step {
        GatewayStep::NeedIdentity(cred) => cred,
        _ => panic!("expected an identity lookup"),
    };
    assert_eq!(cred.username, "alice");
    assert_eq!(cred.secret, "tok1");
    let outcome = gateway_finish(&mut cache, &cred, Ok("alice".to_string()));
    assert!(matches!(outcome, GatewayStep::Forward));
}

#[test]
fn non_member_is_challenged_with_zero_lookups() {
    let store = members(&["alice"]);
    let cache = ValidationCache::new();
    let mut lookups = 0;
    // Basic credentials carol:whatever.
    let step = gateway_step(&store, &cache, Some(b"Basic Y2Fyb2w6d2hhdGV2ZXI="));
    if let GatewayStep::NeedIdentity(_) = step {
        lookups += 1;
    }
    assert_challenge(&step);
    assert_eq!(lookups, 0);
}

#[test]
fn cached_user_is_forwarded_with_zero_further_lookups() {
    let store = members(&["alice"]);
    let mut cache = ValidationCache::new();
    let mut lookups = 0;

    let step = gateway_step(&store, &cache, Some(b"Basic YWxpY2U6dG9rMQ=="));
    match step {
        GatewayStep::NeedIdentity(cred) => {
            lookups += 1;
            let outcome = gateway_finish(&mut cache, &cred, Ok("alice".to_string()));
            assert!(matches!(outcome, GatewayStep::Forward));
        },
        _ => panic!("expected an identity lookup"),
    }
    assert_eq!(lookups, 1);

    // The second identical request forwards straight from the cache.
    let step = gateway_step(&store, &cache, Some(b"Basic YWxpY2U6dG9rMQ=="));
    if let GatewayStep::NeedIdentity(_) = step {
        lookups += 1;
    }
    assert!(matches!(step, GatewayStep::Forward));
    assert_eq!(lookups, 1);
}

#[test]
fn provider_rejection_is_challenged() {
    let store = members(&["alice"]);
    let mut cache = ValidationCache::new();
    let step = gateway_step(&store, &cache, Some(b"Basic YWxpY2U6dG9rMQ=="));
    let cred = match step {
        GatewayStep::NeedIdentity(cred) => cred,
        _ => panic!("expected an identity lookup"),
    };
    // The provider answers 403 for this secret.
    let identity = classify_identity_response(403, Err("unused".to_string()));
    assert!(matches!(identity, Err(Error::GhAuthFailed)));
    let outcome = gateway_finish(&mut cache, &cred, identity);
    assert_challenge(&outcome);
}

#[test]
fn failed_forward_maps_to_bad_gateway() {
    let plan = bad_gateway_plan();
    assert_eq!(plan.status, 502);
    assert!(!plan.www_authenticate_basic);
    assert_eq!(plan.body, "");
}
