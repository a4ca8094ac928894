//! The per-request plan: what to answer from the `Authorization` header
//! and the stores alone, and what to answer once the provider has been
//! asked. Forwarding itself is the surrounding application's business;
//! the gateway only says whether to forward, to challenge, or — when a
//! forward fails — to report a bad gateway.

use vstd::prelude::*;
use vstd::string::StringExecFns;

use crate::cache::ValidationCache;
use crate::credentials::{extract_credentials, parse_basic, Credential};
use crate::decision::{
    decide_finish, decide_local, decide_step_spec, finish_cache, finish_decision, identity_view,
    DecideStep, Decision,
};
use crate::github_api::Error;
use crate::membership::MembershipStore;

verus! {

/// A response the gateway answers with itself, instead of forwarding.
pub struct ResponsePlan {
    pub status: u16,
    pub www_authenticate_basic: bool,
    pub body: String,
}

/// What to do with a request.
pub enum GatewayStep {
    /// Answer this response without touching the upstream.
    Respond(ResponsePlan),
    /// Forward the request to the upstream target.
    Forward,
    /// Ask the provider who owns the secret, then finish with the answer.
    NeedIdentity(Credential),
}

/// The challenge answered whenever credentials are missing, malformed or
/// refused.
pub open spec fn is_challenge(r: GatewayStep) -> bool {
    match r {
        GatewayStep::Respond(p) => p.status == 401 && p.www_authenticate_basic && p.body@
            == "Authentication required"@,
        _ => false,
    }
}

/// The challenge response: 401 with a `WWW-Authenticate: Basic` header.
pub fn challenge_plan() -> (r: ResponsePlan)
    ensures
        is_challenge(GatewayStep::Respond(r)),
{
    ResponsePlan {
        status: 401,
        www_authenticate_basic: true,
        body: String::from_str("Authentication required"),
    }
}

/// The response for a forward that failed: a bad-gateway report, not a
/// crash and not a challenge.
pub fn bad_gateway_plan() -> (r: ResponsePlan)
    ensures
        r.status == 502,
        !r.www_authenticate_basic,
        r.body@ == Seq::<char>::empty(),
{
    ResponsePlan { status: 502, www_authenticate_basic: false, body: String::new() }
}

/// Plans a request from its `Authorization` header and the stores: a
/// missing or malformed header is challenged; then the claimed
/// credential runs through the local decision step.
pub fn gateway_step(
    store: &MembershipStore,
    cache: &ValidationCache,
    header: Option<&[u8]>,
) -> (r: GatewayStep)
    requires
        cache.wf(),
    ensures
        header is None ==> is_challenge(r),
        header matches Some(h) ==> (parse_basic(h@) is None ==> is_challenge(r)),
        header matches Some(h) ==> (parse_basic(h@) matches Some(p) ==> {
            let step = decide_step_spec(store@, cache@, p.0, p.1);
            &&& (step == DecideStep::Settled(Decision::Deny) ==> is_challenge(r))
            &&& (step == DecideStep::Settled(Decision::Allow) ==> r is Forward)
            &&& (step == DecideStep::NeedIdentity ==> (r matches GatewayStep::NeedIdentity(c)
                && c.username@ == p.0 && c.secret@ == p.1))
        }),
{
    let h = match header {
        Some(h) => h,
        None => {
            return GatewayStep::Respond(challenge_plan());
        },
    };
    let cred = match extract_credentials(h) {
        Some(c) => c,
        None => {
            return GatewayStep::Respond(challenge_plan());
        },
    };
    match decide_local(store, cache, &cred) {
        DecideStep::Settled(Decision::Deny) => GatewayStep::Respond(challenge_plan()),
        DecideStep::Settled(Decision::Allow) => GatewayStep::Forward,
        DecideStep::NeedIdentity => GatewayStep::NeedIdentity(cred),
    }
}

/// Finishes a request that needed an identity lookup: forwards exactly
/// when the provider confirmed the claimed username, recording the pair;
/// otherwise challenges.
pub fn gateway_finish(
    cache: &mut ValidationCache,
    cred: &Credential,
    identity: Result<String, Error>,
) -> (r: GatewayStep)
    requires
        old(cache).wf(),
    ensures
        final(cache).wf(),
        final(cache)@ == finish_cache(
            old(cache)@,
            cred.username@,
            cred.secret@,
            identity_view(identity),
        ),
        finish_decision(cred.username@, identity_view(identity)) == Decision::Allow ==> r
            is Forward,
        finish_decision(cred.username@, identity_view(identity)) == Decision::Deny
            ==> is_challenge(r),
{
    match decide_finish(cache, cred, identity) {
        Decision::Allow => GatewayStep::Forward,
        Decision::Deny => GatewayStep::Respond(challenge_plan()),
    }
}

} // verus!
