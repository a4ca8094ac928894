//! The allow/deny decision for one request, split around the one network
//! call it may need. `decide_local` settles everything it can from the
//! membership set and the cache; only when it asks for an identity
//! lookup does the caller contact GitHub and hand the outcome to
//! `decide_finish`.

use vstd::prelude::*;

use crate::cache::ValidationCache;
use crate::credentials::Credential;
use crate::github_api::Error;
use crate::membership::MembershipStore;

verus! {

/// The verdict for one request.
#[derive(Clone, Copy, PartialEq, Eq, Debug)]
pub enum Decision {
    Allow,
    Deny,
}

/// What the local stores settle: a verdict, or the need for an identity
/// lookup against the provider.
#[derive(Clone, Copy, PartialEq, Eq, Debug)]
pub enum DecideStep {
    Settled(Decision),
    NeedIdentity,
}

/// The local step: a non-member is denied outright; a member whose
/// cached secret matches is allowed; any other member needs an identity
/// lookup (in particular, a cached secret that does not match falls
/// through to re-verification, so a rotated token is re-checked rather
/// than refused from stale state).
pub open spec fn decide_step_spec(
    members: Set<Seq<char>>,
    cache: Map<Seq<char>, Seq<char>>,
    username: Seq<char>,
    secret: Seq<char>,
) -> DecideStep {
    if !members.contains(username) {
        DecideStep::Settled(Decision::Deny)
    } else if cache.dom().contains(username) && cache[username] == secret {
        DecideStep::Settled(Decision::Allow)
    } else {
        DecideStep::NeedIdentity
    }
}

/// The verdict once the provider has answered: allowed exactly when the
/// resolved login is the claimed username; any failure denies.
pub open spec fn finish_decision(username: Seq<char>, resolved: Option<Seq<char>>) -> Decision {
    match resolved {
        Some(login) => if login == username {
            Decision::Allow
        } else {
            Decision::Deny
        },
        None => Decision::Deny,
    }
}

/// How the cache changes once the provider has answered: a confirmed
/// (username, secret) pair is recorded; everything else leaves it alone.
pub open spec fn finish_cache(
    cache: Map<Seq<char>, Seq<char>>,
    username: Seq<char>,
    secret: Seq<char>,
    resolved: Option<Seq<char>>,
) -> Map<Seq<char>, Seq<char>> {
    match resolved {
        Some(login) => if login == username {
            cache.insert(username, secret)
        } else {
            cache
        },
        None => cache,
    }
}

/// The login an identity lookup resolved, or `None` for any failure.
pub open spec fn identity_view(identity: Result<String, Error>) -> Option<Seq<char>> {
    match identity {
        Ok(login) => Some(login@),
        Err(_) => None,
    }
}

/// Settles what the membership set and the cache alone can settle.
pub fn decide_local(
    store: &MembershipStore,
    cache: &ValidationCache,
    cred: &Credential,
) -> (r: DecideStep)
    requires
        cache.wf(),
    ensures
        r == decide_step_spec(store@, cache@, cred.username@, cred.secret@),
{
    if !store.is_member(&cred.username) {
        return DecideStep::Settled(Decision::Deny);
    }
    match cache.get(&cred.username) {
        Some(cached) => {
            if cached.eq(&cred.secret) {
                DecideStep::Settled(Decision::Allow)
            } else {
                DecideStep::NeedIdentity
            }
        },
        None => DecideStep::NeedIdentity,
    }
}

/// Turns the provider's answer into the verdict, recording a confirmed
/// pair in the cache.
pub fn decide_finish(
    cache: &mut ValidationCache,
    cred: &Credential,
    identity: Result<String, Error>,
) -> (r: Decision)
    requires
        old(cache).wf(),
    ensures
        final(cache).wf(),
        r == finish_decision(cred.username@, identity_view(identity)),
        final(cache)@ == finish_cache(
            old(cache)@,
            cred.username@,
            cred.secret@,
            identity_view(identity),
        ),
{
    match identity {
        Ok(login) => {
            if login.eq(&cred.username) {
                cache.put(login, cred.secret.clone());
                Decision::Allow
            } else {
                Decision::Deny
            }
        },
        Err(_) => Decision::Deny,
    }
}

/// A username outside the membership set is denied at once, with no
/// identity lookup asked for.
pub proof fn lemma_non_member_denied(
    members: Set<Seq<char>>,
    cache: Map<Seq<char>, Seq<char>>,
    username: Seq<char>,
    secret: Seq<char>,
)
    requires
        !members.contains(username),
    ensures
        decide_step_spec(members, cache, username, secret) == DecideStep::Settled(Decision::Deny),
{
}

/// A member whose secret resolves to their own login is allowed: either
/// the cache already settles it, or the identity lookup confirms it.
pub proof fn lemma_matching_member_allowed(
    members: Set<Seq<char>>,
    cache: Map<Seq<char>, Seq<char>>,
    username: Seq<char>,
    secret: Seq<char>,
)
    requires
        members.contains(username),
    ensures
        decide_step_spec(members, cache, username, secret) == DecideStep::Settled(Decision::Allow)
            || decide_step_spec(members, cache, username, secret) == DecideStep::NeedIdentity,
        decide_step_spec(members, cache, username, secret) == DecideStep::NeedIdentity
            ==> finish_decision(username, Some(username)) == Decision::Allow,
{
}

/// A secret resolving to some other account's login is denied, valid
/// though the secret is for that other account.
pub proof fn lemma_mismatched_login_denied(username: Seq<char>, login: Seq<char>)
    requires
        login != username,
    ensures
        finish_decision(username, Some(login)) == Decision::Deny,
{
}

/// A cached, still-matching pair settles to an allow with no identity
/// lookup asked for.
pub proof fn lemma_cached_pair_settles(
    members: Set<Seq<char>>,
    cache: Map<Seq<char>, Seq<char>>,
    username: Seq<char>,
    secret: Seq<char>,
)
    requires
        members.contains(username),
        cache.dom().contains(username),
        cache[username] == secret,
    ensures
        decide_step_spec(members, cache, username, secret) == DecideStep::Settled(Decision::Allow),
{
}

/// Once a lookup has confirmed a member's pair, the updated cache
/// settles the same credential without another lookup.
pub proof fn lemma_verified_then_cached(
    members: Set<Seq<char>>,
    cache: Map<Seq<char>, Seq<char>>,
    username: Seq<char>,
    secret: Seq<char>,
)
    requires
        members.contains(username),
    ensures
        decide_step_spec(
            members,
            finish_cache(cache, username, secret, Some(username)),
            username,
            secret,
        ) == DecideStep::Settled(Decision::Allow),
{
}

} // verus!
