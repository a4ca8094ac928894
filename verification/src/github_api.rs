//! Plain-value model of the GitHub REST calls the proxy makes: the
//! request pieces it must build (bearer header, member-listing URL) and
//! the classification of the responses it gets back. The surrounding
//! application performs the HTTP traffic and hands status and parsed
//! body in here.

use vstd::prelude::*;
use vstd::string::StringExecFns;

use crate::decimal::{dec_str, u32_dec};

verus! {

/// The body of a successful identity lookup: the login owning the token.
pub struct GhUserResponse {
    pub login: String,
}

/// One entry of an organization's member listing.
pub struct GhOrgMember {
    pub login: String,
}

/// A failed GitHub call: the provider rejected the credential outright,
/// or the API could not be used (non-2xx status, transport failure,
/// unreadable body).
#[derive(Debug)]
pub enum Error {
    GhApiError(String),
    GhAuthFailed,
}

/// Whether an HTTP status reports success.
pub open spec fn is_success_status(status: u16) -> bool {
    200 <= status < 300
}

fn is_success_status_exec(status: u16) -> (r: bool)
    ensures
        r == is_success_status(status),
{
    200 <= status && status < 300
}

/// The diagnostic message for an unexpected GitHub status code.
pub open spec fn status_message_spec(status: u16) -> Seq<char> {
    "GH status code: "@ + dec_str(status as nat)
}

/// Renders the diagnostic message for an unexpected GitHub status code.
pub fn status_message(status: u16) -> (r: String)
    ensures
        r@ == status_message_spec(status),
{
    let mut s = String::from_str("GH status code: ");
    let digits = u32_dec(status as u32);
    s.append(digits.as_str());
    s
}

/// The `Authorization` value sent to GitHub for a given token.
pub fn bearer_header_value(token: &String) -> (r: String)
    ensures
        r@ == "Bearer "@ + token@,
{
    let mut s = String::from_str("Bearer ");
    s.append(token.as_str());
    s
}

/// The URL of one page of an organization's member listing, one hundred
/// entries to a page.
pub fn org_members_url(org: &String, page: u32) -> (r: String)
    ensures
        r@ == "https://api.github.com/orgs/"@ + org@ + "/members?per_page=100&page="@ + dec_str(
            page as nat,
        ),
{
    let mut s = String::from_str("https://api.github.com/orgs/");
    s.append(org.as_str());
    s.append("/members?per_page=100&page=");
    let digits = u32_dec(page);
    s.append(digits.as_str());
    s
}

/// Classifies an identity-endpoint response: a success status with a
/// readable body resolves to the body's login; a success status with an
/// unreadable body is an API error carrying the reader's message; a 403
/// means the provider rejected the credential; any other status is an
/// API error naming the status.
pub fn classify_identity_response(status: u16, body: Result<GhUserResponse, String>) -> (r: Result<
    String,
    Error,
>)
    ensures
        is_success_status(status) && body is Ok ==> r == Ok::<String, Error>(body->Ok_0.login),
        is_success_status(status) && body is Err ==> r == Err::<String, Error>(
            Error::GhApiError(body->Err_0),
        ),
        !is_success_status(status) && status == 403 ==> r == Err::<String, Error>(
            Error::GhAuthFailed,
        ),
        !is_success_status(status) && status != 403 ==> (r matches Err(e) && e matches
            Error::GhApiError(m) && m@ == status_message_spec(status)),
{
    if is_success_status_exec(status) {
        match body {
            Ok(b) => Ok(b.login),
            Err(m) => Err(Error::GhApiError(m)),
        }
    } else if status == 403 {
        Err(Error::GhAuthFailed)
    } else {
        Err(Error::GhApiError(status_message(status)))
    }
}

/// Classifies a member-listing page response: a success status with a
/// readable body yields the page's entries; anything else is an API
/// error, which the startup sync treats as fatal.
pub fn classify_members_page(status: u16, body: Result<Vec<GhOrgMember>, String>) -> (r: Result<
    Vec<GhOrgMember>,
    Error,
>)
    ensures
        is_success_status(status) && body is Ok ==> r == Ok::<Vec<GhOrgMember>, Error>(
            body->Ok_0,
        ),
        is_success_status(status) && body is Err ==> r == Err::<Vec<GhOrgMember>, Error>(
            Error::GhApiError(body->Err_0),
        ),
        !is_success_status(status) ==> (r matches Err(e) && e matches Error::GhApiError(m) && m@
            == status_message_spec(status)),
{
    if is_success_status_exec(status) {
        match body {
            Ok(b) => Ok(b),
            Err(m) => Err(Error::GhApiError(m)),
        }
    } else {
        Err(Error::GhApiError(status_message(status)))
    }
}

} // verus!
