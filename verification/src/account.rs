//! Signing in, registering, signing out, the front page, and joining a party.

use vstd::prelude::*;

use crate::decimal::{parse_u32, parse_u32_spec};
use crate::reply::{bad_request, court_location, court_path, Answer, DatabaseError, Reply, SessionChange};
use crate::templates::Index;

verus! {

/// The front page, which shows whether the visitor is signed in.
pub fn home_page(identity: &Option<String>) -> (r: Index)
    ensures
        r.signed_in == identity is Some,
{
    Index { signed_in: identity.is_some() }
}

/// The answer to a sign-in with `username`, once the database has said
/// whether the password matched: signed in and sent to the front page, or
/// `422 not a valid login` with the session unchanged.
pub fn login_answer(username: String, accepted: bool) -> (r: Answer)
    ensures
        accepted ==> (r.session matches SessionChange::Remember(u) && u == username),
        accepted ==> r.reply.is_redirect_to("/"@),
        !accepted ==> r.session is Keep,
        !accepted ==> r.reply.is_unprocessable("not a valid login"@),
{
    if accepted {
        Answer { session: SessionChange::Remember(username), reply: crate::reply::redirect("/") }
    } else {
        Answer {
            session: SessionChange::Keep,
            reply: Reply::Unprocessable(String::from_str("not a valid login")),
        }
    }
}

/// The answer to a registration of `username`, once the database has said
/// whether it created the account: signed in and sent to the front page, or
/// `400 could not register!` with the session unchanged.
pub fn register_answer(username: String, registered: bool) -> (r: Answer)
    ensures
        registered ==> (r.session matches SessionChange::Remember(u) && u == username),
        registered ==> r.reply.is_redirect_to("/"@),
        !registered ==> r.session is Keep,
        !registered ==> r.reply.is_bad_request("could not register!"@),
{
    if registered {
        Answer { session: SessionChange::Remember(username), reply: crate::reply::redirect("/") }
    } else {
        Answer { session: SessionChange::Keep, reply: bad_request("could not register!") }
    }
}

/// Signing out: the session is forgotten and the visitor sent to the front
/// page.
pub fn logout_answer() -> (r: Answer)
    ensures
        r.session is Forget,
        r.reply.is_redirect_to("/"@),
{
    Answer { session: SessionChange::Forget, reply: crate::reply::redirect("/") }
}

/// The form that asks to join a party: the party's id, and the court page
/// that the form was sent from.
#[derive(Debug)]
pub struct JoinPartyForm {
    pub party_id: String,
    pub from_court: String,
}

/// A signed-in user's request to join a party.
#[derive(Debug)]
pub struct JoinRequest {
    pub username: String,
    pub party_id: u32,
}

/// Reads a request to join a party. A visitor who is not signed in is
/// answered `400 Not logged in!`; for a signed-in user the party id must be
/// a number.
pub fn join_request(identity: Option<String>, form: &JoinPartyForm) -> (r: Result<
    JoinRequest,
    Reply,
>)
    requires
        identity is Some ==> parse_u32_spec(form.party_id@) is Some,
    ensures
        identity is None <==> r is Err,
        identity is None ==> (r matches Err(reply) && reply.is_bad_request("Not logged in!"@)),
        identity matches Some(user) ==> (r matches Ok(j) && j.username == user && Some(j.party_id)
            == parse_u32_spec(form.party_id@)),
{
    match identity {
        Some(username) => match parse_u32(form.party_id.as_str()) {
            Some(party_id) => Ok(JoinRequest { username, party_id }),
            None => vstd::pervasive::unreached(),
        },
        None => Err(bad_request("Not logged in!")),
    }
}

/// The answer once the database has tried to add the user to the party:
/// only a call that returned a row saying `true` sends the user back to the
/// court page the form came from; a refusal, no row, or a failed call is
/// answered `400 Not able to join party!`.
pub fn join_answer(joined: Result<Option<bool>, DatabaseError>, form: &JoinPartyForm) -> (r: Reply)
    ensures
        (joined matches Ok(Some(b)) && b) ==> r.is_redirect_to(court_path(form.from_court@)),
        (joined matches Ok(Some(b)) && b) ==> (r matches Reply::Redirect(l) && l@ == seq![
            '/',
            'c',
            'o',
            'u',
            'r',
            't',
            '/',
        ] + form.from_court@),
        !(joined matches Ok(Some(b)) && b) ==> r.is_bad_request("Not able to join party!"@),
{
    match joined {
        Ok(Some(true)) => Reply::Redirect(court_location(form.from_court.as_str())),
        _ => bad_request("Not able to join party!"),
    }
}

} // verus!
