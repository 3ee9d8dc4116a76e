//! Reserving a court: a signed-in user asks for a time window on one day;
//! the database is asked whether the court is free then, and only then is
//! the reservation written, with a party when a party size was given.

use vstd::prelude::*;

use crate::decimal::{decimal, parse_u32, parse_u32_spec, u32_to_decimal};
use crate::reply::{bad_request, court_location, court_path, DatabaseError, Reply};

verus! {

/// The reservation form as submitted.
#[derive(Debug)]
pub struct ReserveForm {
    /// The day, as `YYYY-MM-DD`.
    pub date: String,
    /// The start time of day, as `HH:MM`.
    pub start_time: String,
    /// The end time of day, as `HH:MM`.
    pub end_time: String,
    /// The size of the party to open with the reservation; anything that is
    /// not a number means no party.
    pub party_capacity: String,
}

/// The text of a moment, `{date} {time}`, as the database reads it with the
/// format `%Y-%m-%d %H:%i`.
pub open spec fn moment(date: Seq<char>, time: Seq<char>) -> Seq<char> {
    date + seq![' '] + time
}

/// A moment's text is the date as given, one space, then the time as given:
/// neither part is changed, and each can be read back from the text.
pub proof fn lemma_moment_keeps_date_and_time(date: Seq<char>, time: Seq<char>)
    ensures
        moment(date, time).len() == date.len() + 1 + time.len(),
        moment(date, time).subrange(0, date.len() as int) == date,
        moment(date, time)[date.len() as int] == ' ',
        moment(date, time).subrange((date.len() + 1) as int, moment(date, time).len() as int) == time,
        forall|i: int| 0 <= i < time.len() ==> #[trigger] moment(date, time)[date.len() + 1 + i] == time[i],
{
    let m = moment(date, time);
    assert(m.subrange(0, date.len() as int) =~= date);
    assert(m.subrange((date.len() + 1) as int, m.len() as int) =~= time);
}

/// Two moments of the same day differ only in their times: the texts of two
/// times on one date are equal exactly when the times are.
pub proof fn lemma_moment_injective_in_time(date: Seq<char>, t1: Seq<char>, t2: Seq<char>)
    ensures
        (moment(date, t1) == moment(date, t2)) <==> (t1 == t2),
{
    lemma_moment_keeps_date_and_time(date, t1);
    lemma_moment_keeps_date_and_time(date, t2);
}

/// Builds `{date} {time}`.
pub fn moment_text(date: &str, time: &str) -> (m: String)
    ensures
        m@ == moment(date@, time@),
        m@ == date@ + seq![' '] + time@,
        m@.len() == date@.len() + 1 + time@.len(),
        m@.subrange(0, date@.len() as int) == date@,
        m@[date@.len() as int] == ' ',
        m@.subrange((date@.len() + 1) as int, m@.len() as int) == time@,
{
    let mut m = String::from_str(date);
    proof {
        reveal_strlit(" ");
    }
    m.append(" ");
    m.append(time);
    m
}

/// A request from a signed-in user, waiting for the database to say whether
/// the court is free from `start` to `end`.
#[derive(Debug)]
pub struct PendingReservation {
    pub court_id: u32,
    pub username: String,
    pub start: String,
    pub end: String,
    pub party_capacity: Option<u32>,
}

/// A reservation for a window that the database called free, to be written
/// (with a party of `party_capacity` places when that is `Some`).
#[derive(Debug)]
pub struct NewReservation {
    pub court_id: u32,
    pub username: String,
    pub start: String,
    pub end: String,
    pub party_capacity: Option<u32>,
}

/// Reads a reservation request for the court `court_id` from `identity`
/// (the signed-in user name, if any) and the form. A visitor who is not
/// signed in is answered `400 Not logged in!` and nothing is asked of the
/// database.
pub fn start_reservation(court_id: u32, identity: Option<String>, form: &ReserveForm) -> (r: Result<
    PendingReservation,
    Reply,
>)
    ensures
        identity is None <==> r is Err,
        identity is None ==> (r matches Err(reply) && reply.is_bad_request("Not logged in!"@)),
        identity matches Some(user) ==> (r matches Ok(p) && {
            &&& p.court_id == court_id
            &&& p.username == user
            &&& p.start@ == moment(form.date@, form.start_time@)
            &&& p.end@ == moment(form.date@, form.end_time@)
            &&& p.start@ == form.date@ + seq![' '] + form.start_time@
            &&& p.end@ == form.date@ + seq![' '] + form.end_time@
            &&& p.party_capacity == parse_u32_spec(form.party_capacity@)
        }),
{
    let start = moment_text(form.date.as_str(), form.start_time.as_str());
    let end = moment_text(form.date.as_str(), form.end_time.as_str());
    let party_capacity = parse_u32(form.party_capacity.as_str());
    match identity {
        Some(username) => Ok(PendingReservation { court_id, username, start, end, party_capacity }),
        None => Err(bad_request("Not logged in!")),
    }
}

impl PendingReservation {
    /// Goes on with the answer of the availability check: a window that is
    /// not free is answered `400 already reserved for that period!`; a free
    /// one becomes a reservation of exactly that court, user and window.
    pub fn decide(self, can_reserve: bool) -> (r: Result<NewReservation, Reply>)
        ensures
            can_reserve <==> r is Ok,
            !can_reserve ==> (r matches Err(reply) && reply.is_bad_request(
                "already reserved for that period!"@,
            )),
            can_reserve ==> (r matches Ok(n) && {
                &&& n.court_id == self.court_id
                &&& n.username == self.username
                &&& n.start == self.start
                &&& n.end == self.end
                &&& n.party_capacity == self.party_capacity
            }),
    {
        if can_reserve {
            Ok(
                NewReservation {
                    court_id: self.court_id,
                    username: self.username,
                    start: self.start,
                    end: self.end,
                    party_capacity: self.party_capacity,
                },
            )
        } else {
            Err(bad_request("already reserved for that period!"))
        }
    }
}

impl NewReservation {
    /// The answer once the database has tried to write the reservation:
    /// back to the court's page on success, `400 could not reserve court!?`
    /// otherwise.
    pub fn outcome(&self, written: Result<(), DatabaseError>) -> (r: Reply)
        ensures
            written is Ok ==> r.is_redirect_to(court_path(decimal(self.court_id as nat))),
            written is Ok ==> (r matches Reply::Redirect(l) && {
                &&& l@.subrange(0, 7) == seq!['/', 'c', 'o', 'u', 'r', 't', '/']
                &&& parse_u32_spec(l@.subrange(7, l@.len() as int)) == Some(self.court_id)
            }),
            written is Err ==> r.is_bad_request("could not reserve court!?"@),
    {
        match written {
            Ok(()) => {
                proof {
                    lemma_reservation_leads_to_court(self.court_id);
                }
                let id = u32_to_decimal(self.court_id);
                Reply::Redirect(court_location(id.as_str()))
            },
            Err(_) => bad_request("could not reserve court!?"),
        }
    }
}

/// The page that a successful reservation leads back to is the page of the
/// reserved court: its path is `/court/` followed by text that reads back
/// as the court's id.
pub proof fn lemma_reservation_leads_to_court(court_id: u32)
    ensures
        court_path(decimal(court_id as nat)).subrange(0, 7) =~= seq!['/', 'c', 'o', 'u', 'r', 't', '/'],
        parse_u32_spec(court_path(decimal(court_id as nat)).subrange(
            7,
            court_path(decimal(court_id as nat)).len() as int,
        )) == Some(court_id),
{
    let p = court_path(decimal(court_id as nat));
    assert(p.subrange(7, p.len() as int) =~= decimal(court_id as nat));
    crate::decimal::lemma_parse_decimal_roundtrip(court_id);
}

} // verus!
