//! A user's own reservations: the list of the coming ones, and removing one.

use vstd::prelude::*;

use crate::decimal::{parse_u32, parse_u32_spec};
use crate::reply::{bad_request, redirect, Reply};
use crate::templates::{AllReservations, RegistrationOverview};

verus! {

/// The form that asks to remove a reservation: the reservation's id, as text.
#[derive(Debug)]
pub struct ReservationRemove {
    pub to_remove: String,
}

/// Whose reservations to list: the signed-in user; a visitor who is not
/// signed in is answered `400 Not logged in!`.
pub fn reservations_owner(identity: Option<String>) -> (r: Result<String, Reply>)
    ensures
        identity is None <==> r is Err,
        identity is None ==> (r matches Err(reply) && reply.is_bad_request("Not logged in!"@)),
        identity matches Some(user) ==> r == Ok::<String, Reply>(user),
{
    match identity {
        Some(user) => Ok(user),
        None => Err(bad_request("Not logged in!")),
    }
}

/// A row (reservation id, court id, court name) as listed.
pub open spec fn listed_as(o: RegistrationOverview, row: (u32, u32, String)) -> bool {
    &&& o.id == row.0
    &&& o.court_id == row.1
    &&& o.court_name == row.2
}

/// An entry lists a row exactly when it shows the row's reservation id,
/// court id and court name, each from its own column.
pub proof fn lemma_listed_as_is_the_row(o: RegistrationOverview, row: (u32, u32, String))
    requires
        listed_as(o, row),
    ensures
        o.id == row.0,
        o.court_id == row.1,
        o.court_name@ == row.2@,
{
}

/// The page of a signed-in user's coming reservations, one entry per row
/// (reservation id, court id, court name), in the order given.
pub fn all_reservations(rows: Vec<(u32, u32, String)>) -> (r: AllReservations)
    ensures
        r.signed_in,
        r.reservations.len() == rows.len(),
        forall|i: int| 0 <= i < rows.len() ==> #[trigger] listed_as(r.reservations[i], rows[i]),
        forall|i: int|
            0 <= i < rows.len() ==> {
                &&& (#[trigger] r.reservations[i]).id == rows[i].0
                &&& r.reservations[i].court_id == rows[i].1
                &&& r.reservations[i].court_name == rows[i].2
                &&& r.reservations[i].court_name@ == rows[i].2@
            },
{
    let ghost given = rows@;
    let mut rest = rows;
    let mut out: Vec<RegistrationOverview> = Vec::new();
    while rest.len() > 0
        invariant
            out.len() + rest.len() == given.len(),
            rest@ == given.subrange(out.len() as int, given.len() as int),
            forall|i: int| 0 <= i < out.len() ==> #[trigger] listed_as(out[i], given[i]),
            forall|i: int|
                0 <= i < out.len() ==> {
                    &&& (#[trigger] out[i]).id == given[i].0
                    &&& out[i].court_id == given[i].1
                    &&& out[i].court_name == given[i].2
                },
        decreases rest.len(),
    {
        let row = rest.remove(0);
        assert(row == given[out.len() as int]);
        let (id, court_id, court_name) = row;
        out.push(RegistrationOverview { id, court_id, court_name });
        assert(rest@ =~= given.subrange(out.len() as int, given.len() as int));
    }
    AllReservations { signed_in: true, reservations: out }
}

/// A removal to carry out: the reservation with this id is deleted, then
/// the user is sent back to the list.
#[derive(Debug)]
pub struct Removal {
    pub reservation_id: u32,
}

/// Reads a removal request. A visitor who is not signed in is answered
/// `400 not logged in`; for a signed-in user the form must hold a number.
pub fn removal_request(identity: &Option<String>, form: &ReservationRemove) -> (r: Result<
    Removal,
    Reply,
>)
    requires
        identity is Some ==> parse_u32_spec(form.to_remove@) is Some,
    ensures
        identity is None <==> r is Err,
        identity is None ==> (r matches Err(reply) && reply.is_bad_request("not logged in"@)),
        identity is Some ==> (r matches Ok(removal) && Some(removal.reservation_id)
            == parse_u32_spec(form.to_remove@)),
{
    match identity {
        Some(_) => {
            let parsed = parse_u32(form.to_remove.as_str());
            match parsed {
                Some(reservation_id) => Ok(Removal { reservation_id }),
                None => vstd::pervasive::unreached(),
            }
        },
        None => Err(bad_request("not logged in")),
    }
}

impl Removal {
    /// After the deletion, whatever the database answered: back to the list
    /// of reservations.
    pub fn reply(&self) -> (r: Reply)
        ensures
            r.is_redirect_to("/reservations"@),
    {
        redirect("/reservations")
    }
}

} // verus!
