//! The courts: looking one up, its page with its reservations and open
//! parties, and the list of all courts.

use vstd::prelude::*;

use crate::reply::Reply;
use crate::templates::{AllCourts, CourtInfo, CourtOverview, PartyInfo, ReservationInfo};

verus! {

/// A court as stored: its id and name, whether it is occupied now, and the
/// pairs of text that describe its kinds.
#[derive(Debug)]
pub struct CourtData {
    pub id: u32,
    pub name: String,
    pub occupied: bool,
    pub kinds: Vec<(String, String)>,
}

/// Why a court could not be looked up.
#[derive(Debug)]
pub enum CourtDataError {
    /// No court has the id asked for.
    NotFound,
    /// The database failed the call.
    Database,
}

/// The court whose kinds are to be fetched next: the one that the lookup
/// found, if it found one.
pub fn kinds_query(found: &Option<(u32, String, bool)>) -> (r: Option<u32>)
    ensures
        r == (match found {
            Some(row) => Some(row.0),
            None => None::<u32>,
        }),
{
    match found {
        Some(row) => Some(row.0),
        None => None,
    }
}

/// A court from the row that the lookup found (id, name, occupied) and its
/// kinds; no row means that no court has that id.
pub fn court_data(found: Option<(u32, String, bool)>, kinds: Vec<(String, String)>) -> (r: Result<
    CourtData,
    CourtDataError,
>)
    ensures
        found is None <==> r is Err,
        found is None ==> (r matches Err(e) && e is NotFound),
        found matches Some(row) ==> (r matches Ok(c) && {
            &&& c.id == row.0
            &&& c.name == row.1
            &&& c.occupied == row.2
            &&& c.kinds == kinds
        }),
{
    match found {
        Some(row) => {
            let (id, name, occupied) = row;
            Ok(CourtData { id, name, occupied, kinds })
        },
        None => Err(CourtDataError::NotFound),
    }
}

/// A court's page can be shown only for a court that was found; any failure
/// of the lookup is answered with the not-found page.
pub fn court_lookup(court: Result<CourtData, CourtDataError>) -> (r: Result<CourtData, Reply>)
    ensures
        court is Ok <==> r is Ok,
        court matches Ok(c) ==> r == Ok::<CourtData, Reply>(c),
        court is Err ==> (r matches Err(reply) && reply is NotFound),
{
    match court {
        Ok(c) => Ok(c),
        Err(_) => Err(Reply::NotFound),
    }
}

/// A reservation as listed on a court's page, from its row (id, user name,
/// start, end, and two columns that the page does not show) and the open
/// party of that reservation (id, capacity, places taken), if it has one.
pub fn reservation_info(
    row: (u32, String, String, String, u32, Option<u32>),
    party: Option<(u32, u32, u32)>,
) -> (r: ReservationInfo)
    ensures
        r.id == row.0,
        r.username == row.1,
        r.start == row.2,
        r.end == row.3,
        party is None <==> r.party is None,
        party matches Some(p) ==> (r.party matches Some(q) && q.id == p.0 && q.capacity == p.1
            && q.current == p.2),
{
    let (id, username, start, end, _, _) = row;
    let party = match party {
        Some(p) => {
            let (pid, capacity, current) = p;
            Some(PartyInfo { id: pid, capacity, current })
        },
        None => None,
    };
    ReservationInfo { id, username, start, end, party }
}

/// A court's page: the court, its reservations in the order given, and
/// whether the visitor (`identity`) is signed in.
pub fn court_info_page(court: CourtData, reservations: Vec<ReservationInfo>, identity: &Option<
    String,
>) -> (r: CourtInfo)
    ensures
        r.id == court.id,
        r.name == court.name,
        r.occupied == court.occupied,
        r.kinds == court.kinds,
        r.reservations == reservations,
        r.signed_in == identity is Some,
{
    CourtInfo {
        id: court.id,
        name: court.name,
        occupied: court.occupied,
        kinds: court.kinds,
        reservations,
        signed_in: identity.is_some(),
    }
}

/// The same court on the list of all courts.
pub open spec fn overview_of(o: CourtOverview, c: CourtData) -> bool {
    &&& o.id == c.id
    &&& o.name == c.name
    &&& o.occupied == c.occupied
    &&& o.kinds == c.kinds
}

/// An overview is of a court exactly when it shows that court's id, name,
/// occupancy and every one of its kinds, in order.
pub proof fn lemma_overview_is_the_court(o: CourtOverview, c: CourtData)
    requires
        overview_of(o, c),
    ensures
        o.id == c.id,
        o.name == c.name,
        o.occupied == c.occupied,
        o.kinds@.len() == c.kinds@.len(),
        forall|i: int| 0 <= i < c.kinds@.len() ==> #[trigger] o.kinds@[i] == c.kinds@[i],
{
}

/// A court as shown on the list of all courts.
pub fn court_overview(court: CourtData) -> (r: CourtOverview)
    ensures
        overview_of(r, court),
        r.id == court.id,
        r.name == court.name,
        r.name@ == court.name@,
        r.occupied == court.occupied,
        r.kinds == court.kinds,
        r.kinds@ == court.kinds@,
{
    CourtOverview { id: court.id, name: court.name, occupied: court.occupied, kinds: court.kinds }
}

/// The list of all courts, one entry per court, in the order given.
pub fn all_courts(courts: Vec<CourtData>) -> (r: AllCourts)
    ensures
        r.courts.len() == courts.len(),
        forall|i: int| 0 <= i < courts.len() ==> #[trigger] overview_of(r.courts[i], courts[i]),
        forall|i: int|
            0 <= i < courts.len() ==> {
                &&& (#[trigger] r.courts[i]).id == courts[i].id
                &&& r.courts[i].name == courts[i].name
                &&& r.courts[i].occupied == courts[i].occupied
                &&& r.courts[i].kinds == courts[i].kinds
                &&& r.courts[i].kinds@ == courts[i].kinds@
            },
{
    let ghost given = courts@;
    let mut rest = courts;
    let mut out: Vec<CourtOverview> = Vec::new();
    while rest.len() > 0
        invariant
            out.len() + rest.len() == given.len(),
            rest@ == given.subrange(out.len() as int, given.len() as int),
            forall|i: int| 0 <= i < out.len() ==> #[trigger] overview_of(out[i], given[i]),
            forall|i: int|
                0 <= i < out.len() ==> {
                    &&& (#[trigger] out[i]).id == given[i].id
                    &&& out[i].name == given[i].name
                    &&& out[i].occupied == given[i].occupied
                    &&& out[i].kinds == given[i].kinds
                },
        decreases rest.len(),
    {
        let c = rest.remove(0);
        assert(c == given[out.len() as int]);
        out.push(court_overview(c));
        assert(rest@ =~= given.subrange(out.len() as int, given.len() as int));
    }
    AllCourts { courts: out }
}

} // verus!
