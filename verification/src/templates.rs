//! The data that each page of the site is rendered from.

use vstd::prelude::*;

verus! {

/// The front page.
#[derive(Debug)]
pub struct Index {
    pub signed_in: bool,
}

/// An open party of a reservation: its id, how many places it has, and how
/// many are taken.
#[derive(Debug)]
pub struct PartyInfo {
    pub id: u32,
    pub capacity: u32,
    pub current: u32,
}

/// One reservation of a court, as listed on the court's page.
#[derive(Debug)]
pub struct ReservationInfo {
    pub id: u32,
    pub username: String,
    pub start: String,
    pub end: String,
    pub party: Option<PartyInfo>,
}

/// A court's page.
#[derive(Debug)]
pub struct CourtInfo {
    pub id: u32,
    pub name: String,
    pub occupied: bool,
    pub reservations: Vec<ReservationInfo>,
    pub kinds: Vec<(String, String)>,
    pub signed_in: bool,
}

/// One court on the list of all courts.
#[derive(Debug)]
pub struct CourtOverview {
    pub id: u32,
    pub name: String,
    pub occupied: bool,
    pub kinds: Vec<(String, String)>,
}

/// The list of all courts.
#[derive(Debug)]
pub struct AllCourts {
    pub courts: Vec<CourtOverview>,
}

/// One of a user's coming reservations: its id, and the court's id and name.
#[derive(Debug)]
pub struct RegistrationOverview {
    pub id: u32,
    pub court_id: u32,
    pub court_name: String,
}

/// The page of a user's coming reservations.
#[derive(Debug)]
pub struct AllReservations {
    pub signed_in: bool,
    pub reservations: Vec<RegistrationOverview>,
}

} // verus!
