use data_backend::account::{
    home_page, join_answer, join_request, login_answer, logout_answer, register_answer,
    JoinPartyForm,
};
use data_backend::courts::{
    all_courts, court_data, court_info_page, court_lookup, court_overview, kinds_query,
    reservation_info, CourtData, CourtDataError,
};
use data_backend::reply::{bad_request, court_location, redirect, DatabaseError, Reply, SessionChange};
use data_backend::reservation::{all_reservations, removal_request, reservations_owner, ReservationRemove};

fn is_redirect(r: &Reply, to: &str) -> bool {
    matches!(r, Reply::Redirect(l) if l == to)
}

fn is_bad(r: &Reply, text: &str) -> bool {
    matches!(r, Reply::BadRequest(b) if b == text)
}

fn some_user() -> Option<String> {
    Some("alice".to_string())
}

#[test]
fn front_page_shows_sign_in() {
    assert!(home_page(&some_user()).signed_in);
    assert!(!home_page(&None).signed_in);
}

#[test]
fn login_accepted_remembers_user() {
    let a = login_answer("alice".to_string(), true);
    assert!(matches!(&a.session, SessionChange::Remember(u) if u == "alice"));
    assert!(is_redirect(&a.reply, "/"));
}

#[test]
fn login_refused_is_unprocessable() {
    let a = login_answer("alice".to_string(), false);
    assert!(matches!(a.session, SessionChange::Keep));
    assert!(matches!(&a.reply, Reply::Unprocessable(b) if b == "not a valid login"));
}

#[test]
fn register_outcomes() {
    let a = register_answer("bob".to_string(), true);
    assert!(matches!(&a.session, SessionChange::Remember(u) if u == "bob"));
    assert!(is_redirect(&a.reply, "/"));
    let b = register_answer("bob".to_string(), false);
    assert!(matches!(b.session, SessionChange::Keep));
    assert!(is_bad(&b.reply, "could not register!"));
}

#[test]
fn logout_forgets() {
    let a = logout_answer();
    assert!(matches!(a.session, SessionChange::Forget));
    assert!(is_redirect(&a.reply, "/"));
}

fn join_form(party: &str, court: &str) -> JoinPartyForm {
    JoinPartyForm { party_id: party.to_string(), from_court: court.to_string() }
}

#[test]
fn join_needs_sign_in() {
    let r = join_request(None, &join_form("abc", "3"));
    assert!(matches!(&r, Err(reply) if is_bad(reply, "Not logged in!")));
}

#[test]
fn join_request_reads_party_id() {
    let r = join_request(some_user(), &join_form("+17", "3")).unwrap();
    assert_eq!(r.username, "alice");
    assert_eq!(r.party_id, 17);
}

#[test]
fn join_answers() {
    let f = join_form("17", "3");
    assert!(is_redirect(&join_answer(Ok(Some(true)), &f), "/court/3"));
    assert!(is_bad(&join_answer(Ok(Some(false)), &f), "Not able to join party!"));
    assert!(is_bad(&join_answer(Ok(None), &f), "Not able to join party!"));
    assert!(is_bad(&join_answer(Err(DatabaseError), &f), "Not able to join party!"));
}

#[test]
fn court_location_and_replies() {
    assert_eq!(court_location("12"), "/court/12");
    assert_eq!(court_location(""), "/court/");
    assert!(is_bad(&bad_request("x y"), "x y"));
    assert!(is_redirect(&redirect("/a"), "/a"));
}

#[test]
fn court_lookup_found_and_missing() {
    let kinds = vec![("tennis".to_string(), "clay".to_string())];
    assert_eq!(kinds_query(&Some((4, "North".to_string(), true))), Some(4));
    assert_eq!(kinds_query(&None), None);
    let c = court_data(Some((4, "North".to_string(), true)), kinds).unwrap();
    assert_eq!(c.id, 4);
    assert_eq!(c.name, "North");
    assert!(c.occupied);
    assert_eq!(c.kinds, vec![("tennis".to_string(), "clay".to_string())]);
    assert!(matches!(court_data(None, Vec::new()), Err(CourtDataError::NotFound)));
    assert!(matches!(court_lookup(Err(CourtDataError::Database)), Err(Reply::NotFound)));
    assert!(matches!(court_lookup(Err(CourtDataError::NotFound)), Err(Reply::NotFound)));
    let again = court_lookup(Ok(c)).unwrap();
    assert_eq!(again.id, 4);
}

#[test]
fn court_page_lists_reservations() {
    let with_party = reservation_info(
        (9, "alice".to_string(), "2020-01-02 10:00".to_string(), "2020-01-02 11:00".to_string(), 4, Some(2)),
        Some((5, 6, 1)),
    );
    assert_eq!(with_party.id, 9);
    assert_eq!(with_party.username, "alice");
    assert_eq!(with_party.start, "2020-01-02 10:00");
    assert_eq!(with_party.end, "2020-01-02 11:00");
    let p = with_party.party.as_ref().unwrap();
    assert_eq!((p.id, p.capacity, p.current), (5, 6, 1));
    let without = reservation_info(
        (10, "bob".to_string(), "s".to_string(), "e".to_string(), 4, None),
        None,
    );
    assert!(without.party.is_none());
    let court = CourtData { id: 4, name: "North".to_string(), occupied: false, kinds: Vec::new() };
    let page = court_info_page(court, vec![with_party, without], &None);
    assert_eq!(page.id, 4);
    assert_eq!(page.name, "North");
    assert!(!page.occupied);
    assert!(!page.signed_in);
    assert_eq!(page.reservations.len(), 2);
    assert_eq!(page.reservations[0].id, 9);
    assert_eq!(page.reservations[1].id, 10);
}

#[test]
fn all_courts_keeps_order() {
    let courts = vec![
        CourtData { id: 2, name: "B".to_string(), occupied: true, kinds: Vec::new() },
        CourtData { id: 1, name: "A".to_string(), occupied: false, kinds: vec![("k".to_string(), "d".to_string())] },
    ];
    let list = all_courts(courts);
    assert_eq!(list.courts.len(), 2);
    assert_eq!(list.courts[0].id, 2);
    assert_eq!(list.courts[0].name, "B");
    assert!(list.courts[0].occupied);
    assert_eq!(list.courts[1].id, 1);
    assert_eq!(list.courts[1].kinds.len(), 1);
    assert!(all_courts(Vec::new()).courts.is_empty());
    let one = court_overview(CourtData { id: 7, name: "C".to_string(), occupied: false, kinds: Vec::new() });
    assert_eq!(one.id, 7);
    assert_eq!(one.name, "C");
}

#[test]
fn reservations_need_sign_in() {
    assert!(matches!(reservations_owner(None), Err(r) if is_bad(&r, "Not logged in!")));
    assert_eq!(reservations_owner(some_user()).unwrap(), "alice");
}

#[test]
fn reservations_page_lists_rows() {
    let page = all_reservations(vec![(3, 4, "North".to_string()), (8, 1, "South".to_string())]);
    assert!(page.signed_in);
    assert_eq!(page.reservations.len(), 2);
    assert_eq!(page.reservations[0].id, 3);
    assert_eq!(page.reservations[0].court_id, 4);
    assert_eq!(page.reservations[0].court_name, "North");
    assert_eq!(page.reservations[1].id, 8);
    assert!(all_reservations(Vec::new()).reservations.is_empty());
}

#[test]
fn removal_needs_sign_in() {
    let form = ReservationRemove { to_remove: "oops".to_string() };
    assert!(matches!(removal_request(&None, &form), Err(r) if is_bad(&r, "not logged in")));
}

#[test]
fn removal_reads_id_and_returns_to_list() {
    let form = ReservationRemove { to_remove: "21".to_string() };
    let removal = removal_request(&some_user(), &form).unwrap();
    assert_eq!(removal.reservation_id, 21);
    assert!(is_redirect(&removal.reply(), "/reservations"));
}
