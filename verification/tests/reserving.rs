use data_backend::reply::{DatabaseError, Reply};
use data_backend::reserve::{moment_text, start_reservation, ReserveForm};

fn form(capacity: &str) -> ReserveForm {
    ReserveForm {
        date: "2020-03-04".to_string(),
        start_time: "10:00".to_string(),
        end_time: "11:30".to_string(),
        party_capacity: capacity.to_string(),
    }
}

#[test]
fn moment_joins_date_and_time() {
    assert_eq!(moment_text("2020-03-04", "10:00"), "2020-03-04 10:00");
    assert_eq!(moment_text("", ""), " ");
}

#[test]
fn reserving_needs_sign_in() {
    let r = start_reservation(5, None, &form("4"));
    assert!(matches!(r, Err(Reply::BadRequest(b)) if b == "Not logged in!"));
}

#[test]
fn reservation_request_carries_window_and_party() {
    let p = start_reservation(5, Some("alice".to_string()), &form("4")).unwrap();
    assert_eq!(p.court_id, 5);
    assert_eq!(p.username, "alice");
    assert_eq!(p.start, "2020-03-04 10:00");
    assert_eq!(p.end, "2020-03-04 11:30");
    assert_eq!(p.party_capacity, Some(4));
}

#[test]
fn no_party_without_a_number() {
    assert_eq!(start_reservation(5, Some("a".to_string()), &form("")).unwrap().party_capacity, None);
    assert_eq!(start_reservation(5, Some("a".to_string()), &form("four")).unwrap().party_capacity, None);
    assert_eq!(start_reservation(5, Some("a".to_string()), &form("-4")).unwrap().party_capacity, None);
}

#[test]
fn taken_window_is_refused() {
    let p = start_reservation(5, Some("alice".to_string()), &form("")).unwrap();
    let r = p.decide(false);
    assert!(matches!(r, Err(Reply::BadRequest(b)) if b == "already reserved for that period!"));
}

#[test]
fn free_window_is_written_as_checked() {
    let p = start_reservation(12, Some("alice".to_string()), &form("3")).unwrap();
    let n = p.decide(true).unwrap();
    assert_eq!(n.court_id, 12);
    assert_eq!(n.username, "alice");
    assert_eq!(n.start, "2020-03-04 10:00");
    assert_eq!(n.end, "2020-03-04 11:30");
    assert_eq!(n.party_capacity, Some(3));
}

#[test]
fn written_reservation_leads_to_court() {
    let n = start_reservation(12, Some("alice".to_string()), &form("")).unwrap().decide(true).unwrap();
    assert!(matches!(n.outcome(Ok(())), Reply::Redirect(l) if l == "/court/12"));
    let m = start_reservation(4294967295, Some("a".to_string()), &form("")).unwrap().decide(true).unwrap();
    assert!(matches!(m.outcome(Ok(())), Reply::Redirect(l) if l == "/court/4294967295"));
}

#[test]
fn failed_write_is_refused() {
    let n = start_reservation(12, Some("alice".to_string()), &form("")).unwrap().decide(true).unwrap();
    assert!(matches!(n.outcome(Err(DatabaseError)), Reply::BadRequest(b) if b == "could not reserve court!?"));
}
