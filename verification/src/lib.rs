//! The decision logic of a court reservation site: what each page shows, and
//! what each form submission does, given what the database answered.

pub mod decimal;
pub mod reply;
pub mod reserve;
pub mod templates;
pub mod courts;
pub mod reservation;
pub mod account;
