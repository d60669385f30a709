//! Verified core of a two-board sensor application: a client board measures
//! temperature, humidity and pressure and posts the selected reading to a
//! server board, which shows it on a small display and serves a web page.

pub mod sensor;
pub mod page;
pub mod request;
pub mod wifi;
pub mod lock;
