//! The verified core of a newsletter subscription service.
//!
//! A subscription request carries a name and an email address. The `domain`
//! module says which names and addresses are acceptable and gives each a type
//! that only acceptable text can inhabit. The `store` module describes the
//! row that records a subscriber. The `routes` module follows one request
//! from the submitted form to that row and to the status the client is
//! answered with.
//!
//! Listening on a socket, decoding the form and talking to the database are
//! left to the program around this library.

pub mod domain;
pub mod store;
pub mod routes;
