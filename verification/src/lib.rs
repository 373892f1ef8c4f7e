//! A hotel back-office booking engine: it validates a proposed stay against
//! the existing reservations of a room, prices it from the room type's
//! nightly rate, and persists the reservation together with its customer
//! contact and audit trail as one atomic step, against an in-memory
//! relational store.  Every operation carries a contract; the store's
//! invariant - no two reservations of one room ever overlap, endpoints
//! included - is proved to hold across every write.

pub mod auth;
pub mod common;
pub mod dates;
pub mod models;
pub mod overlap;
pub mod pricing;
pub mod reservation_service;
pub mod response;
pub mod room_service;
pub mod store;
