//! Request and reply rules of a home-care scheduling service.
//!
//! The service keeps users, clients and shifts in a relational store and offers
//! them over HTTP. This crate holds what the service decides: which statement a
//! request turns into, which filter of a listing wins, and which reply a store
//! outcome is answered with. Talking to the store and to the network is left to
//! the program around it.

pub mod filters;
pub mod handlers;
pub mod models;
pub mod response;
pub mod routes;
pub mod store;
